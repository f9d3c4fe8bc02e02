//! Why the engine turns a request down, and the words it says so with.

use vstd::prelude::*;
use crate::interval::{MAX_INTERVAL_MS, MIN_INTERVAL_MS};
use crate::text::{decimal_string, decimal_text};

verus! {

/// A request the engine refused. Nothing has changed when one is returned.
#[derive(Clone, Debug, PartialEq, Eq)]
pub enum ClickError {
    /// The interval lies below the shortest one accepted.
    IntervalTooSmall { interval_ms: u64 },
    /// The interval lies above the longest one accepted.
    IntervalTooLarge { interval_ms: u64 },
    /// The button name is none of the three the engine knows.
    InvalidButton { name: String },
    /// A run is already in progress.
    AlreadyRunning,
}

/// The mathematical content of a [`ClickError`].
pub enum Rejection {
    IntervalTooSmall { interval_ms: u64 },
    IntervalTooLarge { interval_ms: u64 },
    InvalidButton { name: Seq<char> },
    AlreadyRunning,
}

impl View for ClickError {
    type V = Rejection;

    open spec fn view(&self) -> Rejection {
        match self {
            ClickError::IntervalTooSmall { interval_ms } => Rejection::IntervalTooSmall {
                interval_ms: *interval_ms,
            },
            ClickError::IntervalTooLarge { interval_ms } => Rejection::IntervalTooLarge {
                interval_ms: *interval_ms,
            },
            ClickError::InvalidButton { name } => Rejection::InvalidButton { name: name@ },
            ClickError::AlreadyRunning => Rejection::AlreadyRunning,
        }
    }
}

impl Rejection {
    /// The message shown to whoever made the request.
    pub open spec fn text(self) -> Seq<char> {
        match self {
            Rejection::IntervalTooSmall { interval_ms } => "Interval too small: "@ + decimal_text(
                interval_ms as nat,
            ) + "ms. Minimum is "@ + decimal_text(MIN_INTERVAL_MS as nat) + "ms"@,
            Rejection::IntervalTooLarge { interval_ms } => "Interval too large: "@ + decimal_text(
                interval_ms as nat,
            ) + "ms. Maximum is "@ + decimal_text(MAX_INTERVAL_MS as nat) + "ms"@,
            Rejection::InvalidButton { name } => "Invalid button type '"@ + name
                + "'. Must be one of: [\"Left\", \"Middle\", \"Right\"]"@,
            Rejection::AlreadyRunning => "Autoclicker is already running"@,
        }
    }
}

impl ClickError {
    /// Renders the error as the message shown to whoever made the request.
    pub fn message(&self) -> (s: String)
        ensures
            s@ == self@.text(),
    {
        match self {
            ClickError::IntervalTooSmall { interval_ms } => {
                let mut s = String::from_str("Interval too small: ");
                s.append(decimal_string(*interval_ms).as_str());
                s.append("ms. Minimum is ");
                s.append(decimal_string(MIN_INTERVAL_MS).as_str());
                s.append("ms");
                s
            },
            ClickError::IntervalTooLarge { interval_ms } => {
                let mut s = String::from_str("Interval too large: ");
                s.append(decimal_string(*interval_ms).as_str());
                s.append("ms. Maximum is ");
                s.append(decimal_string(MAX_INTERVAL_MS).as_str());
                s.append("ms");
                s
            },
            ClickError::InvalidButton { name } => {
                let mut s = String::from_str("Invalid button type '");
                s.append(name.as_str());
                s.append("'. Must be one of: [\"Left\", \"Middle\", \"Right\"]");
                s
            },
            ClickError::AlreadyRunning => String::from_str("Autoclicker is already running"),
        }
    }
}

} // verus!
