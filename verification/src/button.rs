//! The mouse buttons the engine can click, and the validation that turns a
//! requested name into one of them.

use vstd::prelude::*;
use crate::error::{ClickError, Rejection};

verus! {

/// A mouse button the engine can press and release.
#[derive(Clone, Copy, Debug, PartialEq, Eq, Structural)]
pub enum MouseButton {
    Left,
    Middle,
    Right,
}

impl MouseButton {
    /// The name a button is requested and reported by.
    pub open spec fn name_text(self) -> Seq<char> {
        match self {
            MouseButton::Left => "Left"@,
            MouseButton::Middle => "Middle"@,
            MouseButton::Right => "Right"@,
        }
    }

    /// The name a button is requested and reported by.
    pub fn name(self) -> (s: &'static str)
        ensures
            s@ == self.name_text(),
    {
        match self {
            MouseButton::Left => "Left",
            MouseButton::Middle => "Middle",
            MouseButton::Right => "Right",
        }
    }
}

/// The button a name stands for: exactly `Left`, `Middle` and `Right` are
/// names, letter case included.
pub open spec fn button_named(name: Seq<char>) -> Option<MouseButton> {
    if name == "Left"@ {
        Some(MouseButton::Left)
    } else if name == "Middle"@ {
        Some(MouseButton::Middle)
    } else if name == "Right"@ {
        Some(MouseButton::Right)
    } else {
        None
    }
}

/// The outcome of validating a requested button name.
pub open spec fn button_verdict(name: Seq<char>) -> Result<MouseButton, Rejection> {
    match button_named(name) {
        Some(button) => Ok(button),
        None => Err(Rejection::InvalidButton { name }),
    }
}

/// Every button is found again by its own name.
pub proof fn lemma_name_round_trip(button: MouseButton)
    ensures
        button_named(button.name_text()) == Some(button),
{
    reveal_strlit("Left");
    reveal_strlit("Middle");
    reveal_strlit("Right");
    assert("Left"@.len() == 4 && "Middle"@.len() == 6 && "Right"@.len() == 5);
}

/// A name is accepted only if it is the name of the button it yields.
pub proof fn lemma_named_button_has_name(name: Seq<char>)
    ensures
        button_named(name) matches Some(button) ==> button.name_text() == name,
{
}

fn same_text(a: &str, b: &str) -> (r: bool)
    ensures
        r == (a@ == b@),
{
    let left = a.to_owned();
    let right = b.to_owned();
    left == right
}

/// Checks a requested button name. Accepts exactly `Left`, `Middle` and
/// `Right`; any other name comes back inside the error.
pub fn validate_button(button: &str) -> (r: Result<MouseButton, ClickError>)
    ensures
        match button_verdict(button@) {
            Ok(found) => r == Ok::<MouseButton, ClickError>(found),
            Err(rejection) => r is Err && r->Err_0@ == rejection,
        },
{
    if same_text(button, "Left") {
        Ok(MouseButton::Left)
    } else if same_text(button, "Middle") {
        Ok(MouseButton::Middle)
    } else if same_text(button, "Right") {
        Ok(MouseButton::Right)
    } else {
        Err(ClickError::InvalidButton { name: button.to_owned() })
    }
}

} // verus!
