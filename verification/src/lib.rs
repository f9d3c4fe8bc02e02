//! A click engine: the state of an automatic mouse clicker, the rules that
//! guard it, and the cycle that drives it.

pub mod button;
pub mod click_loop;
pub mod engine;
pub mod error;
pub mod interval;
pub mod laws;
pub mod text;
