//! Decision logic of a menu-bar sticky note: the note's load and save
//! outcomes, the panel's show/hide state machine, and the tray controller
//! that debounces clicks.
use vstd::prelude::*;

pub mod error;
pub mod note;
pub mod panel;
pub mod tray;

verus! {

} // verus!
