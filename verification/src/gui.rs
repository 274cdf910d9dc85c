//! Front-end state: the panels, widgets, dialogs and themes a user
//! interface keeps between frames.  Only the state lives here; drawing
//! belongs to the front-end around the library.

use vstd::prelude::*;

pub mod dialogs;
pub mod panels;
pub mod themes;
pub mod widgets;

verus! {

} // verus!
