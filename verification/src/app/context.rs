//! What the drawer beside the tasks can show.

use vstd::prelude::*;

verus! {

/// What the drawer beside the tasks can show.
#[derive(Clone, Copy, Debug, PartialEq, Eq, Structural)]
pub enum ContextPage {
    About,
    Settings,
    TaskDetails,
}

} // verus!
