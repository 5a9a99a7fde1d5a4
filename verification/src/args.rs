//! What the program was asked to do, as the command line gives it.

use vstd::prelude::*;

verus! {

/// The arguments of one run.
pub struct Args {
    /// The command to run; without one the list is only shown.
    pub command: Option<Commands>,
}

/// The commands of the list. Items are named by their position in the
/// listing, counted from 0.
pub enum Commands {
    /// Add one item for each title.
    Add { titles: Vec<String> },
    /// Mark the items at these positions as done.
    Done { ids: Vec<usize> },
    /// Mark the items at these positions as not done.
    Undone { ids: Vec<usize> },
    /// Remove the items at these positions.
    Remove { ids: Vec<usize> },
    /// Remove every item that is done.
    Clear,
    /// Show the list.
    Print,
}

} // verus!
