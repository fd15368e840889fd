//! The few frontend values the core logic decides about.

use vstd::prelude::*;

verus! {

/// The tint of a progress bar.
#[derive(Clone, Copy, Debug, PartialEq, Eq, Structural)]
pub enum ProgressBarColor {
    Normal,
    Error,
    Success,
}

impl Default for ProgressBarColor {
    fn default() -> (r: Self)
        ensures
            r == ProgressBarColor::Normal,
    {
        ProgressBarColor::Normal
    }
}

} // verus!
