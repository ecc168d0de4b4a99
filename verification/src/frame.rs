//! A rendered display frame: plain text lines in display order plus
//! an emphasis hint derived from whether the accumulator is running.
//! Turning a frame into terminal control sequences is the output
//! adapter's business.

use vstd::prelude::*;

verus! {

/// One frame of display output.
#[derive(Debug)]
pub struct Frame {
    pub lines: Vec<String>,
    pub running: bool,
}

} // verus!
