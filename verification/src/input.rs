//! Abstract commands delivered to a controller. Decoding raw key
//! events into this set is the input adapter's business and stays
//! outside the verified core.

use vstd::prelude::*;

verus! {

/// One abstract input event.
#[derive(Debug, Clone, Copy, PartialEq, Eq, Structural)]
pub enum Command {
    Pause,
    Resume,
    Toggle,
    Enter,
    Quit,
    Skip,
    Yes,
    No,
}

} // verus!
