//! Types shared by the host and the core.

use vstd::prelude::*;

verus! {

/// The eight inputs of the console.
#[derive(Debug, Copy, Clone, PartialEq, Eq, Structural)]
pub enum GbKey {
    Right,
    Left,
    Up,
    Down,
    A,
    B,
    Select,
    Start,
}

} // verus!
