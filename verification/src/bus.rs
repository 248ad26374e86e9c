//! What the library hands to the code that drives the peripheral bus.
//!
//! Nothing here touches memory. An operation on a register yields the
//! loads and stores that have to be issued, in order, and takes as
//! arguments the words that were loaded for it.

use vstd::prelude::*;

verus! {

/// One word to be loaded from one address of the peripheral bus.
#[derive(Clone, Copy, Debug, PartialEq, Eq, Structural)]
pub struct Load {
    pub address: u32,
}

/// One word to be stored at one address of the peripheral bus.
#[derive(Clone, Copy, Debug, PartialEq, Eq, Structural)]
pub struct Store {
    pub address: u32,
    pub word: u32,
}

} // verus!
