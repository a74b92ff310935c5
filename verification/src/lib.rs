//! Core of a heap-allocation observatory: the record store, the shared state,
//! the reentrancy flags, the detour dispatch rules and the request protocol,
//! each with a machine-checked contract.

use vstd::prelude::*;

pub use catcher::{AllocationCatcher, Options};
pub use detour::AllocationHandler;
pub use handler::StorageAllocationHandler;
pub use packet::PacketId;
pub use server::SimpleServer;
pub use state::{Configuration, State, Statistics};
pub use storage::{AllocationsStorage, BtreeMapStorage};

pub mod buffer;
pub mod catcher;
pub mod client;
pub mod detour;
pub mod flag;
pub mod framing;
pub mod handler;
pub mod packet;
pub mod proto;
pub mod server;
pub mod state;
pub mod storage;
pub mod trace;

verus! {

/// Width of a machine word in bytes, as a specification value.
pub open spec fn spec_wordsize() -> nat {
    vstd::layout::size_of::<usize>()
}

/// Width of a machine word in bytes, reported to clients so that they can
/// interpret raw stack words.
pub fn wordsize() -> (w: u32)
    ensures
        w as nat == spec_wordsize(),
        w * 8 == usize::BITS,
        w == 4 || w == 8,
{
    broadcast use vstd::layout::layout_of_primitives;

    let size: usize = core::mem::size_of::<usize>();
    assert(size * 8 == usize::BITS);
    size as u32
}

} // verus!
