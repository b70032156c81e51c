//! A synchronous, reentrant-safe call bridge between a host process and a
//! guest module that runs inside a sandboxed execution environment.
//!
//! The execution environment offers only a flat, byte-addressable linear
//! memory and function calls that pass small scalar values, so every typed
//! call is marshalled through raw offsets and lengths:
//!
//! - a (offset, length) pair is packed into one 64-bit scalar ([`desc`]);
//! - each side owns the growable byte buffers it writes into ([`buffer`]);
//! - payloads cross the boundary as bytes, framed by a codec ([`codec`]);
//! - the guest side exposes construct/destroy/allocate/deallocate entry
//!   points and a dispatch routine, and hands user logic a call context
//!   for nested calls back into the host ([`client`]).
//!
//! [`cool_plugin`] holds a small example plugin wired through the bridge.

use vstd::prelude::*;

pub mod buffer;
pub mod client;
pub mod codec;
pub mod cool_plugin;
pub mod desc;

verus! {

/// A plain greeting, the crate's smallest exported function.
pub fn greeting() -> (r: &'static str)
    ensures
        r@ == "Hello world!"@,
{
    proof {
        reveal_strlit("Hello world!");
    }
    "Hello world!"
}

} // verus!
