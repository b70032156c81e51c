//! A small example plugin wired through the bridge.
//!
//! The guest holds a request type with a single variant `Foo` and a
//! response type with a single variant `Bar`; while handling `Foo` it
//! issues one outbound call with request `Baz` and insists on the
//! response `Qux` before producing `Bar`. Each payload travels as the
//! four-byte image of its variant index.

use vstd::bytes::spec_u32_to_le_bytes;
use vstd::prelude::*;

use crate::client::{Host, HostImport, Plugin};
use crate::codec::{encode_variant_index, is_variant_index, variant_index_len, Decode, Encode};

verus! {

/// Requests the host sends to the example plugin.
#[derive(Clone, Copy, PartialEq, Eq, Structural, Debug)]
pub enum ClientInput {
    Foo,
}

/// Responses the example plugin returns to the host.
#[derive(Clone, Copy, PartialEq, Eq, Structural, Debug)]
pub enum ClientOutput {
    Bar,
}

/// Requests the example plugin sends to the host on a nested call.
#[derive(Clone, Copy, PartialEq, Eq, Structural, Debug)]
pub enum HostInput {
    Baz,
}

/// Responses the host returns on a nested call.
#[derive(Clone, Copy, PartialEq, Eq, Structural, Debug)]
pub enum HostOutput {
    Qux,
}

impl Decode for ClientInput {
    open spec fn decodes(bytes: Seq<u8>) -> Option<ClientInput> {
        if bytes == spec_u32_to_le_bytes(0u32) {
            Some(ClientInput::Foo)
        } else {
            None
        }
    }

    fn decode(bytes: &[u8]) -> (r: Option<ClientInput>) {
        if is_variant_index(bytes, 0) {
            Some(ClientInput::Foo)
        } else {
            None
        }
    }
}

impl Encode for ClientOutput {
    open spec fn encoding(&self) -> Seq<u8> {
        spec_u32_to_le_bytes(0u32)
    }

    fn encoded_size(&self) -> (n: u32) {
        variant_index_len(0)
    }

    fn encode_to(&self) -> (r: Vec<u8>) {
        encode_variant_index(0)
    }
}

impl Encode for HostInput {
    open spec fn encoding(&self) -> Seq<u8> {
        spec_u32_to_le_bytes(0u32)
    }

    fn encoded_size(&self) -> (n: u32) {
        variant_index_len(0)
    }

    fn encode_to(&self) -> (r: Vec<u8>) {
        encode_variant_index(0)
    }
}

impl Decode for HostOutput {
    open spec fn decodes(bytes: Seq<u8>) -> Option<HostOutput> {
        if bytes == spec_u32_to_le_bytes(0u32) {
            Some(HostOutput::Qux)
        } else {
            None
        }
    }

    fn decode(bytes: &[u8]) -> (r: Option<HostOutput>) {
        if is_variant_index(bytes, 0) {
            Some(HostOutput::Qux)
        } else {
            None
        }
    }
}

/// The example plugin itself. It keeps no state of its own.
pub struct CoolPlugin {}

impl Plugin for CoolPlugin {
    type ClientCallInput = ClientInput;

    type ClientCallOutput = ClientOutput;

    type HostCallInput = HostInput;

    type HostCallOutput = HostOutput;

    fn new() -> Self {
        CoolPlugin {  }
    }

    /// Handles `Foo`: one outbound `Baz`, and only a decoded `Qux` in
    /// return lets the plugin answer `Bar`. Afterwards the outbound
    /// buffer holds the four-byte image of `Baz`, and any success is the
    /// `Bar` response.
    fn call<H: HostImport>(
        &mut self,
        input: &ClientInput,
        host: &mut Host<HostInput, HostOutput>,
        import: &mut H,
    ) -> (r: Option<ClientOutput>)
        ensures
            final(host)@.len() >= 4,
            final(host)@.subrange(0, 4) == spec_u32_to_le_bytes(0u32),
            r matches Some(o) ==> o == ClientOutput::Bar,
    {
        match *input {
            ClientInput::Foo => {
                let response = host.call(import, HostInput::Baz);
                proof {
                    vstd::bytes::lemma_auto_spec_u32_to_from_le_bytes();
                }
                match response {
                    Some(HostOutput::Qux) => Some(ClientOutput::Bar),
                    None => None,
                }
            },
        }
    }
}

} // verus!
