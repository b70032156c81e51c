//! End-to-end exercises of the guest side of the bridge, with a test
//! double standing in for the host-side counterpart.

use plugitin::client::{CallError, Guest, HostImport};
use plugitin::cool_plugin::CoolPlugin;
use plugitin::desc::{pack_buffer_desc, unpack_buffer_desc};

/// The host-side counterpart: owns its own memory, records every request
/// the guest sends, and answers each imported call with a descriptor over
/// a prepared response region.
struct TestHost {
    memory: Vec<u8>,
    response_offset: u32,
    response_length: u32,
    expected_request_index: Option<u32>,
}

impl TestHost {
    fn answering(response: &[u8], response_offset: u32) -> TestHost {
        let mut memory = vec![0u8; response_offset as usize];
        memory.extend_from_slice(response);
        TestHost {
            memory,
            response_offset,
            response_length: response.len() as u32,
            expected_request_index: None,
        }
    }

    /// The same double, additionally insisting that every request it
    /// receives decodes as the variant with `index`.
    fn expecting(mut self, index: u32) -> TestHost {
        self.expected_request_index = Some(index);
        self
    }
}

impl HostImport for TestHost {
    fn host_call(&mut self, _handle: u32, input_packed: u64, request: &[u8]) -> u64 {
        let (offset, length) = unpack_buffer_desc(input_packed);
        assert_eq!(offset, 0);
        assert_eq!(length as usize, request.len());
        if let Some(index) = self.expected_request_index {
            let got: u32 = bincode::deserialize(request).expect("the request image decodes");
            assert_eq!(got, index, "the guest's outbound request decodes as expected");
        }
        pack_buffer_desc(self.response_offset, self.response_length)
    }

    fn read_memory(&self, offset: u32, length: u32) -> Option<Vec<u8>> {
        let end = offset as usize + length as usize;
        if end <= self.memory.len() {
            Some(self.memory[offset as usize..end].to_vec())
        } else {
            None
        }
    }
}

/// The bincode image of a fieldless enum variant: its index as a `u32`.
fn variant(index: u32) -> Vec<u8> {
    bincode::serialize(&index).expect("serializing an integer cannot fail")
}

/// Builds a guest whose host double answers every call with `Qux`, and a
/// live instance inside it.
fn guest_with_qux_host() -> (Guest<CoolPlugin, TestHost>, u32) {
    let mut guest = Guest::new(TestHost::answering(&variant(0), 16));
    let handle = guest.construct().expect("construction never fails on a fresh guest");
    (guest, handle)
}

/// Places `bytes` into fresh guest memory and returns a descriptor over
/// them.
fn place_request(guest: &mut Guest<CoolPlugin, TestHost>, handle: u32, bytes: &[u8]) -> u64 {
    let addr = guest.allocate(handle, bytes.len() as u32, 1).expect("allocation fits");
    guest.write_memory(addr, bytes).expect("the region was just allocated");
    pack_buffer_desc(addr, bytes.len() as u32)
}

#[test]
fn end_to_end_call_returns_bar() {
    let (mut guest, handle) = guest_with_qux_host();
    let request = place_request(&mut guest, handle, &variant(0));
    let reply = guest.client_call(handle, request).expect("a valid call succeeds");
    let (offset, length) = unpack_buffer_desc(reply);
    assert_eq!(offset, 0);
    assert_eq!(length, 4);
    let bytes = guest.read_output(handle, offset, length).expect("the descriptor is valid");
    let index: u32 = bincode::deserialize(&bytes).expect("the response image decodes");
    assert_eq!(index, 0, "the decoded response is Bar");
}

#[test]
fn nested_call_sends_baz_and_consumes_qux() {
    // The double checks that the outbound request decodes as Baz and
    // answers with an encoding of Qux.
    let import = TestHost::answering(&variant(0), 16).expecting(0);
    let mut guest = Guest::new(import);
    let handle = guest.construct().expect("construction never fails on a fresh guest");
    let request = place_request(&mut guest, handle, &variant(0));
    let reply = guest.client_call(handle, request).expect("a valid call succeeds");

    // The plugin produced Bar, which it only does after decoding Qux.
    let (offset, length) = unpack_buffer_desc(reply);
    let bytes = guest.read_output(handle, offset, length).expect("the descriptor is valid");
    let index: u32 = bincode::deserialize(&bytes).expect("the response image decodes");
    assert_eq!(index, 0);
}

#[test]
fn undecodable_host_response_fails_the_call() {
    // The host double answers with three bytes, no full variant image.
    let mut guest: Guest<CoolPlugin, TestHost> =
        Guest::new(TestHost::answering(&[9u8, 9, 9], 0));
    let handle = guest.construct().expect("construction never fails on a fresh guest");
    let request = place_request(&mut guest, handle, &variant(0));
    assert_eq!(guest.client_call(handle, request), Err(CallError::HostCallFailed));
    assert!(guest.is_live(handle));
}

#[test]
fn decode_failure_aborts_without_corrupting_the_instance() {
    let (mut guest, handle) = guest_with_qux_host();

    // Bytes that are not an image of the request type: wrong index.
    let bad = place_request(&mut guest, handle, &variant(7));
    assert_eq!(guest.client_call(handle, bad), Err(CallError::DecodeFailed));

    // Truncated bytes fail the same way.
    let short = place_request(&mut guest, handle, &variant(0)[..3].to_vec());
    assert_eq!(guest.client_call(handle, short), Err(CallError::DecodeFailed));

    // A subsequent valid call on the same handle still succeeds.
    let good = place_request(&mut guest, handle, &variant(0));
    assert!(guest.client_call(handle, good).is_ok());
}

#[test]
fn descriptor_outside_memory_is_rejected() {
    let (mut guest, handle) = guest_with_qux_host();
    let beyond = pack_buffer_desc(0, 4);
    assert_eq!(guest.client_call(handle, beyond), Err(CallError::BadDescriptor));
}

#[test]
fn dead_handle_is_rejected_everywhere() {
    let (mut guest, handle) = guest_with_qux_host();
    let dead = handle + 1;
    assert_eq!(guest.client_call(dead, 0), Err(CallError::InvalidHandle));
    assert_eq!(guest.allocate(dead, 4, 4), Err(CallError::InvalidHandle));
    assert_eq!(guest.deallocate(dead, 0, 4, 4), Err(CallError::InvalidHandle));
    assert_eq!(guest.destroy(dead), Err(CallError::InvalidHandle));
}

#[test]
fn buffers_grow_on_demand_and_never_shrink() {
    let (mut guest, handle) = guest_with_qux_host();

    // Both buffers start at zero capacity.
    assert_eq!(guest.output_capacity(handle), Some(0));
    assert_eq!(guest.outbound_capacity(handle), Some(0));

    // The first call forces a growth event in both directions.
    let request = place_request(&mut guest, handle, &variant(0));
    guest.client_call(handle, request).expect("a valid call succeeds");
    assert_eq!(guest.output_capacity(handle), Some(4));
    assert_eq!(guest.outbound_capacity(handle), Some(4));

    // A second call of the same size neither grows nor shrinks.
    let request = place_request(&mut guest, handle, &variant(0));
    guest.client_call(handle, request).expect("a valid call succeeds");
    assert_eq!(guest.output_capacity(handle), Some(4));
    assert_eq!(guest.outbound_capacity(handle), Some(4));
}

#[test]
fn construct_and_destroy_balance() {
    let (mut guest, first) = guest_with_qux_host();
    let second = guest.construct().expect("construction finds a free handle");
    assert_ne!(first, second);

    assert_eq!(guest.destroy(first), Ok(()));
    assert!(!guest.is_live(first));
    assert!(guest.is_live(second));

    // Destroying twice is a caller error, reported as such.
    assert_eq!(guest.destroy(first), Err(CallError::InvalidHandle));

    // A fresh construction reuses the lowest freed slot.
    let reused = guest.construct().expect("construction finds a free handle");
    assert_eq!(reused, first);
}

#[test]
fn allocation_alignment_and_accounting() {
    let (mut guest, handle) = guest_with_qux_host();
    assert_eq!(guest.outstanding_allocation_bytes(), 0);

    let a = guest.allocate(handle, 3, 1).expect("valid layout");
    assert_eq!(a, 0);
    assert_eq!(guest.outstanding_allocation_bytes(), 3);

    // The next region is aligned up from the 3 bytes already handed out.
    let b = guest.allocate(handle, 5, 8).expect("valid layout");
    assert_eq!(b, 8);
    assert_eq!(b % 8, 0);
    assert_eq!(guest.outstanding_allocation_bytes(), 8);

    assert_eq!(guest.deallocate(handle, a, 3, 1), Ok(()));
    assert_eq!(guest.outstanding_allocation_bytes(), 5);
    assert_eq!(guest.deallocate(handle, b, 5, 8), Ok(()));
    assert_eq!(guest.outstanding_allocation_bytes(), 0);

    // An alignment that is not a power of two is not a valid layout.
    assert_eq!(guest.allocate(handle, 4, 3), Err(CallError::InvalidLayout));
    assert_eq!(guest.allocate(handle, 4, 0), Err(CallError::InvalidLayout));

    // A region that cannot fit the 32-bit address space is refused.
    assert_eq!(guest.allocate(handle, u32::MAX, 2), Err(CallError::OutOfMemory));
}

#[test]
fn write_memory_checks_bounds() {
    let (mut guest, handle) = guest_with_qux_host();
    let addr = guest.allocate(handle, 4, 1).expect("valid layout");
    assert_eq!(guest.write_memory(addr, &[1, 2, 3, 4]), Ok(()));
    assert_eq!(
        guest.write_memory(addr + 1, &[1, 2, 3, 4]),
        Err(CallError::BadDescriptor),
        "a write reaching past the end of memory is refused"
    );
}
