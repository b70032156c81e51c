//! The guest side of the call bridge.
//!
//! The guest owns a table of live instances, a linear memory that the host
//! writes request bytes into, and, per instance, the two buffers the guest
//! itself writes: the outbound-call-input buffer and the inbound-call-output
//! buffer. The host addresses an instance only through an opaque integer
//! handle and addresses bytes only through packed descriptors.
//!
//! The far side is reached through a single imported function, modelled by
//! the [`HostImport`] capability; user logic is plugged in through the
//! [`Plugin`] trait and issues outbound calls through the [`Host`] context
//! it is handed for the duration of one inbound dispatch.

use core::marker::PhantomData;

use vstd::arithmetic::div_mod::{lemma_fundamental_div_mod, lemma_mod_multiples_basic};
use vstd::arithmetic::mul::lemma_mul_is_distributive_add;
use vstd::prelude::*;

use crate::buffer::{spec_grow, GrowableBuffer};
use crate::codec::{Decode, Encode};
use crate::desc::{pack_buffer_desc, spec_unpack_length, spec_unpack_offset, unpack_buffer_desc};

verus! {

/// Why a guest entry point refused a call. Every protocol-level failure is
/// fatal for the call it arose in and is reported to the caller at once.
#[derive(Clone, Copy, PartialEq, Eq, Structural, Debug)]
pub enum CallError {
    /// The handle does not address a live instance.
    InvalidHandle,
    /// The requested size/alignment pair is not a valid layout.
    InvalidLayout,
    /// The allocation would not fit in the 32-bit address space.
    OutOfMemory,
    /// The descriptor reaches outside the guest's linear memory.
    BadDescriptor,
    /// The request bytes are not a full, valid image of the request type.
    DecodeFailed,
    /// A nested outbound call did not yield a decodable response.
    HostCallFailed,
}

/// The far side of the bridge, as the guest sees it: the single imported
/// function the guest may invoke while handling a call, plus read access
/// to the far side's memory through a descriptor the far side returned.
/// The host implements this capability; nothing is assumed about it.
pub trait HostImport {
    /// The imported call. `request` is the region of guest memory that
    /// `input_packed` describes, which the real host reads directly; the
    /// return value is a packed descriptor over the host's own memory.
    fn host_call(&mut self, handle: u32, input_packed: u64, request: &[u8]) -> u64;

    /// A read-only view of `length` bytes of host memory at `offset`, for
    /// the duration of the call that produced the descriptor.
    fn read_memory(&self, offset: u32, length: u32) -> Option<Vec<u8>>;
}

/// The per-invocation call context: user logic issues outbound calls to
/// the host through it. It holds the instance's outbound-call-input buffer
/// exclusively for the duration of one inbound dispatch, which is what
/// bars concurrent outbound calls from the same instance. Its view is that
/// buffer's contents.
pub struct Host<In, Out> {
    info: u32,
    host_call_input_buffer: GrowableBuffer,
    _types: PhantomData<(In, Out)>,
}

impl<In, Out> View for Host<In, Out> {
    type V = Seq<u8>;

    closed spec fn view(&self) -> Seq<u8> {
        self.host_call_input_buffer@
    }
}

impl<In, Out> Host<In, Out> {
    /// The handle of the instance this context was built for: the one
    /// every outbound call issued through the context names to the far
    /// side.
    pub closed spec fn info_handle(&self) -> u32 {
        self.info
    }
}

impl<In: Encode, Out: Decode> Host<In, Out> {
    /// A context for one dispatch on the instance behind `info`, taking
    /// the outbound-call-input buffer for the duration of the dispatch.
    pub fn new(info: u32, host_call_input_buffer: GrowableBuffer) -> (r: Self)
        ensures
            r@ == host_call_input_buffer@,
            r.info_handle() == info,
    {
        Host { info, host_call_input_buffer, _types: PhantomData }
    }

    /// Gives the outbound-call-input buffer back when the dispatch ends.
    pub fn into_buffer(self) -> (r: GrowableBuffer)
        ensures
            r@ == self@,
    {
        self.host_call_input_buffer
    }

    /// One outbound call: encodes `input` into the outbound buffer (grown
    /// first if the encoding needs more room), invokes the imported
    /// function with a descriptor over that buffer, and decodes the far
    /// side's response through the descriptor it returned. `None` exactly
    /// when the bytes the far side pointed at are not a valid response
    /// image; the request is encoded and transmitted either way.
    pub fn call<H: HostImport>(&mut self, import: &mut H, input: In) -> (r: Option<Out>)
        ensures
            final(self).info_handle() == old(self).info_handle(),
            final(self)@.len() == spec_grow(old(self)@, input.encoding().len()).len(),
            final(self)@.len() >= old(self)@.len(),
            final(self)@.subrange(0, input.encoding().len() as int) == input.encoding(),
            final(self)@.skip(input.encoding().len() as int) == spec_grow(
                old(self)@,
                input.encoding().len(),
            ).skip(input.encoding().len() as int),
            r matches Some(out) ==> exists|b: Seq<u8>| #[trigger] Out::decodes(b) == Some(out),
    {
        let n = input.encoded_size();
        self.host_call_input_buffer.ensure_capacity(n as usize);
        let bytes = input.encode_to();
        self.host_call_input_buffer.write_prefix(&bytes);
        let input_packed = pack_buffer_desc(0, n);
        let request = self.host_call_input_buffer.read_range(0, n as usize);
        let output_packed = import.host_call(self.info, input_packed, request.as_slice());
        let (output_offset, output_length) = unpack_buffer_desc(output_packed);
        match import.read_memory(output_offset, output_length) {
            None => None,
            Some(response) => {
                let r = Out::decode(response.as_slice());
                proof {
                    if r is Some {
                        assert(Out::decodes(response@) == r);
                    }
                }
                r
            },
        }
    }
}

/// User logic, plugged into the guest side of the bridge. The bridge
/// itself treats the plugin value as opaque; implementors decide what the
/// four payload types are and what a call computes.
pub trait Plugin: Sized {
    /// Requests the host sends to this plugin.
    type ClientCallInput: Decode;

    /// Responses this plugin returns to the host.
    type ClientCallOutput: Encode;

    /// Requests this plugin sends to the host on a nested call.
    type HostCallInput: Encode;

    /// Responses the host returns on a nested call.
    type HostCallOutput: Decode;

    /// A fresh plugin value for a new instance. Never fails.
    fn new() -> Self;

    /// Handles one inbound call. Through `host` and `import` the plugin
    /// may issue any number of outbound calls, strictly one after the
    /// other; `None` aborts the inbound call, which the dispatcher reports
    /// as a failed nested call. The context's buffer may grow during the
    /// call but never shrinks.
    fn call<H: HostImport>(
        &mut self,
        input: &Self::ClientCallInput,
        host: &mut Host<Self::HostCallInput, Self::HostCallOutput>,
        import: &mut H,
    ) -> (r: Option<Self::ClientCallOutput>)
        ensures
            final(host).info_handle() == old(host).info_handle(),
            final(host)@.len() >= old(host)@.len(),
    ;
}

/// The live state of one guest instance: the user's plugin value and the
/// two buffers the guest is responsible for writing into.
pub struct InstanceRecord<P> {
    plugin: P,
    client_call_output_buffer: GrowableBuffer,
    host_call_input_buffer: GrowableBuffer,
}

impl<P> InstanceRecord<P> {
    /// The contents of the inbound-call-output buffer.
    pub closed spec fn output_view(self) -> Seq<u8> {
        self.client_call_output_buffer@
    }

    /// The contents of the outbound-call-input buffer.
    pub closed spec fn outbound_view(self) -> Seq<u8> {
        self.host_call_input_buffer@
    }
}

/// Whether `align` is a valid alignment for a layout request: it must be
/// a power of two.
pub open spec fn spec_layout_ok(align: u32) -> bool {
    align != 0 && (align & (align - 1) as u32) == 0
}

/// The next address at or above `n` that is a multiple of `align`.
pub open spec fn spec_align_up(n: nat, align: nat) -> nat
    recommends
        align > 0,
{
    if n % align == 0 {
        n
    } else {
        (n + (align - n % align)) as nat
    }
}

/// Whether a packed descriptor lies fully inside a memory of `mem.len()`
/// bytes.
pub open spec fn spec_desc_in_bounds(mem: Seq<u8>, packed: u64) -> bool {
    spec_unpack_offset(packed) as nat + spec_unpack_length(packed) as nat <= mem.len()
}

/// The bytes a packed descriptor addresses inside `mem`.
pub open spec fn spec_request_region(mem: Seq<u8>, packed: u64) -> Seq<u8>
    recommends
        spec_desc_in_bounds(mem, packed),
{
    mem.subrange(
        spec_unpack_offset(packed) as int,
        spec_unpack_offset(packed) as int + spec_unpack_length(packed) as int,
    )
}

/// One loaded guest module: its instance table, its linear memory, and the
/// injected imported-call capability. Handles are indices into the table;
/// addresses are offsets into the linear memory. Both stay below 2^32 so
/// that every handle and every descriptor half fits the scalar boundary.
pub struct Guest<P, H> {
    instances: Vec<Option<InstanceRecord<P>>>,
    memory: Vec<u8>,
    import: H,
    outstanding: u64,
}

impl<P, H> Guest<P, H> {
    /// Well-formedness: the table and the memory are addressable by `u32`.
    pub closed spec fn wf(self) -> bool {
        &&& self.instances@.len() <= u32::MAX
        &&& self.memory@.len() <= u32::MAX
        &&& self.outstanding <= self.memory@.len()
    }

    /// The slot a handle addresses, `None` past the table's end.
    pub closed spec fn slot(self, handle: u32) -> Option<InstanceRecord<P>> {
        if handle < self.instances@.len() {
            self.instances@[handle as int]
        } else {
            None
        }
    }

    /// Whether a handle addresses a live instance.
    pub open spec fn live(self, handle: u32) -> bool {
        self.slot(handle) is Some
    }

    /// The set of live handles.
    pub open spec fn live_handles(self) -> Set<u32> {
        Set::new(|h: u32| self.live(h))
    }

    /// How many slots the instance table has, live or not.
    pub closed spec fn table_len(self) -> nat {
        self.instances@.len()
    }

    /// The guest's linear memory.
    pub closed spec fn memory_view(self) -> Seq<u8> {
        self.memory@
    }

    /// The inbound-call-output buffer of a live instance, empty otherwise.
    pub open spec fn output_view(self, handle: u32) -> Seq<u8> {
        match self.slot(handle) {
            Some(rec) => rec.output_view(),
            None => Seq::empty(),
        }
    }

    /// The outbound-call-input buffer of a live instance, empty otherwise.
    pub open spec fn outbound_view(self, handle: u32) -> Seq<u8> {
        match self.slot(handle) {
            Some(rec) => rec.outbound_view(),
            None => Seq::empty(),
        }
    }

    /// Allocation accounting: bytes handed out by `allocate` and not yet
    /// returned through `deallocate`.
    pub closed spec fn outstanding_bytes(self) -> u64 {
        self.outstanding
    }

    /// The allocation accounting, for the far side's bookkeeping: bytes
    /// handed out by `allocate` and not yet returned.
    pub fn outstanding_allocation_bytes(&self) -> (r: u64)
        ensures
            r == self.outstanding_bytes(),
    {
        self.outstanding
    }

    /// A guest with no instances, empty memory and nothing allocated,
    /// holding the injected imported-call capability.
    pub fn new(import: H) -> (r: Self)
        ensures
            r.wf(),
            r.table_len() == 0,
            r.memory_view() =~= Seq::<u8>::empty(),
            r.outstanding_bytes() == 0,
            forall|g: u32| !r.live(g),
    {
        Guest { instances: Vec::new(), memory: Vec::new(), import, outstanding: 0 }
    }

    /// Whether `handle` addresses a live instance.
    pub fn is_live(&self, handle: u32) -> (r: bool)
        requires
            self.wf(),
        ensures
            r == self.live(handle),
    {
        (handle as usize) < self.instances.len() && self.instances[handle as usize].is_some()
    }

    /// The current capacity of a live instance's inbound-call-output
    /// buffer.
    pub fn output_capacity(&self, handle: u32) -> (r: Option<usize>)
        requires
            self.wf(),
        ensures
            r matches Some(n) ==> self.live(handle) && n == self.output_view(handle).len(),
            r is None <==> !self.live(handle),
    {
        if self.is_live(handle) {
            match &self.instances[handle as usize] {
                Some(rec) => Some(rec.client_call_output_buffer.capacity()),
                None => None,
            }
        } else {
            None
        }
    }

    /// The current capacity of a live instance's outbound-call-input
    /// buffer.
    pub fn outbound_capacity(&self, handle: u32) -> (r: Option<usize>)
        requires
            self.wf(),
        ensures
            r matches Some(n) ==> self.live(handle) && n == self.outbound_view(handle).len(),
            r is None <==> !self.live(handle),
    {
        if self.is_live(handle) {
            match &self.instances[handle as usize] {
                Some(rec) => Some(rec.host_call_input_buffer.capacity()),
                None => None,
            }
        } else {
            None
        }
    }
}

impl<P: Plugin, H: HostImport> Guest<P, H> {
    /// A record for a freshly constructed instance: a new plugin value and
    /// two zero-capacity buffers, so that the first payload in either
    /// direction exercises the growth path.
    fn fresh_record() -> (r: InstanceRecord<P>)
        ensures
            r.output_view().len() == 0,
            r.outbound_view().len() == 0,
    {
        InstanceRecord {
            plugin: P::new(),
            client_call_output_buffer: GrowableBuffer::new(),
            host_call_input_buffer: GrowableBuffer::new(),
        }
    }

    /// Builds a fresh instance and returns its handle: the lowest free
    /// table slot, or one past the table's end when every slot is live.
    /// Fails only when every `u32` is a live handle, when no free handle
    /// is left to return.
    pub fn construct(&mut self) -> (r: Option<u32>)
        requires
            old(self).wf(),
        ensures
            final(self).wf(),
            final(self).memory_view() == old(self).memory_view(),
            final(self).outstanding_bytes() == old(self).outstanding_bytes(),
            r matches Some(h) ==> {
                &&& !old(self).live(h)
                &&& final(self).live(h)
                &&& final(self).output_view(h).len() == 0
                &&& final(self).outbound_view(h).len() == 0
                &&& forall|g: u32| g != h ==> final(self).slot(g) == old(self).slot(g)
                &&& final(self).live_handles() == old(self).live_handles().insert(h)
            },
            r is None ==> *final(self) == *old(self),
            r is None <==> (old(self).table_len() == u32::MAX && forall|g: u32|
                g < u32::MAX ==> old(self).live(g)),
    {
        let n = self.instances.len();
        let mut free: usize = n;
        let mut i: usize = 0;
        while i < n
            invariant
                i <= n,
                n == self.instances@.len(),
                free <= n,
                free == n ==> forall|j: int| 0 <= j < i ==> self.instances@[j] is Some,
                free < n ==> self.instances@[free as int] is None,
            decreases n - i,
        {
            if free == n && self.instances[i].is_none() {
                free = i;
            }
            i = i + 1;
        }
        if free < n {
            let h = free as u32;
            proof {
                assert(!old(self).live(h));
            }
            self.instances[free] = Some(Self::fresh_record());
            proof {
                assert(self.live_handles() =~= old(self).live_handles().insert(h)) by {
                    assert forall|g: u32| self.live(g) == (old(self).live(g) || g == h) by {
                        if g != h {
                            assert(self.slot(g) == old(self).slot(g));
                        }
                    }
                }
            }
            Some(h)
        } else if n < (u32::MAX as usize) {
            let h = n as u32;
            self.instances.push(Some(Self::fresh_record()));
            proof {
                assert forall|g: u32| g != h implies self.slot(g) == old(self).slot(g) by {
                    if g < n as u32 {
                        assert(self.instances@[g as int] == old(self).instances@[g as int]);
                    }
                }
                assert(self.live_handles() =~= old(self).live_handles().insert(h)) by {
                    assert forall|g: u32| self.live(g) == (old(self).live(g) || g == h) by {
                        if g != h {
                            assert(self.slot(g) == old(self).slot(g));
                        }
                    }
                }
            }
            Some(h)
        } else {
            proof {
                assert forall|g: u32| g < u32::MAX implies old(self).live(g) by {
                    assert(old(self).instances@[g as int] is Some);
                }
            }
            None
        }
    }

    /// Reclaims the instance a live handle addresses; the record and the
    /// buffers it owns are dropped with the slot. Fails exactly on a
    /// handle that addresses no live instance, and then changes nothing.
    pub fn destroy(&mut self, handle: u32) -> (r: Result<(), CallError>)
        requires
            old(self).wf(),
        ensures
            final(self).wf(),
            r is Ok <==> old(self).live(handle),
            r == Err::<(), CallError>(CallError::InvalidHandle) <==> !old(self).live(handle),
            r is Err ==> *final(self) == *old(self),
            r is Ok ==> {
                &&& !final(self).live(handle)
                &&& forall|g: u32| g != handle ==> final(self).slot(g) == old(self).slot(g)
                &&& final(self).live_handles() == old(self).live_handles().remove(handle)
                &&& final(self).memory_view() == old(self).memory_view()
                &&& final(self).outstanding_bytes() == old(self).outstanding_bytes()
                &&& final(self).table_len() == old(self).table_len()
            },
    {
        if !self.is_live(handle) {
            return Err(CallError::InvalidHandle);
        }
        self.instances[handle as usize] = None;
        proof {
            assert(self.live_handles() =~= old(self).live_handles().remove(handle)) by {
                assert forall|g: u32| self.live(g) == (old(self).live(g) && g != handle) by {
                    if g != handle {
                        assert(self.slot(g) == old(self).slot(g));
                    }
                }
            }
        }
        Ok(())
    }

    /// Obtains `size` bytes at alignment `align` from the guest's linear
    /// memory, so that the host can place request bytes into guest memory
    /// before a call. The new region is zero-initialized and starts at the
    /// lowest aligned address past everything handed out before. Fails
    /// exactly on a dead handle, an alignment that is not a power of two,
    /// or a region that would not fit the 32-bit address space; a failed
    /// call changes nothing.
    pub fn allocate(&mut self, handle: u32, size: u32, align: u32) -> (r: Result<
        u32,
        CallError,
    >)
        requires
            old(self).wf(),
        ensures
            final(self).wf(),
            r is Ok <==> old(self).live(handle) && spec_layout_ok(align) && spec_align_up(
                old(self).memory_view().len(),
                align as nat,
            ) + size <= u32::MAX,
            r == Err::<u32, CallError>(CallError::InvalidHandle) <==> !old(self).live(handle),
            old(self).live(handle) ==> (r == Err::<u32, CallError>(CallError::InvalidLayout)
                <==> !spec_layout_ok(align)),
            old(self).live(handle) && spec_layout_ok(align) ==> (r == Err::<u32, CallError>(
                CallError::OutOfMemory,
            ) <==> spec_align_up(old(self).memory_view().len(), align as nat) + size
                > u32::MAX),
            r is Err ==> *final(self) == *old(self),
            r matches Ok(addr) ==> {
                &&& addr as nat == spec_align_up(old(self).memory_view().len(), align as nat)
                &&& addr as nat % align as nat == 0
                &&& final(self).memory_view().len() == addr + size
                &&& final(self).memory_view().subrange(
                    0,
                    old(self).memory_view().len() as int,
                ) == old(self).memory_view()
                &&& forall|j: int|
                    old(self).memory_view().len() <= j < final(self).memory_view().len()
                        ==> final(self).memory_view()[j] == 0
                &&& forall|g: u32| final(self).slot(g) == old(self).slot(g)
                &&& final(self).outstanding_bytes() == old(self).outstanding_bytes() + size
            },
    {
        if !self.is_live(handle) {
            return Err(CallError::InvalidHandle);
        }
        if align == 0 || (align & (align - 1)) != 0 {
            return Err(CallError::InvalidLayout);
        }
        let base = self.memory.len() as u32;
        let rem = base % align;
        let pad: u32 = if rem == 0 {
            0
        } else {
            align - rem
        };
        let addr64 = (base as u64) + (pad as u64);
        if addr64 + (size as u64) > (u32::MAX as u64) {
            return Err(CallError::OutOfMemory);
        }
        let addr = addr64 as u32;
        proof {
            assert(addr as nat == spec_align_up(self.memory@.len(), align as nat));
            if rem != 0 {
                lemma_fundamental_div_mod(base as int, align as int);
                let q = base as int / align as int;
                lemma_mul_is_distributive_add(align as int, q, 1);
                assert(addr as int == align as int * (q + 1));
                lemma_mod_multiples_basic(q + 1, align as int);
                assert((align as int * (q + 1)) % (align as int) == 0) by {
                    assert(align as int * (q + 1) == (q + 1) * align as int)
                        by (nonlinear_arith);
                }
            }
        }
        let new_len = (addr as u64 + size as u64) as usize;
        let ghost old_mem = self.memory@;
        proof {
            assert(old_mem.len() <= addr as nat);
            assert(new_len == addr as nat + size as nat);
        }
        while self.memory.len() < new_len
            invariant
                old_mem.len() <= self.memory@.len() <= new_len,
                new_len <= u32::MAX,
                self.memory@.subrange(0, old_mem.len() as int) == old_mem,
                forall|j: int|
                    old_mem.len() <= j < self.memory@.len() ==> self.memory@[j] == 0,
                self.instances@ == old(self).instances@,
                self.outstanding == old(self).outstanding,
                self.outstanding <= old_mem.len(),
            decreases new_len - self.memory@.len(),
        {
            self.memory.push(0u8);
            proof {
                assert(self.memory@.subrange(0, old_mem.len() as int) =~= old_mem);
            }
        }
        self.outstanding = self.outstanding + size as u64;
        Ok(addr)
    }

    /// Releases memory previously returned by `allocate` with the same
    /// size and alignment. The bridge trusts the far side's bookkeeping:
    /// only the accounting is adjusted, saturating at zero rather than
    /// detecting a mismatched return. Fails exactly on a dead handle, and
    /// then changes nothing.
    pub fn deallocate(&mut self, handle: u32, _ptr: u32, size: u32, _align: u32) -> (r: Result<
        (),
        CallError,
    >)
        requires
            old(self).wf(),
        ensures
            final(self).wf(),
            r is Ok <==> old(self).live(handle),
            r == Err::<(), CallError>(CallError::InvalidHandle) <==> !old(self).live(handle),
            r is Err ==> *final(self) == *old(self),
            r is Ok ==> {
                &&& final(self).outstanding_bytes() == if size as u64 <= old(
                    self,
                ).outstanding_bytes() {
                    (old(self).outstanding_bytes() - size as u64) as u64
                } else {
                    0u64
                }
                &&& final(self).memory_view() == old(self).memory_view()
                &&& forall|g: u32| final(self).slot(g) == old(self).slot(g)
                &&& final(self).table_len() == old(self).table_len()
            },
    {
        if !self.is_live(handle) {
            return Err(CallError::InvalidHandle);
        }
        if size as u64 <= self.outstanding {
            self.outstanding = self.outstanding - size as u64;
        } else {
            self.outstanding = 0;
        }
        Ok(())
    }

    /// Places `bytes` into the guest's linear memory at `offset`, the way
    /// the host fills a region it obtained from `allocate` before issuing
    /// a call. Fails exactly when the region reaches outside the memory,
    /// and then changes nothing.
    pub fn write_memory(&mut self, offset: u32, bytes: &[u8]) -> (r: Result<(), CallError>)
        requires
            old(self).wf(),
        ensures
            final(self).wf(),
            r is Ok <==> offset as nat + bytes@.len() <= old(self).memory_view().len(),
            r is Err ==> r == Err::<(), CallError>(CallError::BadDescriptor) && *final(self)
                == *old(self),
            r is Ok ==> {
                &&& final(self).memory_view().len() == old(self).memory_view().len()
                &&& final(self).memory_view().subrange(
                    offset as int,
                    offset as int + bytes@.len() as int,
                ) == bytes@
                &&& forall|j: int|
                    0 <= j < offset ==> final(self).memory_view()[j] == old(
                        self,
                    ).memory_view()[j]
                &&& forall|j: int|
                    offset as int + bytes@.len() <= j < final(self).memory_view().len()
                        ==> final(self).memory_view()[j] == old(self).memory_view()[j]
                &&& forall|g: u32| final(self).slot(g) == old(self).slot(g)
                &&& final(self).outstanding_bytes() == old(self).outstanding_bytes()
            },
    {
        let n = self.memory.len();
        if offset as usize > n || bytes.len() > n - offset as usize {
            return Err(CallError::BadDescriptor);
        }
        let mut i: usize = 0;
        while i < bytes.len()
            invariant
                i <= bytes@.len(),
                offset as nat + bytes@.len() <= self.memory@.len(),
                self.memory@.len() == n,
                self.instances@ == old(self).instances@,
                self.outstanding == old(self).outstanding,
                forall|j: int|
                    offset <= j < offset + i ==> self.memory@[j] == bytes@[j - offset],
                forall|j: int| 0 <= j < offset ==> self.memory@[j] == old(self).memory@[j],
                forall|j: int|
                    offset + i <= j < self.memory@.len() ==> self.memory@[j] == old(
                        self,
                    ).memory@[j],
            decreases bytes@.len() - i,
        {
            self.memory[offset as usize + i] = bytes[i];
            i = i + 1;
        }
        proof {
            assert(self.memory@.subrange(offset as int, offset as int + bytes@.len() as int)
                =~= bytes@);
        }
        Ok(())
    }

    /// Copies a region out of the guest's linear memory.
    fn read_memory_region(&self, offset: usize, len: usize) -> (r: Vec<u8>)
        requires
            offset + len <= self.memory_view().len(),
        ensures
            r@ == self.memory_view().subrange(offset as int, offset as int + len as int),
    {
        let n = self.memory.len();
        let mut out: Vec<u8> = Vec::new();
        let mut i: usize = 0;
        while i < len
            invariant
                i <= len,
                offset + len <= self.memory@.len(),
                self.memory@.len() == n,
                out@.len() == i,
                forall|j: int| 0 <= j < i ==> out@[j] == self.memory@[offset as int + j],
            decreases len - i,
        {
            out.push(self.memory[offset + i]);
            i = i + 1;
        }
        proof {
            assert(out@ =~= self.memory@.subrange(offset as int, offset as int + len as int));
        }
        out
    }

    /// Dispatches one inbound call. The packed descriptor addresses the
    /// request bytes the host placed in guest memory; they are decoded as
    /// the plugin's request type, the plugin runs with a fresh call
    /// context over the instance's outbound buffer, and its response is
    /// encoded into the instance's output buffer, grown first if the
    /// encoding needs more room. The returned descriptor addresses the
    /// response image at the start of that buffer; it stays valid until
    /// the next call into this instance's entry points.
    ///
    /// Each failure is reported as the error that names it: a dead
    /// handle, a descriptor outside memory, request bytes that do not
    /// decode (the instance is then left exactly as it was), or a nested
    /// outbound call whose response did not decode.
    pub fn client_call(&mut self, handle: u32, input_packed: u64) -> (r: Result<u64, CallError>)
        requires
            old(self).wf(),
        ensures
            final(self).wf(),
            final(self).memory_view() == old(self).memory_view(),
            final(self).table_len() == old(self).table_len(),
            final(self).outstanding_bytes() == old(self).outstanding_bytes(),
            final(self).live(handle) == old(self).live(handle),
            forall|g: u32| g != handle ==> final(self).slot(g) == old(self).slot(g),
            r == Err::<u64, CallError>(CallError::InvalidHandle) <==> !old(self).live(handle),
            old(self).live(handle) ==> (r == Err::<u64, CallError>(CallError::BadDescriptor)
                <==> !spec_desc_in_bounds(old(self).memory_view(), input_packed)),
            old(self).live(handle) && spec_desc_in_bounds(old(self).memory_view(), input_packed)
                ==> (r == Err::<u64, CallError>(CallError::DecodeFailed)
                <==> P::ClientCallInput::decodes(
                spec_request_region(old(self).memory_view(), input_packed),
            ) is None),
            (r == Err::<u64, CallError>(CallError::InvalidHandle) || r == Err::<u64, CallError>(
                CallError::BadDescriptor,
            ) || r == Err::<u64, CallError>(CallError::DecodeFailed)) ==> *final(self) == *old(
                self,
            ),
            old(self).live(handle) && spec_desc_in_bounds(old(self).memory_view(), input_packed)
                && P::ClientCallInput::decodes(
                spec_request_region(old(self).memory_view(), input_packed),
            ) is Some ==> (r matches Ok(_) || r == Err::<u64, CallError>(
                CallError::HostCallFailed,
            )),
            r == Err::<u64, CallError>(CallError::HostCallFailed) ==> {
                &&& final(self).output_view(handle) == old(self).output_view(handle)
                &&& final(self).outbound_view(handle).len() >= old(self).outbound_view(
                    handle,
                ).len()
            },
            r matches Ok(d) ==> {
                &&& spec_unpack_offset(d) == 0
                &&& spec_unpack_length(d) as nat <= final(self).output_view(handle).len()
                &&& exists|out: P::ClientCallOutput|
                    final(self).output_view(handle).subrange(
                        0,
                        spec_unpack_length(d) as int,
                    ) == #[trigger] out.encoding()
                &&& final(self).output_view(handle).len() == spec_grow(
                    old(self).output_view(handle),
                    spec_unpack_length(d) as nat,
                ).len()
                &&& final(self).output_view(handle).skip(spec_unpack_length(d) as int)
                    == spec_grow(
                    old(self).output_view(handle),
                    spec_unpack_length(d) as nat,
                ).skip(spec_unpack_length(d) as int)
                &&& final(self).output_view(handle).len() >= old(self).output_view(
                    handle,
                ).len()
                &&& final(self).outbound_view(handle).len() >= old(self).outbound_view(
                    handle,
                ).len()
            },
    {
        let (input_offset, input_length) = unpack_buffer_desc(input_packed);
        if !self.is_live(handle) {
            return Err(CallError::InvalidHandle);
        }
        let n = self.memory.len();
        if input_offset as usize > n || input_length as usize > n - input_offset as usize {
            return Err(CallError::BadDescriptor);
        }
        let request = self.read_memory_region(input_offset as usize, input_length as usize);
        let input = match P::ClientCallInput::decode(request.as_slice()) {
            Some(input) => input,
            None => {
                return Err(CallError::DecodeFailed);
            },
        };
        let rec_opt = self.instances[handle as usize].take();
        let rec = match rec_opt {
            Some(rec) => rec,
            None => {
                // The slot was seen live above, so this arm cannot run.
                return Err(CallError::InvalidHandle);
            },
        };
        let InstanceRecord { mut plugin, mut client_call_output_buffer, host_call_input_buffer } =
            rec;
        let mut host: Host<P::HostCallInput, P::HostCallOutput> = Host::new(
            handle,
            host_call_input_buffer,
        );
        let output = plugin.call(&input, &mut host, &mut self.import);
        let host_call_input_buffer = host.into_buffer();
        match output {
            None => {
                self.instances[handle as usize] = Some(
                    InstanceRecord { plugin, client_call_output_buffer, host_call_input_buffer },
                );
                Err(CallError::HostCallFailed)
            },
            Some(output) => {
                let n = output.encoded_size();
                client_call_output_buffer.ensure_capacity(n as usize);
                let bytes = output.encode_to();
                client_call_output_buffer.write_prefix(&bytes);
                self.instances[handle as usize] = Some(
                    InstanceRecord { plugin, client_call_output_buffer, host_call_input_buffer },
                );
                let d = pack_buffer_desc(0, n);
                proof {
                    crate::desc::lemma_pack_unpack_roundtrip(0, n);
                    assert(self.output_view(handle).subrange(0, n as int) == output.encoding());
                }
                Ok(d)
            },
        }
    }

    /// The consumer's read through a descriptor it was given: copies
    /// `length` bytes at `offset` out of a live instance's inbound-call-
    /// output buffer. Fails exactly on a dead handle or a region outside
    /// the buffer.
    pub fn read_output(&self, handle: u32, offset: u32, length: u32) -> (r: Option<Vec<u8>>)
        requires
            self.wf(),
        ensures
            r is Some <==> self.live(handle) && offset as nat + length as nat <= self.output_view(
                handle,
            ).len(),
            r matches Some(v) ==> v@ == self.output_view(handle).subrange(
                offset as int,
                offset as int + length as int,
            ),
    {
        if !self.is_live(handle) {
            return None;
        }
        match &self.instances[handle as usize] {
            Some(rec) => {
                let n = rec.client_call_output_buffer.capacity();
                if offset as usize > n || length as usize > n - offset as usize {
                    return None;
                }
                Some(rec.client_call_output_buffer.read_range(offset as usize, length as usize))
            },
            None => None,
        }
    }
}

/// Construct/destroy balance: destroying the handle that a construction
/// returned restores the set of live handles, and with the slot goes
/// everything the instance record owned, its plugin value and both of its
/// buffers.
pub proof fn lemma_construct_destroy_balance(live: Set<u32>, handle: u32)
    requires
        !live.contains(handle),
    ensures
        live.insert(handle).remove(handle) == live,
{
    assert(live.insert(handle).remove(handle) =~= live);
}

} // verus!
