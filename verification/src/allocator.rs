//! The allocator adapter: the allocation contract of the language on top of
//! the two entry points of a raw allocator.
//!
//! The raw allocator owns all strategy. It is handed to the adapter as two
//! functions: one that takes a size in bytes and answers with an address or
//! null, one that takes an address back. The adapter forwards the size of a
//! request and nothing else. In particular the alignment of a request is
//! accepted but not passed on, so the address is as aligned as the raw
//! allocator makes it.

use vstd::prelude::*;
use vstd::arithmetic::power2::is_pow2;
use crate::memory::NULL_ADDRESS;

verus! {

/// Whether `n` is a power of two.
pub fn is_power_of_two(n: usize) -> (yes: bool)
    ensures
        yes == is_pow2(n as int),
{
    proof {
        reveal(is_pow2);
    }
    if n == 0 {
        return false;
    }
    let mut rest = n;
    while rest % 2 == 0
        invariant
            rest > 0,
            is_pow2(rest as int) == is_pow2(n as int),
        decreases rest,
    {
        proof {
            reveal(is_pow2);
        }
        rest = rest / 2;
    }
    rest == 1
}

/// A request for memory: how many bytes, and the alignment asked for, which
/// is a power of two.
#[derive(Clone, Copy, Debug, PartialEq, Eq)]
pub struct AllocationRequest {
    size: usize,
    alignment: usize,
}

impl AllocationRequest {
    #[verifier::type_invariant]
    spec fn alignment_is_power_of_two(self) -> bool {
        is_pow2(self.alignment as int)
    }

    /// The number of bytes asked for.
    pub closed spec fn spec_size(&self) -> usize {
        self.size
    }

    /// The alignment asked for.
    pub closed spec fn spec_alignment(&self) -> usize {
        self.alignment
    }

    /// A request for `size` bytes aligned to `alignment`; none unless
    /// `alignment` is a power of two. The size may be zero.
    pub fn new(size: usize, alignment: usize) -> (request: Option<Self>)
        ensures
            request is Some <==> is_pow2(alignment as int),
            request matches Some(r) ==> r.size() == size && r.alignment() == alignment,
    {
        if is_power_of_two(alignment) {
            Some(AllocationRequest { size, alignment })
        } else {
            None
        }
    }

    /// The number of bytes asked for.
    #[verifier::when_used_as_spec(spec_size)]
    pub fn size(&self) -> (size: usize)
        ensures
            size == self.spec_size(),
    {
        self.size
    }

    /// The alignment asked for, a power of two.
    #[verifier::when_used_as_spec(spec_alignment)]
    pub fn alignment(&self) -> (alignment: usize)
        ensures
            alignment == self.spec_alignment(),
            is_pow2(alignment as int),
    {
        proof {
            use_type_invariant(self);
        }
        self.alignment
    }
}

/// What an allocation gives back: the address of the block, or null where
/// the raw allocator had none to give. Whoever holds the handle owns the
/// block until the handle goes back through `deallocate`, which takes it
/// for good: a handle is neither copied nor cloned.
#[derive(Debug, PartialEq, Eq, Structural)]
pub struct AllocationHandle {
    pub address: usize,
}

impl AllocationHandle {
    /// Whether the handle stands for a failed allocation.
    pub open spec fn spec_is_null(&self) -> bool {
        self.address == NULL_ADDRESS
    }

    /// Whether the handle stands for a failed allocation.
    #[verifier::when_used_as_spec(spec_is_null)]
    pub fn is_null(&self) -> (null: bool)
        ensures
            null == self.spec_is_null(),
    {
        self.address == NULL_ADDRESS
    }
}

/// The adapter over the entry points `raw_allocate` and `raw_release` of a
/// raw allocator.
pub struct BitmapAllocator<A: Fn(usize) -> usize, R: Fn(usize)> {
    raw_allocate: A,
    raw_release: R,
}

impl<A: Fn(usize) -> usize, R: Fn(usize)> BitmapAllocator<A, R> {
    #[verifier::type_invariant]
    spec fn entry_points_take_anything(self) -> bool {
        &&& forall|size: usize| call_requires(self.raw_allocate, (size,))
        &&& forall|address: usize| call_requires(self.raw_release, (address,))
    }

    /// The entry point that allocations are delegated to.
    pub closed spec fn allocate_entry(&self) -> A {
        self.raw_allocate
    }

    /// The entry point that releases are delegated to.
    pub closed spec fn release_entry(&self) -> R {
        self.raw_release
    }

    /// An adapter over the two entry points, which must accept every size
    /// and every address.
    pub fn new(raw_allocate: A, raw_release: R) -> (allocator: Self)
        requires
            forall|size: usize| call_requires(raw_allocate, (size,)),
            forall|address: usize| call_requires(raw_release, (address,)),
        ensures
            allocator.allocate_entry() == raw_allocate,
            allocator.release_entry() == raw_release,
    {
        BitmapAllocator { raw_allocate, raw_release }
    }

    /// Whether `handle` is an answer to `request`: its address is one that
    /// the allocation entry point gives when asked for exactly the size of
    /// the request. The alignment of the request has no part in it.
    pub open spec fn answers(&self, request: AllocationRequest, handle: AllocationHandle) -> bool {
        call_ensures(self.allocate_entry(), (request.size(),), handle.address)
    }

    /// Asks the raw allocator for `request.size()` bytes and hands back what
    /// it answers, null included: failure is reported, not raised. A request
    /// for zero bytes is forwarded like any other, so what it yields is for
    /// the raw allocator to say.
    pub fn allocate(&self, request: &AllocationRequest) -> (handle: AllocationHandle)
        ensures
            self.answers(*request, handle),
    {
        proof {
            use_type_invariant(self);
        }
        let address = (self.raw_allocate)(request.size());
        AllocationHandle { address }
    }

    /// Gives the block of `handle` back to the raw allocator, by its address
    /// alone; `request` is what the block was asked for with and is not
    /// passed on. The address must come from `allocate` and not have been
    /// given back before: nothing here keeps track of that.
    pub fn deallocate(&self, handle: AllocationHandle, request: &AllocationRequest)
        ensures
            call_ensures(self.release_entry(), (handle.address,), ()),
    {
        proof {
            use_type_invariant(self);
        }
        (self.raw_release)(handle.address)
    }

    /// No handle falls short of its request as long as the raw allocator
    /// does not: if every address that the allocation entry point gives for
    /// the size of `request` is null or starts at least that many usable
    /// bytes, then every handle that answers `request` is null or starts at
    /// least that many usable bytes. `usable` gives the number of usable
    /// bytes from an address on.
    pub proof fn lemma_handle_is_null_or_large_enough(
        &self,
        request: AllocationRequest,
        handle: AllocationHandle,
        usable: spec_fn(usize) -> nat,
    )
        requires
            self.answers(request, handle),
            forall|address: usize| #[trigger]
                call_ensures(self.allocate_entry(), (request.size(),), address) ==> address
                    == NULL_ADDRESS || usable(address) >= request.size(),
        ensures
            handle.is_null() || usable(handle.address) >= request.size(),
    {
    }
}

} // verus!
