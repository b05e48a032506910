//! A window of physical memory that the boot environment has mapped for
//! reading: where it starts and what it holds. Reads go through the window
//! and are checked against its bounds, so no address is followed blindly.

use vstd::prelude::*;

verus! {

/// The null sentinel among addresses.
pub const NULL_ADDRESS: usize = 0;

/// The number that four bytes denote when read as a little-endian unsigned
/// integer: the first byte is the least significant.
pub open spec fn le_u32(bytes: Seq<u8>) -> int
    recommends
        bytes.len() == 4,
{
    bytes[0] + 0x100 * bytes[1] + 0x1_0000 * bytes[2] + 0x100_0000 * bytes[3]
}

/// The four bytes that hold `value` in little-endian order.
pub open spec fn le_bytes(value: u32) -> Seq<u8> {
    seq![
        (value % 0x100) as u8,
        (value / 0x100 % 0x100) as u8,
        (value / 0x1_0000 % 0x100) as u8,
        (value / 0x100_0000) as u8,
    ]
}

/// Writing an integer out in little-endian order and reading the four bytes
/// back gives the integer; reading four bytes and writing the result out
/// gives the same four bytes.
pub proof fn lemma_le_round_trip(value: u32, bytes: Seq<u8>)
    ensures
        le_bytes(value).len() == 4,
        le_u32(le_bytes(value)) == value,
        bytes.len() == 4 ==> 0 <= le_u32(bytes) <= u32::MAX && le_bytes(le_u32(bytes) as u32)
            == bytes,
{
    assert(value / 0x100_0000 < 0x100 && value == (value % 0x100) + 0x100 * (value / 0x100
        % 0x100) + 0x1_0000 * (value / 0x1_0000 % 0x100) + 0x100_0000 * (value / 0x100_0000))
        by (bit_vector);
    if bytes.len() == 4 {
        let b0 = bytes[0];
        let b1 = bytes[1];
        let b2 = bytes[2];
        let b3 = bytes[3];
        let read = le_u32(bytes) as u32;
        assert(read == b0 + 0x100 * b1 + 0x1_0000 * b2 + 0x100_0000 * b3);
        assert(read % 0x100 == b0 && read / 0x100 % 0x100 == b1 && read / 0x1_0000 % 0x100 == b2
            && read / 0x100_0000 == b3) by (bit_vector)
            requires
                read == b0 + 0x100 * b1 + 0x1_0000 * b2 + 0x100_0000 * b3,
        ;
        assert(le_bytes(read) =~= bytes);
    }
}

/// A run of readable bytes together with the address of its first byte.
#[derive(Debug)]
pub struct MappedRegion {
    base: usize,
    bytes: Vec<u8>,
}

impl MappedRegion {
    #[verifier::type_invariant]
    spec fn fits_address_space(self) -> bool {
        self.base + self.bytes@.len() <= usize::MAX
    }

    /// The address of the first byte.
    pub closed spec fn base(&self) -> usize {
        self.base
    }

    /// The bytes of the region, lowest address first.
    pub closed spec fn contents(&self) -> Seq<u8> {
        self.bytes@
    }

    /// Whether the `len` bytes from `address` on lie inside the region.
    pub open spec fn maps(&self, address: int, len: int) -> bool {
        &&& 0 <= len
        &&& self.base() <= address
        &&& address + len <= self.base() + self.contents().len()
    }

    /// The `len` bytes from `address` on.
    pub open spec fn window(&self, address: int, len: int) -> Seq<u8>
        recommends
            self.maps(address, len),
    {
        self.contents().subrange(address - self.base(), address - self.base() + len)
    }

    /// The region of `bytes` mapped at `base`; none where it would run past
    /// the end of the address space.
    pub fn new(base: usize, bytes: Vec<u8>) -> (region: Option<Self>)
        ensures
            region is Some <==> base + bytes@.len() <= usize::MAX,
            region matches Some(r) ==> r.base() == base && r.contents() == bytes@,
    {
        if bytes.len() <= usize::MAX - base {
            Some(MappedRegion { base, bytes })
        } else {
            None
        }
    }

    /// Whether the `len` bytes from `address` on lie inside the region.
    pub fn covers(&self, address: usize, len: usize) -> (inside: bool)
        ensures
            inside == self.maps(address as int, len as int),
    {
        proof {
            use_type_invariant(self);
        }
        address >= self.base && address - self.base <= self.bytes.len() && len
            <= self.bytes.len() - (address - self.base)
    }

    /// The `N` bytes from `address` on.
    pub fn read_bytes<const N: usize>(&self, address: usize) -> (bytes: [u8; N])
        requires
            self.maps(address as int, N as int),
        ensures
            bytes@ == self.window(address as int, N as int),
    {
        let mut bytes = [0u8;N];
        let start = address - self.base;
        assert(start + N <= self.bytes.len());
        let mut i: usize = 0;
        while i < N
            invariant
                i <= N,
                start + N <= self.bytes.len(),
                forall|j: int| 0 <= j < i ==> bytes@[j] == self.bytes@[start + j],
            decreases N - i,
        {
            bytes[i] = self.bytes[start + i];
            i += 1;
        }
        assert(bytes@ =~= self.window(address as int, N as int));
        bytes
    }
}

/// Reads the four bytes of `bytes` from `offset` on, one by one, as a
/// little-endian integer. No alignment is asked of `offset`.
pub fn read_u32_le(bytes: &[u8], offset: usize) -> (value: u32)
    requires
        offset + 4 <= bytes@.len(),
    ensures
        value == le_u32(bytes@.subrange(offset as int, offset + 4)),
{
    let b0 = bytes[offset] as u32;
    let b1 = bytes[offset + 1] as u32;
    let b2 = bytes[offset + 2] as u32;
    let b3 = bytes[offset + 3] as u32;
    b0 + 0x100 * b1 + 0x1_0000 * b2 + 0x100_0000 * b3
}

} // verus!
