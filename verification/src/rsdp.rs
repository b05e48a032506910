//! The loader of the ACPI Root System Description Pointer.
//!
//! Firmware lays the record out as 20 bytes without padding:
//!
//! | bytes   | field          |
//! |---------|----------------|
//! | 0..8    | `signature`    |
//! | 8       | `checksum`     |
//! | 9..15   | `oem_id`       |
//! | 15      | `revision`     |
//! | 16..20  | `rsdt_address`, little-endian |
//!
//! Neither the signature nor the checksum is validated here.

use vstd::prelude::*;
use crate::fault::Fault;
use crate::memory::{
    le_bytes, le_u32, lemma_le_round_trip, read_u32_le, MappedRegion, NULL_ADDRESS,
};

verus! {

/// The size of the record in bytes.
pub const RSDP_LEN: usize = 20;

/// Where the signature starts.
pub const SIGNATURE_OFFSET: usize = 0;

/// Where the checksum stands.
pub const CHECKSUM_OFFSET: usize = 8;

/// Where the vendor identification starts.
pub const OEM_ID_OFFSET: usize = 9;

/// Where the revision stands.
pub const REVISION_OFFSET: usize = 15;

/// Where the address of the next table starts.
pub const RSDT_ADDRESS_OFFSET: usize = 16;

/// The root pointer record of ACPI 1.0, detached from firmware memory.
#[derive(Clone, Copy, Debug, PartialEq, Eq)]
pub struct Rsdp {
    pub signature: [u8; 8],
    pub checksum: u8,
    pub oem_id: [u8; 6],
    pub revision: u8,
    pub rsdt_address: u32,
}

impl Rsdp {
    /// Whether this is the record that `bytes` hold: each field is what
    /// stands at its offset.
    pub open spec fn read_from(&self, bytes: Seq<u8>) -> bool {
        &&& bytes.len() == RSDP_LEN
        &&& self.signature@ == bytes.subrange(SIGNATURE_OFFSET as int, CHECKSUM_OFFSET as int)
        &&& self.checksum == bytes[CHECKSUM_OFFSET as int]
        &&& self.oem_id@ == bytes.subrange(OEM_ID_OFFSET as int, REVISION_OFFSET as int)
        &&& self.revision == bytes[REVISION_OFFSET as int]
        &&& self.rsdt_address == le_u32(
            bytes.subrange(RSDT_ADDRESS_OFFSET as int, RSDP_LEN as int),
        )
    }

    /// The bytes of the record as firmware lays it out: the fields in order,
    /// nothing between them.
    pub open spec fn image(&self) -> Seq<u8> {
        self.signature@ + seq![self.checksum] + self.oem_id@ + seq![self.revision] + le_bytes(
            self.rsdt_address,
        )
    }

    /// Takes the record out of its 20 bytes, field by field.
    pub fn decode(bytes: &[u8; RSDP_LEN]) -> (rsdp: Rsdp)
        ensures
            rsdp.read_from(bytes@),
    {
        let mut signature = [0u8;8];
        let mut i: usize = 0;
        while i < 8
            invariant
                i <= 8,
                forall|j: int| 0 <= j < i ==> signature@[j] == bytes@[SIGNATURE_OFFSET + j],
            decreases 8 - i,
        {
            signature[i] = bytes[SIGNATURE_OFFSET + i];
            i += 1;
        }
        let mut oem_id = [0u8;6];
        let mut k: usize = 0;
        while k < 6
            invariant
                k <= 6,
                forall|j: int| 0 <= j < k ==> oem_id@[j] == bytes@[OEM_ID_OFFSET + j],
            decreases 6 - k,
        {
            oem_id[k] = bytes[OEM_ID_OFFSET + k];
            k += 1;
        }
        let rsdt_address = read_u32_le(bytes.as_slice(), RSDT_ADDRESS_OFFSET);
        let rsdp = Rsdp {
            signature,
            checksum: bytes[CHECKSUM_OFFSET],
            oem_id,
            revision: bytes[REVISION_OFFSET],
            rsdt_address,
        };
        assert(rsdp.signature@ =~= bytes@.subrange(0, 8));
        assert(rsdp.oem_id@ =~= bytes@.subrange(9, 15));
        rsdp
    }

    /// Lays the record out as firmware does.
    pub fn to_bytes(&self) -> (bytes: [u8; RSDP_LEN])
        ensures
            bytes@ == self.image(),
    {
        let mut bytes = [0u8;RSDP_LEN];
        let mut i: usize = 0;
        while i < 8
            invariant
                i <= 8,
                forall|j: int| 0 <= j < i ==> bytes@[SIGNATURE_OFFSET + j] == self.signature@[j],
            decreases 8 - i,
        {
            bytes[SIGNATURE_OFFSET + i] = self.signature[i];
            i += 1;
        }
        bytes[CHECKSUM_OFFSET] = self.checksum;
        let mut k: usize = 0;
        while k < 6
            invariant
                k <= 6,
                forall|j: int| 0 <= j < 8 ==> bytes@[SIGNATURE_OFFSET + j] == self.signature@[j],
                bytes@[CHECKSUM_OFFSET as int] == self.checksum,
                forall|j: int| 0 <= j < k ==> bytes@[OEM_ID_OFFSET + j] == self.oem_id@[j],
            decreases 6 - k,
        {
            bytes[OEM_ID_OFFSET + k] = self.oem_id[k];
            k += 1;
        }
        bytes[REVISION_OFFSET] = self.revision;
        let value = self.rsdt_address;
        bytes[RSDT_ADDRESS_OFFSET] = (value % 0x100) as u8;
        bytes[RSDT_ADDRESS_OFFSET + 1] = (value / 0x100 % 0x100) as u8;
        bytes[RSDT_ADDRESS_OFFSET + 2] = (value / 0x1_0000 % 0x100) as u8;
        bytes[RSDT_ADDRESS_OFFSET + 3] = (value / 0x100_0000) as u8;
        assert(bytes@ =~= self.image());
        bytes
    }
}

/// The layout is exact: a record is the one that 20 bytes hold if and only
/// if those bytes are its image. So the fields fill the record in order
/// with no byte between or after them, and `decode` and `to_bytes` undo each
/// other.
pub proof fn lemma_image_is_what_is_read(rsdp: Rsdp, bytes: Seq<u8>)
    ensures
        rsdp.image().len() == RSDP_LEN,
        rsdp.read_from(bytes) <==> bytes == rsdp.image(),
{
    let image = rsdp.image();
    lemma_le_round_trip(rsdp.rsdt_address, image.subrange(16, 20));
    assert(image.subrange(0, 8) =~= rsdp.signature@);
    assert(image.subrange(9, 15) =~= rsdp.oem_id@);
    assert(image.subrange(16, 20) =~= le_bytes(rsdp.rsdt_address));
    assert(rsdp.read_from(image));
    if rsdp.read_from(bytes) {
        let tail = bytes.subrange(16, 20);
        lemma_le_round_trip(rsdp.rsdt_address, tail);
        assert(le_bytes(rsdp.rsdt_address) == tail);
        assert forall|i: int| 0 <= i < 20 implies bytes[i] == image[i] by {
            if i < 8 {
                assert(bytes[i] == bytes.subrange(0, 8)[i]);
            } else if 9 <= i < 15 {
                assert(bytes[i] == bytes.subrange(9, 15)[i - 9]);
            } else if 16 <= i {
                assert(bytes[i] == tail[i - 16]);
            }
        }
        assert(bytes =~= image);
    }
}

/// The bytes decide the record: two records read from the same bytes agree
/// in every field.
pub proof fn lemma_read_is_unique(first: Rsdp, second: Rsdp, bytes: Seq<u8>)
    requires
        first.read_from(bytes),
        second.read_from(bytes),
    ensures
        first == second,
{
    assert(first.signature =~= second.signature);
    assert(first.oem_id =~= second.oem_id);
}

/// Loads the root pointer record that firmware placed at `rsdp_addr`.
///
/// A null address is an unrecoverable fault and `memory` is not consulted.
/// Any other address must lie in `memory` with the whole record; the record
/// is then copied out byte by byte, so `rsdp_addr` need not be aligned.
pub fn make_rsdp(rsdp_addr: usize, memory: &MappedRegion) -> (result: Result<Rsdp, Fault>)
    requires
        rsdp_addr != NULL_ADDRESS ==> memory.maps(rsdp_addr as int, RSDP_LEN as int),
    ensures
        result is Err <==> rsdp_addr == NULL_ADDRESS,
        result matches Err(fault) ==> fault == Fault::RsdpPointerNull,
        result matches Ok(rsdp) ==> rsdp.read_from(
            memory.window(rsdp_addr as int, RSDP_LEN as int),
        ),
{
    if rsdp_addr == NULL_ADDRESS {
        return Err(Fault::RsdpPointerNull);
    }
    let record = memory.read_bytes::<RSDP_LEN>(rsdp_addr);
    Ok(Rsdp::decode(&record))
}

} // verus!
