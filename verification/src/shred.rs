//! The shred wire format.
//!
//! Every shred starts with an 83-byte common header:
//!
//! | offset | size | field         |
//! |--------|------|---------------|
//! | 0x00   | 64   | signature     |
//! | 0x40   | 1    | variant       |
//! | 0x41   | 8    | slot          |
//! | 0x49   | 4    | shred_index   |
//! | 0x4d   | 2    | shred_version |
//! | 0x4f   | 4    | fec_set_index |
//!
//! The variant byte packs two nibbles that jointly select the shred type
//! (data or code) and the authentication scheme (legacy or Merkle):
//! (0x5, 0xa) is code/legacy, (0xa, 0x5) is data/legacy, high nibble 0x4 is
//! code/Merkle, high nibble 0x8 is data/Merkle; everything else is invalid.
//!
//! A six-byte type-specific header follows at offset 0x53, and the remainder
//! of the packet is opaque payload. All multi-byte integers are
//! little-endian.

use vstd::prelude::*;
use vstd::slice::{slice_subrange, slice_to_vec};

verus! {

/// Size of the common header present in every shred.
pub const COMMON_HEADER_LEN: usize = 83;

/// Size of the type-specific header that follows the common header.
pub const TYPE_HEADER_LEN: usize = 6;

/// Least packet length from which a full header pair can be read.
pub const FULL_HEADER_LEN: usize = COMMON_HEADER_LEN + TYPE_HEADER_LEN;

/// Largest datagram the receive socket accepts.
pub const MAX_PACKET_LEN: usize = 1232;

/// Largest well-formed legacy shred packet.
pub const LEGACY_MAX_SHRED_LEN: usize = 1228;

/// Largest well-formed Merkle shred packet.
pub const MERKLE_MAX_SHRED_LEN: usize = 1203;

/// Whether a shred carries block data or forward-error-correction data.
#[derive(Clone, Copy, Debug, PartialEq, Eq, Structural)]
pub enum ShredType {
    Data,
    Code,
}

/// How a shred authenticates its contents.
#[derive(Clone, Copy, Debug, PartialEq, Eq, Structural)]
pub enum AuthScheme {
    Legacy,
    Merkle,
}

/// Why a packet was rejected as not being a well-formed shred.
#[derive(Clone, Copy, Debug, PartialEq, Eq, Structural)]
pub enum RejectionReason {
    /// Shorter than the 83-byte common header.
    TooShort,
    /// The variant byte matches none of the defined nibble pairs.
    UnknownVariant,
    /// Too short for the type-specific header demanded by the variant.
    TruncatedHeader,
}

/// The variant nibble table: what a variant byte's high and low nibbles
/// select, or `None` if the combination is undefined.
pub open spec fn spec_classify_variant(b: u8) -> Option<(ShredType, AuthScheme)> {
    let hi = b / 16;
    let lo = b % 16;
    if hi == 5 && lo == 10 {
        Some((ShredType::Code, AuthScheme::Legacy))
    } else if hi == 10 && lo == 5 {
        Some((ShredType::Data, AuthScheme::Legacy))
    } else if hi == 4 {
        Some((ShredType::Code, AuthScheme::Merkle))
    } else if hi == 8 {
        Some((ShredType::Data, AuthScheme::Merkle))
    } else {
        None
    }
}

/// Classifies a variant byte per the nibble table.
pub fn classify_variant(b: u8) -> (r: Option<(ShredType, AuthScheme)>)
    ensures
        r == spec_classify_variant(b),
{
    let hi = b / 16;
    let lo = b % 16;
    if hi == 5 && lo == 10 {
        Some((ShredType::Code, AuthScheme::Legacy))
    } else if hi == 10 && lo == 5 {
        Some((ShredType::Data, AuthScheme::Legacy))
    } else if hi == 4 {
        Some((ShredType::Code, AuthScheme::Merkle))
    } else if hi == 8 {
        Some((ShredType::Data, AuthScheme::Merkle))
    } else {
        None
    }
}

/// The size bound a well-formed shred packet obeys, by scheme.
pub open spec fn spec_max_shred_len(auth: AuthScheme) -> usize {
    match auth {
        AuthScheme::Legacy => LEGACY_MAX_SHRED_LEN,
        AuthScheme::Merkle => MERKLE_MAX_SHRED_LEN,
    }
}

/// Whether a packet length is within the well-formed bound of its
/// authentication scheme. The decoder itself does not enforce this; the
/// bound is an invariant of traffic produced by a conforming network.
pub fn within_max_shred_len(auth: AuthScheme, len: usize) -> (r: bool)
    ensures
        r == (len <= spec_max_shred_len(auth)),
{
    match auth {
        AuthScheme::Legacy => len <= LEGACY_MAX_SHRED_LEN,
        AuthScheme::Merkle => len <= MERKLE_MAX_SHRED_LEN,
    }
}

/// The little-endian value of the two bytes at `off`.
pub open spec fn spec_le16(s: Seq<u8>, off: int) -> int
    recommends
        0 <= off,
        off + 2 <= s.len(),
{
    s[off] + s[off + 1] * 0x100
}

/// The little-endian value of the four bytes at `off`.
pub open spec fn spec_le32(s: Seq<u8>, off: int) -> int
    recommends
        0 <= off,
        off + 4 <= s.len(),
{
    s[off] + s[off + 1] * 0x100 + s[off + 2] * 0x1_0000 + s[off + 3] * 0x100_0000
}

/// The little-endian value of the eight bytes at `off`.
pub open spec fn spec_le64(s: Seq<u8>, off: int) -> int
    recommends
        0 <= off,
        off + 8 <= s.len(),
{
    s[off] + s[off + 1] * 0x100 + s[off + 2] * 0x1_0000 + s[off + 3] * 0x100_0000
        + s[off + 4] * 0x1_0000_0000 + s[off + 5] * 0x100_0000_0000
        + s[off + 6] * 0x1_0000_0000_0000 + s[off + 7] * 0x100_0000_0000_0000
}

/// Reads a little-endian `u16` from `bytes` at `off`.
pub fn read_le16(bytes: &[u8], off: usize) -> (r: u16)
    requires
        off + 2 <= bytes@.len(),
    ensures
        r == spec_le16(bytes@, off as int),
{
    let b0 = bytes[off] as u16;
    let b1 = bytes[off + 1] as u16;
    b0 + b1 * 0x100
}

/// Reads a little-endian `u32` from `bytes` at `off`.
pub fn read_le32(bytes: &[u8], off: usize) -> (r: u32)
    requires
        off + 4 <= bytes@.len(),
    ensures
        r == spec_le32(bytes@, off as int),
{
    let b0 = bytes[off] as u32;
    let b1 = bytes[off + 1] as u32;
    let b2 = bytes[off + 2] as u32;
    let b3 = bytes[off + 3] as u32;
    b0 + b1 * 0x100 + b2 * 0x1_0000 + b3 * 0x100_0000
}

/// Reads a little-endian `u64` from `bytes` at `off`.
pub fn read_le64(bytes: &[u8], off: usize) -> (r: u64)
    requires
        off + 8 <= bytes@.len(),
    ensures
        r == spec_le64(bytes@, off as int),
{
    let b0 = bytes[off] as u64;
    let b1 = bytes[off + 1] as u64;
    let b2 = bytes[off + 2] as u64;
    let b3 = bytes[off + 3] as u64;
    let b4 = bytes[off + 4] as u64;
    let b5 = bytes[off + 5] as u64;
    let b6 = bytes[off + 6] as u64;
    let b7 = bytes[off + 7] as u64;
    b0 + b1 * 0x100 + b2 * 0x1_0000 + b3 * 0x100_0000 + b4 * 0x1_0000_0000
        + b5 * 0x100_0000_0000 + b6 * 0x1_0000_0000_0000 + b7 * 0x100_0000_0000_0000
}

/// The type-specific header that follows the common header at offset 0x53.
#[derive(Clone, Copy, Debug, PartialEq, Eq, Structural)]
pub enum TypedHeader {
    /// Header of a data shred: slot distance to the parent block, flag bits,
    /// and the total size field.
    Data { parent_offset: u16, data_flags: u8, size: u16 },
    /// Header of a code shred: the shape of its forward-error-correction set
    /// and this shred's position within it.
    Code { num_data_shreds: u16, num_coding_shreds: u16, position: u16 },
}

/// The shred type a typed header belongs to.
pub open spec fn header_shred_type(h: TypedHeader) -> ShredType {
    match h {
        TypedHeader::Data { .. } => ShredType::Data,
        TypedHeader::Code { .. } => ShredType::Code,
    }
}

/// A decoded shred: the common header fields, the type-specific header
/// fields, and the raw payload carried opaquely. The signature is kept as-is
/// and is never verified here.
#[derive(Debug)]
pub struct DecodedShred {
    /// The 64-byte producer signature, opaque to this crate.
    pub signature: Vec<u8>,
    /// Authentication scheme selected by the variant byte.
    pub auth: AuthScheme,
    /// Ledger slot this shred belongs to.
    pub slot: u64,
    /// Sequence index within the slot's shred stream.
    pub index: u32,
    /// Network epoch tag.
    pub shred_version: u16,
    /// Forward-error-correction group this shred belongs to.
    pub fec_set_index: u32,
    /// Fields of the type-specific header.
    pub header: TypedHeader,
    /// Everything after the two headers, carried opaquely.
    pub payload: Vec<u8>,
}

/// Mathematical image of a [`DecodedShred`].
#[verifier::ext_equal]
pub ghost struct ShredView {
    pub signature: Seq<u8>,
    pub auth: AuthScheme,
    pub slot: u64,
    pub index: u32,
    pub shred_version: u16,
    pub fec_set_index: u32,
    pub header: TypedHeader,
    pub payload: Seq<u8>,
}

impl View for DecodedShred {
    type V = ShredView;

    open spec fn view(&self) -> ShredView {
        ShredView {
            signature: self.signature@,
            auth: self.auth,
            slot: self.slot,
            index: self.index,
            shred_version: self.shred_version,
            fec_set_index: self.fec_set_index,
            header: self.header,
            payload: self.payload@,
        }
    }
}

impl ShredView {
    /// A decodable shred always carries a full-width signature.
    pub open spec fn wf(self) -> bool {
        self.signature.len() == 64
    }

    /// The shred type, as selected by the variant byte.
    pub open spec fn shred_type(self) -> ShredType {
        header_shred_type(self.header)
    }
}

impl DecodedShred {
    /// Whether this shred carries block data or error-correction data.
    pub fn shred_type(&self) -> (t: ShredType)
        ensures
            t == self@.shred_type(),
    {
        match self.header {
            TypedHeader::Data { .. } => ShredType::Data,
            TypedHeader::Code { .. } => ShredType::Code,
        }
    }
}

/// The type-specific header fields read from a packet holding at least
/// `FULL_HEADER_LEN` bytes.
pub open spec fn spec_header_fields(s: Seq<u8>, ty: ShredType) -> TypedHeader
    recommends
        s.len() >= 89,
{
    match ty {
        ShredType::Data => TypedHeader::Data {
            parent_offset: spec_le16(s, 0x53) as u16,
            data_flags: s[0x55],
            size: spec_le16(s, 0x56) as u16,
        },
        ShredType::Code => TypedHeader::Code {
            num_data_shreds: spec_le16(s, 0x53) as u16,
            num_coding_shreds: spec_le16(s, 0x55) as u16,
            position: spec_le16(s, 0x57) as u16,
        },
    }
}

/// What `decode` returns on any byte sequence: the committed wire contract.
///
/// A packet shorter than the common header is `TooShort`; an undefined
/// variant nibble pair is `UnknownVariant`; a packet too short for the
/// type-specific header is `TruncatedHeader`; anything else decodes to the
/// header fields at their fixed offsets plus the opaque payload.
pub open spec fn spec_decode(s: Seq<u8>) -> Result<ShredView, RejectionReason> {
    if s.len() < 83 {
        Err(RejectionReason::TooShort)
    } else {
        match spec_classify_variant(s[0x40]) {
            None => Err(RejectionReason::UnknownVariant),
            Some((ty, auth)) => {
                if s.len() < 89 {
                    Err(RejectionReason::TruncatedHeader)
                } else {
                    Ok(ShredView {
                        signature: s.subrange(0, 64),
                        auth: auth,
                        slot: spec_le64(s, 0x41) as u64,
                        index: spec_le32(s, 0x49) as u32,
                        shred_version: spec_le16(s, 0x4d) as u16,
                        fec_set_index: spec_le32(s, 0x4f) as u32,
                        header: spec_header_fields(s, ty),
                        payload: s.subrange(89, s.len() as int),
                    })
                }
            },
        }
    }
}

/// Decodes one packet. Pure and deterministic: the result is a function of
/// the bytes alone, as `spec_decode` states it, so identical inputs always
/// yield structurally identical results.
///
/// Oversize enforcement is not done here: the receive socket already bounds
/// a datagram at `MAX_PACKET_LEN` bytes.
pub fn decode(bytes: &[u8]) -> (r: Result<DecodedShred, RejectionReason>)
    ensures
        match r {
            Ok(d) => spec_decode(bytes@) == Ok::<ShredView, RejectionReason>(d@) && d@.wf(),
            Err(e) => spec_decode(bytes@) == Err::<ShredView, RejectionReason>(e),
        },
{
    if bytes.len() < COMMON_HEADER_LEN {
        return Err(RejectionReason::TooShort);
    }
    let variant = bytes[0x40];
    match classify_variant(variant) {
        None => Err(RejectionReason::UnknownVariant),
        Some((ty, auth)) => {
            if bytes.len() < FULL_HEADER_LEN {
                return Err(RejectionReason::TruncatedHeader);
            }
            let signature = slice_to_vec(slice_subrange(bytes, 0, 64));
            let header = match ty {
                ShredType::Data => TypedHeader::Data {
                    parent_offset: read_le16(bytes, 0x53),
                    data_flags: bytes[0x55],
                    size: read_le16(bytes, 0x56),
                },
                ShredType::Code => TypedHeader::Code {
                    num_data_shreds: read_le16(bytes, 0x53),
                    num_coding_shreds: read_le16(bytes, 0x55),
                    position: read_le16(bytes, 0x57),
                },
            };
            let payload = slice_to_vec(slice_subrange(bytes, FULL_HEADER_LEN, bytes.len()));
            Ok(DecodedShred {
                signature,
                auth,
                slot: read_le64(bytes, 0x41),
                index: read_le32(bytes, 0x49),
                shred_version: read_le16(bytes, 0x4d),
                fec_set_index: read_le32(bytes, 0x4f),
                header,
                payload,
            })
        },
    }
}

/// The canonical variant byte for a type/scheme pair. Legacy pairs have both
/// nibbles fixed; Merkle pairs leave the low nibble free, and zero is
/// emitted.
pub open spec fn spec_variant_byte(ty: ShredType, auth: AuthScheme) -> u8 {
    match (ty, auth) {
        (ShredType::Code, AuthScheme::Legacy) => 0x5a,
        (ShredType::Data, AuthScheme::Legacy) => 0xa5,
        (ShredType::Code, AuthScheme::Merkle) => 0x40,
        (ShredType::Data, AuthScheme::Merkle) => 0x80,
    }
}

/// The two little-endian bytes of a `u16`.
pub open spec fn spec_le16_bytes(x: u16) -> Seq<u8> {
    seq![(x % 0x100) as u8, ((x / 0x100) % 0x100) as u8]
}

/// The four little-endian bytes of a `u32`.
pub open spec fn spec_le32_bytes(x: u32) -> Seq<u8> {
    seq![
        (x % 0x100) as u8,
        ((x / 0x100) % 0x100) as u8,
        ((x / 0x1_0000) % 0x100) as u8,
        ((x / 0x100_0000) % 0x100) as u8,
    ]
}

/// The eight little-endian bytes of a `u64`.
pub open spec fn spec_le64_bytes(x: u64) -> Seq<u8> {
    seq![
        (x % 0x100) as u8,
        ((x / 0x100) % 0x100) as u8,
        ((x / 0x1_0000) % 0x100) as u8,
        ((x / 0x100_0000) % 0x100) as u8,
        ((x / 0x1_0000_0000) % 0x100) as u8,
        ((x / 0x100_0000_0000) % 0x100) as u8,
        ((x / 0x1_0000_0000_0000) % 0x100) as u8,
        ((x / 0x100_0000_0000_0000) % 0x100) as u8,
    ]
}

/// The six bytes of the type-specific header. The data header carries only
/// five bytes of fields; its sixth byte is padding and is emitted as zero.
pub open spec fn spec_header_bytes(h: TypedHeader) -> Seq<u8> {
    match h {
        TypedHeader::Data { parent_offset, data_flags, size } => spec_le16_bytes(parent_offset)
            + seq![data_flags] + spec_le16_bytes(size) + seq![0u8],
        TypedHeader::Code { num_data_shreds, num_coding_shreds, position } => spec_le16_bytes(
            num_data_shreds,
        ) + spec_le16_bytes(num_coding_shreds) + spec_le16_bytes(position),
    }
}

/// The wire image of a shred: both headers at their fixed offsets, then the
/// payload.
pub open spec fn spec_encode(v: ShredView) -> Seq<u8> {
    v.signature + seq![spec_variant_byte(v.shred_type(), v.auth)] + spec_le64_bytes(v.slot)
        + spec_le32_bytes(v.index) + spec_le16_bytes(v.shred_version)
        + spec_le32_bytes(v.fec_set_index) + spec_header_bytes(v.header) + v.payload
}

/// Reading back the two little-endian bytes of a `u16` gives the `u16`.
pub proof fn lemma_le16_bytes_roundtrip(x: u16)
    ensures
        spec_le16(spec_le16_bytes(x), 0) == x,
{
    assert((x % 0x100) + ((x / 0x100) % 0x100) * 0x100 == x) by (bit_vector);
}

/// Reading back the four little-endian bytes of a `u32` gives the `u32`.
pub proof fn lemma_le32_bytes_roundtrip(x: u32)
    ensures
        spec_le32(spec_le32_bytes(x), 0) == x,
{
    assert((x % 0x100) + ((x / 0x100) % 0x100) * 0x100 + ((x / 0x1_0000) % 0x100) * 0x1_0000 + ((x
        / 0x100_0000) % 0x100) * 0x100_0000 == x) by (bit_vector);
}

/// Reading back the eight little-endian bytes of a `u64` gives the `u64`.
pub proof fn lemma_le64_bytes_roundtrip(x: u64)
    ensures
        spec_le64(spec_le64_bytes(x), 0) == x,
{
    assert((x % 0x100) + ((x / 0x100) % 0x100) * 0x100 + ((x / 0x1_0000) % 0x100) * 0x1_0000 + ((x
        / 0x100_0000) % 0x100) * 0x100_0000 + ((x / 0x1_0000_0000) % 0x100) * 0x1_0000_0000 + ((x
        / 0x100_0000_0000) % 0x100) * 0x100_0000_0000 + ((x / 0x1_0000_0000_0000) % 0x100)
        * 0x1_0000_0000_0000 + ((x / 0x100_0000_0000_0000) % 0x100) * 0x100_0000_0000_0000 == x)
        by (bit_vector);
}

/// A sixteen-bit read at `off` sees only the two bytes there.
proof fn lemma_le16_at(s: Seq<u8>, off: int, b: Seq<u8>)
    requires
        0 <= off,
        off + 2 <= s.len(),
        b.len() == 2,
        forall|i: int| 0 <= i < 2 ==> s[off + i] == b[i],
    ensures
        spec_le16(s, off) == spec_le16(b, 0),
{
    assert(s[off + 0] == b[0]);
    assert(s[off + 1] == b[1]);
}

/// A thirty-two-bit read at `off` sees only the four bytes there.
proof fn lemma_le32_at(s: Seq<u8>, off: int, b: Seq<u8>)
    requires
        0 <= off,
        off + 4 <= s.len(),
        b.len() == 4,
        forall|i: int| 0 <= i < 4 ==> s[off + i] == b[i],
    ensures
        spec_le32(s, off) == spec_le32(b, 0),
{
    assert(s[off + 0] == b[0]);
    assert(s[off + 1] == b[1]);
    assert(s[off + 2] == b[2]);
    assert(s[off + 3] == b[3]);
}

/// A sixty-four-bit read at `off` sees only the eight bytes there.
proof fn lemma_le64_at(s: Seq<u8>, off: int, b: Seq<u8>)
    requires
        0 <= off,
        off + 8 <= s.len(),
        b.len() == 8,
        forall|i: int| 0 <= i < 8 ==> s[off + i] == b[i],
    ensures
        spec_le64(s, off) == spec_le64(b, 0),
{
    assert(s[off + 0] == b[0]);
    assert(s[off + 1] == b[1]);
    assert(s[off + 2] == b[2]);
    assert(s[off + 3] == b[3]);
    assert(s[off + 4] == b[4]);
    assert(s[off + 5] == b[5]);
    assert(s[off + 6] == b[6]);
    assert(s[off + 7] == b[7]);
}

/// Round trip: decoding the wire image of any well-formed shred view gives
/// back exactly that view — every common-header field, every type-specific
/// field, the signature, and the payload.
pub proof fn lemma_decode_encode_roundtrip(v: ShredView)
    requires
        v.wf(),
    ensures
        spec_decode(spec_encode(v)) == Ok::<ShredView, RejectionReason>(v),
{
    let s = spec_encode(v);
    assert(spec_header_bytes(v.header).len() == 6);
    assert(s.len() == 89 + v.payload.len());

    assert(s[64] == spec_variant_byte(v.shred_type(), v.auth));
    assert(spec_classify_variant(spec_variant_byte(v.shred_type(), v.auth)) == Some(
        (v.shred_type(), v.auth),
    ));

    assert(forall|i: int| 0 <= i < 8 ==> s[65 + i] == spec_le64_bytes(v.slot)[i]);
    lemma_le64_at(s, 65, spec_le64_bytes(v.slot));
    lemma_le64_bytes_roundtrip(v.slot);

    assert(forall|i: int| 0 <= i < 4 ==> s[73 + i] == spec_le32_bytes(v.index)[i]);
    lemma_le32_at(s, 73, spec_le32_bytes(v.index));
    lemma_le32_bytes_roundtrip(v.index);

    assert(forall|i: int| 0 <= i < 2 ==> s[77 + i] == spec_le16_bytes(v.shred_version)[i]);
    lemma_le16_at(s, 77, spec_le16_bytes(v.shred_version));
    lemma_le16_bytes_roundtrip(v.shred_version);

    assert(forall|i: int| 0 <= i < 4 ==> s[79 + i] == spec_le32_bytes(v.fec_set_index)[i]);
    lemma_le32_at(s, 79, spec_le32_bytes(v.fec_set_index));
    lemma_le32_bytes_roundtrip(v.fec_set_index);

    assert(forall|i: int| 0 <= i < 6 ==> s[83 + i] == spec_header_bytes(v.header)[i]);
    match v.header {
        TypedHeader::Data { parent_offset, data_flags, size } => {
            lemma_le16_at(s, 83, spec_le16_bytes(parent_offset));
            lemma_le16_bytes_roundtrip(parent_offset);
            assert(s[85] == data_flags);
            lemma_le16_at(s, 86, spec_le16_bytes(size));
            lemma_le16_bytes_roundtrip(size);
        },
        TypedHeader::Code { num_data_shreds, num_coding_shreds, position } => {
            lemma_le16_at(s, 83, spec_le16_bytes(num_data_shreds));
            lemma_le16_bytes_roundtrip(num_data_shreds);
            lemma_le16_at(s, 85, spec_le16_bytes(num_coding_shreds));
            lemma_le16_bytes_roundtrip(num_coding_shreds);
            lemma_le16_at(s, 87, spec_le16_bytes(position));
            lemma_le16_bytes_roundtrip(position);
        },
    }
    assert(spec_header_fields(s, v.shred_type()) == v.header);

    assert(s.subrange(0, 64) =~= v.signature);
    assert(s.subrange(89, s.len() as int) =~= v.payload);

    let w = spec_decode(s)->Ok_0;
    assert(w =~= v);
}

/// Any input shorter than the 83-byte common header is rejected as too
/// short, whatever its bytes hold.
pub proof fn lemma_short_input_rejected(s: Seq<u8>)
    requires
        s.len() < 83,
    ensures
        spec_decode(s) == Err::<ShredView, RejectionReason>(RejectionReason::TooShort),
{
}

/// Any input long enough for the common header whose variant byte matches
/// none of the four defined nibble pairs is rejected as an unknown variant.
pub proof fn lemma_unknown_variant_rejected(s: Seq<u8>)
    requires
        s.len() >= 83,
        spec_classify_variant(s[0x40]) is None,
    ensures
        spec_decode(s) == Err::<ShredView, RejectionReason>(RejectionReason::UnknownVariant),
{
}

/// Decoding is deterministic: `spec_decode` is a function of the bytes
/// alone, and `decode` returns exactly its value, so two decodes of equal
/// byte sequences yield structurally equal results.
pub proof fn lemma_decode_deterministic(s1: Seq<u8>, s2: Seq<u8>)
    requires
        s1 == s2,
    ensures
        spec_decode(s1) == spec_decode(s2),
{
}

/// Appends the two little-endian bytes of `x`.
fn push_le16(out: &mut Vec<u8>, x: u16)
    ensures
        final(out)@ == old(out)@ + spec_le16_bytes(x),
{
    out.push((x % 0x100) as u8);
    out.push(((x / 0x100) % 0x100) as u8);
    assert(out@ =~= old(out)@ + spec_le16_bytes(x));
}

/// Appends the four little-endian bytes of `x`.
fn push_le32(out: &mut Vec<u8>, x: u32)
    ensures
        final(out)@ == old(out)@ + spec_le32_bytes(x),
{
    out.push((x % 0x100) as u8);
    out.push(((x / 0x100) % 0x100) as u8);
    out.push(((x / 0x1_0000) % 0x100) as u8);
    out.push(((x / 0x100_0000) % 0x100) as u8);
    assert(out@ =~= old(out)@ + spec_le32_bytes(x));
}

/// Appends the eight little-endian bytes of `x`.
fn push_le64(out: &mut Vec<u8>, x: u64)
    ensures
        final(out)@ == old(out)@ + spec_le64_bytes(x),
{
    out.push((x % 0x100) as u8);
    out.push(((x / 0x100) % 0x100) as u8);
    out.push(((x / 0x1_0000) % 0x100) as u8);
    out.push(((x / 0x100_0000) % 0x100) as u8);
    out.push(((x / 0x1_0000_0000) % 0x100) as u8);
    out.push(((x / 0x100_0000_0000) % 0x100) as u8);
    out.push(((x / 0x1_0000_0000_0000) % 0x100) as u8);
    out.push(((x / 0x100_0000_0000_0000) % 0x100) as u8);
    assert(out@ =~= old(out)@ + spec_le64_bytes(x));
}

/// Appends every byte of `src`.
fn push_bytes(out: &mut Vec<u8>, src: &Vec<u8>)
    ensures
        final(out)@ == old(out)@ + src@,
{
    let mut i: usize = 0;
    while i < src.len()
        invariant
            i <= src@.len(),
            out@ == old(out)@ + src@.subrange(0, i as int),
        decreases src@.len() - i,
    {
        out.push(src[i]);
        assert(out@ =~= old(out)@ + src@.subrange(0, i as int + 1));
        i += 1;
    }
    assert(out@ =~= old(out)@ + src@);
}

/// The canonical variant byte for a type/scheme pair.
pub fn variant_byte(ty: ShredType, auth: AuthScheme) -> (b: u8)
    ensures
        b == spec_variant_byte(ty, auth),
{
    match (ty, auth) {
        (ShredType::Code, AuthScheme::Legacy) => 0x5a,
        (ShredType::Data, AuthScheme::Legacy) => 0xa5,
        (ShredType::Code, AuthScheme::Merkle) => 0x40,
        (ShredType::Data, AuthScheme::Merkle) => 0x80,
    }
}

/// Serializes a shred to its wire image: both headers at their fixed
/// offsets, then the payload. Inverse of `decode` on well-formed shreds, as
/// `lemma_decode_encode_roundtrip` states.
pub fn encode(d: &DecodedShred) -> (r: Vec<u8>)
    requires
        d@.wf(),
    ensures
        r@ == spec_encode(d@),
{
    let mut out: Vec<u8> = Vec::new();
    push_bytes(&mut out, &d.signature);
    out.push(variant_byte(d.shred_type(), d.auth));
    assert(out@ =~= d.signature@ + seq![spec_variant_byte(d@.shred_type(), d.auth)]);
    push_le64(&mut out, d.slot);
    push_le32(&mut out, d.index);
    push_le16(&mut out, d.shred_version);
    push_le32(&mut out, d.fec_set_index);
    match d.header {
        TypedHeader::Data { parent_offset, data_flags, size } => {
            push_le16(&mut out, parent_offset);
            out.push(data_flags);
            push_le16(&mut out, size);
            out.push(0u8);
        },
        TypedHeader::Code { num_data_shreds, num_coding_shreds, position } => {
            push_le16(&mut out, num_data_shreds);
            push_le16(&mut out, num_coding_shreds);
            push_le16(&mut out, position);
        },
    }
    push_bytes(&mut out, &d.payload);
    assert(out@ =~= spec_encode(d@));
    out
}

impl PartialEq for DecodedShred {
    /// Structural equality, payload and signature bytes included.
    fn eq(&self, other: &DecodedShred) -> (r: bool) {
        if !(self.auth == other.auth && self.slot == other.slot && self.index == other.index
            && self.shred_version == other.shred_version && self.fec_set_index
            == other.fec_set_index && self.header == other.header) {
            return false;
        }
        bytes_eq(&self.signature, &other.signature) && bytes_eq(&self.payload, &other.payload)
    }
}

impl vstd::std_specs::cmp::PartialEqSpecImpl for DecodedShred {
    open spec fn obeys_eq_spec() -> bool {
        true
    }

    open spec fn eq_spec(&self, other: &DecodedShred) -> bool {
        self@ =~= other@
    }
}

/// Whether two byte vectors hold the same bytes.
pub fn bytes_eq(a: &Vec<u8>, b: &Vec<u8>) -> (r: bool)
    ensures
        r == (a@ =~= b@),
{
    if a.len() != b.len() {
        return false;
    }
    let mut i: usize = 0;
    while i < a.len()
        invariant
            a@.len() == b@.len(),
            i <= a@.len(),
            forall|j: int| 0 <= j < i ==> a@[j] == b@[j],
        decreases a@.len() - i,
    {
        if a[i] != b[i] {
            return false;
        }
        i += 1;
    }
    true
}

} // verus!
