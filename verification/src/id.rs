//! The layout of an identifier and the conversion between an identifier and
//! its three fields.
//!
//! From the most significant bit down: one bit that is always zero, 39 bits of
//! elapsed time, 8 bits of sequence number, 16 bits of machine id.

use vstd::prelude::*;

verus! {

/// Width of the elapsed-time field in bits.
pub const BIT_LEN_TIME: u64 = 39;

/// Width of the sequence field in bits.
pub const BIT_LEN_SEQUENCE: u64 = 8;

/// Width of the machine-id field in bits.
pub const BIT_LEN_MACHINE_ID: u64 = 63 - BIT_LEN_TIME - BIT_LEN_SEQUENCE;

/// The first elapsed time that no longer fits the time field: `2^39`.
pub const TIME_LIMIT: u64 = 0x80_0000_0000;

/// The three fields of an identifier.
#[derive(Clone, Copy, Debug, PartialEq, Eq)]
pub struct Parts {
    /// Ticks since the generator's start time.
    pub elapsed: u64,
    /// Ordinal of the identifier within its tick.
    pub sequence: u8,
    /// Identifier of the generating instance.
    pub machine_id: u16,
}

/// The identifier that holds the three fields: each field shifted to its
/// place, written as arithmetic.
pub open spec fn pack(elapsed: int, sequence: int, machine_id: int) -> int {
    elapsed * 0x100_0000 + sequence * 0x1_0000 + machine_id
}

/// The fields that the identifier `id` holds.
pub open spec fn unpack(id: int) -> Parts {
    Parts {
        elapsed: (id / 0x100_0000) as u64,
        sequence: ((id / 0x1_0000) % 0x100) as u8,
        machine_id: (id % 0x1_0000) as u16,
    }
}

/// Whether `id` has the shape of an identifier: the top bit is zero.
pub open spec fn well_formed(id: int) -> bool {
    0 <= id < 0x8000_0000_0000_0000
}

/// Packs the three fields into one identifier.
///
/// The caller sees to it that `elapsed` fits its 39 bits; the other two fields
/// fit by their types.
pub fn encode(elapsed: u64, sequence: u8, machine_id: u16) -> (id: u64)
    requires
        elapsed < TIME_LIMIT,
    ensures
        id == pack(elapsed as int, sequence as int, machine_id as int),
        well_formed(id as int),
{
    proof {
        lemma_decode_encode(elapsed, sequence, machine_id);
    }
    let e: u64 = elapsed;
    let s: u64 = sequence as u64;
    let m: u64 = machine_id as u64;
    assert((e << 24u64) | (s << 16u64) | m == e * 0x100_0000 + s * 0x1_0000 + m) by (bit_vector)
        requires
            e < 0x80_0000_0000u64,
            s < 0x100u64,
            m < 0x1_0000u64,
    ;
    (e << (BIT_LEN_SEQUENCE + BIT_LEN_MACHINE_ID)) | (s << BIT_LEN_MACHINE_ID) | m
}

/// Splits an identifier into its three fields. Total: a value whose top bit is
/// set yields an `elapsed` of `2^39` or more.
pub fn decode(id: u64) -> (parts: Parts)
    ensures
        parts == unpack(id as int),
        well_formed(id as int) ==> parts.elapsed < TIME_LIMIT,
{
    assert(id >> 24u64 == id / 0x100_0000) by (bit_vector);
    assert(((id >> 16u64) & 0xffu64) == (id / 0x1_0000) % 0x100) by (bit_vector);
    assert((id & 0xffffu64) == id % 0x1_0000) by (bit_vector);
    let elapsed: u64 = id >> (BIT_LEN_SEQUENCE + BIT_LEN_MACHINE_ID);
    let sequence: u64 = (id >> BIT_LEN_MACHINE_ID) & 0xff;
    let machine_id: u64 = id & 0xffff;
    Parts { elapsed, sequence: sequence as u8, machine_id: machine_id as u16 }
}

/// Dividing `q * d + r` by `d` gives `q` and leaves `r`, where `0 <= r < d`.
proof fn lemma_quotient_and_rest(q: int, r: int, d: int)
    by (nonlinear_arith)
    requires
        0 <= r < d,
    ensures
        (q * d + r) / d == q,
        (q * d + r) % d == r,
{
}

/// Decoding what was encoded gives back the three fields, whenever `elapsed`
/// fits its 39 bits.
pub proof fn lemma_decode_encode(elapsed: u64, sequence: u8, machine_id: u16)
    requires
        elapsed < TIME_LIMIT,
    ensures
        unpack(pack(elapsed as int, sequence as int, machine_id as int)) == (Parts {
            elapsed,
            sequence,
            machine_id,
        }),
        well_formed(pack(elapsed as int, sequence as int, machine_id as int)),
{
    let id = pack(elapsed as int, sequence as int, machine_id as int);
    lemma_quotient_and_rest(elapsed as int, sequence * 0x1_0000 + machine_id, 0x100_0000);
    lemma_quotient_and_rest(elapsed * 0x100 + sequence, machine_id as int, 0x1_0000);
    lemma_quotient_and_rest(elapsed as int, sequence as int, 0x100);
    assert(id == elapsed * 0x100_0000 + (sequence * 0x1_0000 + machine_id));
    assert(id == (elapsed * 0x100 + sequence) * 0x1_0000 + machine_id);
    assert(id / 0x100_0000 == elapsed);
    assert(id / 0x1_0000 == elapsed * 0x100 + sequence);
    assert((id / 0x1_0000) % 0x100 == sequence);
    assert(id % 0x1_0000 == machine_id);
}

/// Encoding the fields of a well-formed identifier gives back the identifier.
pub proof fn lemma_encode_decode(id: u64)
    requires
        well_formed(id as int),
    ensures
        pack(
            unpack(id as int).elapsed as int,
            unpack(id as int).sequence as int,
            unpack(id as int).machine_id as int,
        ) == id,
        unpack(id as int).elapsed < TIME_LIMIT,
{
    assert(id == (id / 0x100_0000) * 0x100_0000 + ((id / 0x1_0000) % 0x100) * 0x1_0000 + id
        % 0x1_0000) by (bit_vector);
    assert(id / 0x100_0000 < 0x80_0000_0000u64) by (bit_vector)
        requires
            id < 0x8000_0000_0000_0000u64,
    ;
}

/// Identifiers of one machine are ordered as their (elapsed, sequence) pairs
/// are: first by elapsed time, then by sequence number.
pub proof fn lemma_pack_ordered(e1: u64, s1: u8, e2: u64, s2: u8, machine_id: u16)
    ensures
        (e1 < e2 || (e1 == e2 && s1 < s2)) <==> pack(e1 as int, s1 as int, machine_id as int)
            < pack(e2 as int, s2 as int, machine_id as int),
{
    if e1 < e2 {
        assert(e1 * 0x100_0000 + 0x100_0000 <= e2 * 0x100_0000);
    } else if e2 < e1 {
        assert(e2 * 0x100_0000 + 0x100_0000 <= e1 * 0x100_0000);
    }
}

} // verus!
