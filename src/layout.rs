//! The bit layout of an identifier: from the most significant bit down, one
//! reserved zero bit, 41 bits of milliseconds since the epoch offset, 5 bits of
//! datacenter id, 5 bits of worker id and 12 bits of sequence.
use vstd::prelude::*;

verus! {

pub const TIMESTAMP_BITS: u64 = 41;

pub const DATACENTER_BITS: u64 = 5;

pub const WORKER_BITS: u64 = 5;

pub const SEQUENCE_BITS: u64 = 12;

/// Largest timestamp field, `2^41 - 1`.
pub const MAX_TIMESTAMP: u64 = 2199023255551;

/// Largest datacenter id, `2^5 - 1`.
pub const MAX_DATACENTER_ID: u64 = 31;

/// Largest worker id, `2^5 - 1`.
pub const MAX_WORKER_ID: u64 = 31;

/// Largest sequence value, `2^12 - 1`.
pub const MAX_SEQUENCE: u64 = 4095;

/// Weight of the timestamp field, `2^22`.
pub const TIMESTAMP_UNIT: u64 = 4194304;

/// Weight of the datacenter field, `2^17`.
pub const DATACENTER_UNIT: u64 = 131072;

/// Weight of the worker field, `2^12`.
pub const WORKER_UNIT: u64 = 4096;

/// All four fields fit their widths.
pub open spec fn fields_in_range(ts: int, dc: int, w: int, s: int) -> bool {
    &&& 0 <= ts <= MAX_TIMESTAMP
    &&& 0 <= dc <= MAX_DATACENTER_ID
    &&& 0 <= w <= MAX_WORKER_ID
    &&& 0 <= s <= MAX_SEQUENCE
}

/// The identifier holding the given fields.
pub open spec fn compose(ts: int, dc: int, w: int, s: int) -> int {
    ts * TIMESTAMP_UNIT + dc * DATACENTER_UNIT + w * WORKER_UNIT + s
}

pub open spec fn timestamp_field(id: int) -> int {
    id / TIMESTAMP_UNIT as int
}

pub open spec fn datacenter_field(id: int) -> int {
    (id / DATACENTER_UNIT as int) % 32
}

pub open spec fn worker_field(id: int) -> int {
    (id / WORKER_UNIT as int) % 32
}

pub open spec fn sequence_field(id: int) -> int {
    id % WORKER_UNIT as int
}

/// Packs the four fields into one identifier.
pub fn pack(timestamp: u64, datacenter_id: u64, worker_id: u64, sequence: u64) -> (id: u64)
    requires
        fields_in_range(timestamp as int, datacenter_id as int, worker_id as int, sequence as int),
    ensures
        id as int == compose(timestamp as int, datacenter_id as int, worker_id as int, sequence as int),
        id < 0x8000_0000_0000_0000u64,
{
    timestamp * TIMESTAMP_UNIT + datacenter_id * DATACENTER_UNIT + worker_id * WORKER_UNIT + sequence
}

/// The timestamp field of an identifier.
pub fn timestamp_of(id: u64) -> (r: u64)
    ensures
        r as int == timestamp_field(id as int),
{
    id / TIMESTAMP_UNIT
}

/// The datacenter field of an identifier.
pub fn datacenter_of(id: u64) -> (r: u64)
    ensures
        r as int == datacenter_field(id as int),
{
    (id / DATACENTER_UNIT) % 32
}

/// The worker field of an identifier.
pub fn worker_of(id: u64) -> (r: u64)
    ensures
        r as int == worker_field(id as int),
{
    (id / WORKER_UNIT) % 32
}

/// The sequence field of an identifier.
pub fn sequence_of(id: u64) -> (r: u64)
    ensures
        r as int == sequence_field(id as int),
{
    id % WORKER_UNIT
}

/// Decoding an identifier built from in-range fields gives back each field.
pub proof fn lemma_decode_compose(ts: int, dc: int, w: int, s: int)
    requires
        fields_in_range(ts, dc, w, s),
    ensures
        timestamp_field(compose(ts, dc, w, s)) == ts,
        datacenter_field(compose(ts, dc, w, s)) == dc,
        worker_field(compose(ts, dc, w, s)) == w,
        sequence_field(compose(ts, dc, w, s)) == s,
        0 <= compose(ts, dc, w, s) < 0x8000_0000_0000_0000,
{
    let id = compose(ts, dc, w, s);
    vstd::arithmetic::div_mod::lemma_fundamental_div_mod_converse(
        id, 4194304, ts, dc * 131072 + w * 4096 + s);
    vstd::arithmetic::div_mod::lemma_fundamental_div_mod_converse(
        id, 131072, ts * 32 + dc, w * 4096 + s);
    vstd::arithmetic::div_mod::lemma_fundamental_div_mod_converse(
        ts * 32 + dc, 32, ts, dc);
    vstd::arithmetic::div_mod::lemma_fundamental_div_mod_converse(
        id, 4096, ts * 1024 + dc * 32 + w, s);
    vstd::arithmetic::div_mod::lemma_fundamental_div_mod_converse(
        ts * 1024 + dc * 32 + w, 32, ts * 32 + dc, w);
}

/// An identifier is the composition of its own decoded fields, and those
/// fields fit their widths.
pub proof fn lemma_compose_decode(id: int)
    requires
        0 <= id < 0x8000_0000_0000_0000,
    ensures
        fields_in_range(timestamp_field(id), datacenter_field(id), worker_field(id), sequence_field(id)),
        id == compose(timestamp_field(id), datacenter_field(id), worker_field(id), sequence_field(id)),
{
    let q1 = id / 4096;
    let q2 = q1 / 32;
    let q3 = q2 / 32;
    vstd::arithmetic::div_mod::lemma_fundamental_div_mod(id, 4096);
    vstd::arithmetic::div_mod::lemma_fundamental_div_mod(q1, 32);
    vstd::arithmetic::div_mod::lemma_fundamental_div_mod(q2, 32);
    vstd::arithmetic::div_mod::lemma_div_denominator(id, 4096, 32);
    vstd::arithmetic::div_mod::lemma_div_denominator(q1, 32, 32);
    vstd::arithmetic::div_mod::lemma_div_denominator(id, 131072, 32);
    assert(id / 131072 == q2);
    assert(id / 4194304 == q3);
    assert(0 <= id % 4096 < 4096);
    assert(0 <= q1 % 32 < 32);
    assert(0 <= q2 % 32 < 32);
    assert(q3 <= MAX_TIMESTAMP) by {
        vstd::arithmetic::div_mod::lemma_div_is_ordered(id, 0x8000_0000_0000_0000int - 1, 4194304);
    }
}

} // verus!
