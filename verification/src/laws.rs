//! The laws the identifier scheme obeys, each stated over the
//! mathematical model and proved once for every input.

use vstd::prelude::*;
use crate::{
    decoded_timestamp, elapsed_of, node_of, pack, seq_of, FlakeModel, ELAPSED_LIMIT, MAX_NODE_ID,
    MAX_SEQUENCE,
};

verus! {

/// Packing is lossless: as long as each field fits its width, every field
/// of a packed identifier reads back exactly as it went in.
pub proof fn lemma_pack_fields(elapsed: u64, node_id: u64, inc: u64)
    requires
        elapsed < ELAPSED_LIMIT,
        node_id <= MAX_NODE_ID,
        inc <= MAX_SEQUENCE,
    ensures
        elapsed_of(pack(elapsed, node_id, inc)) == elapsed,
        node_of(pack(elapsed, node_id, inc)) == node_id,
        seq_of(pack(elapsed, node_id, inc)) == inc,
{
    assert(((elapsed << 22) | (node_id << 12) | inc) >> 22 == elapsed) by (bit_vector)
        requires
            elapsed < 0x400_0000_0000u64,
            node_id <= 0x3FFu64,
            inc <= 0xFFFu64,
    ;
    assert((((elapsed << 22) | (node_id << 12) | inc) >> 12) & 0x3FF == node_id) by (bit_vector)
        requires
            elapsed < 0x400_0000_0000u64,
            node_id <= 0x3FFu64,
            inc <= 0xFFFu64,
    ;
    assert(((elapsed << 22) | (node_id << 12) | inc) & 0xFFF == inc) by (bit_vector)
        requires
            elapsed < 0x400_0000_0000u64,
            node_id <= 0x3FFu64,
            inc <= 0xFFFu64,
    ;
}

/// Node fidelity, and the round trip of every field: an identifier emitted
/// by a well-formed generator decodes back to that generator's sequence
/// counter, node id, and elapsed time since its epoch.
pub proof fn lemma_generate_decode(m: FlakeModel, ts: u64)
    requires
        m.wf(),
        m.epoch <= ts,
        ts - m.epoch < ELAPSED_LIMIT,
    ensures
        seq_of(m.emitted(ts)) == m.inc,
        node_of(m.emitted(ts)) == m.node_id,
        elapsed_of(m.emitted(ts)) == ts - m.epoch,
{
    lemma_pack_fields((ts - m.epoch) as u64, m.node_id as u64, m.inc as u64);
}

/// Epoch sensitivity: one identifier decoded under two epochs yields two
/// timestamps whose difference is exactly the difference of the epochs;
/// under distinct epochs the timestamps are distinct.
pub proof fn lemma_epoch_sensitivity(id: u64, epoch1: u64, epoch2: u64)
    ensures
        decoded_timestamp(id, epoch2) - decoded_timestamp(id, epoch1) == epoch2 - epoch1,
        epoch1 != epoch2 ==> decoded_timestamp(id, epoch1) != decoded_timestamp(id, epoch2),
{
}

/// Ordering across milliseconds: whatever their sequence and node fields,
/// an identifier for a strictly earlier in-range timestamp is strictly
/// smaller, since elapsed time occupies the most significant bits.
pub proof fn lemma_pack_ordered(e1: u64, n1: u64, i1: u64, e2: u64, n2: u64, i2: u64)
    requires
        e1 < e2,
        e2 < ELAPSED_LIMIT,
        n1 <= MAX_NODE_ID,
        n2 <= MAX_NODE_ID,
        i1 <= MAX_SEQUENCE,
        i2 <= MAX_SEQUENCE,
    ensures
        pack(e1, n1, i1) < pack(e2, n2, i2),
{
    assert(((e1 << 22) | (n1 << 12) | i1) < ((e2 << 22) | (n2 << 12) | i2)) by (bit_vector)
        requires
            e1 < e2,
            e2 < 0x400_0000_0000u64,
            n1 <= 0x3FFu64,
            n2 <= 0x3FFu64,
            i1 <= 0xFFFu64,
            i2 <= 0xFFFu64,
    ;
}

/// Ordering for one generator: of two identifiers emitted at timestamps
/// `t1 < t2`, both in range of the 42-bit elapsed field, the earlier one
/// is the strictly smaller unsigned integer.
pub proof fn lemma_ordering(m: FlakeModel, t1: u64, t2: u64)
    requires
        m.wf(),
        m.epoch <= t1,
        t1 < t2,
        t2 - m.epoch < ELAPSED_LIMIT,
    ensures
        m.emitted(t1) < m.step(t1).emitted(t2),
{
    lemma_pack_ordered(
        (t1 - m.epoch) as u64,
        m.node_id as u64,
        m.inc as u64,
        (t2 - m.epoch) as u64,
        m.step(t1).node_id as u64,
        m.step(t1).inc as u64,
    );
}

/// Ordering within a millisecond: as long as the counter does not wrap,
/// each identifier emitted at one fixed timestamp is strictly greater
/// than the one emitted just before it, so a generator's identifiers are
/// strictly increasing while its clock stands still.
pub proof fn lemma_ordering_within_millisecond(m: FlakeModel, ts: u64)
    requires
        m.wf(),
        m.inc < MAX_SEQUENCE,
        m.epoch <= ts,
        ts - m.epoch < ELAPSED_LIMIT,
    ensures
        m.emitted(ts) < m.step(ts).emitted(ts),
{
    let e = (ts - m.epoch) as u64;
    let n = m.node_id as u64;
    let i1 = m.inc as u64;
    let i2 = m.step(ts).inc as u64;
    assert(((e << 22) | (n << 12) | i1) < ((e << 22) | (n << 12) | i2)) by (bit_vector)
        requires
            e < 0x400_0000_0000u64,
            n <= 0x3FFu64,
            i1 < i2,
            i2 <= 0xFFFu64,
    ;
}

/// The state after `k` identifiers have been emitted at timestamp `ts`,
/// one [`FlakeModel::step`] per identifier.
pub open spec fn steps(m: FlakeModel, ts: u64, k: nat) -> FlakeModel
    decreases k,
{
    if k == 0 {
        m
    } else {
        steps(m, ts, (k - 1) as nat).step(ts)
    }
}

/// From a fresh sequence, the first 4095 emissions never wrap: after `k`
/// of them the counter stands at exactly `k` and nothing else has moved.
proof fn lemma_steps_no_wrap(m: FlakeModel, ts: u64, k: nat)
    requires
        m.inc == 0,
        k <= MAX_SEQUENCE,
    ensures
        steps(m, ts, k) == (FlakeModel {
            inc: k as u32,
            epoch: m.epoch,
            node_id: m.node_id,
            last_exhaustion: m.last_exhaustion,
        }),
    decreases k,
{
    if k > 0 {
        lemma_steps_no_wrap(m, ts, (k - 1) as nat);
    }
}

/// Sequence monotonicity within a millisecond: starting from a fresh
/// sequence, the `k`-th identifier emitted at one fixed timestamp carries
/// sequence value exactly `k`, for every `k` up to 4095 — the 4096
/// identifiers of one millisecond carry 0, 1, ..., 4095 in emission order.
pub proof fn lemma_sequence_within_millisecond(m: FlakeModel, ts: u64, k: nat)
    requires
        m.wf(),
        m.inc == 0,
        m.epoch <= ts,
        ts - m.epoch < ELAPSED_LIMIT,
        k <= MAX_SEQUENCE,
    ensures
        steps(m, ts, k).wf(),
        steps(m, ts, k).inc == k,
        seq_of(steps(m, ts, k).emitted(ts)) == k,
{
    lemma_steps_no_wrap(m, ts, k);
    lemma_generate_decode(steps(m, ts, k), ts);
}

/// Exhaustion after a full millisecond: the 4096th emission at one fixed
/// timestamp wraps the counter to 0 and records that timestamp, the very
/// state on which the next emission at the same timestamp first blocks
/// for a fresh millisecond; the identifier it then emits carries
/// sequence value 0 again.
pub proof fn lemma_wrap_after_exhaustion(m: FlakeModel, ts: u64)
    requires
        m.wf(),
        m.inc == 0,
        m.epoch <= ts,
        ts - m.epoch < ELAPSED_LIMIT,
    ensures
        steps(m, ts, 4096).wf(),
        steps(m, ts, 4096).exhausted_at(ts),
        seq_of(steps(m, ts, 4096).emitted(ts)) == 0,
{
    lemma_steps_no_wrap(m, ts, MAX_SEQUENCE as nat);
    assert(steps(m, ts, 4096) == steps(m, ts, 4095).step(ts));
    lemma_generate_decode(steps(m, ts, 4096), ts);
}

} // verus!
