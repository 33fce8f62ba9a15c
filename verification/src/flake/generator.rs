use vstd::prelude::*;

verus! {

/// The starting epoch for generating timestamps
pub const DEFAULT_EPOCH: i64 = 1735678800000;

/// The position of the timestamp in an id.
pub const TIMESTAMP_SHIFT: i64 = 22;

/// The position of the node id in an id.
pub const NODE_ID_SHIFT: i64 = 14;

/// The mask of the sequence number in an id. It is also the number of ids a
/// node issues per millisecond: the sequence numbers run from 0 to
/// `SEQUENCE_MASK - 1`.
pub const SEQUENCE_MASK: u16 = 16383;

/// A generated identifier
#[derive(Debug, Clone, Copy, PartialEq, Eq, Hash, Structural)]
pub struct FlakeId(pub i64);

/// The id made of a timestamp, a node id and a sequence number:
/// `(time << 22 | node << 14 | sequence) & i64::MAX`.
pub open spec fn flake_bits(time: i64, node: u8, sequence: u16) -> i64 {
    ((time << 22i64) | ((node as i64) << 14i64) | (sequence as i64)) & 0x7fff_ffff_ffff_ffffi64
}

/// Composes an id from a timestamp, a node id and a sequence number
pub fn compose_id(time: i64, node: u8, sequence: u16) -> (id: FlakeId)
    ensures
        id.0 == flake_bits(time, node, sequence),
{
    let node = node as i64;
    let sequence = sequence as i64;
    FlakeId((time << TIMESTAMP_SHIFT | (node << NODE_ID_SHIFT) | sequence) & i64::MAX)
}

/// The position of an id's parts in the id: below 2^41 milliseconds,
/// the timestamp, node id and sequence number are laid out side by side.
pub proof fn lemma_flake_layout(time: i64, node: u8, sequence: u16)
    requires
        0 <= time < 0x200_0000_0000i64,
        sequence <= SEQUENCE_MASK,
    ensures
        flake_bits(time, node, sequence) == time * 0x40_0000 + node * 0x4000 + sequence,
        flake_bits(time, node, sequence) >> 22i64 == time,
        (flake_bits(time, node, sequence) >> 14i64) & 0xffi64 == node as i64,
        flake_bits(time, node, sequence) & 0x3fffi64 == sequence as i64,
{
    let n = node as i64;
    let s = sequence as i64;
    assert(0 <= n < 256);
    assert(0 <= s < 0x4000);
    assert(((time << 22i64) | (n << 14i64) | s) & 0x7fff_ffff_ffff_ffffi64 == time * 0x40_0000 + n
        * 0x4000 + s) by (bit_vector)
        requires
            0 <= time < 0x200_0000_0000i64,
            0 <= n < 256,
            0 <= s < 0x4000,
    ;
    let id: i64 = flake_bits(time, node, sequence);
    assert(id >> 22i64 == time && (id >> 14i64) & 0xffi64 == n && id & 0x3fffi64 == s) by (bit_vector)
        requires
            0 <= time < 0x200_0000_0000i64,
            0 <= n < 256,
            0 <= s < 0x4000,
            id == ((time << 22i64) | (n << 14i64) | s) & 0x7fff_ffff_ffff_ffffi64,
    ;
}

/// Id order law: below 2^41 milliseconds, a later timestamp, or the same
/// timestamp with a later sequence number, gives a larger id for the same node.
pub proof fn lemma_flake_order(t1: i64, s1: u16, t2: i64, s2: u16, node: u8)
    requires
        0 <= t1 < 0x200_0000_0000i64,
        0 <= t2 < 0x200_0000_0000i64,
        s1 <= SEQUENCE_MASK,
        s2 <= SEQUENCE_MASK,
        t1 < t2 || (t1 == t2 && s1 < s2),
    ensures
        flake_bits(t1, node, s1) < flake_bits(t2, node, s2),
{
    lemma_flake_layout(t1, node, s1);
    lemma_flake_layout(t2, node, s2);
    if t1 < t2 {
        assert(t1 * 0x40_0000 + 0x40_0000 <= t2 * 0x40_0000) by (nonlinear_arith)
            requires
                t1 < t2,
        ;
    }
}

/// The clock and sequence state of an id generator.
pub struct GeneratorState {
    idx: u16,
    last_time: i64,
}

/// The generator state as plain values: the last timestamp and sequence number issued.
pub struct StateView {
    pub last_time: i64,
    pub idx: u16,
}

/// `b` comes strictly after `a`: a later timestamp, or the same one with a
/// later sequence number.
pub open spec fn later(b: StateView, a: StateView) -> bool {
    b.last_time > a.last_time || (b.last_time == a.last_time && b.idx > a.idx)
}

/// The sequence number after `idx` within one millisecond; 0 once the
/// `SEQUENCE_MASK` numbers of the millisecond are used up.
pub open spec fn next_sequence(idx: u16) -> u16 {
    if idx + 1 < SEQUENCE_MASK {
        (idx + 1) as u16
    } else {
        0
    }
}

/// The state after observing the clock at `now`.
pub open spec fn observed(v: StateView, now: i64) -> StateView {
    if now == v.last_time {
        StateView { last_time: v.last_time, idx: next_sequence(v.idx) }
    } else {
        StateView { last_time: now, idx: 0 }
    }
}

/// Observing the clock at `now` used up the sequence numbers of the millisecond.
pub open spec fn exhausted(v: StateView, now: i64) -> bool {
    now == v.last_time && observed(v, now).idx == 0
}

impl View for GeneratorState {
    type V = StateView;

    closed spec fn view(&self) -> StateView {
        StateView { last_time: self.last_time, idx: self.idx }
    }
}

impl GeneratorState {
    #[verifier::type_invariant]
    closed spec fn sequence_in_range(&self) -> bool {
        self.idx < SEQUENCE_MASK
    }

    /// A fresh state: no timestamp issued yet.
    pub fn new() -> (r: Self)
        ensures
            r@ == (StateView { last_time: 0, idx: 0 }),
    {
        GeneratorState { idx: 0, last_time: 0 }
    }

    /// Returns the last timestamp issued
    pub fn last_time(&self) -> (r: i64)
        ensures
            r == self@.last_time,
    {
        self.last_time
    }

    /// Returns the last sequence number issued
    pub fn sequence(&self) -> (r: u16)
        ensures
            r == self@.idx,
            r < SEQUENCE_MASK,
    {
        proof {
            use_type_invariant(self);
        }
        self.idx
    }

    /// Takes in the clock reading `now` (milliseconds since the epoch): within the
    /// same millisecond the sequence number advances, otherwise it restarts at 0.
    /// Returns `true` when the sequence numbers of the millisecond are used up; the
    /// caller then waits for a later millisecond and passes it to [`Self::resume`].
    pub fn observe(&mut self, now: i64) -> (must_wait: bool)
        ensures
            final(self)@ == observed(old(self)@, now),
            must_wait == exhausted(old(self)@, now),
            old(self)@.idx < SEQUENCE_MASK,
    {
        proof {
            use_type_invariant(&*self);
        }
        if now == self.last_time {
            let next: u16 = if self.idx + 1 < SEQUENCE_MASK {
                self.idx + 1
            } else {
                0
            };
            self.idx = next;
            next == 0
        } else {
            self.last_time = now;
            self.idx = 0;
            false
        }
    }

    /// Moves to the millisecond `ts`, later than the last one issued, keeping
    /// the sequence number.
    pub fn resume(&mut self, ts: i64)
        requires
            ts > old(self)@.last_time,
        ensures
            final(self)@ == (StateView { last_time: ts, idx: old(self)@.idx }),
    {
        proof {
            use_type_invariant(&*self);
        }
        self.last_time = ts;
    }

    /// The id for the current state and `node`
    pub fn issue(&self, node: u8) -> (id: FlakeId)
        ensures
            id.0 == flake_bits(self@.last_time, node, self@.idx),
    {
        compose_id(self.last_time, node, self.idx)
    }
}

/// Generator progress law: while the clock does not run backwards, every id the
/// generator issues comes strictly after the previous one. When the sequence
/// numbers of a millisecond are used up, it is the wait for a later millisecond
/// `ts` that moves the state forward.
pub proof fn lemma_generator_advances(v: StateView, now: i64, ts: i64)
    requires
        v.idx < SEQUENCE_MASK,
        now >= v.last_time,
        exhausted(v, now) ==> ts > v.last_time,
    ensures
        !exhausted(v, now) ==> later(observed(v, now), v),
        exhausted(v, now) ==> later(
            StateView { last_time: ts, idx: observed(v, now).idx },
            v,
        ),
{
}

/// Uniqueness law of the generator: while the clock does not run backwards and stays
/// below 2^41 milliseconds after the epoch, the id issued after observing the clock
/// (and, when the millisecond is used up, waiting for `ts`) is strictly larger than
/// the id issued before, so no id is issued twice.
pub proof fn lemma_issued_ids_increase(v: StateView, now: i64, ts: i64, node: u8)
    requires
        v.idx < SEQUENCE_MASK,
        0 <= v.last_time <= now < 0x200_0000_0000i64,
        exhausted(v, now) ==> v.last_time < ts < 0x200_0000_0000i64,
    ensures
        ({
            let next = if exhausted(v, now) {
                StateView { last_time: ts, idx: observed(v, now).idx }
            } else {
                observed(v, now)
            };
            flake_bits(v.last_time, node, v.idx) < flake_bits(next.last_time, node, next.idx)
        }),
{
    lemma_generator_advances(v, now, ts);
    let o = observed(v, now);
    if exhausted(v, now) {
        lemma_flake_order(v.last_time, v.idx, ts, o.idx, node);
    } else {
        lemma_flake_order(v.last_time, v.idx, o.last_time, o.idx, node);
    }
}

/// Capacity law of a millisecond: states that share one timestamp and follow one
/// another strictly (as the ids of one node issued within a millisecond do) number
/// at most `SEQUENCE_MASK`, that is at most 16383 ids per millisecond.
pub proof fn lemma_millisecond_capacity(run: Seq<StateView>)
    requires
        forall|i: int| 0 <= i < run.len() ==> #[trigger] run[i].idx < SEQUENCE_MASK,
        forall|i: int|
            0 <= i < run.len() ==> #[trigger] run[i].last_time == run[0].last_time,
        forall|i: int| 0 < i < run.len() ==> later(#[trigger] run[i], run[i - 1]),
    ensures
        run.len() <= SEQUENCE_MASK,
{
    if run.len() > 0 {
        assert forall|i: int| 0 <= i < run.len() implies #[trigger] run[i].idx >= i by {
            lemma_sequence_at_least_position(run, i);
        }
        assert(run[run.len() - 1].idx >= run.len() - 1);
    }
}

/// Capacity law of the generator's steps: a run of clock observations at one
/// millisecond `now`, each taken from the state the previous one left and none of
/// them asking to wait, holds at most `SEQUENCE_MASK` states, so at most 16383 ids
/// are issued at one millisecond before the generator waits for a later one.
pub proof fn lemma_observations_per_millisecond(run: Seq<StateView>, now: i64)
    requires
        run.len() > 0,
        run[0].last_time == now,
        run[0].idx < SEQUENCE_MASK,
        forall|i: int|
            0 <= i < run.len() - 1 ==> run[i + 1] == observed(#[trigger] run[i], now)
                && !exhausted(run[i], now),
    ensures
        run.len() <= SEQUENCE_MASK,
{
    assert forall|i: int| 0 <= i < run.len() implies #[trigger] run[i].idx < SEQUENCE_MASK
        && run[i].last_time == now by {
        lemma_observed_run_prefix(run, now, i);
    }
    assert forall|i: int| 0 < i < run.len() implies later(#[trigger] run[i], run[i - 1]) by {
        lemma_observed_run_prefix(run, now, i - 1);
        assert(run[i] == observed(run[i - 1], now));
    }
    lemma_millisecond_capacity(run);
}

/// Sequence step law: observing the clock in the millisecond last issued advances the
/// sequence number by one without waiting, until the number `SEQUENCE_MASK - 1`
/// (16382) has been issued; the next observation in that millisecond asks to wait.
/// Observing any other millisecond moves to it with sequence number 0, without waiting.
pub proof fn lemma_sequence_steps_by_one(v: StateView, now: i64)
    requires
        v.idx < SEQUENCE_MASK,
    ensures
        now == v.last_time && v.idx < 16382 ==> !exhausted(v, now) && observed(v, now)
            == (StateView { last_time: now, idx: (v.idx + 1) as u16 }),
        now == v.last_time && v.idx == 16382 ==> exhausted(v, now),
        now != v.last_time ==> !exhausted(v, now) && observed(v, now) == (StateView {
            last_time: now,
            idx: 0,
        }),
{
}

proof fn lemma_observed_run_prefix(run: Seq<StateView>, now: i64, i: int)
    requires
        0 <= i < run.len(),
        run[0].last_time == now,
        run[0].idx < SEQUENCE_MASK,
        forall|j: int|
            0 <= j < run.len() - 1 ==> run[j + 1] == observed(#[trigger] run[j], now)
                && !exhausted(run[j], now),
    ensures
        run[i].idx < SEQUENCE_MASK,
        run[i].last_time == now,
    decreases i,
{
    if i > 0 {
        lemma_observed_run_prefix(run, now, i - 1);
        assert(run[i] == observed(run[i - 1], now));
    }
}

proof fn lemma_sequence_at_least_position(run: Seq<StateView>, i: int)
    requires
        0 <= i < run.len(),
        forall|j: int|
            0 <= j < run.len() ==> #[trigger] run[j].last_time == run[0].last_time,
        forall|j: int| 0 < j < run.len() ==> later(#[trigger] run[j], run[j - 1]),
    ensures
        run[i].idx >= i,
    decreases i,
{
    if i > 0 {
        lemma_sequence_at_least_position(run, i - 1);
        assert(later(run[i], run[i - 1]));
        assert(run[i].last_time == run[0].last_time);
        assert(run[i - 1].last_time == run[0].last_time);
    }
}

} // verus!
