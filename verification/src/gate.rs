//! The activation gate: a polling state machine that demands a continuous
//! key hold before startup may proceed.
//!
//! The activation gate observes the key at discrete ticks inside a
//! bounded observation window. It passes the instant the key has been held
//! continuously for the hold threshold — the comparison is inclusive, a hold of exactly the
//! threshold passes — and fails once the window elapses without that ever
//! happening. Releasing the key discards any partial hold; it never extends
//! the window.

use vstd::prelude::*;

verus! {

/// The key must be held continuously for at least this long.
pub const HOLD_THRESHOLD_MILLIS: u64 = 2000;

/// The activation gate gives up this long after it starts observing.
pub const OBSERVATION_WINDOW_MILLIS: u64 = 10000;

/// How long the driving loop sleeps between ticks. A tuning constant: the
/// gate's meaning is defined over whatever tick times actually occur.
pub const POLL_INTERVAL_MILLIS: u64 = 100;

/// The activation gate's state between ticks: either no key-down has been
/// observed, or the key has been down continuously since time `since`.
#[derive(Clone, Copy, PartialEq, Eq, Structural, Debug)]
pub enum GateState {
    Idle,
    Holding { since: u64 },
}

/// One observation: the key's state at `at` milliseconds after the window
/// opened.
#[derive(Clone, Copy, PartialEq, Eq, Structural, Debug)]
pub struct GateSample {
    pub at: u64,
    pub key_down: bool,
}

/// Whether a tick at time `now` with key state `key_down` passes the
/// activation gate: only a key held since at least the threshold ago does. The comparison is
/// `>=`: a hold of exactly the threshold passes.
pub open spec fn tick_passes(state: GateState, now: u64, key_down: bool) -> bool {
    &&& key_down
    &&& state matches GateState::Holding { since } && now - since >= HOLD_THRESHOLD_MILLIS
}

/// The state after a tick: a release always discards the partial hold; a
/// press starts a hold at `now` or leaves a running hold untouched.
pub open spec fn tick_next(state: GateState, now: u64, key_down: bool) -> GateState {
    if !key_down {
        GateState::Idle
    } else {
        match state {
            GateState::Idle => GateState::Holding { since: now },
            GateState::Holding { .. } => state,
        }
    }
}

/// Whether the activation gate, run from sample `i` onward in `state`,
/// passes before the observation window elapses. Running out of samples or reaching a
/// sample at or past the window means failure.
pub open spec fn gate_outcome_from(samples: Seq<GateSample>, i: int, state: GateState) -> bool
    decreases samples.len() - i,
{
    if i < 0 || i >= samples.len() {
        false
    } else if samples[i].at >= OBSERVATION_WINDOW_MILLIS {
        false
    } else if tick_passes(state, samples[i].at, samples[i].key_down) {
        true
    } else {
        gate_outcome_from(samples, i + 1, tick_next(state, samples[i].at, samples[i].key_down))
    }
}

/// Whether a whole observed trace makes the activation gate pass.
pub open spec fn gate_passes(samples: Seq<GateSample>) -> bool {
    gate_outcome_from(samples, 0, GateState::Idle)
}

/// Sample times never decrease.
pub open spec fn monotone(samples: Seq<GateSample>) -> bool {
    forall|i: int, j: int| 0 <= i <= j < samples.len() ==> samples[i].at <= samples[j].at
}

/// Advances the activation gate by one tick, reporting the next state and
/// whether this tick passed the activation gate.
pub fn gate_tick(state: GateState, now: u64, key_down: bool) -> (r: (GateState, bool))
    requires
        state matches GateState::Holding { since } ==> since <= now,
    ensures
        r.0 == tick_next(state, now, key_down),
        r.1 == tick_passes(state, now, key_down),
{
    if !key_down {
        (GateState::Idle, false)
    } else {
        match state {
            GateState::Idle => (GateState::Holding { since: now }, false),
            GateState::Holding { since } => (state, now - since >= HOLD_THRESHOLD_MILLIS),
        }
    }
}

/// Runs the activation gate over an observed trace of key samples, in
/// trace order, and reports whether it passed inside the observation
/// window.
pub fn await_rshift(samples: &Vec<GateSample>) -> (passed: bool)
    requires
        monotone(samples@),
    ensures
        passed == gate_passes(samples@),
{
    let n: usize = samples.len();
    let mut state: GateState = GateState::Idle;
    let mut i: usize = 0;
    while i < n
        invariant
            i <= n,
            n == samples@.len(),
            monotone(samples@),
            state matches GateState::Holding { since } ==> (0 < i && since
                <= samples@[i - 1].at),
            gate_passes(samples@) == gate_outcome_from(samples@, i as int, state),
        decreases n - i,
    {
        let sample: GateSample = samples[i];
        if sample.at >= OBSERVATION_WINDOW_MILLIS {
            return false;
        }
        let tick: (GateState, bool) = gate_tick(state, sample.at, sample.key_down);
        if tick.1 {
            return true;
        }
        state = tick.0;
        i = i + 1;
    }
    false
}

/// A key held while already in a hold since `since` keeps the activation
/// gate running until the hold spans the threshold, and then passes.
proof fn lemma_holding_run(samples: Seq<GateSample>, k: int, j: int, since: u64)
    requires
        monotone(samples),
        0 <= k <= j < samples.len(),
        forall|t: int| k <= t <= j ==> samples[t].key_down,
        samples[j].at < OBSERVATION_WINDOW_MILLIS,
        samples[j].at - since >= HOLD_THRESHOLD_MILLIS,
    ensures
        gate_outcome_from(samples, k, GateState::Holding { since }),
    decreases j - k,
{
    assert(samples[k].at <= samples[j].at);
    if samples[k].at - since >= HOLD_THRESHOLD_MILLIS {
        assert(tick_passes(GateState::Holding { since }, samples[k].at, samples[k].key_down));
    } else {
        assert(k < j);
        assert(tick_next(GateState::Holding { since }, samples[k].at, samples[k].key_down)
            == GateState::Holding { since });
        lemma_holding_run(samples, k + 1, j, since);
    }
}

/// From any state whose hold, if any, began no later than sample `i`, a key
/// held continuously from sample `i` through sample `j` makes the
/// activation gate pass, provided the hold spans the threshold and stays
/// inside the window.
proof fn lemma_hold_interval(samples: Seq<GateSample>, i: int, j: int, state: GateState)
    requires
        monotone(samples),
        0 <= i <= j < samples.len(),
        forall|t: int| i <= t <= j ==> samples[t].key_down,
        samples[j].at < OBSERVATION_WINDOW_MILLIS,
        samples[j].at - samples[i].at >= HOLD_THRESHOLD_MILLIS,
        state matches GateState::Holding { since } ==> since <= samples[i].at,
    ensures
        gate_outcome_from(samples, i, state),
{
    assert(samples[i].at <= samples[j].at);
    if tick_passes(state, samples[i].at, samples[i].key_down) {
    } else {
        assert(i < j);
        let next = tick_next(state, samples[i].at, samples[i].key_down);
        match next {
            GateState::Holding { since } => {
                assert(since <= samples[i].at);
                assert(samples[j].at - since >= HOLD_THRESHOLD_MILLIS);
                lemma_holding_run(samples, i + 1, j, since);
            },
            GateState::Idle => {
                assert(false);
            },
        }
    }
}

/// Running the activation gate from sample `p` still passes: the ticks
/// before the hold interval either pass outright or carry some state into
/// sample `i` whose hold began no later than `i`.
proof fn lemma_reach_hold(samples: Seq<GateSample>, p: int, state: GateState, i: int, j: int)
    requires
        monotone(samples),
        0 <= p <= i <= j < samples.len(),
        forall|t: int| i <= t <= j ==> samples[t].key_down,
        samples[j].at < OBSERVATION_WINDOW_MILLIS,
        samples[j].at - samples[i].at >= HOLD_THRESHOLD_MILLIS,
        state matches GateState::Holding { since } ==> since <= samples[p].at,
    ensures
        gate_outcome_from(samples, p, state),
    decreases i - p,
{
    if p == i {
        lemma_hold_interval(samples, i, j, state);
    } else {
        assert(samples[p].at <= samples[j].at);
        if tick_passes(state, samples[p].at, samples[p].key_down) {
        } else {
            let next = tick_next(state, samples[p].at, samples[p].key_down);
            assert(samples[p].at <= samples[p + 1].at);
            assert(next matches GateState::Holding { since } ==> since <= samples[p + 1].at);
            lemma_reach_hold(samples, p + 1, next, i, j);
        }
    }
}

/// Law: holding the key continuously from sample `i` through sample `j`
/// passes the activation gate, whenever that hold spans at least the
/// threshold and sample `j` still falls inside the observation window. The comparison is
/// inclusive, so a hold of exactly the threshold passes.
pub proof fn lemma_continuous_hold_passes(samples: Seq<GateSample>, i: int, j: int)
    requires
        monotone(samples),
        0 <= i <= j < samples.len(),
        forall|t: int| i <= t <= j ==> samples[t].key_down,
        samples[j].at < OBSERVATION_WINDOW_MILLIS,
        samples[j].at - samples[i].at >= HOLD_THRESHOLD_MILLIS,
    ensures
        gate_passes(samples),
{
    lemma_reach_hold(samples, 0, GateState::Idle, i, j);
}

/// Law: if the key is never observed down inside the observation window,
/// the activation gate fails, whatever trailing samples the trace holds.
pub proof fn lemma_never_pressed_fails(samples: Seq<GateSample>)
    requires
        forall|k: int|
            0 <= k < samples.len() && samples[k].at < OBSERVATION_WINDOW_MILLIS
                ==> !samples[k].key_down,
    ensures
        !gate_passes(samples),
{
    lemma_no_pass_from(samples, 0, GateState::Idle);
}

/// No tick inside the window sees the key down, so no tick ever passes.
proof fn lemma_no_pass_from(samples: Seq<GateSample>, i: int, state: GateState)
    requires
        0 <= i,
        forall|k: int|
            0 <= k < samples.len() && samples[k].at < OBSERVATION_WINDOW_MILLIS
                ==> !samples[k].key_down,
    ensures
        !gate_outcome_from(samples, i, state),
    decreases samples.len() - i,
{
    if i < samples.len() && samples[i].at < OBSERVATION_WINDOW_MILLIS {
        assert(!samples[i].key_down);
        lemma_no_pass_from(samples, i + 1, tick_next(state, samples[i].at, samples[i].key_down));
    }
}

} // verus!
