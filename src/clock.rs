use vstd::prelude::*;

use crate::datetime::{datetime_exists, is_datetime_millis};
use crate::messages::{TimeManagement, SPEED_UNIT};
use crate::time_state::TimeState;

verus! {

/// A paired snapshot from which the current simulation time is extrapolated.
///
/// Both timestamps are milliseconds since the Unix epoch; the speed is in
/// thousandths (`SPEED_UNIT` stands for a speed of one).
#[derive(Debug, Clone, Copy, PartialEq, Eq, Structural)]
pub struct ClockAnchor {
    pub wallclock_at_update: i64,
    pub sim_time_at_update: i64,
    pub speed: u32,
    pub state: TimeState,
}

/// Why a control message was not applied to the clock.
#[derive(Debug, Clone, Copy, PartialEq, Eq, Structural)]
pub enum ClockError {
    /// The message's simulation time names no UTC date-time.
    SimulationTimeOutOfRange,
}

/// `n / d` rounded to the nearest integer, halves away from zero.
pub open spec fn round_div(n: int, d: int) -> int
    recommends
        d > 0,
{
    if n >= 0 {
        (2 * n + d) / (2 * d)
    } else {
        -((-2 * n + d) / (2 * d))
    }
}

/// Simulation milliseconds that pass in `elapsed` wall-clock milliseconds at
/// `speed` thousandths, rounded to the nearest millisecond.
pub open spec fn scaled_elapsed(elapsed: int, speed: int) -> int {
    round_div(elapsed * speed, SPEED_UNIT as int)
}

/// Simulation time at wall-clock time `now`, extrapolated from anchor `a`.
pub open spec fn extrapolated(a: ClockAnchor, now: int) -> int {
    a.sim_time_at_update + scaled_elapsed(now - a.wallclock_at_update, a.speed as int)
}

/// The anchor that replaces `prev` when a message with `state`,
/// `sim_time` and `speed` is accepted at wall-clock time `now`.
/// `accepted_before` tells whether any message was accepted earlier.
pub open spec fn next_anchor(
    prev: ClockAnchor,
    accepted_before: bool,
    state: TimeState,
    sim_time: Option<i64>,
    speed: Option<u32>,
    now: i64,
) -> ClockAnchor {
    ClockAnchor {
        wallclock_at_update: now,
        sim_time_at_update: match sim_time {
            Some(t) => t,
            None => prev.sim_time_at_update,
        },
        speed: match speed {
            Some(s) => s,
            None => if accepted_before {
                prev.speed
            } else {
                SPEED_UNIT
            },
        },
        state,
    }
}

/// The anchor a clock holds from process start at wall-clock time `now`.
pub open spec fn initial_anchor(now: i64) -> ClockAnchor {
    ClockAnchor {
        wallclock_at_update: now,
        sim_time_at_update: now,
        speed: 0,
        state: TimeState::Initialization,
    }
}

/// Whether a message with this simulation time can be applied.
pub open spec fn sim_time_acceptable(sim_time: Option<i64>) -> bool {
    match sim_time {
        Some(t) => is_datetime_millis(t as int),
        None => true,
    }
}

/// The clock store: the one current anchor, replaced wholesale on each update.
pub struct ClockStore {
    anchor: ClockAnchor,
    accepted_any: bool,
    committed: Ghost<Seq<ClockAnchor>>,
}

impl ClockStore {
    /// The anchor the store holds now.
    pub closed spec fn current(&self) -> ClockAnchor {
        self.anchor
    }

    /// Whether a control message was accepted since the store was made.
    pub closed spec fn has_accepted(&self) -> bool {
        self.accepted_any
    }

    /// Every anchor the store has held, oldest first.
    pub closed spec fn history(&self) -> Seq<ClockAnchor> {
        self.committed@
    }

    /// The store holds the last anchor it committed.
    #[verifier::type_invariant]
    spec fn holds_last_committed(self) -> bool {
        &&& self.committed@.len() > 0
        &&& self.committed@.last() == self.anchor
    }

    /// A store created at wall-clock time `now_ms`.
    pub fn new(now_ms: i64) -> (r: ClockStore)
        ensures
            r.current() == initial_anchor(now_ms),
            !r.has_accepted(),
            r.history() == seq![initial_anchor(now_ms)],
    {
        let anchor = ClockAnchor {
            wallclock_at_update: now_ms,
            sim_time_at_update: now_ms,
            speed: 0,
            state: TimeState::Initialization,
        };
        ClockStore { anchor, accepted_any: false, committed: Ghost(Seq::empty().push(anchor)) }
    }

    /// Replaces the whole anchor at once.
    pub fn update(&mut self, anchor: ClockAnchor)
        ensures
            final(self).current() == anchor,
            final(self).has_accepted() == old(self).has_accepted(),
            final(self).history() == old(self).history().push(anchor),
    {
        let committed = Ghost(self.committed@.push(anchor));
        *self = ClockStore { anchor, accepted_any: self.accepted_any, committed };
    }

    /// Applies a control message accepted at wall-clock time `now_ms`.
    ///
    /// A message whose simulation time names no UTC date-time is refused and
    /// leaves the store unchanged; any other one replaces the anchor.
    pub fn apply_message(&mut self, message: &TimeManagement, now_ms: i64) -> (r: Result<
        (),
        ClockError,
    >)
        ensures
            r is Ok <==> sim_time_acceptable(message.simulation_time),
            r is Err ==> r == Err::<(), ClockError>(ClockError::SimulationTimeOutOfRange)
                && *final(self) == *old(self),
            r is Ok ==> {
                &&& final(self).current() == next_anchor(
                    old(self).current(),
                    old(self).has_accepted(),
                    message.state,
                    message.simulation_time,
                    message.simulation_speed,
                    now_ms,
                )
                &&& final(self).has_accepted()
                &&& final(self).history() == old(self).history().push(final(self).current())
            },
    {
        let sim_time_at_update = match message.simulation_time {
            Some(t) => {
                if !datetime_exists(t) {
                    return Err(ClockError::SimulationTimeOutOfRange);
                }
                t
            },
            None => self.anchor.sim_time_at_update,
        };
        let speed = match message.simulation_speed {
            Some(s) => s,
            None => if self.accepted_any {
                self.anchor.speed
            } else {
                SPEED_UNIT
            },
        };
        let anchor = ClockAnchor {
            wallclock_at_update: now_ms,
            sim_time_at_update,
            speed,
            state: message.state,
        };
        let committed = Ghost(self.committed@.push(anchor));
        *self = ClockStore { anchor, accepted_any: true, committed };
        Ok(())
    }

    /// A consistent copy of the current anchor: always one of the anchors the
    /// store committed, whole, never the wall-clock half of one update with
    /// the simulation half of another.
    pub fn snapshot(&self) -> (r: ClockAnchor)
        ensures
            r == self.current(),
            self.history().contains(r),
    {
        proof {
            use_type_invariant(self);
            assert(self.history()[self.history().len() - 1] == self.anchor);
        }
        self.anchor
    }

    /// The simulation time at wall-clock time `now_ms`, in milliseconds since
    /// the Unix epoch, or `None` when it names no UTC date-time.
    pub fn get_time(&self, now_ms: i64) -> (r: Option<i64>)
        ensures
            r == if is_datetime_millis(extrapolated(self.current(), now_ms as int)) {
                Some(extrapolated(self.current(), now_ms as int) as i64)
            } else {
                None::<i64>
            },
    {
        extrapolate(&self.anchor, now_ms)
    }

    /// The lifecycle state of the current anchor.
    pub fn get_state(&self) -> (r: TimeState)
        ensures
            r == self.current().state,
    {
        self.anchor.state
    }

    /// The speed of the current anchor, in thousandths.
    pub fn get_speed(&self) -> (r: u32)
        ensures
            r == self.current().speed,
    {
        self.anchor.speed
    }
}

/// The simulation time at wall-clock time `now_ms` extrapolated from `anchor`,
/// or `None` when it names no UTC date-time.
pub fn extrapolate(anchor: &ClockAnchor, now_ms: i64) -> (r: Option<i64>)
    ensures
        r == if is_datetime_millis(extrapolated(*anchor, now_ms as int)) {
            Some(extrapolated(*anchor, now_ms as int) as i64)
        } else {
            None::<i64>
        },
{
    let elapsed: i128 = now_ms as i128 - anchor.wallclock_at_update as i128;
    let speed: i128 = anchor.speed as i128;
    proof {
        assert(-0x1_0000_0000_0000_0000 < elapsed < 0x1_0000_0000_0000_0000);
        assert(0 <= speed < 0x1_0000_0000);
        assert(-0x1_0000_0000_0000_0000_0000_0000 < elapsed * speed
            < 0x1_0000_0000_0000_0000_0000_0000) by (nonlinear_arith)
            requires
                -0x1_0000_0000_0000_0000 < elapsed < 0x1_0000_0000_0000_0000,
                0 <= speed < 0x1_0000_0000,
        ;
    }
    let product: i128 = elapsed * speed;
    let unit: i128 = SPEED_UNIT as i128;
    let scaled: i128 = if product >= 0 {
        (2 * product + unit) / (2 * unit)
    } else {
        let magnitude: i128 = 0 - product;
        0 - (2 * magnitude + unit) / (2 * unit)
    };
    let time: i128 = anchor.sim_time_at_update as i128 + scaled;
    if time < i64::MIN as i128 || time > i64::MAX as i128 {
        proof {
            assert(!is_datetime_millis(time as int));
        }
        None
    } else if datetime_exists(time as i64) {
        Some(time as i64)
    } else {
        None
    }
}

/// With no update in between, the simulation time `elapsed >= 0` wall-clock
/// milliseconds after an anchor is the anchor's simulation time plus the
/// elapsed time scaled by the speed, rounded to the nearest millisecond: it
/// is within half a millisecond of the exact scaled value.
pub proof fn lemma_extrapolation(a: ClockAnchor, elapsed: int)
    requires
        elapsed >= 0,
    ensures
        extrapolated(a, a.wallclock_at_update + elapsed) == a.sim_time_at_update + (elapsed
            * a.speed + 500) / 1000,
        -500 < 1000 * (extrapolated(a, a.wallclock_at_update + elapsed) - a.sim_time_at_update)
            - elapsed * a.speed <= 500,
{
    let n = elapsed * a.speed;
    assert(n >= 0) by (nonlinear_arith)
        requires
            elapsed >= 0,
            a.speed >= 0,
            n == elapsed * a.speed,
    ;
    assert((2 * n + 1000) / 2000 == (n + 500) / 1000);
    let q = (n + 500) / 1000;
    assert(1000 * q <= n + 500 < 1000 * q + 1000);
}

/// A message without a speed keeps the previous anchor's speed, except the
/// first message ever accepted, which yields a speed of one.
pub proof fn lemma_missing_speed(
    prev: ClockAnchor,
    accepted_before: bool,
    state: TimeState,
    sim_time: Option<i64>,
    now: i64,
)
    ensures
        next_anchor(prev, accepted_before, state, sim_time, None, now).speed == if accepted_before {
            prev.speed
        } else {
            SPEED_UNIT
        },
{
}

/// A message without a simulation time keeps the previous anchor's
/// simulation time.
pub proof fn lemma_missing_sim_time(
    prev: ClockAnchor,
    accepted_before: bool,
    state: TimeState,
    speed: Option<u32>,
    now: i64,
)
    ensures
        next_anchor(prev, accepted_before, state, None, speed, now).sim_time_at_update
            == prev.sim_time_at_update,
{
}

} // verus!
