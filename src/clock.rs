//! Fixed-timestep accumulator: turns variable frame times into whole
//! simulation ticks of `1 s / tick_rate` each.

use vstd::prelude::*;
use vstd::arithmetic::div_mod::{
    lemma_div_multiples_vanish_quotient, lemma_fundamental_div_mod,
    lemma_fundamental_div_mod_converse,
};

verus! {

/// Nanoseconds in one second.
pub const NANOS_PER_SECOND: u64 = 1_000_000_000;

/// A time scale of `1.0`, in thousandths.
pub const TIME_SCALE_ONE: i32 = 1000;

/// Highest tick rate that still gives a tick of at least one nanosecond.
pub const MAX_TICK_RATE: u32 = 1_000_000_000;

/// Length of one tick, in nanoseconds, for `tick_rate` ticks per second.
pub open spec fn tick_len(tick_rate: nat) -> nat {
    NANOS_PER_SECOND as nat / tick_rate
}

/// Magnitude of a time scale given in thousandths.
pub open spec fn scale_magnitude(scale_milli: int) -> nat {
    if scale_milli < 0 {
        (-scale_milli) as nat
    } else {
        scale_milli as nat
    }
}

/// Sign of a time scale: -1, 0 or 1.
pub open spec fn scale_sign(scale_milli: int) -> int {
    if scale_milli < 0 {
        -1
    } else if scale_milli == 0 {
        0
    } else {
        1
    }
}

/// Simulation time added by a frame of `delta` nanoseconds under the given
/// time scale: the frame time times the scale's magnitude, rounded down.
pub open spec fn scaled_nanos(delta: nat, scale_milli: int) -> nat {
    delta * scale_magnitude(scale_milli) / (TIME_SCALE_ONE as nat)
}

/// Ticks emitted over a run of frames, starting from remainder `rest`.
pub open spec fn ticks_over(rest: nat, tick: nat, scale_milli: int, deltas: Seq<nat>) -> nat
    decreases deltas.len(),
{
    if deltas.len() == 0 || tick == 0 {
        0
    } else {
        let total = rest + scaled_nanos(deltas[0], scale_milli);
        total / tick + ticks_over(total % tick, tick, scale_milli, deltas.drop_first())
    }
}

/// Sum of a run of frame times.
pub open spec fn total_nanos(deltas: Seq<nat>) -> nat
    decreases deltas.len(),
{
    if deltas.len() == 0 {
        0
    } else {
        deltas[0] + total_nanos(deltas.drop_first())
    }
}

/// The ticks that one `advance` released: how many, and the signed length
/// of each in nanoseconds (negative when time runs backwards).
#[derive(Clone, Copy, Debug, PartialEq, Eq)]
pub struct Ticks {
    pub count: u64,
    pub step_nanos: i64,
}

/// Accumulates scaled frame time and drains it in whole ticks.
#[derive(Clone, Copy, Debug)]
pub struct SimulationClock {
    accumulated: u64,
    tick_rate: u32,
    time_scale: i32,
}

impl SimulationClock {
    /// Time carried over that has not yet made a whole tick, in nanoseconds.
    pub closed spec fn accumulated_spec(&self) -> nat {
        self.accumulated as nat
    }

    /// Ticks per second.
    pub closed spec fn tick_rate_spec(&self) -> nat {
        self.tick_rate as nat
    }

    /// Time scale in thousandths; its sign gives the direction of time.
    pub closed spec fn time_scale_spec(&self) -> int {
        self.time_scale as int
    }

    /// Length of one tick of this clock, in nanoseconds.
    pub open spec fn tick_spec(&self) -> nat {
        tick_len(self.tick_rate_spec())
    }

    pub open spec fn wf(&self) -> bool {
        &&& 1 <= self.tick_rate_spec() <= MAX_TICK_RATE
        &&& self.accumulated_spec() < NANOS_PER_SECOND
    }

    /// A clock with nothing accumulated.
    pub fn new(tick_rate: u32, time_scale: i32) -> (r: SimulationClock)
        requires
            1 <= tick_rate <= MAX_TICK_RATE,
        ensures
            r.wf(),
            r.accumulated_spec() == 0,
            r.tick_rate_spec() == tick_rate,
            r.time_scale_spec() == time_scale,
    {
        SimulationClock { accumulated: 0, tick_rate, time_scale }
    }

    pub fn accumulated_nanos(&self) -> (r: u64)
        ensures
            r == self.accumulated_spec(),
    {
        self.accumulated
    }

    pub fn tick_rate(&self) -> (r: u32)
        ensures
            r == self.tick_rate_spec(),
    {
        self.tick_rate
    }

    pub fn time_scale(&self) -> (r: i32)
        ensures
            r == self.time_scale_spec(),
    {
        self.time_scale
    }

    /// Length of one tick, in nanoseconds.
    pub fn tick_nanos(&self) -> (r: u64)
        requires
            self.wf(),
        ensures
            r == self.tick_spec(),
            1 <= r <= NANOS_PER_SECOND,
    {
        let rate = self.tick_rate as u64;
        assert(NANOS_PER_SECOND as nat / (rate as nat) >= 1) by (nonlinear_arith)
            requires 1 <= rate <= NANOS_PER_SECOND;
        assert(NANOS_PER_SECOND as nat / (rate as nat) <= NANOS_PER_SECOND) by (nonlinear_arith)
            requires 1 <= rate;
        NANOS_PER_SECOND / rate
    }

    /// Changes the tick rate; time already accumulated is kept.
    pub fn set_tick_rate(&mut self, tick_rate: u32)
        requires
            old(self).wf(),
            1 <= tick_rate <= MAX_TICK_RATE,
        ensures
            final(self).wf(),
            final(self).tick_rate_spec() == tick_rate,
            final(self).accumulated_spec() == old(self).accumulated_spec(),
            final(self).time_scale_spec() == old(self).time_scale_spec(),
    {
        self.tick_rate = tick_rate;
    }

    /// Changes the time scale (in thousandths); time already accumulated is kept.
    pub fn set_time_scale(&mut self, time_scale: i32)
        requires
            old(self).wf(),
        ensures
            final(self).wf(),
            final(self).time_scale_spec() == time_scale,
            final(self).accumulated_spec() == old(self).accumulated_spec(),
            final(self).tick_rate_spec() == old(self).tick_rate_spec(),
    {
        self.time_scale = time_scale;
    }

    /// Whether `advance(frame_nanos)` fits: the accumulated time plus the
    /// scaled frame time stays within `u64`.
    pub fn can_advance(&self, frame_nanos: u64) -> (r: bool)
        requires
            self.wf(),
        ensures
            r == (self.accumulated_spec() + scaled_nanos(frame_nanos as nat, self.time_scale_spec())
                <= u64::MAX),
    {
        let magnitude: u128 = if self.time_scale < 0 {
            (0i64 - self.time_scale as i64) as u128
        } else {
            self.time_scale as u128
        };
        assert(frame_nanos as u128 * magnitude <= u64::MAX as u128 * 0x8000_0000u128) by (nonlinear_arith)
            requires magnitude <= 0x8000_0000u128;
        let scaled: u128 = (frame_nanos as u128) * magnitude / (TIME_SCALE_ONE as u128);
        self.accumulated as u128 + scaled <= u64::MAX as u128
    }

    /// Adds one frame's wall-clock time, scaled by the magnitude of the time
    /// scale, and drains as many whole ticks as the total holds. The sign of
    /// the time scale only sets the sign of each tick's step.
    pub fn advance(&mut self, frame_nanos: u64) -> (r: Ticks)
        requires
            old(self).wf(),
            old(self).accumulated_spec() + scaled_nanos(frame_nanos as nat, old(self).time_scale_spec())
                <= u64::MAX,
        ensures
            final(self).wf(),
            final(self).tick_rate_spec() == old(self).tick_rate_spec(),
            final(self).time_scale_spec() == old(self).time_scale_spec(),
            r.count == (old(self).accumulated_spec() + scaled_nanos(
                frame_nanos as nat,
                old(self).time_scale_spec(),
            )) / old(self).tick_spec(),
            final(self).accumulated_spec() == (old(self).accumulated_spec() + scaled_nanos(
                frame_nanos as nat,
                old(self).time_scale_spec(),
            )) % old(self).tick_spec(),
            final(self).accumulated_spec() < old(self).tick_spec(),
            r.step_nanos == scale_sign(old(self).time_scale_spec()) * old(self).tick_spec(),
    {
        let tick = self.tick_nanos();
        let magnitude: u128 = if self.time_scale < 0 {
            (0i64 - self.time_scale as i64) as u128
        } else {
            self.time_scale as u128
        };
        assert(frame_nanos as u128 * magnitude <= u64::MAX as u128 * 0x8000_0000u128) by (nonlinear_arith)
            requires magnitude <= 0x8000_0000u128;
        let scaled: u128 = (frame_nanos as u128) * magnitude / (TIME_SCALE_ONE as u128);
        let total: u64 = self.accumulated + scaled as u64;
        let count: u64 = total / tick;
        self.accumulated = total % tick;
        let step: i64 = if self.time_scale < 0 {
            0i64 - tick as i64
        } else if self.time_scale == 0 {
            0
        } else {
            tick as i64
        };
        Ticks { count, step_nanos: step }
    }
}

/// Carrying a remainder forward loses no ticks: draining `a` and then the
/// remainder plus `b` yields as many ticks as draining `a + b` at once.
proof fn lemma_carry(a: nat, b: nat, t: nat)
    requires
        t > 0,
    ensures
        a / t + (a % t + b) / t == (a + b) / t,
        (a % t + b) % t == (a + b) % t,
{
    let q = a / t;
    let r = a % t;
    lemma_fundamental_div_mod(a as int, t as int);
    let q2 = (r + b) / t;
    let r2 = (r + b) % t;
    lemma_fundamental_div_mod((r + b) as int, t as int);
    assert(a + b == (q + q2) * t + r2) by (nonlinear_arith)
        requires
            a == t * q + r,
            r + b == t * q2 + r2,
    ;
    lemma_fundamental_div_mod_converse((a + b) as int, t as int, (q + q2) as int, r2 as int);
}

/// With the time scale at one, the ticks emitted over a run of frames are
/// the ticks that the starting remainder plus the whole run holds.
proof fn lemma_unit_scale_ticks(rest: nat, tick: nat, deltas: Seq<nat>)
    requires
        rest < tick,
    ensures
        ticks_over(rest, tick, TIME_SCALE_ONE as int, deltas) == (rest + total_nanos(deltas)) / tick,
    decreases deltas.len(),
{
    if deltas.len() == 0 {
        assert(rest / tick == 0) by (nonlinear_arith)
            requires
                rest < tick,
        ;
    } else {
        let d = deltas[0];
        assert(scaled_nanos(d, TIME_SCALE_ONE as int) == d) by (nonlinear_arith)
            requires
                scaled_nanos(d, TIME_SCALE_ONE as int) == d * 1000 / 1000,
        ;
        let total = rest + d;
        let tail = deltas.drop_first();
        vstd::arithmetic::div_mod::lemma_mod_pos_bound(total as int, tick as int);
        lemma_unit_scale_ticks(total % tick, tick, tail);
        lemma_carry(total, total_nanos(tail), tick);
        assert(total_nanos(deltas) == d + total_nanos(tail));
        assert(ticks_over(rest, tick, TIME_SCALE_ONE as int, deltas) == total / tick + ticks_over(
            total % tick,
            tick,
            TIME_SCALE_ONE as int,
            tail,
        ));
    }
}

/// Tick count determinism: at time scale one, a fresh clock emits
/// `floor(T / tick)` ticks over frames that add up to `T` nanoseconds,
/// however `T` is split into frames; where the tick rate divides one
/// second evenly this is exactly `floor(T * tick_rate)` for `T` in seconds.
pub proof fn lemma_tick_count_is_chunking_invariant(tick_rate: nat, deltas: Seq<nat>)
    requires
        1 <= tick_rate <= MAX_TICK_RATE,
    ensures
        ticks_over(0, tick_len(tick_rate), TIME_SCALE_ONE as int, deltas)
            == total_nanos(deltas) / tick_len(tick_rate),
        NANOS_PER_SECOND as nat % tick_rate == 0 ==> ticks_over(
            0,
            tick_len(tick_rate),
            TIME_SCALE_ONE as int,
            deltas,
        ) == total_nanos(deltas) * tick_rate / (NANOS_PER_SECOND as nat),
{
    let t = tick_len(tick_rate);
    assert(t >= 1) by (nonlinear_arith)
        requires
            t == NANOS_PER_SECOND as nat / tick_rate,
            1 <= tick_rate <= NANOS_PER_SECOND,
    ;
    lemma_unit_scale_ticks(0, t, deltas);
    if NANOS_PER_SECOND as nat % tick_rate == 0 {
        let n = NANOS_PER_SECOND as int;
        lemma_fundamental_div_mod(n, tick_rate as int);
        assert(tick_rate * t == n);
        let total = total_nanos(deltas);
        lemma_div_multiples_vanish_quotient(tick_rate as int, total as int, t as int);
        assert(tick_rate * total == total * tick_rate) by (nonlinear_arith);
    }
}

/// Zero scale: while the remainder is below one tick, a clock whose time
/// scale is zero emits no ticks, whatever frames it is given.
pub proof fn lemma_zero_scale_emits_nothing(rest: nat, tick: nat, deltas: Seq<nat>)
    requires
        rest < tick,
    ensures
        ticks_over(rest, tick, 0, deltas) == 0,
    decreases deltas.len(),
{
    if deltas.len() == 0 {
        assert(rest / tick == 0) by (nonlinear_arith)
            requires
                rest < tick,
        ;
    } else {
        let d = deltas[0];
        assert(scale_magnitude(0) == 0);
        assert(d * 0 == 0) by (nonlinear_arith);
        assert(scaled_nanos(d, 0) == 0);
        vstd::arithmetic::div_mod::lemma_small_mod(rest, tick);
        assert(rest / tick == 0) by (nonlinear_arith)
            requires
                rest < tick,
        ;
        lemma_zero_scale_emits_nothing(rest, tick, deltas.drop_first());
        assert(ticks_over(rest, tick, 0, deltas) == rest / tick + ticks_over(
            rest % tick,
            tick,
            0,
            deltas.drop_first(),
        ));
    }
}

/// Time-scale linearity: for the same frame time, a fresh clock at twice
/// the time scale emits twice the ticks, or one more where rounding falls
/// that way.
pub proof fn lemma_double_scale_doubles_ticks(tick: nat, scale_milli: int, delta: nat)
    requires
        tick > 0,
    ensures
        2 * ticks_over(0, tick, scale_milli, seq![delta]) <= ticks_over(0, tick, 2 * scale_milli, seq![delta]),
        ticks_over(0, tick, 2 * scale_milli, seq![delta]) <= 2 * ticks_over(0, tick, scale_milli, seq![delta]) + 1,
{
    let one = seq![delta];
    assert(one.drop_first().len() == 0);
    let a = scaled_nanos(delta, scale_milli);
    let b = scaled_nanos(delta, 2 * scale_milli);
    let x = delta * scale_magnitude(scale_milli);
    assert(scale_magnitude(2 * scale_milli) == 2 * scale_magnitude(scale_milli));
    assert(delta * scale_magnitude(2 * scale_milli) == 2 * x) by (nonlinear_arith)
        requires
            scale_magnitude(2 * scale_milli) == 2 * scale_magnitude(scale_milli),
            x == delta * scale_magnitude(scale_milli),
    ;
    lemma_fundamental_div_mod(x as int, 1000);
    lemma_fundamental_div_mod((2 * x) as int, 1000);
    assert(2 * a <= b <= 2 * a + 1) by (nonlinear_arith)
        requires
            a == x / 1000,
            b == (2 * x) / 1000,
            x == 1000 * (x / 1000) + x % 1000,
            2 * x == 1000 * ((2 * x) / 1000) + (2 * x) % 1000,
            0 <= x % 1000 < 1000,
            0 <= (2 * x) % 1000 < 1000,
    ;
    lemma_fundamental_div_mod(a as int, tick as int);
    lemma_fundamental_div_mod(b as int, tick as int);
    assert(2 * (a / tick) <= b / tick <= 2 * (a / tick) + 1) by (nonlinear_arith)
        requires
            tick > 0,
            2 * a <= b <= 2 * a + 1,
            a == tick * (a / tick) + a % tick,
            b == tick * (b / tick) + b % tick,
            0 <= a % tick < tick,
            0 <= b % tick < tick,
    ;
    assert(one[0] == delta);
    assert(ticks_over((0 + a) % tick, tick, scale_milli, one.drop_first()) == 0);
    assert(ticks_over((0 + b) % tick, tick, 2 * scale_milli, one.drop_first()) == 0);
    assert(ticks_over(0, tick, scale_milli, one) == a / tick);
    assert(ticks_over(0, tick, 2 * scale_milli, one) == b / tick);
}

} // verus!
