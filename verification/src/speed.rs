//! Speed estimator: counts signed sector transitions over fixed sampling
//! windows and steps the commanded advance rate up or down, with a stall check
//! on every second window.

use vstd::prelude::*;
use vstd::math::{max, min};

verus! {

/// The smallest speed that is ever commanded.
pub const MIN_SPEED: u32 = 1;

/// The speed ceiling used when none is configured.
pub const DEFAULT_SPEED_CEILING: u32 = 50;

/// The sampling window used when none is configured, in ticks: half a turn of
/// the default electrical-angle counter at the smallest speed.
pub const DEFAULT_WINDOW_TICKS: u32 = 46080;

/// The desired direction of rotation. Forward is the direction in which the
/// sectors are met in increasing order.
#[derive(Clone, Copy, Debug, PartialEq, Eq, Structural)]
pub enum Direction {
    Forward,
    Reverse,
}

/// The value in the 32-bit signed range that differs from `x` by a multiple of
/// 2^32.
pub open spec fn wrapped_i32(x: int) -> int {
    let r = x % 0x1_0000_0000;
    if r > 0x7fff_ffff {
        r - 0x1_0000_0000
    } else {
        r
    }
}

/// Movement of a wrapping position counter between two readings, counted
/// positive in the desired direction.
pub open spec fn signed_delta(now: int, then: int, direction: Direction) -> int {
    match direction {
        Direction::Forward => wrapped_i32(now - then),
        Direction::Reverse => wrapped_i32(then - now),
    }
}

/// The four-tier step controller: strong progress speeds up by two, up to the
/// ceiling; anything less slows down, the more the less progress was made.
/// The result is never below one.
pub open spec fn stepped_speed(speed: int, delta: int, ceiling: int) -> int {
    if delta >= 3 {
        max(1, min(speed + 2, ceiling))
    } else if delta == 2 {
        max(1, speed - 10)
    } else if delta == 1 {
        max(1, speed - 20)
    } else {
        max(1, speed - 30)
    }
}

/// The stall check: at most one transition over two windows forces the speed
/// down to one; otherwise it stays.
pub open spec fn stall_checked_speed(speed: int, stall_delta: int) -> int {
    if stall_delta <= 1 {
        1
    } else {
        speed
    }
}

/// The estimator's state as plain numbers.
pub struct EstimatorState {
    /// Length of a sampling window in ticks.
    pub window_ticks: int,
    /// Largest speed that is ever commanded.
    pub ceiling: int,
    /// Running sum of the transitions, kept in 32 bits with wraparound.
    pub position: int,
    /// The position at the last window boundary.
    pub window_snapshot: int,
    /// The position at the last stall check.
    pub stall_snapshot: int,
    /// Ticks since the last window boundary.
    pub elapsed: int,
    /// Whether the next window boundary also runs the stall check.
    pub stall_due: bool,
    /// The commanded advance rate.
    pub speed: int,
}

impl EstimatorState {
    /// The state of a fresh estimator.
    pub open spec fn initial(window_ticks: int, ceiling: int) -> EstimatorState {
        EstimatorState {
            window_ticks,
            ceiling,
            position: 0,
            window_snapshot: 0,
            stall_snapshot: 0,
            elapsed: 0,
            stall_due: false,
            speed: 1,
        }
    }

    /// What every reachable state satisfies: a window of at least one tick, a
    /// speed between one and the ceiling, and counters within their ranges.
    pub open spec fn valid(self) -> bool {
        &&& 1 <= self.window_ticks <= u32::MAX
        &&& 1 <= self.speed <= self.ceiling <= u32::MAX
        &&& 0 <= self.elapsed < self.window_ticks
        &&& i32::MIN <= self.position <= i32::MAX
        &&& i32::MIN <= self.window_snapshot <= i32::MAX
        &&& i32::MIN <= self.stall_snapshot <= i32::MAX
    }

    /// Whether the next tick ends a sampling window.
    pub open spec fn at_window_end(self) -> bool {
        self.elapsed + 1 >= self.window_ticks
    }

    /// The state after one tick that reports `transition`.
    pub open spec fn ticked(self, transition: int, direction: Direction) -> EstimatorState {
        let position = wrapped_i32(self.position + transition);
        if !self.at_window_end() {
            EstimatorState { position, elapsed: self.elapsed + 1, ..self }
        } else {
            let stepped = stepped_speed(
                self.speed,
                signed_delta(position, self.window_snapshot, direction),
                self.ceiling,
            );
            if self.stall_due {
                EstimatorState {
                    position,
                    window_snapshot: position,
                    stall_snapshot: position,
                    elapsed: 0,
                    stall_due: false,
                    speed: stall_checked_speed(
                        stepped,
                        signed_delta(position, self.stall_snapshot, direction),
                    ),
                    ..self
                }
            } else {
                EstimatorState {
                    position,
                    window_snapshot: position,
                    elapsed: 0,
                    stall_due: true,
                    speed: stepped,
                    ..self
                }
            }
        }
    }

    /// The state after a run of ticks, each with its transition and direction.
    pub open spec fn ticked_through(self, inputs: Seq<(int, Direction)>) -> EstimatorState
        decreases inputs.len(),
    {
        if inputs.len() == 0 {
            self
        } else {
            self.ticked_through(inputs.drop_last()).ticked(inputs.last().0, inputs.last().1)
        }
    }
}

/// The step controller keeps the speed between one and the ceiling, whatever
/// progress was measured.
pub proof fn lemma_stepped_speed_bounded(speed: int, delta: int, ceiling: int)
    ensures
        1 <= stepped_speed(speed, delta, ceiling),
        speed <= ceiling && 1 <= ceiling ==> stepped_speed(speed, delta, ceiling) <= ceiling,
        delta < 3 ==> stepped_speed(speed, delta, ceiling) <= speed || stepped_speed(
            speed,
            delta,
            ceiling,
        ) == 1,
{
}

/// One tick keeps a valid state valid, so the speed stays between one and the
/// unchanged ceiling.
pub proof fn lemma_tick_keeps_valid(state: EstimatorState, transition: int, direction: Direction)
    requires
        state.valid(),
    ensures
        state.ticked(transition, direction).valid(),
        state.ticked(transition, direction).ceiling == state.ceiling,
        state.ticked(transition, direction).window_ticks == state.window_ticks,
        1 <= state.ticked(transition, direction).speed <= state.ceiling,
{
}

/// After any run of ticks, with whatever transitions and directions, the speed
/// is at least one and at most the configured ceiling.
pub proof fn lemma_speed_bounded_after_any_ticks(
    state: EstimatorState,
    inputs: Seq<(int, Direction)>,
)
    requires
        state.valid(),
    ensures
        state.ticked_through(inputs).valid(),
        state.ticked_through(inputs).ceiling == state.ceiling,
        state.ticked_through(inputs).window_ticks == state.window_ticks,
        1 <= state.ticked_through(inputs).speed <= state.ceiling,
    decreases inputs.len(),
{
    if inputs.len() > 0 {
        lemma_speed_bounded_after_any_ticks(state, inputs.drop_last());
        lemma_tick_keeps_valid(
            state.ticked_through(inputs.drop_last()),
            inputs.last().0,
            inputs.last().1,
        );
    }
}

/// A stall check that finds the position unchanged since the last one forces
/// the speed to one, whatever it was and whatever the window measured.
pub proof fn lemma_unmoved_rotor_stalls(
    state: EstimatorState,
    transition: int,
    direction: Direction,
)
    requires
        state.valid(),
        state.at_window_end(),
        state.stall_due,
        wrapped_i32(state.position + transition) == state.stall_snapshot,
    ensures
        state.ticked(transition, direction).speed == 1,
{
}

/// Movement of a wrapping position counter between two readings, counted
/// positive in the desired direction.
pub fn signed_difference(now: i32, then: i32, direction: Direction) -> (delta: i32)
    ensures
        delta == signed_delta(now as int, then as int, direction),
{
    match direction {
        Direction::Forward => now.wrapping_sub(then),
        Direction::Reverse => then.wrapping_sub(now),
    }
}

/// Applies the four-tier step controller to a speed.
pub fn step_speed(speed: u32, delta: i32, ceiling: u32) -> (next: u32)
    ensures
        next == stepped_speed(speed as int, delta as int, ceiling as int),
        next >= MIN_SPEED,
        speed <= ceiling && ceiling >= MIN_SPEED ==> next <= ceiling,
{
    let next: u32 = if delta >= 3 {
        let raised: u32 = speed.saturating_add(2);
        if raised >= ceiling {
            ceiling
        } else {
            raised
        }
    } else if delta == 2 {
        speed.saturating_sub(10)
    } else if delta == 1 {
        speed.saturating_sub(20)
    } else {
        speed.saturating_sub(30)
    };
    if next < MIN_SPEED {
        MIN_SPEED
    } else {
        next
    }
}

/// Applies the stall check to a speed.
pub fn stall_check(speed: u32, stall_delta: i32) -> (next: u32)
    ensures
        next == stall_checked_speed(speed as int, stall_delta as int),
{
    if stall_delta <= 1 {
        MIN_SPEED
    } else {
        speed
    }
}

/// Estimates the commanded advance rate from the transitions of each tick.
#[derive(Clone, Copy, Debug)]
pub struct SpeedEstimator {
    window_ticks: u32,
    ceiling: u32,
    position: i32,
    window_snapshot: i32,
    stall_snapshot: i32,
    elapsed: u32,
    stall_due: bool,
    speed: u32,
}

impl View for SpeedEstimator {
    type V = EstimatorState;

    closed spec fn view(&self) -> EstimatorState {
        EstimatorState {
            window_ticks: self.window_ticks as int,
            ceiling: self.ceiling as int,
            position: self.position as int,
            window_snapshot: self.window_snapshot as int,
            stall_snapshot: self.stall_snapshot as int,
            elapsed: self.elapsed as int,
            stall_due: self.stall_due,
            speed: self.speed as int,
        }
    }
}

impl SpeedEstimator {
    /// Every estimator is in a valid state: its fields are private, and each
    /// operation keeps them so.
    #[verifier::type_invariant]
    pub open spec fn wf(&self) -> bool {
        self@.valid()
    }

    /// A fresh estimator at speed one, or `None` if the window or the ceiling
    /// is zero.
    pub fn new(window_ticks: u32, ceiling: u32) -> (estimator: Option<SpeedEstimator>)
        ensures
            estimator.is_some() <==> window_ticks >= 1 && ceiling >= 1,
            estimator matches Some(e) ==> e@.valid() && e@ == EstimatorState::initial(
                window_ticks as int,
                ceiling as int,
            ),
    {
        if window_ticks == 0 || ceiling == 0 {
            None
        } else {
            Some(
                SpeedEstimator {
                    window_ticks,
                    ceiling,
                    position: 0,
                    window_snapshot: 0,
                    stall_snapshot: 0,
                    elapsed: 0,
                    stall_due: false,
                    speed: MIN_SPEED,
                },
            )
        }
    }

    /// An estimator with the default window and ceiling.
    pub fn with_defaults() -> (estimator: SpeedEstimator)
        ensures
            estimator@.valid(),
            estimator@ == EstimatorState::initial(
                DEFAULT_WINDOW_TICKS as int,
                DEFAULT_SPEED_CEILING as int,
            ),
    {
        SpeedEstimator {
            window_ticks: DEFAULT_WINDOW_TICKS,
            ceiling: DEFAULT_SPEED_CEILING,
            position: 0,
            window_snapshot: 0,
            stall_snapshot: 0,
            elapsed: 0,
            stall_due: false,
            speed: MIN_SPEED,
        }
    }

    /// The commanded advance rate.
    pub fn speed(&self) -> (speed: u32)
        ensures
            speed == self@.speed,
            MIN_SPEED <= speed <= self@.ceiling,
            self@.valid(),
    {
        proof {
            use_type_invariant(self);
        }
        self.speed
    }

    /// The largest speed that is ever commanded.
    pub fn ceiling(&self) -> (ceiling: u32)
        ensures
            ceiling == self@.ceiling,
    {
        self.ceiling
    }

    /// Length of a sampling window in ticks.
    pub fn window_ticks(&self) -> (ticks: u32)
        ensures
            ticks == self@.window_ticks,
    {
        self.window_ticks
    }

    /// The running sum of the transitions, wrapping in 32 bits.
    pub fn position_counter(&self) -> (position: i32)
        ensures
            position == self@.position,
    {
        self.position
    }

    /// Takes the transition of one tick. At the end of each sampling window the
    /// step controller adjusts the speed by the movement over that window, and
    /// at the end of every second window the stall check follows it.
    pub fn tick(&mut self, transition: i8, direction: Direction) -> (speed: u32)
        ensures
            old(self)@.valid(),
            final(self)@.valid(),
            final(self)@ == old(self)@.ticked(transition as int, direction),
            speed == final(self)@.speed,
            MIN_SPEED <= speed <= old(self)@.ceiling,
    {
        proof {
            use_type_invariant(&*self);
        }
        self.position = self.position.wrapping_add(transition as i32);
        if self.elapsed + 1 < self.window_ticks {
            self.elapsed = self.elapsed + 1;
        } else {
            let delta: i32 = signed_difference(self.position, self.window_snapshot, direction);
            self.speed = step_speed(self.speed, delta, self.ceiling);
            self.window_snapshot = self.position;
            if self.stall_due {
                let stall_delta: i32 = signed_difference(
                    self.position,
                    self.stall_snapshot,
                    direction,
                );
                self.speed = stall_check(self.speed, stall_delta);
                self.stall_snapshot = self.position;
            }
            self.stall_due = !self.stall_due;
            self.elapsed = 0;
        }
        self.speed
    }
}

} // verus!
