//! Commutation engine: the work of one control tick, from the Hall sample to
//! the phase command and its dead-time requirement.

use vstd::prelude::*;
use crate::angle::{
    lemma_advance_keeps_valid,
    lemma_index_in_table,
    AngleCounter,
    AngleState,
    DEFAULT_SCALE_SHIFT,
    MAX_SCALE_SHIFT,
    SINE_RESOLUTION,
};
use crate::hall::{decode, decoded, HallReading, HallSample, Sector};
use crate::sixstep::{
    bridge_command,
    command_for,
    required_interlock,
    Interlock,
    SequencerState,
    SixStepSequencer,
    DEFAULT_DEAD_TIME_US,
};
use crate::speed::{
    lemma_tick_keeps_valid,
    Direction,
    EstimatorState,
    SpeedEstimator,
    DEFAULT_SPEED_CEILING,
    DEFAULT_WINDOW_TICKS,
};
use crate::tracker::{
    cyclic_distance,
    held_sector,
    reported_transition,
    PreviousSector,
    SectorTracker,
};
use crate::waveform::{lemma_phase_duty_in_range, sinusoidal_command, PhaseCommand, SineTable};

verus! {

/// How the phases are driven.
#[derive(Clone, Copy, Debug, PartialEq, Eq, Structural)]
pub enum DriveMode {
    /// All three phases modulated continuously from the sine table.
    Sinusoidal,
    /// Two phases switched fully on per sector, by the switch table.
    SixStep,
}

/// The parameters of an engine. They are fixed when the engine is made.
#[derive(Clone, Copy, Debug, PartialEq, Eq, Structural)]
pub struct EngineConfig {
    pub mode: DriveMode,
    /// The largest duty of a PWM channel, as the PWM period gives it.
    pub max_duty: u16,
    /// Number of fractional bits of the electrical-angle counter.
    pub scale_shift: u32,
    /// Length of a sampling window of the speed estimator, in ticks.
    pub window_ticks: u32,
    /// The largest speed that is ever commanded.
    pub speed_ceiling: u32,
    /// Length of the all-off interval of the six-step drive, in microseconds.
    pub dead_time_us: u32,
}

impl EngineConfig {
    /// Whether an engine can be made of these parameters: the scale is
    /// supported, and the window and the ceiling are at least one.
    pub open spec fn valid(self) -> bool {
        &&& self.scale_shift <= MAX_SCALE_SHIFT
        &&& self.window_ticks >= 1
        &&& self.speed_ceiling >= 1
    }

    /// The default parameters for a drive mode and a maximum duty.
    pub fn with_defaults(mode: DriveMode, max_duty: u16) -> (config: EngineConfig)
        ensures
            config.valid(),
            config == (EngineConfig {
                mode,
                max_duty,
                scale_shift: DEFAULT_SCALE_SHIFT,
                window_ticks: DEFAULT_WINDOW_TICKS,
                speed_ceiling: DEFAULT_SPEED_CEILING,
                dead_time_us: DEFAULT_DEAD_TIME_US,
            }),
    {
        EngineConfig {
            mode,
            max_duty,
            scale_shift: DEFAULT_SCALE_SHIFT,
            window_ticks: DEFAULT_WINDOW_TICKS,
            speed_ceiling: DEFAULT_SPEED_CEILING,
            dead_time_us: DEFAULT_DEAD_TIME_US,
        }
    }

    /// Whether an engine can be made of these parameters.
    pub fn is_valid(&self) -> (valid: bool)
        ensures
            valid == self.valid(),
    {
        self.scale_shift <= MAX_SCALE_SHIFT && self.window_ticks >= 1 && self.speed_ceiling >= 1
    }
}

/// What one tick hands to the driver layer.
#[derive(Clone, Copy, Debug, PartialEq, Eq, Structural)]
pub struct TickOutput {
    /// What the Hall decoder made of the sample.
    pub reading: HallReading,
    /// The transition since the last valid sector.
    pub transition: i8,
    /// The commanded advance rate after this tick.
    pub speed: u32,
    /// The index into the sine table after this tick.
    pub angle_index: usize,
    /// What must come before the command is applied.
    pub interlock: Interlock,
    /// The command for the three phases.
    pub command: PhaseCommand,
}

/// The index into the sine table for an angle and a direction: forward
/// rotation walks the table from its end to its start, reverse rotation from
/// its start to its end.
pub open spec fn drive_index(angle: AngleState, direction: Direction) -> nat {
    match direction {
        Direction::Forward => (359 - angle.index()) as nat,
        Direction::Reverse => angle.index(),
    }
}

/// The engine's state as plain values.
pub struct EngineState {
    pub mode: DriveMode,
    pub max_duty: u16,
    pub table: Seq<i16>,
    pub previous: PreviousSector,
    pub estimator: EstimatorState,
    pub angle: AngleState,
    pub sequencer: SequencerState,
}

impl EngineState {
    /// The state of a fresh engine.
    pub open spec fn initial(config: EngineConfig, table: Seq<i16>) -> EngineState {
        EngineState {
            mode: config.mode,
            max_duty: config.max_duty,
            table,
            previous: PreviousSector::Unknown,
            estimator: EstimatorState::initial(
                config.window_ticks as int,
                config.speed_ceiling as int,
            ),
            angle: AngleState { scale_shift: config.scale_shift as nat, value: 0 },
            sequencer: SequencerState::initial(config.dead_time_us),
        }
    }

    /// What every reachable state satisfies.
    pub open spec fn valid(self) -> bool {
        &&& self.table.len() == SINE_RESOLUTION
        &&& self.estimator.valid()
        &&& self.angle.valid()
    }

    /// The state after the tick that takes `sample`: the tracker holds or moves
    /// on, the estimator takes the transition, the angle advances by the new
    /// speed, and in six-step mode a valid sector is requested as switch state.
    pub open spec fn ticked(self, sample: HallSample, direction: Direction) -> EngineState {
        let reading = decoded(sample);
        let estimator = self.estimator.ticked(
            reported_transition(self.previous, reading),
            direction,
        );
        EngineState {
            previous: held_sector(self.previous, reading),
            estimator,
            angle: self.angle.advanced(estimator.speed as nat),
            sequencer: match (self.mode, reading) {
                (DriveMode::SixStep, HallReading::Valid(sector)) => self.sequencer.requested(
                    sector,
                ),
                _ => self.sequencer,
            },
            ..self
        }
    }

    /// The interlock that the tick taking `sample` asks for: in six-step mode
    /// with a valid sector, what the change of switch state needs; else none.
    pub open spec fn interlock_for(self, sample: HallSample) -> Interlock {
        match (self.mode, decoded(sample)) {
            (DriveMode::SixStep, HallReading::Valid(sector)) => required_interlock(
                self.sequencer.current,
                sector,
                self.sequencer.dead_time_us,
            ),
            _ => Interlock::Direct,
        }
    }

    /// The phase command of this state.
    pub open spec fn command(self, direction: Direction) -> PhaseCommand {
        match self.mode {
            DriveMode::Sinusoidal => sinusoidal_command(
                self.table,
                drive_index(self.angle, direction) as int,
                self.max_duty as int,
            ),
            DriveMode::SixStep => command_for(self.sequencer.config(), self.max_duty),
        }
    }

    /// What the tick taking `sample` hands out.
    pub open spec fn output(self, sample: HallSample, direction: Direction) -> TickOutput {
        let next = self.ticked(sample, direction);
        TickOutput {
            reading: decoded(sample),
            transition: reported_transition(self.previous, decoded(sample)) as i8,
            speed: next.estimator.speed as u32,
            angle_index: drive_index(next.angle, direction) as usize,
            interlock: self.interlock_for(sample),
            command: next.command(direction),
        }
    }

    /// The state after a run of ticks, each with its sample and direction.
    pub open spec fn ticked_through(self, inputs: Seq<(HallSample, Direction)>) -> EngineState
        decreases inputs.len(),
    {
        if inputs.len() == 0 {
            self
        } else {
            self.ticked_through(inputs.drop_last()).ticked(inputs.last().0, inputs.last().1)
        }
    }
}

/// One tick keeps a valid state valid, and leaves the configuration and the
/// table as they were.
pub proof fn lemma_engine_tick_keeps_valid(
    state: EngineState,
    sample: HallSample,
    direction: Direction,
)
    requires
        state.valid(),
    ensures
        state.ticked(sample, direction).valid(),
        state.ticked(sample, direction).mode == state.mode,
        state.ticked(sample, direction).max_duty == state.max_duty,
        state.ticked(sample, direction).table == state.table,
        state.ticked(sample, direction).estimator.ceiling == state.estimator.ceiling,
        state.ticked(sample, direction).angle.scale_shift == state.angle.scale_shift,
        state.ticked(sample, direction).sequencer.dead_time_us == state.sequencer.dead_time_us,
{
    let transition = reported_transition(state.previous, decoded(sample));
    lemma_tick_keeps_valid(state.estimator, transition, direction);
    lemma_advance_keeps_valid(
        state.angle,
        state.estimator.ticked(transition, direction).speed as nat,
    );
}

/// In every valid state, and so after any run of ticks, every duty of the
/// phase command lies between zero and the maximum duty, in either mode.
pub proof fn lemma_command_within_max_duty(state: EngineState, direction: Direction)
    requires
        state.valid(),
    ensures
        state.command(direction).within(state.max_duty as int),
        drive_index(state.angle, direction) < SINE_RESOLUTION,
{
    lemma_index_in_table(state.angle);
    let index = drive_index(state.angle, direction) as int;
    lemma_phase_duty_in_range(state.table, index, 0, state.max_duty as int);
    lemma_phase_duty_in_range(state.table, index, 120, state.max_duty as int);
    lemma_phase_duty_in_range(state.table, index, 240, state.max_duty as int);
}

/// After any run of ticks from a valid state, the state is valid: the speed is
/// between one and the ceiling, the angle below its modulus, and the command
/// within the maximum duty.
pub proof fn lemma_engine_valid_after_any_ticks(
    state: EngineState,
    inputs: Seq<(HallSample, Direction)>,
    direction: Direction,
)
    requires
        state.valid(),
    ensures
        state.ticked_through(inputs).valid(),
        state.ticked_through(inputs).max_duty == state.max_duty,
        state.ticked_through(inputs).estimator.ceiling == state.estimator.ceiling,
        1 <= state.ticked_through(inputs).estimator.speed <= state.estimator.ceiling,
        state.ticked_through(inputs).command(direction).within(state.max_duty as int),
    decreases inputs.len(),
{
    if inputs.len() > 0 {
        lemma_engine_valid_after_any_ticks(state, inputs.drop_last(), direction);
        lemma_engine_tick_keeps_valid(
            state.ticked_through(inputs.drop_last()),
            inputs.last().0,
            inputs.last().1,
        );
    }
    lemma_command_within_max_duty(state.ticked_through(inputs), direction);
}

/// A tick whose sample is invalid leaves the remembered sector and the switch
/// state as they were, reports no motion and asks for no interlock; in
/// six-step mode the phase command stays as it was too.
pub proof fn lemma_invalid_sample_holds(
    state: EngineState,
    sample: HallSample,
    direction: Direction,
)
    requires
        decoded(sample) is Invalid,
    ensures
        state.ticked(sample, direction).previous == state.previous,
        state.ticked(sample, direction).sequencer == state.sequencer,
        state.output(sample, direction).transition == 0,
        state.output(sample, direction).interlock is Direct,
        state.mode is SixStep ==> state.output(sample, direction).command == state.command(
            direction,
        ),
{
}

/// The dead-time rule at the engine: in six-step mode a tick with a valid
/// sector asks for an all-off interval exactly when that sector is two or more
/// steps from the current switch state, and then for the configured dead time.
pub proof fn lemma_dead_time_rule(state: EngineState, sample: HallSample, direction: Direction)
    requires
        state.mode is SixStep,
        decoded(sample) is Valid,
    ensures
        state.output(sample, direction).interlock is AllOff <==> cyclic_distance(
            state.sequencer.current,
            decoded(sample)->Valid_0,
        ) >= 2,
        state.output(sample, direction).interlock is AllOff ==> state.output(
            sample,
            direction,
        ).interlock == (Interlock::AllOff { hold_us: state.sequencer.dead_time_us }),
        state.ticked(sample, direction).sequencer.current == decoded(sample)->Valid_0,
        state.ticked(sample, direction).sequencer.energized,
{
}

/// The commutation engine: all the state that lives from one tick to the next.
#[derive(Clone, Copy, Debug)]
pub struct CommutationEngine {
    mode: DriveMode,
    max_duty: u16,
    table: SineTable,
    tracker: SectorTracker,
    estimator: SpeedEstimator,
    angle: AngleCounter,
    sequencer: SixStepSequencer,
}

impl View for CommutationEngine {
    type V = EngineState;

    closed spec fn view(&self) -> EngineState {
        EngineState {
            mode: self.mode,
            max_duty: self.max_duty,
            table: self.table@,
            previous: self.tracker@,
            estimator: self.estimator@,
            angle: self.angle@,
            sequencer: self.sequencer@,
        }
    }
}

impl CommutationEngine {
    /// Every engine is in a valid state, since its parts are.
    proof fn lemma_valid(&self)
        requires
            self.estimator.wf(),
            self.angle.wf(),
        ensures
            self@.valid(),
    {
        self.table.lemma_len();
    }

    /// A fresh engine with the given sine table, or `None` if the parameters
    /// are not valid. It starts with no sector known, at speed one and angle
    /// zero, in switch state 0 with all outputs low.
    pub fn new(config: EngineConfig, table: SineTable) -> (engine: Option<CommutationEngine>)
        ensures
            engine.is_some() <==> config.valid(),
            engine matches Some(e) ==> e@.valid() && e@ == EngineState::initial(config, table@),
    {
        let estimator = match SpeedEstimator::new(config.window_ticks, config.speed_ceiling) {
            Some(estimator) => estimator,
            None => { return None; },
        };
        let angle = match AngleCounter::new(config.scale_shift) {
            Some(angle) => angle,
            None => { return None; },
        };
        proof {
            table.lemma_len();
        }
        Some(
            CommutationEngine {
                mode: config.mode,
                max_duty: config.max_duty,
                table,
                tracker: SectorTracker::new(),
                estimator,
                angle,
                sequencer: SixStepSequencer::new(config.dead_time_us),
            },
        )
    }

    /// The drive mode.
    pub fn mode(&self) -> (mode: DriveMode)
        ensures
            mode == self@.mode,
    {
        self.mode
    }

    /// The largest duty of a PWM channel.
    pub fn max_duty(&self) -> (max_duty: u16)
        ensures
            max_duty == self@.max_duty,
    {
        self.max_duty
    }

    /// The last sector that was read validly.
    pub fn previous_sector(&self) -> (previous: PreviousSector)
        ensures
            previous == self@.previous,
    {
        self.tracker.previous_sector()
    }

    /// The commanded advance rate.
    pub fn speed(&self) -> (speed: u32)
        ensures
            speed == self@.estimator.speed,
    {
        self.estimator.speed()
    }

    /// The running sum of the transitions.
    pub fn position_counter(&self) -> (position: i32)
        ensures
            position == self@.estimator.position,
    {
        self.estimator.position_counter()
    }

    /// The switch state that the six-step drive asserted last; state 0 at
    /// startup.
    pub fn switch_state(&self) -> (state: Sector)
        ensures
            state == self@.sequencer.current,
    {
        self.sequencer.current()
    }

    /// Whether the six-step drive has asserted a switch state yet; until then
    /// all its outputs are low.
    pub fn is_energized(&self) -> (energized: bool)
        ensures
            energized == self@.sequencer.energized,
    {
        self.sequencer.is_energized()
    }

    /// The electrical-angle counter's value.
    pub fn angle_counter(&self) -> (value: u32)
        ensures
            value == self@.angle.value,
    {
        self.angle.value()
    }

    /// The index into the sine table for a direction of rotation.
    pub fn angle_index(&self, direction: Direction) -> (index: usize)
        ensures
            index == drive_index(self@.angle, direction),
            index < SINE_RESOLUTION,
    {
        let index: usize = self.angle.index();
        match direction {
            Direction::Forward => SINE_RESOLUTION - 1 - index,
            Direction::Reverse => index,
        }
    }

    /// The phase command of the engine's present state.
    pub fn command(&self, direction: Direction) -> (command: PhaseCommand)
        ensures
            self@.valid(),
            command == self@.command(direction),
            command.within(self@.max_duty as int),
    {
        proof {
            use_type_invariant(&self.estimator);
            use_type_invariant(&self.angle);
            self.lemma_valid();
            lemma_command_within_max_duty(self@, direction);
        }
        match self.mode {
            DriveMode::Sinusoidal => self.table.duties(self.angle_index(direction), self.max_duty),
            DriveMode::SixStep => bridge_command(self.sequencer.config(), self.max_duty),
        }
    }

    /// Runs one control tick: decodes the sample, updates the sector tracker,
    /// feeds the speed estimator, advances the electrical angle by the
    /// commanded speed, and produces the phase command of the drive mode with
    /// the interlock that must come before it.
    pub fn tick(&mut self, sample: HallSample, direction: Direction) -> (output: TickOutput)
        ensures
            old(self)@.valid(),
            final(self)@.valid(),
            final(self)@ == old(self)@.ticked(sample, direction),
            output == old(self)@.output(sample, direction),
            output.command.within(old(self)@.max_duty as int),
            -2 <= output.transition <= 2,
            1 <= output.speed <= old(self)@.estimator.ceiling,
            output.angle_index < SINE_RESOLUTION,
            decoded(sample) is Invalid ==> final(self)@.previous == old(self)@.previous
                && output.transition == 0 && output.interlock is Direct,
            old(self)@.mode is Sinusoidal ==> output.interlock is Direct,
            old(self)@.mode is SixStep ==> (decoded(sample) matches HallReading::Valid(sector) ==> (
            output.interlock is AllOff <==> cyclic_distance(old(self)@.sequencer.current, sector)
                >= 2)),
    {
        proof {
            use_type_invariant(&self.estimator);
            use_type_invariant(&self.angle);
            self.lemma_valid();
            lemma_engine_tick_keeps_valid(self@, sample, direction);
        }
        let reading = decode(sample);
        let transition: i8 = self.tracker.observe(reading);
        let speed: u32 = self.estimator.tick(transition, direction);
        self.angle.advance(speed);
        let interlock = match (self.mode, reading) {
            (DriveMode::SixStep, HallReading::Valid(sector)) => self.sequencer.request(sector),
            _ => Interlock::Direct,
        };
        let angle_index: usize = self.angle_index(direction);
        let command = self.command(direction);
        TickOutput { reading, transition, speed, angle_index, interlock, command }
    }
}

} // verus!
