//! Six-step drive: the table of the six bridge configurations, and the state
//! machine that decides when a change of configuration must pass through an
//! all-off dead-time interval.

use vstd::prelude::*;
use crate::hall::Sector;
use crate::tracker::{cyclic_distance, sector_distance};
use crate::waveform::{idle_command, PhaseCommand, PhaseDrive, SwitchPair};

verus! {

/// The dead-time interval used when none is configured, in microseconds.
pub const DEFAULT_DEAD_TIME_US: u32 = 20;

/// One of the three motor phases.
#[derive(Clone, Copy, Debug, PartialEq, Eq, Structural)]
pub enum Phase {
    U,
    V,
    W,
}

/// The state of all six switches of the bridge.
#[derive(Clone, Copy, Debug, PartialEq, Eq, Structural)]
pub struct BridgeConfig {
    pub u: SwitchPair,
    pub v: SwitchPair,
    pub w: SwitchPair,
}

/// What has to happen before a requested configuration may be asserted.
#[derive(Clone, Copy, Debug, PartialEq, Eq, Structural)]
pub enum Interlock {
    /// Nothing: the new configuration is asserted directly.
    Direct,
    /// All six switches are driven off and held off for `hold_us` microseconds
    /// first.
    AllOff { hold_us: u32 },
}

/// The phase whose high-side switch conducts in a switch state.
pub open spec fn high_phase(state: Sector) -> Phase {
    match state {
        Sector::S0 | Sector::S1 => Phase::U,
        Sector::S2 | Sector::S3 => Phase::V,
        Sector::S4 | Sector::S5 => Phase::W,
    }
}

/// The phase whose low-side switch conducts in a switch state.
pub open spec fn low_phase(state: Sector) -> Phase {
    match state {
        Sector::S5 | Sector::S0 => Phase::V,
        Sector::S1 | Sector::S2 => Phase::W,
        Sector::S3 | Sector::S4 => Phase::U,
    }
}

impl BridgeConfig {
    /// The switches of one phase.
    pub open spec fn of(self, phase: Phase) -> SwitchPair {
        match phase {
            Phase::U => self.u,
            Phase::V => self.v,
            Phase::W => self.w,
        }
    }

    /// The configuration with all six switches off.
    pub open spec fn all_off() -> BridgeConfig {
        BridgeConfig { u: SwitchPair::off(), v: SwitchPair::off(), w: SwitchPair::off() }
    }

    /// Number of high-side switches that conduct.
    pub open spec fn high_count(self) -> int {
        (if self.u.high { 1int } else { 0 }) + (if self.v.high { 1int } else { 0 })
            + (if self.w.high { 1int } else { 0 })
    }

    /// Number of low-side switches that conduct.
    pub open spec fn low_count(self) -> int {
        (if self.u.low { 1int } else { 0 }) + (if self.v.low { 1int } else { 0 })
            + (if self.w.low { 1int } else { 0 })
    }

    /// Number of switches whose state differs between two configurations.
    pub open spec fn switches_changed(self, other: BridgeConfig) -> int {
        (if self.u.high != other.u.high { 1int } else { 0 })
            + (if self.u.low != other.u.low { 1int } else { 0 })
            + (if self.v.high != other.v.high { 1int } else { 0 })
            + (if self.v.low != other.v.low { 1int } else { 0 })
            + (if self.w.high != other.w.high { 1int } else { 0 })
            + (if self.w.low != other.w.low { 1int } else { 0 })
    }

    /// Whether a direct change from this configuration to `next` turns on a
    /// switch of a phase whose opposite switch conducts now: the two could
    /// conduct together while one turns off and the other on.
    pub open spec fn shoots_through(self, next: BridgeConfig) -> bool {
        ||| (self.u.high && next.u.low) || (self.u.low && next.u.high)
        ||| (self.v.high && next.v.low) || (self.v.low && next.v.high)
        ||| (self.w.high && next.w.low) || (self.w.low && next.w.high)
    }
}

/// The six-entry switch table: in each state one phase is tied high, another
/// low, and the third floats.
pub open spec fn switch_table(state: Sector) -> BridgeConfig {
    BridgeConfig {
        u: SwitchPair { high: high_phase(state) == Phase::U, low: low_phase(state) == Phase::U },
        v: SwitchPair { high: high_phase(state) == Phase::V, low: low_phase(state) == Phase::V },
        w: SwitchPair { high: high_phase(state) == Phase::W, low: low_phase(state) == Phase::W },
    }
}

/// The drive of one phase in six-step mode: the low-side PWM channel at full
/// duty where the low-side switch conducts and at zero elsewhere, beside the
/// discrete switch states.
pub open spec fn switched_drive(switches: SwitchPair, max_duty: u16) -> PhaseDrive {
    PhaseDrive {
        duty: if switches.low {
            max_duty
        } else {
            0
        },
        switches,
    }
}

/// The command that asserts a bridge configuration.
pub open spec fn command_for(config: BridgeConfig, max_duty: u16) -> PhaseCommand {
    PhaseCommand {
        u: switched_drive(config.u, max_duty),
        v: switched_drive(config.v, max_duty),
        w: switched_drive(config.w, max_duty),
    }
}

/// The interlock that a change between two switch states needs: none between
/// a state and itself or its neighbours, an all-off interval of the dead time
/// for every longer step.
pub open spec fn required_interlock(current: Sector, requested: Sector, dead_time_us: u32) -> Interlock {
    if cyclic_distance(current, requested) >= 2 {
        Interlock::AllOff { hold_us: dead_time_us }
    } else {
        Interlock::Direct
    }
}

/// Every entry of the switch table turns on exactly one high-side and one
/// low-side switch, on two different phases, and leaves the third phase
/// floating.
pub proof fn lemma_table_entry_shape(state: Sector)
    ensures
        switch_table(state).high_count() == 1,
        switch_table(state).low_count() == 1,
        high_phase(state) != low_phase(state),
        forall|phase: Phase|
            !(#[trigger] switch_table(state).of(phase).high && switch_table(state).of(phase).low),
        switch_table(state) != BridgeConfig::all_off(),
{
}

/// Neighbouring entries of the switch table keep one of their two conducting
/// switches and hand the other over to another phase; entries further apart
/// share no conducting switch pair.
pub proof fn lemma_neighbours_differ_by_one_handover(a: Sector, b: Sector)
    ensures
        cyclic_distance(a, b) == 0 <==> a == b,
        cyclic_distance(a, b) == 1 <==> ((high_phase(a) == high_phase(b)) != (low_phase(a)
            == low_phase(b))),
        cyclic_distance(a, b) == 1 ==> switch_table(a).switches_changed(switch_table(b)) == 2,
        cyclic_distance(a, b) >= 2 ==> switch_table(a).switches_changed(switch_table(b)) >= 3,
{
}

/// A direct change between two entries of the switch table is free of
/// shoot-through exactly when they are at most one step apart. This is what
/// the dead-time rule rests on.
pub proof fn lemma_direct_change_safe_iff_adjacent(a: Sector, b: Sector)
    ensures
        switch_table(a).shoots_through(switch_table(b)) <==> cyclic_distance(a, b) >= 2,
        required_interlock(a, b, 0) is Direct <==> !switch_table(a).shoots_through(switch_table(b)),
        !BridgeConfig::all_off().shoots_through(switch_table(b)),
        !switch_table(a).shoots_through(BridgeConfig::all_off()),
{
}

/// The bridge configuration of a switch state.
pub fn bridge_config(state: Sector) -> (config: BridgeConfig)
    ensures
        config == switch_table(state),
{
    let on_high = SwitchPair { high: true, low: false };
    let on_low = SwitchPair { high: false, low: true };
    let floating = SwitchPair { high: false, low: false };
    match state {
        Sector::S0 => BridgeConfig { u: on_high, v: on_low, w: floating },
        Sector::S1 => BridgeConfig { u: on_high, v: floating, w: on_low },
        Sector::S2 => BridgeConfig { u: floating, v: on_high, w: on_low },
        Sector::S3 => BridgeConfig { u: on_low, v: on_high, w: floating },
        Sector::S4 => BridgeConfig { u: on_low, v: floating, w: on_high },
        Sector::S5 => BridgeConfig { u: floating, v: on_low, w: on_high },
    }
}

/// The phase command that asserts a bridge configuration.
pub fn bridge_command(config: BridgeConfig, max_duty: u16) -> (command: PhaseCommand)
    ensures
        command == command_for(config, max_duty),
        command.within(max_duty as int),
        config == BridgeConfig::all_off() ==> command == idle_command(),
{
    PhaseCommand {
        u: PhaseDrive { duty: if config.u.low { max_duty } else { 0 }, switches: config.u },
        v: PhaseDrive { duty: if config.v.low { max_duty } else { 0 }, switches: config.v },
        w: PhaseDrive { duty: if config.w.low { max_duty } else { 0 }, switches: config.w },
    }
}

/// The phase command of a switch state.
pub fn six_step_command(state: Sector, max_duty: u16) -> (command: PhaseCommand)
    ensures
        command == command_for(switch_table(state), max_duty),
        command.within(max_duty as int),
{
    bridge_command(bridge_config(state), max_duty)
}

/// The sequencer's state as plain values.
pub struct SequencerState {
    /// The switch state that was asserted last; state 0 at startup.
    pub current: Sector,
    /// Whether any state has been asserted yet; until then all outputs are low.
    pub energized: bool,
    /// The dead-time interval in microseconds.
    pub dead_time_us: u32,
}

impl SequencerState {
    /// The state at startup.
    pub open spec fn initial(dead_time_us: u32) -> SequencerState {
        SequencerState { current: Sector::S0, energized: false, dead_time_us }
    }

    /// The state after a request for `requested`.
    pub open spec fn requested(self, requested: Sector) -> SequencerState {
        SequencerState { current: requested, energized: true, ..self }
    }

    /// The bridge configuration that is asserted in this state.
    pub open spec fn config(self) -> BridgeConfig {
        if self.energized {
            switch_table(self.current)
        } else {
            BridgeConfig::all_off()
        }
    }
}

/// The six-step state machine with its dead-time policy.
#[derive(Clone, Copy, Debug)]
pub struct SixStepSequencer {
    current: Sector,
    energized: bool,
    dead_time_us: u32,
}

impl View for SixStepSequencer {
    type V = SequencerState;

    closed spec fn view(&self) -> SequencerState {
        SequencerState {
            current: self.current,
            energized: self.energized,
            dead_time_us: self.dead_time_us,
        }
    }
}

impl SixStepSequencer {
    /// A sequencer in state 0 with all outputs low.
    pub fn new(dead_time_us: u32) -> (sequencer: SixStepSequencer)
        ensures
            sequencer@ == SequencerState::initial(dead_time_us),
    {
        SixStepSequencer { current: Sector::S0, energized: false, dead_time_us }
    }

    /// The switch state that was asserted last.
    pub fn current(&self) -> (state: Sector)
        ensures
            state == self@.current,
    {
        self.current
    }

    /// Whether a state has been asserted since startup.
    pub fn is_energized(&self) -> (energized: bool)
        ensures
            energized == self@.energized,
    {
        self.energized
    }

    /// The dead-time interval in microseconds.
    pub fn dead_time_us(&self) -> (dead_time_us: u32)
        ensures
            dead_time_us == self@.dead_time_us,
    {
        self.dead_time_us
    }

    /// The bridge configuration that is asserted now.
    pub fn config(&self) -> (config: BridgeConfig)
        ensures
            config == self@.config(),
    {
        if self.energized {
            bridge_config(self.current)
        } else {
            BridgeConfig {
                u: SwitchPair { high: false, low: false },
                v: SwitchPair { high: false, low: false },
                w: SwitchPair { high: false, low: false },
            }
        }
    }

    /// Takes a request for a switch state and says what must come before it:
    /// nothing if the state is the current one or a neighbour of it, else an
    /// all-off interval of the dead time. The requested state is the current
    /// one afterwards.
    pub fn request(&mut self, requested: Sector) -> (interlock: Interlock)
        ensures
            final(self)@ == old(self)@.requested(requested),
            interlock == required_interlock(old(self)@.current, requested, old(self)@.dead_time_us),
            interlock is AllOff <==> cyclic_distance(old(self)@.current, requested) >= 2,
            interlock matches Interlock::AllOff { hold_us } ==> hold_us == old(self)@.dead_time_us,
    {
        let distance: u8 = sector_distance(self.current, requested);
        self.current = requested;
        self.energized = true;
        if distance >= 2 {
            Interlock::AllOff { hold_us: self.dead_time_us }
        } else {
            Interlock::Direct
        }
    }
}

} // verus!
