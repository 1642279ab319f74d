//! Waveform generator for the sinusoidal drive: three phase duties read from a
//! Q15 sine table, 120 degrees apart, centred on half the maximum duty.

use vstd::prelude::*;
use crate::angle::SINE_RESOLUTION;
use crate::fixed::{lemma_q15_product_bounded, multfix15, q15_product, q15_saturated, saturate_q15};

verus! {

/// Offset of phase V in the sine table: a third of a cycle.
pub const PHASE_OFFSET_V: usize = 120;

/// Offset of phase W in the sine table: two thirds of a cycle.
pub const PHASE_OFFSET_W: usize = 240;

/// The two switches of one half-bridge.
#[derive(Clone, Copy, Debug, PartialEq, Eq, Structural)]
pub struct SwitchPair {
    /// Whether the high-side switch conducts.
    pub high: bool,
    /// Whether the low-side switch conducts.
    pub low: bool,
}

/// What one phase is driven with: the duty of its PWM channel and, in six-step
/// mode, the state of its two switches.
#[derive(Clone, Copy, Debug, PartialEq, Eq, Structural)]
pub struct PhaseDrive {
    /// Share of the PWM period, out of the maximum duty.
    pub duty: u16,
    /// The discrete switch states; both off in sinusoidal mode, where the PWM
    /// channel alone drives the phase.
    pub switches: SwitchPair,
}

/// The command for the three phases U, V and W.
#[derive(Clone, Copy, Debug, PartialEq, Eq, Structural)]
pub struct PhaseCommand {
    pub u: PhaseDrive,
    pub v: PhaseDrive,
    pub w: PhaseDrive,
}

impl SwitchPair {
    /// Neither switch conducts.
    pub open spec fn off() -> SwitchPair {
        SwitchPair { high: false, low: false }
    }
}

impl PhaseDrive {
    /// A phase driven by its PWM channel alone.
    pub open spec fn modulated(duty: int) -> PhaseDrive {
        PhaseDrive { duty: duty as u16, switches: SwitchPair::off() }
    }
}

impl PhaseCommand {
    /// Whether no duty exceeds `max_duty`.
    pub open spec fn within(self, max_duty: int) -> bool {
        self.u.duty <= max_duty && self.v.duty <= max_duty && self.w.duty <= max_duty
    }

    /// The command that drives nothing: every duty at zero, every switch off.
    pub fn idle() -> (command: PhaseCommand)
        ensures
            command == idle_command(),
    {
        let off = PhaseDrive { duty: 0, switches: SwitchPair { high: false, low: false } };
        PhaseCommand { u: off, v: off, w: off }
    }
}

/// The command that drives nothing: every duty at zero, every switch off.
pub open spec fn idle_command() -> PhaseCommand {
    PhaseCommand {
        u: PhaseDrive { duty: 0, switches: SwitchPair::off() },
        v: PhaseDrive { duty: 0, switches: SwitchPair::off() },
        w: PhaseDrive { duty: 0, switches: SwitchPair::off() },
    }
}

/// The duty of one phase: half the maximum duty, plus that half scaled by the
/// table entry at the angle moved on by the phase's offset.
pub open spec fn phase_duty(table: Seq<i16>, angle: int, offset: int, max_duty: int) -> int {
    let half = max_duty / 2;
    half + q15_product(table[(angle + offset) % 360] as int, half)
}

/// The sinusoidal command at an angle: phases U, V and W a third of a cycle
/// apart.
pub open spec fn sinusoidal_command(table: Seq<i16>, angle: int, max_duty: int) -> PhaseCommand {
    PhaseCommand {
        u: PhaseDrive::modulated(phase_duty(table, angle, 0, max_duty)),
        v: PhaseDrive::modulated(phase_duty(table, angle, 120, max_duty)),
        w: PhaseDrive::modulated(phase_duty(table, angle, 240, max_duty)),
    }
}

/// Whatever the table holds, and so for every harmonic shape it was filled
/// with, the duty of every phase at every angle lies between zero and the
/// maximum duty.
pub proof fn lemma_phase_duty_in_range(table: Seq<i16>, angle: int, offset: int, max_duty: int)
    requires
        table.len() == SINE_RESOLUTION,
        0 <= max_duty <= u16::MAX,
    ensures
        0 <= phase_duty(table, angle, offset, max_duty) <= max_duty,
        phase_duty(table, angle, offset, max_duty) == max_duty / 2 + (table[(angle + offset)
            % 360] * (max_duty / 2)) / 32768,
{
    lemma_q15_product_bounded(table[(angle + offset) % 360] as int, max_duty / 2);
}

/// A sine table: one Q15 sample per degree of the electrical angle.
#[derive(Clone, Copy, Debug)]
pub struct SineTable {
    samples: [i16; 360],
}

impl View for SineTable {
    type V = Seq<i16>;

    closed spec fn view(&self) -> Seq<i16> {
        self.samples@
    }
}

impl SineTable {
    /// Every table has one entry per degree.
    pub proof fn lemma_len(&self)
        ensures
            self@.len() == SINE_RESOLUTION,
    {
    }

    /// A table of the given samples.
    pub fn from_samples(samples: [i16; 360]) -> (table: SineTable)
        ensures
            table@ == samples@,
            table@.len() == SINE_RESOLUTION,
    {
        SineTable { samples }
    }

    /// A table of the given values, each already scaled by 2^15 and rounded,
    /// and here clamped into the Q15 range: a peak of exactly 1.0 becomes the
    /// largest Q15 value.
    pub fn from_scaled(scaled: &[i32; 360]) -> (table: SineTable)
        ensures
            table@.len() == SINE_RESOLUTION,
            forall|i: int|
                0 <= i < SINE_RESOLUTION ==> #[trigger] table@[i] == q15_saturated(
                    scaled@[i] as int,
                ),
    {
        let mut samples: [i16; 360] = [0i16; 360];
        let mut i: usize = 0;
        while i < SINE_RESOLUTION
            invariant
                i <= SINE_RESOLUTION,
                forall|j: int| 0 <= j < i ==> #[trigger] samples@[j] == q15_saturated(scaled@[j] as int),
            decreases SINE_RESOLUTION - i,
        {
            samples[i] = saturate_q15(scaled[i]);
            i = i + 1;
        }
        SineTable { samples }
    }

    /// The sample at an angle index; indices are taken modulo the table's
    /// length.
    pub fn sample(&self, index: usize) -> (sample: i16)
        ensures
            sample == self@[(index % SINE_RESOLUTION) as int],
    {
        self.samples[index % SINE_RESOLUTION]
    }

    /// The duty of the phase that is `offset` entries ahead of `angle_index`.
    pub fn duty(&self, angle_index: usize, offset: usize, max_duty: u16) -> (duty: u16)
        ensures
            duty == phase_duty(self@, angle_index as int, offset as int, max_duty as int),
            duty <= max_duty,
    {
        let position: usize = (angle_index % SINE_RESOLUTION + offset % SINE_RESOLUTION)
            % SINE_RESOLUTION;
        assert(position == (angle_index + offset) % 360);
        let half: u16 = max_duty / 2;
        let swing: i16 = multfix15(self.samples[position], half as i16);
        proof {
            lemma_phase_duty_in_range(self@, angle_index as int, offset as int, max_duty as int);
        }
        (half as i32 + swing as i32) as u16
    }

    /// The three phase duties of the sinusoidal drive at an angle index.
    pub fn duties(&self, angle_index: usize, max_duty: u16) -> (command: PhaseCommand)
        ensures
            command == sinusoidal_command(self@, angle_index as int, max_duty as int),
            command.within(max_duty as int),
            command.u.duty == phase_duty(self@, angle_index as int, 0, max_duty as int),
            command.v.duty == phase_duty(self@, angle_index as int, 120, max_duty as int),
            command.w.duty == phase_duty(self@, angle_index as int, 240, max_duty as int),
    {
        let off = SwitchPair { high: false, low: false };
        PhaseCommand {
            u: PhaseDrive { duty: self.duty(angle_index, 0, max_duty), switches: off },
            v: PhaseDrive { duty: self.duty(angle_index, PHASE_OFFSET_V, max_duty), switches: off },
            w: PhaseDrive { duty: self.duty(angle_index, PHASE_OFFSET_W, max_duty), switches: off },
        }
    }
}

} // verus!
