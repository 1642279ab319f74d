//! Electrical-angle counter: an unsigned fixed-point accumulator that the
//! commanded speed advances on every tick, and whose whole part indexes the
//! sine table.

use vstd::prelude::*;

verus! {

/// Number of entries of the sine table: one per degree of the electrical angle.
pub const SINE_RESOLUTION: usize = 360;

/// The fractional scale used when none is configured.
pub const DEFAULT_SCALE_SHIFT: u32 = 8;

/// The largest fractional scale for which the counter fits in 32 bits.
pub const MAX_SCALE_SHIFT: u32 = 23;

/// The counter's modulus for a fractional scale: one full cycle of the sine
/// table, each entry taking `2^scale_shift` counts.
pub open spec fn counter_modulus(scale_shift: nat) -> nat {
    360 * vstd::arithmetic::power2::pow2(scale_shift)
}

/// The counter as plain numbers.
pub struct AngleState {
    /// Number of fractional bits.
    pub scale_shift: nat,
    /// The accumulated angle, below the modulus.
    pub value: nat,
}

impl AngleState {
    /// A counter is valid when its scale is supported and its value is below
    /// the modulus.
    pub open spec fn valid(self) -> bool {
        &&& self.scale_shift <= MAX_SCALE_SHIFT
        &&& self.value < counter_modulus(self.scale_shift)
    }

    /// The counter after an advance by `speed`, wrapping at the modulus.
    pub open spec fn advanced(self, speed: nat) -> AngleState {
        AngleState {
            value: (self.value + speed) % counter_modulus(self.scale_shift),
            ..self
        }
    }

    /// The whole part of the angle: the index into the sine table.
    pub open spec fn index(self) -> nat {
        self.value / vstd::arithmetic::power2::pow2(self.scale_shift)
    }
}

/// For every supported scale the modulus is positive and fits in 32 bits.
pub proof fn lemma_modulus_fits(scale_shift: nat)
    requires
        scale_shift <= MAX_SCALE_SHIFT,
    ensures
        360 <= counter_modulus(scale_shift) <= 360 * 0x80_0000 < u32::MAX,
        0 < vstd::arithmetic::power2::pow2(scale_shift) <= 0x80_0000,
{
    vstd::arithmetic::power2::lemma2_to64();
    vstd::arithmetic::power2::lemma_pow2_pos(scale_shift);
    if scale_shift < 23 {
        vstd::arithmetic::power2::lemma_pow2_strictly_increases(scale_shift, 23);
    }
}

/// The index of a valid counter is always a position of the sine table.
pub proof fn lemma_index_in_table(state: AngleState)
    requires
        state.valid(),
    ensures
        state.index() < SINE_RESOLUTION,
{
    lemma_modulus_fits(state.scale_shift);
    let p = vstd::arithmetic::power2::pow2(state.scale_shift) as int;
    let v = state.value as int;
    assert(v / p < 360) by (nonlinear_arith)
        requires
            0 <= v < 360 * p,
            p > 0,
    ;
}

/// An advance keeps a valid counter valid, whatever the speed.
pub proof fn lemma_advance_keeps_valid(state: AngleState, speed: nat)
    requires
        state.valid(),
    ensures
        state.advanced(speed).valid(),
        state.advanced(speed).scale_shift == state.scale_shift,
{
    lemma_modulus_fits(state.scale_shift);
}

/// The electrical-angle counter.
#[derive(Clone, Copy, Debug)]
pub struct AngleCounter {
    scale_shift: u32,
    value: u32,
}

impl View for AngleCounter {
    type V = AngleState;

    closed spec fn view(&self) -> AngleState {
        AngleState { scale_shift: self.scale_shift as nat, value: self.value as nat }
    }
}

impl AngleCounter {
    /// Every counter is in a valid state: its fields are private, and each
    /// operation keeps them so.
    #[verifier::type_invariant]
    pub open spec fn wf(&self) -> bool {
        self@.valid()
    }

    /// A counter at angle zero, or `None` if the scale is above
    /// `MAX_SCALE_SHIFT`.
    pub fn new(scale_shift: u32) -> (counter: Option<AngleCounter>)
        ensures
            counter.is_some() <==> scale_shift <= MAX_SCALE_SHIFT,
            counter matches Some(c) ==> c@.valid() && c@ == (AngleState {
                scale_shift: scale_shift as nat,
                value: 0,
            }),
    {
        if scale_shift > MAX_SCALE_SHIFT {
            None
        } else {
            proof {
                lemma_modulus_fits(scale_shift as nat);
            }
            Some(AngleCounter { scale_shift, value: 0 })
        }
    }

    /// Number of fractional bits.
    pub fn scale_shift(&self) -> (shift: u32)
        ensures
            shift == self@.scale_shift,
    {
        self.scale_shift
    }

    /// The accumulated angle.
    pub fn value(&self) -> (value: u32)
        ensures
            value == self@.value,
    {
        self.value
    }

    /// The value at which the counter wraps.
    pub fn modulus(&self) -> (modulus: u32)
        ensures
            modulus == counter_modulus(self@.scale_shift),
            self@.valid(),
    {
        proof {
            use_type_invariant(self);
            lemma_modulus_fits(self.scale_shift as nat);
            vstd::bits::lemma_u32_shl_is_mul(360u32, self.scale_shift);
        }
        360u32 << self.scale_shift
    }

    /// Advances the counter by `speed`, wrapping at the modulus.
    pub fn advance(&mut self, speed: u32)
        ensures
            old(self)@.valid(),
            final(self)@.valid(),
            final(self)@ == old(self)@.advanced(speed as nat),
            old(self)@.value + speed < counter_modulus(old(self)@.scale_shift)
                ==> final(self)@.value == old(self)@.value + speed,
    {
        proof {
            use_type_invariant(&*self);
            lemma_modulus_fits(self.scale_shift as nat);
        }
        let modulus: u32 = self.modulus();
        let sum: u64 = self.value as u64 + speed as u64;
        proof {
            if sum < modulus {
                vstd::arithmetic::div_mod::lemma_small_mod(sum as nat, modulus as nat);
            }
        }
        self.value = (sum % (modulus as u64)) as u32;
    }

    /// The whole part of the angle, an index into the sine table.
    pub fn index(&self) -> (index: usize)
        ensures
            index == self@.index(),
            index < SINE_RESOLUTION,
            self@.valid(),
    {
        proof {
            use_type_invariant(self);
            lemma_index_in_table(self@);
            vstd::bits::lemma_u32_shr_is_div(self.value, self.scale_shift);
        }
        (self.value >> self.scale_shift) as usize
    }
}

} // verus!
