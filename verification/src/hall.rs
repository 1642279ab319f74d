//! Hall decoder: from a three-bit sensor sample to one of six rotor sectors.

use vstd::prelude::*;

verus! {

/// Number of rotor sectors in one electrical revolution.
pub const SECTOR_COUNT: u8 = 6;

/// One sample of the three Hall-effect sensors, taken once per tick.
#[derive(Clone, Copy, Debug, PartialEq, Eq, Structural)]
pub struct HallSample {
    pub h1: bool,
    pub h2: bool,
    pub h3: bool,
}

/// One of six rotor-position buckets, 60 electrical degrees wide, in cyclic order.
#[derive(Clone, Copy, Debug, PartialEq, Eq, Structural)]
pub enum Sector {
    S0,
    S1,
    S2,
    S3,
    S4,
    S5,
}

/// What the decoder makes of a sample: a sector, or a code that no rotor
/// position produces.
#[derive(Clone, Copy, Debug, PartialEq, Eq, Structural)]
pub enum HallReading {
    Valid(Sector),
    Invalid,
}

impl Sector {
    /// Position of the sector in the cycle, in `[0, 6)`.
    pub open spec fn position(self) -> int {
        match self {
            Sector::S0 => 0,
            Sector::S1 => 1,
            Sector::S2 => 2,
            Sector::S3 => 3,
            Sector::S4 => 4,
            Sector::S5 => 5,
        }
    }

    /// The sector at a position of the cycle; positions are taken modulo six.
    pub open spec fn at(position: int) -> Sector {
        let p = position % 6;
        if p == 0 {
            Sector::S0
        } else if p == 1 {
            Sector::S1
        } else if p == 2 {
            Sector::S2
        } else if p == 3 {
            Sector::S3
        } else if p == 4 {
            Sector::S4
        } else {
            Sector::S5
        }
    }

    /// The sector's position in the cycle as a number.
    pub fn index(self) -> (i: u8)
        ensures
            i == self.position(),
            i < SECTOR_COUNT,
    {
        match self {
            Sector::S0 => 0,
            Sector::S1 => 1,
            Sector::S2 => 2,
            Sector::S3 => 3,
            Sector::S4 => 4,
            Sector::S5 => 5,
        }
    }

    /// The sector with the given position, if the position is below six.
    pub fn from_index(index: u8) -> (sector: Option<Sector>)
        ensures
            sector.is_some() <==> index < SECTOR_COUNT,
            sector matches Some(s) ==> s == Sector::at(index as int) && s.position() == index,
    {
        match index {
            0 => Some(Sector::S0),
            1 => Some(Sector::S1),
            2 => Some(Sector::S2),
            3 => Some(Sector::S3),
            4 => Some(Sector::S4),
            5 => Some(Sector::S5),
            _ => None,
        }
    }
}

/// The decoding table: which sector each of the eight sensor codes stands for.
pub open spec fn decoded(sample: HallSample) -> HallReading {
    match (sample.h1, sample.h2, sample.h3) {
        (false, false, false) => HallReading::Valid(Sector::S0),
        (true, false, false) => HallReading::Valid(Sector::S1),
        (true, true, false) => HallReading::Valid(Sector::S2),
        (true, true, true) => HallReading::Valid(Sector::S3),
        (false, true, true) => HallReading::Valid(Sector::S4),
        (false, false, true) => HallReading::Valid(Sector::S5),
        _ => HallReading::Invalid,
    }
}

/// The sensor code that decodes to a sector.
pub open spec fn code_of(sector: Sector) -> HallSample {
    match sector {
        Sector::S0 => HallSample { h1: false, h2: false, h3: false },
        Sector::S1 => HallSample { h1: true, h2: false, h3: false },
        Sector::S2 => HallSample { h1: true, h2: true, h3: false },
        Sector::S3 => HallSample { h1: true, h2: true, h3: true },
        Sector::S4 => HallSample { h1: false, h2: true, h3: true },
        Sector::S5 => HallSample { h1: false, h2: false, h3: true },
    }
}

/// Decodes a sensor sample. Six codes name a sector; the two remaining ones,
/// `{T,F,T}` and `{F,T,F}`, are reported as `Invalid`.
pub fn decode(sample: HallSample) -> (reading: HallReading)
    ensures
        reading == decoded(sample),
{
    match (sample.h1, sample.h2, sample.h3) {
        (false, false, false) => HallReading::Valid(Sector::S0),
        (true, false, false) => HallReading::Valid(Sector::S1),
        (true, true, false) => HallReading::Valid(Sector::S2),
        (true, true, true) => HallReading::Valid(Sector::S3),
        (false, true, true) => HallReading::Valid(Sector::S4),
        (false, false, true) => HallReading::Valid(Sector::S5),
        _ => HallReading::Invalid,
    }
}

/// The codes that the decoder reports as `Invalid`.
pub open spec fn invalid_codes() -> Set<HallSample> {
    Set::new(|c: HallSample| decoded(c) is Invalid)
}

/// The sectors that the decoder can return.
pub open spec fn decoded_sectors() -> Set<Sector> {
    Set::new(|s: Sector| exists|c: HallSample| decoded(c) == HallReading::Valid(s))
}

/// Of the eight sensor codes, six decode to six distinct sectors, which are all
/// the sectors there are, and exactly two are invalid.
pub proof fn lemma_decode_partitions_codes()
    ensures
        forall|s: Sector| #[trigger] decoded(code_of(s)) == HallReading::Valid(s),
        forall|c: HallSample, s: Sector|
            #![trigger decoded(c), code_of(s)]
            decoded(c) == HallReading::Valid(s) ==> c == code_of(s),
        forall|c1: HallSample, c2: HallSample|
            #![trigger decoded(c1), decoded(c2)]
            decoded(c1) is Valid && decoded(c1) == decoded(c2) ==> c1 == c2,
        forall|c: HallSample|
            #[trigger] decoded(c) is Invalid <==> (c == HallSample {
                h1: true,
                h2: false,
                h3: true,
            } || c == HallSample { h1: false, h2: true, h3: false }),
        invalid_codes().finite() && invalid_codes().len() == 2,
        decoded_sectors().finite() && decoded_sectors().len() == 6,
{
    let a = HallSample { h1: true, h2: false, h3: true };
    let b = HallSample { h1: false, h2: true, h3: false };
    assert(invalid_codes() =~= set![a, b]);
    assert forall|s: Sector| decoded_sectors().contains(s) by {
        assert(decoded(code_of(s)) == HallReading::Valid(s));
    }
    assert(decoded_sectors() =~= set![
        Sector::S0,
        Sector::S1,
        Sector::S2,
        Sector::S3,
        Sector::S4,
        Sector::S5,
    ]);
}

} // verus!
