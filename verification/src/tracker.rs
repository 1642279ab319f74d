//! Sector tracker: remembers the last valid sector and turns each new reading
//! into a signed transition, folding the wraparound of the six-sector cycle.

use vstd::prelude::*;
use vstd::math::abs;
use crate::hall::{decode, decoded, HallReading, HallSample, Sector};

verus! {

/// The last sector that was read validly, or `Unknown` before the first one.
#[derive(Clone, Copy, Debug, PartialEq, Eq, Structural)]
pub enum PreviousSector {
    Unknown,
    Known(Sector),
}

/// Number of steps between two sectors the short way round the cycle, in `[0, 3]`.
pub open spec fn cyclic_distance(from: Sector, to: Sector) -> int {
    let forward = (to.position() - from.position()) % 6;
    if forward <= 3 {
        forward
    } else {
        6 - forward
    }
}

/// The transition from `previous` to `current`: the raw difference of their
/// positions, folded by six when it is four or more either way, and zero when
/// the two sectors are diametrically opposite.
pub open spec fn normalized_transition(previous: Sector, current: Sector) -> int {
    let d = current.position() - previous.position();
    if d == 3 || d == -3 {
        0
    } else if d >= 4 {
        d - 6
    } else if d <= -4 {
        d + 6
    } else {
        d
    }
}

/// What the tracker remembers after a reading: an invalid one changes nothing.
pub open spec fn held_sector(previous: PreviousSector, reading: HallReading) -> PreviousSector {
    match reading {
        HallReading::Valid(current) => PreviousSector::Known(current),
        HallReading::Invalid => previous,
    }
}

/// The transition that a reading reports: zero unless both the remembered
/// sector and the reading are valid.
pub open spec fn reported_transition(previous: PreviousSector, reading: HallReading) -> int {
    match (previous, reading) {
        (PreviousSector::Known(p), HallReading::Valid(c)) => normalized_transition(p, c),
        _ => 0,
    }
}

/// What the tracker remembers after a run of samples, taken in order.
pub open spec fn held_after(previous: PreviousSector, samples: Seq<HallSample>) -> PreviousSector
    decreases samples.len(),
{
    if samples.len() == 0 {
        previous
    } else {
        held_sector(held_after(previous, samples.drop_last()), decoded(samples.last()))
    }
}

/// Sum of the transitions that a run of samples reports, taken in order.
pub open spec fn travelled(previous: PreviousSector, samples: Seq<HallSample>) -> int
    decreases samples.len(),
{
    if samples.len() == 0 {
        0
    } else {
        travelled(previous, samples.drop_last()) + reported_transition(
            held_after(previous, samples.drop_last()),
            decoded(samples.last()),
        )
    }
}

/// Computes the normalized transition between two valid sectors.
pub fn normalize_transition(previous: Sector, current: Sector) -> (transition: i8)
    ensures
        transition == normalized_transition(previous, current),
        -2 <= transition <= 2,
{
    let p: u8 = previous.index();
    let c: u8 = current.index();
    let d: i8 = c as i8 - p as i8;
    if d == 3 || d == -3 {
        0
    } else if d >= 4 {
        d - 6
    } else if d <= -4 {
        d + 6
    } else {
        d
    }
}

/// Number of sectors between two sectors the short way round.
pub fn sector_distance(from: Sector, to: Sector) -> (distance: u8)
    ensures
        distance == cyclic_distance(from, to),
        distance <= 3,
{
    let f: u8 = from.index();
    let t: u8 = to.index();
    let forward: u8 = if t >= f {
        t - f
    } else {
        t + 6 - f
    };
    if forward <= 3 {
        forward
    } else {
        6 - forward
    }
}

/// For two sectors that are not opposite, the normalized transition is the
/// signed shortest way round the cycle: it leads from the first sector to the
/// second, its size is their cyclic distance, and no other step count that also
/// leads there is smaller. For opposite sectors, three apart, it is zero.
pub proof fn lemma_transition_is_shortest_signed_distance(previous: Sector, current: Sector)
    ensures
        -2 <= normalized_transition(previous, current) <= 2,
        cyclic_distance(previous, current) == 3 <==> abs(
            current.position() - previous.position(),
        ) == 3,
        cyclic_distance(previous, current) == 3 ==> normalized_transition(previous, current) == 0,
        cyclic_distance(previous, current) != 3 ==> {
            let t = normalized_transition(previous, current);
            &&& Sector::at(previous.position() + t) == current
            &&& abs(t) == cyclic_distance(previous, current)
            &&& forall|d: int|
                Sector::at(previous.position() + d) == current ==> abs(t) <= #[trigger] abs(d)
        },
{
    let t = normalized_transition(previous, current);
    if cyclic_distance(previous, current) != 3 {
        assert forall|d: int| Sector::at(previous.position() + d) == current implies abs(t)
            <= #[trigger] abs(d) by {
            if -3 < d < 3 {
                assert((previous.position() + d) % 6 == current.position());
            }
        }
    }
}

/// A run of samples that are all invalid leaves the remembered sector as it
/// was and reports no motion.
pub proof fn lemma_invalid_samples_hold(previous: PreviousSector, samples: Seq<HallSample>)
    requires
        forall|i: int| 0 <= i < samples.len() ==> decoded(#[trigger] samples[i]) is Invalid,
    ensures
        held_after(previous, samples) == previous,
        travelled(previous, samples) == 0,
    decreases samples.len(),
{
    if samples.len() > 0 {
        lemma_invalid_samples_hold(previous, samples.drop_last());
        assert(decoded(samples[samples.len() - 1]) is Invalid);
    }
}

/// Tracks the rotor sector from one tick to the next.
#[derive(Clone, Copy, Debug)]
pub struct SectorTracker {
    previous: PreviousSector,
}

impl View for SectorTracker {
    type V = PreviousSector;

    /// The remembered sector.
    closed spec fn view(&self) -> PreviousSector {
        self.previous
    }
}

impl SectorTracker {
    /// A tracker that has seen no valid sector yet.
    pub fn new() -> (tracker: SectorTracker)
        ensures
            tracker@ == PreviousSector::Unknown,
    {
        SectorTracker { previous: PreviousSector::Unknown }
    }

    /// The last sector that was read validly.
    pub fn previous_sector(&self) -> (previous: PreviousSector)
        ensures
            previous == self@,
    {
        self.previous
    }

    /// Takes the reading of one tick and returns the transition since the last
    /// valid sector. An invalid reading is a tolerated glitch: the remembered
    /// sector stays and no motion is reported. The first valid reading seeds
    /// the tracker and reports no motion either.
    pub fn observe(&mut self, reading: HallReading) -> (transition: i8)
        ensures
            final(self)@ == held_sector(old(self)@, reading),
            transition == reported_transition(old(self)@, reading),
            -2 <= transition <= 2,
            reading is Invalid ==> final(self)@ == old(self)@ && transition == 0,
            old(self)@ is Unknown ==> transition == 0,
    {
        match reading {
            HallReading::Invalid => 0,
            HallReading::Valid(current) => {
                let transition: i8 = match self.previous {
                    PreviousSector::Unknown => 0,
                    PreviousSector::Known(previous) => normalize_transition(previous, current),
                };
                self.previous = PreviousSector::Known(current);
                transition
            },
        }
    }

    /// Decodes the sample of one tick and takes it as `observe` does.
    pub fn update(&mut self, sample: HallSample) -> (transition: i8)
        ensures
            final(self)@ == held_sector(old(self)@, decoded(sample)),
            transition == reported_transition(old(self)@, decoded(sample)),
            -2 <= transition <= 2,
            decoded(sample) is Invalid ==> final(self)@ == old(self)@ && transition == 0,
    {
        self.observe(decode(sample))
    }
}

} // verus!
