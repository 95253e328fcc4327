//! The blast of a firework: what is drawn at random for it, how its sparks
//! are laid out on two rings, and the pellets that it leaves behind.
//!
//! A spark's velocity is a sine and a cosine of its angle. This module fixes
//! the angle and the scale of every spark in whole numbers; working out the
//! trigonometry is left to the caller, who hands the finished velocities to
//! [`sparks`].

use vstd::prelude::*;
use crate::chance::uniform;
use crate::pellet::{toward_zero, BlastType, Pellet};

verus! {

/// Least number of sparks on the outer ring of a blast.
pub const MIN_SPARKS: i32 = 10;

/// One more than the greatest number of sparks on the outer ring.
pub const MAX_SPARKS: i32 = 16;

/// Least speed of a blast.
pub const MIN_MAGNITUDE: i32 = 1000;

/// One more than the greatest speed of a blast.
pub const MAX_MAGNITUDE: i32 = 4000;

/// What is drawn at random for one blast, once, and shared by all its sparks.
#[derive(Clone, Copy, Debug, PartialEq, Eq)]
pub struct Burst {
    /// Number of sparks on the outer ring.
    pub count: i32,
    /// Speed of the outer ring, in fixed-point units per tick.
    pub magnitude: i32,
}

/// One spark of a blast, before its velocity is worked out.
///
/// The spark leaves at the angle `index * stride / count` of a full turn,
/// measured from straight down, with the velocity
/// `(magnitude * scale.0 / 100 * sin(angle), magnitude * scale.1 / 100 * cos(angle))`.
#[derive(Clone, Copy, Debug, PartialEq, Eq)]
pub struct Spoke {
    /// Place of the spark on its ring, from 0.
    pub index: i32,
    /// Number of equal steps that make a full turn.
    pub count: i32,
    /// Steps of the turn between one spark of the ring and the next.
    pub stride: i32,
    /// Speed of the blast.
    pub magnitude: i32,
    /// Percentage of the speed that the ring keeps, sideways and downward.
    pub scale: (i32, i32),
}

/// The spark at place `index` of the outer ring: one step of the turn per
/// spark, full speed sideways and 70 percent of it downward.
pub open spec fn outer_spoke(burst: Burst, index: int) -> Spoke {
    Spoke {
        index: index as i32,
        count: burst.count,
        stride: 1,
        magnitude: burst.magnitude,
        scale: (100, 70),
    }
}

/// The spark at place `index` of the inner ring: two steps of the turn per
/// spark, half the speed sideways and 35 percent of it downward.
pub open spec fn inner_spoke(burst: Burst, index: int) -> Spoke {
    Spoke {
        index: index as i32,
        count: burst.count,
        stride: 2,
        magnitude: burst.magnitude,
        scale: (50, 35),
    }
}

/// The number of sparks on a ring that is asked to hold `count` of them.
pub open spec fn ring_len(count: int) -> nat {
    if count > 0 {
        count as nat
    } else {
        0
    }
}

impl Burst {
    /// Number of sparks on the inner ring: half the outer ring, rounded
    /// toward zero.
    pub open spec fn inner_count(self) -> int {
        toward_zero(self.count as int, 2)
    }

    /// The sparks of the blast: the outer ring, then the inner ring.
    pub open spec fn spec_spokes(self) -> Seq<Spoke> {
        Seq::new(ring_len(self.count as int), |i: int| outer_spoke(self, i)) + Seq::new(
            ring_len(self.inner_count()),
            |i: int| inner_spoke(self, i),
        )
    }

    /// Whether the burst is one that [`Burst::draw`] can return.
    pub open spec fn drawable(self) -> bool {
        &&& MIN_SPARKS <= self.count < MAX_SPARKS
        &&& MIN_MAGNITUDE <= self.magnitude < MAX_MAGNITUDE
    }

    /// Draws the number of sparks, then the speed, of one blast.
    pub fn draw() -> (burst: Burst)
        ensures
            burst.drawable(),
    {
        let count = uniform(MIN_SPARKS, MAX_SPARKS);
        let magnitude = uniform(MIN_MAGNITUDE, MAX_MAGNITUDE);
        Burst { count, magnitude }
    }

    /// Lays out the sparks of the blast: `count` on the outer ring, then
    /// `count / 2` on the inner ring.
    pub fn spokes(&self) -> (plan: Vec<Spoke>)
        ensures
            plan@ == self.spec_spokes(),
    {
        let mut plan: Vec<Spoke> = Vec::new();
        let mut r: i32 = 0;
        while r < self.count
            invariant
                0 <= r,
                r <= self.count || r == 0,
                plan@ == Seq::new(ring_len(r as int), |i: int| outer_spoke(*self, i)),
            decreases self.count - r,
        {
            plan.push(
                Spoke {
                    index: r,
                    count: self.count,
                    stride: 1,
                    magnitude: self.magnitude,
                    scale: (100, 70),
                },
            );
            r = r + 1;
        }
        let ghost outer = plan@;
        assert(outer == Seq::new(ring_len(self.count as int), |i: int| outer_spoke(*self, i)));
        let half: i32 = self.count / 2;
        let mut r: i32 = 0;
        while r < half
            invariant
                0 <= r,
                r <= half || r == 0,
                half == self.inner_count(),
                plan@ == outer + Seq::new(ring_len(r as int), |i: int| inner_spoke(*self, i)),
            decreases half - r,
        {
            plan.push(
                Spoke {
                    index: r,
                    count: self.count,
                    stride: 2,
                    magnitude: self.magnitude,
                    scale: (50, 35),
                },
            );
            r = r + 1;
        }
        plan
    }
}

/// The sparks that a blast at `origin` leaves behind: one inert pellet for
/// each velocity, in order, every one at `origin`.
pub open spec fn spec_sparks(origin: (i32, i32), velocities: Seq<(i32, i32)>) -> Seq<Pellet> {
    Seq::new(
        velocities.len(),
        |i: int| Pellet { pos: origin, vel: velocities[i], blast_type: BlastType::Inert },
    )
}

/// The shape of a blast. A blast of `count` sparks at `magnitude`, given
/// one velocity for each spark of its layout, leaves `count + count / 2` new
/// pellets: every one inert, at `origin`, with the velocity given for its
/// place. The first `count` places are the outer ring, place `r` at `r`
/// steps of a turn of `count` steps, at full speed sideways and 70 percent
/// of it downward; the `count / 2` places behind them are the inner ring,
/// place `r` at `2 * r` steps of the same turn, at 50 and 35 percent.
pub proof fn lemma_blast_shape(burst: Burst, origin: (i32, i32), velocities: Seq<(i32, i32)>)
    requires
        0 <= burst.count,
        velocities.len() == burst.spec_spokes().len(),
    ensures
        spec_sparks(origin, velocities).len() == burst.count + burst.count / 2,
        forall|i: int|
            0 <= i < burst.count + burst.count / 2 ==> (#[trigger] spec_sparks(
                origin,
                velocities,
            )[i]) == (Pellet { pos: origin, vel: velocities[i], blast_type: BlastType::Inert }),
        forall|i: int|
            0 <= i < burst.count ==> (#[trigger] burst.spec_spokes()[i]) == (Spoke {
                index: i as i32,
                count: burst.count,
                stride: 1,
                magnitude: burst.magnitude,
                scale: (100, 70),
            }),
        forall|i: int|
            burst.count <= i < burst.count + burst.count / 2 ==> (#[trigger] burst.spec_spokes()[i])
                == (Spoke {
                index: (i - burst.count) as i32,
                count: burst.count,
                stride: 2,
                magnitude: burst.magnitude,
                scale: (50, 35),
            }),
{
}

/// Adds to `pellets` the sparks of a blast of the pellet at index `at`.
pub fn sparks(pellets: &mut Vec<Pellet>, at: usize, velocities: &Vec<(i32, i32)>)
    requires
        at < old(pellets)@.len(),
    ensures
        final(pellets)@ == old(pellets)@ + spec_sparks(old(pellets)@[at as int].pos, velocities@),
{
    let origin = pellets[at].pos;
    let mut i: usize = 0;
    while i < velocities.len()
        invariant
            i <= velocities@.len(),
            pellets@ == old(pellets)@ + spec_sparks(origin, velocities@.take(i as int)),
        decreases velocities@.len() - i,
    {
        pellets.push(Pellet { pos: origin, vel: velocities[i], blast_type: BlastType::Inert });
        assert(spec_sparks(origin, velocities@.take(i + 1)) == spec_sparks(
            origin,
            velocities@.take(i as int),
        ).push(Pellet { pos: origin, vel: velocities@[i as int], blast_type: BlastType::Inert }));
        i = i + 1;
    }
    assert(velocities@.take(velocities@.len() as int) == velocities@);
}

} // verus!
