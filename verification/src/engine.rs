//! The state of the display and the phases of one tick.
//!
//! A tick moves every pellet and marks those that burst or vanish
//! ([`Engine::step`]), adds the sparks of every blast ([`Engine::explode`]),
//! then takes the marked pellets out ([`Engine::compact`]). The marks are
//! indices into the collection as it stood when they were made: sparks are
//! added behind them, and nothing is taken out before the last phase.

use vstd::prelude::*;
use crate::burst::{sparks, spec_sparks, Burst};
use crate::compact::{
    indices, kept, lemma_kept_appended, lemma_kept_unmarked, lemma_mark_set, mark_set,
    marks_valid, remove_marked,
};
use crate::fate::{classify, exploding, lemma_indices_where, vanishing, Fate};
use crate::launch::{launch_pos, launchable, spawn, spec_launch_limit, MAX_DRIFT, SLOWEST_CLIMB};
use crate::pellet::{BlastType, Draw, Pellet, PelletView};

verus! {

/// What the screen is asked to do.
#[derive(Clone, Copy, Debug, PartialEq, Eq)]
pub enum Request {
    /// Wipe the screen.
    Clear,
    /// Draw one glyph at one cell.
    Glyph(Draw),
}

impl Request {
    /// Whether this request draws `pellet`: its glyph, at its cell.
    pub open spec fn shows(self, pellet: PelletView) -> bool {
        self matches Request::Glyph(draw) && draw.shows(pellet)
    }
}

/// The live pellets and the two working sets of a tick.
pub struct Engine {
    /// The live pellets, in no particular order.
    pub pellets: Vec<Pellet>,
    /// Indices of the pellets that burst this tick.
    pub exploders: Vec<usize>,
    /// Indices of the pellets that leave this tick, burst ones included.
    pub vanishers: Vec<usize>,
}

/// The sparks of all the blasts of a tick: for each exploder in turn, the
/// sparks of its velocities, at the place where that exploder stands.
pub open spec fn offspring(
    pellets: Seq<Pellet>,
    exploders: Seq<usize>,
    velocities: Seq<Vec<(i32, i32)>>,
) -> Seq<Pellet>
    decreases exploders.len(),
{
    if exploders.len() == 0 {
        Seq::empty()
    } else {
        offspring(pellets, exploders.drop_last(), velocities.drop_last()) + spec_sparks(
            pellets[exploders.last() as int].pos,
            velocities.last()@,
        )
    }
}

impl Engine {
    /// Whether no pellet is marked: the state between two ticks.
    pub open spec fn idle(&self) -> bool {
        self.exploders@.len() == 0 && self.vanishers@.len() == 0
    }

    /// Whether every pellet can move by one tick in 32-bit arithmetic.
    pub open spec fn steppable(&self) -> bool {
        forall|i: int| 0 <= i < self.pellets@.len() ==> (#[trigger] self.pellets@[i])@.can_advance()
    }

    /// Whether every exploder names a live pellet.
    pub open spec fn exploders_valid(&self) -> bool {
        forall|k: int|
            0 <= k < self.exploders@.len() ==> (#[trigger] self.exploders@[k]) < self.pellets@.len()
    }

    /// An engine with no pellets.
    pub fn new() -> (engine: Engine)
        ensures
            engine.pellets@.len() == 0,
            engine.idle(),
    {
        Engine { pellets: Vec::new(), exploders: Vec::new(), vanishers: Vec::new() }
    }

    /// Whether [`Engine::step`] may be called on an idle engine: decides
    /// [`Engine::steppable`].
    pub fn can_step(&self) -> (ok: bool)
        ensures
            ok == self.steppable(),
    {
        let mut i: usize = 0;
        while i < self.pellets.len()
            invariant
                i <= self.pellets@.len(),
                forall|j: int| 0 <= j < i ==> (#[trigger] self.pellets@[j])@.can_advance(),
            decreases self.pellets@.len() - i,
        {
            if !self.pellets[i].can_advance() {
                return false;
            }
            i = i + 1;
        }
        true
    }

    /// Moves every pellet by one tick and marks the pellets that end with it,
    /// judging each by where it stands after the move.
    ///
    /// Returns what the screen is asked to do for this tick: to wipe itself,
    /// then to draw every pellet at its new place, in the order of the
    /// collection, those that are marked too.
    pub fn step(&mut self, max_y: i32) -> (requests: Vec<Request>)
        requires
            old(self).idle(),
            old(self).steppable(),
        ensures
            final(self).pellets@.len() == old(self).pellets@.len(),
            forall|i: int|
                0 <= i < old(self).pellets@.len() ==> (#[trigger] final(self).pellets@[i])@ == old(
                    self,
                ).pellets@[i]@.advanced(),
            indices(final(self).exploders@) == exploding(final(self).pellets@, max_y as int),
            indices(final(self).vanishers@) == vanishing(final(self).pellets@, max_y as int),
            final(self).exploders_valid(),
            marks_valid(final(self).vanishers@, final(self).pellets@.len()),
            requests@.len() == final(self).pellets@.len() + 1,
            requests@[0] == Request::Clear,
            forall|k: int|
                1 <= k < requests@.len() ==> (#[trigger] requests@[k]).shows(
                    final(self).pellets@[k - 1]@,
                ),
    {
        let ghost before = self.pellets@;
        let ghost height = max_y as int;
        let n = self.pellets.len();
        let mut requests: Vec<Request> = Vec::new();
        requests.push(Request::Clear);
        let mut i: usize = 0;
        while i < n
            invariant
                i <= n,
                n == before.len(),
                self.pellets@.len() == n,
                height == max_y,
                forall|j: int| 0 <= j < n ==> (#[trigger] before[j])@.can_advance(),
                forall|j: int|
                    0 <= j < i ==> (#[trigger] self.pellets@[j])@ == before[j]@.advanced(),
                forall|j: int| i <= j < n ==> (#[trigger] self.pellets@[j]) == before[j],
                indices(self.exploders@) == exploding(self.pellets@.take(i as int), height),
                indices(self.vanishers@) == vanishing(self.pellets@.take(i as int), height),
                requests@.len() == i + 1,
                requests@[0] == Request::Clear,
                forall|k: int|
                    1 <= k <= i ==> (#[trigger] requests@[k]).shows(self.pellets@[k - 1]@),
            decreases n - i,
        {
            let ghost stepped = self.pellets@;
            let ghost burst_marks = indices(self.exploders@);
            let ghost gone_marks = indices(self.vanishers@);
            let mut pellet = self.pellets[i];
            assert(pellet == before[i as int]);
            pellet.advance();
            self.pellets.set(i, pellet);
            requests.push(Request::Glyph(pellet.draw()));
            match classify(&pellet, max_y) {
                Fate::Explode => {
                    self.exploders.push(i);
                    self.vanishers.push(i);
                },
                Fate::Vanish => {
                    self.vanishers.push(i);
                },
                Fate::Continue => {},
            }
            proof {
                let now = self.pellets@.take(i + 1);
                assert(now.drop_last() == stepped.take(i as int));
                assert(now.last() == pellet);
                match pellet@.fate(height) {
                    Fate::Explode => {
                        assert(indices(self.exploders@) == burst_marks.push(i as int));
                        assert(indices(self.vanishers@) == gone_marks.push(i as int));
                    },
                    Fate::Vanish => {
                        assert(indices(self.exploders@) == burst_marks);
                        assert(indices(self.vanishers@) == gone_marks.push(i as int));
                    },
                    Fate::Continue => {
                        assert(indices(self.exploders@) == burst_marks);
                        assert(indices(self.vanishers@) == gone_marks);
                    },
                }
            }
            i = i + 1;
        }
        proof {
            assert(self.pellets@.take(n as int) == self.pellets@);
            lemma_marks_of_a_step(self.pellets@, self.exploders@, self.vanishers@, height);
        }
        requests
    }

    /// Draws, for each exploder in turn, what its blast is made of.
    pub fn draw_bursts(&self) -> (bursts: Vec<Burst>)
        ensures
            bursts@.len() == self.exploders@.len(),
            forall|k: int| 0 <= k < bursts@.len() ==> (#[trigger] bursts@[k]).drawable(),
    {
        let mut bursts: Vec<Burst> = Vec::new();
        let mut k: usize = 0;
        while k < self.exploders.len()
            invariant
                k <= self.exploders@.len(),
                bursts@.len() == k,
                forall|j: int| 0 <= j < bursts@.len() ==> (#[trigger] bursts@[j]).drawable(),
            decreases self.exploders@.len() - k,
        {
            bursts.push(Burst::draw());
            k = k + 1;
        }
        bursts
    }

    /// Adds the sparks of every blast: for the exploder at place `k`, one
    /// inert pellet for each velocity of `velocities[k]`, at the place where
    /// that exploder stands. The marks stay as they are.
    pub fn explode(&mut self, velocities: &Vec<Vec<(i32, i32)>>)
        requires
            old(self).exploders_valid(),
            velocities@.len() == old(self).exploders@.len(),
        ensures
            final(self).pellets@ == old(self).pellets@ + offspring(
                old(self).pellets@,
                old(self).exploders@,
                velocities@,
            ),
            final(self).exploders@ == old(self).exploders@,
            final(self).vanishers@ == old(self).vanishers@,
    {
        let ghost before = self.pellets@;
        let mut k: usize = 0;
        while k < self.exploders.len()
            invariant
                k <= self.exploders@.len(),
                velocities@.len() == self.exploders@.len(),
                self.exploders@ == old(self).exploders@,
                self.vanishers@ == old(self).vanishers@,
                before == old(self).pellets@,
                forall|j: int|
                    0 <= j < self.exploders@.len() ==> (#[trigger] self.exploders@[j])
                        < before.len(),
                self.pellets@ == before + offspring(
                    before,
                    self.exploders@.take(k as int),
                    velocities@.take(k as int),
                ),
            decreases self.exploders@.len() - k,
        {
            let at = self.exploders[k];
            let ghost so_far = self.pellets@;
            assert(so_far[at as int] == before[at as int]);
            sparks(&mut self.pellets, at, &velocities[k]);
            proof {
                let marks = self.exploders@.take(k + 1);
                let given = velocities@.take(k + 1);
                assert(marks.drop_last() == self.exploders@.take(k as int));
                assert(given.drop_last() == velocities@.take(k as int));
                assert(marks.last() == at);
                assert(given.last() == velocities@[k as int]);
                assert(self.pellets@ == before + offspring(before, marks, given));
            }
            k = k + 1;
        }
        assert(self.exploders@.take(k as int) == self.exploders@);
        assert(velocities@.take(k as int) == velocities@);
    }

    /// Takes every vanisher out of the live pellets and clears both working
    /// sets.
    ///
    /// The pellets that stay are exactly those at the unmarked places, each
    /// as often as before; their order is not stated.
    pub fn compact(&mut self)
        requires
            marks_valid(old(self).vanishers@, old(self).pellets@.len()),
        ensures
            final(self).pellets@.to_multiset() == kept(
                old(self).pellets@,
                mark_set(old(self).vanishers@),
            ).to_multiset(),
            final(self).pellets@.len() == old(self).pellets@.len() - old(self).vanishers@.len(),
            final(self).idle(),
    {
        remove_marked(&mut self.pellets, &mut self.vanishers);
        self.exploders.clear();
        self.vanishers.clear();
    }

    /// Launches a firework for the digit `digit` on a screen `max_x` columns
    /// wide and `max_y` rows high, and adds it to the live pellets.
    pub fn spawn(&mut self, digit: i32, max_x: i32, max_y: i32)
        requires
            launchable(digit as int, max_x as int, max_y as int),
        ensures
            final(self).pellets@.len() == old(self).pellets@.len() + 1,
            final(self).pellets@.drop_last() == old(self).pellets@,
            final(self).pellets@.last()@.pos == launch_pos(
                digit as int,
                max_x as int,
                max_y as int,
            ),
            final(self).pellets@.last().blast_type == BlastType::Normal,
            -MAX_DRIFT <= final(self).pellets@.last().vel.0 < MAX_DRIFT,
            spec_launch_limit(max_y as int) <= final(self).pellets@.last().vel.1 < SLOWEST_CLIMB,
            final(self).exploders@ == old(self).exploders@,
            final(self).vanishers@ == old(self).vanishers@,
    {
        let pellet = spawn(digit, max_x, max_y);
        self.pellets.push(pellet);
        assert(self.pellets@.drop_last() == old(self).pellets@);
    }
}

/// The marks that a step leaves name live pellets, and no vanisher twice.
proof fn lemma_marks_of_a_step(
    pellets: Seq<Pellet>,
    exploders: Seq<usize>,
    vanishers: Seq<usize>,
    max_y: int,
)
    requires
        indices(exploders) == exploding(pellets, max_y),
        indices(vanishers) == vanishing(pellets, max_y),
    ensures
        forall|k: int| 0 <= k < exploders.len() ==> (#[trigger] exploders[k]) < pellets.len(),
        marks_valid(vanishers, pellets.len()),
{
    lemma_indices_where(pellets, |p: Pellet| p@.fate(max_y) == Fate::Explode);
    lemma_indices_where(pellets, |p: Pellet| p@.fate(max_y) != Fate::Continue);
    assert forall|k: int| 0 <= k < exploders.len() implies (#[trigger] exploders[k])
        < pellets.len() by {
        assert(indices(exploders)[k] == exploders[k]);
    }
    assert forall|k: int| 0 <= k < vanishers.len() implies (#[trigger] vanishers[k])
        < pellets.len() by {
        assert(indices(vanishers)[k] == vanishers[k]);
    }
    assert forall|j: int, k: int|
        0 <= j < vanishers.len() && 0 <= k < vanishers.len() && j != k implies vanishers[j]
        != vanishers[k] by {
        assert(indices(vanishers)[j] == vanishers[j]);
        assert(indices(vanishers)[k] == vanishers[k]);
    }
}

/// What a tick leaves alive. When the pellets stand as `stepped` after their
/// move, `vanishers` marks those that burst or left the screen, and `born`
/// are the sparks added behind them, then taking the vanishers out keeps
/// exactly the pellets that go on, followed by the sparks. So no pellet that
/// was marked this tick is alive at the next, and none that goes on is lost.
pub proof fn lemma_tick_keeps_the_continuing(
    stepped: Seq<Pellet>,
    vanishers: Seq<usize>,
    born: Seq<Pellet>,
    max_y: int,
)
    requires
        indices(vanishers) == vanishing(stepped, max_y),
    ensures
        kept(stepped + born, mark_set(vanishers)) == stepped.filter(
            |p: Pellet| p@.fate(max_y) == Fate::Continue,
        ) + born,
{
    let marked = |p: Pellet| p@.fate(max_y) != Fate::Continue;
    let unmarked = |p: Pellet| p@.fate(max_y) == Fate::Continue;
    lemma_mark_set(vanishers);
    lemma_indices_where(stepped, marked);
    assert forall|i: int| mark_set(vanishers).contains(i) implies i < stepped.len() by {
        let k = choose|k: int|
            0 <= k < indices(vanishers).len() && indices(vanishers)[k] == i;
        assert(vanishing(stepped, max_y)[k] == i);
    }
    lemma_kept_appended(stepped, born, mark_set(vanishers));
    lemma_kept_unmarked(stepped, marked, unmarked);
}

} // verus!
