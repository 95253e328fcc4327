//! What becomes of a pellet once it has moved: it goes on, it bursts, or it
//! leaves the screen.

use vstd::prelude::*;
use crate::pellet::{BlastType, Pellet, PelletView, GRAVITY, SUBPIXEL};

verus! {

/// The outcome of one tick for one pellet.
#[derive(Clone, Copy, Debug, PartialEq, Eq, Structural)]
pub enum Fate {
    /// The pellet stays in the live collection.
    Continue,
    /// The pellet bursts into a blast, and is removed.
    Explode,
    /// The pellet fell off the screen, and is removed.
    Vanish,
}

impl PelletView {
    /// The fate of a pellet that has just moved, on a screen `max_y` cells
    /// high.
    ///
    /// An active pellet bursts as soon as it no longer rises. Any other
    /// pellet vanishes when its row lies beyond the screen height.
    pub open spec fn fate(self, max_y: int) -> Fate {
        if self.kind == BlastType::Normal && self.vel.1 >= 0 {
            Fate::Explode
        } else if self.cell().0 > max_y {
            Fate::Vanish
        } else {
            Fate::Continue
        }
    }
}

/// The indices of `s` whose item satisfies `pred`, in increasing order.
pub open spec fn indices_where<T>(s: Seq<T>, pred: spec_fn(T) -> bool) -> Seq<int>
    decreases s.len(),
{
    if s.len() == 0 {
        Seq::empty()
    } else {
        let rest = indices_where(s.drop_last(), pred);
        if pred(s.last()) {
            rest.push(s.len() - 1)
        } else {
            rest
        }
    }
}

/// The indices of the pellets that burst this tick.
pub open spec fn exploding(pellets: Seq<Pellet>, max_y: int) -> Seq<int> {
    indices_where(pellets, |p: Pellet| p@.fate(max_y) == Fate::Explode)
}

/// The indices of the pellets that leave the live collection this tick:
/// those that burst and those that fell off the screen.
pub open spec fn vanishing(pellets: Seq<Pellet>, max_y: int) -> Seq<int> {
    indices_where(pellets, |p: Pellet| p@.fate(max_y) != Fate::Continue)
}

/// [`indices_where`] lists exactly the indices whose item satisfies the
/// predicate, each once, in strictly increasing order.
pub proof fn lemma_indices_where<T>(s: Seq<T>, pred: spec_fn(T) -> bool)
    ensures
        indices_where(s, pred).len() <= s.len(),
        forall|k: int|
            0 <= k < indices_where(s, pred).len() ==> {
                let i = #[trigger] indices_where(s, pred)[k];
                0 <= i < s.len() && pred(s[i])
            },
        forall|j: int, k: int|
            0 <= j < k < indices_where(s, pred).len() ==> indices_where(s, pred)[j]
                < indices_where(s, pred)[k],
        forall|i: int|
            0 <= i < s.len() && pred(#[trigger] s[i]) ==> indices_where(s, pred).contains(i),
    decreases s.len(),
{
    if s.len() > 0 {
        let head = s.drop_last();
        let rest = indices_where(head, pred);
        let all = indices_where(s, pred);
        lemma_indices_where(head, pred);
        assert forall|i: int| 0 <= i < s.len() && pred(#[trigger] s[i]) implies all.contains(
            i,
        ) by {
            if i < s.len() - 1 {
                assert(head[i] == s[i]);
                assert(rest.contains(i));
                let k = choose|k: int| 0 <= k < rest.len() && rest[k] == i;
                assert(all[k] == i);
            } else {
                assert(all[all.len() - 1] == i);
            }
        }
        assert forall|k: int| 0 <= k < all.len() implies {
            let i = #[trigger] all[k];
            0 <= i < s.len() && pred(s[i])
        } by {
            if k < rest.len() {
                assert(all[k] == rest[k]);
                assert(head[rest[k]] == s[rest[k]]);
            }
        }
        assert forall|j: int, k: int| 0 <= j < k < all.len() implies all[j] < all[k] by {
            assert(all[j] == rest[j]);
            if k < rest.len() {
                assert(all[k] == rest[k]);
            }
        }
    }
}

/// Classifies a pellet that has just moved.
pub fn classify(pellet: &Pellet, max_y: i32) -> (fate: Fate)
    ensures
        fate == pellet@.fate(max_y as int),
{
    match pellet.blast_type {
        BlastType::Normal => {
            if pellet.vel.1 >= 0 {
                return Fate::Explode;
            }
        },
        BlastType::Inert => {},
    }
    if pellet.pos.1 / SUBPIXEL > max_y {
        Fate::Vanish
    } else {
        Fate::Continue
    }
}

/// After any number of ticks an active pellet has kept its horizontal
/// velocity and gained exactly [`GRAVITY`] per tick downward, however fast
/// it already falls; an inert pellet stays inert.
pub proof fn lemma_active_velocity(pellet: PelletView, ticks: nat)
    ensures
        pellet.advanced_by(ticks).kind == pellet.kind,
        pellet.kind == BlastType::Normal ==> {
            &&& pellet.advanced_by(ticks).vel.0 == pellet.vel.0
            &&& pellet.advanced_by(ticks).vel.1 == pellet.vel.1 + ticks * GRAVITY
        },
    decreases ticks,
{
    if ticks > 0 {
        lemma_active_velocity(pellet, (ticks - 1) as nat);
    }
}

/// The tick of the zenith: an active pellet is marked to burst at a tick
/// exactly when, after that tick's move, it no longer rises. So if `ticks`
/// is the first tick at which `vel.1 + ticks * GRAVITY` is not negative, the
/// pellet bursts at that tick and at no tick before it.
pub proof fn lemma_bursts_at_zenith(pellet: PelletView, ticks: nat, max_y: int)
    requires
        pellet.kind == BlastType::Normal,
    ensures
        pellet.advanced_by(ticks).fate(max_y) == Fate::Explode <==> pellet.vel.1 + ticks * GRAVITY
            >= 0,
        pellet.vel.1 + ticks * GRAVITY < GRAVITY ==> forall|earlier: nat|
            earlier < ticks ==> #[trigger] pellet.advanced_by(earlier).fate(max_y) != Fate::Explode,
{
    lemma_active_velocity(pellet, ticks);
    assert forall|earlier: nat|
        pellet.vel.1 + ticks * GRAVITY < GRAVITY && earlier < ticks implies #[trigger] pellet.advanced_by(
        earlier,
    ).fate(max_y) != Fate::Explode by {
        lemma_active_velocity(pellet, earlier);
        assert(earlier * GRAVITY <= (ticks - 1) * GRAVITY) by (nonlinear_arith)
            requires
                earlier <= ticks - 1,
        ;
    }
}

} // verus!
