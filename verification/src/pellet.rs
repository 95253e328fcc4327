//! A pellet: one moving point of the display, and the two ways a pellet moves.
//!
//! Positions and velocities are fixed-point integers, [`SUBPIXEL`] units to a
//! character cell. A pellet's mathematical model, [`PelletView`], holds the
//! same quantities as unbounded integers, so that the motion rules can be
//! stated without regard to machine width.

use vstd::prelude::*;

verus! {

/// Length of one tick of the display, in milliseconds.
pub const TIME_INC: u64 = 20;

/// Fixed-point units per character cell.
pub const SUBPIXEL: i32 = 1000;

/// Downward acceleration of an active pellet, per tick.
pub const GRAVITY: i32 = 100;

/// Sideways bias added to an inert pellet's velocity, per tick.
pub const INERT_WIND: i32 = 50;

/// Downward bias added to an inert pellet's velocity, per tick.
pub const INERT_GRAV: i32 = 20;

/// Percentage of an inert pellet's biased velocity that survives a tick.
pub const INERT_AIR_FRICTION: i32 = 80;

/// How a pellet moves.
#[derive(Clone, Copy, Debug, PartialEq, Eq, Structural)]
pub enum BlastType {
    /// A spark thrown off by a blast: it slows quickly and hangs in the air.
    Inert,
    /// A rising firework: it follows a parabola and bursts at its zenith.
    Normal,
}

/// A single moving point.
#[derive(Clone, Copy, Debug, PartialEq, Eq)]
pub struct Pellet {
    /// Position `(x, y)`; `y` grows downward.
    pub pos: (i32, i32),
    /// Velocity `(x, y)` per tick.
    pub vel: (i32, i32),
    pub blast_type: BlastType,
}

/// A request to draw one glyph at a character cell.
#[derive(Clone, Copy, Debug, PartialEq, Eq)]
pub struct Draw {
    pub row: i32,
    pub col: i32,
    pub glyph: char,
}

/// The mathematical model of a [`Pellet`].
pub struct PelletView {
    pub pos: (int, int),
    pub vel: (int, int),
    pub kind: BlastType,
}

/// The quotient of `a` by a positive `b`, rounded toward zero.
pub open spec fn toward_zero(a: int, b: int) -> int {
    if a >= 0 {
        a / b
    } else {
        -((-a) / b)
    }
}

/// Whether `x` is a value of `i32`.
pub open spec fn fits_i32(x: int) -> bool {
    i32::MIN <= x <= i32::MAX
}

/// What air friction leaves of a biased velocity component.
pub open spec fn damped(biased: int) -> int {
    toward_zero(biased * INERT_AIR_FRICTION, 100)
}

impl PelletView {
    /// The pellet one tick later.
    pub open spec fn advanced(self) -> PelletView {
        let pos = (self.pos.0 + self.vel.0, self.pos.1 + self.vel.1);
        match self.kind {
            BlastType::Inert => PelletView {
                pos,
                vel: (damped(self.vel.0 + INERT_WIND), damped(self.vel.1 + INERT_GRAV)),
                kind: self.kind,
            },
            BlastType::Normal => PelletView {
                pos,
                vel: (self.vel.0, self.vel.1 + GRAVITY),
                kind: self.kind,
            },
        }
    }

    /// The pellet `ticks` ticks later.
    pub open spec fn advanced_by(self, ticks: nat) -> PelletView
        decreases ticks,
    {
        if ticks == 0 {
            self
        } else {
            self.advanced_by((ticks - 1) as nat).advanced()
        }
    }

    /// Whether one tick can be computed in 32-bit arithmetic: the new
    /// position, and every intermediate value of the new velocity, is a
    /// value of `i32`.
    pub open spec fn can_advance(self) -> bool {
        &&& fits_i32(self.pos.0 + self.vel.0)
        &&& fits_i32(self.pos.1 + self.vel.1)
        &&& match self.kind {
            BlastType::Inert => {
                &&& fits_i32((self.vel.0 + INERT_WIND) * INERT_AIR_FRICTION)
                &&& fits_i32((self.vel.1 + INERT_GRAV) * INERT_AIR_FRICTION)
            },
            BlastType::Normal => fits_i32(self.vel.1 + GRAVITY),
        }
    }

    /// The character cell `(row, column)` that the pellet occupies.
    pub open spec fn cell(self) -> (int, int) {
        (toward_zero(self.pos.1, SUBPIXEL as int), toward_zero(self.pos.0, SUBPIXEL as int))
    }

    /// The glyph that stands for the pellet on screen.
    pub open spec fn glyph(self) -> char {
        match self.kind {
            BlastType::Inert => '.',
            BlastType::Normal => 'o',
        }
    }
}

/// An inert pellet does not speed up beyond its terminal drift: a velocity
/// component within a bound stays within it, as long as the bound is at
/// least the drift that the bias and the friction settle at, 200 sideways
/// and 80 downward.
pub proof fn lemma_inert_speed_bounded(pellet: PelletView, bound: int)
    requires
        pellet.kind == BlastType::Inert,
    ensures
        bound >= 200 && -bound <= pellet.vel.0 <= bound ==> -bound <= pellet.advanced().vel.0
            <= bound,
        bound >= 80 && -bound <= pellet.vel.1 <= bound ==> -bound <= pellet.advanced().vel.1
            <= bound,
{
}

impl View for Pellet {
    type V = PelletView;

    open spec fn view(&self) -> PelletView {
        PelletView {
            pos: (self.pos.0 as int, self.pos.1 as int),
            vel: (self.vel.0 as int, self.vel.1 as int),
            kind: self.blast_type,
        }
    }
}

impl Draw {
    /// Whether this request draws `pellet`: its glyph, at its cell.
    pub open spec fn shows(self, pellet: PelletView) -> bool {
        &&& self.row == pellet.cell().0
        &&& self.col == pellet.cell().1
        &&& self.glyph == pellet.glyph()
    }
}

impl Pellet {
    /// Moves the pellet by one tick, by the rule of its kind.
    ///
    /// An active pellet keeps its horizontal velocity and gains exactly
    /// [`GRAVITY`] downward, with no terminal speed. An inert pellet has each
    /// velocity component biased (by [`INERT_WIND`], by [`INERT_GRAV`]), then
    /// scaled by [`INERT_AIR_FRICTION`] percent and rounded toward zero.
    /// Nothing but the pellet's own state enters into the move: equal
    /// pellets move alike, to the last bit.
    pub fn advance(&mut self)
        requires
            old(self)@.can_advance(),
        ensures
            final(self)@ == old(self)@.advanced(),
            final(self).blast_type == old(self).blast_type,
            final(self).pos.0 == old(self).pos.0 + old(self).vel.0,
            final(self).pos.1 == old(self).pos.1 + old(self).vel.1,
            old(self).blast_type == BlastType::Normal ==> {
                &&& final(self).vel.0 == old(self).vel.0
                &&& final(self).vel.1 == old(self).vel.1 + GRAVITY
            },
            old(self).blast_type == BlastType::Inert ==> {
                &&& final(self).vel.0 == toward_zero(
                    (old(self).vel.0 + INERT_WIND) * INERT_AIR_FRICTION,
                    100,
                )
                &&& final(self).vel.1 == toward_zero(
                    (old(self).vel.1 + INERT_GRAV) * INERT_AIR_FRICTION,
                    100,
                )
            },
    {
        match self.blast_type {
            BlastType::Inert => {
                self.pos = (self.pos.0 + self.vel.0, self.pos.1 + self.vel.1);
                self.vel = (
                    (self.vel.0 + INERT_WIND) * INERT_AIR_FRICTION / 100,
                    (self.vel.1 + INERT_GRAV) * INERT_AIR_FRICTION / 100,
                );
            },
            BlastType::Normal => {
                self.pos = (self.pos.0 + self.vel.0, self.pos.1 + self.vel.1);
                self.vel = (self.vel.0, self.vel.1 + GRAVITY);
            },
        }
    }

    /// Whether [`Pellet::advance`] may be called: decides
    /// [`PelletView::can_advance`].
    pub fn can_advance(&self) -> (ok: bool)
        ensures
            ok == self@.can_advance(),
    {
        let x: i64 = self.pos.0 as i64 + self.vel.0 as i64;
        let y: i64 = self.pos.1 as i64 + self.vel.1 as i64;
        if !(in_i32(x) && in_i32(y)) {
            return false;
        }
        match self.blast_type {
            BlastType::Inert => {
                let friction: i64 = INERT_AIR_FRICTION as i64;
                assert(friction == 80);
                let vx: i64 = (self.vel.0 as i64 + INERT_WIND as i64) * friction;
                let vy: i64 = (self.vel.1 as i64 + INERT_GRAV as i64) * friction;
                in_i32(vx) && in_i32(vy)
            },
            BlastType::Normal => in_i32(self.vel.1 as i64 + GRAVITY as i64),
        }
    }

    /// The request that draws the pellet where it now is.
    pub fn draw(&self) -> (request: Draw)
        ensures
            request.shows(self@),
    {
        Draw {
            row: self.pos.1 / SUBPIXEL,
            col: self.pos.0 / SUBPIXEL,
            glyph: match self.blast_type {
                BlastType::Inert => '.',
                BlastType::Normal => 'o',
            },
        }
    }
}

/// Whether a 64-bit value is a value of `i32`.
fn in_i32(x: i64) -> (ok: bool)
    ensures
        ok == fits_i32(x as int),
{
    -2147483648 <= x && x <= 2147483647
}

} // verus!
