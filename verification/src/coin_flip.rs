use vstd::prelude::*;

verus! {

/// A draw is held as a count of millionths of one, so a draw from the
/// half-open unit interval is a count strictly below this scale.
pub const DRAW_SCALE: u64 = 1000000;

/// Draws strictly below one half of the unit interval land heads.
pub const HALF_DRAW: u64 = DRAW_SCALE / 2;

/// A uniform draw from the half-open unit interval, held in fixed point
/// as a count of millionths of one.
#[derive(Clone, Copy, Debug, PartialEq, Eq)]
pub struct Draw {
    micros: u64,
}

impl Draw {
    /// Every draw lies in the unit interval: strictly below one.
    #[verifier::type_invariant]
    spec fn in_unit_interval(self) -> bool {
        self.micros < DRAW_SCALE
    }

    /// The draw as a count of millionths of one.
    pub closed spec fn micros_spec(self) -> u64 {
        self.micros
    }

    /// The draw of `micros` millionths of one.
    pub fn new(micros: u64) -> (d: Draw)
        requires
            micros < DRAW_SCALE,
        ensures
            d.micros_spec() == micros,
    {
        Draw { micros }
    }

    /// The draw as a count of millionths of one.
    pub fn micros(&self) -> (m: u64)
        ensures
            m == self.micros_spec(),
            m < DRAW_SCALE,
    {
        proof {
            use_type_invariant(&*self);
        }
        self.micros
    }
}

/// The outcome of a coin flip.
#[derive(Clone, Copy, Debug, PartialEq, Eq, Structural)]
pub enum CoinFlip {
    Heads,
    Tails,
}

/// A source of uniform draws from the unit interval. A source is a
/// deterministic state machine: the draw it yields next and the state it
/// advances to are functions of its current state.
pub trait Rng: Clone {
    /// The draw the source will yield next.
    spec fn next_draw_spec(&self) -> Draw;

    /// The state the source advances to when it yields a draw.
    spec fn next_state_spec(&self) -> Self;

    /// Yield the next draw and advance the source.
    fn next_draw(&mut self) -> (d: Draw)
        ensures
            d == old(self).next_draw_spec(),
            *final(self) == old(self).next_state_spec(),
    ;
}

/// Flip a coin: take one draw from the source; a draw strictly below one
/// half lands heads, and any other draw lands tails.
pub fn flip_coin<R: Rng>(rng: &mut R) -> (c: CoinFlip)
    ensures
        old(rng).next_draw_spec().micros_spec() < HALF_DRAW ==> c == CoinFlip::Heads,
        old(rng).next_draw_spec().micros_spec() >= HALF_DRAW ==> c == CoinFlip::Tails,
        *final(rng) == old(rng).next_state_spec(),
{
    let d = rng.next_draw();
    if d.micros() < HALF_DRAW {
        CoinFlip::Heads
    } else {
        CoinFlip::Tails
    }
}

/// A source that yields one fixed draw on every call and counts how often
/// it was asked, the count saturating at its largest value.
#[derive(Clone, Copy, Debug)]
pub struct CountingRng {
    /// The draw the source yields on every call.
    pub draw: Draw,
    /// How many draws the source has yielded so far.
    pub calls: u64,
}

impl CountingRng {
    /// A fresh source that will always yield `draw` and has yielded none yet.
    pub fn new(draw: Draw) -> (r: CountingRng)
        ensures
            r.draw == draw,
            r.calls == 0,
    {
        CountingRng { draw, calls: 0 }
    }

    /// Whether the source has yielded at least one draw.
    pub fn called(&self) -> (b: bool)
        ensures
            b == (self.calls > 0),
    {
        self.calls > 0
    }

    /// How many draws the source has yielded.
    pub fn num_calls(&self) -> (n: u64)
        ensures
            n == self.calls,
    {
        self.calls
    }
}

impl Rng for CountingRng {
    open spec fn next_draw_spec(&self) -> Draw {
        self.draw
    }

    open spec fn next_state_spec(&self) -> CountingRng {
        CountingRng {
            draw: self.draw,
            calls: if self.calls == u64::MAX {
                u64::MAX
            } else {
                (self.calls + 1) as u64
            },
        }
    }

    fn next_draw(&mut self) -> (d: Draw) {
        if self.calls < u64::MAX {
            self.calls = self.calls + 1;
        }
        self.draw
    }
}

} // verus!
