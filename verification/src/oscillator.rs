use vstd::prelude::*;

verus! {

/// Elapsed time is counted in whole subunits, this many to one time unit.
pub const SUBUNITS_PER_UNIT: u64 = 1_000_000;

/// How many periods of the clock of `level` make one time unit. The period is
/// the reciprocal, `1 / (level + 3)` of a time unit.
pub open spec fn periods_per_unit(level: nat) -> nat {
    level + 3
}

/// The clock of one block. It fires each time another period has gone by, at
/// most once for each span of time that it is told of.
///
/// `rate` is the number of periods in a time unit. `phase` is the time since
/// the clock last fired, in subunits and multiplied by `rate`: a period has
/// gone by when it reaches `SUBUNITS_PER_UNIT`. Held so, the clock compares
/// whole numbers only and still keeps the period `1 / rate` exactly.
#[derive(Clone, Copy, Debug, PartialEq, Eq, Structural)]
pub struct Oscillator {
    pub rate: u64,
    pub phase: u64,
}

impl Oscillator {
    /// The clock runs at the rate of `level`, and less than a period has gone
    /// by since it last fired.
    pub open spec fn valid_at(self, level: nat) -> bool {
        self.rate == periods_per_unit(level) && self.phase < SUBUNITS_PER_UNIT
    }

    /// The clock that is attached to a block offered at `level`: no time has
    /// gone by yet.
    pub open spec fn fresh(level: nat) -> Oscillator {
        Oscillator { rate: periods_per_unit(level) as u64, phase: 0 }
    }

    /// The time since the clock last fired, once `elapsed` more subunits have
    /// gone by, multiplied by the rate.
    pub open spec fn due(self, elapsed: u32) -> int {
        self.phase + elapsed * self.rate
    }

    /// Whether a period is complete once `elapsed` more subunits have gone by:
    /// whether the time since the clock last fired has reached `1 / rate` of a
    /// time unit.
    pub open spec fn fires(self, elapsed: u32) -> bool {
        self.due(elapsed) >= SUBUNITS_PER_UNIT
    }

    /// The clock once `elapsed` more subunits have gone by. Where it fires,
    /// what has gone by beyond a whole number of periods is carried over.
    pub open spec fn after(self, elapsed: u32) -> Oscillator {
        Oscillator { phase: (self.due(elapsed) % (SUBUNITS_PER_UNIT as int)) as u64, ..self }
    }

    /// Creates the clock of a block offered at `level`.
    pub fn start(level: u32) -> (clock: Oscillator)
        ensures
            clock == Oscillator::fresh(level as nat),
            clock.valid_at(level as nat),
    {
        Oscillator { rate: level as u64 + 3, phase: 0 }
    }

    /// Tells the clock that `elapsed` subunits of time have gone by, and
    /// returns whether it fires.
    pub fn tick(&mut self, elapsed: u32) -> (fired: bool)
        ensures
            fired == old(self).fires(elapsed),
            *final(self) == old(self).after(elapsed),
            final(self).phase < SUBUNITS_PER_UNIT,
    {
        assert(elapsed * self.rate <= 0xffff_ffff * 0xffff_ffff_ffff_ffff) by (nonlinear_arith)
            requires
                elapsed <= 0xffff_ffff,
                self.rate <= 0xffff_ffff_ffff_ffff,
        ;
        let due: u128 = self.phase as u128 + (elapsed as u128) * (self.rate as u128);
        let fired: bool = due >= SUBUNITS_PER_UNIT as u128;
        self.phase = (due % (SUBUNITS_PER_UNIT as u128)) as u64;
        fired
    }
}

} // verus!
