//! The value model for what is stored and moved: substances, mixtures and
//! temperatures. Nothing here changes during a tick; these types describe
//! the contents of tanks and atmospheres.

use vstd::prelude::*;
use crate::SCALE;

verus! {

/// Physical phase of a substance.
#[derive(Clone, Copy, Debug, PartialEq, Eq, Structural)]
pub enum Phase {
    Gas,
    Liquid,
    Solid,
    Plasma,
}

/// The closed catalog of substances. No dynamic registration exists: every
/// substance the simulation can hold is one of these variants.
#[derive(Clone, Copy, Debug, PartialEq, Eq, Structural)]
pub enum Substance {
    Oxygen,
    Nitrogen,
    Hydrogen,
}

impl Substance {
    /// Density in fixed-point units (`SCALE` stands for 1.0).
    pub open spec fn spec_density(self) -> u64 {
        match self {
            Substance::Oxygen => 142_900,
            Substance::Nitrogen => 125_060,
            Substance::Hydrogen => 8_988,
        }
    }

    /// Density of this substance; always strictly positive.
    pub fn density(&self) -> (d: u64)
        ensures
            d == self.spec_density(),
            d > 0,
    {
        match self {
            Substance::Oxygen => 142_900,
            Substance::Nitrogen => 125_060,
            Substance::Hydrogen => 8_988,
        }
    }

    pub open spec fn spec_phase(self) -> Phase {
        Phase::Gas
    }

    /// Every substance in the built-in catalog is a gas.
    pub fn phase(&self) -> (p: Phase)
        ensures
            p == self.spec_phase(),
    {
        Phase::Gas
    }

    pub open spec fn spec_name(self) -> Seq<char> {
        match self {
            Substance::Oxygen => "Oxygen"@,
            Substance::Nitrogen => "Nitrogen"@,
            Substance::Hydrogen => "Hydrogen"@,
        }
    }

    /// Unique display name of the substance.
    pub fn name(&self) -> (n: &'static str)
        ensures
            n@ == self.spec_name(),
    {
        match self {
            Substance::Oxygen => "Oxygen",
            Substance::Nitrogen => "Nitrogen",
            Substance::Hydrogen => "Hydrogen",
        }
    }
}

/// An ordered collection of (substance, fraction) pairs describing the
/// composition of a volume. Fractions are fixed-point (`SCALE` is 100%)
/// and are stored as given: nothing forces them to sum to 100%.
#[derive(Clone, Debug)]
pub struct Mixture {
    pub contents: Vec<(Substance, u64)>,
}

impl Mixture {
    /// Mathematical sum of the fraction fields of a composition.
    pub open spec fn sum_fractions(s: Seq<(Substance, u64)>) -> int
        decreases s.len(),
    {
        if s.len() == 0 {
            0
        } else {
            Self::sum_fractions(s.drop_last()) + s.last().1
        }
    }

    /// A mixture is normalized when its fractions sum to exactly 100%.
    pub open spec fn spec_is_normalized(self) -> bool {
        Self::sum_fractions(self.contents@) == SCALE
    }

    /// Total of all fraction fields.
    pub fn fraction_total(&self) -> (t: u64)
        requires
            Self::sum_fractions(self.contents@) <= u64::MAX,
        ensures
            t == Self::sum_fractions(self.contents@),
    {
        let mut total: u64 = 0;
        let mut i: usize = 0;
        while i < self.contents.len()
            invariant
                0 <= i <= self.contents@.len(),
                total == Self::sum_fractions(self.contents@.take(i as int)),
                Self::sum_fractions(self.contents@) <= u64::MAX,
            decreases self.contents@.len() - i,
        {
            proof {
                lemma_sum_fractions_prefix(self.contents@, i + 1);
                assert(self.contents@.take(i + 1).drop_last() =~= self.contents@.take(
                    i as int,
                ));
                assert(self.contents@.take(i + 1).last() == self.contents@[i as int]);
            }
            total = total + self.contents[i].1;
            i = i + 1;
        }
        proof {
            assert(self.contents@.take(self.contents@.len() as int) =~= self.contents@);
        }
        total
    }

    /// Reports whether the fractions sum to exactly 100%.
    pub fn is_normalized(&self) -> (b: bool)
        requires
            Self::sum_fractions(self.contents@) <= u64::MAX,
        ensures
            b == self.spec_is_normalized(),
    {
        self.fraction_total() == SCALE
    }
}

/// Every fraction field is non-negative, so a prefix of a composition never
/// sums to more than the whole, and no sum is negative.
pub proof fn lemma_sum_fractions_prefix(s: Seq<(Substance, u64)>, i: int)
    requires
        0 <= i <= s.len(),
    ensures
        0 <= Mixture::sum_fractions(s.take(i)),
        Mixture::sum_fractions(s.take(i)) <= Mixture::sum_fractions(s),
    decreases s.len(),
{
    if s.len() == 0 {
        assert(s.take(i) =~= s);
    } else if i == s.len() {
        assert(s.take(i) =~= s);
        lemma_sum_fractions_prefix(s.drop_last(), s.len() - 1);
        assert(s.drop_last().take(s.len() - 1) =~= s.drop_last());
    } else {
        assert(s.take(i) =~= s.drop_last().take(i));
        lemma_sum_fractions_prefix(s.drop_last(), i);
    }
}

impl Default for Mixture {
    /// Standard air: 21% oxygen and 79% nitrogen, in fixed-point fractions.
    fn default() -> (m: Mixture)
        ensures
            m.contents@ =~= seq![
                (Substance::Oxygen, 21_000u64),
                (Substance::Nitrogen, 79_000u64),
            ],
            m.spec_is_normalized(),
    {
        let mut contents: Vec<(Substance, u64)> = Vec::new();
        contents.push((Substance::Oxygen, 21_000));
        contents.push((Substance::Nitrogen, 79_000));
        proof {
            let s2 = contents@;
            let s1 = s2.drop_last();
            let s0 = s1.drop_last();
            assert(s1 =~= seq![(Substance::Oxygen, 21_000u64)]);
            assert(s0 =~= Seq::<(Substance, u64)>::empty());
            assert(Mixture::sum_fractions(s0) == 0);
            assert(Mixture::sum_fractions(s1) == 21_000);
            assert(Mixture::sum_fractions(s2) == 100_000);
        }
        Mixture { contents }
    }
}

/// Difference between a Kelvin reading and a Celsius reading of the same
/// temperature, in fixed point (273.15 degrees).
pub const KELVIN_TO_CELSIUS: i64 = 27_315_000;

/// Temperature stored as a fixed-point Kelvin value.
///
/// The conversion pair below is a deliberate, exact affine convention:
/// `as_celsius` adds the offset that `from_celsius` subtracts, so the two
/// always round-trip exactly, whatever the absolute semantics of the stored
/// number.
#[derive(Clone, Copy, Debug, PartialEq, Eq, Structural)]
pub struct Temperature(pub i64);

/// The Celsius reading of a stored Kelvin value, under this model's
/// convention: the stored value plus the offset.
pub open spec fn spec_kelvin_to_celsius(k: int) -> int {
    k + KELVIN_TO_CELSIUS as int
}

/// The stored Kelvin value for a Celsius reading: the reading minus the
/// offset.
pub open spec fn spec_celsius_to_kelvin(c: int) -> int {
    c - KELVIN_TO_CELSIUS as int
}

impl Temperature {
    /// The zero point of the Kelvin representation.
    pub fn absolute_zero() -> (t: Temperature)
        ensures
            t.0 == 0,
    {
        Temperature(0)
    }

    /// Convert the stored temperature to a Celsius reading.
    pub fn as_celsius(&self) -> (c: i64)
        requires
            self.0 + KELVIN_TO_CELSIUS <= i64::MAX,
        ensures
            c == spec_kelvin_to_celsius(self.0 as int),
    {
        self.0 + KELVIN_TO_CELSIUS
    }

    /// Build a temperature from a Celsius reading.
    pub fn from_celsius(value: i64) -> (t: Temperature)
        requires
            value - KELVIN_TO_CELSIUS >= i64::MIN,
        ensures
            t.0 == spec_celsius_to_kelvin(value as int),
    {
        Temperature(value - KELVIN_TO_CELSIUS)
    }
}

/// Converting a Celsius reading to a stored temperature and back returns the
/// reading unchanged, for every reading: the conversion pair is an exact
/// affine inverse.
pub proof fn lemma_temperature_round_trip(c: int)
    ensures
        spec_kelvin_to_celsius(spec_celsius_to_kelvin(c)) == c,
{
}

} // verus!
