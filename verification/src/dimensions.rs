//! Dimension vectors: the exponents of the seven base dimensions of a quantity.

use vstd::prelude::*;
use vstd::std_specs::ops::{AddSpecImpl, MulSpecImpl, SubSpecImpl};
use core::ops::{Add, Mul, Sub};
use crate::superscript::{power_text, push_power};
use crate::text::string_of;

verus! {

/// The dimension of a quantity: one exponent for each of the seven base dimensions.
///
/// Exponents are small; at the limits of `i16` they wrap around, so that every operation
/// is defined on every pair of vectors.
#[derive(Debug, PartialEq, Eq, Structural, Copy, Clone, Hash)]
pub struct Dimension {
    /// The exponent of length
    pub length: i16,
    /// The exponent of time
    pub time: i16,
    /// The exponent of mass
    pub mass: i16,
    /// The exponent of current
    pub current: i16,
    /// The exponent of temperature
    pub temperature: i16,
    /// The exponent of amount of substance
    pub substance_amount: i16,
    /// The exponent of luminous intensity
    pub luminous_intensity: i16,
}

impl Dimension {
    /// The vector with the given exponents, in the order of the fields.
    pub open spec fn of_exponents(
        length: i16,
        time: i16,
        mass: i16,
        current: i16,
        temperature: i16,
        substance_amount: i16,
        luminous_intensity: i16,
    ) -> Dimension {
        Dimension {
            length,
            time,
            mass,
            current,
            temperature,
            substance_amount,
            luminous_intensity,
        }
    }

    /// The null-dimension, indicating a dimensionless quantity
    pub open spec fn nul_spec() -> Dimension {
        Dimension::of_exponents(0, 0, 0, 0, 0, 0, 0)
    }

    /// The null-dimension, indicating a dimensionless quantity
    #[verifier::when_used_as_spec(nul_spec)]
    pub fn nul() -> (r: Dimension)
        ensures
            r == Dimension::nul_spec(),
    {
        Dimension {
            length: 0,
            time: 0,
            mass: 0,
            current: 0,
            temperature: 0,
            substance_amount: 0,
            luminous_intensity: 0,
        }
    }

    /// The componentwise sum of two vectors: the dimension of a product of quantities.
    pub open spec fn plus(self, rhs: Dimension) -> Dimension {
        Dimension {
            length: self.length.wrapping_add(rhs.length),
            time: self.time.wrapping_add(rhs.time),
            mass: self.mass.wrapping_add(rhs.mass),
            current: self.current.wrapping_add(rhs.current),
            temperature: self.temperature.wrapping_add(rhs.temperature),
            substance_amount: self.substance_amount.wrapping_add(rhs.substance_amount),
            luminous_intensity: self.luminous_intensity.wrapping_add(rhs.luminous_intensity),
        }
    }

    /// The componentwise difference of two vectors: the dimension of a quotient of quantities.
    pub open spec fn minus(self, rhs: Dimension) -> Dimension {
        Dimension {
            length: self.length.wrapping_sub(rhs.length),
            time: self.time.wrapping_sub(rhs.time),
            mass: self.mass.wrapping_sub(rhs.mass),
            current: self.current.wrapping_sub(rhs.current),
            temperature: self.temperature.wrapping_sub(rhs.temperature),
            substance_amount: self.substance_amount.wrapping_sub(rhs.substance_amount),
            luminous_intensity: self.luminous_intensity.wrapping_sub(rhs.luminous_intensity),
        }
    }

    /// Every component multiplied by `factor`: the dimension of a power of a quantity.
    pub open spec fn scaled(self, factor: i16) -> Dimension {
        Dimension {
            length: self.length.wrapping_mul(factor),
            time: self.time.wrapping_mul(factor),
            mass: self.mass.wrapping_mul(factor),
            current: self.current.wrapping_mul(factor),
            temperature: self.temperature.wrapping_mul(factor),
            substance_amount: self.substance_amount.wrapping_mul(factor),
            luminous_intensity: self.luminous_intensity.wrapping_mul(factor),
        }
    }
}

/// Adding two dimensions gives the same vector in either order.
pub proof fn lemma_add_commutes(a: Dimension, b: Dimension)
    ensures
        a.plus(b) == b.plus(a),
{
}

/// Subtracting a dimension that was added gives the first vector back.
pub proof fn lemma_sub_undoes_add(a: Dimension, b: Dimension)
    ensures
        a.plus(b).minus(b) == a,
{
}

/// A dimension minus itself is the null-dimension.
pub proof fn lemma_sub_self(a: Dimension)
    ensures
        a.minus(a) == Dimension::nul(),
{
}

/// Adding the null-dimension changes nothing.
pub proof fn lemma_add_nul(a: Dimension)
    ensures
        a.plus(Dimension::nul()) == a,
        Dimension::nul().plus(a) == a,
{
}

/// Scaling a dimension by one changes nothing.
pub proof fn lemma_scale_one(a: Dimension)
    ensures
        a.scaled(1) == a,
{
}

/// Scaling a dimension by zero gives the null-dimension.
pub proof fn lemma_scale_zero(a: Dimension)
    ensures
        a.scaled(0) == Dimension::nul(),
{
}

/// Where a sum of exponents stays in the range of `i16`, adding gives that sum.
pub proof fn lemma_plus_in_range(a: Dimension, b: Dimension)
    ensures
        i16::MIN <= a.length + b.length <= i16::MAX ==> a.plus(b).length == a.length + b.length,
        i16::MIN <= a.time + b.time <= i16::MAX ==> a.plus(b).time == a.time + b.time,
        i16::MIN <= a.mass + b.mass <= i16::MAX ==> a.plus(b).mass == a.mass + b.mass,
        i16::MIN <= a.current + b.current <= i16::MAX ==> a.plus(b).current == a.current + b.current,
        i16::MIN <= a.temperature + b.temperature <= i16::MAX ==> a.plus(b).temperature == a.temperature + b.temperature,
        i16::MIN <= a.substance_amount + b.substance_amount <= i16::MAX ==> a.plus(b).substance_amount == a.substance_amount + b.substance_amount,
        i16::MIN <= a.luminous_intensity + b.luminous_intensity <= i16::MAX ==> a.plus(b).luminous_intensity == a.luminous_intensity + b.luminous_intensity,
{
}

/// Where a difference of exponents stays in the range of `i16`, subtracting gives that
/// difference.
pub proof fn lemma_minus_in_range(a: Dimension, b: Dimension)
    ensures
        i16::MIN <= a.length - b.length <= i16::MAX ==> a.minus(b).length == a.length - b.length,
        i16::MIN <= a.time - b.time <= i16::MAX ==> a.minus(b).time == a.time - b.time,
        i16::MIN <= a.mass - b.mass <= i16::MAX ==> a.minus(b).mass == a.mass - b.mass,
        i16::MIN <= a.current - b.current <= i16::MAX ==> a.minus(b).current == a.current - b.current,
        i16::MIN <= a.temperature - b.temperature <= i16::MAX ==> a.minus(b).temperature == a.temperature - b.temperature,
        i16::MIN <= a.substance_amount - b.substance_amount <= i16::MAX ==> a.minus(b).substance_amount == a.substance_amount - b.substance_amount,
        i16::MIN <= a.luminous_intensity - b.luminous_intensity <= i16::MAX ==> a.minus(b).luminous_intensity == a.luminous_intensity - b.luminous_intensity,
{
}

/// Where a product of an exponent and `n` stays in the range of `i16`, scaling gives that
/// product.
pub proof fn lemma_scaled_in_range(a: Dimension, n: i16)
    ensures
        i16::MIN <= a.length * n <= i16::MAX ==> a.scaled(n).length == a.length * n,
        i16::MIN <= a.time * n <= i16::MAX ==> a.scaled(n).time == a.time * n,
        i16::MIN <= a.mass * n <= i16::MAX ==> a.scaled(n).mass == a.mass * n,
        i16::MIN <= a.current * n <= i16::MAX ==> a.scaled(n).current == a.current * n,
        i16::MIN <= a.temperature * n <= i16::MAX ==> a.scaled(n).temperature == a.temperature * n,
        i16::MIN <= a.substance_amount * n <= i16::MAX ==> a.scaled(n).substance_amount == a.substance_amount * n,
        i16::MIN <= a.luminous_intensity * n <= i16::MAX ==> a.scaled(n).luminous_intensity == a.luminous_intensity * n,
{
}

impl AddSpecImpl for Dimension {
    open spec fn obeys_add_spec() -> bool {
        true
    }

    open spec fn add_req(self, rhs: Dimension) -> bool {
        true
    }

    open spec fn add_spec(self, rhs: Dimension) -> Dimension {
        self.plus(rhs)
    }
}

impl Add for Dimension {
    type Output = Dimension;

    fn add(self, rhs: Dimension) -> (r: Dimension) {
        Dimension {
            length: self.length.wrapping_add(rhs.length),
            time: self.time.wrapping_add(rhs.time),
            mass: self.mass.wrapping_add(rhs.mass),
            current: self.current.wrapping_add(rhs.current),
            temperature: self.temperature.wrapping_add(rhs.temperature),
            substance_amount: self.substance_amount.wrapping_add(rhs.substance_amount),
            luminous_intensity: self.luminous_intensity.wrapping_add(rhs.luminous_intensity),
        }
    }
}

impl SubSpecImpl for Dimension {
    open spec fn obeys_sub_spec() -> bool {
        true
    }

    open spec fn sub_req(self, rhs: Dimension) -> bool {
        true
    }

    open spec fn sub_spec(self, rhs: Dimension) -> Dimension {
        self.minus(rhs)
    }
}

impl Sub for Dimension {
    type Output = Dimension;

    fn sub(self, rhs: Dimension) -> (r: Dimension) {
        Dimension {
            length: self.length.wrapping_sub(rhs.length),
            time: self.time.wrapping_sub(rhs.time),
            mass: self.mass.wrapping_sub(rhs.mass),
            current: self.current.wrapping_sub(rhs.current),
            temperature: self.temperature.wrapping_sub(rhs.temperature),
            substance_amount: self.substance_amount.wrapping_sub(rhs.substance_amount),
            luminous_intensity: self.luminous_intensity.wrapping_sub(rhs.luminous_intensity),
        }
    }
}

impl MulSpecImpl<i16> for Dimension {
    open spec fn obeys_mul_spec() -> bool {
        true
    }

    open spec fn mul_req(self, factor: i16) -> bool {
        true
    }

    open spec fn mul_spec(self, factor: i16) -> Dimension {
        self.scaled(factor)
    }
}

impl Mul<i16> for Dimension {
    type Output = Dimension;

    fn mul(self, factor: i16) -> (r: Dimension) {
        Dimension {
            length: self.length.wrapping_mul(factor),
            time: self.time.wrapping_mul(factor),
            mass: self.mass.wrapping_mul(factor),
            current: self.current.wrapping_mul(factor),
            temperature: self.temperature.wrapping_mul(factor),
            substance_amount: self.substance_amount.wrapping_mul(factor),
            luminous_intensity: self.luminous_intensity.wrapping_mul(factor),
        }
    }
}

impl MulSpecImpl<Dimension> for i16 {
    open spec fn obeys_mul_spec() -> bool {
        true
    }

    open spec fn mul_req(self, dim: Dimension) -> bool {
        true
    }

    open spec fn mul_spec(self, dim: Dimension) -> Dimension {
        dim.scaled(self)
    }
}

impl Mul<Dimension> for i16 {
    type Output = Dimension;

    fn mul(self, dim: Dimension) -> (r: Dimension) {
        dim * self
    }
}

/// The quantities whose dimensions have a name.
#[derive(Debug, PartialEq, Eq, Structural, Copy, Clone, Hash)]
pub enum Quantity {
    /// Mass
    Mass,
    /// Length
    Length,
    /// Time
    Time,
    /// Current
    Current,
    /// Temperature
    Temperature,
    /// Amount of Substance
    AmountOfSubstance,
    /// Luminous Intensity
    LuminousIntensity,
    /// Area
    Area,
    /// Volume
    Volume,
    /// Density
    Density,
    /// Frequency
    Frequency,
    /// Velocity
    Velocity,
    /// Acceleration
    Acceleration,
    /// Momentum
    Momentum,
    /// Force
    Force,
    /// Action
    Action,
    /// Energy
    Energy,
    /// Molar Mass
    MolarMass,
    /// Concentration
    Concentration,
    /// Power
    Power,
    /// Voltage
    Voltage,
    /// Resistance
    Resistance,
    /// Charge
    Charge,
    /// Pressure
    Pressure,
}

impl Quantity {
    /// The dimension of the quantity.
    pub open spec fn spec_dimension(self) -> Dimension {
        match self {
            Quantity::Mass => Dimension::of_exponents(0, 0, 1, 0, 0, 0, 0),
            Quantity::Length => Dimension::of_exponents(1, 0, 0, 0, 0, 0, 0),
            Quantity::Time => Dimension::of_exponents(0, 1, 0, 0, 0, 0, 0),
            Quantity::Current => Dimension::of_exponents(0, 0, 0, 1, 0, 0, 0),
            Quantity::Temperature => Dimension::of_exponents(0, 0, 0, 0, 1, 0, 0),
            Quantity::AmountOfSubstance => Dimension::of_exponents(0, 0, 0, 0, 0, 1, 0),
            Quantity::LuminousIntensity => Dimension::of_exponents(0, 0, 0, 0, 0, 0, 1),
            Quantity::Area => Dimension::of_exponents(2, 0, 0, 0, 0, 0, 0),
            Quantity::Volume => Dimension::of_exponents(3, 0, 0, 0, 0, 0, 0),
            Quantity::Density => Dimension::of_exponents((-3) as i16, 0, 1, 0, 0, 0, 0),
            Quantity::Frequency => Dimension::of_exponents(0, (-1) as i16, 0, 0, 0, 0, 0),
            Quantity::Velocity => Dimension::of_exponents(1, (-1) as i16, 0, 0, 0, 0, 0),
            Quantity::Acceleration => Dimension::of_exponents(1, (-2) as i16, 0, 0, 0, 0, 0),
            Quantity::Momentum => Dimension::of_exponents(1, (-1) as i16, 1, 0, 0, 0, 0),
            Quantity::Force => Dimension::of_exponents(1, (-2) as i16, 1, 0, 0, 0, 0),
            Quantity::Action => Dimension::of_exponents(2, (-1) as i16, 1, 0, 0, 0, 0),
            Quantity::Energy => Dimension::of_exponents(2, (-2) as i16, 1, 0, 0, 0, 0),
            Quantity::MolarMass => Dimension::of_exponents(0, 0, 1, 0, 0, (-1) as i16, 0),
            Quantity::Concentration => Dimension::of_exponents((-3) as i16, 0, 0, 0, 0, 1, 0),
            Quantity::Power => Dimension::of_exponents(2, (-3) as i16, 1, 0, 0, 0, 0),
            Quantity::Voltage => Dimension::of_exponents(2, (-3) as i16, 1, (-1) as i16, 0, 0, 0),
            Quantity::Resistance => Dimension::of_exponents(2, (-3) as i16, 1, (-2) as i16, 0, 0, 0),
            Quantity::Charge => Dimension::of_exponents(0, 1, 0, 1, 0, 0, 0),
            Quantity::Pressure => Dimension::of_exponents((-1) as i16, (-2) as i16, 1, 0, 0, 0, 0),
        }
    }

    /// The dimension of the quantity.
    #[verifier::when_used_as_spec(spec_dimension)]
    pub fn dimension(self) -> (r: Dimension)
        ensures
            r == self.spec_dimension(),
    {
        match self {
            Quantity::Mass => Dimension {
                length: 0,
                time: 0,
                mass: 1,
                current: 0,
                temperature: 0,
                substance_amount: 0,
                luminous_intensity: 0,
            },
            Quantity::Length => Dimension {
                length: 1,
                time: 0,
                mass: 0,
                current: 0,
                temperature: 0,
                substance_amount: 0,
                luminous_intensity: 0,
            },
            Quantity::Time => Dimension {
                length: 0,
                time: 1,
                mass: 0,
                current: 0,
                temperature: 0,
                substance_amount: 0,
                luminous_intensity: 0,
            },
            Quantity::Current => Dimension {
                length: 0,
                time: 0,
                mass: 0,
                current: 1,
                temperature: 0,
                substance_amount: 0,
                luminous_intensity: 0,
            },
            Quantity::Temperature => Dimension {
                length: 0,
                time: 0,
                mass: 0,
                current: 0,
                temperature: 1,
                substance_amount: 0,
                luminous_intensity: 0,
            },
            Quantity::AmountOfSubstance => Dimension {
                length: 0,
                time: 0,
                mass: 0,
                current: 0,
                temperature: 0,
                substance_amount: 1,
                luminous_intensity: 0,
            },
            Quantity::LuminousIntensity => Dimension {
                length: 0,
                time: 0,
                mass: 0,
                current: 0,
                temperature: 0,
                substance_amount: 0,
                luminous_intensity: 1,
            },
            Quantity::Area => Dimension {
                length: 2,
                time: 0,
                mass: 0,
                current: 0,
                temperature: 0,
                substance_amount: 0,
                luminous_intensity: 0,
            },
            Quantity::Volume => Dimension {
                length: 3,
                time: 0,
                mass: 0,
                current: 0,
                temperature: 0,
                substance_amount: 0,
                luminous_intensity: 0,
            },
            Quantity::Density => Dimension {
                length: -3,
                time: 0,
                mass: 1,
                current: 0,
                temperature: 0,
                substance_amount: 0,
                luminous_intensity: 0,
            },
            Quantity::Frequency => Dimension {
                length: 0,
                time: -1,
                mass: 0,
                current: 0,
                temperature: 0,
                substance_amount: 0,
                luminous_intensity: 0,
            },
            Quantity::Velocity => Dimension {
                length: 1,
                time: -1,
                mass: 0,
                current: 0,
                temperature: 0,
                substance_amount: 0,
                luminous_intensity: 0,
            },
            Quantity::Acceleration => Dimension {
                length: 1,
                time: -2,
                mass: 0,
                current: 0,
                temperature: 0,
                substance_amount: 0,
                luminous_intensity: 0,
            },
            Quantity::Momentum => Dimension {
                length: 1,
                time: -1,
                mass: 1,
                current: 0,
                temperature: 0,
                substance_amount: 0,
                luminous_intensity: 0,
            },
            Quantity::Force => Dimension {
                length: 1,
                time: -2,
                mass: 1,
                current: 0,
                temperature: 0,
                substance_amount: 0,
                luminous_intensity: 0,
            },
            Quantity::Action => Dimension {
                length: 2,
                time: -1,
                mass: 1,
                current: 0,
                temperature: 0,
                substance_amount: 0,
                luminous_intensity: 0,
            },
            Quantity::Energy => Dimension {
                length: 2,
                time: -2,
                mass: 1,
                current: 0,
                temperature: 0,
                substance_amount: 0,
                luminous_intensity: 0,
            },
            Quantity::MolarMass => Dimension {
                length: 0,
                time: 0,
                mass: 1,
                current: 0,
                temperature: 0,
                substance_amount: -1,
                luminous_intensity: 0,
            },
            Quantity::Concentration => Dimension {
                length: -3,
                time: 0,
                mass: 0,
                current: 0,
                temperature: 0,
                substance_amount: 1,
                luminous_intensity: 0,
            },
            Quantity::Power => Dimension {
                length: 2,
                time: -3,
                mass: 1,
                current: 0,
                temperature: 0,
                substance_amount: 0,
                luminous_intensity: 0,
            },
            Quantity::Voltage => Dimension {
                length: 2,
                time: -3,
                mass: 1,
                current: -1,
                temperature: 0,
                substance_amount: 0,
                luminous_intensity: 0,
            },
            Quantity::Resistance => Dimension {
                length: 2,
                time: -3,
                mass: 1,
                current: -2,
                temperature: 0,
                substance_amount: 0,
                luminous_intensity: 0,
            },
            Quantity::Charge => Dimension {
                length: 0,
                time: 1,
                mass: 0,
                current: 1,
                temperature: 0,
                substance_amount: 0,
                luminous_intensity: 0,
            },
            Quantity::Pressure => Dimension {
                length: -1,
                time: -2,
                mass: 1,
                current: 0,
                temperature: 0,
                substance_amount: 0,
                luminous_intensity: 0,
            },
        }
    }

    /// The name of the quantity.
    pub open spec fn spec_name(self) -> Seq<char> {
        match self {
            Quantity::Mass => "Mass"@,
            Quantity::Length => "Length"@,
            Quantity::Time => "Time"@,
            Quantity::Current => "Current"@,
            Quantity::Temperature => "Temperature"@,
            Quantity::AmountOfSubstance => "Amount of Substance"@,
            Quantity::LuminousIntensity => "Luminous Intensity"@,
            Quantity::Area => "Area"@,
            Quantity::Volume => "Volume"@,
            Quantity::Density => "Density"@,
            Quantity::Frequency => "Frequency"@,
            Quantity::Velocity => "Velocity"@,
            Quantity::Acceleration => "Acceleration"@,
            Quantity::Momentum => "Momentum"@,
            Quantity::Force => "Force"@,
            Quantity::Action => "Action"@,
            Quantity::Energy => "Energy"@,
            Quantity::MolarMass => "Molar Mass"@,
            Quantity::Concentration => "Concentration"@,
            Quantity::Power => "Power"@,
            Quantity::Voltage => "Voltage"@,
            Quantity::Resistance => "Resistance"@,
            Quantity::Charge => "Charge"@,
            Quantity::Pressure => "Pressure"@,
        }
    }

    /// The name of the quantity.
    pub fn name(self) -> (r: &'static str)
        ensures
            r@ == self.spec_name(),
    {
        match self {
            Quantity::Mass => "Mass",
            Quantity::Length => "Length",
            Quantity::Time => "Time",
            Quantity::Current => "Current",
            Quantity::Temperature => "Temperature",
            Quantity::AmountOfSubstance => "Amount of Substance",
            Quantity::LuminousIntensity => "Luminous Intensity",
            Quantity::Area => "Area",
            Quantity::Volume => "Volume",
            Quantity::Density => "Density",
            Quantity::Frequency => "Frequency",
            Quantity::Velocity => "Velocity",
            Quantity::Acceleration => "Acceleration",
            Quantity::Momentum => "Momentum",
            Quantity::Force => "Force",
            Quantity::Action => "Action",
            Quantity::Energy => "Energy",
            Quantity::MolarMass => "Molar Mass",
            Quantity::Concentration => "Concentration",
            Quantity::Power => "Power",
            Quantity::Voltage => "Voltage",
            Quantity::Resistance => "Resistance",
            Quantity::Charge => "Charge",
            Quantity::Pressure => "Pressure",
        }
    }
}

impl Dimension {
    /// The quantity that has this dimension, if it is one of those with a name.
    pub open spec fn spec_quantity(self) -> Option<Quantity> {
        if self == Quantity::Mass.spec_dimension() {
            Some(Quantity::Mass)
        } else if self == Quantity::Length.spec_dimension() {
            Some(Quantity::Length)
        } else if self == Quantity::Time.spec_dimension() {
            Some(Quantity::Time)
        } else if self == Quantity::Current.spec_dimension() {
            Some(Quantity::Current)
        } else if self == Quantity::Temperature.spec_dimension() {
            Some(Quantity::Temperature)
        } else if self == Quantity::AmountOfSubstance.spec_dimension() {
            Some(Quantity::AmountOfSubstance)
        } else if self == Quantity::LuminousIntensity.spec_dimension() {
            Some(Quantity::LuminousIntensity)
        } else if self == Quantity::Area.spec_dimension() {
            Some(Quantity::Area)
        } else if self == Quantity::Volume.spec_dimension() {
            Some(Quantity::Volume)
        } else if self == Quantity::Density.spec_dimension() {
            Some(Quantity::Density)
        } else if self == Quantity::Frequency.spec_dimension() {
            Some(Quantity::Frequency)
        } else if self == Quantity::Velocity.spec_dimension() {
            Some(Quantity::Velocity)
        } else if self == Quantity::Acceleration.spec_dimension() {
            Some(Quantity::Acceleration)
        } else if self == Quantity::Momentum.spec_dimension() {
            Some(Quantity::Momentum)
        } else if self == Quantity::Force.spec_dimension() {
            Some(Quantity::Force)
        } else if self == Quantity::Action.spec_dimension() {
            Some(Quantity::Action)
        } else if self == Quantity::Energy.spec_dimension() {
            Some(Quantity::Energy)
        } else if self == Quantity::MolarMass.spec_dimension() {
            Some(Quantity::MolarMass)
        } else if self == Quantity::Concentration.spec_dimension() {
            Some(Quantity::Concentration)
        } else if self == Quantity::Power.spec_dimension() {
            Some(Quantity::Power)
        } else if self == Quantity::Voltage.spec_dimension() {
            Some(Quantity::Voltage)
        } else if self == Quantity::Resistance.spec_dimension() {
            Some(Quantity::Resistance)
        } else if self == Quantity::Charge.spec_dimension() {
            Some(Quantity::Charge)
        } else if self == Quantity::Pressure.spec_dimension() {
            Some(Quantity::Pressure)
        } else {
            None
        }
    }

    /// The quantity that has this dimension, if it is one of those with a name: no two
    /// quantities share a dimension.
    #[verifier::when_used_as_spec(spec_quantity)]
    pub fn quantity(self) -> (r: Option<Quantity>)
        ensures
            r == self.spec_quantity(),
            match r {
                Some(q) => q.dimension() == self,
                None => forall|q: Quantity| q.dimension() != self,
            },
    {
        if self == Quantity::Mass.dimension() {
            Some(Quantity::Mass)
        } else if self == Quantity::Length.dimension() {
            Some(Quantity::Length)
        } else if self == Quantity::Time.dimension() {
            Some(Quantity::Time)
        } else if self == Quantity::Current.dimension() {
            Some(Quantity::Current)
        } else if self == Quantity::Temperature.dimension() {
            Some(Quantity::Temperature)
        } else if self == Quantity::AmountOfSubstance.dimension() {
            Some(Quantity::AmountOfSubstance)
        } else if self == Quantity::LuminousIntensity.dimension() {
            Some(Quantity::LuminousIntensity)
        } else if self == Quantity::Area.dimension() {
            Some(Quantity::Area)
        } else if self == Quantity::Volume.dimension() {
            Some(Quantity::Volume)
        } else if self == Quantity::Density.dimension() {
            Some(Quantity::Density)
        } else if self == Quantity::Frequency.dimension() {
            Some(Quantity::Frequency)
        } else if self == Quantity::Velocity.dimension() {
            Some(Quantity::Velocity)
        } else if self == Quantity::Acceleration.dimension() {
            Some(Quantity::Acceleration)
        } else if self == Quantity::Momentum.dimension() {
            Some(Quantity::Momentum)
        } else if self == Quantity::Force.dimension() {
            Some(Quantity::Force)
        } else if self == Quantity::Action.dimension() {
            Some(Quantity::Action)
        } else if self == Quantity::Energy.dimension() {
            Some(Quantity::Energy)
        } else if self == Quantity::MolarMass.dimension() {
            Some(Quantity::MolarMass)
        } else if self == Quantity::Concentration.dimension() {
            Some(Quantity::Concentration)
        } else if self == Quantity::Power.dimension() {
            Some(Quantity::Power)
        } else if self == Quantity::Voltage.dimension() {
            Some(Quantity::Voltage)
        } else if self == Quantity::Resistance.dimension() {
            Some(Quantity::Resistance)
        } else if self == Quantity::Charge.dimension() {
            Some(Quantity::Charge)
        } else if self == Quantity::Pressure.dimension() {
            Some(Quantity::Pressure)
        } else {
            None
        }
    }
}

impl Dimension {
    /// The short form of the dimension: the name of the quantity that has it, or
    /// `Dimensionless` where no quantity with a name has it.
    pub open spec fn spec_name(self) -> Seq<char> {
        match self.spec_quantity() {
            Some(q) => q.spec_name(),
            None => "Dimensionless"@,
        }
    }

    /// The long form of the dimension: each base dimension whose exponent is not zero, in
    /// brackets, with the exponent behind it in superscript glyphs.
    pub open spec fn spec_to_string(self) -> Seq<char> {
        power_text("[mass]"@, self.mass) + power_text("[length]"@, self.length) + power_text(
            "[time]"@,
            self.time,
        ) + power_text("[current]"@, self.current) + power_text(
            "[temperature]"@,
            self.temperature,
        ) + power_text("[substance amount]"@, self.substance_amount) + power_text(
            "[luminous intensity]"@,
            self.luminous_intensity,
        )
    }

    /// The short form of the dimension, such as `Force`.
    pub fn name(&self) -> (r: &'static str)
        ensures
            r@ == self.spec_name(),
    {
        match self.quantity() {
            Some(q) => q.name(),
            None => "Dimensionless",
        }
    }

    /// The long form of the dimension, such as `[mass]¹[length]¹[time]⁻²`.
    pub fn to_string(&self) -> (r: String)
        ensures
            r@ == self.spec_to_string(),
    {
        let mut out: Vec<char> = Vec::new();
        assert(out@ =~= Seq::empty());
        push_power(&mut out, "[mass]", self.mass);
        push_power(&mut out, "[length]", self.length);
        push_power(&mut out, "[time]", self.time);
        push_power(&mut out, "[current]", self.current);
        push_power(&mut out, "[temperature]", self.temperature);
        push_power(&mut out, "[substance amount]", self.substance_amount);
        push_power(&mut out, "[luminous intensity]", self.luminous_intensity);
        assert(out@ =~= self.spec_to_string());
        string_of(&out)
    }
}

} // verus!
