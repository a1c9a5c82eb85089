use unit_maths::{Dimension, Quantity};

fn dim(length: i16, time: i16, mass: i16, current: i16, temperature: i16, substance_amount: i16, luminous_intensity: i16) -> Dimension {
    Dimension { length, time, mass, current, temperature, substance_amount, luminous_intensity }
}

#[test]
fn addition_commutes_and_subtraction_undoes_it() {
    let a = dim(1, -2, 1, 0, 0, 0, 0);
    let b = dim(3, 0, -1, 2, 0, 1, -4);
    assert_eq!(a + b, b + a);
    assert_eq!(a + b, dim(4, -2, 0, 2, 0, 1, -4));
    assert_eq!((a + b) - b, a);
    assert_eq!(a - b, dim(-2, -2, 2, -2, 0, -1, 4));
}

#[test]
fn scaling_by_one_and_by_zero() {
    let a = dim(1, -2, 1, 0, 5, 0, -7);
    assert_eq!(a * 1, a);
    assert_eq!(a * 0, Dimension::nul());
    assert_eq!(a * 3, dim(3, -6, 3, 0, 15, 0, -21));
    assert_eq!(3 * a, a * 3);
    assert_eq!(a * -1, dim(-1, 2, -1, 0, -5, 0, 7));
}

#[test]
fn exponents_wrap_at_the_limits() {
    let a = dim(i16::MAX, i16::MIN, 0, 0, 0, 0, 0);
    let one = dim(1, 1, 0, 0, 0, 0, 0);
    assert_eq!(a + one, dim(i16::MIN, i16::MIN + 1, 0, 0, 0, 0, 0));
    assert_eq!((a + one) - one, a);
    assert_eq!(a - one, dim(i16::MAX - 1, i16::MAX, 0, 0, 0, 0, 0));
    assert_eq!(a * 2, dim(-2, 0, 0, 0, 0, 0, 0));
}

#[test]
fn named_dimensions() {
    assert_eq!(Quantity::Force.dimension(), dim(1, -2, 1, 0, 0, 0, 0));
    assert_eq!(Quantity::Force.name(), "Force");
    assert_eq!(dim(1, -2, 1, 0, 0, 0, 0).quantity(), Some(Quantity::Force));
    assert_eq!(dim(1, -2, 1, 0, 0, 0, 0).name(), "Force");
    assert_eq!(Quantity::Concentration.dimension().name(), "Concentration");
    assert_eq!(Quantity::AmountOfSubstance.dimension().name(), "Amount of Substance");
    assert_eq!(Quantity::Pressure.dimension(), Quantity::Force.dimension() - Quantity::Area.dimension());
    assert_eq!(Quantity::Energy.dimension(), Quantity::Force.dimension() + Quantity::Length.dimension());
    assert_eq!(Quantity::Volume.dimension(), Quantity::Length.dimension() * 3);
    assert_eq!(Dimension::nul().name(), "Dimensionless");
    assert_eq!(Dimension::nul().quantity(), None);
    assert_eq!(dim(5, 0, 0, 0, 0, 0, 0).name(), "Dimensionless");
}

#[test]
fn long_form_lists_the_nonzero_exponents() {
    assert_eq!(Quantity::Force.dimension().to_string(), "[mass]¹[length]¹[time]⁻²");
    assert_eq!(Dimension::nul().to_string(), "");
    assert_eq!(
        dim(-12, 3, 1, 2, -1, 10, 7).to_string(),
        "[mass]¹[length]⁻¹²[time]³[current]²[temperature]⁻¹[substance amount]¹⁰[luminous intensity]⁷"
    );
    assert_eq!(dim(i16::MIN, i16::MAX, 0, 0, 0, 0, 0).to_string(), "[length]⁻³²⁷⁶⁸[time]³²⁷⁶⁷");
}
