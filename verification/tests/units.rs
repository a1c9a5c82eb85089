use std::cmp::Ordering;
use unit_maths::read::{parse_exponent, parse_unit_expression, parse_value_expression};
use unit_maths::{
    unit_from_str, value_from_str, BaseUnits, Dimension, Number, Quantity, Unit, UnitError,
    UnitSystem, Value,
};

#[derive(Debug, Clone, Copy, PartialEq)]
struct Real(f64);

impl Number for Real {
    fn one() -> Self {
        Real(1.0)
    }

    fn from_i32(n: i32) -> Self {
        Real(f64::from(n))
    }

    fn plus(self, rhs: Self) -> Self {
        Real(self.0 + rhs.0)
    }

    fn minus(self, rhs: Self) -> Self {
        Real(self.0 - rhs.0)
    }

    fn times(self, rhs: Self) -> Self {
        Real(self.0 * rhs.0)
    }

    fn over(self, rhs: Self) -> Self {
        Real(self.0 / rhs.0)
    }

    fn powi(self, n: i32) -> Self {
        Real(self.0.powi(n))
    }

    fn abs(self) -> Self {
        Real(self.0.abs())
    }

    fn less(self, rhs: Self) -> bool {
        self.0 < rhs.0
    }

    fn same(self, rhs: Self) -> bool {
        self.0 == rhs.0
    }

    fn parse(text: &str) -> Option<Self> {
        text.parse().ok().map(Real)
    }

    fn render(self) -> String {
        format!("{}", self.0)
    }
}

fn si() -> UnitSystem<Real> {
    UnitSystem::si()
}

fn dim(length: i16, time: i16, mass: i16, current: i16, temperature: i16, substance_amount: i16, luminous_intensity: i16) -> Dimension {
    Dimension { length, time, mass, current, temperature, substance_amount, luminous_intensity }
}

fn close(a: f64, b: f64) -> bool {
    (a - b).abs() <= 1e-12 * a.abs().max(b.abs()).max(1.0)
}

#[test]
fn new_unit_has_factor_one() {
    let u: Unit<Real> = Unit::new(Dimension::nul());
    assert_eq!(u.factor, Real(1.0));
    assert_eq!(u.dimension, Dimension::nul());
}

#[test]
fn si_holds_its_units() {
    let si = si();
    assert_eq!(si.len(), 24);
    assert_eq!(si.get_unit("m"), Some(Unit { dimension: Quantity::Length.dimension(), factor: Real(1.0) }));
    assert_eq!(si.get_unit("min"), Some(Unit { dimension: Quantity::Time.dimension(), factor: Real(60.0) }));
    assert_eq!(si.get_unit("mL"), Some(Unit { dimension: Quantity::Volume.dimension(), factor: Real(1e-6) }));
    assert_eq!(si.get_unit("g"), Some(Unit { dimension: Quantity::Mass.dimension(), factor: Real(1e-3) }));
    assert_eq!(si.get_unit("M"), Some(Unit { dimension: Quantity::Concentration.dimension(), factor: Real(1e3) }));
    assert_eq!(si.get_unit("Ω"), Some(Unit { dimension: Quantity::Resistance.dimension(), factor: Real(1.0) }));
    assert_eq!(si.get_unit("furlong"), None);
    assert_eq!(si.index("kN"), Unit { dimension: Quantity::Force.dimension(), factor: Real(1000.0) });
}

#[test]
fn add_unit_overwrites_and_returns_previous() {
    let mut si = si();
    let mile = Unit::with_factor(Quantity::Length.dimension(), Real(1609.344));
    assert_eq!(si.add_unit("mi", mile), None);
    assert_eq!(si.len(), 25);
    let nautical = Unit::with_factor(Quantity::Length.dimension(), Real(1852.0));
    assert_eq!(si.add_unit("mi", nautical), Some(mile));
    assert_eq!(si.len(), 25);
    assert_eq!(si.get_unit("mi"), Some(nautical));
}

#[test]
fn every_si_symbol_reads_back_as_its_unit() {
    let si = si();
    for symbol in ["m", "s", "kg", "A", "K", "mol", "cd", "J", "min", "h", "km", "g", "Hz", "L", "mL", "M", "N", "kN", "W", "V", "mA", "Ω", "C", "Pa"] {
        assert_eq!(si.unit_from_str(symbol), si.get_unit(symbol), "{}", symbol);
        assert!(si.get_unit(symbol).is_some());
    }
}

#[test]
fn ascii_and_superscript_exponents_agree() {
    let si = si();
    let ascii = si.unit_from_str("m^-2").unwrap();
    let glyphs = si.unit_from_str("m⁻²").unwrap();
    assert_eq!(ascii, glyphs);
    assert_eq!(ascii.dimension, dim(-2, 0, 0, 0, 0, 0, 0));
    assert_eq!(si.unit_from_str("m-2"), Some(ascii));
    assert_eq!(si.unit_from_str("m³").unwrap().dimension, Quantity::Volume.dimension());
}

#[test]
fn slash_inverts_the_next_term_only() {
    let si = si();
    let u = si.unit_from_str("kg/mol s").unwrap();
    assert_eq!(u.dimension, dim(0, 1, 1, 0, 0, -1, 0));
    let per_kg = si.unit_from_str("/kg").unwrap();
    assert_eq!(per_kg.dimension, dim(0, 0, -1, 0, 0, 0, 0));
    assert_eq!(per_kg.factor, Real(1.0 / 1.0));
    let per_g = si.unit_from_str("/g").unwrap();
    assert!(close(per_g.factor.0, 1.0 / 1e-3));
}

#[test]
fn a_bare_number_before_a_slash_is_no_term() {
    let si = si();
    assert_eq!(si.unit_from_str("1/kg"), None);
    assert_eq!(parse_unit_expression(&si, "1/kg"), Err(UnitError::UnknownUnit));
}

#[test]
fn composite_units() {
    let si = si();
    assert_eq!(si.unit_from_str("kg m/s²").unwrap().dimension, Quantity::Force.dimension());
    assert_eq!(si.unit_from_str("kg*m·s⁻²").unwrap().dimension, Quantity::Force.dimension());
    assert_eq!(si.unit_from_str("mol L⁻¹").unwrap().dimension, Quantity::Concentration.dimension());
    assert!(close(si.unit_from_str("mol L⁻¹").unwrap().factor.0, 1e3));
    assert_eq!(si.unit_from_str("mol/L").unwrap().dimension, Quantity::Concentration.dimension());
    assert_eq!(si.unit_from_str("km2").unwrap().factor, Real(1e6));
    assert_eq!(si.unit_from_str("m2s-1").unwrap().dimension, dim(2, -1, 0, 0, 0, 0, 0));
    assert_eq!(si.unit_from_str(""), Some(Unit::new(Dimension::nul())));
    assert_eq!(si.unit_from_str("   "), Some(Unit::new(Dimension::nul())));
    assert_eq!(unit_from_str(&si, "N m"), si.unit_from_str("J").map(|u| Unit { factor: Real(1.0), ..u }));
}

#[test]
fn unreadable_units() {
    let si = si();
    let read = |s: &str| parse_unit_expression(&si, s);
    assert_eq!(read("furlong"), Err(UnitError::UnknownUnit));
    assert_eq!(read("m$"), Err(UnitError::UnknownUnit));
    assert_eq!(read("m--2"), Err(UnitError::MalformedExponent));
    assert_eq!(read("m2-"), Err(UnitError::MalformedExponent));
    assert_eq!(read("m-"), Err(UnitError::MalformedExponent));
    assert_eq!(read("m99999"), Err(UnitError::MalformedExponent));
    assert_eq!(read("m32768"), Err(UnitError::MalformedExponent));
    assert_eq!(read("m2$"), Err(UnitError::MalformedExponent));
    assert!(read("m32767").is_ok());
    assert!(read("m-32768").is_ok());
    assert_eq!(si.unit_from_str("m kg furlong"), None);
}

#[test]
fn values_from_text() {
    let si = si();
    assert_eq!(si.val_s("30 mL"), Some(Value(Real(30.0), si.index("mL"))));
    assert_eq!(value_from_str(&si, "0.1 M"), Some(Value(Real(0.1), si.index("M"))));
    assert_eq!(si.val_s("2.5e3 kg m/s²").unwrap().0, Real(2500.0));
    assert_eq!(si.val_s("7"), Some(Value(Real(7.0), Unit::new(Dimension::nul()))));
    let read = |s: &str| parse_value_expression(&si, s);
    assert_eq!(read("mL"), Err(UnitError::MalformedValue));
    assert_eq!(read(""), Err(UnitError::MalformedValue));
    assert_eq!(read(" 30 mL"), Err(UnitError::MalformedValue));
    assert_eq!(read("30mL"), Err(UnitError::MalformedValue));
    assert_eq!(read("30 furlong"), Err(UnitError::UnknownUnit));
    assert_eq!(read("30 m-"), Err(UnitError::MalformedExponent));
    assert_eq!(si.val(Real(15.0), "mL"), Some(Value(Real(15.0), si.index("mL"))));
    assert_eq!(si.val(Real(15.0), "furlong"), None);
}

#[test]
fn volume_times_concentration_is_an_amount() {
    let si = si();
    let volume = si.val_s("30 mL").unwrap();
    let concentration = si.val_s("0.1 M").unwrap();
    let amount = volume * concentration;
    assert_eq!(amount.1.dimension, Quantity::AmountOfSubstance.dimension());
    assert!(close(amount.0 .0 * amount.1.factor.0, 0.003));
    assert!(close(amount.0 .0, 3.0));
    assert!(close(amount.1.factor.0, 1e-3));
}

#[test]
fn addition_rescales_the_right_operand() {
    let metre = Unit::with_factor(Quantity::Length.dimension(), Real(1.0));
    let millimetre = Unit::with_factor(Quantity::Length.dimension(), Real(0.001));
    let sum = Value(Real(5.0), metre) + Value(Real(3000.0), millimetre);
    assert_eq!(sum.1, metre);
    assert!(close(sum.0 .0, 8.0));
    let difference = Value(Real(5.0), metre) - Value(Real(3000.0), millimetre);
    assert_eq!(difference.1, metre);
    assert!(close(difference.0 .0, 2.0));
    let same = Value(Real(5.0), metre) + Value(Real(3.0), metre);
    assert_eq!(same, Value(Real(8.0), metre));
    assert_eq!(Value(Real(5.0), metre).checked_add(Value(Real(3.0), metre)), Ok(Value(Real(8.0), metre)));
    assert_eq!(Value(Real(5.0), metre).checked_sub(Value(Real(3.0), metre)), Ok(Value(Real(2.0), metre)));
}

#[test]
fn adding_a_length_to_a_time_is_a_dimension_mismatch() {
    let metre: Unit<Real> = Unit::new(Quantity::Length.dimension());
    let second: Unit<Real> = Unit::new(Quantity::Time.dimension());
    let a = Value(Real(1.0), metre);
    let b = Value(Real(1.0), second);
    assert_eq!(a.checked_add(b), Err(UnitError::DimensionMismatch));
    assert_eq!(a.checked_sub(b), Err(UnitError::DimensionMismatch));
    let si = si();
    assert_eq!(si.checked_cast(a, &second), Err(UnitError::DimensionMismatch));
}

#[test]
fn multiplication_and_division() {
    let si = si();
    let a = Value(Real(6.0), si.index("km"));
    let b = Value(Real(3.0), si.index("h"));
    let v = a / b;
    assert_eq!(v.0, Real(2.0));
    assert_eq!(v.1.dimension, Quantity::Velocity.dimension());
    assert!(close(v.1.factor.0, 1000.0 / 3600.0));
    let p = a * b;
    assert_eq!(p.0, Real(18.0));
    assert_eq!(p.1.dimension, dim(1, 1, 0, 0, 0, 0, 0));
    assert_eq!(p.1.factor, Real(3_600_000.0));
    assert_eq!(a * Real(2.0), Value(Real(12.0), si.index("km")));
    assert_eq!(a / Real(2.0), Value(Real(3.0), si.index("km")));
}

#[test]
fn unit_algebra() {
    let si = si();
    let km = si.index("km");
    let h = si.index("h");
    assert_eq!(km + h, Unit { dimension: dim(1, 1, 0, 0, 0, 0, 0), factor: Real(3_600_000.0) });
    assert_eq!(km - km, Unit { dimension: Dimension::nul(), factor: Real(1.0) });
    assert_eq!(km * 3, Unit { dimension: Quantity::Volume.dimension(), factor: Real(1e9) });
    assert_eq!((km * -1).dimension, dim(-1, 0, 0, 0, 0, 0, 0));
    assert!(close((km * -1).factor.0, 1e-3));
}

#[test]
fn cast_rescales_and_is_idempotent() {
    let si = si();
    let volume = si.val_s("30 mL").unwrap();
    let litres = si.as_(volume, "L");
    assert_eq!(litres.1, si.index("L"));
    assert!(close(litres.0 .0, 0.03));
    let cubic_metre = si.index("m") * 3;
    let once = si.cast(volume, &cubic_metre);
    assert!(close(once.0 .0, 30e-6));
    let twice = si.cast(once, &cubic_metre);
    assert_eq!(once, twice);
    assert_eq!(si.checked_cast(volume, &cubic_metre), Ok(once));
    assert_eq!(si.as_(volume, "m³"), once);
}

#[test]
fn display_picks_the_nearest_unit() {
    let si = si();
    let volume = si.val_s("30 mL").unwrap();
    assert_eq!(si.display(&volume).to_string(), "30 mL");
    let litres = si.as_(volume, "L");
    assert_eq!(si.display(&litres).to_string(), "0.03 L");
    let cubic = Value(Real(2.0), si.index("m") * 3);
    assert_eq!(si.display(&cubic).to_string(), "2000 L");
    let hour = Value(Real(2.0), si.index("h"));
    assert_eq!(si.display(&hour).to_string(), "2 h");
    let force = Value(Real(5.0), si.unit_from_str("kg m/s²").unwrap());
    assert_eq!(si.display(&force).to_string(), "5 N");
    assert_eq!(unit_maths::make_display(&si, &force).to_string(), "5 N");
}

#[test]
fn display_falls_back_to_base_units() {
    let si = si();
    let odd = Value(Real(2.0), si.unit_from_str("km kg2/s3 mol").unwrap());
    assert_eq!(si.display(&odd).to_string(), "2000 kg²m¹s⁻³mol¹");
    let plain = Value(Real(7.0), Unit::new(Dimension::nul()));
    assert_eq!(si.display(&plain).to_string(), "7 ");
}

#[test]
fn rendered_values_read_back() {
    let si = si();
    for symbol in ["m", "kg", "mL", "min", "kN", "Pa"] {
        let value = Value(Real(12.5), si.index(symbol));
        let text = si.display(&value).to_string();
        let back = si.val_s(&text).unwrap();
        assert_eq!(back.1.dimension, value.1.dimension);
        assert!(close(back.0 .0 * back.1.factor.0, value.0 .0 * value.1.factor.0));
    }
}

#[test]
fn base_system_holds_the_seven_base_units() {
    let base = BaseUnits { length: "ft", time: "s", mass: "lb", current: "A", temperature: "R", substance_amount: "mol", luminous_intensity: "cd" };
    let sys: UnitSystem<Real> = UnitSystem::new_base_with_cap(base, 0);
    assert_eq!(sys.len(), 7);
    assert_eq!(sys.get_unit("ft"), Some(Unit::new(Quantity::Length.dimension())));
    assert_eq!(sys.get_unit("lb"), Some(Unit::new(Quantity::Mass.dimension())));
    assert_eq!(sys.get_unit("m"), None);
    assert_eq!(sys.base().length, "ft");
    let odd = Value(Real(3.0), sys.unit_from_str("ft2 lb").unwrap());
    assert_eq!(sys.display(&odd).to_string(), "3 lb¹ft²");
}

#[test]
fn units_compare_by_factor_within_a_dimension() {
    let si = si();
    assert_eq!(si.index("m").partial_cmp(&si.index("km")), Some(Ordering::Less));
    assert_eq!(si.index("h").partial_cmp(&si.index("min")), Some(Ordering::Greater));
    assert_eq!(si.index("L").partial_cmp(&si.index("L")), Some(Ordering::Equal));
    assert_eq!(si.index("m").partial_cmp(&si.index("s")), None);
    let nan = Unit::with_factor(Quantity::Length.dimension(), Real(f64::NAN));
    assert_eq!(si.index("m").partial_cmp(&nan), None);
}

#[test]
fn values_compare_in_a_common_unit() {
    let si = si();
    let a = Value(Real(1.0), si.index("km"));
    let b = Value(Real(999.0), si.index("m"));
    let c = Value(Real(1000.0), si.index("m"));
    let d = Value(Real(1001.0), si.index("m"));
    assert_eq!(a.partial_cmp(&b), Some(Ordering::Greater));
    assert_eq!(a.partial_cmp(&c), Some(Ordering::Equal));
    assert_eq!(a.partial_cmp(&d), Some(Ordering::Less));
    assert_eq!(b.partial_cmp(&a), Some(Ordering::Less));
    assert_eq!(a.partial_cmp(&Value(Real(1.0), si.index("s"))), None);
}

#[test]
fn display_takes_the_first_of_equally_near_units() {
    let mut si = si();
    si.add_unit("dm3", Unit::with_factor(Quantity::Volume.dimension(), Real(1e-3)));
    let litres = Value(Real(2.0), si.index("L"));
    assert_eq!(si.display(&litres).to_string(), "2 L");
    let mut other: UnitSystem<Real> = UnitSystem::new_base_with_cap(BaseUnits::si(), 2);
    other.add_unit("dm3", Unit::with_factor(Quantity::Volume.dimension(), Real(1e-3)));
    other.add_unit("L", Unit::with_factor(Quantity::Volume.dimension(), Real(1e-3)));
    assert_eq!(other.display(&litres).to_string(), "2 dm3");
}

#[test]
fn exponents_read_and_written() {
    let chars = |s: &str| s.chars().collect::<Vec<char>>();
    assert_eq!(parse_exponent(&chars("2")), Some(2));
    assert_eq!(parse_exponent(&chars("-2")), Some(-2));
    assert_eq!(parse_exponent(&chars("007")), Some(7));
    assert_eq!(parse_exponent(&chars("32767")), Some(i16::MAX));
    assert_eq!(parse_exponent(&chars("-32768")), Some(i16::MIN));
    assert_eq!(parse_exponent(&chars("32768")), None);
    assert_eq!(parse_exponent(&chars("-32769")), None);
    assert_eq!(parse_exponent(&chars("")), None);
    assert_eq!(parse_exponent(&chars("-")), None);
    assert_eq!(parse_exponent(&chars("+2")), None);
    assert_eq!(parse_exponent(&chars("2a")), None);
    assert_eq!(parse_exponent(&chars("٣")), None);
}

#[test]
fn an_inverted_term_with_an_exponent() {
    let si = si();
    let u = si.unit_from_str("m/s2").unwrap();
    assert_eq!(u.dimension, Quantity::Acceleration.dimension());
    let v = si.unit_from_str("m/s-2").unwrap();
    assert_eq!(v.dimension, dim(1, 2, 0, 0, 0, 0, 0));
    let w = si.unit_from_str("/min").unwrap();
    assert!(close(w.factor.0, 1.0 / 60.0));
    assert_eq!(w.dimension, Quantity::Frequency.dimension());
    let x = si.unit_from_str("/ min").unwrap();
    assert_eq!(x, w);
    let y = si.unit_from_str("m / / s").unwrap();
    assert_eq!(y.dimension, Quantity::Velocity.dimension());
}
