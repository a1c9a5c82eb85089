use unit_maths::{superscript_to_number, to_superscript};

#[test]
fn dimensions_super_test() {
    assert_eq!(to_superscript("-124"), "⁻¹²⁴");
    assert_eq!(to_superscript("asdg ja-kage4²"), "asdg ja⁻kage⁴²");
}

#[test]
fn lib_super_test() {
    assert_eq!(to_superscript("-124"), "⁻¹²⁴");
    assert_eq!(to_superscript("asdg ja-kage4²"), "asdg ja⁻kage⁴²");
    assert_eq!(superscript_to_number("⁻¹²⁴"), "-124");
    assert_eq!(superscript_to_number("asdg ja⁻kage4²"), "asdg ja-kage42");
}
