use worker_pool::colors::{add, mix, PrimaryColor, SecondaryColor};

#[test]
fn mix_test() {
    assert_eq!(mix(PrimaryColor::Red, PrimaryColor::Yellow), Ok(SecondaryColor::Orange));
    assert_eq!(mix(PrimaryColor::Red, PrimaryColor::Blue), Ok(SecondaryColor::Purple));
    assert_eq!(mix(PrimaryColor::Yellow, PrimaryColor::Blue), Ok(SecondaryColor::Green));

    // Test for same primary colors
    assert_eq!(mix(PrimaryColor::Red, PrimaryColor::Red), Err("two colors are same"));
    assert_eq!(mix(PrimaryColor::Yellow, PrimaryColor::Yellow), Err("two colors are same"));
    assert_eq!(mix(PrimaryColor::Blue, PrimaryColor::Blue), Err("two colors are same"));
}

#[test]
fn mix_does_not_depend_on_order() {
    assert_eq!(mix(PrimaryColor::Yellow, PrimaryColor::Red), Ok(SecondaryColor::Orange));
    assert_eq!(mix(PrimaryColor::Blue, PrimaryColor::Red), Ok(SecondaryColor::Purple));
    assert_eq!(mix(PrimaryColor::Blue, PrimaryColor::Yellow), Ok(SecondaryColor::Green));
}

#[test]
fn add_adds() {
    assert_eq!(add(10, 20), 30);
    assert_eq!(add(-5, 2), -3);
}
