use rusty_bank::euro_cent::EuroCent;

#[test]
fn test_euro_cent_display() {
    let _ec: EuroCent = 42.into();
    assert_eq!(EuroCent::from(42).to_string(), "0.42€");
    assert_eq!(EuroCent::from(142).to_string(), "1.42€");
    assert_eq!(EuroCent(66642).to_string(), "666.42€");
    assert_eq!(EuroCent(66607).to_string(), "666.07€");
}

#[test]
fn euro_cent_display_zero_and_large() {
    assert_eq!(EuroCent(0).to_string(), "0.00€");
    assert_eq!(EuroCent(5).to_string(), "0.05€");
    assert_eq!(EuroCent(100).to_string(), "1.00€");
    assert_eq!(EuroCent(u64::MAX).to_string(), "184467440737095516.15€");
}

#[test]
fn euro_cent_default_is_zero() {
    assert_eq!(EuroCent::default(), EuroCent(0));
    assert_eq!(EuroCent::zero(), EuroCent(0));
}

#[test]
fn euro_cent_checked_arithmetic() {
    assert_eq!(EuroCent(40).checked_add(EuroCent(2)), Some(EuroCent(42)));
    assert_eq!(EuroCent(u64::MAX).checked_add(EuroCent(1)), None);
    assert_eq!(EuroCent(42).checked_sub(EuroCent(42)), Some(EuroCent(0)));
    assert_eq!(EuroCent(41).checked_sub(EuroCent(42)), None);
}
