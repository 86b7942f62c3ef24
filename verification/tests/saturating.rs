use scop::saturating::SaturatingU16;

#[test]
fn conversions_keep_the_number() {
    let a: SaturatingU16 = 10u16.into();
    let b: SaturatingU16 = (&10u16).into();
    let c: SaturatingU16 = 10u8.into();
    let d: SaturatingU16 = (&10u8).into();
    assert_eq!(a, b);
    assert_eq!(a, c);
    assert_eq!(a, d);
    assert_eq!(a, 10u16);
    assert_eq!(SaturatingU16::from(65535u16).value(), 65535);
    assert_eq!(SaturatingU16::from(255u8).value(), 255);
}

#[test]
fn addition_saturates() {
    let a = SaturatingU16::from(10u16);
    let b = SaturatingU16::from(20u16);
    assert_eq!(a + b, 30u16);
    assert_eq!(a + &b, SaturatingU16::from(30u8));

    let max = SaturatingU16::from(u16::MAX);
    assert_eq!(max + SaturatingU16::from(1u8), u16::MAX);
    assert_eq!(SaturatingU16::from(60000u16) + &SaturatingU16::from(10000u16), u16::MAX);
    assert_eq!(SaturatingU16::from(65534u16) + SaturatingU16::from(1u16), 65535u16);
}

#[test]
fn addition_with_a_plain_number() {
    let a = SaturatingU16::from(10u16);
    let sum: u16 = a + 5u16;
    assert_eq!(sum, 15);
    let near_max = SaturatingU16::from(65530u16);
    assert_eq!(near_max + 5u16, 65535);
}

#[test]
fn comparisons() {
    assert!(SaturatingU16::from(3u8) != SaturatingU16::from(4u8));
    assert!(SaturatingU16::from(3u8) != 4u16);
    assert_eq!(format!("{:?}", SaturatingU16::from(7u8)), "SaturatingU16 { value: 7 }");
}

#[test]
fn addition_with_a_plain_number_saturates() {
    assert_eq!(SaturatingU16::from(u16::MAX) + 1u16, u16::MAX);
    assert_eq!(SaturatingU16::from(10u16) + 5u16, 15u16);
    assert_eq!(SaturatingU16::from(60000u16) + 60000u16, u16::MAX);
    let one = 1u16;
    assert_eq!(SaturatingU16::from(u16::MAX) + &one, u16::MAX);
    assert_eq!(SaturatingU16::from(10u16) + &5u16, 15u16);
}
