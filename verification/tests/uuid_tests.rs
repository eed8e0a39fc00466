use mca::uuid::Uuid;

#[test]
fn canonical_string_parses_to_its_value() {
    let u = Uuid::new("279afc35-e8a9-4927-adb0-19b33499ec6c");
    assert_eq!(u.to_u128(), 0x279afc35_e8a9_4927_adb0_19b33499ec6c);
}

#[test]
fn parsing_splits_into_big_endian_words() {
    let u = Uuid::new("00000001-0002-0003-0004-000000000005");
    assert_eq!(u.0, [1, 0x00020003, 0x00040000, 5]);
}

#[test]
fn upper_case_digits_parse_too() {
    let u = Uuid::try_parse("DEADBEEF-AAAA-BBBB-CCCC-0123456789AB").unwrap();
    assert_eq!(u.to_u128(), 0xDEADBEEF_AAAA_BBBB_CCCC_0123456789AB);
}

#[test]
fn high_values_wrap_into_negative_words() {
    let u = Uuid::try_parse("ffffffff-ffff-ffff-ffff-ffffffffffff").unwrap();
    assert_eq!(u.0, [-1, -1, -1, -1]);
    assert_eq!(u.to_u128(), u128::MAX);
}

#[test]
fn words_recombine_to_the_value() {
    assert_eq!(Uuid([0, 0, 0, 0]).to_u128(), 0);
    assert_eq!(Uuid([0, 0, 0, 1]).to_u128(), 1);
    assert_eq!(Uuid([1, 0, 0, 0]).to_u128(), 1u128 << 96);
    assert_eq!(Uuid([-1, -1, -1, -1]).to_u128(), u128::MAX);
}

#[test]
fn malformed_strings_do_not_parse() {
    // Too short.
    assert!(Uuid::try_parse("279afc35-e8a9-4927-adb0").is_none());
    // Too long.
    assert!(Uuid::try_parse("279afc35-e8a9-4927-adb0-19b33499ec6c0").is_none());
    // A hyphen out of place.
    assert!(Uuid::try_parse("279afc35e-8a9-4927-adb0-19b33499ec6c").is_none());
    // A non-hexadecimal character.
    assert!(Uuid::try_parse("279afc35-e8a9-4927-adb0-19b33499ec6g").is_none());
    // A character past ASCII.
    assert!(Uuid::try_parse("279afc35-e8a9-4927-adb0-19b33499ecé").is_none());
    // Empty.
    assert!(Uuid::try_parse("").is_none());
}
