use storage::set_id::valid_set_id;

#[test]
fn test_set_id_check() {
    assert_eq!(
        valid_set_id("08286a1c-3984-4160-ae55-921780bb31ab_dump"),
        false
    );
    assert_eq!(valid_set_id("08286a1c-3984-4160-ae55-921780bb31ab"), false);
    assert_eq!(valid_set_id("12345"), true);
}

#[test]
fn set_id_edges() {
    assert!(!valid_set_id(""));
    assert!(!valid_set_id("+"));
    assert!(valid_set_id("+7"));
    assert!(!valid_set_id("-7"));
    assert!(!valid_set_id(" 7"));
    assert!(!valid_set_id("7 "));
    assert!(valid_set_id("0"));
    assert!(valid_set_id("000123"));
    assert!(valid_set_id("340282366920938463463374607431768211455"));
    assert!(!valid_set_id("340282366920938463463374607431768211456"));
    assert!(!valid_set_id("3402823669209384634633746074317682114550"));
    assert!(!valid_set_id("12.5"));
}

#[test]
fn set_id_agrees_with_integer_parsing() {
    for s in ["1", "42", "+42", "-1", "abc", "", "1e5", "99999999999999999999999999999999999999999"] {
        assert_eq!(valid_set_id(s), s.parse::<u128>().is_ok(), "{}", s);
    }
}
