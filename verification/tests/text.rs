use docstore::text::{decimal, same_text};

#[test]
fn same_text_compares_characters() {
    assert!(same_text("", ""));
    assert!(same_text("howto", "howto"));
    assert!(!same_text("howto", "howtO"));
    assert!(!same_text("howto", "howt"));
    assert!(!same_text("howt", "howto"));
    assert!(!same_text("", "a"));
    assert!(same_text("déjà vu", "déjà vu"));
    assert!(!same_text("déjà vu", "deja vu"));
}

#[test]
fn decimal_of_small_numbers() {
    assert_eq!(decimal(0), "0");
    assert_eq!(decimal(7), "7");
    assert_eq!(decimal(9), "9");
    assert_eq!(decimal(10), "10");
    assert_eq!(decimal(11), "11");
    assert_eq!(decimal(100), "100");
    assert_eq!(decimal(109), "109");
}

#[test]
fn decimal_of_ports_and_limits() {
    assert_eq!(decimal(5432), "5432");
    assert_eq!(decimal(65535), "65535");
    assert_eq!(decimal(u32::MAX), "4294967295");
    assert_eq!(decimal(4_000_000_000), "4000000000");
}

#[test]
fn decimal_agrees_with_the_standard_library() {
    let mut number: u32 = 1;
    for _ in 0..32 {
        assert_eq!(decimal(number), number.to_string());
        assert_eq!(decimal(number - 1), (number - 1).to_string());
        number = number.wrapping_mul(2);
        if number == 0 {
            number = 3;
        }
    }
}
