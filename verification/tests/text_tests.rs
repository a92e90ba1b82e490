use pos_terminal::config::{endpoint, API, DB_URL};
use pos_terminal::text::i32_to_text;

#[test]
fn renders_zero() {
    assert_eq!(i32_to_text(0), "0");
}

#[test]
fn renders_positive_numbers() {
    assert_eq!(i32_to_text(7), "7");
    assert_eq!(i32_to_text(42), "42");
    assert_eq!(i32_to_text(1000), "1000");
    assert_eq!(i32_to_text(i32::MAX), "2147483647");
}

#[test]
fn renders_negative_numbers() {
    assert_eq!(i32_to_text(-5), "-5");
    assert_eq!(i32_to_text(-120), "-120");
    assert_eq!(i32_to_text(i32::MIN), "-2147483648");
}

#[test]
fn renders_like_display() {
    for n in [-1000001, -99, -10, -1, 1, 9, 10, 99, 100, 123456789] {
        assert_eq!(i32_to_text(n), n.to_string());
    }
}

#[test]
fn endpoints_follow_the_base_address() {
    assert_eq!(endpoint("synchronize"), "http://localhost:8000/synchronize");
    assert_eq!(endpoint("load-entity"), "http://localhost:8000/load-entity");
    assert_eq!(API, "http://localhost:8000/");
    assert_eq!(DB_URL, "sqlite://app.db");
}
