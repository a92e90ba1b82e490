use pos_terminal::calendar::{is_valid_date, midnight, sales_of_the_day};
use pos_terminal::loader::SELECT_TRANSACTIONS_SINCE;
use pos_terminal::sql::Param;

#[test]
fn midnight_of_an_ordinary_day() {
    assert_eq!(midnight(2024, 3, 5), "2024-03-05 00:00:00");
    assert_eq!(midnight(1999, 12, 31), "1999-12-31 00:00:00");
}

#[test]
fn midnight_pads_small_years() {
    assert_eq!(midnight(7, 1, 1), "0007-01-01 00:00:00");
}

#[test]
fn midnight_of_years_outside_four_digits() {
    assert_eq!(midnight(-4, 2, 29), "-0004-02-29 00:00:00");
    assert_eq!(midnight(12345, 6, 7), "+12345-06-07 00:00:00");
}

#[test]
fn leap_days_are_valid_only_in_leap_years() {
    assert!(is_valid_date(2024, 2, 29));
    assert!(is_valid_date(2000, 2, 29));
    assert!(!is_valid_date(1900, 2, 29));
    assert!(!is_valid_date(2023, 2, 29));
}

#[test]
fn out_of_range_dates_are_invalid() {
    assert!(!is_valid_date(2024, 0, 1));
    assert!(!is_valid_date(2024, 13, 1));
    assert!(!is_valid_date(2024, 4, 31));
    assert!(!is_valid_date(2024, 4, 0));
    assert!(is_valid_date(2024, 4, 30));
    assert!(!is_valid_date(262143, 1, 1));
    assert!(is_valid_date(262142, 12, 31));
    assert!(!is_valid_date(-262144, 1, 1));
}

#[test]
fn sales_of_the_day_binds_its_midnight() {
    let st = sales_of_the_day(2024, 3, 5);
    assert_eq!(st.sql, SELECT_TRANSACTIONS_SINCE);
    assert_eq!(st.params, vec![Param::Text("2024-03-05 00:00:00".to_string())]);
}
