use csv_to::db::{DbError, Types, EXIT_USAGE};
use csv_to::names::derive_table_name;
use csv_to::strutil::usize_to_string;

#[test]
fn people_csv_derives_people() {
    assert_eq!(derive_table_name("people.csv"), "People");
}

#[test]
fn path_is_reduced_to_base_name() {
    assert_eq!(derive_table_name("/data/in/orders.csv"), "Orders");
}

#[test]
fn upper_case_extension_is_not_stripped() {
    assert_eq!(derive_table_name("Orders.CSV"), "Orders.CSV");
}

#[test]
fn repeated_extensions_are_stripped() {
    assert_eq!(derive_table_name("people.csv.csv"), "People");
}

#[test]
fn first_character_already_upper_is_kept() {
    assert_eq!(derive_table_name("People.csv"), "People");
}

#[test]
fn empty_base_name_derives_empty() {
    assert_eq!(derive_table_name(".csv"), "");
    assert_eq!(derive_table_name("dir/"), "");
}

#[test]
fn from_str_accepts_supported_engines_case_insensitively() {
    assert!(matches!(Types::from_str("sqlite"), Ok(Types::SQLite)));
    assert!(matches!(Types::from_str("SQLite"), Ok(Types::SQLite)));
    assert!(matches!(Types::from_str("postgres"), Ok(Types::Postgres)));
    assert!(matches!(Types::from_str("POSTGRES"), Ok(Types::Postgres)));
    assert!(matches!(Types::from_str("mysql"), Ok(Types::MySQL)));
}

#[test]
fn from_str_rejects_unsupported_engines() {
    let e = Types::from_str("mongodb").unwrap_err();
    assert_eq!(e.get_exit_code(), EXIT_USAGE);
    assert_eq!(
        e.get_msg(),
        "ERROR: 'mongodb' is not a supported database type"
    );
}

#[test]
fn db_error_accessors() {
    let e = DbError::new("boom".to_string(), 64);
    assert_eq!(e.get_msg(), "boom");
    assert_eq!(e.get_exit_code(), 64);
}

#[test]
fn decimal_rendering() {
    assert_eq!(usize_to_string(0), "0");
    assert_eq!(usize_to_string(7), "7");
    assert_eq!(usize_to_string(10), "10");
    assert_eq!(usize_to_string(90210), "90210");
}
