use frogtable::error::ServeError;
use frogtable::ident::{escape_table_name, is_name, validate_table_name};

#[test]
fn valid_names_are_accepted() {
    assert_eq!(validate_table_name("events"), Ok(()));
    assert_eq!(validate_table_name("my-table_2"), Ok(()));
    assert_eq!(validate_table_name("ABCxyz019"), Ok(()));
    assert_eq!(validate_table_name("-"), Ok(()));
    assert_eq!(validate_table_name("_"), Ok(()));
}

#[test]
fn empty_name_is_accepted() {
    assert_eq!(validate_table_name(""), Ok(()));
}

#[test]
fn invalid_name_is_reported_with_the_name() {
    assert_eq!(
        validate_table_name("bad name!"),
        Err(ServeError::InvalidIdentifier { name: "bad name!".to_string() })
    );
}

#[test]
fn names_with_other_characters_are_rejected() {
    for name in ["a b", "a\"b", "a;b", "a.b", "a/b", "caf\u{e9}", "a\u{0}", "x'y", "名前"] {
        assert!(!is_name(name), "{name}");
        assert!(validate_table_name(name).is_err(), "{name}");
    }
}

#[test]
fn invalid_name_message_names_the_table() {
    let error = validate_table_name("bad name!").unwrap_err();
    assert_eq!(error.message(), "Invalid table name: bad name!");
}

#[test]
fn escape_wraps_in_double_quotes() {
    assert_eq!(escape_table_name("events"), "\"events\"");
    assert_eq!(escape_table_name("my-table"), "\"my-table\"");
    assert_eq!(escape_table_name(""), "\"\"");
}
