use dbt_docs_server::sql::{escape_ilike, escape_str, is_safe_ident, quote, quote_list};

#[test]
fn escape_ilike_escapes_wildcards() {
    assert_eq!(escape_ilike("100% pure"), "100\\% pure");
    assert_eq!(escape_ilike("snake_case"), "snake\\_case");
    assert_eq!(escape_ilike("o'reilly"), "o''reilly");
    assert_eq!(escape_ilike(r"back\slash"), r"back\\slash");
    assert_eq!(escape_ilike("%_"), r"\%\_");
}

#[test]
fn a_literal_doubles_its_quotes() {
    assert_eq!(escape_str("o'brien's"), "o''brien''s");
    assert_eq!(quote("a'b"), "'a''b'");
    assert_eq!(
        quote_list(&vec!["a".to_string(), "b'c".to_string()]),
        "'a', 'b''c'"
    );
}

#[test]
fn identifiers_are_plain_words() {
    assert!(is_safe_ident("row_count2"));
    assert!(!is_safe_ident(""));
    assert!(!is_safe_ident("a b"));
    assert!(!is_safe_ident("a;"));
}

#[test]
fn different_texts_have_different_literals() {
    let texts = ["", "'", "''", "a'", "a''", "'a"];
    for a in texts {
        for b in texts {
            assert_eq!(a == b, escape_str(a) == escape_str(b));
            assert_eq!(a == b, escape_ilike(a) == escape_ilike(b));
        }
    }
}
