use dbt_docs_server::encoding::JsonNode;
use dbt_docs_server::find::{contains_text, replace, starts_with};
use dbt_docs_server::json::{
    bad_request, bad_request_coded, batches_as_json_array, check_unique_id, first_row_as_object,
    internal_error, json_parse_or_null, not_found, wrapped_list_response,
};
use dbt_docs_server::order::comes_first;
use dbt_docs_server::text::{
    is_whitespace, last_part, parse_number, split_once, split_words, to_ascii_lower, to_decimal,
    to_signed_decimal, trim,
};

#[test]
fn white_space_is_that_of_unicode() {
    for c in '\0'..=char::MAX {
        assert_eq!(is_whitespace(c), c.is_whitespace(), "{c:?}");
    }
}

#[test]
fn texts_are_cut_as_strings_are() {
    for s in ["", " ", "a", " a b\t", "\u{a0}x\u{2003}", "a  b", "\n"] {
        assert_eq!(trim(s), s.trim());
        let words: Vec<&str> = s.split_whitespace().collect();
        assert_eq!(split_words(s), words);
        assert_eq!(to_ascii_lower(s), s.to_ascii_lowercase());
    }
    assert_eq!(to_ascii_lower("\u{c9}AZ[`"), "\u{c9}az[`");
    for s in ["", ".", "a.b.c", "abc"] {
        assert_eq!(
            split_once(s, '.'),
            s.split_once('.').map(|(a, b)| (a.to_string(), b.to_string()))
        );
        assert_eq!(last_part(s, '.'), s.rsplit('.').next().unwrap());
    }
}

#[test]
fn numbers_are_written_in_decimal() {
    for n in [0, 9, 10, 1234567890, u64::MAX] {
        assert_eq!(to_decimal(n), n.to_string());
    }
    for n in [0, -1, i64::MIN, i64::MAX] {
        assert_eq!(to_signed_decimal(n), n.to_string());
    }
}

#[test]
fn numbers_are_read_as_strings_are() {
    for s in ["", "0", "+7", "007", "18446744073709551615", "18446744073709551616", "-1", "+", "1x", "99999999999999999999x"] {
        let ours = parse_number(s).map_err(|e| e.message().to_string());
        let theirs = s.parse::<u64>().map_err(|e| e.to_string());
        assert_eq!(ours.is_ok(), theirs.is_ok(), "{s}");
        assert_eq!(ours, theirs, "{s}");
    }
}

#[test]
fn texts_are_searched_as_strings_are() {
    let texts = ["", "a", "aa", "aaa", "abcab", "\u{e9}a\u{e9}"];
    for t in texts {
        for n in ["", "a", "aa", "ab", "\u{e9}"] {
            assert_eq!(contains_text(t, n), t.contains(n));
            assert_eq!(starts_with(t, n), t.starts_with(n));
            if !n.is_empty() {
                assert_eq!(replace(t, n, "x'"), t.replace(n, "x'"));
            }
        }
        for u in texts {
            assert_eq!(comes_first(t, u), t < u);
        }
    }
}

#[test]
fn replies_to_failures_are_objects() {
    assert_eq!(internal_error("x".to_string()).status, 500);
    assert_eq!(bad_request("x").status, 400);
    assert_eq!(not_found("x".to_string()).status, 404);
    let coded = bad_request_coded("c", "m");
    assert_eq!(coded.status, 400);
    assert_eq!(
        coded.fields,
        vec![
            ("code".to_string(), "c".to_string()),
            ("message".to_string(), "m".to_string())
        ]
    );
    assert!(check_unique_id("a").is_ok());
    assert!(check_unique_id("").is_err());
    assert!(check_unique_id("'").is_err());
}

#[test]
fn rows_are_wrapped() {
    assert_eq!(batches_as_json_array(""), "[]");
    assert_eq!(batches_as_json_array("[1]"), "[1]");
    assert_eq!(wrapped_list_response("a", "", &vec![]), "{\"a\":[]}");
    assert_eq!(
        wrapped_list_response("a", "[1]", &vec![("n".to_string(), "2".to_string())]),
        "{\"a\":[1],\"n\":2}"
    );
    assert_eq!(first_row_as_object(None), Ok(None));
    assert_eq!(
        first_row_as_object(Some("[{\"b\": 1, \"a\": [ ]}]")),
        Ok(Some("{\"a\":[],\"b\":1}".to_string()))
    );
    assert!(first_row_as_object(Some("nope")).is_err());
}

#[test]
fn json_of_a_column_is_read_or_null() {
    assert!(matches!(json_parse_or_null(None), JsonNode::Null));
    assert!(matches!(json_parse_or_null(Some(" \t")), JsonNode::Null));
    assert!(matches!(json_parse_or_null(Some("{")), JsonNode::Null));
    assert!(matches!(json_parse_or_null(Some(" true ")), JsonNode::Bool(true)));
    assert!(matches!(json_parse_or_null(Some("1.50")), JsonNode::Number(n) if n == "1.5"));
    assert!(matches!(json_parse_or_null(Some("\"a\\u0041\"")), JsonNode::Text(t) if t == "aA"));
    assert!(matches!(json_parse_or_null(Some("[ 1, {\"x\": null}]")), JsonNode::Array(items) if items == vec!["1", "{\"x\":null}"]));
}
