use base64::engine::general_purpose::URL_SAFE_NO_PAD;
use base64::Engine;
use dbt_docs_server::encoding::{find_values, read_members};
use dbt_docs_server::pagination::{
    clamp_first, clamp_size, cursor_where_fragment, cut_page, page_info, Cursor, SortDir,
    DEFAULT_PAGE_SIZE, MAX_PAGE_SIZE,
};

#[test]
fn cursor_roundtrip_preserves_values() {
    let c = Cursor {
        sort_value: Some("zebra".into()),
        unique_id: "model.pkg.zebra".into(),
    };
    let encoded = c.encode();
    let decoded = Cursor::decode(&encoded).unwrap();
    assert_eq!(decoded.sort_value.as_deref(), Some("zebra"));
    assert_eq!(decoded.unique_id, "model.pkg.zebra");
}

#[test]
fn cursor_roundtrip_null_sort_value() {
    let c = Cursor {
        sort_value: None,
        unique_id: "model.pkg.alpha".into(),
    };
    let encoded = c.encode();
    let decoded = Cursor::decode(&encoded).unwrap();
    assert!(decoded.sort_value.is_none());
    assert_eq!(decoded.unique_id, "model.pkg.alpha");
}

#[test]
fn cursor_roundtrip_keeps_quotes_and_unicode() {
    let c = Cursor {
        sort_value: Some("\"o'brien\" \\ \u{e9}\u{4e2d}\n".into()),
        unique_id: "model.p\u{e4}ckage.{}[]:,".into(),
    };
    let decoded = Cursor::decode(&c.encode()).unwrap();
    assert_eq!(decoded.sort_value, c.sort_value);
    assert_eq!(decoded.unique_id, c.unique_id);
}

#[test]
fn cursor_is_url_safe_base64_of_json() {
    let c = Cursor {
        sort_value: Some("zebra".into()),
        unique_id: "model.pkg.zebra".into(),
    };
    assert_eq!(
        c.encode(),
        "eyJzb3J0X3ZhbHVlIjoiemVicmEiLCJ1bmlxdWVfaWQiOiJtb2RlbC5wa2cuemVicmEifQ"
    );
}

#[test]
fn cursor_decode_garbage_returns_error() {
    assert_eq!(
        Cursor::decode("not base64!!!").unwrap_err(),
        "invalid cursor"
    );
    assert_eq!(Cursor::decode("aGVsbG8").unwrap_err(), "invalid cursor"); // valid base64, not JSON
}

#[test]
fn cursor_needs_a_unique_id() {
    assert!(Cursor::from_values(None, None).is_err());
    assert!(Cursor::from_values(Some(None), Some(None)).is_err());
    assert!(Cursor::from_values(None, Some(Some("a".into()))).is_err());
    let c = Cursor::from_values(Some(None), Some(Some("a".into()))).unwrap();
    assert_eq!(c.sort_value, None);
    assert_eq!(c.unique_id, "a");
}

fn opaque(json: impl AsRef<[u8]>) -> String {
    URL_SAFE_NO_PAD.encode(json)
}

#[test]
fn cursors_are_read_from_json() {
    let read = |json: &str| {
        Cursor::decode(&opaque(json)).map(|c| (c.sort_value, c.unique_id))
    };
    let both = Ok((Some("s".to_string()), "u".to_string()));
    let alone = Ok((None, "u".to_string()));
    assert_eq!(read("{\"sort_value\":\"s\",\"unique_id\":\"u\"}"), both);
    assert_eq!(read(" { \"unique_id\" : \"\\u0075\", \"sort_value\":\"s\" } "), both);
    assert_eq!(read("[\"s\",\"u\"]"), both);
    assert_eq!(read("[null,\"u\"]"), alone);
    assert_eq!(read("{\"sort_value\":null,\"unique_id\":\"u\"}"), alone);
    assert_eq!(read("{\"unique_id\":\"u\"}"), alone);
    // What else stands in an object is passed over.
    assert_eq!(read("{\"x\":1e999,\"unique_id\":\"u\"}"), alone);
    assert_eq!(
        read("{\"$serde_json::private::RawValue\":\"1\",\"unique_id\":\"u\"}"),
        alone
    );
    for json in [
        "",
        "null",
        "{}",
        "[]",
        "[\"s\"]",
        "[\"s\",\"u\",\"x\"]",
        "[1,\"u\"]",
        "{\"unique_id\":null}",
        "{\"unique_id\":1}",
        "{\"sort_value\":1,\"unique_id\":\"u\"}",
        "{\"unique_id\":\"u\"}x",
        "{\"$serde_json::private::RawValue\":\"[null,\\\"u\\\"]\"}",
    ] {
        assert_eq!(read(json), Err("invalid cursor"), "{json}");
    }
}

#[test]
fn a_repeated_field_is_refused() {
    for json in [
        "{\"unique_id\":\"u\",\"unique_id\":\"u\"}",
        "{\"unique_id\":\"u\",\"unique_id\":\"v\"}",
        "{\"unique_id\":\"u\",\"\\u0075nique_id\":\"u\"}",
        "{\"sort_value\":\"s\",\"unique_id\":\"u\",\"sort_value\":\"s\"}",
        "{\"sort_value\":\"s\",\"sort_value\":\"t\",\"unique_id\":\"u\"}",
        "{\"sort_value\":null,\"sort_value\":\"s\",\"unique_id\":\"u\"}",
        "{\"sort_value\":null,\"sort_value\":null,\"unique_id\":\"u\"}",
    ] {
        assert_eq!(
            Cursor::decode(&opaque(json)).unwrap_err(),
            "invalid cursor",
            "{json}"
        );
    }
    // A field of another name may stand there twice.
    let c = Cursor::decode(&opaque("{\"x\":1,\"unique_id\":\"u\",\"x\":2}")).unwrap();
    assert_eq!(c.sort_value, None);
    assert_eq!(c.unique_id, "u");
}

#[test]
fn other_fields_are_passed_over_unread() {
    // Bytes that are no UTF-8 do no harm in a value that is not read.
    let values: [&[u8]; 9] = [
        b"\"\xff\"",
        b"\"\\ud800\"",
        b"[\"\xff\", {\"\xfe\": 1}]",
        b"{\"unique_id\":\"x\",\"unique_id\":\"y\"}",
        b"-0.5e+9999",
        b"true",
        b" null ",
        b"{ }",
        b"\"}\"",
    ];
    for value in values {
        for (before, behind) in [
            (&b"{\"x\":"[..], &b",\"sort_value\":\"s\",\"unique_id\":\"u\"}"[..]),
            (&b"{\"sort_value\":\"s\",\"x\":"[..], &b",\"unique_id\":\"u\"}"[..]),
            (&b"{\"sort_value\":\"s\",\"unique_id\":\"u\",\"x\":"[..], &b"}"[..]),
        ] {
            let c = Cursor::decode(&opaque([before, value, behind].concat())).unwrap();
            assert_eq!(c.sort_value.as_deref(), Some("s"));
            assert_eq!(c.unique_id, "u");
        }
    }
    // They do in a value that is read, and in a name.
    let refused: [&[u8]; 4] = [
        b"{\"unique_id\":\"\xff\"}",
        b"{\"sort_value\":\"\xff\",\"unique_id\":\"u\"}",
        b"{\"\xff\":1,\"unique_id\":\"u\"}",
        b"{\"\\ud800\":1,\"unique_id\":\"u\"}",
    ];
    for json in refused {
        assert_eq!(Cursor::decode(&opaque(json)).unwrap_err(), "invalid cursor");
    }
    // A value that is not read is still a JSON value.
    for value in ["", "x", "01", "1.", "tru", "\"", "[1,]", "{\"a\"}", "{", "\"\n\"", "1 2"] {
        let json = format!("{{\"x\":{value},\"unique_id\":\"u\"}}");
        assert_eq!(
            Cursor::decode(&opaque(&json)).unwrap_err(),
            "invalid cursor",
            "{json}"
        );
    }
}

#[test]
fn objects_are_read_member_by_member() {
    let read = |json: &str| read_members(json.as_bytes());
    assert_eq!(read("{}"), Some(vec![]));
    assert_eq!(read(" \t{\r\n} "), Some(vec![]));
    let members = read("{ \"a\" : \"x\" , \"b\":null,\"a\":[1, 2],\"\\u0061\":\"\\\"\" }\n").unwrap();
    assert_eq!(
        members,
        vec![
            ("a".to_string(), Some(Some("x".to_string()))),
            ("b".to_string(), Some(None)),
            ("a".to_string(), None),
            ("a".to_string(), Some(Some("\"".to_string()))),
        ]
    );
    assert_eq!(
        find_values(&members, "a"),
        vec![Some(Some("x".to_string())), None, Some(Some("\"".to_string()))]
    );
    assert_eq!(find_values(&members, "b"), vec![Some(None)]);
    assert!(find_values(&members, "c").is_empty());
    for json in [
        "",
        " ",
        "[]",
        "null",
        "{",
        "}",
        "{,}",
        "{\"a\"}",
        "{\"a\":}",
        "{\"a\" 1}",
        "{\"a\":1",
        "{\"a\":1,}",
        "{\"a\":1,,\"b\":2}",
        "{\"a\":1 \"b\":2}",
        "{a:1}",
        "{1:1}",
        "{null:1}",
        "{\"a\":1}}",
        "{\"a\":1} x",
        "{}x",
    ] {
        assert_eq!(read(json), None, "{json}");
    }
}

#[test]
fn cursors_come_from_members() {
    let member = |name: &str, value: Option<Option<&str>>| {
        (name.to_string(), value.map(|v| v.map(str::to_string)))
    };
    let id = || member("unique_id", Some(Some("u")));
    let read = |members: Vec<(String, Option<Option<String>>)>| {
        Cursor::from_members(&members).map(|c| (c.sort_value, c.unique_id))
    };
    let both = Ok((Some("s".to_string()), "u".to_string()));
    let alone = Ok((None, "u".to_string()));
    assert_eq!(read(vec![id()]), alone);
    assert_eq!(read(vec![id(), member("sort_value", Some(None))]), alone);
    assert_eq!(read(vec![member("sort_value", Some(Some("s"))), id()]), both);
    assert_eq!(read(vec![member("x", None), id(), member("x", None)]), alone);
    for members in [
        vec![],
        vec![member("unique_id", None)],
        vec![member("unique_id", Some(None))],
        vec![id(), id()],
        vec![id(), member("sort_value", None)],
        vec![id(), member("sort_value", Some(None)), member("sort_value", Some(None))],
    ] {
        assert_eq!(read(members), Err("invalid cursor"));
    }
}

#[test]
fn cursors_need_no_escaping_in_a_query() {
    for text in ["", "a", "ab", "abc", "\u{3ff}\u{3fe}?>~", "\u{10ffff}/+="] {
        let c = Cursor {
            sort_value: Some(text.to_string()),
            unique_id: text.to_string(),
        };
        let encoded = c.encode();
        assert!(encoded
            .chars()
            .all(|c| c.is_ascii_alphanumeric() || c == '-' || c == '_'));
        let read = Cursor::decode(&encoded).unwrap();
        assert_eq!(read.sort_value.as_deref(), Some(text));
        assert_eq!(read.unique_id, text);
    }
}

fn key(row: &(Option<&str>, &str)) -> Cursor {
    Cursor {
        sort_value: row.0.map(str::to_string),
        unique_id: row.1.to_string(),
    }
}

#[test]
fn pages_hold_every_row_once() {
    let list = [
        (Some("a"), "2"),
        (Some("b"), "1"),
        (Some("b"), "3"),
        (Some("c"), "0"),
        (None, "4"),
        (None, "5"),
    ];
    for first in 1..8 {
        let mut seen: Vec<(Option<&str>, &str)> = Vec::new();
        let mut after: Option<Cursor> = None;
        loop {
            let start = match &after {
                Some(c) => {
                    1 + list
                        .iter()
                        .position(|r| r.1 == c.unique_id && r.0 == c.sort_value.as_deref())
                        .unwrap()
                }
                None => 0,
            };
            let end = list.len().min(start + first as usize + 1);
            let mut page = list[start..end].to_vec();
            let more = cut_page(&mut page, first);
            let info = page_info(6, page.first().map(key), page.last().map(key), more);
            assert_eq!(info.total_count, 6);
            assert_eq!(info.has_next_page, more);
            assert!(page.len() <= first as usize);
            seen.extend(page);
            match info.end_cursor {
                Some(text) => after = Some(Cursor::decode(&text).unwrap()),
                None => break,
            }
        }
        assert_eq!(seen, list);
    }
}

#[test]
fn cursor_where_fragment_asc_non_null() {
    let frag = cursor_where_fragment(
        "n.name",
        "n.unique_id",
        SortDir::Asc,
        Some("zebra"),
        "model.pkg.zebra",
    );
    assert!(frag.contains("n.name > 'zebra'"));
    assert!(frag.contains("n.name = 'zebra' AND n.unique_id > 'model.pkg.zebra'"));
    assert!(frag.contains("n.name IS NULL"));
}

#[test]
fn cursor_where_fragment_desc_non_null() {
    let frag = cursor_where_fragment(
        "n.name",
        "n.unique_id",
        SortDir::Desc,
        Some("alpha"),
        "model.pkg.alpha",
    );
    assert!(frag.contains("n.name < 'alpha'"));
    assert!(frag.contains("n.name = 'alpha' AND n.unique_id > 'model.pkg.alpha'"));
}

#[test]
fn cursor_where_fragment_null_cursor_uses_null_bucket() {
    let frag = cursor_where_fragment(
        "lr.executed_at",
        "n.unique_id",
        SortDir::Asc,
        None,
        "model.pkg.orphan",
    );
    assert_eq!(
        frag,
        "(lr.executed_at IS NULL AND n.unique_id > 'model.pkg.orphan')"
    );
}

#[test]
fn cursor_where_fragment_escapes_quotes_in_literals() {
    let frag = cursor_where_fragment(
        "n.name",
        "n.unique_id",
        SortDir::Asc,
        Some("o'brien"),
        "model.pkg.o'brien",
    );
    // Single quotes are doubled.
    assert!(frag.contains("n.name > 'o''brien'"));
    assert!(frag.contains("n.unique_id > 'model.pkg.o''brien'"));
}

#[test]
fn cursor_where_fragment_is_one_disjunction() {
    assert_eq!(
        cursor_where_fragment("n.name", "n.unique_id", SortDir::Asc, Some("z"), "m.z"),
        "(n.name > 'z' OR (n.name = 'z' AND n.unique_id > 'm.z') OR n.name IS NULL)"
    );
}

#[test]
fn clamp_first_defaults_and_caps() {
    assert_eq!(clamp_first(None), DEFAULT_PAGE_SIZE);
    assert_eq!(clamp_first(Some(0)), 1);
    assert_eq!(clamp_first(Some(50)), 50);
    assert_eq!(clamp_first(Some(10_000)), MAX_PAGE_SIZE);
}

#[test]
fn clamp_size_keeps_its_own_limits() {
    assert_eq!(clamp_size(None, 50, 200), 50);
    assert_eq!(clamp_size(Some(0), 50, 200), 1);
    assert_eq!(clamp_size(Some(201), 50, 200), 200);
}

#[test]
fn sort_directions_are_sql_words() {
    assert_eq!(SortDir::Asc.as_sql(), "ASC");
    assert_eq!(SortDir::Desc.as_sql(), "DESC");
}

#[test]
fn a_page_drops_the_row_that_it_peeked_at() {
    let mut rows = vec![1, 2, 3];
    assert!(cut_page(&mut rows, 2));
    assert_eq!(rows, vec![1, 2]);
    assert!(!cut_page(&mut rows, 2));
    assert_eq!(rows, vec![1, 2]);
}

#[test]
fn only_a_page_with_a_successor_has_an_end_cursor() {
    let row = |id: &str| Cursor {
        sort_value: None,
        unique_id: id.to_string(),
    };
    let last = page_info(2, Some(row("a")), Some(row("b")), false);
    assert_eq!(last.total_count, 2);
    assert_eq!(last.start_cursor, Some(row("a").encode()));
    assert_eq!(last.end_cursor, None);
    assert!(!last.has_next_page);
    let first = page_info(3, Some(row("a")), Some(row("b")), true);
    assert_eq!(first.end_cursor, Some(row("b").encode()));
    assert!(first.has_next_page);
}
