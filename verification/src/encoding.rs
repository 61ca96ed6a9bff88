//! JSON and base64, as the crates `serde_json` and `base64` read and write them.
use crate::text::texts;
use base64::Engine;
use serde::de::IgnoredAny;
use serde_json::Value;
use vstd::prelude::*;
use vstd::slice::slice_subrange;

verus! {

// ---------------------------------------------------------------------------
// JSON, one level at a time
// ---------------------------------------------------------------------------

/// A JSON value, with the values inside it left as compact JSON text.
#[derive(Debug)]
pub enum JsonNode {
    Null,
    Bool(bool),
    /// A number, as it is written in JSON.
    Number(String),
    /// A string, without quotes and escapes.
    Text(String),
    /// The items of an array, each as JSON text.
    Array(Vec<String>),
    /// The fields of an object: the name, and the value as JSON text.
    Object(Vec<(String, String)>),
}

/// What a `JsonNode` holds.
#[verifier::ext_equal]
pub ghost enum JsonView {
    Null,
    Bool(bool),
    Number(Seq<char>),
    Text(Seq<char>),
    Array(Seq<Seq<char>>),
    Object(Seq<(Seq<char>, Seq<char>)>),
}

/// Names and values as text.
pub open spec fn fields_view(v: Seq<(String, String)>) -> Seq<(Seq<char>, Seq<char>)> {
    Seq::new(v.len(), |i: int| (v[i].0@, v[i].1@))
}

impl View for JsonNode {
    type V = JsonView;

    open spec fn view(&self) -> JsonView {
        match *self {
            JsonNode::Null => JsonView::Null,
            JsonNode::Bool(b) => JsonView::Bool(b),
            JsonNode::Number(n) => JsonView::Number(n@),
            JsonNode::Text(s) => JsonView::Text(s@),
            JsonNode::Array(items) => JsonView::Array(texts(items@)),
            JsonNode::Object(fields) => JsonView::Object(fields_view(fields@)),
        }
    }
}

/// What a reading of JSON gave, as mathematical values.
pub open spec fn reading_view(r: Result<JsonNode, String>) -> Result<JsonView, Seq<char>> {
    match r {
        Ok(node) => Ok(node@),
        Err(e) => Err(e@),
    }
}

/// What `serde_json::from_slice` reads from some bytes: the outermost value,
/// with the values inside it as the JSON text that `serde_json` writes for them;
/// or what it says of bytes that are no JSON.
pub uninterp spec fn json_reading(bytes: Seq<u8>) -> Result<JsonView, Seq<char>>;

/// `serde_json::from_slice` for a `serde_json::Value`. Its result depends on the
/// bytes alone and is called `json_reading` here.
#[verifier::external_body]
pub(crate) fn read_json(bytes: &[u8]) -> (r: Result<JsonNode, String>)
    ensures
        reading_view(r) == json_reading(bytes@),
{
    match serde_json::from_slice::<Value>(bytes) {
        Ok(Value::Null) => Ok(JsonNode::Null),
        Ok(Value::Bool(b)) => Ok(JsonNode::Bool(b)),
        Ok(Value::Number(n)) => Ok(JsonNode::Number(n.to_string())),
        Ok(Value::String(s)) => Ok(JsonNode::Text(s)),
        Ok(Value::Array(a)) => Ok(
            JsonNode::Array(a.iter().map(|v| v.to_string()).collect()),
        ),
        Ok(Value::Object(m)) => Ok(
            JsonNode::Object(m.iter().map(|(k, v)| (k.clone(), v.to_string())).collect()),
        ),
        Err(e) => Err(e.to_string()),
    }
}

/// The first field of a name: its value as JSON text.
pub open spec fn json_field(fields: Seq<(Seq<char>, Seq<char>)>, name: Seq<char>) -> Option<
    Seq<char>,
>
    decreases fields.len(),
{
    if fields.len() == 0 {
        None
    } else if fields[0].0 == name {
        Some(fields[0].1)
    } else {
        json_field(fields.skip(1), name)
    }
}

/// The value inside a JSON value that is left as text there.
pub open spec fn json_inner(text: Seq<char>) -> Result<JsonView, Seq<char>> {
    json_reading(vstd::utf8::encode_utf8(text))
}

/// Read a JSON text.
pub fn read_json_text(text: &str) -> (r: Result<JsonNode, String>)
    ensures
        reading_view(r) == json_inner(text@),
{
    read_json(text.as_bytes())
}

/// The field of a name: its value as JSON text.
pub fn find_field<'a>(fields: &'a Vec<(String, String)>, name: &str) -> (r: Option<&'a str>)
    ensures
        crate::text::opt_str_text(r) == json_field(fields_view(fields@), name@),
{
    let ghost all = fields_view(fields@);
    let mut i: usize = 0;
    assert(all.skip(0) == all);
    while i < fields.len()
        invariant
            i <= fields.len(),
            all == fields_view(fields@),
            json_field(all.skip(i as int), name@) == json_field(all, name@),
        decreases fields.len() - i,
    {
        assert(all.skip(i as int).skip(1) == all.skip(i + 1));
        if crate::text::same(fields[i].0.as_str(), name) {
            return Some(fields[i].1.as_str());
        }
        i += 1;
    }
    None
}

/// The fields of a flat object, by name: a string, or null.
pub open spec fn flat_view(v: Seq<(String, Option<String>)>) -> Seq<
    (Seq<char>, Option<Seq<char>>),
> {
    Seq::new(v.len(), |i: int| (v[i].0@, crate::text::opt_text(v[i].1)))
}

/// The bytes that `serde_json::to_vec` writes for an object whose fields are
/// strings or null.
pub uninterp spec fn json_object(fields: Seq<(Seq<char>, Option<Seq<char>>)>) -> Seq<u8>;

/// `serde_json::to_vec` for an object whose fields are strings or null and have
/// different names. The bytes are called `json_object` here. They are no array,
/// and among the members of the object each name stands once, with its value.
#[verifier::external_body]
pub(crate) fn write_json_object(fields: Vec<(String, Option<String>)>) -> (r: Vec<u8>)
    requires
        forall|i: int, j: int| 0 <= i < j < fields.len() ==> fields@[i].0@ != fields@[j].0@,
    ensures
        r@ == json_object(flat_view(fields@)),
        json_pair(r@) is None,
        object_members(r@) matches Some(read) && forall|i: int|
            0 <= i < fields.len() ==> values_of(read, (#[trigger] fields@[i]).0@) == seq![
                Some(crate::text::opt_text(fields@[i].1)),
            ],
{
    let object: serde_json::Map<String, Value> = fields.into_iter().map(
        |(k, v)| (k, v.map_or(Value::Null, Value::String)),
    ).collect();
    serde_json::to_vec(&object).expect("an object of strings has a JSON text")
}

/// What `serde_json::from_slice` reads from some bytes as an array of two items,
/// the first a string or null and the second a string.
pub uninterp spec fn json_pair(bytes: Seq<u8>) -> Option<(Option<Seq<char>>, Seq<char>)>;

/// `serde_json::from_slice` for a pair. Its result depends on the bytes alone and
/// is called `json_pair` here.
#[verifier::external_body]
pub(crate) fn read_json_pair(bytes: &[u8]) -> (r: Option<(Option<String>, String)>)
    ensures
        json_pair(bytes@) == (match r {
            Some(pair) => Some((crate::text::opt_text(pair.0), pair.1@)),
            None => None,
        }),
{
    serde_json::from_slice::<(Option<String>, String)>(bytes).ok()
}

/// What `serde_json::from_slice` reads from some bytes as a string or null; `None`
/// where they are neither.
pub uninterp spec fn json_string(bytes: Seq<u8>) -> Option<Option<Seq<char>>>;

/// `serde_json::from_slice` for an optional string. Its result depends on the bytes
/// alone and is called `json_string` here.
#[verifier::external_body]
pub(crate) fn read_json_string(bytes: &[u8]) -> (r: Option<Option<String>>)
    ensures
        json_string(bytes@) == value_view(r),
{
    serde_json::from_slice::<Option<String>>(bytes).ok()
}

/// Where the first JSON value in some bytes ends, as `serde_json`'s stream of values
/// that are passed over says; `None` where no value stands there.
pub uninterp spec fn json_end(bytes: Seq<u8>) -> Option<nat>;

/// `StreamDeserializer::next` of `serde_json` for a value that is ignored, and then
/// `StreamDeserializer::byte_offset`. The offset depends on the bytes alone and is
/// called `json_end` here. It lies within the bytes.
#[verifier::external_body]
pub(crate) fn find_json_end(bytes: &[u8]) -> (r: Option<usize>)
    ensures
        json_end(bytes@) == (match r {
            Some(n) => Some(n as nat),
            None => None,
        }),
        r matches Some(n) ==> n <= bytes.len(),
{
    let mut values = serde_json::Deserializer::from_slice(bytes).into_iter::<IgnoredAny>();
    values.next()?.ok()?;
    Some(values.byte_offset())
}

// ---------------------------------------------------------------------------
// The members of an object
// ---------------------------------------------------------------------------

/// What may be a string or null, as a mathematical value.
pub open spec fn value_view(v: Option<Option<String>>) -> Option<Option<Seq<char>>> {
    match v {
        Some(v) => Some(crate::text::opt_text(v)),
        None => None,
    }
}

/// Members as mathematical values: the name, and the value read as a string or null.
pub open spec fn members_view(v: Seq<(String, Option<Option<String>>)>) -> Seq<
    (Seq<char>, Option<Option<Seq<char>>>),
> {
    Seq::new(v.len(), |i: int| (v[i].0@, value_view(v[i].1)))
}

/// Whether a byte is white space in JSON.
pub open spec fn is_blank(b: u8) -> bool {
    b == 0x20 || b == 0x0a || b == 0x0d || b == 0x09
}

/// Bytes without the white space at their start.
pub open spec fn skip_blanks(s: Seq<u8>) -> Seq<u8>
    decreases s.len(),
{
    if s.len() > 0 && is_blank(s[0]) {
        skip_blanks(s.skip(1))
    } else {
        s
    }
}

/// What follows a byte that stands first in some bytes but for white space.
pub open spec fn after(b: u8, s: Seq<u8>) -> Option<Seq<u8>> {
    let s = skip_blanks(s);
    if s.len() > 0 && s[0] == b {
        Some(s.skip(1))
    } else {
        None
    }
}

/// The first value in some bytes, without the white space before it, and what follows.
pub open spec fn first_value(s: Seq<u8>) -> Option<(Seq<u8>, Seq<u8>)> {
    let s = skip_blanks(s);
    match json_end(s) {
        Some(n) => if n <= s.len() {
            Some((s.take(n as int), s.skip(n as int)))
        } else {
            None
        },
        None => None,
    }
}

/// The first member in some bytes, and what follows: a string, a colon and a value. The
/// value is passed over and then read as a string or null; `None` stands for any other.
pub open spec fn first_member(s: Seq<u8>) -> Option<
    ((Seq<char>, Option<Option<Seq<char>>>), Seq<u8>),
> {
    if after(QUOTE, s) is None {
        None
    } else {
        match first_value(s) {
            Some((key, more)) => match (json_string(key), after(COLON, more)) {
                (Some(Some(name)), Some(more)) => match first_value(more) {
                    Some((value, rest)) => Some(((name, json_string(value)), rest)),
                    None => None,
                },
                _ => None,
            },
            None => None,
        }
    }
}

pub const QUOTE: u8 = 0x22;

pub const COMMA: u8 = 0x2c;

pub const COLON: u8 = 0x3a;

pub const OPEN_BRACE: u8 = 0x7b;

pub const CLOSE_BRACE: u8 = 0x7d;

/// The members in some bytes, separated by commas, up to the end of the object, behind
/// which there is only white space.
pub open spec fn members_in(s: Seq<u8>) -> Option<Seq<(Seq<char>, Option<Option<Seq<char>>>)>>
    decreases s.len(),
    via members_in_decreases
{
    match first_member(s) {
        Some((member, rest)) => match (after(COMMA, rest), after(CLOSE_BRACE, rest)) {
            (Some(more), _) => match members_in(more) {
                Some(others) => Some(seq![member] + others),
                None => None,
            },
            (None, Some(end)) => if skip_blanks(end).len() == 0 {
                Some(seq![member])
            } else {
                None
            },
            (None, None) => None,
        },
        None => None,
    }
}

/// The members of the JSON object that some bytes hold, in order, also those of one name;
/// `None` where they hold no object.
pub open spec fn object_members(bytes: Seq<u8>) -> Option<
    Seq<(Seq<char>, Option<Option<Seq<char>>>)>,
> {
    match after(OPEN_BRACE, bytes) {
        Some(inside) => match after(CLOSE_BRACE, inside) {
            Some(end) => if skip_blanks(end).len() == 0 {
                Some(Seq::empty())
            } else {
                None
            },
            None => members_in(inside),
        },
        None => None,
    }
}

/// The values of the members of a name, in order.
pub open spec fn values_of(
    members: Seq<(Seq<char>, Option<Option<Seq<char>>>)>,
    name: Seq<char>,
) -> Seq<Option<Option<Seq<char>>>>
    decreases members.len(),
{
    if members.len() == 0 {
        Seq::empty()
    } else {
        let before = values_of(members.drop_last(), name);
        if members.last().0 == name {
            before.push(members.last().1)
        } else {
            before
        }
    }
}

proof fn lemma_skip_blanks_shrinks(s: Seq<u8>)
    ensures
        skip_blanks(s).len() <= s.len(),
    decreases s.len(),
{
    if s.len() > 0 && is_blank(s[0]) {
        lemma_skip_blanks_shrinks(s.skip(1));
    }
}

proof fn lemma_first_member_shrinks(s: Seq<u8>)
    ensures
        first_member(s) matches Some((_, rest)) ==> rest.len() <= s.len(),
{
    lemma_skip_blanks_shrinks(s);
    if let Some((_, more)) = first_value(s) {
        lemma_skip_blanks_shrinks(more);
        if let Some(behind) = after(COLON, more) {
            lemma_skip_blanks_shrinks(behind);
        }
    }
}

#[via_fn]
proof fn members_in_decreases(s: Seq<u8>) {
    lemma_first_member_shrinks(s);
    if let Some((_, rest)) = first_member(s) {
        lemma_skip_blanks_shrinks(rest);
    }
}

fn skip_blank_bytes<'a>(s: &'a [u8]) -> (r: &'a [u8])
    ensures
        r@ == skip_blanks(s@),
{
    let mut i: usize = 0;
    assert(s@.skip(0) == s@);
    while i < s.len() && (s[i] == 0x20 || s[i] == 0x0a || s[i] == 0x0d || s[i] == 0x09)
        invariant
            i <= s.len(),
            skip_blanks(s@) == skip_blanks(s@.skip(i as int)),
        decreases s.len() - i,
    {
        assert(s@.skip(i as int).skip(1) == s@.skip(i + 1));
        i += 1;
    }
    let r = slice_subrange(s, i, s.len());
    assert(r@ == s@.skip(i as int));
    r
}

fn skip_byte<'a>(b: u8, s: &'a [u8]) -> (r: Option<&'a [u8]>)
    ensures
        after(b, s@) == (match r {
            Some(rest) => Some(rest@),
            None => None,
        }),
{
    let s = skip_blank_bytes(s);
    if s.len() > 0 && s[0] == b {
        let rest = slice_subrange(s, 1, s.len());
        assert(rest@ == s@.skip(1));
        Some(rest)
    } else {
        None
    }
}

fn split_value<'a>(s: &'a [u8]) -> (r: Option<(&'a [u8], &'a [u8])>)
    ensures
        first_value(s@) == (match r {
            Some((value, rest)) => Some((value@, rest@)),
            None => None,
        }),
{
    let s = skip_blank_bytes(s);
    match find_json_end(s) {
        Some(n) => {
            let value = slice_subrange(s, 0, n);
            let rest = slice_subrange(s, n, s.len());
            assert(value@ == s@.take(n as int));
            assert(rest@ == s@.skip(n as int));
            Some((value, rest))
        },
        None => None,
    }
}

fn split_member<'a>(s: &'a [u8]) -> (r: Option<((String, Option<Option<String>>), &'a [u8])>)
    ensures
        first_member(s@) == (match r {
            Some((member, rest)) => Some(((member.0@, value_view(member.1)), rest@)),
            None => None,
        }),
{
    if skip_byte(QUOTE, s).is_none() {
        return None;
    }
    match split_value(s) {
        Some((key, more)) => match (read_json_string(key), skip_byte(COLON, more)) {
            (Some(Some(name)), Some(more)) => match split_value(more) {
                Some((value, rest)) => Some(((name, read_json_string(value)), rest)),
                None => None,
            },
            _ => None,
        },
        None => None,
    }
}

/// Read the members of the JSON object that some bytes hold, in order, also those of one
/// name.
pub fn read_members(bytes: &[u8]) -> (r: Option<Vec<(String, Option<Option<String>>)>>)
    ensures
        object_members(bytes@) == (match r {
            Some(members) => Some(members_view(members@)),
            None => None,
        }),
{
    let mut members: Vec<(String, Option<Option<String>>)> = Vec::new();
    let inside = match skip_byte(OPEN_BRACE, bytes) {
        Some(inside) => inside,
        None => return None,
    };
    if let Some(end) = skip_byte(CLOSE_BRACE, inside) {
        if skip_blank_bytes(end).len() > 0 {
            return None;
        }
        assert(members_view(members@) =~= Seq::empty());
        return Some(members);
    }
    let ghost want = members_in(inside@);
    let mut rest = inside;
    assert(want == prepended(members_view(members@), members_in(rest@))) by {
        if let Some(others) = members_in(rest@) {
            assert(members_view(members@) + others =~= others);
        }
    }
    loop
        invariant
            object_members(bytes@) == want,
            want == prepended(members_view(members@), members_in(rest@)),
        decreases rest.len(),
    {
        proof {
            lemma_first_member_shrinks(rest@);
        }
        match split_member(rest) {
            Some((member, behind)) => {
                let ghost had = members@;
                let ghost one = (member.0@, value_view(member.1));
                members.push(member);
                assert(members_view(members@) =~= members_view(had).push(one));
                match skip_byte(COMMA, behind) {
                    Some(more) => {
                        proof {
                            lemma_skip_blanks_shrinks(behind@);
                            if let Some(others) = members_in(more@) {
                                assert(members_view(had) + (seq![one] + others) =~= members_view(
                                    members@,
                                ) + others);
                            }
                        }
                        rest = more;
                    },
                    None => match skip_byte(CLOSE_BRACE, behind) {
                        Some(end) => {
                            if skip_blank_bytes(end).len() > 0 {
                                return None;
                            }
                            assert(members_view(had) + seq![one] =~= members_view(members@));
                            return Some(members);
                        },
                        None => return None,
                    },
                }
            },
            None => return None,
        }
    }
}

/// Members with others behind them, where there are any.
spec fn prepended<T>(first: Seq<T>, others: Option<Seq<T>>) -> Option<Seq<T>> {
    match others {
        Some(others) => Some(first + others),
        None => None,
    }
}

/// The values of the members of a name, in order.
pub fn find_values(members: &Vec<(String, Option<Option<String>>)>, name: &str) -> (r: Vec<
    Option<Option<String>>,
>)
    ensures
        values_view(r@) == values_of(members_view(members@), name@),
{
    let ghost all = members_view(members@);
    let mut r: Vec<Option<Option<String>>> = Vec::new();
    let mut i: usize = 0;
    assert(all.take(0) == Seq::<(Seq<char>, Option<Option<Seq<char>>>)>::empty());
    assert(values_view(r@) =~= Seq::empty());
    while i < members.len()
        invariant
            i <= members.len(),
            all == members_view(members@),
            values_view(r@) == values_of(all.take(i as int), name@),
        decreases members.len() - i,
    {
        assert(all.take(i + 1).drop_last() == all.take(i as int));
        assert(all.take(i + 1).last() == all[i as int]);
        if crate::text::same(members[i].0.as_str(), name) {
            let value = match &members[i].1 {
                Some(v) => Some(crate::text::clone_opt(v)),
                None => None,
            };
            let ghost had = r@;
            r.push(value);
            assert(values_view(r@) =~= values_view(had).push(value_view(value)));
        }
        i += 1;
    }
    assert(all.take(all.len() as int) == all);
    r
}

/// Values that may be strings or null, as mathematical values.
pub open spec fn values_view(v: Seq<Option<Option<String>>>) -> Seq<Option<Option<Seq<char>>>> {
    Seq::new(v.len(), |i: int| value_view(v[i]))
}

// ---------------------------------------------------------------------------
// Base64
// ---------------------------------------------------------------------------

/// What `base64`'s `URL_SAFE_NO_PAD` engine decodes a text to, where the text is
/// well-formed.
pub uninterp spec fn base64_decoding(text: Seq<char>) -> Option<Seq<u8>>;

/// `Engine::decode` of `base64`'s `URL_SAFE_NO_PAD`. Its result depends on the
/// text alone and is called `base64_decoding` here.
#[verifier::external_body]
pub(crate) fn decode_base64(text: &str) -> (r: Option<Vec<u8>>)
    ensures
        base64_decoding(text@) == (match r {
            Some(bytes) => Some(bytes@),
            None => None,
        }),
{
    base64::engine::general_purpose::URL_SAFE_NO_PAD.decode(text).ok()
}

/// What `base64`'s `URL_SAFE_NO_PAD` engine encodes some bytes to.
pub uninterp spec fn base64_encoding(bytes: Seq<u8>) -> Seq<char>;

/// Whether a character belongs to the URL-safe alphabet of base64, which a query
/// string holds as it is. The padding `=` does not.
pub open spec fn url_safe(c: char) -> bool {
    let n = c as u32;
    ||| 'A' as u32 <= n <= 'Z' as u32
    ||| 'a' as u32 <= n <= 'z' as u32
    ||| '0' as u32 <= n <= '9' as u32
    ||| c == '-'
    ||| c == '_'
}

/// `Engine::encode` of `base64`'s `URL_SAFE_NO_PAD`. The text is called
/// `base64_encoding` here. It is written in the URL-safe alphabet without padding,
/// and decoding it gives the bytes back.
#[verifier::external_body]
pub(crate) fn encode_base64(bytes: &[u8]) -> (r: String)
    ensures
        r@ == base64_encoding(bytes@),
        base64_decoding(r@) == Some(bytes@),
        forall|i: int| 0 <= i < r@.len() ==> url_safe(#[trigger] r@[i]),
{
    base64::engine::general_purpose::URL_SAFE_NO_PAD.encode(bytes)
}

} // verus!
