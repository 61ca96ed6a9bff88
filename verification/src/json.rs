//! JSON bodies of HTTP replies: errors, wrapped lists, and values that a column
//! holds as JSON text.
use crate::encoding::{json_inner, read_json_text, reading_view, JsonNode, JsonView};
use crate::text::{to_chars, trim, trimmed};
use vstd::prelude::*;

verus! {

// ---------------------------------------------------------------------------
// Errors
// ---------------------------------------------------------------------------

/// A reply to a request that failed: the HTTP status, and the fields of the JSON
/// object in the body.
#[derive(Debug)]
pub struct ErrorReply {
    pub status: u16,
    pub fields: Vec<(String, String)>,
}

/// What an `ErrorReply` holds.
#[verifier::ext_equal]
pub ghost struct ErrorView {
    pub status: u16,
    pub fields: Seq<(Seq<char>, Seq<char>)>,
}

impl View for ErrorReply {
    type V = ErrorView;

    open spec fn view(&self) -> ErrorView {
        ErrorView {
            status: self.status,
            fields: crate::encoding::fields_view(self.fields@),
        }
    }
}

/// A reply whose body is `{"error": msg}`.
pub open spec fn error_view(status: u16, msg: Seq<char>) -> ErrorView {
    ErrorView { status, fields: seq![("error"@, msg)] }
}

/// A 400 whose body is `{"code": code, "message": message}`.
pub open spec fn coded_view(code: Seq<char>, message: Seq<char>) -> ErrorView {
    ErrorView { status: 400, fields: seq![("code"@, code), ("message"@, message)] }
}

fn error_reply(status: u16, msg: String) -> (r: ErrorReply)
    ensures
        r@ == error_view(status, msg@),
{
    let mut fields: Vec<(String, String)> = Vec::new();
    fields.push(("error".to_owned(), msg));
    let r = ErrorReply { status, fields };
    assert(r@.fields =~= seq![("error"@, msg@)]);
    r
}

/// 500 with what went wrong.
pub fn internal_error(msg: String) -> (r: ErrorReply)
    ensures
        r@ == error_view(500, msg@),
{
    error_reply(500, msg)
}

/// 400 with what is wrong with the request.
pub fn bad_request(msg: &str) -> (r: ErrorReply)
    ensures
        r@ == error_view(400, msg@),
{
    error_reply(400, msg.to_owned())
}

/// 400 with a stable machine-readable `code` and a human-readable `message`.
pub fn bad_request_coded(code: &str, message: &str) -> (r: ErrorReply)
    ensures
        r@ == coded_view(code@, message@),
{
    let mut fields: Vec<(String, String)> = Vec::new();
    fields.push(("code".to_owned(), code.to_owned()));
    fields.push(("message".to_owned(), message.to_owned()));
    let r = ErrorReply { status: 400, fields };
    assert(r@.fields =~= seq![("code"@, code@), ("message"@, message@)]);
    r
}

/// 404 with what was not found.
pub fn not_found(msg: String) -> (r: ErrorReply)
    ensures
        r@ == error_view(404, msg@),
{
    error_reply(404, msg)
}

/// Whether a text can be the unique id in a request: not empty, and without a
/// single quote.
pub open spec fn valid_id(id: Seq<char>) -> bool {
    id.len() > 0 && !id.contains('\'')
}

/// Check the unique id in a request.
pub fn check_unique_id(id: &str) -> (r: Result<(), ErrorReply>)
    ensures
        match r {
            Ok(_) => valid_id(id@),
            Err(e) => !valid_id(id@) && e@ == error_view(400, "invalid unique_id"@),
        },
{
    let chars = to_chars(id);
    let mut i: usize = 0;
    while i < chars.len()
        invariant
            i <= chars.len(),
            chars@ == id@,
            forall|j: int| 0 <= j < i ==> id@[j] != '\'',
        decreases chars.len() - i,
    {
        if chars[i] == '\'' {
            assert(id@.contains('\''));
            return Err(bad_request("invalid unique_id"));
        }
        i += 1;
    }
    if chars.len() == 0 {
        return Err(bad_request("invalid unique_id"));
    }
    Ok(())
}

// ---------------------------------------------------------------------------
// Rows as JSON
// ---------------------------------------------------------------------------

/// The JSON array of what a writer of rows wrote: the empty array where it wrote
/// nothing.
pub open spec fn array_text(written: Seq<char>) -> Seq<char> {
    if written.len() == 0 {
        "[]"@
    } else {
        written
    }
}

/// The JSON array of what a writer of rows wrote: the empty array where it wrote
/// nothing, so that callers get valid JSON.
pub fn batches_as_json_array(written: &str) -> (r: String)
    ensures
        r@ == array_text(written@),
{
    if written.is_empty() {
        "[]".to_owned()
    } else {
        written.to_owned()
    }
}

/// The further fields of an object, each after a comma.
pub open spec fn extra_text(extra: Seq<(Seq<char>, Seq<char>)>) -> Seq<char>
    decreases extra.len(),
{
    if extra.len() == 0 {
        Seq::empty()
    } else {
        extra_text(extra.drop_last()) + ",\""@ + extra.last().0 + "\":"@ + extra.last().1
    }
}

/// What a writer of rows wrote, or the empty array where the text so far still
/// ends in a colon.
pub open spec fn rows_text(before: Seq<char>, written: Seq<char>) -> Seq<char> {
    let so_far = before + written;
    if so_far.len() > 0 && so_far.last() == ':' {
        so_far + "[]"@
    } else {
        so_far
    }
}

/// The object `{"<field>": <array>, ...extra}`.
pub open spec fn wrapped_list(
    field: Seq<char>,
    written: Seq<char>,
    extra: Seq<(Seq<char>, Seq<char>)>,
) -> Seq<char> {
    rows_text("{\""@ + field + "\":"@, written) + extra_text(extra) + "}"@
}

/// Render what a writer of rows wrote as `{"<field>": <array>, ...extra}`. The
/// values of the extra fields are JSON already.
pub fn wrapped_list_response(
    field: &str,
    written: &str,
    extra_json: &Vec<(String, String)>,
) -> (r: String)
    ensures
        r@ == wrapped_list(field@, written@, crate::encoding::fields_view(extra_json@)),
{
    let mut r = "{\"".to_owned();
    r.append(field);
    r.append("\":");
    r.append(written);
    let chars = to_chars(r.as_str());
    if chars.len() > 0 && chars[chars.len() - 1] == ':' {
        r.append("[]");
    }
    let ghost head = r@;
    let ghost extra = crate::encoding::fields_view(extra_json@);
    let mut i: usize = 0;
    assert(extra.take(0) == Seq::<(Seq<char>, Seq<char>)>::empty());
    while i < extra_json.len()
        invariant
            i <= extra_json.len(),
            extra == crate::encoding::fields_view(extra_json@),
            r@ == head + extra_text(extra.take(i as int)),
        decreases extra_json.len() - i,
    {
        assert(extra.take(i + 1).drop_last() == extra.take(i as int));
        r.append(",\"");
        r.append(extra_json[i].0.as_str());
        r.append("\":");
        r.append(extra_json[i].1.as_str());
        i += 1;
    }
    assert(extra.take(extra.len() as int) == extra);
    r.append("}");
    r
}

/// The one row of a JSON array, from the rows that were written of a query with
/// at most one row; `None` where there is none.
pub open spec fn only_row(reading: Result<JsonView, Seq<char>>) -> Result<
    Option<Seq<char>>,
    Seq<char>,
> {
    match reading {
        Ok(JsonView::Array(items)) => if items.len() > 0 {
            Ok(Some(items.last()))
        } else {
            Ok(None)
        },
        Ok(_) => Ok(None),
        Err(e) => Err(e),
    }
}

/// The one row of a JSON array.
pub fn pick_row(reading: Result<JsonNode, String>) -> (r: Result<Option<String>, String>)
    ensures
        only_row(reading_view(reading)) == (match r {
            Ok(Some(row)) => Ok(Some(row@)),
            Ok(None) => Ok(None),
            Err(e) => Err(e@),
        }),
{
    match reading {
        Ok(JsonNode::Array(items)) => if items.len() > 0 {
            Ok(Some(items[items.len() - 1].clone()))
        } else {
            Ok(None)
        },
        Ok(_) => Ok(None),
        Err(e) => Err(e),
    }
}

/// The first row of a query as a JSON object, from the JSON array that was
/// written of it; `None` where the query gave no row.
pub open spec fn first_object(written: Option<Seq<char>>) -> Result<Option<Seq<char>>, Seq<char>> {
    match written {
        Some(text) => only_row(json_inner(text)),
        None => Ok(None),
    }
}

/// For queries of at most one row: the first row as JSON, from the JSON array
/// that was written of it. `None` where the query gave no row.
pub fn first_row_as_object(written: Option<&str>) -> (r: Result<Option<String>, String>)
    ensures
        first_object(crate::text::opt_str_text(written)) == (match r {
            Ok(Some(row)) => Ok(Some(row@)),
            Ok(None) => Ok(None),
            Err(e) => Err(e@),
        }),
{
    match written {
        Some(text) => pick_row(read_json_text(text)),
        None => Ok(None),
    }
}

/// All rows of a query as a JSON value, from what a writer of rows wrote.
pub fn batches_as_value_array(written: &str) -> (r: Result<JsonNode, String>)
    ensures
        reading_view(r) == json_inner(array_text(written@)),
{
    read_json_text(batches_as_json_array(written).as_str())
}

// ---------------------------------------------------------------------------
// Columns that hold JSON
// ---------------------------------------------------------------------------

/// A reading, or null where it failed.
pub open spec fn or_null(reading: Result<JsonView, Seq<char>>) -> JsonView {
    match reading {
        Ok(v) => v,
        Err(_) => JsonView::Null,
    }
}

/// The JSON value of a column: null where the cell is null, blank or malformed.
pub open spec fn parsed_or_null(s: Option<Seq<char>>) -> JsonView {
    match s {
        Some(text) => if trimmed(text).len() == 0 {
            JsonView::Null
        } else {
            or_null(json_inner(trimmed(text)))
        },
        None => JsonView::Null,
    }
}

/// A reading, or null where it failed.
pub fn value_or_null(reading: Result<JsonNode, String>) -> (r: JsonNode)
    ensures
        r@ == or_null(reading_view(reading)),
{
    match reading {
        Ok(v) => v,
        Err(_) => JsonNode::Null,
    }
}

/// Parse a column that holds JSON text. A null cell, a blank text and a malformed
/// one all give null: a bad value never reaches the client as an error.
pub fn json_parse_or_null(s: Option<&str>) -> (r: JsonNode)
    ensures
        r@ == parsed_or_null(crate::text::opt_str_text(s)),
{
    match s {
        Some(text) => {
            let text = trim(text);
            if text.as_str().is_empty() {
                JsonNode::Null
            } else {
                value_or_null(read_json_text(text.as_str()))
            }
        },
        None => JsonNode::Null,
    }
}

} // verus!
