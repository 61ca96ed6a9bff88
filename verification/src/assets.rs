//! Delivery of the files of the site.
//!
//! The files refer to each other relative to the page, so the path of a request is the
//! path of a file once the leading slashes are off. A path without a file gets the
//! start page, which resolves it in the browser.
use crate::text::{opt_str_text, substring, to_chars};
use vstd::prelude::*;

verus! {

/// The start page.
pub const INDEX_PAGE: &'static str = "index.html";

/// A text without its leading slashes.
pub open spec fn without_slashes(path: Seq<char>) -> Seq<char>
    decreases path.len(),
{
    if path.len() > 0 && path[0] == '/' {
        without_slashes(path.skip(1))
    } else {
        path
    }
}

/// The path of a file for the path of a request.
pub open spec fn file_path(path: Seq<char>) -> Seq<char> {
    if without_slashes(path).len() == 0 {
        INDEX_PAGE@
    } else {
        without_slashes(path)
    }
}

/// The path of a file for the path of a request: without leading slashes, and the start
/// page where nothing is left.
pub fn normalize_path(path: &str) -> (r: String)
    ensures
        r@ == file_path(path@),
{
    let chars = to_chars(path);
    let mut i: usize = 0;
    assert(path@.skip(0) == path@);
    while i < chars.len() && chars[i] == '/'
        invariant
            i <= chars.len(),
            chars@ == path@,
            without_slashes(path@.skip(i as int)) == without_slashes(path@),
        decreases chars.len() - i,
    {
        assert(path@.skip(i as int).skip(1) == path@.skip(i + 1));
        i += 1;
    }
    if i == chars.len() {
        return INDEX_PAGE.to_owned();
    }
    let r = substring(&chars, i, chars.len());
    assert(path@.subrange(i as int, path@.len() as int) == path@.skip(i as int));
    r
}

/// The path of a file never starts with a slash and is never empty, and a path that is
/// one already stays as it is.
pub proof fn lemma_file_path_is_relative(path: Seq<char>)
    ensures
        file_path(path).len() > 0,
        file_path(path)[0] != '/',
        file_path(file_path(path)) == file_path(path),
    decreases path.len(),
{
    reveal_strlit("index.html");
    if path.len() > 0 && path[0] == '/' {
        lemma_file_path_is_relative(path.skip(1));
    }
}

/// What `mime_guess` takes the media type of a file to be, by its path.
pub uninterp spec fn mime_type(path: Seq<char>) -> Seq<char>;

/// `mime_guess::from_path` and `MimeGuess::first_or_octet_stream`: the first media type
/// known for the extension of the path, or `application/octet-stream`. It depends on
/// the path alone, and the text of it is called `mime_type` here.
#[verifier::external_body]
pub(crate) fn guess_mime(path: &str) -> (r: String)
    ensures
        r@ == mime_type(path@),
{
    mime_guess::from_path(path).first_or_octet_stream().as_ref().to_string()
}

/// A reply with a file.
#[derive(Debug)]
pub struct AssetReply {
    pub status: u16,
    pub content_type: String,
    pub body: Vec<u8>,
}

/// A reply with a file, of the given media type or of the one that its path tells.
pub fn asset_response(path: &str, bytes: Vec<u8>, content_type: Option<&str>) -> (r: AssetReply)
    ensures
        r.status == 200,
        r.body == bytes,
        r.content_type@ == (match opt_str_text(content_type) {
            Some(given) => given,
            None => mime_type(path@),
        }),
{
    let content_type = match content_type {
        Some(given) => given.to_owned(),
        None => guess_mime(path),
    };
    AssetReply { status: 200, content_type, body: bytes }
}

/// What is said where not even the start page is there.
pub const EMPTY_BUNDLE: &'static str = "dbt docs SPA bundle is empty";

/// What is said by a server without the files of the site.
pub const NO_BUNDLE: &'static str = "dbt-docs-server built without a UI backend (enable `embed-ui`)";

/// The file of a request, from the files at `path`, as [`normalize_path`] made it, and at
/// the start page: the file itself, else the start page, else 404.
pub fn serve_asset(path: &str, file: Option<Vec<u8>>, index: Option<Vec<u8>>) -> (r: Result<
    AssetReply,
    &'static str,
>)
    ensures
        match (file, index) {
            (Some(bytes), _) => r matches Ok(reply) && reply.status == 200 && reply.body == bytes
                && reply.content_type@ == mime_type(path@),
            (None, Some(bytes)) => r matches Ok(reply) && reply.status == 200 && reply.body
                == bytes && reply.content_type@ == mime_type(INDEX_PAGE@),
            (None, None) => r matches Err(text) && text@ == EMPTY_BUNDLE@,
        },
{
    match file {
        Some(bytes) => Ok(asset_response(path, bytes, None)),
        None => match index {
            Some(bytes) => Ok(asset_response(INDEX_PAGE, bytes, None)),
            None => Err(EMPTY_BUNDLE),
        },
    }
}

} // verus!
