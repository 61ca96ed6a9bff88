//! Finding one text in another, and replacing it.
use crate::text::{substring, to_chars};
use vstd::prelude::*;

verus! {

/// The texts in a list of string slices.
pub open spec fn str_texts(v: Seq<&str>) -> Seq<Seq<char>> {
    Seq::new(v.len(), |i: int| v[i]@)
}

/// Whether `needle` stands in `text` at the index `at`.
pub open spec fn occurs_at(text: Seq<char>, needle: Seq<char>, at: int) -> bool {
    0 <= at && at + needle.len() <= text.len() && text.subrange(at, at + needle.len()) == needle
}

/// The first place at or after `from` where `needle` stands in `text`.
pub open spec fn find_from(text: Seq<char>, needle: Seq<char>, from: nat) -> Option<nat>
    decreases text.len() + 1 - from,
{
    if from + needle.len() > text.len() {
        None
    } else if occurs_at(text, needle, from as int) {
        Some(from)
    } else {
        find_from(text, needle, from + 1)
    }
}

/// Whether `needle` stands somewhere in `text`.
pub open spec fn contains(text: Seq<char>, needle: Seq<char>) -> bool {
    exists|at: int| occurs_at(text, needle, at)
}

/// `find_from` gives the first place, if there is one.
pub proof fn lemma_find_from(text: Seq<char>, needle: Seq<char>, from: nat)
    ensures
        match find_from(text, needle, from) {
            Some(at) => from <= at && occurs_at(text, needle, at as int) && forall|j: int|
                from <= j < at ==> !#[trigger] occurs_at(text, needle, j),
            None => forall|j: int| from <= j ==> !#[trigger] occurs_at(text, needle, j),
        },
    decreases text.len() + 1 - from,
{
    if from + needle.len() > text.len() {
    } else if occurs_at(text, needle, from as int) {
    } else {
        lemma_find_from(text, needle, from + 1);
    }
}

fn stands_at(text: &Vec<char>, needle: &Vec<char>, at: usize) -> (r: bool)
    requires
        at + needle.len() <= text.len(),
    ensures
        r == occurs_at(text@, needle@, at as int),
{
    let mut i: usize = 0;
    let ghost piece = text@.subrange(at as int, at + needle@.len());
    while i < needle.len()
        invariant
            i <= needle.len(),
            at + needle.len() <= text.len(),
            piece == text@.subrange(at as int, at + needle@.len()),
            forall|j: int| 0 <= j < i ==> piece[j] == needle@[j],
        decreases needle.len() - i,
    {
        if text[at + i] != needle[i] {
            assert(piece[i as int] != needle@[i as int]);
            return false;
        }
        i += 1;
    }
    assert(piece == needle@);
    true
}

/// The first place at or after `from` where `needle` stands in `text`.
pub fn find(text: &Vec<char>, needle: &Vec<char>, from: usize) -> (r: Option<usize>)
    requires
        from <= text.len(),
    ensures
        match r {
            Some(at) => find_from(text@, needle@, from as nat) == Some(at as nat) && at
                <= text.len(),
            None => find_from(text@, needle@, from as nat) is None,
        },
{
    let mut at: usize = from;
    loop
        invariant
            at <= text.len(),
            find_from(text@, needle@, from as nat) == find_from(text@, needle@, at as nat),
        decreases text.len() - at,
    {
        if needle.len() > text.len() - at {
            return None;
        }
        if stands_at(text, needle, at) {
            return Some(at);
        }
        if at == text.len() {
            assert(needle@.len() == 0);
            assert(text@.subrange(at as int, at as int) == needle@);
            return None;
        }
        at += 1;
    }
}

/// Whether `needle` stands somewhere in `text`.
pub fn contains_text(text: &str, needle: &str) -> (r: bool)
    ensures
        r == contains(text@, needle@),
{
    let t = to_chars(text);
    let n = to_chars(needle);
    proof {
        lemma_find_from(text@, needle@, 0);
    }
    find(&t, &n, 0).is_some()
}

/// Whether a text starts with another.
pub fn starts_with(text: &str, prefix: &str) -> (r: bool)
    ensures
        r == occurs_at(text@, prefix@, 0),
{
    let t = to_chars(text);
    let p = to_chars(prefix);
    if p.len() > t.len() {
        return false;
    }
    stands_at(&t, &p, 0)
}

// ---------------------------------------------------------------------------
// Replacing
// ---------------------------------------------------------------------------

/// `text` from the index `from`, with every further `pattern` replaced, from left
/// to right.
pub open spec fn replaced_from(
    text: Seq<char>,
    pattern: Seq<char>,
    to: Seq<char>,
    from: nat,
) -> Seq<char>
    decreases text.len() + 1 - from,
    when pattern.len() > 0
{
    proof {
        lemma_find_from(text, pattern, from);
    }
    match find_from(text, pattern, from) {
        Some(at) => text.subrange(from as int, at as int) + to + replaced_from(
            text,
            pattern,
            to,
            at + pattern.len(),
        ),
        None => text.skip(from as int),
    }
}

/// `text` with every `pattern` replaced.
pub open spec fn replaced(text: Seq<char>, pattern: Seq<char>, to: Seq<char>) -> Seq<char> {
    replaced_from(text, pattern, to, 0)
}

/// `text` with every `pattern` replaced.
pub fn replace(text: &str, pattern: &str, to: &str) -> (r: String)
    requires
        pattern@.len() > 0,
    ensures
        r@ == replaced(text@, pattern@, to@),
{
    let chars = to_chars(text);
    let wanted = to_chars(pattern);
    let mut r = String::new();
    let mut from: usize = 0;
    assert(r@ + replaced(text@, pattern@, to@) == replaced(text@, pattern@, to@));
    loop
        invariant
            from <= chars.len(),
            chars@ == text@,
            wanted@ == pattern@,
            pattern@.len() > 0,
            replaced(text@, pattern@, to@) == r@ + replaced_from(
                text@,
                pattern@,
                to@,
                from as nat,
            ),
        decreases chars.len() - from,
    {
        proof {
            lemma_find_from(text@, pattern@, from as nat);
        }
        match find(&chars, &wanted, from) {
            Some(at) => {
                let ghost before = r@;
                r.append(substring(&chars, from, at).as_str());
                r.append(to);
                proof {
                    let rest = replaced_from(
                        text@,
                        pattern@,
                        to@,
                        (at + pattern@.len()) as nat,
                    );
                    let piece = text@.subrange(from as int, at as int);
                    assert(before + (piece + to@ + rest) == r@ + rest);
                }
                from = at + wanted.len();
            },
            None => {
                r.append(substring(&chars, from, chars.len()).as_str());
                assert(text@.subrange(from as int, text@.len() as int) == text@.skip(from as int));
                return r;
            },
        }
    }
}

} // verus!
