//! Marking the matches of a search in a text.
//!
//! A match is looked for without regard to case and marked in the text itself. Both
//! go by characters: the text is folded to lower case character by character, so
//! that a match in the folded text has its place in the text.
use crate::find::{contains, contains_text, find, find_from, lemma_find_from, str_texts};
use crate::order::{comes_first, precedes};
use crate::text::{join, joined, lowercase, substring, texts, to_chars, to_lowercase};
use vstd::prelude::*;

verus! {

// ---------------------------------------------------------------------------
// Folding
// ---------------------------------------------------------------------------

/// The lower case of a character, where that is one character; else the character
/// itself.
pub open spec fn single(c: char, lower: Seq<char>) -> char {
    if lower.len() == 1 {
        lower[0]
    } else {
        c
    }
}

/// The lower case of a text, where that is as long as the text; else the lower case of
/// each of its characters.
pub open spec fn aligned(lower: Seq<char>, each: Seq<char>) -> Seq<char> {
    if lower.len() == each.len() {
        lower
    } else {
        each
    }
}

/// A text without regard to case, one character for each of its own.
pub open spec fn folded(text: Seq<char>) -> Seq<char> {
    aligned(
        lowercase(text),
        Seq::new(text.len(), |i: int| single(text[i], lowercase(seq![text[i]]))),
    )
}

/// Texts without regard to case.
pub open spec fn each_folded(texts: Seq<Seq<char>>) -> Seq<Seq<char>> {
    Seq::new(texts.len(), |i: int| folded(texts[i]))
}

/// The lower case of a character, where that is one character.
pub fn pick_single(c: char, lower: &Vec<char>) -> (r: char)
    ensures
        r == single(c, lower@),
{
    if lower.len() == 1 {
        lower[0]
    } else {
        c
    }
}

/// The lower case of a text, where that is as long as the text.
pub fn pick_aligned(lower: Vec<char>, each: Vec<char>) -> (r: Vec<char>)
    ensures
        r@ == aligned(lower@, each@),
        r.len() == each.len(),
{
    if lower.len() == each.len() {
        lower
    } else {
        each
    }
}

/// Fold a text.
pub fn fold(text: &str) -> (r: Vec<char>)
    ensures
        r@ == folded(text@),
        r.len() == text@.len(),
{
    let chars = to_chars(text);
    let mut each: Vec<char> = Vec::new();
    let mut i: usize = 0;
    while i < chars.len()
        invariant
            i <= chars.len(),
            each.len() == i,
            forall|j: int|
                0 <= j < i ==> #[trigger] each@[j] == single(chars@[j], lowercase(seq![chars@[j]])),
        decreases chars.len() - i,
    {
        let c = chars[i];
        let mut one = String::new();
        one.push(c);
        assert(one@ == seq![c]);
        let lower = to_chars(to_lowercase(one.as_str()).as_str());
        each.push(pick_single(c, &lower));
        i += 1;
    }
    assert(each@ =~= Seq::new(
        text@.len(),
        |i: int| single(text@[i], lowercase(seq![text@[i]])),
    ));
    pick_aligned(to_chars(to_lowercase(text).as_str()), each)
}

/// The characters of some texts.
pub open spec fn chars_view(v: Seq<Vec<char>>) -> Seq<Seq<char>> {
    Seq::new(v.len(), |i: int| v[i]@)
}

/// Fold some texts.
pub fn fold_each(texts: &[&str]) -> (r: Vec<Vec<char>>)
    ensures
        chars_view(r@) == each_folded(str_texts(texts@)),
{
    let mut r: Vec<Vec<char>> = Vec::new();
    let mut i: usize = 0;
    while i < texts.len()
        invariant
            i <= texts.len(),
            r.len() == i,
            forall|j: int| 0 <= j < i ==> (#[trigger] r@[j])@ == folded(texts@[j]@),
        decreases texts.len() - i,
    {
        r.push(fold(texts[i]));
        i += 1;
    }
    assert(chars_view(r@) =~= each_folded(str_texts(texts@)));
    r
}

// ---------------------------------------------------------------------------
// Marks
// ---------------------------------------------------------------------------

/// Whether one match of `needle` holds the characters from `a` to `b`. The matches are
/// taken from left to right from the index `from` on; none begins inside another.
pub open spec fn holds(text: Seq<char>, needle: Seq<char>, from: nat, a: int, b: int) -> bool
    decreases text.len() + 1 - from,
    when needle.len() > 0
    via holds_decreases
{
    match find_from(text, needle, from) {
        Some(at) => (at <= a && b < at + needle.len()) || holds(
            text,
            needle,
            at + needle.len(),
            a,
            b,
        ),
        None => false,
    }
}

#[via_fn]
proof fn holds_decreases(text: Seq<char>, needle: Seq<char>, from: nat, a: int, b: int) {
    lemma_find_from(text, needle, from);
}

/// Whether a match of some needle holds the characters from `a` to `b` of a folded text.
/// Empty needles match nothing.
pub open spec fn matched(lower: Seq<char>, needles: Seq<Seq<char>>, a: int, b: int) -> bool {
    exists|k: int|
        0 <= k < needles.len() && (#[trigger] needles[k]).len() > 0 && holds(
            lower,
            needles[k],
            0,
            a,
            b,
        )
}

/// What stands before the character `i`: a mark opens where a match begins that no
/// other match reaches into.
pub open spec fn opening(lower: Seq<char>, needles: Seq<Seq<char>>, i: int) -> Seq<char> {
    if matched(lower, needles, i, i) && !matched(lower, needles, i - 1, i) {
        "<b>"@
    } else {
        ""@
    }
}

/// What stands behind the character `i`: a mark closes where a match ends that does
/// not reach into another.
pub open spec fn closing(lower: Seq<char>, needles: Seq<Seq<char>>, i: int) -> Seq<char> {
    if matched(lower, needles, i, i) && !matched(lower, needles, i, i + 1) {
        "</b>"@
    } else {
        ""@
    }
}

/// A text from the character `from` on, with every match of each needle marked.
pub open spec fn marked_from(
    text: Seq<char>,
    lower: Seq<char>,
    needles: Seq<Seq<char>>,
    from: int,
) -> Seq<char>
    decreases text.len() - from,
{
    if 0 <= from < text.len() {
        opening(lower, needles, from) + seq![text[from]] + closing(lower, needles, from)
            + marked_from(text, lower, needles, from + 1)
    } else {
        Seq::empty()
    }
}

/// A text with every match marked that its folded form has of each needle. The matches
/// are those in the text itself; matches of different needles that share characters are
/// marked as one.
pub open spec fn marked(text: Seq<char>, lower: Seq<char>, needles: Seq<Seq<char>>) -> Seq<char> {
    marked_from(text, lower, needles, 0)
}

/// A text with every match of each token marked, without regard to case.
pub open spec fn highlighted(text: Seq<char>, tokens: Seq<Seq<char>>) -> Seq<char> {
    marked(text, folded(text), each_folded(tokens))
}

proof fn lemma_holds_part(
    text: Seq<char>,
    needle: Seq<char>,
    from: nat,
    a: int,
    b: int,
    i: int,
    j: int,
)
    requires
        needle.len() > 0,
        holds(text, needle, from, a, b),
        a <= i,
        j <= b,
    ensures
        holds(text, needle, from, i, j),
    decreases text.len() + 1 - from,
{
    lemma_find_from(text, needle, from);
    let at = find_from(text, needle, from)->0;
    if !(at <= a && b < at + needle.len()) {
        lemma_holds_part(text, needle, at + needle.len(), a, b, i, j);
    }
}

/// Every match is marked, with no mark inside it: each of its characters stands between
/// marks, and between two of them no mark closes or opens.
pub proof fn lemma_match_is_marked(
    lower: Seq<char>,
    needles: Seq<Seq<char>>,
    k: int,
    a: int,
    b: int,
    i: int,
)
    requires
        0 <= k < needles.len(),
        needles[k].len() > 0,
        holds(lower, needles[k], 0, a, b),
        a <= i <= b,
    ensures
        matched(lower, needles, i, i),
        a < i ==> closing(lower, needles, i - 1) == ""@ && opening(lower, needles, i) == ""@,
{
    lemma_holds_part(lower, needles[k], 0, a, b, i, i);
    if a < i {
        lemma_holds_part(lower, needles[k], 0, a, b, i - 1, i);
        assert(matched(lower, needles, i - 1, i));
    }
}

/// Where nothing matches, nothing is marked.
pub proof fn lemma_no_match_no_marks(text: Seq<char>, lower: Seq<char>, needles: Seq<Seq<char>>)
    requires
        forall|k: int|
            0 <= k < needles.len() && (#[trigger] needles[k]).len() > 0 ==> find_from(
                lower,
                needles[k],
                0,
            ) is None,
    ensures
        marked(text, lower, needles) == text,
{
    lemma_no_marks_from(text, lower, needles, 0);
    assert(text.skip(0) == text);
}

proof fn lemma_no_marks_from(
    text: Seq<char>,
    lower: Seq<char>,
    needles: Seq<Seq<char>>,
    from: int,
)
    requires
        0 <= from <= text.len(),
        forall|k: int|
            0 <= k < needles.len() && (#[trigger] needles[k]).len() > 0 ==> find_from(
                lower,
                needles[k],
                0,
            ) is None,
    ensures
        marked_from(text, lower, needles, from) == text.skip(from),
    decreases text.len() - from,
{
    if from < text.len() {
        lemma_no_marks_from(text, lower, needles, from + 1);
        reveal_strlit("");
        assert(!matched(lower, needles, from, from));
        assert(marked_from(text, lower, needles, from) =~= text.skip(from));
    } else {
        assert(marked_from(text, lower, needles, from) =~= text.skip(from));
    }
}

/// Whether `out` is `text` with `<b>` and `</b>` put in at some places.
pub open spec fn adds_marks(text: Seq<char>, out: Seq<char>) -> bool
    decreases out.len(),
{
    ||| text == out
    ||| (text.len() > 0 && out.len() > 0 && text[0] == out[0] && adds_marks(
        text.skip(1),
        out.skip(1),
    ))
    ||| (out.len() >= 3 && out.take(3) == seq!['<', 'b', '>'] && adds_marks(text, out.skip(3)))
    ||| (out.len() >= 4 && out.take(4) == seq!['<', '/', 'b', '>'] && adds_marks(
        text,
        out.skip(4),
    ))
}

proof fn lemma_adds_marks_from(
    text: Seq<char>,
    lower: Seq<char>,
    needles: Seq<Seq<char>>,
    from: int,
)
    requires
        0 <= from <= text.len(),
    ensures
        adds_marks(text.skip(from), marked_from(text, lower, needles, from)),
    decreases text.len() - from,
{
    if from < text.len() {
        lemma_adds_marks_from(text, lower, needles, from + 1);
        let rest = marked_from(text, lower, needles, from + 1);
        let behind = closing(lower, needles, from) + rest;
        let middle = seq![text[from]] + behind;
        let out = opening(lower, needles, from) + middle;
        reveal_strlit("");
        reveal_strlit("<b>");
        reveal_strlit("</b>");
        if closing(lower, needles, from).len() == 0 {
            assert(behind == rest);
        } else {
            assert(behind.take(4) == seq!['<', '/', 'b', '>']);
            assert(behind.skip(4) == rest);
        }
        assert(adds_marks(text.skip(from + 1), behind));
        assert(middle.skip(1) == behind);
        assert(text.skip(from).skip(1) == text.skip(from + 1));
        assert(adds_marks(text.skip(from), middle));
        if opening(lower, needles, from).len() == 0 {
            assert(out == middle);
        } else {
            assert(out.take(3) == seq!['<', 'b', '>']);
            assert(out.skip(3) == middle);
        }
        assert(adds_marks(text.skip(from), out));
        assert(out =~= marked_from(text, lower, needles, from));
    } else {
        assert(text.skip(from) =~= marked_from(text, lower, needles, from));
    }
}

/// Marking changes nothing in a text but putting marks in: the case of the text stays
/// as it is.
pub proof fn lemma_marking_keeps_text(text: Seq<char>, lower: Seq<char>, needles: Seq<Seq<char>>)
    ensures
        adds_marks(text, marked(text, lower, needles)),
{
    lemma_adds_marks_from(text, lower, needles, 0);
    assert(text.skip(0) == text);
}

/// Set a range of flags.
fn set_range(flags: &mut Vec<bool>, from: usize, to: usize)
    requires
        to <= old(flags).len(),
    ensures
        final(flags).len() == old(flags).len(),
        forall|i: int|
            0 <= i < final(flags).len() ==> #[trigger] final(flags)@[i] == (old(flags)@[i] || from
                <= i < to),
{
    let ghost had = flags@;
    let mut i: usize = from;
    while i < to
        invariant
            from <= i <= to || to < from && i == from,
            to <= flags.len(),
            flags.len() == had.len(),
            forall|j: int|
                0 <= j < flags.len() ==> #[trigger] flags@[j] == (had[j] || from <= j < i),
        decreases to - i,
    {
        flags.set(i, true);
        i += 1;
    }
}

/// Whether the flag of a character, together with what matches from `pos` on add to it, is
/// an earlier flag together with what all matches add: where a match holds the character
/// together with the `back` characters before.
spec fn is_flag(
    now: bool,
    was: bool,
    text: Seq<char>,
    needle: Seq<char>,
    pos: nat,
    back: int,
    i: int,
) -> bool {
    (now || holds(text, needle, pos, i - back, i)) <==> (was || holds(text, needle, 0, i - back, i))
}

/// Whether this holds of the flags of all characters.
spec fn flagged(
    now: Seq<bool>,
    was: Seq<bool>,
    text: Seq<char>,
    needle: Seq<char>,
    pos: nat,
    back: int,
) -> bool {
    now.len() == was.len() == text.len() && forall|i: int|
        0 <= i < text.len() ==> #[trigger] is_flag(now[i], was[i], text, needle, pos, back, i)
}

proof fn lemma_flag_step(
    before: Seq<bool>,
    now: Seq<bool>,
    was: Seq<bool>,
    text: Seq<char>,
    needle: Seq<char>,
    pos: nat,
    at: nat,
    back: int,
)
    requires
        needle.len() > 0,
        flagged(before, was, text, needle, pos, back),
        find_from(text, needle, pos) == Some(at),
        now.len() == text.len(),
        forall|i: int|
            0 <= i < text.len() ==> #[trigger] now[i] == (before[i] || at + back <= i < at
                + needle.len()),
    ensures
        flagged(now, was, text, needle, at + needle.len(), back),
{
    assert forall|i: int| 0 <= i < text.len() implies #[trigger] is_flag(
        now[i],
        was[i],
        text,
        needle,
        at + needle.len(),
        back,
        i,
    ) by {
        assert(is_flag(before[i], was[i], text, needle, pos, back, i));
        assert(now[i] == (before[i] || at + back <= i < at + needle.len()));
    }
}

/// Flag the characters that matches of a token hold, and those that a match holds
/// together with the character before.
fn flag_matches(text: &Vec<char>, needle: &Vec<char>, inside: &mut Vec<bool>, tied: &mut Vec<bool>)
    requires
        needle.len() > 0,
        old(inside).len() == text.len(),
        old(tied).len() == text.len(),
    ensures
        final(inside).len() == text.len(),
        final(tied).len() == text.len(),
        forall|i: int|
            0 <= i < text.len() ==> #[trigger] final(inside)@[i] == (old(inside)@[i] || holds(
                text@,
                needle@,
                0,
                i,
                i,
            )),
        forall|i: int|
            0 <= i < text.len() ==> #[trigger] final(tied)@[i] == (old(tied)@[i] || holds(
                text@,
                needle@,
                0,
                i - 1,
                i,
            )),
{
    let ghost inside0 = inside@;
    let ghost tied0 = tied@;
    let mut pos: usize = 0;
    loop
        invariant
            needle.len() > 0,
            pos <= text.len(),
            inside0 == old(inside)@,
            tied0 == old(tied)@,
            flagged(inside@, inside0, text@, needle@, pos as nat, 0),
            flagged(tied@, tied0, text@, needle@, pos as nat, 1),
        decreases text.len() - pos,
    {
        proof {
            lemma_find_from(text@, needle@, pos as nat);
        }
        match find(text, needle, pos) {
            Some(at) => {
                let end: usize = at + needle.len();
                let ghost inside1 = inside@;
                let ghost tied1 = tied@;
                set_range(inside, at, end);
                set_range(tied, at + 1, end);
                proof {
                    lemma_flag_step(
                        inside1,
                        inside@,
                        inside0,
                        text@,
                        needle@,
                        pos as nat,
                        at as nat,
                        0,
                    );
                    lemma_flag_step(tied1, tied@, tied0, text@, needle@, pos as nat, at as nat, 1);
                }
                pos = end;
            },
            None => {
                proof {
                    assert forall|i: int| 0 <= i < text.len() implies #[trigger] inside@[i] == (
                    inside0[i] || holds(text@, needle@, 0, i, i)) by {
                        assert(is_flag(inside@[i], inside0[i], text@, needle@, pos as nat, 0, i));
                    }
                    assert forall|i: int| 0 <= i < text.len() implies #[trigger] tied@[i] == (
                    tied0[i] || holds(text@, needle@, 0, i - 1, i)) by {
                        assert(is_flag(tied@[i], tied0[i], text@, needle@, pos as nat, 1, i));
                    }
                }
                return ;
            },
        }
    }
}

proof fn lemma_matched_push(lower: Seq<char>, needles: Seq<Seq<char>>, n: int, a: int, b: int)
    requires
        0 <= n < needles.len(),
    ensures
        matched(lower, needles.take(n + 1), a, b) == (matched(lower, needles.take(n), a, b) || (
        needles[n].len() > 0 && holds(lower, needles[n], 0, a, b))),
{
    let before = needles.take(n);
    let now = needles.take(n + 1);
    assert(now[n] == needles[n]);
    if matched(lower, before, a, b) {
        let k = choose|k: int|
            0 <= k < before.len() && (#[trigger] before[k]).len() > 0 && holds(
                lower,
                before[k],
                0,
                a,
                b,
            );
        assert(now[k] == before[k]);
    }
    if matched(lower, now, a, b) {
        let k = choose|k: int|
            0 <= k < now.len() && (#[trigger] now[k]).len() > 0 && holds(lower, now[k], 0, a, b);
        if k < n {
            assert(before[k] == now[k]);
        }
    }
}

/// The flags of a folded text: which of its characters are matched, and which of them
/// together with the character before.
fn flag_needles(lower: &Vec<char>, needles: &Vec<Vec<char>>) -> (r: (Vec<bool>, Vec<bool>))
    ensures
        r.0.len() == lower.len(),
        r.1.len() == lower.len(),
        forall|i: int|
            0 <= i < lower.len() ==> #[trigger] r.0@[i] == matched(
                lower@,
                chars_view(needles@),
                i,
                i,
            ),
        forall|i: int|
            0 <= i < lower.len() ==> #[trigger] r.1@[i] == matched(
                lower@,
                chars_view(needles@),
                i - 1,
                i,
            ),
{
    let ghost all = chars_view(needles@);
    let mut inside: Vec<bool> = Vec::new();
    let mut tied: Vec<bool> = Vec::new();
    let mut n: usize = 0;
    while n < lower.len()
        invariant
            n <= lower.len(),
            inside.len() == n,
            tied.len() == n,
            forall|i: int| 0 <= i < n ==> !(#[trigger] inside@[i]),
            forall|i: int| 0 <= i < n ==> !(#[trigger] tied@[i]),
        decreases lower.len() - n,
    {
        inside.push(false);
        tied.push(false);
        n += 1;
    }
    let mut k: usize = 0;
    while k < needles.len()
        invariant
            k <= needles.len(),
            all == chars_view(needles@),
            inside.len() == lower.len(),
            tied.len() == lower.len(),
            forall|i: int|
                0 <= i < lower.len() ==> #[trigger] inside@[i] == matched(
                    lower@,
                    all.take(k as int),
                    i,
                    i,
                ),
            forall|i: int|
                0 <= i < lower.len() ==> #[trigger] tied@[i] == matched(
                    lower@,
                    all.take(k as int),
                    i - 1,
                    i,
                ),
        decreases needles.len() - k,
    {
        assert(all[k as int] == needles@[k as int]@);
        if needles[k].len() > 0 {
            flag_matches(lower, &needles[k], &mut inside, &mut tied);
        }
        proof {
            assert forall|i: int| 0 <= i < lower.len() implies #[trigger] inside@[i] == matched(
                lower@,
                all.take(k + 1),
                i,
                i,
            ) by {
                lemma_matched_push(lower@, all, k as int, i, i);
            }
            assert forall|i: int| 0 <= i < lower.len() implies #[trigger] tied@[i] == matched(
                lower@,
                all.take(k + 1),
                i - 1,
                i,
            ) by {
                lemma_matched_push(lower@, all, k as int, i - 1, i);
            }
        }
        k += 1;
    }
    assert(all.take(all.len() as int) == all);
    (inside, tied)
}

proof fn lemma_not_past_end(text: Seq<char>, needle: Seq<char>, from: nat, a: int)
    requires
        needle.len() > 0,
    ensures
        !holds(text, needle, from, a, text.len() as int),
    decreases text.len() + 1 - from,
{
    lemma_find_from(text, needle, from);
    if let Some(at) = find_from(text, needle, from) {
        lemma_not_past_end(text, needle, at + needle.len(), a);
    }
}

/// Mark every match that the folded form of a text has of each needle.
pub fn mark_matches(text: &str, lower: &Vec<char>, needles: &Vec<Vec<char>>) -> (r: String)
    requires
        lower.len() == text@.len(),
    ensures
        r@ == marked(text@, lower@, chars_view(needles@)),
{
    let ghost all = chars_view(needles@);
    let chars = to_chars(text);
    let (inside, tied) = flag_needles(lower, needles);
    let mut out = String::new();
    let mut i: usize = 0;
    assert(out@ + marked_from(text@, lower@, all, 0) == marked(text@, lower@, all));
    while i < chars.len()
        invariant
            i <= chars.len(),
            chars@ == text@,
            chars.len() == lower.len(),
            inside.len() == lower.len(),
            tied.len() == lower.len(),
            forall|j: int|
                0 <= j < lower.len() ==> #[trigger] inside@[j] == matched(lower@, all, j, j),
            forall|j: int|
                0 <= j < lower.len() ==> #[trigger] tied@[j] == matched(lower@, all, j - 1, j),
            out@ + marked_from(text@, lower@, all, i as int) == marked(text@, lower@, all),
        decreases chars.len() - i,
    {
        let ghost had = out@;
        let goes_on = i + 1 < chars.len() && tied[i + 1];
        proof {
            if i + 1 < lower.len() {
                assert(tied@[i + 1] == matched(lower@, all, i as int, i + 1));
            } else if matched(lower@, all, i as int, i + 1) {
                let k = choose|k: int|
                    0 <= k < all.len() && (#[trigger] all[k]).len() > 0 && holds(
                        lower@,
                        all[k],
                        0,
                        i as int,
                        i + 1,
                    );
                lemma_not_past_end(lower@, all[k], 0, i as int);
            }
            assert(goes_on == matched(lower@, all, i as int, i + 1));
        }
        out.append(
            if inside[i] && !tied[i] {
                "<b>"
            } else {
                ""
            },
        );
        out.push(chars[i]);
        out.append(
            if inside[i] && !goes_on {
                "</b>"
            } else {
                ""
            },
        );
        assert(out@ + marked_from(text@, lower@, all, i + 1) =~= had + marked_from(
            text@,
            lower@,
            all,
            i as int,
        ));
        i += 1;
    }
    assert(out@ + marked_from(text@, lower@, all, i as int) =~= out@);
    out
}

/// Wrap every case-insensitive occurrence of each token in `<b>...</b>`.
/// Preserves original casing from `field_value`.
pub fn build_highlight(field_value: &str, tokens: &[&str]) -> (r: String)
    ensures
        r@ == highlighted(field_value@, str_texts(tokens@)),
{
    mark_matches(field_value, &fold(field_value), &fold_each(tokens))
}

// ---------------------------------------------------------------------------
// Descriptions
// ---------------------------------------------------------------------------

/// The smaller of two places, where there are any.
pub open spec fn earlier(a: Option<nat>, b: Option<nat>) -> Option<nat> {
    match (a, b) {
        (Some(x), Some(y)) => if y < x {
            b
        } else {
            a
        },
        (None, _) => b,
        (_, None) => a,
    }
}

/// The first place in a folded text where a needle stands. Empty needles do not count.
pub open spec fn first_match(lower: Seq<char>, needles: Seq<Seq<char>>) -> Option<nat>
    decreases needles.len(),
{
    if needles.len() == 0 {
        None
    } else {
        let before = first_match(lower, needles.drop_last());
        if needles.last().len() == 0 {
            before
        } else {
            earlier(before, find_from(lower, needles.last(), 0))
        }
    }
}

/// The length of the window around the first match in a description.
pub const WINDOW: usize = 80;

/// How much of the window stands before the match, where there is so much.
pub const WINDOW_HALF: usize = 40;

/// Where the window around the character `at` starts.
pub open spec fn window_start(at: nat) -> int {
    if at > WINDOW_HALF {
        at - WINDOW_HALF
    } else {
        0
    }
}

/// Where the window around the character `at` ends.
pub open spec fn window_end(text: Seq<char>, at: nat) -> int {
    if window_start(at) + WINDOW < text.len() {
        window_start(at) + WINDOW
    } else {
        text.len() as int
    }
}

/// The window of a text around the character `at`: at most 80 characters, with dots
/// where something is left out.
pub open spec fn window(text: Seq<char>, at: nat) -> Seq<char> {
    (if window_start(at) > 0 {
        "..."@
    } else {
        ""@
    }) + text.subrange(window_start(at), window_end(text, at)) + (if window_end(text, at)
        < text.len() {
        "..."@
    } else {
        ""@
    })
}

/// A window is a part of the text, no longer than 80 characters, that holds the
/// character it is around.
pub proof fn lemma_window_is_bounded(text: Seq<char>, at: nat)
    requires
        at < text.len(),
    ensures
        0 <= window_start(at) <= at < window_end(text, at) <= text.len(),
        window_end(text, at) - window_start(at) <= 80,
{
}

/// The window of a description around its first match; the whole where nothing
/// matches.
pub open spec fn description_window(desc: Seq<char>, tokens: Seq<Seq<char>>) -> Seq<char> {
    match first_match(folded(desc), each_folded(tokens)) {
        Some(at) => window(desc, at),
        None => desc,
    }
}

/// The highlight of a description.
pub open spec fn description_highlight(desc: Seq<char>, tokens: Seq<Seq<char>>) -> Seq<char> {
    highlighted(description_window(desc, tokens), tokens)
}

/// Find the first place in a folded text where a needle stands.
pub fn find_first_match(lower: &Vec<char>, needles: &Vec<Vec<char>>) -> (r: Option<usize>)
    ensures
        first_match(lower@, chars_view(needles@)) == (match r {
            Some(at) => Some(at as nat),
            None => None,
        }),
        r matches Some(at) ==> at <= lower.len(),
{
    let ghost all = chars_view(needles@);
    let mut r: Option<usize> = None;
    let mut i: usize = 0;
    assert(all.take(0) == Seq::<Seq<char>>::empty());
    while i < needles.len()
        invariant
            i <= needles.len(),
            all == chars_view(needles@),
            first_match(lower@, all.take(i as int)) == (match r {
                Some(at) => Some(at as nat),
                None => None,
            }),
            r matches Some(at) ==> at <= lower.len(),
        decreases needles.len() - i,
    {
        assert(all.take(i + 1).drop_last() == all.take(i as int));
        assert(all.take(i + 1).last() == needles@[i as int]@);
        if needles[i].len() > 0 {
            match find(lower, &needles[i], 0) {
                Some(at) => {
                    let sooner = match r {
                        Some(had) => at < had,
                        None => true,
                    };
                    if sooner {
                        r = Some(at);
                    }
                },
                None => {},
            }
        }
        i += 1;
    }
    assert(all.take(all.len() as int) == all);
    r
}

/// The window of a text around the character `at`.
pub fn cut_window(text: &Vec<char>, at: usize) -> (r: String)
    requires
        at <= text.len(),
    ensures
        r@ == window(text@, at as nat),
{
    let start: usize = if at > WINDOW_HALF {
        at - WINDOW_HALF
    } else {
        0
    };
    let end: usize = if text.len() - start > WINDOW {
        start + WINDOW
    } else {
        text.len()
    };
    let mut r = if start > 0 {
        "...".to_owned()
    } else {
        "".to_owned()
    };
    r.append(substring(text, start, end).as_str());
    r.append(
        if end < text.len() {
            "..."
        } else {
            ""
        },
    );
    r
}

/// Build the highlight of a description: an 80-character window of its text around the
/// first match, with every match in it marked.
pub fn build_description_highlight(desc: &str, tokens: &[&str]) -> (r: String)
    ensures
        r@ == description_highlight(desc@, str_texts(tokens@)),
{
    match find_first_match(&fold(desc), &fold_each(tokens)) {
        Some(at) => build_highlight(cut_window(&to_chars(desc), at).as_str(), tokens),
        None => build_highlight(desc, tokens),
    }
}

// ---------------------------------------------------------------------------
// Tags
// ---------------------------------------------------------------------------

/// Whether the lower-case form of a tag holds the lower-case form of every token.
pub open spec fn tag_matches(tag: Seq<char>, tokens: Seq<Seq<char>>) -> bool {
    forall|i: int|
        0 <= i < tokens.len() ==> contains(lowercase(tag), lowercase(#[trigger] tokens[i]))
}

/// The first tag in the order of characters that holds every token.
pub open spec fn best_tag(tags: Seq<Seq<char>>, tokens: Seq<Seq<char>>) -> Option<Seq<char>>
    decreases tags.len(),
{
    if tags.len() == 0 {
        None
    } else {
        let before = best_tag(tags.drop_last(), tokens);
        let tag = tags.last();
        if !tag_matches(tag, tokens) {
            before
        } else {
            match before {
                Some(had) => if precedes(tag, had) {
                    Some(tag)
                } else {
                    before
                },
                None => Some(tag),
            }
        }
    }
}

/// The highlight of a list of tags: that of the best tag, where one matches.
pub open spec fn tag_highlight(tags: Seq<Seq<char>>, tokens: Seq<Seq<char>>) -> Option<Seq<char>> {
    match best_tag(tags, tokens) {
        Some(tag) => Some(highlighted(tag, tokens)),
        None => None,
    }
}

fn does_tag_match(tag: &str, tokens: &[&str]) -> (r: bool)
    ensures
        r == tag_matches(tag@, str_texts(tokens@)),
{
    let lower = to_lowercase(tag);
    let ghost all = str_texts(tokens@);
    let mut i: usize = 0;
    while i < tokens.len()
        invariant
            i <= tokens.len(),
            all == str_texts(tokens@),
            lower@ == lowercase(tag@),
            forall|j: int| 0 <= j < i ==> contains(lowercase(tag@), lowercase(#[trigger] all[j])),
        decreases tokens.len() - i,
    {
        let token = tokens[i];
        assert(all[i as int] == token@);
        if !contains_text(lower.as_str(), to_lowercase(token).as_str()) {
            return false;
        }
        i += 1;
    }
    true
}

fn find_best_tag<'a>(tags: &'a Vec<String>, tokens: &[&str]) -> (r: Option<&'a str>)
    ensures
        crate::text::opt_str_text(r) == best_tag(texts(tags@), str_texts(tokens@)),
{
    let ghost all = texts(tags@);
    let mut r: Option<&'a str> = None;
    let mut i: usize = 0;
    assert(all.take(0) == Seq::<Seq<char>>::empty());
    while i < tags.len()
        invariant
            i <= tags.len(),
            all == texts(tags@),
            crate::text::opt_str_text(r) == best_tag(all.take(i as int), str_texts(tokens@)),
        decreases tags.len() - i,
    {
        let tag = tags[i].as_str();
        assert(all.take(i + 1).drop_last() == all.take(i as int));
        assert(all.take(i + 1).last() == tag@);
        if does_tag_match(tag, tokens) {
            let better = match r {
                Some(had) => comes_first(tag, had),
                None => true,
            };
            if better {
                r = Some(tag);
            }
        }
        i += 1;
    }
    assert(all.take(all.len() as int) == all);
    r
}

/// Build the highlight of a list of tags: the alphabetically-first matching tag,
/// with matched substrings marked.
pub fn build_tag_highlight(tags: &Vec<String>, tokens: &[&str]) -> (r: Option<String>)
    ensures
        crate::text::opt_text(r) == tag_highlight(texts(tags@), str_texts(tokens@)),
{
    match find_best_tag(tags, tokens) {
        Some(tag) => Some(build_highlight(tag, tokens)),
        None => None,
    }
}

// ---------------------------------------------------------------------------
// Columns
// ---------------------------------------------------------------------------

/// The highlight of matching columns: their names, marked and separated by commas;
/// nothing where no column matches.
pub open spec fn columns_highlight(names: Seq<Seq<char>>, tokens: Seq<Seq<char>>) -> Option<
    Seq<char>,
> {
    if names.len() == 0 {
        None
    } else {
        Some(joined(Seq::new(names.len(), |i: int| highlighted(names[i], tokens)), ", "@))
    }
}

/// Build the highlight of matching columns.
pub fn highlight_columns(names: &Vec<String>, tokens: &[&str]) -> (r: Option<String>)
    ensures
        crate::text::opt_text(r) == columns_highlight(texts(names@), str_texts(tokens@)),
{
    if names.len() == 0 {
        return None;
    }
    let ghost all = texts(names@);
    let ghost marks = str_texts(tokens@);
    let mut outs: Vec<String> = Vec::new();
    let mut i: usize = 0;
    while i < names.len()
        invariant
            i <= names.len(),
            all == texts(names@),
            marks == str_texts(tokens@),
            outs.len() == i,
            forall|j: int| 0 <= j < i ==> (#[trigger] outs@[j])@ == highlighted(all[j], marks),
        decreases names.len() - i,
    {
        outs.push(build_highlight(names[i].as_str(), tokens));
        i += 1;
    }
    assert(texts(outs@) =~= Seq::new(all.len(), |i: int| highlighted(all[i], marks)));
    Some(join(&outs, ", "))
}

} // verus!
