//! Text that goes into SQL: string literals, `ILIKE` patterns, identifiers and
//! lists of literals.
use crate::text::{join, joined, texts, to_chars};
use vstd::prelude::*;

verus! {

// ---------------------------------------------------------------------------
// Escaping
// ---------------------------------------------------------------------------

/// What a character is written as inside a quoted SQL literal.
pub open spec fn literal_char(c: char) -> Seq<char> {
    if c == '\'' {
        seq!['\'', '\'']
    } else {
        seq![c]
    }
}

/// The text of `s` inside a quoted SQL literal: single quotes are doubled.
pub open spec fn escaped(s: Seq<char>) -> Seq<char>
    decreases s.len(),
{
    if s.len() == 0 {
        Seq::empty()
    } else {
        escaped(s.drop_last()) + literal_char(s.last())
    }
}

/// What a character is written as in an `ILIKE` pattern with the escape
/// character `\`, so that it stands for itself.
pub open spec fn pattern_char(c: char) -> Seq<char> {
    if c == '\\' || c == '%' || c == '_' {
        seq!['\\', c]
    } else {
        seq![c]
    }
}

/// The `ILIKE` pattern for `s` itself.
pub open spec fn pattern(s: Seq<char>) -> Seq<char>
    decreases s.len(),
{
    if s.len() == 0 {
        Seq::empty()
    } else {
        pattern(s.drop_last()) + pattern_char(s.last())
    }
}

/// Escape a string for use inside a quoted SQL literal.
pub fn escape_str(s: &str) -> (r: String)
    ensures
        r@ == escaped(s@),
{
    let chars = to_chars(s);
    let mut r = String::new();
    let mut i: usize = 0;
    while i < chars.len()
        invariant
            i <= chars.len(),
            chars@ == s@,
            r@ == escaped(s@.take(i as int)),
        decreases chars.len() - i,
    {
        assert(s@.take(i + 1).drop_last() == s@.take(i as int));
        let c = chars[i];
        if c == '\'' {
            r.push('\'');
        }
        r.push(c);
        i += 1;
    }
    assert(s@.take(s@.len() as int) == s@);
    r
}

/// Escape a string for use inside a quoted SQL literal that is an `ILIKE`
/// pattern with the escape character `\`: the wildcards lose their meaning and
/// single quotes are doubled.
pub fn escape_ilike(s: &str) -> (r: String)
    ensures
        r@ == escaped(pattern(s@)),
{
    let chars = to_chars(s);
    let mut r = String::new();
    let mut i: usize = 0;
    while i < chars.len()
        invariant
            i <= chars.len(),
            chars@ == s@,
            r@ == escaped(pattern(s@.take(i as int))),
        decreases chars.len() - i,
    {
        let ghost before = s@.take(i as int);
        assert(s@.take(i + 1).drop_last() == before);
        let c = chars[i];
        proof {
            lemma_escaped_concat(pattern(before), pattern_char(c));
            reveal_with_fuel(escaped, 3);
            assert(seq!['\\', c].drop_last() == seq!['\\']);
            assert(seq!['\\'].drop_last() == Seq::<char>::empty());
            assert(seq![c].drop_last() == Seq::<char>::empty());
        }
        if c == '\\' || c == '%' || c == '_' {
            r.push('\\');
        }
        if c == '\'' {
            r.push('\'');
        }
        r.push(c);
        i += 1;
    }
    assert(s@.take(s@.len() as int) == s@);
    r
}

/// Escaping works character by character.
pub proof fn lemma_escaped_concat(a: Seq<char>, b: Seq<char>)
    ensures
        escaped(a + b) == escaped(a) + escaped(b),
    decreases b.len(),
{
    if b.len() == 0 {
        assert(a + b == a);
    } else {
        assert((a + b).drop_last() == a + b.drop_last());
        lemma_escaped_concat(a, b.drop_last());
    }
}

// ---------------------------------------------------------------------------
// What a reader of SQL makes of an escaped text
// ---------------------------------------------------------------------------

/// Read a SQL literal whose opening quote is already read: its value, and what
/// follows the closing quote. Two quotes in a row stand for one.
pub open spec fn read_literal(s: Seq<char>) -> Option<(Seq<char>, Seq<char>)>
    decreases s.len(),
{
    if s.len() == 0 {
        None
    } else if s[0] != '\'' {
        match read_literal(s.skip(1)) {
            Some((value, rest)) => Some((seq![s[0]] + value, rest)),
            None => None,
        }
    } else if s.len() > 1 && s[1] == '\'' {
        match read_literal(s.skip(2)) {
            Some((value, rest)) => Some((seq!['\''] + value, rest)),
            None => None,
        }
    } else {
        Some((Seq::empty(), s.skip(1)))
    }
}

/// Read an `ILIKE` pattern with the escape character `\` that holds no
/// wildcard: the text that it stands for.
pub open spec fn read_pattern(s: Seq<char>) -> Option<Seq<char>>
    decreases s.len(),
{
    if s.len() == 0 {
        Some(Seq::empty())
    } else if s[0] == '%' || s[0] == '_' {
        None
    } else if s[0] == '\\' {
        if s.len() == 1 {
            None
        } else {
            match read_pattern(s.skip(2)) {
                Some(value) => Some(seq![s[1]] + value),
                None => None,
            }
        }
    } else {
        match read_pattern(s.skip(1)) {
            Some(value) => Some(seq![s[0]] + value),
            None => None,
        }
    }
}

proof fn lemma_escaped_first(s: Seq<char>)
    requires
        s.len() > 0,
    ensures
        escaped(s) == literal_char(s[0]) + escaped(s.skip(1)),
{
    lemma_escaped_concat(seq![s[0]], s.skip(1));
    assert(seq![s[0]] + s.skip(1) == s);
    assert(seq![s[0]].drop_last() == Seq::<char>::empty());
    assert(escaped(seq![s[0]]) == literal_char(s[0])) by {
        reveal_with_fuel(escaped, 2);
    }
}

/// A quoted literal of an escaped text reads as that text, whatever it holds:
/// nothing in it can end the literal early.
pub proof fn lemma_literal_reads_back(s: Seq<char>, rest: Seq<char>)
    requires
        rest.len() == 0 || rest[0] != '\'',
    ensures
        read_literal(escaped(s) + seq!['\''] + rest) == Some((s, rest)),
    decreases s.len(),
{
    let whole = escaped(s) + seq!['\''] + rest;
    if s.len() == 0 {
        assert(whole.skip(1) == rest);
        assert(s == Seq::<char>::empty());
    } else {
        lemma_escaped_first(s);
        let tail = escaped(s.skip(1)) + seq!['\''] + rest;
        lemma_literal_reads_back(s.skip(1), rest);
        if s[0] == '\'' {
            assert(whole.skip(2) == tail);
        } else {
            assert(whole.skip(1) == tail);
        }
        assert(seq![s[0]] + s.skip(1) == s);
    }
}

/// Two texts with the same escaped form are the same text.
pub proof fn lemma_escaped_injective(a: Seq<char>, b: Seq<char>)
    requires
        escaped(a) == escaped(b),
    ensures
        a == b,
{
    lemma_literal_reads_back(a, Seq::empty());
    lemma_literal_reads_back(b, Seq::empty());
}

proof fn lemma_pattern_concat(a: Seq<char>, b: Seq<char>)
    ensures
        pattern(a + b) == pattern(a) + pattern(b),
    decreases b.len(),
{
    if b.len() == 0 {
        assert(a + b == a);
    } else {
        assert((a + b).drop_last() == a + b.drop_last());
        lemma_pattern_concat(a, b.drop_last());
    }
}

/// The pattern for a text stands for that text and nothing else: every
/// wildcard in it is escaped.
pub proof fn lemma_pattern_reads_back(s: Seq<char>)
    ensures
        read_pattern(pattern(s)) == Some(s),
    decreases s.len(),
{
    if s.len() == 0 {
        assert(s == Seq::<char>::empty());
    } else {
        let first = seq![s[0]];
        lemma_pattern_concat(first, s.skip(1));
        assert(first + s.skip(1) == s);
        assert(first.drop_last() == Seq::<char>::empty());
        assert(pattern(first) == pattern_char(s[0])) by {
            reveal_with_fuel(pattern, 2);
        }
        lemma_pattern_reads_back(s.skip(1));
        if s[0] == '\\' || s[0] == '%' || s[0] == '_' {
            assert(pattern(s).skip(2) == pattern(s.skip(1)));
        } else {
            assert(pattern(s).skip(1) == pattern(s.skip(1)));
        }
    }
}

// ---------------------------------------------------------------------------
// Literals, lists and identifiers
// ---------------------------------------------------------------------------

/// A quoted SQL literal.
pub open spec fn quoted(s: Seq<char>) -> Seq<char> {
    "'"@ + escaped(s) + "'"@
}

/// A quoted SQL literal.
pub fn quote(s: &str) -> (r: String)
    ensures
        r@ == quoted(s@),
{
    let mut r = "'".to_owned();
    r.append(escape_str(s).as_str());
    r.append("'");
    r
}

/// The quoted literals of some texts, separated by commas.
pub open spec fn quoted_list(items: Seq<Seq<char>>) -> Seq<char> {
    joined(Seq::new(items.len(), |i: int| quoted(items[i])), ", "@)
}

/// The quoted literals of some texts, separated by commas.
pub fn quote_list(items: &Vec<String>) -> (r: String)
    ensures
        r@ == quoted_list(texts(items@)),
{
    let mut parts: Vec<String> = Vec::new();
    let mut i: usize = 0;
    while i < items.len()
        invariant
            i <= items.len(),
            parts.len() == i,
            forall|j: int| 0 <= j < i ==> parts@[j]@ == quoted(items@[j]@),
        decreases items.len() - i,
    {
        parts.push(quote(items[i].as_str()));
        i += 1;
    }
    assert(texts(parts@) =~= Seq::new(
        texts(items@).len(),
        |i: int| quoted(texts(items@)[i]),
    ));
    join(&parts, ", ")
}

/// Whether a character may stand in an identifier that goes into SQL as it is.
pub open spec fn ident_char(c: char) -> bool {
    let n = c as u32;
    (97 <= n <= 122) || (65 <= n <= 90) || (48 <= n <= 57) || c == '_'
}

/// Whether a text is an identifier that goes into SQL as it is: not empty, and
/// of ASCII letters, digits and underscores only.
pub open spec fn safe_ident(s: Seq<char>) -> bool {
    s.len() > 0 && forall|i: int| 0 <= i < s.len() ==> ident_char(#[trigger] s[i])
}

/// Whether a text is an identifier that goes into SQL as it is.
pub fn is_safe_ident(s: &str) -> (r: bool)
    ensures
        r == safe_ident(s@),
{
    let chars = to_chars(s);
    let mut i: usize = 0;
    while i < chars.len()
        invariant
            i <= chars.len(),
            chars@ == s@,
            forall|j: int| 0 <= j < i ==> ident_char(#[trigger] s@[j]),
        decreases chars.len() - i,
    {
        let n: u32 = chars[i] as u32;
        if !((97 <= n && n <= 122) || (65 <= n && n <= 90) || (48 <= n && n <= 57) || chars[i]
            == '_') {
            assert(!ident_char(s@[i as int]));
            return false;
        }
        i += 1;
    }
    chars.len() > 0
}

/// An identifier that goes into SQL as it is needs no escaping.
pub proof fn lemma_safe_ident_is_literal(s: Seq<char>)
    requires
        safe_ident(s),
    ensures
        escaped(s) == s,
{
    lemma_plain_is_literal(s);
}

proof fn lemma_plain_is_literal(s: Seq<char>)
    requires
        forall|i: int| 0 <= i < s.len() ==> ident_char(#[trigger] s[i]),
    ensures
        escaped(s) == s,
    decreases s.len(),
{
    if s.len() > 0 {
        assert forall|i: int| 0 <= i < s.drop_last().len() implies ident_char(
            #[trigger] s.drop_last()[i],
        ) by {
            assert(s.drop_last()[i] == s[i]);
        }
        lemma_plain_is_literal(s.drop_last());
        assert(ident_char(s[s.len() - 1]));
        assert(s.drop_last().push(s.last()) == s);
    }
}

} // verus!
