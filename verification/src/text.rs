//! Text as sequences of characters: the operations on strings that the rest of
//! the library is stated with, and functions that compute them.
use vstd::prelude::*;
#[allow(unused_imports)]
use vstd::utf8::encode_utf8_decode_utf8;

verus! {

/// `String::push` appends one character to the end of the string.
pub assume_specification[ String::push ](s: &mut String, c: char)
    ensures
        final(s)@ == old(s)@.push(c),
;

/// What `str::to_lowercase` makes of a text: Unicode lower case, which may
/// change the number of characters.
pub uninterp spec fn lowercase(s: Seq<char>) -> Seq<char>;

/// `str::to_lowercase`. Its result depends on the text alone and is called
/// `lowercase` here.
#[verifier::external_body]
pub(crate) fn to_lowercase(s: &str) -> (r: String)
    ensures
        r@ == lowercase(s@),
{
    s.to_lowercase()
}

/// What `str::to_uppercase` makes of a text: Unicode upper case, which may
/// change the number of characters.
pub uninterp spec fn uppercase(s: Seq<char>) -> Seq<char>;

/// `str::to_uppercase`. Its result depends on the text alone and is called
/// `uppercase` here.
#[verifier::external_body]
pub(crate) fn to_uppercase(s: &str) -> (r: String)
    ensures
        r@ == uppercase(s@),
{
    s.to_uppercase()
}

// ---------------------------------------------------------------------------
// Views of optional and repeated text
// ---------------------------------------------------------------------------

/// The text in an optional string.
pub open spec fn opt_text(s: Option<String>) -> Option<Seq<char>> {
    match s {
        Some(s) => Some(s@),
        None => None,
    }
}

/// The text in an optional string slice.
pub open spec fn opt_str_text(s: Option<&str>) -> Option<Seq<char>> {
    match s {
        Some(s) => Some(s@),
        None => None,
    }
}

/// The texts in a list of strings.
pub open spec fn texts(v: Seq<String>) -> Seq<Seq<char>> {
    Seq::new(v.len(), |i: int| v[i]@)
}

/// The string slice in an optional string.
pub fn as_opt_str(s: &Option<String>) -> (r: Option<&str>)
    ensures
        opt_str_text(r) == opt_text(*s),
{
    match s {
        Some(s) => Some(s.as_str()),
        None => None,
    }
}

/// The text of a parameter that is given and not empty.
pub open spec fn given_text(s: Option<String>) -> Option<Seq<char>> {
    match s {
        Some(s) => if s@.len() > 0 {
            Some(s@)
        } else {
            None
        },
        None => None,
    }
}

/// The parameter, where it is given and not empty.
pub fn given(s: &Option<String>) -> (r: Option<&str>)
    ensures
        opt_str_text(r) == given_text(*s),
{
    match s {
        Some(s) => if s.as_str().is_empty() {
            None
        } else {
            Some(s.as_str())
        },
        None => None,
    }
}

/// A copy of an optional string.
pub fn clone_opt(s: &Option<String>) -> (r: Option<String>)
    ensures
        r == *s,
{
    match s {
        Some(s) => Some(s.clone()),
        None => None,
    }
}

// ---------------------------------------------------------------------------
// Characters
// ---------------------------------------------------------------------------

/// The characters of a string, in order.
pub fn to_chars(s: &str) -> (v: Vec<char>)
    ensures
        v@ == s@,
{
    let mut v: Vec<char> = Vec::new();
    for c in it: s.chars()
        invariant
            it.seq() == s@,
            v@ == it.seq().take(it.index()),
    {
        v.push(c);
        assert(it.seq().take(it.index() + 1) == it.seq().take(it.index()).push(c));
    }
    v
}

/// The string made of the characters `chars[from..to]`.
pub fn substring(chars: &Vec<char>, from: usize, to: usize) -> (r: String)
    requires
        from <= to <= chars.len(),
    ensures
        r@ == chars@.subrange(from as int, to as int),
{
    let mut r = String::new();
    let mut i: usize = from;
    while i < to
        invariant
            from <= i <= to <= chars.len(),
            r@ == chars@.subrange(from as int, i as int),
        decreases to - i,
    {
        r.push(chars[i]);
        assert(chars@.subrange(from as int, i + 1) == chars@.subrange(from as int, i as int).push(
            chars@[i as int],
        ));
        i += 1;
    }
    r
}

/// Whether a character has the Unicode property `White_Space`.
pub open spec fn is_white(c: char) -> bool {
    let n = c as u32;
    ||| 0x9 <= n <= 0xd
    ||| n == 0x20
    ||| n == 0x85
    ||| n == 0xa0
    ||| n == 0x1680
    ||| 0x2000 <= n <= 0x200a
    ||| n == 0x2028
    ||| n == 0x2029
    ||| n == 0x202f
    ||| n == 0x205f
    ||| n == 0x3000
}

/// Whether a character has the Unicode property `White_Space`.
pub fn is_whitespace(c: char) -> (r: bool)
    ensures
        r == is_white(c),
{
    let n: u32 = c as u32;
    (0x9 <= n && n <= 0xd) || n == 0x20 || n == 0x85 || n == 0xa0 || n == 0x1680 || (0x2000 <= n
        && n <= 0x200a) || n == 0x2028 || n == 0x2029 || n == 0x202f || n == 0x205f || n == 0x3000
}

/// Whether two strings hold the same text.
pub fn same(a: &str, b: &str) -> (r: bool)
    ensures
        r == (a@ == b@),
{
    let x = a.as_bytes();
    let y = b.as_bytes();
    proof {
        encode_utf8_decode_utf8(a@);
        encode_utf8_decode_utf8(b@);
    }
    if x.len() != y.len() {
        return false;
    }
    let mut i: usize = 0;
    while i < x.len()
        invariant
            i <= x.len(),
            x.len() == y.len(),
            x@ == vstd::utf8::encode_utf8(a@),
            y@ == vstd::utf8::encode_utf8(b@),
            x@.take(i as int) == y@.take(i as int),
        decreases x.len() - i,
    {
        if x[i] != y[i] {
            return false;
        }
        assert(x@.take(i + 1) == x@.take(i as int).push(x@[i as int]));
        assert(y@.take(i + 1) == y@.take(i as int).push(y@[i as int]));
        i += 1;
    }
    assert(x@.take(x@.len() as int) == x@);
    assert(y@.take(y@.len() as int) == y@);
    true
}

/// Whether an optional string holds the text `b`.
pub fn opt_same(a: &Option<String>, b: &str) -> (r: bool)
    ensures
        r == (opt_text(*a) == Some(b@)),
{
    match a {
        Some(a) => same(a.as_str(), b),
        None => false,
    }
}

// ---------------------------------------------------------------------------
// Numbers
// ---------------------------------------------------------------------------

/// The decimal digit for `d`.
pub open spec fn digit(d: nat) -> char {
    (48 + d) as char
}

/// The decimal text of a number, without leading zeros.
pub open spec fn decimal(n: nat) -> Seq<char>
    decreases n,
{
    if n < 10 {
        seq![digit(n)]
    } else {
        decimal(n / 10).push(digit(n % 10))
    }
}

/// The decimal text of a number.
pub fn to_decimal(n: u64) -> (r: String)
    ensures
        r@ == decimal(n as nat),
    decreases n,
{
    let low: u8 = 48u8 + (n % 10) as u8;
    if n < 10 {
        let mut r = String::new();
        r.push(low as char);
        r
    } else {
        let mut r = to_decimal(n / 10);
        r.push(low as char);
        r
    }
}

/// Why a text is no unsigned number of 64 bits.
#[derive(Copy, Clone, Debug, PartialEq, Eq, Structural)]
pub enum NumberError {
    /// Nothing to read.
    Empty,
    /// A character that is no digit, or a sign alone.
    InvalidDigit,
    /// Digits only, but more than 64 bits.
    TooLarge,
}

impl NumberError {
    /// What the error says.
    pub open spec fn text(self) -> Seq<char> {
        match self {
            NumberError::Empty => "cannot parse integer from empty string"@,
            NumberError::InvalidDigit => "invalid digit found in string"@,
            NumberError::TooLarge => "number too large to fit in target type"@,
        }
    }

    /// What the error says.
    pub fn message(self) -> (r: &'static str)
        ensures
            r@ == self.text(),
    {
        match self {
            NumberError::Empty => "cannot parse integer from empty string",
            NumberError::InvalidDigit => "invalid digit found in string",
            NumberError::TooLarge => "number too large to fit in target type",
        }
    }
}

/// Whether a character is a decimal digit.
pub open spec fn is_digit(c: char) -> bool {
    48 <= c as u32 <= 57
}

/// The number that a sequence of decimal digits stands for.
pub open spec fn digits_value(s: Seq<char>) -> nat
    decreases s.len(),
{
    if s.len() == 0 {
        0
    } else {
        10 * digits_value(s.drop_last()) + (s.last() as u32 - 48) as nat
    }
}

/// The digits of a number as it is written: the text without a leading `+`.
pub open spec fn unsigned_part(s: Seq<char>) -> Seq<char> {
    if s.len() > 0 && s[0] == '+' {
        s.drop_first()
    } else {
        s
    }
}

/// The unsigned 64-bit number that a text stands for: decimal digits, with an
/// optional `+` before them.
pub open spec fn number_of(s: Seq<char>) -> Result<u64, NumberError> {
    let digits = unsigned_part(s);
    if s.len() == 0 {
        Err(NumberError::Empty)
    } else if digits.len() == 0 {
        Err(NumberError::InvalidDigit)
    } else {
        match digits_fault(digits) {
            Some(e) => Err(e),
            None => Ok(digits_value(digits) as u64),
        }
    }
}

/// The first thing that goes wrong when digits are read from left to right.
pub open spec fn digits_fault(s: Seq<char>) -> Option<NumberError>
    decreases s.len(),
{
    if s.len() == 0 {
        None
    } else {
        match digits_fault(s.drop_last()) {
            Some(e) => Some(e),
            None => if !is_digit(s.last()) {
                Some(NumberError::InvalidDigit)
            } else if digits_value(s) > u64::MAX {
                Some(NumberError::TooLarge)
            } else {
                None
            },
        }
    }
}

/// A fault in a prefix of the digits is the fault of the whole.
proof fn lemma_fault_stays(s: Seq<char>, n: int)
    requires
        0 <= n <= s.len(),
        digits_fault(s.take(n)) is Some,
    ensures
        digits_fault(s) == digits_fault(s.take(n)),
    decreases s.len() - n,
{
    if n < s.len() {
        assert(s.take(n + 1).drop_last() == s.take(n));
        lemma_fault_stays(s, n + 1);
    } else {
        assert(s.take(n) == s);
    }
}

/// Read an unsigned 64-bit number in decimal.
pub fn parse_number(s: &str) -> (r: Result<u64, NumberError>)
    ensures
        r == number_of(s@),
{
    let chars = to_chars(s);
    if chars.len() == 0 {
        return Err(NumberError::Empty);
    }
    let start: usize = if chars[0] == '+' { 1 } else { 0 };
    if start == chars.len() {
        return Err(NumberError::InvalidDigit);
    }
    let ghost digits = unsigned_part(s@);
    assert(digits == s@.skip(start as int));
    let mut value: u64 = 0;
    let mut i: usize = start;
    while i < chars.len()
        invariant
            start <= i <= chars.len(),
            start <= 1,
            chars@ == s@,
            s@.len() > 0,
            digits == unsigned_part(s@),
            digits == s@.skip(start as int),
            digits.len() > 0,
            digits_fault(digits.take(i - start)) is None,
            value == digits_value(digits.take(i - start)),
        decreases chars.len() - i,
    {
        let c = chars[i];
        let ghost seen = digits.take(i - start);
        let ghost next = digits.take(i - start + 1);
        assert(next.drop_last() == seen && next.last() == c);
        let n: u32 = c as u32;
        if n < 48 || n > 57 {
            proof {
                lemma_fault_stays(digits, i - start + 1);
            }
            return Err(NumberError::InvalidDigit);
        }
        let d: u64 = (n - 48) as u64;
        assert(is_digit(next.last()));
        assert(digits_value(next) == 10 * value + d);
        if value > (u64::MAX - d) / 10 {
            proof {
                lemma_fault_stays(digits, i - start + 1);
            }
            return Err(NumberError::TooLarge);
        }
        value = value * 10 + d;
        i += 1;
    }
    assert(digits.take(digits.len() as int) == digits);
    Ok(value)
}

// ---------------------------------------------------------------------------
// Trimming and splitting
// ---------------------------------------------------------------------------

/// A text without its leading white space.
pub open spec fn trim_start(s: Seq<char>) -> Seq<char>
    decreases s.len(),
{
    if s.len() > 0 && is_white(s[0]) {
        trim_start(s.drop_first())
    } else {
        s
    }
}

/// A text without its trailing white space.
pub open spec fn trim_end(s: Seq<char>) -> Seq<char>
    decreases s.len(),
{
    if s.len() > 0 && is_white(s.last()) {
        trim_end(s.drop_last())
    } else {
        s
    }
}

/// A text without white space at either end.
pub open spec fn trimmed(s: Seq<char>) -> Seq<char> {
    trim_end(trim_start(s))
}

/// The bounds of what is left of `chars[from..to]` without white space at
/// either end.
pub fn trim_range(chars: &Vec<char>, from: usize, to: usize) -> (r: (usize, usize))
    requires
        from <= to <= chars.len(),
    ensures
        from <= r.0 <= r.1 <= to,
        chars@.subrange(r.0 as int, r.1 as int) == trimmed(
            chars@.subrange(from as int, to as int),
        ),
{
    let ghost whole = chars@.subrange(from as int, to as int);
    let mut lo: usize = from;
    while lo < to && is_whitespace(chars[lo])
        invariant
            from <= lo <= to <= chars.len(),
            trim_start(chars@.subrange(lo as int, to as int)) == trim_start(whole),
        decreases to - lo,
    {
        assert(chars@.subrange(lo as int, to as int).drop_first() == chars@.subrange(
            lo + 1,
            to as int,
        ));
        lo += 1;
    }
    let mut hi: usize = to;
    assert(chars@.subrange(lo as int, to as int) == trim_start(whole));
    while hi > lo && is_whitespace(chars[hi - 1])
        invariant
            from <= lo <= hi <= to <= chars.len(),
            trim_end(chars@.subrange(lo as int, hi as int)) == trimmed(whole),
        decreases hi - lo,
    {
        assert(chars@.subrange(lo as int, hi as int).drop_last() == chars@.subrange(
            lo as int,
            hi - 1,
        ));
        hi -= 1;
    }
    (lo, hi)
}

/// A text without white space at either end.
pub fn trim(s: &str) -> (r: String)
    ensures
        r@ == trimmed(s@),
{
    let chars = to_chars(s);
    let (lo, hi) = trim_range(&chars, 0, chars.len());
    assert(chars@.subrange(0, chars@.len() as int) == s@);
    substring(&chars, lo, hi)
}

/// The pieces of a text between the characters that `sep` picks. There is
/// always at least one piece.
pub open spec fn split(s: Seq<char>, sep: spec_fn(char) -> bool) -> Seq<Seq<char>>
    decreases s.len(),
{
    if s.len() == 0 {
        seq![Seq::<char>::empty()]
    } else {
        let before = split(s.drop_last(), sep);
        if sep(s.last()) {
            before.push(Seq::empty())
        } else {
            before.drop_last().push(before.last().push(s.last()))
        }
    }
}

/// The test for one character.
pub open spec fn is_char(c: char) -> spec_fn(char) -> bool {
    |x: char| x == c
}

/// The test for white space.
pub open spec fn is_blank() -> spec_fn(char) -> bool {
    |x: char| is_white(x)
}

/// The pieces that are not empty.
pub open spec fn nonempty(s: Seq<Seq<char>>) -> Seq<Seq<char>>
    decreases s.len(),
{
    if s.len() == 0 {
        s
    } else if s.last().len() == 0 {
        nonempty(s.drop_last())
    } else {
        nonempty(s.drop_last()).push(s.last())
    }
}

/// Each piece without white space at either end.
pub open spec fn each_trimmed(s: Seq<Seq<char>>) -> Seq<Seq<char>> {
    Seq::new(s.len(), |i: int| trimmed(s[i]))
}

/// The items of a comma-separated list: trimmed, and without the empty ones.
pub open spec fn csv(raw: Seq<char>) -> Seq<Seq<char>> {
    nonempty(each_trimmed(split(raw, is_char(','))))
}

/// The words of a text: its runs of characters that are not white space.
pub open spec fn words(s: Seq<char>) -> Seq<Seq<char>> {
    nonempty(split(s, is_blank()))
}

proof fn lemma_split_piece(s: Seq<char>, sep: spec_fn(char) -> bool)
    ensures
        split(s, sep).len() > 0,
    decreases s.len(),
{
    if s.len() > 0 {
        lemma_split_piece(s.drop_last(), sep);
    }
}

proof fn lemma_texts_push(v: Seq<String>, s: String)
    ensures
        texts(v.push(s)) == texts(v).push(s@),
{
    assert(texts(v.push(s)) =~= texts(v).push(s@));
}

/// The pieces of a text between commas, each without white space at either end.
pub fn split_trimmed(raw: &str) -> (r: Vec<String>)
    ensures
        texts(r@) == each_trimmed(split(raw@, is_char(','))),
{
    let chars = to_chars(raw);
    let mut r: Vec<String> = Vec::new();
    let mut start: usize = 0;
    let mut i: usize = 0;
    let ghost sep = is_char(',');
    let ghost mut done: Seq<Seq<char>> = Seq::empty();
    assert(texts(r@) =~= each_trimmed(done));
    assert(chars@.subrange(0, 0) == Seq::<char>::empty());
    assert(split(chars@.take(0), sep) =~= done.push(chars@.subrange(0, 0)));
    while i < chars.len()
        invariant
            start <= i <= chars.len(),
            sep == is_char(','),
            split(chars@.take(i as int), sep) == done.push(
                chars@.subrange(start as int, i as int),
            ),
            texts(r@) == each_trimmed(done),
        decreases chars.len() - i,
    {
        let ghost piece = chars@.subrange(start as int, i as int);
        assert(chars@.take(i + 1).drop_last() == chars@.take(i as int));
        if chars[i] == ',' {
            let (lo, hi) = trim_range(&chars, start, i);
            let item = substring(&chars, lo, hi);
            proof {
                lemma_texts_push(r@, item);
                assert(each_trimmed(done.push(piece)) =~= each_trimmed(done).push(item@));
                done = done.push(piece);
            }
            r.push(item);
            start = i + 1;
            assert(chars@.subrange(start as int, i + 1) == Seq::<char>::empty());
            assert(split(chars@.take(i + 1), sep) =~= done.push(
                chars@.subrange(start as int, i + 1),
            ));
        } else {
            assert(chars@.subrange(start as int, i + 1) == piece.push(chars@[i as int]));
            assert(split(chars@.take(i + 1), sep) =~= done.push(
                chars@.subrange(start as int, i + 1),
            )) by {
                assert(done.push(piece).drop_last() == done);
            }
        }
        i += 1;
    }
    let ghost piece = chars@.subrange(start as int, chars@.len() as int);
    assert(chars@.take(chars@.len() as int) == raw@);
    let (lo, hi) = trim_range(&chars, start, chars.len());
    let item = substring(&chars, lo, hi);
    proof {
        lemma_texts_push(r@, item);
        assert(each_trimmed(done.push(piece)) =~= each_trimmed(done).push(item@));
    }
    r.push(item);
    r
}

/// The items of a comma-separated list.
pub fn csv_items(raw: &str) -> (r: Vec<String>)
    ensures
        texts(r@) == csv(raw@),
{
    let pieces = split_trimmed(raw);
    let ghost all = texts(pieces@);
    let mut r: Vec<String> = Vec::new();
    let mut i: usize = 0;
    assert(all.take(0) == Seq::<Seq<char>>::empty());
    assert(texts(r@) =~= Seq::<Seq<char>>::empty());
    while i < pieces.len()
        invariant
            i <= pieces.len(),
            all == texts(pieces@),
            texts(r@) == nonempty(all.take(i as int)),
        decreases pieces.len() - i,
    {
        assert(all.take(i + 1).drop_last() == all.take(i as int));
        assert(all.take(i + 1).last() == pieces@[i as int]@);
        if !pieces[i].as_str().is_empty() {
            let item = pieces[i].clone();
            proof {
                lemma_texts_push(r@, item);
            }
            r.push(item);
        }
        i += 1;
    }
    assert(all.take(all.len() as int) == all);
    r
}

/// The words of a text.
pub fn split_words(s: &str) -> (r: Vec<String>)
    ensures
        texts(r@) == words(s@),
{
    let chars = to_chars(s);
    let mut r: Vec<String> = Vec::new();
    let mut start: usize = 0;
    let mut i: usize = 0;
    let ghost sep = is_blank();
    let ghost mut done: Seq<Seq<char>> = Seq::empty();
    assert(texts(r@) =~= nonempty(done));
    assert(chars@.subrange(0, 0) == Seq::<char>::empty());
    assert(split(chars@.take(0), sep) =~= done.push(chars@.subrange(0, 0)));
    while i < chars.len()
        invariant
            start <= i <= chars.len(),
            sep == is_blank(),
            split(chars@.take(i as int), sep) == done.push(
                chars@.subrange(start as int, i as int),
            ),
            texts(r@) == nonempty(done),
        decreases chars.len() - i,
    {
        let ghost piece = chars@.subrange(start as int, i as int);
        assert(chars@.take(i + 1).drop_last() == chars@.take(i as int));
        if is_whitespace(chars[i]) {
            let ghost next = done.push(piece);
            assert(next.drop_last() == done);
            if start < i {
                let item = substring(&chars, start, i);
                proof {
                    lemma_texts_push(r@, item);
                }
                r.push(item);
            }
            proof {
                done = next;
            }
            start = i + 1;
            assert(chars@.subrange(start as int, i + 1) == Seq::<char>::empty());
            assert(split(chars@.take(i + 1), sep) =~= done.push(
                chars@.subrange(start as int, i + 1),
            ));
        } else {
            assert(chars@.subrange(start as int, i + 1) == piece.push(chars@[i as int]));
            assert(split(chars@.take(i + 1), sep) =~= done.push(
                chars@.subrange(start as int, i + 1),
            )) by {
                assert(done.push(piece).drop_last() == done);
            }
        }
        i += 1;
    }
    let ghost piece = chars@.subrange(start as int, chars@.len() as int);
    assert(chars@.take(chars@.len() as int) == s@);
    assert(done.push(piece).drop_last() == done);
    if start < chars.len() {
        let item = substring(&chars, start, chars.len());
        proof {
            lemma_texts_push(r@, item);
        }
        r.push(item);
    }
    r
}

/// The parts, with `sep` between each two of them.
pub open spec fn joined(parts: Seq<Seq<char>>, sep: Seq<char>) -> Seq<char>
    decreases parts.len(),
{
    if parts.len() == 0 {
        Seq::empty()
    } else if parts.len() == 1 {
        parts[0]
    } else {
        joined(parts.drop_last(), sep) + sep + parts.last()
    }
}

/// The parts, with `sep` between each two of them.
pub fn join(parts: &Vec<String>, sep: &str) -> (r: String)
    ensures
        r@ == joined(texts(parts@), sep@),
{
    let mut r = String::new();
    let mut i: usize = 0;
    let ghost all = texts(parts@);
    while i < parts.len()
        invariant
            i <= parts.len(),
            all == texts(parts@),
            r@ == joined(all.take(i as int), sep@),
        decreases parts.len() - i,
    {
        assert(all.take(i + 1).drop_last() == all.take(i as int));
        if i > 0 {
            r.append(sep);
        }
        r.append(parts[i].as_str());
        i += 1;
    }
    assert(all.take(all.len() as int) == all);
    r
}

/// Whether one of the pieces is not empty.
spec fn some_nonempty(s: Seq<Seq<char>>) -> bool {
    exists|j: int| 0 <= j < s.len() && (#[trigger] s[j]).len() > 0
}

proof fn lemma_nonempty_found(s: Seq<Seq<char>>)
    ensures
        some_nonempty(s) ==> nonempty(s).len() > 0,
    decreases s.len(),
{
    if s.len() > 0 && some_nonempty(s) && s.last().len() == 0 {
        let j = choose|j: int| 0 <= j < s.len() && (#[trigger] s[j]).len() > 0;
        assert(s.drop_last()[j] == s[j]);
        assert(some_nonempty(s.drop_last()));
        lemma_nonempty_found(s.drop_last());
    }
}

proof fn lemma_piece_of_word(s: Seq<char>, i: int)
    requires
        0 <= i < s.len(),
        !is_white(s[i]),
    ensures
        some_nonempty(split(s, is_blank())),
    decreases s.len(),
{
    let sep = is_blank();
    let before = split(s.drop_last(), sep);
    let all = split(s, sep);
    lemma_split_piece(s.drop_last(), sep);
    if sep(s.last()) {
        lemma_piece_of_word(s.drop_last(), i);
        let j = choose|j: int| 0 <= j < before.len() && (#[trigger] before[j]).len() > 0;
        assert(all[j] == before[j]);
    } else {
        assert(all[before.len() - 1].len() > 0);
    }
}

proof fn lemma_blank_trims(s: Seq<char>)
    requires
        forall|i: int| 0 <= i < s.len() ==> is_white(#[trigger] s[i]),
    ensures
        trim_start(s).len() == 0,
    decreases s.len(),
{
    if s.len() > 0 {
        assert(is_white(s[0]));
        assert forall|i: int| 0 <= i < s.drop_first().len() implies is_white(
            #[trigger] s.drop_first()[i],
        ) by {
            assert(s.drop_first()[i] == s[i + 1]);
        }
        lemma_blank_trims(s.drop_first());
    }
}

/// A text that is not blank has a word.
pub proof fn lemma_words_of_text(s: Seq<char>)
    requires
        trimmed(s).len() > 0,
    ensures
        words(s).len() > 0,
{
    if forall|i: int| 0 <= i < s.len() ==> is_white(#[trigger] s[i]) {
        lemma_blank_trims(s);
        assert(trim_end(trim_start(s)).len() == 0);
    }
    let i = choose|i: int| 0 <= i < s.len() && !is_white(#[trigger] s[i]);
    lemma_piece_of_word(s, i);
    lemma_nonempty_found(split(s, is_blank()));
}

// ---------------------------------------------------------------------------
// Parts around a character
// ---------------------------------------------------------------------------

/// The index of the first place of a character at or after `from`.
pub open spec fn first_index(s: Seq<char>, c: char, from: nat) -> Option<nat>
    decreases s.len() - from,
{
    if from >= s.len() {
        None
    } else if s[from as int] == c {
        Some(from)
    } else {
        first_index(s, c, from + 1)
    }
}

/// What stands before and after the first place of a character.
pub open spec fn split_at_first(s: Seq<char>, c: char) -> Option<(Seq<char>, Seq<char>)> {
    match first_index(s, c, 0) {
        Some(i) => Some((s.take(i as int), s.skip((i + 1) as int))),
        None => None,
    }
}

/// What stands before and after the first place of a character.
pub fn split_once(s: &str, c: char) -> (r: Option<(String, String)>)
    ensures
        split_at_first(s@, c) == (match r {
            Some((before, after)) => Some((before@, after@)),
            None => None,
        }),
{
    let chars = to_chars(s);
    let mut i: usize = 0;
    while i < chars.len()
        invariant
            i <= chars.len(),
            chars@ == s@,
            first_index(s@, c, 0) == first_index(s@, c, i as nat),
        decreases chars.len() - i,
    {
        if chars[i] == c {
            assert(s@.subrange(0, i as int) == s@.take(i as int));
            assert(s@.subrange(i + 1, s@.len() as int) == s@.skip(i + 1));
            return Some((substring(&chars, 0, i), substring(&chars, i + 1, chars.len())));
        }
        i += 1;
    }
    None
}

/// What stands after the last place of a character; the whole text where it does
/// not stand there.
pub open spec fn after_last(s: Seq<char>, c: char) -> Seq<char>
    decreases s.len(),
{
    if s.len() == 0 || s.last() == c {
        Seq::empty()
    } else {
        after_last(s.drop_last(), c).push(s.last())
    }
}

proof fn lemma_after_last(s: Seq<char>, c: char, from: int)
    requires
        0 <= from <= s.len(),
        forall|j: int| from <= j < s.len() ==> s[j] != c,
        from == 0 || s[from - 1] == c,
    ensures
        after_last(s, c) == s.skip(from),
    decreases s.len(),
{
    if from < s.len() {
        lemma_after_last(s.drop_last(), c, from);
        assert(s.drop_last().skip(from).push(s.last()) == s.skip(from));
    } else {
        assert(s.skip(from) == Seq::<char>::empty());
    }
}

/// What stands after the last place of a character.
pub fn last_part(s: &str, c: char) -> (r: String)
    ensures
        r@ == after_last(s@, c),
{
    let chars = to_chars(s);
    let mut i: usize = chars.len();
    while i > 0 && chars[i - 1] != c
        invariant
            i <= chars.len(),
            chars@ == s@,
            forall|j: int| i <= j < s@.len() ==> s@[j] != c,
        decreases i,
    {
        i -= 1;
    }
    proof {
        lemma_after_last(s@, c, i as int);
        assert(s@.subrange(i as int, s@.len() as int) == s@.skip(i as int));
    }
    substring(&chars, i, chars.len())
}

/// The lower-case form of an ASCII letter; any other character as it is.
pub open spec fn ascii_lower_char(c: char) -> char {
    if 65 <= c as u32 <= 90 {
        ((c as u32 + 32) as u8) as char
    } else {
        c
    }
}

/// A text with its ASCII letters in lower case.
pub open spec fn ascii_lower(s: Seq<char>) -> Seq<char> {
    Seq::new(s.len(), |i: int| ascii_lower_char(s[i]))
}

/// A text with its ASCII letters in lower case.
pub fn to_ascii_lower(s: &str) -> (r: String)
    ensures
        r@ == ascii_lower(s@),
{
    let chars = to_chars(s);
    let mut r = String::new();
    let mut i: usize = 0;
    while i < chars.len()
        invariant
            i <= chars.len(),
            chars@ == s@,
            r@ == ascii_lower(s@.take(i as int)),
        decreases chars.len() - i,
    {
        let n: u32 = chars[i] as u32;
        if 65 <= n && n <= 90 {
            r.push(((n + 32) as u8) as char);
        } else {
            r.push(chars[i]);
        }
        assert(ascii_lower(s@.take(i + 1)) =~= ascii_lower(s@.take(i as int)).push(
            ascii_lower_char(s@[i as int]),
        ));
        i += 1;
    }
    assert(s@.take(s@.len() as int) == s@);
    r
}

/// The decimal text of an integer, with a sign where it is negative.
pub open spec fn signed_decimal(n: int) -> Seq<char> {
    if n < 0 {
        "-"@ + decimal((-n) as nat)
    } else {
        decimal(n as nat)
    }
}

/// The decimal text of an integer.
pub fn to_signed_decimal(n: i64) -> (r: String)
    ensures
        r@ == signed_decimal(n as int),
{
    if n < 0 {
        let size: u64 = if n == i64::MIN {
            0x8000_0000_0000_0000
        } else {
            (-n) as u64
        };
        let mut r = "-".to_owned();
        r.append(to_decimal(size).as_str());
        r
    } else {
        to_decimal(n as u64)
    }
}

} // verus!
