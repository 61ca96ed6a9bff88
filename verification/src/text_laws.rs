//! What the functions on texts keep.
use crate::pagination::clamped;
use crate::text::{
    after_last, ascii_lower, csv, decimal, digit, digits_fault, digits_value, each_trimmed,
    first_index, is_blank, is_char, is_white, joined, nonempty, number_of, split, split_at_first,
    trim_end, trim_start, trimmed, words, NumberError,
};
use vstd::prelude::*;

verus! {

/// The decimal text of a number reads as that number.
pub proof fn lemma_decimal_reads_back(n: nat)
    ensures
        decimal(n).len() > 0,
        digits_value(decimal(n)) == n,
    decreases n,
{
    reveal_with_fuel(digits_value, 2);
    if n < 10 {
        assert(decimal(n).drop_last() =~= Seq::<char>::empty());
        assert(digit(n) as u32 == 48 + n);
    } else {
        lemma_decimal_reads_back(n / 10);
        assert(decimal(n).drop_last() =~= decimal(n / 10));
        assert(digit(n % 10) as u32 == 48 + n % 10);
    }
}

proof fn lemma_decimal_digits(n: nat)
    requires
        n <= u64::MAX,
    ensures
        digits_fault(decimal(n)) is None,
        decimal(n).len() > 0,
        decimal(n)[0] != '+',
    decreases n,
{
    lemma_decimal_reads_back(n);
    reveal_with_fuel(digits_fault, 2);
    if n < 10 {
        assert(decimal(n).drop_last() =~= Seq::<char>::empty());
        assert(digit(n) as u32 == 48 + n);
    } else {
        lemma_decimal_digits(n / 10);
        assert(decimal(n).drop_last() =~= decimal(n / 10));
        assert(digit(n % 10) as u32 == 48 + n % 10);
        assert(decimal(n)[0] == decimal(n / 10)[0]);
    }
}

/// A number that is written as decimal text is read as that number.
pub proof fn lemma_numbers_are_read_as_written(n: u64)
    ensures
        number_of(decimal(n as nat)) == Ok::<u64, NumberError>(n),
{
    lemma_decimal_digits(n as nat);
    lemma_decimal_reads_back(n as nat);
}

proof fn lemma_first_index(s: Seq<char>, c: char, from: nat)
    ensures
        match first_index(s, c, from) {
            Some(i) => from <= i < s.len() && s[i as int] == c && forall|j: int|
                from <= j < i ==> s[j] != c,
            None => forall|j: int| from <= j < s.len() ==> s[j] != c,
        },
    decreases s.len() - from,
{
    if from < s.len() && s[from as int] != c {
        lemma_first_index(s, c, from + 1);
    }
}

/// A text is cut at the first place of a character: what stands before, the character and
/// what stands after are the text, and the character does not stand before.
pub proof fn lemma_cut_at_the_first(s: Seq<char>, c: char)
    ensures
        match split_at_first(s, c) {
            Some((before, after)) => s == before.push(c) + after && !before.contains(c),
            None => !s.contains(c),
        },
{
    lemma_first_index(s, c, 0);
    if let Some(i) = first_index(s, c, 0) {
        assert(s =~= s.take(i as int).push(c) + s.skip((i + 1) as int));
    }
}

/// A text that is put together around a character is cut there, where the character does
/// not stand in the first part.
pub proof fn lemma_cut_undoes_putting_together(before: Seq<char>, c: char, after: Seq<char>)
    requires
        !before.contains(c),
    ensures
        split_at_first(before.push(c) + after, c) == Some((before, after)),
{
    let s = before.push(c) + after;
    let n = before.len() as int;
    assert(s[n] == c);
    lemma_first_index(s, c, 0);
    let i = first_index(s, c, 0)->0;
    if i < n {
        assert(s[i as int] == before[i as int]);
    }
    assert(i == n);
    assert(s.take(n) =~= before);
    assert(s.skip(n + 1) =~= after);
}

/// The last part of a text has no separator, and the text ends with it: it is the whole
/// text, or a separator stands before it.
pub proof fn lemma_last_part_has_no_separator(s: Seq<char>, c: char)
    ensures
        !after_last(s, c).contains(c),
        after_last(s, c).len() <= s.len(),
        s.skip(s.len() - after_last(s, c).len()) == after_last(s, c),
        after_last(s, c).len() == s.len() || s[s.len() - after_last(s, c).len() - 1] == c,
    decreases s.len(),
{
    if s.len() > 0 && s.last() != c {
        let t = s.drop_last();
        lemma_last_part_has_no_separator(t, c);
        let part = after_last(t, c);
        assert(after_last(s, c) == part.push(s.last()));
        assert(s.skip(s.len() - part.len() - 1) =~= part.push(s.last())) by {
            assert(t.skip(t.len() - part.len()) == part);
            assert forall|j: int| 0 <= j < part.len() implies s[s.len() - part.len() - 1 + j]
                == part[j] by {
                assert(t.skip(t.len() - part.len())[j] == part[j]);
            }
        }
        assert forall|j: int| 0 <= j < part.push(s.last()).len() implies part.push(s.last())[j] != c by {
            if j < part.len() {
                assert(part.contains(part[j]));
            }
        }
    } else {
        assert(s.skip(s.len() as int) =~= Seq::<char>::empty());
    }
}

proof fn lemma_trim_start(s: Seq<char>) -> (n: int)
    ensures
        0 <= n <= s.len(),
        trim_start(s) == s.skip(n),
        forall|i: int| 0 <= i < n ==> is_white(#[trigger] s[i]),
        n < s.len() ==> !is_white(s[n]),
    decreases s.len(),
{
    if s.len() > 0 && is_white(s[0]) {
        let m = lemma_trim_start(s.drop_first());
        assert(s.drop_first().skip(m) =~= s.skip(m + 1));
        assert forall|i: int| 0 <= i < m + 1 implies is_white(#[trigger] s[i]) by {
            if i > 0 {
                assert(s.drop_first()[i - 1] == s[i]);
            }
        }
        m + 1
    } else {
        assert(s.skip(0) =~= s);
        0
    }
}

proof fn lemma_trim_end(s: Seq<char>) -> (n: int)
    ensures
        0 <= n <= s.len(),
        trim_end(s) == s.take(n),
        forall|i: int| n <= i < s.len() ==> is_white(#[trigger] s[i]),
        n > 0 ==> !is_white(s[n - 1]),
    decreases s.len(),
{
    if s.len() > 0 && is_white(s.last()) {
        let m = lemma_trim_end(s.drop_last());
        assert(s.drop_last().take(m) =~= s.take(m));
        assert forall|i: int| m <= i < s.len() implies is_white(#[trigger] s[i]) by {
            if i < s.len() - 1 {
                assert(s.drop_last()[i] == s[i]);
            }
        }
        m
    } else {
        assert(s.take(s.len() as int) =~= s);
        s.len() as int
    }
}

/// Whether a text is another with white space around it.
pub open spec fn pads(s: Seq<char>, inner: Seq<char>, from: int) -> bool {
    &&& 0 <= from
    &&& from + inner.len() <= s.len()
    &&& inner == s.subrange(from, from + inner.len())
    &&& forall|i: int| 0 <= i < from ==> is_white(#[trigger] s[i])
    &&& forall|i: int| from + inner.len() <= i < s.len() ==> is_white(#[trigger] s[i])
}

/// Trimming takes white space off both ends of a text and nothing else: what is left
/// neither starts nor ends with white space.
pub proof fn lemma_trimming_takes_white_space_off(s: Seq<char>)
    ensures
        exists|from: int| #[trigger] pads(s, trimmed(s), from),
        trimmed(s).len() > 0 ==> !is_white(trimmed(s)[0]) && !is_white(trimmed(s).last()),
{
    let a = lemma_trim_start(s);
    let t = trim_start(s);
    let b = lemma_trim_end(t);
    assert forall|i: int| a + b <= i < s.len() implies is_white(#[trigger] s[i]) by {
        assert(t[i - a] == s[i]);
    }
    assert(trimmed(s) =~= s.subrange(a, a + b));
    assert(pads(s, trimmed(s), a));
    if b > 0 {
        assert(t[0] == s[a]);
    }
}

/// The pieces of a text have no separator and, with the separator between each two of
/// them, are the text.
pub proof fn lemma_pieces_are_the_text(s: Seq<char>, c: char)
    ensures
        split(s, is_char(c)).len() > 0,
        joined(split(s, is_char(c)), seq![c]) == s,
        forall|i: int|
            0 <= i < split(s, is_char(c)).len() ==> !(#[trigger] split(s, is_char(c))[i]).contains(c),
    decreases s.len(),
{
    let r = split(s, is_char(c));
    if s.len() == 0 {
        assert(joined(r, seq![c]) =~= s);
    } else {
        let t = s.drop_last();
        lemma_pieces_are_the_text(t, c);
        let before = split(t, is_char(c));
        assert(is_char(c)(s.last()) == (s.last() == c));
        if s.last() == c {
            assert(r.drop_last() =~= before);
            assert(joined(r, seq![c]) =~= t.push(c));
        } else {
            assert(r.drop_last() =~= before.drop_last());
            assert forall|i: int| 0 <= i < r.len() implies !(#[trigger] r[i]).contains(c) by {
                if i < r.len() - 1 {
                    assert(r[i] == before[i]);
                } else {
                    let last = before.last();
                    assert(!last.contains(c));
                    assert forall|j: int| 0 <= j < r[i].len() implies r[i][j] != c by {
                        if j < last.len() {
                            assert(last.contains(last[j]));
                        }
                    }
                }
            }
            if r.len() == 1 {
                assert(before.len() == 1);
                assert(joined(r, seq![c]) =~= s);
            } else {
                let front = joined(before.drop_last(), seq![c]) + seq![c];
                assert(joined(before, seq![c]) == front + before.last());
                assert(front + before.last().push(s.last()) =~= (front + before.last()).push(
                    s.last(),
                ));
                assert(joined(r, seq![c]) == front + r.last());
                assert(s =~= t.push(s.last()));
            }
        }
        assert(s =~= t.push(s.last()));
    }
}

proof fn lemma_nonempty(s: Seq<Seq<char>>)
    ensures
        forall|i: int| 0 <= i < nonempty(s).len() ==> (#[trigger] nonempty(s)[i]).len() > 0,
        forall|x: Seq<char>| #[trigger] nonempty(s).contains(x) <==> (s.contains(x) && x.len() > 0),
    decreases s.len(),
{
    if s.len() > 0 {
        let t = s.drop_last();
        lemma_nonempty(t);
        assert forall|i: int| 0 <= i < nonempty(s).len() implies (#[trigger] nonempty(s)[i]).len()
            > 0 by {
            if i < nonempty(t).len() {
                assert(nonempty(s)[i] == nonempty(t)[i]);
            }
        }
        assert forall|x: Seq<char>| #[trigger] nonempty(s).contains(x) <==> (s.contains(x) && x.len()
            > 0) by {
            if s.contains(x) {
                let k = choose|k: int| 0 <= k < s.len() && s[k] == x;
                if k < t.len() {
                    assert(t[k] == x);
                    assert(t.contains(x));
                }
            }
            if t.contains(x) {
                let k = choose|k: int| 0 <= k < t.len() && t[k] == x;
                assert(s[k] == x);
            }
            let r = nonempty(t);
            if s.last().len() > 0 {
                assert(nonempty(s) == r.push(s.last()));
                assert(r.push(s.last())[r.len() as int] == s.last());
                if r.contains(x) {
                    let k = choose|k: int| 0 <= k < r.len() && r[k] == x;
                    assert(r.push(s.last())[k] == x);
                }
                if nonempty(s).contains(x) {
                    let k = choose|k: int| 0 <= k < nonempty(s).len() && nonempty(s)[k] == x;
                    if k < r.len() {
                        assert(r[k] == x);
                        assert(r.contains(x));
                    } else {
                        assert(s[s.len() - 1] == x);
                    }
                }
            }
        }
    } else {
        assert(nonempty(s).len() == 0);
    }
}

/// The items of a comma-separated list are what is left, between two commas, of a piece
/// that is not blank.
pub proof fn lemma_items_stand_between_commas(raw: Seq<char>, item: Seq<char>)
    ensures
        csv(raw).contains(item) <==> (item.len() > 0 && exists|i: int|
            0 <= i < split(raw, is_char(',')).len() && trimmed(
                #[trigger] split(raw, is_char(','))[i],
            ) == item),
{
    let pieces = split(raw, is_char(','));
    let trims = each_trimmed(pieces);
    lemma_nonempty(trims);
    if trims.contains(item) {
        let k = choose|k: int| 0 <= k < trims.len() && trims[k] == item;
        assert(trimmed(pieces[k]) == item);
    }
    if exists|i: int| 0 <= i < pieces.len() && trimmed(#[trigger] pieces[i]) == item {
        let k = choose|i: int| 0 <= i < pieces.len() && trimmed(#[trigger] pieces[i]) == item;
        assert(trims[k] == item);
    }
}

proof fn lemma_blank_pieces(s: Seq<char>)
    ensures
        forall|i: int, j: int|
            0 <= i < split(s, is_blank()).len() && 0 <= j < split(s, is_blank())[i].len()
                ==> !is_white(#[trigger] split(s, is_blank())[i][j]),
    decreases s.len(),
{
    if s.len() > 0 {
        let before = split(s.drop_last(), is_blank());
        lemma_blank_pieces(s.drop_last());
        let r = split(s, is_blank());
        lemma_split_is_filled(s.drop_last());
        assert forall|i: int, j: int| 0 <= i < r.len() && 0 <= j < r[i].len() implies !is_white(
            #[trigger] r[i][j],
        ) by {
            if i < before.len() && j < before[i].len() {
                assert(!is_white(before[i][j]));
            }
        }
    }
}

proof fn lemma_split_is_filled(s: Seq<char>)
    ensures
        split(s, is_blank()).len() > 0,
    decreases s.len(),
{
    if s.len() > 0 {
        lemma_split_is_filled(s.drop_last());
    }
}

/// A word is not empty and has no white space.
pub proof fn lemma_words_have_no_white_space(s: Seq<char>, k: int, j: int)
    requires
        0 <= k < words(s).len(),
        0 <= j < words(s)[k].len(),
    ensures
        !is_white(words(s)[k][j]),
        words(s)[k].len() > 0,
{
    let pieces = split(s, is_blank());
    let word = words(s)[k];
    lemma_nonempty(pieces);
    lemma_blank_pieces(s);
    assert(words(s).contains(word));
    assert(pieces.contains(word));
    let i = choose|i: int| 0 <= i < pieces.len() && pieces[i] == word;
    assert(!is_white(pieces[i][j]));
}

/// A page size lies from 1 to the maximum, and is what is asked for as far as that does.
pub proof fn lemma_page_size_is_the_nearest(first: Option<u32>, default: u32, max: u32, n: u32)
    requires
        1 <= n <= max,
    ensures
        1 <= clamped(first, default, max) <= max,
        first matches Some(asked) ==> (if clamped(first, default, max) <= asked {
            n <= asked ==> n <= clamped(first, default, max)
        } else {
            asked < n ==> clamped(first, default, max) <= n
        }),
        first is None && 1 <= default <= max ==> clamped(first, default, max) == default,
        first == Some(n) ==> clamped(first, default, max) == n,
{
}

/// A text in lower case has no upper-case ASCII letter, keeps every other character and is
/// its own lower case.
pub proof fn lemma_lower_case_stays(s: Seq<char>)
    ensures
        ascii_lower(s).len() == s.len(),
        ascii_lower(ascii_lower(s)) == ascii_lower(s),
        forall|i: int|
            0 <= i < s.len() ==> {
                let (old_code, new_code) = (s[i] as u32, (#[trigger] ascii_lower(s)[i]) as u32);
                &&& !('A' as u32 <= new_code <= 'Z' as u32)
                &&& if 'A' as u32 <= old_code <= 'Z' as u32 {
                    new_code - 'a' as u32 == old_code - 'A' as u32
                } else {
                    ascii_lower(s)[i] == s[i]
                }
            },
{
    assert(ascii_lower(ascii_lower(s)) =~= ascii_lower(s));
}

} // verus!
