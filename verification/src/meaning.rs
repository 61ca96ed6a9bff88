//! What SQL means: which rows a condition is true of, what a select list shows, which
//! rows a page of a list holds.
//!
//! A text means something here by being the text of a structure whose meaning is stated
//! beside it. The laws of the modules that build queries say what their texts mean.
use crate::listing::{id_query, page_clause, page_order};
use crate::node_base::EdgeRef;
use crate::pagination::{after_cursor, cursor_sql, is_collation, CursorView, SortDir};
use crate::sql::{escaped, pattern, pattern_char, quoted, quoted_list};
use crate::table::{known, known_items, Batch, ColumnData};
use crate::text::{decimal, joined, opt_text, signed_decimal, texts};
use vstd::prelude::*;

verus! {

// ---------------------------------------------------------------------------
// Rows
// ---------------------------------------------------------------------------

/// A row as a condition sees it: the value of each expression, and the items of each
/// list; `None` stands for null.
pub ghost struct Row {
    pub value: spec_fn(Seq<char>) -> Option<Seq<char>>,
    pub items: spec_fn(Seq<char>) -> Option<Seq<Seq<char>>>,
}

/// What a database knows of letters: the lower case of a text, which letters differ in
/// case only, and the order of texts.
pub ghost struct Letters {
    pub lower: spec_fn(Seq<char>) -> Seq<char>,
    pub alike: spec_fn(char, char) -> bool,
    pub lt: spec_fn(Seq<char>, Seq<char>) -> bool,
}

impl Row {
    /// The value of an expression.
    pub open spec fn at(self, expr: Seq<char>) -> Option<Seq<char>> {
        (self.value)(expr)
    }

    /// The items of a list.
    pub open spec fn list(self, expr: Seq<char>) -> Option<Seq<Seq<char>>> {
        (self.items)(expr)
    }

    /// The row with a value for an item `x` of a list.
    pub open spec fn with_item(self, item: Seq<char>) -> Row {
        Row {
            value: |expr: Seq<char>|
                if expr == "x"@ {
                    Some(item)
                } else {
                    (self.value)(expr)
                },
            items: self.items,
        }
    }
}

// ---------------------------------------------------------------------------
// Literals
// ---------------------------------------------------------------------------

/// The literal of a text.
pub open spec fn literal(s: Seq<char>) -> Seq<char> {
    seq!['\''] + escaped(s) + seq!['\'']
}

/// The literals of some texts.
pub open spec fn literals(items: Seq<Seq<char>>) -> Seq<char>
    decreases items.len(),
{
    if items.len() == 0 {
        Seq::empty()
    } else if items.len() == 1 {
        literal(items[0])
    } else {
        literals(items.drop_last()) + ", "@ + literal(items.last())
    }
}

/// A quoted text is a literal.
pub proof fn lemma_quoted_is_literal(s: Seq<char>)
    ensures
        quoted(s) == literal(s),
        "'"@ == seq!['\''],
{
    reveal_strlit("'");
    assert("'"@ =~= seq!['\'']);
}

/// Quoted texts between commas are literals.
pub proof fn lemma_quoted_list_is_literals(items: Seq<Seq<char>>)
    ensures
        quoted_list(items) == literals(items),
    decreases items.len(),
{
    let parts = Seq::new(items.len(), |i: int| quoted(items[i]));
    if items.len() > 0 {
        lemma_quoted_is_literal(items.last());
        if items.len() > 1 {
            let front = items.drop_last();
            lemma_quoted_list_is_literals(front);
            assert(parts.drop_last() =~= Seq::new(front.len(), |i: int| quoted(front[i])));
        }
    }
}

/// A text without quotes is its own escaped form.
pub proof fn lemma_plain_literal(s: Seq<char>)
    requires
        forall|i: int| 0 <= i < s.len() ==> #[trigger] s[i] != '\'',
    ensures
        escaped(s) == s,
        literal(s) == seq!['\''] + s + seq!['\''],
    decreases s.len(),
{
    if s.len() > 0 {
        let front = s.drop_last();
        assert forall|i: int| 0 <= i < front.len() implies #[trigger] front[i] != '\'' by {
            assert(front[i] == s[i]);
        }
        lemma_plain_literal(front);
        assert(s[s.len() - 1] != '\'');
        assert(front + seq![s.last()] =~= s);
    }
}

// ---------------------------------------------------------------------------
// Patterns
// ---------------------------------------------------------------------------

/// An element of a pattern: any text, any one character, or a character itself, as a text
/// of one.
pub ghost enum Element {
    Any,
    One,
    Is(Seq<char>),
}

/// The elements of a pattern, with or without `\` as the escape character.
pub open spec fn elements(p: Seq<char>, escape: bool) -> Seq<Element>
    decreases p.len(),
{
    if p.len() == 0 {
        Seq::empty()
    } else if escape && p[0] == '\\' && p.len() > 1 {
        seq![Element::Is(seq![p[1]])] + elements(p.skip(2), escape)
    } else {
        seq![
            if p[0] == '%' {
                Element::Any
            } else if p[0] == '_' {
                Element::One
            } else {
                Element::Is(seq![p[0]])
            },
        ] + elements(p.skip(1), escape)
    }
}

/// Whether a character is what an element stands for.
pub open spec fn stands_for(e: Element, c: char, alike: spec_fn(char, char) -> bool) -> bool {
    match e {
        Element::Any => false,
        Element::One => true,
        Element::Is(x) => alike(c, x[0]),
    }
}

/// Whether a text is what a pattern stands for.
pub open spec fn fits(t: Seq<char>, p: Seq<Element>, alike: spec_fn(char, char) -> bool) -> bool
    decreases t.len() + p.len(),
{
    if p.len() == 0 {
        t.len() == 0
    } else if p[0] is Any {
        fits(t, p.skip(1), alike) || (t.len() > 0 && fits(t.skip(1), p, alike))
    } else {
        t.len() > 0 && stands_for(p[0], t[0], alike) && fits(t.skip(1), p.skip(1), alike)
    }
}

/// The same letter.
pub open spec fn same_letter() -> spec_fn(char, char) -> bool {
    |a: char, b: char| a == b
}

/// Whether elements stand for the characters of a text from a place on.
pub open spec fn stands_at(
    t: Seq<char>,
    p: Seq<Element>,
    at: int,
    alike: spec_fn(char, char) -> bool,
) -> bool {
    &&& 0 <= at
    &&& at + p.len() <= t.len()
    &&& forall|j: int| 0 <= j < p.len() ==> stands_for(#[trigger] p[j], t[at + j], alike)
}

/// Whether a word stands somewhere in a text, but for the case of letters.
pub open spec fn finds(t: Seq<char>, word: Seq<char>, alike: spec_fn(char, char) -> bool) -> bool {
    exists|at: int| #[trigger] found_at(t, word, at, alike)
}

/// Whether a word stands at a place in a text, but for the case of letters.
pub open spec fn found_at(
    t: Seq<char>,
    word: Seq<char>,
    at: int,
    alike: spec_fn(char, char) -> bool,
) -> bool {
    &&& 0 <= at
    &&& at + word.len() <= t.len()
    &&& forall|j: int| 0 <= j < word.len() ==> alike(t[at + j], #[trigger] word[j])
}

proof fn lemma_any_fits(t: Seq<char>, alike: spec_fn(char, char) -> bool)
    ensures
        fits(t, seq![Element::Any], alike),
    decreases t.len(),
{
    let p = seq![Element::Any];
    assert(p.skip(1) =~= Seq::<Element>::empty());
    reveal_with_fuel(fits, 2);
    if t.len() > 0 {
        lemma_any_fits(t.skip(1), alike);
    }
}

/// A pattern that ends with any text stands for the texts that start with the rest of it.
proof fn lemma_prefix_fits(t: Seq<char>, p: Seq<Element>, alike: spec_fn(char, char) -> bool)
    requires
        forall|j: int| 0 <= j < p.len() ==> !((#[trigger] p[j]) is Any),
    ensures
        fits(t, p.push(Element::Any), alike) <==> stands_at(t, p, 0, alike),
    decreases p.len(),
{
    let whole = p.push(Element::Any);
    if p.len() == 0 {
        assert(whole =~= seq![Element::Any]);
        lemma_any_fits(t, alike);
    } else {
        let rest = p.skip(1);
        assert(whole[0] == p[0]);
        assert(whole.skip(1) =~= rest.push(Element::Any));
        assert forall|j: int| 0 <= j < rest.len() implies !((#[trigger] rest[j]) is Any) by {
            assert(rest[j] == p[j + 1]);
        }
        if t.len() > 0 {
            lemma_prefix_fits(t.skip(1), rest, alike);
            if stands_at(t, p, 0, alike) {
                assert(stands_for(p[0], t[0], alike));
                assert forall|j: int| 0 <= j < rest.len() implies stands_for(
                    #[trigger] rest[j],
                    t.skip(1)[0 + j],
                    alike,
                ) by {
                    assert(stands_for(p[j + 1], t[0 + (j + 1)], alike));
                }
            }
            if fits(t, whole, alike) {
                assert forall|j: int| 0 <= j < p.len() implies stands_for(
                    #[trigger] p[j],
                    t[0 + j],
                    alike,
                ) by {
                    if j > 0 {
                        assert(stands_for(rest[j - 1], t.skip(1)[0 + (j - 1)], alike));
                    }
                }
            }
        }
    }
}

/// A pattern between any text and any text stands for the texts that hold it.
proof fn lemma_infix_fits(t: Seq<char>, p: Seq<Element>, alike: spec_fn(char, char) -> bool)
    requires
        forall|j: int| 0 <= j < p.len() ==> !((#[trigger] p[j]) is Any),
    ensures
        fits(t, (seq![Element::Any] + p).push(Element::Any), alike) <==> exists|at: int| #[trigger]
            stands_at(t, p, at, alike),
    decreases t.len(),
{
    let whole = (seq![Element::Any] + p).push(Element::Any);
    assert(whole.skip(1) =~= p.push(Element::Any));
    lemma_prefix_fits(t, p, alike);
    if t.len() > 0 {
        let rest = t.skip(1);
        lemma_infix_fits(rest, p, alike);
        if exists|at: int| #[trigger] stands_at(rest, p, at, alike) {
            let at = choose|at: int| #[trigger] stands_at(rest, p, at, alike);
            assert forall|j: int| 0 <= j < p.len() implies stands_for(
                #[trigger] p[j],
                t[at + 1 + j],
                alike,
            ) by {
                assert(stands_for(p[j], rest[at + j], alike));
            }
            assert(stands_at(t, p, at + 1, alike));
        }
        if exists|at: int| #[trigger] stands_at(t, p, at, alike) {
            let at = choose|at: int| #[trigger] stands_at(t, p, at, alike);
            if at > 0 {
                assert forall|j: int| 0 <= j < p.len() implies stands_for(
                    #[trigger] p[j],
                    rest[at - 1 + j],
                    alike,
                ) by {
                    assert(stands_for(p[j], t[at + j], alike));
                }
                assert(stands_at(rest, p, at - 1, alike));
            }
        }
    } else {
        if exists|at: int| #[trigger] stands_at(t, p, at, alike) {
            let at = choose|at: int| #[trigger] stands_at(t, p, at, alike);
            assert(at == 0);
        }
    }
}

/// The characters of a text as elements.
pub open spec fn exactly(s: Seq<char>) -> Seq<Element>
    decreases s.len(),
{
    if s.len() == 0 {
        Seq::empty()
    } else {
        exactly(s.drop_last()).push(Element::Is(seq![s.last()]))
    }
}

proof fn lemma_exactly(s: Seq<char>)
    ensures
        exactly(s).len() == s.len(),
        forall|i: int| 0 <= i < s.len() ==> #[trigger] exactly(s)[i] == Element::Is(seq![s[i]]),
    decreases s.len(),
{
    if s.len() > 0 {
        lemma_exactly(s.drop_last());
    }
}

proof fn lemma_pattern_elements(s: Seq<char>, rest: Seq<char>)
    ensures
        elements(pattern(s) + rest, true) == exactly(s) + elements(rest, true),
    decreases s.len(),
{
    lemma_exactly(s);
    if s.len() == 0 {
        assert(pattern(s) + rest =~= rest);
        assert(exactly(s) + elements(rest, true) =~= elements(rest, true));
    } else {
        let c = s.last();
        let tail = pattern_char(c) + rest;
        lemma_pattern_elements(s.drop_last(), tail);
        assert(pattern(s) + rest =~= pattern(s.drop_last()) + tail);
        if c == '\\' || c == '%' || c == '_' {
            assert(tail.skip(2) =~= rest);
        } else {
            assert(tail.skip(1) =~= rest);
        }
        assert(elements(tail, true) == seq![Element::Is(seq![c])] + elements(rest, true));
        assert(exactly(s) =~= exactly(s.drop_last()) + seq![Element::Is(seq![c])]);
        assert(exactly(s.drop_last()) + (seq![Element::Is(seq![c])] + elements(rest, true)) =~= exactly(s)
            + elements(rest, true));
    }
}

/// An escaped text between any text and any text stands for the texts that hold it,
/// whatever wildcards are in it.
pub proof fn lemma_pattern_finds(
    t: Seq<char>,
    word: Seq<char>,
    alike: spec_fn(char, char) -> bool,
)
    ensures
        fits(t, elements(seq!['%'] + pattern(word) + seq!['%'], true), alike) <==> finds(
            t,
            word,
            alike,
        ),
{
    let p = seq!['%'] + pattern(word) + seq!['%'];
    lemma_exactly(word);
    lemma_pattern_elements(word, seq!['%']);
    assert(p.skip(1) =~= pattern(word) + seq!['%']);
    assert(seq!['%'].skip(1) =~= Seq::<char>::empty());
    reveal_with_fuel(elements, 2);
    assert(elements(seq!['%'], true) =~= seq![Element::Any]);
    assert(elements(p, true) =~= (seq![Element::Any] + exactly(word)).push(Element::Any));
    lemma_infix_fits(t, exactly(word), alike);
    assert forall|at: int| #[trigger] found_at(t, word, at, alike) == stands_at(
        t,
        exactly(word),
        at,
        alike,
    ) by {
        if found_at(t, word, at, alike) {
            assert forall|j: int| 0 <= j < exactly(word).len() implies stands_for(
                #[trigger] exactly(word)[j],
                t[at + j],
                alike,
            ) by {
                assert(alike(t[at + j], word[j]));
            }
        }
        if stands_at(t, exactly(word), at, alike) {
            assert forall|j: int| 0 <= j < word.len() implies alike(t[at + j], #[trigger] word[j]) by {
                assert(stands_for(exactly(word)[j], t[at + j], alike));
            }
        }
    }
    if exists|at: int| #[trigger] stands_at(t, exactly(word), at, alike) {
        let at = choose|at: int| #[trigger] stands_at(t, exactly(word), at, alike);
        assert(found_at(t, word, at, alike));
    }
    if finds(t, word, alike) {
        let at = choose|at: int| #[trigger] found_at(t, word, at, alike);
        assert(stands_at(t, exactly(word), at, alike));
    }
}

/// The pattern for texts that start with a text stands for those.
pub proof fn lemma_pattern_starts(
    t: Seq<char>,
    word: Seq<char>,
    alike: spec_fn(char, char) -> bool,
)
    ensures
        fits(t, elements(pattern(word) + seq!['%'], true), alike) <==> found_at(t, word, 0, alike),
{
    lemma_exactly(word);
    lemma_pattern_elements(word, seq!['%']);
    assert(seq!['%'].skip(1) =~= Seq::<char>::empty());
    reveal_with_fuel(elements, 2);
    assert(elements(seq!['%'], true) =~= seq![Element::Any]);
    assert(exactly(word) + seq![Element::Any] =~= exactly(word).push(Element::Any));
    lemma_prefix_fits(t, exactly(word), alike);
    if found_at(t, word, 0, alike) {
        assert forall|j: int| 0 <= j < exactly(word).len() implies stands_for(
            #[trigger] exactly(word)[j],
            t[0 + j],
            alike,
        ) by {
            assert(alike(t[0 + j], word[j]));
        }
    }
    if stands_at(t, exactly(word), 0, alike) {
        assert forall|j: int| 0 <= j < word.len() implies alike(t[0 + j], #[trigger] word[j]) by {
            assert(stands_for(exactly(word)[j], t[0 + j], alike));
        }
    }
}

// ---------------------------------------------------------------------------
// Conditions
// ---------------------------------------------------------------------------

/// An expression with a text for its value.
pub ghost enum Expr {
    /// An expression whose value the row has.
    Of(Seq<char>),
    /// A literal.
    Text(Seq<char>),
    /// The lower case of another.
    Lower(Box<Expr>),
    /// The items of a list with a text between each two of them.
    Joined(Seq<char>, Seq<char>),
}

impl Expr {
    /// The text of the expression.
    pub open spec fn sql(self) -> Seq<char>
        decreases self,
    {
        match self {
            Expr::Of(e) => e,
            Expr::Text(s) => literal(s),
            Expr::Lower(e) => "lower("@ + e.sql() + ")"@,
            Expr::Joined(list, sep) => "array_to_string("@ + list + ", "@ + literal(sep) + ")"@,
        }
    }

    /// The value of the expression in a row.
    pub open spec fn eval(self, row: Row, l: Letters) -> Option<Seq<char>>
        decreases self,
    {
        match self {
            Expr::Of(e) => row.at(e),
            Expr::Text(s) => Some(s),
            Expr::Lower(e) => match e.eval(row, l) {
                Some(v) => Some((l.lower)(v)),
                None => None,
            },
            Expr::Joined(list, sep) => match row.list(list) {
                Some(items) => Some(joined(items, sep)),
                None => None,
            },
        }
    }
}

/// A condition on a row. A comparison with null is not true.
pub ghost enum Pred {
    /// Every row.
    Always,
    /// The values are the same.
    Equal(Expr, Expr),
    /// The first value comes before the second.
    Less(Expr, Expr),
    /// The first value comes behind the second.
    Greater(Expr, Expr),
    /// There is no value.
    IsNull(Expr),
    /// There is a value.
    NotNull(Expr),
    /// There is a list.
    HasList(Seq<char>),
    /// The value is one of some texts.
    OneOf(Expr, Seq<Seq<char>>),
    /// The value fits a pattern without an escape character.
    Like(Expr, Seq<char>),
    /// The value fits, but for the case of letters, the pattern of any text with a word in
    /// it.
    Holds(Expr, Seq<char>),
    /// The lower case of the value fits the lower case of a pattern without an escape
    /// character.
    LowerLike(Seq<char>, Seq<char>),
    /// The lower case of the value fits the lower case of the pattern of a word with any
    /// text behind it.
    Starts(Seq<char>, Seq<char>),
    /// An item `x` of a list meets a condition.
    AnyItem(Seq<char>, Box<Pred>),
    /// Both.
    And(Box<Pred>, Box<Pred>),
    /// One of both.
    Or(Box<Pred>, Box<Pred>),
    /// A condition in brackets.
    Group(Box<Pred>),
}

impl Pred {
    /// The text of the condition.
    pub open spec fn sql(self) -> Seq<char>
        decreases self,
    {
        match self {
            Pred::Always => "1=1"@,
            Pred::Equal(a, b) => a.sql() + " = "@ + b.sql(),
            Pred::Less(a, b) => a.sql() + " < "@ + b.sql(),
            Pred::Greater(a, b) => a.sql() + " > "@ + b.sql(),
            Pred::IsNull(a) => a.sql() + " IS NULL"@,
            Pred::NotNull(a) => a.sql() + " IS NOT NULL"@,
            Pred::HasList(list) => list + " IS NOT NULL"@,
            Pred::OneOf(a, items) => a.sql() + " IN ("@ + literals(items) + ")"@,
            Pred::Like(a, p) => a.sql() + " LIKE "@ + literal(p),
            Pred::Holds(a, word) => a.sql() + " ILIKE '%' || "@ + literal(pattern(word))
                + " || '%' ESCAPE '\\'"@,
            Pred::LowerLike(e, p) => "LOWER("@ + e + ") LIKE LOWER("@ + literal(p) + ")"@,
            Pred::Starts(e, word) => "lower("@ + e + ") LIKE lower("@ + literal(pattern(word))
                + ") || '%' ESCAPE '\\'"@,
            Pred::AnyItem(list, p) => "len(list_filter("@ + list + ", x -> "@ + p.sql() + ")) > 0"@,
            Pred::And(p, q) => p.sql() + " AND "@ + q.sql(),
            Pred::Or(p, q) => p.sql() + " OR "@ + q.sql(),
            Pred::Group(p) => "("@ + p.sql() + ")"@,
        }
    }

    /// Whether the text is read as the condition: `AND` binds its parts before `OR` does,
    /// and no list of texts is empty.
    pub open spec fn is_sql(self) -> bool
        decreases self,
    {
        match self {
            Pred::OneOf(_, items) => items.len() > 0,
            Pred::AnyItem(_, p) => p.is_sql(),
            Pred::And(p, q) => p.is_sql() && q.is_sql() && !(*p is Or) && !(*q is Or),
            Pred::Or(p, q) => p.is_sql() && q.is_sql(),
            Pred::Group(p) => p.is_sql(),
            _ => true,
        }
    }

    /// Whether the condition is true of a row.
    pub open spec fn holds(self, row: Row, l: Letters) -> bool
        decreases self,
    {
        match self {
            Pred::Always => true,
            Pred::Equal(a, b) => a.eval(row, l) is Some && a.eval(row, l) == b.eval(row, l),
            Pred::Less(a, b) => match (a.eval(row, l), b.eval(row, l)) {
                (Some(x), Some(y)) => (l.lt)(x, y),
                _ => false,
            },
            Pred::Greater(a, b) => match (a.eval(row, l), b.eval(row, l)) {
                (Some(x), Some(y)) => (l.lt)(y, x),
                _ => false,
            },
            Pred::IsNull(a) => a.eval(row, l) is None,
            Pred::NotNull(a) => a.eval(row, l) is Some,
            Pred::HasList(list) => row.list(list) is Some,
            Pred::OneOf(a, items) => match a.eval(row, l) {
                Some(x) => items.contains(x),
                None => false,
            },
            Pred::Like(a, p) => match a.eval(row, l) {
                Some(x) => fits(x, elements(p, false), same_letter()),
                None => false,
            },
            Pred::Holds(a, word) => match a.eval(row, l) {
                Some(x) => fits(
                    x,
                    elements(seq!['%'] + pattern(word) + seq!['%'], true),
                    l.alike,
                ),
                None => false,
            },
            Pred::LowerLike(e, p) => match row.at(e) {
                Some(x) => fits((l.lower)(x), elements((l.lower)(p), false), same_letter()),
                None => false,
            },
            Pred::Starts(e, word) => match row.at(e) {
                Some(x) => fits(
                    (l.lower)(x),
                    elements((l.lower)(pattern(word)) + seq!['%'], true),
                    same_letter(),
                ),
                None => false,
            },
            Pred::AnyItem(list, p) => match row.list(list) {
                Some(items) => exists|i: int|
                    0 <= i < items.len() && p.holds(row.with_item(#[trigger] items[i]), l),
                None => false,
            },
            Pred::And(p, q) => p.holds(row, l) && q.holds(row, l),
            Pred::Or(p, q) => p.holds(row, l) || q.holds(row, l),
            Pred::Group(p) => p.holds(row, l),
        }
    }

    /// Whether the condition can stand beside `AND`.
    pub open spec fn is_factor(self) -> bool {
        self.is_sql() && !(self is Or)
    }
}

/// Whether a text is a condition that is true of exactly the given rows.
pub open spec fn selects(sql: Seq<char>, rows: spec_fn(Row, Letters) -> bool) -> bool {
    exists|p: Pred|
        p.is_factor() && sql == #[trigger] p.sql() && forall|row: Row, l: Letters|
            p.holds(row, l) == #[trigger] rows(row, l)
}

/// Whether a value is one of some texts; null is none of them.
pub open spec fn is_one_of(v: Option<Seq<char>>, items: Seq<Seq<char>>) -> bool {
    match v {
        Some(x) => items.contains(x),
        None => false,
    }
}

/// The condition that an expression has a value.
pub open spec fn equals(e: Seq<char>, v: Seq<char>) -> Pred {
    Pred::Equal(Expr::Of(e), Expr::Text(v))
}

/// Both conditions.
pub open spec fn both(p: Pred, q: Pred) -> Pred {
    Pred::And(Box::new(p), Box::new(q))
}

/// One of two conditions.
pub open spec fn either(p: Pred, q: Pred) -> Pred {
    Pred::Or(Box::new(p), Box::new(q))
}

/// A condition in brackets.
pub open spec fn grouped(p: Pred) -> Pred {
    Pred::Group(Box::new(p))
}

/// All of some conditions.
pub open spec fn all_of(ps: Seq<Pred>) -> Pred
    decreases ps.len(),
{
    if ps.len() == 0 {
        Pred::Always
    } else if ps.len() == 1 {
        ps[0]
    } else {
        both(all_of(ps.drop_last()), ps.last())
    }
}

/// One of some conditions.
pub open spec fn any_of(ps: Seq<Pred>) -> Pred
    decreases ps.len(),
{
    if ps.len() == 0 {
        Pred::Always
    } else if ps.len() == 1 {
        ps[0]
    } else {
        either(any_of(ps.drop_last()), ps.last())
    }
}

/// The texts of some conditions.
pub open spec fn sqls(ps: Seq<Pred>) -> Seq<Seq<char>> {
    Seq::new(ps.len(), |i: int| ps[i].sql())
}

/// Conditions with `AND` between them are true together.
pub proof fn lemma_all_of(ps: Seq<Pred>, row: Row, l: Letters)
    requires
        ps.len() > 0,
        forall|i: int| 0 <= i < ps.len() ==> (#[trigger] ps[i]).is_factor(),
    ensures
        all_of(ps).is_factor(),
        all_of(ps).sql() == joined(sqls(ps), " AND "@),
        all_of(ps).holds(row, l) <==> forall|i: int|
            0 <= i < ps.len() ==> (#[trigger] ps[i]).holds(row, l),
    decreases ps.len(),
{
    if ps.len() > 1 {
        let front = ps.drop_last();
        assert forall|i: int| 0 <= i < front.len() implies (#[trigger] front[i]).is_factor() by {
            assert(front[i] == ps[i]);
        }
        lemma_all_of(front, row, l);
        assert(sqls(ps).drop_last() =~= sqls(front));
        assert(ps.last() == ps[ps.len() - 1]);
        if all_of(ps).holds(row, l) {
            assert forall|i: int| 0 <= i < ps.len() implies (#[trigger] ps[i]).holds(row, l) by {
                if i < front.len() {
                    assert(front[i] == ps[i]);
                }
            }
        }
        if forall|i: int| 0 <= i < ps.len() ==> (#[trigger] ps[i]).holds(row, l) {
            assert forall|i: int| 0 <= i < front.len() implies (#[trigger] front[i]).holds(
                row,
                l,
            ) by {
                assert(front[i] == ps[i]);
            }
        }
    }
}

/// Of conditions with `OR` between them one is true.
pub proof fn lemma_any_of(ps: Seq<Pred>, row: Row, l: Letters)
    requires
        ps.len() > 0,
        forall|i: int| 0 <= i < ps.len() ==> (#[trigger] ps[i]).is_sql(),
    ensures
        any_of(ps).is_sql(),
        any_of(ps).sql() == joined(sqls(ps), " OR "@),
        any_of(ps).holds(row, l) <==> exists|i: int|
            0 <= i < ps.len() && (#[trigger] ps[i]).holds(row, l),
    decreases ps.len(),
{
    if ps.len() > 1 {
        let front = ps.drop_last();
        assert forall|i: int| 0 <= i < front.len() implies (#[trigger] front[i]).is_sql() by {
            assert(front[i] == ps[i]);
        }
        lemma_any_of(front, row, l);
        assert(sqls(ps).drop_last() =~= sqls(front));
        assert(ps.last() == ps[ps.len() - 1]);
        if exists|i: int| 0 <= i < front.len() && (#[trigger] front[i]).holds(row, l) {
            let i = choose|i: int| 0 <= i < front.len() && (#[trigger] front[i]).holds(row, l);
            assert(ps[i].holds(row, l));
        }
        if exists|i: int| 0 <= i < ps.len() && (#[trigger] ps[i]).holds(row, l) {
            let i = choose|i: int| 0 <= i < ps.len() && (#[trigger] ps[i]).holds(row, l);
            if i < front.len() {
                assert(front[i].holds(row, l));
            }
        }
    } else {
        assert(ps[0].holds(row, l) == any_of(ps).holds(row, l));
    }
}

/// A membership test behind another condition.
pub proof fn lemma_and_one_of(
    t: Seq<char>,
    p: Pred,
    head: Seq<char>,
    column: Seq<char>,
    items: Seq<Seq<char>>,
)
    requires
        t == "WHERE "@ + p.sql(),
        p.is_factor(),
        head == " AND "@ + column + " IN ("@,
        items.len() > 0,
    ensures
        t + (head + quoted_list(items) + ")"@) == "WHERE "@ + both(
            p,
            Pred::OneOf(Expr::Of(column), items),
        ).sql(),
        both(p, Pred::OneOf(Expr::Of(column), items)).is_factor(),
{
    let q = Pred::OneOf(Expr::Of(column), items);
    lemma_quoted_list_is_literals(items);
    assert(q.is_sql());
    assert(Expr::Of(column).sql() == column);
    assert(q.sql() == column + " IN ("@ + literals(items) + ")"@);
    assert(both(p, q).sql() == p.sql() + " AND "@ + q.sql());
    assert(t + (head + quoted_list(items) + ")"@) =~= "WHERE "@ + (p.sql() + " AND "@ + (column
        + " IN ("@ + literals(items) + ")"@)));
}

/// A comparison with a literal behind another condition.
pub proof fn lemma_and_equals(
    t: Seq<char>,
    p: Pred,
    head: Seq<char>,
    column: Seq<char>,
    v: Seq<char>,
)
    requires
        t == "WHERE "@ + p.sql(),
        p.is_factor(),
        head == " AND "@ + column + " = "@ + seq!['\''],
    ensures
        t + (head + escaped(v) + "'"@) == "WHERE "@ + both(p, equals(column, v)).sql(),
        both(p, equals(column, v)).is_factor(),
{
    let q = equals(column, v);
    assert(q.is_sql());
    lemma_quoted_is_literal(v);
    assert(Expr::Of(column).sql() == column);
    assert(Expr::Text(v).sql() == literal(v));
    assert(q.sql() == column + " = "@ + literal(v));
    assert(both(p, q).sql() == p.sql() + " AND "@ + q.sql());
    assert(t + (head + escaped(v) + "'"@) =~= "WHERE "@ + (p.sql() + " AND "@ + (column + " = "@
        + literal(v))));
}

/// A condition in brackets behind another condition.
pub proof fn lemma_and_group(t: Seq<char>, p: Pred, head: Seq<char>, q: Pred)
    requires
        t == "WHERE "@ + p.sql(),
        p.is_factor(),
        q.is_sql(),
        head == " AND "@ + "("@,
    ensures
        t + (head + q.sql() + ")"@) == "WHERE "@ + both(p, grouped(q)).sql(),
        both(p, grouped(q)).is_factor(),
{
    let g = grouped(q);
    assert(g.is_sql());
    assert(g.sql() == "("@ + q.sql() + ")"@);
    assert(both(p, g).sql() == p.sql() + " AND "@ + g.sql());
    assert(t + (head + q.sql() + ")"@) =~= "WHERE "@ + (p.sql() + " AND "@ + ("("@ + q.sql()
        + ")"@)));
}

// ---------------------------------------------------------------------------
// Choices
// ---------------------------------------------------------------------------

/// The text of the first `n` branches of a `CASE`.
pub open spec fn branches_sql(branches: Seq<(Pred, Seq<char>)>, n: nat) -> Seq<char>
    decreases n,
{
    if n == 0 {
        "CASE"@
    } else {
        branches_sql(branches, (n - 1) as nat) + " WHEN "@ + branches[n - 1].0.sql() + " THEN "@
            + literal(branches[n - 1].1)
    }
}

/// The text of a `CASE`.
pub open spec fn case_sql(
    branches: Seq<(Pred, Seq<char>)>,
    otherwise: Option<Seq<char>>,
) -> Seq<char> {
    branches_sql(branches, branches.len()) + " ELSE "@ + (match otherwise {
        Some(v) => literal(v),
        None => "NULL"@,
    }) + " END"@
}

/// The value of a `CASE` from a branch on: that of the first branch whose condition is
/// true.
pub open spec fn case_value(
    branches: Seq<(Pred, Seq<char>)>,
    otherwise: Option<Seq<char>>,
    from: nat,
    row: Row,
    l: Letters,
) -> Option<Seq<char>>
    decreases branches.len() - from,
{
    if from >= branches.len() {
        otherwise
    } else if branches[from as int].0.holds(row, l) {
        Some(branches[from as int].1)
    } else {
        case_value(branches, otherwise, from + 1, row, l)
    }
}

/// Whether a text is an expression with the given value in every row.
pub open spec fn has_value(
    sql: Seq<char>,
    value: spec_fn(Row, Letters) -> Option<Seq<char>>,
) -> bool {
    exists|branches: Seq<(Pred, Seq<char>)>, otherwise: Option<Seq<char>>|
        {
            &&& sql == #[trigger] case_sql(branches, otherwise)
            &&& forall|i: int| 0 <= i < branches.len() ==> (#[trigger] branches[i]).0.is_sql()
            &&& forall|row: Row, l: Letters|
                case_value(branches, otherwise, 0, row, l) == #[trigger] value(row, l)
        }
}

// ---------------------------------------------------------------------------
// Patterns without an escape character
// ---------------------------------------------------------------------------

/// Whether a text holds no character that a pattern takes for any text.
pub open spec fn no_gap(p: Seq<char>) -> bool {
    forall|j: int| 0 <= j < p.len() ==> #[trigger] p[j] != '%'
}

/// Whether a text stands somewhere in another, where `_` stands for any one character.
pub open spec fn has_shape(t: Seq<char>, shape: Seq<char>) -> bool {
    exists|at: int| #[trigger] shape_at(t, shape, at)
}

/// Whether a text stands at a place of another, where `_` stands for any one character.
pub open spec fn shape_at(t: Seq<char>, shape: Seq<char>, at: int) -> bool {
    &&& 0 <= at
    &&& at + shape.len() <= t.len()
    &&& forall|j: int|
        0 <= j < shape.len() ==> (#[trigger] shape[j] == '_' || t[at + j] == shape[j])
}

proof fn lemma_shape_elements(p: Seq<char>, rest: Seq<char>)
    requires
        no_gap(p),
    ensures
        elements(p + rest, false) == elements(p, false) + elements(rest, false),
        elements(p, false).len() == p.len(),
        forall|j: int|
            0 <= j < p.len() ==> #[trigger] elements(p, false)[j] == (if p[j] == '_' {
                Element::One
            } else {
                Element::Is(seq![p[j]])
            }),
    decreases p.len(),
{
    if p.len() == 0 {
        assert(p + rest =~= rest);
        assert(elements(p, false) + elements(rest, false) =~= elements(rest, false));
    } else {
        let tail = p.skip(1);
        assert((p + rest).skip(1) =~= tail + rest);
        assert forall|j: int| 0 <= j < tail.len() implies #[trigger] tail[j] != '%' by {
            assert(p[j + 1] != '%');
        }
        lemma_shape_elements(tail, rest);
        assert(p[0] != '%');
        let head = elements(p, false)[0];
        assert(elements(p, false) =~= seq![head] + elements(tail, false));
        assert(elements(p + rest, false) =~= seq![head] + elements(tail + rest, false));
        assert forall|j: int| 0 <= j < p.len() implies #[trigger] elements(p, false)[j] == (if p[j]
            == '_' {
            Element::One
        } else {
            Element::Is(seq![p[j]])
        }) by {
            if j > 0 {
                assert(elements(p, false)[j] == elements(tail, false)[j - 1]);
                assert(tail[j - 1] == p[j]);
            }
        }
    }
}

proof fn lemma_shape_stands(t: Seq<char>, shape: Seq<char>, at: int)
    requires
        no_gap(shape),
    ensures
        stands_at(t, elements(shape, false), at, same_letter()) == shape_at(t, shape, at),
{
    lemma_shape_elements(shape, Seq::empty());
    let es = elements(shape, false);
    if shape_at(t, shape, at) {
        assert forall|j: int| 0 <= j < es.len() implies stands_for(
            #[trigger] es[j],
            t[at + j],
            same_letter(),
        ) by {
            assert(shape[j] == '_' || t[at + j] == shape[j]);
            assert(same_letter()(t[at + j], shape[j]) == (t[at + j] == shape[j]));
        }
    }
    if stands_at(t, es, at, same_letter()) {
        assert forall|j: int| 0 <= j < shape.len() implies (#[trigger] shape[j] == '_' || t[at + j]
            == shape[j]) by {
            assert(stands_for(es[j], t[at + j], same_letter()));
            assert(same_letter()(t[at + j], shape[j]) == (t[at + j] == shape[j]));
        }
    }
}

/// `LIKE '%shape%'` is true of the texts that have the shape somewhere.
pub proof fn lemma_like_has_shape(t: Seq<char>, shape: Seq<char>)
    requires
        no_gap(shape),
    ensures
        fits(t, elements(seq!['%'] + shape + seq!['%'], false), same_letter()) <==> has_shape(
            t,
            shape,
        ),
{
    let p = seq!['%'] + shape + seq!['%'];
    let es = elements(shape, false);
    lemma_shape_elements(shape, seq!['%']);
    assert(p.skip(1) =~= shape + seq!['%']);
    assert(seq!['%'].skip(1) =~= Seq::<char>::empty());
    reveal_with_fuel(elements, 2);
    assert(elements(seq!['%'], false) =~= seq![Element::Any]);
    assert(elements(p, false) =~= (seq![Element::Any] + es).push(Element::Any));
    lemma_infix_fits(t, es, same_letter());
    if has_shape(t, shape) {
        let at = choose|at: int| #[trigger] shape_at(t, shape, at);
        lemma_shape_stands(t, shape, at);
        assert(stands_at(t, es, at, same_letter()));
    }
    if exists|at: int| #[trigger] stands_at(t, es, at, same_letter()) {
        let at = choose|at: int| #[trigger] stands_at(t, es, at, same_letter());
        lemma_shape_stands(t, shape, at);
        assert(shape_at(t, shape, at));
    }
}

/// `LIKE 'shape%'` is true of the texts that start with the shape.
pub proof fn lemma_like_starts(t: Seq<char>, shape: Seq<char>)
    requires
        no_gap(shape),
    ensures
        fits(t, elements(shape + seq!['%'], false), same_letter()) <==> shape_at(t, shape, 0),
{
    let es = elements(shape, false);
    lemma_shape_elements(shape, seq!['%']);
    assert(seq!['%'].skip(1) =~= Seq::<char>::empty());
    reveal_with_fuel(elements, 2);
    assert(elements(seq!['%'], false) =~= seq![Element::Any]);
    assert(es + seq![Element::Any] =~= es.push(Element::Any));
    lemma_prefix_fits(t, es, same_letter());
    lemma_shape_stands(t, shape, 0);
}

// ---------------------------------------------------------------------------
// Select lists
// ---------------------------------------------------------------------------

/// An item of a select list.
pub ghost enum Item {
    /// A column.
    Plain(Seq<char>),
    /// A column of a table that goes by another name.
    Of(Seq<char>, Seq<char>),
    /// An expression under a name.
    As(Seq<char>, Seq<char>),
}

impl Item {
    /// The expression that is shown.
    pub open spec fn expr(self) -> Seq<char> {
        match self {
            Item::Plain(c) => c,
            Item::Of(t, c) => t + "."@ + c,
            Item::As(e, _) => e,
        }
    }

    /// The name that it is shown under.
    pub open spec fn name(self) -> Seq<char> {
        match self {
            Item::Plain(c) => c,
            Item::Of(_, c) => c,
            Item::As(_, n) => n,
        }
    }

    /// The text of the item.
    pub open spec fn sql(self) -> Seq<char> {
        match self {
            Item::As(e, n) => e + " AS "@ + n,
            _ => self.expr(),
        }
    }
}

/// The text of the first `n` items of a select list.
pub open spec fn listed(items: Seq<Item>, n: nat) -> Seq<char>
    decreases n,
{
    if n == 0 {
        Seq::empty()
    } else if n == 1 {
        items[0].sql()
    } else {
        listed(items, (n - 1) as nat) + ", "@ + items[n - 1].sql()
    }
}

/// The text of a boolean, if there is one.
pub open spec fn flag_text(b: Option<bool>) -> Option<Seq<char>> {
    match b {
        Some(true) => Some("true"@),
        Some(false) => Some("false"@),
        None => None,
    }
}

/// The text of a number, if there is one.
pub open spec fn number_text(n: Option<i64>) -> Option<Seq<char>> {
    match n {
        Some(n) => Some(signed_decimal(n as int)),
        None => None,
    }
}

/// The items of a list; none where there is no list.
pub open spec fn items_of(v: Option<Seq<Seq<char>>>) -> Seq<Seq<char>> {
    match v {
        Some(items) => items,
        None => Seq::empty(),
    }
}

/// The first items of a list, at most `n`.
pub open spec fn first_of(items: Seq<Seq<char>>, n: nat) -> Seq<Seq<char>> {
    if items.len() > n {
        items.take(n as int)
    } else {
        items
    }
}

/// The unique ids that edges lead to.
pub open spec fn edge_ids(edges: Seq<EdgeRef>) -> Seq<Seq<char>> {
    Seq::new(edges.len(), |k: int| edges[k].unique_id@)
}

/// Whether edges have the types that the unique ids start with: what stands before the
/// first dot. Of an id without a dot the type is the whole of it, or empty.
pub open spec fn typed_by_ids(edges: Seq<EdgeRef>, whole: bool) -> bool {
    forall|k: int|
        0 <= k < edges.len() ==> starts_with_type(
            (#[trigger] edges[k]).unique_id@,
            edges[k].edge_type@,
            whole,
        )
}

/// Whether a unique id starts with a type.
pub open spec fn starts_with_type(id: Seq<char>, kind: Seq<char>, whole: bool) -> bool {
    if id.contains('.') {
        &&& !kind.contains('.')
        &&& kind.len() < id.len()
        &&& kind == id.take(kind.len() as int)
        &&& id[kind.len() as int] == '.'
    } else if whole {
        kind == id
    } else {
        kind.len() == 0
    }
}

/// Whether a cell of a result shows a value: a text, the text of a boolean or that of a
/// number.
pub open spec fn shows_value(batch: Batch, i: int, name: Seq<char>, v: Option<Seq<char>>) -> bool {
    match batch.column(name) {
        Some(ColumnData::Text(cells)) => opt_text(known(cells@[i])) == v,
        Some(ColumnData::Bool(cells)) => flag_text(known(cells@[i])) == v,
        Some(ColumnData::Int64(cells)) => number_text(known(cells@[i])) == v,
        _ => true,
    }
}

/// Whether a cell of a result shows a list, without the items that are null.
pub open spec fn shows_list(
    batch: Batch,
    i: int,
    name: Seq<char>,
    v: Option<Seq<Seq<char>>>,
) -> bool {
    match batch.column(name) {
        Some(ColumnData::TextList(cells)) => match known(cells@[i]) {
            Some(items) => v == Some(texts(known_items(items@))),
            None => v is None,
        },
        _ => true,
    }
}

/// Whether there is a column of lists for each name.
pub open spec fn has_lists(batch: Batch, names: Seq<Seq<char>>) -> bool {
    forall|k: int|
        0 <= k < names.len() ==> batch.column(#[trigger] names[k]) matches Some(
            ColumnData::TextList(_),
        )
}

/// Whether there is a column of numbers for each name.
pub open spec fn has_numbers(batch: Batch, names: Seq<Seq<char>>) -> bool {
    forall|k: int| 0 <= k < names.len() ==> batch.has_i64(#[trigger] names[k])
}

/// Whether a row of a result shows the items of a select list for a row of the database.
pub open spec fn shows(batch: Batch, i: int, items: Seq<Item>, row: Row) -> bool {
    forall|k: int|
        0 <= k < items.len() ==> shows_value(
            batch,
            i,
            (#[trigger] items[k]).name(),
            row.at(items[k].expr()),
        ) && shows_list(batch, i, items[k].name(), row.list(items[k].expr()))
}

// ---------------------------------------------------------------------------
// Queries
// ---------------------------------------------------------------------------

/// A join that keeps every row of a table and adds what another has of the same unique id.
pub open spec fn left_join(table: Seq<char>, alias: Seq<char>, to: Seq<char>) -> Seq<char> {
    "LEFT JOIN "@ + table + " "@ + alias + " ON "@ + alias + ".unique_id = "@ + to + ".unique_id"@
}

/// Whether a query shows the items of exactly the given rows of a table. What stands
/// before `SELECT` and behind the condition is given, too.
pub open spec fn reads(
    sql: Seq<char>,
    with: Seq<char>,
    items: Seq<Item>,
    from: Seq<char>,
    rows: spec_fn(Row, Letters) -> bool,
    rest: Seq<char>,
) -> bool {
    exists|p: Pred|
        p.is_factor() && sql == with + "SELECT "@ + listed(items, items.len()) + " FROM "@ + from
            + " WHERE "@ + #[trigger] p.sql() + rest && forall|row: Row, l: Letters|
            p.holds(row, l) == #[trigger] rows(row, l)
}

/// The table that holds the resources of a type: it is called by the plural of the type.
pub open spec fn table_of(kind: Seq<char>) -> Seq<char> {
    "dbt."@ + (if kind.len() > 0 && kind.last() == 'y' {
        kind.drop_last() + "ies"@
    } else {
        kind + "s"@
    })
}

/// Whether a query shows the items of all rows of a table.
pub open spec fn reads_all(sql: Seq<char>, items: Seq<Item>, from: Seq<char>) -> bool {
    sql == "SELECT "@ + listed(items, items.len()) + " FROM "@ + from
}

/// The text of the first `n` of some queries, whose rows stand one behind the other.
pub open spec fn unioned(parts: Seq<Seq<char>>, n: nat, gap: Seq<char>) -> Seq<char>
    decreases n,
{
    if n == 0 {
        Seq::empty()
    } else if n == 1 {
        parts[0]
    } else {
        unioned(parts, (n - 1) as nat, gap) + gap + "UNION ALL"@ + gap + parts[n - 1]
    }
}

/// Parts joined by the words for a union are their union.
pub proof fn lemma_joined_is_unioned(
    parts: Seq<Seq<char>>,
    n: nat,
    word: Seq<char>,
    gap: Seq<char>,
)
    requires
        n <= parts.len(),
        word == gap + "UNION ALL"@ + gap,
    ensures
        joined(parts.take(n as int), word) == unioned(parts, n, gap),
    decreases n,
{
    let front = parts.take(n as int);
    if n > 1 {
        lemma_joined_is_unioned(parts, (n - 1) as nat, word, gap);
        assert(front.drop_last() =~= parts.take(n - 1));
        let before = unioned(parts, (n - 1) as nat, gap);
        assert(before + word + parts[n - 1] =~= before + gap + "UNION ALL"@ + gap + parts[n - 1]);
    }
}

/// Whether a query counts exactly the given rows of a table.
pub open spec fn counts(
    sql: Seq<char>,
    with: Seq<char>,
    from: Seq<char>,
    rows: spec_fn(Row, Letters) -> bool,
) -> bool {
    exists|p: Pred|
        p.is_factor() && sql == with + "SELECT count(*) FROM "@ + from + " WHERE "@
            + #[trigger] p.sql() && forall|row: Row, l: Letters|
            p.holds(row, l) == #[trigger] rows(row, l)
}

/// The row with a unique id.
pub open spec fn with_id(column: Seq<char>, id: Seq<char>) -> spec_fn(Row, Letters) -> bool {
    |row: Row, l: Letters| row.at(column) == Some(id)
}

/// The end of a query that gives the first `n` rows in an order: by an expression, rows
/// without a value last, and then by the unique id.
pub open spec fn first_rows(
    sort: Seq<char>,
    uid: Seq<char>,
    dir: SortDir,
    n: nat,
) -> Seq<char> {
    " ORDER BY "@ + sort + (match dir {
        SortDir::Asc => " ASC"@,
        SortDir::Desc => " DESC"@,
    }) + " NULLS LAST, "@ + uid + " ASC LIMIT "@ + decimal(n)
}

/// The key of a row in a list that is sorted by an expression.
pub open spec fn key_in(row: Row, sort: Seq<char>, id: Seq<char>) -> CursorView {
    CursorView { sort_value: row.at(sort), unique_id: id }
}

/// Whether a row comes behind another in an order: by the value, upwards or downwards, rows
/// without a value last, and by the unique id where the values are the same.
pub open spec fn comes_behind(
    a: CursorView,
    b: CursorView,
    dir: SortDir,
    lt: spec_fn(Seq<char>, Seq<char>) -> bool,
) -> bool {
    ||| a.sort_value is None && b.sort_value is Some
    ||| a.sort_value == b.sort_value && lt(b.unique_id, a.unique_id)
    ||| a.sort_value is Some && b.sort_value is Some && (match dir {
        SortDir::Asc => lt(b.sort_value->0, a.sort_value->0),
        SortDir::Desc => lt(a.sort_value->0, b.sort_value->0),
    })
}

/// Whether a row comes behind a cursor, if there is one.
pub open spec fn behind(
    row: Row,
    sort: Seq<char>,
    uid: Seq<char>,
    dir: SortDir,
    cursor: Option<CursorView>,
    l: Letters,
) -> bool {
    match cursor {
        Some(c) => row.at(uid) matches Some(id) && comes_behind(key_in(row, sort, id), c, dir, l.lt),
        None => true,
    }
}

/// Whether a query gives a page of a list and one row more: of the given rows those that
/// come behind the cursor, in order, from the first on. Every row has a
/// unique id.
pub open spec fn reads_page(
    sql: Seq<char>,
    with: Seq<char>,
    items: Seq<Item>,
    from: Seq<char>,
    rows: spec_fn(Row, Letters) -> bool,
    sort: Seq<char>,
    uid: Seq<char>,
    dir: SortDir,
    cursor: Option<CursorView>,
    first: u32,
) -> bool {
    exists|p: Pred|
        p.is_factor() && sql == with + "SELECT "@ + listed(items, items.len()) + " FROM "@ + from
            + " WHERE "@ + #[trigger] p.sql() + first_rows(sort, uid, dir, (first + 1) as nat)
            && forall|row: Row, l: Letters|
            is_collation(l.lt) && row.at(uid) is Some ==> p.holds(row, l) == (#[trigger] rows(
                row,
                l,
            ) && behind(
                row,
                sort,
                uid,
                dir,
                cursor,
                l,
            ))
}

// ---------------------------------------------------------------------------
// Cursors
// ---------------------------------------------------------------------------

/// The condition that a row comes behind a cursor.
spec fn cursor_pred(sort: Seq<char>, uid: Seq<char>, dir: SortDir, c: CursorView) -> Pred {
    let later = Pred::Greater(Expr::Of(uid), Expr::Text(c.unique_id));
    match c.sort_value {
        Some(v) => grouped(
            either(
                either(
                    match dir {
                        SortDir::Asc => Pred::Greater(Expr::Of(sort), Expr::Text(v)),
                        SortDir::Desc => Pred::Less(Expr::Of(sort), Expr::Text(v)),
                    },
                    grouped(both(equals(sort, v), later)),
                ),
                Pred::IsNull(Expr::Of(sort)),
            ),
        ),
        None => grouped(both(Pred::IsNull(Expr::Of(sort)), later)),
    }
}

proof fn lemma_cursor_sql(sort: Seq<char>, uid: Seq<char>, dir: SortDir, c: CursorView)
    ensures
        cursor_sql(sort, uid, dir, c) == cursor_pred(sort, uid, dir, c).sql(),
        cursor_pred(sort, uid, dir, c).is_factor(),
{
    reveal_with_fuel(Pred::sql, 6);
    reveal_with_fuel(Pred::is_sql, 6);
    reveal_with_fuel(Expr::sql, 2);
    reveal_with_fuel(joined, 4);
    lemma_quoted_is_literal(c.unique_id);
    let choices = after_cursor(dir, c);
    let parts = Seq::new(
        choices.len(),
        |i: int| crate::pagination::all_sql(choices[i], sort, uid),
    );
    match c.sort_value {
        Some(v) => {
            lemma_quoted_is_literal(v);
            let inner = Seq::new(choices[1].len(), |i: int| choices[1][i].sql(sort, uid));
            assert(inner.drop_last() =~= seq![choices[1][0].sql(sort, uid)]);
            assert(parts.drop_last() =~= seq![parts[0], parts[1]]);
            assert(parts.drop_last().drop_last() =~= seq![parts[0]]);
            assert(parts[1] == "("@ + (choices[1][0].sql(sort, uid) + " AND "@
                + choices[1][1].sql(sort, uid)) + ")"@);
            assert(joined(parts, " OR "@) == parts[0] + " OR "@ + parts[1] + " OR "@ + parts[2]);
        },
        None => {
            let inner = Seq::new(choices[0].len(), |i: int| choices[0][i].sql(sort, uid));
            assert(inner.drop_last() =~= seq![choices[0][0].sql(sort, uid)]);
        },
    }
}

proof fn lemma_cursor_pred(
    sort: Seq<char>,
    uid: Seq<char>,
    dir: SortDir,
    c: CursorView,
    row: Row,
    l: Letters,
)
    requires
        is_collation(l.lt),
        row.at(uid) is Some,
    ensures
        cursor_pred(sort, uid, dir, c).holds(row, l) == behind(row, sort, uid, dir, Some(c), l),
{
    reveal_with_fuel(Pred::holds, 6);
    reveal_with_fuel(Expr::eval, 2);
    if let (Some(v), Some(x)) = (c.sort_value, row.at(sort)) {
        assert((l.lt)(v, x) || v == x || (l.lt)(x, v));
        assert(!((l.lt)(v, x) && (l.lt)(x, v)));
        assert(!(l.lt)(v, v));
    }
}

/// The fragment for a cursor is true of exactly the rows that come behind the cursor.
pub proof fn lemma_cursor_fragment(
    sort: Seq<char>,
    uid: Seq<char>,
    dir: SortDir,
    c: CursorView,
)
    ensures
        exists|p: Pred|
            p.is_factor() && cursor_sql(sort, uid, dir, c) == #[trigger] p.sql() && forall|
                row: Row,
                l: Letters,
            |
                is_collation(l.lt) && row.at(uid) is Some ==> #[trigger] p.holds(row, l) == behind(
                    row,
                    sort,
                    uid,
                    dir,
                    Some(c),
                    l,
                ),
{
    let p = cursor_pred(sort, uid, dir, c);
    lemma_cursor_sql(sort, uid, dir, c);
    assert forall|row: Row, l: Letters|
        is_collation(l.lt) && row.at(uid) is Some implies #[trigger] p.holds(row, l) == behind(
        row,
        sort,
        uid,
        dir,
        Some(c),
        l,
    ) by {
        lemma_cursor_pred(sort, uid, dir, c, row, l);
    }
}

/// A clause for a page behind the head of a query, and the order of a page behind it,
/// give a page of the rows that the clause's filter lets through.
pub proof fn lemma_page_is_read(
    with: Seq<char>,
    items: Seq<Item>,
    from: Seq<char>,
    p: Pred,
    rows: spec_fn(Row, Letters) -> bool,
    sort: Seq<char>,
    uid: Seq<char>,
    dir: SortDir,
    cursor: Option<CursorView>,
    first: u32,
)
    requires
        p.is_factor(),
        forall|row: Row, l: Letters| p.holds(row, l) == #[trigger] rows(row, l),
    ensures
        reads_page(
            with + "SELECT "@ + listed(items, items.len()) + " FROM "@ + from + " "@ + page_clause(
                "WHERE "@ + p.sql(),
                sort,
                uid,
                dir,
                cursor,
            ) + page_order(sort, uid, dir, first),
            with,
            items,
            from,
            rows,
            sort,
            uid,
            dir,
            cursor,
            first,
        ),
{
    reveal_strlit(" ");
    reveal_strlit("WHERE ");
    reveal_strlit(" WHERE ");
    reveal_strlit("ASC");
    reveal_strlit(" ASC");
    reveal_strlit("DESC");
    reveal_strlit(" DESC");
    assert(" "@ + "WHERE "@ =~= " WHERE "@);
    assert(" "@ + "ASC"@ =~= " ASC"@);
    assert(" "@ + "DESC"@ =~= " DESC"@);
    let head = with + "SELECT "@ + listed(items, items.len()) + " FROM "@ + from;
    let end = first_rows(sort, uid, dir, (first + 1) as nat);
    assert(page_order(sort, uid, dir, first) =~= end) by {
        match dir {
            SortDir::Asc => {
                assert(" ORDER BY "@ + sort + " "@ + "ASC"@ =~= " ORDER BY "@ + sort + " ASC"@);
            },
            SortDir::Desc => {
                assert(" ORDER BY "@ + sort + " "@ + "DESC"@ =~= " ORDER BY "@ + sort + " DESC"@);
            },
        }
    }
    let clause = page_clause("WHERE "@ + p.sql(), sort, uid, dir, cursor);
    let sql = head + " "@ + clause + page_order(sort, uid, dir, first);
    match cursor {
        None => {
            assert(head + " "@ + ("WHERE "@ + p.sql()) =~= head + (" "@ + "WHERE "@) + p.sql());
            assert(sql == head + " WHERE "@ + p.sql() + end);
        },
        Some(c) => {
            lemma_cursor_fragment(sort, uid, dir, c);
            let f = choose|f: Pred|
                f.is_factor() && cursor_sql(sort, uid, dir, c) == #[trigger] f.sql() && forall|
                    row: Row,
                    l: Letters,
                |
                    is_collation(l.lt) && row.at(uid) is Some ==> #[trigger] f.holds(row, l)
                        == behind(row, sort, uid, dir, Some(c), l);
            let q = both(p, f);
            assert(q.is_factor());
            assert(q.sql() == p.sql() + " AND "@ + f.sql());
            assert(clause =~= "WHERE "@ + q.sql());
            assert(head + " "@ + ("WHERE "@ + q.sql()) =~= head + (" "@ + "WHERE "@) + q.sql());
            assert(sql == head + " WHERE "@ + q.sql() + end);
            assert forall|row: Row, l: Letters|
                is_collation(l.lt) && row.at(uid) is Some implies q.holds(row, l) == (#[trigger] rows(
                row,
                l,
            ) && behind(row, sort, uid, dir, cursor, l)) by {
                assert(q.holds(row, l) == (p.holds(row, l) && f.holds(row, l)));
            }
        },
    }
}

/// Whether a query counts all rows of a table.
pub open spec fn counts_all(sql: Seq<char>, from: Seq<char>) -> bool {
    sql == "SELECT count(*) FROM "@ + from
}

/// All rows of a table.
pub open spec fn all_rows() -> spec_fn(Row, Letters) -> bool {
    |row: Row, l: Letters| true
}

/// The names of the tables.
#[verifier::spinoff_prover]
#[verifier::rlimit(40)]
pub proof fn lemma_table_names()
    ensures
        table_of("exposure"@) == "dbt.exposures"@,
        table_of("metric"@) == "dbt.metrics"@,
        table_of("macro"@) == "dbt.macros"@,
        table_of("semantic_model"@) == "dbt.semantic_models"@,
        table_of("group"@) == "dbt.groups"@,
        table_of("unit_test"@) == "dbt.unit_tests"@,
        table_of("doc"@) == "dbt.docs"@,
        table_of("saved_query"@) == "dbt.saved_queries"@,
        table_of("node"@) == "dbt.nodes"@,
{
    reveal_strlit("dbt.");
    reveal_strlit("s");
    reveal_strlit("ies");
    reveal_strlit("exposure");
    reveal_strlit("metric");
    reveal_strlit("macro");
    reveal_strlit("semantic_model");
    reveal_strlit("group");
    reveal_strlit("unit_test");
    reveal_strlit("doc");
    reveal_strlit("saved_query");
    reveal_strlit("node");
    reveal_strlit("dbt.exposures");
    reveal_strlit("dbt.metrics");
    reveal_strlit("dbt.macros");
    reveal_strlit("dbt.semantic_models");
    reveal_strlit("dbt.groups");
    reveal_strlit("dbt.unit_tests");
    reveal_strlit("dbt.docs");
    reveal_strlit("dbt.saved_queries");
    reveal_strlit("dbt.nodes");
    assert(table_of("exposure"@) =~= "dbt.exposures"@);
    assert(table_of("metric"@) =~= "dbt.metrics"@);
    assert(table_of("macro"@) =~= "dbt.macros"@);
    assert(table_of("semantic_model"@) =~= "dbt.semantic_models"@);
    assert(table_of("group"@) =~= "dbt.groups"@);
    assert(table_of("unit_test"@) =~= "dbt.unit_tests"@);
    assert(table_of("doc"@) =~= "dbt.docs"@);
    assert(table_of("saved_query"@) =~= "dbt.saved_queries"@);
    assert(table_of("node"@) =~= "dbt.nodes"@);
}

/// A query for a unique id shows the items of the row with that id, where its head ends
/// with an equation on the column and its tail starts behind the literal.
pub proof fn lemma_id_query_reads(
    head: Seq<char>,
    id: Seq<char>,
    tail: Seq<char>,
    items: Seq<Item>,
    from: Seq<char>,
    column: Seq<char>,
    rest: Seq<char>,
)
    requires
        head == "SELECT "@ + listed(items, items.len()) + " FROM "@ + from + " WHERE "@ + column
            + " = "@ + seq!['\''],
        tail == seq!['\''] + rest,
    ensures
        reads(id_query(head, id, tail), Seq::empty(), items, from, with_id(column, id), rest),
{
    let p = equals(column, id);
    reveal_with_fuel(Pred::sql, 2);
    reveal_with_fuel(Pred::is_sql, 2);
    reveal_with_fuel(Pred::holds, 2);
    reveal_with_fuel(Expr::sql, 2);
    reveal_with_fuel(Expr::eval, 2);
    let a = Seq::<char>::empty() + "SELECT "@ + listed(items, items.len()) + " FROM "@ + from
        + " WHERE "@;
    assert(a =~= "SELECT "@ + listed(items, items.len()) + " FROM "@ + from + " WHERE "@);
    assert(p.sql() == column + " = "@ + literal(id));
    assert(id_query(head, id, tail) =~= a + p.sql() + rest);
    assert(p.is_factor());
}

/// The rows with a unique id and of a type.
pub open spec fn with_id_and_type(
    column: Seq<char>,
    id: Seq<char>,
    type_column: Seq<char>,
    kind: Seq<char>,
) -> spec_fn(Row, Letters) -> bool {
    |row: Row, l: Letters| row.at(column) == Some(id) && row.at(type_column) == Some(kind)
}

/// The same with a second equation, on the type.
pub proof fn lemma_typed_id_query_reads(
    head: Seq<char>,
    id: Seq<char>,
    tail: Seq<char>,
    items: Seq<Item>,
    from: Seq<char>,
    column: Seq<char>,
    type_column: Seq<char>,
    kind: Seq<char>,
    rest: Seq<char>,
)
    requires
        head == "SELECT "@ + listed(items, items.len()) + " FROM "@ + from + " WHERE "@ + column
            + " = "@ + seq!['\''],
        tail == seq!['\''] + " AND "@ + type_column + " = "@ + literal(kind) + rest,
    ensures
        reads(
            id_query(head, id, tail),
            Seq::empty(),
            items,
            from,
            with_id_and_type(column, id, type_column, kind),
            rest,
        ),
{
    let p = both(equals(column, id), equals(type_column, kind));
    reveal_with_fuel(Pred::sql, 3);
    reveal_with_fuel(Pred::is_sql, 3);
    reveal_with_fuel(Pred::holds, 3);
    reveal_with_fuel(Expr::sql, 2);
    reveal_with_fuel(Expr::eval, 2);
    let a = Seq::<char>::empty() + "SELECT "@ + listed(items, items.len()) + " FROM "@ + from
        + " WHERE "@;
    assert(a =~= "SELECT "@ + listed(items, items.len()) + " FROM "@ + from + " WHERE "@);
    assert(p.sql() == column + " = "@ + literal(id) + " AND "@ + (type_column + " = "@ + literal(
        kind,
    )));
    assert(id_query(head, id, tail) =~= a + p.sql() + rest);
    assert(p.is_factor());
}

/// A filter behind the head of a count query counts the rows that it lets through.
pub proof fn lemma_count_is_taken(
    with: Seq<char>,
    from: Seq<char>,
    p: Pred,
    rows: spec_fn(Row, Letters) -> bool,
)
    requires
        p.is_factor(),
        forall|row: Row, l: Letters| p.holds(row, l) == #[trigger] rows(row, l),
    ensures
        counts(
            with + "SELECT count(*) FROM "@ + from + " "@ + ("WHERE "@ + p.sql()),
            with,
            from,
            rows,
        ),
{
    reveal_strlit(" ");
    reveal_strlit("WHERE ");
    reveal_strlit(" WHERE ");
    assert(" "@ + "WHERE "@ =~= " WHERE "@);
    let head = with + "SELECT count(*) FROM "@ + from;
    assert(head + " "@ + ("WHERE "@ + p.sql()) =~= head + (" "@ + "WHERE "@) + p.sql());
}

} // verus!
