//! Why the sort key of a search ranks as it should.
//!
//! The key that [`ranking_cursor_key_expr`](crate::search_sql::ranking_cursor_key_expr)
//! has the database compute is one text: the ranks of a row, each padded with zeros to a
//! fixed width, and the name of the row behind them. The order of these texts is the
//! order of the ranks, from the strongest to the weakest, and of the names last.
use crate::order::{lemma_precedes_total, precedes};
use crate::search_sql::{ranking_order, RankTier, NAMELESS_KEY};
use crate::text::{decimal, digit};
use vstd::prelude::*;

verus! {

/// Some zeros.
pub open spec fn zeros(n: nat) -> Seq<char> {
    Seq::new(n, |i: int| '0')
}

/// Whether a number has at most so many digits.
pub open spec fn fits(n: nat, width: nat) -> bool {
    decimal(n).len() <= width
}

/// A number padded with zeros on the left.
pub open spec fn padded(n: nat, width: nat) -> Seq<char> {
    zeros((width - decimal(n).len()) as nat) + decimal(n)
}

/// A sort key: numbers, each padded to its width, and a text behind them.
pub open spec fn key_text(widths: Seq<nat>, ranks: Seq<nat>, tail: Seq<char>) -> Seq<char>
    decreases widths.len(),
{
    if widths.len() == 0 {
        tail
    } else {
        padded(ranks[0], widths[0]) + key_text(widths.skip(1), ranks.skip(1), tail)
    }
}

/// Whether ranks come before others: the first that differs decides, and the texts
/// behind them where none does.
pub open spec fn ranks_before(
    a: Seq<nat>,
    a_tail: Seq<char>,
    b: Seq<nat>,
    b_tail: Seq<char>,
) -> bool
    decreases a.len(),
{
    if a.len() == 0 {
        precedes(a_tail, b_tail)
    } else {
        a[0] < b[0] || (a[0] == b[0] && ranks_before(a.skip(1), a_tail, b.skip(1), b_tail))
    }
}

/// Whether each rank has at most as many digits as its tier is wide.
pub open spec fn all_fit(widths: Seq<nat>, ranks: Seq<nat>) -> bool {
    widths.len() == ranks.len() && forall|i: int|
        0 <= i < ranks.len() ==> fits(#[trigger] ranks[i], widths[i])
}

/// Of texts with heads of one length, the heads decide, and what follows where they are
/// the same.
pub proof fn lemma_heads_decide(p: Seq<char>, x: Seq<char>, q: Seq<char>, y: Seq<char>)
    requires
        p.len() == q.len(),
    ensures
        precedes(p + x, q + y) == (precedes(p, q) || (p == q && precedes(x, y))),
    decreases p.len(),
{
    if p.len() == 0 {
        assert(p + x == x);
        assert(q + y == y);
        assert(p == q);
    } else {
        assert((p + x).skip(1) == p.skip(1) + x);
        assert((q + y).skip(1) == q.skip(1) + y);
        lemma_heads_decide(p.skip(1), x, q.skip(1), y);
        if p[0] == q[0] && p.skip(1) == q.skip(1) {
            assert(p =~= seq![p[0]] + p.skip(1));
            assert(q =~= seq![q[0]] + q.skip(1));
        }
        lemma_precedes_total(p, q);
    }
}

/// The last digits of a number.
spec fn last_digits(n: nat, width: nat) -> Seq<char>
    decreases width,
{
    if width == 0 {
        Seq::empty()
    } else {
        last_digits(n / 10, (width - 1) as nat).push(digit(n % 10))
    }
}

/// Whether a number is all in its last digits.
spec fn within(n: nat, width: nat) -> bool
    decreases width,
{
    if width == 0 {
        n == 0
    } else {
        within(n / 10, (width - 1) as nat)
    }
}

proof fn lemma_zero_digits(width: nat)
    ensures
        last_digits(0, width) == zeros(width),
        within(0, width),
    decreases width,
{
    if width > 0 {
        lemma_zero_digits((width - 1) as nat);
        assert(zeros(width) =~= zeros((width - 1) as nat).push('0'));
        assert(digit(0) == '0');
    } else {
        assert(zeros(0) =~= Seq::<char>::empty());
    }
}

proof fn lemma_padded_digits(n: nat, width: nat)
    requires
        fits(n, width),
    ensures
        padded(n, width) == last_digits(n, width),
        within(n, width),
    decreases n,
{
    let less = (width - 1) as nat;
    if n < 10 {
        lemma_zero_digits(less);
        assert(n / 10 == 0 && n % 10 == n);
        assert(padded(n, width) =~= zeros(less).push(digit(n)));
    } else {
        assert(decimal(n) == decimal(n / 10).push(digit(n % 10)));
        lemma_padded_digits(n / 10, less);
        assert(padded(n, width) =~= padded(n / 10, less).push(digit(n % 10)));
    }
}

proof fn lemma_digits_ordered(c: nat, d: nat)
    requires
        c < 10,
        d < 10,
    ensures
        precedes(seq![digit(c)], seq![digit(d)]) == (c < d),
        digit(c) == digit(d) ==> c == d,
{
    assert(digit(c) as u32 == 48 + c);
    assert(digit(d) as u32 == 48 + d);
    let x = seq![digit(c)];
    let y = seq![digit(d)];
    assert(x.skip(1).len() == 0 && y.skip(1).len() == 0);
    assert(!precedes(x.skip(1), y.skip(1)));
}

proof fn lemma_last_digits_ordered(a: nat, b: nat, width: nat)
    requires
        within(a, width),
        within(b, width),
    ensures
        last_digits(a, width).len() == width,
        last_digits(b, width).len() == width,
        precedes(last_digits(a, width), last_digits(b, width)) == (a < b),
    decreases width,
{
    if width > 0 {
        let less = (width - 1) as nat;
        let p = last_digits(a / 10, less);
        let q = last_digits(b / 10, less);
        let x = seq![digit(a % 10)];
        let y = seq![digit(b % 10)];
        lemma_last_digits_ordered(a / 10, b / 10, less);
        lemma_last_digits_ordered(b / 10, a / 10, less);
        lemma_heads_decide(p, x, q, y);
        lemma_digits_ordered(a % 10, b % 10);
        lemma_precedes_total(p, q);
        assert(last_digits(a, width) =~= p + x);
        assert(last_digits(b, width) =~= q + y);
        if p == q {
            assert(a / 10 == b / 10);
        }
    }
}

/// Padded to one width, numbers come in their own order.
pub proof fn lemma_padding_keeps_order(a: nat, b: nat, width: nat)
    requires
        fits(a, width),
        fits(b, width),
    ensures
        padded(a, width).len() == width,
        padded(b, width).len() == width,
        precedes(padded(a, width), padded(b, width)) == (a < b),
{
    lemma_padded_digits(a, width);
    lemma_padded_digits(b, width);
    lemma_last_digits_ordered(a, b, width);
}

/// Sort keys come in the order of their ranks, from the first to the last, and then of
/// the texts behind them.
pub proof fn lemma_keys_order_by_ranks(
    widths: Seq<nat>,
    a: Seq<nat>,
    a_tail: Seq<char>,
    b: Seq<nat>,
    b_tail: Seq<char>,
)
    requires
        all_fit(widths, a),
        all_fit(widths, b),
    ensures
        precedes(key_text(widths, a, a_tail), key_text(widths, b, b_tail)) == ranks_before(
            a,
            a_tail,
            b,
            b_tail,
        ),
    decreases widths.len(),
{
    if widths.len() > 0 {
        assert(fits(a[0], widths[0]) && fits(b[0], widths[0]));
        assert forall|i: int| 0 <= i < a.skip(1).len() implies fits(
            #[trigger] a.skip(1)[i],
            widths.skip(1)[i],
        ) by {
            assert(fits(a[i + 1], widths[i + 1]));
        }
        assert forall|i: int| 0 <= i < b.skip(1).len() implies fits(
            #[trigger] b.skip(1)[i],
            widths.skip(1)[i],
        ) by {
            assert(fits(b[i + 1], widths[i + 1]));
        }
        lemma_keys_order_by_ranks(widths.skip(1), a.skip(1), a_tail, b.skip(1), b_tail);
        lemma_padding_keeps_order(a[0], b[0], widths[0]);
        lemma_padding_keeps_order(b[0], a[0], widths[0]);
        lemma_heads_decide(
            padded(a[0], widths[0]),
            key_text(widths.skip(1), a.skip(1), a_tail),
            padded(b[0], widths[0]),
            key_text(widths.skip(1), b.skip(1), b_tail),
        );
        lemma_precedes_total(padded(a[0], widths[0]), padded(b[0], widths[0]));
    }
}

// ---------------------------------------------------------------------------
// The ranking of a search
// ---------------------------------------------------------------------------

/// A row of a search as the ranking sees it: its name, whether it matches exactly or by
/// prefix, and the digits of the field that matched, the resource type and the modeling
/// layer.
pub ghost struct RankedRow {
    pub name: Option<Seq<char>>,
    pub exact: bool,
    pub prefix: bool,
    pub priority: nat,
    pub resource: nat,
    pub layer: nat,
}

/// The rank that a tier gives a row, where it gives one: 0 is the strongest. It is what
/// the tier's expression is for the row.
pub open spec fn rank(row: RankedRow, tier: RankTier) -> nat {
    match tier {
        RankTier::Exact => if row.exact {
            0
        } else {
            1
        },
        RankTier::Prefix => if row.prefix {
            0
        } else {
            1
        },
        RankTier::Priority => row.priority,
        RankTier::Resource => row.resource,
        RankTier::Layer => row.layer,
        RankTier::Name => 0,
    }
}

/// What tiers are for a row, one behind the other: the rank padded to the width of the
/// tier, and the name where the tier has no width.
pub open spec fn tiers_text(tiers: Seq<(nat, RankTier)>, row: RankedRow, name: Seq<char>) -> Seq<
    char,
>
    decreases tiers.len(),
{
    if tiers.len() == 0 {
        Seq::empty()
    } else {
        (if tiers[0].0 == 0 {
            name
        } else {
            padded(rank(row, tiers[0].1), tiers[0].0)
        }) + tiers_text(tiers.skip(1), row, name)
    }
}

/// The sort key of a row: what the tiers of the ranking are for it. One without a name
/// sorts by a text of its own.
pub open spec fn row_key(row: RankedRow) -> Seq<char> {
    match row.name {
        Some(name) => tiers_text(ranking_order(), row, name),
        None => NAMELESS_KEY@,
    }
}

/// The tiers of the ranking that give ranks: all but the name.
pub open spec fn rank_tiers() -> Seq<(nat, RankTier)> {
    ranking_order().drop_last()
}

/// The ranks that tiers give a row, from the strongest to the weakest.
pub open spec fn ranks(tiers: Seq<(nat, RankTier)>, row: RankedRow) -> Seq<nat> {
    Seq::new(tiers.len(), |i: int| rank(row, tiers[i].1))
}

/// The widths of tiers.
pub open spec fn widths(tiers: Seq<(nat, RankTier)>) -> Seq<nat> {
    Seq::new(tiers.len(), |i: int| tiers[i].0)
}

/// Whether the digits of a row are digits.
pub open spec fn is_ranked(row: RankedRow) -> bool {
    row.priority < 10 && row.resource < 10 && row.layer < 10
}

/// Tiers with a width and the name behind them make up a key of ranks.
proof fn lemma_tiers_text(tiers: Seq<(nat, RankTier)>, row: RankedRow, name: Seq<char>)
    requires
        tiers.len() > 0,
        tiers.last().0 == 0,
        forall|i: int| 0 <= i < tiers.len() - 1 ==> (#[trigger] tiers[i]).0 > 0,
    ensures
        tiers_text(tiers, row, name) == key_text(
            widths(tiers.drop_last()),
            ranks(tiers.drop_last(), row),
            name,
        ),
    decreases tiers.len(),
{
    let rest = tiers.skip(1);
    if tiers.len() == 1 {
        assert(tiers_text(rest, row, name) =~= Seq::<char>::empty());
        assert(tiers_text(tiers, row, name) =~= name);
    } else {
        assert(tiers[0].0 > 0);
        assert forall|i: int| 0 <= i < rest.len() - 1 implies (#[trigger] rest[i]).0 > 0 by {
            assert(tiers[i + 1].0 > 0);
        }
        lemma_tiers_text(rest, row, name);
        let front = tiers.drop_last();
        assert(widths(front).skip(1) =~= widths(rest.drop_last()));
        assert(ranks(front, row).skip(1) =~= ranks(rest.drop_last(), row));
        assert(widths(front)[0] == tiers[0].0);
        assert(ranks(front, row)[0] == rank(row, tiers[0].1));
    }
}

proof fn lemma_row_key(row: RankedRow, name: Seq<char>)
    requires
        row.name == Some(name),
        is_ranked(row),
    ensures
        row_key(row) == key_text(widths(rank_tiers()), ranks(rank_tiers(), row), name),
        all_fit(widths(rank_tiers()), ranks(rank_tiers(), row)),
{
    lemma_tiers_text(ranking_order(), row, name);
    let tiers = rank_tiers();
    assert forall|i: int| 0 <= i < ranks(tiers, row).len() implies fits(
        #[trigger] ranks(tiers, row)[i],
        widths(tiers)[i],
    ) by {
        assert(ranks(tiers, row)[i] < 10);
        assert(widths(tiers)[i] == 1);
    }
}

/// Rows with names come in the order of the tiers of the ranking and then of their names:
/// an exact match comes before every other, and of two rows that match alike the field
/// decides, then the resource type, then the modeling layer, then the name.
pub proof fn lemma_ranking_orders_rows(
    a: RankedRow,
    a_name: Seq<char>,
    b: RankedRow,
    b_name: Seq<char>,
)
    requires
        a.name == Some(a_name),
        b.name == Some(b_name),
        is_ranked(a),
        is_ranked(b),
    ensures
        precedes(row_key(a), row_key(b)) == ranks_before(
            ranks(rank_tiers(), a),
            a_name,
            ranks(rank_tiers(), b),
            b_name,
        ),
        a.exact && !b.exact ==> precedes(row_key(a), row_key(b)),
        a.exact == b.exact && a.prefix && !b.prefix ==> precedes(row_key(a), row_key(b)),
{
    lemma_row_key(a, a_name);
    lemma_row_key(b, b_name);
    let tiers = rank_tiers();
    lemma_keys_order_by_ranks(widths(tiers), ranks(tiers, a), a_name, ranks(tiers, b), b_name);
    reveal_with_fuel(ranks_before, 3);
    assert(ranks(tiers, a).skip(1)[0] == ranks(tiers, a)[1]);
    assert(ranks(tiers, b).skip(1)[0] == ranks(tiers, b)[1]);
}

/// A row without a name comes behind every row with one.
pub proof fn lemma_nameless_rows_come_last(a: RankedRow, b: RankedRow)
    requires
        a.name is Some,
        b.name is None,
        is_ranked(a),
    ensures
        precedes(row_key(a), row_key(b)),
{
    reveal_strlit("9~9999");
    lemma_row_key(a, a.name->0);
    let tiers = rank_tiers();
    let first = ranks(tiers, a)[0];
    assert(fits(first, widths(tiers)[0]));
    lemma_padding_keeps_order(first, 9, 1);
    assert(padded(first, 1) =~= seq![digit(first)]);
    assert(row_key(a)[0] == digit(first));
    assert(digit(first) as u32 == 48 + first);
    assert(row_key(b)[0] == '9');
}

} // verus!
