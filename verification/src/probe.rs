//! Running a list query over views that may be absent.
//!
//! A list has one or more variants of its query, from the richest to the barest.
//! The count query of a variant gives no answer when a view that it needs is
//! absent; then the next variant is tried. The first answer decides which variant
//! the rows are read with.
use crate::json::{error_view, internal_error, ErrorReply};
use crate::text::{number_of, opt_text, parse_number, NumberError};
use vstd::prelude::*;

verus! {

/// A variant of a list query: the count of all rows, and the rows of a page.
#[derive(Debug)]
pub struct ListQuery {
    pub count_sql: String,
    pub rows_sql: String,
}

/// The variants of a list query, and the one that is being tried.
#[derive(Debug)]
pub struct ListProbe {
    pub queries: Vec<ListQuery>,
    pub at: usize,
    /// What is counted, for errors.
    pub noun: &'static str,
    /// What is said when the last variant has no answer either.
    pub absent: &'static str,
}

/// What to do after the answer to a count query.
#[derive(Debug)]
pub enum ProbeStep {
    /// Read the rows with this query; there are `total` in all.
    Rows { total: u64, rows_sql: String },
    /// Ask again, with the next variant.
    Ask(ListProbe),
    /// Give up.
    Fail(ErrorReply),
}

/// What an answer to a count query that is no number is replied.
pub open spec fn count_error(noun: Seq<char>, e: NumberError) -> Seq<char> {
    "could not parse "@ + noun + " count: "@ + e.text()
}

/// What is said when no count query has an answer.
pub const NO_COUNT: &'static str = "count query returned no rows";

/// What follows from whether a count query has an answer.
pub ghost enum ProbeMove {
    Use,
    Next,
    GiveUp,
}

/// What follows from whether the count query of variant `at` of `n` has an answer.
pub open spec fn probe_move(at: int, n: int, answered: bool) -> ProbeMove {
    if answered {
        ProbeMove::Use
    } else if at + 1 < n {
        ProbeMove::Next
    } else {
        ProbeMove::GiveUp
    }
}

impl ListProbe {
    /// The variant being tried is one of them.
    pub open spec fn wf(self) -> bool {
        self.at < self.queries.len()
    }

    /// Start with the first variant.
    pub fn start(queries: Vec<ListQuery>, noun: &'static str) -> (r: ListProbe)
        requires
            queries.len() > 0,
        ensures
            r.wf(),
            r.queries == queries,
            r.at == 0,
            r.noun@ == noun@,
            r.absent@ == NO_COUNT@,
    {
        ListProbe { queries, at: 0, noun, absent: NO_COUNT }
    }

    /// The count query to run.
    pub fn count_sql(&self) -> (r: &str)
        requires
            self.wf(),
        ensures
            r@ == self.queries@[self.at as int].count_sql@,
    {
        self.queries[self.at].count_sql.as_str()
    }

    /// What to do after the answer to the count query: `None` when a view is
    /// absent.
    pub fn answer(self, count: Option<String>) -> (r: ProbeStep)
        requires
            self.wf(),
        ensures
            match probe_move(self.at as int, self.queries.len() as int, count is Some) {
                ProbeMove::Use => match number_of(opt_text(count)->0) {
                    Ok(n) => r matches ProbeStep::Rows { total, rows_sql } && total == n
                        && rows_sql == self.queries@[self.at as int].rows_sql,
                    Err(e) => r matches ProbeStep::Fail(reply) && reply@ == error_view(
                        500,
                        count_error(self.noun@, e),
                    ),
                },
                ProbeMove::Next => r matches ProbeStep::Ask(next) && next.wf() && next.at
                    == self.at + 1 && next.queries == self.queries && next.noun == self.noun
                    && next.absent == self.absent,
                ProbeMove::GiveUp => r matches ProbeStep::Fail(reply) && reply@ == error_view(
                    500,
                    self.absent@,
                ),
            },
    {
        match count {
            Some(text) => match parse_number(text.as_str()) {
                Ok(total) => ProbeStep::Rows {
                    total,
                    rows_sql: self.queries[self.at].rows_sql.clone(),
                },
                Err(e) => {
                    let mut msg = "could not parse ".to_owned();
                    msg.append(self.noun);
                    msg.append(" count: ");
                    msg.append(e.message());
                    ProbeStep::Fail(internal_error(msg))
                },
            },
            None => if self.at + 1 < self.queries.len() {
                ProbeStep::Ask(
                    ListProbe {
                        at: self.at + 1,
                        queries: self.queries,
                        noun: self.noun,
                        absent: self.absent,
                    },
                )
            } else {
                ProbeStep::Fail(internal_error(self.absent.to_owned()))
            },
        }
    }
}

/// The variant that is used in the end, starting with variant `at` of `n`, when
/// `answers[i]` says whether the count query of variant `i` has an answer; `None`
/// where the probe gives up.
pub open spec fn settles_on(at: int, n: int, answers: Seq<bool>) -> Option<int>
    decreases n - at,
{
    match probe_move(at, n, answers[at]) {
        ProbeMove::Use => Some(at),
        ProbeMove::Next => settles_on(at + 1, n, answers),
        ProbeMove::GiveUp => None,
    }
}

/// The variant that is used has an answer, and no variant before it has one:
/// nothing that is there is given up for what is absent. The probe gives up only
/// where no variant has an answer.
pub proof fn lemma_first_answer_decides(at: int, n: int, answers: Seq<bool>)
    requires
        0 <= at < n,
        n == answers.len(),
    ensures
        match settles_on(at, n, answers) {
            Some(i) => at <= i < n && answers[i] && forall|j: int|
                at <= j < i ==> !#[trigger] answers[j],
            None => forall|j: int| at <= j < n ==> !#[trigger] answers[j],
        },
    decreases n - at,
{
    if !answers[at] && at + 1 < n {
        lemma_first_answer_decides(at + 1, n, answers);
    }
}

} // verus!
