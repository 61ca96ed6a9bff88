//! What is marked, what is reported and what is delivered.
use crate::analytics::{event_of, relayed, AnalyticsBatch, AnalyticsEventReq, DocsEvent};
use crate::assets::{file_path, without_slashes};
use crate::delayed_table::{is_projected, scanned, ProjectedColumn};
use crate::dist_info::TelemetryHydration;
use crate::find::{contains, lemma_find_from, occurs_at};
use crate::highlight::{best_tag, first_match, tag_matches, window};
use crate::json::valid_id;
use crate::order::{lemma_precedes_total, lemma_precedes_transitive, precedes};
use crate::search::{completed, default_count, last_count, SearchFacetValue};
use crate::seed_io::ColumnKind;
use crate::text::lowercase;
use vstd::prelude::*;

verus! {

// ---------------------------------------------------------------------------
// Marks
// ---------------------------------------------------------------------------

/// Whether a needle that is not empty stands at a place of a text.
pub open spec fn one_stands_at(text: Seq<char>, needles: Seq<Seq<char>>, at: int) -> bool {
    exists|k: int|
        0 <= k < needles.len() && (#[trigger] needles[k]).len() > 0 && occurs_at(
            text,
            needles[k],
            at,
        )
}

/// The first match is a place where a needle stands, and none stands before it. There is
/// none only where no needle stands anywhere.
pub proof fn lemma_first_match_is_the_first(text: Seq<char>, needles: Seq<Seq<char>>)
    ensures
        match first_match(text, needles) {
            Some(at) => one_stands_at(text, needles, at as int) && forall|j: int|
                j < at ==> !#[trigger] one_stands_at(text, needles, j),
            None => forall|j: int| !#[trigger] one_stands_at(text, needles, j),
        },
    decreases needles.len(),
{
    if needles.len() > 0 {
        let front = needles.drop_last();
        let last = needles.last();
        lemma_first_match_is_the_first(text, front);
        lemma_find_from(text, last, 0);
        assert forall|j: int| #[trigger] one_stands_at(text, needles, j) == (one_stands_at(
            text,
            front,
            j,
        ) || (last.len() > 0 && occurs_at(text, last, j))) by {
            if one_stands_at(text, needles, j) {
                let k = choose|k: int|
                    0 <= k < needles.len() && (#[trigger] needles[k]).len() > 0 && occurs_at(
                        text,
                        needles[k],
                        j,
                    );
                if k < front.len() {
                    assert(front[k] == needles[k]);
                }
            }
            if one_stands_at(text, front, j) {
                let k = choose|k: int|
                    0 <= k < front.len() && (#[trigger] front[k]).len() > 0 && occurs_at(
                        text,
                        front[k],
                        j,
                    );
                assert(needles[k] == front[k]);
            }
            if last.len() > 0 && occurs_at(text, last, j) {
                assert(needles[needles.len() - 1] == last);
            }
        }
    }
}

/// A window starts at most 40 characters before the match and holds at most 80 characters
/// of the text; three dots stand on each side where text is left out, and nowhere else.
pub proof fn lemma_window_shows_what_is_left_out(text: Seq<char>, at: nat)
    requires
        at < text.len(),
    ensures
        ({
            let from: int = if at <= 40 {
                0
            } else {
                at - 40
            };
            let to: int = if from + 80 >= text.len() {
                text.len() as int
            } else {
                from + 80
            };
            let dots = seq!['.', '.', '.'];
            let none = Seq::<char>::empty();
            window(text, at) == (if from == 0 {
                none
            } else {
                dots
            }) + text.subrange(from, to) + (if to == text.len() {
                none
            } else {
                dots
            })
        }),
{
    reveal_strlit("...");
    reveal_strlit("");
    assert("..."@ =~= seq!['.', '.', '.']);
    assert(""@ =~= Seq::<char>::empty());
}

/// The tag that is marked is one that holds every word, and the first such in the order of
/// characters. None is marked only where none holds every word.
pub proof fn lemma_the_first_matching_tag_is_marked(
    tags: Seq<Seq<char>>,
    tokens: Seq<Seq<char>>,
)
    ensures
        match best_tag(tags, tokens) {
            Some(tag) => tags.contains(tag) && tag_matches(tag, tokens) && forall|k: int|
                0 <= k < tags.len() && tag_matches(#[trigger] tags[k], tokens) ==> tags[k] == tag
                    || precedes(tag, tags[k]),
            None => forall|k: int|
                0 <= k < tags.len() ==> !tag_matches(#[trigger] tags[k], tokens),
        },
    decreases tags.len(),
{
    if tags.len() > 0 {
        let front = tags.drop_last();
        let last = tags.last();
        lemma_the_first_matching_tag_is_marked(front, tokens);
        assert(tags[tags.len() - 1] == last);
        if let Some(had) = best_tag(front, tokens) {
            let k = choose|k: int| 0 <= k < front.len() && front[k] == had;
            assert(tags[k] == had);
            lemma_precedes_total(last, had);
        }
        assert forall|k: int|
            0 <= k < tags.len() && tag_matches(#[trigger] tags[k], tokens) implies best_tag(
            tags,
            tokens,
        ) matches Some(tag) && (tags[k] == tag || precedes(tag, tags[k])) by {
            if k < front.len() {
                assert(front[k] == tags[k]);
                let had = best_tag(front, tokens)->0;
                if tag_matches(last, tokens) && precedes(last, had) && front[k] != had {
                    lemma_precedes_transitive(last, had, front[k]);
                }
            }
        }
    }
}

/// Whether a word stands in a text, but for the case of letters.
pub open spec fn stands_in(text: Seq<char>, word: Seq<char>) -> bool {
    exists|at: int| occurs_at(lowercase(text), lowercase(word), at)
}

/// A tag is marked only where every word stands in it.
pub proof fn lemma_every_word_stands_in_the_tag(tag: Seq<char>, tokens: Seq<Seq<char>>)
    ensures
        tag_matches(tag, tokens) <==> forall|i: int|
            0 <= i < tokens.len() ==> stands_in(tag, #[trigger] tokens[i]),
{
    if forall|i: int| 0 <= i < tokens.len() ==> stands_in(tag, #[trigger] tokens[i]) {
        assert forall|i: int| 0 <= i < tokens.len() implies contains(
            lowercase(tag),
            lowercase(#[trigger] tokens[i]),
        ) by {
            assert(stands_in(tag, tokens[i]));
        }
    }
    if tag_matches(tag, tokens) {
        assert forall|i: int| 0 <= i < tokens.len() implies stands_in(tag, #[trigger] tokens[i]) by {
            assert(contains(lowercase(tag), lowercase(tokens[i])));
        }
    }
}

// ---------------------------------------------------------------------------
// Values of a filter
// ---------------------------------------------------------------------------

/// No value is lost when a list is completed by its defaults: each value of the results is
/// in the list with its count, each default is in it, and nothing else is.
pub proof fn lemma_completing_loses_no_value(
    r: Seq<SearchFacetValue>,
    rows: Seq<SearchFacetValue>,
    defaults: Seq<Seq<char>>,
    value: Seq<char>,
)
    requires
        completed(r, rows, defaults),
        forall|i: int, j: int| 0 <= i < j < defaults.len() ==> #[trigger] defaults[i] != #[trigger] defaults[j],
    ensures
        last_count(rows, value) matches Some(n) ==> exists|i: int|
            0 <= i < r.len() && (#[trigger] r[i]).value@ == value && r[i].count == n,
        defaults.contains(value) && last_count(rows, value) is None ==> exists|i: int|
            0 <= i < r.len() && (#[trigger] r[i]).value@ == value && r[i].count == 0,
        forall|i: int|
            0 <= i < r.len() ==> defaults.contains((#[trigger] r[i]).value@) || last_count(
                rows,
                r[i].value@,
            ) == Some(r[i].count),
{
    let extras = r.skip(defaults.len() as int);
    if defaults.contains(value) {
        let i = choose|i: int| 0 <= i < defaults.len() && defaults[i] == value;
        assert(!defaults.take(i).contains(defaults[i])) by {
            if defaults.take(i).contains(defaults[i]) {
                let k = choose|k: int| 0 <= k < i && defaults.take(i)[k] == defaults[i];
                assert(defaults[k] == defaults[i]);
            }
        }
        assert(r[i].value@ == value && r[i].count == default_count(rows, defaults, i));
    } else if last_count(rows, value) is Some {
        let k = choose|k: int| 0 <= k < extras.len() && (#[trigger] extras[k]).value@ == value;
        assert(r[k + defaults.len()] == extras[k]);
    }
    assert forall|i: int| 0 <= i < r.len() implies defaults.contains((#[trigger] r[i]).value@)
        || last_count(rows, r[i].value@) == Some(r[i].count) by {
        if i < defaults.len() {
            assert(r[i].value@ == defaults[i]);
        } else {
            assert(extras[i - defaults.len()] == r[i]);
        }
    }
}

// ---------------------------------------------------------------------------
// Files of the site
// ---------------------------------------------------------------------------

/// Whether a path is another with slashes before it.
pub open spec fn slashes_before(path: Seq<char>, rest: Seq<char>, n: int) -> bool {
    &&& 0 <= n <= path.len()
    &&& path.skip(n) == rest
    &&& forall|i: int| 0 <= i < n ==> #[trigger] path[i] == '/'
}

proof fn lemma_without_slashes(path: Seq<char>) -> (n: int)
    ensures
        slashes_before(path, without_slashes(path), n),
    decreases path.len(),
{
    if path.len() > 0 && path[0] == '/' {
        let m = lemma_without_slashes(path.skip(1));
        assert(path.skip(1).skip(m) =~= path.skip(m + 1));
        assert forall|i: int| 0 <= i < m + 1 implies #[trigger] path[i] == '/' by {
            if i > 0 {
                assert(path.skip(1)[i - 1] == path[i]);
            }
        }
        m + 1
    } else {
        assert(path.skip(0) =~= path);
        0
    }
}

/// The file of a request is at its path but for slashes before it, and the start page where
/// there is nothing else.
pub proof fn lemma_only_slashes_are_taken_off(path: Seq<char>)
    ensures
        file_path(path) == "index.html"@ && (forall|i: int|
            0 <= i < path.len() ==> #[trigger] path[i] == '/') || exists|n: int| #[trigger]
            slashes_before(path, file_path(path), n),
{
    let n = lemma_without_slashes(path);
    if without_slashes(path).len() == 0 {
        assert(n == path.len());
    } else {
        assert(slashes_before(path, file_path(path), n));
    }
}

// ---------------------------------------------------------------------------
// Analytics
// ---------------------------------------------------------------------------

/// Nothing is reported without consent: neither where the user asked not to be tracked nor
/// where the project does not send usage statistics. With consent, every event of a batch
/// is.
pub proof fn lemma_nothing_is_reported_without_consent(
    batch: Result<AnalyticsBatch, String>,
    do_not_track: bool,
    send_anonymous_usage_stats: bool,
    h: TelemetryHydration,
)
    ensures
        do_not_track ==> relayed(batch, do_not_track, send_anonymous_usage_stats, h).len() == 0,
        !send_anonymous_usage_stats ==> relayed(
            batch,
            do_not_track,
            send_anonymous_usage_stats,
            h,
        ).len() == 0,
        !do_not_track && send_anonymous_usage_stats ==> (batch matches Ok(b) ==> relayed(
            batch,
            do_not_track,
            send_anonymous_usage_stats,
            h,
        ).len() == b.events.len()),
{
}

/// What a client reports passes through: an event on the wire is of the kind that was
/// reported and has what was reported of it.
pub proof fn lemma_what_is_reported_passes_through(req: AnalyticsEventReq, h: TelemetryHydration)
    ensures
        match req {
            AnalyticsEventReq::DocsSiteOpened { project_resource_count, .. } => event_of(req, h) matches DocsEvent::DocsSiteOpened(e) && e.project_resource_count == project_resource_count,
            AnalyticsEventReq::ResourceViewed { resource_type, view_level, resource_id, .. } => event_of(req, h) matches DocsEvent::ResourceViewed(e) && e.resource_type == resource_type && e.view_level == view_level && e.resource_id == resource_id,
            AnalyticsEventReq::LineageViewed { lineage_type, resource_type, resource_id, .. } => event_of(req, h) matches DocsEvent::LineageViewed(e) && e.lineage_type == lineage_type && e.resource_type == resource_type && e.resource_id == resource_id,
            AnalyticsEventReq::SearchPerformed { search_query, result_count, .. } => event_of(req, h) matches DocsEvent::SearchPerformed(e) && e.search_query == search_query && e.result_count == result_count,
            AnalyticsEventReq::FilterApplied { resource_type, filter_type, filter_value, .. } => event_of(req, h) matches DocsEvent::FilterApplied(e) && e.resource_type == resource_type && e.filter_type == filter_type && e.filter_value == filter_value,
            AnalyticsEventReq::UpsellPromptDisplayed { upsell_track, prompt_format, prompt_location, .. } => event_of(req, h) matches DocsEvent::UpsellPromptDisplayed(e) && e.upsell_track == upsell_track && e.prompt_format == prompt_format && e.prompt_location == prompt_location,
            AnalyticsEventReq::UpsellPromptClicked { upsell_track, cta_label, referral_code, .. } => event_of(req, h) matches DocsEvent::UpsellPromptClicked(e) && e.upsell_track == upsell_track && e.cta_label == cta_label && e.referral_code == referral_code,
            AnalyticsEventReq::UpsellPromptDismissed { upsell_track, dismiss_method, .. } => event_of(req, h) matches DocsEvent::UpsellPromptDismissed(e) && e.upsell_track == upsell_track && e.dismiss_method == dismiss_method,
            AnalyticsEventReq::ReferralLinkClicked { referral_code, link_destination, .. } => event_of(req, h) matches DocsEvent::ReferralLinkClicked(e) && e.referral_code == referral_code && e.link_destination == link_destination,
            AnalyticsEventReq::AccountLoggedIn { triggered_by_prompt, upsell_track, .. } => event_of(req, h) matches DocsEvent::AccountLoggedIn(e) && e.triggered_by_prompt == triggered_by_prompt && e.upsell_track == upsell_track,
            AnalyticsEventReq::ErrorEncountered { error_category, error_message, field_name, .. } => event_of(req, h) matches DocsEvent::ErrorEncountered(e) && e.error_category == error_category && e.error_message == error_message && e.field_name == field_name,
        },
{
}

/// An event goes by the name of its kind.
pub proof fn lemma_events_go_by_their_kinds(event: DocsEvent)
    ensures
        match event {
            DocsEvent::DocsSiteOpened(_) => event.event_name() == "DocsSiteOpened"@,
            DocsEvent::ResourceViewed(_) => event.event_name() == "ResourceViewed"@,
            DocsEvent::LineageViewed(_) => event.event_name() == "LineageViewed"@,
            DocsEvent::SearchPerformed(_) => event.event_name() == "SearchPerformed"@,
            DocsEvent::FilterApplied(_) => event.event_name() == "FilterApplied"@,
            DocsEvent::UpsellPromptDisplayed(_) => event.event_name() == "UpsellPromptDisplayed"@,
            DocsEvent::UpsellPromptClicked(_) => event.event_name() == "UpsellPromptClicked"@,
            DocsEvent::UpsellPromptDismissed(_) => event.event_name() == "UpsellPromptDismissed"@,
            DocsEvent::ReferralLinkClicked(_) => event.event_name() == "ReferralLinkClicked"@,
            DocsEvent::AccountLoggedIn(_) => event.event_name() == "AccountLoggedIn"@,
            DocsEvent::ErrorEncountered(_) => event.event_name() == "ErrorEncountered"@,
        },
{
}

// ---------------------------------------------------------------------------
// Requests
// ---------------------------------------------------------------------------

/// A unique id is refused exactly where it is empty or could end the literal that it stands
/// in.
pub proof fn lemma_ids_stay_in_their_literal(id: Seq<char>)
    ensures
        valid_id(id) <==> id.len() > 0 && forall|i: int| 0 <= i < id.len() ==> #[trigger] id[i] != '\'',
        valid_id(id) ==> crate::sql::escaped(id) == id,
{
    if valid_id(id) {
        assert forall|i: int| 0 <= i < id.len() implies #[trigger] id[i] != '\'' by {
            assert(id.contains(id[i]));
        }
        crate::meaning::lemma_plain_literal(id);
    }
}

// ---------------------------------------------------------------------------
// Scans
// ---------------------------------------------------------------------------

/// A scan gives the columns that are asked for, in the order in which they are asked for,
/// and all of them in their own order where none is: each from the column of the file in
/// the same place, under the name that the schema gives it, and cast exactly where the
/// kinds differ.
pub proof fn lemma_scans_follow_the_schema(
    c: ProjectedColumn,
    projection: Option<Seq<usize>>,
    i: int,
    physical: Seq<(Seq<char>, ColumnKind)>,
    schema: Seq<(Seq<char>, ColumnKind)>,
)
    requires
        schema.len() <= usize::MAX,
        0 <= i < scanned(projection, schema.len()).len(),
        is_projected(c, i, scanned(projection, schema.len())[i] as int, physical, schema),
    ensures
        ({
            let place = match projection {
                Some(places) => places[i] as int,
                None => i,
            };
            &&& c.schema_index == place
            &&& c.source_index == i
            &&& c.source@ == physical[place].0
            &&& c.name@ == schema[place].0
            &&& c.cast <==> physical[place].1 != schema[place].1
        }),
        projection is None ==> scanned(projection, schema.len()).len() == schema.len(),
{
}

} // verus!
