use vstd::prelude::*;

use crate::extract::{html_description_of, html_title_of};
use crate::parser::{accepted_urls, cut_at_tab, text_url, url_field, UrlModel};
use crate::pipeline::{
    is_finished_batch, is_page, is_prepared_batch, or_sentinel, FetchOutcome,
};
use crate::resource::{dead_flag, identifier_of, live_flag, sentinel, Resource};

verus! {

/// Identifiers depend on the URL alone: two records built for the same URL
/// serialization carry the same identifier, whatever their timestamps.
pub proof fn identifier_determined_by_url(
    a: Resource,
    ua: UrlModel,
    ta: Seq<char>,
    b: Resource,
    ub: UrlModel,
    tb: Seq<char>,
)
    requires
        a.is_new_record_for(ua, ta),
        b.is_new_record_for(ub, tb),
        ua.0 == ub.0,
    ensures
        a.uri_uuid@ == b.uri_uuid@,
{
}

/// A line with a single field (no tab) contributes no entry.
pub proof fn line_without_tab_is_skipped(line: Seq<char>)
    requires
        forall|j: int| 0 <= j < line.len() ==> line[j] != '\t',
    ensures
        cut_at_tab(line) == (line, None::<Seq<char>>),
        text_url(line) is None,
    decreases line.len(),
{
    if line.len() > 0 {
        line_without_tab_is_skipped(line.drop_first());
        assert(seq![line[0]] + line.drop_first() =~= line);
    }
}

/// Whether a line is accepted depends on its URL field alone: a first field
/// that does not read as a date never excludes a line.
pub proof fn timestamp_field_never_excludes(a: Seq<char>, b: Seq<char>)
    requires
        url_field(a) == url_field(b),
    ensures
        text_url(a) == text_url(b),
{
}

/// A record whose fetch failed (in transport, in reading the body, or with
/// a non-2xx status) ends dead, with the sentinel title and description it
/// was built with.
pub proof fn failed_fetch_leaves_dead_record(
    lines: Seq<Option<String>>,
    before: Seq<Resource>,
    outcomes: Seq<FetchOutcome>,
    after: Seq<Resource>,
    i: int,
)
    requires
        is_prepared_batch(lines, before),
        is_finished_batch(before, outcomes, after),
        0 <= i < after.len(),
        !is_page(outcomes[i]),
    ensures
        after[i].live_status@ == dead_flag(),
        after[i].title@ == sentinel(),
        after[i].auto_descr@ == sentinel(),
{
    assert(before[i].is_new_record_for(accepted_urls(lines)[i], before[i].crea_time@));
    assert(after[i].row_spec()[5] == after[i].live_status@);
    assert(after[i].row_spec()[6] == after[i].title@);
    assert(after[i].row_spec()[7] == after[i].auto_descr@);
}

/// A record whose fetch returned a page stays live and takes the page's
/// title and description, or the sentinel for whichever is absent.
pub proof fn fetched_page_enriches_record(
    lines: Seq<Option<String>>,
    before: Seq<Resource>,
    outcomes: Seq<FetchOutcome>,
    after: Seq<Resource>,
    i: int,
    status: u16,
    body: String,
)
    requires
        is_prepared_batch(lines, before),
        is_finished_batch(before, outcomes, after),
        0 <= i < after.len(),
        outcomes[i] == (FetchOutcome::Received { status, body }),
        is_page(outcomes[i]),
    ensures
        after[i].live_status@ == live_flag(),
        after[i].title@ == or_sentinel(html_title_of(body@)),
        after[i].auto_descr@ == or_sentinel(html_description_of(body@)),
{
    assert(before[i].is_new_record_for(accepted_urls(lines)[i], before[i].crea_time@));
    assert(after[i].row_spec()[5] == after[i].live_status@);
    assert(after[i].row_spec()[6] == after[i].title@);
    assert(after[i].row_spec()[7] == after[i].auto_descr@);
}

/// The batch handed on for storage holds one record per accepted line,
/// however many fetches failed; each keeps the URL of its line, an
/// identifier derived from that URL, and equal creation and modification
/// times.
pub proof fn batch_keeps_one_record_per_line(
    lines: Seq<Option<String>>,
    before: Seq<Resource>,
    outcomes: Seq<FetchOutcome>,
    after: Seq<Resource>,
)
    requires
        is_prepared_batch(lines, before),
        is_finished_batch(before, outcomes, after),
    ensures
        after.len() == accepted_urls(lines).len(),
        forall|i: int| 0 <= i < after.len() ==> #[trigger] after[i].url@ == accepted_urls(lines)[i].0,
        forall|i: int|
            0 <= i < after.len() ==> #[trigger] after[i].uri_uuid@ == identifier_of(after[i].url@),
        forall|i: int| 0 <= i < after.len() ==> #[trigger] after[i].crea_time@ == after[i].modi_time@,
{
    assert forall|i: int| 0 <= i < after.len() implies {
        &&& #[trigger] after[i].url@ == accepted_urls(lines)[i].0
        &&& after[i].uri_uuid@ == identifier_of(after[i].url@)
        &&& after[i].crea_time@ == after[i].modi_time@
    } by {
        assert(after[i].row_spec()[0] == after[i].uri_uuid@);
        assert(before[i].row_spec()[0] == before[i].uri_uuid@);
        assert(after[i].row_spec()[10] == after[i].crea_time@);
        assert(before[i].row_spec()[10] == before[i].crea_time@);
        assert(after[i].row_spec()[12] == after[i].modi_time@);
        assert(before[i].row_spec()[12] == before[i].modi_time@);
        assert(before[i].is_new_record_for(accepted_urls(lines)[i], before[i].crea_time@));
        assert(after[i].row_spec()[1] == after[i].url@);
        assert(before[i].row_spec()[1] == before[i].url@);
    }
}

} // verus!
