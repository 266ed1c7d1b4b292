use vstd::prelude::*;

use crate::extract::{extract_title_and_content, html_description_of, html_title_of, opt_view};
use crate::parser::{accepted_urls, create_entries, LineEntry};
use crate::resource::{dead_flag, make_resource, sentinel, sentinel_text, Resource};

verus! {

/// What came of fetching one URL.
pub enum FetchOutcome {
    /// The request failed in transport (DNS, connection, timeout).
    Unreachable,
    /// A response came, but its body could not be read as text.
    Unreadable,
    /// A response came with this status and this body.
    Received { status: u16, body: String },
}

/// A status that counts as success: any 2xx.
pub open spec fn is_success(status: u16) -> bool {
    200 <= status <= 299
}

/// An extracted value, or the sentinel where there is none.
pub open spec fn or_sentinel(v: Option<Seq<char>>) -> Seq<char> {
    match v {
        Some(t) => t,
        None => sentinel(),
    }
}

/// Whether an outcome gives a page to read. Anything else marks the record
/// dead: a transport failure, an unreadable body, or a status other than 2xx.
pub open spec fn is_page(outcome: FetchOutcome) -> bool {
    match outcome {
        FetchOutcome::Received { status, body } => is_success(status),
        _ => false,
    }
}

/// `after` is `before` with the outcome of its fetch applied: for a page, the
/// title and description read from it (sentinels where absent); otherwise
/// the record marked dead. No other field changes.
pub open spec fn enriched(before: Resource, outcome: FetchOutcome, after: Resource) -> bool {
    match outcome {
        FetchOutcome::Received { status, body } if is_success(status) => after.row_spec()
            == before.row_spec().update(6, or_sentinel(html_title_of(body@))).update(
            7,
            or_sentinel(html_description_of(body@)),
        ),
        _ => after.row_spec() == before.row_spec().update(5, dead_flag()),
    }
}

/// Status 2xx.
pub fn status_is_success(status: u16) -> (r: bool)
    ensures
        r == is_success(status),
{
    200 <= status && status <= 299
}

/// Stores what was extracted from a fetched page: the title and the
/// description, or the sentinel for whichever is absent. No other field
/// changes.
pub fn apply_extracted(record: &mut Resource, title: Option<String>, descr: Option<String>)
    ensures
        final(record).row_spec() == old(record).row_spec().update(6, or_sentinel(opt_view(title))).update(
            7,
            or_sentinel(opt_view(descr)),
        ),
{
    let ghost title_v = opt_view(title);
    let ghost descr_v = opt_view(descr);
    record.title = match title {
        Some(t) => t,
        None => sentinel_text(),
    };
    record.auto_descr = match descr {
        Some(d) => d,
        None => sentinel_text(),
    };
    assert(record.row_spec() =~= old(record).row_spec().update(6, or_sentinel(title_v)).update(
        7,
        or_sentinel(descr_v),
    ));
}

/// Applies the outcome of a fetch to the record of the fetched URL.
pub fn apply_outcome(record: &mut Resource, outcome: &FetchOutcome)
    ensures
        enriched(*old(record), *outcome, *final(record)),
{
    match outcome {
        FetchOutcome::Received { status, body } if status_is_success(*status) => {
            let (title, descr) = extract_title_and_content(body.as_str());
            apply_extracted(record, title, descr);
        },
        _ => {
            let dead = String::from_str("0");
            proof {
                reveal_strlit("0");
            }
            assert(dead@ =~= dead_flag());
            record.live_status = dead;
            assert(record.row_spec() =~= old(record).row_spec().update(5, dead_flag()));
        },
    }
}

/// `records` holds one freshly built record per accepted line of `lines`,
/// in input order, each with equal creation and modification times.
pub open spec fn is_prepared_batch(lines: Seq<Option<String>>, records: Seq<Resource>) -> bool {
    &&& records.len() == accepted_urls(lines).len()
    &&& forall|i: int|
        0 <= i < records.len() ==> #[trigger] records[i].is_new_record_for(
            accepted_urls(lines)[i],
            records[i].crea_time@,
        )
}

/// `after` is `before` with each outcome applied to the record at its
/// position.
pub open spec fn is_finished_batch(
    before: Seq<Resource>,
    outcomes: Seq<FetchOutcome>,
    after: Seq<Resource>,
) -> bool {
    &&& after.len() == before.len()
    &&& outcomes.len() == before.len()
    &&& forall|i: int| 0 <= i < before.len() ==> enriched(before[i], outcomes[i], #[trigger] after[i])
}

/// Builds one record per entry, in order.
pub fn build_records(entries: &Vec<LineEntry>) -> (r: Vec<Resource>)
    ensures
        r@.len() == entries@.len(),
        forall|i: int|
            0 <= i < r@.len() ==> #[trigger] r@[i].is_new_record_for(
                entries@[i].url@,
                entries@[i].timestamp@,
            ),
{
    let mut records: Vec<Resource> = Vec::new();
    let mut i: usize = 0;
    while i < entries.len()
        invariant
            i <= entries@.len(),
            records@.len() == i,
            forall|j: int|
                0 <= j < i ==> #[trigger] records@[j].is_new_record_for(
                    entries@[j].url@,
                    entries@[j].timestamp@,
                ),
        decreases entries@.len() - i,
    {
        let record = make_resource(&entries[i].url, &entries[i].timestamp);
        records.push(record);
        i = i + 1;
    }
    records
}

/// Parses the lines and builds the records of the accepted ones.
pub fn prepare_batch(lines: &Vec<Option<String>>) -> (r: Vec<Resource>)
    ensures
        is_prepared_batch(lines@, r@),
{
    let entries = create_entries(lines);
    let records = build_records(&entries);
    let ghost urls = entries@.map_values(|e: LineEntry| e.url@);
    assert(urls.len() == entries@.len());
    assert forall|i: int| 0 <= i < records@.len() implies #[trigger] records@[i].is_new_record_for(
        accepted_urls(lines@)[i],
        records@[i].crea_time@,
    ) by {
        assert(urls[i] == entries@[i].url@);
        assert(records@[i].is_new_record_for(entries@[i].url@, entries@[i].timestamp@));
    }
    records
}

/// The URLs to fetch for a batch, one per record, in the same order.
pub fn batch_urls(records: &Vec<Resource>) -> (r: Vec<String>)
    ensures
        r@.len() == records@.len(),
        forall|i: int| 0 <= i < r@.len() ==> #[trigger] r@[i]@ == records@[i].url@,
{
    let mut urls: Vec<String> = Vec::new();
    let mut i: usize = 0;
    while i < records.len()
        invariant
            i <= records@.len(),
            urls@.len() == i,
            forall|j: int| 0 <= j < i ==> #[trigger] urls@[j]@ == records@[j].url@,
        decreases records@.len() - i,
    {
        urls.push(records[i].url.clone());
        i = i + 1;
    }
    urls
}

/// Applies each fetch outcome to the record at the same position.
pub fn finish_batch(records: &mut Vec<Resource>, outcomes: &Vec<FetchOutcome>)
    requires
        old(records)@.len() == outcomes@.len(),
    ensures
        is_finished_batch(old(records)@, outcomes@, final(records)@),
{
    let n = records.len();
    let mut i: usize = 0;
    while i < n
        invariant
            n == old(records)@.len(),
            n == outcomes@.len(),
            i <= n,
            records@.len() == n,
            forall|j: int| 0 <= j < i ==> enriched(old(records)@[j], outcomes@[j], #[trigger] records@[j]),
            forall|j: int| i <= j < n ==> #[trigger] records@[j] == old(records)@[j],
        decreases n - i,
    {
        let mut record = records[i].clone();
        apply_outcome(&mut record, &outcomes[i]);
        records.set(i, record);
        i = i + 1;
    }
}

} // verus!
