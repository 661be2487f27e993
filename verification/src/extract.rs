//! The row extractor: turns one rendered page snapshot into the sequence of
//! records its qualifying rows carry. The result is a function of the markup
//! alone, so re-extraction from an unchanged snapshot yields an identical
//! ordered record sequence.

use crate::dom::{
    attr_at, class_at, concat_text_at, element_class, joined_text_at, match_count, match_count_at,
    sub_attr, sub_text_concat, sub_text_joined,
};
use crate::errors::ScrapeError;
use crate::record::{Record, RecordView};
use crate::text::{
    birth_date_seq, compose_birth_date, extract_second_segment, second_segment_trimmed,
    seq_starts_with, str_starts_with,
};
use vstd::prelude::*;
use vstd::string::*;

verus! {

/// The structural selector for candidate rows: the specific table body.
pub open spec fn row_selector() -> Seq<char> {
    "#tablepress-25058 > tbody > tr"@
}

pub fn row_selector_str() -> (r: &'static str)
    ensures
        r@ == row_selector(),
{
    "#tablepress-25058 > tbody > tr"
}

/// The class prefix that distinguishes data rows from header and group rows.
pub open spec fn data_row_prefix() -> Seq<char> {
    "row-"@
}

pub fn data_row_prefix_str() -> (r: &'static str)
    ensures
        r@ == data_row_prefix(),
{
    "row-"
}

/// The selector for the primary name anchor of a row.
pub open spec fn name_selector() -> Seq<char> {
    "td.column-1 a"@
}

pub fn name_selector_str() -> (r: &'static str)
    ensures
        r@ == name_selector(),
{
    "td.column-1 a"
}

/// The selector for the single region cell of a row.
pub open spec fn region_selector() -> Seq<char> {
    "td.column-5"@
}

pub fn region_selector_str() -> (r: &'static str)
    ensures
        r@ == region_selector(),
{
    "td.column-5"
}

/// The selector for the day and month cells of a row.
pub open spec fn birth_cells_selector() -> Seq<char> {
    "td.column-7, td.column-8"@
}

pub fn birth_cells_selector_str() -> (r: &'static str)
    ensures
        r@ == birth_cells_selector(),
{
    "td.column-7, td.column-8"
}

/// The selector for the year cell of a row.
pub open spec fn year_selector() -> Seq<char> {
    "td.column-2"@
}

pub fn year_selector_str() -> (r: &'static str)
    ensures
        r@ == year_selector(),
{
    "td.column-2"
}

/// The attribute holding the profile link.
pub open spec fn href_attr() -> Seq<char> {
    "href"@
}

pub fn href_attr_str() -> (r: &'static str)
    ensures
        r@ == href_attr(),
{
    "href"
}

/// The class attribute of row `i`, or the empty sequence when it has none.
pub open spec fn row_class_or_empty(markup: Seq<char>, i: nat) -> Seq<char> {
    match class_at(markup, row_selector(), i) {
        Some(c) => c,
        None => Seq::empty(),
    }
}

/// Whether row `i` is a data row: its class attribute carries the data-row
/// prefix.
pub open spec fn row_is_data(markup: Seq<char>, i: nat) -> bool {
    seq_starts_with(row_class_or_empty(markup, i), data_row_prefix())
}

/// What extracting row `i` yields: no record for a header or group row, a
/// record for a complete data row, and `MalformedRow` for a data row missing
/// a required cell or anchor.
pub open spec fn spec_row_record(markup: Seq<char>, i: nat) -> Result<
    Option<RecordView>,
    ScrapeError,
> {
    if !row_is_data(markup, i) {
        Ok(None)
    } else {
        match (
            joined_text_at(markup, row_selector(), i, name_selector()),
            attr_at(markup, row_selector(), i, name_selector(), href_attr()),
            joined_text_at(markup, row_selector(), i, region_selector()),
            concat_text_at(markup, row_selector(), i, birth_cells_selector(), 0),
            concat_text_at(markup, row_selector(), i, birth_cells_selector(), 1),
            concat_text_at(markup, row_selector(), i, year_selector(), 0),
        ) {
            (Some(label), Some(href), Some(region), Some(day), Some(month), Some(year)) => {
                match second_segment_trimmed(label) {
                    Some(full_name) => Ok(
                        Some(
                            (RecordView {
                                profile_url: href,
                                full_name: full_name,
                                region: region,
                                birth_date: birth_date_seq(day, month, year),
                            }),
                        ),
                    ),
                    None => Err(ScrapeError::MalformedRow),
                }
            },
            _ => Err(ScrapeError::MalformedRow),
        }
    }
}

/// The view of a per-row extraction result.
pub open spec fn row_result_view(r: Result<Option<Record>, ScrapeError>) -> Result<
    Option<RecordView>,
    ScrapeError,
> {
    match r {
        Ok(Some(rec)) => Ok(Some(rec@)),
        Ok(None) => Ok(None),
        Err(e) => Err(e),
    }
}

/// Extracts row `i` of the page snapshot.
pub fn extract_row(markup: &str, i: usize) -> (r: Result<Option<Record>, ScrapeError>)
    ensures
        row_result_view(r) == spec_row_record(markup@, i as nat),
{
    let class = (match element_class(markup, row_selector_str(), i) {
        Some(c) => c,
        None => String::new(),
    });
    assert(class@ == row_class_or_empty(markup@, i as nat));
    if !str_starts_with(class.as_str(), data_row_prefix_str()) {
        return Ok(None);
    }
    let label = (match sub_text_joined(markup, row_selector_str(), i, name_selector_str()) {
        Some(t) => t,
        None => {
            return Err(ScrapeError::MalformedRow);
        },
    });
    let href = (match sub_attr(markup, row_selector_str(), i, name_selector_str(), href_attr_str())
    {
        Some(t) => t,
        None => {
            return Err(ScrapeError::MalformedRow);
        },
    });
    let region = (match sub_text_joined(markup, row_selector_str(), i, region_selector_str()) {
        Some(t) => t,
        None => {
            return Err(ScrapeError::MalformedRow);
        },
    });
    let day = (match sub_text_concat(markup, row_selector_str(), i, birth_cells_selector_str(), 0) {
        Some(t) => t,
        None => {
            return Err(ScrapeError::MalformedRow);
        },
    });
    let month = (match sub_text_concat(markup, row_selector_str(), i, birth_cells_selector_str(), 1)
    {
        Some(t) => t,
        None => {
            return Err(ScrapeError::MalformedRow);
        },
    });
    let year = (match sub_text_concat(markup, row_selector_str(), i, year_selector_str(), 0) {
        Some(t) => t,
        None => {
            return Err(ScrapeError::MalformedRow);
        },
    });
    let full_name = (match extract_second_segment(label.as_str()) {
        Some(f) => f,
        None => {
            return Err(ScrapeError::MalformedRow);
        },
    });
    let birth_date = compose_birth_date(day.as_str(), month.as_str(), year.as_str());
    Ok(
        Some(
            (Record {
                profile_url: href,
                full_name: full_name,
                region: region,
                birth_date: birth_date,
            }),
        ),
    )
}

/// What extracting the first `n` rows yields: the records of the data rows
/// among them in row order, or the error of the earliest failing row.
pub open spec fn spec_records_upto(markup: Seq<char>, n: nat) -> Result<
    Seq<RecordView>,
    ScrapeError,
>
    decreases n,
{
    if n == 0 {
        Ok(Seq::empty())
    } else {
        match spec_records_upto(markup, (n - 1) as nat) {
            Err(e) => Err(e),
            Ok(pre) => match spec_row_record(markup, (n - 1) as nat) {
                Err(e) => Err(e),
                Ok(None) => Ok(pre),
                Ok(Some(rv)) => Ok(pre.push(rv)),
            },
        }
    }
}

/// What extracting a whole page snapshot yields.
pub open spec fn spec_extract(markup: Seq<char>) -> Result<Seq<RecordView>, ScrapeError> {
    spec_records_upto(markup, match_count_at(markup, row_selector()))
}

/// The view of a page extraction result.
pub open spec fn records_result_view(r: Result<Vec<Record>, ScrapeError>) -> Result<
    Seq<RecordView>,
    ScrapeError,
> {
    match r {
        Ok(v) => Ok(v.deep_view()),
        Err(e) => Err(e),
    }
}

proof fn lemma_error_propagates(markup: Seq<char>, i: nat, n: nat, e: ScrapeError)
    requires
        i < n,
        spec_records_upto(markup, i) is Ok,
        spec_row_record(markup, i) == Err::<Option<RecordView>, ScrapeError>(e),
    ensures
        spec_records_upto(markup, n) == Err::<Seq<RecordView>, ScrapeError>(e),
    decreases n,
{
    if n > i + 1 {
        lemma_error_propagates(markup, i, (n - 1) as nat, e);
    }
}

/// Extracts every record of one rendered page snapshot, in row order. The
/// result is pinned by `spec_extract` of the markup's view alone, so two
/// extractions from the same snapshot yield identical record sequences.
pub fn extract_records(markup: &str) -> (r: Result<Vec<Record>, ScrapeError>)
    ensures
        records_result_view(r) == spec_extract(markup@),
{
    let total = match_count(markup, row_selector_str());
    let mut out: Vec<Record> = Vec::new();
    proof {
        assert(out.deep_view() =~= Seq::<RecordView>::empty());
    }
    let mut i: usize = 0;
    while i < total
        invariant
            i <= total,
            total == match_count_at(markup@, row_selector()),
            spec_records_upto(markup@, i as nat) == Ok::<Seq<RecordView>, ScrapeError>(
                out.deep_view(),
            ),
        decreases total - i,
    {
        let ghost prev = out.deep_view();
        match extract_row(markup, i) {
            Ok(Some(rec)) => {
                let ghost prev_items = out@;
                out.push(rec);
                proof {
                    assert forall|k: int| 0 <= k < out@.len() implies out.deep_view()[k]
                        == prev.push(rec@)[k] by {
                        if k < prev_items.len() {
                            assert(out@[k] == prev_items[k]);
                        } else {
                            assert(out@[k] == rec);
                        }
                    }
                    assert(out.deep_view() =~= prev.push(rec@));
                }
            },
            Ok(None) => {},
            Err(e) => {
                proof {
                    lemma_error_propagates(markup@, i as nat, total as nat, e);
                }
                return Err(e);
            },
        }
        i = i + 1;
    }
    Ok(out)
}

/// Law: re-extraction from an unchanged page snapshot yields an identical
/// ordered record sequence: any two extraction results of the same markup
/// agree, since each is pinned by `spec_extract` of the markup alone.
pub proof fn lemma_extraction_idempotent(
    r1: Result<Vec<Record>, ScrapeError>,
    r2: Result<Vec<Record>, ScrapeError>,
    markup: Seq<char>,
)
    requires
        records_result_view(r1) == spec_extract(markup),
        records_result_view(r2) == spec_extract(markup),
    ensures
        records_result_view(r1) == records_result_view(r2),
{
}

/// A record `rv` is what extracting data row `i` yields.
pub open spec fn record_of_row(markup: Seq<char>, i: nat, rv: RecordView) -> bool {
    row_is_data(markup, i) && spec_row_record(markup, i) == Ok::<Option<RecordView>, ScrapeError>(
        Some(rv),
    )
}

/// Law: a record produced by a row carries, as its profile link, the `href`
/// of that row's name anchor.
pub proof fn lemma_record_profile_url(markup: Seq<char>, i: nat, rv: RecordView)
    requires
        spec_row_record(markup, i) == Ok::<Option<RecordView>, ScrapeError>(Some(rv)),
    ensures
        row_is_data(markup, i),
        attr_at(markup, row_selector(), i, name_selector(), href_attr()) == Some(rv.profile_url),
{
}

/// Law: a row whose class attribute lacks the data-row prefix — a header or
/// group row — produces no record and raises no error.
pub proof fn lemma_non_data_row_yields_nothing(markup: Seq<char>, i: nat)
    requires
        !row_is_data(markup, i),
    ensures
        spec_row_record(markup, i) == Ok::<Option<RecordView>, ScrapeError>(None),
{
}

/// Law: every record extracted from a page comes from a data row among the
/// first `n` rows — a row whose class attribute carries the data-row prefix —
/// and rows lacking the prefix contribute no record. Record `j` of the
/// extracted sequence is what extracting some data row yields.
pub proof fn lemma_records_come_from_data_rows(markup: Seq<char>, n: nat, j: int)
    requires
        spec_records_upto(markup, n) is Ok,
        0 <= j < spec_records_upto(markup, n)->Ok_0.len(),
    ensures
        exists|i: nat|
            i < n && #[trigger] record_of_row(markup, i, spec_records_upto(markup, n)->Ok_0[j]),
    decreases n,
{
    let rs = spec_records_upto(markup, n)->Ok_0;
    if n > 0 {
        let pre = spec_records_upto(markup, (n - 1) as nat)->Ok_0;
        match spec_row_record(markup, (n - 1) as nat) {
            Ok(Some(rv)) => {
                assert(rs == pre.push(rv));
                if j < pre.len() {
                    lemma_records_come_from_data_rows(markup, (n - 1) as nat, j);
                    let i0 = choose|i0: nat|
                        i0 < (n - 1) as nat && #[trigger] record_of_row(markup, i0, pre[j]);
                    assert(rs[j] == pre[j]);
                    assert(i0 < n && record_of_row(markup, i0, rs[j]));
                } else {
                    assert(rs[j] == rv);
                    assert(((n - 1) as nat) < n && record_of_row(markup, (n - 1) as nat, rs[j]));
                }
            },
            Ok(None) => {
                assert(rs == pre);
                lemma_records_come_from_data_rows(markup, (n - 1) as nat, j);
                let i0 = choose|i0: nat|
                    i0 < (n - 1) as nat && #[trigger] record_of_row(markup, i0, pre[j]);
                assert(rs[j] == pre[j]);
                assert(i0 < n && record_of_row(markup, i0, rs[j]));
            },
            Err(_) => {},
        }
    }
}

} // verus!
