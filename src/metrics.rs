//! Post-processing of returned rows into bucketed metric entries, and the
//! challenge-flow count metric built on the query engine.
use vstd::prelude::*;

use crate::errors::{ExecutionError, MetricsError, PostProcessingError, RowColumn};
use crate::query::first_with;
use crate::rows::{lookup, CellView, RawRow, RawValue};
use crate::sql::{opt_view, text_eq};
use crate::transformers::{ForeignFrom, ForeignTryFrom, ForeignTryInto};

verus! {

pub type RowCells = Seq<(Seq<char>, CellView)>;

/// A metric row as plain values: the count and the bucket it belongs to.
pub type RowView = (Option<u64>, Option<Seq<char>>);

/// A metric entry as plain values: the bucket key and the row.
pub type EntryView = (Option<Seq<char>>, RowView);

/// One row of the challenge-flow metric.
#[derive(Clone, Debug, PartialEq, Eq, Hash)]
pub struct AuthEventMetricRow {
    pub count: Option<u64>,
    pub time_bucket: Option<String>,
}

impl View for AuthEventMetricRow {
    type V = RowView;

    open spec fn view(&self) -> RowView {
        (self.count, opt_view(self.time_bucket))
    }
}

/// The bucket a metric row is reported under; rows of an unbucketed query
/// all share the key without a time bucket.
#[derive(Clone, Debug, PartialEq, Eq, Hash)]
pub struct AuthEventMetricsBucketIdentifier {
    pub time_bucket: Option<String>,
}

impl View for AuthEventMetricsBucketIdentifier {
    type V = Option<Seq<char>>;

    open spec fn view(&self) -> Option<Seq<char>> {
        opt_view(self.time_bucket)
    }
}

impl AuthEventMetricsBucketIdentifier {
    pub fn new(time_bucket: Option<String>) -> (r: Self)
        ensures
            r@ == opt_view(time_bucket),
    {
        AuthEventMetricsBucketIdentifier { time_bucket }
    }
}

pub type MetricEntry = (AuthEventMetricsBucketIdentifier, AuthEventMetricRow);

/// The count cell read as an optional count; `None` where it is malformed.
pub open spec fn decode_count(c: Option<CellView>) -> Option<Option<u64>> {
    match c {
        None => Some(None),
        Some(CellView::Null) => Some(None),
        Some(CellView::UInt(n)) => Some(Some(n)),
        Some(CellView::Int(n)) => if n >= 0 {
            Some(Some(n as u64))
        } else {
            None
        },
        Some(CellView::Text(_)) => None,
    }
}

/// The bucket cell read as optional text; `None` where it is malformed.
pub open spec fn decode_bucket(c: Option<CellView>) -> Option<Option<Seq<char>>> {
    match c {
        None => Some(None),
        Some(CellView::Null) => Some(None),
        Some(CellView::Text(s)) => Some(Some(s)),
        Some(_) => None,
    }
}

/// A returned row read as a metric row, or the first column that is malformed.
pub open spec fn decode_row(cells: RowCells) -> Result<RowView, RowColumn> {
    match decode_count(lookup(cells, "count"@)) {
        None => Err(RowColumn::Count),
        Some(c) => match decode_bucket(lookup(cells, "time_bucket"@)) {
            None => Err(RowColumn::TimeBucket),
            Some(b) => Ok((c, b)),
        },
    }
}

impl<'a> ForeignTryFrom<&'a RawRow> for AuthEventMetricRow {
    type Error = RowColumn;

    open spec fn try_converts(from: &'a RawRow, to: Result<AuthEventMetricRow, RowColumn>) -> bool {
        match decode_row(from@) {
            Ok(v) => to matches Ok(row) && row@ == v,
            Err(c) => to == Err::<AuthEventMetricRow, RowColumn>(c),
        }
    }

    fn foreign_try_from(from: &'a RawRow) -> (r: Result<AuthEventMetricRow, RowColumn>) {
        let count = match from.get("count") {
            None => None,
            Some(RawValue::Null) => None,
            Some(RawValue::UInt(n)) => Some(*n),
            Some(RawValue::Int(n)) => {
                if *n < 0 {
                    return Err(RowColumn::Count);
                }
                Some(*n as u64)
            },
            Some(RawValue::Text(_)) => return Err(RowColumn::Count),
        };
        let time_bucket = match from.get("time_bucket") {
            None => None,
            Some(RawValue::Null) => None,
            Some(RawValue::Text(s)) => Some(s.clone()),
            Some(_) => return Err(RowColumn::TimeBucket),
        };
        Ok(AuthEventMetricRow { count, time_bucket })
    }
}

pub open spec fn raw_views(rows: Seq<RawRow>) -> Seq<RowCells> {
    rows.map_values(|r: RawRow| r@)
}

pub open spec fn decodes(cells: RowCells) -> bool {
    decode_row(cells) is Ok
}

pub open spec fn all_decode(rows: Seq<RowCells>) -> bool {
    forall|i: int| 0 <= i < rows.len() ==> decodes(#[trigger] rows[i])
}

/// The entry a well-formed row gives: its bucket key beside the row.
pub open spec fn entry_of(cells: RowCells) -> EntryView {
    let v = decode_row(cells)->Ok_0;
    (v.1, v)
}

pub open spec fn entries(rows: Seq<RowCells>) -> Seq<EntryView> {
    rows.map_values(|c: RowCells| entry_of(c))
}

/// The entries of `rows` as a set: one per distinct (bucket key, row) pair.
pub open spec fn entry_set(rows: Seq<RowCells>) -> Set<EntryView> {
    entries(rows).to_set()
}

pub open spec fn entry_views(v: Seq<MetricEntry>) -> Seq<EntryView> {
    v.map_values(|e: MetricEntry| (e.0@, e.1@))
}

/// `r` is the outcome of post-processing `rows`: every distinct entry once,
/// or, where a row is malformed, the first such row and its column.
pub open spec fn post_processed(rows: Seq<RawRow>, r: Result<Vec<MetricEntry>, MetricsError>) -> bool {
    let cells = raw_views(rows);
    if all_decode(cells) {
        r matches Ok(v) && entry_views(v@).no_duplicates() && entry_views(v@).to_set()
            == entry_set(cells)
    } else {
        r matches Err(MetricsError::PostProcessingFailure(e)) && first_with(
            cells,
            |c: RowCells| !decodes(c),
            e.row as int,
        ) && decode_row(cells[e.row as int]) == Err::<RowView, RowColumn>(e.column)
    }
}

fn same_text(a: &Option<String>, b: &Option<String>) -> (r: bool)
    ensures
        r == (opt_view(*a) == opt_view(*b)),
{
    match (a, b) {
        (Some(x), Some(y)) => text_eq(x.as_str(), y.as_str()),
        (None, None) => true,
        _ => false,
    }
}

fn same_entry(a: &MetricEntry, b: &MetricEntry) -> (r: bool)
    ensures
        r == ((a.0@, a.1@) == (b.0@, b.1@)),
{
    let same_count = match (a.1.count, b.1.count) {
        (Some(x), Some(y)) => x == y,
        (None, None) => true,
        _ => false,
    };
    same_text(&a.0.time_bucket, &b.0.time_bucket) && same_count && same_text(
        &a.1.time_bucket,
        &b.1.time_bucket,
    )
}

fn contains_entry(v: &Vec<MetricEntry>, e: &MetricEntry) -> (r: bool)
    ensures
        r == entry_views(v@).contains((e.0@, e.1@)),
{
    let mut i: usize = 0;
    while i < v.len()
        invariant
            i <= v@.len(),
            forall|k: int| 0 <= k < i ==> (#[trigger] entry_views(v@)[k]) != (e.0@, e.1@),
        decreases v.len() - i,
    {
        if same_entry(&v[i], e) {
            assert(entry_views(v@)[i as int] == (e.0@, e.1@));
            return true;
        }
        i += 1;
    }
    false
}

/// Reads every row and folds the entries into a set keyed by the whole
/// (bucket key, row) pair. All or nothing: one malformed row fails the call.
pub fn post_process(rows: &Vec<RawRow>) -> (r: Result<Vec<MetricEntry>, MetricsError>)
    ensures
        post_processed(rows@, r),
{
    let ghost cells = raw_views(rows@);
    let mut out: Vec<MetricEntry> = Vec::new();
    let mut i: usize = 0;
    while i < rows.len()
        invariant
            cells == raw_views(rows@),
            i <= rows@.len(),
            forall|k: int| 0 <= k < i ==> decodes(#[trigger] cells[k]),
            entry_views(out@).no_duplicates(),
            entry_views(out@).to_set() == entries(cells.take(i as int)).to_set(),
        decreases rows.len() - i,
    {
        let decoded: Result<AuthEventMetricRow, RowColumn> = (&rows[i]).foreign_try_into();
        let ghost prev = out@;
        assert(entries(cells.take(i + 1)) =~= entries(cells.take(i as int)).push(
            entry_of(cells[i as int]),
        ));
        proof {
            entries(cells.take(i as int)).lemma_push_to_set_commute(entry_of(cells[i as int]));
        }
        match decoded {
            Ok(row) => {
                let bucket = AuthEventMetricsBucketIdentifier::new(
                    match &row.time_bucket {
                        Some(s) => Some(s.clone()),
                        None => None,
                    },
                );
                let entry = (bucket, row);
                assert((entry.0@, entry.1@) == entry_of(cells[i as int]));
                if !contains_entry(&out, &entry) {
                    out.push(entry);
                    assert(entry_views(out@) =~= entry_views(prev).push(entry_of(cells[i as int])));
                    proof {
                        entry_views(prev).lemma_push_to_set_commute(entry_of(cells[i as int]));
                        assert forall|a: int, b: int|
                            0 <= a < b < entry_views(out@).len() implies entry_views(out@)[a]
                            != entry_views(out@)[b] by {
                            if b == entry_views(out@).len() - 1 {
                                assert(entry_views(prev).contains(entry_views(prev)[a]));
                            } else {
                                assert(entry_views(out@)[a] == entry_views(prev)[a]);
                                assert(entry_views(out@)[b] == entry_views(prev)[b]);
                            }
                        }
                    }
                } else {
                    assert(entry_views(prev).to_set().contains(entry_of(cells[i as int])));
                    assert(entry_views(prev).to_set().insert(entry_of(cells[i as int]))
                        =~= entry_views(prev).to_set());
                }
            },
            Err(column) => {
                assert(!decodes(cells[i as int]));
                assert(first_with(cells, |c: RowCells| !decodes(c), i as int));
                return Err(
                    MetricsError::foreign_from(PostProcessingError { row: i, column }),
                );
            },
        }
        i += 1;
    }
    assert(cells.take(rows@.len() as int) =~= cells);
    Ok(out)
}

/// Finishes a computation from what the backend returned: a backend error
/// becomes an execution failure carrying it, rows are post-processed.
pub fn complete_metrics(outcome: Result<Vec<RawRow>, ExecutionError>) -> (r: Result<
    Vec<MetricEntry>,
    MetricsError,
>)
    ensures
        match outcome {
            Ok(rows) => post_processed(rows@, r),
            Err(e) => r == Err::<Vec<MetricEntry>, MetricsError>(
                MetricsError::QueryExecutionFailure(e),
            ),
        },
{
    match outcome {
        Ok(rows) => post_process(&rows),
        Err(e) => Err(MetricsError::foreign_from(e)),
    }
}

/// The bucket key of a well-formed row.
pub open spec fn bucket_of(cells: RowCells) -> Option<Seq<char>> {
    entry_of(cells).0
}

/// Rows with pairwise distinct bucket keys give one entry per row: as many
/// entries as rows, every row's entry present, and no key twice.
pub proof fn lemma_distinct_keys_kept(rows: Seq<RawRow>, r: Result<Vec<MetricEntry>, MetricsError>)
    requires
        rows.len() > 0,
        all_decode(raw_views(rows)),
        forall|i: int, j: int|
            0 <= i < j < rows.len() ==> bucket_of(raw_views(rows)[i]) != bucket_of(
                raw_views(rows)[j],
            ),
        post_processed(rows, r),
    ensures
        r matches Ok(v) && v@.len() == rows.len() && (forall|i: int|
            0 <= i < rows.len() ==> entry_views(v@).contains(
                entry_of(#[trigger] raw_views(rows)[i]),
            )) && (forall|a: int, b: int|
            0 <= a < b < v@.len() ==> (#[trigger] entry_views(v@)[a]).0 != (
            #[trigger] entry_views(v@)[b]).0),
{
    let cells = raw_views(rows);
    let es = entries(cells);
    let v = r->Ok_0;
    let vs = entry_views(v@);
    assert(es.no_duplicates()) by {
        assert forall|i: int, j: int| 0 <= i < j < es.len() implies es[i] != es[j] by {
            assert(es[i].0 == bucket_of(cells[i]));
        }
    }
    es.unique_seq_to_set();
    vs.unique_seq_to_set();
    assert forall|i: int| 0 <= i < rows.len() implies vs.contains(entry_of(#[trigger] cells[i])) by {
        assert(es[i] == entry_of(cells[i]));
        assert(es.to_set().contains(es[i]));
    }
    assert forall|a: int, b: int| 0 <= a < b < v@.len() implies (#[trigger] vs[a]).0 != (
    #[trigger] vs[b]).0 by {
        assert(vs.to_set().contains(vs[a]));
        assert(vs.to_set().contains(vs[b]));
        let i = choose|i: int| 0 <= i < es.len() && es[i] == vs[a];
        let j = choose|j: int| 0 <= j < es.len() && es[j] == vs[b];
        if i != j {
            if i < j {
                assert(bucket_of(cells[i]) != bucket_of(cells[j]));
            } else {
                assert(bucket_of(cells[j]) != bucket_of(cells[i]));
            }
        }
    }
}

/// Two rows with the same bucket key and different payloads both stay:
/// the set is keyed by the whole (bucket key, row) pair.
pub proof fn lemma_same_key_both_kept(
    rows: Seq<RawRow>,
    r: Result<Vec<MetricEntry>, MetricsError>,
    i: int,
    j: int,
)
    requires
        all_decode(raw_views(rows)),
        0 <= i < rows.len(),
        0 <= j < rows.len(),
        bucket_of(raw_views(rows)[i]) == bucket_of(raw_views(rows)[j]),
        decode_row(raw_views(rows)[i]) != decode_row(raw_views(rows)[j]),
        post_processed(rows, r),
    ensures
        r matches Ok(v) && entry_views(v@).contains(entry_of(raw_views(rows)[i]))
            && entry_views(v@).contains(entry_of(raw_views(rows)[j])),
        entry_of(raw_views(rows)[i]) != entry_of(raw_views(rows)[j]),
{
    let es = entries(raw_views(rows));
    assert(es[i] == entry_of(raw_views(rows)[i]));
    assert(es[j] == entry_of(raw_views(rows)[j]));
    assert(es.to_set().contains(es[i]));
    assert(es.to_set().contains(es[j]));
}

/// Post-processing depends only on which rows came back: two answers to
/// the same query holding the same rows, in any order and with any
/// repetition, both fail or give the same set of entries.
pub proof fn lemma_same_rows_same_result(
    rows1: Seq<RawRow>,
    rows2: Seq<RawRow>,
    r1: Result<Vec<MetricEntry>, MetricsError>,
    r2: Result<Vec<MetricEntry>, MetricsError>,
)
    requires
        raw_views(rows1).to_set() == raw_views(rows2).to_set(),
        post_processed(rows1, r1),
        post_processed(rows2, r2),
    ensures
        r1 is Ok <==> r2 is Ok,
        r1 matches Ok(v1) ==> (r2 matches Ok(v2) && entry_views(v1@).to_set() == entry_views(
            v2@,
        ).to_set()),
{
    let c1 = raw_views(rows1);
    let c2 = raw_views(rows2);
    assert(all_decode(c1) <==> all_decode(c2)) by {
        if all_decode(c1) {
            assert forall|i: int| 0 <= i < c2.len() implies decodes(#[trigger] c2[i]) by {
                assert(c2.to_set().contains(c2[i]));
            }
        }
        if all_decode(c2) {
            assert forall|i: int| 0 <= i < c1.len() implies decodes(#[trigger] c1[i]) by {
                assert(c1.to_set().contains(c1[i]));
            }
        }
    }
    c1.lemma_to_set_map_commutes(|c: RowCells| entry_of(c));
    c2.lemma_to_set_map_commutes(|c: RowCells| entry_of(c));
}

} // verus!
