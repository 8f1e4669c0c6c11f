use analytics::backend::{Clickhouse, Postgres};
use analytics::challenge_flow::ChallengeFlowCount;
use analytics::errors::{
    ClauseError, ExecutionError, MetricsError, PostProcessingError, QueryBuildingError, RowColumn,
};
use analytics::metrics::{
    complete_metrics, post_process, AuthEventMetricRow, AuthEventMetricsBucketIdentifier,
};
use analytics::query::{AnalyticsDataSource, CompiledQuery};
use analytics::rows::{RawRow, RawValue};
use analytics::time_range::{Granularity, TimeRange, Timestamp};
use analytics::transformers::{ForeignFrom, ForeignInto, ForeignTryFrom, ForeignTryInto};
use std::cell::{Cell, RefCell};
use std::collections::HashSet;

const T: i64 = 1_704_067_200;

struct RecordingPool {
    answer: Result<Vec<RawRow>, String>,
    calls: Cell<usize>,
    last_query: RefCell<Option<CompiledQuery>>,
}

impl RecordingPool {
    fn returning(rows: Vec<RawRow>) -> Self {
        RecordingPool { answer: Ok(rows), calls: Cell::new(0), last_query: RefCell::new(None) }
    }

    fn failing(message: &str) -> Self {
        RecordingPool {
            answer: Err(message.to_string()),
            calls: Cell::new(0),
            last_query: RefCell::new(None),
        }
    }
}

impl AnalyticsDataSource for RecordingPool {
    fn load_results(&self, query: &CompiledQuery) -> Result<Vec<RawRow>, ExecutionError> {
        self.calls.set(self.calls.get() + 1);
        *self.last_query.borrow_mut() = Some(query.clone());
        match &self.answer {
            Ok(rows) => Ok(rows.clone()),
            Err(m) => Err(ExecutionError { message: m.clone() }),
        }
    }
}

fn row(count: Option<u64>, bucket: Option<&str>) -> RawRow {
    let mut columns = Vec::new();
    if let Some(c) = count {
        columns.push(("count".to_string(), RawValue::UInt(c)));
    }
    if let Some(b) = bucket {
        columns.push(("time_bucket".to_string(), RawValue::Text(b.to_string())));
    }
    RawRow { columns }
}

fn hour() -> TimeRange {
    TimeRange {
        start_time: Timestamp { unix_seconds: T },
        end_time: Some(Timestamp { unix_seconds: T + 3600 }),
    }
}

fn as_set(
    v: Vec<(AuthEventMetricsBucketIdentifier, AuthEventMetricRow)>,
) -> HashSet<(AuthEventMetricsBucketIdentifier, AuthEventMetricRow)> {
    v.into_iter().collect()
}

fn entry(bucket: Option<&str>, count: Option<u64>) -> (AuthEventMetricsBucketIdentifier, AuthEventMetricRow) {
    (
        AuthEventMetricsBucketIdentifier::new(bucket.map(|b| b.to_string())),
        AuthEventMetricRow { count, time_bucket: bucket.map(|b| b.to_string()) },
    )
}

#[test]
fn fifteen_minute_buckets_give_four_entries() {
    let buckets = ["2024-01-01 00:00:00", "2024-01-01 00:15:00", "2024-01-01 00:30:00", "2024-01-01 00:45:00"];
    let pool = RecordingPool::returning(buckets.iter().map(|b| row(Some(1), Some(b))).collect());
    let r = ChallengeFlowCount
        .load_metrics::<Clickhouse, RecordingPool>("merchant_1", "pk_1", Some(Granularity::FifteenMin), &hour(), &pool)
        .unwrap();
    assert_eq!(r.len(), 4);
    let set = as_set(r);
    assert_eq!(set.len(), 4);
    for b in buckets.iter() {
        assert!(set.contains(&entry(Some(b), Some(1))));
    }
    let keys: HashSet<_> = set.iter().map(|(k, _)| k.clone()).collect();
    assert_eq!(keys.len(), 4);
}

#[test]
fn no_granularity_gives_one_unbucketed_entry() {
    let pool = RecordingPool::returning(vec![row(Some(7), None)]);
    let r = ChallengeFlowCount
        .load_metrics::<Clickhouse, RecordingPool>("merchant_1", "pk_1", None, &hour(), &pool)
        .unwrap();
    assert_eq!(r, vec![entry(None, Some(7))]);
    assert_eq!(r[0].0, AuthEventMetricsBucketIdentifier { time_bucket: None });
    let q = pool.last_query.borrow().clone().unwrap();
    assert!(q.group_by.is_empty());
    assert_eq!(q.select, vec!["count(*) as count".to_string()]);
}

#[test]
fn zero_rows_is_an_empty_result() {
    let pool = RecordingPool::returning(Vec::new());
    let r = ChallengeFlowCount
        .load_metrics::<Postgres, RecordingPool>("merchant_1", "pk_1", Some(Granularity::OneHour), &hour(), &pool);
    assert_eq!(r.unwrap(), Vec::new());
}

#[test]
fn transport_error_is_an_execution_failure() {
    let pool = RecordingPool::failing("connection reset");
    let r = ChallengeFlowCount
        .load_metrics::<Clickhouse, RecordingPool>("merchant_1", "pk_1", Some(Granularity::OneMin), &hour(), &pool);
    match r {
        Err(MetricsError::QueryExecutionFailure(e)) => assert_eq!(e.message, "connection reset"),
        other => panic!("unexpected outcome: {:?}", other),
    }
    assert_eq!(pool.calls.get(), 1);
}

#[test]
fn tenant_filter_comes_first_in_the_compiled_query() {
    let pool = RecordingPool::returning(Vec::new());
    ChallengeFlowCount
        .load_metrics::<Clickhouse, RecordingPool>("merchant_1", "pk_tenant_x", Some(Granularity::FifteenMin), &hour(), &pool)
        .unwrap();
    let q = pool.last_query.borrow().clone().unwrap();
    assert_eq!(q.filters[0], "merchant_id = 'pk_tenant_x'");
    assert_eq!(q.filters.iter().filter(|f| f.starts_with("merchant_id")).count(), 1);
    assert_eq!(
        q.to_sql(),
        "SELECT count(*) as count, toStartOfInterval(created_at, INTERVAL 15 MINUTE) as time_bucket \
         FROM sdk_events WHERE merchant_id = 'pk_tenant_x' AND first_event = 1 \
         AND category = 'USER_EVENT' AND log_type = 'INFO' \
         AND event_name = 'DISPLAY_THREE_DS_SDK' AND value = 'C' \
         AND created_at >= toDateTime(1704067200) AND created_at <= toDateTime(1704070800) \
         GROUP BY time_bucket ORDER BY time_bucket"
    );
}

#[test]
fn tenant_key_needing_escape_never_reaches_the_pool() {
    let pool = RecordingPool::returning(vec![row(Some(1), None)]);
    let r = ChallengeFlowCount
        .load_metrics::<Clickhouse, RecordingPool>("merchant_1", "pk' OR '1'='1", None, &hour(), &pool);
    assert!(matches!(
        r,
        Err(MetricsError::QueryBuildingError(QueryBuildingError::UnrenderableFilter { filter: 0 }))
    ));
    assert_eq!(pool.calls.get(), 0);
}

#[test]
fn same_key_different_payload_keeps_both() {
    let rows = vec![
        RawRow {
            columns: vec![
                ("count".to_string(), RawValue::UInt(3)),
                ("time_bucket".to_string(), RawValue::Text("b1".to_string())),
            ],
        },
        RawRow {
            columns: vec![
                ("count".to_string(), RawValue::UInt(4)),
                ("time_bucket".to_string(), RawValue::Text("b1".to_string())),
            ],
        },
    ];
    let r = post_process(&rows).unwrap();
    assert_eq!(r.len(), 2);
    let set = as_set(r);
    assert!(set.contains(&entry(Some("b1"), Some(3))));
    assert!(set.contains(&entry(Some("b1"), Some(4))));
}

#[test]
fn identical_rows_fold_into_one_entry() {
    let rows = vec![row(Some(2), Some("b1")), row(Some(2), Some("b1")), row(Some(5), Some("b2"))];
    let r = post_process(&rows).unwrap();
    assert_eq!(r, vec![entry(Some("b1"), Some(2)), entry(Some("b2"), Some(5))]);
}

#[test]
fn distinct_keys_keep_every_row() {
    let rows: Vec<RawRow> = (0..10).map(|i| row(Some(i), Some(&format!("bucket-{i}")))).collect();
    let r = post_process(&rows).unwrap();
    assert_eq!(r.len(), 10);
    let keys: HashSet<_> = r.iter().map(|(k, _)| k.clone()).collect();
    assert_eq!(keys.len(), 10);
}

#[test]
fn executing_twice_gives_the_same_set() {
    let rows = vec![row(Some(1), Some("b1")), row(Some(2), Some("b2")), row(Some(1), Some("b1"))];
    let pool = RecordingPool::returning(rows);
    let first = ChallengeFlowCount
        .load_metrics::<Clickhouse, RecordingPool>("m", "pk_1", Some(Granularity::FiveMin), &hour(), &pool)
        .unwrap();
    let second = ChallengeFlowCount
        .load_metrics::<Clickhouse, RecordingPool>("m", "pk_1", Some(Granularity::FiveMin), &hour(), &pool)
        .unwrap();
    assert_eq!(as_set(first), as_set(second));
    let reordered = vec![row(Some(2), Some("b2")), row(Some(1), Some("b1"))];
    assert_eq!(as_set(post_process(&reordered).unwrap()), as_set(post_process(&pool.answer.clone().unwrap()).unwrap()));
}

#[test]
fn malformed_row_fails_the_whole_call() {
    let rows = vec![
        row(Some(1), Some("b1")),
        RawRow { columns: vec![("count".to_string(), RawValue::Text("many".to_string()))] },
        RawRow { columns: vec![("time_bucket".to_string(), RawValue::UInt(3))] },
    ];
    let pool = RecordingPool::returning(rows);
    let r = ChallengeFlowCount
        .load_metrics::<Clickhouse, RecordingPool>("m", "pk_1", None, &hour(), &pool);
    assert!(matches!(
        r,
        Err(MetricsError::PostProcessingFailure(PostProcessingError { row: 1, column: RowColumn::Count }))
    ));
}

#[test]
fn row_cells_are_read_by_shape() {
    let ok = RawRow {
        columns: vec![
            ("time_bucket".to_string(), RawValue::Null),
            ("count".to_string(), RawValue::Int(12)),
            ("other".to_string(), RawValue::Text("ignored".to_string())),
        ],
    };
    assert_eq!(
        AuthEventMetricRow::foreign_try_from(&ok),
        Ok(AuthEventMetricRow { count: Some(12), time_bucket: None })
    );
    let negative = RawRow { columns: vec![("count".to_string(), RawValue::Int(-1))] };
    let r: Result<AuthEventMetricRow, RowColumn> = (&negative).foreign_try_into();
    assert_eq!(r, Err(RowColumn::Count));
    let bad_bucket = RawRow { columns: vec![("time_bucket".to_string(), RawValue::Int(1))] };
    assert_eq!(AuthEventMetricRow::foreign_try_from(&bad_bucket), Err(RowColumn::TimeBucket));
    let repeated = RawRow {
        columns: vec![
            ("count".to_string(), RawValue::UInt(1)),
            ("count".to_string(), RawValue::UInt(2)),
        ],
    };
    assert_eq!(
        AuthEventMetricRow::foreign_try_from(&repeated),
        Ok(AuthEventMetricRow { count: Some(2), time_bucket: None })
    );
    assert!(matches!(repeated.get("count"), Some(RawValue::UInt(2))));
    assert!(repeated.get("missing").is_none());
}

#[test]
fn complete_metrics_keeps_the_stage_of_each_failure() {
    let r = complete_metrics(Err(ExecutionError { message: "timeout".to_string() }));
    match r {
        Err(MetricsError::QueryExecutionFailure(e)) => assert_eq!(e.message, "timeout"),
        other => panic!("unexpected outcome: {:?}", other),
    }
    let r = complete_metrics(Ok(vec![row(Some(1), None)])).unwrap();
    assert_eq!(r, vec![entry(None, Some(1))]);
}

#[test]
fn stage_errors_convert_into_their_metric_kind() {
    let e: MetricsError = ClauseError::EmptyColumn.foreign_into();
    assert!(matches!(e, MetricsError::ClauseError(ClauseError::EmptyColumn)));
    let e = MetricsError::foreign_from(QueryBuildingError::NoSelectColumns);
    assert!(matches!(e, MetricsError::QueryBuildingError(QueryBuildingError::NoSelectColumns)));
    let e = MetricsError::foreign_from(PostProcessingError { row: 2, column: RowColumn::TimeBucket });
    assert!(matches!(e, MetricsError::PostProcessingFailure(PostProcessingError { row: 2, .. })));
}

#[test]
fn metric_query_lists_its_clauses_in_order() {
    let b = ChallengeFlowCount.metric_query("pk_1", Some(Granularity::ThirtyMin), &hour());
    assert_eq!(b.select.len(), 2);
    assert_eq!(b.filters.len(), 8);
    let columns: Vec<&str> = b.filters.iter().map(|f| f.column.as_str()).collect();
    assert_eq!(
        columns,
        vec!["merchant_id", "first_event", "category", "log_type", "event_name", "value", "created_at", "created_at"]
    );
    assert_eq!(b.group_by, vec!["time_bucket".to_string()]);
}
