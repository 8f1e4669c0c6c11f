use analytics::backend::{Backend, Clickhouse, Postgres};
use analytics::clause::{
    Aggregate, AggregateFunction, AnalyticsCollection, Comparison, FilterValue, Order, Window,
    WindowFunction,
};
use analytics::errors::{ClauseError, ExecutionError, MetricsError, QueryBuildingError};
use analytics::query::{AnalyticsDataSource, CompiledQuery, QueryBuilder};
use analytics::rows::RawRow;
use analytics::time_range::{Granularity, TimeRange, Timestamp};
use std::cell::Cell;

fn count(alias: Option<&str>) -> Aggregate {
    Aggregate {
        function: AggregateFunction::Count,
        field: None,
        alias: alias.map(|a| a.to_string()),
    }
}

fn agg(function: AggregateFunction, field: &str, alias: Option<&str>) -> Aggregate {
    Aggregate {
        function,
        field: Some(field.to_string()),
        alias: alias.map(|a| a.to_string()),
    }
}

struct CountingPool {
    calls: Cell<usize>,
}

impl AnalyticsDataSource for CountingPool {
    fn load_results(&self, _query: &CompiledQuery) -> Result<Vec<RawRow>, ExecutionError> {
        self.calls.set(self.calls.get() + 1);
        Ok(Vec::new())
    }
}

#[test]
fn new_builder_is_empty() {
    let b = QueryBuilder::new(AnalyticsCollection::Payment);
    assert_eq!(b.collection, AnalyticsCollection::Payment);
    assert!(b.select.is_empty());
    assert!(b.filters.is_empty());
    assert!(b.group_by.is_empty());
}

#[test]
fn duplicate_alias_is_a_clause_error() {
    let mut b = QueryBuilder::new(AnalyticsCollection::Payment);
    assert!(b.add_select_column(count(Some("total"))).is_ok());
    assert!(b.add_select_column(agg(AggregateFunction::Sum, "amount", Some("sum_amount"))).is_ok());
    let r = b.add_select_column(agg(AggregateFunction::Max, "amount", Some("total")));
    assert_eq!(r, Err(ClauseError::DuplicateAlias { existing: 0 }));
    assert_eq!(b.select.len(), 2);
}

#[test]
fn expressions_without_alias_never_collide() {
    let mut b = QueryBuilder::new(AnalyticsCollection::Payment);
    assert!(b.add_select_column(count(None)).is_ok());
    assert!(b.add_select_column(count(None)).is_ok());
    assert_eq!(b.select.len(), 2);
}

#[test]
fn granularity_twice_is_a_duplicate_alias() {
    let mut b = QueryBuilder::new(AnalyticsCollection::Payment);
    assert!(b.add_select_column(count(Some("count"))).is_ok());
    assert!(b.add_granularity_in_mins(Granularity::OneHour).is_ok());
    assert_eq!(b.group_by, vec!["time_bucket".to_string()]);
    let r = b.add_granularity_in_mins(Granularity::OneDay);
    assert_eq!(r, Err(ClauseError::DuplicateAlias { existing: 1 }));
    assert_eq!(b.group_by.len(), 1);
}

#[test]
fn empty_column_is_a_clause_error() {
    let mut b = QueryBuilder::new(AnalyticsCollection::Payment);
    assert_eq!(b.add_filter_clause("", "x"), Err(ClauseError::EmptyColumn));
    assert_eq!(b.add_bool_filter_clause("", true), Err(ClauseError::EmptyColumn));
    assert_eq!(b.add_group_by_clause(""), Err(ClauseError::EmptyColumn));
    assert_eq!(
        b.add_filter_in_range_clause("", vec!["a".to_string()]),
        Err(ClauseError::EmptyColumn)
    );
    assert!(b.filters.is_empty());
    assert!(b.group_by.is_empty());
}

#[test]
fn no_select_columns_fails_before_execution() {
    let mut b = QueryBuilder::new(AnalyticsCollection::Refund);
    b.add_filter_clause("merchant_id", "m1").unwrap();
    assert_eq!(b.build_query::<Clickhouse>().unwrap_err(), QueryBuildingError::NoSelectColumns);
    let pool = CountingPool { calls: Cell::new(0) };
    let r = b.execute_query::<Clickhouse, CountingPool>(&pool);
    assert!(matches!(
        r,
        Err(MetricsError::QueryBuildingError(QueryBuildingError::NoSelectColumns))
    ));
    assert_eq!(pool.calls.get(), 0);
}

#[test]
fn compiled_query_reaches_the_pool_once() {
    let mut b = QueryBuilder::new(AnalyticsCollection::Refund);
    b.add_select_column(count(Some("count"))).unwrap();
    let pool = CountingPool { calls: Cell::new(0) };
    let r = b.execute_query::<Clickhouse, CountingPool>(&pool);
    assert_eq!(r.unwrap().len(), 0);
    assert_eq!(pool.calls.get(), 1);
}

#[test]
fn clause_order_is_select_from_where_group_order() {
    let mut b = QueryBuilder::new(AnalyticsCollection::Payment);
    b.add_select_column(count(Some("count"))).unwrap();
    b.add_select_column(agg(AggregateFunction::Sum, "amount", Some("total"))).unwrap();
    b.add_filter_clause("merchant_id", "m1").unwrap();
    b.add_bool_filter_clause("first_attempt", true).unwrap();
    b.add_group_by_clause("currency").unwrap();
    b.add_group_by_clause("status").unwrap();
    let q = b.build_query::<Clickhouse>().unwrap();
    assert_eq!(q.select, vec!["count(*) as count".to_string(), "sum(amount) as total".to_string()]);
    assert_eq!(q.collection, "payment_attempts");
    assert_eq!(q.filters, vec!["merchant_id = 'm1'".to_string(), "first_attempt = 1".to_string()]);
    assert_eq!(
        q.to_sql(),
        "SELECT count(*) as count, sum(amount) as total FROM payment_attempts \
         WHERE merchant_id = 'm1' AND first_attempt = 1 \
         GROUP BY currency, status ORDER BY currency, status"
    );
}

#[test]
fn query_without_filters_or_groups() {
    let mut b = QueryBuilder::new(AnalyticsCollection::Refund);
    b.add_select_column(agg(AggregateFunction::Min, "amount", None)).unwrap();
    let q = b.build_query::<Postgres>().unwrap();
    assert_eq!(q.to_sql(), "SELECT min(amount) FROM refund");
}

#[test]
fn backends_differ_where_their_dialects_do() {
    let mut b = QueryBuilder::new(AnalyticsCollection::Payment);
    b.add_select_column(agg(AggregateFunction::DistinctCount, "customer_id", Some("customers")))
        .unwrap();
    b.add_granularity_in_mins(Granularity::FifteenMin).unwrap();
    b.add_bool_filter_clause("first_attempt", false).unwrap();
    let range = TimeRange {
        start_time: Timestamp { unix_seconds: 1_704_067_200 },
        end_time: None,
    };
    range.set_filter_clause(&mut b);
    let ch = b.build_query::<Clickhouse>().unwrap();
    assert_eq!(
        ch.select,
        vec![
            "uniqExact(customer_id) as customers".to_string(),
            "toStartOfInterval(created_at, INTERVAL 15 MINUTE) as time_bucket".to_string(),
        ]
    );
    assert_eq!(
        ch.filters,
        vec![
            "first_attempt = 0".to_string(),
            "created_at >= toDateTime(1704067200)".to_string(),
        ]
    );
    let pg = b.build_query::<Postgres>().unwrap();
    assert_eq!(
        pg.select,
        vec![
            "count(distinct customer_id) as customers".to_string(),
            "date_bin('15 minutes', created_at, TIMESTAMP '1970-01-01') as time_bucket".to_string(),
        ]
    );
    assert_eq!(
        pg.filters,
        vec![
            "first_attempt = false".to_string(),
            "created_at >= to_timestamp(1704067200)".to_string(),
        ]
    );
    assert_eq!(pg.group_by, vec!["time_bucket".to_string()]);
}

#[test]
fn time_range_with_end_adds_two_filters() {
    let mut b = QueryBuilder::new(AnalyticsCollection::Payment);
    let range = TimeRange {
        start_time: Timestamp { unix_seconds: -5 },
        end_time: Some(Timestamp { unix_seconds: 3600 }),
    };
    range.set_filter_clause(&mut b);
    assert_eq!(b.filters.len(), 2);
    assert_eq!(b.filters[0].comparison, Comparison::GreaterOrEqual);
    assert_eq!(b.filters[1].comparison, Comparison::LessOrEqual);
    b.add_select_column(count(None)).unwrap();
    let q = b.build_query::<Postgres>().unwrap();
    assert_eq!(
        q.filters,
        vec![
            "created_at >= to_timestamp(-5)".to_string(),
            "created_at <= to_timestamp(3600)".to_string(),
        ]
    );
}

#[test]
fn custom_filters_render_every_comparison() {
    let mut b = QueryBuilder::new(AnalyticsCollection::Payment);
    b.add_select_column(count(None)).unwrap();
    b.add_custom_filter_clause("amount", FilterValue::Int(100), Comparison::Greater).unwrap();
    b.add_custom_filter_clause("amount", FilterValue::Int(-7), Comparison::Less).unwrap();
    b.add_custom_filter_clause("status", FilterValue::Text("failed".to_string()), Comparison::NotEqual)
        .unwrap();
    b.add_custom_filter_clause("retries", FilterValue::Int(0), Comparison::GreaterOrEqual).unwrap();
    b.add_custom_filter_clause("retries", FilterValue::Int(9), Comparison::LessOrEqual).unwrap();
    b.add_filter_in_range_clause("currency", vec!["USD".to_string(), "EUR".to_string()]).unwrap();
    let q = b.build_query::<Clickhouse>().unwrap();
    assert_eq!(
        q.filters,
        vec![
            "amount > 100".to_string(),
            "amount < -7".to_string(),
            "status != 'failed'".to_string(),
            "retries >= 0".to_string(),
            "retries <= 9".to_string(),
            "currency IN ('USD', 'EUR')".to_string(),
        ]
    );
}

#[test]
fn text_needing_escape_is_unrenderable() {
    let mut b = QueryBuilder::new(AnalyticsCollection::Payment);
    b.add_select_column(count(None)).unwrap();
    b.add_filter_clause("merchant_id", "m1").unwrap();
    b.add_filter_clause("status", "x' OR '1'='1").unwrap();
    assert_eq!(
        b.build_query::<Clickhouse>().unwrap_err(),
        QueryBuildingError::UnrenderableFilter { filter: 1 }
    );
}

#[test]
fn membership_needs_a_non_empty_safe_list() {
    let mut b = QueryBuilder::new(AnalyticsCollection::Payment);
    b.add_select_column(count(None)).unwrap();
    b.add_filter_in_range_clause("currency", Vec::new()).unwrap();
    assert_eq!(
        b.build_query::<Postgres>().unwrap_err(),
        QueryBuildingError::UnrenderableFilter { filter: 0 }
    );
    let mut b = QueryBuilder::new(AnalyticsCollection::Payment);
    b.add_select_column(count(None)).unwrap();
    b.add_custom_filter_clause("currency", FilterValue::Text("USD".to_string()), Comparison::In)
        .unwrap();
    assert_eq!(
        b.build_query::<Postgres>().unwrap_err(),
        QueryBuildingError::UnrenderableFilter { filter: 0 }
    );
}

#[test]
fn reserved_bucket_key_in_a_select_expression_fails() {
    let mut b = QueryBuilder::new(AnalyticsCollection::Payment);
    b.add_select_column(count(Some("count"))).unwrap();
    b.add_select_column(agg(AggregateFunction::Max, "time_bucket", None)).unwrap();
    assert_eq!(
        b.build_query::<Clickhouse>().unwrap_err(),
        QueryBuildingError::ReservedName { select: 1 }
    );
}

#[test]
fn reserved_check_comes_before_rendering() {
    let mut b = QueryBuilder::new(AnalyticsCollection::Payment);
    b.add_select_column(agg(AggregateFunction::Sum, "bad name", None)).unwrap();
    b.add_select_column(count(Some("time_bucket"))).unwrap();
    assert_eq!(
        b.build_query::<Clickhouse>().unwrap_err(),
        QueryBuildingError::ReservedName { select: 1 }
    );
}

#[test]
fn malformed_select_is_unrenderable() {
    let mut b = QueryBuilder::new(AnalyticsCollection::Payment);
    b.add_select_column(count(None)).unwrap();
    b.add_select_column(Aggregate {
        function: AggregateFunction::Sum,
        field: None,
        alias: None,
    })
    .unwrap();
    assert_eq!(
        b.build_query::<Postgres>().unwrap_err(),
        QueryBuildingError::UnrenderableSelect { select: 1 }
    );
}

#[test]
fn malformed_group_key_is_unrenderable() {
    let mut b = QueryBuilder::new(AnalyticsCollection::Payment);
    b.add_select_column(count(None)).unwrap();
    b.add_group_by_clause("status").unwrap();
    b.add_group_by_clause("a;b").unwrap();
    assert_eq!(
        b.build_query::<Clickhouse>().unwrap_err(),
        QueryBuildingError::UnrenderableGroupBy { group_by: 1 }
    );
}

#[test]
fn window_expressions_render() {
    let mut b = QueryBuilder::new(AnalyticsCollection::Payment);
    b.add_window_column(Window {
        function: WindowFunction::Sum,
        field: Some("amount".to_string()),
        partition_by: Some("merchant_id".to_string()),
        order_by: Some(("created_at".to_string(), Order::Descending)),
        alias: Some("running".to_string()),
    })
    .unwrap();
    b.add_window_column(Window {
        function: WindowFunction::RowNumber,
        field: None,
        partition_by: None,
        order_by: Some(("amount".to_string(), Order::Ascending)),
        alias: Some("rank".to_string()),
    })
    .unwrap();
    let q = b.build_query::<Clickhouse>().unwrap();
    assert_eq!(
        q.select,
        vec![
            "sum(amount) over (partition by merchant_id order by created_at desc) as running"
                .to_string(),
            "row_number() over (order by amount asc) as rank".to_string(),
        ]
    );
    let dup = b.add_window_column(Window {
        function: WindowFunction::RowNumber,
        field: None,
        partition_by: None,
        order_by: None,
        alias: Some("rank".to_string()),
    });
    assert_eq!(dup, Err(ClauseError::DuplicateAlias { existing: 1 }));
}

#[test]
fn row_number_with_a_field_is_unrenderable() {
    let mut b = QueryBuilder::new(AnalyticsCollection::Payment);
    b.add_window_column(Window {
        function: WindowFunction::RowNumber,
        field: Some("amount".to_string()),
        partition_by: None,
        order_by: None,
        alias: None,
    })
    .unwrap();
    assert_eq!(
        b.build_query::<Postgres>().unwrap_err(),
        QueryBuildingError::UnrenderableSelect { select: 0 }
    );
}

#[test]
fn granularity_widths_in_minutes() {
    assert_eq!(Granularity::OneMin.minutes(), 1);
    assert_eq!(Granularity::FiveMin.minutes(), 5);
    assert_eq!(Granularity::FifteenMin.minutes(), 15);
    assert_eq!(Granularity::ThirtyMin.minutes(), 30);
    assert_eq!(Granularity::OneHour.minutes(), 60);
    assert_eq!(Granularity::OneDay.minutes(), 1440);
    assert_eq!(
        Clickhouse::render_time_bucket(Granularity::OneDay),
        "toStartOfInterval(created_at, INTERVAL 1440 MINUTE) as time_bucket"
    );
}

#[test]
fn timestamps_render_at_the_extremes() {
    assert_eq!(
        Clickhouse::render_timestamp(Timestamp { unix_seconds: i64::MIN }),
        "toDateTime(-9223372036854775808)"
    );
    assert_eq!(
        Postgres::render_timestamp(Timestamp { unix_seconds: i64::MAX }),
        "to_timestamp(9223372036854775807)"
    );
    assert_eq!(Postgres::render_timestamp(Timestamp { unix_seconds: 0 }), "to_timestamp(0)");
}

#[test]
fn collections_have_backend_names() {
    assert_eq!(Clickhouse::render_collection(AnalyticsCollection::SdkEvents), "sdk_events_audit");
    assert_eq!(Clickhouse::render_collection(AnalyticsCollection::Refund), "refunds");
    assert_eq!(Postgres::render_collection(AnalyticsCollection::Payment), "payment_attempt");
    assert_eq!(Postgres::render_collection(AnalyticsCollection::SdkEventsAnalytics), "sdk_events");
}

#[test]
fn build_errors_describe_the_failing_clause() {
    assert_eq!(QueryBuildingError::NoSelectColumns.describe(), "no select expression was added");
    assert_eq!(
        QueryBuildingError::ReservedName { select: 0 }.describe(),
        "select expression 0 names the reserved bucket key"
    );
    assert_eq!(
        QueryBuildingError::UnrenderableSelect { select: 105 }.describe(),
        "select expression 105 cannot be rendered for this backend"
    );
    assert_eq!(
        QueryBuildingError::UnrenderableFilter { filter: 12 }.describe(),
        "filter 12 cannot be rendered for this backend"
    );
    assert_eq!(
        QueryBuildingError::UnrenderableGroupBy { group_by: 3 }.describe(),
        "grouping key 3 cannot be rendered for this backend"
    );
}
