//! The rendering contract a backend fulfils, and the two backends this
//! library speaks to: a columnar warehouse and a row store.
use vstd::prelude::*;

use crate::clause::{
    aggregate_argument, alias_suffix, call_text, render_aggregate_argument, render_alias_suffix,
    render_call, render_window_text, window_text, Aggregate, AggregateFunction,
    AnalyticsCollection, Window,
};
use crate::sql::{append_decimal, decimal, opt_view, signed_decimal, render_signed};
use crate::time_range::{Granularity, Timestamp};

verus! {

/// How one backend writes each piece of a query. Each method renders its
/// piece or reports that it cannot (`None`); none drops a piece.
pub trait Backend {
    spec fn spec_collection(c: AnalyticsCollection) -> Seq<char>;

    fn render_collection(c: AnalyticsCollection) -> (r: String)
        ensures
            r@ == Self::spec_collection(c),
    ;

    /// The select expression of the time bucket, named by the reserved key.
    spec fn spec_time_bucket(g: Granularity) -> Seq<char>;

    fn render_time_bucket(g: Granularity) -> (r: String)
        ensures
            r@ == Self::spec_time_bucket(g),
    ;

    spec fn spec_timestamp(t: Timestamp) -> Seq<char>;

    fn render_timestamp(t: Timestamp) -> (r: String)
        ensures
            r@ == Self::spec_timestamp(t),
    ;

    spec fn spec_bool(b: bool) -> Seq<char>;

    fn render_bool(b: bool) -> (r: String)
        ensures
            r@ == Self::spec_bool(b),
    ;

    spec fn spec_aggregate(a: Aggregate) -> Option<Seq<char>>;

    fn render_aggregate(a: &Aggregate) -> (r: Option<String>)
        ensures
            opt_view(r) == Self::spec_aggregate(*a),
    ;

    /// An aggregate renders exactly when its argument and alias are well formed.
    proof fn lemma_aggregate_total(a: Aggregate)
        ensures
            Self::spec_aggregate(a) is Some <==> (aggregate_argument(a) is Some && alias_suffix(
                a.alias,
            ) is Some),
    ;

    spec fn spec_window(w: Window) -> Option<Seq<char>>;

    /// A window renders exactly when it has the shared window form.
    proof fn lemma_window_total(w: Window)
        ensures
            Self::spec_window(w) is Some <==> window_text(w) is Some,
    ;

    fn render_window(w: &Window) -> (r: Option<String>)
        ensures
            opt_view(r) == Self::spec_window(*w),
    ;
}

/// The columnar warehouse.
pub struct Clickhouse;

/// The row store.
pub struct Postgres;

pub open spec fn clickhouse_call(f: AggregateFunction, arg: Seq<char>) -> Seq<char> {
    match f {
        AggregateFunction::Count => call_text("count"@, arg),
        AggregateFunction::Sum => call_text("sum"@, arg),
        AggregateFunction::Min => call_text("min"@, arg),
        AggregateFunction::Max => call_text("max"@, arg),
        AggregateFunction::DistinctCount => call_text("uniqExact"@, arg),
    }
}

pub open spec fn postgres_call(f: AggregateFunction, arg: Seq<char>) -> Seq<char> {
    match f {
        AggregateFunction::Count => call_text("count"@, arg),
        AggregateFunction::Sum => call_text("sum"@, arg),
        AggregateFunction::Min => call_text("min"@, arg),
        AggregateFunction::Max => call_text("max"@, arg),
        AggregateFunction::DistinctCount => call_text("count"@, "distinct "@ + arg),
    }
}

impl Backend for Clickhouse {
    open spec fn spec_collection(c: AnalyticsCollection) -> Seq<char> {
        match c {
            AnalyticsCollection::Payment => "payment_attempts"@,
            AnalyticsCollection::Refund => "refunds"@,
            AnalyticsCollection::SdkEvents => "sdk_events_audit"@,
            AnalyticsCollection::SdkEventsAnalytics => "sdk_events"@,
        }
    }

    fn render_collection(c: AnalyticsCollection) -> (r: String) {
        match c {
            AnalyticsCollection::Payment => String::from_str("payment_attempts"),
            AnalyticsCollection::Refund => String::from_str("refunds"),
            AnalyticsCollection::SdkEvents => String::from_str("sdk_events_audit"),
            AnalyticsCollection::SdkEventsAnalytics => String::from_str("sdk_events"),
        }
    }

    open spec fn spec_time_bucket(g: Granularity) -> Seq<char> {
        "toStartOfInterval(created_at, INTERVAL "@ + decimal(g.spec_minutes())
            + " MINUTE) as time_bucket"@
    }

    fn render_time_bucket(g: Granularity) -> (r: String) {
        let mut out = String::from_str("toStartOfInterval(created_at, INTERVAL ");
        append_decimal(&mut out, g.minutes());
        out.append(" MINUTE) as time_bucket");
        out
    }

    open spec fn spec_timestamp(t: Timestamp) -> Seq<char> {
        call_text("toDateTime"@, signed_decimal(t.unix_seconds as int))
    }

    fn render_timestamp(t: Timestamp) -> (r: String) {
        proof {
            reveal_strlit("");
        }
        let secs = render_signed(t.unix_seconds);
        let r = render_call("toDateTime", secs.as_str(), "");
        assert(r@ =~= call_text("toDateTime"@, secs@));
        r
    }

    open spec fn spec_bool(b: bool) -> Seq<char> {
        if b {
            "1"@
        } else {
            "0"@
        }
    }

    fn render_bool(b: bool) -> (r: String) {
        if b {
            String::from_str("1")
        } else {
            String::from_str("0")
        }
    }

    open spec fn spec_aggregate(a: Aggregate) -> Option<Seq<char>> {
        match (aggregate_argument(a), alias_suffix(a.alias)) {
            (Some(arg), Some(s)) => Some(clickhouse_call(a.function, arg) + s),
            _ => None,
        }
    }

    fn render_aggregate(a: &Aggregate) -> (r: Option<String>) {
        let arg = match render_aggregate_argument(a) {
            Some(arg) => arg,
            None => return None,
        };
        let s = match render_alias_suffix(&a.alias) {
            Some(s) => s,
            None => return None,
        };
        let name = match a.function {
            AggregateFunction::Count => "count",
            AggregateFunction::Sum => "sum",
            AggregateFunction::Min => "min",
            AggregateFunction::Max => "max",
            AggregateFunction::DistinctCount => "uniqExact",
        };
        Some(render_call(name, arg.as_str(), s.as_str()))
    }

    open spec fn spec_window(w: Window) -> Option<Seq<char>> {
        window_text(w)
    }

    proof fn lemma_aggregate_total(a: Aggregate) {
    }

    proof fn lemma_window_total(w: Window) {
    }

    fn render_window(w: &Window) -> (r: Option<String>) {
        render_window_text(w)
    }
}

impl Backend for Postgres {
    open spec fn spec_collection(c: AnalyticsCollection) -> Seq<char> {
        match c {
            AnalyticsCollection::Payment => "payment_attempt"@,
            AnalyticsCollection::Refund => "refund"@,
            AnalyticsCollection::SdkEvents => "sdk_events"@,
            AnalyticsCollection::SdkEventsAnalytics => "sdk_events"@,
        }
    }

    fn render_collection(c: AnalyticsCollection) -> (r: String) {
        match c {
            AnalyticsCollection::Payment => String::from_str("payment_attempt"),
            AnalyticsCollection::Refund => String::from_str("refund"),
            AnalyticsCollection::SdkEvents => String::from_str("sdk_events"),
            AnalyticsCollection::SdkEventsAnalytics => String::from_str("sdk_events"),
        }
    }

    open spec fn spec_time_bucket(g: Granularity) -> Seq<char> {
        "date_bin('"@ + decimal(g.spec_minutes())
            + " minutes', created_at, TIMESTAMP '1970-01-01') as time_bucket"@
    }

    fn render_time_bucket(g: Granularity) -> (r: String) {
        let mut out = String::from_str("date_bin('");
        append_decimal(&mut out, g.minutes());
        out.append(" minutes', created_at, TIMESTAMP '1970-01-01') as time_bucket");
        out
    }

    open spec fn spec_timestamp(t: Timestamp) -> Seq<char> {
        call_text("to_timestamp"@, signed_decimal(t.unix_seconds as int))
    }

    fn render_timestamp(t: Timestamp) -> (r: String) {
        proof {
            reveal_strlit("");
        }
        let secs = render_signed(t.unix_seconds);
        let r = render_call("to_timestamp", secs.as_str(), "");
        assert(r@ =~= call_text("to_timestamp"@, secs@));
        r
    }

    open spec fn spec_bool(b: bool) -> Seq<char> {
        if b {
            "true"@
        } else {
            "false"@
        }
    }

    fn render_bool(b: bool) -> (r: String) {
        if b {
            String::from_str("true")
        } else {
            String::from_str("false")
        }
    }

    open spec fn spec_aggregate(a: Aggregate) -> Option<Seq<char>> {
        match (aggregate_argument(a), alias_suffix(a.alias)) {
            (Some(arg), Some(s)) => Some(postgres_call(a.function, arg) + s),
            _ => None,
        }
    }

    fn render_aggregate(a: &Aggregate) -> (r: Option<String>) {
        let arg = match render_aggregate_argument(a) {
            Some(arg) => arg,
            None => return None,
        };
        let s = match render_alias_suffix(&a.alias) {
            Some(s) => s,
            None => return None,
        };
        match a.function {
            AggregateFunction::DistinctCount => {
                let mut inner = String::from_str("distinct ");
                inner.append(arg.as_str());
                Some(render_call("count", inner.as_str(), s.as_str()))
            },
            _ => {
                let name = match a.function {
                    AggregateFunction::Count => "count",
                    AggregateFunction::Sum => "sum",
                    AggregateFunction::Min => "min",
                    _ => "max",
                };
                Some(render_call(name, arg.as_str(), s.as_str()))
            },
        }
    }

    open spec fn spec_window(w: Window) -> Option<Seq<char>> {
        window_text(w)
    }

    proof fn lemma_aggregate_total(a: Aggregate) {
    }

    proof fn lemma_window_total(w: Window) {
    }

    fn render_window(w: &Window) -> (r: Option<String>) {
        render_window_text(w)
    }
}

} // verus!
