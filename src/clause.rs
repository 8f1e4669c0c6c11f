//! The pieces a query is declared with, and the parts of their rendering
//! that every backend shares.
use vstd::prelude::*;

use crate::sql::{is_identifier, is_identifier_text, opt_view};
use crate::time_range::{Granularity, Timestamp};

verus! {

/// The data collection a query reads.
#[derive(Clone, Copy, Debug, PartialEq, Eq, Structural, Hash)]
pub enum AnalyticsCollection {
    Payment,
    Refund,
    SdkEvents,
    SdkEventsAnalytics,
}

#[derive(Clone, Copy, Debug, PartialEq, Eq, Structural, Hash)]
pub enum AggregateFunction {
    Count,
    Sum,
    Min,
    Max,
    DistinctCount,
}

/// An aggregate over the selected rows. `field` may be absent only for a
/// count, which then counts rows.
#[derive(Clone, Debug)]
pub struct Aggregate {
    pub function: AggregateFunction,
    pub field: Option<String>,
    pub alias: Option<String>,
}

#[derive(Clone, Copy, Debug, PartialEq, Eq, Structural, Hash)]
pub enum WindowFunction {
    Sum,
    RowNumber,
}

#[derive(Clone, Copy, Debug, PartialEq, Eq, Structural, Hash)]
pub enum Order {
    Ascending,
    Descending,
}

/// An aggregate computed over a partition of the rows, keeping each row.
/// A sum takes a field; a row number takes none.
#[derive(Clone, Debug)]
pub struct Window {
    pub function: WindowFunction,
    pub field: Option<String>,
    pub partition_by: Option<String>,
    pub order_by: Option<(String, Order)>,
    pub alias: Option<String>,
}

/// One expression of the select list.
#[derive(Clone, Debug)]
pub enum SelectItem {
    Aggregate(Aggregate),
    Window(Window),
    /// The start of the time bucket each row falls in, named by the
    /// reserved bucket key.
    TimeBucket(Granularity),
}

#[derive(Clone, Copy, Debug, PartialEq, Eq, Structural, Hash)]
pub enum Comparison {
    Equal,
    NotEqual,
    Greater,
    GreaterOrEqual,
    Less,
    LessOrEqual,
    /// Membership in a list of text values.
    In,
}

#[derive(Clone, Debug)]
pub enum FilterValue {
    Text(String),
    Bool(bool),
    Int(i64),
    Timestamp(Timestamp),
    TextList(Vec<String>),
}

/// One predicate of the filter list; the predicates hold together.
#[derive(Clone, Debug)]
pub struct QueryFilter {
    pub column: String,
    pub comparison: Comparison,
    pub value: FilterValue,
}

/// The name under which the time bucket of a row is selected and grouped.
pub open spec fn reserved_bucket_key() -> Seq<char> {
    "time_bucket"@
}

pub fn bucket_key() -> (r: String)
    ensures
        r@ == reserved_bucket_key(),
{
    String::from_str("time_bucket")
}

pub open spec fn call_text(name: Seq<char>, arg: Seq<char>) -> Seq<char> {
    name + "("@ + arg + ")"@
}

/// What stands between the parentheses of an aggregate.
pub open spec fn aggregate_argument(a: Aggregate) -> Option<Seq<char>> {
    match a.field {
        None => if a.function is Count {
            Some("*"@)
        } else {
            None
        },
        Some(f) => if is_identifier(f@) {
            Some(f@)
        } else {
            None
        },
    }
}

/// The ` as name` that follows an expression with an alias.
pub open spec fn alias_suffix(alias: Option<String>) -> Option<Seq<char>> {
    match alias {
        None => Some(Seq::empty()),
        Some(a) => if is_identifier(a@) {
            Some(" as "@ + a@)
        } else {
            None
        },
    }
}

pub open spec fn window_head(w: Window) -> Option<Seq<char>> {
    match w.function {
        WindowFunction::Sum => match w.field {
            Some(f) => if is_identifier(f@) {
                Some(call_text("sum"@, f@))
            } else {
                None
            },
            None => None,
        },
        WindowFunction::RowNumber => match w.field {
            None => Some("row_number()"@),
            Some(_) => None,
        },
    }
}

pub open spec fn order_text(o: Order) -> Seq<char> {
    match o {
        Order::Ascending => " asc"@,
        Order::Descending => " desc"@,
    }
}

pub open spec fn window_partition(w: Window) -> Option<Seq<char>> {
    match w.partition_by {
        None => Some(Seq::empty()),
        Some(p) => if is_identifier(p@) {
            Some("partition by "@ + p@)
        } else {
            None
        },
    }
}

pub open spec fn window_order(w: Window) -> Option<Seq<char>> {
    match w.order_by {
        None => Some(Seq::empty()),
        Some((c, o)) => if is_identifier(c@) {
            Some("order by "@ + c@ + order_text(o))
        } else {
            None
        },
    }
}

/// A window in the form all supported backends read:
/// `head over (partition by p order by o dir) as alias`.
pub open spec fn window_text(w: Window) -> Option<Seq<char>> {
    match (window_head(w), window_partition(w), window_order(w), alias_suffix(w.alias)) {
        (Some(h), Some(p), Some(o), Some(s)) => {
            let over = if p.len() > 0 && o.len() > 0 {
                p + " "@ + o
            } else {
                p + o
            };
            Some(h + " over ("@ + over + ")"@ + s)
        },
        _ => None,
    }
}

pub fn render_call(name: &str, arg: &str, suffix: &str) -> (r: String)
    ensures
        r@ == call_text(name@, arg@) + suffix@,
{
    let mut out = String::from_str(name);
    out.append("(");
    out.append(arg);
    out.append(")");
    out.append(suffix);
    out
}

pub fn render_aggregate_argument(a: &Aggregate) -> (r: Option<String>)
    ensures
        opt_view(r) == aggregate_argument(*a),
{
    match &a.field {
        None => match a.function {
            AggregateFunction::Count => Some(String::from_str("*")),
            _ => None,
        },
        Some(f) => if is_identifier_text(f.as_str()) {
            Some(f.clone())
        } else {
            None
        },
    }
}

pub fn render_alias_suffix(alias: &Option<String>) -> (r: Option<String>)
    ensures
        opt_view(r) == alias_suffix(*alias),
{
    match alias {
        None => {
            let s = String::new();
            Some(s)
        },
        Some(a) => if is_identifier_text(a.as_str()) {
            let mut s = String::from_str(" as ");
            s.append(a.as_str());
            Some(s)
        } else {
            None
        },
    }
}

fn render_window_head(w: &Window) -> (r: Option<String>)
    ensures
        opt_view(r) == window_head(*w),
{
    proof {
        reveal_strlit("");
    }
    match w.function {
        WindowFunction::Sum => match &w.field {
            Some(f) => if is_identifier_text(f.as_str()) {
                Some(render_call("sum", f.as_str(), ""))
            } else {
                None
            },
            None => None,
        },
        WindowFunction::RowNumber => match &w.field {
            None => Some(String::from_str("row_number()")),
            Some(_) => None,
        },
    }
}

fn render_window_partition(w: &Window) -> (r: Option<String>)
    ensures
        opt_view(r) == window_partition(*w),
{
    match &w.partition_by {
        None => Some(String::new()),
        Some(p) => if is_identifier_text(p.as_str()) {
            let mut s = String::from_str("partition by ");
            s.append(p.as_str());
            Some(s)
        } else {
            None
        },
    }
}

fn render_window_order(w: &Window) -> (r: Option<String>)
    ensures
        opt_view(r) == window_order(*w),
{
    match &w.order_by {
        None => Some(String::new()),
        Some((c, o)) => if is_identifier_text(c.as_str()) {
            let mut s = String::from_str("order by ");
            s.append(c.as_str());
            match o {
                Order::Ascending => s.append(" asc"),
                Order::Descending => s.append(" desc"),
            }
            Some(s)
        } else {
            None
        },
    }
}

pub fn render_window_text(w: &Window) -> (r: Option<String>)
    ensures
        opt_view(r) == window_text(*w),
{
    let h = match render_window_head(w) {
        Some(h) => h,
        None => return None,
    };
    let p = match render_window_partition(w) {
        Some(p) => p,
        None => return None,
    };
    let o = match render_window_order(w) {
        Some(o) => o,
        None => return None,
    };
    let s = match render_alias_suffix(&w.alias) {
        Some(s) => s,
        None => return None,
    };
    let mut out = h;
    out.append(" over (");
    out.append(p.as_str());
    if p.unicode_len() > 0 && o.unicode_len() > 0 {
        out.append(" ");
    }
    out.append(o.as_str());
    out.append(")");
    out.append(s.as_str());
    proof {
        let over = if p@.len() > 0 && o@.len() > 0 {
            p@ + " "@ + o@
        } else {
            p@ + o@
        };
        assert(out@ =~= h@ + " over ("@ + over + ")"@ + s@);
    }
    Some(out)
}

} // verus!
