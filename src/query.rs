//! The query builder: clauses are added declaratively, then compiled for
//! one backend, in a fixed clause order, into an executable query.
use vstd::prelude::*;

use crate::backend::Backend;
use crate::clause::{
    bucket_key, reserved_bucket_key, Aggregate, AnalyticsCollection, Comparison, FilterValue,
    QueryFilter, SelectItem, Window,
};
use crate::errors::{ClauseError, ExecutionError, MetricsError, QueryBuildingError};
use crate::rows::RawRow;
use crate::sql::{
    is_identifier, is_identifier_text, is_literal_safe, join, join_strings, opt_view, quote_text,
    quoted, render_signed, signed_decimal, text_eq, views,
};
use crate::time_range::{Granularity, TimeRange, Timestamp};
use crate::transformers::ForeignFrom;

verus! {

/// The name a select expression's output column goes by, if any.
pub open spec fn select_alias(s: SelectItem) -> Option<Seq<char>> {
    match s {
        SelectItem::Aggregate(a) => opt_view(a.alias),
        SelectItem::Window(w) => opt_view(w.alias),
        SelectItem::TimeBucket(_) => Some(reserved_bucket_key()),
    }
}

pub open spec fn names_bucket_key(o: Option<String>) -> bool {
    opt_view(o) == Some(reserved_bucket_key())
}

/// A select expression of the caller's that names the reserved bucket key.
pub open spec fn references_reserved(s: SelectItem) -> bool {
    match s {
        SelectItem::Aggregate(a) => names_bucket_key(a.field) || names_bucket_key(a.alias),
        SelectItem::Window(w) => names_bucket_key(w.field) || names_bucket_key(w.alias)
            || names_bucket_key(w.partition_by) || match w.order_by {
            Some((c, _)) => c@ == reserved_bucket_key(),
            None => false,
        },
        SelectItem::TimeBucket(_) => false,
    }
}

pub open spec fn spec_select<B: Backend>(s: SelectItem) -> Option<Seq<char>> {
    match s {
        SelectItem::Aggregate(a) => B::spec_aggregate(a),
        SelectItem::Window(w) => B::spec_window(w),
        SelectItem::TimeBucket(g) => Some(B::spec_time_bucket(g)),
    }
}

pub open spec fn comparison_text(c: Comparison) -> Seq<char> {
    match c {
        Comparison::Equal => "="@,
        Comparison::NotEqual => "!="@,
        Comparison::Greater => ">"@,
        Comparison::GreaterOrEqual => ">="@,
        Comparison::Less => "<"@,
        Comparison::LessOrEqual => "<="@,
        Comparison::In => "IN"@,
    }
}

pub open spec fn quoted_list(items: Seq<Seq<char>>) -> Seq<char> {
    "("@ + join(items.map_values(|s: Seq<char>| quoted(s)), ", "@) + ")"@
}

pub open spec fn spec_value<B: Backend>(v: FilterValue) -> Option<Seq<char>> {
    match v {
        FilterValue::Text(s) => if is_literal_safe(s@) {
            Some(quoted(s@))
        } else {
            None
        },
        FilterValue::Bool(b) => Some(B::spec_bool(b)),
        FilterValue::Int(n) => Some(signed_decimal(n as int)),
        FilterValue::Timestamp(t) => Some(B::spec_timestamp(t)),
        FilterValue::TextList(l) => if l@.len() > 0 && forall|i: int|
            0 <= i < l@.len() ==> is_literal_safe(#[trigger] l@[i]@) {
            Some(quoted_list(views(l@)))
        } else {
            None
        },
    }
}

/// `column op value`; membership goes with a list and only with a list.
pub open spec fn spec_filter<B: Backend>(f: QueryFilter) -> Option<Seq<char>> {
    if !is_identifier(f.column@) || ((f.comparison == Comparison::In) != (
    f.value is TextList)) {
        None
    } else {
        match spec_value::<B>(f.value) {
            Some(v) => Some(f.column@ + " "@ + comparison_text(f.comparison) + " "@ + v),
            None => None,
        }
    }
}

pub open spec fn spec_group_key(c: String) -> Option<Seq<char>> {
    if is_identifier(c@) {
        Some(c@)
    } else {
        None
    }
}

/// `k` is the first position of `s` where `p` holds.
pub open spec fn first_with<T>(s: Seq<T>, p: spec_fn(T) -> bool, k: int) -> bool {
    0 <= k < s.len() && p(s[k]) && forall|j: int| 0 <= j < k ==> !p(#[trigger] s[j])
}

/// A compiled query as text pieces, before they are put together.
pub struct CompiledQueryView {
    pub select: Seq<Seq<char>>,
    pub collection: Seq<char>,
    pub filters: Seq<Seq<char>>,
    pub group_by: Seq<Seq<char>>,
}

/// `SELECT s FROM c [WHERE f AND ...] [GROUP BY g ORDER BY g]`.
pub open spec fn query_text(q: CompiledQueryView) -> Seq<char> {
    "SELECT "@ + join(q.select, ", "@) + " FROM "@ + q.collection + (if q.filters.len() > 0 {
        " WHERE "@ + join(q.filters, " AND "@)
    } else {
        Seq::empty()
    }) + (if q.group_by.len() > 0 {
        " GROUP BY "@ + join(q.group_by, ", "@) + " ORDER BY "@ + join(q.group_by, ", "@)
    } else {
        Seq::empty()
    })
}

/// A query rendered for one backend. The execution stage hands it to the
/// backend as it is.
#[derive(Clone, Debug)]
pub struct CompiledQuery {
    pub select: Vec<String>,
    pub collection: String,
    pub filters: Vec<String>,
    pub group_by: Vec<String>,
}

impl View for CompiledQuery {
    type V = CompiledQueryView;

    open spec fn view(&self) -> CompiledQueryView {
        CompiledQueryView {
            select: views(self.select@),
            collection: self.collection@,
            filters: views(self.filters@),
            group_by: views(self.group_by@),
        }
    }
}

impl CompiledQuery {
    /// The whole query as one text, grouped output ordered by its keys.
    pub fn to_sql(&self) -> (r: String)
        ensures
            r@ == query_text(self@),
    {
        let mut out = String::from_str("SELECT ");
        let s = join_strings(&self.select, ", ");
        out.append(s.as_str());
        out.append(" FROM ");
        out.append(self.collection.as_str());
        if self.filters.len() > 0 {
            out.append(" WHERE ");
            let f = join_strings(&self.filters, " AND ");
            out.append(f.as_str());
        }
        if self.group_by.len() > 0 {
            let g = join_strings(&self.group_by, ", ");
            out.append(" GROUP BY ");
            out.append(g.as_str());
            out.append(" ORDER BY ");
            out.append(g.as_str());
        }
        assert(out@ =~= query_text(self@));
        out
    }
}

/// Runs a compiled query. Implemented by each backend connection.
pub trait AnalyticsDataSource {
    fn load_results(&self, query: &CompiledQuery) -> Result<Vec<RawRow>, ExecutionError>;
}

/// The clauses of one query against one collection, in the order they
/// were added.
#[derive(Clone, Debug)]
pub struct QueryBuilder {
    pub collection: AnalyticsCollection,
    pub select: Vec<SelectItem>,
    pub filters: Vec<QueryFilter>,
    pub group_by: Vec<String>,
}

fn same_name(a: &Option<String>, b: &Option<String>) -> (r: bool)
    ensures
        r == (opt_view(*a) is Some && opt_view(*a) == opt_view(*b)),
{
    match (a, b) {
        (Some(x), Some(y)) => text_eq(x.as_str(), y.as_str()),
        _ => false,
    }
}

fn item_alias(s: &SelectItem) -> (r: Option<String>)
    ensures
        opt_view(r) == select_alias(*s),
{
    match s {
        SelectItem::Aggregate(a) => match &a.alias {
            Some(x) => Some(x.clone()),
            None => None,
        },
        SelectItem::Window(w) => match &w.alias {
            Some(x) => Some(x.clone()),
            None => None,
        },
        SelectItem::TimeBucket(_) => Some(bucket_key()),
    }
}

fn item_references_reserved(s: &SelectItem) -> (r: bool)
    ensures
        r == references_reserved(*s),
{
    let key = Some(bucket_key());
    match s {
        SelectItem::Aggregate(a) => same_name(&a.field, &key) || same_name(&a.alias, &key),
        SelectItem::Window(w) => {
            let in_order = match &w.order_by {
                Some((c, _)) => text_eq(c.as_str(), "time_bucket"),
                None => false,
            };
            proof {
                reveal_strlit("time_bucket");
            }
            same_name(&w.field, &key) || same_name(&w.alias, &key) || same_name(
                &w.partition_by,
                &key,
            ) || in_order
        },
        SelectItem::TimeBucket(_) => false,
    }
}

fn render_select<B: Backend>(s: &SelectItem) -> (r: Option<String>)
    ensures
        opt_view(r) == spec_select::<B>(*s),
{
    match s {
        SelectItem::Aggregate(a) => B::render_aggregate(a),
        SelectItem::Window(w) => B::render_window(w),
        SelectItem::TimeBucket(g) => Some(B::render_time_bucket(*g)),
    }
}

fn render_list(l: &Vec<String>) -> (r: Option<String>)
    ensures
        r is Some <==> (l@.len() > 0 && forall|i: int|
            0 <= i < l@.len() ==> is_literal_safe(#[trigger] l@[i]@)),
        r is Some ==> r->0@ == quoted_list(views(l@)),
{
    if l.len() == 0 {
        return None;
    }
    let mut items: Vec<String> = Vec::new();
    let mut i: usize = 0;
    while i < l.len()
        invariant
            i <= l@.len(),
            items@.len() == i,
            forall|k: int| 0 <= k < i ==> is_literal_safe(#[trigger] l@[k]@),
            forall|k: int| 0 <= k < i ==> (#[trigger] items@[k])@ == quoted(l@[k]@),
        decreases l.len() - i,
    {
        match quote_text(l[i].as_str()) {
            Some(q) => items.push(q),
            None => return None,
        }
        i += 1;
    }
    let body = join_strings(&items, ", ");
    assert(views(items@) =~= views(l@).map_values(|s: Seq<char>| quoted(s)));
    let mut out = String::from_str("(");
    out.append(body.as_str());
    out.append(")");
    Some(out)
}

fn render_value<B: Backend>(v: &FilterValue) -> (r: Option<String>)
    ensures
        opt_view(r) == spec_value::<B>(*v),
{
    match v {
        FilterValue::Text(s) => quote_text(s.as_str()),
        FilterValue::Bool(b) => Some(B::render_bool(*b)),
        FilterValue::Int(n) => Some(render_signed(*n)),
        FilterValue::Timestamp(t) => Some(B::render_timestamp(*t)),
        FilterValue::TextList(l) => render_list(l),
    }
}

fn render_filter<B: Backend>(f: &QueryFilter) -> (r: Option<String>)
    ensures
        opt_view(r) == spec_filter::<B>(*f),
{
    if !is_identifier_text(f.column.as_str()) {
        return None;
    }
    let is_in = match f.comparison {
        Comparison::In => true,
        _ => false,
    };
    let is_list = match &f.value {
        FilterValue::TextList(_) => true,
        _ => false,
    };
    if is_in != is_list {
        return None;
    }
    let v = match render_value::<B>(&f.value) {
        Some(v) => v,
        None => return None,
    };
    let mut out = f.column.clone();
    out.append(" ");
    match f.comparison {
        Comparison::Equal => out.append("="),
        Comparison::NotEqual => out.append("!="),
        Comparison::Greater => out.append(">"),
        Comparison::GreaterOrEqual => out.append(">="),
        Comparison::Less => out.append("<"),
        Comparison::LessOrEqual => out.append("<="),
        Comparison::In => out.append("IN"),
    }
    out.append(" ");
    out.append(v.as_str());
    Some(out)
}

impl QueryBuilder {
    /// Aliases are unique, and filter and grouping columns are named.
    pub open spec fn wf(self) -> bool {
        &&& forall|i: int, j: int|
            0 <= i < j < self.select@.len() && (#[trigger] select_alias(self.select@[i])) is Some
                ==> select_alias(self.select@[i]) != #[trigger] select_alias(self.select@[j])
        &&& forall|i: int| 0 <= i < self.filters@.len() ==> (#[trigger] self.filters@[i]).column@.len() > 0
        &&& forall|i: int| 0 <= i < self.group_by@.len() ==> (#[trigger] self.group_by@[i])@.len() > 0
    }

    /// The select expression already registered under `alias`, first one first.
    pub open spec fn alias_owner(self, alias: Option<Seq<char>>, k: int) -> bool {
        alias is Some && first_with(self.select@, |s: SelectItem| select_alias(s) == alias, k)
    }

    pub open spec fn alias_taken(self, alias: Option<Seq<char>>) -> bool {
        alias is Some && exists|k: int|
            0 <= k < self.select@.len() && select_alias(#[trigger] self.select@[k]) == alias
    }

    pub open spec fn has_reserved(self) -> bool {
        exists|i: int| 0 <= i < self.select@.len() && references_reserved(#[trigger] self.select@[i])
    }

    pub open spec fn selects_render<B: Backend>(self) -> bool {
        forall|i: int| 0 <= i < self.select@.len() ==> (#[trigger] spec_select::<B>(self.select@[i])) is Some
    }

    pub open spec fn filters_render<B: Backend>(self) -> bool {
        forall|i: int| 0 <= i < self.filters@.len() ==> (#[trigger] spec_filter::<B>(self.filters@[i])) is Some
    }

    pub open spec fn group_by_renders(self) -> bool {
        forall|i: int| 0 <= i < self.group_by@.len() ==> (#[trigger] spec_group_key(self.group_by@[i])) is Some
    }

    /// The builder compiles for backend `B`.
    pub open spec fn compiles<B: Backend>(self) -> bool {
        &&& self.select@.len() > 0
        &&& !self.has_reserved()
        &&& self.selects_render::<B>()
        &&& self.filters_render::<B>()
        &&& self.group_by_renders()
    }

    /// The error compilation reports: the first check that fails, at the
    /// first clause where it fails.
    pub open spec fn build_error<B: Backend>(self, e: QueryBuildingError) -> bool {
        if self.select@.len() == 0 {
            e == QueryBuildingError::NoSelectColumns
        } else if self.has_reserved() {
            e matches QueryBuildingError::ReservedName { select: k } && first_with(
                self.select@,
                |s: SelectItem| references_reserved(s),
                k as int,
            )
        } else if !self.selects_render::<B>() {
            e matches QueryBuildingError::UnrenderableSelect { select: k } && first_with(
                self.select@,
                |s: SelectItem| spec_select::<B>(s) is None,
                k as int,
            )
        } else if !self.filters_render::<B>() {
            e matches QueryBuildingError::UnrenderableFilter { filter: k } && first_with(
                self.filters@,
                |f: QueryFilter| spec_filter::<B>(f) is None,
                k as int,
            )
        } else {
            e matches QueryBuildingError::UnrenderableGroupBy { group_by: k } && first_with(
                self.group_by@,
                |c: String| spec_group_key(c) is None,
                k as int,
            )
        }
    }

    /// The compiled form: each clause rendered in place, in clause order.
    pub open spec fn compiled<B: Backend>(self) -> CompiledQueryView {
        CompiledQueryView {
            select: self.select@.map_values(|s: SelectItem| spec_select::<B>(s)->0),
            collection: B::spec_collection(self.collection),
            filters: self.filters@.map_values(|f: QueryFilter| spec_filter::<B>(f)->0),
            group_by: views(self.group_by@),
        }
    }

    pub fn new(collection: AnalyticsCollection) -> (r: Self)
        ensures
            r.collection == collection,
            r.select@.len() == 0,
            r.filters@.len() == 0,
            r.group_by@.len() == 0,
            r.wf(),
    {
        QueryBuilder { collection, select: Vec::new(), filters: Vec::new(), group_by: Vec::new() }
    }

    fn find_alias(&self, alias: &Option<String>) -> (r: Option<usize>)
        ensures
            match r {
                Some(k) => self.alias_owner(opt_view(*alias), k as int),
                None => !self.alias_taken(opt_view(*alias)),
            },
    {
        let mut i: usize = 0;
        while i < self.select.len()
            invariant
                i <= self.select@.len(),
                forall|k: int|
                    0 <= k < i ==> !(opt_view(*alias) is Some && opt_view(*alias) == select_alias(
                        #[trigger] self.select@[k],
                    )),
            decreases self.select.len() - i,
        {
            let a = item_alias(&self.select[i]);
            if same_name(alias, &a) {
                return Some(i);
            }
            i += 1;
        }
        None
    }

    fn push_select(&mut self, item: SelectItem) -> (r: Result<(), ClauseError>)
        ensures
            match r {
                Ok(_) => !old(self).alias_taken(select_alias(item)) && final(self).select@
                    == old(self).select@.push(item),
                Err(e) => e matches ClauseError::DuplicateAlias { existing: k }
                    && old(self).alias_owner(select_alias(item), k as int) && final(self).select@
                    == old(self).select@,
            },
            final(self).collection == old(self).collection,
            final(self).filters@ == old(self).filters@,
            final(self).group_by@ == old(self).group_by@,
            old(self).wf() ==> final(self).wf(),
    {
        let alias = item_alias(&item);
        match self.find_alias(&alias) {
            Some(k) => Err(ClauseError::DuplicateAlias { existing: k }),
            None => {
                self.select.push(item);
                proof {
                    if old(self).wf() {
                        assert forall|i: int, j: int|
                            0 <= i < j < self.select@.len() && (#[trigger] select_alias(
                                self.select@[i],
                            )) is Some implies select_alias(self.select@[i])
                            != #[trigger] select_alias(self.select@[j]) by {
                            if j == self.select@.len() - 1 {
                                assert(self.select@[i] == old(self).select@[i]);
                            } else {
                                assert(self.select@[i] == old(self).select@[i]);
                                assert(self.select@[j] == old(self).select@[j]);
                            }
                        }
                    }
                }
                Ok(())
            },
        }
    }

    /// Appends an aggregate to the select list; refused if its alias is taken.
    pub fn add_select_column(&mut self, aggregate: Aggregate) -> (r: Result<(), ClauseError>)
        ensures
            match r {
                Ok(_) => !old(self).alias_taken(opt_view(aggregate.alias)) && final(self).select@
                    == old(self).select@.push(SelectItem::Aggregate(aggregate)),
                Err(e) => e matches ClauseError::DuplicateAlias { existing: k }
                    && old(self).alias_owner(opt_view(aggregate.alias), k as int)
                    && final(self).select@ == old(self).select@,
            },
            final(self).collection == old(self).collection,
            final(self).filters@ == old(self).filters@,
            final(self).group_by@ == old(self).group_by@,
            old(self).wf() ==> final(self).wf(),
    {
        self.push_select(SelectItem::Aggregate(aggregate))
    }

    /// Appends a window expression to the select list; refused if its alias is taken.
    pub fn add_window_column(&mut self, window: Window) -> (r: Result<(), ClauseError>)
        ensures
            match r {
                Ok(_) => !old(self).alias_taken(opt_view(window.alias)) && final(self).select@
                    == old(self).select@.push(SelectItem::Window(window)),
                Err(e) => e matches ClauseError::DuplicateAlias { existing: k }
                    && old(self).alias_owner(opt_view(window.alias), k as int)
                    && final(self).select@ == old(self).select@,
            },
            final(self).collection == old(self).collection,
            final(self).filters@ == old(self).filters@,
            final(self).group_by@ == old(self).group_by@,
            old(self).wf() ==> final(self).wf(),
    {
        self.push_select(SelectItem::Window(window))
    }

    /// Buckets the rows by `granularity`: the bucket start is selected under
    /// the reserved key and appended to the grouping keys. Refused if the
    /// reserved key is already selected.
    pub fn add_granularity_in_mins(&mut self, granularity: Granularity) -> (r: Result<
        (),
        ClauseError,
    >)
        ensures
            match r {
                Ok(_) => !old(self).alias_taken(Some(reserved_bucket_key())) && final(self).select@
                    == old(self).select@.push(SelectItem::TimeBucket(granularity)) && views(
                    final(self).group_by@,
                ) == views(old(self).group_by@).push(reserved_bucket_key()),
                Err(e) => e matches ClauseError::DuplicateAlias { existing: k }
                    && old(self).alias_owner(Some(reserved_bucket_key()), k as int)
                    && final(self).select@ == old(self).select@ && final(self).group_by@ == old(self).group_by@,
            },
            final(self).collection == old(self).collection,
            final(self).filters@ == old(self).filters@,
            old(self).wf() ==> final(self).wf(),
    {
        proof {
            reveal_strlit("time_bucket");
        }
        let r = self.push_select(SelectItem::TimeBucket(granularity));
        if r.is_ok() {
            self.group_by.push(bucket_key());
            assert(views(self.group_by@) =~= views(old(self).group_by@).push(
                reserved_bucket_key(),
            ));
        }
        r
    }

    /// Appends `column comparison value` to the filters; refused if the
    /// column name is empty.
    pub fn add_custom_filter_clause(
        &mut self,
        column: &str,
        value: FilterValue,
        comparison: Comparison,
    ) -> (r: Result<(), ClauseError>)
        ensures
            r is Err <==> column@.len() == 0,
            r is Err ==> r == Err::<(), ClauseError>(ClauseError::EmptyColumn) && final(self).filters@ == old(self).filters@,
            r is Ok ==> final(self).filters@.len() == old(self).filters@.len() + 1
                && final(self).filters@.drop_last() == old(self).filters@ && final(self).filters@.last().column@ == column@ && final(self).filters@.last().comparison
                == comparison && final(self).filters@.last().value == value,
            final(self).collection == old(self).collection,
            final(self).select@ == old(self).select@,
            final(self).group_by@ == old(self).group_by@,
            old(self).wf() ==> final(self).wf(),
    {
        if column.unicode_len() == 0 {
            return Err(ClauseError::EmptyColumn);
        }
        self.filters.push(QueryFilter { column: String::from_str(column), comparison, value });
        assert(self.filters@.drop_last() =~= old(self).filters@);
        Ok(())
    }

    /// Appends `column = 'value'` to the filters.
    pub fn add_filter_clause(&mut self, column: &str, value: &str) -> (r: Result<(), ClauseError>)
        ensures
            r is Err <==> column@.len() == 0,
            r is Err ==> r == Err::<(), ClauseError>(ClauseError::EmptyColumn) && final(self).filters@ == old(self).filters@,
            r is Ok ==> final(self).filters@.len() == old(self).filters@.len() + 1
                && final(self).filters@.drop_last() == old(self).filters@ && is_text_filter(
                final(self).filters@.last(),
                column@,
                value@,
            ),
            final(self).collection == old(self).collection,
            final(self).select@ == old(self).select@,
            final(self).group_by@ == old(self).group_by@,
            old(self).wf() ==> final(self).wf(),
    {
        self.add_custom_filter_clause(
            column,
            FilterValue::Text(String::from_str(value)),
            Comparison::Equal,
        )
    }

    /// Appends a truth test of `column` against `flag` to the filters.
    pub fn add_bool_filter_clause(&mut self, column: &str, flag: bool) -> (r: Result<
        (),
        ClauseError,
    >)
        ensures
            r is Err <==> column@.len() == 0,
            r is Err ==> r == Err::<(), ClauseError>(ClauseError::EmptyColumn) && final(self).filters@ == old(self).filters@,
            r is Ok ==> final(self).filters@.len() == old(self).filters@.len() + 1
                && final(self).filters@.drop_last() == old(self).filters@ && final(self).filters@.last().column@ == column@ && final(self).filters@.last().comparison
                == Comparison::Equal && final(self).filters@.last().value == FilterValue::Bool(
                flag,
            ),
            final(self).collection == old(self).collection,
            final(self).select@ == old(self).select@,
            final(self).group_by@ == old(self).group_by@,
            old(self).wf() ==> final(self).wf(),
    {
        self.add_custom_filter_clause(column, FilterValue::Bool(flag), Comparison::Equal)
    }

    /// Appends membership of `column` in `values` to the filters.
    pub fn add_filter_in_range_clause(&mut self, column: &str, values: Vec<String>) -> (r: Result<
        (),
        ClauseError,
    >)
        ensures
            r is Err <==> column@.len() == 0,
            r is Err ==> r == Err::<(), ClauseError>(ClauseError::EmptyColumn) && final(self).filters@ == old(self).filters@,
            r is Ok ==> final(self).filters@.len() == old(self).filters@.len() + 1
                && final(self).filters@.drop_last() == old(self).filters@ && final(self).filters@.last().column@ == column@ && final(self).filters@.last().comparison
                == Comparison::In && final(self).filters@.last().value == FilterValue::TextList(
                values,
            ),
            final(self).collection == old(self).collection,
            final(self).select@ == old(self).select@,
            final(self).group_by@ == old(self).group_by@,
            old(self).wf() ==> final(self).wf(),
    {
        self.add_custom_filter_clause(column, FilterValue::TextList(values), Comparison::In)
    }

    /// Appends a grouping key; keys keep the order they were added in.
    pub fn add_group_by_clause(&mut self, column: &str) -> (r: Result<(), ClauseError>)
        ensures
            r is Err <==> column@.len() == 0,
            r is Err ==> r == Err::<(), ClauseError>(ClauseError::EmptyColumn) && final(self).group_by@ == old(self).group_by@,
            r is Ok ==> views(final(self).group_by@) == views(old(self).group_by@).push(
                column@,
            ),
            final(self).collection == old(self).collection,
            final(self).select@ == old(self).select@,
            final(self).filters@ == old(self).filters@,
            old(self).wf() ==> final(self).wf(),
    {
        if column.unicode_len() == 0 {
            return Err(ClauseError::EmptyColumn);
        }
        self.group_by.push(String::from_str(column));
        assert(views(self.group_by@) =~= views(old(self).group_by@).push(column@));
        Ok(())
    }

    /// Compiles the clauses for backend `B`: select list, collection,
    /// filters joined by AND, then grouping keys, which also order the
    /// output. Touches no backend.
    pub fn build_query<B: Backend>(&self) -> (r: Result<CompiledQuery, QueryBuildingError>)
        ensures
            r is Ok <==> self.compiles::<B>(),
            match r {
                Ok(q) => q@ == self.compiled::<B>(),
                Err(e) => self.build_error::<B>(e),
            },
    {
        if self.select.len() == 0 {
            return Err(QueryBuildingError::NoSelectColumns);
        }
        let mut i: usize = 0;
        while i < self.select.len()
            invariant
                i <= self.select@.len(),
                forall|k: int| 0 <= k < i ==> !references_reserved(#[trigger] self.select@[k]),
            decreases self.select.len() - i,
        {
            if item_references_reserved(&self.select[i]) {
                return Err(QueryBuildingError::ReservedName { select: i });
            }
            i += 1;
        }
        let mut select: Vec<String> = Vec::new();
        let mut i: usize = 0;
        while i < self.select.len()
            invariant
                self.select@.len() > 0,
                !self.has_reserved(),
                i <= self.select@.len(),
                select@.len() == i,
                forall|k: int| 0 <= k < i ==> (#[trigger] spec_select::<B>(self.select@[k])) is Some,
                forall|k: int|
                    0 <= k < i ==> (#[trigger] select@[k])@ == spec_select::<B>(self.select@[k])->0,
            decreases self.select.len() - i,
        {
            match render_select::<B>(&self.select[i]) {
                Some(s) => select.push(s),
                None => return Err(QueryBuildingError::UnrenderableSelect { select: i }),
            }
            i += 1;
        }
        let mut filters: Vec<String> = Vec::new();
        let mut i: usize = 0;
        while i < self.filters.len()
            invariant
                self.select@.len() > 0,
                !self.has_reserved(),
                self.selects_render::<B>(),
                i <= self.filters@.len(),
                filters@.len() == i,
                forall|k: int| 0 <= k < i ==> (#[trigger] spec_filter::<B>(self.filters@[k])) is Some,
                forall|k: int|
                    0 <= k < i ==> (#[trigger] filters@[k])@ == spec_filter::<B>(self.filters@[k])->0,
            decreases self.filters.len() - i,
        {
            match render_filter::<B>(&self.filters[i]) {
                Some(f) => filters.push(f),
                None => {
                    assert(spec_filter::<B>(self.filters@[i as int]) is None);
                    assert(!self.filters_render::<B>());
                    let e = QueryBuildingError::UnrenderableFilter { filter: i };
                    assert(first_with(
                        self.filters@,
                        |f: QueryFilter| spec_filter::<B>(f) is None,
                        i as int,
                    ));
                    return Err(e);
                },
            }
            i += 1;
        }
        let mut group_by: Vec<String> = Vec::new();
        let mut i: usize = 0;
        while i < self.group_by.len()
            invariant
                self.select@.len() > 0,
                !self.has_reserved(),
                self.selects_render::<B>(),
                self.filters_render::<B>(),
                i <= self.group_by@.len(),
                group_by@.len() == i,
                forall|k: int| 0 <= k < i ==> (#[trigger] spec_group_key(self.group_by@[k])) is Some,
                forall|k: int| 0 <= k < i ==> (#[trigger] group_by@[k])@ == self.group_by@[k]@,
            decreases self.group_by.len() - i,
        {
            if !is_identifier_text(self.group_by[i].as_str()) {
                assert(spec_group_key(self.group_by@[i as int]) is None);
                assert(!self.group_by_renders());
                assert(first_with(
                    self.group_by@,
                    |c: String| spec_group_key(c) is None,
                    i as int,
                ));
                return Err(QueryBuildingError::UnrenderableGroupBy { group_by: i });
            }
            group_by.push(self.group_by[i].clone());
            i += 1;
        }
        let q = CompiledQuery {
            select,
            collection: B::render_collection(self.collection),
            filters,
            group_by,
        };
        assert(q@.select =~= self.compiled::<B>().select);
        assert(q@.filters =~= self.compiled::<B>().filters);
        assert(q@.group_by =~= self.compiled::<B>().group_by);
        Ok(q)
    }

    /// Compiles for backend `B` and hands the query to `pool`. A query that
    /// does not compile never reaches the pool.
    pub fn execute_query<B: Backend, P: AnalyticsDataSource>(&self, pool: &P) -> (r: Result<
        Vec<RawRow>,
        MetricsError,
    >)
        ensures
            !self.compiles::<B>() ==> (r matches Err(MetricsError::QueryBuildingError(e))
                && self.build_error::<B>(e)),
            self.compiles::<B>() ==> (r is Ok || r matches Err(
                MetricsError::QueryExecutionFailure(_),
            )),
    {
        let query = match self.build_query::<B>() {
            Ok(q) => q,
            Err(e) => return Err(MetricsError::foreign_from(e)),
        };
        match pool.load_results(&query) {
            Ok(rows) => Ok(rows),
            Err(e) => Err(MetricsError::foreign_from(e)),
        }
    }
}

/// A builder with no select expression never compiles, for any backend,
/// and the one error it reports is the missing select list; so executing
/// it fails before the pool is reached.
pub proof fn lemma_no_select_never_compiles<B: Backend>(b: QueryBuilder)
    requires
        b.select@.len() == 0,
    ensures
        !b.compiles::<B>(),
        forall|e: QueryBuildingError| b.build_error::<B>(e) <==> e == QueryBuildingError::NoSelectColumns,
{
}

/// `f` is `column = 'value'`.
pub open spec fn is_text_filter(f: QueryFilter, column: Seq<char>, value: Seq<char>) -> bool {
    &&& f.column@ == column
    &&& f.comparison == Comparison::Equal
    &&& f.value matches FilterValue::Text(s) && s@ == value
}

/// `f` is `created_at c t`.
pub open spec fn is_time_filter(f: QueryFilter, t: Timestamp, c: Comparison) -> bool {
    &&& f.column@ == "created_at"@
    &&& f.comparison == c
    &&& f.value == FilterValue::Timestamp(t)
}

impl TimeRange {
    /// The number of filters the range stands for.
    pub open spec fn filter_count(self) -> nat {
        if self.end_time is Some {
            2
        } else {
            1
        }
    }

    /// Restricts the query to the range: `created_at >= start`, and
    /// `created_at <= end` where the range has an end.
    pub fn set_filter_clause(&self, builder: &mut QueryBuilder)
        ensures
            final(builder).collection == old(builder).collection,
            final(builder).select@ == old(builder).select@,
            final(builder).group_by@ == old(builder).group_by@,
            final(builder).filters@.len() == old(builder).filters@.len() + self.filter_count(),
            final(builder).filters@.subrange(0, old(builder).filters@.len() as int) == old(builder).filters@,
            is_time_filter(
                final(builder).filters@[old(builder).filters@.len() as int],
                self.start_time,
                Comparison::GreaterOrEqual,
            ),
            self.end_time matches Some(end) ==> is_time_filter(
                final(builder).filters@[old(builder).filters@.len() + 1int],
                end,
                Comparison::LessOrEqual,
            ),
            old(builder).wf() ==> final(builder).wf(),
    {
        proof {
            reveal_strlit("created_at");
        }
        // The column is named, so neither filter can be refused.
        let _ = builder.add_custom_filter_clause(
            "created_at",
            FilterValue::Timestamp(self.start_time),
            Comparison::GreaterOrEqual,
        );
        let ghost mid = builder.filters@;
        if let Some(end) = self.end_time {
            let _ = builder.add_custom_filter_clause(
                "created_at",
                FilterValue::Timestamp(end),
                Comparison::LessOrEqual,
            );
            assert(builder.filters@.drop_last() == mid);
            assert(builder.filters@[old(builder).filters@.len() as int] == mid.last());
        }
        assert(builder.filters@.subrange(0, old(builder).filters@.len() as int) =~= old(builder).filters@);
    }
}

} // verus!
