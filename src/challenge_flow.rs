//! The challenge-flow count: how many sdk sessions showed a 3DS challenge,
//! per time bucket, for one merchant.
use vstd::prelude::*;

use crate::backend::Backend;
use crate::clause::{
    reserved_bucket_key, Aggregate, AggregateFunction, AnalyticsCollection, Comparison,
    FilterValue, SelectItem,
};
use crate::errors::{MetricsError, QueryBuildingError};
use crate::metrics::{post_process, post_processed, MetricEntry};
use crate::query::{
    is_text_filter, is_time_filter, references_reserved, spec_filter, spec_group_key, spec_select,
    AnalyticsDataSource, QueryBuilder,
};
use crate::rows::RawRow;
use crate::sql::{
    is_identifier, is_identifier_char, is_literal_safe, opt_view, quoted, views,
};
use crate::time_range::{Granularity, TimeRange};

verus! {

/// The fixed names of the challenge-flow query are identifiers, its fixed
/// values need no escaping, and the tenant column is named by no other filter.
pub proof fn lemma_metric_literals()
    ensures
        is_identifier("count"@),
        is_identifier("merchant_id"@),
        is_identifier("first_event"@),
        is_identifier("category"@),
        is_identifier("log_type"@),
        is_identifier("event_name"@),
        is_identifier("value"@),
        is_identifier("created_at"@),
        is_identifier("time_bucket"@),
        is_literal_safe("USER_EVENT"@),
        is_literal_safe("INFO"@),
        is_literal_safe("DISPLAY_THREE_DS_SDK"@),
        is_literal_safe("C"@),
        "count"@ != reserved_bucket_key(),
        "merchant_id"@ != "first_event"@,
        "merchant_id"@ != "category"@,
        "merchant_id"@ != "log_type"@,
        "merchant_id"@ != "event_name"@,
        "merchant_id"@ != "value"@,
        "merchant_id"@ != "created_at"@,
{
    reveal_strlit("count");
    reveal_strlit("merchant_id");
    reveal_strlit("first_event");
    reveal_strlit("category");
    reveal_strlit("log_type");
    reveal_strlit("event_name");
    reveal_strlit("value");
    reveal_strlit("created_at");
    reveal_strlit("time_bucket");
    reveal_strlit("USER_EVENT");
    reveal_strlit("INFO");
    reveal_strlit("DISPLAY_THREE_DS_SDK");
    reveal_strlit("C");
    assert forall|i: int| 0 <= i < "count"@.len() implies is_identifier_char(#[trigger] "count"@[i]) by {
        assert(i == 0 || i == 1 || i == 2 || i == 3 || i == 4);
    }
    assert forall|i: int| 0 <= i < "merchant_id"@.len() implies is_identifier_char(#[trigger] "merchant_id"@[i]) by {
        assert(i == 0 || i == 1 || i == 2 || i == 3 || i == 4 || i == 5 || i == 6 || i == 7 || i == 8 || i == 9 || i == 10);
    }
    assert forall|i: int| 0 <= i < "first_event"@.len() implies is_identifier_char(#[trigger] "first_event"@[i]) by {
        assert(i == 0 || i == 1 || i == 2 || i == 3 || i == 4 || i == 5 || i == 6 || i == 7 || i == 8 || i == 9 || i == 10);
    }
    assert forall|i: int| 0 <= i < "category"@.len() implies is_identifier_char(#[trigger] "category"@[i]) by {
        assert(i == 0 || i == 1 || i == 2 || i == 3 || i == 4 || i == 5 || i == 6 || i == 7);
    }
    assert forall|i: int| 0 <= i < "log_type"@.len() implies is_identifier_char(#[trigger] "log_type"@[i]) by {
        assert(i == 0 || i == 1 || i == 2 || i == 3 || i == 4 || i == 5 || i == 6 || i == 7);
    }
    assert forall|i: int| 0 <= i < "event_name"@.len() implies is_identifier_char(#[trigger] "event_name"@[i]) by {
        assert(i == 0 || i == 1 || i == 2 || i == 3 || i == 4 || i == 5 || i == 6 || i == 7 || i == 8 || i == 9);
    }
    assert forall|i: int| 0 <= i < "value"@.len() implies is_identifier_char(#[trigger] "value"@[i]) by {
        assert(i == 0 || i == 1 || i == 2 || i == 3 || i == 4);
    }
    assert forall|i: int| 0 <= i < "created_at"@.len() implies is_identifier_char(#[trigger] "created_at"@[i]) by {
        assert(i == 0 || i == 1 || i == 2 || i == 3 || i == 4 || i == 5 || i == 6 || i == 7 || i == 8 || i == 9);
    }
    assert forall|i: int| 0 <= i < "time_bucket"@.len() implies is_identifier_char(#[trigger] "time_bucket"@[i]) by {
        assert(i == 0 || i == 1 || i == 2 || i == 3 || i == 4 || i == 5 || i == 6 || i == 7 || i == 8 || i == 9 || i == 10);
    }
    assert forall|i: int| 0 <= i < "USER_EVENT"@.len() implies #[trigger] "USER_EVENT"@[i] != '\'' && "USER_EVENT"@[i] != '\\' by {
        assert(i == 0 || i == 1 || i == 2 || i == 3 || i == 4 || i == 5 || i == 6 || i == 7 || i == 8 || i == 9);
    }
    assert forall|i: int| 0 <= i < "INFO"@.len() implies #[trigger] "INFO"@[i] != '\'' && "INFO"@[i] != '\\' by {
        assert(i == 0 || i == 1 || i == 2 || i == 3);
    }
    assert forall|i: int| 0 <= i < "DISPLAY_THREE_DS_SDK"@.len() implies #[trigger] "DISPLAY_THREE_DS_SDK"@[i] != '\'' && "DISPLAY_THREE_DS_SDK"@[i] != '\\' by {
        assert(i == 0 || i == 1 || i == 2 || i == 3 || i == 4 || i == 5 || i == 6 || i == 7 || i == 8 || i == 9 || i == 10 || i == 11 || i == 12 || i == 13 || i == 14 || i == 15 || i == 16 || i == 17 || i == 18 || i == 19);
    }
    assert forall|i: int| 0 <= i < "C"@.len() implies #[trigger] "C"@[i] != '\'' && "C"@[i] != '\\' by {
        assert(i == 0);
    }
    assert("count"@.len() != reserved_bucket_key().len());
    assert("merchant_id"@[0] != "first_event"@[0]);
    assert("merchant_id"@.len() != "category"@.len());
    assert("merchant_id"@.len() != "log_type"@.len());
    assert("merchant_id"@.len() != "event_name"@.len());
    assert("merchant_id"@.len() != "value"@.len());
    assert("merchant_id"@.len() != "created_at"@.len());
}

/// The challenge-flow count metric.
#[derive(Clone, Copy, Debug, Default)]
pub struct ChallengeFlowCount;

/// `b` is the challenge-flow query of merchant `key` over `range`: a row
/// count (and the time bucket, where there is a granularity), scoped first
/// to the merchant, then to first user events that displayed the 3DS sdk
/// with a challenge, then to the range.
pub open spec fn is_challenge_flow_query(
    b: QueryBuilder,
    key: Seq<char>,
    granularity: Option<Granularity>,
    range: TimeRange,
) -> bool {
    &&& b.wf()
    &&& b.collection == AnalyticsCollection::SdkEventsAnalytics
    &&& b.select@.len() == if granularity is Some {
        2int
    } else {
        1int
    }
    &&& b.select@[0] matches SelectItem::Aggregate(a) && a.function == AggregateFunction::Count
        && a.field is None && opt_view(a.alias) == Some("count"@)
    &&& granularity matches Some(g) ==> b.select@[1] == SelectItem::TimeBucket(g)
    &&& views(b.group_by@) == if granularity is Some {
        seq![reserved_bucket_key()]
    } else {
        Seq::<Seq<char>>::empty()
    }
    &&& b.filters@.len() == 6 + range.filter_count()
    &&& is_text_filter(b.filters@[0], "merchant_id"@, key)
    &&& b.filters@[1].column@ == "first_event"@ && b.filters@[1].comparison == Comparison::Equal
        && b.filters@[1].value == FilterValue::Bool(true)
    &&& is_text_filter(b.filters@[2], "category"@, "USER_EVENT"@)
    &&& is_text_filter(b.filters@[3], "log_type"@, "INFO"@)
    &&& is_text_filter(b.filters@[4], "event_name"@, "DISPLAY_THREE_DS_SDK"@)
    &&& is_text_filter(b.filters@[5], "value"@, "C"@)
    &&& is_time_filter(b.filters@[6], range.start_time, Comparison::GreaterOrEqual)
    &&& range.end_time matches Some(end) ==> is_time_filter(
        b.filters@[7],
        end,
        Comparison::LessOrEqual,
    )
}

/// The challenge-flow query compiles for every backend exactly when the
/// merchant key needs no escaping; otherwise the merchant filter is the
/// clause at fault.
pub proof fn lemma_challenge_flow_compiles<B: Backend>(
    b: QueryBuilder,
    key: Seq<char>,
    granularity: Option<Granularity>,
    range: TimeRange,
)
    requires
        is_challenge_flow_query(b, key, granularity, range),
    ensures
        b.compiles::<B>() <==> is_literal_safe(key),
        !is_literal_safe(key) ==> forall|e: QueryBuildingError|
            b.build_error::<B>(e) <==> e == (QueryBuildingError::UnrenderableFilter { filter: 0 }),
{
    lemma_metric_literals();
    reveal_strlit("time_bucket");
    if let SelectItem::Aggregate(a) = b.select@[0] {
        B::lemma_aggregate_total(a);
        assert(!references_reserved(b.select@[0]));
    }
    assert(!b.has_reserved()) by {
        assert forall|i: int| 0 <= i < b.select@.len() implies !references_reserved(
            #[trigger] b.select@[i],
        ) by {
            assert(i == 0 || i == 1);
        }
    }
    assert(b.selects_render::<B>()) by {
        assert forall|i: int| 0 <= i < b.select@.len() implies (#[trigger] spec_select::<B>(
            b.select@[i],
        )) is Some by {
            assert(i == 0 || i == 1);
        }
    }
    assert(b.group_by_renders()) by {
        assert forall|i: int| 0 <= i < b.group_by@.len() implies (#[trigger] spec_group_key(
            b.group_by@[i],
        )) is Some by {
            assert(views(b.group_by@).len() == b.group_by@.len());
            if granularity is Some {
                assert(views(b.group_by@) == seq![reserved_bucket_key()]);
                assert(i == 0);
                assert(views(b.group_by@)[i] == b.group_by@[i]@);
            } else {
                assert(views(b.group_by@).len() == 0);
            }
        }
    }
    assert forall|i: int| 1 <= i < b.filters@.len() implies (#[trigger] spec_filter::<B>(
        b.filters@[i],
    )) is Some by {
        assert(i == 1 || i == 2 || i == 3 || i == 4 || i == 5 || i == 6 || i == 7);
    }
    if is_literal_safe(key) {
        assert(b.filters_render::<B>()) by {
            assert forall|i: int| 0 <= i < b.filters@.len() implies (#[trigger] spec_filter::<B>(
                b.filters@[i],
            )) is Some by {
                if i == 0 {
                } else {
                    assert(1 <= i < b.filters@.len());
                }
            }
        }
    } else {
        assert(spec_filter::<B>(b.filters@[0]) is None);
        assert(!b.filters_render::<B>());
    }
}

/// The compiled challenge-flow query carries exactly one filter on the
/// merchant column, first of all filters, and it names the merchant the
/// metric was given.
pub proof fn lemma_tenant_filter_first<B: Backend>(
    b: QueryBuilder,
    key: Seq<char>,
    granularity: Option<Granularity>,
    range: TimeRange,
)
    requires
        is_challenge_flow_query(b, key, granularity, range),
        b.compiles::<B>(),
    ensures
        b.compiled::<B>().filters[0] == "merchant_id"@ + " "@ + "="@ + " "@ + quoted(key),
        forall|i: int|
            1 <= i < b.filters@.len() ==> (#[trigger] b.filters@[i]).column@ != "merchant_id"@,
{
    lemma_metric_literals();
    assert forall|i: int| 1 <= i < b.filters@.len() implies (#[trigger] b.filters@[i]).column@
        != "merchant_id"@ by {
        assert(i == 1 || i == 2 || i == 3 || i == 4 || i == 5 || i == 6 || i == 7);
    }
}

impl ChallengeFlowCount {
    /// The query of this metric for merchant `publishable_key`.
    pub fn metric_query(
        &self,
        publishable_key: &str,
        granularity: Option<Granularity>,
        time_range: &TimeRange,
    ) -> (b: QueryBuilder)
        ensures
            is_challenge_flow_query(b, publishable_key@, granularity, *time_range),
    {
        proof {
            lemma_metric_literals();
            reveal_strlit("time_bucket");
        }
        // No clause below can be refused: every column is named and the two
        // aliases differ, which the postcondition records.
        let mut b = QueryBuilder::new(AnalyticsCollection::SdkEventsAnalytics);
        let _ = b.add_select_column(
            Aggregate {
                function: AggregateFunction::Count,
                field: None,
                alias: Some(String::from_str("count")),
            },
        );
        if let Some(g) = granularity {
            let _ = b.add_granularity_in_mins(g);
        }
        let _ = b.add_filter_clause("merchant_id", publishable_key);
        let _ = b.add_bool_filter_clause("first_event", true);
        let _ = b.add_filter_clause("category", "USER_EVENT");
        let _ = b.add_filter_clause("log_type", "INFO");
        let _ = b.add_filter_clause("event_name", "DISPLAY_THREE_DS_SDK");
        let _ = b.add_filter_clause("value", "C");
        time_range.set_filter_clause(&mut b);
        assert(views(b.group_by@) =~= if granularity is Some {
            seq![reserved_bucket_key()]
        } else {
            Seq::<Seq<char>>::empty()
        });
        b
    }

    /// Computes the metric for merchant `publishable_key` on backend `B`
    /// through `pool`: compile, execute, post-process, each stage failing
    /// with its own error kind.
    pub fn load_metrics<B: Backend, P: AnalyticsDataSource>(
        &self,
        _merchant_id: &str,
        publishable_key: &str,
        granularity: Option<Granularity>,
        time_range: &TimeRange,
        pool: &P,
    ) -> (r: Result<Vec<MetricEntry>, MetricsError>)
        ensures
            !is_literal_safe(publishable_key@) ==> r == Err::<Vec<MetricEntry>, MetricsError>(
                MetricsError::QueryBuildingError((QueryBuildingError::UnrenderableFilter { filter: 0 })),
            ),
            is_literal_safe(publishable_key@) ==> (r matches Err(
                MetricsError::QueryExecutionFailure(_),
            ) || exists|rows: Seq<RawRow>| post_processed(rows, r)),
    {
        let b = self.metric_query(publishable_key, granularity, time_range);
        proof {
            lemma_challenge_flow_compiles::<B>(b, publishable_key@, granularity, *time_range);
        }
        match b.execute_query::<B, P>(pool) {
            Ok(rows) => {
                let r = post_process(&rows);
                assert(post_processed(rows@, r));
                r
            },
            Err(e) => Err(e),
        }
    }
}

} // verus!
