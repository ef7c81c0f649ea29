//! Cloud Monitoring: how the requests are read, and what the results hold.

use vstd::prelude::*;
use vstd::string::*;

use crate::bridge::{call_of, result_of, Op, ReplyView};
use crate::json::JsonView;
use crate::options::{project_of, EnvView};
use crate::request::{BodyView, Method};
use crate::url::asks_for;
use super::{has_members, refuses};
use super::urls::{
    lemma_monitoring_metric_descriptors, lemma_monitoring_metric_descriptors_filter,
    lemma_monitoring_time_series_filter_interval_start_time_interval_end_time,
};

verus! {

/// The names of members differ.
proof fn lemma_names()
    ensures
        "descriptors"@.len() == 11,
        "display_name"@.len() == 12,
        "kind"@.len() == 4,
        "project"@.len() == 7,
        "time_series"@.len() == 11,
        "type"@.len() == 4,
        "value_type"@.len() == 10,
        "type"@ != "kind"@,
{
    reveal_strlit("descriptors");
    reveal_strlit("display_name");
    reveal_strlit("kind");
    reveal_strlit("project");
    reveal_strlit("time_series");
    reveal_strlit("type");
    reveal_strlit("value_type");
    assert("type"@[0] != "kind"@[0]);
}

/// Listing time series asks for those that match the filter between the start and the end.
pub proof fn monitoring_list_time_series_asks(opts: JsonView, env: EnvView)
    ensures
        project_of(opts, env) is None
            ==> refuses(Op::MonitoringListTimeSeries, opts, env, "missing project"@),
        project_of(opts, env) is Some && opts.str_at("filter"@) is None
            ==> refuses(Op::MonitoringListTimeSeries, opts, env, "missing filter"@),
        project_of(opts, env) is Some && opts.str_at("filter"@) is Some
            && opts.str_at("start"@) is None
            ==> refuses(Op::MonitoringListTimeSeries, opts, env,
            "missing start (RFC3339 interval start)"@),
        project_of(opts, env) is Some && opts.str_at("filter"@) is Some
            && opts.str_at("start"@) is Some && opts.str_at("end"@) is None
            ==> refuses(Op::MonitoringListTimeSeries, opts, env,
            "missing end (RFC3339 interval end)"@),
        project_of(opts, env) is Some && opts.str_at("filter"@) is Some
            && opts.str_at("start"@) is Some && opts.str_at("end"@) is Some ==> ({
            let project = project_of(opts, env)->0;
            let filter = opts.str_at("filter"@)->0;
            let start = opts.str_at("start"@)->0;
            let end = opts.str_at("end"@)->0;
            &&& call_of(Op::MonitoringListTimeSeries, opts, env) is Ok
            &&& ({
                let sent = call_of(Op::MonitoringListTimeSeries, opts, env)->Ok_0;
                &&& sent.method == Method::Get
                &&& asks_for(
                        sent.url,
                        "https://monitoring.googleapis.com/v3/"@,
                        seq!["projects"@, project, "timeSeries"@],
                        None,
                        seq![("filter"@, filter), ("interval.startTime"@, start),
                            ("interval.endTime"@, end)],
                    )
                &&& sent.query == Seq::<(Seq<char>, Seq<char>)>::empty()
                &&& sent.headers == Seq::<(Seq<char>, Seq<char>)>::empty()
                &&& sent.body == BodyView::Empty
            })
        }),
{
    lemma_names();
    if project_of(opts, env) is Some && opts.str_at("filter"@) is Some
        && opts.str_at("start"@) is Some && opts.str_at("end"@) is Some {
        let project = project_of(opts, env)->0;
        let filter = opts.str_at("filter"@)->0;
        let start = opts.str_at("start"@)->0;
        let end = opts.str_at("end"@)->0;
        lemma_monitoring_time_series_filter_interval_start_time_interval_end_time(project,
            filter, start, end);
    }
}

/// The time series are those of the answer.
pub proof fn monitoring_list_time_series_gives(opts: JsonView, env: EnvView, body: JsonView)
    requires
        call_of(Op::MonitoringListTimeSeries, opts, env) is Ok,
    ensures
        result_of(Op::MonitoringListTimeSeries, opts, env, ReplyView::Document(body)) is Ok,
        ({
            let project = project_of(opts, env)->0;
            let given = result_of(Op::MonitoringListTimeSeries, opts, env,
                ReplyView::Document(body))->Ok_0;
            &&& has_members(given, set!["project"@, "time_series"@])
            &&& given.at("project"@) == JsonView::Str(project)
            &&& given.at("time_series"@) == JsonView::Arr(body.list("timeSeries"@))
        }),
{
    lemma_names();
}

/// Listing metric descriptors asks for those that match the filter, for all where none is given.
pub proof fn monitoring_list_metric_descriptors_asks(opts: JsonView, env: EnvView)
    ensures
        project_of(opts, env) is None
            ==> refuses(Op::MonitoringListMetricDescriptors, opts, env, "missing project"@),
        project_of(opts, env) is Some ==> ({
            let project = project_of(opts, env)->0;
            let filter = opts.str_at("filter"@)->0;
            &&& call_of(Op::MonitoringListMetricDescriptors, opts, env) is Ok
            &&& ({
                let sent = call_of(Op::MonitoringListMetricDescriptors, opts, env)->Ok_0;
                &&& sent.method == Method::Get
                &&& opts.str_at("filter"@) is Some ==> asks_for(
                        sent.url,
                        "https://monitoring.googleapis.com/v3/"@,
                        seq!["projects"@, project, "metricDescriptors"@],
                        None,
                        seq![("filter"@, filter)],
                    )
                &&& opts.str_at("filter"@) is None ==> asks_for(
                        sent.url,
                        "https://monitoring.googleapis.com/v3/"@,
                        seq!["projects"@, project, "metricDescriptors"@],
                        None,
                        Seq::empty(),
                    )
                &&& sent.query == Seq::<(Seq<char>, Seq<char>)>::empty()
                &&& sent.headers == Seq::<(Seq<char>, Seq<char>)>::empty()
                &&& sent.body == BodyView::Empty
            })
        }),
{
    lemma_names();
    if project_of(opts, env) is Some {
        let project = project_of(opts, env)->0;
        let filter = opts.str_at("filter"@)->0;
        if opts.str_at("filter"@) is Some {
            lemma_monitoring_metric_descriptors_filter(project, filter);
        }
        if opts.str_at("filter"@) is None {
            lemma_monitoring_metric_descriptors(project);
        }
    }
}

/// Each item of the answer stands in its place.
pub proof fn monitoring_list_metric_descriptors_gives(opts: JsonView, env: EnvView, body: JsonView)
    requires
        call_of(Op::MonitoringListMetricDescriptors, opts, env) is Ok,
    ensures
        result_of(Op::MonitoringListMetricDescriptors, opts, env, ReplyView::Document(body)) is Ok,
        ({
            let project = project_of(opts, env)->0;
            let given = result_of(Op::MonitoringListMetricDescriptors, opts, env,
                ReplyView::Document(body))->Ok_0;
            &&& has_members(given, set!["project"@, "descriptors"@])
            &&& given.at("project"@) == JsonView::Str(project)
            &&& given.at("descriptors"@) is Arr
            &&& given.at("descriptors"@)->Arr_0.len() == body.list("metricDescriptors"@).len()
            &&& forall|i: int| 0 <= i < body.list("metricDescriptors"@).len() ==> {
                    let row = #[trigger] given.at("descriptors"@)->Arr_0[i];
                    let o = body.list("metricDescriptors"@)[i];
                    &&& has_members(row, set!["type"@, "display_name"@, "kind"@, "value_type"@])
                    &&& row.at("type"@) == o.at("type"@)
                    &&& row.at("display_name"@) == o.at("displayName"@)
                    &&& row.at("kind"@) == o.at("metricKind"@)
                    &&& row.at("value_type"@) == o.at("valueType"@)
                }
        }),
{
    lemma_names();
}

} // verus!
