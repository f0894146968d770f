//! What values stand for, and what is fixed.

use crate::benchmark::{BENCHMARK_TIMEOUT_SECS, file_name_text};
use crate::checks::ensure::reports_sets;
use crate::checks::manifest::is_optional_text;
use crate::checks::members::{
    AFFECTED_CRATES_SCRIPT, CLIPPY_BATCHES_SCRIPT, CargoPackage, TestBatch, document_crates,
    document_plan, entry_name, is_text_set, plan_entries, planned, reports_first, reports_plan,
    workspace_names,
};
use crate::checks::workflow::are_lines;
use crate::decode::config::NGRAM_CACHE_MAX_NGRAM;
use crate::document::{document_items, document_member, document_text};
use crate::host::control_loop::FATAL_ERROR_GRACE_MS;
use crate::host::lifecycle::{MANAGED_SHUTDOWN_TIMEOUT_NANOS, same_optional_text};
use crate::host::reconcile::{
    LoadAnswer, ReconciliationRequest, ReconciliationStep, RequestView, StepView,
};
use crate::host::unload::{RuntimeUnloadCandidate, candidate_views};
use crate::mesh::aliases::group_texts;
use crate::mesh::completion::EXCERPT_CHARS;
use crate::mesh::gateway::{
    FIRST_ANSWER_GRACE_SECS, HEDGE_DELAY_SECS, MOA_REQUIRES_JSON, MOA_REQUIRES_MODELS,
    REDUCER_TIMEOUT_SECS, STRONG_PATIENCE_SECS, VIRTUAL_MODEL_NAME, WORKER_TIMEOUT_SECS, Worker,
    header_texts, worker_views,
};
use crate::stage::forwarder::{FORWARDER_DROPPED, FORWARDER_STOPPED, FlushError, all_written};
use crate::text::texts;
use crate::text_set::TextSet;
use vstd::prelude::*;

verus! {

/// A list of texts holds the characters of each, in order, and so do groups of
/// such lists.
pub proof fn law_lists_hold_their_texts(
    list: Seq<String>,
    groups: Seq<Vec<String>>,
    headers: Seq<(&'static str, String)>,
    i: int,
)
    ensures
        texts(list).len() == list.len(),
        0 <= i < list.len() ==> texts(list)[i] == list[i]@,
        group_texts(groups).len() == groups.len(),
        0 <= i < groups.len() ==> group_texts(groups)[i] == texts(groups[i]@),
        header_texts(headers).len() == headers.len(),
        0 <= i < headers.len() ==> header_texts(headers)[i] == (headers[i].0@, headers[i].1@),
{
}

/// A worker is its name and its port, and a list of workers each of them.
pub proof fn law_workers_are_names_with_ports(workers: Seq<Worker>, i: int)
    ensures
        worker_views(workers).len() == workers.len(),
        0 <= i < workers.len() ==> worker_views(workers)[i].name == workers[i].name@,
        0 <= i < workers.len() ==> worker_views(workers)[i].port == workers[i].port,
{
}

/// A loaded model is its owner, its instance and its name, and a list of them
/// each of them.
pub proof fn law_candidates_are_owned_instances(candidates: Seq<RuntimeUnloadCandidate>, i: int)
    ensures
        candidate_views(candidates).len() == candidates.len(),
        0 <= i < candidates.len() ==> {
            let view = candidate_views(candidates)[i];
            &&& view.owner == candidates[i].owner
            &&& view.instance_id == candidates[i].instance_id@
            &&& view.model_name == candidates[i].model_name@
        },
{
}

/// A request asks for what it names, and a step is a request or an end.
pub proof fn law_steps_are_requests_or_ends(
    request: ReconciliationRequest,
    model_ref: String,
    spec: String,
    profile: String,
    answer: LoadAnswer,
    error: String,
)
    ensures
        (ReconciliationRequest::Unload { model_ref })@ == (RequestView::Unload {
            model_ref: model_ref@,
        }),
        (ReconciliationRequest::Load { spec, profile })@ == (RequestView::Load {
            spec: spec@,
            profile: profile@,
        }),
        ReconciliationStep::Request(request)@ == StepView::Request(request@),
        ReconciliationStep::Finished(Ok(answer))@ == StepView::Loaded(answer),
        ReconciliationStep::Finished(Err(error))@ == StepView::Failed(error@),
{
}

/// A plan holds the entries of each batch, in order, each by its name.
pub proof fn law_plans_hold_their_entries(
    plan: Vec<TestBatch>,
    batch: TestBatch,
    name: String,
    i: int,
)
    ensures
        entry_name(Some(name)) == Some(name@),
        entry_name(None) is None,
        batch@.len() == batch.crates@.len(),
        0 <= i < batch@.len() ==> batch@[i] == entry_name(batch.crates@[i]),
        plan_entries(None) is None,
        plan_entries(Some(plan)) matches Some(entries) && entries.len() == plan@.len() && (0 <= i
            < plan@.len() ==> entries[i] == plan@[i]@),
{
}

/// A document is a plan exactly if it is an array. Each batch lists the texts of
/// its member `crates`, in order, and none where that is no array.
pub proof fn law_documents_are_plans(document: serde_json::Value, i: int, k: int)
    ensures
        document_plan(document) is Some <==> document_items(document) is Some,
        document_items(document) matches Some(batches) ==> {
            let plan = document_plan(document)->0;
            &&& plan.len() == batches.len()
            &&& 0 <= i < batches.len() ==> plan[i] == document_crates(batches[i])
        },
        document_items(document_member(document, "crates"@)) is None ==> document_crates(
            document,
        ).len() == 0,
        document_items(document_member(document, "crates"@)) matches Some(items) ==> {
            &&& document_crates(document).len() == items.len()
            &&& 0 <= k < items.len() ==> document_crates(document)[k] == document_text(items[k])
        },
{
}

/// A result holds a set or a text that was found, or tells the problem with it.
pub proof fn law_results_hold_what_was_found(
    set: TextSet,
    text: String,
    lines: Vec<String>,
    wanted_set: Result<Set<Seq<char>>, Seq<char>>,
    wanted: Result<Option<Seq<char>>, Seq<char>>,
    wanted_lines: Option<Seq<Seq<char>>>,
)
    ensures
        is_text_set(Ok(set), wanted_set) <==> wanted_set == Ok::<Set<Seq<char>>, Seq<char>>(set@),
        is_text_set(Err(text), wanted_set) <==> wanted_set == Err::<Set<Seq<char>>, Seq<char>>(
            text@,
        ),
        is_optional_text(Ok(Some(text)), wanted) <==> wanted == Ok::<Option<Seq<char>>, Seq<char>>(
            Some(text@),
        ),
        is_optional_text(Ok(None), wanted) <==> wanted == Ok::<Option<Seq<char>>, Seq<char>>(None),
        is_optional_text(Err(text), wanted) <==> wanted == Err::<Option<Seq<char>>, Seq<char>>(
            text@,
        ),
        are_lines(Some(lines), wanted_lines) <==> wanted_lines == Some(texts(lines@)),
        are_lines(None, wanted_lines) <==> wanted_lines is None,
{
}

/// Two sets are compared only where both were found; otherwise the problem with
/// the expected one is told, or else that with the other. A plan comes before
/// the workspace.
pub proof fn law_sets_are_compared_where_both_were_found(
    result: Result<(), String>,
    expected: Set<Seq<char>>,
    actual: Set<Seq<char>>,
    found: Result<Set<Seq<char>>, Seq<char>>,
    problem: Seq<char>,
    context: Seq<char>,
    plan: Option<Seq<Seq<Option<Seq<char>>>>>,
    packages: Seq<CargoPackage>,
    members: Seq<Seq<char>>,
)
    ensures
        reports_first(result, Err(problem), found, context) <==> (result matches Err(message)
            && message@ == problem),
        reports_first(result, Ok(expected), Err(problem), context) <==> (result matches Err(
            message,
        ) && message@ == problem),
        reports_first(result, Ok(expected), Ok(actual), context) <==> reports_sets(
            result,
            expected,
            actual,
            context,
        ),
        reports_plan(result, plan, packages, members) <==> if planned(plan) is Err {
            result matches Err(message) && message@ == planned(plan)->Err_0
        } else if workspace_names(packages, members) is Err {
            result matches Err(message) && message@ == workspace_names(packages, members)->Err_0
        } else {
            reports_sets(
                result,
                workspace_names(packages, members)->Ok_0,
                planned(plan)->Ok_0,
                "Cargo test batch workspace coverage"@,
            )
        },
{
}

/// A flush that ended early was told of no result, or of a failure.
pub proof fn law_flushes_end_with_their_report<E>(error: E)
    ensures
        FlushError::<E>::Dropped.report() is None,
        FlushError::Failed(error).report() == Some(Err::<(), E>(error)),
{
}

/// A text that is there is compared by its characters, and one that is not there
/// is only like another that is not.
pub proof fn law_missing_texts_are_alike(left: String, right: String, name: &str)
    ensures
        same_optional_text(Some(left), Some(right)) <==> left@ == right@,
        same_optional_text(None, None),
        !same_optional_text(Some(left), None),
        !same_optional_text(None, Some(right)),
        file_name_text(Some(name)) == Some(name@),
        file_name_text(None) is None,
{
}

/// Results were written exactly where each of the receivers, up to the count,
/// may report so.
pub proof fn law_results_are_written_one_by_one<R, E, F: Fn(R) -> Option<Result<(), E>>>(
    receive: F,
    receivers: Seq<R>,
    count: int,
)
    requires
        0 <= count < receivers.len(),
    ensures
        all_written(receive, receivers, 0),
        all_written(receive, receivers, count + 1) <==> all_written(receive, receivers, count)
            && call_ensures(receive, (receivers[count],), Some(Ok::<(), E>(()))),
{
    if all_written(receive, receivers, count + 1) {
        assert(call_ensures(receive, (receivers[count],), Some(Ok::<(), E>(()))));
    }
}

/// The limits on time and size.
pub proof fn law_limits()
    ensures
        BENCHMARK_TIMEOUT_SECS == 25,
        WORKER_TIMEOUT_SECS == 60,
        REDUCER_TIMEOUT_SECS == 60,
        HEDGE_DELAY_SECS == 5,
        FIRST_ANSWER_GRACE_SECS == 3,
        STRONG_PATIENCE_SECS == 20,
        EXCERPT_CHARS == 200,
        NGRAM_CACHE_MAX_NGRAM == 4,
        FATAL_ERROR_GRACE_MS == 50,
        MANAGED_SHUTDOWN_TIMEOUT_NANOS == 3_000_000_000,
{
}

/// The names and words that others rely on.
pub proof fn law_fixed_words()
    ensures
        VIRTUAL_MODEL_NAME@ == "mesh"@,
        MOA_REQUIRES_JSON@ == "MoA requires a JSON body"@,
        MOA_REQUIRES_MODELS@ == "MoA requires ≥2 models available in the mesh"@,
        FORWARDER_STOPPED@ == "async activation forwarder stopped"@,
        FORWARDER_DROPPED@ == "async activation forwarder dropped result"@,
        AFFECTED_CRATES_SCRIPT@ == "scripts/affected-crates.sh"@,
        CLIPPY_BATCHES_SCRIPT@ == "scripts/plan-clippy-batches.sh"@,
{
}

} // verus!
