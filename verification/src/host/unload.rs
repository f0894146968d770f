//! Which loaded model an unload request means.

use crate::scan::{join, joined};
use crate::text::{concat, same_text, texts};
use vstd::prelude::*;

verus! {

/// Who looks after a loaded model.
#[derive(Debug, Clone, Copy, PartialEq, Eq, Structural)]
pub enum RuntimeUnloadOwner {
    Runtime,
    Managed,
}

/// A loaded model.
#[derive(Debug, PartialEq, Eq)]
pub struct RuntimeUnloadCandidate {
    pub owner: RuntimeUnloadOwner,
    pub instance_id: String,
    pub model_name: String,
}

/// What a loaded model is.
pub struct CandidateView {
    pub owner: RuntimeUnloadOwner,
    pub instance_id: Seq<char>,
    pub model_name: Seq<char>,
}

impl View for RuntimeUnloadCandidate {
    type V = CandidateView;

    open spec fn view(&self) -> CandidateView {
        CandidateView {
            owner: self.owner,
            instance_id: self.instance_id@,
            model_name: self.model_name@,
        }
    }
}

/// The loaded models of a list.
pub open spec fn candidate_views(candidates: Seq<RuntimeUnloadCandidate>) -> Seq<CandidateView> {
    candidates.map_values(|candidate: RuntimeUnloadCandidate| candidate@)
}

/// A model that the runtime or another owner has loaded.
#[derive(Debug, Clone, PartialEq, Eq)]
pub struct LoadedInstance {
    pub instance_id: String,
    pub model_name: String,
}

/// The loaded models of one owner.
pub open spec fn owned_by(
    owner: RuntimeUnloadOwner,
    instances: Seq<LoadedInstance>,
) -> Seq<CandidateView> {
    instances.map_values(
        |instance: LoadedInstance|
            CandidateView {
                owner,
                instance_id: instance.instance_id@,
                model_name: instance.model_name@,
            },
    )
}

fn push_candidates(
    candidates: &mut Vec<RuntimeUnloadCandidate>,
    owner: RuntimeUnloadOwner,
    instances: &Vec<LoadedInstance>,
)
    ensures
        candidate_views(final(candidates)@) == candidate_views(old(candidates)@) + owned_by(
            owner,
            instances@,
        ),
{
    let ghost before = candidate_views(candidates@);
    let ghost all = owned_by(owner, instances@);
    let mut i: usize = 0;
    assert(candidate_views(candidates@) =~= before + all.take(0));
    while i < instances.len()
        invariant
            i <= instances@.len(),
            all == owned_by(owner, instances@),
            candidate_views(candidates@) == before + all.take(i as int),
        decreases instances@.len() - i,
    {
        let ghost so_far = candidate_views(candidates@);
        let candidate = RuntimeUnloadCandidate {
            owner,
            instance_id: instances[i].instance_id.clone(),
            model_name: instances[i].model_name.clone(),
        };
        candidates.push(candidate);
        proof {
            assert(candidate@ == all[i as int]);
            assert(candidate_views(candidates@) =~= so_far.push(candidate@));
            assert(candidate_views(candidates@) =~= before + all.take(i + 1));
        }
        i += 1;
    }
    assert(all.take(i as int) =~= all);
}

/// All loaded models, those of the runtime first.
pub fn runtime_unload_candidates(
    runtime_models: &Vec<LoadedInstance>,
    managed_models: &Vec<LoadedInstance>,
) -> (candidates: Vec<RuntimeUnloadCandidate>)
    ensures
        candidate_views(candidates@) == owned_by(RuntimeUnloadOwner::Runtime, runtime_models@)
            + owned_by(RuntimeUnloadOwner::Managed, managed_models@),
{
    let mut candidates: Vec<RuntimeUnloadCandidate> = Vec::new();
    push_candidates(&mut candidates, RuntimeUnloadOwner::Runtime, runtime_models);
    push_candidates(&mut candidates, RuntimeUnloadOwner::Managed, managed_models);
    assert(candidate_views(candidates@) =~= owned_by(RuntimeUnloadOwner::Runtime, runtime_models@)
        + owned_by(RuntimeUnloadOwner::Managed, managed_models@));
    candidates
}

/// Why an unload request cannot be served.
#[derive(Debug, PartialEq, Eq)]
pub enum UnloadError {
    NotLoaded { target: String },
    /// The model is loaded more than once.
    Ambiguous { target: String, instance_ids: Vec<String> },
}

impl UnloadError {
    /// The text of the error.
    pub open spec fn text(self) -> Seq<char> {
        match self {
            UnloadError::NotLoaded { target } => "model or runtime instance '"@ + target@
                + "' is not loaded"@,
            UnloadError::Ambiguous { target, instance_ids } => "model '"@ + target@
                + "' has multiple loaded instances ("@ + joined(texts(instance_ids@), ", "@)
                + "); unload by runtime instance id"@,
        }
    }

    /// The text of the error.
    pub fn message(&self) -> (message: String)
        ensures
            message@ == self.text(),
    {
        match self {
            UnloadError::NotLoaded { target } => concat(
                concat("model or runtime instance '".to_owned(), target.as_str()),
                "' is not loaded",
            ),
            UnloadError::Ambiguous { target, instance_ids } => {
                let ids = join(instance_ids, ", ");
                concat(
                    concat(
                        concat(
                            concat("model '".to_owned(), target.as_str()),
                            "' has multiple loaded instances (",
                        ),
                        ids.as_str(),
                    ),
                    "); unload by runtime instance id",
                )
            },
        }
    }
}

/// The first loaded model with that instance id.
pub open spec fn with_instance_id(candidates: Seq<CandidateView>, target: Seq<char>) -> Option<
    CandidateView,
>
    decreases candidates.len(),
{
    if candidates.len() == 0 {
        None
    } else if candidates[0].instance_id == target {
        Some(candidates[0])
    } else {
        with_instance_id(candidates.drop_first(), target)
    }
}

/// The loaded models with that name.
pub open spec fn with_model_name(candidates: Seq<CandidateView>, target: Seq<char>) -> Seq<
    CandidateView,
>
    decreases candidates.len(),
{
    if candidates.len() == 0 {
        seq![]
    } else if candidates.last().model_name == target {
        with_model_name(candidates.drop_last(), target).push(candidates.last())
    } else {
        with_model_name(candidates.drop_last(), target)
    }
}

/// The instance ids of loaded models.
pub open spec fn instance_ids_of(candidates: Seq<CandidateView>) -> Seq<Seq<char>> {
    candidates.map_values(|candidate: CandidateView| candidate.instance_id)
}

/// Whether a verdict on a request is the right one: the model with that
/// instance id, or else the only one with that name.
pub open spec fn resolves(
    target: Seq<char>,
    candidates: Seq<CandidateView>,
    result: Result<RuntimeUnloadCandidate, UnloadError>,
) -> bool {
    let named = with_model_name(candidates, target);
    match with_instance_id(candidates, target) {
        Some(candidate) => result matches Ok(found) && found@ == candidate,
        None => if named.len() == 1 {
            result matches Ok(found) && found@ == named[0]
        } else if named.len() == 0 {
            result matches Err(UnloadError::NotLoaded { target: name }) && name@ == target
        } else {
            result matches Err(UnloadError::Ambiguous { target: name, instance_ids }) && name@
                == target && texts(instance_ids@) == instance_ids_of(named)
        },
    }
}

fn copy_of(candidate: &RuntimeUnloadCandidate) -> (copy: RuntimeUnloadCandidate)
    ensures
        copy@ == candidate@,
{
    RuntimeUnloadCandidate {
        owner: candidate.owner,
        instance_id: candidate.instance_id.clone(),
        model_name: candidate.model_name.clone(),
    }
}

fn find_instance(candidates: &Vec<RuntimeUnloadCandidate>, target: &str) -> (found: Option<
    RuntimeUnloadCandidate,
>)
    ensures
        match found {
            Some(found) => with_instance_id(candidate_views(candidates@), target@) == Some(found@),
            None => with_instance_id(candidate_views(candidates@), target@) is None,
        },
{
    let ghost all = candidate_views(candidates@);
    let mut i: usize = 0;
    assert(all.skip(0) =~= all);
    while i < candidates.len()
        invariant
            i <= candidates@.len(),
            all == candidate_views(candidates@),
            with_instance_id(all, target@) == with_instance_id(all.skip(i as int), target@),
        decreases candidates@.len() - i,
    {
        proof {
            assert(all.skip(i as int)[0] == candidates@[i as int]@);
            assert(all.skip(i as int).drop_first() =~= all.skip(i + 1));
        }
        if same_text(candidates[i].instance_id.as_str(), target) {
            return Some(copy_of(&candidates[i]));
        }
        i += 1;
    }
    None
}

fn find_named(candidates: &Vec<RuntimeUnloadCandidate>, target: &str) -> (found: Vec<
    RuntimeUnloadCandidate,
>)
    ensures
        candidate_views(found@) == with_model_name(candidate_views(candidates@), target@),
{
    let ghost all = candidate_views(candidates@);
    let mut found: Vec<RuntimeUnloadCandidate> = Vec::new();
    let mut i: usize = 0;
    assert(candidate_views(found@) =~= with_model_name(all.take(0), target@));
    while i < candidates.len()
        invariant
            i <= candidates@.len(),
            all == candidate_views(candidates@),
            candidate_views(found@) == with_model_name(all.take(i as int), target@),
        decreases candidates@.len() - i,
    {
        let ghost before = candidate_views(found@);
        proof {
            let now = all.take(i + 1);
            assert(now.drop_last() =~= all.take(i as int));
            assert(now.last() == candidates@[i as int]@);
        }
        if same_text(candidates[i].model_name.as_str(), target) {
            let copy = copy_of(&candidates[i]);
            found.push(copy);
            assert(candidate_views(found@) =~= before.push(copy@));
        }
        i += 1;
    }
    assert(all.take(i as int) =~= all);
    found
}

/// The loaded model that a request means: the one with that instance id, or
/// else the only one with that name.
pub fn resolve_runtime_unload_target(target: &str, candidates: Vec<RuntimeUnloadCandidate>) -> (result:
    Result<RuntimeUnloadCandidate, UnloadError>)
    ensures
        resolves(target@, candidate_views(candidates@), result),
{
    if let Some(found) = find_instance(&candidates, target) {
        return Ok(found);
    }
    let mut named = find_named(&candidates, target);
    let ghost all = candidate_views(named@);
    assert(all.len() == named@.len());
    if named.len() == 0 {
        return Err(UnloadError::NotLoaded { target: target.to_owned() });
    }
    if named.len() == 1 {
        let only = named.remove(0);
        assert(all[0] == only@);
        return Ok(only);
    }
    let mut instance_ids: Vec<String> = Vec::new();
    let mut i: usize = 0;
    let ghost ids = instance_ids_of(all);
    assert(texts(instance_ids@) =~= ids.take(0));
    while i < named.len()
        invariant
            i <= named@.len(),
            all == candidate_views(named@),
            ids == instance_ids_of(all),
            texts(instance_ids@) == ids.take(i as int),
        decreases named@.len() - i,
    {
        let ghost before = texts(instance_ids@);
        let id = named[i].instance_id.clone();
        instance_ids.push(id);
        proof {
            assert(all[i as int] == named@[i as int]@);
            assert(texts(instance_ids@) =~= before.push(id@));
            assert(texts(instance_ids@) =~= ids.take(i + 1));
        }
        i += 1;
    }
    assert(ids.take(i as int) =~= ids);
    Err(UnloadError::Ambiguous { target: target.to_owned(), instance_ids })
}

proof fn lemma_named_are_loaded(candidates: Seq<CandidateView>, target: Seq<char>, i: int)
    requires
        0 <= i < with_model_name(candidates, target).len(),
    ensures
        with_model_name(candidates, target)[i].model_name == target,
        candidates.contains(with_model_name(candidates, target)[i]),
    decreases candidates.len(),
{
    let rest = candidates.drop_last();
    let found = with_model_name(candidates, target);
    if candidates.last().model_name == target && i == found.len() - 1 {
        assert(candidates[candidates.len() - 1] == found[i]);
    } else {
        lemma_named_are_loaded(rest, target, i);
        let k = choose|k: int| 0 <= k < rest.len() && rest[k] == with_model_name(rest, target)[i];
        assert(candidates[k] == found[i]);
    }
}

proof fn lemma_instance_is_loaded(candidates: Seq<CandidateView>, target: Seq<char>)
    requires
        with_instance_id(candidates, target) is Some,
    ensures
        with_instance_id(candidates, target)->0.instance_id == target,
        candidates.contains(with_instance_id(candidates, target)->0),
    decreases candidates.len(),
{
    if candidates[0].instance_id != target {
        let rest = candidates.drop_first();
        lemma_instance_is_loaded(rest, target);
        let k = choose|k: int|
            0 <= k < rest.len() && rest[k] == with_instance_id(rest, target)->0;
        assert(candidates[k + 1] == rest[k]);
    } else {
        assert(candidates.contains(candidates[0]));
    }
}

/// Only a loaded model is ever unloaded, and only under its instance id or its
/// name.
pub proof fn law_unload_means_a_loaded_model(
    target: Seq<char>,
    candidates: Seq<CandidateView>,
    result: Result<RuntimeUnloadCandidate, UnloadError>,
)
    requires
        resolves(target, candidates, result),
        result is Ok,
    ensures
        candidates.contains(result->Ok_0@),
        result->Ok_0@.instance_id == target || result->Ok_0@.model_name == target,
{
    if with_instance_id(candidates, target) is Some {
        lemma_instance_is_loaded(candidates, target);
    } else {
        lemma_named_are_loaded(candidates, target, 0);
    }
}

proof fn lemma_first_instance(candidates: Seq<CandidateView>, target: Seq<char>, at: int)
    requires
        0 <= at < candidates.len(),
        candidates[at].instance_id == target,
        forall|k: int| 0 <= k < at ==> (#[trigger] candidates[k]).instance_id != target,
    ensures
        with_instance_id(candidates, target) == Some(candidates[at]),
    decreases candidates.len(),
{
    if at > 0 {
        let rest = candidates.drop_first();
        assert(candidates[0].instance_id != target);
        assert forall|k: int| 0 <= k < at - 1 implies (#[trigger] rest[k]).instance_id != target by {
            assert(rest[k] == candidates[k + 1]);
        }
        lemma_first_instance(rest, target, at - 1);
    }
}

proof fn lemma_no_instance(candidates: Seq<CandidateView>, target: Seq<char>)
    requires
        forall|k: int|
            0 <= k < candidates.len() ==> (#[trigger] candidates[k]).instance_id != target,
    ensures
        with_instance_id(candidates, target) is None,
    decreases candidates.len(),
{
    if candidates.len() > 0 {
        let rest = candidates.drop_first();
        assert(candidates[0].instance_id != target);
        assert forall|k: int| 0 <= k < rest.len() implies (#[trigger] rest[k]).instance_id
            != target by {
            assert(rest[k] == candidates[k + 1]);
        }
        lemma_no_instance(rest, target);
    }
}

proof fn lemma_named_are_filtered(candidates: Seq<CandidateView>, target: Seq<char>)
    ensures
        with_model_name(candidates, target) == candidates.filter(
            |candidate: CandidateView| candidate.model_name == target,
        ),
    decreases candidates.len(),
{
    reveal(Seq::filter);
    if candidates.len() > 0 {
        lemma_named_are_filtered(candidates.drop_last(), target);
    }
}

/// A request that names an instance means that instance, whatever models have
/// that name.
pub proof fn law_instance_ids_come_first(
    target: Seq<char>,
    candidates: Seq<CandidateView>,
    result: Result<RuntimeUnloadCandidate, UnloadError>,
    at: int,
)
    requires
        resolves(target, candidates, result),
        0 <= at < candidates.len(),
        candidates[at].instance_id == target,
        forall|k: int| 0 <= k < at ==> (#[trigger] candidates[k]).instance_id != target,
    ensures
        result matches Ok(found) && found@ == candidates[at],
{
    lemma_first_instance(candidates, target, at);
}

/// A request that names no instance means the one model of that name. Where
/// there is none it says so, and where there are several it lists their
/// instances in order.
pub proof fn law_names_have_to_be_unambiguous(
    target: Seq<char>,
    candidates: Seq<CandidateView>,
    result: Result<RuntimeUnloadCandidate, UnloadError>,
)
    requires
        resolves(target, candidates, result),
        forall|k: int|
            0 <= k < candidates.len() ==> (#[trigger] candidates[k]).instance_id != target,
    ensures
        ({
            let named = candidates.filter(
                |candidate: CandidateView| candidate.model_name == target,
            );
            &&& named.len() == 1 ==> (result matches Ok(found) && found@ == named[0])
            &&& named.len() == 0 ==> (result matches Err(UnloadError::NotLoaded { target: name })
                && name@ == target)
            &&& named.len() > 1 ==> (result matches Err(
                UnloadError::Ambiguous { target: name, instance_ids },
            ) && name@ == target && instance_ids@.len() == named.len() && forall|i: int|
                0 <= i < named.len() ==> (#[trigger] instance_ids@[i])@ == named[i].instance_id)
        }),
{
    lemma_no_instance(candidates, target);
    lemma_named_are_filtered(candidates, target);
    let named = with_model_name(candidates, target);
    if let Err(UnloadError::Ambiguous { target: _, instance_ids }) = result {
        if named.len() > 1 {
            assert(texts(instance_ids@).len() == named.len());
            assert forall|i: int| 0 <= i < named.len() implies (#[trigger] instance_ids@[i])@
                == named[i].instance_id by {
                assert(texts(instance_ids@)[i] == instance_ids@[i]@);
                assert(instance_ids_of(named)[i] == named[i].instance_id);
            }
        }
    }
}

/// Every loaded model can be unloaded, under its owner, its instance and its
/// name, those of the runtime before the others.
pub proof fn law_every_loaded_model_is_a_candidate(
    runtime_models: Seq<LoadedInstance>,
    managed_models: Seq<LoadedInstance>,
    i: int,
)
    ensures
        ({
            let all = owned_by(RuntimeUnloadOwner::Runtime, runtime_models) + owned_by(
                RuntimeUnloadOwner::Managed,
                managed_models,
            );
            &&& all.len() == runtime_models.len() + managed_models.len()
            &&& 0 <= i < runtime_models.len() ==> all[i].owner == RuntimeUnloadOwner::Runtime
                && all[i].instance_id == runtime_models[i].instance_id@ && all[i].model_name
                == runtime_models[i].model_name@
            &&& 0 <= i < managed_models.len() ==> all[runtime_models.len() + i].owner
                == RuntimeUnloadOwner::Managed && all[runtime_models.len() + i].instance_id
                == managed_models[i].instance_id@ && all[runtime_models.len() + i].model_name
                == managed_models[i].model_name@
        }),
{
}

} // verus!
