//! A turn that the models of the whole mesh take together.

use crate::json::{Json, bool_member};
use crate::mesh::aliases::{
    ModelTargets, base, group_texts, is_group, is_grouping, local_port, port_of,
};
use crate::mesh::thinking::{effective_enable_thinking_for_moa, request_asks};
use crate::number::{decimal, decimal_text};
use crate::text::{same_text, texts};
use vstd::prelude::*;

verus! {

/// The model that stands for the mesh as a whole.
pub const VIRTUAL_MODEL_NAME: &'static str = "mesh";

/// How long a worker may take, in seconds.
pub const WORKER_TIMEOUT_SECS: u64 = 60;

/// How long one attempt to bring the answers together may take, in seconds.
pub const REDUCER_TIMEOUT_SECS: u64 = 60;

/// After how many seconds a second attempt starts beside the first.
pub const HEDGE_DELAY_SECS: u64 = 5;

/// After how many seconds the best answer so far is taken.
pub const FIRST_ANSWER_GRACE_SECS: u64 = 3;

/// How many seconds the answers of small models wait for a strong one.
pub const STRONG_PATIENCE_SECS: u64 = 20;

/// What becomes of a request.
#[derive(Debug, Clone, Copy, PartialEq, Eq, Structural)]
pub enum MoaEntry {
    /// It is not for the mesh as a whole.
    PassOn,
    /// It is refused with status 400.
    BadRequest,
    /// The workers are to be found; this says whether they think.
    FindWorkers { enable_thinking: Option<bool> },
}

/// What a refused request is told.
pub const MOA_REQUIRES_JSON: &'static str = "MoA requires a JSON body";

/// What a request is told when there are too few models.
pub const MOA_REQUIRES_MODELS: &'static str = "MoA requires ≥2 models available in the mesh";

/// Whether a request is for the mesh as a whole.
pub open spec fn for_the_mesh(effective_model: Option<&str>) -> bool {
    effective_model matches Some(model) && model@ == VIRTUAL_MODEL_NAME@
}

/// What becomes of a request with the given model and body.
pub fn moa_entry(
    effective_model: Option<&str>,
    body: Option<&Json>,
    thinking_aliases: &Vec<String>,
) -> (entry: MoaEntry)
    ensures
        entry == if !for_the_mesh(effective_model) {
            MoaEntry::PassOn
        } else {
            match body {
                None => MoaEntry::BadRequest,
                Some(body) => MoaEntry::FindWorkers {
                    enable_thinking: Some(
                        request_asks(*body, texts(thinking_aliases@)) == Some(true),
                    ),
                },
            }
        },
{
    let ours = match effective_model {
        Some(model) => same_text(model, VIRTUAL_MODEL_NAME),
        None => false,
    };
    if !ours {
        return MoaEntry::PassOn;
    }
    match body {
        None => MoaEntry::BadRequest,
        Some(body) => MoaEntry::FindWorkers {
            enable_thinking: effective_enable_thinking_for_moa(body, thinking_aliases),
        },
    }
}

/// The models that can be workers: all but the one that stands for the mesh.
pub open spec fn real_models(names: Seq<Seq<char>>) -> Seq<Seq<char>>
    decreases names.len(),
{
    if names.len() == 0 {
        seq![]
    } else if names.last() == VIRTUAL_MODEL_NAME@ {
        real_models(names.drop_last())
    } else {
        real_models(names.drop_last()).push(names.last())
    }
}

/// The models that can be workers.
pub fn candidate_models(names: &Vec<String>) -> (models: Vec<String>)
    ensures
        texts(models@) == real_models(texts(names@)),
{
    let ghost all = texts(names@);
    let mut models: Vec<String> = Vec::new();
    let mut i: usize = 0;
    assert(texts(models@) =~= real_models(all.take(0)));
    while i < names.len()
        invariant
            i <= names@.len(),
            all == texts(names@),
            texts(models@) == real_models(all.take(i as int)),
        decreases names@.len() - i,
    {
        let ghost before = texts(models@);
        proof {
            let now = all.take(i + 1);
            assert(now.drop_last() =~= all.take(i as int));
            assert(now.last() == names@[i as int]@);
        }
        if !same_text(names[i].as_str(), VIRTUAL_MODEL_NAME) {
            models.push(names[i].clone());
            assert(texts(models@) =~= before.push(names@[i as int]@));
        }
        i += 1;
    }
    assert(all.take(i as int) =~= all);
    models
}

/// A worker: a model under one of its names, on a port of this node or at a
/// peer.
#[derive(Debug, Clone, PartialEq, Eq)]
pub struct Worker {
    pub name: String,
    pub port: Option<u16>,
}

/// What a worker is.
pub struct WorkerView {
    pub name: Seq<char>,
    pub port: Option<u16>,
}

impl View for Worker {
    type V = WorkerView;

    open spec fn view(&self) -> WorkerView {
        WorkerView { name: self.name@, port: self.port }
    }
}

/// The workers of a list.
pub open spec fn worker_views(workers: Seq<Worker>) -> Seq<WorkerView> {
    workers.map_values(|worker: Worker| worker@)
}

/// Where the search for workers stands.
pub struct SearchView {
    pub groups: Seq<Seq<Seq<char>>>,
    /// The model that is looked for.
    pub group: int,
    /// The name under which it is looked for.
    pub alias: int,
    /// Whether this node serves that name but cannot take the request.
    pub refused: bool,
    pub workers: Seq<WorkerView>,
}

/// What the search needs to know next.
#[derive(Debug, Clone, PartialEq, Eq)]
pub enum Question {
    /// Whether the model on this port takes the request.
    Local { name: String, port: u16 },
    /// Whether a peer takes the request under this name.
    Remote { name: String },
    /// Nothing.
    Done,
}

impl SearchView {
    /// Whether the search has looked for every model.
    pub open spec fn done(self) -> bool {
        self.group >= self.groups.len()
    }

    /// The name that is tried.
    pub open spec fn name(self) -> Seq<char> {
        self.groups[self.group][self.alias]
    }

    /// The port that is asked about, where this node is asked.
    pub open spec fn asks_port(self, targets: Option<&ModelTargets>) -> Option<u16> {
        if self.refused {
            None
        } else {
            port_of(self.name(), targets)
        }
    }

    /// The search at the next model, with one worker more.
    pub open spec fn found(self, worker: WorkerView) -> SearchView {
        SearchView {
            group: self.group + 1,
            alias: 0,
            refused: false,
            workers: self.workers.push(worker),
            ..self
        }
    }

    /// The search at the next name of the model, or at the next model where
    /// there is none.
    pub open spec fn missed(self) -> SearchView {
        if self.alias + 1 < self.groups[self.group].len() {
            SearchView { alias: self.alias + 1, refused: false, ..self }
        } else {
            SearchView { group: self.group + 1, alias: 0, refused: false, ..self }
        }
    }

    /// The search after an answer.
    pub open spec fn answered(self, targets: Option<&ModelTargets>, yes: bool) -> SearchView {
        match self.asks_port(targets) {
            Some(port) => if yes {
                self.found(WorkerView { name: self.name(), port: Some(port) })
            } else {
                SearchView { refused: true, ..self }
            },
            None => if yes {
                self.found(WorkerView { name: self.name(), port: None })
            } else {
                self.missed()
            },
        }
    }

    /// Whether the search is at one of the names.
    pub open spec fn valid(self) -> bool {
        &&& 0 <= self.group <= self.groups.len()
        &&& forall|g: int| 0 <= g < self.groups.len() ==> (#[trigger] self.groups[g]).len() > 0
        &&& self.group < self.groups.len() ==> 0 <= self.alias < self.groups[self.group].len()
        &&& self.group == self.groups.len() ==> self.alias == 0 && !self.refused
        &&& self.workers.len() <= self.group
    }
}

/// The search for one worker of each model.
pub struct WorkerSearch {
    groups: Vec<Vec<String>>,
    group: usize,
    alias: usize,
    refused: bool,
    workers: Vec<Worker>,
}

impl View for WorkerSearch {
    type V = SearchView;

    closed spec fn view(&self) -> SearchView {
        SearchView {
            groups: group_texts(self.groups@),
            group: self.group as int,
            alias: self.alias as int,
            refused: self.refused,
            workers: worker_views(self.workers@),
        }
    }
}

impl WorkerSearch {
    /// A search that has yet to look for the first model.
    pub fn new(groups: Vec<Vec<String>>) -> (search: WorkerSearch)
        requires
            forall|g: int| 0 <= g < groups@.len() ==> (#[trigger] groups@[g])@.len() > 0,
        ensures
            search@.valid(),
            search@ == (SearchView {
                groups: group_texts(groups@),
                group: 0,
                alias: 0,
                refused: false,
                workers: Seq::empty(),
            }),
    {
        let search = WorkerSearch {
            groups,
            group: 0,
            alias: 0,
            refused: false,
            workers: Vec::new(),
        };
        proof {
            assert(search@.workers =~= Seq::empty());
            assert forall|g: int| 0 <= g < search@.groups.len() implies (
            #[trigger] search@.groups[g]).len() > 0 by {
                assert(groups@[g]@.len() > 0);
            }
            if groups@.len() > 0 {
                assert(search@.groups[0].len() > 0);
            }
        }
        search
    }

    fn current(&self) -> (name: &String)
        requires
            self@.valid(),
            !self@.done(),
        ensures
            name@ == self@.name(),
    {
        proof {
            assert(self@.groups[self.group as int] == texts(self.groups@[self.group as int]@));
        }
        &self.groups[self.group][self.alias]
    }

    /// What the search needs to know next.
    pub fn question(&self, targets: Option<&ModelTargets>) -> (question: Question)
        requires
            self@.valid(),
        ensures
            match question {
                Question::Done => self@.done(),
                Question::Local { name, port } => !self@.done() && name@ == self@.name()
                    && self@.asks_port(targets) == Some(port),
                Question::Remote { name } => !self@.done() && name@ == self@.name()
                    && self@.asks_port(targets) is None,
            },
    {
        if self.group >= self.groups.len() {
            return Question::Done;
        }
        let name = self.current().clone();
        if !self.refused {
            if let Some(port) = local_port(name.as_str(), targets) {
                return Question::Local { name, port };
            }
        }
        Question::Remote { name }
    }

    /// Takes in the answer to the question.
    pub fn answer(&mut self, targets: Option<&ModelTargets>, yes: bool)
        requires
            old(self)@.valid(),
            !old(self)@.done(),
        ensures
            final(self)@.valid(),
            final(self)@ == old(self)@.answered(targets, yes),
    {
        let ghost before = self@;
        proof {
            assert(self@.groups[self.group as int] == texts(self.groups@[self.group as int]@));
            if self.group + 1 < self.groups@.len() {
                assert(self@.groups[self.group + 1].len() > 0);
            }
        }
        let total: usize = self.groups.len();
        let names: usize = self.groups[self.group].len();
        assert(self.group < total && self.alias < names);
        let name = self.current().clone();
        let port: Option<u16> = if self.refused {
            None
        } else {
            local_port(name.as_str(), targets)
        };
        if yes {
            self.workers.push(Worker { name, port });
            assert(worker_views(self.workers@) =~= before.workers.push(
                WorkerView { name: name@, port },
            ));
            self.group = self.group + 1;
            self.alias = 0;
            self.refused = false;
        } else if port.is_some() {
            self.refused = true;
        } else if self.alias + 1 < names {
            self.alias = self.alias + 1;
            self.refused = false;
        } else {
            self.group = self.group + 1;
            self.alias = 0;
            self.refused = false;
        }
    }

    /// The workers, where there are at least two.
    pub fn finish(self) -> (plan: Option<MoaPlan>)
        ensures
            match plan {
                Some(plan) => {
                    &&& self@.workers.len() >= 2
                    &&& worker_views(plan.workers@) == self@.workers
                    &&& plan.local_count == local_workers(self@.workers)
                    &&& plan.worker_timeout_secs == WORKER_TIMEOUT_SECS
                    &&& plan.reducer_timeout_secs == REDUCER_TIMEOUT_SECS
                    &&& plan.hedge_delay_secs == HEDGE_DELAY_SECS
                    &&& plan.first_answer_grace_secs == FIRST_ANSWER_GRACE_SECS
                    &&& plan.strong_patience_secs == STRONG_PATIENCE_SECS
                    &&& plan.enable_thinking is None
                },
                None => self@.workers.len() < 2,
            },
    {
        if self.workers.len() < 2 {
            return None;
        }
        let local_count: usize = count_local(&self.workers);
        Some(
            MoaPlan {
                workers: self.workers,
                local_count,
                worker_timeout_secs: WORKER_TIMEOUT_SECS,
                reducer_timeout_secs: REDUCER_TIMEOUT_SECS,
                hedge_delay_secs: HEDGE_DELAY_SECS,
                first_answer_grace_secs: FIRST_ANSWER_GRACE_SECS,
                strong_patience_secs: STRONG_PATIENCE_SECS,
                enable_thinking: None,
            },
        )
    }
}

/// How many of the workers run on this node.
pub open spec fn local_workers(workers: Seq<WorkerView>) -> nat
    decreases workers.len(),
{
    if workers.len() == 0 {
        0
    } else {
        local_workers(workers.drop_last()) + if workers.last().port is Some {
            1nat
        } else {
            0nat
        }
    }
}

fn count_local(workers: &Vec<Worker>) -> (count: usize)
    ensures
        count == local_workers(worker_views(workers@)),
{
    let ghost all = worker_views(workers@);
    let mut count: usize = 0;
    let mut i: usize = 0;
    while i < workers.len()
        invariant
            i <= workers@.len(),
            count <= i,
            all == worker_views(workers@),
            count == local_workers(all.take(i as int)),
        decreases workers@.len() - i,
    {
        proof {
            let now = all.take(i + 1);
            assert(now.drop_last() =~= all.take(i as int));
            assert(now.last() == workers@[i as int]@);
        }
        if workers[i].port.is_some() {
            count += 1;
        }
        i += 1;
    }
    assert(all.take(i as int) =~= all);
    count
}

/// Who takes part in a turn, and how long everything may take.
#[derive(Debug)]
pub struct MoaPlan {
    pub workers: Vec<Worker>,
    pub local_count: usize,
    pub worker_timeout_secs: u64,
    pub reducer_timeout_secs: u64,
    pub hedge_delay_secs: u64,
    pub first_answer_grace_secs: u64,
    pub strong_patience_secs: u64,
    pub enable_thinking: Option<bool>,
}

/// The worker of one name, where the answers are given by `local` and
/// `remote`.
pub open spec fn worker_of(
    name: Seq<char>,
    targets: Option<&ModelTargets>,
    local: spec_fn(Seq<char>) -> bool,
    remote: spec_fn(Seq<char>) -> bool,
) -> Option<WorkerView> {
    if port_of(name, targets) is Some && local(name) {
        Some(WorkerView { name, port: port_of(name, targets) })
    } else if remote(name) {
        Some(WorkerView { name, port: None })
    } else {
        None
    }
}

/// The worker of the first name from `from` on that has one.
pub open spec fn worker_of_group(
    group: Seq<Seq<char>>,
    from: int,
    targets: Option<&ModelTargets>,
    local: spec_fn(Seq<char>) -> bool,
    remote: spec_fn(Seq<char>) -> bool,
) -> Option<WorkerView>
    decreases group.len() - from,
{
    if from >= group.len() {
        None
    } else {
        match worker_of(group[from], targets, local, remote) {
            Some(worker) => Some(worker),
            None => worker_of_group(group, from + 1, targets, local, remote),
        }
    }
}

/// A worker more, where there is one.
pub open spec fn with_worker(workers: Seq<WorkerView>, worker: Option<WorkerView>) -> Seq<
    WorkerView,
> {
    match worker {
        Some(worker) => workers.push(worker),
        None => workers,
    }
}

/// The workers with those of the groups from `from` on.
pub open spec fn workers_of_groups(
    workers: Seq<WorkerView>,
    groups: Seq<Seq<Seq<char>>>,
    from: int,
    targets: Option<&ModelTargets>,
    local: spec_fn(Seq<char>) -> bool,
    remote: spec_fn(Seq<char>) -> bool,
) -> Seq<WorkerView>
    decreases groups.len() - from,
{
    if from >= groups.len() {
        workers
    } else {
        workers_of_groups(
            with_worker(workers, worker_of_group(groups[from], 0, targets, local, remote)),
            groups,
            from + 1,
            targets,
            local,
            remote,
        )
    }
}

/// The workers that a search comes to.
pub open spec fn outcome(
    search: SearchView,
    targets: Option<&ModelTargets>,
    local: spec_fn(Seq<char>) -> bool,
    remote: spec_fn(Seq<char>) -> bool,
) -> Seq<WorkerView> {
    if search.done() {
        search.workers
    } else {
        let worker = if search.refused {
            if remote(search.name()) {
                Some(WorkerView { name: search.name(), port: None })
            } else {
                worker_of_group(
                    search.groups[search.group],
                    search.alias + 1,
                    targets,
                    local,
                    remote,
                )
            }
        } else {
            worker_of_group(search.groups[search.group], search.alias, targets, local, remote)
        };
        workers_of_groups(
            with_worker(search.workers, worker),
            search.groups,
            search.group + 1,
            targets,
            local,
            remote,
        )
    }
}

/// What the answer to the question is.
pub open spec fn true_answer(
    search: SearchView,
    targets: Option<&ModelTargets>,
    local: spec_fn(Seq<char>) -> bool,
    remote: spec_fn(Seq<char>) -> bool,
) -> bool {
    if search.asks_port(targets) is Some {
        local(search.name())
    } else {
        remote(search.name())
    }
}

/// A search that has just begun comes to one worker for each model of which
/// some name can be reached: the first such name, on this node where it can.
pub proof fn law_search_tries_every_alias(
    search: SearchView,
    targets: Option<&ModelTargets>,
    local: spec_fn(Seq<char>) -> bool,
    remote: spec_fn(Seq<char>) -> bool,
)
    requires
        search.valid(),
        search.group == 0,
        search.alias == 0,
        !search.refused,
        search.workers.len() == 0,
    ensures
        outcome(search, targets, local, remote) == workers_of_groups(
            Seq::empty(),
            search.groups,
            0,
            targets,
            local,
            remote,
        ),
{
    assert(search.workers =~= Seq::empty());
}

/// An answer that is true does not change what the search comes to.
pub proof fn law_true_answers_keep_outcome(
    search: SearchView,
    targets: Option<&ModelTargets>,
    local: spec_fn(Seq<char>) -> bool,
    remote: spec_fn(Seq<char>) -> bool,
)
    requires
        search.valid(),
        !search.done(),
        search.refused ==> port_of(search.name(), targets) is Some && !local(search.name()),
    ensures
        ({
            let after = search.answered(targets, true_answer(search, targets, local, remote));
            &&& outcome(after, targets, local, remote) == outcome(search, targets, local, remote)
            &&& after.refused ==> port_of(after.name(), targets) is Some && !local(after.name())
        }),
{
    let group = search.groups[search.group];
    let after = search.answered(targets, true_answer(search, targets, local, remote));
    reveal_with_fuel(worker_of_group, 2);
    if !after.done() && after.group > search.group {
        assert(after.groups[after.group].len() > 0);
        reveal_with_fuel(workers_of_groups, 2);
    }
    if after.done() {
        reveal_with_fuel(workers_of_groups, 2);
    }
}

/// Every answer brings the search closer to its end.
pub proof fn law_search_ends(search: SearchView, targets: Option<&ModelTargets>, yes: bool)
    requires
        search.valid(),
        !search.done(),
    ensures
        ({
            let after = search.answered(targets, yes);
            ||| after.group > search.group
            ||| after.group == search.group && after.alias > search.alias
            ||| after.group == search.group && after.alias == search.alias && after.refused
                && !search.refused
        }),
{
}

/// The search after a list of answers, of which none is taken in once every
/// model was looked for.
pub open spec fn after_answers(
    search: SearchView,
    targets: Option<&ModelTargets>,
    answers: Seq<bool>,
) -> SearchView
    decreases answers.len(),
{
    if answers.len() == 0 {
        search
    } else {
        let earlier = after_answers(search, targets, answers.drop_last());
        if earlier.done() {
            earlier
        } else {
            earlier.answered(targets, answers.last())
        }
    }
}

/// Whether each worker is of a group before the one that is looked at, and no
/// two of them have the same base.
pub open spec fn one_worker_per_model(search: SearchView) -> bool {
    &&& forall|w: int|
        0 <= w < search.workers.len() ==> exists|g: int|
            0 <= g < search.group && (#[trigger] search.groups[g]).contains(
                (#[trigger] search.workers[w]).name,
            )
    &&& forall|v: int, w: int|
        0 <= v < w < search.workers.len() ==> base((#[trigger] search.workers[v]).name) != base(
            (#[trigger] search.workers[w]).name,
        )
}

proof fn lemma_answer_keeps_models_apart(
    search: SearchView,
    names: Seq<Seq<char>>,
    targets: Option<&ModelTargets>,
    yes: bool,
)
    requires
        search.valid(),
        !search.done(),
        is_grouping(names, targets, search.groups),
        one_worker_per_model(search),
    ensures
        search.answered(targets, yes).valid(),
        one_worker_per_model(search.answered(targets, yes)),
{
    let after = search.answered(targets, yes);
    let here = search.group;
    if here + 1 < search.groups.len() {
        assert(search.groups[here + 1].len() > 0);
    }
    assert(is_group(search.groups[here], targets));
    assert(search.groups[here].contains(search.name()));
    assert(base(search.groups[here][search.alias]) == base(search.groups[here][0]));
    assert forall|w: int| 0 <= w < after.workers.len() implies exists|g: int|
        0 <= g < after.group && (#[trigger] after.groups[g]).contains(
            (#[trigger] after.workers[w]).name,
        ) by {
        if w < search.workers.len() {
            assert(after.workers[w] == search.workers[w]);
            let g = choose|g: int|
                0 <= g < search.group && (#[trigger] search.groups[g]).contains(
                    search.workers[w].name,
                );
            assert(after.groups[g].contains(after.workers[w].name));
        } else {
            assert(after.groups[here].contains(after.workers[w].name));
        }
    }
    assert forall|v: int, w: int| 0 <= v < w < after.workers.len() implies base(
        (#[trigger] after.workers[v]).name,
    ) != base((#[trigger] after.workers[w]).name) by {
        assert(after.workers[v] == search.workers[v]);
        if w < search.workers.len() {
            assert(after.workers[w] == search.workers[w]);
        } else {
            let g = choose|g: int|
                0 <= g < search.group && (#[trigger] search.groups[g]).contains(
                    search.workers[v].name,
                );
            assert(is_group(search.groups[g], targets));
            let i = choose|i: int|
                0 <= i < search.groups[g].len() && search.groups[g][i] == search.workers[v].name;
            assert(base(search.groups[g][i]) == base(search.groups[g][0]));
            assert(base(search.groups[g][0]) != base(search.groups[here][0]));
        }
    }
}

proof fn lemma_answers_keep_models_apart(
    search: SearchView,
    names: Seq<Seq<char>>,
    targets: Option<&ModelTargets>,
    answers: Seq<bool>,
)
    requires
        search.valid(),
        is_grouping(names, targets, search.groups),
        one_worker_per_model(search),
    ensures
        after_answers(search, targets, answers).valid(),
        after_answers(search, targets, answers).groups == search.groups,
        one_worker_per_model(after_answers(search, targets, answers)),
    decreases answers.len(),
{
    if answers.len() > 0 {
        lemma_answers_keep_models_apart(search, names, targets, answers.drop_last());
        let earlier = after_answers(search, targets, answers.drop_last());
        if !earlier.done() {
            lemma_answer_keeps_models_apart(earlier, names, targets, answers.last());
        }
    }
}

/// Every model contributes at most one worker: whatever is answered on the way,
/// no two workers of a search among grouped names have the same base.
pub proof fn law_one_worker_per_model(
    search: SearchView,
    names: Seq<Seq<char>>,
    targets: Option<&ModelTargets>,
    answers: Seq<bool>,
    v: int,
    w: int,
)
    requires
        search.valid(),
        search.group == 0,
        search.workers.len() == 0,
        is_grouping(names, targets, search.groups),
        0 <= v < w < after_answers(search, targets, answers).workers.len(),
    ensures
        base(after_answers(search, targets, answers).workers[v].name) != base(
            after_answers(search, targets, answers).workers[w].name,
        ),
{
    lemma_answers_keep_models_apart(search, names, targets, answers);
}

/// What a response is turned into on its way to the client. `A` tells the
/// other ways apart; it is only passed on.
#[derive(Debug, Clone, Copy, PartialEq, Eq)]
pub enum ResponseAdapter<A> {
    Unchanged,
    OpenAiChatCompletionsStream,
    OpenAiResponsesStream,
    /// Any other.
    Other(A),
}

/// How a turn is run.
#[derive(Debug, Clone, Copy, PartialEq, Eq, Structural)]
pub struct TurnMode {
    /// Whether the client asked for a stream.
    pub was_streaming: bool,
    /// Whether headers go out at once and progress is told on the way.
    pub with_progress: bool,
}

/// How a turn is run: progress is told where the client asked for a stream
/// and the response goes out as one.
pub fn turn_mode<A>(body: &Json, adapter: &ResponseAdapter<A>) -> (mode: TurnMode)
    ensures
        mode.was_streaming == (bool_member(*body, "stream"@) == Some(true)),
        mode.with_progress == (mode.was_streaming && !(*adapter is Other)),
{
    let was_streaming = matches!(body.get_bool("stream"), Some(true));
    let streams = matches!(
        adapter,
        ResponseAdapter::Unchanged
        | ResponseAdapter::OpenAiChatCompletionsStream
        | ResponseAdapter::OpenAiResponsesStream
    );
    TurnMode { was_streaming, with_progress: was_streaming && streams }
}

/// What a turn came to.
#[derive(Debug, Clone)]
pub struct TurnReport {
    pub elapsed_ms: u64,
    pub turn_label: String,
    /// Whether each of the workers succeeded.
    pub workers_succeeded: Vec<bool>,
    pub reducer_used: String,
    pub reducer_attempts: u64,
}

/// How many of the workers succeeded.
pub open spec fn successes(workers: Seq<bool>) -> nat
    decreases workers.len(),
{
    if workers.len() == 0 {
        0
    } else {
        successes(workers.drop_last()) + if workers.last() {
            1nat
        } else {
            0nat
        }
    }
}

fn count_successes(workers: &Vec<bool>) -> (count: usize)
    ensures
        count == successes(workers@),
{
    let mut count: usize = 0;
    let mut i: usize = 0;
    while i < workers.len()
        invariant
            i <= workers@.len(),
            count <= i,
            count == successes(workers@.take(i as int)),
        decreases workers@.len() - i,
    {
        assert(workers@.take(i + 1).drop_last() =~= workers@.take(i as int));
        if workers[i] {
            count += 1;
        }
        i += 1;
    }
    assert(workers@.take(i as int) =~= workers@);
    count
}

/// The headers of a list, as texts.
pub open spec fn header_texts(headers: Seq<(&'static str, String)>) -> Seq<(Seq<char>, Seq<char>)> {
    headers.map_values(|header: (&'static str, String)| (header.0@, header.1@))
}

/// The headers that tell what a turn came to.
pub open spec fn moa_headers(report: TurnReport) -> Seq<(Seq<char>, Seq<char>)> {
    seq![
        ("x-moa-elapsed-ms"@, decimal(report.elapsed_ms as nat)),
        ("x-moa-turn"@, report.turn_label@),
        ("x-moa-workers"@, decimal(report.workers_succeeded@.len())),
        ("x-moa-workers-ok"@, decimal(successes(report.workers_succeeded@))),
        ("x-moa-reducer"@, report.reducer_used@),
        ("x-moa-reducer-attempts"@, decimal(report.reducer_attempts as nat)),
    ]
}

/// The headers that tell what a turn came to.
pub fn build_moa_headers(report: &TurnReport) -> (headers: Vec<(&'static str, String)>)
    ensures
        header_texts(headers@) == moa_headers(*report),
{
    let workers_ok: usize = count_successes(&report.workers_succeeded);
    let workers_total: usize = report.workers_succeeded.len();
    let mut headers: Vec<(&'static str, String)> = Vec::new();
    headers.push(("x-moa-elapsed-ms", decimal_text(report.elapsed_ms)));
    headers.push(("x-moa-turn", report.turn_label.clone()));
    headers.push(("x-moa-workers", decimal_text(workers_total as u64)));
    headers.push(("x-moa-workers-ok", decimal_text(workers_ok as u64)));
    headers.push(("x-moa-reducer", report.reducer_used.clone()));
    headers.push(("x-moa-reducer-attempts", decimal_text(report.reducer_attempts)));
    assert(header_texts(headers@) =~= moa_headers(*report));
    headers
}

/// A request is for the mesh as a whole exactly if its model is `mesh`, and all
/// other models of the mesh can be workers, each as often as it is served and in
/// the same order.
pub proof fn law_mesh_is_no_worker(names: Seq<Seq<char>>, model: &str)
    ensures
        for_the_mesh(Some(model)) <==> model@ == "mesh"@,
        !for_the_mesh(None),
        real_models(names) == names.filter(|name: Seq<char>| name != "mesh"@),
    decreases names.len(),
{
    reveal(Seq::filter);
    if names.len() > 0 {
        law_mesh_is_no_worker(names.drop_last(), model);
    }
}

/// What a turn may take, in seconds: a minute for a worker and for each attempt
/// to bring the answers together, five before a second attempt, three for a
/// better answer, twenty for a strong one.
pub proof fn law_turns_are_limited()
    ensures
        WORKER_TIMEOUT_SECS == 60,
        REDUCER_TIMEOUT_SECS == 60,
        HEDGE_DELAY_SECS == 5,
        FIRST_ANSWER_GRACE_SECS == 3,
        STRONG_PATIENCE_SECS == 20,
{
}

/// What the search asks and what it makes of the answer. This node is asked
/// first where it serves the name; where it refuses, a peer is asked under the
/// same name; then the next name of the model is tried, and after the last name
/// the next model. Whoever takes the request becomes the model's worker.
pub proof fn law_search_goes_on_from_each_answer(
    search: SearchView,
    targets: Option<&ModelTargets>,
)
    requires
        search.valid(),
        !search.done(),
    ensures
        ({
            let name = search.groups[search.group][search.alias];
            let here = port_of(name, targets) is Some && !search.refused;
            let yes = search.answered(targets, true);
            let no = search.answered(targets, false);
            let more = search.alias + 1 < search.groups[search.group].len();
            &&& search.name() == name
            &&& here ==> search.asks_port(targets) == port_of(name, targets)
            &&& !here ==> search.asks_port(targets) is None
            &&& yes.workers == search.workers.push(
                WorkerView {
                    name,
                    port: if here {
                        port_of(name, targets)
                    } else {
                        None
                    },
                },
            )
            &&& yes.group == search.group + 1 && yes.alias == 0 && !yes.refused
            &&& no.workers == search.workers
            &&& here ==> no.group == search.group && no.alias == search.alias && no.refused
            &&& !here && more ==> no.group == search.group && no.alias == search.alias + 1
                && !no.refused
            &&& !here && !more ==> no.group == search.group + 1 && no.alias == 0 && !no.refused
            &&& yes.groups == search.groups && no.groups == search.groups
        }),
{
}

/// The workers on this node are those with a port of it, and the workers that
/// succeeded are counted one by one.
pub proof fn law_workers_are_counted(workers: Seq<WorkerView>, succeeded: Seq<bool>)
    ensures
        local_workers(workers) == workers.filter(|worker: WorkerView| worker.port is Some).len(),
        successes(succeeded) == succeeded.filter(|success: bool| success).len(),
    decreases workers.len() + succeeded.len(),
{
    reveal(Seq::filter);
    if workers.len() > 0 {
        law_workers_are_counted(workers.drop_last(), succeeded);
    }
    if succeeded.len() > 0 {
        law_workers_are_counted(workers, succeeded.drop_last());
    }
}

/// The headers of a turn tell how long it took, what kind it was, how many
/// workers took part and how many succeeded, and who brought the answers
/// together in how many attempts.
pub proof fn law_headers_tell_the_turn(report: TurnReport)
    ensures
        ({
            let headers = moa_headers(report);
            &&& headers.len() == 6
            &&& headers[0] == ("x-moa-elapsed-ms"@, decimal(report.elapsed_ms as nat))
            &&& headers[1] == ("x-moa-turn"@, report.turn_label@)
            &&& headers[2] == ("x-moa-workers"@, decimal(report.workers_succeeded@.len()))
            &&& headers[3] == (
                "x-moa-workers-ok"@,
                decimal(report.workers_succeeded@.filter(|success: bool| success).len()),
            )
            &&& headers[4] == ("x-moa-reducer"@, report.reducer_used@)
            &&& headers[5] == ("x-moa-reducer-attempts"@, decimal(report.reducer_attempts as nat))
        }),
{
    law_workers_are_counted(Seq::empty(), report.workers_succeeded@);
}

} // verus!
