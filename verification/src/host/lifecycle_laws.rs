//! What the steps in the life of a model leave behind.

use crate::host::lifecycle::{
    ModelConfigEntry, ModelStep, ProcessStatus, ctx_size_override, entry_position, step_if,
    steps_after_exit, steps_after_reserve, steps_after_start, steps_to_finish_exit,
    steps_to_finish_managed_unload, steps_to_finish_stop, steps_to_finish_unload, steps_to_stop,
    steps_to_unload,
};
use vstd::prelude::*;

verus! {

/// What is on record of one instance of a model.
pub struct InstanceBooks {
    /// Whether memory is set aside for it.
    pub reserved: bool,
    /// Whether the mesh was told that this node will serve it.
    pub assigned: bool,
    /// Whether it runs.
    pub running: bool,
    /// Whether requests are routed to it.
    pub routed: bool,
    pub registered: bool,
    /// Whether it is on the list of loaded models.
    pub kept: bool,
    pub surveyed: bool,
    pub usage_shown: bool,
    pub shown: Option<ProcessStatus>,
    pub console_shown: Option<ProcessStatus>,
    /// Whether it was ever shut down while requests were routed to it.
    pub cut_off: bool,
    /// Whether its memory was ever given back while it ran.
    pub overcommitted: bool,
}

impl InstanceBooks {
    /// The books of an instance for which memory has been set aside.
    pub open spec fn reserved_only() -> InstanceBooks {
        InstanceBooks { reserved: true, ..InstanceBooks::nothing() }
    }

    /// The books of an instance of which nothing is on record.
    pub open spec fn nothing() -> InstanceBooks {
        InstanceBooks {
            reserved: false,
            assigned: false,
            running: false,
            routed: false,
            registered: false,
            kept: false,
            surveyed: false,
            usage_shown: false,
            shown: None,
            console_shown: None,
            cut_off: false,
            overcommitted: false,
        }
    }

    /// The books after a step.
    pub open spec fn after(self, step: ModelStep) -> InstanceBooks {
        match step {
            ModelStep::AddServingAssignment => InstanceBooks { assigned: true, ..self },
            ModelStep::RemoveServingAssignment => InstanceBooks { assigned: false, ..self },
            ModelStep::ReleaseCapacity => InstanceBooks {
                reserved: false,
                overcommitted: self.overcommitted || self.running,
                ..self
            },
            ModelStep::RecordLaunchSuccess => InstanceBooks { running: true, ..self },
            ModelStep::AddLocalTarget => InstanceBooks { routed: true, ..self },
            ModelStep::RemoveLocalTarget => InstanceBooks { routed: false, ..self },
            ModelStep::RegisterInstance => InstanceBooks { registered: true, ..self },
            ModelStep::UnregisterInstance => InstanceBooks { registered: false, ..self },
            ModelStep::ShowProcess(status) => InstanceBooks { shown: Some(status), ..self },
            ModelStep::ShowConsoleProcess(status) => InstanceBooks {
                console_shown: Some(status),
                ..self
            },
            ModelStep::RefreshContextUsage => InstanceBooks { usage_shown: true, ..self },
            ModelStep::RemoveContextUsage => InstanceBooks { usage_shown: false, ..self },
            ModelStep::RememberSurvey => InstanceBooks { surveyed: true, ..self },
            ModelStep::RecordSurveyUnload | ModelStep::RecordSurveyExit => InstanceBooks {
                surveyed: false,
                ..self
            },
            ModelStep::KeepModel => InstanceBooks { kept: true, ..self },
            ModelStep::RemoveModel => InstanceBooks { kept: false, ..self },
            ModelStep::ShutdownHandle => InstanceBooks {
                running: false,
                cut_off: self.cut_off || self.routed,
                ..self
            },
            ModelStep::RemoveProcess => InstanceBooks { shown: None, ..self },
            ModelStep::RemoveConsoleProcess => InstanceBooks { console_shown: None, ..self },
            _ => self,
        }
    }
}

/// The books after a list of steps.
pub open spec fn books_after(start: InstanceBooks, steps: Seq<ModelStep>) -> InstanceBooks
    decreases steps.len(),
{
    if steps.len() == 0 {
        start
    } else {
        books_after(start, steps.drop_last()).after(steps.last())
    }
}

broadcast proof fn lemma_books_empty(start: InstanceBooks)
    ensures
        #[trigger] books_after(start, Seq::<ModelStep>::empty()) == start,
{
}

broadcast proof fn lemma_books_push(start: InstanceBooks, steps: Seq<ModelStep>, step: ModelStep)
    ensures
        #[trigger] books_after(start, steps.push(step)) == books_after(start, steps).after(step),
{
    assert(steps.push(step).drop_last() =~= steps);
}

broadcast proof fn lemma_books_add(
    start: InstanceBooks,
    first: Seq<ModelStep>,
    second: Seq<ModelStep>,
)
    ensures
        #[trigger] books_after(start, first + second) == books_after(
            books_after(start, first),
            second,
        ),
    decreases second.len(),
{
    if second.len() == 0 {
        assert(first + second =~= first);
    } else {
        assert((first + second).drop_last() =~= first + second.drop_last());
        lemma_books_add(start, first, second.drop_last());
    }
}

broadcast proof fn lemma_books_step_if(start: InstanceBooks, wanted: bool, step: ModelStep)
    ensures
        #[trigger] books_after(start, step_if(wanted, step)) == if wanted {
            start.after(step)
        } else {
            start
        },
{
    if wanted {
        lemma_books_push(start, Seq::<ModelStep>::empty(), step);
        assert(step_if(wanted, step) =~= Seq::<ModelStep>::empty().push(step));
    } else {
        assert(step_if(wanted, step) =~= Seq::<ModelStep>::empty());
    }
}

broadcast group group_books {
    lemma_books_empty,
    lemma_books_push,
    lemma_books_add,
    lemma_books_step_if,
}

/// The books of a model that was loaded.
pub open spec fn loaded_books(console: bool) -> InstanceBooks {
    books_after(
        books_after(InstanceBooks::reserved_only(), steps_after_reserve(true)),
        steps_after_start(true, console),
    )
}

/// A load that fails to start leaves nothing on record.
pub proof fn law_failed_load_leaves_nothing(console: bool)
    ensures
        books_after(
            books_after(InstanceBooks::reserved_only(), steps_after_reserve(true)),
            steps_after_start(false, console),
        ) == InstanceBooks::nothing(),
        books_after(InstanceBooks::nothing(), steps_after_reserve(false))
            == InstanceBooks::nothing(),
{
    broadcast use group_books;

}

/// A load that succeeds puts everything on record that unloading takes back.
pub proof fn law_load_is_complete(console: bool)
    ensures
        loaded_books(console) == (InstanceBooks {
            reserved: true,
            assigned: true,
            running: true,
            routed: true,
            registered: true,
            kept: true,
            surveyed: true,
            usage_shown: true,
            shown: Some(ProcessStatus::Running),
            console_shown: if console {
                Some(ProcessStatus::Running)
            } else {
                None
            },
            cut_off: false,
            overcommitted: false,
        }),
{
    broadcast use group_books;

}

/// Unloading takes back everything that loading put on record, but for the
/// word to the mesh, which the registry withdraws. Requests are routed
/// elsewhere before the model is shut down, and its memory is given back only
/// then.
pub proof fn law_unload_undoes_load(console: bool, last: bool, drains: bool)
    ensures
        books_after(
            books_after(loaded_books(console), steps_to_unload(true)),
            steps_to_finish_unload(last, console, drains),
        ) == (InstanceBooks { assigned: true, ..InstanceBooks::nothing() }),
{
    broadcast use group_books;

    law_load_is_complete(console);
}

/// After a model exited by itself, no memory is held for it, no request is
/// routed to it and it is on no list; the dashboard says that it exited.
pub proof fn law_exit_clears_instance(console: bool, last: bool)
    ensures
        ({
            let after = books_after(
                books_after(loaded_books(console), steps_after_exit(true)),
                steps_to_finish_exit(last, console),
            );
            &&& !after.reserved
            &&& !after.running
            &&& !after.routed
            &&& !after.registered
            &&& !after.kept
            &&& !after.surveyed
            &&& !after.usage_shown
            &&& !after.overcommitted
            &&& after.shown == Some(ProcessStatus::Exited)
            &&& after.console_shown == if console {
                Some(ProcessStatus::Exited)
            } else {
                None
            }
        }),
{
    broadcast use group_books;

    law_load_is_complete(console);
}

/// When the runtime stops, a loaded model ends as by an unload, but stays on
/// the dashboard as stopped.
pub proof fn law_stop_clears_instance(console: bool, last: bool)
    ensures
        books_after(
            books_after(loaded_books(console), steps_to_stop(true, console)),
            steps_to_finish_stop(last, console),
        ) == (InstanceBooks {
            assigned: true,
            shown: Some(ProcessStatus::Stopped),
            console_shown: if console {
                Some(ProcessStatus::Stopped)
            } else {
                None
            },
            ..InstanceBooks::nothing()
        }),
{
    broadcast use group_books;

    law_load_is_complete(console);
}

/// Without memory nothing is started; with it, the mesh is told before the model
/// is started.
pub proof fn law_models_start_only_with_memory(reserved: bool)
    ensures
        !reserved ==> steps_after_reserve(reserved).len() == 0,
        reserved ==> steps_after_reserve(reserved) == seq![
            ModelStep::AddServingAssignment,
            ModelStep::StartModel,
        ],
{
    if reserved {
        assert(steps_after_reserve(reserved) =~= seq![
            ModelStep::AddServingAssignment,
            ModelStep::StartModel,
        ]);
    }
}

/// A model that did not start is undone. One that did is routed to, registered
/// and shown before its exit is watched for and it is told; the console is told
/// where there is one.
pub proof fn law_started_models_are_made_known(console: bool)
    ensures
        steps_after_start(false, console) == seq![
            ModelStep::ReleaseCapacity,
            ModelStep::RemoveServingAssignment,
            ModelStep::RecordLaunchFailure,
        ],
        ({
            let steps = steps_after_start(true, console);
            let rest = if console {
                7int
            } else {
                5
            };
            &&& steps.take(5) == seq![
                ModelStep::RecordLaunchSuccess,
                ModelStep::AddLocalTarget,
                ModelStep::RegisterInstance,
                ModelStep::RescanModels,
                ModelStep::ShowProcess(ProcessStatus::Running),
            ]
            &&& console ==> steps[5] == ModelStep::SetConsoleGuardrails && steps[6]
                == ModelStep::ShowConsoleProcess(ProcessStatus::Running)
            &&& steps.skip(rest) == seq![
                ModelStep::WatchForExit,
                ModelStep::TellLoaded,
                ModelStep::RefreshContextUsage,
                ModelStep::PublishSlots,
                ModelStep::RememberSurvey,
                ModelStep::KeepModel,
            ]
        }),
{
    assert(steps_after_start(false, console) =~= seq![
        ModelStep::ReleaseCapacity,
        ModelStep::RemoveServingAssignment,
        ModelStep::RecordLaunchFailure,
    ]);
    let steps = steps_after_start(true, console);
    assert(steps.take(5) =~= seq![
        ModelStep::RecordLaunchSuccess,
        ModelStep::AddLocalTarget,
        ModelStep::RegisterInstance,
        ModelStep::RescanModels,
        ModelStep::ShowProcess(ProcessStatus::Running),
    ]);
    let rest = if console {
        7int
    } else {
        5
    };
    assert(steps.skip(rest) =~= seq![
        ModelStep::WatchForExit,
        ModelStep::TellLoaded,
        ModelStep::RefreshContextUsage,
        ModelStep::PublishSlots,
        ModelStep::RememberSurvey,
        ModelStep::KeepModel,
    ]);
}

/// An unload first takes the model off the list and then away from requests; it
/// records the unload where the load was recorded.
pub proof fn law_unload_begins_with_the_list(surveyed: bool)
    ensures
        surveyed ==> steps_to_unload(surveyed) == seq![
            ModelStep::RemoveModel,
            ModelStep::RecordSurveyUnload,
            ModelStep::RemoveLocalTarget,
            ModelStep::UnregisterInstance,
        ],
        !surveyed ==> steps_to_unload(surveyed) == seq![
            ModelStep::RemoveModel,
            ModelStep::RemoveLocalTarget,
            ModelStep::UnregisterInstance,
        ],
        surveyed ==> steps_after_exit(surveyed) == seq![
            ModelStep::RemoveModel,
            ModelStep::RecordSurveyExit,
            ModelStep::UnregisterInstance,
        ],
        !surveyed ==> steps_after_exit(surveyed) == seq![
            ModelStep::RemoveModel,
            ModelStep::UnregisterInstance,
        ],
{
    let begun = steps_to_unload(surveyed);
    let exited = steps_after_exit(surveyed);
    if surveyed {
        assert(begun =~= seq![
            ModelStep::RemoveModel,
            ModelStep::RecordSurveyUnload,
            ModelStep::RemoveLocalTarget,
            ModelStep::UnregisterInstance,
        ]);
        assert(exited =~= seq![
            ModelStep::RemoveModel,
            ModelStep::RecordSurveyExit,
            ModelStep::UnregisterInstance,
        ]);
    } else {
        assert(begun =~= seq![
            ModelStep::RemoveModel,
            ModelStep::RemoveLocalTarget,
            ModelStep::UnregisterInstance,
        ]);
        assert(exited =~= seq![ModelStep::RemoveModel, ModelStep::UnregisterInstance]);
    }
}

/// An unload ends by telling the mesh where no other instance is left, showing
/// that the model shuts down, letting requests finish where they may, and only
/// then shutting it down, giving its memory back and telling so.
pub proof fn law_unload_ends_with_the_word(last: bool, console: bool, drains: bool)
    ensures
        ({
            let steps = steps_to_finish_unload(last, console, drains);
            let shown = if last {
                1int
            } else {
                0
            };
            let drained = shown + 1 + if console {
                1int
            } else {
                0
            };
            let closed = drained + if drains {
                1int
            } else {
                0
            };
            &&& last ==> steps[0] == ModelStep::PublishUnavailable
            &&& steps[shown] == ModelStep::ShowProcess(ProcessStatus::ShuttingDown)
            &&& console ==> steps[shown + 1] == ModelStep::ShowConsoleProcess(
                ProcessStatus::ShuttingDown,
            )
            &&& drains ==> steps[drained] == ModelStep::Drain
            &&& steps[closed] == ModelStep::RemoveContextUsage
            &&& steps[closed + 1] == ModelStep::ShutdownHandle
            &&& steps[closed + 2] == ModelStep::ReleaseCapacity
            &&& steps[closed + 3] == ModelStep::RemoveProcess
            &&& console ==> steps[closed + 4] == ModelStep::RemoveConsoleProcess
            &&& steps.last() == ModelStep::TellUnloaded
            &&& steps.len() == closed + 5 + if console {
                1int
            } else {
                0
            }
        }),
{
}

/// After an exit the mesh is told where no other instance is left, the exit is
/// shown, the model is shut down and its memory given back, and then it is told.
pub proof fn law_exit_ends_with_the_word(last: bool, console: bool)
    ensures
        ({
            let steps = steps_to_finish_exit(last, console);
            let shown = if last {
                1int
            } else {
                0
            };
            let closed = shown + 1 + if console {
                1int
            } else {
                0
            };
            &&& last ==> steps[0] == ModelStep::PublishUnavailable
            &&& steps[shown] == ModelStep::ShowProcess(ProcessStatus::Exited)
            &&& console ==> steps[shown + 1] == ModelStep::ShowConsoleProcess(ProcessStatus::Exited)
            &&& steps.skip(closed) == seq![
                ModelStep::RemoveContextUsage,
                ModelStep::ShutdownHandle,
                ModelStep::ReleaseCapacity,
                ModelStep::RemoveLocalTarget,
                ModelStep::TellExited,
            ]
        }),
{
    let steps = steps_to_finish_exit(last, console);
    let closed = (if last {
        2int
    } else {
        1
    }) + if console {
        1int
    } else {
        0
    };
    assert(steps.skip(closed) =~= seq![
        ModelStep::RemoveContextUsage,
        ModelStep::ShutdownHandle,
        ModelStep::ReleaseCapacity,
        ModelStep::RemoveLocalTarget,
        ModelStep::TellExited,
    ]);
}

/// A model that is stopped with the runtime is taken off the list, shown as
/// shutting down and taken away from requests; then it is shut down, and shown
/// as stopped at last.
pub proof fn law_stop_goes_step_by_step(surveyed: bool, last: bool, console: bool)
    ensures
        ({
            let begun = steps_to_stop(surveyed, console);
            let shown = if surveyed {
                2int
            } else {
                1
            };
            let away = shown + 1 + if console {
                1int
            } else {
                0
            };
            &&& begun[0] == ModelStep::RemoveModel
            &&& surveyed ==> begun[1] == ModelStep::RecordSurveyUnload
            &&& begun[shown] == ModelStep::ShowProcess(ProcessStatus::ShuttingDown)
            &&& console ==> begun[shown + 1] == ModelStep::ShowConsoleProcess(
                ProcessStatus::ShuttingDown,
            )
            &&& begun.skip(away) == seq![
                ModelStep::RemoveLocalTarget,
                ModelStep::UnregisterInstance,
            ]
        }),
        ({
            let ended = steps_to_finish_stop(last, console);
            let start = if last {
                1int
            } else {
                0
            };
            &&& last ==> ended[0] == ModelStep::PublishUnavailable
            &&& ended.subrange(start, start + 6) == seq![
                ModelStep::RemoveContextUsage,
                ModelStep::TellUnloading,
                ModelStep::ShutdownHandle,
                ModelStep::ReleaseCapacity,
                ModelStep::TellStopped,
                ModelStep::ShowProcess(ProcessStatus::Stopped),
            ]
            &&& console ==> ended.last() == ModelStep::ShowConsoleProcess(ProcessStatus::Stopped)
            &&& ended.len() == start + 6 + if console {
                1int
            } else {
                0
            }
        }),
{
    let begun = steps_to_stop(surveyed, console);
    let away = (if surveyed {
        3int
    } else {
        2
    }) + if console {
        1int
    } else {
        0
    };
    assert(begun.skip(away) =~= seq![ModelStep::RemoveLocalTarget, ModelStep::UnregisterInstance]);
    let ended = steps_to_finish_stop(last, console);
    let start = if last {
        1int
    } else {
        0
    };
    assert(ended.subrange(start, start + 6) =~= seq![
        ModelStep::RemoveContextUsage,
        ModelStep::TellUnloading,
        ModelStep::ShutdownHandle,
        ModelStep::ReleaseCapacity,
        ModelStep::TellStopped,
        ModelStep::ShowProcess(ProcessStatus::Stopped),
    ]);
}

/// The mesh forgets a managed model only with its last instance.
pub proof fn law_managed_models_are_forgotten_last(still_registered: bool, console: bool)
    ensures
        ({
            let steps = steps_to_finish_managed_unload(still_registered, console);
            let start = if still_registered {
                0int
            } else {
                4
            };
            &&& !still_registered ==> steps.take(4) == seq![
                ModelStep::PublishUnavailable,
                ModelStep::WithdrawAdvertised,
                ModelStep::ClearAdvertisedContext,
                ModelStep::RemoveServingAssignment,
            ]
            &&& console ==> steps.skip(start) == seq![
                ModelStep::RemoveProcess,
                ModelStep::RemoveConsoleProcess,
                ModelStep::TellManagedUnloaded,
            ]
            &&& !console ==> steps.skip(start) == seq![
                ModelStep::RemoveProcess,
                ModelStep::TellManagedUnloaded,
            ]
        }),
{
    let steps = steps_to_finish_managed_unload(still_registered, console);
    let start = if still_registered {
        0int
    } else {
        4
    };
    if !still_registered {
        assert(steps.take(4) =~= seq![
            ModelStep::PublishUnavailable,
            ModelStep::WithdrawAdvertised,
            ModelStep::ClearAdvertisedContext,
            ModelStep::RemoveServingAssignment,
        ]);
    }
    if console {
        assert(steps.skip(start) =~= seq![
            ModelStep::RemoveProcess,
            ModelStep::RemoveConsoleProcess,
            ModelStep::TellManagedUnloaded,
        ]);
    } else {
        assert(steps.skip(start) =~= seq![
            ModelStep::RemoveProcess,
            ModelStep::TellManagedUnloaded,
        ]);
    }
}

/// The first entry that names the model and the profile is the one that counts.
pub proof fn law_first_entry_counts<F>(
    models: Seq<ModelConfigEntry<F>>,
    name: Seq<char>,
    profile: Seq<char>,
)
    ensures
        ({
            let at = entry_position(models, name, profile);
            &&& 0 <= at <= models.len()
            &&& at < models.len() ==> models[at].model@ == name && models[at].profile@ == profile
            &&& forall|k: int|
                0 <= k < at ==> !((#[trigger] models[k]).model@ == name && models[k].profile@
                    == profile)
        }),
    decreases models.len(),
{
    if models.len() > 0 && !(models[0].model@ == name && models[0].profile@ == profile) {
        let rest = models.drop_first();
        law_first_entry_counts(rest, name, profile);
        let at = entry_position(models, name, profile);
        assert forall|k: int| 0 <= k < at implies !((#[trigger] models[k]).model@ == name
            && models[k].profile@ == profile) by {
            if k > 0 {
                assert(rest[k - 1] == models[k]);
            }
        }
    }
}

/// The command line sets the context size before the configuration does.
pub proof fn law_command_line_sets_context_size<F>(
    given: Option<u32>,
    model: Option<&ModelConfigEntry<F>>,
)
    ensures
        given is Some ==> ctx_size_override(given, model) == given,
        given is None ==> (model matches Some(entry) ==> ctx_size_override(given, model)
            == entry.ctx_size),
        given is None && model is None ==> ctx_size_override(given, model) is None,
{
}

} // verus!
