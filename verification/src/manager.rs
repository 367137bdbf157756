//! The supervisor: sequences the two process handles and the provisioning
//! check into one startup/shutdown protocol and narrates every transition
//! on the event bus.
//!
//! Process launching, the HTTP calls of the runtime API client and the
//! file system are collaborators.  Their outcomes for one startup attempt
//! are handed in as plain values (`SpawnOutcomes`); the supervisor's
//! decisions over those outcomes are verified for every possible value.

use vstd::prelude::*;
use vstd::pervasive::unreached;
use vstd::string::*;
use crate::event_bus::{
    EventBus, bus_updated, lemma_bus_updated_compose, lemma_bus_updated_one,
    lemma_bus_updated_refl,
};
use crate::events::HanzoNodeManagerEvent;
use crate::options::{HanzoNodeOptions, default_options, default_options_spec};
use crate::process_handle::{ProcessHandle, ProcessStatus};
use crate::text::{dec_str, parse_version_output, u16_to_dec_string, version_token};

verus! {

/// What the outside world did during one startup attempt, as plain values:
/// the launch outcome of the runtime service, the installed-model list
/// reported by the runtime API (`None` when the query itself failed), the
/// raw progress chunks and final outcome of the model import, and the
/// launch outcome of the node service.  Fields for steps the protocol
/// never reaches are simply unused.
pub struct SpawnOutcomes {
    pub runtime_launch: Result<(), String>,
    pub installed_models: Option<Vec<String>>,
    pub provisioning_progress: Vec<u32>,
    pub provisioning_result: Result<(), String>,
    pub node_launch: Result<(), String>,
}

/// A storage-cleanup request for the collaborator that owns the file
/// system: which base directory to clear and whether to preserve the key
/// material inside it.
pub struct StorageCleanupRequest {
    pub storage_path: String,
    pub preserve_keys: bool,
}

/// Supervises the runtime service and the node service: owns their
/// process handles, the single live configuration and the event bus.
pub struct HanzoNodeManager {
    pub ollama_process: ProcessHandle,
    pub hanzo_node_process: ProcessHandle,
    pub options: HanzoNodeOptions,
    pub event_bus: EventBus,
}

/// The full stopping/stopped event group that `kill` always emits:
/// node service first, then the runtime service.
pub open spec fn kill_events() -> Seq<HanzoNodeManagerEvent> {
    seq![
        HanzoNodeManagerEvent::StoppingHanzoNode,
        HanzoNodeManagerEvent::HanzoNodeStopped,
        HanzoNodeManagerEvent::StoppingOllama,
        HanzoNodeManagerEvent::OllamaStopped,
    ]
}

/// The events of the mid-startup teardown once the runtime service has
/// been started: only the services actually started during the attempt
/// are narrated, in reverse start order.
pub open spec fn runtime_teardown_events() -> Seq<HanzoNodeManagerEvent> {
    seq![HanzoNodeManagerEvent::StoppingOllama, HanzoNodeManagerEvent::OllamaStopped]
}

/// The installed-model list used by the protocol: a failed query degrades
/// to the empty list rather than aborting startup.
pub open spec fn installed_list(oc: SpawnOutcomes) -> Seq<String> {
    match oc.installed_models {
        Some(v) => v@,
        None => Seq::<String>::empty(),
    }
}

/// Whether a model id occurs in the reported installed-model list.
pub open spec fn model_installed(model: String, oc: SpawnOutcomes) -> bool {
    exists|i: int| 0 <= i < installed_list(oc).len() && (#[trigger] installed_list(oc)[i])@ == model@
}

/// Progress values are clamped into the 0..=100 range before relaying.
pub open spec fn clamp100(p: u32) -> u32 {
    if p > 100 {
        100
    } else {
        p
    }
}

/// The progress values actually relayed: each raw chunk is clamped, and a
/// value below the last relayed one is dropped, so the relayed sequence
/// never decreases.
pub open spec fn filtered_progress(raw: Seq<u32>, last: u32) -> Seq<u32>
    decreases raw.len(),
{
    if raw.len() == 0 {
        Seq::<u32>::empty()
    } else {
        let p = clamp100(raw.first());
        if p >= last {
            seq![p] + filtered_progress(raw.drop_first(), p)
        } else {
            filtered_progress(raw.drop_first(), last)
        }
    }
}

/// The progress events for one model, one per relayed value.
pub open spec fn progress_events(model: String, ps: Seq<u32>) -> Seq<HanzoNodeManagerEvent> {
    ps.map_values(|p: u32| (HanzoNodeManagerEvent::CreatingModelProgress { model: model, progress: p }))
}

/// The events of the provisioning phase: nothing when the model is already
/// installed; otherwise a start marker, the relayed progress, and one
/// terminal event — with the runtime teardown narrated after a failure.
pub open spec fn provision_phase_events(model: String, oc: SpawnOutcomes) -> Seq<
    HanzoNodeManagerEvent,
> {
    if model_installed(model, oc) {
        Seq::<HanzoNodeManagerEvent>::empty()
    } else {
        seq![(HanzoNodeManagerEvent::CreatingModelStart { model: model })]
            + progress_events(model, filtered_progress(oc.provisioning_progress@, 0))
            + match oc.provisioning_result {
            Ok(_) => seq![(HanzoNodeManagerEvent::CreatingModelDone { model: model })],
            Err(e) => seq![(HanzoNodeManagerEvent::CreatingModelError { model: model, error: e })]
                + runtime_teardown_events(),
        }
    }
}

/// Whether the provisioning phase is reached and fails.
pub open spec fn provisioning_fails(model: String, oc: SpawnOutcomes) -> bool {
    !model_installed(model, oc) && oc.provisioning_result is Err
}

/// The events of the node-service phase.
pub open spec fn node_phase_events(oc: SpawnOutcomes) -> Seq<HanzoNodeManagerEvent> {
    seq![HanzoNodeManagerEvent::StartingHanzoNode] + match oc.node_launch {
        Ok(_) => seq![HanzoNodeManagerEvent::HanzoNodeStarted],
        Err(e) => seq![(HanzoNodeManagerEvent::HanzoNodeStartError { error: e })]
            + runtime_teardown_events(),
    }
}

/// The default embedding model configured at the start of the attempt.
pub open spec fn spawn_model(m: HanzoNodeManager) -> String {
    m.options.default_embedding_model->0
}

/// The exact event sequence one `spawn` call emits, for every combination
/// of outside outcomes.
pub open spec fn spawn_events(m: HanzoNodeManager, oc: SpawnOutcomes) -> Seq<
    HanzoNodeManagerEvent,
> {
    seq![HanzoNodeManagerEvent::StartingOllama] + match oc.runtime_launch {
        Err(e) => seq![(HanzoNodeManagerEvent::OllamaStartError { error: e })],
        Ok(_) => seq![HanzoNodeManagerEvent::OllamaStarted] + provision_phase_events(
            spawn_model(m),
            oc,
        ) + if provisioning_fails(spawn_model(m), oc) {
            Seq::<HanzoNodeManagerEvent>::empty()
        } else {
            node_phase_events(oc)
        },
    }
}

/// When `spawn` succeeds: every step it reaches reports success.
pub open spec fn spawn_ok(m: HanzoNodeManager, oc: SpawnOutcomes) -> bool {
    &&& oc.runtime_launch is Ok
    &&& !provisioning_fails(spawn_model(m), oc)
    &&& oc.node_launch is Ok
}

/// The error message `spawn` returns: that of the first failing step.
pub open spec fn spawn_err(m: HanzoNodeManager, oc: SpawnOutcomes) -> String {
    if oc.runtime_launch is Err {
        oc.runtime_launch->Err_0
    } else if provisioning_fails(spawn_model(m), oc) {
        oc.provisioning_result->Err_0
    } else {
        oc.node_launch->Err_0
    }
}

/// True when a model id equal in content to `model` occurs in `list`.
fn contains_model(list: &Vec<String>, model: &String) -> (r: bool)
    ensures
        r == exists|i: int| 0 <= i < list@.len() && (#[trigger] list@[i])@ == model@,
{
    let mut i: usize = 0;
    while i < list.len()
        invariant
            i <= list@.len(),
            forall|j: int| 0 <= j < i ==> (#[trigger] list@[j])@ != model@,
        decreases list@.len() - i,
    {
        if list[i].eq(model) {
            proof {
                assert((list@[i as int])@ == model@);
            }
            return true;
        }
        proof {
            assert((list@[i as int])@ != model@);
        }
        i = i + 1;
    }
    false
}

/// Whether the reported installed-model list contains the model; a failed
/// query (`None`) counts as an empty list.
fn check_installed(outcomes: &SpawnOutcomes, model: &String) -> (r: bool)
    ensures
        r == model_installed(*model, *outcomes),
{
    match &outcomes.installed_models {
        Some(list) => {
            let r = contains_model(list, model);
            proof {
                assert(installed_list(*outcomes) == list@);
            }
            r
        },
        None => {
            proof {
                assert(installed_list(*outcomes).len() == 0);
            }
            false
        },
    }
}

impl HanzoNodeManager {
    /// The supervisor invariant: a well-formed event bus.
    pub open spec fn well_formed(&self) -> bool {
        self.event_bus.well_formed()
    }

    /// The per-subscriber buffer bound of the event bus.
    pub open spec fn cap(&self) -> nat {
        self.event_bus.capacity as nat
    }

    /// The node is usable exactly when both managed services report
    /// running; there is no state where only one runs and this holds.
    pub open spec fn is_running_spec(&self) -> bool {
        self.ollama_process.status is Running && self.hanzo_node_process.status is Running
    }

    /// A fresh supervisor: both services stopped, no subscribers yet.
    pub fn new(options: HanzoNodeOptions, event_capacity: usize) -> (r: Self)
        requires
            event_capacity >= 1,
        ensures
            r.well_formed(),
            r.options == options,
            r.ollama_process.status is Stopped,
            r.hanzo_node_process.status is Stopped,
            !r.is_running_spec(),
            r.event_bus@ =~= Seq::<Option<Seq<HanzoNodeManagerEvent>>>::empty(),
            r.event_bus.capacity == event_capacity,
    {
        HanzoNodeManager {
            ollama_process: ProcessHandle::new(),
            hanzo_node_process: ProcessHandle::new(),
            options,
            event_bus: EventBus::new(event_capacity),
        }
    }

    /// The current configuration of the node service, by copy.
    pub fn get_hanzo_node_options(&self) -> (r: HanzoNodeOptions)
        ensures
            r == self.options,
    {
        self.options.clone()
    }

    /// True iff both managed services report running.
    pub fn is_running(&self) -> (r: bool)
        ensures
            r == self.is_running_spec(),
    {
        self.hanzo_node_process.is_running() && self.ollama_process.is_running()
    }

    /// Replaces the configuration wholesale and echoes the stored value.
    /// Never touches the services or the event bus: a running node keeps
    /// running on its old configuration until it is stopped and restarted.
    pub fn set_hanzo_node_options(&mut self, options: HanzoNodeOptions) -> (r: HanzoNodeOptions)
        ensures
            final(self).options == options,
            r == options,
            final(self).ollama_process == old(self).ollama_process,
            final(self).hanzo_node_process == old(self).hanzo_node_process,
            final(self).event_bus == old(self).event_bus,
            final(self).is_running_spec() == old(self).is_running_spec(),
    {
        let echo = options.clone();
        self.options = options;
        echo
    }

    /// Restores the default configuration and echoes it.  Like
    /// `set_hanzo_node_options`, touches neither the services nor the bus.
    pub fn set_default_hanzo_node_options(&mut self) -> (r: HanzoNodeOptions)
        ensures
            default_options_spec(final(self).options),
            r == final(self).options,
            final(self).ollama_process == old(self).ollama_process,
            final(self).hanzo_node_process == old(self).hanzo_node_process,
            final(self).event_bus == old(self).event_bus,
            final(self).is_running_spec() == old(self).is_running_spec(),
    {
        let defaults = default_options();
        let echo = defaults.clone();
        self.options = defaults;
        echo
    }

    /// A fresh, independent subscriber id.  Its queue starts empty, so a
    /// subscriber created after an operation completed receives none of
    /// that operation's events.
    pub fn subscribe_to_events(&mut self) -> (r: usize)
        requires
            old(self).well_formed(),
        ensures
            final(self).well_formed(),
            final(self).event_bus.capacity == old(self).event_bus.capacity,
            final(self).options == old(self).options,
            final(self).ollama_process == old(self).ollama_process,
            final(self).hanzo_node_process == old(self).hanzo_node_process,
            r == old(self).event_bus@.len(),
            final(self).event_bus@ =~= old(self).event_bus@.push(
                Some(Seq::<HanzoNodeManagerEvent>::empty()),
            ),
    {
        self.event_bus.subscribe()
    }

    /// The oldest undelivered event of one subscriber, if any.
    pub fn poll_event(&mut self, subscriber: usize) -> (r: Option<HanzoNodeManagerEvent>)
        requires
            old(self).well_formed(),
        ensures
            final(self).well_formed(),
            final(self).event_bus.capacity == old(self).event_bus.capacity,
            final(self).options == old(self).options,
            final(self).ollama_process == old(self).ollama_process,
            final(self).hanzo_node_process == old(self).hanzo_node_process,
            final(self).event_bus@.len() == old(self).event_bus@.len(),
            forall|i: int|
                0 <= i < old(self).event_bus@.len() && i != subscriber
                    ==> final(self).event_bus@[i] == old(self).event_bus@[i],
            subscriber >= old(self).event_bus@.len() ==> r is None && final(self).event_bus@
                == old(self).event_bus@,
            subscriber < old(self).event_bus@.len() ==> match old(self).event_bus@[subscriber as int] {
                None => r is None && final(self).event_bus@[subscriber as int]
                    == old(self).event_bus@[subscriber as int],
                Some(q) => if q.len() == 0 {
                    r is None && final(self).event_bus@[subscriber as int]
                        == old(self).event_bus@[subscriber as int]
                } else {
                    r == Some(q[0]) && final(self).event_bus@[subscriber as int] == Some(q.skip(1))
                },
            },
    {
        self.event_bus.poll(subscriber)
    }

    /// Publishes one event to every subscriber, batching the ghost record
    /// of what this operation has emitted so far.
    fn emit_event(
        &mut self,
        event: HanzoNodeManagerEvent,
        Ghost(b0): Ghost<Seq<Option<Seq<HanzoNodeManagerEvent>>>>,
        Ghost(evs): Ghost<Seq<HanzoNodeManagerEvent>>,
    )
        requires
            old(self).well_formed(),
            bus_updated(b0, old(self).event_bus@, evs, old(self).cap()),
        ensures
            final(self).well_formed(),
            final(self).event_bus.capacity == old(self).event_bus.capacity,
            final(self).options == old(self).options,
            final(self).ollama_process == old(self).ollama_process,
            final(self).hanzo_node_process == old(self).hanzo_node_process,
            bus_updated(b0, final(self).event_bus@, evs.push(event), old(self).cap()),
    {
        let ghost cap = self.cap();
        let ghost b1 = self.event_bus@;
        self.event_bus.publish(&event);
        proof {
            lemma_bus_updated_one(b1, self.event_bus@, event, cap);
            lemma_bus_updated_compose(b0, b1, self.event_bus@, evs, seq![event], cap);
            assert(evs + seq![event] =~= evs.push(event));
        }
    }

    /// Unconditionally stops both services — node service first, then the
    /// runtime service — and always narrates the full stopping/stopped
    /// event group, also when nothing was running.
    pub fn kill(&mut self)
        requires
            old(self).well_formed(),
        ensures
            final(self).well_formed(),
            final(self).event_bus.capacity == old(self).event_bus.capacity,
            final(self).options == old(self).options,
            final(self).ollama_process.status is Stopped,
            final(self).hanzo_node_process.status is Stopped,
            !final(self).is_running_spec(),
            bus_updated(old(self).event_bus@, final(self).event_bus@, kill_events(), old(self).cap()),
    {
        let ghost b0 = self.event_bus@;
        let ghost cap = self.cap();
        let ghost mut evs = Seq::<HanzoNodeManagerEvent>::empty();
        proof {
            lemma_bus_updated_refl(b0, cap);
        }
        self.emit_event(HanzoNodeManagerEvent::StoppingHanzoNode, Ghost(b0), Ghost(evs));
        proof {
            evs = evs.push(HanzoNodeManagerEvent::StoppingHanzoNode);
        }
        self.hanzo_node_process.kill();
        self.emit_event(HanzoNodeManagerEvent::HanzoNodeStopped, Ghost(b0), Ghost(evs));
        proof {
            evs = evs.push(HanzoNodeManagerEvent::HanzoNodeStopped);
        }
        self.emit_event(HanzoNodeManagerEvent::StoppingOllama, Ghost(b0), Ghost(evs));
        proof {
            evs = evs.push(HanzoNodeManagerEvent::StoppingOllama);
        }
        self.ollama_process.kill();
        self.emit_event(HanzoNodeManagerEvent::OllamaStopped, Ghost(b0), Ghost(evs));
        proof {
            evs = evs.push(HanzoNodeManagerEvent::OllamaStopped);
            assert(evs =~= kill_events());
        }
    }

    /// The mid-startup teardown once the runtime service was started:
    /// stops both handles, narrating only the runtime service's stop.
    fn teardown_started_runtime(
        &mut self,
        Ghost(b0): Ghost<Seq<Option<Seq<HanzoNodeManagerEvent>>>>,
        Ghost(evs): Ghost<Seq<HanzoNodeManagerEvent>>,
    )
        requires
            old(self).well_formed(),
            bus_updated(b0, old(self).event_bus@, evs, old(self).cap()),
        ensures
            final(self).well_formed(),
            final(self).event_bus.capacity == old(self).event_bus.capacity,
            final(self).options == old(self).options,
            final(self).ollama_process.status is Stopped,
            final(self).hanzo_node_process.status is Stopped,
            bus_updated(
                b0,
                final(self).event_bus@,
                evs + runtime_teardown_events(),
                old(self).cap(),
            ),
    {
        self.hanzo_node_process.kill();
        self.emit_event(HanzoNodeManagerEvent::StoppingOllama, Ghost(b0), Ghost(evs));
        self.ollama_process.kill();
        self.emit_event(
            HanzoNodeManagerEvent::OllamaStopped,
            Ghost(b0),
            Ghost(evs.push(HanzoNodeManagerEvent::StoppingOllama)),
        );
        proof {
            assert(evs.push(HanzoNodeManagerEvent::StoppingOllama).push(
                HanzoNodeManagerEvent::OllamaStopped,
            ) =~= evs + runtime_teardown_events());
        }
    }

    /// Runs the full startup protocol over the handed-in outside
    /// outcomes: start the runtime service, check and if need be
    /// provision the default embedding model, start the node service.
    /// Emits exactly `spawn_events`; on any failure every service started
    /// during the call is torn down before the first failing step's error
    /// is returned, and nothing is left running.
    pub fn spawn(&mut self, outcomes: &SpawnOutcomes) -> (r: Result<(), String>)
        requires
            old(self).well_formed(),
            old(self).options.default_embedding_model is Some,
        ensures
            final(self).well_formed(),
            final(self).event_bus.capacity == old(self).event_bus.capacity,
            final(self).options == old(self).options,
            bus_updated(
                old(self).event_bus@,
                final(self).event_bus@,
                spawn_events(*old(self), *outcomes),
                old(self).cap(),
            ),
            r is Ok <==> spawn_ok(*old(self), *outcomes),
            r is Ok ==> final(self).is_running_spec(),
            r is Err ==> final(self).ollama_process.status is Stopped
                && final(self).hanzo_node_process.status is Stopped
                && !final(self).is_running_spec(),
            r is Err ==> r == Err::<(), String>(spawn_err(*old(self), *outcomes)),
    {
        let ghost pre = *self;
        let ghost b0 = self.event_bus@;
        let ghost cap = self.cap();
        let ghost mut evs = Seq::<HanzoNodeManagerEvent>::empty();
        proof {
            lemma_bus_updated_refl(b0, cap);
        }

        // Runtime-service phase.
        self.emit_event(HanzoNodeManagerEvent::StartingOllama, Ghost(b0), Ghost(evs));
        proof {
            evs = evs.push(HanzoNodeManagerEvent::StartingOllama);
        }
        self.ollama_process.begin_spawn();
        let launched = self.ollama_process.complete_spawn(&outcomes.runtime_launch);
        if let Err(e) = launched {
            self.emit_event(
                HanzoNodeManagerEvent::OllamaStartError { error: e.clone() },
                Ghost(b0),
                Ghost(evs),
            );
            proof {
                evs = evs.push(HanzoNodeManagerEvent::OllamaStartError { error: e });
            }
            // Nothing was started during this call: tear down silently.
            self.hanzo_node_process.kill();
            self.ollama_process.kill();
            proof {
                assert(evs =~= spawn_events(pre, *outcomes));
            }
            return Err(e);
        }
        self.emit_event(HanzoNodeManagerEvent::OllamaStarted, Ghost(b0), Ghost(evs));
        proof {
            evs = evs.push(HanzoNodeManagerEvent::OllamaStarted);
        }

        // Provisioning check for the default embedding model.
        let model: String = match &self.options.default_embedding_model {
            Some(m) => m.clone(),
            None => unreached(),
        };
        proof {
            assert(model == spawn_model(pre));
        }
        let installed = check_installed(outcomes, &model);
        proof {
            assert(installed == model_installed(spawn_model(pre), *outcomes));
        }

        if !installed {
            self.emit_event(
                HanzoNodeManagerEvent::CreatingModelStart { model: model.clone() },
                Ghost(b0),
                Ghost(evs),
            );
            proof {
                evs = evs.push(HanzoNodeManagerEvent::CreatingModelStart { model: model });
            }
            let ghost evs_head = evs;
            let ghost raw = outcomes.provisioning_progress@;

            // Relay the progress stream, clamped and never decreasing.
            let mut last: u32 = 0;
            let mut idx: usize = 0;
            let ghost mut fp = Seq::<u32>::empty();
            proof {
                assert(raw.skip(0) =~= raw);
                assert(fp + filtered_progress(raw, 0) =~= filtered_progress(raw, 0));
                assert(progress_events(spawn_model(pre), fp)
                    =~= Seq::<HanzoNodeManagerEvent>::empty());
                assert(evs =~= evs_head + progress_events(spawn_model(pre), fp));
            }
            while idx < outcomes.provisioning_progress.len()
                invariant
                    self.well_formed(),
                    idx <= raw.len(),
                    raw == outcomes.provisioning_progress@,
                    cap == pre.cap(),
                    self.event_bus.capacity == pre.event_bus.capacity,
                    self.options == pre.options,
                    self.hanzo_node_process == pre.hanzo_node_process,
                    self.ollama_process.status is Running,
                    bus_updated(b0, self.event_bus@, evs, cap),
                    model == spawn_model(pre),
                    evs == evs_head + progress_events(spawn_model(pre), fp),
                    filtered_progress(raw, 0) == fp + filtered_progress(
                        raw.skip(idx as int),
                        last,
                    ),
                decreases raw.len() - idx,
            {
                let p = outcomes.provisioning_progress[idx];
                let clamped = if p > 100 {
                    100
                } else {
                    p
                };
                proof {
                    assert(raw.skip(idx as int).first() == raw[idx as int]);
                    assert(raw.skip(idx as int).drop_first() =~= raw.skip(idx as int + 1));
                }
                if clamped >= last {
                    self.emit_event(
                        HanzoNodeManagerEvent::CreatingModelProgress {
                            model: model.clone(),
                            progress: clamped,
                        },
                        Ghost(b0),
                        Ghost(evs),
                    );
                    proof {
                        evs = evs.push(
                            HanzoNodeManagerEvent::CreatingModelProgress {
                                model: model,
                                progress: clamped,
                            },
                        );
                        assert(progress_events(spawn_model(pre), fp.push(clamped))
                            =~= progress_events(spawn_model(pre), fp).push(
                            HanzoNodeManagerEvent::CreatingModelProgress {
                                model: spawn_model(pre),
                                progress: clamped,
                            },
                        ));
                        fp = fp.push(clamped);
                        assert(evs =~= evs_head + progress_events(spawn_model(pre), fp));
                    }
                    last = clamped;
                }
                idx = idx + 1;
            }
            proof {
                assert(raw.skip(raw.len() as int) =~= Seq::<u32>::empty());
                assert(fp + Seq::<u32>::empty() =~= fp);
                assert(fp == filtered_progress(raw, 0));
            }

            match &outcomes.provisioning_result {
                Ok(_) => {
                    self.emit_event(
                        HanzoNodeManagerEvent::CreatingModelDone { model: model.clone() },
                        Ghost(b0),
                        Ghost(evs),
                    );
                    proof {
                        evs = evs.push(HanzoNodeManagerEvent::CreatingModelDone { model: model });
                        assert(evs =~= seq![
                            HanzoNodeManagerEvent::StartingOllama,
                            HanzoNodeManagerEvent::OllamaStarted,
                        ] + provision_phase_events(spawn_model(pre), *outcomes));
                    }
                },
                Err(e) => {
                    self.emit_event(
                        HanzoNodeManagerEvent::CreatingModelError {
                            model: model.clone(),
                            error: e.clone(),
                        },
                        Ghost(b0),
                        Ghost(evs),
                    );
                    proof {
                        evs = evs.push(
                            HanzoNodeManagerEvent::CreatingModelError { model: model, error: *e },
                        );
                    }
                    self.teardown_started_runtime(Ghost(b0), Ghost(evs));
                    proof {
                        evs = evs + runtime_teardown_events();
                        assert(evs =~= spawn_events(pre, *outcomes));
                    }
                    return Err(e.clone());
                },
            }
        }

        // Node-service phase.
        self.emit_event(HanzoNodeManagerEvent::StartingHanzoNode, Ghost(b0), Ghost(evs));
        proof {
            evs = evs.push(HanzoNodeManagerEvent::StartingHanzoNode);
        }
        self.hanzo_node_process.begin_spawn();
        let node_launched = self.hanzo_node_process.complete_spawn(&outcomes.node_launch);
        match node_launched {
            Err(e) => {
                self.emit_event(
                    HanzoNodeManagerEvent::HanzoNodeStartError { error: e.clone() },
                    Ghost(b0),
                    Ghost(evs),
                );
                proof {
                    evs = evs.push(HanzoNodeManagerEvent::HanzoNodeStartError { error: e });
                }
                self.teardown_started_runtime(Ghost(b0), Ghost(evs));
                proof {
                    evs = evs + runtime_teardown_events();
                    assert(evs =~= spawn_events(pre, *outcomes));
                }
                Err(e)
            },
            Ok(_) => {
                self.emit_event(HanzoNodeManagerEvent::HanzoNodeStarted, Ghost(b0), Ghost(evs));
                proof {
                    evs = evs.push(HanzoNodeManagerEvent::HanzoNodeStarted);
                    assert(evs =~= spawn_events(pre, *outcomes));
                }
                Ok(())
            },
        }
    }

    /// The base URL of the runtime service's local API, built from the
    /// configured port.
    pub fn get_ollama_api_url(&self) -> (r: String)
        ensures
            r@ == "http://127.0.0.1:"@ + dec_str(self.options.ollama_api_port as nat),
    {
        let base = String::from_str("http://127.0.0.1:");
        let port = u16_to_dec_string(self.options.ollama_api_port);
        base.concat(port.as_str())
    }

    /// The runtime service's version, parsed out of the captured output
    /// of its one-shot version query (a collaborator runs the query and
    /// hands the text in).  Output without a version token is rejected.
    pub fn get_ollama_version(raw_output: &str) -> (r: Result<String, String>)
        ensures
            match version_token(raw_output@) {
                Some(t) => r matches Ok(v) && v@ == t,
                None => r matches Err(m) && m@ == "unable to parse version output"@,
            },
    {
        match parse_version_output(raw_output) {
            Some(v) => Ok(v),
            None => Err(String::from_str("unable to parse version output")),
        }
    }

    /// The node service's storage location; opening it in a file browser
    /// is the presentation layer's concern.
    pub fn open_storage_location(&self) -> (r: String)
        ensures
            r@ == self.options.node_storage_path@,
    {
        self.options.node_storage_path.clone()
    }

    /// The storage location extended by one relative subpath.
    pub fn open_storage_location_with_path(&self, relative_path: &str) -> (r: String)
        ensures
            r@ == self.options.node_storage_path@ + "/"@ + relative_path@,
    {
        self.options.node_storage_path.clone().concat("/").concat(relative_path)
    }

    /// The folder of one chat under an explicit storage location.
    pub fn open_chat_folder(&self, storage_location: &str, chat_folder_name: &str) -> (r: String)
        ensures
            r@ == storage_location@ + "/"@ + chat_folder_name@,
    {
        String::from_str(storage_location).concat("/").concat(chat_folder_name)
    }

    /// The storage-cleanup request for the file system collaborator; the
    /// supervisor only resolves the base directory and passes the flag
    /// through.  A failure of the cleanup itself is the collaborator's to
    /// report and is not swallowed here.
    pub fn remove_storage(&self, preserve_keys: bool) -> (r: StorageCleanupRequest)
        ensures
            r.storage_path@ == self.options.node_storage_path@,
            r.preserve_keys == preserve_keys,
    {
        StorageCleanupRequest {
            storage_path: self.options.node_storage_path.clone(),
            preserve_keys,
        }
    }
}

} // verus!
