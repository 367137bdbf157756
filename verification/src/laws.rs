//! Protocol laws of the supervisor, stated and proved over the same spec
//! functions that the executable contracts use.

use vstd::prelude::*;
use crate::event_bus::{bus_updated, lemma_bus_updated_compose};
use crate::events::{HanzoNodeManagerEvent, is_provisioning_event};
use crate::manager::{
    HanzoNodeManager, SpawnOutcomes, clamp100, filtered_progress, kill_events, model_installed,
    node_phase_events, progress_events, provision_phase_events,
    runtime_teardown_events, spawn_events, spawn_model,
};

verus! {

/// Stopping is idempotent at the event stream: two `kill` calls in a row
/// append the full stopping/stopped event group to every subscriber queue
/// twice over, exactly as one publication of the doubled group.  That each
/// call also leaves `is_running` false is part of `kill`'s own contract.
pub proof fn lemma_kill_idempotent(
    b0: Seq<Option<Seq<HanzoNodeManagerEvent>>>,
    b1: Seq<Option<Seq<HanzoNodeManagerEvent>>>,
    b2: Seq<Option<Seq<HanzoNodeManagerEvent>>>,
    cap: nat,
)
    requires
        bus_updated(b0, b1, kill_events(), cap),
        bus_updated(b1, b2, kill_events(), cap),
    ensures
        bus_updated(b0, b2, kill_events() + kill_events(), cap),
{
    lemma_bus_updated_compose(b0, b1, b2, kill_events(), kill_events(), cap);
}

/// When the configured default embedding model is already present in the
/// reported installed-model list, `spawn` emits no provisioning events at
/// all, whatever else happens.
pub proof fn lemma_spawn_skips_provisioning(m: HanzoNodeManager, oc: SpawnOutcomes)
    requires
        m.options.default_embedding_model is Some,
        model_installed(spawn_model(m), oc),
    ensures
        forall|i: int|
            0 <= i < spawn_events(m, oc).len() ==> !is_provisioning_event(
                #[trigger] spawn_events(m, oc)[i],
            ),
{
    let evs = spawn_events(m, oc);
    match oc.runtime_launch {
        Err(e) => {
            assert(evs =~= seq![
                HanzoNodeManagerEvent::StartingOllama,
                (HanzoNodeManagerEvent::OllamaStartError { error: e }),
            ]);
        },
        Ok(_) => {
            assert(provision_phase_events(spawn_model(m), oc)
                =~= Seq::<HanzoNodeManagerEvent>::empty());
            match oc.node_launch {
                Ok(_) => {
                    assert(evs =~= seq![
                        HanzoNodeManagerEvent::StartingOllama,
                        HanzoNodeManagerEvent::OllamaStarted,
                        HanzoNodeManagerEvent::StartingHanzoNode,
                        HanzoNodeManagerEvent::HanzoNodeStarted,
                    ]);
                },
                Err(e) => {
                    assert(evs =~= seq![
                        HanzoNodeManagerEvent::StartingOllama,
                        HanzoNodeManagerEvent::OllamaStarted,
                        HanzoNodeManagerEvent::StartingHanzoNode,
                        (HanzoNodeManagerEvent::HanzoNodeStartError { error: e }),
                        HanzoNodeManagerEvent::StoppingOllama,
                        HanzoNodeManagerEvent::OllamaStopped,
                    ]);
                },
            }
        },
    }
}

/// The relayed progress values stay within `last..=100` and never
/// decrease.
pub proof fn lemma_filtered_progress_bounds(raw: Seq<u32>, last: u32)
    requires
        last <= 100,
    ensures
        forall|i: int|
            0 <= i < filtered_progress(raw, last).len() ==> last <= #[trigger] filtered_progress(
                raw,
                last,
            )[i] <= 100,
        forall|i: int, j: int|
            0 <= i <= j < filtered_progress(raw, last).len() ==> filtered_progress(raw, last)[i]
                <= filtered_progress(raw, last)[j],
    decreases raw.len(),
{
    if raw.len() > 0 {
        let p = clamp100(raw.first());
        if p >= last {
            lemma_filtered_progress_bounds(raw.drop_first(), p);
            let rest = filtered_progress(raw.drop_first(), p);
            let whole = filtered_progress(raw, last);
            assert(whole =~= seq![p] + rest);
            assert forall|i: int| 0 <= i < whole.len() implies last <= #[trigger] whole[i]
                <= 100 by {
                if i > 0 {
                    assert(whole[i] == rest[i - 1]);
                }
            }
            assert forall|i: int, j: int| 0 <= i <= j < whole.len() implies whole[i]
                <= whole[j] by {
                if i > 0 {
                    assert(whole[i] == rest[i - 1]);
                }
                if j > 0 {
                    assert(whole[j] == rest[j - 1]);
                }
            }
        } else {
            lemma_filtered_progress_bounds(raw.drop_first(), last);
            assert(filtered_progress(raw, last) == filtered_progress(raw.drop_first(), last));
        }
    }
}

/// The provisioning protocol inside `spawn`, when the default embedding
/// model is absent from the reported list: exactly one provisioning start
/// marker, then only progress events with values that never decrease and
/// stay within 0..=100, then exactly one terminal event (done on success,
/// error on failure), and all of that strictly before any node-start
/// event.
pub proof fn lemma_spawn_provisioning_protocol(m: HanzoNodeManager, oc: SpawnOutcomes)
    requires
        m.options.default_embedding_model is Some,
        oc.runtime_launch is Ok,
        !model_installed(spawn_model(m), oc),
    ensures
        ({
            let evs = spawn_events(m, oc);
            let np = filtered_progress(oc.provisioning_progress@, 0).len() as int;
            &&& evs[2] is CreatingModelStart
            &&& forall|i: int|
                0 <= i < evs.len() && i != 2 ==> !((#[trigger] evs[i]) is CreatingModelStart)
            &&& forall|i: int| 3 <= i < 3 + np ==> (#[trigger] evs[i]) is CreatingModelProgress
            &&& forall|i: int, j: int|
                3 <= i <= j < 3 + np ==> evs[i]->CreatingModelProgress_progress
                    <= evs[j]->CreatingModelProgress_progress
                    && evs[j]->CreatingModelProgress_progress <= 100
            &&& oc.provisioning_result is Ok ==> evs[3 + np] is CreatingModelDone
            &&& oc.provisioning_result is Err ==> evs[3 + np] is CreatingModelError
            &&& forall|i: int|
                0 <= i < evs.len() && i != 3 + np ==> !((#[trigger] evs[i]) is CreatingModelDone
                    || evs[i] is CreatingModelError)
            &&& forall|i: int|
                0 <= i < evs.len() && (#[trigger] evs[i]) is StartingHanzoNode ==> 3 + np < i
        }),
{
    let model = spawn_model(m);
    let fp = filtered_progress(oc.provisioning_progress@, 0);
    let ps = progress_events(model, fp);
    let np = fp.len() as int;
    let evs = spawn_events(m, oc);
    let rest = match oc.provisioning_result {
        Ok(_) => seq![(HanzoNodeManagerEvent::CreatingModelDone { model: model })]
            + node_phase_events(oc),
        Err(e) => seq![(HanzoNodeManagerEvent::CreatingModelError { model: model, error: e })]
            + runtime_teardown_events(),
    };
    let head = seq![
        HanzoNodeManagerEvent::StartingOllama,
        HanzoNodeManagerEvent::OllamaStarted,
        (HanzoNodeManagerEvent::CreatingModelStart { model: model }),
    ];
    assert(evs =~= head + ps + rest);
    lemma_filtered_progress_bounds(oc.provisioning_progress@, 0);

    // Pin down what stands at each index.
    assert forall|i: int| 3 <= i < 3 + np implies (#[trigger] evs[i])
        == (HanzoNodeManagerEvent::CreatingModelProgress { model: model, progress: fp[i - 3] }) by {
        assert(evs[i] == ps[i - 3]);
    }
    assert(evs[3 + np] == rest[0]);
    assert forall|i: int| 3 + np < i < evs.len() implies (#[trigger] evs[i])
        == rest[i - 3 - np] by {}

    // The tail after the terminal event, concretely, in each case.
    let tail = rest.drop_first();
    assert(tail =~= evs.subrange(3 + np + 1, evs.len() as int));
    match oc.provisioning_result {
        Ok(_) => {
            match oc.node_launch {
                Ok(_) => {
                    assert(tail =~= seq![
                        HanzoNodeManagerEvent::StartingHanzoNode,
                        HanzoNodeManagerEvent::HanzoNodeStarted,
                    ]);
                },
                Err(e) => {
                    assert(tail =~= seq![
                        HanzoNodeManagerEvent::StartingHanzoNode,
                        (HanzoNodeManagerEvent::HanzoNodeStartError { error: e }),
                        HanzoNodeManagerEvent::StoppingOllama,
                        HanzoNodeManagerEvent::OllamaStopped,
                    ]);
                },
            }
        },
        Err(_) => {
            assert(tail =~= seq![
                HanzoNodeManagerEvent::StoppingOllama,
                HanzoNodeManagerEvent::OllamaStopped,
            ]);
        },
    }

    assert forall|i: int|
        0 <= i < evs.len() && i != 2 implies !((#[trigger] evs[i]) is CreatingModelStart) by {
        if 3 + np < i {
            assert(evs[i] == tail[i - 3 - np - 1]);
        }
    }
    assert forall|i: int|
        0 <= i < evs.len() && i != 3 + np implies !((#[trigger] evs[i]) is CreatingModelDone
        || evs[i] is CreatingModelError) by {
        if 3 + np < i {
            assert(evs[i] == tail[i - 3 - np - 1]);
        }
    }
    assert forall|i: int|
        0 <= i < evs.len() && (#[trigger] evs[i]) is StartingHanzoNode implies 3 + np < i by {
        if 3 <= i < 3 + np {
            assert(evs[i] is CreatingModelProgress);
        }
    }
}

} // verus!
