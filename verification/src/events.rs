//! Lifecycle events published by the supervisor.

use vstd::prelude::*;

verus! {

/// One lifecycle transition of the supervised services.  A closed set of
/// tagged variants, each carrying only the fields relevant to that tag
/// (model id, numeric progress, or error text).  Values are immutable and
/// copied to every subscriber.
#[derive(Debug, PartialEq, Eq)]
pub enum HanzoNodeManagerEvent {
    StartingHanzoNode,
    HanzoNodeStarted,
    HanzoNodeStartError { error: String },
    StartingOllama,
    OllamaStarted,
    OllamaStartError { error: String },
    PullingModelStart { model: String },
    PullingModelProgress { model: String, progress: u32 },
    PullingModelDone { model: String },
    PullingModelError { model: String, error: String },
    CreatingModelStart { model: String },
    CreatingModelProgress { model: String, progress: u32 },
    CreatingModelDone { model: String },
    CreatingModelError { model: String, error: String },
    StoppingHanzoNode,
    HanzoNodeStopped,
    HanzoNodeStopError { error: String },
    StoppingOllama,
    OllamaStopped,
    OllamaStopError { error: String },
}

impl Clone for HanzoNodeManagerEvent {
    fn clone(&self) -> (r: Self)
        ensures
            r == *self,
    {
        match self {
            HanzoNodeManagerEvent::StartingHanzoNode => HanzoNodeManagerEvent::StartingHanzoNode,
            HanzoNodeManagerEvent::HanzoNodeStarted => HanzoNodeManagerEvent::HanzoNodeStarted,
            HanzoNodeManagerEvent::HanzoNodeStartError { error } => (HanzoNodeManagerEvent::HanzoNodeStartError { error: error.clone() }),
            HanzoNodeManagerEvent::StartingOllama => HanzoNodeManagerEvent::StartingOllama,
            HanzoNodeManagerEvent::OllamaStarted => HanzoNodeManagerEvent::OllamaStarted,
            HanzoNodeManagerEvent::OllamaStartError { error } => (HanzoNodeManagerEvent::OllamaStartError { error: error.clone() }),
            HanzoNodeManagerEvent::PullingModelStart { model } => (HanzoNodeManagerEvent::PullingModelStart { model: model.clone() }),
            HanzoNodeManagerEvent::PullingModelProgress { model, progress } => (HanzoNodeManagerEvent::PullingModelProgress { model: model.clone(), progress: *progress }),
            HanzoNodeManagerEvent::PullingModelDone { model } => (HanzoNodeManagerEvent::PullingModelDone { model: model.clone() }),
            HanzoNodeManagerEvent::PullingModelError { model, error } => (HanzoNodeManagerEvent::PullingModelError { model: model.clone(), error: error.clone() }),
            HanzoNodeManagerEvent::CreatingModelStart { model } => (HanzoNodeManagerEvent::CreatingModelStart { model: model.clone() }),
            HanzoNodeManagerEvent::CreatingModelProgress { model, progress } => (HanzoNodeManagerEvent::CreatingModelProgress { model: model.clone(), progress: *progress }),
            HanzoNodeManagerEvent::CreatingModelDone { model } => (HanzoNodeManagerEvent::CreatingModelDone { model: model.clone() }),
            HanzoNodeManagerEvent::CreatingModelError { model, error } => (HanzoNodeManagerEvent::CreatingModelError { model: model.clone(), error: error.clone() }),
            HanzoNodeManagerEvent::StoppingHanzoNode => HanzoNodeManagerEvent::StoppingHanzoNode,
            HanzoNodeManagerEvent::HanzoNodeStopped => HanzoNodeManagerEvent::HanzoNodeStopped,
            HanzoNodeManagerEvent::HanzoNodeStopError { error } => (HanzoNodeManagerEvent::HanzoNodeStopError { error: error.clone() }),
            HanzoNodeManagerEvent::StoppingOllama => HanzoNodeManagerEvent::StoppingOllama,
            HanzoNodeManagerEvent::OllamaStopped => HanzoNodeManagerEvent::OllamaStopped,
            HanzoNodeManagerEvent::OllamaStopError { error } => (HanzoNodeManagerEvent::OllamaStopError { error: error.clone() }),
        }
    }
}

/// True of every event that belongs to the model-provisioning families,
/// whether the model is imported from a packaged artifact or pulled.
pub open spec fn is_provisioning_event(e: HanzoNodeManagerEvent) -> bool {
    ||| e is PullingModelStart
    ||| e is PullingModelProgress
    ||| e is PullingModelDone
    ||| e is PullingModelError
    ||| e is CreatingModelStart
    ||| e is CreatingModelProgress
    ||| e is CreatingModelDone
    ||| e is CreatingModelError
}

} // verus!
