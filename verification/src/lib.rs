//! Supervisor for two cooperating local services: an inference-runtime
//! service and a primary node service.

pub mod event_bus;
pub mod events;
pub mod laws;
pub mod manager;
pub mod options;
pub mod process_handle;
pub mod text;

pub use events::HanzoNodeManagerEvent;
pub use manager::{HanzoNodeManager, SpawnOutcomes, StorageCleanupRequest};
pub use options::HanzoNodeOptions;
pub use process_handle::{ProcessHandle, ProcessStatus};
