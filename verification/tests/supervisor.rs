use hanzo_node_manager::events::HanzoNodeManagerEvent;
use hanzo_node_manager::manager::{HanzoNodeManager, SpawnOutcomes};
use hanzo_node_manager::options::{default_options, HanzoNodeOptions};

fn options_with_model(model: &str) -> HanzoNodeOptions {
    HanzoNodeOptions {
        node_api_port: 9550,
        node_port: 9552,
        ollama_api_port: 11434,
        node_storage_path: String::from("node_storage"),
        default_embedding_model: Some(String::from(model)),
    }
}

fn drain(mgr: &mut HanzoNodeManager, subscriber: usize) -> Vec<HanzoNodeManagerEvent> {
    let mut events = Vec::new();
    while let Some(e) = mgr.poll_event(subscriber) {
        events.push(e);
    }
    events
}

fn all_ok_outcomes(installed: Option<Vec<String>>) -> SpawnOutcomes {
    SpawnOutcomes {
        runtime_launch: Ok(()),
        installed_models: installed,
        provisioning_progress: vec![40, 80],
        provisioning_result: Ok(()),
        node_launch: Ok(()),
    }
}

#[test]
fn scenario_empty_model_list_provisions_default() {
    let mut mgr = HanzoNodeManager::new(options_with_model("embed-base"), 64);
    let sub = mgr.subscribe_to_events();
    let outcome = mgr.spawn(&all_ok_outcomes(Some(Vec::new())));
    assert_eq!(outcome, Ok(()));
    assert!(mgr.is_running());
    let events = drain(&mut mgr, sub);
    assert_eq!(
        events,
        vec![
            HanzoNodeManagerEvent::StartingOllama,
            HanzoNodeManagerEvent::OllamaStarted,
            HanzoNodeManagerEvent::CreatingModelStart { model: String::from("embed-base") },
            HanzoNodeManagerEvent::CreatingModelProgress {
                model: String::from("embed-base"),
                progress: 40,
            },
            HanzoNodeManagerEvent::CreatingModelProgress {
                model: String::from("embed-base"),
                progress: 80,
            },
            HanzoNodeManagerEvent::CreatingModelDone { model: String::from("embed-base") },
            HanzoNodeManagerEvent::StartingHanzoNode,
            HanzoNodeManagerEvent::HanzoNodeStarted,
        ]
    );
}

#[test]
fn scenario_runtime_launch_failure_reports_and_stops() {
    let mut mgr = HanzoNodeManager::new(options_with_model("embed-base"), 64);
    let sub = mgr.subscribe_to_events();
    let outcomes = SpawnOutcomes {
        runtime_launch: Err(String::from("binary not found")),
        installed_models: Some(Vec::new()),
        provisioning_progress: Vec::new(),
        provisioning_result: Ok(()),
        node_launch: Ok(()),
    };
    let outcome = mgr.spawn(&outcomes);
    assert_eq!(outcome, Err(String::from("binary not found")));
    assert!(!mgr.is_running());
    let events = drain(&mut mgr, sub);
    assert_eq!(
        events,
        vec![
            HanzoNodeManagerEvent::StartingOllama,
            HanzoNodeManagerEvent::OllamaStartError { error: String::from("binary not found") },
        ]
    );
}

#[test]
fn scenario_model_already_installed_skips_provisioning() {
    let mut mgr = HanzoNodeManager::new(options_with_model("embed-base"), 64);
    let sub = mgr.subscribe_to_events();
    let installed = Some(vec![String::from("other"), String::from("embed-base")]);
    let outcome = mgr.spawn(&all_ok_outcomes(installed));
    assert_eq!(outcome, Ok(()));
    assert!(mgr.is_running());
    let events = drain(&mut mgr, sub);
    assert_eq!(
        events,
        vec![
            HanzoNodeManagerEvent::StartingOllama,
            HanzoNodeManagerEvent::OllamaStarted,
            HanzoNodeManagerEvent::StartingHanzoNode,
            HanzoNodeManagerEvent::HanzoNodeStarted,
        ]
    );
}

#[test]
fn failed_tags_query_counts_as_no_models() {
    let mut mgr = HanzoNodeManager::new(options_with_model("embed-base"), 64);
    let sub = mgr.subscribe_to_events();
    let outcome = mgr.spawn(&all_ok_outcomes(None));
    assert_eq!(outcome, Ok(()));
    let events = drain(&mut mgr, sub);
    assert!(matches!(events[2], HanzoNodeManagerEvent::CreatingModelStart { .. }));
}

#[test]
fn provisioning_failure_tears_down_runtime() {
    let mut mgr = HanzoNodeManager::new(options_with_model("embed-base"), 64);
    let sub = mgr.subscribe_to_events();
    let outcomes = SpawnOutcomes {
        runtime_launch: Ok(()),
        installed_models: Some(Vec::new()),
        provisioning_progress: vec![10],
        provisioning_result: Err(String::from("import failed")),
        node_launch: Ok(()),
    };
    let outcome = mgr.spawn(&outcomes);
    assert_eq!(outcome, Err(String::from("import failed")));
    assert!(!mgr.is_running());
    let events = drain(&mut mgr, sub);
    assert_eq!(
        events,
        vec![
            HanzoNodeManagerEvent::StartingOllama,
            HanzoNodeManagerEvent::OllamaStarted,
            HanzoNodeManagerEvent::CreatingModelStart { model: String::from("embed-base") },
            HanzoNodeManagerEvent::CreatingModelProgress {
                model: String::from("embed-base"),
                progress: 10,
            },
            HanzoNodeManagerEvent::CreatingModelError {
                model: String::from("embed-base"),
                error: String::from("import failed"),
            },
            HanzoNodeManagerEvent::StoppingOllama,
            HanzoNodeManagerEvent::OllamaStopped,
        ]
    );
}

#[test]
fn node_launch_failure_tears_down_runtime() {
    let mut mgr = HanzoNodeManager::new(options_with_model("embed-base"), 64);
    let sub = mgr.subscribe_to_events();
    let outcomes = SpawnOutcomes {
        runtime_launch: Ok(()),
        installed_models: Some(vec![String::from("embed-base")]),
        provisioning_progress: Vec::new(),
        provisioning_result: Ok(()),
        node_launch: Err(String::from("node exited early")),
    };
    let outcome = mgr.spawn(&outcomes);
    assert_eq!(outcome, Err(String::from("node exited early")));
    assert!(!mgr.is_running());
    let events = drain(&mut mgr, sub);
    assert_eq!(
        events,
        vec![
            HanzoNodeManagerEvent::StartingOllama,
            HanzoNodeManagerEvent::OllamaStarted,
            HanzoNodeManagerEvent::StartingHanzoNode,
            HanzoNodeManagerEvent::HanzoNodeStartError {
                error: String::from("node exited early"),
            },
            HanzoNodeManagerEvent::StoppingOllama,
            HanzoNodeManagerEvent::OllamaStopped,
        ]
    );
}

#[test]
fn progress_relay_clamps_and_never_decreases() {
    let mut mgr = HanzoNodeManager::new(options_with_model("embed-base"), 64);
    let sub = mgr.subscribe_to_events();
    let outcomes = SpawnOutcomes {
        runtime_launch: Ok(()),
        installed_models: Some(Vec::new()),
        provisioning_progress: vec![10, 5, 200, 50],
        provisioning_result: Ok(()),
        node_launch: Ok(()),
    };
    mgr.spawn(&outcomes).unwrap();
    let events = drain(&mut mgr, sub);
    let relayed: Vec<u32> = events
        .iter()
        .filter_map(|e| match e {
            HanzoNodeManagerEvent::CreatingModelProgress { progress, .. } => Some(*progress),
            _ => None,
        })
        .collect();
    assert_eq!(relayed, vec![10, 100]);
}

#[test]
fn kill_twice_emits_two_full_event_groups() {
    let mut mgr = HanzoNodeManager::new(options_with_model("embed-base"), 64);
    let sub = mgr.subscribe_to_events();
    mgr.kill();
    assert!(!mgr.is_running());
    mgr.kill();
    assert!(!mgr.is_running());
    let events = drain(&mut mgr, sub);
    let group = vec![
        HanzoNodeManagerEvent::StoppingHanzoNode,
        HanzoNodeManagerEvent::HanzoNodeStopped,
        HanzoNodeManagerEvent::StoppingOllama,
        HanzoNodeManagerEvent::OllamaStopped,
    ];
    let mut expected = group.clone();
    expected.extend(group);
    assert_eq!(events, expected);
}

#[test]
fn kill_after_spawn_stops_everything() {
    let mut mgr = HanzoNodeManager::new(options_with_model("embed-base"), 64);
    mgr.spawn(&all_ok_outcomes(Some(vec![String::from("embed-base")]))).unwrap();
    assert!(mgr.is_running());
    mgr.kill();
    assert!(!mgr.is_running());
}

#[test]
fn set_options_emits_nothing_and_keeps_running_state() {
    let mut mgr = HanzoNodeManager::new(options_with_model("embed-base"), 64);
    mgr.spawn(&all_ok_outcomes(Some(vec![String::from("embed-base")]))).unwrap();
    let sub = mgr.subscribe_to_events();
    let was_running = mgr.is_running();
    let replacement = options_with_model("another-model");
    let echoed = mgr.set_hanzo_node_options(replacement.clone());
    assert_eq!(echoed, replacement);
    assert_eq!(mgr.get_hanzo_node_options(), replacement);
    assert_eq!(mgr.is_running(), was_running);
    assert_eq!(drain(&mut mgr, sub), Vec::new());
}

#[test]
fn subscriber_created_after_spawn_sees_no_events() {
    let mut mgr = HanzoNodeManager::new(options_with_model("embed-base"), 64);
    mgr.spawn(&all_ok_outcomes(Some(vec![String::from("embed-base")]))).unwrap();
    let mut late = mgr.subscribe_to_events();
    assert_eq!(mgr.poll_event(late), None);
    // The late subscriber still receives what is emitted afterwards.
    mgr.kill();
    let events = drain(&mut mgr, late);
    assert_eq!(events.len(), 4);
    late = mgr.subscribe_to_events();
    assert_eq!(mgr.poll_event(late), None);
}

#[test]
fn set_default_options_restores_defaults() {
    let mut mgr = HanzoNodeManager::new(options_with_model("something-else"), 64);
    let echoed = mgr.set_default_hanzo_node_options();
    assert_eq!(echoed, default_options());
    assert_eq!(
        mgr.get_hanzo_node_options().default_embedding_model,
        Some(String::from("embeddinggemma:300m"))
    );
}

#[test]
fn storage_request_passes_path_and_flag_through() {
    let mgr = HanzoNodeManager::new(options_with_model("embed-base"), 64);
    let request = mgr.remove_storage(true);
    assert_eq!(request.storage_path, String::from("node_storage"));
    assert!(request.preserve_keys);
    let request = mgr.remove_storage(false);
    assert!(!request.preserve_keys);
}

#[test]
fn storage_locations_resolve_paths() {
    let mgr = HanzoNodeManager::new(options_with_model("embed-base"), 64);
    assert_eq!(mgr.open_storage_location(), String::from("node_storage"));
    assert_eq!(
        mgr.open_storage_location_with_path("chats"),
        String::from("node_storage/chats")
    );
    assert_eq!(
        mgr.open_chat_folder("/data/storage", "chat-42"),
        String::from("/data/storage/chat-42")
    );
}
