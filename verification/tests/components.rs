use hanzo_node_manager::event_bus::EventBus;
use hanzo_node_manager::events::HanzoNodeManagerEvent;
use hanzo_node_manager::manager::HanzoNodeManager;
use hanzo_node_manager::options::{
    default_embedding_model, default_model, default_options, HanzoNodeOptions,
};
use hanzo_node_manager::process_handle::{ProcessHandle, ProcessStatus};
use hanzo_node_manager::text::{parse_version_output, u16_to_dec_string};

fn options_with_port(port: u16) -> HanzoNodeOptions {
    let mut options = default_options();
    options.ollama_api_port = port;
    options
}

#[test]
fn event_bus_drops_oldest_on_full_queue() {
    let mut bus = EventBus::new(2);
    let sub = bus.subscribe();
    bus.publish(&HanzoNodeManagerEvent::StartingOllama);
    bus.publish(&HanzoNodeManagerEvent::OllamaStarted);
    bus.publish(&HanzoNodeManagerEvent::StartingHanzoNode);
    assert_eq!(bus.poll(sub), Some(HanzoNodeManagerEvent::OllamaStarted));
    assert_eq!(bus.poll(sub), Some(HanzoNodeManagerEvent::StartingHanzoNode));
    assert_eq!(bus.poll(sub), None);
}

#[test]
fn closed_subscriber_receives_nothing_and_others_still_do() {
    let mut bus = EventBus::new(8);
    let first = bus.subscribe();
    let second = bus.subscribe();
    bus.close(first);
    bus.publish(&HanzoNodeManagerEvent::StartingOllama);
    assert_eq!(bus.poll(first), None);
    assert_eq!(bus.poll(second), Some(HanzoNodeManagerEvent::StartingOllama));
}

#[test]
fn polling_an_unknown_subscriber_yields_nothing() {
    let mut bus = EventBus::new(8);
    assert_eq!(bus.poll(17), None);
}

#[test]
fn process_handle_lifecycle() {
    let mut handle = ProcessHandle::new();
    assert!(!handle.is_running());
    handle.begin_spawn();
    assert!(!handle.is_running());
    assert_eq!(handle.complete_spawn(&Ok(())), Ok(()));
    assert!(handle.is_running());
    handle.kill();
    assert!(!handle.is_running());
    handle.begin_spawn();
    let failed = handle.complete_spawn(&Err(String::from("readiness timeout")));
    assert_eq!(failed, Err(String::from("readiness timeout")));
    assert!(!handle.is_running());
    assert_eq!(
        handle.status,
        ProcessStatus::Failed { error: String::from("readiness timeout") }
    );
    handle.kill();
    assert_eq!(handle.status, ProcessStatus::Stopped);
}

#[test]
fn default_values_are_the_documented_ones() {
    let options = default_options();
    assert_eq!(options.node_api_port, 9550);
    assert_eq!(options.node_port, 9552);
    assert_eq!(options.ollama_api_port, 11434);
    assert_eq!(options.node_storage_path, String::from("node_storage"));
    assert_eq!(
        options.default_embedding_model,
        Some(String::from("embeddinggemma:300m"))
    );
    assert_eq!(default_model(), String::from("hanzo-backend:FREE_TEXT_INFERENCE"));
    assert_eq!(default_embedding_model(), String::from("embeddinggemma:300m"));
}

#[test]
fn api_url_is_built_from_the_configured_port() {
    let mgr = HanzoNodeManager::new(options_with_port(11434), 8);
    assert_eq!(mgr.get_ollama_api_url(), String::from("http://127.0.0.1:11434"));
    let mgr = HanzoNodeManager::new(options_with_port(0), 8);
    assert_eq!(mgr.get_ollama_api_url(), String::from("http://127.0.0.1:0"));
    let mgr = HanzoNodeManager::new(options_with_port(65535), 8);
    assert_eq!(mgr.get_ollama_api_url(), String::from("http://127.0.0.1:65535"));
}

#[test]
fn decimal_rendering_matches() {
    assert_eq!(u16_to_dec_string(0), String::from("0"));
    assert_eq!(u16_to_dec_string(7), String::from("7"));
    assert_eq!(u16_to_dec_string(10), String::from("10"));
    assert_eq!(u16_to_dec_string(11434), String::from("11434"));
    assert_eq!(u16_to_dec_string(65535), String::from("65535"));
}

#[test]
fn version_output_is_parsed_to_the_last_token() {
    assert_eq!(
        parse_version_output("ollama version is 0.1.17\n"),
        Some(String::from("0.1.17"))
    );
    assert_eq!(
        parse_version_output("ollama version is 0.5.4  \r\n"),
        Some(String::from("0.5.4"))
    );
    assert_eq!(parse_version_output("nospace"), None);
    assert_eq!(parse_version_output(""), None);
    assert_eq!(parse_version_output("   \n"), None);
}

#[test]
fn version_query_errors_on_unparsable_output() {
    assert_eq!(
        HanzoNodeManager::get_ollama_version("ollama version is 0.1.17\n"),
        Ok(String::from("0.1.17"))
    );
    assert_eq!(
        HanzoNodeManager::get_ollama_version("garbage"),
        Err(String::from("unable to parse version output"))
    );
}
