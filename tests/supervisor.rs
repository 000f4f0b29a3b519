use futures::channel::{mpsc, oneshot};
use futures::executor::block_on;
use futures::StreamExt;

use nym_socks5_supervisor::bootstrap::{finish_bootstrap, RegistrationError};
use nym_socks5_supervisor::config::{
    parse_urls, socks5_config_id_appended_with, Config, ConfigError, GatewayEndpoint,
};
use nym_socks5_supervisor::lifecycle::{
    terminate_start, terminate_step, RunEvent, RunState, TerminateAction, TerminateEvent,
    TerminatePhase,
};
use nym_socks5_supervisor::store::ConfigStore;
use nym_socks5_supervisor::tasks::{
    disconnect_event, exit_status_for, load_run_config, report_exit, send_stop, EngineError,
    ListenerEvent, RunnerError, Socks5ControlMessage, Socks5ExitStatusMessage,
    STATUS_CHANNEL_CAPACITY,
};

fn gateway(id: &str) -> GatewayEndpoint {
    GatewayEndpoint {
        gateway_id: id.to_string(),
        gateway_owner: format!("owner-of-{id}"),
        gateway_listener: format!("ws://{id}:9000"),
    }
}

fn same_gateway(a: &GatewayEndpoint, b: &GatewayEndpoint) -> bool {
    a.gateway_id == b.gateway_id
        && a.gateway_owner == b.gateway_owner
        && a.gateway_listener == b.gateway_listener
}

fn bootstrap(store: &mut ConfigStore, id: &str, provider: &str, gw: &GatewayEndpoint) -> Result<(), ConfigError> {
    let config = Config::new(id, provider);
    finish_bootstrap(store, config, Ok(gw.duplicate()))
}

#[test]
fn config_id_is_prefixed() {
    let id = socks5_config_id_appended_with("gw-42").unwrap();
    assert_eq!(id, "nym-harbour-master-gw-42");
    assert_eq!(socks5_config_id_appended_with("").unwrap(), "nym-harbour-master-");
}

#[test]
fn parse_urls_splits_on_commas_and_whitespace() {
    let urls = parse_urls("https://a.example, https://b.example\nhttps://c.example");
    assert_eq!(urls, vec!["https://a.example", "https://b.example", "https://c.example"]);
    assert_eq!(parse_urls("single"), vec!["single"]);
}

#[test]
fn parse_urls_drops_empty_entries() {
    assert!(parse_urls("").is_empty());
    assert!(parse_urls(" ,, \t,\n").is_empty());
    assert_eq!(parse_urls(",x,,y,"), vec!["x", "y"]);
}

#[test]
fn new_config_is_unbound() {
    let config = Config::new("alice", "provider.example");
    let base = config.get_base();
    assert_eq!(base.id(), "alice");
    assert_eq!(config.provider_mix_address(), "provider.example");
    assert_eq!(base.get_gateway_endpoint().gateway_id, "");
    assert!(!base.no_cover_traffic());
    assert!(base.custom_nym_apis().is_none());
}

#[test]
fn api_override_replaces_defaults() {
    let mut config = Config::new("alice", "provider.example");
    config.apply_nym_api_override(None);
    assert!(config.get_base().custom_nym_apis().is_none());
    config.apply_nym_api_override(Some("https://api1.example https://api2.example"));
    assert_eq!(
        config.get_base().custom_nym_apis().unwrap(),
        vec!["https://api1.example", "https://api2.example"]
    );
}

#[test]
fn bind_gateway_turns_cover_traffic_off() {
    let mut config = Config::new("alice", "provider.example");
    config.bind_gateway(gateway("gw1"));
    assert!(same_gateway(config.get_base().get_gateway_endpoint(), &gateway("gw1")));
    assert!(config.get_base().no_cover_traffic());
    assert_eq!(config.get_base().id(), "alice");
}

#[test]
fn get_base_mut_edits_the_base() {
    let mut config = Config::new("alice", "provider.example");
    config.get_base_mut().set_custom_nym_apis(vec!["https://x.example".to_string()]);
    assert_eq!(config.get_base().custom_nym_apis().unwrap(), vec!["https://x.example"]);
}

#[test]
fn store_save_and_load() {
    let mut store = ConfigStore::new();
    assert!(!store.contains("alice"));
    assert!(store.load("alice").is_none());
    store.save("alice", Config::new("alice", "p1"));
    store.save("bob", Config::new("bob", "p2"));
    assert!(store.contains("alice"));
    assert_eq!(store.load("bob").unwrap().provider_mix_address(), "p2");
    assert_eq!(store.load("alice").unwrap().provider_mix_address(), "p1");
}

#[test]
fn bootstrap_then_start_returns_registered_gateway() {
    let mut store = ConfigStore::new();
    let gw = gateway("gw-alice");
    assert!(bootstrap(&mut store, "alice", "provider.example", &gw).is_ok());
    let (config, used) = load_run_config(&store, "alice").unwrap();
    assert!(same_gateway(&used, &gw));
    assert!(same_gateway(config.get_base().get_gateway_endpoint(), &gw));
    assert!(config.get_base().no_cover_traffic());
    assert_eq!(config.provider_mix_address(), "provider.example");
}

#[test]
fn bootstrap_twice_keeps_only_second() {
    let mut store = ConfigStore::new();
    assert!(bootstrap(&mut store, "alice", "first.example", &gateway("gw1")).is_ok());
    assert!(bootstrap(&mut store, "alice", "second.example", &gateway("gw2")).is_ok());
    let (config, used) = load_run_config(&store, "alice").unwrap();
    assert_eq!(config.provider_mix_address(), "second.example");
    assert!(same_gateway(&used, &gateway("gw2")));
}

#[test]
fn registration_failure_leaves_store_unchanged() {
    let mut store = ConfigStore::new();
    let failed = Err(RegistrationError { message: "gateway unreachable".to_string() });
    let r = finish_bootstrap(&mut store, Config::new("alice", "provider.example"), failed);
    assert_eq!(r, Err(ConfigError::Registration));
    assert!(!store.contains("alice"));
}

#[test]
fn start_without_bootstrap_is_config_not_found() {
    let store = ConfigStore::new();
    assert_eq!(load_run_config(&store, "missing-id").err(), Some(RunnerError::ConfigNotFound));
}

#[test]
fn alice_scenario() {
    let mut store = ConfigStore::new();
    let gw = gateway("gw-alice");
    assert!(bootstrap(&mut store, "alice", "provider.example", &gw).is_ok());
    let (_config, used) = load_run_config(&store, "alice").unwrap();
    assert!(same_gateway(&used, &gw));

    let (mut status_tx, mut status_rx) = mpsc::channel::<String>(STATUS_CHANNEL_CAPACITY);
    let (exit_tx, exit_rx) = oneshot::channel();
    status_tx.try_send("ready".to_string()).unwrap();
    drop(status_tx);
    assert!(report_exit(exit_tx, Ok(())).is_ok());

    assert_eq!(block_on(status_rx.next()), Some("ready".to_string()));
    assert_eq!(block_on(status_rx.next()), None);
    assert!(matches!(disconnect_event(block_on(exit_rx)), ListenerEvent::Finished));
}

#[test]
fn status_events_arrive_in_order_then_close() {
    let (mut tx, mut rx) = mpsc::channel::<String>(STATUS_CHANNEL_CAPACITY);
    for i in 0..5 {
        tx.try_send(format!("event-{i}")).unwrap();
    }
    drop(tx);
    for i in 0..5 {
        assert_eq!(block_on(rx.next()), Some(format!("event-{i}")));
    }
    assert_eq!(block_on(rx.next()), None);
}

#[test]
fn exit_status_maps_engine_result() {
    assert!(matches!(exit_status_for(Ok(())), Socks5ExitStatusMessage::Stopped));
    let failed = exit_status_for(Err(EngineError { message: "boom".to_string() }));
    match failed {
        Socks5ExitStatusMessage::Failed(e) => assert_eq!(e.message, "boom"),
        other => panic!("unexpected {other:?}"),
    }
}

#[test]
fn listener_sees_exactly_one_outcome_per_run() {
    let (tx, rx) = oneshot::channel();
    assert!(report_exit(tx, Ok(())).is_ok());
    assert!(matches!(disconnect_event(block_on(rx)), ListenerEvent::Finished));

    let (tx, rx) = oneshot::channel();
    assert!(report_exit(tx, Err(EngineError { message: "broken".to_string() })).is_ok());
    match disconnect_event(block_on(rx)) {
        ListenerEvent::ReportedError(m) => assert_eq!(m, "broken"),
        other => panic!("unexpected {other:?}"),
    }

    let (tx, rx) = oneshot::channel::<Socks5ExitStatusMessage>();
    drop(tx);
    assert!(matches!(disconnect_event(block_on(rx)), ListenerEvent::StoppedAbruptly));
}

#[test]
fn report_exit_without_listener_hands_status_back() {
    let (tx, rx) = oneshot::channel();
    drop(rx);
    match report_exit(tx, Err(EngineError { message: "lost".to_string() })) {
        Err(Socks5ExitStatusMessage::Failed(e)) => assert_eq!(e.message, "lost"),
        other => panic!("unexpected {other:?}"),
    }
}

#[test]
fn send_stop_reaches_engine() {
    let (tx, mut rx) = mpsc::unbounded();
    assert!(send_stop(&tx));
    assert_eq!(block_on(rx.next()), Some(Socks5ControlMessage::Stop));
}

#[test]
fn send_stop_to_finished_engine_fails() {
    let (tx, rx) = mpsc::unbounded::<Socks5ControlMessage>();
    drop(rx);
    assert!(!send_stop(&tx));
}

#[test]
fn run_state_transitions() {
    let s = RunState::Idle;
    assert_eq!(s.next(RunEvent::StopSent), RunState::Idle);
    let s = s.next(RunEvent::Started);
    assert_eq!(s, RunState::Running);
    let s = s.next(RunEvent::StopSent);
    assert_eq!(s, RunState::StopRequested);
    let s = s.next(RunEvent::ExitSignalled);
    assert_eq!(s, RunState::Terminated);
    assert_eq!(s.next(RunEvent::Started), RunState::Terminated);
    assert_eq!(RunState::Running.next(RunEvent::ExitSignalled), RunState::Terminated);
}

#[test]
fn terminate_joins_after_successful_stop() {
    let (phase, action) = terminate_start();
    assert_eq!(action, TerminateAction::SendStop);
    let (phase, action) = terminate_step(phase, TerminateEvent::StopQueued);
    assert_eq!(action, TerminateAction::AwaitJoin { stop_queued: true });
    let (phase, action) = terminate_step(phase, TerminateEvent::JoinCompleted);
    assert_eq!(phase, TerminatePhase::Done);
    assert_eq!(action, TerminateAction::Finish { join_failed: false });
}

#[test]
fn terminate_joins_even_when_engine_already_exited() {
    let (phase, _) = terminate_start();
    let (phase, action) = terminate_step(phase, TerminateEvent::StopRejected);
    assert_eq!(phase, TerminatePhase::Joining);
    assert_eq!(action, TerminateAction::AwaitJoin { stop_queued: false });
    let (phase, action) = terminate_step(phase, TerminateEvent::JoinFailed);
    assert_eq!(phase, TerminatePhase::Done);
    assert_eq!(action, TerminateAction::Finish { join_failed: true });
}

#[test]
fn terminate_waits_while_join_is_pending() {
    let (phase, _) = terminate_start();
    let (phase, _) = terminate_step(phase, TerminateEvent::StopQueued);
    let (phase, action) = terminate_step(phase, TerminateEvent::StopQueued);
    assert_eq!(phase, TerminatePhase::Joining);
    assert_eq!(action, TerminateAction::Ignore);
}
