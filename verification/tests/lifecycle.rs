//! The lifecycle orchestrator: launch order, bounded health checking with a
//! fixed backoff, overlay spawning, cooperative shutdown, and the errors'
//! exit discipline.

use zingo_proxyd::{
    close_proxy, NymClient, OnlineFlag, Orchestrator, ProxyAction, ProxyClient, ProxyConfig,
    ProxyError, ProxyEvent, ProxyState, SerializationError,
};
use zingo_proxyd::{Endpoint, Scheme};

fn config(overlay: bool) -> ProxyConfig {
    ProxyConfig { proxy_port: 8080, lwd_port: 9067, zebrad_port: 18232, overlay_configured: overlay }
}

#[test]
fn launch_checks_connectivity_first() {
    let mut o = Orchestrator::new(config(false));
    assert_eq!(o.state, ProxyState::NotStarted);
    assert!(o.online);
    assert_eq!(o.step(ProxyEvent::Launch), ProxyAction::CheckConnectivity);
    assert_eq!(o.state, ProxyState::ConnectivityChecking);
    assert!(!o.primary_spawned);
}

#[test]
fn upstream_down_at_launch_is_fatal_and_spawns_nothing() {
    let mut o = Orchestrator::new(config(false));
    o.step(ProxyEvent::Launch);
    let action = o.step(ProxyEvent::ConnectivityFailed);
    assert_eq!(action, ProxyAction::FailFatal(ProxyError::Connectivity));
    assert_eq!(o.state, ProxyState::Stopped);
    assert!(!o.primary_spawned);
    assert!(!o.overlay_spawned);
    // A stopped proxy ignores everything: still nothing is ever spawned.
    for e in [
        ProxyEvent::Launch,
        ProxyEvent::ConnectivityOk,
        ProxyEvent::PrimarySpawned,
        ProxyEvent::ProbeSucceeded,
        ProxyEvent::ShutdownRequested,
    ] {
        assert_eq!(o.step(e), ProxyAction::Idle);
    }
    assert!(!o.primary_spawned);
    assert!(!o.overlay_spawned);
}

#[test]
fn first_probe_is_gated_behind_one_interval() {
    let mut o = Orchestrator::new(config(false));
    o.step(ProxyEvent::Launch);
    assert_eq!(o.step(ProxyEvent::ConnectivityOk), ProxyAction::SpawnPrimary);
    assert_eq!(o.state, ProxyState::Starting);
    assert_eq!(o.step(ProxyEvent::PrimarySpawned), ProxyAction::WaitThenProbe(500));
    assert_eq!(o.state, ProxyState::HealthChecking);
    assert!(o.primary_spawned);
}

#[test]
fn health_check_succeeding_on_a_later_attempt_runs() {
    let mut o = Orchestrator::new(config(false));
    o.step(ProxyEvent::Launch);
    o.step(ProxyEvent::ConnectivityOk);
    o.step(ProxyEvent::PrimarySpawned);
    assert_eq!(o.step(ProxyEvent::ProbeFailed), ProxyAction::WaitThenProbe(500));
    assert_eq!(o.state, ProxyState::HealthChecking);
    assert_eq!(o.step(ProxyEvent::ProbeSucceeded), ProxyAction::Idle);
    assert_eq!(o.state, ProxyState::Running);
    assert!(o.online);
}

#[test]
fn dead_port_exhausts_three_attempts_and_exits_non_zero() {
    let mut o = Orchestrator::new(config(false));
    o.step(ProxyEvent::Launch);
    o.step(ProxyEvent::ConnectivityOk);
    // Spawning asks for probe one; two more failures stay within the budget.
    assert_eq!(o.step(ProxyEvent::PrimarySpawned), ProxyAction::WaitThenProbe(500));
    assert_eq!(o.step(ProxyEvent::ProbeFailed), ProxyAction::WaitThenProbe(500));
    assert_eq!(o.step(ProxyEvent::ProbeFailed), ProxyAction::WaitThenProbe(500));
    // The third failure is fatal: flag offline, non-zero exit.
    let action = o.step(ProxyEvent::ProbeFailed);
    assert_eq!(action, ProxyAction::FailFatal(ProxyError::HealthCheck));
    assert_eq!(o.state, ProxyState::Stopped);
    assert!(!o.online);
    assert_ne!(ProxyError::HealthCheck.exit_code(), 0);
    // No further probes are ever asked for.
    assert_eq!(o.step(ProxyEvent::ProbeFailed), ProxyAction::Idle);
}

#[test]
fn probes_against_a_running_proxy_change_nothing() {
    let mut o = Orchestrator::new(config(false));
    o.step(ProxyEvent::Launch);
    o.step(ProxyEvent::ConnectivityOk);
    o.step(ProxyEvent::PrimarySpawned);
    o.step(ProxyEvent::ProbeSucceeded);
    let before = o;
    assert_eq!(o.step(ProxyEvent::ProbeSucceeded), ProxyAction::Idle);
    assert_eq!(o.step(ProxyEvent::ConnectivityOk), ProxyAction::Idle);
    assert_eq!(o, before);
}

#[test]
fn overlay_is_spawned_after_the_primary_is_healthy() {
    let mut o = Orchestrator::new(config(true));
    o.step(ProxyEvent::Launch);
    o.step(ProxyEvent::ConnectivityOk);
    o.step(ProxyEvent::PrimarySpawned);
    assert_eq!(o.step(ProxyEvent::ProbeSucceeded), ProxyAction::SpawnOverlay);
    assert_eq!(o.state, ProxyState::Running);
    assert_eq!(o.step(ProxyEvent::OverlaySpawned), ProxyAction::Idle);
    assert!(o.overlay_spawned);
}

#[test]
fn shutdown_awaits_every_task_and_stays_offline() {
    let mut o = Orchestrator::new(config(false));
    o.step(ProxyEvent::Launch);
    o.step(ProxyEvent::ConnectivityOk);
    o.step(ProxyEvent::PrimarySpawned);
    o.step(ProxyEvent::ProbeSucceeded);
    assert_eq!(o.step(ProxyEvent::ShutdownRequested), ProxyAction::AwaitTasks);
    assert_eq!(o.state, ProxyState::ShuttingDown);
    assert!(!o.online);
    assert_eq!(o.step(ProxyEvent::TasksJoined), ProxyAction::Idle);
    assert_eq!(o.state, ProxyState::Stopped);
    assert!(!o.online);
}

#[test]
fn config_names_the_three_local_endpoints() {
    let c = config(false);
    assert_eq!(c.upstream_endpoint().authority, "localhost:18232");
    assert_eq!(c.fallback_endpoint().authority, "localhost:9067");
    assert_eq!(c.probe_endpoint().authority, "localhost:8080");
    assert_eq!(c.probe_endpoint().scheme, Scheme::Http);
}

#[test]
fn close_proxy_turns_the_flag_off() {
    let mut flag = OnlineFlag::new();
    assert!(flag.is_online());
    close_proxy(&mut flag);
    assert!(!flag.is_online());
}

#[test]
fn proxy_client_carries_its_two_endpoints_and_flag() {
    let p = ProxyClient::new(
        Endpoint::new(Scheme::Http, String::from("localhost:9067")),
        Endpoint::new(Scheme::Http, String::from("localhost:18232")),
        OnlineFlag::new(),
    );
    assert_eq!(p.lightwalletd_uri.authority, "localhost:9067");
    assert_eq!(p.zebrad_uri.authority, "localhost:18232");
    assert!(p.online.is_online());
}

#[test]
fn nym_client_reports_its_overlay_address() {
    let n = NymClient(String::from("3MaTcA4Fvr.Bs7fzjzWz@GqTcB9XnDk"));
    assert_eq!(n.nym_address().as_str(), "3MaTcA4Fvr.Bs7fzjzWz@GqTcB9XnDk");
}

#[test]
fn fatal_errors_describe_themselves_and_never_exit_zero() {
    for e in [
        ProxyError::Connectivity,
        ProxyError::TransportBuild,
        ProxyError::HealthCheck,
        ProxyError::Forwarding,
    ] {
        assert_ne!(e.exit_code(), 0);
        assert!(!e.describe().is_empty());
    }
    assert_eq!(ProxyError::Connectivity.describe(), "upstream node unreachable at launch");
}

#[test]
fn serialization_errors_name_their_kind() {
    assert_eq!(SerializationError::Io(String::from("pipe closed")).kind_name(), "io");
    assert_eq!(SerializationError::Parse("bad tag").kind_name(), "parse");
    assert_eq!(SerializationError::Utf8Error(String::from("bad byte")).kind_name(), "utf8");
    assert_eq!(
        SerializationError::TryFromSliceError(String::from("len 3")).kind_name(),
        "slice length"
    );
    assert_eq!(
        SerializationError::TryFromIntError(String::from("too big")).kind_name(),
        "integer size"
    );
    assert_eq!(SerializationError::FromHexError(String::from("odd len")).kind_name(), "hex");
}
