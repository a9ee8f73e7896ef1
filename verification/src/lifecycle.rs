//! The lifecycle orchestrator: a state machine driving proxy startup
//! (connectivity pre-check, server spawn, bounded health-check retry),
//! steady-state serving and cooperative shutdown. The orchestrator decides;
//! the surrounding runtime performs the returned action and hands the
//! resulting event back.

use vstd::prelude::*;
use crate::endpoint::{Endpoint, dec_str};
use crate::error::ProxyError;
use crate::primitives::OnlineFlag;

verus! {

/// How many probes the health check may issue before giving up.
pub const MAX_HEALTH_ATTEMPTS: u8 = 3;

/// The fixed backoff between health-check probes, in milliseconds. The first
/// probe is gated behind one interval too, so the server has time to bind.
pub const HEALTH_INTERVAL_MS: u64 = 500;

/// The seed configuration a proxy is launched with.
#[derive(Clone, Copy, PartialEq, Eq, Structural, Debug)]
pub struct ProxyConfig {
    /// The port the primary gateway listens on.
    pub proxy_port: u16,
    /// The port of the fallback wallet-protocol daemon.
    pub lwd_port: u16,
    /// The port of the upstream full node.
    pub zebrad_port: u16,
    /// Whether an overlay-transport ingress is configured.
    pub overlay_configured: bool,
}

impl ProxyConfig {
    /// The upstream node's endpoint, dialed for the connectivity pre-check.
    pub fn upstream_endpoint(&self) -> (r: Endpoint)
        ensures
            r.scheme == crate::endpoint::Scheme::Http,
            r.authority@ == "localhost:"@ + dec_str(self.zebrad_port as nat),
            r.wf(),
    {
        Endpoint::localhost(self.zebrad_port)
    }

    /// The fallback daemon's endpoint, the target of every forwarded call.
    pub fn fallback_endpoint(&self) -> (r: Endpoint)
        ensures
            r.scheme == crate::endpoint::Scheme::Http,
            r.authority@ == "localhost:"@ + dec_str(self.lwd_port as nat),
            r.wf(),
    {
        Endpoint::localhost(self.lwd_port)
    }

    /// The just-spawned server's own endpoint, dialed by the health check.
    pub fn probe_endpoint(&self) -> (r: Endpoint)
        ensures
            r.scheme == crate::endpoint::Scheme::Http,
            r.authority@ == "localhost:"@ + dec_str(self.proxy_port as nat),
            r.wf(),
    {
        Endpoint::localhost(self.proxy_port)
    }
}

/// The phases of a proxy's life, in launch order.
#[derive(Clone, Copy, PartialEq, Eq, Structural, Debug)]
pub enum ProxyState {
    NotStarted,
    ConnectivityChecking,
    Starting,
    HealthChecking,
    Running,
    ShuttingDown,
    Stopped,
}

/// What the runtime reports back to the orchestrator.
#[derive(Clone, Copy, PartialEq, Eq, Structural, Debug)]
pub enum ProxyEvent {
    /// Launch was requested with the seed configuration.
    Launch,
    /// The idempotent service-info query against the upstream node answered.
    ConnectivityOk,
    /// The upstream node could not be reached.
    ConnectivityFailed,
    /// The primary server task was spawned and its join handle retained.
    PrimarySpawned,
    /// A health-check probe against the spawned server answered.
    ProbeSucceeded,
    /// A health-check probe failed to connect or to answer.
    ProbeFailed,
    /// The overlay-facing server task was spawned.
    OverlaySpawned,
    /// Some actor asked the proxy to stop serving.
    ShutdownRequested,
    /// Every server task's join handle has resolved.
    TasksJoined,
}

/// What the orchestrator asks the runtime to do next.
#[derive(Clone, Copy, PartialEq, Eq, Structural, Debug)]
pub enum ProxyAction {
    /// Issue the idempotent service-info query against the upstream node.
    CheckConnectivity,
    /// Spawn the primary server task and retain its join handle.
    SpawnPrimary,
    /// Wait the given number of milliseconds, then open a fresh client
    /// against the spawned server's own listen address and probe it.
    WaitThenProbe(u64),
    /// Spawn the overlay-facing server task.
    SpawnOverlay,
    /// Await every server task's join handle.
    AwaitTasks,
    /// Print the error's diagnostic and terminate with its non-zero status.
    FailFatal(ProxyError),
    /// Nothing to do.
    Idle,
}

/// The orchestrator's entire state: phase, health-check retry counter, the
/// online flag it owns, and which tasks have been spawned.
#[derive(Clone, Copy, PartialEq, Eq, Structural, Debug)]
pub struct Orchestrator {
    pub config: ProxyConfig,
    pub state: ProxyState,
    /// Health-check probes that have failed so far.
    pub attempts: u8,
    /// The shared online flag's value: `false` is the sole shutdown signal.
    pub online: bool,
    pub primary_spawned: bool,
    pub overlay_spawned: bool,
}

/// A freshly launched orchestrator: nothing spawned, nothing probed, online.
pub open spec fn spec_init(config: ProxyConfig) -> Orchestrator {
    Orchestrator {
        config,
        state: ProxyState::NotStarted,
        attempts: 0,
        online: true,
        primary_spawned: false,
        overlay_spawned: false,
    }
}

/// The transition function: from a state and an event to the next state and
/// the action the runtime must perform. Any pair not listed changes nothing.
pub open spec fn spec_step(o: Orchestrator, e: ProxyEvent) -> (Orchestrator, ProxyAction) {
    match (o.state, e) {
        (ProxyState::NotStarted, ProxyEvent::Launch) => (
            Orchestrator { state: ProxyState::ConnectivityChecking, ..o },
            ProxyAction::CheckConnectivity,
        ),
        (ProxyState::ConnectivityChecking, ProxyEvent::ConnectivityOk) => (
            Orchestrator { state: ProxyState::Starting, ..o },
            ProxyAction::SpawnPrimary,
        ),
        (ProxyState::ConnectivityChecking, ProxyEvent::ConnectivityFailed) => (
            Orchestrator { state: ProxyState::Stopped, ..o },
            ProxyAction::FailFatal(ProxyError::Connectivity),
        ),
        (ProxyState::Starting, ProxyEvent::PrimarySpawned) => (
            Orchestrator {
                state: ProxyState::HealthChecking,
                primary_spawned: true,
                attempts: 0,
                ..o
            },
            ProxyAction::WaitThenProbe(HEALTH_INTERVAL_MS),
        ),
        (ProxyState::HealthChecking, ProxyEvent::ProbeSucceeded) => (
            Orchestrator { state: ProxyState::Running, ..o },
            if o.config.overlay_configured && !o.overlay_spawned {
                ProxyAction::SpawnOverlay
            } else {
                ProxyAction::Idle
            },
        ),
        (ProxyState::HealthChecking, ProxyEvent::ProbeFailed) => if o.attempts + 1
            < MAX_HEALTH_ATTEMPTS {
            (
                Orchestrator { attempts: (o.attempts + 1) as u8, ..o },
                ProxyAction::WaitThenProbe(HEALTH_INTERVAL_MS),
            )
        } else {
            (
                Orchestrator {
                    state: ProxyState::Stopped,
                    attempts: (o.attempts + 1) as u8,
                    online: false,
                    ..o
                },
                ProxyAction::FailFatal(ProxyError::HealthCheck),
            )
        },
        (ProxyState::Running, ProxyEvent::OverlaySpawned) => (
            Orchestrator { overlay_spawned: o.config.overlay_configured, ..o },
            ProxyAction::Idle,
        ),
        (ProxyState::Running, ProxyEvent::ShutdownRequested) => (
            Orchestrator { state: ProxyState::ShuttingDown, online: false, ..o },
            ProxyAction::AwaitTasks,
        ),
        (ProxyState::ShuttingDown, ProxyEvent::TasksJoined) => (
            Orchestrator { state: ProxyState::Stopped, ..o },
            ProxyAction::Idle,
        ),
        _ => (o, ProxyAction::Idle),
    }
}

impl Orchestrator {
    /// The phases respect launch order: nothing is spawned before the
    /// connectivity check passes, health checking stays within its retry
    /// budget, and serving phases hold a spawned primary server.
    pub open spec fn wf(self) -> bool {
        &&& self.attempts <= MAX_HEALTH_ATTEMPTS
        &&& (self.state is NotStarted || self.state is ConnectivityChecking
            || self.state is Starting) ==> (!self.primary_spawned && !self.overlay_spawned
            && self.online && self.attempts == 0)
        &&& self.state is HealthChecking ==> (self.primary_spawned && self.online
            && self.attempts < MAX_HEALTH_ATTEMPTS)
        &&& self.state is Running ==> (self.primary_spawned && self.online)
        &&& self.state is ShuttingDown ==> (self.primary_spawned && !self.online)
        &&& self.overlay_spawned ==> (self.config.overlay_configured && self.primary_spawned)
    }

    pub fn new(config: ProxyConfig) -> (r: Orchestrator)
        ensures
            r == spec_init(config),
            r.wf(),
    {
        Orchestrator {
            config,
            state: ProxyState::NotStarted,
            attempts: 0,
            online: true,
            primary_spawned: false,
            overlay_spawned: false,
        }
    }

    /// Feeds one event to the orchestrator; the caller must perform the
    /// returned action before reporting the next event.
    pub fn step(&mut self, e: ProxyEvent) -> (r: ProxyAction)
        requires
            old(self).wf(),
        ensures
            *final(self) == spec_step(*old(self), e).0,
            r == spec_step(*old(self), e).1,
            final(self).wf(),
    {
        proof {
            lemma_step_preserves_wf(*self, e);
        }
        match (self.state, e) {
            (ProxyState::NotStarted, ProxyEvent::Launch) => {
                self.state = ProxyState::ConnectivityChecking;
                ProxyAction::CheckConnectivity
            },
            (ProxyState::ConnectivityChecking, ProxyEvent::ConnectivityOk) => {
                self.state = ProxyState::Starting;
                ProxyAction::SpawnPrimary
            },
            (ProxyState::ConnectivityChecking, ProxyEvent::ConnectivityFailed) => {
                self.state = ProxyState::Stopped;
                ProxyAction::FailFatal(ProxyError::Connectivity)
            },
            (ProxyState::Starting, ProxyEvent::PrimarySpawned) => {
                self.state = ProxyState::HealthChecking;
                self.primary_spawned = true;
                self.attempts = 0;
                ProxyAction::WaitThenProbe(HEALTH_INTERVAL_MS)
            },
            (ProxyState::HealthChecking, ProxyEvent::ProbeSucceeded) => {
                self.state = ProxyState::Running;
                if self.config.overlay_configured && !self.overlay_spawned {
                    ProxyAction::SpawnOverlay
                } else {
                    ProxyAction::Idle
                }
            },
            (ProxyState::HealthChecking, ProxyEvent::ProbeFailed) => {
                if self.attempts + 1 < MAX_HEALTH_ATTEMPTS {
                    self.attempts = self.attempts + 1;
                    ProxyAction::WaitThenProbe(HEALTH_INTERVAL_MS)
                } else {
                    self.state = ProxyState::Stopped;
                    self.attempts = self.attempts + 1;
                    self.online = false;
                    ProxyAction::FailFatal(ProxyError::HealthCheck)
                }
            },
            (ProxyState::Running, ProxyEvent::OverlaySpawned) => {
                self.overlay_spawned = self.config.overlay_configured;
                ProxyAction::Idle
            },
            (ProxyState::Running, ProxyEvent::ShutdownRequested) => {
                self.state = ProxyState::ShuttingDown;
                self.online = false;
                ProxyAction::AwaitTasks
            },
            (ProxyState::ShuttingDown, ProxyEvent::TasksJoined) => {
                self.state = ProxyState::Stopped;
                ProxyAction::Idle
            },
            _ => ProxyAction::Idle,
        }
    }
}

/// Signals every server task to stop serving. Writing `false` to the shared
/// flag is the sole control-flow shutdown signal; each task observes it at
/// loop-iteration granularity and exits after completing in-flight work.
pub fn close_proxy(online: &mut OnlineFlag)
    ensures
        !final(online).spec_is_online(),
{
    online.set_offline();
}

/// One orchestrator step never breaks the launch-order invariant.
pub proof fn lemma_step_preserves_wf(o: Orchestrator, e: ProxyEvent)
    requires
        o.wf(),
    ensures
        spec_step(o, e).0.wf(),
{
}

/// The orchestrator after a whole run of events.
pub open spec fn spec_run(o: Orchestrator, events: Seq<ProxyEvent>) -> Orchestrator
    decreases events.len(),
{
    if events.len() == 0 {
        o
    } else {
        spec_run(spec_step(o, events[0]).0, events.drop_first())
    }
}

pub proof fn lemma_run_preserves_wf(o: Orchestrator, events: Seq<ProxyEvent>)
    requires
        o.wf(),
    ensures
        spec_run(o, events).wf(),
    decreases events.len(),
{
    if events.len() > 0 {
        lemma_step_preserves_wf(o, events[0]);
        lemma_run_preserves_wf(spec_step(o, events[0]).0, events.drop_first());
    }
}

/// A stopped proxy stays exactly as it is, whatever else happens.
pub proof fn lemma_stopped_is_final(o: Orchestrator, events: Seq<ProxyEvent>)
    requires
        o.state is Stopped,
    ensures
        spec_run(o, events) == o,
    decreases events.len(),
{
    if events.len() > 0 {
        lemma_stopped_is_final(spec_step(o, events[0]).0, events.drop_first());
    }
}

/// A connectivity failure at launch is fatal before anything is spawned: the
/// step reports the connectivity error, and no later event ever spawns a
/// server task.
pub proof fn lemma_connectivity_failure_spawns_nothing(o: Orchestrator, events: Seq<ProxyEvent>)
    requires
        o.wf(),
        o.state is ConnectivityChecking,
    ensures
        spec_step(o, ProxyEvent::ConnectivityFailed).1 == ProxyAction::FailFatal(
            ProxyError::Connectivity,
        ),
        !spec_run(spec_step(o, ProxyEvent::ConnectivityFailed).0, events).primary_spawned,
        !spec_run(spec_step(o, ProxyEvent::ConnectivityFailed).0, events).overlay_spawned,
{
    let o1 = spec_step(o, ProxyEvent::ConnectivityFailed).0;
    lemma_stopped_is_final(o1, events);
}

/// The flag never comes back online: a step from an offline orchestrator
/// leaves it offline.
pub proof fn lemma_online_monotone(o: Orchestrator, e: ProxyEvent)
    requires
        !o.online,
    ensures
        !spec_step(o, e).0.online,
{
}

/// How many steps of the run write the flag from online to offline.
pub open spec fn offline_flips(o: Orchestrator, events: Seq<ProxyEvent>) -> int
    decreases events.len(),
{
    if events.len() == 0 {
        0
    } else {
        let o1 = spec_step(o, events[0]).0;
        (if o.online && !o1.online {
            1int
        } else {
            0int
        }) + offline_flips(o1, events.drop_first())
    }
}

proof fn lemma_no_flips_when_offline(o: Orchestrator, events: Seq<ProxyEvent>)
    requires
        !o.online,
    ensures
        offline_flips(o, events) == 0,
    decreases events.len(),
{
    if events.len() > 0 {
        lemma_online_monotone(o, events[0]);
        lemma_no_flips_when_offline(spec_step(o, events[0]).0, events.drop_first());
    }
}

/// Along any run whatever, the online flag is written to `false` at most
/// once: once offline, the proxy never flips it again.
pub proof fn lemma_online_flips_at_most_once(o: Orchestrator, events: Seq<ProxyEvent>)
    ensures
        offline_flips(o, events) <= 1,
    decreases events.len(),
{
    if events.len() > 0 {
        let o1 = spec_step(o, events[0]).0;
        if o.online && !o1.online {
            lemma_no_flips_when_offline(o1, events.drop_first());
        } else {
            lemma_online_flips_at_most_once(o1, events.drop_first());
        }
    }
}

/// The first probe that answers ends the health check: the proxy is running,
/// with no further retry.
pub proof fn lemma_first_probe_success_runs(o: Orchestrator)
    requires
        o.wf(),
        o.state is HealthChecking,
    ensures
        spec_step(o, ProxyEvent::ProbeSucceeded).0.state is Running,
        spec_step(o, ProxyEvent::ProbeSucceeded).0.online,
{
}

/// Exhausting the health check is fatal: on the last allowed probe's
/// failure, the proxy stops, the flag reads `false`, and the health-check
/// error is reported for a non-zero exit.
pub proof fn lemma_health_exhaustion_is_fatal(o: Orchestrator)
    requires
        o.wf(),
        o.state is HealthChecking,
        o.attempts == MAX_HEALTH_ATTEMPTS - 1,
    ensures
        spec_step(o, ProxyEvent::ProbeFailed).0.state is Stopped,
        !spec_step(o, ProxyEvent::ProbeFailed).0.online,
        spec_step(o, ProxyEvent::ProbeFailed).1 == ProxyAction::FailFatal(ProxyError::HealthCheck),
{
}

/// How many probes the run asks for.
pub open spec fn probes_issued(o: Orchestrator, events: Seq<ProxyEvent>) -> int
    decreases events.len(),
{
    if events.len() == 0 {
        0
    } else {
        (if spec_step(o, events[0]).1 is WaitThenProbe {
            1int
        } else {
            0int
        }) + probes_issued(spec_step(o, events[0]).0, events.drop_first())
    }
}

/// How many probes may still be asked for from a given state.
pub open spec fn probe_budget(o: Orchestrator) -> int {
    match o.state {
        ProxyState::NotStarted => MAX_HEALTH_ATTEMPTS as int,
        ProxyState::ConnectivityChecking => MAX_HEALTH_ATTEMPTS as int,
        ProxyState::Starting => MAX_HEALTH_ATTEMPTS as int,
        ProxyState::HealthChecking => MAX_HEALTH_ATTEMPTS - 1 - o.attempts,
        ProxyState::Running => 0,
        ProxyState::ShuttingDown => 0,
        ProxyState::Stopped => 0,
    }
}

/// The health check performs at most `MAX_HEALTH_ATTEMPTS` probes over any
/// run: from launch, the budget is the attempt bound and every probe spends
/// one of it.
pub proof fn lemma_probes_bounded(o: Orchestrator, events: Seq<ProxyEvent>)
    requires
        o.wf(),
    ensures
        probes_issued(o, events) <= probe_budget(o),
        probe_budget(o) <= MAX_HEALTH_ATTEMPTS as int,
    decreases events.len(),
{
    if events.len() > 0 {
        lemma_step_preserves_wf(o, events[0]);
        lemma_probes_bounded(spec_step(o, events[0]).0, events.drop_first());
    }
}

/// Every probe is spaced by the same fixed interval: the only probe action
/// the orchestrator ever issues waits `HEALTH_INTERVAL_MS` first.
pub proof fn lemma_probe_spacing(o: Orchestrator, e: ProxyEvent, ms: u64)
    requires
        spec_step(o, e).1 == ProxyAction::WaitThenProbe(ms),
    ensures
        ms == HEALTH_INTERVAL_MS,
{
}

/// Probes against a healthy, already-running proxy change nothing: the
/// service-info query is idempotent, and the orchestrator neither moves nor
/// mutates on its answer.
pub proof fn lemma_probe_idempotent(o: Orchestrator, e: ProxyEvent)
    requires
        o.wf(),
        o.state is Running,
        e is ProbeSucceeded || e is ConnectivityOk,
    ensures
        spec_step(o, e).0 == o,
        spec_step(o, e).1 == ProxyAction::Idle,
{
}

} // verus!
