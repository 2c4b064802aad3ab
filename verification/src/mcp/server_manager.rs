//! Sorting configured MCP servers into those this runtime starts (stdio) and
//! those it records as unsupported.
use vstd::prelude::*;

use crate::config::mcp_config::transport_of;
use crate::config::{McpTransport, RuntimeConfig, ScopedMcpServerConfig};
use crate::text::{chars_of, push_str, string_of, views};

verus! {

/// A configured server that is not started, and why.
#[derive(Debug, Clone, PartialEq, Eq)]
pub struct UnsupportedMcpServer {
    pub server_name: String,
    pub transport: McpTransport,
    pub reason: String,
}

/// The MCP servers of a configuration: the stdio servers it manages and the
/// others it records as unsupported.
#[derive(Debug)]
pub struct McpServerManager {
    servers: Vec<String>,
    unsupported_servers: Vec<UnsupportedMcpServer>,
    next_request_id: u64,
}

/// The name `Debug` gives a transport.
pub open spec fn transport_name(t: McpTransport) -> Seq<char> {
    match t {
        McpTransport::Stdio => "Stdio"@,
        McpTransport::Sse => "Sse"@,
        McpTransport::Http => "Http"@,
        McpTransport::Ws => "Ws"@,
        McpTransport::Sdk => "Sdk"@,
        McpTransport::ClaudeAiProxy => "ClaudeAiProxy"@,
    }
}

/// Why a server with transport `t` is not started.
pub open spec fn unsupported_reason(t: McpTransport) -> Seq<char> {
    "transport "@ + transport_name(t) + " is not supported by McpServerManager"@
}

/// Names of the stdio servers among `s`, in order.
pub open spec fn stdio_names(s: Seq<(String, ScopedMcpServerConfig)>) -> Seq<Seq<char>>
    decreases s.len(),
{
    if s.len() == 0 {
        seq![]
    } else if transport_of(s.last().1.config) == McpTransport::Stdio {
        stdio_names(s.drop_last()).push(s.last().0@)
    } else {
        stdio_names(s.drop_last())
    }
}

/// The unsupported servers among `s`, in order, as (name, transport, reason).
pub open spec fn unsupported_of(s: Seq<(String, ScopedMcpServerConfig)>) -> Seq<
    (Seq<char>, McpTransport, Seq<char>),
>
    decreases s.len(),
{
    if s.len() == 0 {
        seq![]
    } else {
        let t = transport_of(s.last().1.config);
        if t == McpTransport::Stdio {
            unsupported_of(s.drop_last())
        } else {
            unsupported_of(s.drop_last()).push((s.last().0@, t, unsupported_reason(t)))
        }
    }
}

/// Unsupported-server records as values.
pub open spec fn unsupported_views(u: Seq<UnsupportedMcpServer>) -> Seq<
    (Seq<char>, McpTransport, Seq<char>),
> {
    u.map_values(|x: UnsupportedMcpServer| (x.server_name@, x.transport, x.reason@))
}

/// Appends the `Debug` name of `t`.
fn push_transport_name(out: &mut Vec<char>, t: McpTransport)
    ensures
        final(out)@ == old(out)@ + transport_name(t),
{
    match t {
        McpTransport::Stdio => push_str(out, "Stdio"),
        McpTransport::Sse => push_str(out, "Sse"),
        McpTransport::Http => push_str(out, "Http"),
        McpTransport::Ws => push_str(out, "Ws"),
        McpTransport::Sdk => push_str(out, "Sdk"),
        McpTransport::ClaudeAiProxy => push_str(out, "ClaudeAiProxy"),
    }
}

impl McpServerManager {
    /// Names of the managed (stdio) servers, in configuration order.
    pub closed spec fn managed(&self) -> Seq<Seq<char>> {
        views(self.servers@)
    }

    /// The servers that are not started.
    pub closed spec fn unsupported(&self) -> Seq<UnsupportedMcpServer> {
        self.unsupported_servers@
    }

    /// The id the next request will carry.
    pub closed spec fn next_id(&self) -> u64 {
        self.next_request_id
    }

    /// A manager for the MCP servers of `config`.
    pub fn from_runtime_config(config: &RuntimeConfig) -> (m: Self)
        ensures
            m.managed() == stdio_names(config.features().mcp_config().entries()),
            unsupported_views(m.unsupported()) == unsupported_of(
                config.features().mcp_config().entries(),
            ),
            m.next_id() == 1,
    {
        Self::from_servers(config.mcp().servers())
    }

    /// A manager for `servers` (name and settings, in name order): stdio
    /// servers are managed, every other transport is recorded as unsupported
    /// with the reason.
    pub fn from_servers(servers: &Vec<(String, ScopedMcpServerConfig)>) -> (m: Self)
        ensures
            m.managed() == stdio_names(servers@),
            unsupported_views(m.unsupported()) == unsupported_of(servers@),
            m.next_id() == 1,
    {
        let mut managed: Vec<String> = Vec::new();
        let mut unsupported: Vec<UnsupportedMcpServer> = Vec::new();
        let mut i: usize = 0;
        assert(servers@.take(0) =~= Seq::<(String, ScopedMcpServerConfig)>::empty());
        assert(views(managed@) =~= Seq::<Seq<char>>::empty());
        assert(unsupported_views(unsupported@) =~= Seq::<(Seq<char>, McpTransport, Seq<char>)>::empty());
        while i < servers.len()
            invariant
                0 <= i <= servers.len(),
                views(managed@) == stdio_names(servers@.take(i as int)),
                unsupported_views(unsupported@) == unsupported_of(servers@.take(i as int)),
            decreases servers.len() - i,
        {
            assert(servers@.take(i + 1).drop_last() == servers@.take(i as int));
            assert(servers@.take(i + 1).last() == servers@[i as int]);
            let name = &servers[i].0;
            let t = servers[i].1.transport();
            match t {
                McpTransport::Stdio => {
                    let ghost before = views(managed@);
                    managed.push(string_of(&chars_of(name.as_str())));
                    assert(views(managed@) =~= before.push(name@));
                },
                _ => {
                    let mut reason = chars_of("transport ");
                    push_transport_name(&mut reason, t);
                    push_str(&mut reason, " is not supported by McpServerManager");
                    let ghost before = unsupported_views(unsupported@);
                    unsupported.push(
                        UnsupportedMcpServer {
                            server_name: string_of(&chars_of(name.as_str())),
                            transport: t,
                            reason: string_of(&reason),
                        },
                    );
                    assert(unsupported_views(unsupported@) =~= before.push(
                        (name@, t, unsupported_reason(t)),
                    ));
                },
            }
            i += 1;
        }
        assert(servers@.take(servers.len() as int) == servers@);
        McpServerManager { servers: managed, unsupported_servers: unsupported, next_request_id: 1 }
    }

    /// The servers that are not started, in configuration order.
    pub fn unsupported_servers(&self) -> (r: &Vec<UnsupportedMcpServer>)
        ensures
            r@ == self.unsupported(),
    {
        &self.unsupported_servers
    }
}

/// Every configured server is either managed or recorded as unsupported, and
/// no server is both: the managed and unsupported counts add up to the
/// configured count.
pub proof fn lemma_every_server_accounted_for(s: Seq<(String, ScopedMcpServerConfig)>)
    ensures
        stdio_names(s).len() + unsupported_of(s).len() == s.len(),
    decreases s.len(),
{
    if s.len() > 0 {
        lemma_every_server_accounted_for(s.drop_last());
    }
}

// ---------------------------------------------------------------------------
// Bringing a server up
// ---------------------------------------------------------------------------

/// What is known of one server while it is brought up.
#[derive(Debug, Clone, Copy, PartialEq, Eq, Structural)]
pub struct ServerReadyState {
    /// The server is configured and managed.
    pub known: bool,
    /// Its process runs.
    pub has_process: bool,
    /// The initialize handshake has completed.
    pub initialized: bool,
}

/// The request of the handshake an outcome belongs to.
#[derive(Debug, Clone, Copy, PartialEq, Eq, Structural)]
pub enum ReadyStage {
    Initialize,
    NotifyInitialized,
}

/// How one request to the server ended.
#[derive(Debug, Clone, Copy, PartialEq, Eq, Structural)]
pub enum RequestOutcome {
    /// No answer within the request timeout.
    TimedOut,
    /// Reading or writing the process failed.
    IoFailed,
    /// The server answered; for `initialize`, whether the answer carries a
    /// JSON-RPC error and whether it carries a result.
    Answered { json_rpc_error: bool, has_result: bool },
}

/// What the outside work reports back.
#[derive(Debug, Clone, Copy, PartialEq, Eq, Structural)]
pub enum ReadyEvent {
    /// Bringing the server up is asked for.
    Begin,
    /// Spawning the process ended: whether it started.
    Spawned(bool),
    /// The `initialize` request ended.
    Initialized(RequestOutcome),
    /// The `notifications/initialized` notification ended.
    Notified(RequestOutcome),
}

/// Why a server could not be brought up.
#[derive(Debug, Clone, Copy, PartialEq, Eq, Structural)]
pub enum ReadyFailure {
    /// No managed server has that name.
    UnknownServer,
    /// The process could not be spawned.
    SpawnFailed,
    /// The process is gone when the request is to be sent.
    ProcessGone(ReadyStage),
    /// The request timed out; the server's process is dropped.
    Timeout(ReadyStage),
    /// Reading or writing the process failed.
    Io(ReadyStage),
    /// `initialize` was answered with a JSON-RPC error.
    JsonRpc,
    /// `initialize` was answered without a result.
    MissingResult,
}

/// What to do next.
#[derive(Debug, Clone, Copy, PartialEq, Eq, Structural)]
pub enum ReadyAction {
    /// Spawn the server's process.
    Spawn,
    /// Send `initialize`.
    Initialize,
    /// Send `notifications/initialized`.
    NotifyInitialized,
    /// The server is ready.
    Ready,
    /// Stop with this error.
    Fail(ReadyFailure),
}

/// One decision of bringing a server up: spawn only when there is no
/// process, initialize only when not yet initialized, and map a timeout, an
/// I/O failure, a JSON-RPC error or a missing result to its error. A timeout
/// drops the process, so the next attempt starts afresh.
pub fn ready_step(state: ServerReadyState, event: ReadyEvent) -> (r: (ServerReadyState, ReadyAction))
    ensures
        event == ReadyEvent::Begin && !state.known ==> r == (state, ReadyAction::Fail(
            ReadyFailure::UnknownServer,
        )),
        event == ReadyEvent::Begin && state.known && !state.has_process ==> r == (
            state,
            ReadyAction::Spawn,
        ),
        event == ReadyEvent::Begin && state.known && state.has_process && !state.initialized ==> r
            == (state, ReadyAction::Initialize),
        event == ReadyEvent::Begin && state.known && state.has_process && state.initialized ==> r
            == (state, ReadyAction::Ready),
        event == ReadyEvent::Spawned(true) ==> r == (
            ServerReadyState { known: state.known, has_process: true, initialized: false },
            ReadyAction::Initialize,
        ),
        event == ReadyEvent::Spawned(false) ==> r == (state, ReadyAction::Fail(
            ReadyFailure::SpawnFailed,
        )),
        event == ReadyEvent::Initialized(RequestOutcome::TimedOut) ==> r == (
            ServerReadyState { known: state.known, has_process: false, initialized: false },
            ReadyAction::Fail(ReadyFailure::Timeout(ReadyStage::Initialize)),
        ),
        event == ReadyEvent::Initialized(RequestOutcome::IoFailed) ==> r == (
            state,
            ReadyAction::Fail(ReadyFailure::Io(ReadyStage::Initialize)),
        ),
        (event matches ReadyEvent::Initialized(RequestOutcome::Answered { json_rpc_error, .. })
            && json_rpc_error) ==> r == (state, ReadyAction::Fail(ReadyFailure::JsonRpc)),
        event == ReadyEvent::Initialized(
            RequestOutcome::Answered { json_rpc_error: false, has_result: false },
        ) ==> r == (state, ReadyAction::Fail(ReadyFailure::MissingResult)),
        event == ReadyEvent::Initialized(
            RequestOutcome::Answered { json_rpc_error: false, has_result: true },
        ) ==> r == (state, if state.has_process {
            ReadyAction::NotifyInitialized
        } else {
            ReadyAction::Fail(ReadyFailure::ProcessGone(ReadyStage::NotifyInitialized))
        }),
        event == ReadyEvent::Notified(RequestOutcome::TimedOut) ==> r == (
            ServerReadyState { known: state.known, has_process: false, initialized: false },
            ReadyAction::Fail(ReadyFailure::Timeout(ReadyStage::NotifyInitialized)),
        ),
        event == ReadyEvent::Notified(RequestOutcome::IoFailed) ==> r == (
            state,
            ReadyAction::Fail(ReadyFailure::Io(ReadyStage::NotifyInitialized)),
        ),
        event matches ReadyEvent::Notified(RequestOutcome::Answered { .. }) ==> r == (
            ServerReadyState { known: state.known, has_process: state.has_process, initialized: true },
            ReadyAction::Ready,
        ),
{
    match event {
        ReadyEvent::Begin => {
            if !state.known {
                (state, ReadyAction::Fail(ReadyFailure::UnknownServer))
            } else if !state.has_process {
                (state, ReadyAction::Spawn)
            } else if !state.initialized {
                (state, ReadyAction::Initialize)
            } else {
                (state, ReadyAction::Ready)
            }
        },
        ReadyEvent::Spawned(started) => {
            if started {
                (
                    ServerReadyState { known: state.known, has_process: true, initialized: false },
                    ReadyAction::Initialize,
                )
            } else {
                (state, ReadyAction::Fail(ReadyFailure::SpawnFailed))
            }
        },
        ReadyEvent::Initialized(outcome) => match outcome {
            RequestOutcome::TimedOut => (
                ServerReadyState { known: state.known, has_process: false, initialized: false },
                ReadyAction::Fail(ReadyFailure::Timeout(ReadyStage::Initialize)),
            ),
            RequestOutcome::IoFailed => (
                state,
                ReadyAction::Fail(ReadyFailure::Io(ReadyStage::Initialize)),
            ),
            RequestOutcome::Answered { json_rpc_error, has_result } => {
                if json_rpc_error {
                    (state, ReadyAction::Fail(ReadyFailure::JsonRpc))
                } else if !has_result {
                    (state, ReadyAction::Fail(ReadyFailure::MissingResult))
                } else if state.has_process {
                    (state, ReadyAction::NotifyInitialized)
                } else {
                    (
                        state,
                        ReadyAction::Fail(ReadyFailure::ProcessGone(ReadyStage::NotifyInitialized)),
                    )
                }
            },
        },
        ReadyEvent::Notified(outcome) => match outcome {
            RequestOutcome::TimedOut => (
                ServerReadyState { known: state.known, has_process: false, initialized: false },
                ReadyAction::Fail(ReadyFailure::Timeout(ReadyStage::NotifyInitialized)),
            ),
            RequestOutcome::IoFailed => (
                state,
                ReadyAction::Fail(ReadyFailure::Io(ReadyStage::NotifyInitialized)),
            ),
            RequestOutcome::Answered { .. } => (
                ServerReadyState {
                    known: state.known,
                    has_process: state.has_process,
                    initialized: true,
                },
                ReadyAction::Ready,
            ),
        },
    }
}

} // verus!
