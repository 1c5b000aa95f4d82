//! The proxy: its clients, what it remembers of connections and errors, and
//! the way of requests and events through it.

use crate::decode;
use crate::decode::{
    DecodedWaylandRequest, RequestView, WaylandBackendEvent, WaylandInterceptArg,
    WaylandWireMessage, WireView, decode_generated_hook_request,
    generated_decoded_args_from_intercept_args,
};
use crate::feedback;
use crate::globals;
use crate::globals::{
    GlobalView, WaylandGlobalInfo, WaylandProtocolRegistry, filtered_backend_globals,
    register_core_protocols, register_frame_tracking_intercepts,
};
use crate::ingest;
use crate::ingest::{
    BegunRequest, BegunView, IngestedWaylandRequest, apply_intercepts, begin_request,
    finish_request,
};
use crate::launch::WaylandProxyConfig;
use crate::messages;
use crate::messages::GeneratedHookRequest;
use crate::relay;
use crate::relay::{CompletedEvent, PreparedEvent, complete_event, poll_session, prepare_event};
use crate::session;
use crate::session::{
    BackendView, SessionView, WaylandBackendSession, WaylandClientId, WaylandClientSession,
    decode_wayland_request,
};
use crate::table;
use crate::table::Table;
use crate::text;
use crate::text::append_decimal;
use vstd::prelude::*;
use vstd::string::*;

verus! {

/// How many connections are remembered.
pub const MAX_CONNECTION_HISTORY: usize = 32;

/// What happened to a connection.
#[derive(Debug, PartialEq, Eq)]
pub struct WaylandConnectionHistoryEntry {
    pub timestamp_unix_ms: u64,
    pub event: String,
    pub client_id: Option<u64>,
    pub endpoint_state: String,
    pub detail: Option<String>,
}

/// The value of what happened to a connection.
#[verifier::ext_equal]
pub struct HistoryView {
    pub timestamp_unix_ms: u64,
    pub event: Seq<char>,
    pub client_id: Option<u64>,
    pub endpoint_state: Seq<char>,
    pub detail: Option<Seq<char>>,
}

impl View for WaylandConnectionHistoryEntry {
    type V = HistoryView;

    open spec fn view(&self) -> HistoryView {
        HistoryView {
            timestamp_unix_ms: self.timestamp_unix_ms,
            event: self.event@,
            client_id: self.client_id,
            endpoint_state: self.endpoint_state@,
            detail: text::optional(self.detail),
        }
    }
}

/// The values of what happened to connections.
pub open spec fn history_values(entries: Seq<WaylandConnectionHistoryEntry>) -> Seq<HistoryView> {
    entries.map_values(|entry: WaylandConnectionHistoryEntry| entry@)
}

/// The proxy. Times are in milliseconds of one clock that never goes back.
pub struct WaylandProxyServer {
    pub config: WaylandProxyConfig,
    pub running: bool,
    pub next_client_id: u64,
    pub last_runtime_error: Option<String>,
    pub connection_history: Vec<WaylandConnectionHistoryEntry>,
    pub capture_tracking_deadline: Option<u64>,
    pub sessions: Table<u64, WaylandClientSession>,
    pub registry: WaylandProtocolRegistry,
}

/// The value of the proxy.
#[verifier::ext_equal]
pub struct ServerView {
    pub socket_name: Seq<char>,
    pub backend_socket: Seq<char>,
    pub running: bool,
    pub next_client_id: u64,
    pub last_error: Option<Seq<char>>,
    pub history: Seq<HistoryView>,
    pub deadline: Option<u64>,
    pub sessions: Map<u64, SessionView>,
    pub registry: WaylandProtocolRegistry,
}

impl View for WaylandProxyServer {
    type V = ServerView;

    open spec fn view(&self) -> ServerView {
        ServerView {
            socket_name: self.config.socket_name@,
            backend_socket: self.config.backend_socket@,
            running: self.running,
            next_client_id: self.next_client_id,
            last_error: text::optional(self.last_runtime_error),
            history: history_values(self.connection_history@),
            deadline: self.capture_tracking_deadline,
            sessions: self.sessions@,
            registry: self.registry,
        }
    }
}

/// What is said of a client that is not there.
pub open spec fn missing_session(client_id: u64) -> Seq<char> {
    "missing Wayland client session "@ + text::decimal(client_id as nat)
}

/// The history with one more entry: the oldest one makes room for it.
pub open spec fn remembered(history: Seq<HistoryView>, entry: HistoryView) -> Seq<HistoryView> {
    if history.len() == MAX_CONNECTION_HISTORY {
        history.drop_first().push(entry)
    } else {
        history.push(entry)
    }
}

/// The newest entries of a history, as many as are kept.
pub open spec fn newest(history: Seq<HistoryView>) -> Seq<HistoryView> {
    if history.len() <= MAX_CONNECTION_HISTORY {
        history
    } else {
        history.skip(history.len() - MAX_CONNECTION_HISTORY)
    }
}

/// The history never grows beyond its limit, its newest entry is the one that
/// was added last, and the entries before it are the newest ones there were.
pub proof fn history_keeps_the_newest(history: Seq<HistoryView>, entry: HistoryView)
    requires
        history.len() <= MAX_CONNECTION_HISTORY,
    ensures
        remembered(history, entry).len() <= MAX_CONNECTION_HISTORY,
        remembered(history, entry).last() == entry,
        remembered(history, entry).drop_last().is_suffix_of(history),
        history.len() < MAX_CONNECTION_HISTORY ==> remembered(history, entry).drop_last() == history,
        remembered(history, entry) == newest(history.push(entry)),
{
    assert(remembered(history, entry) =~= newest(history.push(entry)));
    let kept = remembered(history, entry).drop_last();
    if history.len() == MAX_CONNECTION_HISTORY {
        assert(kept =~= history.drop_first());
        assert(kept =~= history.subrange(1, history.len() as int));
    } else {
        assert(kept =~= history);
        assert(kept =~= history.subrange(0, history.len() as int));
    }
}

impl ServerView {
    /// The proxy without a client.
    pub open spec fn fresh(
        socket_name: Seq<char>,
        backend_socket: Seq<char>,
        registry: WaylandProtocolRegistry,
    ) -> Self {
        ServerView {
            socket_name,
            backend_socket,
            running: false,
            next_client_id: 0,
            last_error: None,
            history: Seq::empty(),
            deadline: None,
            sessions: Map::empty(),
            registry,
        }
    }

    /// With a client's state.
    pub open spec fn with_session(self, client_id: u64, client: SessionView) -> Self {
        ServerView { sessions: self.sessions.insert(client_id, client), ..self }
    }

    /// With one more entry in the history.
    pub open spec fn with_entry(self, entry: HistoryView) -> Self {
        ServerView { history: remembered(self.history, entry), ..self }
    }

    /// With an error.
    pub open spec fn with_error(self, error: Seq<char>) -> Self {
        ServerView { last_error: Some(error), ..self }
    }

    /// The globals that a new client is offered: those of the compositor behind
    /// it that are passed on, where there are any, and otherwise the proxy's
    /// own.
    pub open spec fn offered(own: Seq<GlobalView>, backend: Result<BackendView, Seq<char>>) -> Seq<
        GlobalView,
    > {
        match backend {
            Ok(connection) => if globals::filtered(connection.globals).len() == 0 {
                own
            } else {
                globals::filtered(connection.globals)
            },
            Err(_) => own,
        }
    }

    /// After a client arrived. An earlier error no longer counts.
    pub open spec fn registered(
        self,
        own: Seq<GlobalView>,
        backend: Result<BackendView, Seq<char>>,
        now: u64,
    ) -> Self {
        let client_id = crate::tracker::number_after(self.next_client_id);
        let (connection, error) = match backend {
            Ok(connection) => (Some(connection), None),
            Err(message) => (None, Some(message)),
        };
        ServerView {
            last_error: error,
            next_client_id: client_id,
            running: true,
            ..self
        }.with_session(
            client_id,
            SessionView::fresh(client_id, Self::offered(own, backend), connection),
        ).with_entry(
            HistoryView {
                timestamp_unix_ms: now,
                event: "accepted"@,
                client_id: Some(client_id),
                endpoint_state: "ready"@,
                detail: match error {
                    Some(message) => Some("backend compositor connection failed: "@ + message),
                    None => None,
                },
            },
        )
    }

    /// Without a client. Without any client, the proxy is idle.
    pub open spec fn without_session(self, client_id: u64) -> Self {
        let left = self.sessions.remove(client_id);
        ServerView {
            sessions: left,
            running: self.running && left.dom() != Set::<u64>::empty(),
            ..self
        }
    }

    /// After a client left.
    pub open spec fn client_finished(self, client_id: u64, detail: Seq<char>, now: u64) -> Self {
        self.without_session(client_id).with_entry(
            HistoryView {
                timestamp_unix_ms: now,
                event: "closed"@,
                client_id: Some(client_id),
                endpoint_state: "ready"@,
                detail: Some(detail),
            },
        )
    }

    /// After no client could be accepted.
    pub open spec fn accept_failed(self, error: Seq<char>, now: u64) -> Self {
        self.with_entry(
            HistoryView {
                timestamp_unix_ms: now,
                event: "accept_failed"@,
                client_id: None,
                endpoint_state: "accept_loop_failed"@,
                detail: Some(error),
            },
        ).with_error(error)
    }

    /// With all requests of all clients looked at.
    pub open spec fn all_looked_at(self) -> Self {
        ServerView {
            sessions: self.sessions.map_values(
                |client: SessionView| SessionView { raw_forward_only: false, ..client },
            ),
            ..self
        }
    }

    /// After frames were asked to be followed until a time.
    pub open spec fn tracking_until(self, deadline: u64) -> Self {
        ServerView { deadline: Some(deadline), ..self }.all_looked_at()
    }

    /// After frames were no longer asked to be followed.
    pub open spec fn tracking_ended(self) -> Self {
        ServerView { deadline: None, ..self }.all_looked_at()
    }

    /// Whether frames are asked to be followed at a time; once the time for it
    /// is over, that is forgotten.
    pub open spec fn tracking_at(self, now: u64) -> (ServerView, bool) {
        match self.deadline {
            None => (self, false),
            Some(deadline) => if now <= deadline {
                (self, true)
            } else {
                (self.tracking_ended(), false)
            },
        }
    }

    /// After a request arrived, before it is passed on.
    pub open spec fn request_taken(self, client_id: u64, message: WireView, now: u64) -> (
        ServerView,
        Result<BegunView, Seq<char>>,
    ) {
        let (ready, active) = self.tracking_at(now);
        if !ready.sessions.contains_key(client_id) {
            (ready, Err(missing_session(client_id)))
        } else {
            let client = ready.sessions[client_id];
            let (after, begun) = client.begun(message, !client.raw_forward_only || active);
            (ready.with_session(client_id, after), begun)
        }
    }

    /// After a request was passed on.
    pub open spec fn request_done(self, client_id: u64, begun: BegunView) -> (
        ServerView,
        Option<Seq<char>>,
    ) {
        if !self.sessions.contains_key(client_id) {
            (self, Some(missing_session(client_id)))
        } else {
            let (after, error) = self.sessions[client_id].finished(
                begun,
                ingest::hooks_on_begun(self.registry, begun),
            );
            (self.with_session(client_id, after), error)
        }
    }
}

/// The history is within its limit at all times: at the start it is empty, and
/// whoever comes, leaves or cannot be accepted adds one entry, which only the oldest
/// one makes room for.
pub proof fn history_stays_within_its_limit(
    proxy: ServerView,
    own: Seq<GlobalView>,
    backend: Result<BackendView, Seq<char>>,
    client_id: u64,
    detail: Seq<char>,
    now: u64,
)
    requires
        proxy.history.len() <= MAX_CONNECTION_HISTORY,
    ensures
        ServerView::fresh(proxy.socket_name, proxy.backend_socket, proxy.registry).history.len()
            == 0,
        ({
            let arrived = proxy.registered(own, backend, now).history;
            arrived.len() <= MAX_CONNECTION_HISTORY && arrived == newest(
                proxy.history.push(arrived.last()),
            )
        }),
        ({
            let left = proxy.client_finished(client_id, detail, now).history;
            left.len() <= MAX_CONNECTION_HISTORY && left == newest(proxy.history.push(left.last()))
        }),
        ({
            let failed = proxy.accept_failed(detail, now).history;
            failed.len() <= MAX_CONNECTION_HISTORY && failed == newest(
                proxy.history.push(failed.last()),
            )
        }),
{
    history_keeps_the_newest(proxy.history, proxy.registered(own, backend, now).history.last());
    history_keeps_the_newest(
        proxy.history,
        proxy.client_finished(client_id, detail, now).history.last(),
    );
    history_keeps_the_newest(proxy.history, proxy.accept_failed(detail, now).history.last());
}

/// An earlier error is kept when its client leaves: what went wrong can still
/// be told afterwards.
pub proof fn leaving_keeps_the_error(proxy: ServerView, client_id: u64, detail: Seq<char>, now: u64)
    ensures
        proxy.client_finished(client_id, detail, now).last_error == proxy.last_error,
        !proxy.client_finished(client_id, detail, now).sessions.contains_key(client_id),
{
}

/// No client's requests go by unseen, neither while frames are followed nor
/// afterwards.
pub proof fn requests_are_always_looked_at(proxy: ServerView, deadline: u64, client_id: u64)
    requires
        proxy.sessions.contains_key(client_id),
    ensures
        !proxy.tracking_until(deadline).sessions[client_id].raw_forward_only,
        !proxy.tracking_ended().sessions[client_id].raw_forward_only,
        proxy.tracking_until(deadline).tracking_at(deadline).1,
        deadline < u64::MAX ==> !proxy.tracking_until(deadline).tracking_at(
            (deadline + 1) as u64,
        ).1,
        deadline < u64::MAX ==> proxy.tracking_until(deadline).tracking_at(
            (deadline + 1) as u64,
        ).0.deadline is None,
{
}

fn missing_session_message(client_id: u64) -> (message: String)
    ensures
        message@ == missing_session(client_id),
{
    let mut message = "missing Wayland client session ".to_owned();
    append_decimal(&mut message, client_id);
    message
}

/// The value of an attempt to connect to the compositor.
pub open spec fn connection_value(backend: Result<WaylandBackendSession, String>) -> Result<
    BackendView,
    Seq<char>,
> {
    match backend {
        Ok(connection) => Ok(connection@),
        Err(message) => Err(message@),
    }
}

impl WaylandProxyServer {
    /// The proxy without a client.
    pub fn new(config: WaylandProxyConfig) -> (server: Self)
        ensures
            server@ == ServerView::fresh(
                config.socket_name@,
                config.backend_socket@,
                server.registry,
            ),
            server.registry.own_globals() == crate::registry::all_globals(),
            forall|id: messages::GeneratedHookRequestId| #[trigger]
                server.registry.intercepts_of(id) == Seq::<globals::WaylandInterceptHook>::empty(),
    {
        let server = WaylandProxyServer {
            config,
            running: false,
            next_client_id: 0,
            last_runtime_error: None,
            connection_history: Vec::new(),
            capture_tracking_deadline: None,
            sessions: Table::new(),
            registry: WaylandProtocolRegistry::default(),
        };
        proof {
            assert(server@.history =~= Seq::<HistoryView>::empty());
        }
        server
    }

    /// The proxy without a client, as it follows the frames of surfaces.
    pub fn following_frames(config: WaylandProxyConfig) -> (server: Self)
        ensures
            server@ == ServerView::fresh(
                config.socket_name@,
                config.backend_socket@,
                server.registry,
            ),
            server.registry.own_globals() == crate::registry::all_globals(),
            forall|id: messages::GeneratedHookRequestId| #[trigger]
                server.registry.intercepts_of(id) == globals::with_frame_hook(
                    Seq::<globals::WaylandInterceptHook>::empty(),
                    id,
                ),
    {
        let mut server = WaylandProxyServer::new(config);
        register_core_protocols(&mut server.registry);
        register_frame_tracking_intercepts(&mut server.registry);
        server
    }

    /// Adds an entry to the history of connections, of which the newest are kept.
    pub fn record_connection_event(
        &mut self,
        event: &str,
        client_id: Option<WaylandClientId>,
        endpoint_state: &str,
        detail: Option<String>,
        now: u64,
    )
        ensures
            ({
                let entry = HistoryView {
                    timestamp_unix_ms: now,
                    event: event@,
                    client_id: match client_id {
                        Some(client) => Some(client.0),
                        None => None,
                    },
                    endpoint_state: endpoint_state@,
                    detail: text::optional(detail),
                };
                &&& final(self)@ == old(self)@.with_entry(entry)
                &&& old(self)@.history.len() <= MAX_CONNECTION_HISTORY ==> final(self)@.history
                    == newest(old(self)@.history.push(entry))
            }),
    {
        let entry = WaylandConnectionHistoryEntry {
            timestamp_unix_ms: now,
            event: event.to_owned(),
            client_id: match client_id {
                Some(client) => Some(client.0),
                None => None,
            },
            endpoint_state: endpoint_state.to_owned(),
            detail,
        };
        let ghost told = entry@;
        let ghost before = self.connection_history@;
        if self.connection_history.len() == MAX_CONNECTION_HISTORY {
            let _ = self.connection_history.remove(0);
            proof {
                assert(history_values(self.connection_history@) =~= history_values(
                    before,
                ).drop_first());
            }
        }
        let ghost kept = self.connection_history@;
        self.connection_history.push(entry);
        proof {
            assert(history_values(self.connection_history@) =~= history_values(kept).push(told));
            if old(self)@.history.len() <= MAX_CONNECTION_HISTORY {
                history_keeps_the_newest(old(self)@.history, told);
            }
        }
    }

    /// Takes in a client. `backend` is what the attempt to connect to the
    /// compositor for it came to.
    pub fn register_client_session(
        &mut self,
        globals: Vec<WaylandGlobalInfo>,
        backend: Result<WaylandBackendSession, String>,
        now: u64,
    ) -> (client_id: WaylandClientId)
        ensures
            client_id.0 == crate::tracker::number_after(old(self)@.next_client_id),
            final(self)@ == old(self)@.registered(
                globals::global_values(globals@),
                connection_value(backend),
                now,
            ),
    {
        self.last_runtime_error = None;
        self.next_client_id = crate::tracker::next_number(self.next_client_id);
        self.running = true;
        let client_id = WaylandClientId(self.next_client_id);
        let (connection, detail): (Option<WaylandBackendSession>, Option<String>) = match backend {
            Ok(connection) => (Some(connection), None),
            Err(error) => {
                let mut detail = "backend compositor connection failed: ".to_owned();
                detail.append(error.as_str());
                self.last_runtime_error = Some(error);
                (None, Some(detail))
            },
        };
        let offered = match &connection {
            Some(connection) => {
                let passed_on = filtered_backend_globals(connection.globals.as_slice());
                if passed_on.len() == 0 {
                    globals
                } else {
                    passed_on
                }
            },
            None => globals,
        };
        self.sessions.insert(
            client_id.0,
            WaylandClientSession::new(client_id, offered, connection),
        );
        self.record_connection_event("accepted", Some(client_id), "ready", detail, now);
        client_id
    }

    /// Forgets a client.
    pub fn remove_client_session(&mut self, client_id: WaylandClientId)
        ensures
            final(self)@ == old(self)@.without_session(client_id.0),
    {
        let _ = self.sessions.remove(client_id.0);
        if self.sessions.len() == 0 {
            self.running = false;
            proof {
                assert(self.sessions@.dom() =~= Set::<u64>::empty());
            }
        } else {
            proof {
                assert(self.sessions@.dom() != Set::<u64>::empty());
            }
        }
    }

    /// Notes that a client left.
    pub fn finish_client_session(&mut self, client_id: WaylandClientId, detail: String, now: u64)
        ensures
            final(self)@ == old(self)@.client_finished(client_id.0, detail@, now),
    {
        self.remove_client_session(client_id);
        self.record_connection_event("closed", Some(client_id), "ready", Some(detail), now);
    }

    /// Notes that no client could be accepted.
    pub fn note_accept_error(&mut self, error: String, now: u64)
        ensures
            final(self)@ == old(self)@.accept_failed(error@, now),
    {
        self.record_connection_event(
            "accept_failed",
            None,
            "accept_loop_failed",
            Some(error.clone()),
            now,
        );
        self.note_runtime_error(error);
    }

    /// Notes an error.
    pub fn note_runtime_error(&mut self, error: String)
        ensures
            final(self)@ == old(self)@.with_error(error@),
    {
        self.last_runtime_error = Some(error);
    }

    fn look_at_all(&mut self)
        ensures
            final(self)@ == old(self)@.all_looked_at(),
    {
        let ghost before = self@.sessions;
        let ghost look = |client: SessionView| SessionView { raw_forward_only: false, ..client };
        let keys = self.sessions.keys();
        let mut index: usize = 0;
        while index < keys.len()
            invariant
                index <= keys@.len(),
                keys@.to_set() == before.dom(),
                table::ascending(keys@),
                look == (|client: SessionView| SessionView { raw_forward_only: false, ..client }),
                self@ == (ServerView { sessions: self@.sessions, ..old(self)@ }),
                before == old(self)@.sessions,
                self@.sessions.dom() == before.dom(),
                forall|i: int|
                    0 <= i < index ==> self@.sessions[#[trigger] keys@[i]] == look(
                        before[keys@[i]],
                    ),
                forall|i: int|
                    index <= i < keys@.len() ==> self@.sessions[#[trigger] keys@[i]]
                        == before[keys@[i]],
            decreases keys@.len() - index,
        {
            let key: u64 = keys[index];
            let ghost so_far = self@.sessions;
            proof {
                assert(keys@.to_set().contains(key));
            }
            if let Some(session) = self.sessions.remove(key) {
                let mut session = session;
                session.raw_forward_only = false;
                self.sessions.insert(key, session);
                proof {
                    assert(session@ =~= look(before[key]));
                    assert(self@.sessions =~= so_far.insert(key, look(before[key])));
                    assert forall|i: int| 0 <= i < keys@.len() && i != index implies #[trigger]
                        keys@[i] != key by {
                        assert(table::Key::rank(keys@[i]) != table::Key::rank(keys@[index as int]));
                    }
                }
            }
            index = index + 1;
        }
        proof {
            assert forall|client_id: u64| before.contains_key(client_id) implies
                self@.sessions[client_id] == look(before[client_id]) by {
                assert(keys@.to_set().contains(client_id));
                let i = choose|i: int| 0 <= i < keys@.len() && keys@[i] == client_id;
                assert(self@.sessions[keys@[i]] == look(before[keys@[i]]));
            }
            assert(self@.sessions =~= before.map_values(look));
        }
    }

    /// Follows frames until a time.
    pub fn enable_capture_tracking_until(&mut self, deadline: u64)
        ensures
            final(self)@ == old(self)@.tracking_until(deadline),
    {
        self.capture_tracking_deadline = Some(deadline);
        self.look_at_all();
    }

    /// Follows frames no longer.
    pub fn disable_capture_tracking(&mut self)
        ensures
            final(self)@ == old(self)@.tracking_ended(),
    {
        self.capture_tracking_deadline = None;
        self.look_at_all();
    }

    /// Whether frames are followed at a time.
    pub fn capture_tracking_active(&mut self, now: u64) -> (active: bool)
        ensures
            active == old(self)@.tracking_at(now).1,
            final(self)@ == old(self)@.tracking_at(now).0,
    {
        match self.capture_tracking_deadline {
            None => false,
            Some(deadline) => {
                if now <= deadline {
                    true
                } else {
                    self.disable_capture_tracking();
                    false
                }
            },
        }
    }

    /// Pairs an object of a client with one of the compositor.
    pub fn map_resource(
        &mut self,
        client_id: WaylandClientId,
        client_resource_id: u32,
        backend_resource_id: u32,
    ) -> (result: Result<(), String>)
        ensures
            match result {
                Ok(_) => old(self)@.sessions.contains_key(client_id.0) && final(self)@ == ({
                    let client = old(self)@.sessions[client_id.0];
                    old(self)@.with_session(
                        client_id.0,
                        SessionView {
                            resources: client.resources.with_pair(
                                client_resource_id,
                                backend_resource_id,
                            ),
                            ..client
                        },
                    )
                }),
                Err(message) => !old(self)@.sessions.contains_key(client_id.0) && message@
                    == missing_session(client_id.0) && final(self)@ == old(self)@,
            },
    {
        match self.sessions.remove(client_id.0) {
            Some(session) => {
                let mut session = session;
                session.resource_map.map(client_resource_id, backend_resource_id);
                let ghost told = session@;
                self.sessions.insert(client_id.0, session);
                proof {
                    assert(self@.sessions =~= old(self)@.sessions.insert(client_id.0, told));
                }
                Ok(())
            },
            None => {
                proof {
                    assert(self@.sessions =~= old(self)@.sessions);
                }
                Err(missing_session_message(client_id.0))
            },
        }
    }

    /// Notes an object of a client.
    pub fn track_object_interface(
        &mut self,
        client_id: WaylandClientId,
        object_id: u32,
        interface: &str,
    ) -> (result: Result<(), String>)
        ensures
            match result {
                Ok(_) => old(self)@.sessions.contains_key(client_id.0) && final(self)@ == old(
                    self,
                )@.with_session(
                    client_id.0,
                    old(self)@.sessions[client_id.0].with_object(object_id, interface@, 1),
                ),
                Err(message) => !old(self)@.sessions.contains_key(client_id.0) && message@
                    == missing_session(client_id.0) && final(self)@ == old(self)@,
            },
    {
        match self.sessions.remove(client_id.0) {
            Some(session) => {
                let mut session = session;
                session.track_object_interface(object_id, interface);
                let ghost told = session@;
                self.sessions.insert(client_id.0, session);
                proof {
                    assert(self@.sessions =~= old(self)@.sessions.insert(client_id.0, told));
                }
                Ok(())
            },
            None => {
                proof {
                    assert(self@.sessions =~= old(self)@.sessions);
                }
                Err(missing_session_message(client_id.0))
            },
        }
    }

    /// Notes that events can be sent to a client.
    pub fn set_client_event_writer(&mut self, client_id: WaylandClientId) -> (result: Result<
        (),
        String,
    >)
        ensures
            match result {
                Ok(_) => old(self)@.sessions.contains_key(client_id.0) && final(self)@ == old(
                    self,
                )@.with_session(
                    client_id.0,
                    SessionView { writable: true, ..old(self)@.sessions[client_id.0] },
                ),
                Err(message) => !old(self)@.sessions.contains_key(client_id.0) && message@
                    == missing_session(client_id.0) && final(self)@ == old(self)@,
            },
    {
        match self.sessions.remove(client_id.0) {
            Some(session) => {
                let mut session = session;
                session.client_event_writer = true;
                let ghost told = session@;
                self.sessions.insert(client_id.0, session);
                proof {
                    assert(self@.sessions =~= old(self)@.sessions.insert(client_id.0, told));
                }
                Ok(())
            },
            None => {
                proof {
                    assert(self@.sessions =~= old(self)@.sessions);
                }
                Err(missing_session_message(client_id.0))
            },
        }
    }

    /// Runs the hooks on a request of a client.
    pub fn invoke_intercepts(
        &mut self,
        client_id: WaylandClientId,
        hook_request: &GeneratedHookRequest,
        resource_id: u32,
    ) -> (result: Result<(), String>)
        ensures
            match result {
                Ok(_) => old(self)@.sessions.contains_key(client_id.0) && final(self)@ == ({
                    let client = old(self)@.sessions[client_id.0];
                    old(self)@.with_session(
                        client_id.0,
                        client.with_tracker(
                            ingest::hooked_all(
                                client.tracker,
                                old(self)@.registry.intercepts_of(
                                    messages::hook_id(*hook_request),
                                ),
                                resource_id,
                                *hook_request,
                            ),
                        ),
                    )
                }),
                Err(message) => !old(self)@.sessions.contains_key(client_id.0) && message@
                    == missing_session(client_id.0) && final(self)@ == old(self)@,
            },
    {
        match self.sessions.remove(client_id.0) {
            Some(session) => {
                let mut session = session;
                apply_intercepts(
                    &mut session,
                    self.registry.intercepts_for(hook_request.id()),
                    resource_id,
                    hook_request,
                );
                let ghost told = session@;
                self.sessions.insert(client_id.0, session);
                proof {
                    assert(self@.sessions =~= old(self)@.sessions.insert(client_id.0, told));
                }
                Ok(())
            },
            None => {
                proof {
                    assert(self@.sessions =~= old(self)@.sessions);
                }
                Err(missing_session_message(client_id.0))
            },
        }
    }

    /// Runs the hooks on a request of a client, which goes by its full name.
    pub fn invoke_intercepts_by_name(
        &mut self,
        client_id: WaylandClientId,
        request_name: &str,
        resource_id: u32,
        args: &[WaylandInterceptArg],
    ) -> (result: Result<(), String>)
        ensures
            match decode::hook_args(request_name@, args@) {
                Err(message) => (result matches Err(error) && error@ == message) && final(self)@
                    == old(self)@,
                Ok(values) => match decode::named_hook_request(request_name@, values) {
                    None => (result matches Err(error) && error@
                        == "unknown generated hook request "@ + request_name@) && final(self)@
                        == old(self)@,
                    Some(request) => match result {
                        Ok(_) => old(self)@.sessions.contains_key(client_id.0) && final(self)@
                            == ({
                            let client = old(self)@.sessions[client_id.0];
                            old(self)@.with_session(
                                client_id.0,
                                client.with_tracker(
                                    ingest::hooked_all(
                                        client.tracker,
                                        old(self)@.registry.intercepts_of(
                                            messages::hook_id(request),
                                        ),
                                        resource_id,
                                        request,
                                    ),
                                ),
                            )
                        }),
                        Err(message) => !old(self)@.sessions.contains_key(client_id.0) && message@
                            == missing_session(client_id.0) && final(self)@ == old(self)@,
                    },
                },
            },
    {
        let decoded = match generated_decoded_args_from_intercept_args(request_name, args) {
            Ok(decoded) => decoded,
            Err(message) => return Err(message),
        };
        match decode_generated_hook_request(request_name, decoded.as_slice()) {
            Some(hook_request) => self.invoke_intercepts(client_id, &hook_request, resource_id),
            None => {
                let mut message = "unknown generated hook request ".to_owned();
                message.append(request_name);
                Err(message)
            },
        }
    }

    /// Reads a request of a client.
    pub fn decode_request(&self, client_id: WaylandClientId, bytes: &[u8]) -> (request: Result<
        DecodedWaylandRequest,
        String,
    >)
        ensures
            text::outcome(request) == (if self@.sessions.contains_key(client_id.0) {
                decode::request_of_message(self@.sessions[client_id.0].interfaces, bytes@)
            } else {
                Err::<RequestView, Seq<char>>(missing_session(client_id.0))
            }),
    {
        match self.sessions.get(client_id.0) {
            Some(session) => decode_wayland_request(session, bytes),
            None => Err(missing_session_message(client_id.0)),
        }
    }

    /// Whether a compositor stands behind a client.
    pub fn has_backend(&self, client_id: WaylandClientId) -> (connected: Result<bool, String>)
        ensures
            text::outcome(connected) == (if self@.sessions.contains_key(client_id.0) {
                Ok::<bool, Seq<char>>(self@.sessions[client_id.0].backend is Some)
            } else {
                Err(missing_session(client_id.0))
            }),
    {
        match self.sessions.get(client_id.0) {
            Some(session) => Ok(session.backend.is_some()),
            None => Err(missing_session_message(client_id.0)),
        }
    }

    /// Whether a client's requests go by unseen.
    pub fn raw_forward_only_flag(&self, client_id: WaylandClientId) -> (flag: Result<bool, String>)
        ensures
            text::outcome(flag) == (if self@.sessions.contains_key(client_id.0) {
                Ok::<bool, Seq<char>>(self@.sessions[client_id.0].raw_forward_only)
            } else {
                Err(missing_session(client_id.0))
            }),
    {
        match self.sessions.get(client_id.0) {
            Some(session) => Ok(session.raw_forward_only),
            None => Err(missing_session_message(client_id.0)),
        }
    }

    /// Takes in a request of a client, before it is passed on.
    pub fn ingest_request(
        &mut self,
        client_id: WaylandClientId,
        message: WaylandWireMessage,
        now: u64,
    ) -> (begun: Result<BegunRequest, String>)
        ensures
            final(self)@ == old(self)@.request_taken(client_id.0, message@, now).0,
            text::outcome(begun) == old(self)@.request_taken(client_id.0, message@, now).1,
    {
        let active: bool = self.capture_tracking_active(now);
        let ghost ready = self@;
        match self.sessions.remove(client_id.0) {
            Some(session) => {
                let mut session = session;
                let answering: bool = !session.raw_forward_only || active;
                let begun = begin_request(&mut session, &self.registry, message, answering);
                let ghost told = session@;
                self.sessions.insert(client_id.0, session);
                proof {
                    assert(self@.sessions =~= ready.sessions.insert(client_id.0, told));
                }
                begun
            },
            None => {
                proof {
                    assert(self@.sessions =~= ready.sessions);
                }
                Err(missing_session_message(client_id.0))
            },
        }
    }

    /// Finishes a request of a client, after it was passed on where the
    /// compositor gets it.
    pub fn complete_request(&mut self, client_id: WaylandClientId, begun: BegunRequest) -> (ingested:
        Result<IngestedWaylandRequest, String>)
        ensures
            ({
                let expected = old(self)@.request_done(client_id.0, begun@);
                &&& final(self)@ == expected.0
                &&& match expected.1 {
                    Some(message) => ingested matches Err(error) && error@ == message,
                    None => ingested matches Ok(done) && done.request == begun.request
                        && done.backend_events == begun.backend_events,
                }
            }),
    {
        match self.sessions.remove(client_id.0) {
            Some(session) => {
                let mut session = session;
                let ingested = finish_request(&mut session, &self.registry, begun);
                let ghost told = session@;
                self.sessions.insert(client_id.0, session);
                proof {
                    assert(self@.sessions =~= old(self)@.sessions.insert(client_id.0, told));
                }
                ingested
            },
            None => {
                proof {
                    assert(self@.sessions =~= old(self)@.sessions);
                }
                Err(missing_session_message(client_id.0))
            },
        }
    }

    /// Takes in the events that were read of the compositor for a client.
    pub fn poll_backend_events(
        &mut self,
        client_id: WaylandClientId,
        reads: Vec<Result<WaylandWireMessage, String>>,
    ) -> (events: Result<Vec<WaylandBackendEvent>, String>)
        ensures
            if old(self)@.sessions.contains_key(client_id.0) {
                let (after, expected) = old(self)@.sessions[client_id.0].polled(
                    relay::read_values(reads@),
                );
                final(self)@ == old(self)@.with_session(client_id.0, after)
                    && relay::drained_outcome(events) == expected
            } else {
                final(self)@ == old(self)@ && (events matches Err(error) && error@
                    == missing_session(client_id.0))
            },
    {
        match self.sessions.remove(client_id.0) {
            Some(session) => {
                let mut session = session;
                let events = poll_session(&mut session, reads);
                let ghost told = session@;
                self.sessions.insert(client_id.0, session);
                proof {
                    assert(self@.sessions =~= old(self)@.sessions.insert(client_id.0, told));
                }
                events
            },
            None => {
                proof {
                    assert(self@.sessions =~= old(self)@.sessions);
                }
                Err(missing_session_message(client_id.0))
            },
        }
    }

    /// Takes in an event of the compositor for a client, before its file is
    /// read.
    pub fn prepare_backend_event(
        &mut self,
        client_id: WaylandClientId,
        message: WaylandWireMessage,
    ) -> (prepared: Result<PreparedEvent, String>)
        ensures
            if old(self)@.sessions.contains_key(client_id.0) {
                let (after, expected) = old(self)@.sessions[client_id.0].prepared(message@);
                final(self)@ == old(self)@.with_session(client_id.0, after) && text::outcome(
                    prepared,
                ) == expected
            } else {
                final(self)@ == old(self)@ && (prepared matches Err(error) && error@
                    == missing_session(client_id.0))
            },
    {
        match self.sessions.remove(client_id.0) {
            Some(session) => {
                let mut session = session;
                let prepared = prepare_event(&mut session, message);
                let ghost told = session@;
                self.sessions.insert(client_id.0, session);
                proof {
                    assert(self@.sessions =~= old(self)@.sessions.insert(client_id.0, told));
                }
                prepared
            },
            None => {
                proof {
                    assert(self@.sessions =~= old(self)@.sessions);
                }
                Err(missing_session_message(client_id.0))
            },
        }
    }

    /// Finishes an event of the compositor for a client, after its file was
    /// read. The table that comes back has to stand in the file that is kept
    /// under `table_fd`.
    pub fn complete_backend_event(
        &mut self,
        client_id: WaylandClientId,
        prepared: PreparedEvent,
        contents: Result<Vec<u8>, String>,
        table_fd: u64,
    ) -> (completed: Result<CompletedEvent, String>)
        ensures
            if old(self)@.sessions.contains_key(client_id.0) {
                let (after, expected) = old(self)@.sessions[client_id.0].completed(
                    prepared@,
                    feedback::contents_value(contents),
                    table_fd,
                );
                final(self)@ == old(self)@.with_session(client_id.0, after) && text::outcome(
                    completed,
                ) == expected
            } else {
                final(self)@ == old(self)@ && (completed matches Err(error) && error@
                    == missing_session(client_id.0))
            },
    {
        match self.sessions.remove(client_id.0) {
            Some(session) => {
                let mut session = session;
                let completed = complete_event(&mut session, prepared, contents, table_fd);
                let ghost told = session@;
                self.sessions.insert(client_id.0, session);
                proof {
                    assert(self@.sessions =~= old(self)@.sessions.insert(client_id.0, told));
                }
                completed
            },
            None => {
                proof {
                    assert(self@.sessions =~= old(self)@.sessions);
                }
                Err(missing_session_message(client_id.0))
            },
        }
    }
}

impl SessionView {
    /// Whether a client's state still needs a descriptor.
    pub open spec fn holds(self, fd: u64) -> bool {
        ||| self.pending_fds.contains(fd)
        ||| (self.backend matches Some(backend) && backend.pending_fds.contains(fd))
        ||| self.tracker.holds(fd)
    }
}

impl ServerView {
    /// Whether a client's state still needs a descriptor.
    pub open spec fn client_holds(self, client_id: u64, fd: u64) -> bool {
        self.sessions.contains_key(client_id) && self.sessions[client_id].holds(fd)
    }

    /// Whether a descriptor is still needed.
    pub open spec fn holds(self, fd: u64) -> bool {
        exists|client_id: u64| #[trigger] self.client_holds(client_id, fd)
    }
}

fn is_among(fds: &Vec<u64>, fd: u64) -> (found: bool)
    ensures
        found == fds@.contains(fd),
{
    let mut index: usize = 0;
    while index < fds.len()
        invariant
            index <= fds@.len(),
            forall|i: int| 0 <= i < index ==> fds@[i] != fd,
        decreases fds@.len() - index,
    {
        if fds[index] == fd {
            return true;
        }
        index = index + 1;
    }
    false
}

fn session_holds(client: &WaylandClientSession, fd: u64) -> (held: bool)
    ensures
        held == client@.holds(fd),
{
    if is_among(&client.pending_client_fds, fd) {
        return true;
    }
    if let Some(backend) = &client.backend {
        if is_among(&backend.pending_backend_fds, fd) {
            return true;
        }
    }
    client.frame_tracker.holds_descriptor(fd)
}

impl WaylandProxyServer {
    /// Says whether a descriptor is still needed.
    pub fn holds_descriptor(&self, fd: u64) -> (held: bool)
        ensures
            held == self@.holds(fd),
    {
        let ids = self.sessions.keys();
        let mut index: usize = 0;
        while index < ids.len()
            invariant
                index <= ids@.len(),
                ids@.to_set() == self@.sessions.dom(),
                forall|i: int| 0 <= i < index ==> !#[trigger] self@.client_holds(ids@[i], fd),
            decreases ids@.len() - index,
        {
            if let Some(client) = self.sessions.get(ids[index]) {
                if session_holds(client, fd) {
                    assert(self@.client_holds(ids@[index as int], fd));
                    return true;
                }
            }
            index = index + 1;
        }
        proof {
            assert forall|client_id: u64| !#[trigger] self@.client_holds(client_id, fd) by {
                if self@.sessions.contains_key(client_id) {
                    assert(ids@.to_set().contains(client_id));
                }
            }
        }
        false
    }
}

/// Nothing of a client that is gone is needed any more, unless another client
/// needs it too.
pub proof fn leaving_frees_descriptors(server: ServerView, client_id: u64, fd: u64)
    requires
        forall|other: u64| other != client_id ==> !#[trigger] server.client_holds(other, fd),
    ensures
        !server.without_session(client_id).holds(fd),
{
    let after = server.without_session(client_id);
    assert forall|other: u64| !#[trigger] after.client_holds(other, fd) by {
        assert(!server.client_holds(other, fd) || other == client_id);
    }
}

} // verus!
