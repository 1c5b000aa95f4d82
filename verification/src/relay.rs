//! What happens with an event on its way from the compositor to a client, and
//! how the compositor's globals are found out.

use crate::decode;
use crate::decode::{
    BackendEventView, DecodedEventView, WaylandBackendEvent, WaylandWireMessage, WireView,
    apply_object_interfaces_from_event, decode_wayland_event, is_suppressed_registry_global_event,
    is_unsupported_dmabuf_advertisement,
};
use crate::fds;
use crate::feedback;
use crate::feedback::{
    FileRead, plan_read, rewrite_dmabuf_feedback_event, track_keyboard_keymap,
};
use crate::globals;
use crate::globals::{GlobalView, WaylandGlobalInfo};
use crate::ingest::{note_events, refresh_globals};
use crate::messages::{EventView, GeneratedEvent};
use crate::session;
use crate::session::{
    BackendView, SessionView, WaylandBackendSession, WaylandClientSession,
    apply_client_event_tracking,
};
use crate::surface::{BufferView, SourceView};
use crate::table::Table;
use crate::text;
use crate::text::{str_contains, str_eq};
use crate::wire;
use crate::wire::encode_u32_message;
use vstd::prelude::*;
use vstd::string::*;

verus! {

/// The registry that is made to find out the compositor's globals.
pub const BACKEND_BOOTSTRAP_REGISTRY_ID: u32 = 2;

/// The callback that says that all globals were announced.
pub const BACKEND_BOOTSTRAP_CALLBACK_ID: u32 = 3;

/// How many events are taken in at once.
pub const MAX_BACKEND_EVENTS_PER_DRAIN: usize = 1024;

/// Whether a message of the system says that nothing arrived in time.
pub open spec fn says_timeout(message: Seq<char>) -> bool {
    text::occurs_in("timed out"@, message) || text::occurs_in("WouldBlock"@, message)
        || text::occurs_in("Resource temporarily unavailable"@, message)
}

/// Whether a message of the system says that nothing arrived in time.
pub fn is_timeout_error(err: &str) -> (timeout: bool)
    ensures
        timeout == says_timeout(err@),
{
    str_contains(err, "timed out") || str_contains(err, "WouldBlock") || str_contains(
        err,
        "Resource temporarily unavailable",
    )
}

/// Whether a message of the system says that a client left.
pub open spec fn says_disconnect(message: Seq<char>) -> bool {
    text::occurs_in("Connection reset by peer"@, message) || text::occurs_in(
        "Broken pipe"@,
        message,
    ) || text::occurs_in("Wayland stream reached EOF"@, message)
}

/// Whether a message of the system says that a client left.
pub fn is_normal_client_disconnect(error: &str) -> (left: bool)
    ensures
        left == says_disconnect(error@),
{
    str_contains(error, "Connection reset by peer") || str_contains(error, "Broken pipe")
        || str_contains(error, "Wayland stream reached EOF")
}

/// What kind of system error a message stands for.
#[derive(Debug, PartialEq, Eq)]
pub enum IoError {
    WouldBlock,
    Other(String),
}

/// Which kind of system error a message stands for.
pub fn string_error_to_io(err: String) -> (error: IoError)
    ensures
        match error {
            IoError::WouldBlock => says_timeout(err@),
            IoError::Other(message) => !says_timeout(err@) && message@ == err@,
        },
{
    if is_timeout_error(err.as_str()) {
        IoError::WouldBlock
    } else {
        IoError::Other(err)
    }
}

/// The connection, the event and what went wrong, if anything did, after an
/// event of the compositor arrived.
pub type Received = (BackendView, Result<BackendEventView, Seq<char>>);

impl BackendView {
    /// After an event arrived: what it is, with its own descriptors.
    pub open spec fn received(self, message: WireView) -> Received {
        match decode::event_of_message(self.interfaces, message.bytes) {
            Ok(event) => {
                let expected = fds::expected_fds(event.args);
                (
                    self.after_claim(message.fds, expected).after_event(event),
                    Ok(
                        BackendEventView {
                            encoded: WireView {
                                fds: fds::claimed(self.pending_fds, message.fds, expected),
                                ..message
                            },
                            decoded: Some(event),
                        },
                    ),
                )
            },
            Err(_) => match self.stray_fds(message) {
                Some(error) => (self, Err(error)),
                None => (
                    self.after_claim(message.fds, 0),
                    Ok(
                        BackendEventView {
                            encoded: WireView { fds: Seq::empty(), ..message },
                            decoded: None,
                        },
                    ),
                ),
            },
        }
    }
}

impl WaylandBackendSession {
    /// Takes in an event.
    pub fn receive(&mut self, message: WaylandWireMessage) -> (event: Result<
        WaylandBackendEvent,
        String,
    >)
        ensures
            final(self)@ =~= old(self)@.received(message@).0,
            text::outcome(event) == old(self)@.received(message@).1,
    {
        let mut message = message;
        match decode_wayland_event(&self.object_interfaces, message.bytes.as_slice()) {
            Ok(event) => {
                self.reassociate_backend_fds(&event, &mut message.fds);
                self.apply_event(&event);
                Ok(WaylandBackendEvent { encoded: message, decoded: Some(event) })
            },
            Err(_) => {
                match self.reassociate_undecoded_backend_fds(
                    message.bytes.as_slice(),
                    &mut message.fds,
                ) {
                    Ok(_) => Ok(WaylandBackendEvent { encoded: message, decoded: None }),
                    Err(error) => Err(error),
                }
            },
        }
    }
}

/// What one attempt to read an event came to.
pub open spec fn read_value(read: Result<WaylandWireMessage, String>) -> Result<
    WireView,
    Seq<char>,
> {
    match read {
        Ok(message) => Ok(message@),
        Err(error) => Err(error@),
    }
}

/// What attempts to read events came to.
pub open spec fn read_values(reads: Seq<Result<WaylandWireMessage, String>>) -> Seq<
    Result<WireView, Seq<char>>,
> {
    reads.map_values(|read: Result<WaylandWireMessage, String>| read_value(read))
}

/// The connection, the events and what went wrong, if anything did, after
/// events of the compositor were read.
pub type Drained = (BackendView, Result<Seq<BackendEventView>, Seq<char>>);

impl BackendView {
    /// After the attempts from `index` on to read events, of which there are
    /// already some: it ends where nothing arrived in time, and where enough
    /// events are there.
    pub open spec fn drained(
        self,
        reads: Seq<Result<WireView, Seq<char>>>,
        index: int,
        events: Seq<BackendEventView>,
    ) -> Drained
        decreases reads.len() - index,
    {
        if index < 0 || index >= reads.len() || events.len() >= MAX_BACKEND_EVENTS_PER_DRAIN {
            (self, Ok(events))
        } else {
            match reads[index] {
                Err(error) => if says_timeout(error) {
                    (self, Ok(events))
                } else {
                    (self, Err(error))
                },
                Ok(message) => match self.received(message) {
                    (after, Err(error)) => (after, Err(error)),
                    (after, Ok(event)) => after.drained(reads, index + 1, events.push(event)),
                },
            }
        }
    }
}

/// The values of events that may not have come about.
pub open spec fn drained_outcome(events: Result<Vec<WaylandBackendEvent>, String>) -> Result<
    Seq<BackendEventView>,
    Seq<char>,
> {
    match events {
        Ok(list) => Ok(decode::backend_event_values(list@)),
        Err(message) => Err(message@),
    }
}

impl WaylandBackendSession {
    /// Takes in the events that were read.
    pub fn drain_pending_events(&mut self, reads: Vec<Result<WaylandWireMessage, String>>) -> (events:
        Result<Vec<WaylandBackendEvent>, String>)
        ensures
            final(self)@ =~= old(self)@.drained(read_values(reads@), 0, Seq::empty()).0,
            drained_outcome(events) == old(self)@.drained(
                read_values(reads@),
                0,
                Seq::empty(),
            ).1,
    {
        let ghost before = self@;
        let ghost all = reads@;
        let ghost values = read_values(reads@);
        let mut queue = reads;
        let mut events: Vec<WaylandBackendEvent> = Vec::new();
        let ghost mut done: int = 0;
        proof {
            assert(decode::backend_event_values(events@) =~= Seq::<BackendEventView>::empty());
            assert(all.skip(0) =~= queue@);
        }
        while queue.len() > 0 && events.len() < MAX_BACKEND_EVENTS_PER_DRAIN
            invariant
                before == old(self)@,
                values == read_values(all),
                0 <= done <= all.len(),
                all == reads@,
                queue@ == all.skip(done),
                before.drained(values, 0, Seq::empty()) == self@.drained(
                    values,
                    done,
                    decode::backend_event_values(events@),
                ),
            decreases queue@.len(),
        {
            let ghost so_far = events@;
            let read = queue.remove(0);
            proof {
                assert(read == all[done]);
                assert(values[done] == read_value(read));
                assert(queue@ =~= all.skip(done + 1));
            }
            match read {
                Ok(message) => match self.receive(message) {
                    Ok(event) => {
                        events.push(event);
                        proof {
                            assert(decode::backend_event_values(events@)
                                =~= decode::backend_event_values(so_far).push(event@));
                        }
                    },
                    Err(error) => return Err(error),
                },
                Err(error) => {
                    if is_timeout_error(error.as_str()) {
                        return Ok(events);
                    }
                    return Err(error);
                },
            }
            proof {
                done = done + 1;
            }
        }
        Ok(events)
    }
}

impl SessionView {
    /// After the compositor's events were read: they are noted, and the
    /// globals refreshed.
    pub open spec fn polled(self, reads: Seq<Result<WireView, Seq<char>>>) -> (
        SessionView,
        Result<Seq<BackendEventView>, Seq<char>>,
    ) {
        match self.backend {
            None => (self, Ok(Seq::empty())),
            Some(backend) => {
                let (after, read) = backend.drained(reads, 0, Seq::empty());
                let drained = SessionView { backend: Some(after), ..self };
                match read {
                    Err(error) => (drained, Err(error)),
                    Ok(events) => match drained.events_noted(events) {
                        (noted, Some(error)) => (noted, Err(error)),
                        (noted, None) => (noted.globals_refreshed(), Ok(events)),
                    },
                }
            },
        }
    }
}

/// Takes in the events that were read of the compositor.
pub fn poll_session(
    session: &mut WaylandClientSession,
    reads: Vec<Result<WaylandWireMessage, String>>,
) -> (events: Result<Vec<WaylandBackendEvent>, String>)
    ensures
        final(session)@ =~= old(session)@.polled(read_values(reads@)).0,
        drained_outcome(events) == old(session)@.polled(read_values(reads@)).1,
{
    let drained = match session.backend.take() {
        None => {
            let events: Vec<WaylandBackendEvent> = Vec::new();
            proof {
                assert(decode::backend_event_values(events@) =~= Seq::<BackendEventView>::empty());
            }
            return Ok(events);
        },
        Some(backend) => {
            let mut backend = backend;
            let drained = backend.drain_pending_events(reads);
            session.backend = Some(backend);
            drained
        },
    };
    let events = match drained {
        Ok(events) => events,
        Err(error) => return Err(error),
    };
    match note_events(session, &events) {
        Ok(_) => {},
        Err(error) => return Err(error),
    }
    refresh_globals(session);
    Ok(events)
}

/// An event of the compositor before it is passed on, and what has to be read
/// for it.
pub struct PreparedEvent {
    pub event: WaylandBackendEvent,
    pub read: Option<FileRead>,
}

/// The value of an event before it is passed on.
#[verifier::ext_equal]
pub struct PreparedView {
    pub event: BackendEventView,
    pub read: Option<FileRead>,
}

impl View for PreparedEvent {
    type V = PreparedView;

    open spec fn view(&self) -> PreparedView {
        PreparedView { event: self.event@, read: self.read }
    }
}

impl SessionView {
    /// After an event of the compositor arrived, before its file is read.
    pub open spec fn prepared(self, message: WireView) -> (
        SessionView,
        Result<PreparedView, Seq<char>>,
    ) {
        match self.backend {
            None => (
                self,
                Ok(
                    PreparedView {
                        event: BackendEventView { encoded: message, decoded: None },
                        read: None,
                    },
                ),
            ),
            Some(backend) => {
                let (received, result) = backend.received(message);
                let after = SessionView { backend: Some(received), ..self };
                match result {
                    Err(error) => (after, Err(error)),
                    Ok(event) => match event.decoded {
                        None => (after, Ok(PreparedView { event, read: None })),
                        Some(decoded) => match feedback::read_for(
                            decoded.generated_event,
                            event.encoded.fds,
                        ) {
                            Err(error) => (after, Err(error)),
                            Ok(read) => (after, Ok(PreparedView { event, read })),
                        },
                    },
                }
            },
        }
    }

    /// After the file of an event was read.
    pub open spec fn completed(
        self,
        prepared: PreparedView,
        contents: Result<Seq<u8>, Seq<char>>,
        table_fd: u64,
    ) -> (SessionView, Result<CompletedView, Seq<char>>) {
        match prepared.event.decoded {
            None => (
                self.globals_refreshed(),
                Ok(CompletedView { event: prepared.event, table: None }),
            ),
            Some(decoded) => match self.keymap_noted(decoded, contents) {
                Err(error) => (self, Err(error)),
                Ok(mapped) => match mapped.formats_adapted(
                    decoded,
                    prepared.event.encoded,
                    contents,
                    table_fd,
                ) {
                    Err(error) => (mapped, Err(error)),
                    Ok((adapted, shown)) => match adapted.client_event_tracked(decoded) {
                        (after, Some(error)) => (after, Err(error)),
                        (after, None) => (
                            after.globals_refreshed(),
                            Ok(
                                CompletedView {
                                    event: BackendEventView {
                                        encoded: shown.message,
                                        decoded: Some(decoded),
                                    },
                                    table: shown.table,
                                },
                            ),
                        ),
                    },
                },
            },
        }
    }
}

/// Takes in an event of the compositor, before its file is read.
pub fn prepare_event(session: &mut WaylandClientSession, message: WaylandWireMessage) -> (prepared:
    Result<PreparedEvent, String>)
    ensures
        final(session)@ =~= old(session)@.prepared(message@).0,
        text::outcome(prepared) == old(session)@.prepared(message@).1,
{
    let received = match session.backend.take() {
        None => {
            return Ok(
                PreparedEvent {
                    event: WaylandBackendEvent { encoded: message, decoded: None },
                    read: None,
                },
            );
        },
        Some(backend) => {
            let mut backend = backend;
            let received = backend.receive(message);
            session.backend = Some(backend);
            received
        },
    };
    let event = match received {
        Ok(event) => event,
        Err(error) => return Err(error),
    };
    let read = match &event.decoded {
        Some(decoded) => match plan_read(decoded, event.encoded.fds.as_slice()) {
            Ok(read) => read,
            Err(error) => return Err(error),
        },
        None => None,
    };
    Ok(PreparedEvent { event, read })
}

/// An event that is ready to be passed on, and the table of formats that has to
/// stand in its file, if it has one.
pub struct CompletedEvent {
    pub event: WaylandBackendEvent,
    pub table: Option<Vec<u8>>,
}

/// The value of an event that is ready.
#[verifier::ext_equal]
pub struct CompletedView {
    pub event: BackendEventView,
    pub table: Option<Seq<u8>>,
}

impl View for CompletedEvent {
    type V = CompletedView;

    open spec fn view(&self) -> CompletedView {
        CompletedView { event: self.event@, table: feedback::optional_table(self.table) }
    }
}

fn copy_contents(contents: &Result<Vec<u8>, String>) -> (copy: Result<Vec<u8>, String>)
    ensures
        feedback::contents_value(copy) == feedback::contents_value(*contents),
{
    match contents {
        Ok(bytes) => Ok(text::copy_bytes(bytes)),
        Err(message) => Err(message.clone()),
    }
}

/// Finishes an event, after its file was read. The table that comes back has to
/// stand in the file that is kept under `table_fd`.
pub fn complete_event(
    session: &mut WaylandClientSession,
    prepared: PreparedEvent,
    contents: Result<Vec<u8>, String>,
    table_fd: u64,
) -> (completed: Result<CompletedEvent, String>)
    ensures
        final(session)@ =~= old(session)@.completed(
            prepared@,
            feedback::contents_value(contents),
            table_fd,
        ).0,
        text::outcome(completed) == old(session)@.completed(
            prepared@,
            feedback::contents_value(contents),
            table_fd,
        ).1,
{
    let PreparedEvent { event, read: _ } = prepared;
    let WaylandBackendEvent { encoded, decoded } = event;
    let mut message = encoded;
    let mut table: Option<Vec<u8>> = None;
    if let Some(event) = &decoded {
        match track_keyboard_keymap(session, event, copy_contents(&contents)) {
            Ok(_) => {},
            Err(error) => return Err(error),
        }
        table = match rewrite_dmabuf_feedback_event(
            session,
            event,
            &mut message,
            contents,
            table_fd,
        ) {
            Ok(table) => table,
            Err(error) => return Err(error),
        };
        match apply_client_event_tracking(session, event) {
            Ok(_) => {},
            Err(error) => return Err(error),
        }
    }
    refresh_globals(session);
    Ok(CompletedEvent { event: WaylandBackendEvent { encoded: message, decoded }, table })
}

/// Whether an event is kept from the client: it announces what the proxy does
/// not support.
pub open spec fn kept_back(event: BackendEventView) -> bool {
    match event.decoded {
        Some(decoded) => decode::announces_suppressed(decoded.generated_event)
            || decode::advertises_unsupported(decoded.generated_event),
        None => false,
    }
}

/// What clients are told of, they can use: a global that is announced to them is
/// supported, and a buffer of a format that is advertised to them can be captured,
/// as it cannot be of one that is kept back.
pub proof fn told_means_supported(event: BackendEventView, buffer: BufferView)
    ensures
        event.decoded matches Some(decoded) ==> {
            &&& decoded.generated_event matches EventView::WlRegistryGlobal {
                interface: Some(interface),
                ..
            } ==> kept_back(event) == !globals::supported(interface)
            &&& decoded.generated_event matches EventView::ZwpLinuxDmabufV1Format { format }
                ==> buffer.source matches SourceView::Dmabuf(memory) ==> memory.format == format
                ==> kept_back(event) == buffer.error() is Some
            &&& decoded.generated_event matches EventView::ZwpLinuxDmabufV1Modifier { format, .. }
                ==> buffer.source matches SourceView::Dmabuf(memory) ==> memory.format == format
                ==> kept_back(event) == buffer.error() is Some
        },
{
}

/// Whether an event is kept from the client.
pub fn is_kept_back(event: &WaylandBackendEvent) -> (kept: bool)
    ensures
        kept == kept_back(event@),
{
    match &event.decoded {
        Some(decoded) => is_suppressed_registry_global_event(decoded)
            || is_unsupported_dmabuf_advertisement(decoded),
        None => false,
    }
}

/// How far the search for the compositor's globals got.
pub struct Discovery {
    pub object_interfaces: Table<u32, String>,
    pub globals: Vec<WaylandGlobalInfo>,
}

/// The value of a search for globals.
#[verifier::ext_equal]
pub struct DiscoveryView {
    pub interfaces: Map<u32, Seq<char>>,
    pub globals: Seq<GlobalView>,
}

impl View for Discovery {
    type V = DiscoveryView;

    open spec fn view(&self) -> DiscoveryView {
        DiscoveryView {
            interfaces: self.object_interfaces@,
            globals: globals::global_values(self.globals@),
        }
    }
}

impl DiscoveryView {
    /// The search begins.
    pub open spec fn begun() -> Self {
        DiscoveryView {
            interfaces: Map::<u32, Seq<char>>::empty().insert(1, "wl_display"@).insert(
                BACKEND_BOOTSTRAP_REGISTRY_ID,
                "wl_registry"@,
            ).insert(BACKEND_BOOTSTRAP_CALLBACK_ID, "wl_callback"@),
            globals: Seq::empty(),
        }
    }

    /// After an event: it may announce a global.
    pub open spec fn after_event(self, event: DecodedEventView) -> Self {
        DiscoveryView {
            interfaces: decode::with_all_made(self.interfaces, event.arg_specs, event.args),
            globals: match event.generated_event {
                EventView::WlRegistryGlobal { name, interface: Some(interface), version } =>
                    self.globals.push(GlobalView { name, interface, version }),
                _ => self.globals,
            },
        }
    }

    /// Whether an event says that all globals were announced.
    pub open spec fn ends(event: DecodedEventView) -> bool {
        event.object_id == BACKEND_BOOTSTRAP_CALLBACK_ID && event.event_name
            == "wl_callback.done"@
    }

    /// After an attempt to read an event: the search ends where nothing arrives
    /// in time, and where all globals were announced.
    pub open spec fn stepped(self, read: Result<Seq<u8>, Seq<char>>) -> (
        DiscoveryView,
        Result<bool, Seq<char>>,
    ) {
        match read {
            Err(error) => if says_timeout(error) {
                (self, Ok(true))
            } else {
                (self, Err(error))
            },
            Ok(bytes) => match decode::event_of_message(self.interfaces, bytes) {
                Err(error) => (self, Err(error)),
                Ok(event) => (self.after_event(event), Ok(Self::ends(event))),
            },
        }
    }
}

impl Discovery {
    /// Begins the search.
    pub fn new() -> (search: Self)
        ensures
            search@ == DiscoveryView::begun(),
    {
        let mut object_interfaces = Table::new();
        object_interfaces.insert(1u32, "wl_display".to_owned());
        object_interfaces.insert(BACKEND_BOOTSTRAP_REGISTRY_ID, "wl_registry".to_owned());
        object_interfaces.insert(BACKEND_BOOTSTRAP_CALLBACK_ID, "wl_callback".to_owned());
        let search = Discovery { object_interfaces, globals: Vec::new() };
        proof {
            assert(search@ =~= DiscoveryView::begun());
        }
        search
    }

    /// The requests that begin the search: for the registry, and for a sign
    /// that all globals were announced.
    pub fn requests() -> (requests: (Vec<u8>, Vec<u8>))
        ensures
            requests.0@ == wire::u32_message(1, 1, seq![BACKEND_BOOTSTRAP_REGISTRY_ID]),
            requests.1@ == wire::u32_message(1, 0, seq![BACKEND_BOOTSTRAP_CALLBACK_ID]),
    {
        let registry: [u32; 1] = [BACKEND_BOOTSTRAP_REGISTRY_ID];
        let callback: [u32; 1] = [BACKEND_BOOTSTRAP_CALLBACK_ID];
        proof {
            assert(registry@ =~= seq![BACKEND_BOOTSTRAP_REGISTRY_ID]);
            assert(callback@ =~= seq![BACKEND_BOOTSTRAP_CALLBACK_ID]);
        }
        (encode_u32_message(1, 1, &registry), encode_u32_message(1, 0, &callback))
    }

    /// Takes in an attempt to read an event, and says whether the search ends.
    pub fn step(&mut self, read: Result<Vec<u8>, String>) -> (ended: Result<bool, String>)
        ensures
            final(self)@ =~= old(self)@.stepped(feedback::contents_value(read)).0,
            text::outcome(ended) == old(self)@.stepped(feedback::contents_value(read)).1,
    {
        let bytes = match read {
            Ok(bytes) => bytes,
            Err(error) => {
                if is_timeout_error(error.as_str()) {
                    return Ok(true);
                }
                return Err(error);
            },
        };
        let event = match decode_wayland_event(&self.object_interfaces, bytes.as_slice()) {
            Ok(event) => event,
            Err(error) => return Err(error),
        };
        apply_object_interfaces_from_event(&mut self.object_interfaces, &event);
        match &event.generated_event {
            GeneratedEvent::WlRegistryGlobal { name, interface, version } => {
                if let Some(interface) = interface {
                    let ghost before = self.globals@;
                    self.globals.push(
                        WaylandGlobalInfo {
                            name: *name,
                            interface: interface.clone(),
                            version: *version,
                        },
                    );
                    proof {
                        assert(globals::global_values(self.globals@) =~= globals::global_values(
                            before,
                        ).push(
                            GlobalView {
                                name: *name,
                                interface: interface@,
                                version: *version,
                            },
                        ));
                    }
                }
            },
            _ => {},
        }
        Ok(
            event.object_id == BACKEND_BOOTSTRAP_CALLBACK_ID && str_eq(
                event.event_name.as_str(),
                "wl_callback.done",
            ),
        )
    }
}

} // verus!
