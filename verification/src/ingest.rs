//! What happens with a request on its way from a client to the compositor: the
//! answers that the proxy gives of its own, and what is noted before and after
//! the request is passed on.

use crate::decode;
use crate::decode::{
    BackendEventView, DecodedWaylandRequest, RequestView, WaylandBackendEvent, WaylandWireMessage,
    WireView, decode_wayland_event,
};
use crate::fds;
use crate::fds::{claim_fds, reassociate_fds};
use crate::globals;
use crate::globals::{
    GlobalView, WaylandGlobalInfo, WaylandInterceptHook, WaylandInterceptKind,
    WaylandProtocolRegistry, filtered_backend_globals,
};
use crate::messages;
use crate::messages::{
    EventView, GeneratedEvent, GeneratedHookRequest, GeneratedImplementedRequest,
    GeneratedTrackedRequest, TrackedRequestView, encode_generated_event,
};
use crate::session;
use crate::session::{
    BackendView, SessionView, Step, WaylandClientSession, apply_client_event_tracking,
    apply_dmabuf_tracking, apply_object_tracking, apply_syncobj_tracking, apply_window_tracking,
    configure_number, decode_wayland_request,
};
use crate::surface::DamageRect;
use crate::tables::GeneratedRequestId;
use crate::text;
use crate::text::str_eq;
use crate::tracker;
use crate::tracker::{ShmBufferSpec, TrackerView};
use crate::wire;
use crate::wire::{
    ArgView, DecodedWaylandArg, WaylandMessageHeader, decode_wayland_header, read_u32_arg,
};
use vstd::prelude::*;
use vstd::string::*;

verus! {

/// What a hook makes of a request.
pub open spec fn hooked(
    known: TrackerView,
    kind: WaylandInterceptKind,
    resource_id: u32,
    request: GeneratedHookRequest,
) -> TrackerView {
    match (kind, request) {
        (
            WaylandInterceptKind::SurfaceAttach,
            GeneratedHookRequest::WlSurfaceAttach { buffer, .. },
        ) => known.attached(resource_id, buffer),
        (
            WaylandInterceptKind::SurfaceDamage,
            GeneratedHookRequest::WlSurfaceDamage { x, y, width, height },
        ) => known.damaged(resource_id, DamageRect { x, y, width, height }),
        (
            WaylandInterceptKind::SurfaceDamage,
            GeneratedHookRequest::WlSurfaceDamageBuffer { x, y, width, height },
        ) => known.damaged(resource_id, DamageRect { x, y, width, height }),
        (
            WaylandInterceptKind::SurfaceCommit,
            GeneratedHookRequest::WlSurfaceCommit,
        ) => known.committed(resource_id),
        _ => known,
    }
}

/// What hooks make of a request, one after the other.
pub open spec fn hooked_all(
    known: TrackerView,
    hooks: Seq<WaylandInterceptHook>,
    resource_id: u32,
    request: GeneratedHookRequest,
) -> TrackerView
    decreases hooks.len(),
{
    if hooks.len() == 0 {
        known
    } else {
        hooked(
            hooked_all(known, hooks.drop_last(), resource_id, request),
            hooks.last().kind,
            resource_id,
            request,
        )
    }
}

impl WaylandInterceptHook {
    /// Runs the hook on a request.
    pub fn apply(
        &self,
        session: &mut WaylandClientSession,
        resource_id: u32,
        request: &GeneratedHookRequest,
    )
        ensures
            final(session)@ == old(session)@.with_tracker(
                hooked(old(session)@.tracker, self.kind, resource_id, *request),
            ),
    {
        match (self.kind, request) {
            (
                WaylandInterceptKind::SurfaceAttach,
                GeneratedHookRequest::WlSurfaceAttach { buffer, x: _, y: _ },
            ) => {
                session.frame_tracker.set_surface_buffer(resource_id, *buffer);
            },
            (
                WaylandInterceptKind::SurfaceDamage,
                GeneratedHookRequest::WlSurfaceDamage { x, y, width, height },
            ) => {
                session.frame_tracker.add_damage(
                    resource_id,
                    DamageRect { x: *x, y: *y, width: *width, height: *height },
                );
            },
            (
                WaylandInterceptKind::SurfaceDamage,
                GeneratedHookRequest::WlSurfaceDamageBuffer { x, y, width, height },
            ) => {
                session.frame_tracker.add_damage(
                    resource_id,
                    DamageRect { x: *x, y: *y, width: *width, height: *height },
                );
            },
            (WaylandInterceptKind::SurfaceCommit, GeneratedHookRequest::WlSurfaceCommit) => {
                session.frame_tracker.commit_surface(resource_id);
            },
            _ => {},
        }
    }
}

/// Runs hooks on a request, one after the other.
pub fn apply_intercepts(
    session: &mut WaylandClientSession,
    hooks: &[WaylandInterceptHook],
    resource_id: u32,
    request: &GeneratedHookRequest,
)
    ensures
        final(session)@ == old(session)@.with_tracker(
            hooked_all(old(session)@.tracker, hooks@, resource_id, *request),
        ),
{
    let ghost before = session@;
    let mut index: usize = 0;
    proof {
        assert(hooks@.take(0) =~= Seq::<WaylandInterceptHook>::empty());
    }
    while index < hooks.len()
        invariant
            index <= hooks@.len(),
            session@ == before.with_tracker(
                hooked_all(before.tracker, hooks@.take(index as int), resource_id, *request),
            ),
        decreases hooks@.len() - index,
    {
        proof {
            assert(hooks@.take(index + 1).drop_last() =~= hooks@.take(index as int));
            assert(hooks@.take(index + 1).last() == hooks@[index as int]);
        }
        hooks[index].apply(session, resource_id, request);
        index = index + 1;
    }
    proof {
        assert(hooks@.take(index as int) =~= hooks@);
    }
}

/// An event that the proxy sends of its own, as the client will read it.
pub open spec fn local_event(
    interfaces: Map<u32, Seq<char>>,
    sender: u32,
    event: EventView,
) -> Result<BackendEventView, Seq<char>> {
    match messages::event_message(sender, event) {
        Err(message) => Err(message),
        Ok(bytes) => match decode::event_of_message(interfaces, bytes) {
            Err(message) => Err(message),
            Ok(decoded) => Ok(
                BackendEventView {
                    encoded: WireView { bytes, fds: Seq::empty() },
                    decoded: Some(decoded),
                },
            ),
        },
    }
}

/// Writes an event that the proxy sends of its own.
pub fn encode_local_event(
    session: &WaylandClientSession,
    sender_object_id: u32,
    event: &GeneratedEvent,
) -> (encoded: Result<WaylandBackendEvent, String>)
    ensures
        text::outcome(encoded) == local_event(session@.interfaces, sender_object_id, event@),
{
    let bytes = match encode_generated_event(sender_object_id, event) {
        Ok(bytes) => bytes,
        Err(message) => return Err(message),
    };
    let decoded = match decode_wayland_event(&session.object_interfaces, bytes.as_slice()) {
        Ok(decoded) => decoded,
        Err(message) => return Err(message),
    };
    Ok(
        WaylandBackendEvent {
            encoded: WaylandWireMessage { bytes, fds: Vec::new() },
            decoded: Some(decoded),
        },
    )
}

/// The announcement of a global.
pub open spec fn announcement(global: GlobalView) -> EventView {
    EventView::WlRegistryGlobal {
        name: global.name,
        interface: Some(global.interface),
        version: global.version,
    }
}

/// The announcements of globals, one after the other.
pub open spec fn announcements(
    interfaces: Map<u32, Seq<char>>,
    registry: u32,
    known: Seq<GlobalView>,
) -> Result<Seq<BackendEventView>, Seq<char>>
    decreases known.len(),
{
    if known.len() == 0 {
        Ok(Seq::empty())
    } else {
        match announcements(interfaces, registry, known.drop_last()) {
            Err(message) => Err(message),
            Ok(before) => match local_event(interfaces, registry, announcement(known.last())) {
                Err(message) => Err(message),
                Ok(event) => Ok(before.push(event)),
            },
        }
    }
}

/// Two events that the proxy sends of its own.
pub open spec fn local_pair(
    first: Result<BackendEventView, Seq<char>>,
    second: Result<BackendEventView, Seq<char>>,
) -> Result<Seq<BackendEventView>, Seq<char>> {
    match (first, second) {
        (Err(message), _) => Err(message),
        (_, Err(message)) => Err(message),
        (Ok(a), Ok(b)) => Ok(seq![a, b]),
    }
}

/// The values of events that may not have come about.
pub open spec fn events_outcome(events: Result<Vec<WaylandBackendEvent>, String>) -> Result<
    Seq<BackendEventView>,
    Seq<char>,
> {
    match events {
        Ok(list) => Ok(decode::backend_event_values(list@)),
        Err(message) => Err(message@),
    }
}

impl SessionView {
    /// What the proxy answers of its own to a request, and what it notes of
    /// that. Where a compositor stands behind the client, that one answers.
    pub open spec fn local_response(self, request: RequestView) -> (
        SessionView,
        Result<Seq<BackendEventView>, Seq<char>>,
    ) {
        match request.implemented_request {
            Some(GeneratedImplementedRequest::WlDisplayGetRegistry { registry }) => if self.backend is Some {
                (self, Ok(Seq::empty()))
            } else {
                (
                    SessionView {
                        local_registries: self.local_registries.insert(registry, ()),
                        ..self
                    },
                    announcements(self.interfaces, registry, self.backend_globals),
                )
            },
            Some(GeneratedImplementedRequest::WlDisplaySync { callback }) => if self.backend is Some {
                (self, Ok(Seq::empty()))
            } else {
                (
                    SessionView {
                        local_callbacks: self.local_callbacks.insert(callback, ()),
                        ..self
                    },
                    local_pair(
                        local_event(
                            self.interfaces,
                            callback,
                            EventView::WlCallbackDone { callback_data: 0 },
                        ),
                        local_event(
                            self.interfaces,
                            1,
                            EventView::WlDisplayDeleteId { id: callback },
                        ),
                    ),
                )
            },
            Some(
                GeneratedImplementedRequest::WlFixesDestroyRegistry { registry: Some(registry) },
            ) => if self.local_registries.contains_key(registry) {
                (
                    self,
                    match local_event(
                        self.interfaces,
                        1,
                        EventView::WlDisplayDeleteId { id: registry },
                    ) {
                        Ok(event) => Ok(seq![event]),
                        Err(message) => Err(message),
                    },
                )
            } else {
                (self, Ok(Seq::empty()))
            },
            _ => (self, Ok(Seq::empty())),
        }
    }
}

proof fn failed_announcements_stay(
    interfaces: Map<u32, Seq<char>>,
    registry: u32,
    known: Seq<GlobalView>,
    count: int,
)
    requires
        0 <= count <= known.len(),
        announcements(interfaces, registry, known.take(count)) is Err,
    ensures
        announcements(interfaces, registry, known) == announcements(
            interfaces,
            registry,
            known.take(count),
        ),
    decreases known.len(),
{
    if count == known.len() {
        assert(known.take(count) =~= known);
    } else {
        assert(known.drop_last().take(count) =~= known.take(count));
        failed_announcements_stay(interfaces, registry, known.drop_last(), count);
    }
}

fn announce_globals(session: &WaylandClientSession, registry: u32) -> (events: Result<
    Vec<WaylandBackendEvent>,
    String,
>)
    ensures
        events_outcome(events) == announcements(
            session@.interfaces,
            registry,
            session@.backend_globals,
        ),
{
    let ghost known = session@.backend_globals;
    let mut events: Vec<WaylandBackendEvent> = Vec::new();
    let mut index: usize = 0;
    proof {
        assert(known.take(0) =~= Seq::<GlobalView>::empty());
        assert(decode::backend_event_values(events@) =~= Seq::<BackendEventView>::empty());
    }
    while index < session.backend_globals.len()
        invariant
            index <= session.backend_globals@.len(),
            known == globals::global_values(session.backend_globals@),
            announcements(session@.interfaces, registry, known.take(index as int)) == Ok::<
                Seq<BackendEventView>,
                Seq<char>,
            >(decode::backend_event_values(events@)),
        decreases session.backend_globals@.len() - index,
    {
        let ghost before = events@;
        proof {
            assert(known.take(index + 1).drop_last() =~= known.take(index as int));
            assert(known.take(index + 1).last() == session.backend_globals@[index as int]@);
        }
        let global = &session.backend_globals[index];
        let event = GeneratedEvent::WlRegistryGlobal {
            name: global.name,
            interface: Some(global.interface.clone()),
            version: global.version,
        };
        match encode_local_event(session, registry, &event) {
            Ok(encoded) => {
                events.push(encoded);
                proof {
                    assert(decode::backend_event_values(events@) =~= decode::backend_event_values(
                        before,
                    ).push(encoded@));
                }
            },
            Err(message) => {
                proof {
                    failed_announcements_stay(session@.interfaces, registry, known, index + 1);
                }
                return Err(message);
            },
        }
        index = index + 1;
    }
    proof {
        assert(known.take(index as int) =~= known);
    }
    Ok(events)
}

/// Answers a request that the proxy answers of its own.
pub fn local_protocol_response_events(
    session: &mut WaylandClientSession,
    request: &DecodedWaylandRequest,
) -> (events: Result<Vec<WaylandBackendEvent>, String>)
    ensures
        final(session)@ =~= old(session)@.local_response(request@).0,
        events_outcome(events) == old(session)@.local_response(request@).1,
{
    let mut events: Vec<WaylandBackendEvent> = Vec::new();
    proof {
        assert(decode::backend_event_values(events@) =~= Seq::<BackendEventView>::empty());
    }
    match &request.implemented_request {
        Some(GeneratedImplementedRequest::WlDisplayGetRegistry { registry }) => {
            if session.backend.is_some() {
                return Ok(events);
            }
            session.mark_local_registry(*registry);
            announce_globals(session, *registry)
        },
        Some(GeneratedImplementedRequest::WlDisplaySync { callback }) => {
            if session.backend.is_some() {
                return Ok(events);
            }
            session.mark_local_callback(*callback);
            let done = match encode_local_event(
                session,
                *callback,
                &GeneratedEvent::WlCallbackDone { callback_data: 0 },
            ) {
                Ok(event) => event,
                Err(message) => return Err(message),
            };
            let deleted = match encode_local_event(
                session,
                1,
                &GeneratedEvent::WlDisplayDeleteId { id: *callback },
            ) {
                Ok(event) => event,
                Err(message) => return Err(message),
            };
            let ghost sent = seq![done@, deleted@];
            events.push(done);
            events.push(deleted);
            proof {
                assert(decode::backend_event_values(events@) =~= sent);
            }
            Ok(events)
        },
        Some(GeneratedImplementedRequest::WlFixesDestroyRegistry { registry }) => {
            if let Some(registry_id) = registry {
                if session.is_local_registry(*registry_id) {
                    let deleted = match encode_local_event(
                        session,
                        1,
                        &GeneratedEvent::WlDisplayDeleteId { id: *registry_id },
                    ) {
                        Ok(event) => event,
                        Err(message) => return Err(message),
                    };
                    let ghost sent = seq![deleted@];
                    events.push(deleted);
                    proof {
                        assert(decode::backend_event_values(events@) =~= sent);
                    }
                }
            }
            Ok(events)
        },
        _ => Ok(events),
    }
}

/// The client, the message and what went wrong, if anything did, after a
/// request was looked at that the tables do not describe.
pub type Undecoded = (SessionView, WireView, Option<Seq<char>>);

impl SessionView {
    /// With the descriptors in line after a message claimed its own.
    pub open spec fn after_claim(self, message_fds: Seq<u64>, expected: nat) -> Self {
        SessionView { pending_fds: fds::left_over(self.pending_fds, message_fds, expected), ..self }
    }

    /// With an object that the tables do not describe, known on both sides.
    pub open spec fn with_own_object(self, object_id: u32, interface: Seq<char>) -> Self {
        SessionView {
            backend: match self.backend {
                Some(backend) => Some(
                    BackendView {
                        interfaces: backend.interfaces.insert(object_id, interface),
                        ..backend
                    },
                ),
                None => None,
            },
            ..self.with_object(object_id, interface, 1)
        }
    }

    /// Without an object that the tables do not describe, on both sides.
    pub open spec fn without_own_object(self, object_id: u32) -> Self {
        SessionView {
            backend: match self.backend {
                Some(backend) => Some(
                    BackendView { interfaces: backend.interfaces.remove(object_id), ..backend },
                ),
                None => None,
            },
            ..self.without_object(object_id)
        }
    }

    /// After a shared-memory pool was made.
    pub open spec fn shm_pool_made(self, size: u16, message: WireView) -> Undecoded {
        match (wire::u32_arg(message.bytes, size, 8), wire::u32_arg(message.bytes, size, 12)) {
            (Err(error), _) => (self, message, Some(error)),
            (_, Err(error)) => (self, message, Some(error)),
            (Ok(pool_id), Ok(length)) => {
                let own = fds::claimed(self.pending_fds, message.fds, 1);
                let claimed = self.after_claim(message.fds, 1);
                let kept = WireView { fds: own, ..message };
                if own.len() == 0 {
                    (claimed, kept, Some("wl_shm.create_pool was missing its fd"@))
                } else {
                    (
                        claimed.with_tracker(
                            claimed.tracker.pool_created(pool_id, own[0], length as usize),
                        ).with_own_object(pool_id, "wl_shm_pool"@),
                        kept,
                        None,
                    )
                }
            },
        }
    }

    /// The words of a request to make a buffer of a shared-memory pool.
    pub open spec fn shm_buffer_words(size: u16, bytes: Seq<u8>, count: nat) -> Result<
        Seq<u32>,
        Seq<char>,
    >
        decreases count,
    {
        if count == 0 {
            Ok(Seq::empty())
        } else {
            match Self::shm_buffer_words(size, bytes, (count - 1) as nat) {
                Err(error) => Err(error),
                Ok(before) => match wire::u32_arg(bytes, size, 8 + 4 * (count - 1)) {
                    Err(error) => Err(error),
                    Ok(word) => Ok(before.push(word)),
                },
            }
        }
    }

    /// The buffer that a request makes of a shared-memory pool.
    pub open spec fn shm_buffer_asked(pool_id: u32, words: Seq<u32>) -> ShmBufferSpec {
        ShmBufferSpec {
            pool_id,
            buffer_id: words[0],
            offset: words[1],
            width: words[2] as i32,
            height: words[3] as i32,
            stride: words[4] as i32,
            format: words[5],
        }
    }

    /// After a buffer of a shared-memory pool was made.
    pub open spec fn shm_buffer_made(self, header: WaylandMessageHeader, message: WireView) -> Undecoded {
        match Self::shm_buffer_words(header.size, message.bytes, 6) {
            Err(error) => (self, message, Some(error)),
            Ok(words) => match self.tracker.shm_buffer_created(
                Self::shm_buffer_asked(header.object_id, words),
            ) {
                Err(error) => (self, message, Some(error)),
                Ok(known) => (
                    self.with_tracker(known).with_own_object(words[0], "wl_buffer"@),
                    message,
                    None,
                ),
            },
        }
    }

    /// After a request was looked at that the tables do not describe: the
    /// shared-memory requests are read by hand, and of any other the
    /// descriptors are kept for a later one.
    pub open spec fn undecoded(self, message: WireView) -> Undecoded {
        match wire::header_of(message.bytes) {
            Err(error) => (self, message, Some(error)),
            Ok(header) => {
                let other = (
                    self.after_claim(message.fds, 0),
                    WireView { fds: Seq::empty(), ..message },
                    None,
                );
                if !self.interfaces.contains_key(header.object_id) {
                    other
                } else {
                    let interface = self.interfaces[header.object_id];
                    if interface == "wl_shm"@ && header.opcode == 0 {
                        self.shm_pool_made(header.size, message)
                    } else if interface == "wl_shm_pool"@ && header.opcode == 0 {
                        self.shm_buffer_made(header, message)
                    } else if interface == "wl_shm_pool"@ && header.opcode == 1 {
                        (
                            self.with_tracker(
                                self.tracker.pool_destroyed(header.object_id),
                            ).without_own_object(header.object_id),
                            message,
                            None,
                        )
                    } else if interface == "wl_shm_pool"@ && header.opcode == 2 {
                        match wire::u32_arg(message.bytes, header.size, 8) {
                            Err(error) => (self, message, Some(error)),
                            Ok(length) => match self.tracker.pool_resized(
                                header.object_id,
                                length as usize,
                            ) {
                                Err(error) => (self, message, Some(error)),
                                Ok(known) => (self.with_tracker(known), message, None),
                            },
                        }
                    } else {
                        other
                    }
                }
            },
        }
    }
}

/// Whether a request that the tables do not describe was dealt with as expected.
pub open spec fn undecoded_ended(
    after: SessionView,
    message: WireView,
    result: Result<(), String>,
    expected: Undecoded,
) -> bool {
    &&& after =~= expected.0
    &&& message =~= expected.1
    &&& match expected.2 {
        Some(text) => result matches Err(error) && error@ == text,
        None => result is Ok,
    }
}

/// Keeps the descriptors that a request does not claim in line.
pub fn reassociate_undecoded_client_fds(
    session: &mut WaylandClientSession,
    fds: &mut Vec<u64>,
    expected_fds: usize,
)
    ensures
        final(session)@ == old(session)@.after_claim(old(fds)@, expected_fds as nat),
        final(fds)@ == fds::claimed(old(session)@.pending_fds, old(fds)@, expected_fds as nat),
{
    claim_fds(&mut session.pending_client_fds, fds, expected_fds);
}

fn track_undecoded_client_object(
    session: &mut WaylandClientSession,
    object_id: u32,
    interface: &'static str,
)
    ensures
        final(session)@ == old(session)@.with_own_object(object_id, interface@),
{
    session.track_object_interface(object_id, interface);
    match session.backend.take() {
        Some(backend) => {
            let mut backend = backend;
            backend.object_interfaces.insert(object_id, interface.to_owned());
            session.backend = Some(backend);
        },
        None => {},
    }
}

fn forget_undecoded_client_object(session: &mut WaylandClientSession, object_id: u32)
    ensures
        final(session)@ == old(session)@.without_own_object(object_id),
{
    session.remove_object(object_id);
    match session.backend.take() {
        Some(backend) => {
            let mut backend = backend;
            let _ = backend.object_interfaces.remove(object_id);
            session.backend = Some(backend);
        },
        None => {},
    }
}

fn create_shm_pool(
    session: &mut WaylandClientSession,
    message: &mut WaylandWireMessage,
    size: u16,
) -> (result: Result<(), String>)
    ensures
        undecoded_ended(
            final(session)@,
            final(message)@,
            result,
            old(session)@.shm_pool_made(size, old(message)@),
        ),
{
    let mut offset: usize = 8;
    let pool_id: u32 = match read_u32_arg(message.bytes.as_slice(), size, &mut offset) {
        Ok(value) => value,
        Err(error) => return Err(error),
    };
    let length: u32 = match read_u32_arg(message.bytes.as_slice(), size, &mut offset) {
        Ok(value) => value,
        Err(error) => return Err(error),
    };
    reassociate_undecoded_client_fds(session, &mut message.fds, 1);
    if message.fds.len() == 0 {
        return Err("wl_shm.create_pool was missing its fd".to_owned());
    }
    let fd: u64 = message.fds[0];
    session.frame_tracker.note_shm_pool_created(pool_id, fd, length as usize);
    track_undecoded_client_object(session, pool_id, "wl_shm_pool");
    Ok(())
}

fn read_shm_buffer_words(bytes: &[u8], size: u16) -> (words: Result<Vec<u32>, String>)
    ensures
        text::outcome(words) == SessionView::shm_buffer_words(size, bytes@, 6),
        words matches Ok(list) ==> list@.len() == 6,
{
    let mut words: Vec<u32> = Vec::new();
    let mut offset: usize = 8;
    while words.len() < 6
        invariant
            words@.len() <= 6,
            offset == 8 + 4 * words@.len(),
            SessionView::shm_buffer_words(size, bytes@, words@.len()) == Ok::<Seq<u32>, Seq<char>>(
                words@,
            ),
        decreases 6 - words@.len(),
    {
        match read_u32_arg(bytes, size, &mut offset) {
            Ok(word) => {
                words.push(word);
            },
            Err(error) => {
                proof {
                    failed_words_stay(size, bytes@, words@.len() + 1, 6);
                }
                return Err(error);
            },
        }
    }
    Ok(words)
}

proof fn failed_words_stay(size: u16, bytes: Seq<u8>, at: nat, count: nat)
    requires
        at <= count,
        SessionView::shm_buffer_words(size, bytes, at) is Err,
    ensures
        SessionView::shm_buffer_words(size, bytes, count) == SessionView::shm_buffer_words(
            size,
            bytes,
            at,
        ),
    decreases count,
{
    if at < count {
        failed_words_stay(size, bytes, at, (count - 1) as nat);
    }
}

fn create_shm_buffer(
    session: &mut WaylandClientSession,
    message: &WaylandWireMessage,
    header: WaylandMessageHeader,
) -> (result: Result<(), String>)
    ensures
        undecoded_ended(
            final(session)@,
            message@,
            result,
            old(session)@.shm_buffer_made(header, message@),
        ),
{
    let words = match read_shm_buffer_words(message.bytes.as_slice(), header.size) {
        Ok(words) => words,
        Err(error) => return Err(error),
    };
    match session.frame_tracker.note_shm_buffer_created(
        ShmBufferSpec {
            pool_id: header.object_id,
            buffer_id: words[0],
            offset: words[1],
            width: words[2] as i32,
            height: words[3] as i32,
            stride: words[4] as i32,
            format: words[5],
        },
    ) {
        Ok(_) => {},
        Err(error) => return Err(error),
    }
    track_undecoded_client_object(session, words[0], "wl_buffer");
    Ok(())
}

/// Deals with a request that the tables do not describe.
pub fn apply_undecoded_client_tracking(
    session: &mut WaylandClientSession,
    message: &mut WaylandWireMessage,
) -> (result: Result<(), String>)
    ensures
        undecoded_ended(
            final(session)@,
            final(message)@,
            result,
            old(session)@.undecoded(old(message)@),
        ),
{
    let header = match decode_wayland_header(message.bytes.as_slice()) {
        Ok(header) => header,
        Err(error) => return Err(error),
    };
    let (known, shm, pool): (bool, bool, bool) = match session.interface_for_object(
        header.object_id,
    ) {
        Some(interface) => (true, str_eq(interface, "wl_shm"), str_eq(interface, "wl_shm_pool")),
        None => (false, false, false),
    };
    if known && shm && header.opcode == 0 {
        return create_shm_pool(session, message, header.size);
    }
    if known && pool && header.opcode == 0 {
        return create_shm_buffer(session, message, header);
    }
    if known && pool && header.opcode == 1 {
        session.frame_tracker.note_shm_pool_destroyed(header.object_id);
        forget_undecoded_client_object(session, header.object_id);
        return Ok(());
    }
    if known && pool && header.opcode == 2 {
        let mut offset: usize = 8;
        let length: u32 = match read_u32_arg(message.bytes.as_slice(), header.size, &mut offset) {
            Ok(value) => value,
            Err(error) => return Err(error),
        };
        return session.frame_tracker.note_shm_pool_resized(header.object_id, length as usize);
    }
    reassociate_undecoded_client_fds(session, &mut message.fds, 0);
    proof {
        assert(message.fds@ =~= Seq::<u64>::empty());
    }
    Ok(())
}

/// A request before it is passed on: what it is, the message with its own
/// descriptors, what the proxy answers, and whether the compositor gets it.
pub struct BegunRequest {
    pub request: Option<DecodedWaylandRequest>,
    pub message: WaylandWireMessage,
    pub backend_events: Vec<WaylandBackendEvent>,
    pub forward: bool,
}

/// The value of a request before it is passed on.
#[verifier::ext_equal]
pub struct BegunView {
    pub request: Option<RequestView>,
    pub message: WireView,
    pub events: Seq<BackendEventView>,
    pub forward: bool,
}

/// The value of a request that may not be readable.
pub open spec fn optional_request(request: Option<DecodedWaylandRequest>) -> Option<RequestView> {
    match request {
        Some(decoded) => Some(decoded@),
        None => None,
    }
}

impl View for BegunRequest {
    type V = BegunView;

    open spec fn view(&self) -> BegunView {
        BegunView {
            request: optional_request(self.request),
            message: self.message@,
            events: decode::backend_event_values(self.backend_events@),
            forward: self.forward,
        }
    }
}

impl SessionView {
    /// Whether a request acknowledges a configure that the proxy sent of its
    /// own, which is then no longer awaited.
    pub open spec fn ack_taken(self, request: RequestView) -> (SessionView, bool) {
        match request.tracked_request {
            Some(TrackedRequestView::XdgSurfaceAckConfigure { serial }) => {
                let key = session::configure_key(request.object_id, serial);
                (
                    SessionView { configures: self.configures.remove(key), ..self },
                    self.configures.contains_key(key),
                )
            },
            _ => (self, false),
        }
    }

    /// Whether a request claims the clipboard with the serial of input that a
    /// caller sent, which the compositor does not know.
    pub open spec fn claims_by_injected_serial(self, request: RequestView) -> bool {
        &&& request.request_id == GeneratedRequestId::WlDataDeviceSetSelection
        &&& request.args.len() == 2
        &&& request.args[1] matches ArgView::Uint(serial)
        &&& self.injected.contains_key(serial)
    }

    /// After a request that the tables describe arrived. The proxy answers
    /// only where `answering`.
    pub open spec fn request_begun(self, request: RequestView, message: WireView, answering: bool) -> (
        SessionView,
        Result<BegunView, Seq<char>>,
    ) {
        let expected = fds::expected_fds(request.args);
        let kept = WireView {
            fds: fds::claimed(self.pending_fds, message.fds, expected),
            ..message
        };
        let (ready, acknowledged) = self.after_claim(message.fds, expected).ack_taken(request);
        let (answered, answer) = if answering {
            ready.local_response(request)
        } else {
            (ready, Ok(Seq::empty()))
        };
        match answer {
            Err(error) => (answered, Err(error)),
            Ok(events) => {
                let forward = events.len() == 0 && !acknowledged
                    && !self.claims_by_injected_serial(request) && answered.backend is Some;
                (
                    if forward {
                        SessionView {
                            backend: Some(answered.backend->0.after_request(request)),
                            ..answered
                        }
                    } else {
                        answered
                    },
                    Ok(BegunView { request: Some(request), message: kept, events, forward }),
                )
            },
        }
    }

    /// After a request arrived, before it is passed on.
    pub open spec fn begun(self, message: WireView, answering: bool) -> (
        SessionView,
        Result<BegunView, Seq<char>>,
    ) {
        match decode::request_of_message(self.interfaces, message.bytes) {
            Ok(request) => self.request_begun(request, message, answering),
            Err(_) => {
                let (after, kept, error) = self.undecoded(message);
                match error {
                    Some(text) => (after, Err(text)),
                    None => (
                        after,
                        Ok(
                            BegunView {
                                request: None,
                                message: kept,
                                events: Seq::empty(),
                                forward: after.backend is Some,
                            },
                        ),
                    ),
                }
            },
        }
    }

    /// After a request was noted: its objects, its windows, its buffers, its
    /// synchronisation, its colors, and what the hooks on it do.
    pub open spec fn noted(
        self,
        request: RequestView,
        message_fds: Seq<u64>,
        hooks: Seq<WaylandInterceptHook>,
    ) -> Step {
        let windows = self.objects_tracked(request).windows_tracked(request);
        if windows.1 is Some {
            windows
        } else {
            let buffers = windows.0.dmabuf_tracked(request, message_fds);
            if buffers.1 is Some {
                buffers
            } else {
                let synced = buffers.0.syncobj_tracked(request, message_fds);
                if synced.1 is Some {
                    synced
                } else {
                    match request.hook_request {
                        Some(hook) => {
                            let known = synced.0.tracker;
                            let colored = TrackerView {
                                colors: known.colors.after(request.object_id, hook),
                                ..known
                            };
                            (
                                synced.0.with_tracker(
                                    hooked_all(colored, hooks, request.object_id, hook),
                                ),
                                None,
                            )
                        },
                        None => synced,
                    }
                }
            }
        }
    }

    /// After events on their way to the client were noted.
    pub open spec fn events_noted(self, events: Seq<BackendEventView>) -> Step
        decreases events.len(),
    {
        if events.len() == 0 {
            (self, None)
        } else {
            let before = self.events_noted(events.drop_last());
            if before.1 is Some {
                before
            } else {
                match events.last().decoded {
                    Some(event) => before.0.client_event_tracked(event),
                    None => before,
                }
            }
        }
    }

    /// With the globals of the compositor that are passed on.
    pub open spec fn globals_refreshed(self) -> Self {
        SessionView {
            backend_globals: match self.backend {
                Some(backend) => globals::filtered(backend.globals),
                None => self.backend_globals,
            },
            ..self
        }
    }

    /// After a request was passed on, where the compositor gets it.
    pub open spec fn finished(self, begun: BegunView, hooks: Seq<WaylandInterceptHook>) -> Step {
        let noted = match begun.request {
            Some(request) => self.noted(request, begun.message.fds, hooks),
            None => (self, None),
        };
        if noted.1 is Some {
            noted
        } else {
            let told = noted.0.events_noted(begun.events);
            if told.1 is Some {
                told
            } else {
                let refreshed = if begun.forward {
                    told.0.globals_refreshed()
                } else {
                    told.0
                };
                (SessionView { raw_forward_only: false, ..refreshed }, None)
            }
        }
    }
}

/// A configure that the proxy sent of its own is acknowledged to the proxy
/// alone: the compositor does not get the acknowledgement, and one more
/// acknowledgement of it would go to the compositor.
pub proof fn own_configure_is_acknowledged_once(
    client: SessionView,
    request: RequestView,
    message: WireView,
    answering: bool,
    serial: u32,
)
    requires
        request.request_id == GeneratedRequestId::XdgSurfaceAckConfigure,
        request.tracked_request == Some(TrackedRequestView::XdgSurfaceAckConfigure { serial }),
        request.implemented_request == Some(
            GeneratedImplementedRequest::XdgSurfaceAckConfigure { serial },
        ),
        client.backend is Some,
        client.configures.contains_key(session::configure_key(request.object_id, serial)),
    ensures
        ({
            let (after, first) = client.request_begun(request, message, answering);
            let (_, second) = after.request_begun(request, message, answering);
            &&& first matches Ok(begun) && !begun.forward
            &&& second matches Ok(begun) && begun.forward
        }),
{
    let expected = fds::expected_fds(request.args);
    let key = session::configure_key(request.object_id, serial);
    let ready = client.after_claim(message.fds, expected).ack_taken(request).0;
    let (after, first) = client.request_begun(request, message, answering);
    assert(ready.local_response(request).0 == ready);
    assert(after == ready);
    assert(!after.configures.contains_key(key));
    let again = after.after_claim(message.fds, expected).ack_taken(request).0;
    assert(again.local_response(request).0 == again);
    assert(!after.claims_by_injected_serial(request));
}

/// A claim of the clipboard by the serial of input that a caller sent does not reach
/// the compositor, which could only refuse it; a claim by any other serial does.
pub proof fn injected_claims_stay_with_the_proxy(
    client: SessionView,
    request: RequestView,
    message: WireView,
    answering: bool,
    source: ArgView,
    serial: u32,
)
    requires
        request.request_id == GeneratedRequestId::WlDataDeviceSetSelection,
        request.args == seq![source, ArgView::Uint(serial)],
        request.tracked_request is None,
        request.implemented_request is None,
        client.backend is Some,
    ensures
        client.request_begun(request, message, answering).1 matches Ok(begun) && begun.forward
            == !client.injected.contains_key(serial),
{
}

fn claims_by_injected(session: &WaylandClientSession, request: &DecodedWaylandRequest) -> (claims:
    bool)
    ensures
        claims == session@.claims_by_injected_serial(request@),
{
    match request.request_id {
        GeneratedRequestId::WlDataDeviceSetSelection => {
            if request.args.len() != 2 {
                return false;
            }
            match &request.args[1] {
                DecodedWaylandArg::Uint(serial) => session.injected_serials.contains(*serial),
                _ => false,
            }
        },
        _ => false,
    }
}

fn take_ack(session: &mut WaylandClientSession, request: &DecodedWaylandRequest) -> (taken: bool)
    ensures
        final(session)@ =~= old(session)@.ack_taken(request@).0,
        taken == old(session)@.ack_taken(request@).1,
{
    match &request.tracked_request {
        Some(GeneratedTrackedRequest::XdgSurfaceAckConfigure { serial }) => {
            session.synthetic_configures.remove(
                configure_number(request.object_id, *serial),
            ).is_some()
        },
        _ => false,
    }
}

/// Gives a request the descriptors that it carries.
pub fn reassociate_client_fds(
    session: &mut WaylandClientSession,
    request: &DecodedWaylandRequest,
    fds: &mut Vec<u64>,
)
    ensures
        final(session)@ == old(session)@.after_claim(old(fds)@, fds::expected_fds(request@.args)),
        final(fds)@ == fds::claimed(
            old(session)@.pending_fds,
            old(fds)@,
            fds::expected_fds(request@.args),
        ),
{
    reassociate_fds(&mut session.pending_client_fds, request.args.as_slice(), fds);
}

fn begin_decoded_request(
    session: &mut WaylandClientSession,
    registry: &WaylandProtocolRegistry,
    request: DecodedWaylandRequest,
    message: WaylandWireMessage,
    answering: bool,
) -> (begun: Result<BegunRequest, String>)
    ensures
        final(session)@ =~= old(session)@.request_begun(request@, message@, answering).0,
        text::outcome(begun) == old(session)@.request_begun(request@, message@, answering).1,
{
    let mut message = message;
    let claimed: bool = claims_by_injected(session, &request);
    reassociate_client_fds(session, &request, &mut message.fds);
    let acknowledged: bool = take_ack(session, &request);
    let backend_events = if answering {
        match local_protocol_response_events(session, &request) {
            Ok(events) => events,
            Err(error) => return Err(error),
        }
    } else {
        Vec::new()
    };
    proof {
        assert(!answering ==> decode::backend_event_values(backend_events@) =~= Seq::<
            BackendEventView,
        >::empty());
    }
    let forward: bool = backend_events.len() == 0 && !acknowledged && !claimed
        && session.backend.is_some();
    if forward {
        if let Some(backend) = session.backend.take() {
            let mut backend = backend;
            backend.track_request_objects(&registry.generated, &request);
            session.backend = Some(backend);
        }
    }
    Ok(BegunRequest { request: Some(request), message, backend_events, forward })
}

/// Takes in a request, before it is passed on.
pub fn begin_request(
    session: &mut WaylandClientSession,
    registry: &WaylandProtocolRegistry,
    message: WaylandWireMessage,
    answering: bool,
) -> (begun: Result<BegunRequest, String>)
    ensures
        final(session)@ =~= old(session)@.begun(message@, answering).0,
        text::outcome(begun) == old(session)@.begun(message@, answering).1,
{
    match decode_wayland_request(session, message.bytes.as_slice()) {
        Ok(request) => begin_decoded_request(session, registry, request, message, answering),
        Err(_) => {
            let mut message = message;
            match apply_undecoded_client_tracking(session, &mut message) {
                Ok(_) => {},
                Err(error) => return Err(error),
            }
            let forward: bool = session.backend.is_some();
            let begun = BegunRequest {
                request: None,
                message,
                backend_events: Vec::new(),
                forward,
            };
            proof {
                assert(begun@.events =~= Seq::<BackendEventView>::empty());
            }
            Ok(begun)
        },
    }
}

fn note_request(
    session: &mut WaylandClientSession,
    registry: &WaylandProtocolRegistry,
    request: &DecodedWaylandRequest,
    fds: &[u64],
) -> (result: Result<(), String>)
    ensures
        session::ended(
            final(session)@,
            result,
            old(session)@.noted(request@, fds@, hooks_on(*registry, request@)),
        ),
{
    apply_object_tracking(session, registry, request);
    match apply_window_tracking(session, request) {
        Ok(_) => {},
        Err(error) => return Err(error),
    }
    match apply_dmabuf_tracking(session, request, fds) {
        Ok(_) => {},
        Err(error) => return Err(error),
    }
    match apply_syncobj_tracking(session, request, fds) {
        Ok(_) => {},
        Err(error) => return Err(error),
    }
    if let Some(hook_request) = &request.hook_request {
        session.frame_tracker.note_color_request(request.object_id, hook_request);
        apply_intercepts(
            session,
            registry.intercepts_for(hook_request.id()),
            request.object_id,
            hook_request,
        );
    }
    Ok(())
}

/// The hooks on a request.
pub open spec fn hooks_on(registry: WaylandProtocolRegistry, request: RequestView) -> Seq<
    WaylandInterceptHook,
> {
    match request.hook_request {
        Some(hook) => registry.intercepts_of(messages::hook_id(hook)),
        None => Seq::empty(),
    }
}

/// The hooks on a request that may not be readable.
pub open spec fn hooks_on_begun(registry: WaylandProtocolRegistry, begun: BegunView) -> Seq<
    WaylandInterceptHook,
> {
    match begun.request {
        Some(request) => hooks_on(registry, request),
        None => Seq::empty(),
    }
}

proof fn failed_event_stays(client: SessionView, events: Seq<BackendEventView>, count: int)
    requires
        0 <= count <= events.len(),
        client.events_noted(events.take(count)).1 is Some,
    ensures
        client.events_noted(events) == client.events_noted(events.take(count)),
    decreases events.len(),
{
    if count == events.len() {
        assert(events.take(count) =~= events);
    } else {
        assert(events.drop_last().take(count) =~= events.take(count));
        failed_event_stays(client, events.drop_last(), count);
    }
}

/// Notes events on their way to the client.
pub fn note_events(session: &mut WaylandClientSession, events: &Vec<WaylandBackendEvent>) -> (result:
    Result<(), String>)
    ensures
        session::ended(
            final(session)@,
            result,
            old(session)@.events_noted(decode::backend_event_values(events@)),
        ),
{
    let ghost before = session@;
    let ghost values = decode::backend_event_values(events@);
    let mut index: usize = 0;
    proof {
        assert(values.take(0) =~= Seq::<BackendEventView>::empty());
    }
    while index < events.len()
        invariant
            index <= events@.len(),
            before == old(session)@,
            values == decode::backend_event_values(events@),
            before.events_noted(values.take(index as int)) == (session@, None::<Seq<char>>),
        decreases events@.len() - index,
    {
        proof {
            assert(values.take(index + 1).drop_last() =~= values.take(index as int));
            assert(values.take(index + 1).last() == events@[index as int]@);
        }
        if let Some(decoded) = &events[index].decoded {
            match apply_client_event_tracking(session, decoded) {
                Ok(_) => {},
                Err(error) => {
                    proof {
                        failed_event_stays(before, values, index + 1);
                    }
                    return Err(error);
                },
            }
        }
        index = index + 1;
    }
    proof {
        assert(values.take(index as int) =~= values);
    }
    Ok(())
}

/// Refreshes the globals of the compositor that are passed on.
pub fn refresh_globals(session: &mut WaylandClientSession)
    ensures
        final(session)@ == old(session)@.globals_refreshed(),
{
    let refreshed: Option<Vec<WaylandGlobalInfo>> = match &session.backend {
        Some(backend) => Some(filtered_backend_globals(backend.globals.as_slice())),
        None => None,
    };
    if let Some(passed_on) = refreshed {
        session.backend_globals = passed_on;
    }
}

/// What came of a request.
pub struct IngestedWaylandRequest {
    pub request: Option<DecodedWaylandRequest>,
    pub backend_events: Vec<WaylandBackendEvent>,
}

/// Finishes a request, after it was passed on where the compositor gets it.
pub fn finish_request(
    session: &mut WaylandClientSession,
    registry: &WaylandProtocolRegistry,
    begun: BegunRequest,
) -> (ingested: Result<IngestedWaylandRequest, String>)
    ensures
        ({
            let expected = old(session)@.finished(begun@, hooks_on_begun(*registry, begun@));
            &&& final(session)@ =~= expected.0
            &&& match expected.1 {
                Some(message) => ingested matches Err(error) && error@ == message,
                None => ingested matches Ok(done) && done.request == begun.request
                    && done.backend_events == begun.backend_events,
            }
        }),
{
    if let Some(request) = &begun.request {
        match note_request(session, registry, request, begun.message.fds.as_slice()) {
            Ok(_) => {},
            Err(error) => return Err(error),
        }
    }
    match note_events(session, &begun.backend_events) {
        Ok(_) => {},
        Err(error) => return Err(error),
    }
    if begun.forward {
        refresh_globals(session);
    }
    session.raw_forward_only = false;
    Ok(
        IngestedWaylandRequest { request: begun.request, backend_events: begun.backend_events },
    )
}

} // verus!
