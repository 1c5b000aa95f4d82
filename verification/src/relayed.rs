//! What comes from the compositor to a client, and how clients come and go.

use crate::clients;
use crate::clients::CourseView;
use crate::decode;
use crate::decode::{BackendEventView, DecodedEventView, WireView};
use crate::dmabuf;
use crate::fds;
use crate::globals;
use crate::globals::GlobalView;
use crate::launch;
use crate::launch::EndpointView;
use crate::messages::EventView;
use crate::relay;
use crate::relay::{DiscoveryView, PreparedView};
use crate::server::ServerView;
use crate::session;
use crate::session::{BackendView, SessionView};
use crate::snapshot;
use crate::sync;
use crate::table;
use crate::text;
use crate::wire;
use vstd::prelude::*;

verus! {

/// An event of the compositor is taken in byte by byte, with as many of the descriptors
/// in line as it takes, the first ones first; none is lost and none is made up.
pub proof fn events_are_taken_in_whole(backend: BackendView, message: WireView)
    ensures
        ({
            let line = backend.pending_fds + message.fds;
            let (after, result) = backend.received(message);
            result matches Ok(event) ==> {
                &&& event.encoded.bytes == message.bytes
                &&& event.encoded.fds + after.pending_fds == line
                &&& event.decoded matches Some(decoded) ==> {
                    let wanted = fds::expected_fds(decoded.args);
                    &&& decode::event_of_message(backend.interfaces, message.bytes) == Ok::<
                        DecodedEventView,
                        Seq<char>,
                    >(decoded)
                    &&& event.encoded.fds.len() == (if wanted < line.len() {
                        wanted
                    } else {
                        line.len()
                    })
                }
                &&& event.decoded is None ==> event.encoded.fds.len() == 0
            }
        }),
{
    let line = backend.pending_fds + message.fds;
    assert(line.take(0) + line.skip(0) =~= line);
    assert(line.skip(0) =~= line);
    assert(Seq::<u64>::empty() + line =~= line);
    if let Ok(event) = decode::event_of_message(backend.interfaces, message.bytes) {
        let count = fds::taken(fds::expected_fds(event.args), line.len()) as int;
        assert(line.take(count) + line.skip(count) =~= line);
    }
}

/// Events are taken from the compositor in the order in which they are read, each read
/// giving one, and no more than there is room for.
pub proof fn events_keep_their_order(
    backend: BackendView,
    reads: Seq<Result<WireView, Seq<char>>>,
    at: int,
)
    ensures
        backend.drained(reads, 0, Seq::empty()).1 matches Ok(events) ==> {
            &&& events.len() <= reads.len()
            &&& events.len() <= 1024
            &&& 0 <= at < events.len() ==> (reads[at] matches Ok(message)
                && events[at].encoded.bytes == message.bytes)
        },
{
    drained_in_order(backend, reads, 0, Seq::empty(), at);
}

proof fn drained_in_order(
    backend: BackendView,
    reads: Seq<Result<WireView, Seq<char>>>,
    index: int,
    events: Seq<BackendEventView>,
    at: int,
)
    requires
        index == events.len(),
        index <= reads.len(),
        events.len() <= 1024,
        0 <= at < events.len() ==> (reads[at] matches Ok(message) && events[at].encoded.bytes
            == message.bytes),
    ensures
        backend.drained(reads, index, events).1 matches Ok(found) ==> {
            &&& found.len() <= reads.len()
            &&& found.len() <= 1024
            &&& 0 <= at < found.len() ==> (reads[at] matches Ok(message) && found[at].encoded.bytes
                == message.bytes)
        },
    decreases reads.len() - index,
{
    if index < reads.len() && events.len() < 1024 {
        if let Ok(message) = reads[index] {
            let (after, result) = backend.received(message);
            if let Ok(event) = result {
                drained_in_order(after, reads, index + 1, events.push(event), at);
            }
        }
    }
}

/// An event reaches the client as the compositor sent it, but for the table of formats
/// and the lists of places in it.
pub proof fn events_are_passed_on_unchanged(
    client: SessionView,
    prepared: PreparedView,
    contents: Result<Seq<u8>, Seq<char>>,
    table_fd: u64,
)
    requires
        prepared.event.decoded matches Some(decoded) ==> !(
        decoded.generated_event is ZwpLinuxDmabufFeedbackV1FormatTable) && !(
        decoded.generated_event is ZwpLinuxDmabufFeedbackV1TrancheFormats),
    ensures
        client.completed(prepared, contents, table_fd).1 matches Ok(told) ==> told.event
            == prepared.event && told.table is None,
{
}

/// Nothing is kept from a client but the announcement of a global that is not supported
/// and of a format of which no screenshot can be made.
pub proof fn nothing_else_is_kept_back(event: BackendEventView)
    ensures
        relay::kept_back(event) ==> (event.decoded matches Some(decoded) && match decoded.generated_event {
            EventView::WlRegistryGlobal { interface: Some(interface), .. } => !globals::supported(
                interface,
            ),
            EventView::ZwpLinuxDmabufV1Format { format } => dmabuf::vk_format(format) is None,
            EventView::ZwpLinuxDmabufV1Modifier { format, .. } => dmabuf::vk_format(format) is None,
            _ => false,
        }),
        event.decoded matches Some(decoded) ==> (decoded.generated_event matches EventView::WlRegistryGlobal {
            interface: Some(interface),
            ..
        } ==> (relay::kept_back(event) <==> !globals::supported(interface))),
{
}

/// A global is supported where it is shared memory or the tables describe it, unless it
/// is one of those that take windows out of the proxy's hands.
pub proof fn supported_means_described(interface: Seq<char>)
    ensures
        globals::supported(interface) ==> interface != "org_kde_kwin_server_decoration_manager"@
            && interface != "wp_color_representation_manager_v1"@ && interface
            != "xdg_activation_v1"@ && (interface == "wl_shm"@
            || crate::tables::interface_named(interface) is Some),
        interface != "org_kde_kwin_server_decoration_manager"@ && interface
            != "wp_color_representation_manager_v1"@ && interface != "xdg_activation_v1"@
            && crate::tables::interface_named(interface) is Some ==> globals::supported(interface),
        globals::supported("wl_shm"@),
{
    reveal_strlit("wl_shm");
    reveal_strlit("org_kde_kwin_server_decoration_manager");
    reveal_strlit("wp_color_representation_manager_v1");
    reveal_strlit("xdg_activation_v1");
    assert("wl_shm"@.len() == 6);
    assert("org_kde_kwin_server_decoration_manager"@.len() == 38);
    assert("wp_color_representation_manager_v1"@.len() == 34);
    assert("xdg_activation_v1"@.len() == 17);
}

/// The globals of a compositor are those that it announces, in its order, each with the
/// number, the interface and the version that it announces, until its callback is done.
pub proof fn announced_globals_are_collected(
    found: DiscoveryView,
    event: DecodedEventView,
    name: u32,
    interface: Seq<char>,
    version: u32,
)
    ensures
        event.generated_event == (EventView::WlRegistryGlobal {
            name,
            interface: Some(interface),
            version,
        }) ==> {
            let after = found.after_event(event).globals;
            &&& after.len() == found.globals.len() + 1
            &&& after.drop_last() == found.globals
            &&& after.last().name == name
            &&& after.last().interface == interface
            &&& after.last().version == version
        },
        !(event.generated_event is WlRegistryGlobal) ==> found.after_event(event).globals
            == found.globals,
        DiscoveryView::ends(event) <==> event.object_id == 3 && event.event_name
            == "wl_callback.done"@,
        DiscoveryView::begun().globals.len() == 0,
{
    assert(found.globals.push(GlobalView { name, interface, version }).drop_last()
        =~= found.globals);
}

/// A client that arrives gets a number of its own, is offered what the compositor
/// offers as far as it is supported, or what the proxy offers itself where the
/// compositor offers nothing or is not there, and leaves the other clients alone. That
/// it came is noted last.
pub proof fn arrival_is_noted(
    proxy: ServerView,
    own: Seq<GlobalView>,
    backend: Result<BackendView, Seq<char>>,
    now: u64,
    other: u64,
)
    requires
        proxy.next_client_id < u64::MAX,
        other != proxy.next_client_id + 1,
    ensures
        ({
            let after = proxy.registered(own, backend, now);
            let client_id = (proxy.next_client_id + 1) as u64;
            let client = after.sessions[client_id];
            let entry = after.history.last();
            &&& after.running
            &&& after.next_client_id == client_id
            &&& after.sessions.contains_key(client_id)
            &&& client.client_id == client_id
            &&& after.sessions.contains_key(other) == proxy.sessions.contains_key(other)
            &&& proxy.sessions.contains_key(other) ==> after.sessions[other]
                == proxy.sessions[other]
            &&& match backend {
                Ok(connection) => client.backend == Some(connection) && after.last_error is None
                    && entry.detail is None,
                Err(message) => client.backend is None && after.last_error == Some(message)
                    && entry.detail is Some,
            }
            &&& client.backend_globals == (match backend {
                Ok(connection) => {
                    let offered = globals::filtered(connection.globals);
                    if offered.len() > 0 {
                        offered
                    } else {
                        own
                    }
                },
                Err(_) => own,
            })
            &&& entry.timestamp_unix_ms == now
            &&& entry.event == "accepted"@
            &&& entry.client_id == Some(client_id)
            &&& client.tracker.windows.dom() == Set::<u64>::empty()
            &&& client.next_serial == 1
            &&& client.keymap is None
        }),
{
}

/// A client that leaves takes nothing with it that is not its own, and that it left is
/// noted last, with what is said of it.
pub proof fn departure_is_noted(
    proxy: ServerView,
    client_id: u64,
    detail: Seq<char>,
    now: u64,
    other: u64,
)
    requires
        other != client_id,
    ensures
        ({
            let after = proxy.client_finished(client_id, detail, now);
            let entry = after.history.last();
            &&& !after.sessions.contains_key(client_id)
            &&& after.sessions.contains_key(other) == proxy.sessions.contains_key(other)
            &&& proxy.sessions.contains_key(other) ==> after.sessions[other]
                == proxy.sessions[other]
            &&& proxy.sessions.contains_key(other) && proxy.running ==> after.running
            &&& entry.timestamp_unix_ms == now
            &&& entry.event == "closed"@
            &&& entry.client_id == Some(client_id)
            &&& entry.detail == Some(detail)
        }),
        ({
            let after = proxy.accept_failed(detail, now);
            let entry = after.history.last();
            &&& after.sessions == proxy.sessions
            &&& after.last_error == Some(detail)
            &&& entry.timestamp_unix_ms == now
            &&& entry.event == "accept_failed"@
            &&& entry.client_id is None
            &&& entry.detail == Some(detail)
        }),
{
    let left = proxy.sessions.remove(client_id);
    if proxy.sessions.contains_key(other) {
        assert(left.dom().contains(other));
    }
}

/// A request of a client concerns that client alone, and one of a client that is not
/// known is refused.
pub proof fn clients_are_kept_apart(
    proxy: ServerView,
    client_id: u64,
    message: WireView,
    now: u64,
    other: u64,
)
    requires
        other != client_id,
    ensures
        ({
            let (after, begun) = proxy.request_taken(client_id, message, now);
            &&& after.sessions.contains_key(other) == proxy.sessions.contains_key(other)
            &&& proxy.sessions.contains_key(other) ==> after.sessions[other].tracker
                == proxy.sessions[other].tracker && after.sessions[other].pending_fds
                == proxy.sessions[other].pending_fds && after.sessions[other].interfaces
                == proxy.sessions[other].interfaces
            &&& !proxy.sessions.contains_key(client_id) ==> begun is Err
            &&& after.history == proxy.history
        }),
{
}

/// What goes wrong with a client's connection ends it unless it is nothing but a wait
/// that took too long, and is an error unless the client left.
pub proof fn trouble_has_its_course(error: Seq<char>)
    ensures
        clients::client_course(error) is Continue <==> relay::says_timeout(error),
        clients::client_course(error) is Left <==> !relay::says_timeout(error)
            && relay::says_disconnect(error),
        clients::client_course(error) is Failed <==> !relay::says_timeout(error)
            && !relay::says_disconnect(error),
        clients::client_course(error) matches CourseView::Left(said) ==> said == error,
        clients::client_course(error) matches CourseView::Failed(said) ==> said == error,
{
}

/// What is configured holds unless it is blank.
pub proof fn configuration_holds(value: Option<Seq<char>>, usual: Seq<char>)
    ensures
        value is None ==> launch::configured(value, usual) == usual,
        value matches Some(own) ==> (launch::blank(own) ==> launch::configured(value, usual)
            == usual) && (!launch::blank(own) ==> launch::configured(value, usual) == own),
{
}

/// A caller can connect exactly where the endpoint was not shut down, still accepts,
/// and is a socket; otherwise there is something to say.
pub proof fn trouble_with_the_endpoint_is_told(
    endpoint: EndpointView,
    startup_error: Option<Seq<char>>,
)
    ensures
        endpoint.error() is None <==> !endpoint.shut_down && !endpoint.accept_loop_finished
            && endpoint.is_socket == Ok::<bool, Seq<char>>(true),
        snapshot::transport_error(Some(endpoint), startup_error) == endpoint.error(),
        snapshot::transport_error(None, startup_error) is Some,
        startup_error matches Some(message) ==> snapshot::transport_error(None, startup_error)
            == Some(message),
        endpoint.preflight().endpoint_exists == (endpoint.is_socket is Ok),
        endpoint.preflight().accept_loop_running == (!endpoint.shut_down
            && !endpoint.accept_loop_finished),
{
}

/// A wait ends as long after now as it may take, where that can be counted in
/// nanoseconds, and is refused otherwise.
pub proof fn wait_ends_after_its_time(seconds: i64, nanoseconds: i64, timeout: u128)
    ensures
        sync::wait_end(seconds, nanoseconds, timeout) matches Ok(end) ==> end - timeout == seconds
            * 1_000_000_000 + nanoseconds,
        sync::wait_end(seconds, nanoseconds, timeout) is Err <==> !(i64::MIN <= seconds
            * 1_000_000_000 + nanoseconds + timeout <= i64::MAX),
{
    assert(-0x8000_0000_0000_0000 * 1_000_000_000 <= seconds * 1_000_000_000);
}

/// Descriptors that come with an event that cannot be read are trouble unless they may
/// belong to a later one, as they do with the announcement of a format of shared
/// memory.
pub proof fn stray_descriptors_are_trouble(backend: BackendView, message: WireView)
    ensures
        message.fds.len() == 0 ==> backend.stray_fds(message) is None,
        message.fds.len() > 0 ==> (backend.stray_fds(message) is None <==> (wire::header_of(
            message.bytes,
        ) matches Ok(header) && header.opcode == 0 && backend.interfaces.contains_key(
            header.object_id,
        ) && backend.interfaces[header.object_id] == "wl_shm"@)),
{
}

/// A socket goes by its own path where that starts at the root, and lies in the runtime
/// directory otherwise, which there has to be.
pub proof fn sockets_lie_where_they_say(socket: Seq<char>, has_runtime_dir: bool)
    ensures
        ({
            let place = launch::socket_place(socket, has_runtime_dir);
            let rooted = socket.len() > 0 && socket[0] == '/';
            &&& rooted ==> place == Ok::<launch::SocketPlace, Seq<char>>(
                launch::SocketPlace::Absolute,
            )
            &&& !rooted && has_runtime_dir ==> place == Ok::<launch::SocketPlace, Seq<char>>(
                launch::SocketPlace::InRuntimeDir,
            )
            &&& !rooted && !has_runtime_dir ==> place is Err
        }),
{
}

/// A new endpoint takes the place of an old one without trouble exactly where it can be
/// set up and connected to; where it cannot be set up, that is told.
pub proof fn replacement_is_told(
    old_endpoint: Option<EndpointView>,
    new_endpoint: Result<EndpointView, Seq<char>>,
)
    ensures
        new_endpoint matches Ok(endpoint) ==> clients::replacement_error(old_endpoint, new_endpoint)
            == endpoint.error(),
        new_endpoint is Err ==> clients::replacement_error(old_endpoint, new_endpoint) is Some,
        new_endpoint matches Err(error) ==> (old_endpoint is None ==> clients::replacement_error(
            old_endpoint,
            new_endpoint,
        ) == Some(error)),
{
}

/// A client is offered what the compositor offers at the time, as far as it is
/// supported.
pub proof fn offers_are_kept_current(client: SessionView, global: GlobalView)
    ensures
        client.backend matches Some(backend) ==> (
        client.globals_refreshed().backend_globals.contains(global) <==> backend.globals.contains(
            global,
        ) && globals::supported(global.interface)),
        client.backend is None ==> client.globals_refreshed() == client,
{
    if let Some(backend) = client.backend {
        globals::passed_on_globals_are_supported(backend.globals, global);
    }
}

/// The search for globals goes on until all were announced or nothing more arrives in
/// time, and fails where the connection or a message does.
pub proof fn search_ends_when_all_is_told(found: DiscoveryView, read: Result<Seq<u8>, Seq<char>>)
    ensures
        ({
            let (after, ended) = found.stepped(read);
            &&& read matches Err(error) ==> after == found && (ended is Ok
                <==> relay::says_timeout(error)) && (ended matches Ok(done) ==> done) && (
            ended matches Err(said) ==> said == error)
            &&& read matches Ok(bytes) ==> (decode::event_of_message(
                found.interfaces,
                bytes,
            ) matches Ok(event) ==> (ended matches Ok(done) && (done <==> event.object_id == 3
                && event.event_name == "wl_callback.done"@) && after == found.after_event(event)))
            &&& read matches Ok(bytes) ==> (decode::event_of_message(
                found.interfaces,
                bytes,
            ) is Err ==> ended is Err && after == found)
        }),
{
}

/// What a client is about to be told is what was read from the compositor, and what the
/// caller of the proxy gets to see of it are the events that were read, no more and no
/// fewer.
pub proof fn events_come_as_they_are_read(
    client: SessionView,
    backend: BackendView,
    message: WireView,
    reads: Seq<Result<WireView, Seq<char>>>,
)
    requires
        client.backend == Some(backend),
    ensures
        client.prepared(message).1 matches Ok(prepared) ==> (backend.received(message).1 matches Ok(
            event,
        ) && prepared.event == event && prepared.event.encoded.bytes == message.bytes),
        client.polled(reads).1 matches Ok(events) ==> backend.drained(reads, 0, Seq::empty()).1
            == Ok::<Seq<BackendEventView>, Seq<char>>(events),
{
    events_are_taken_in_whole(backend, message);
}

/// An event that is passed on to the client has, by then, the effect that it has on
/// what is known of the client's windows and of its keyboard.
pub proof fn events_have_their_effect(
    client: SessionView,
    prepared: PreparedView,
    contents: Result<Seq<u8>, Seq<char>>,
    table_fd: u64,
    event: DecodedEventView,
)
    requires
        prepared.event.decoded == Some(event),
        !(event.generated_event is WlKeyboardKeymap),
        !(event.generated_event is ZwpLinuxDmabufFeedbackV1FormatTable),
        !(event.generated_event is ZwpLinuxDmabufFeedbackV1TrancheFormats),
    ensures
        ({
            let (after, told) = client.completed(prepared, contents, table_fd);
            let (noted, trouble) = client.client_event_tracked(event);
            &&& told is Ok <==> trouble is None
            &&& after.tracker == noted.tracker
            &&& after.interfaces == noted.interfaces
            &&& after.layout_group == noted.layout_group
            &&& after.mods_depressed == noted.mods_depressed
            &&& after.mods_latched == noted.mods_latched
            &&& after.mods_locked == noted.mods_locked
        }),
{
}

/// A key map that is passed on to the client is the client's key map from then on.
pub proof fn key_maps_have_their_effect(
    client: SessionView,
    prepared: PreparedView,
    contents: Result<Seq<u8>, Seq<char>>,
    table_fd: u64,
    event: DecodedEventView,
)
    requires
        prepared.event.decoded == Some(event),
        event.generated_event is WlKeyboardKeymap,
    ensures
        ({
            let (after, told) = client.completed(prepared, contents, table_fd);
            told is Ok ==> (client.keymap_noted(event, contents) matches Ok(mapped) && after.keymap
                == mapped.keymap)
        }),
{
    if let Ok(mapped) = client.keymap_noted(event, contents) {
        made_objects_keep_the_key_map(
            mapped,
            event.arg_specs,
            event.args,
            mapped.version(event.object_id),
            decode::common(event.arg_specs, event.args),
        );
    }
}

proof fn made_objects_keep_the_key_map(
    client: SessionView,
    specs: Seq<wire::GeneratedArgSpec>,
    args: Seq<wire::ArgView>,
    version: u32,
    count: nat,
)
    ensures
        client.with_made(specs, args, version, count).keymap == client.keymap,
    decreases count,
{
    if count > 0 {
        made_objects_keep_the_key_map(client, specs, args, version, (count - 1) as nat);
    }
}

/// What goes wrong with a connection is remembered with the client that it went wrong
/// with and what was said, unless the client left or there was nothing but a wait.
pub proof fn trouble_is_remembered(proxy: ServerView, client_id: u64, error: Seq<char>)
    requires
        !relay::says_timeout(error),
        !relay::says_disconnect(error),
    ensures
        ({
            let after = proxy.client_read_failed(client_id, error);
            &&& after.last_error == Some(
                "client "@ + text::decimal(client_id as nat) + " read failed: "@ + error,
            )
            &&& after.sessions == proxy.sessions
        }),
        proxy.relay_send_failed(client_id, error).last_error == Some(
            "client "@ + text::decimal(client_id as nat) + " backend event forward failed: "@
                + error,
        ),
        proxy.client_exited(error).last_error == Some("Wayland proxy client exited: "@ + error),
        !text::occurs_in("backend Wayland stream reached EOF"@, error) ==> proxy.relay_read_failed(
            client_id,
            error,
        ).last_error == Some(
            "client "@ + text::decimal(client_id as nat) + " backend read failed: "@ + error,
        ),
{
}

/// The interfaces that callers are told of are those that the proxy has of its own,
/// shared memory, and those that any client is offered.
pub proof fn interfaces_are_all_told(proxy: ServerView, interface: Seq<char>)
    requires
        proxy.sessions.dom().finite(),
    ensures
        proxy.all_interfaces().contains(interface) <==> (interface == "wl_shm"@
            || snapshot::own_interfaces(proxy.registry.own_globals()).contains(interface)
            || exists|client_id: u64| #[trigger]
            proxy.sessions.contains_key(client_id) && snapshot::interfaces_of(
                proxy.sessions[client_id].backend_globals,
            ).contains(interface)),
{
    let ids = table::in_order(proxy.sessions.dom());
    table::keys_have_an_order(proxy.sessions.dom());
    offers_are_gathered(proxy, ids, interface);
    assert forall|client_id: u64| proxy.sessions.contains_key(client_id) implies ids.contains(
        client_id,
    ) by {
        assert(ids.to_set().contains(client_id));
    }
    if snapshot::offered_to(proxy.sessions, ids).contains(interface) {
        let i = choose|i: int|
            0 <= i < ids.len() && snapshot::interfaces_of(
                proxy.sessions[#[trigger] ids[i]].backend_globals,
            ).contains(interface);
        assert(ids.to_set().contains(ids[i]));
        assert(proxy.sessions.contains_key(ids[i]));
    }
    if exists|client_id: u64| #[trigger]
        proxy.sessions.contains_key(client_id) && snapshot::interfaces_of(
            proxy.sessions[client_id].backend_globals,
        ).contains(interface) {
        let client_id = choose|client_id: u64| #[trigger]
            proxy.sessions.contains_key(client_id) && snapshot::interfaces_of(
                proxy.sessions[client_id].backend_globals,
            ).contains(interface);
        assert(ids.contains(client_id));
        let i = choose|i: int| 0 <= i < ids.len() && ids[i] == client_id;
        assert(snapshot::interfaces_of(proxy.sessions[ids[i]].backend_globals).contains(interface));
    }
}

proof fn offers_are_gathered(proxy: ServerView, ids: Seq<u64>, interface: Seq<char>)
    ensures
        snapshot::offered_to(proxy.sessions, ids).contains(interface) <==> exists|i: int|
            0 <= i < ids.len() && snapshot::interfaces_of(
                proxy.sessions[#[trigger] ids[i]].backend_globals,
            ).contains(interface),
    decreases ids.len(),
{
    if ids.len() > 0 {
        let rest = ids.drop_last();
        offers_are_gathered(proxy, rest, interface);
        assert(ids[ids.len() - 1] == ids.last());
        assert forall|i: int| 0 <= i < rest.len() implies rest[i] == #[trigger] ids[i] by {}
        if snapshot::offered_to(proxy.sessions, rest).contains(interface) {
            let i = choose|i: int|
                0 <= i < rest.len() && snapshot::interfaces_of(
                    proxy.sessions[#[trigger] rest[i]].backend_globals,
                ).contains(interface);
            assert(ids[i] == rest[i]);
        }
    }
}

/// What is said of a connection that ended is what its course tells: the detail of a client
/// that left, or the trouble, which stands behind the words that introduce it.
pub proof fn ending_is_told(course: CourseView)
    ensures
        course matches CourseView::Left(detail) ==> clients::close_detail(course) == detail,
        course matches CourseView::Failed(error) ==> {
            let said = clients::close_detail(course);
            said.len() == 15 + error.len() && said.take(15) == "session error: "@ && said.skip(15)
                == error
        },
        course is Continue ==> clients::close_detail(course)
            == "client closed its Wayland connection"@,
{
    reveal_strlit("session error: ");
    if let CourseView::Failed(error) = course {
        let said = clients::close_detail(course);
        assert(said.take(15) =~= "session error: "@);
        assert(said.skip(15) =~= error);
    }
}

/// A global of the compositor is looked up by its interface: the number that is found is
/// that of the first global of the interface, and none is found only where there is none.
pub proof fn global_is_found_by_its_interface(
    known: Seq<GlobalView>,
    interface: Seq<char>,
    from: int,
)
    requires
        0 <= from <= known.len(),
    ensures
        match session::first_global_named(known, interface, from) {
            Some(name) => exists|i: int|
                from <= i < known.len() && #[trigger] known[i].interface == interface
                    && known[i].name == name && forall|j: int|
                    from <= j < i ==> #[trigger] known[j].interface != interface,
            None => forall|i: int|
                from <= i < known.len() ==> #[trigger] known[i].interface != interface,
        },
    decreases known.len() - from,
{
    if from < known.len() && known[from].interface != interface {
        global_is_found_by_its_interface(known, interface, from + 1);
        if session::first_global_named(known, interface, from + 1) is Some {
            let name = session::first_global_named(known, interface, from + 1).unwrap();
            let i = choose|i: int|
                from + 1 <= i < known.len() && #[trigger] known[i].interface == interface
                    && known[i].name == name && forall|j: int|
                    from + 1 <= j < i ==> #[trigger] known[j].interface != interface;
            assert(known[i].interface == interface);
        }
    } else if from < known.len() {
        assert(known[from].interface == interface);
    }
}

} // verus!
