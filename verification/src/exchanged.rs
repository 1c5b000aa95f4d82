//! What goes between a client and the compositor: what is passed on, what the proxy
//! answers itself, and which objects are known by it.

use crate::decode;
use crate::decode::{DecodedEventView, RequestView, WireView};
use crate::fds;
use crate::globals;
use crate::globals::{GlobalView, WaylandInterceptHook};
use crate::ingest;
use crate::ingest::BegunView;
use crate::layout;
use crate::messages;
use crate::messages::{
    EventView, GeneratedHookRequest, GeneratedImplementedRequest, TrackedRequestView,
};
use crate::server::ServerView;
use crate::session;
use crate::session::SessionView;
use crate::tables;
use crate::tables::GeneratedRequestId;
use crate::tracker::TrackerView;
use crate::wire;
use crate::wire::ArgView;
use vstd::prelude::*;

verus! {

/// A request is passed on byte by byte, with as many of the descriptors in line as it
/// takes, the first ones first; none is lost and none is made up.
pub proof fn requests_are_passed_on_whole(
    client: SessionView,
    request: RequestView,
    message: WireView,
    answering: bool,
)
    ensures
        ({
            let (after, begun) = client.request_begun(request, message, answering);
            begun matches Ok(passed) ==> {
                let line = client.pending_fds + message.fds;
                let wanted = fds::expected_fds(request.args);
                &&& passed.message.bytes == message.bytes
                &&& passed.message.fds + after.pending_fds == line
                &&& passed.message.fds.len() == (if wanted < line.len() {
                    wanted
                } else {
                    line.len()
                })
                &&& passed.request == Some(request)
            }
        }),
{
    let line = client.pending_fds + message.fds;
    let wanted = fds::expected_fds(request.args);
    let count = fds::taken(wanted, line.len()) as int;
    assert(line.take(count) + line.skip(count) =~= line);
    local_answer_keeps_descriptors(
        client.after_claim(message.fds, wanted).ack_taken(request).0,
        request,
    );
}

proof fn local_answer_keeps_descriptors(client: SessionView, request: RequestView)
    ensures
        client.local_response(request).0.pending_fds == client.pending_fds,
        (client.local_response(request).0.backend is Some) == (client.backend is Some),
{
}

/// A request goes to the compositor exactly where there is one and neither the proxy
/// answers it nor it answers the proxy: it accepts no configuration of the proxy's own
/// and claims nothing by input that a caller sent.
pub proof fn requests_go_to_the_compositor(
    client: SessionView,
    request: RequestView,
    message: WireView,
    answering: bool,
)
    ensures
        client.request_begun(request, message, answering).1 matches Ok(passed) ==> (passed.forward
            <==> client.backend is Some && passed.events.len() == 0 && !(
        request.tracked_request matches Some(
            TrackedRequestView::XdgSurfaceAckConfigure { serial },
        ) && client.configures.contains_key(session::configure_key(request.object_id, serial))) && !(
        request.request_id == GeneratedRequestId::WlDataDeviceSetSelection && request.args.len()
            == 2 && (request.args[1] matches ArgView::Uint(serial) && client.injected.contains_key(
            serial,
        )))),
        !answering ==> client.request_begun(request, message, answering).1 is Ok,
        !answering ==> client.request_begun(request, message, answering).1->Ok_0.events.len() == 0,
{
    local_answer_keeps_descriptors(
        client.after_claim(message.fds, fds::expected_fds(request.args)).ack_taken(request).0,
        request,
    );
}

/// Whether an event that the proxy makes itself is a message of these words.
pub open spec fn tells_words(
    event: decode::BackendEventView,
    object_id: u32,
    opcode: u16,
    words: Seq<u32>,
) -> bool {
    layout::reads_as(event.encoded.bytes, object_id, opcode, words) && event.encoded.fds.len() == 0
}

proof fn one_word_is_told(sender: u32, event: EventView, word: u32)
    requires
        messages::event_args(event) == seq![ArgView::Uint(word)],
        messages::event_message(sender, event) is Ok,
    ensures
        layout::reads_as(
            messages::event_message(sender, event)->Ok_0,
            sender,
            messages::event_opcode(event),
            seq![word],
        ),
{
    let words = seq![word];
    layout::one_word_each(messages::event_args(event), words);
    layout::words_are_laid_out(
        sender,
        messages::event_opcode(event),
        messages::event_args(event),
        words,
    );
}

/// Without a compositor, a client that asks to be told when all is done is told so at
/// once, and that the number of its callback is free again; with one, the compositor
/// answers.
pub proof fn sync_is_answered(client: SessionView, request: RequestView, callback: u32)
    requires
        request.implemented_request == Some(GeneratedImplementedRequest::WlDisplaySync { callback }),
    ensures
        client.backend is Some ==> client.local_response(request) == (
            client,
            Ok::<Seq<decode::BackendEventView>, Seq<char>>(Seq::empty()),
        ),
        client.backend is None ==> (client.local_response(request).1 matches Ok(events)
            ==> events.len() == 2 && tells_words(events[0], callback, 0, seq![0u32])
            && tells_words(events[1], 1, 1, seq![callback])),
{
    if client.backend is None && client.local_response(request).1 is Ok {
        one_word_is_told(callback, EventView::WlCallbackDone { callback_data: 0 }, 0);
        one_word_is_told(1, EventView::WlDisplayDeleteId { id: callback }, callback);
    }
}

/// Without a compositor, a client that asks for the globals is told of each that is
/// known, in the order in which they are known, by its number, its interface and its
/// version.
pub proof fn globals_are_announced(
    client: SessionView,
    request: RequestView,
    registry: u32,
    i: int,
)
    requires
        request.implemented_request == Some(
            GeneratedImplementedRequest::WlDisplayGetRegistry { registry },
        ),
        client.backend is None,
        client.local_response(request).1 is Ok,
        0 <= i < client.backend_globals.len(),
    ensures
        ({
            let events = client.local_response(request).1->Ok_0;
            let global = client.backend_globals[i];
            &&& events.len() == client.backend_globals.len()
            &&& events[i].encoded.fds.len() == 0
            &&& events[i].encoded.bytes == wire::message_bytes(
                registry,
                0,
                seq![
                    ArgView::Uint(global.name),
                    ArgView::String(Some(global.interface)),
                    ArgView::Uint(global.version),
                ],
            )
        }),
{
    each_global_is_announced(client.interfaces, registry, client.backend_globals, i);
}

proof fn each_global_is_announced(
    interfaces: Map<u32, Seq<char>>,
    registry: u32,
    known: Seq<GlobalView>,
    i: int,
)
    requires
        ingest::announcements(interfaces, registry, known) is Ok,
        0 <= i < known.len(),
    ensures
        ({
            let events = ingest::announcements(interfaces, registry, known)->Ok_0;
            &&& events.len() == known.len()
            &&& events[i].encoded.fds.len() == 0
            &&& messages::event_message(registry, ingest::announcement(known[i])) == Ok::<
                Seq<u8>,
                Seq<char>,
            >(events[i].encoded.bytes)
        }),
    decreases known.len(),
{
    let rest = known.drop_last();
    if rest.len() > 0 {
        each_global_is_announced(
            interfaces,
            registry,
            rest,
            if i < rest.len() {
                i
            } else {
                0
            },
        );
    } else {
        assert(ingest::announcements(interfaces, registry, rest)->Ok_0.len() == 0);
    }
}

/// While frames are followed, an attached buffer is attached, damage is damage, and a
/// commit commits: each request does what it says, and no other request does it.
pub proof fn hooks_do_what_requests_say(
    known: TrackerView,
    resource_id: u32,
    request: GeneratedHookRequest,
)
    ensures
        ({
            let hooks = globals::with_frame_hook(Seq::empty(), messages::hook_id(request));
            let after = ingest::hooked_all(known, hooks, resource_id, request);
            match request {
                GeneratedHookRequest::WlSurfaceAttach { buffer, .. } => after == known.attached(
                    resource_id,
                    buffer,
                ),
                GeneratedHookRequest::WlSurfaceDamage { x, y, width, height } => after
                    == known.damaged(resource_id, crate::surface::DamageRect { x, y, width, height }),
                GeneratedHookRequest::WlSurfaceDamageBuffer { x, y, width, height } => after
                    == known.damaged(resource_id, crate::surface::DamageRect { x, y, width, height }),
                GeneratedHookRequest::WlSurfaceCommit => after == known.committed(resource_id),
                _ => after == known,
            }
        }),
        ingest::hooked_all(known, Seq::<WaylandInterceptHook>::empty(), resource_id, request)
            == known,
{
    let hooks = globals::with_frame_hook(Seq::empty(), messages::hook_id(request));
    if hooks.len() > 0 {
        assert(hooks.drop_last() =~= Seq::<WaylandInterceptHook>::empty());
        assert(ingest::hooked_all(known, hooks.drop_last(), resource_id, request) == known);
    }
}

/// An object that a request makes is known by the interface that the request makes it
/// with, in the version of the object that made it; a bound global is known as it was
/// bound.
pub proof fn made_objects_are_known(client: SessionView, request: RequestView, id: u32)
    ensures
        request.tracked_request matches Some(
            TrackedRequestView::WlRegistryBind { id_interface: Some(interface), id_version, id: made, .. },
        ) ==> {
            let after = client.objects_tracked(request);
            &&& after.interfaces == client.interfaces.insert(made, interface)
            &&& after.version(made) == id_version
        },
        !(request.tracked_request matches Some(TrackedRequestView::WlRegistryBind { .. })) ==> (
        request.implemented_request matches Some(implemented) ==> (decode::created_interface(
            implemented,
        ) matches Some((made, interface)) ==> {
            let after = client.objects_tracked(request);
            &&& after.interfaces == client.interfaces.insert(made, interface@)
            &&& after.version(made) == client.version(request.object_id)
            &&& id != made ==> after.version(id) == client.version(id)
        })),
{
}

/// An object whose number the compositor frees is no longer known.
pub proof fn freed_objects_are_forgotten(client: SessionView, event: DecodedEventView, id: u32, other: u32)
    requires
        event.generated_event == (EventView::WlDisplayDeleteId { id }),
        event.args == seq![ArgView::Uint(id)],
        other != id,
    ensures
        ({
            let after = client.client_event_tracked(event).0;
            &&& !after.interfaces.contains_key(id)
            &&& after.interfaces.contains_key(other) == client.interfaces.contains_key(other)
            &&& client.interfaces.contains_key(other) ==> after.interfaces[other]
                == client.interfaces[other]
            &&& after.version(other) == client.version(other)
            &&& after.tracker == client.tracker
        }),
{
    numbers_make_nothing(
        client,
        event.arg_specs,
        event.args,
        client.version(event.object_id),
        decode::common(event.arg_specs, event.args),
    );
}

proof fn numbers_make_nothing(
    client: SessionView,
    specs: Seq<wire::GeneratedArgSpec>,
    args: Seq<ArgView>,
    version: u32,
    count: nat,
)
    requires
        forall|i: int| 0 <= i < args.len() ==> !(#[trigger] args[i] is NewId),
        count <= args.len(),
    ensures
        client.with_made(specs, args, version, count) == client,
    decreases count,
{
    if count > 0 {
        numbers_make_nothing(client, specs, args, version, (count - 1) as nat);
        assert(!(args[count - 1] is NewId));
    }
}

/// A global that the compositor announces is known as it was announced; all others
/// stay as they are known.
pub proof fn announced_global_is_known(known: Seq<GlobalView>, global: GlobalView, i: int)
    requires
        globals::numbers_differ(known),
        0 <= i < known.len(),
    ensures
        ({
            let after = globals::upserted(known, global);
            &&& after.len() == known.len() || after.len() == known.len() + 1
            &&& after[i] == (if known[i].name == global.name {
                global
            } else {
                known[i]
            })
            &&& (forall|j: int| 0 <= j < known.len() ==> (#[trigger] known[j]).name != global.name)
                ==> after == known.push(global)
        }),
{
    number_is_first(known, global.name, 0);
    if let Some(index) = globals::global_numbered(known, global.name, 0) {
        if index != i {
            if index < i {
                assert(known[index].name != known[i].name);
            } else {
                assert(known[i].name != known[index].name);
            }
        }
    }
}

proof fn number_is_first(known: Seq<GlobalView>, name: u32, index: int)
    requires
        0 <= index,
    ensures
        globals::global_numbered(known, name, index) matches Some(found) ==> index <= found
            < known.len() && known[found].name == name,
        globals::global_numbered(known, name, index) is None ==> forall|i: int|
            index <= i < known.len() ==> (#[trigger] known[i]).name != name,
    decreases known.len() - index,
{
    if index < known.len() {
        number_is_first(known, name, index + 1);
    }
}

/// A message expects as many descriptors as it has arguments that are descriptors.
pub proof fn descriptors_are_counted(args: Seq<ArgView>, more: Seq<ArgView>, arg: ArgView)
    ensures
        fds::expected_fds(Seq::<ArgView>::empty()) == 0,
        fds::expected_fds(args + more) == fds::expected_fds(args) + fds::expected_fds(more),
        fds::expected_fds(seq![arg]) == (if arg is Fd {
            1nat
        } else {
            0nat
        }),
    decreases more.len(),
{
    assert(seq![arg].drop_last() =~= Seq::<ArgView>::empty());
    assert(fds::expected_fds(seq![arg].drop_last()) == 0);
    if more.len() == 0 {
        assert(args + more =~= args);
    } else {
        assert((args + more).drop_last() =~= args + more.drop_last());
        descriptors_are_counted(args, more.drop_last(), arg);
    }
}

/// A request is read from its message: it is one of the object whose number stands
/// first, with the opcode and the size that share the second word, by the interface
/// that the object is known by.
pub proof fn request_is_read_from_its_message(interfaces: Map<u32, Seq<char>>, bytes: Seq<u8>)
    ensures
        decode::request_of_message(interfaces, bytes) matches Ok(request) ==> {
            &&& bytes.len() >= request.size >= 8
            &&& request.object_id == wire::word_at(bytes, 0)
            &&& request.size * 0x1_0000 + request.opcode == wire::word_at(bytes, 4)
            &&& interfaces.contains_key(request.object_id)
            &&& request.interface == interfaces[request.object_id]
            &&& request.hook_request == messages::hook_request_of(request.request_id, request.args)
            &&& request.tracked_request == messages::tracked_request_of(
                request.request_id,
                request.args,
            )
            &&& request.implemented_request == messages::implemented_request_of(
                request.request_id,
                request.args,
            )
            &&& tables::interface_named(request.interface) matches Some(id) && tables::request_at(
                id,
                request.opcode,
            ) == Some(request.request_id)
        },
        decode::event_of_message(interfaces, bytes) matches Ok(event) ==> {
            &&& bytes.len() >= event.size >= 8
            &&& event.object_id == wire::word_at(bytes, 0)
            &&& event.size * 0x1_0000 + event.opcode == wire::word_at(bytes, 4)
            &&& interfaces.contains_key(event.object_id)
            &&& event.interface == interfaces[event.object_id]
            &&& tables::interface_named(event.interface) matches Some(id) && messages::event_of(
                id,
                event.opcode,
                event.args,
            ) == Some(event.generated_event)
        },
{
}

/// A configuration that the proxy sent is accepted by the proxy, once, and by nobody
/// else's serial.
pub proof fn own_configuration_is_awaited(
    client: SessionView,
    request: RequestView,
    surface_id: u32,
    serial: u32,
    given: u32,
)
    requires
        request.tracked_request == Some(
            TrackedRequestView::XdgSurfaceAckConfigure { serial: given },
        ),
        request.object_id == surface_id,
        !client.configures.contains_key(session::configure_key(surface_id, given)),
    ensures
        ({
            let awaiting = client.resize_sent(surface_id, serial);
            let (after, taken) = awaiting.ack_taken(request);
            &&& taken <==> given == serial
            &&& given == serial ==> after.configures =~= client.configures
            &&& !client.ack_taken(request).1
        }),
{
    if session::configure_key(surface_id, serial) == session::configure_key(surface_id, given) {
        session::configure_keys_differ(surface_id, serial, surface_id, given);
    }
}

proof fn hooks_keep_colors(
    known: TrackerView,
    hooks: Seq<WaylandInterceptHook>,
    resource_id: u32,
    request: GeneratedHookRequest,
)
    ensures
        ingest::hooked_all(known, hooks, resource_id, request).colors == known.colors,
    decreases hooks.len(),
{
    if hooks.len() > 0 {
        hooks_keep_colors(known, hooks.drop_last(), resource_id, request);
    }
}

#[verifier::spinoff_prover]
#[verifier::rlimit(30)]
proof fn windows_keep_colors(client: SessionView, request: RequestView)
    ensures
        client.windows_tracked(request).0.tracker.colors == client.tracker.colors,
{
    match request.tracked_request {
        Some(TrackedRequestView::WlSubcompositorGetSubsurface { .. }) => {},
        Some(TrackedRequestView::WlSubsurfaceDestroy) => {},
        Some(TrackedRequestView::WlSubsurfaceSetPosition { .. }) => {},
        Some(TrackedRequestView::XdgWmBaseGetXdgSurface { .. }) => {},
        Some(TrackedRequestView::XdgSurfaceGetToplevel { .. }) => {},
        Some(TrackedRequestView::XdgSurfaceSetWindowGeometry { .. }) => {},
        Some(TrackedRequestView::WpViewporterGetViewport { .. }) => {},
        Some(TrackedRequestView::WpViewportDestroy) => {},
        Some(TrackedRequestView::WpViewportSetDestination { .. }) => {},
        _ => {},
    }
}

#[verifier::spinoff_prover]
#[verifier::rlimit(30)]
proof fn buffers_keep_colors(client: SessionView, request: RequestView, message_fds: Seq<u64>)
    ensures
        client.dmabuf_tracked(request, message_fds).0.tracker.colors == client.tracker.colors,
{
}

#[verifier::spinoff_prover]
#[verifier::rlimit(30)]
proof fn points_keep_colors(client: SessionView, request: RequestView, message_fds: Seq<u64>)
    ensures
        client.syncobj_tracked(request, message_fds).0.tracker.colors == client.tracker.colors,
{
    match request.implemented_request {
        Some(GeneratedImplementedRequest::WpLinuxDrmSyncobjManagerV1GetSurface { .. }) => {},
        Some(
            GeneratedImplementedRequest::WpLinuxDrmSyncobjSurfaceV1SetAcquirePoint { .. },
        ) => {},
        Some(
            GeneratedImplementedRequest::WpLinuxDrmSyncobjSurfaceV1SetReleasePoint { .. },
        ) => {},
        _ => {},
    }
}

proof fn objects_keep_windows(client: SessionView, request: RequestView)
    ensures
        client.objects_tracked(request).tracker == client.tracker,
{
    if let Some((_, message)) = crate::registry::entry_of(request.request_id) {
        made_objects_leave_windows(
            client,
            message.args,
            request.args,
            client.version(request.object_id),
            decode::common(message.args, request.args),
        );
    }
}

proof fn made_objects_leave_windows(
    client: SessionView,
    specs: Seq<wire::GeneratedArgSpec>,
    args: Seq<ArgView>,
    version: u32,
    count: nat,
)
    ensures
        client.with_made(specs, args, version, count).tracker == client.tracker,
    decreases count,
{
    if count > 0 {
        made_objects_leave_windows(client, specs, args, version, (count - 1) as nat);
    }
}

/// Colors follow the requests of the client: each that hooks look at is noted, whether
/// or not frames are followed.
pub proof fn colors_follow_requests(
    client: SessionView,
    request: RequestView,
    message_fds: Seq<u64>,
    hooks: Seq<WaylandInterceptHook>,
)
    ensures
        ({
            let (after, failure) = client.noted(request, message_fds, hooks);
            failure is None ==> after.tracker.colors == (match request.hook_request {
                Some(hook) => client.tracker.colors.after(request.object_id, hook),
                None => client.tracker.colors,
            })
        }),
{
    let made = client.objects_tracked(request);
    objects_keep_windows(client, request);
    windows_keep_colors(made, request);
    let windows = made.windows_tracked(request).0;
    buffers_keep_colors(windows, request, message_fds);
    let buffers = windows.dmabuf_tracked(request, message_fds).0;
    points_keep_colors(buffers, request, message_fds);
    let synced = buffers.syncobj_tracked(request, message_fds).0;
    if let Some(hook) = request.hook_request {
        let colored = TrackerView {
            colors: synced.tracker.colors.after(request.object_id, hook),
            ..synced.tracker
        };
        hooks_keep_colors(colored, hooks, request.object_id, hook);
    }
}

/// A request that hooks look at, and that says nothing else of windows, buffers or
/// points, has the effect that its hooks have, once it is passed on and done with.
pub proof fn hooks_have_their_effect(
    proxy: ServerView,
    client_id: u64,
    begun: BegunView,
    request: RequestView,
    hook: GeneratedHookRequest,
)
    requires
        proxy.sessions.contains_key(client_id),
        begun.request == Some(request),
        begun.events.len() == 0,
        request.hook_request == Some(hook),
        request.tracked_request is None,
        request.implemented_request is None,
    ensures
        ({
            let known = proxy.sessions[client_id].tracker;
            let hooks = proxy.registry.intercepts_of(messages::hook_id(hook));
            let (after, failure) = proxy.request_done(client_id, begun);
            &&& failure is None
            &&& after.sessions.contains_key(client_id)
            &&& after.sessions[client_id].tracker == ingest::hooked_all(
                TrackerView { colors: known.colors.after(request.object_id, hook), ..known },
                hooks,
                request.object_id,
                hook,
            )
        }),
{
    let client = proxy.sessions[client_id];
    objects_keep_windows(client, request);
    let made = client.objects_tracked(request);
    assert(made.windows_tracked(request) == (made, None::<Seq<char>>));
}

/// A request that says something of windows alone has that effect, once it is passed on
/// and done with.
pub proof fn window_requests_have_their_effect(
    proxy: ServerView,
    client_id: u64,
    begun: BegunView,
    request: RequestView,
)
    requires
        proxy.sessions.contains_key(client_id),
        begun.request == Some(request),
        begun.events.len() == 0,
        request.hook_request is None,
        request.implemented_request is None,
        request.tracked_request matches Some(said) && (said is XdgToplevelSetTitle
            || said is XdgToplevelSetAppId || said is XdgSurfaceSetWindowGeometry
            || said is WlSubsurfaceSetPosition || said is WlSubsurfaceDestroy
            || said is WpViewportSetDestination || said is WpViewportDestroy),
    ensures
        ({
            let (after, failure) = proxy.request_done(client_id, begun);
            let (noted, trouble) = proxy.sessions[client_id].windows_tracked(request);
            &&& failure == trouble
            &&& after.sessions[client_id].tracker == noted.tracker
        }),
{
    let client = proxy.sessions[client_id];
    objects_keep_windows(client, request);
    let made = client.objects_tracked(request);
    assert(made.windows_step(request) == client.windows_step(request));
    let windows = made.windows_tracked(request);
    assert(windows.0.tracker == client.windows_tracked(request).0.tracker);
    if windows.1 is None {
        assert(windows.0.dmabuf_step(request, begun.message.fds) == Ok::<TrackerView, Seq<char>>(
            windows.0.tracker,
        ));
    }
}

} // verus!
