//! One client of the proxy: its objects, its descriptors in line, and how its
//! requests and the compositor's events change what is known of it.

use crate::decode;
use crate::decode::{
    DecodedEventView, DecodedWaylandEvent, DecodedWaylandRequest, RequestView, WireView,
    apply_backend_object_tracking, apply_object_interfaces_from_event, decode_request_message,
    implemented_request_created_interface, made_by_arg,
};
use crate::fds;
use crate::fds::{claim_fds, reassociate_fds};
use crate::globals;
use crate::globals::{GlobalView, WaylandGlobalInfo, WaylandProtocolRegistry, upsert_backend_global};
use crate::messages::{
    EventView, GeneratedEvent, GeneratedImplementedRequest, GeneratedTrackedRequest,
    TrackedRequestView,
};
use crate::registry;
use crate::registry::WaylandGeneratedProtocolRegistry;
use crate::resource_map::{ResourcesView, WaylandResourceMap};
use crate::surface::{PendingDmabufCreate, TrackedDmabufPlane};
use crate::table::Table;
use crate::text;
use crate::text::{append_decimal, copy_text, str_eq};
use crate::tracker;
use crate::tracker::{TrackerView, WaylandFrameTracker, clamp_dimension, sync_point_from_words};
use crate::wire;
use crate::wire::{ArgView, DecodedWaylandArg, GeneratedArgSpec, decode_wayland_header};
use vstd::prelude::*;
use vstd::string::*;

verus! {

/// A client's number.
#[derive(Debug, Clone, Copy, PartialEq, Eq, Hash, Structural)]
pub struct WaylandClientId(pub u64);

/// The connection to the compositor that stands behind a client.
pub struct WaylandBackendSession {
    pub globals: Vec<WaylandGlobalInfo>,
    pub object_interfaces: Table<u32, String>,
    pub pending_backend_fds: Vec<u64>,
}

/// The value of a connection to the compositor.
#[verifier::ext_equal]
pub struct BackendView {
    pub globals: Seq<GlobalView>,
    pub interfaces: Map<u32, Seq<char>>,
    pub pending_fds: Seq<u64>,
}

impl View for WaylandBackendSession {
    type V = BackendView;

    open spec fn view(&self) -> BackendView {
        BackendView {
            globals: globals::global_values(self.globals@),
            interfaces: self.object_interfaces@,
            pending_fds: self.pending_backend_fds@,
        }
    }
}

impl BackendView {
    /// A connection on which nothing has happened yet.
    pub open spec fn fresh(known: Seq<GlobalView>) -> Self {
        BackendView {
            globals: known,
            interfaces: Map::<u32, Seq<char>>::empty().insert(1, "wl_display"@),
            pending_fds: Seq::empty(),
        }
    }

    /// After a request was passed on to the compositor.
    pub open spec fn after_request(self, request: RequestView) -> Self {
        BackendView {
            interfaces: decode::backend_interfaces_after(self.interfaces, request),
            ..self
        }
    }

    /// After an event of the compositor.
    pub open spec fn after_event(self, event: DecodedEventView) -> Self {
        BackendView {
            interfaces: decode::with_all_made(self.interfaces, event.arg_specs, event.args),
            globals: match event.generated_event {
                EventView::WlRegistryGlobal { name, interface: Some(interface), version } =>
                    globals::upserted(self.globals, GlobalView { name, interface, version }),
                _ => self.globals,
            },
            ..self
        }
    }

    /// After the descriptors of a message went to where they belong.
    pub open spec fn after_claim(self, message_fds: Seq<u64>, expected: nat) -> Self {
        BackendView {
            pending_fds: fds::left_over(self.pending_fds, message_fds, expected),
            ..self
        }
    }

    /// Whether the object that an event comes from is one for shared memory.
    pub open spec fn is_shm(self, object_id: u32) -> bool {
        self.interfaces.contains_key(object_id) && self.interfaces[object_id] == "wl_shm"@
    }

    /// What is wrong with descriptors that come with an event that cannot be
    /// read. Those that come with the announcement of a shared-memory format
    /// belong to a later event; others cannot be placed.
    pub open spec fn stray_fds(self, message: WireView) -> Option<Seq<char>> {
        if message.fds.len() == 0 {
            None
        } else {
            match wire::header_of(message.bytes) {
                Err(error) => Some(error),
                Ok(header) => if self.is_shm(header.object_id) && header.opcode == 0 {
                    None
                } else {
                    Some(
                        "undecoded backend event "@ + (if self.interfaces.contains_key(
                            header.object_id,
                        ) {
                            self.interfaces[header.object_id]
                        } else {
                            "unknown"@
                        }) + "#"@ + text::decimal(header.object_id as nat) + " opcode "@
                            + text::decimal(header.opcode as nat) + " unexpectedly carried "@
                            + text::decimal(message.fds.len()) + " fd(s)"@,
                    )
                },
            }
        }
    }
}

impl WaylandBackendSession {
    /// A connection to a compositor that announced these globals.
    pub fn new(globals: Vec<WaylandGlobalInfo>) -> (session: Self)
        ensures
            session@ == BackendView::fresh(globals::global_values(globals@)),
    {
        let mut object_interfaces = Table::new();
        object_interfaces.insert(1u32, "wl_display".to_owned());
        WaylandBackendSession { globals, object_interfaces, pending_backend_fds: Vec::new() }
    }

    /// Notes the objects that a request makes.
    pub fn track_request_objects(
        &mut self,
        generated: &WaylandGeneratedProtocolRegistry,
        request: &DecodedWaylandRequest,
    )
        ensures
            final(self)@ == old(self)@.after_request(request@),
    {
        apply_backend_object_tracking(&mut self.object_interfaces, generated, request);
    }

    /// Notes what an event makes or announces.
    pub fn apply_event(&mut self, event: &DecodedWaylandEvent)
        ensures
            final(self)@ == old(self)@.after_event(event@),
    {
        apply_object_interfaces_from_event(&mut self.object_interfaces, event);
        match &event.generated_event {
            GeneratedEvent::WlRegistryGlobal { name, interface, version } => match interface {
                Some(interface) => {
                    upsert_backend_global(&mut self.globals, *name, interface.as_str(), *version);
                },
                None => {},
            },
            _ => {},
        }
    }

    /// Gives an event the descriptors that it carries.
    pub fn reassociate_backend_fds(&mut self, event: &DecodedWaylandEvent, fds: &mut Vec<u64>)
        ensures
            final(self)@ == old(self)@.after_claim(old(fds)@, fds::expected_fds(event@.args)),
            final(fds)@ == fds::claimed(
                old(self)@.pending_fds,
                old(fds)@,
                fds::expected_fds(event@.args),
            ),
    {
        reassociate_fds(&mut self.pending_backend_fds, event.args.as_slice(), fds);
    }

    /// Keeps the descriptors of an event that cannot be read for a later one.
    pub fn reassociate_undecoded_backend_fds(&mut self, bytes: &[u8], fds: &mut Vec<u64>) -> (result:
        Result<(), String>)
        ensures
            match old(self)@.stray_fds(WireView { bytes: bytes@, fds: old(fds)@ }) {
                Some(message) => (result matches Err(error) && error@ == message) && final(self)@
                    == old(self)@ && final(fds)@ == old(fds)@,
                None => result is Ok && final(fds)@ == Seq::<u64>::empty() && final(self)@ == old(
                    self,
                )@.after_claim(old(fds)@, 0),
            },
    {
        if fds.len() == 0 {
            proof {
                let before = self@.pending_fds;
                assert(before + fds@ =~= before);
                assert(fds::left_over(before, fds@, 0) =~= before);
                assert(fds@ =~= Seq::<u64>::empty());
            }
            return Ok(());
        }
        let header = match decode_wayland_header(bytes) {
            Ok(header) => header,
            Err(message) => return Err(message),
        };
        let interface = self.object_interfaces.get(header.object_id);
        let shm = match interface {
            Some(interface) => str_eq(interface.as_str(), "wl_shm"),
            None => false,
        };
        if shm && header.opcode == 0 {
            claim_fds(&mut self.pending_backend_fds, fds, 0);
            proof {
                assert(fds@ =~= Seq::<u64>::empty());
            }
            return Ok(());
        }
        let mut message = "undecoded backend event ".to_owned();
        match interface {
            Some(interface) => message.append(interface.as_str()),
            None => message.append("unknown"),
        }
        message.append("#");
        append_decimal(&mut message, header.object_id as u64);
        message.append(" opcode ");
        append_decimal(&mut message, header.opcode as u64);
        message.append(" unexpectedly carried ");
        append_decimal(&mut message, fds.len() as u64);
        message.append(" fd(s)");
        Err(message)
    }
}

/// A client of the proxy.
pub struct WaylandClientSession {
    pub client_id: WaylandClientId,
    pub backend_globals: Vec<WaylandGlobalInfo>,
    pub backend: Option<WaylandBackendSession>,
    pub client_event_writer: bool,
    pub resource_map: WaylandResourceMap,
    pub object_interfaces: Table<u32, String>,
    pub object_versions: Table<u32, u32>,
    pub local_registry_ids: Table<u32, ()>,
    pub local_callback_ids: Table<u32, ()>,
    pub pending_client_fds: Vec<u64>,
    pub dmabuf_feedback_index_maps: Table<u32, Vec<Option<u16>>>,
    pub frame_tracker: WaylandFrameTracker,
    pub raw_forward_only: bool,
    pub next_synthetic_serial: u32,
    pub injected_serials: Table<u32, ()>,
    pub synthetic_configures: Table<u64, ()>,
    pub keyboard_keymap_text: Option<String>,
    pub keyboard_layout_group: u32,
    pub keyboard_mods_depressed: u32,
    pub keyboard_mods_latched: u32,
    pub keyboard_mods_locked: u32,
}

/// The value of a client. `writable` says whether events can be sent to it.
#[verifier::ext_equal]
pub struct SessionView {
    pub client_id: u64,
    pub backend_globals: Seq<GlobalView>,
    pub backend: Option<BackendView>,
    pub writable: bool,
    pub resources: ResourcesView,
    pub interfaces: Map<u32, Seq<char>>,
    pub versions: Map<u32, u32>,
    pub local_registries: Map<u32, ()>,
    pub local_callbacks: Map<u32, ()>,
    pub pending_fds: Seq<u64>,
    pub index_maps: Map<u32, Seq<Option<u16>>>,
    pub tracker: TrackerView,
    pub raw_forward_only: bool,
    pub next_serial: u32,
    pub injected: Map<u32, ()>,
    pub configures: Map<u64, ()>,
    pub keymap: Option<Seq<char>>,
    pub layout_group: u32,
    pub mods_depressed: u32,
    pub mods_latched: u32,
    pub mods_locked: u32,
}

/// The value of a connection that may be missing.
pub open spec fn optional_backend(backend: Option<WaylandBackendSession>) -> Option<BackendView> {
    match backend {
        Some(session) => Some(session@),
        None => None,
    }
}

impl View for WaylandClientSession {
    type V = SessionView;

    open spec fn view(&self) -> SessionView {
        SessionView {
            client_id: self.client_id.0,
            backend_globals: globals::global_values(self.backend_globals@),
            backend: optional_backend(self.backend),
            writable: self.client_event_writer,
            resources: self.resource_map@,
            interfaces: self.object_interfaces@,
            versions: self.object_versions@,
            local_registries: self.local_registry_ids@,
            local_callbacks: self.local_callback_ids@,
            pending_fds: self.pending_client_fds@,
            index_maps: self.dmabuf_feedback_index_maps@,
            tracker: self.frame_tracker@,
            raw_forward_only: self.raw_forward_only,
            next_serial: self.next_synthetic_serial,
            injected: self.injected_serials@,
            configures: self.synthetic_configures@,
            keymap: text::optional(self.keyboard_keymap_text),
            layout_group: self.keyboard_layout_group,
            mods_depressed: self.keyboard_mods_depressed,
            mods_latched: self.keyboard_mods_latched,
            mods_locked: self.keyboard_mods_locked,
        }
    }
}

/// The key under which a configure that the proxy sent of its own is kept.
pub open spec fn configure_key(surface_id: u32, serial: u32) -> u64 {
    (surface_id * 0x1_0000_0000 + serial) as u64
}

/// Different configures are kept under different keys.
pub proof fn configure_keys_differ(surface_a: u32, serial_a: u32, surface_b: u32, serial_b: u32)
    requires
        configure_key(surface_a, serial_a) == configure_key(surface_b, serial_b),
    ensures
        surface_a == surface_b,
        serial_a == serial_b,
{
}

/// The key under which a configure that the proxy sent of its own is kept.
pub fn configure_number(surface_id: u32, serial: u32) -> (key: u64)
    ensures
        key == configure_key(surface_id, serial),
{
    surface_id as u64 * 0x1_0000_0000 + serial as u64
}

/// The client and what went wrong, if anything did, after a step.
pub type Step = (SessionView, Option<Seq<char>>);

/// Whether a step went as expected.
pub open spec fn ended(after: SessionView, result: Result<(), String>, expected: Step) -> bool {
    &&& after =~= expected.0
    &&& match expected.1 {
        Some(message) => result matches Err(error) && error@ == message,
        None => result is Ok,
    }
}

impl SessionView {
    /// A client that just arrived.
    pub open spec fn fresh(
        client_id: u64,
        backend_globals: Seq<GlobalView>,
        backend: Option<BackendView>,
    ) -> Self {
        SessionView {
            client_id,
            backend_globals,
            backend,
            writable: false,
            resources: ResourcesView::empty(),
            interfaces: Map::empty(),
            versions: Map::empty(),
            local_registries: Map::empty(),
            local_callbacks: Map::empty(),
            pending_fds: Seq::empty(),
            index_maps: Map::empty(),
            tracker: TrackerView::empty("wayland-client-"@ + text::decimal(client_id as nat)),
            raw_forward_only: false,
            next_serial: 1,
            injected: Map::empty(),
            configures: Map::empty(),
            keymap: None,
            layout_group: 0,
            mods_depressed: 0,
            mods_latched: 0,
            mods_locked: 0,
        }
    }

    /// With another view of its windows.
    pub open spec fn with_tracker(self, tracker: TrackerView) -> Self {
        SessionView { tracker, ..self }
    }

    /// After a step that concerns its windows and may fail.
    pub open spec fn after_step(self, step: Result<TrackerView, Seq<char>>) -> Step {
        match step {
            Ok(tracker) => (self.with_tracker(tracker), None),
            Err(message) => (self, Some(message)),
        }
    }

    /// With an object.
    pub open spec fn with_object(self, object_id: u32, interface: Seq<char>, version: u32) -> Self {
        SessionView {
            interfaces: self.interfaces.insert(object_id, interface),
            versions: self.versions.insert(object_id, version),
            ..self
        }
    }

    /// Without an object.
    pub open spec fn without_object(self, object_id: u32) -> Self {
        SessionView {
            interfaces: self.interfaces.remove(object_id),
            versions: self.versions.remove(object_id),
            local_registries: self.local_registries.remove(object_id),
            local_callbacks: self.local_callbacks.remove(object_id),
            resources: self.resources.without_client(object_id),
            ..self
        }
    }

    /// The version of an object; an object that is not known has the first one.
    pub open spec fn version(self, object_id: u32) -> u32 {
        if self.versions.contains_key(object_id) {
            self.versions[object_id]
        } else {
            1
        }
    }

    /// With the objects that the first `count` arguments of a message make.
    pub open spec fn with_made(
        self,
        specs: Seq<GeneratedArgSpec>,
        args: Seq<ArgView>,
        version: u32,
        count: nat,
    ) -> Self
        decreases count,
    {
        if count == 0 {
            self
        } else {
            let before = self.with_made(specs, args, version, (count - 1) as nat);
            match decode::made_by(specs[count - 1], args[count - 1]) {
                Some((id, interface)) => before.with_object(id, interface, version),
                None => before,
            }
        }
    }

    /// With the objects that a message makes.
    pub open spec fn with_all_made(
        self,
        specs: Seq<GeneratedArgSpec>,
        args: Seq<ArgView>,
        version: u32,
    ) -> Self {
        self.with_made(specs, args, version, decode::common(specs, args))
    }

    /// After the objects that a request makes were noted. A bound global has
    /// the version that was asked for, any other object that of the object
    /// that made it.
    pub open spec fn objects_tracked(self, request: RequestView) -> Self {
        match request.tracked_request {
            Some(
                TrackedRequestView::WlRegistryBind {
                    id_interface: Some(interface),
                    id_version,
                    id,
                    ..
                },
            ) => self.with_object(id, interface, id_version),
            _ => {
                let created = match request.implemented_request {
                    Some(implemented) => decode::created_interface(implemented),
                    None => None,
                };
                match created {
                    Some((id, interface)) => self.with_object(
                        id,
                        interface@,
                        self.version(request.object_id),
                    ),
                    None => match registry::entry_of(request.request_id) {
                        Some((_, message)) => self.with_all_made(
                            message.args,
                            request.args,
                            self.version(request.object_id),
                        ),
                        None => self,
                    },
                }
            },
        }
    }

    /// What a request says of its windows.
    pub open spec fn windows_step(self, request: RequestView) -> Result<TrackerView, Seq<char>> {
        let known = self.tracker;
        match request.tracked_request {
            Some(
                TrackedRequestView::WlSubcompositorGetSubsurface {
                    id,
                    surface: Some(surface),
                    parent: Some(parent),
                },
            ) => Ok(known.subsurface_created(id, surface, parent)),
            Some(TrackedRequestView::WlSubsurfaceDestroy) => Ok(
                known.subsurface_destroyed(request.object_id),
            ),
            Some(TrackedRequestView::WlSubsurfaceSetPosition { x, y }) => Ok(
                known.subsurface_moved(request.object_id, x, y),
            ),
            Some(
                TrackedRequestView::XdgWmBaseGetXdgSurface { id, surface: Some(surface) },
            ) => Ok(known.xdg_surface_created(id, surface)),
            Some(TrackedRequestView::XdgSurfaceGetToplevel { id }) => known.toplevel_created(
                request.object_id,
                id,
            ),
            Some(TrackedRequestView::XdgSurfaceSetWindowGeometry { width, height, .. }) =>
                known.geometry_set(
                    request.object_id,
                    tracker::clamped(width),
                    tracker::clamped(height),
                ),
            Some(TrackedRequestView::XdgToplevelSetTitle { title }) => Ok(
                known.titled(request.object_id, title),
            ),
            Some(TrackedRequestView::XdgToplevelSetAppId { app_id }) => Ok(
                known.named(request.object_id, app_id),
            ),
            Some(
                TrackedRequestView::WpViewporterGetViewport { id, surface: Some(surface) },
            ) => Ok(known.viewport_created(id, surface)),
            Some(TrackedRequestView::WpViewportDestroy) => Ok(
                known.viewport_destroyed(request.object_id),
            ),
            Some(TrackedRequestView::WpViewportSetDestination { width, height }) =>
                known.viewport_set(request.object_id, width, height),
            _ => Ok(known),
        }
    }

    /// After what a request says of its windows was noted.
    pub open spec fn windows_tracked(self, request: RequestView) -> Step {
        match self.windows_step(request) {
            Err(message) => (self, Some(message)),
            Ok(known) => match request.implemented_request {
                Some(GeneratedImplementedRequest::XdgSurfaceAckConfigure { .. }) => (
                    self.with_tracker(known.configure_acked(request.object_id)),
                    None,
                ),
                _ => (self.with_tracker(known), None),
            },
        }
    }

    /// What a request says of its graphics buffers.
    pub open spec fn dmabuf_step(self, request: RequestView, message_fds: Seq<u64>) -> Result<
        TrackerView,
        Seq<char>,
    > {
        let known = self.tracker;
        match request.tracked_request {
            Some(TrackedRequestView::ZwpLinuxDmabufV1CreateParams { params_id }) => Ok(
                known.params_created(params_id),
            ),
            Some(TrackedRequestView::ZwpLinuxBufferParamsV1Destroy) => Ok(
                known.params_destroyed(request.object_id),
            ),
            Some(
                TrackedRequestView::ZwpLinuxBufferParamsV1Add {
                    plane_idx,
                    offset,
                    stride,
                    modifier_hi,
                    modifier_lo,
                    ..
                },
            ) => if message_fds.len() == 0 {
                Err("zwp_linux_buffer_params_v1.add was missing its fd"@)
            } else {
                known.plane_added(
                    request.object_id,
                    TrackedDmabufPlane {
                        fd: message_fds[0],
                        plane_idx,
                        offset,
                        stride,
                        modifier: tracker::sync_point(modifier_hi, modifier_lo),
                    },
                )
            },
            Some(
                TrackedRequestView::ZwpLinuxBufferParamsV1Create { width, height, format, flags },
            ) => known.dmabuf_requested(
                request.object_id,
                PendingDmabufCreate {
                    width: tracker::clamped(width),
                    height: tracker::clamped(height),
                    format,
                    flags,
                },
            ),
            Some(
                TrackedRequestView::ZwpLinuxBufferParamsV1CreateImmed {
                    buffer_id,
                    width,
                    height,
                    format,
                    flags,
                },
            ) => known.dmabuf_created_at_once(
                request.object_id,
                buffer_id,
                PendingDmabufCreate {
                    width: tracker::clamped(width),
                    height: tracker::clamped(height),
                    format,
                    flags,
                },
            ),
            _ => Ok(known),
        }
    }

    /// After what a request says of its graphics buffers was noted.
    pub open spec fn dmabuf_tracked(self, request: RequestView, message_fds: Seq<u64>) -> Step {
        self.after_step(self.dmabuf_step(request, message_fds))
    }

    /// What a request says of its synchronisation.
    pub open spec fn syncobj_step(self, request: RequestView, message_fds: Seq<u64>) -> Result<
        TrackerView,
        Seq<char>,
    > {
        let known = self.tracker;
        match request.implemented_request {
            Some(
                GeneratedImplementedRequest::WpLinuxDrmSyncobjManagerV1GetSurface { id, surface },
            ) => Ok(known.syncobj_surface_created(id, surface)),
            Some(
                GeneratedImplementedRequest::WpLinuxDrmSyncobjManagerV1ImportTimeline { id, .. },
            ) => if message_fds.len() == 0 {
                Err("wp_linux_drm_syncobj_manager_v1.import_timeline was missing its fd"@)
            } else {
                Ok(known.timeline_imported(id, message_fds[0]))
            },
            Some(GeneratedImplementedRequest::WpLinuxDrmSyncobjTimelineV1Destroy) => Ok(
                known.timeline_destroyed(request.object_id),
            ),
            Some(GeneratedImplementedRequest::WpLinuxDrmSyncobjSurfaceV1Destroy) => Ok(
                known.syncobj_surface_destroyed(request.object_id),
            ),
            Some(
                GeneratedImplementedRequest::WpLinuxDrmSyncobjSurfaceV1SetAcquirePoint {
                    timeline,
                    point_hi,
                    point_lo,
                },
            ) => known.acquire_set(
                request.object_id,
                timeline,
                tracker::sync_point(point_hi, point_lo),
            ),
            Some(
                GeneratedImplementedRequest::WpLinuxDrmSyncobjSurfaceV1SetReleasePoint {
                    timeline,
                    point_hi,
                    point_lo,
                },
            ) => known.release_set(
                request.object_id,
                timeline,
                tracker::sync_point(point_hi, point_lo),
            ),
            _ => Ok(known),
        }
    }

    /// After what a request says of its synchronisation was noted.
    pub open spec fn syncobj_tracked(self, request: RequestView, message_fds: Seq<u64>) -> Step {
        self.after_step(self.syncobj_step(request, message_fds))
    }

    /// After what an event says of its windows and its keyboard was noted.
    pub open spec fn backend_event_tracked(self, event: DecodedEventView) -> Step {
        let known = self.tracker;
        match event.generated_event {
            EventView::WlSurfaceEnter { output: Some(output) } => (
                self.with_tracker(known.output_entered(event.object_id, output)),
                None,
            ),
            EventView::WlSurfaceLeave { output: Some(output) } => (
                self.with_tracker(known.output_left(event.object_id, output)),
                None,
            ),
            EventView::XdgSurfaceConfigure { .. } => (
                self.with_tracker(known.configure_seen(event.object_id)),
                None,
            ),
            EventView::ZwpLinuxBufferParamsV1Created { buffer } => self.after_step(
                known.dmabuf_created(event.object_id, buffer),
            ),
            EventView::ZwpLinuxBufferParamsV1Failed => (
                self.with_tracker(known.params_destroyed(event.object_id)),
                None,
            ),
            EventView::WlKeyboardModifiers {
                mods_depressed,
                mods_latched,
                mods_locked,
                group,
                ..
            } => (
                SessionView {
                    mods_depressed,
                    mods_latched,
                    mods_locked,
                    layout_group: group,
                    ..self
                },
                None,
            ),
            _ => (self, None),
        }
    }

    /// After the objects that an event makes or takes away were noted.
    pub open spec fn event_objects_tracked(self, event: DecodedEventView) -> Self {
        let made = self.with_all_made(event.arg_specs, event.args, self.version(event.object_id));
        match event.generated_event {
            EventView::WlDisplayDeleteId { id } => made.without_object(id),
            _ => made,
        }
    }

    /// After an event on its way to the client was noted.
    pub open spec fn client_event_tracked(self, event: DecodedEventView) -> Step {
        self.event_objects_tracked(event).backend_event_tracked(event)
    }
}

impl WaylandClientSession {
    /// A client that just arrived.
    pub fn new(
        client_id: WaylandClientId,
        backend_globals: Vec<WaylandGlobalInfo>,
        backend: Option<WaylandBackendSession>,
    ) -> (session: Self)
        ensures
            session@ == SessionView::fresh(
                client_id.0,
                globals::global_values(backend_globals@),
                optional_backend(backend),
            ),
    {
        let mut prefix = "wayland-client-".to_owned();
        append_decimal(&mut prefix, client_id.0);
        WaylandClientSession {
            client_id,
            backend_globals,
            backend,
            client_event_writer: false,
            resource_map: WaylandResourceMap::default(),
            object_interfaces: Table::new(),
            object_versions: Table::new(),
            local_registry_ids: Table::new(),
            local_callback_ids: Table::new(),
            pending_client_fds: Vec::new(),
            dmabuf_feedback_index_maps: Table::new(),
            frame_tracker: WaylandFrameTracker::new(prefix),
            raw_forward_only: false,
            next_synthetic_serial: 1,
            injected_serials: Table::new(),
            synthetic_configures: Table::new(),
            keyboard_keymap_text: None,
            keyboard_layout_group: 0,
            keyboard_mods_depressed: 0,
            keyboard_mods_latched: 0,
            keyboard_mods_locked: 0,
        }
    }

    /// Notes an object of the first version.
    pub fn track_object_interface(&mut self, object_id: u32, interface: &str)
        ensures
            final(self)@ == old(self)@.with_object(object_id, interface@, 1),
    {
        self.track_object_interface_version(object_id, interface, 1);
    }

    /// Notes an object.
    pub fn track_object_interface_version(&mut self, object_id: u32, interface: &str, version: u32)
        ensures
            final(self)@ == old(self)@.with_object(object_id, interface@, version),
    {
        self.object_interfaces.insert(object_id, interface.to_owned());
        self.object_versions.insert(object_id, version);
        assert(self@ =~= old(self)@.with_object(object_id, interface@, version));
    }

    /// The interface of an object.
    pub fn interface_for_object(&self, object_id: u32) -> (interface: Option<&str>)
        ensures
            match interface {
                Some(interface) => self@.interfaces.contains_key(object_id) && interface@
                    == self@.interfaces[object_id],
                None => !self@.interfaces.contains_key(object_id),
            },
    {
        match self.object_interfaces.get(object_id) {
            Some(interface) => Some(interface.as_str()),
            None => None,
        }
    }

    /// The version of an object.
    pub fn version_of(&self, object_id: u32) -> (version: u32)
        ensures
            version == self@.version(object_id),
    {
        match self.object_versions.get(object_id) {
            Some(version) => *version,
            None => 1,
        }
    }

    /// Notes that the proxy itself answers for a registry.
    pub fn mark_local_registry(&mut self, object_id: u32)
        ensures
            final(self)@ == (SessionView {
                local_registries: old(self)@.local_registries.insert(object_id, ()),
                ..old(self)@
            }),
    {
        self.local_registry_ids.insert(object_id, ());
    }

    /// Whether the proxy itself answers for a registry.
    pub fn is_local_registry(&self, object_id: u32) -> (local: bool)
        ensures
            local == self@.local_registries.contains_key(object_id),
    {
        self.local_registry_ids.contains(object_id)
    }

    /// Notes that the proxy itself answers for a callback.
    pub fn mark_local_callback(&mut self, object_id: u32)
        ensures
            final(self)@ == (SessionView {
                local_callbacks: old(self)@.local_callbacks.insert(object_id, ()),
                ..old(self)@
            }),
    {
        self.local_callback_ids.insert(object_id, ());
    }

    /// Forgets an object.
    pub fn remove_object(&mut self, object_id: u32)
        ensures
            final(self)@ == old(self)@.without_object(object_id),
    {
        let _ = self.object_interfaces.remove(object_id);
        let _ = self.object_versions.remove(object_id);
        let _ = self.local_registry_ids.remove(object_id);
        let _ = self.local_callback_ids.remove(object_id);
        let _ = self.resource_map.unmap_client(object_id);
        assert(self@ =~= old(self)@.without_object(object_id));
    }

    /// The number of a global of the compositor.
    pub fn find_backend_global(&self, interface: &str) -> (name: Option<u32>)
        ensures
            name == first_global_named(self@.backend_globals, interface@, 0),
    {
        let ghost known = globals::global_values(self.backend_globals@);
        let mut index: usize = 0;
        while index < self.backend_globals.len()
            invariant
                index <= self.backend_globals@.len(),
                known == globals::global_values(self.backend_globals@),
                first_global_named(known, interface@, 0) == first_global_named(
                    known,
                    interface@,
                    index as int,
                ),
            decreases self.backend_globals@.len() - index,
        {
            if str_eq(self.backend_globals[index].interface.as_str(), interface) {
                return Some(self.backend_globals[index].name);
            }
            index = index + 1;
        }
        None
    }
}

/// The number of the first global, from `index` on, of an interface.
pub open spec fn first_global_named(
    known: Seq<GlobalView>,
    interface: Seq<char>,
    index: int,
) -> Option<u32>
    decreases known.len() - index,
{
    if index < 0 || index >= known.len() {
        None
    } else if known[index].interface == interface {
        Some(known[index].name)
    } else {
        first_global_named(known, interface, index + 1)
    }
}

/// Reads a request of a client.
pub fn decode_wayland_request(session: &WaylandClientSession, bytes: &[u8]) -> (request: Result<
    DecodedWaylandRequest,
    String,
>)
    ensures
        text::outcome(request) == decode::request_of_message(session@.interfaces, bytes@),
{
    decode_request_message(&session.object_interfaces, bytes)
}

/// Notes the objects that the arguments of a message make.
pub fn apply_object_tracking_from_specs(
    session: &mut WaylandClientSession,
    arg_specs: &Vec<GeneratedArgSpec>,
    args: &Vec<DecodedWaylandArg>,
    version: u32,
)
    ensures
        final(session)@ == old(session)@.with_all_made(
            arg_specs@,
            wire::arg_values(args@),
            version,
        ),
{
    let ghost values = wire::arg_values(args@);
    let mut index: usize = 0;
    while index < arg_specs.len() && index < args.len()
        invariant
            index <= arg_specs@.len(),
            index <= args@.len(),
            values == wire::arg_values(args@),
            session@ == old(session)@.with_made(arg_specs@, values, version, index as nat),
        decreases arg_specs@.len() - index,
    {
        if let Some((id, interface)) = made_by_arg(&arg_specs[index], &args[index]) {
            session.track_object_interface_version(id, interface, version);
        }
        index = index + 1;
    }
}

/// Notes the objects that a request makes.
pub fn apply_object_tracking(
    session: &mut WaylandClientSession,
    registry: &WaylandProtocolRegistry,
    request: &DecodedWaylandRequest,
)
    ensures
        final(session)@ == old(session)@.objects_tracked(request@),
{
    if let Some(GeneratedTrackedRequest::WlRegistryBind { name: _, id_interface, id_version, id }) =
        &request.tracked_request {
        if let Some(interface) = id_interface {
            session.track_object_interface_version(*id, interface.as_str(), *id_version);
            return;
        }
    }
    let version: u32 = session.version_of(request.object_id);
    if let Some(implemented) = &request.implemented_request {
        if let Some((object_id, interface)) = implemented_request_created_interface(implemented) {
            session.track_object_interface_version(object_id, interface, version);
            return;
        }
    }
    if let Some((_, message)) = registry.request_by_id(request.request_id) {
        apply_object_tracking_from_specs(session, &message.args, &request.args, version);
    }
}

/// Notes what a request says of the client's windows.
pub fn apply_window_tracking(
    session: &mut WaylandClientSession,
    request: &DecodedWaylandRequest,
) -> (result: Result<(), String>)
    ensures
        ended(final(session)@, result, old(session)@.windows_tracked(request@)),
{
    let ghost before = session@;
    let result = track_windows(session, request);
    if result.is_err() {
        return result;
    }
    match &request.implemented_request {
        Some(GeneratedImplementedRequest::XdgSurfaceAckConfigure { serial: _ }) => {
            session.frame_tracker.note_xdg_surface_ack_configure(request.object_id);
        },
        _ => {},
    }
    Ok(())
}

fn track_windows(session: &mut WaylandClientSession, request: &DecodedWaylandRequest) -> (result:
    Result<(), String>)
    ensures
        ended(final(session)@, result, old(session)@.after_step(old(session)@.windows_step(request@))),
{
    match &request.tracked_request {
        Some(GeneratedTrackedRequest::WlSubcompositorGetSubsurface { id, surface, parent }) => {
            if let (Some(surface_id), Some(parent_id)) = (surface, parent) {
                session.frame_tracker.note_subsurface_created(*id, *surface_id, *parent_id);
            }
            Ok(())
        },
        Some(GeneratedTrackedRequest::WlSubsurfaceDestroy) => {
            session.frame_tracker.note_subsurface_destroyed(request.object_id);
            Ok(())
        },
        Some(GeneratedTrackedRequest::WlSubsurfaceSetPosition { x, y }) => {
            session.frame_tracker.note_subsurface_position(request.object_id, *x, *y);
            Ok(())
        },
        Some(GeneratedTrackedRequest::XdgWmBaseGetXdgSurface { id, surface }) => {
            if let Some(surface_id) = surface {
                session.frame_tracker.note_xdg_surface_created(*id, *surface_id);
            }
            Ok(())
        },
        Some(GeneratedTrackedRequest::XdgSurfaceGetToplevel { id }) => {
            match session.frame_tracker.note_xdg_toplevel_created(request.object_id, *id) {
                Ok(_) => Ok(()),
                Err(message) => Err(message),
            }
        },
        Some(GeneratedTrackedRequest::XdgSurfaceSetWindowGeometry { x: _, y: _, width, height }) =>
            session.frame_tracker.note_window_geometry(
                request.object_id,
                clamp_dimension(*width),
                clamp_dimension(*height),
            ),
        Some(GeneratedTrackedRequest::XdgToplevelSetTitle { title }) => {
            session.frame_tracker.note_xdg_toplevel_title(request.object_id, copy_text(title));
            Ok(())
        },
        Some(GeneratedTrackedRequest::XdgToplevelSetAppId { app_id }) => {
            session.frame_tracker.note_xdg_toplevel_app_id(request.object_id, copy_text(app_id));
            Ok(())
        },
        Some(GeneratedTrackedRequest::WpViewporterGetViewport { id, surface }) => {
            if let Some(surface_id) = surface {
                session.frame_tracker.note_viewport_created(*id, *surface_id);
            }
            Ok(())
        },
        Some(GeneratedTrackedRequest::WpViewportDestroy) => {
            session.frame_tracker.note_viewport_destroyed(request.object_id);
            Ok(())
        },
        Some(GeneratedTrackedRequest::WpViewportSetDestination { width, height }) =>
            session.frame_tracker.note_viewport_destination(request.object_id, *width, *height),
        _ => Ok(()),
    }
}

/// Notes what a request says of the client's graphics buffers.
pub fn apply_dmabuf_tracking(
    session: &mut WaylandClientSession,
    request: &DecodedWaylandRequest,
    fds: &[u64],
) -> (result: Result<(), String>)
    ensures
        ended(final(session)@, result, old(session)@.dmabuf_tracked(request@, fds@)),
{
    match &request.tracked_request {
        Some(GeneratedTrackedRequest::ZwpLinuxDmabufV1CreateParams { params_id }) => {
            session.frame_tracker.note_dmabuf_params_created(*params_id);
            Ok(())
        },
        Some(GeneratedTrackedRequest::ZwpLinuxBufferParamsV1Destroy) => {
            session.frame_tracker.destroy_dmabuf_params(request.object_id);
            Ok(())
        },
        Some(
            GeneratedTrackedRequest::ZwpLinuxBufferParamsV1Add {
                fd: _,
                plane_idx,
                offset,
                stride,
                modifier_hi,
                modifier_lo,
            },
        ) => {
            if fds.len() == 0 {
                return Err("zwp_linux_buffer_params_v1.add was missing its fd".to_owned());
            }
            session.frame_tracker.note_dmabuf_plane(
                request.object_id,
                TrackedDmabufPlane {
                    fd: fds[0],
                    plane_idx: *plane_idx,
                    offset: *offset,
                    stride: *stride,
                    modifier: sync_point_from_words(*modifier_hi, *modifier_lo),
                },
            )
        },
        Some(
            GeneratedTrackedRequest::ZwpLinuxBufferParamsV1Create { width, height, format, flags },
        ) => session.frame_tracker.note_dmabuf_create(
            request.object_id,
            clamp_dimension(*width),
            clamp_dimension(*height),
            *format,
            *flags,
        ),
        Some(
            GeneratedTrackedRequest::ZwpLinuxBufferParamsV1CreateImmed {
                buffer_id,
                width,
                height,
                format,
                flags,
            },
        ) => session.frame_tracker.note_dmabuf_create_immed(
            request.object_id,
            *buffer_id,
            clamp_dimension(*width),
            clamp_dimension(*height),
            *format,
            *flags,
        ),
        _ => Ok(()),
    }
}

/// Notes what a request says of the client's synchronisation.
pub fn apply_syncobj_tracking(
    session: &mut WaylandClientSession,
    request: &DecodedWaylandRequest,
    fds: &[u64],
) -> (result: Result<(), String>)
    ensures
        ended(final(session)@, result, old(session)@.syncobj_tracked(request@, fds@)),
{
    match &request.implemented_request {
        Some(
            GeneratedImplementedRequest::WpLinuxDrmSyncobjManagerV1GetSurface { id, surface },
        ) => {
            session.frame_tracker.note_syncobj_surface_created(*id, *surface);
            Ok(())
        },
        Some(
            GeneratedImplementedRequest::WpLinuxDrmSyncobjManagerV1ImportTimeline { id, fd: _ },
        ) => {
            if fds.len() == 0 {
                return Err(
                    "wp_linux_drm_syncobj_manager_v1.import_timeline was missing its fd".to_owned(),
                );
            }
            session.frame_tracker.note_syncobj_timeline_imported(*id, fds[0]);
            Ok(())
        },
        Some(GeneratedImplementedRequest::WpLinuxDrmSyncobjTimelineV1Destroy) => {
            session.frame_tracker.note_syncobj_timeline_destroyed(request.object_id);
            Ok(())
        },
        Some(GeneratedImplementedRequest::WpLinuxDrmSyncobjSurfaceV1Destroy) => {
            session.frame_tracker.note_syncobj_surface_destroyed(request.object_id);
            Ok(())
        },
        Some(
            GeneratedImplementedRequest::WpLinuxDrmSyncobjSurfaceV1SetAcquirePoint {
                timeline,
                point_hi,
                point_lo,
            },
        ) => session.frame_tracker.note_syncobj_acquire_point(
            request.object_id,
            *timeline,
            sync_point_from_words(*point_hi, *point_lo),
        ),
        Some(
            GeneratedImplementedRequest::WpLinuxDrmSyncobjSurfaceV1SetReleasePoint {
                timeline,
                point_hi,
                point_lo,
            },
        ) => session.frame_tracker.note_syncobj_release_point(
            request.object_id,
            *timeline,
            sync_point_from_words(*point_hi, *point_lo),
        ),
        _ => Ok(()),
    }
}

/// Notes what an event says of the client's windows and its keyboard.
pub fn apply_backend_event_tracking(
    session: &mut WaylandClientSession,
    event: &DecodedWaylandEvent,
) -> (result: Result<(), String>)
    ensures
        ended(final(session)@, result, old(session)@.backend_event_tracked(event@)),
{
    match &event.generated_event {
        GeneratedEvent::WlSurfaceEnter { output } => {
            if let Some(output_id) = output {
                session.frame_tracker.note_surface_enter(event.object_id, *output_id);
            }
            Ok(())
        },
        GeneratedEvent::WlSurfaceLeave { output } => {
            if let Some(output_id) = output {
                session.frame_tracker.note_surface_leave(event.object_id, *output_id);
            }
            Ok(())
        },
        GeneratedEvent::XdgSurfaceConfigure { serial: _ } => {
            session.frame_tracker.note_xdg_surface_configure(event.object_id);
            Ok(())
        },
        GeneratedEvent::ZwpLinuxBufferParamsV1Created { buffer } =>
            session.frame_tracker.note_dmabuf_created_from_event(event.object_id, *buffer),
        GeneratedEvent::ZwpLinuxBufferParamsV1Failed => {
            session.frame_tracker.destroy_dmabuf_params(event.object_id);
            Ok(())
        },
        GeneratedEvent::WlKeyboardModifiers {
            serial: _,
            mods_depressed,
            mods_latched,
            mods_locked,
            group,
        } => {
            session.keyboard_mods_depressed = *mods_depressed;
            session.keyboard_mods_latched = *mods_latched;
            session.keyboard_mods_locked = *mods_locked;
            session.keyboard_layout_group = *group;
            Ok(())
        },
        _ => Ok(()),
    }
}

/// Notes an event on its way to the client.
pub fn apply_client_event_tracking(
    session: &mut WaylandClientSession,
    event: &DecodedWaylandEvent,
) -> (result: Result<(), String>)
    ensures
        ended(final(session)@, result, old(session)@.client_event_tracked(event@)),
{
    let version: u32 = session.version_of(event.object_id);
    apply_object_tracking_from_specs(session, &event.arg_specs, &event.args, version);
    if let GeneratedEvent::WlDisplayDeleteId { id } = &event.generated_event {
        session.remove_object(*id);
    }
    apply_backend_event_tracking(session, event)
}

} // verus!
