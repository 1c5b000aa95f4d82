//! What holds of surfaces and windows at all times, whatever a client does.

use crate::decode;
use crate::decode::{BackendEventView, DecodedEventView, RequestView, WireView};
use crate::desktop;
use crate::fds;
use crate::globals::{GlobalView, WaylandInterceptHook, WaylandInterceptKind};
use crate::ingest;
use crate::ingest::BegunView;
use crate::input::{GuiWaylandKeyboardEvent, GuiWaylandPointerEvent};
use crate::messages::{
    EventView, GeneratedHookRequest, GeneratedImplementedRequest, TrackedRequestView,
};
use crate::registry;
use crate::relay::PreparedView;
use crate::server::ServerView;
use crate::session::{BackendView, SessionView};
use crate::snapshot;
use crate::surface;
use crate::surface::{
    DamageRect, PendingDmabufCreate, SurfaceView, TargetView, TrackedDmabufPlane, WindowInfoView,
    WindowView,
};
use crate::table;
use crate::text;
use crate::tracker;
use crate::tracker::{ShmBufferSpec, TrackerView};
use crate::windows;
use crate::wire;
use crate::wire::{ArgView, GeneratedArgSpec};
use vstd::prelude::*;

verus! {

impl TrackerView {
    /// Whether a surface is kept under its own number, and was not committed later
    /// than the last commit.
    pub open spec fn surface_in_order(self, id: u32) -> bool {
        self.surfaces.contains_key(id) ==> self.surfaces[id].id == id
            && self.surfaces[id].commit_serial <= self.next_commit_serial
    }

    /// Whether a window has a number that was given out, a size, and two known
    /// surfaces, of which the one that shows it belongs to it.
    pub open spec fn window_in_order(self, number: u64) -> bool {
        self.windows.contains_key(number) ==> {
            let window = self.windows[number];
            &&& 0 < number <= self.next_window_id
            &&& window.width > 0
            &&& window.height > 0
            &&& self.surfaces.contains_key(window.input_surface_id)
            &&& self.surfaces.contains_key(window.wl_surface_id)
            &&& self.surface_to_window.contains_key(window.wl_surface_id)
            &&& self.surface_to_window[window.wl_surface_id] == number
        }
    }

    /// Whether a window was committed when the surface was that shows it.
    pub open spec fn window_up_to_date(self, number: u64) -> bool {
        self.windows.contains_key(number) ==> self.windows[number].commit_serial
            == self.surfaces[self.windows[number].wl_surface_id].commit_serial
    }

    /// Whether a surface belongs to a window whose number was given out.
    pub open spec fn membership_in_order(self, surface_id: u32) -> bool {
        self.surface_to_window.contains_key(surface_id) ==> 0 < self.surface_to_window[surface_id]
            <= self.next_window_id
    }

    /// What holds but for windows that a surface shows, which need not be up to
    /// date.
    pub open spec fn in_order_but_for(self, surface_id: u32) -> bool {
        &&& forall|id: u32| #[trigger] self.surface_in_order(id)
        &&& forall|number: u64| #[trigger] self.window_in_order(number)
        &&& forall|id: u32| #[trigger] self.membership_in_order(id)
        &&& forall|number: u64|
            self.windows[number].wl_surface_id != surface_id ==> #[trigger] self.window_up_to_date(
                number,
            )
    }

    /// What holds at all times.
    pub open spec fn in_order(self) -> bool {
        &&& forall|id: u32| #[trigger] self.surface_in_order(id)
        &&& forall|number: u64| #[trigger] self.window_in_order(number)
        &&& forall|id: u32| #[trigger] self.membership_in_order(id)
        &&& forall|number: u64| #[trigger] self.window_up_to_date(number)
    }

    /// Whether everything is in order, and windows are still named alike.
    pub open spec fn keeps_order_of(self, before: TrackerView) -> bool {
        self.in_order() && self.prefix == before.prefix
    }
}

/// What does not touch surfaces and windows keeps them in order.
proof fn the_rest_does_not_matter(before: TrackerView, after: TrackerView)
    requires
        before.in_order(),
        after.surfaces == before.surfaces,
        after.windows == before.windows,
        after.surface_to_window == before.surface_to_window,
        after.next_commit_serial == before.next_commit_serial,
        after.next_window_id == before.next_window_id,
        after.prefix == before.prefix,
    ensures
        after.keeps_order_of(before),
{
    assert forall|id: u32| #[trigger] after.surface_in_order(id) by {
        assert(before.surface_in_order(id));
    }
    assert forall|id: u32| #[trigger] after.membership_in_order(id) by {
        assert(before.membership_in_order(id));
    }
    assert forall|number: u64| #[trigger] after.window_in_order(number) by {
        assert(before.window_in_order(number));
    }
    assert forall|number: u64| #[trigger] after.window_up_to_date(number) by {
        assert(before.window_up_to_date(number));
    }
}

/// A surface may be replaced; windows that it shows are then out of date.
proof fn surface_is_replaced(known: TrackerView, id: u32, changed: SurfaceView)
    requires
        known.in_order(),
        changed.id == id,
        changed.commit_serial <= known.next_commit_serial,
    ensures
        known.with_surface(id, changed).in_order_but_for(id),
        changed.commit_serial == known.surface(id).commit_serial ==> known.with_surface(
            id,
            changed,
        ).in_order(),
{
    let after = known.with_surface(id, changed);
    assert forall|other: u32| #[trigger] after.surface_in_order(other) by {
        assert(known.surface_in_order(other));
    }
    assert forall|other: u32| #[trigger] after.membership_in_order(other) by {
        assert(known.membership_in_order(other));
    }
    assert forall|number: u64| #[trigger] after.window_in_order(number) by {
        assert(known.window_in_order(number));
    }
    assert forall|number: u64|
        (after.windows[number].wl_surface_id != id || changed.commit_serial == known.surface(
            id,
        ).commit_serial) implies #[trigger] after.window_up_to_date(number) by {
        assert(known.window_up_to_date(number));
        assert(known.window_in_order(number));
    }
}

proof fn window_is_ensured(known: TrackerView, id: u32, changed: u32)
    requires
        known.in_order_but_for(changed),
    ensures
        known.window_ensured(id).in_order_but_for(changed),
        known.in_order() ==> known.window_ensured(id).in_order(),
        known.window_ensured(id).surface_to_window.contains_key(id),
        known.window_ensured(id).surface_to_window[id] == known.window_of(id),
        known.window_ensured(id).next_commit_serial == known.next_commit_serial,
        known.window_ensured(id).surface(id) == known.surface(id),
{
    let after = known.window_ensured(id);
    if !known.surface_to_window.contains_key(id) {
        let added = tracker::number_after(known.next_window_id);
        assert forall|other: u32| #[trigger] after.surface_in_order(other) by {
            assert(known.surface_in_order(other));
        }
        assert forall|other: u32| #[trigger] after.membership_in_order(other) by {
            assert(known.membership_in_order(other));
        }
        assert forall|number: u64| #[trigger] after.window_in_order(number) by {
            assert(known.window_in_order(number));
        }
        assert forall|number: u64|
            after.windows[number].wl_surface_id != changed || known.in_order() implies #[trigger] after.window_up_to_date(
            number,
        ) by {
            assert(known.window_in_order(number));
            if number != added {
                assert(known.window_up_to_date(number));
            }
        }
    }
}

/// Bringing a surface's window up to date puts everything in order.
proof fn update_puts_in_order(known: TrackerView, id: u32)
    requires
        known.in_order_but_for(id),
        known.surface_to_window.contains_key(id),
    ensures
        ({
            let number = known.surface_to_window[id];
            &&& known.promoted(number, id).in_order_but_for(id)
            &&& known.promoted(number, id).surface_to_window == known.surface_to_window
            &&& known.promoted(number, id).window_updated(number, id).in_order()
        }),
{
    let number = known.surface_to_window[id];
    let promoted = known.promoted(number, id);
    let after = promoted.window_updated(number, id);
    assert forall|other: u32| #[trigger] promoted.surface_in_order(other) by {
        assert(known.surface_in_order(other));
    }
    assert forall|other: u32| #[trigger] promoted.membership_in_order(other) by {
        assert(known.membership_in_order(other));
    }
    assert forall|other: u64| #[trigger] promoted.window_in_order(other) by {
        assert(known.window_in_order(other));
    }
    assert forall|other: u64|
        promoted.windows[other].wl_surface_id != id implies #[trigger] promoted.window_up_to_date(
        other,
    ) by {
        assert(known.window_up_to_date(other));
    }
    assert forall|other: u32| #[trigger] after.surface_in_order(other) by {
        assert(promoted.surface_in_order(other));
    }
    assert forall|other: u32| #[trigger] after.membership_in_order(other) by {
        assert(promoted.membership_in_order(other));
    }
    assert forall|other: u64| #[trigger] after.window_in_order(other) by {
        assert(promoted.window_in_order(other));
    }
    assert forall|other: u64| #[trigger] after.window_up_to_date(other) by {
        assert(promoted.window_in_order(other));
        if promoted.windows[other].wl_surface_id != id {
            assert(promoted.window_up_to_date(other));
        }
    }
}

proof fn syncing_puts_in_order(known: TrackerView, id: u32)
    requires
        known.in_order_but_for(id),
    ensures
        known.synced(id).keeps_order_of(known),
        known.synced(id).next_commit_serial == known.next_commit_serial,
{
    window_is_ensured(known, id, id);
    update_puts_in_order(known.window_ensured(id), id);
}

proof fn change_keeps_order(known: TrackerView, id: u32, changed: SurfaceView)
    requires
        known.in_order(),
        changed.id == id,
        changed.commit_serial <= known.next_commit_serial,
    ensures
        known.surface_changed(id, changed).keeps_order_of(known),
        known.surface_changed(id, changed).next_commit_serial == known.next_commit_serial,
{
    surface_is_replaced(known, id, changed);
    syncing_puts_in_order(known.with_surface(id, changed), id);
}

proof fn surface_is_its_own(known: TrackerView, id: u32)
    requires
        known.in_order(),
    ensures
        known.surface(id).id == id,
        known.surface(id).commit_serial <= known.next_commit_serial,
{
    assert(known.surface_in_order(id));
}

proof fn in_order_but_for_none(known: TrackerView, id: u32)
    requires
        known.in_order(),
    ensures
        known.in_order_but_for(id),
{
}

/// Nothing is out of order before anything happened.
pub proof fn nothing_is_in_order(prefix: Seq<char>)
    ensures
        TrackerView::empty(prefix).in_order(),
{
}

/// What happens to buffers and the memory behind them leaves surfaces and windows
/// in order.
pub proof fn buffers_keep_order(
    known: TrackerView,
    id: u32,
    other: u32,
    fd: u64,
    size: usize,
    buffer: ShmBufferSpec,
    plane: TrackedDmabufPlane,
    create: PendingDmabufCreate,
)
    requires
        known.in_order(),
    ensures
        known.pool_created(id, fd, size).keeps_order_of(known),
        known.pool_resized(id, size) matches Ok(after) ==> after.keeps_order_of(known),
        known.pool_destroyed(id).keeps_order_of(known),
        known.shm_buffer_created(buffer) matches Ok(after) ==> after.keeps_order_of(known),
        known.params_created(id).keeps_order_of(known),
        known.params_destroyed(id).keeps_order_of(known),
        known.plane_added(id, plane) matches Ok(after) ==> after.keeps_order_of(known),
        known.dmabuf_created_at_once(id, other, create) matches Ok(after) ==> after.keeps_order_of(
            known,
        ),
        known.dmabuf_requested(id, create) matches Ok(after) ==> after.keeps_order_of(known),
        known.dmabuf_created(id, other) matches Ok(after) ==> after.keeps_order_of(known),
        known.timeline_imported(id, fd).keeps_order_of(known),
        known.timeline_destroyed(id).keeps_order_of(known),
        known.buffer_destroyed(id).keeps_order_of(known),
{
    the_rest_does_not_matter(known, known.pool_created(id, fd, size));
    if let Ok(after) = known.pool_resized(id, size) {
        the_rest_does_not_matter(known, after);
    }
    the_rest_does_not_matter(known, known.pool_destroyed(id));
    if let Ok(after) = known.shm_buffer_created(buffer) {
        the_rest_does_not_matter(known, after);
    }
    the_rest_does_not_matter(known, known.params_created(id));
    the_rest_does_not_matter(known, known.params_destroyed(id));
    if let Ok(after) = known.plane_added(id, plane) {
        the_rest_does_not_matter(known, after);
    }
    if let Ok(after) = known.dmabuf_created_at_once(id, other, create) {
        the_rest_does_not_matter(known, after);
    }
    if let Ok(after) = known.dmabuf_requested(id, create) {
        the_rest_does_not_matter(known, after);
    }
    if let Ok(after) = known.dmabuf_created(id, other) {
        the_rest_does_not_matter(known, after);
    }
    the_rest_does_not_matter(known, known.timeline_imported(id, fd));
    the_rest_does_not_matter(known, known.timeline_destroyed(id));
    let gone = known.buffer_destroyed(id);
    assert forall|surface_id: u32| #[trigger] gone.surface_in_order(surface_id) by {
        assert(known.surface_in_order(surface_id));
    }
    assert forall|surface_id: u32| #[trigger] gone.membership_in_order(surface_id) by {
        assert(known.membership_in_order(surface_id));
    }
    assert forall|number: u64| #[trigger] gone.window_in_order(number) by {
        assert(known.window_in_order(number));
    }
    assert forall|number: u64| #[trigger] gone.window_up_to_date(number) by {
        assert(known.window_in_order(number));
        assert(known.window_up_to_date(number));
    }
}

/// What happens to a surface leaves surfaces and windows in order.
pub proof fn surfaces_keep_order(
    known: TrackerView,
    id: u32,
    other: Option<u32>,
    rect: DamageRect,
    timeline: Option<u32>,
    point: u64,
)
    requires
        known.in_order(),
    ensures
        known.attached(id, other).keeps_order_of(known),
        known.damaged(id, rect).keeps_order_of(known),
        known.committed(id).keeps_order_of(known),
        known.configure_seen(id).keeps_order_of(known),
        known.configure_acked(id).keeps_order_of(known),
        known.syncobj_surface_created(id, other).keeps_order_of(known),
        known.syncobj_surface_destroyed(id).keeps_order_of(known),
        known.acquire_set(id, timeline, point) matches Ok(after) ==> after.keeps_order_of(known),
        known.release_set(id, timeline, point) matches Ok(after) ==> after.keeps_order_of(known),
{
    let ensured = known.window_ensured(id);
    window_is_ensured(known, id, id);
    surface_is_its_own(known, id);
    surface_is_its_own(ensured, id);
    change_keeps_order(ensured, id, ensured.with_attached(ensured.surface(id), other));
    surface_is_replaced(
        known,
        id,
        SurfaceView { damage: known.surface(id).damage.push(rect), ..known.surface(id) },
    );
    commit_keeps_order(known, id);
    let shown = known.xdg_surface_to_surface[id];
    surface_is_its_own(known, shown);
    change_keeps_order(
        known,
        shown,
        SurfaceView { xdg_configure_seen: true, ..known.surface(shown) },
    );
    change_keeps_order(
        known,
        shown,
        SurfaceView { xdg_configure_acked: true, ..known.surface(shown) },
    );
    if let Some(surface_id) = other {
        let linked = TrackerView {
            syncobj_surface_to_surface: known.syncobj_surface_to_surface.insert(id, surface_id),
            ..known
        };
        the_rest_does_not_matter(known, linked);
        window_is_ensured(linked, surface_id, surface_id);
    }
    the_rest_does_not_matter(known, known.syncobj_surface_destroyed(id));
    let synced = known.syncobj_surface_to_surface[id];
    surface_is_its_own(known, synced);
    let wanted = surface::TrackedSyncPoint { timeline_id: timeline, point };
    change_keeps_order(
        known,
        synced,
        SurfaceView { pending_acquire: Some(wanted), ..known.surface(synced) },
    );
    change_keeps_order(
        known,
        synced,
        SurfaceView { pending_release: Some(wanted), ..known.surface(synced) },
    );
}

proof fn commit_keeps_order(known: TrackerView, id: u32)
    requires
        known.in_order(),
    ensures
        known.committed(id).keeps_order_of(known),
{
    window_is_ensured(known, id, id);
    let ensured = known.window_ensured(id);
    let serial = tracker::number_after(ensured.next_commit_serial);
    let numbered = TrackerView { next_commit_serial: serial, ..ensured };
    surface_is_its_own(ensured, id);
    assert forall|other: u32| #[trigger] numbered.surface_in_order(other) by {
        assert(ensured.surface_in_order(other));
    }
    assert forall|other: u32| #[trigger] numbered.membership_in_order(other) by {
        assert(ensured.membership_in_order(other));
    }
    assert forall|number: u64| #[trigger] numbered.window_in_order(number) by {
        assert(ensured.window_in_order(number));
    }
    assert forall|number: u64| #[trigger] numbered.window_up_to_date(number) by {
        assert(ensured.window_up_to_date(number));
    }
    change_keeps_order(
        numbered,
        id,
        TrackerView::with_committed(ensured.surface(id), serial),
    );
}

/// What happens to the roles of surfaces and to the windows that they make up
/// leaves surfaces and windows in order.
pub proof fn windows_keep_order(
    known: TrackerView,
    id: u32,
    surface_id: u32,
    parent_id: u32,
    name: Option<Seq<char>>,
    width: u32,
    height: u32,
)
    requires
        known.in_order(),
    ensures
        known.xdg_surface_created(id, surface_id).keeps_order_of(known),
        known.toplevel_created(id, surface_id) matches Ok(after) ==> after.keeps_order_of(known),
        known.titled(id, name).keeps_order_of(known),
        known.named(id, name).keeps_order_of(known),
        known.geometry_set(id, width, height) matches Ok(after) ==> after.keeps_order_of(known),
        known.subsurface_created(id, surface_id, parent_id).keeps_order_of(known),
        known.subsurface_destroyed(id).keeps_order_of(known),
        known.output_entered(surface_id, id).keeps_order_of(known),
        known.output_left(surface_id, id).keeps_order_of(known),
{
    the_rest_does_not_matter(known, known.xdg_surface_created(id, surface_id));
    the_rest_does_not_matter(known, known.subsurface_destroyed(id));
    if known.xdg_surface_to_surface.contains_key(id) {
        toplevel_keeps_order(known, id, surface_id);
    }
    let titled = known.xdg_toplevel_to_window[id];
    if known.has_window(id) {
        assert(known.window_in_order(titled));
        changed_window_keeps_order(
            known,
            titled,
            WindowView { title: name, ..known.windows[titled] },
        );
        changed_window_keeps_order(
            known,
            titled,
            WindowView { app_id: name, ..known.windows[titled] },
        );
    }
    let sized = known.surface_to_window[known.xdg_surface_to_surface[id]];
    if known.windows.contains_key(sized) {
        changed_window_keeps_order(
            known,
            sized,
            WindowView {
                width: surface::at_least_one(width),
                height: surface::at_least_one(height),
                ..known.windows[sized]
            },
        );
    }
    part_keeps_order(known, id, surface_id, parent_id);
    surface_is_its_own(known, surface_id);
    let shown = known.surface(surface_id);
    change_keeps_order(
        known,
        surface_id,
        SurfaceView { output_ids: shown.output_ids.insert(id), ..shown },
    );
    change_keeps_order(
        known,
        surface_id,
        SurfaceView { output_ids: shown.output_ids.remove(id), ..shown },
    );
}

proof fn changed_window_keeps_order(known: TrackerView, number: u64, window: WindowView)
    requires
        known.in_order(),
        known.windows.contains_key(number),
        window.width > 0,
        window.height > 0,
        window.wl_surface_id == known.windows[number].wl_surface_id,
        window.input_surface_id == known.windows[number].input_surface_id,
        window.commit_serial == known.windows[number].commit_serial,
    ensures
        known.with_window(number, window).keeps_order_of(known),
{
    let after = known.with_window(number, window);
    assert forall|other: u32| #[trigger] after.surface_in_order(other) by {
        assert(known.surface_in_order(other));
    }
    assert forall|other: u32| #[trigger] after.membership_in_order(other) by {
        assert(known.membership_in_order(other));
    }
    assert forall|other: u64| #[trigger] after.window_in_order(other) by {
        assert(known.window_in_order(other));
    }
    assert forall|other: u64| #[trigger] after.window_up_to_date(other) by {
        assert(known.window_up_to_date(other));
    }
}

proof fn toplevel_keeps_order(known: TrackerView, xdg_surface_id: u32, xdg_toplevel_id: u32)
    requires
        known.in_order(),
        known.xdg_surface_to_surface.contains_key(xdg_surface_id),
    ensures
        known.toplevel_created(xdg_surface_id, xdg_toplevel_id)->Ok_0.keeps_order_of(known),
{
    let id = known.xdg_surface_to_surface[xdg_surface_id];
    window_is_ensured(known, id, id);
    let ensured = known.window_ensured(id);
    surface_is_its_own(ensured, id);
    let linked = TrackerView {
        xdg_toplevel_to_window: ensured.xdg_toplevel_to_window.insert(
            xdg_toplevel_id,
            known.window_of(id),
        ),
        ..ensured
    };
    the_rest_does_not_matter(ensured, linked);
    surface_is_replaced(linked, id, linked.surface(id));
    let placed = linked.with_surface(id, linked.surface(id));
    let after = known.toplevel_created(xdg_surface_id, xdg_toplevel_id)->Ok_0;
    assert forall|other: u32| #[trigger] after.surface_in_order(other) by {
        assert(placed.surface_in_order(other));
    }
    assert forall|other: u32| #[trigger] after.membership_in_order(other) by {
        assert(placed.membership_in_order(other));
    }
    assert forall|number: u64| #[trigger] after.window_in_order(number) by {
        assert(placed.window_in_order(number));
        assert(placed.membership_in_order(id));
    }
    assert forall|number: u64| #[trigger] after.window_up_to_date(number) by {
        assert(placed.window_up_to_date(number));
    }
}

proof fn part_keeps_order(known: TrackerView, subsurface_id: u32, surface_id: u32, parent_id: u32)
    requires
        known.in_order(),
    ensures
        known.subsurface_created(subsurface_id, surface_id, parent_id).keeps_order_of(known),
{
    let linked = TrackerView {
        subsurface_to_surface: known.subsurface_to_surface.insert(subsurface_id, surface_id),
        surface_parent: known.surface_parent.insert(surface_id, parent_id),
        surface_position: if known.surface_position.contains_key(surface_id) {
            known.surface_position
        } else {
            known.surface_position.insert(surface_id, (0i32, 0i32))
        },
        ..known
    };
    the_rest_does_not_matter(known, linked);
    let number = linked.window_of(parent_id);
    window_is_ensured(linked, parent_id, parent_id);
    let ensured = linked.window_ensured(parent_id);
    let own = ensured.surface_to_window.contains_key(surface_id)
        && ensured.surface_to_window[surface_id] != number;
    let joined = TrackerView {
        surface_to_window: ensured.surface_to_window.insert(surface_id, number),
        windows: if own {
            ensured.windows.remove(ensured.surface_to_window[surface_id])
        } else {
            ensured.windows
        },
        ..ensured
    };
    assert forall|other: u32| #[trigger] joined.surface_in_order(other) by {
        assert(ensured.surface_in_order(other));
    }
    assert forall|other: u32| #[trigger] joined.membership_in_order(other) by {
        assert(ensured.membership_in_order(other));
        assert(ensured.membership_in_order(parent_id));
    }
    assert forall|other: u64| #[trigger] joined.window_in_order(other) by {
        assert(ensured.window_in_order(other));
    }
    assert forall|other: u64| #[trigger] joined.window_up_to_date(other) by {
        assert(ensured.window_up_to_date(other));
    }
    in_order_but_for_none(joined, surface_id);
    update_puts_in_order(joined, surface_id);
    syncing_puts_in_order(joined.promoted(number, surface_id), surface_id);
}

/// What happens to the parts of surfaces and to viewports leaves surfaces and
/// windows in order.
pub proof fn viewports_keep_order(
    known: TrackerView,
    id: u32,
    surface_id: u32,
    width: i32,
    height: i32,
)
    requires
        known.in_order(),
    ensures
        known.subsurface_moved(id, width, height).keeps_order_of(known),
        known.viewport_created(id, surface_id).keeps_order_of(known),
        known.viewport_destroyed(id).keeps_order_of(known),
        known.viewport_set(id, width, height) matches Ok(after) ==> after.keeps_order_of(known),
{
    the_rest_does_not_matter(known, known.subsurface_moved(id, width, height));
    let linked = TrackerView {
        viewport_to_surface: known.viewport_to_surface.insert(id, surface_id),
        ..known
    };
    the_rest_does_not_matter(known, linked);
    window_is_ensured(linked, surface_id, surface_id);
    let shown = known.viewport_to_surface[id];
    let parted = TrackerView { viewport_to_surface: known.viewport_to_surface.remove(id), ..known };
    the_rest_does_not_matter(known, parted);
    surface_is_its_own(known, shown);
    surface_is_its_own(parted, shown);
    change_keeps_order(
        parted,
        shown,
        SurfaceView { viewport_destination: None, ..parted.surface(shown) },
    );
    let destination = if width == -1 && height == -1 {
        None
    } else {
        Some((tracker::clamped(width), tracker::clamped(height)))
    };
    change_keeps_order(
        known,
        shown,
        SurfaceView { viewport_destination: destination, ..known.surface(shown) },
    );
}

/// A commit is newer than all before it: its serial is greater than that of any
/// surface and any window, and no other surface gets a new one.
pub proof fn commit_is_newer(known: TrackerView, id: u32, other: u32, number: u64)
    requires
        known.in_order(),
        known.next_commit_serial < u64::MAX,
    ensures
        ({
            let after = known.committed(id);
            &&& after.surfaces.contains_key(id)
            &&& after.next_commit_serial == known.next_commit_serial + 1
            &&& after.surfaces[id].commit_serial == after.next_commit_serial
            &&& known.surfaces.contains_key(other) ==> known.surfaces[other].commit_serial
                < after.surfaces[id].commit_serial
            &&& known.windows.contains_key(number) ==> known.windows[number].commit_serial
                < after.surfaces[id].commit_serial
            &&& other != id ==> after.surfaces.contains_key(other) == known.surfaces.contains_key(
                other,
            ) && (known.surfaces.contains_key(other) ==> after.surfaces[other]
                == known.surfaces[other])
        }),
{
    assert(known.surface_in_order(other));
    assert(known.window_in_order(number));
    assert(known.window_up_to_date(number));
    if known.windows.contains_key(number) {
        assert(known.surface_in_order(known.windows[number].wl_surface_id));
    }
}

/// A commit of the surface that shows a window is a commit of the window.
pub proof fn commit_reaches_its_window(known: TrackerView, id: u32, number: u64)
    requires
        known.in_order(),
    ensures
        ({
            let after = known.committed(id);
            after.windows.contains_key(number) && after.windows[number].wl_surface_id == id
                ==> after.windows[number].commit_serial == after.next_commit_serial
        }),
{
    commit_keeps_order(known, id);
    let after = known.committed(id);
    assert(after.window_up_to_date(number));
    commit_has_the_last_serial(known, id);
}

proof fn commit_has_the_last_serial(known: TrackerView, id: u32)
    ensures
        known.committed(id).surfaces[id].commit_serial == known.committed(id).next_commit_serial,
{
}

proof fn windows_step_keeps_order(client: SessionView, request: RequestView)
    requires
        client.tracker.in_order(),
    ensures
        client.windows_tracked(request).0.tracker.keeps_order_of(client.tracker),
{
    let known = client.tracker;
    let id = request.object_id;
    match request.tracked_request {
        Some(
            TrackedRequestView::WlSubcompositorGetSubsurface {
                id: made,
                surface: Some(part),
                parent: Some(parent),
            },
        ) => {
            windows_keep_order(known, made, part, parent, None, 1, 1);
        },
        Some(TrackedRequestView::WlSubsurfaceDestroy) => {
            windows_keep_order(known, id, 0, 0, None, 1, 1);
        },
        Some(TrackedRequestView::WlSubsurfaceSetPosition { x, y }) => {
            viewports_keep_order(known, id, 0, x, y);
        },
        Some(TrackedRequestView::XdgWmBaseGetXdgSurface { id: made, surface: Some(shown) }) => {
            windows_keep_order(known, made, shown, 0, None, 1, 1);
        },
        Some(TrackedRequestView::XdgSurfaceGetToplevel { id: made }) => {
            windows_keep_order(known, id, made, 0, None, 1, 1);
        },
        Some(TrackedRequestView::XdgSurfaceSetWindowGeometry { width, height, .. }) => {
            windows_keep_order(
                known,
                id,
                0,
                0,
                None,
                tracker::clamped(width),
                tracker::clamped(height),
            );
        },
        Some(TrackedRequestView::XdgToplevelSetTitle { title }) => {
            windows_keep_order(known, id, 0, 0, title, 1, 1);
        },
        Some(TrackedRequestView::XdgToplevelSetAppId { app_id }) => {
            windows_keep_order(known, id, 0, 0, app_id, 1, 1);
        },
        Some(TrackedRequestView::WpViewporterGetViewport { id: made, surface: Some(shown) }) => {
            viewports_keep_order(known, made, shown, 1, 1);
        },
        Some(TrackedRequestView::WpViewportDestroy) => {
            viewports_keep_order(known, id, 0, 1, 1);
        },
        Some(TrackedRequestView::WpViewportSetDestination { width, height }) => {
            viewports_keep_order(known, id, 0, width, height);
        },
        _ => {},
    }
    if let Ok(after) = client.windows_step(request) {
        surfaces_keep_order(
            after,
            id,
            None,
            DamageRect { x: 0, y: 0, width: 0, height: 0 },
            None,
            0,
        );
    }
}

proof fn buffers_step_keeps_order(client: SessionView, request: RequestView, message_fds: Seq<u64>)
    requires
        client.tracker.in_order(),
    ensures
        client.dmabuf_tracked(request, message_fds).0.tracker.keeps_order_of(client.tracker),
{
    let known = client.tracker;
    let no_buffer = arbitrary::<ShmBufferSpec>();
    let no_plane = arbitrary::<TrackedDmabufPlane>();
    let no_create = arbitrary::<PendingDmabufCreate>();
    match request.tracked_request {
        Some(TrackedRequestView::ZwpLinuxDmabufV1CreateParams { params_id }) => {
            buffers_keep_order(known, params_id, 0, 0, 0, no_buffer, no_plane, no_create);
        },
        Some(
            TrackedRequestView::ZwpLinuxBufferParamsV1Add {
                plane_idx,
                offset,
                stride,
                modifier_hi,
                modifier_lo,
                ..
            },
        ) => {
            buffers_keep_order(
                known,
                request.object_id,
                0,
                0,
                0,
                no_buffer,
                TrackedDmabufPlane {
                    fd: message_fds[0],
                    plane_idx,
                    offset,
                    stride,
                    modifier: tracker::sync_point(modifier_hi, modifier_lo),
                },
                no_create,
            );
        },
        Some(TrackedRequestView::ZwpLinuxBufferParamsV1Create { width, height, format, flags }) => {
            let create = PendingDmabufCreate {
                width: tracker::clamped(width),
                height: tracker::clamped(height),
                format,
                flags,
            };
            buffers_keep_order(known, request.object_id, 0, 0, 0, no_buffer, no_plane, create);
        },
        Some(
            TrackedRequestView::ZwpLinuxBufferParamsV1CreateImmed {
                buffer_id,
                width,
                height,
                format,
                flags,
            },
        ) => {
            let create = PendingDmabufCreate {
                width: tracker::clamped(width),
                height: tracker::clamped(height),
                format,
                flags,
            };
            buffers_keep_order(
                known,
                request.object_id,
                buffer_id,
                0,
                0,
                no_buffer,
                no_plane,
                create,
            );
        },
        _ => {
            buffers_keep_order(known, request.object_id, 0, 0, 0, no_buffer, no_plane, no_create);
        },
    }
}

proof fn points_step_keeps_order(client: SessionView, request: RequestView, message_fds: Seq<u64>)
    requires
        client.tracker.in_order(),
    ensures
        client.syncobj_tracked(request, message_fds).0.tracker.keeps_order_of(client.tracker),
{
    let known = client.tracker;
    let id = request.object_id;
    let nowhere = DamageRect { x: 0, y: 0, width: 0, height: 0 };
    match request.implemented_request {
        Some(
            GeneratedImplementedRequest::WpLinuxDrmSyncobjManagerV1GetSurface { id: made, surface },
        ) => {
            surfaces_keep_order(known, made, surface, nowhere, None, 0);
        },
        Some(
            GeneratedImplementedRequest::WpLinuxDrmSyncobjManagerV1ImportTimeline { id: made, .. },
        ) => {
            the_rest_does_not_matter(known, known.timeline_imported(made, message_fds[0]));
        },
        Some(GeneratedImplementedRequest::WpLinuxDrmSyncobjTimelineV1Destroy) => {
            the_rest_does_not_matter(known, known.timeline_destroyed(id));
        },
        Some(GeneratedImplementedRequest::WpLinuxDrmSyncobjSurfaceV1Destroy) => {
            the_rest_does_not_matter(known, known.syncobj_surface_destroyed(id));
        },
        Some(
            GeneratedImplementedRequest::WpLinuxDrmSyncobjSurfaceV1SetAcquirePoint {
                timeline,
                point_hi,
                point_lo,
            },
        ) => {
            surfaces_keep_order(
                known,
                id,
                None,
                nowhere,
                timeline,
                tracker::sync_point(point_hi, point_lo),
            );
        },
        Some(
            GeneratedImplementedRequest::WpLinuxDrmSyncobjSurfaceV1SetReleasePoint {
                timeline,
                point_hi,
                point_lo,
            },
        ) => {
            surfaces_keep_order(
                known,
                id,
                None,
                nowhere,
                timeline,
                tracker::sync_point(point_hi, point_lo),
            );
        },
        _ => {},
    }
}

proof fn hook_keeps_order(
    known: TrackerView,
    kind: WaylandInterceptKind,
    id: u32,
    request: GeneratedHookRequest,
)
    requires
        known.in_order(),
    ensures
        ingest::hooked(known, kind, id, request).keeps_order_of(known),
{
    let nowhere = DamageRect { x: 0, y: 0, width: 0, height: 0 };
    match request {
        GeneratedHookRequest::WlSurfaceAttach { buffer, .. } => {
            surfaces_keep_order(known, id, buffer, nowhere, None, 0);
        },
        GeneratedHookRequest::WlSurfaceDamage { x, y, width, height } => {
            surfaces_keep_order(known, id, None, DamageRect { x, y, width, height }, None, 0);
        },
        GeneratedHookRequest::WlSurfaceDamageBuffer { x, y, width, height } => {
            surfaces_keep_order(known, id, None, DamageRect { x, y, width, height }, None, 0);
        },
        _ => {
            surfaces_keep_order(known, id, None, nowhere, None, 0);
        },
    }
}

proof fn hooks_keep_order(
    known: TrackerView,
    hooks: Seq<WaylandInterceptHook>,
    id: u32,
    request: GeneratedHookRequest,
)
    requires
        known.in_order(),
    ensures
        ingest::hooked_all(known, hooks, id, request).keeps_order_of(known),
    decreases hooks.len(),
{
    if hooks.len() > 0 {
        hooks_keep_order(known, hooks.drop_last(), id, request);
        hook_keeps_order(
            ingest::hooked_all(known, hooks.drop_last(), id, request),
            hooks.last().kind,
            id,
            request,
        );
    }
}

proof fn made_objects_do_not_matter(
    client: SessionView,
    specs: Seq<GeneratedArgSpec>,
    args: Seq<ArgView>,
    version: u32,
    count: nat,
)
    ensures
        client.with_made(specs, args, version, count).tracker == client.tracker,
    decreases count,
{
    if count > 0 {
        made_objects_do_not_matter(client, specs, args, version, (count - 1) as nat);
    }
}

proof fn request_objects_do_not_matter(client: SessionView, request: RequestView)
    ensures
        client.objects_tracked(request).tracker == client.tracker,
{
    if let Some((_, message)) = registry::entry_of(request.request_id) {
        made_objects_do_not_matter(
            client,
            message.args,
            request.args,
            client.version(request.object_id),
            decode::common(message.args, request.args),
        );
    }
}

/// Noting a request leaves a client's surfaces and windows in order.
pub proof fn noted_request_keeps_order(
    client: SessionView,
    request: RequestView,
    message_fds: Seq<u64>,
    hooks: Seq<WaylandInterceptHook>,
)
    requires
        client.tracker.in_order(),
    ensures
        client.noted(request, message_fds, hooks).0.tracker.keeps_order_of(client.tracker),
{
    request_objects_do_not_matter(client, request);
    windows_step_keeps_order(client.objects_tracked(request), request);
    let windows = client.objects_tracked(request).windows_tracked(request);
    buffers_step_keeps_order(windows.0, request, message_fds);
    let buffers = windows.0.dmabuf_tracked(request, message_fds);
    points_step_keeps_order(buffers.0, request, message_fds);
    let synced = buffers.0.syncobj_tracked(request, message_fds);
    if let Some(hook) = request.hook_request {
        let known = synced.0.tracker;
        let colored = TrackerView {
            colors: known.colors.after(request.object_id, hook),
            ..known
        };
        the_rest_does_not_matter(known, colored);
        hooks_keep_order(colored, hooks, request.object_id, hook);
    }
}

/// Noting an event leaves a client's surfaces and windows in order.
pub proof fn noted_event_keeps_order(client: SessionView, event: DecodedEventView)
    requires
        client.tracker.in_order(),
    ensures
        client.client_event_tracked(event).0.tracker.keeps_order_of(client.tracker),
{
    made_objects_do_not_matter(
        client,
        event.arg_specs,
        event.args,
        client.version(event.object_id),
        decode::common(event.arg_specs, event.args),
    );
    let known = client.tracker;
    let id = event.object_id;
    let nowhere = DamageRect { x: 0, y: 0, width: 0, height: 0 };
    match event.generated_event {
        EventView::WlSurfaceEnter { output: Some(output) } => {
            windows_keep_order(known, output, id, 0, None, 1, 1);
        },
        EventView::WlSurfaceLeave { output: Some(output) } => {
            windows_keep_order(known, output, id, 0, None, 1, 1);
        },
        EventView::XdgSurfaceConfigure { .. } => {
            surfaces_keep_order(known, id, None, nowhere, None, 0);
        },
        EventView::ZwpLinuxBufferParamsV1Created { buffer } => {
            if let Ok(after) = known.dmabuf_created(id, buffer) {
                the_rest_does_not_matter(known, after);
            }
        },
        EventView::ZwpLinuxBufferParamsV1Failed => {
            the_rest_does_not_matter(known, known.params_destroyed(id));
        },
        _ => {},
    }
}

proof fn noted_events_keep_order(client: SessionView, events: Seq<BackendEventView>)
    requires
        client.tracker.in_order(),
    ensures
        client.events_noted(events).0.tracker.keeps_order_of(client.tracker),
    decreases events.len(),
{
    if events.len() > 0 {
        noted_events_keep_order(client, events.drop_last());
        if let Some(event) = events.last().decoded {
            noted_event_keeps_order(client.events_noted(events.drop_last()).0, event);
        }
    }
}

proof fn undecoded_request_keeps_order(client: SessionView, message: WireView)
    requires
        client.tracker.in_order(),
    ensures
        client.undecoded(message).0.tracker.keeps_order_of(client.tracker),
{
    let known = client.tracker;
    if let Ok(header) = wire::header_of(message.bytes) {
        let own = fds::claimed(client.pending_fds, message.fds, 1);
        match (
            wire::u32_arg(message.bytes, header.size, 8),
            wire::u32_arg(message.bytes, header.size, 12),
        ) {
            (Ok(pool_id), Ok(length)) => {
                the_rest_does_not_matter(
                    known,
                    known.pool_created(pool_id, own[0], length as usize),
                );
            },
            _ => {},
        }
        if let Ok(words) = SessionView::shm_buffer_words(header.size, message.bytes, 6) {
            let asked = SessionView::shm_buffer_asked(header.object_id, words);
            if let Ok(after) = known.shm_buffer_created(asked) {
                the_rest_does_not_matter(known, after);
            }
        }
        the_rest_does_not_matter(known, known.pool_destroyed(header.object_id));
        if let Ok(length) = wire::u32_arg(message.bytes, header.size, 8) {
            if let Ok(after) = known.pool_resized(header.object_id, length as usize) {
                the_rest_does_not_matter(known, after);
            }
        }
    }
}

proof fn begun_request_keeps_order(client: SessionView, message: WireView, answering: bool)
    requires
        client.tracker.in_order(),
    ensures
        client.begun(message, answering).0.tracker.keeps_order_of(client.tracker),
{
    undecoded_request_keeps_order(client, message);
}

proof fn finished_request_keeps_order(
    client: SessionView,
    begun: BegunView,
    hooks: Seq<WaylandInterceptHook>,
)
    requires
        client.tracker.in_order(),
    ensures
        client.finished(begun, hooks).0.tracker.keeps_order_of(client.tracker),
{
    let noted = match begun.request {
        Some(request) => client.noted(request, begun.message.fds, hooks),
        None => (client, None),
    };
    if let Some(request) = begun.request {
        noted_request_keeps_order(client, request, begun.message.fds, hooks);
    }
    noted_events_keep_order(noted.0, begun.events);
}

proof fn completed_event_keeps_order(
    client: SessionView,
    prepared: PreparedView,
    contents: Result<Seq<u8>, Seq<char>>,
    table_fd: u64,
)
    requires
        client.tracker.in_order(),
    ensures
        client.completed(prepared, contents, table_fd).0.tracker.keeps_order_of(client.tracker),
{
    if let Some(decoded) = prepared.event.decoded {
        if let Ok(mapped) = client.keymap_noted(decoded, contents) {
            if let Ok((adapted, _)) = mapped.formats_adapted(
                decoded,
                prepared.event.encoded,
                contents,
                table_fd,
            ) {
                noted_event_keeps_order(adapted, decoded);
            }
        }
    }
}

impl ServerView {
    /// Whether the surfaces and windows of a client are in order, and its windows
    /// are named after the client.
    pub open spec fn client_in_order(self, client_id: u64) -> bool {
        self.sessions.contains_key(client_id) ==> self.sessions[client_id].tracker.in_order()
            && self.sessions[client_id].tracker.prefix == "wayland-client-"@ + text::decimal(
            client_id as nat,
        )
    }

    /// Whether the surfaces and windows of all clients are in order.
    pub open spec fn in_order(self) -> bool {
        forall|client_id: u64| #[trigger] self.client_in_order(client_id)
    }
}

proof fn changed_client_keeps_order(proxy: ServerView, client_id: u64, client: SessionView)
    requires
        proxy.in_order(),
        client.tracker.in_order(),
        client.tracker.prefix == "wayland-client-"@ + text::decimal(client_id as nat),
    ensures
        proxy.with_session(client_id, client).in_order(),
{
    let after = proxy.with_session(client_id, client);
    assert forall|other: u64| #[trigger] after.client_in_order(other) by {
        assert(proxy.client_in_order(other));
    }
}

proof fn looking_keeps_order(proxy: ServerView)
    requires
        proxy.in_order(),
    ensures
        proxy.all_looked_at().in_order(),
{
    let after = proxy.all_looked_at();
    assert forall|other: u64| #[trigger] after.client_in_order(other) by {
        assert(proxy.client_in_order(other));
    }
}

/// Whoever comes or goes, and whether frames are followed or not, the surfaces and
/// windows of all clients are in order.
pub proof fn clients_keep_order(
    proxy: ServerView,
    own: Seq<GlobalView>,
    backend: Result<BackendView, Seq<char>>,
    client_id: u64,
    detail: Seq<char>,
    now: u64,
)
    requires
        proxy.in_order(),
    ensures
        proxy.registered(own, backend, now).in_order(),
        proxy.client_finished(client_id, detail, now).in_order(),
        proxy.tracking_until(now).in_order(),
        proxy.tracking_ended().in_order(),
{
    let arrived = tracker::number_after(proxy.next_client_id);
    let fresh = proxy.registered(own, backend, now).sessions[arrived];
    assert(fresh.tracker.in_order()) by {
        nothing_is_in_order(fresh.tracker.prefix);
    }
    let counted = proxy.registered(own, backend, now);
    assert forall|other: u64| #[trigger] counted.client_in_order(other) by {
        assert(proxy.client_in_order(other));
    }
    let left = proxy.client_finished(client_id, detail, now);
    assert forall|other: u64| #[trigger] left.client_in_order(other) by {
        assert(proxy.client_in_order(other));
    }
    let until = ServerView { deadline: Some(now), ..proxy };
    assert forall|other: u64| #[trigger] until.client_in_order(other) by {
        assert(proxy.client_in_order(other));
    }
    looking_keeps_order(until);
    let ended = ServerView { deadline: None, ..proxy };
    assert forall|other: u64| #[trigger] ended.client_in_order(other) by {
        assert(proxy.client_in_order(other));
    }
    looking_keeps_order(ended);
}

/// Whatever a client sends, and whatever the compositor sends it, the surfaces and
/// windows of all clients are in order.
pub proof fn messages_keep_order(
    proxy: ServerView,
    client_id: u64,
    message: WireView,
    begun: BegunView,
    prepared: PreparedView,
    contents: Result<Seq<u8>, Seq<char>>,
    table_fd: u64,
    now: u64,
)
    requires
        proxy.in_order(),
    ensures
        proxy.request_taken(client_id, message, now).0.in_order(),
        proxy.request_done(client_id, begun).0.in_order(),
        proxy.sessions.contains_key(client_id) ==> proxy.with_session(
            client_id,
            proxy.sessions[client_id].prepared(message).0,
        ).in_order(),
        proxy.sessions.contains_key(client_id) ==> proxy.with_session(
            client_id,
            proxy.sessions[client_id].completed(prepared, contents, table_fd).0,
        ).in_order(),
{
    let (ready, active) = proxy.tracking_at(now);
    clients_keep_order(proxy, Seq::empty(), Err(Seq::empty()), client_id, Seq::empty(), now);
    assert(ready.in_order());
    assert(ready.client_in_order(client_id));
    if ready.sessions.contains_key(client_id) {
        let client = ready.sessions[client_id];
        let answering = !client.raw_forward_only || active;
        begun_request_keeps_order(client, message, answering);
        changed_client_keeps_order(ready, client_id, client.begun(message, answering).0);
    }
    assert(proxy.client_in_order(client_id));
    if proxy.sessions.contains_key(client_id) {
        let client = proxy.sessions[client_id];
        let hooks = ingest::hooks_on_begun(proxy.registry, begun);
        finished_request_keeps_order(client, begun, hooks);
        changed_client_keeps_order(proxy, client_id, client.finished(begun, hooks).0);
        changed_client_keeps_order(proxy, client_id, client.prepared(message).0);
        completed_event_keeps_order(client, prepared, contents, table_fd);
        changed_client_keeps_order(
            proxy,
            client_id,
            client.completed(prepared, contents, table_fd).0,
        );
    }
}

/// Whether a window has the name of some window of a client.
pub open spec fn named_after(client_id: u64, number: u64, info: WindowInfoView) -> bool {
    info.window_id == snapshot::client_window_name(client_id, number)
}

/// Whether a window has the name of any window of a client.
pub open spec fn named_after_client(client_id: u64, info: WindowInfoView) -> bool {
    exists|number: u64| #[trigger] named_after(client_id, number, info)
}

/// Whether a window has the name of any window of some clients.
pub open spec fn named_after_one(ids: Seq<u64>, info: WindowInfoView) -> bool {
    exists|k: int| 0 <= k < ids.len() && #[trigger] named_after_client(ids[k], info)
}

proof fn windows_are_named_after_their_client(proxy: ServerView, client_id: u64)
    requires
        proxy.in_order(),
        proxy.sessions.contains_key(client_id),
        proxy.sessions[client_id].tracker.windows.dom().finite(),
    ensures
        windows::names_differ(proxy.sessions[client_id].tracker.infos()),
        forall|i: int|
            0 <= i < proxy.sessions[client_id].tracker.infos().len() ==> named_after_client(
                client_id,
                #[trigger] proxy.sessions[client_id].tracker.infos()[i],
            ),
{
    let known = proxy.sessions[client_id].tracker;
    let numbers = table::in_order(known.windows.dom());
    table::keys_have_an_order(known.windows.dom());
    assert forall|i: int, j: int| 0 <= i < j < numbers.len() implies numbers[i] != numbers[j] by {
        assert(table::Key::rank(numbers[i]) < table::Key::rank(numbers[j]));
    }
    windows::listed_windows_are_told_apart(known, numbers);
    assert(proxy.client_in_order(client_id));
    assert forall|i: int| 0 <= i < known.infos().len() implies named_after_client(
        client_id,
        #[trigger] known.infos()[i],
    ) by {
        let k = choose|k: int|
            0 <= k < numbers.len() && known.infos_of(numbers)[i] == #[trigger] known.info(
                numbers[k],
            );
        assert(named_after(client_id, numbers[k], known.infos()[i]));
    }
}

proof fn windows_of_clients_are_told_apart(proxy: ServerView, ids: Seq<u64>)
    requires
        proxy.in_order(),
        table::ascending(ids),
        forall|i: int|
            0 <= i < ids.len() ==> proxy.sessions.contains_key(#[trigger] ids[i])
                && proxy.sessions[ids[i]].tracker.windows.dom().finite(),
    ensures
        windows::names_differ(desktop::windows_of(proxy.sessions, ids)),
        forall|i: int|
            0 <= i < desktop::windows_of(proxy.sessions, ids).len() ==> named_after_one(
                ids,
                #[trigger] desktop::windows_of(proxy.sessions, ids)[i],
            ),
    decreases ids.len(),
{
    if ids.len() > 0 {
        let rest = ids.drop_last();
        let last = ids.last();
        let before = desktop::windows_of(proxy.sessions, rest);
        let own = proxy.sessions[last].tracker.infos();
        let all = desktop::windows_of(proxy.sessions, ids);
        assert(all == before + own);
        assert forall|i: int, j: int| 0 <= i < j < rest.len() implies table::Key::rank(
            #[trigger] rest[i],
        ) < table::Key::rank(#[trigger] rest[j]) by {
            assert(rest[i] == ids[i] && rest[j] == ids[j]);
        }
        assert forall|i: int| 0 <= i < rest.len() implies proxy.sessions.contains_key(
            #[trigger] rest[i],
        ) && proxy.sessions[rest[i]].tracker.windows.dom().finite() by {
            assert(rest[i] == ids[i]);
        }
        windows_of_clients_are_told_apart(proxy, rest);
        assert(ids[ids.len() - 1] == last);
        windows_are_named_after_their_client(proxy, last);
        assert forall|i: int| 0 <= i < all.len() implies named_after_one(
            ids,
            #[trigger] all[i],
        ) by {
            if i < before.len() {
                assert(all[i] == before[i]);
                assert(named_after_one(rest, before[i]));
                let k = choose|k: int|
                    0 <= k < rest.len() && #[trigger] named_after_client(rest[k], before[i]);
                assert(named_after_client(ids[k], all[i]));
            } else {
                assert(all[i] == own[i - before.len()]);
                assert(named_after_client(ids[ids.len() - 1], all[i]));
            }
        }
        assert forall|i: int, j: int| 0 <= i < j < all.len() implies (
        #[trigger] all[i]).window_id != (#[trigger] all[j]).window_id by {
            if j < before.len() {
                assert(all[i] == before[i] && all[j] == before[j]);
            } else if i >= before.len() {
                assert(all[i] == own[i - before.len()] && all[j] == own[j - before.len()]);
            } else {
                let at = j - before.len();
                assert(all[i] == before[i] && all[j] == own[at]);
                assert(named_after_one(rest, before[i]));
                let k = choose|k: int|
                    0 <= k < rest.len() && #[trigger] named_after_client(rest[k], before[i]);
                let m = choose|m: u64| #[trigger] named_after(rest[k], m, before[i]);
                assert(named_after_client(last, own[at]));
                let n = choose|n: u64| #[trigger] named_after(last, n, own[at]);
                if all[i].window_id == all[j].window_id {
                    snapshot::window_names_of_clients_differ(rest[k], m, last, n);
                    assert(table::Key::rank(ids[k]) < table::Key::rank(ids[ids.len() - 1]));
                }
            }
        }
    }
}

/// No two of the windows that are listed have the same name, so that a name means
/// one window only.
pub proof fn a_name_means_one_window(proxy: ServerView)
    requires
        proxy.in_order(),
        proxy.sessions.dom().finite(),
        forall|client_id: u64| #[trigger]
            proxy.sessions.contains_key(client_id)
                ==> proxy.sessions[client_id].tracker.windows.dom().finite(),
    ensures
        windows::names_differ(desktop::by_serial(proxy.all_windows())),
{
    let ids = proxy.client_ids();
    table::keys_have_an_order(proxy.sessions.dom());
    assert forall|i: int| 0 <= i < ids.len() implies proxy.sessions.contains_key(#[trigger] ids[i])
        && proxy.sessions[ids[i]].tracker.windows.dom().finite() by {
        assert(ids.to_set().contains(ids[i]));
    }
    windows_of_clients_are_told_apart(proxy, ids);
    desktop::sorting_keeps_names_apart(proxy.all_windows());
}

/// Input that a caller sends to a client changes nothing that is known of surfaces
/// and windows.
pub proof fn input_leaves_windows_alone(
    client: SessionView,
    window_id: Seq<char>,
    target: TargetView,
    pointer: GuiWaylandPointerEvent,
    keyboard: GuiWaylandKeyboardEvent,
    surface_id: u32,
    button: u8,
    width: u32,
    height: u32,
    serial: u32,
    time: u32,
)
    ensures
        client.resized(window_id, width, height).0.tracker == client.tracker,
        client.resize_sent(surface_id, serial).tracker == client.tracker,
        client.clicked(target, button, time).0.tracker == client.tracker,
        client.pointed(target, time).0.tracker == client.tracker,
        client.pointer_emitted(target, pointer, time).0.tracker == client.tracker,
        client.keyboard_emitted(window_id, surface_id, keyboard, time).0.tracker == client.tracker,
{
}

} // verus!
