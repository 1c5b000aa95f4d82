//! What callers see of what clients did: how a request of a client, an event of the
//! compositor and a click on a screenshot show in the windows that are told.

use crate::decode::{DecodedEventView, RequestView, WireView};
use crate::delivered;
use crate::globals::WaylandInterceptKind;
use crate::ingest;
use crate::layout;
use crate::messages::{
    EventView, GeneratedHookRequest, GeneratedImplementedRequest, TrackedRequestView,
};
use crate::server::ServerView;
use crate::session::SessionView;
use crate::surface;
use crate::surface::{
    BufferKind, BufferView, DamageRect, SourceView, SurfaceView, TargetView, TrackedDmabufPlane,
    TrackedSyncPoint, WindowInfoView,
};
use crate::text;
use crate::tracker;
use crate::tracker::TrackerView;
use crate::windows;
use crate::wire;
use vstd::prelude::*;

verus! {

/// Whether a request accepts no configuration, which would be noted beside what the
/// request is.
pub open spec fn is_no_ack(request: RequestView) -> bool {
    !(request.implemented_request matches Some(implemented)
        && implemented is XdgSurfaceAckConfigure)
}

/// The greater of a length and one.
pub open spec fn one_or(length: int) -> int {
    if length < 1 {
        1
    } else {
        length
    }
}

/// A title that a client sets is the title that callers are told of its window, and
/// all else that they are told stays as it was.
pub proof fn title_is_told(
    client: SessionView,
    request: RequestView,
    title: Option<Seq<char>>,
    other: u64,
)
    requires
        request.tracked_request == Some(TrackedRequestView::XdgToplevelSetTitle { title }),
        is_no_ack(request),
        client.tracker.xdg_toplevel_to_window.contains_key(request.object_id),
        client.tracker.windows.contains_key(
            client.tracker.xdg_toplevel_to_window[request.object_id],
        ),
    ensures
        ({
            let known = client.tracker;
            let number = known.xdg_toplevel_to_window[request.object_id];
            let (after, failure) = client.windows_tracked(request);
            &&& failure is None
            &&& after.tracker.info(number) == WindowInfoView { title, ..known.info(number) }
            &&& other != number ==> after.tracker.info(other) == known.info(other)
        }),
{
}

/// A name that a client gives its application is the name that callers are told with
/// its window, and all else that they are told stays as it was.
pub proof fn application_is_told(
    client: SessionView,
    request: RequestView,
    app_id: Option<Seq<char>>,
    other: u64,
)
    requires
        request.tracked_request == Some(TrackedRequestView::XdgToplevelSetAppId { app_id }),
        is_no_ack(request),
        client.tracker.xdg_toplevel_to_window.contains_key(request.object_id),
        client.tracker.windows.contains_key(
            client.tracker.xdg_toplevel_to_window[request.object_id],
        ),
    ensures
        ({
            let known = client.tracker;
            let number = known.xdg_toplevel_to_window[request.object_id];
            let (after, failure) = client.windows_tracked(request);
            &&& failure is None
            &&& after.tracker.info(number) == WindowInfoView { app_id, ..known.info(number) }
            &&& other != number ==> after.tracker.info(other) == known.info(other)
        }),
{
}

/// A surface that becomes a toplevel has a window that shows it and takes its input,
/// and that is reached by the toplevel and by the surface alike.
pub proof fn toplevel_has_its_window(client: SessionView, request: RequestView, id: u32)
    requires
        request.tracked_request == Some(TrackedRequestView::XdgSurfaceGetToplevel { id }),
        is_no_ack(request),
        client.tracker.xdg_surface_to_surface.contains_key(request.object_id),
    ensures
        ({
            let known = client.tracker;
            let surface_id = known.xdg_surface_to_surface[request.object_id];
            let (after, failure) = client.windows_tracked(request);
            let number = after.tracker.xdg_toplevel_to_window[id];
            let window = after.tracker.windows[number];
            &&& failure is None
            &&& after.tracker.xdg_toplevel_to_window.contains_key(id)
            &&& after.tracker.windows.contains_key(number)
            &&& after.tracker.surface_to_window[surface_id] == number
            &&& window.wl_surface_id == surface_id
            &&& window.input_surface_id == surface_id
            &&& window.xdg_surface_id == Some(request.object_id)
            &&& window.xdg_toplevel_id == Some(id)
            &&& known.surface_to_window.contains_key(surface_id)
                ==> known.surface_to_window[surface_id] == number
        }),
{
}

/// An xdg_surface stands for the surface that it was made for, and for none where it
/// was not made.
pub proof fn role_is_kept(client: SessionView, request: RequestView, id: u32, surface: u32, other: u32)
    requires
        request.tracked_request == Some(
            TrackedRequestView::XdgWmBaseGetXdgSurface { id, surface: Some(surface) },
        ),
        is_no_ack(request),
        other != id,
    ensures
        ({
            let before = client.tracker.xdg_surface_to_surface;
            let (after, failure) = client.windows_tracked(request);
            let now = after.tracker.xdg_surface_to_surface;
            &&& failure is None
            &&& now.contains_key(id) && now[id] == surface
            &&& now.contains_key(other) == before.contains_key(other)
            &&& before.contains_key(other) ==> now[other] == before[other]
        }),
{
}

/// The size that a client says its window has is the size that callers are told.
pub proof fn geometry_is_told(
    client: SessionView,
    request: RequestView,
    x: i32,
    y: i32,
    width: i32,
    height: i32,
)
    requires
        request.tracked_request == Some(
            TrackedRequestView::XdgSurfaceSetWindowGeometry { x, y, width, height },
        ),
        is_no_ack(request),
        client.tracker.xdg_surface_to_surface.contains_key(request.object_id),
        client.tracker.surface_to_window.contains_key(
            client.tracker.xdg_surface_to_surface[request.object_id],
        ),
        client.tracker.windows.contains_key(
            client.tracker.surface_to_window[
                client.tracker.xdg_surface_to_surface[request.object_id]
            ],
        ),
    ensures
        ({
            let known = client.tracker;
            let number = known.surface_to_window[known.xdg_surface_to_surface[request.object_id]];
            let (after, failure) = client.windows_tracked(request);
            &&& failure is None
            &&& after.tracker.info(number) == WindowInfoView {
                width: one_or(width as int) as u32,
                height: one_or(height as int) as u32,
                ..known.info(number)
            }
        }),
{
}

/// What a surface is once a buffer is attached to it and committed.
pub open spec fn shown(known: TrackerView, surface_id: u32, buffer: Option<u32>, x: i32, y: i32) -> TrackerView {
    ingest::hooked(
        ingest::hooked(
            known,
            WaylandInterceptKind::SurfaceAttach,
            surface_id,
            GeneratedHookRequest::WlSurfaceAttach { buffer, x, y },
        ),
        WaylandInterceptKind::SurfaceCommit,
        surface_id,
        GeneratedHookRequest::WlSurfaceCommit,
    )
}

/// The name of where a buffer's pixels come from.
pub open spec fn origin(source: SourceView) -> Seq<char> {
    match source {
        SourceView::Unknown => "unknown"@,
        SourceView::Dmabuf(_) => "dmabuf"@,
        SourceView::Shm(_) => "shm"@,
    }
}

/// A window that a surface shows is told with the buffer that was attached to the
/// surface and committed: it has the buffer's size, is mapped, was committed after all
/// that was committed before, and can be captured where the buffer can be read.
pub proof fn committed_buffer_is_told(
    known: TrackerView,
    surface_id: u32,
    buffer_id: u32,
    x: i32,
    y: i32,
)
    requires
        known.buffers.contains_key(buffer_id),
        known.next_commit_serial < u64::MAX,
        ({
            let after = shown(known, surface_id, Some(buffer_id), x, y);
            let number = after.surface_to_window[surface_id];
            after.windows.contains_key(number) && after.windows[number].wl_surface_id == surface_id
        }),
    ensures
        ({
            let buffer = known.buffers[buffer_id];
            let after = shown(known, surface_id, Some(buffer_id), x, y);
            let info = after.info(after.surface_to_window[surface_id]);
            &&& info.width == one_or(buffer.width as int)
            &&& info.height == one_or(buffer.height as int)
            &&& info.mapped
            &&& info.commit_serial == known.next_commit_serial + 1
            &&& info.render_surface_id == surface_id
            &&& info.buffer_kind == Some(origin(buffer.source))
            &&& info.capture_error == buffer.error()
            &&& info.capturable <==> (buffer.error() is None || (buffer.rgba matches Some(pixels)
                && pixels.len() > 0))
            &&& info.capture_details == Some(buffer.details())
        }),
{
    let buffer = known.buffers[buffer_id];
    let after = shown(known, surface_id, Some(buffer_id), x, y);
    let number = after.surface_to_window[surface_id];
    surface_is_shown(known, surface_id, Some(buffer_id), x, y);
    crate::pixels::readable_means_no_error(buffer);
    assert(after.shown_surface(number) == Some(after.surfaces[surface_id]));
}

/// What a surface has after a buffer was attached to it and committed, and what the
/// window has that it shows.
pub proof fn surface_is_shown(
    known: TrackerView,
    surface_id: u32,
    buffer: Option<u32>,
    x: i32,
    y: i32,
)
    ensures
        ({
            let after = shown(known, surface_id, buffer, x, y);
            let number = after.surface_to_window[surface_id];
            let before = known.surface(surface_id);
            let surface = after.surfaces[surface_id];
            &&& after.surfaces.contains_key(surface_id)
            &&& after.buffers == known.buffers
            &&& surface.buffer_id == buffer
            &&& surface.width == known.with_attached(before, buffer).width
            &&& surface.height == known.with_attached(before, buffer).height
            &&& surface.rgba == known.with_attached(before, buffer).rgba
            &&& surface.buffer_kind == known.with_attached(before, buffer).buffer_kind
            &&& surface.capture_error == known.with_attached(before, buffer).capture_error
            &&& surface.has_committed_buffer == (before.has_committed_buffer || buffer is Some)
            &&& surface.id == before.id
            &&& surface.last_acquire == before.pending_acquire
            &&& surface.last_release == before.pending_release
            &&& after.syncobj_timelines == known.syncobj_timelines
            &&& after.colors == known.colors
            &&& after.windows.contains_key(number) && after.windows[number].wl_surface_id
                == surface_id ==> {
                let window = after.windows[number];
                &&& window.width == surface::at_least_one(surface.width)
                &&& window.height == surface::at_least_one(surface.height)
                &&& window.mapped == surface.has_committed_buffer
                &&& window.commit_serial == surface.commit_serial
            }
            &&& known.next_commit_serial < u64::MAX ==> surface.commit_serial
                == known.next_commit_serial + 1
        }),
{
    let ensured = known.window_ensured(surface_id);
    let surface = ensured.with_attached(ensured.surface(surface_id), buffer);
    assert(ensured.surface(surface_id) == known.surface(surface_id));
    changed_surface_is_there(ensured, surface_id, surface);
    let attached = known.attached(surface_id, buffer);
    assert(attached.window_ensured(surface_id) == attached);
    let serial = tracker::number_after(attached.next_commit_serial);
    let numbered = TrackerView { next_commit_serial: serial, ..attached };
    changed_surface_is_there(numbered, surface_id, TrackerView::with_committed(surface, serial));
}

proof fn changed_surface_is_there(known: TrackerView, id: u32, surface: SurfaceView)
    ensures
        ({
            let after = known.surface_changed(id, surface);
            let number = after.surface_to_window[id];
            &&& after.surfaces.contains_key(id)
            &&& after.surfaces[id] == surface
            &&& after.surface_to_window.contains_key(id)
            &&& after.buffers == known.buffers
            &&& after.colors == known.colors
            &&& after.syncobj_timelines == known.syncobj_timelines
            &&& after.next_commit_serial == known.next_commit_serial
            &&& after.windows.contains_key(number) && after.windows[number].wl_surface_id == id
                ==> {
                let window = after.windows[number];
                &&& window.width == surface::at_least_one(surface.width)
                &&& window.height == surface::at_least_one(surface.height)
                &&& window.mapped == surface.has_committed_buffer
                &&& window.commit_serial == surface.commit_serial
            }
        }),
{
}

/// A surface that is left without a buffer is one transparent pixel, of nothing that
/// could be told, and a window that it shows is told as such.
pub proof fn missing_buffer_is_told(known: TrackerView, surface_id: u32, x: i32, y: i32)
    requires
        ({
            let after = shown(known, surface_id, None, x, y);
            let number = after.surface_to_window[surface_id];
            after.windows.contains_key(number) && after.windows[number].wl_surface_id == surface_id
        }),
    ensures
        ({
            let after = shown(known, surface_id, None, x, y);
            let info = after.info(after.surface_to_window[surface_id]);
            &&& info.width == 1
            &&& info.height == 1
            &&& info.buffer_kind is None
            &&& info.capture_error is None
            &&& info.capture_details is None
            &&& info.mapped == known.surface(surface_id).has_committed_buffer
            &&& after.surfaces[surface_id].rgba == seq![0u8, 0, 0, 0]
        }),
{
    let after = shown(known, surface_id, None, x, y);
    let number = after.surface_to_window[surface_id];
    surface_is_shown(known, surface_id, None, x, y);
    assert(after.shown_surface(number) == Some(after.surfaces[surface_id]));
}

/// What changed of a surface is noted in the order in which it was said, and forgotten
/// with the next commit.
pub proof fn damage_lasts_until_the_commit(
    known: TrackerView,
    surface_id: u32,
    x: i32,
    y: i32,
    width: i32,
    height: i32,
)
    ensures
        ({
            let of_surface = ingest::hooked(
                known,
                WaylandInterceptKind::SurfaceDamage,
                surface_id,
                GeneratedHookRequest::WlSurfaceDamage { x, y, width, height },
            );
            let of_buffer = ingest::hooked(
                known,
                WaylandInterceptKind::SurfaceDamage,
                surface_id,
                GeneratedHookRequest::WlSurfaceDamageBuffer { x, y, width, height },
            );
            let after = ingest::hooked(
                of_surface,
                WaylandInterceptKind::SurfaceCommit,
                surface_id,
                GeneratedHookRequest::WlSurfaceCommit,
            );
            let before = known.surface(surface_id).damage;
            let noted = of_surface.surfaces[surface_id].damage;
            &&& noted.len() == before.len() + 1
            &&& noted.drop_last() == before
            &&& noted.last() == (DamageRect { x, y, width, height })
            &&& of_buffer.surfaces[surface_id].damage == noted
            &&& after.surfaces[surface_id].damage.len() == 0
        }),
{
    let of_surface = ingest::hooked(
        known,
        WaylandInterceptKind::SurfaceDamage,
        surface_id,
        GeneratedHookRequest::WlSurfaceDamage { x, y, width, height },
    );
    assert(of_surface.surfaces[surface_id].damage.drop_last() =~= known.surface(surface_id).damage);
    assert(of_surface.surface(surface_id) == of_surface.surfaces[surface_id]);
}

/// A buffer that is gone is the buffer of no surface, while what the surfaces showed is
/// still told of them.
pub proof fn destroyed_buffer_is_gone(known: TrackerView, buffer_id: u32, surface_id: u32)
    requires
        known.surfaces.contains_key(surface_id),
    ensures
        ({
            let after = known.buffer_destroyed(buffer_id);
            let surface = after.surfaces[surface_id];
            &&& !after.buffers.contains_key(buffer_id)
            &&& after.surfaces.contains_key(surface_id)
            &&& surface.buffer_id != Some(buffer_id)
            &&& known.surfaces[surface_id].buffer_id != Some(buffer_id) ==> surface
                == known.surfaces[surface_id]
            &&& surface.width == known.surfaces[surface_id].width
            &&& surface.height == known.surfaces[surface_id].height
            &&& surface.rgba == known.surfaces[surface_id].rgba
            &&& surface.commit_serial == known.surfaces[surface_id].commit_serial
            &&& after.windows == known.windows
        }),
{
}

/// A part of a window lies where its client says in the surface that it is a part of.
pub proof fn part_is_moved(client: SessionView, request: RequestView, x: i32, y: i32)
    requires
        request.tracked_request == Some(TrackedRequestView::WlSubsurfaceSetPosition { x, y }),
        is_no_ack(request),
        client.tracker.subsurface_to_surface.contains_key(request.object_id),
    ensures
        ({
            let part = client.tracker.subsurface_to_surface[request.object_id];
            let after = client.windows_tracked(request).0.tracker;
            &&& after.offset_of(part).0 == x
            &&& after.offset_of(part).1 == y
            &&& forall|other: u32|
                other != part ==> #[trigger] after.offset_of(other) == client.tracker.offset_of(
                    other,
                )
        }),
{
}

/// A surface that becomes a part of another belongs to the window of the other, and a
/// point of it is a point of the other at the place where it lies.
pub proof fn part_belongs_to_its_parent(
    client: SessionView,
    request: RequestView,
    id: u32,
    part: u32,
    parent: u32,
)
    requires
        request.tracked_request == Some(
            TrackedRequestView::WlSubcompositorGetSubsurface {
                id,
                surface: Some(part),
                parent: Some(parent),
            },
        ),
        is_no_ack(request),
        part != parent,
    ensures
        ({
            let after = client.windows_tracked(request).0.tracker;
            &&& after.subsurface_to_surface.contains_key(id)
            &&& after.subsurface_to_surface[id] == part
            &&& after.surface_parent.contains_key(part)
            &&& after.surface_parent[part] == parent
            &&& after.surface_to_window.contains_key(part)
            &&& after.surface_to_window.contains_key(parent)
            &&& after.surface_to_window[part] == after.surface_to_window[parent]
            &&& client.tracker.offset_of(part) == after.offset_of(part)
        }),
{
}

/// A surface is scaled to the size that is set for its viewport, and no longer scaled
/// where both lengths are minus one.
pub proof fn viewport_scales_its_surface(
    client: SessionView,
    request: RequestView,
    width: i32,
    height: i32,
)
    requires
        request.tracked_request == Some(
            TrackedRequestView::WpViewportSetDestination { width, height },
        ),
        is_no_ack(request),
        client.tracker.viewport_to_surface.contains_key(request.object_id),
    ensures
        ({
            let surface_id = client.tracker.viewport_to_surface[request.object_id];
            let (after, failure) = client.windows_tracked(request);
            let destination = after.tracker.surfaces[surface_id].viewport_destination;
            &&& failure is None
            &&& after.tracker.surfaces.contains_key(surface_id)
            &&& destination is None <==> width == -1 && height == -1
            &&& destination matches Some(lengths) ==> lengths.0 == one_or(width as int)
                && lengths.1 == one_or(height as int)
        }),
{
}

/// A click on a pixel of a window whose surface is not scaled and takes its own input
/// is a click on that very point.
pub proof fn plain_click_stays(known: TrackerView, window_id: Seq<char>, x: i64, y: i64)
    requires
        ({
            let window = known.windows[known.number_of(window_id).unwrap()];
            let surface = known.surfaces[window.wl_surface_id];
            &&& known.number_of(window_id) is Some
            &&& known.surfaces.contains_key(window.wl_surface_id)
            &&& window.input_surface_id == window.wl_surface_id
            &&& surface.viewport_destination is None
            &&& 0 <= x < surface.width <= i32::MAX
            &&& 0 <= y < surface.height <= i32::MAX
        }),
    ensures
        known.click_target(window_id, x, y) == Ok::<Option<TargetView>, Seq<char>>(
            Some(
                TargetView {
                    window_id,
                    surface_id: known.windows[known.number_of(window_id).unwrap()].input_surface_id,
                    screenshot_x: x,
                    screenshot_y: y,
                    surface_x: x,
                    surface_y: y,
                },
            ),
        ),
{
    let window = known.windows[known.number_of(window_id).unwrap()];
    let surface = known.surfaces[window.wl_surface_id];
    pixel_is_scaled(x as int, surface.width as int, surface.width as int);
    pixel_is_scaled(y as int, surface.height as int, surface.height as int);
    whole_length_is_kept(x as int, surface.width as int);
    whole_length_is_kept(y as int, surface.height as int);
    assert(TrackerView::surface_point(surface, x, y) == (x, y));
    point_stays_in_its_surface(known, window.wl_surface_id, x, y);
}

/// A pixel of a scaled surface shows the point at the same part of the length that the
/// surface is scaled to, rounded down, which lies in the surface.
pub proof fn scaled_click_keeps_its_part(surface: SurfaceView, x: i64, y: i64)
    requires
        surface.viewport_destination matches Some(lengths) && 1 <= lengths.0 <= i32::MAX && 1
            <= lengths.1 <= i32::MAX,
        0 <= x < surface.width <= i32::MAX,
        0 <= y < surface.height <= i32::MAX,
    ensures
        ({
            let point = TrackerView::surface_point(surface, x, y);
            let lengths = surface.viewport_destination.unwrap();
            &&& 0 <= point.0 < lengths.0
            &&& 0 <= point.1 < lengths.1
            &&& point.0 * surface.width <= x * lengths.0 < (point.0 + 1) * surface.width
            &&& point.1 * surface.height <= y * lengths.1 < (point.1 + 1) * surface.height
        }),
{
    let lengths = surface.viewport_destination.unwrap();
    pixel_is_scaled(x as int, lengths.0 as int, surface.width as int);
    pixel_is_scaled(y as int, lengths.1 as int, surface.height as int);
}

/// A click is refused exactly where the screenshot has no such pixel, where the surface
/// that shows the window is not known, or where no way leads from it to the surface
/// that takes the input; and where there is no such window there is no click.
pub proof fn clicks_are_taken_on_the_screenshot(
    known: TrackerView,
    window_id: Seq<char>,
    x: i64,
    y: i64,
)
    ensures
        known.number_of(window_id) is None <==> known.click_target(window_id, x, y) == Ok::<
            Option<TargetView>,
            Seq<char>,
        >(None),
        known.number_of(window_id) matches Some(number) ==> {
            let window = known.windows[number];
            let surface = known.surfaces[window.wl_surface_id];
            known.click_target(window_id, x, y) is Ok <==> (known.surfaces.contains_key(
                window.wl_surface_id,
            ) && 0 <= x < surface.width && 0 <= y < surface.height && known.translated(
                window.wl_surface_id,
                window.input_surface_id,
                TrackerView::surface_point(surface, x, y).0,
                TrackerView::surface_point(surface, x, y).1,
            ) is Some)
        },
{
}

/// A point of a part of a surface is the point of the whole that lies as much further
/// on as the part does, and a point of the whole is a point of the whole.
pub proof fn points_move_with_their_parts(
    known: TrackerView,
    from: u32,
    to: u32,
    x: i64,
    y: i64,
)
    requires
        -0x7fff_ffff_0000_0000 <= x <= 0x7fff_ffff_0000_0000,
        -0x7fff_ffff_0000_0000 <= y <= 0x7fff_ffff_0000_0000,
    ensures
        from == to ==> known.translated(from, to, x, y) == Some((x, y)),
        from != to && !known.surface_parent.contains_key(from) ==> known.translated(
            from,
            to,
            x,
            y,
        ) is None,
        from != to && known.surface_parent.contains_key(from) ==> known.translated(from, to, x, y)
            == known.translated(
            known.surface_parent[from],
            to,
            (x + known.offset_of(from).0) as i64,
            (y + known.offset_of(from).1) as i64,
        ),
{
    if from == to {
        point_stays_in_its_surface(known, from, x, y);
    } else if known.surface_parent.contains_key(from) {
        let parent = known.surface_parent[from];
        let next_x = (x + known.offset_of(from).0) as i64;
        let next_y = (y + known.offset_of(from).1) as i64;
        assert forall|steps: nat| #[trigger]
            known.carried(from, to, x, y, steps) is Some implies known.carried(
            parent,
            to,
            next_x,
            next_y,
            (steps - 1) as nat,
        ) == known.carried(from, to, x, y, steps) by {}
        if known.translated(from, to, x, y) is Some {
            let a = choose|steps: nat| (#[trigger] known.carried(from, to, x, y, steps)) is Some;
            assert(known.carried(parent, to, next_x, next_y, (a - 1) as nat) is Some);
            let b = choose|steps: nat|
                (#[trigger] known.carried(parent, to, next_x, next_y, steps)) is Some;
            windows::carried_is_one_point(known, parent, to, next_x, next_y, (a - 1) as nat, b);
        }
        if known.translated(parent, to, next_x, next_y) is Some {
            let b = choose|steps: nat|
                (#[trigger] known.carried(parent, to, next_x, next_y, steps)) is Some;
            assert(known.carried(from, to, x, y, b + 1) is Some);
        }
    } else {
        assert forall|steps: nat| (#[trigger] known.carried(from, to, x, y, steps)) is None by {}
    }
}

proof fn point_stays_in_its_surface(known: TrackerView, id: u32, x: i64, y: i64)
    ensures
        known.translated(id, id, x, y) == Some((x, y)),
{
    assert(known.carried(id, id, x, y, 0) is Some);
}

proof fn whole_length_is_kept(value: int, length: int)
    requires
        length > 0,
    ensures
        value * length / length == value,
{
    assert(value * length / length == value) by (nonlinear_arith)
        requires
            length > 0,
    ;
}

proof fn pixel_is_scaled(value: int, logical: int, pixels: int)
    requires
        0 <= value < pixels <= i32::MAX,
        0 < logical <= i32::MAX,
    ensures
        0 <= value * logical <= i64::MAX,
        0 <= value * logical / pixels < logical,
        value * logical / pixels * pixels <= value * logical,
        value * logical < (value * logical / pixels + 1) * pixels,
{
    let product = value * logical;
    assert(0 <= product <= 0x7fff_ffff * 0x7fff_ffff) by (nonlinear_arith)
        requires
            product == value * logical,
            0 <= value <= 0x7fff_ffff,
            0 <= logical <= 0x7fff_ffff,
    ;
    assert(product < pixels * logical) by (nonlinear_arith)
        requires
            product == value * logical,
            value < pixels,
            0 < logical,
    ;
    assert(0 <= product / pixels && product / pixels * pixels <= product && product < (product
        / pixels + 1) * pixels) by (nonlinear_arith)
        requires
            0 <= product,
            0 < pixels,
    ;
    assert(product / pixels < logical) by (nonlinear_arith)
        requires
            0 <= product < pixels * logical,
            0 < pixels,
    ;
}

/// A surface that comes onto an output of the compositor is on it, until it leaves it,
/// and the window that it shows is told with as many outputs.
pub proof fn outputs_are_counted(client: SessionView, event: DecodedEventView, output: u32)
    requires
        client.tracker.surface_to_window.contains_key(event.object_id),
        client.tracker.windows.contains_key(client.tracker.surface_to_window[event.object_id]),
        client.tracker.windows[
            client.tracker.surface_to_window[event.object_id]
        ].wl_surface_id == event.object_id,
        client.tracker.surfaces.contains_key(event.object_id),
    ensures
        ({
            let id = event.object_id;
            let number = client.tracker.surface_to_window[id];
            let before = client.tracker.surfaces[id].output_ids;
            let after = client.backend_event_tracked(event).0.tracker;
            let now = after.surfaces[id].output_ids;
            &&& event.generated_event == EventView::WlSurfaceEnter { output: Some(output) } ==> {
                &&& forall|other: u32| now.contains(other) <==> (before.contains(other) || other
                    == output)
                &&& after.info(number).backend_output_count == now.len()
            }
            &&& event.generated_event == EventView::WlSurfaceLeave { output: Some(output) } ==> {
                &&& forall|other: u32| now.contains(other) <==> (before.contains(other) && other
                    != output)
                &&& after.info(number).backend_output_count == now.len()
            }
        }),
{
}

/// What the compositor says of the modifiers and of the layout in force is what is
/// known of the client's keyboard.
pub proof fn modifiers_are_known(
    client: SessionView,
    event: DecodedEventView,
    serial: u32,
    mods_depressed: u32,
    mods_latched: u32,
    mods_locked: u32,
    group: u32,
)
    requires
        event.generated_event == (EventView::WlKeyboardModifiers {
            serial,
            mods_depressed,
            mods_latched,
            mods_locked,
            group,
        }),
    ensures
        ({
            let (after, failure) = client.backend_event_tracked(event);
            &&& failure is None
            &&& after.mods_depressed == mods_depressed
            &&& after.mods_latched == mods_latched
            &&& after.mods_locked == mods_locked
            &&& after.layout_group == group
            &&& after.keymap == client.keymap
            &&& after.tracker == client.tracker
        }),
{
}

/// A text is typed by the keyboard of the client that has the window: by its key map,
/// with the layout and the modifiers that are in force there.
pub proof fn text_is_typed_by_its_client(proxy: ServerView, requested: Option<Seq<char>>)
    requires
        proxy.keyboard_of(requested) is Ok,
    ensures
        ({
            let keyboard = proxy.keyboard_of(requested)->Ok_0;
            let window = proxy.meant_window(requested)->Ok_0.unwrap();
            let client = proxy.sessions[proxy.holder(window.window_id).unwrap()];
            &&& requested matches Some(window_id) ==> window.window_id == window_id
            &&& client.tracker.number_of(window.window_id) is Some
            &&& client.keymap == Some(keyboard.keymap)
            &&& keyboard.layout_group == client.layout_group
            &&& keyboard.mods_depressed == client.mods_depressed
            &&& keyboard.mods_latched == client.mods_latched
            &&& keyboard.mods_locked == client.mods_locked
        }),
{
    delivered::named_window_is_meant(proxy, requested);
    let window = proxy.meant_window(requested)->Ok_0.unwrap();
    delivered::holder_has_the_window(proxy, window.window_id);
}

/// The points at which a buffer may be read and is given back are those that the
/// client set before the commit; they count for that commit alone.
#[verifier::spinoff_prover]
pub proof fn points_count_for_one_commit(
    client: SessionView,
    request: RequestView,
    message_fds: Seq<u64>,
    timeline: Option<u32>,
    point_hi: u32,
    point_lo: u32,
)
    requires
        client.tracker.syncobj_surface_to_surface.contains_key(request.object_id),
        timeline matches Some(id) ==> client.tracker.syncobj_timelines.contains_key(id),
    ensures
        ({
            let surface_id = client.tracker.syncobj_surface_to_surface[request.object_id];
            let (after, failure) = client.syncobj_tracked(request, message_fds);
            let committed = ingest::hooked(
                after.tracker,
                WaylandInterceptKind::SurfaceCommit,
                surface_id,
                GeneratedHookRequest::WlSurfaceCommit,
            ).surfaces[surface_id];
            let point = Some(
                TrackedSyncPoint {
                    timeline_id: timeline,
                    point: (point_hi * 0x1_0000_0000 + point_lo) as u64,
                },
            );
            &&& request.implemented_request == Some(
                GeneratedImplementedRequest::WpLinuxDrmSyncobjSurfaceV1SetAcquirePoint {
                    timeline,
                    point_hi,
                    point_lo,
                },
            ) ==> failure is None && committed.last_acquire == point && committed.last_release
                == client.tracker.surface(surface_id).pending_release
            &&& request.implemented_request == Some(
                GeneratedImplementedRequest::WpLinuxDrmSyncobjSurfaceV1SetReleasePoint {
                    timeline,
                    point_hi,
                    point_lo,
                },
            ) ==> failure is None && committed.last_release == point && committed.last_acquire
                == client.tracker.surface(surface_id).pending_acquire
            &&& committed.pending_acquire is None
            &&& committed.pending_release is None
        }),
{
    let known = client.tracker;
    let surface_id = known.syncobj_surface_to_surface[request.object_id];
    let after = client.syncobj_tracked(request, message_fds).0.tracker;
    let point = Some(
        TrackedSyncPoint { timeline_id: timeline, point: tracker::sync_point(point_hi, point_lo) },
    );
    let surface = known.surface(surface_id);
    changed_surface_is_there(
        known,
        surface_id,
        SurfaceView { pending_acquire: point, ..surface },
    );
    changed_surface_is_there(
        known,
        surface_id,
        SurfaceView { pending_release: point, ..surface },
    );
    commit_is_of_the_surface(after, surface_id);
}

proof fn commit_is_of_the_surface(known: TrackerView, id: u32)
    ensures
        known.committed(id).surfaces[id] == TrackerView::with_committed(
            known.surface(id),
            tracker::number_after(known.next_commit_serial),
        ),
{
    let ensured = known.window_ensured(id);
    let serial = tracker::number_after(ensured.next_commit_serial);
    assert(ensured.surface(id) == known.surface(id));
    changed_surface_is_there(
        TrackerView { next_commit_serial: serial, ..ensured },
        id,
        TrackerView::with_committed(ensured.surface(id), serial),
    );
}

/// A DMA-BUF has the size, the format and the flags that its client asked for, whether
/// it is made at once or by the compositor's leave, and the planes that were collected.
pub proof fn graphics_buffer_is_as_asked(
    client: SessionView,
    request: RequestView,
    message_fds: Seq<u64>,
    buffer_id: u32,
    width: i32,
    height: i32,
    format: u32,
    flags: u32,
    event: DecodedEventView,
)
    requires
        client.tracker.dmabuf_params.contains_key(request.object_id),
        event.object_id == request.object_id,
        event.generated_event == (EventView::ZwpLinuxBufferParamsV1Created { buffer: buffer_id }),
    ensures
        ({
            let planes = client.tracker.dmabuf_params[request.object_id].planes;
            let (after, failure) = client.dmabuf_tracked(request, message_fds);
            let (made, late_failure) = after.backend_event_tracked(event);
            &&& request.tracked_request == Some(
                TrackedRequestView::ZwpLinuxBufferParamsV1CreateImmed {
                    buffer_id,
                    width,
                    height,
                    format,
                    flags,
                },
            ) ==> failure is None && is_graphics_buffer(
                after.tracker.buffers[buffer_id],
                width,
                height,
                format,
                flags,
                planes,
            )
            &&& request.tracked_request == Some(
                TrackedRequestView::ZwpLinuxBufferParamsV1Create { width, height, format, flags },
            ) ==> failure is None && late_failure is None && is_graphics_buffer(
                made.tracker.buffers[buffer_id],
                width,
                height,
                format,
                flags,
                planes,
            )
        }),
{
}

/// Whether a buffer is a DMA-BUF that was asked for so.
pub open spec fn is_graphics_buffer(
    buffer: BufferView,
    width: i32,
    height: i32,
    format: u32,
    flags: u32,
    planes: Seq<TrackedDmabufPlane>,
) -> bool {
    &&& buffer.width == one_or(width as int)
    &&& buffer.height == one_or(height as int)
    &&& buffer.rgba is None
    &&& buffer.source matches SourceView::Dmabuf(image) && image.width == buffer.width
        && image.height == buffer.height && image.format == format && image.flags == flags
        && image.planes == planes
}

/// A plane that a client adds is there with its descriptor and as the client described
/// it, and none of the others goes.
pub proof fn plane_is_collected(
    client: SessionView,
    request: RequestView,
    message_fds: Seq<u64>,
    plane_idx: u32,
    offset: u32,
    stride: u32,
    modifier_hi: u32,
    modifier_lo: u32,
)
    requires
        client.tracker.dmabuf_params.contains_key(request.object_id),
        surface::planes_in_order(client.tracker.dmabuf_params[request.object_id].planes),
        message_fds.len() > 0,
        request.tracked_request == Some(
            TrackedRequestView::ZwpLinuxBufferParamsV1Add {
                fd: true,
                plane_idx,
                offset,
                stride,
                modifier_hi,
                modifier_lo,
            },
        ),
    ensures
        ({
            let before = client.tracker.dmabuf_params[request.object_id].planes;
            let (after, failure) = client.dmabuf_tracked(request, message_fds);
            let now = after.tracker.dmabuf_params[request.object_id].planes;
            let plane = TrackedDmabufPlane {
                fd: message_fds[0],
                plane_idx,
                offset,
                stride,
                modifier: (modifier_hi * 0x1_0000_0000 + modifier_lo) as u64,
            };
            &&& failure is None
            &&& now.to_multiset() == before.to_multiset().insert(plane)
            &&& surface::planes_in_order(now)
        }),
{
    let before = client.tracker.dmabuf_params[request.object_id].planes;
    let plane = TrackedDmabufPlane {
        fd: message_fds[0],
        plane_idx,
        offset,
        stride,
        modifier: (modifier_hi * 0x1_0000_0000 + modifier_lo) as u64,
    };
    surface::added_plane_keeps_order(before, plane);
    let at = surface::plane_position(before, plane_idx) as int;
    before.to_multiset_ensures();
    vstd::seq_lib::to_multiset_insert(before, at, plane);
}

/// A shared-memory pool is made of the first descriptor in line, with the size that the
/// message says, and is known by the number that the message says.
pub proof fn pool_is_as_asked(client: SessionView, message: WireView, shm: u32, pool: u32, size: u32)
    requires
        client.interfaces.contains_key(shm),
        client.interfaces[shm] == "wl_shm"@,
        layout::reads_as(message.bytes, shm, 0, seq![pool, size]),
    ensures
        ({
            let line = client.pending_fds + message.fds;
            let (after, kept, failure) = client.undecoded(message);
            &&& failure is Some <==> line.len() == 0
            &&& kept.bytes == message.bytes
            &&& line.len() > 0 ==> {
                &&& kept.fds == seq![line[0]]
                &&& after.pending_fds == line.skip(1)
                &&& after.tracker.shm_pools.contains_key(pool)
                &&& after.tracker.shm_pools[pool].fd == line[0]
                &&& after.tracker.shm_pools[pool].size == size
                &&& after.interfaces.contains_key(pool)
                &&& after.interfaces[pool] == "wl_shm_pool"@
                &&& after.tracker.buffers == client.tracker.buffers
            }
        }),
{
    let words = seq![pool, size];
    assert(words[0] == pool && words[1] == size);
    assert(wire::word_at(message.bytes, 8) == words[0]);
    assert(wire::word_at(message.bytes, 12) == words[1]);
    let line = client.pending_fds + message.fds;
    if line.len() > 0 {
        assert(line.take(1) =~= seq![line[0]]);
    }
}

/// A buffer of shared memory has the size, the place in its pool, the stride and the
/// format that the message says, in the order of the protocol, and is refused exactly
/// where a length is not positive or the pool does not hold it.
pub proof fn shared_buffer_is_as_asked(
    client: SessionView,
    message: WireView,
    pool: u32,
    buffer: u32,
    offset: u32,
    width: i32,
    height: i32,
    stride: i32,
    format: u32,
)
    requires
        client.interfaces.contains_key(pool),
        client.interfaces[pool] == "wl_shm_pool"@,
        client.tracker.shm_pools.contains_key(pool),
        0 <= width,
        0 <= height,
        0 <= stride,
        layout::reads_as(
            message.bytes,
            pool,
            0,
            seq![buffer, offset, width as u32, height as u32, stride as u32, format],
        ),
    ensures
        ({
            let source = client.tracker.shm_pools[pool];
            let (after, kept, failure) = client.undecoded(message);
            let made = after.tracker.buffers[buffer];
            &&& kept == message
            &&& failure is None <==> width > 0 && height > 0 && stride > 0 && offset + stride
                * height <= source.size
            &&& failure is None ==> {
                &&& after.tracker.buffers.contains_key(buffer)
                &&& made.width == width
                &&& made.height == height
                &&& made.source matches SourceView::Shm(memory) && memory.fd == source.fd
                    && memory.offset == offset && memory.width == width && memory.height == height
                    && memory.stride == stride && memory.format == format
                &&& after.interfaces.contains_key(buffer)
                &&& after.interfaces[buffer] == "wl_buffer"@
            }
            &&& failure is Some ==> after == client
        }),
{
    let words = seq![buffer, offset, width as u32, height as u32, stride as u32, format];
    let bytes = message.bytes;
    let size = 32u16;
    assert(wire::word_at(bytes, 8) == words[0]);
    assert(wire::word_at(bytes, 12) == words[1]);
    assert(wire::word_at(bytes, 16) == words[2]);
    assert(wire::word_at(bytes, 20) == words[3]);
    assert(wire::word_at(bytes, 24) == words[4]);
    assert(wire::word_at(bytes, 28) == words[5]);
    reveal_strlit("wl_shm_pool");
    reveal_strlit("wl_shm");
    assert("wl_shm_pool"@.len() != "wl_shm"@.len());
    assert(wire::header_of(bytes) == Ok::<wire::WaylandMessageHeader, Seq<char>>(
        wire::WaylandMessageHeader { object_id: pool, size, opcode: 0 },
    ));
    reveal_with_fuel(SessionView::shm_buffer_words, 7);
    let read = SessionView::shm_buffer_words(size, bytes, 6);
    assert(read is Ok && read->Ok_0 =~= words);
    if width > 0 && height > 0 && stride > 0 {
        assert(0 < stride * height) by (nonlinear_arith)
            requires
                0 < stride,
                0 < height,
        ;
    }
}

/// A pool that gets another size keeps its descriptor, and one that is destroyed is
/// gone, while the buffers that were made of it stay.
pub proof fn pool_is_changed(client: SessionView, message: WireView, pool: u32, size: u32)
    requires
        client.interfaces.contains_key(pool),
        client.interfaces[pool] == "wl_shm_pool"@,
        client.tracker.shm_pools.contains_key(pool),
    ensures
        layout::reads_as(message.bytes, pool, 2, seq![size]) ==> {
            let (after, kept, failure) = client.undecoded(message);
            &&& failure is None
            &&& kept == message
            &&& after.tracker.shm_pools[pool].size == size
            &&& after.tracker.shm_pools[pool].fd == client.tracker.shm_pools[pool].fd
            &&& after.tracker.buffers == client.tracker.buffers
        },
        layout::reads_as(message.bytes, pool, 1, Seq::empty()) ==> {
            let (after, kept, failure) = client.undecoded(message);
            &&& failure is None
            &&& kept == message
            &&& !after.tracker.shm_pools.contains_key(pool)
            &&& !after.interfaces.contains_key(pool)
            &&& after.tracker.buffers == client.tracker.buffers
        },
{
    reveal_strlit("wl_shm_pool");
    reveal_strlit("wl_shm");
    assert("wl_shm_pool"@.len() != "wl_shm"@.len());
    let words = seq![size];
    if layout::reads_as(message.bytes, pool, 2, words) {
        assert(wire::word_at(message.bytes, 8) == words[0]);
    }
}

/// A surface is below another where that is its parent, or is above its parent.
pub proof fn parts_are_below_their_wholes(parents: Map<u32, u32>, part: u32, whole: u32)
    requires
        parents.contains_key(part),
    ensures
        tracker::descends_from(parents, part, whole) <==> parents[part] == whole
            || tracker::descends_from(parents, parents[part], whole),
{
    if parents[part] == whole {
        assert(tracker::ancestor_within(parents, part, whole, 1));
    }
    if tracker::descends_from(parents, parents[part], whole) {
        let steps = choose|steps: nat|
            tracker::ancestor_within(parents, parents[part], whole, steps);
        assert(tracker::ancestor_within(parents, part, whole, steps + 1));
    }
    if tracker::descends_from(parents, part, whole) && parents[part] != whole {
        let steps = choose|steps: nat| tracker::ancestor_within(parents, part, whole, steps);
        assert(tracker::ancestor_within(parents, parents[part], whole, (steps - 1) as nat));
    }
}

/// A part of a window that has a buffer shows the window in place of the surface that it
/// is a part of, which keeps the input; a whole never takes over from its part, and a
/// surface on its own only where it is the better one.
pub proof fn parts_show_their_window(known: TrackerView, number: u64, candidate: u32)
    requires
        known.windows.contains_key(number),
        known.surfaces.contains_key(candidate),
        known.surfaces.contains_key(known.windows[number].wl_surface_id),
    ensures
        ({
            let current = known.windows[number].wl_surface_id;
            let below = tracker::descends_from(known.surface_parent, candidate, current);
            let above = tracker::descends_from(known.surface_parent, current, candidate);
            let better = known.surfaces[candidate].beats(known.surfaces[current]);
            let after = known.promoted(number, candidate).windows[number];
            &&& after.wl_surface_id == (if (below && known.surfaces[candidate].has_committed_buffer)
                || (!above && better) {
                candidate
            } else {
                current
            })
            &&& after.input_surface_id == known.windows[number].input_surface_id
            &&& after.title == known.windows[number].title
            &&& after.xdg_toplevel_id == known.windows[number].xdg_toplevel_id
        }),
{
}

/// What is linked to a surface stays linked until it is destroyed: a viewport, a part,
/// synchronisation. Without its viewport a surface is not scaled, and without its link
/// a part lies nowhere.
pub proof fn links_last_until_destroyed(
    client: SessionView,
    request: RequestView,
    id: u32,
    surface: u32,
)
    requires
        is_no_ack(request),
    ensures
        ({
            let after = client.windows_tracked(request).0.tracker;
            let object = request.object_id;
            &&& request.tracked_request == Some(
                TrackedRequestView::WpViewporterGetViewport { id, surface: Some(surface) },
            ) ==> after.viewport_to_surface == client.tracker.viewport_to_surface.insert(
                id,
                surface,
            )
            &&& request.tracked_request == Some(TrackedRequestView::WpViewportDestroy)
                && client.tracker.viewport_to_surface.contains_key(object) ==> after.surfaces[
                client.tracker.viewport_to_surface[object]
            ].viewport_destination is None && !after.viewport_to_surface.contains_key(object)
            &&& request.tracked_request == Some(TrackedRequestView::WlSubsurfaceDestroy)
                && client.tracker.subsurface_to_surface.contains_key(object) ==> {
                let part = client.tracker.subsurface_to_surface[object];
                &&& !after.subsurface_to_surface.contains_key(object)
                &&& !after.surface_parent.contains_key(part)
                &&& after.offset_of(part) == (0i32, 0i32)
                &&& after.windows == client.tracker.windows
            }
        }),
{
}

/// A timeline is known by its descriptor, and a surface by its synchronisation, from
/// when the client makes them until it destroys them.
pub proof fn timelines_are_known(
    client: SessionView,
    request: RequestView,
    message_fds: Seq<u64>,
    id: u32,
    surface: u32,
    fd: bool,
)
    ensures
        ({
            let (after, failure) = client.syncobj_tracked(request, message_fds);
            let object = request.object_id;
            &&& request.implemented_request == Some(
                GeneratedImplementedRequest::WpLinuxDrmSyncobjManagerV1ImportTimeline { id, fd },
            ) ==> (failure is None <==> message_fds.len() > 0) && (message_fds.len() > 0
                ==> after.tracker.syncobj_timelines == client.tracker.syncobj_timelines.insert(
                id,
                message_fds[0],
            ))
            &&& request.implemented_request == Some(
                GeneratedImplementedRequest::WpLinuxDrmSyncobjTimelineV1Destroy,
            ) ==> after.tracker.syncobj_timelines == client.tracker.syncobj_timelines.remove(object)
            &&& request.implemented_request == Some(
                GeneratedImplementedRequest::WpLinuxDrmSyncobjManagerV1GetSurface {
                    id,
                    surface: Some(surface),
                },
            ) ==> after.tracker.syncobj_surface_to_surface
                == client.tracker.syncobj_surface_to_surface.insert(id, surface)
            &&& request.implemented_request == Some(
                GeneratedImplementedRequest::WpLinuxDrmSyncobjSurfaceV1Destroy,
            ) ==> after.tracker.syncobj_surface_to_surface
                == client.tracker.syncobj_surface_to_surface.remove(object)
        }),
{
}

/// The points of a surface are told with the timeline and the point of each, that at
/// which the buffer may be read first; what was committed counts before what was not.
pub proof fn points_are_told(surface: SurfaceView, timeline: u32, point: u64)
    ensures
        surface.sync_text() is None <==> surface.last_acquire is None && surface.pending_acquire is None
            && surface.last_release is None && surface.pending_release is None,
        ({
            let told = ":timeline="@ + text::decimal(timeline as nat) + ":point="@ + text::decimal(
                point as nat,
            );
            let set = Some(TrackedSyncPoint { timeline_id: Some(timeline), point });
            &&& surface.last_acquire == set && surface.last_release is None
                && surface.pending_release is None ==> surface.sync_text() == Some(
                "acquire"@ + told,
            )
            &&& surface.last_release == set && surface.last_acquire is None
                && surface.pending_acquire is None ==> surface.sync_text() == Some(
                "release"@ + told,
            )
            &&& surface.last_acquire == set && surface.last_release == set ==> surface.sync_text()
                == Some("acquire"@ + told + ", "@ + ("release"@ + told))
        }),
{
    let told = ":timeline="@ + text::decimal(timeline as nat) + ":point="@ + text::decimal(
        point as nat,
    );
    let of = TrackedSyncPoint { timeline_id: Some(timeline), point };
    assert(surface::sync_point_text("acquire"@, of) =~= "acquire"@ + told);
    assert(surface::sync_point_text("release"@, of) =~= "release"@ + told);
}

/// That the compositor proposed a configuration of a surface, and that the client
/// accepted one, is known of the surface from then on.
pub proof fn configurations_are_known(
    client: SessionView,
    event: DecodedEventView,
    request: RequestView,
    serial: u32,
    surface: u32,
)
    requires
        event.generated_event == (EventView::XdgSurfaceConfigure { serial }),
        request.implemented_request == Some(
            GeneratedImplementedRequest::XdgSurfaceAckConfigure { serial },
        ),
        request.tracked_request == Some(TrackedRequestView::XdgSurfaceAckConfigure { serial }),
        event.object_id == request.object_id,
        client.tracker.xdg_surface_to_surface.contains_key(request.object_id),
        client.tracker.xdg_surface_to_surface[request.object_id] == surface,
    ensures
        ({
            let before = client.tracker.surface(surface);
            let seen = client.backend_event_tracked(event).0.tracker.surfaces[surface];
            let acked = client.windows_tracked(request).0.tracker.surfaces[surface];
            &&& seen.xdg_configure_seen
            &&& seen.xdg_configure_acked == before.xdg_configure_acked
            &&& acked.xdg_configure_acked
            &&& acked.xdg_configure_seen == before.xdg_configure_seen
            &&& seen.commit_serial == before.commit_serial
            &&& acked.commit_serial == before.commit_serial
        }),
{
}

/// A window that is listed for capture with pixels of its own is one that can be
/// captured and is on the proxy's output, and one that counts as shown by a graphics
/// buffer is mapped, on an output of the compositor, and told with that kind of buffer.
pub proof fn listed_for_capture_means_capturable(known: TrackerView, number: u64)
    requires
        known.windows.contains_key(number),
        known.number_of(known.info(number).window_id) == Some(number),
    ensures
        known.shows_pixels(known.info(number)) ==> known.info(number).on_capture_output,
        known.info(number).on_capture_output && known.surfaces[
            known.windows[number].wl_surface_id
        ].rgba.len() > 0 ==> known.shows_pixels(known.info(number)),
        known.shows_dmabuf(number) <==> known.info(number).mapped && known.info(
            number,
        ).on_backend_output && known.info(number).buffer_kind == Some("dmabuf"@),
{
    reveal_strlit("dmabuf");
    reveal_strlit("shm");
    reveal_strlit("unknown");
    assert("dmabuf"@.len() == 6 && "shm"@.len() == 3 && "unknown"@.len() == 7);
}

proof fn plane_lies_within(planes: Seq<TrackedDmabufPlane>, plane_idx: u32)
    ensures
        surface::plane_position(planes, plane_idx) <= planes.len(),
    decreases planes.len(),
{
    if planes.len() > 0 && planes.last().plane_idx > plane_idx {
        plane_lies_within(planes.drop_last(), plane_idx);
    }
}

/// A descriptor is needed as long as something is known that is read from it: a pool, a
/// buffer, a plane of a buffer to come, or a timeline. It is not needed by a client of whom
/// nothing is known, and a pool that is gone needs it no more than what is left does.
pub proof fn descriptors_are_needed_by_what_is_known(
    known: TrackerView,
    id: u32,
    fd: u64,
    size: usize,
    plane: TrackedDmabufPlane,
)
    ensures
        known.pool_created(id, fd, size).holds(fd),
        known.timeline_imported(id, fd).holds(fd),
        known.plane_added(id, plane) matches Ok(after) ==> after.holds(plane.fd),
        known.buffers.contains_key(id) && (known.buffers[id].source matches SourceView::Shm(pixels)
            && pixels.fd == fd) ==> known.holds(fd) && known.pool_destroyed(id).holds(fd),
        known.dmabuf_params == Map::<u32, surface::ParamsView>::empty() && known.shm_pools == Map::<
            u32,
            surface::TrackedShmPool,
        >::empty() && known.buffers == Map::<u32, surface::BufferView>::empty() ==> (known.holds(fd)
            <==> known.syncobj_timelines.contains_value(fd)),
{
    assert(known.pool_created(id, fd, size).pool_holds(id, fd));
    assert(known.timeline_imported(id, fd).timeline_holds(id, fd));
    if known.plane_added(id, plane) is Ok {
        let after = known.plane_added(id, plane)->Ok_0;
        let planes = known.dmabuf_params[id].planes;
        let place = surface::plane_position(planes, plane.plane_idx) as int;
        plane_lies_within(planes, plane.plane_idx);
        assert(after.dmabuf_params[id].planes[place] == plane);
        assert(after.params_hold(id, plane.fd));
    }
    if known.buffer_holds(id, fd) {
        assert(known.pool_destroyed(id).buffer_holds(id, fd));
    }
    if known.syncobj_timelines.contains_value(fd) {
        let timeline = choose|t: u32| #[trigger]
            known.syncobj_timelines.contains_key(t) && known.syncobj_timelines[t] == fd;
        assert(known.timeline_holds(timeline, fd));
    }
    if exists|t: u32| #[trigger] known.timeline_holds(t, fd) {
        let timeline = choose|t: u32| #[trigger] known.timeline_holds(t, fd);
        assert(known.syncobj_timelines.contains_key(timeline));
    }
}

} // verus!
