//! The windows of one client: how requests for surfaces, buffers, windows and
//! synchronisation change what is known of them.

use crate::color::{ColorDescription, ColorsView, SurfaceColors};
use crate::dmabuf;
use crate::messages::GeneratedHookRequest;
use crate::surface;
use crate::surface::{
    BufferView, DamageRect, DmabufView, ParamsView, PendingDmabufCreate, PendingDmabufParams,
    SourceView, SurfaceView, TrackedBuffer, TrackedBufferSource, TrackedDmabufBuffer,
    TrackedDmabufPlane, TrackedShmBuffer, TrackedShmPool, TrackedSurface, TrackedSyncPoint,
    TrackedWindow, WindowView, add_plane, at_least, copy_planes,
};
use crate::table;
use crate::table::Table;
use crate::text;
use crate::text::{append_decimal, append_signed, copy_bytes};
use vstd::prelude::*;
use vstd::string::*;

verus! {

/// A shared-memory buffer as a client asks for it.
#[derive(Debug, Clone, Copy, PartialEq, Eq, Structural)]
pub struct ShmBufferSpec {
    pub pool_id: u32,
    pub buffer_id: u32,
    pub offset: u32,
    pub width: i32,
    pub height: i32,
    pub stride: i32,
    pub format: u32,
}

/// What is known of a client's surfaces, buffers and windows.
pub struct WaylandFrameTracker {
    colors: SurfaceColors,
    window_id_prefix: String,
    next_commit_serial: u64,
    next_window_id: u64,
    dmabuf_params: Table<u32, PendingDmabufParams>,
    shm_pools: Table<u32, TrackedShmPool>,
    buffers: Table<u32, TrackedBuffer>,
    surfaces: Table<u32, TrackedSurface>,
    windows: Table<u64, TrackedWindow>,
    surface_to_window: Table<u32, u64>,
    xdg_surface_to_surface: Table<u32, u32>,
    xdg_toplevel_to_window: Table<u32, u64>,
    subsurface_to_surface: Table<u32, u32>,
    surface_parent: Table<u32, u32>,
    surface_position: Table<u32, (i32, i32)>,
    viewport_to_surface: Table<u32, u32>,
    syncobj_surface_to_surface: Table<u32, u32>,
    syncobj_timelines: Table<u32, u64>,
}

/// The value of what is known. Windows go by their numbers.
#[verifier::ext_equal]
pub struct TrackerView {
    pub colors: ColorsView,
    pub prefix: Seq<char>,
    pub next_commit_serial: u64,
    pub next_window_id: u64,
    pub dmabuf_params: Map<u32, ParamsView>,
    pub shm_pools: Map<u32, TrackedShmPool>,
    pub buffers: Map<u32, BufferView>,
    pub surfaces: Map<u32, SurfaceView>,
    pub windows: Map<u64, WindowView>,
    pub surface_to_window: Map<u32, u64>,
    pub xdg_surface_to_surface: Map<u32, u32>,
    pub xdg_toplevel_to_window: Map<u32, u64>,
    pub subsurface_to_surface: Map<u32, u32>,
    pub surface_parent: Map<u32, u32>,
    pub surface_position: Map<u32, (i32, i32)>,
    pub viewport_to_surface: Map<u32, u32>,
    pub syncobj_surface_to_surface: Map<u32, u32>,
    pub syncobj_timelines: Map<u32, u64>,
}

impl View for WaylandFrameTracker {
    type V = TrackerView;

    closed spec fn view(&self) -> TrackerView {
        TrackerView {
            colors: self.colors@,
            prefix: self.window_id_prefix@,
            next_commit_serial: self.next_commit_serial,
            next_window_id: self.next_window_id,
            dmabuf_params: self.dmabuf_params@,
            shm_pools: self.shm_pools@,
            buffers: self.buffers@,
            surfaces: self.surfaces@,
            windows: self.windows@,
            surface_to_window: self.surface_to_window@,
            xdg_surface_to_surface: self.xdg_surface_to_surface@,
            xdg_toplevel_to_window: self.xdg_toplevel_to_window@,
            subsurface_to_surface: self.subsurface_to_surface@,
            surface_parent: self.surface_parent@,
            surface_position: self.surface_position@,
            viewport_to_surface: self.viewport_to_surface@,
            syncobj_surface_to_surface: self.syncobj_surface_to_surface@,
            syncobj_timelines: self.syncobj_timelines@,
        }
    }
}

/// The number after `n`; the last number comes after itself.
pub open spec fn number_after(n: u64) -> u64 {
    if n == u64::MAX {
        n
    } else {
        (n + 1) as u64
    }
}

/// The number after `n`; the last number comes after itself.
pub fn next_number(n: u64) -> (next: u64)
    ensures
        next == number_after(n),
{
    if n == u64::MAX {
        n
    } else {
        n + 1
    }
}

/// The name of a window: the client's prefix and the window's number.
pub open spec fn window_name(prefix: Seq<char>, number: u64) -> Seq<char> {
    prefix + "-window-"@ + text::decimal(number as nat)
}

/// Windows of different numbers have different names.
pub proof fn window_names_differ(prefix: Seq<char>, a: u64, b: u64)
    requires
        window_name(prefix, a) == window_name(prefix, b),
    ensures
        a == b,
{
    let head = prefix + "-window-"@;
    let name_a = window_name(prefix, a);
    let name_b = window_name(prefix, b);
    assert(name_a.skip(head.len() as int) =~= text::decimal(a as nat));
    assert(name_b.skip(head.len() as int) =~= text::decimal(b as nat));
    text::decimal_is_injective(a as nat, b as nat);
}

/// Whether `ancestor` is among the first `steps` ancestors of a surface.
pub open spec fn ancestor_within(
    parents: Map<u32, u32>,
    surface_id: u32,
    ancestor: u32,
    steps: nat,
) -> bool
    decreases steps,
{
    steps > 0 && parents.contains_key(surface_id) && (parents[surface_id] == ancestor
        || ancestor_within(parents, parents[surface_id], ancestor, (steps - 1) as nat))
}

/// Whether `ancestor` is an ancestor of a surface: its parent, or its parent's
/// parent, and so on.
pub open spec fn descends_from(parents: Map<u32, u32>, surface_id: u32, ancestor: u32) -> bool {
    exists|steps: nat| #[trigger] ancestor_within(parents, surface_id, ancestor, steps)
}

/// The sum of two numbers, kept within 64 bits.
pub open spec fn clipped_sum(a: i64, b: i64) -> i64 {
    if a + b > i64::MAX {
        i64::MAX
    } else if a + b < i64::MIN {
        i64::MIN
    } else {
        (a + b) as i64
    }
}

impl TrackerView {
    /// Nothing is known yet.
    pub open spec fn empty(prefix: Seq<char>) -> Self {
        TrackerView {
            colors: ColorsView::empty(),
            prefix,
            next_commit_serial: 0,
            next_window_id: 0,
            dmabuf_params: Map::empty(),
            shm_pools: Map::empty(),
            buffers: Map::empty(),
            surfaces: Map::empty(),
            windows: Map::empty(),
            surface_to_window: Map::empty(),
            xdg_surface_to_surface: Map::empty(),
            xdg_toplevel_to_window: Map::empty(),
            subsurface_to_surface: Map::empty(),
            surface_parent: Map::empty(),
            surface_position: Map::empty(),
            viewport_to_surface: Map::empty(),
            syncobj_surface_to_surface: Map::empty(),
            syncobj_timelines: Map::empty(),
        }
    }

    /// A surface, which is fresh where it is not known.
    pub open spec fn surface(self, id: u32) -> SurfaceView {
        if self.surfaces.contains_key(id) {
            self.surfaces[id]
        } else {
            SurfaceView::fresh(id)
        }
    }

    /// With a surface replaced.
    pub open spec fn with_surface(self, id: u32, surface: SurfaceView) -> Self {
        TrackerView { surfaces: self.surfaces.insert(id, surface), ..self }
    }

    /// With a window replaced.
    pub open spec fn with_window(self, number: u64, window: WindowView) -> Self {
        TrackerView { windows: self.windows.insert(number, window), ..self }
    }

    /// The number of the window that a surface belongs to; a surface that
    /// belongs to none gets the next number.
    pub open spec fn window_of(self, surface_id: u32) -> u64 {
        if self.surface_to_window.contains_key(surface_id) {
            self.surface_to_window[surface_id]
        } else {
            number_after(self.next_window_id)
        }
    }

    /// A window that shows a surface and nothing else.
    pub open spec fn window_for(surface_id: u32, surface: SurfaceView) -> WindowView {
        WindowView {
            wl_surface_id: surface_id,
            input_surface_id: surface_id,
            xdg_surface_id: None,
            xdg_toplevel_id: None,
            title: None,
            app_id: None,
            width: surface::at_least_one(surface.width),
            height: surface::at_least_one(surface.height),
            mapped: surface.has_committed_buffer,
            focused: false,
            commit_serial: surface.commit_serial,
            output_count: surface.output_ids.len(),
        }
    }

    /// After it was made sure that a surface belongs to a window.
    pub open spec fn window_ensured(self, surface_id: u32) -> Self {
        if self.surface_to_window.contains_key(surface_id) {
            self
        } else {
            let number = number_after(self.next_window_id);
            let surface = self.surface(surface_id);
            TrackerView {
                next_window_id: number,
                surfaces: self.surfaces.insert(surface_id, surface),
                surface_to_window: self.surface_to_window.insert(surface_id, number),
                windows: self.windows.insert(number, Self::window_for(surface_id, surface)),
                ..self
            }
        }
    }

    /// Whether a surface takes over as the one that shows a window: a
    /// descendant of the present one does once it has pixels, and otherwise a
    /// better one does unless the present one is its descendant.
    pub open spec fn takes_over(self, number: u64, candidate_id: u32) -> bool {
        let current_id = self.windows[number].wl_surface_id;
        let candidate = self.surfaces[candidate_id];
        let below = descends_from(self.surface_parent, candidate_id, current_id);
        let above = descends_from(self.surface_parent, current_id, candidate_id);
        let current = if self.surfaces.contains_key(current_id) {
            self.surfaces[current_id]
        } else {
            SurfaceView { width: 0, height: 0, ..SurfaceView::fresh(current_id) }
        };
        self.surfaces.contains_key(candidate_id) && self.windows.contains_key(number) && ((below
            && candidate.has_committed_buffer) || (!above && candidate.beats(current)))
    }

    /// After a surface was considered as the one that shows a window.
    pub open spec fn promoted(self, number: u64, candidate_id: u32) -> Self {
        if self.takes_over(number, candidate_id) {
            self.with_window(
                number,
                WindowView { wl_surface_id: candidate_id, ..self.windows[number] },
            )
        } else {
            self
        }
    }

    /// After a window took over from a surface what concerns it, if the surface
    /// is the one that shows it.
    pub open spec fn window_updated(self, number: u64, surface_id: u32) -> Self {
        if self.surfaces.contains_key(surface_id) && self.windows.contains_key(number)
            && self.windows[number].wl_surface_id == surface_id {
            let surface = self.surfaces[surface_id];
            self.with_window(
                number,
                WindowView {
                    width: surface::at_least_one(surface.width),
                    height: surface::at_least_one(surface.height),
                    commit_serial: surface.commit_serial,
                    mapped: surface.has_committed_buffer,
                    output_count: surface.output_ids.len(),
                    ..self.windows[number]
                },
            )
        } else {
            self
        }
    }

    /// After a surface's window was brought up to date.
    pub open spec fn synced(self, surface_id: u32) -> Self {
        let number = self.window_of(surface_id);
        self.window_ensured(surface_id).promoted(number, surface_id).window_updated(
            number,
            surface_id,
        )
    }

    /// After a surface was changed and its window brought up to date.
    pub open spec fn surface_changed(self, id: u32, surface: SurfaceView) -> Self {
        self.with_surface(id, surface).synced(id)
    }
}

/// Whether a step that may fail went as expected: on failure nothing changed.
pub open spec fn stepped(
    before: TrackerView,
    after: TrackerView,
    result: Result<(), String>,
    expected: Result<TrackerView, Seq<char>>,
) -> bool {
    match expected {
        Ok(next) => result is Ok && after =~= next,
        Err(message) => after == before && (result matches Err(error) && error@ == message),
    }
}

/// The byte after the last one of a shared-memory buffer in its pool.
pub open spec fn shm_buffer_end(buffer: ShmBufferSpec) -> int {
    buffer.offset + buffer.stride * buffer.height
}

/// A length that a client asks for, at least one.
pub open spec fn clamped(value: i32) -> u32 {
    if value < 1 {
        1
    } else {
        value as u32
    }
}

/// A length that a client asks for, at least one.
pub fn clamp_dimension(value: i32) -> (length: u32)
    ensures
        length == clamped(value),
{
    if value < 1 {
        1
    } else {
        value as u32
    }
}

/// The point on a timeline that two words hold.
pub open spec fn sync_point(point_hi: u32, point_lo: u32) -> u64 {
    (point_hi * 0x1_0000_0000 + point_lo) as u64
}

/// The point on a timeline that two words hold.
pub fn sync_point_from_words(point_hi: u32, point_lo: u32) -> (point: u64)
    ensures
        point == sync_point(point_hi, point_lo),
{
    point_hi as u64 * 0x1_0000_0000 + point_lo as u64
}

impl TrackerView {
    /// After a shared-memory pool was made.
    pub open spec fn pool_created(self, pool_id: u32, fd: u64, size: usize) -> Self {
        TrackerView { shm_pools: self.shm_pools.insert(pool_id, TrackedShmPool { fd, size }), ..self }
    }

    /// After a shared-memory pool got another size.
    pub open spec fn pool_resized(self, pool_id: u32, size: usize) -> Result<Self, Seq<char>> {
        if self.shm_pools.contains_key(pool_id) {
            Ok(self.pool_created(pool_id, self.shm_pools[pool_id].fd, size))
        } else {
            Err("missing wl_shm_pool "@ + text::decimal(pool_id as nat))
        }
    }

    /// After a shared-memory pool was destroyed. Its buffers stay.
    pub open spec fn pool_destroyed(self, pool_id: u32) -> Self {
        TrackerView { shm_pools: self.shm_pools.remove(pool_id), ..self }
    }

    /// With a buffer.
    pub open spec fn with_buffer(self, buffer_id: u32, buffer: BufferView) -> Self {
        TrackerView { buffers: self.buffers.insert(buffer_id, buffer), ..self }
    }

    /// After a buffer was made in a shared-memory pool.
    pub open spec fn shm_buffer_created(self, buffer: ShmBufferSpec) -> Result<Self, Seq<char>> {
        if buffer.width <= 0 || buffer.height <= 0 || buffer.stride <= 0 {
            Err(
                "wl_shm_pool.create_buffer "@ + text::decimal(buffer.buffer_id as nat)
                    + " has invalid geometry "@ + text::signed_decimal(buffer.width as int) + "x"@
                    + text::signed_decimal(buffer.height as int) + " stride="@
                    + text::signed_decimal(buffer.stride as int),
            )
        } else if !self.shm_pools.contains_key(buffer.pool_id) {
            Err("missing wl_shm_pool "@ + text::decimal(buffer.pool_id as nat))
        } else if buffer.stride * buffer.height > usize::MAX {
            Err(
                "wl_shm buffer "@ + text::decimal(buffer.buffer_id as nat)
                    + " byte size overflow"@,
            )
        } else if shm_buffer_end(buffer) > usize::MAX {
            Err(
                "wl_shm buffer "@ + text::decimal(buffer.buffer_id as nat)
                    + " byte range overflow"@,
            )
        } else if shm_buffer_end(buffer) > self.shm_pools[buffer.pool_id].size {
            Err(
                "wl_shm buffer "@ + text::decimal(buffer.buffer_id as nat) + " range ends at "@
                    + text::decimal(shm_buffer_end(buffer) as nat) + ", beyond pool size "@
                    + text::decimal(self.shm_pools[buffer.pool_id].size as nat),
            )
        } else {
            let width = buffer.width as u32;
            let height = buffer.height as u32;
            Ok(
                self.with_buffer(
                    buffer.buffer_id,
                    BufferView {
                        width,
                        height,
                        rgba: None,
                        source: SourceView::Shm(
                            TrackedShmBuffer {
                                fd: self.shm_pools[buffer.pool_id].fd,
                                offset: buffer.offset,
                                width,
                                height,
                                stride: buffer.stride as u32,
                                format: buffer.format,
                            },
                        ),
                    },
                ),
            )
        }
    }

    /// After an object was made that collects the planes of a DMA-BUF.
    pub open spec fn params_created(self, params_id: u32) -> Self {
        TrackerView {
            dmabuf_params: self.dmabuf_params.insert(
                params_id,
                ParamsView { planes: Seq::empty(), pending_create: None },
            ),
            ..self
        }
    }

    /// After such an object was destroyed.
    pub open spec fn params_destroyed(self, params_id: u32) -> Self {
        TrackerView { dmabuf_params: self.dmabuf_params.remove(params_id), ..self }
    }

    /// What is said where an object that collects planes is not known.
    pub open spec fn params_missing(params_id: u32) -> Seq<char> {
        "missing dmabuf params object "@ + text::decimal(params_id as nat)
    }

    /// After a plane was added.
    pub open spec fn plane_added(self, params_id: u32, plane: TrackedDmabufPlane) -> Result<
        Self,
        Seq<char>,
    > {
        if self.dmabuf_params.contains_key(params_id) {
            let params = self.dmabuf_params[params_id];
            let position = surface::plane_position(params.planes, plane.plane_idx);
            Ok(
                TrackerView {
                    dmabuf_params: self.dmabuf_params.insert(
                        params_id,
                        ParamsView { planes: params.planes.insert(position as int, plane), ..params },
                    ),
                    ..self
                },
            )
        } else {
            Err(Self::params_missing(params_id))
        }
    }

    /// With a DMA-BUF that is made of the planes that were collected.
    pub open spec fn with_dmabuf(
        self,
        buffer_id: u32,
        planes: Seq<TrackedDmabufPlane>,
        create: PendingDmabufCreate,
    ) -> Self {
        self.with_buffer(
            buffer_id,
            BufferView {
                width: create.width,
                height: create.height,
                rgba: None,
                source: SourceView::Dmabuf(
                    DmabufView {
                        width: create.width,
                        height: create.height,
                        format: create.format,
                        flags: create.flags,
                        planes,
                    },
                ),
            },
        )
    }

    /// After a DMA-BUF was made at once.
    pub open spec fn dmabuf_created_at_once(
        self,
        params_id: u32,
        buffer_id: u32,
        create: PendingDmabufCreate,
    ) -> Result<Self, Seq<char>> {
        if self.dmabuf_params.contains_key(params_id) {
            Ok(self.with_dmabuf(buffer_id, self.dmabuf_params[params_id].planes, create))
        } else {
            Err(Self::params_missing(params_id))
        }
    }

    /// After a DMA-BUF was asked for.
    pub open spec fn dmabuf_requested(self, params_id: u32, create: PendingDmabufCreate) -> Result<
        Self,
        Seq<char>,
    > {
        if self.dmabuf_params.contains_key(params_id) {
            Ok(
                TrackerView {
                    dmabuf_params: self.dmabuf_params.insert(
                        params_id,
                        ParamsView {
                            pending_create: Some(create),
                            ..self.dmabuf_params[params_id]
                        },
                    ),
                    ..self
                },
            )
        } else {
            Err(Self::params_missing(params_id))
        }
    }

    /// After the compositor made a DMA-BUF that was asked for.
    pub open spec fn dmabuf_created(self, params_id: u32, buffer_id: u32) -> Result<
        Self,
        Seq<char>,
    > {
        if !self.dmabuf_params.contains_key(params_id) {
            Err(Self::params_missing(params_id))
        } else {
            match self.dmabuf_params[params_id].pending_create {
                Some(create) => Ok(
                    self.with_dmabuf(buffer_id, self.dmabuf_params[params_id].planes, create),
                ),
                None => Err(
                    "dmabuf params object "@ + text::decimal(params_id as nat)
                        + " has no pending create state"@,
                ),
            }
        }
    }

    /// A surface with a buffer attached. An unknown buffer leaves the size and
    /// the pixels as they were.
    pub open spec fn with_attached(self, surface: SurfaceView, buffer_id: Option<u32>) -> SurfaceView {
        match buffer_id {
            None => SurfaceView {
                buffer_id: None,
                width: 1,
                height: 1,
                rgba: seq![0, 0, 0, 0],
                buffer_kind: None,
                capture_error: None,
                ..surface
            },
            Some(id) => if self.buffers.contains_key(id) {
                let buffer = self.buffers[id];
                SurfaceView {
                    buffer_id,
                    width: surface::at_least_one(buffer.width),
                    height: surface::at_least_one(buffer.height),
                    rgba: match buffer.rgba {
                        Some(pixels) => pixels,
                        None => Seq::empty(),
                    },
                    buffer_kind: Some(buffer.kind()),
                    capture_error: buffer.error(),
                    ..surface
                }
            } else {
                SurfaceView { buffer_id, ..surface }
            },
        }
    }

    /// After a buffer was attached to a surface, or the surface was left without.
    pub open spec fn attached(self, surface_id: u32, buffer_id: Option<u32>) -> Self {
        let ensured = self.window_ensured(surface_id);
        ensured.surface_changed(
            surface_id,
            ensured.with_attached(ensured.surface(surface_id), buffer_id),
        )
    }

    /// After a buffer was destroyed: no surface has it any more.
    pub open spec fn buffer_destroyed(self, buffer_id: u32) -> Self {
        TrackerView {
            buffers: self.buffers.remove(buffer_id),
            surfaces: self.surfaces.map_values(
                |surface: SurfaceView|
                    if surface.buffer_id == Some(buffer_id) {
                        SurfaceView { buffer_id: None, ..surface }
                    } else {
                        surface
                    },
            ),
            ..self
        }
    }

    /// After a part of a surface changed.
    pub open spec fn damaged(self, surface_id: u32, rect: DamageRect) -> Self {
        let surface = self.surface(surface_id);
        self.with_surface(
            surface_id,
            SurfaceView { damage: surface.damage.push(rect), ..surface },
        )
    }

    /// A surface after a commit with a serial.
    pub open spec fn with_committed(surface: SurfaceView, serial: u64) -> SurfaceView {
        SurfaceView {
            commit_serial: serial,
            has_committed_buffer: surface.has_committed_buffer || surface.buffer_id is Some,
            last_acquire: surface.pending_acquire,
            last_release: surface.pending_release,
            pending_acquire: None,
            pending_release: None,
            damage: Seq::empty(),
            ..surface
        }
    }

    /// After a surface was committed.
    pub open spec fn committed(self, surface_id: u32) -> Self {
        let ensured = self.window_ensured(surface_id);
        let serial = number_after(ensured.next_commit_serial);
        let numbered = TrackerView { next_commit_serial: serial, ..ensured };
        numbered.surface_changed(
            surface_id,
            Self::with_committed(ensured.surface(surface_id), serial),
        )
    }

    /// After a surface got the role of an xdg_surface.
    pub open spec fn xdg_surface_created(self, xdg_surface_id: u32, wl_surface_id: u32) -> Self {
        TrackerView {
            xdg_surface_to_surface: self.xdg_surface_to_surface.insert(
                xdg_surface_id,
                wl_surface_id,
            ),
            ..self
        }
    }

    /// After a surface became a part of another: it belongs to the window of
    /// its parent, and a window of its own goes.
    pub open spec fn subsurface_created(
        self,
        subsurface_id: u32,
        surface_id: u32,
        parent_id: u32,
    ) -> Self {
        let linked = TrackerView {
            subsurface_to_surface: self.subsurface_to_surface.insert(subsurface_id, surface_id),
            surface_parent: self.surface_parent.insert(surface_id, parent_id),
            surface_position: if self.surface_position.contains_key(surface_id) {
                self.surface_position
            } else {
                self.surface_position.insert(surface_id, (0i32, 0i32))
            },
            ..self
        };
        let number = linked.window_of(parent_id);
        let ensured = linked.window_ensured(parent_id);
        let own = ensured.surface_to_window.contains_key(surface_id)
            && ensured.surface_to_window[surface_id] != number;
        let joined = TrackerView {
            surface_to_window: ensured.surface_to_window.insert(surface_id, number),
            windows: if own {
                ensured.windows.remove(ensured.surface_to_window[surface_id])
            } else {
                ensured.windows
            },
            ..ensured
        };
        joined.promoted(number, surface_id).synced(surface_id)
    }

    /// After a surface stopped to be a part of another.
    pub open spec fn subsurface_destroyed(self, subsurface_id: u32) -> Self {
        if self.subsurface_to_surface.contains_key(subsurface_id) {
            let surface_id = self.subsurface_to_surface[subsurface_id];
            TrackerView {
                subsurface_to_surface: self.subsurface_to_surface.remove(subsurface_id),
                surface_parent: self.surface_parent.remove(surface_id),
                surface_position: self.surface_position.remove(surface_id),
                ..self
            }
        } else {
            self
        }
    }

    /// After a part of a surface was moved.
    pub open spec fn subsurface_moved(self, subsurface_id: u32, x: i32, y: i32) -> Self {
        if self.subsurface_to_surface.contains_key(subsurface_id) {
            TrackerView {
                surface_position: self.surface_position.insert(
                    self.subsurface_to_surface[subsurface_id],
                    (x, y),
                ),
                ..self
            }
        } else {
            self
        }
    }

    /// After a surface got a viewport.
    pub open spec fn viewport_created(self, viewport_id: u32, wl_surface_id: u32) -> Self {
        TrackerView {
            viewport_to_surface: self.viewport_to_surface.insert(viewport_id, wl_surface_id),
            ..self
        }.window_ensured(wl_surface_id)
    }

    /// With the size that a surface is scaled to, if any.
    pub open spec fn scaled(self, surface_id: u32, destination: Option<(u32, u32)>) -> Self {
        self.surface_changed(
            surface_id,
            SurfaceView { viewport_destination: destination, ..self.surface(surface_id) },
        )
    }

    /// After a viewport was destroyed.
    pub open spec fn viewport_destroyed(self, viewport_id: u32) -> Self {
        if self.viewport_to_surface.contains_key(viewport_id) {
            TrackerView {
                viewport_to_surface: self.viewport_to_surface.remove(viewport_id),
                ..self
            }.scaled(self.viewport_to_surface[viewport_id], None)
        } else {
            self
        }
    }

    /// After the size was set that a viewport scales its surface to.
    pub open spec fn viewport_set(self, viewport_id: u32, width: i32, height: i32) -> Result<
        Self,
        Seq<char>,
    > {
        if self.viewport_to_surface.contains_key(viewport_id) {
            Ok(
                self.scaled(
                    self.viewport_to_surface[viewport_id],
                    if width == -1 && height == -1 {
                        None
                    } else {
                        Some((clamped(width), clamped(height)))
                    },
                ),
            )
        } else {
            Err("missing wl_surface for wp_viewport "@ + text::decimal(viewport_id as nat))
        }
    }

    /// What is said where the surface of an xdg_surface is not known.
    pub open spec fn xdg_surface_missing(xdg_surface_id: u32) -> Seq<char> {
        "missing wl_surface for xdg_surface "@ + text::decimal(xdg_surface_id as nat)
    }

    /// The number of the window that a toplevel gets.
    pub open spec fn toplevel_window(self, xdg_surface_id: u32) -> u64 {
        self.window_of(self.xdg_surface_to_surface[xdg_surface_id])
    }

    /// After an xdg_surface became a toplevel window.
    pub open spec fn toplevel_created(self, xdg_surface_id: u32, xdg_toplevel_id: u32) -> Result<
        Self,
        Seq<char>,
    > {
        if self.xdg_surface_to_surface.contains_key(xdg_surface_id) {
            let wl_surface_id = self.xdg_surface_to_surface[xdg_surface_id];
            let number = self.window_of(wl_surface_id);
            let ensured = self.window_ensured(wl_surface_id);
            let surface = ensured.surface(wl_surface_id);
            let base = if ensured.windows.contains_key(number) {
                ensured.windows[number]
            } else {
                WindowView { mapped: false, ..Self::window_for(wl_surface_id, surface) }
            };
            Ok(
                TrackerView {
                    xdg_toplevel_to_window: ensured.xdg_toplevel_to_window.insert(
                        xdg_toplevel_id,
                        number,
                    ),
                    ..ensured
                }.with_surface(wl_surface_id, surface).with_window(
                    number,
                    WindowView {
                        wl_surface_id,
                        input_surface_id: wl_surface_id,
                        xdg_surface_id: Some(xdg_surface_id),
                        xdg_toplevel_id: Some(xdg_toplevel_id),
                        width: surface::at_least_one(surface.width),
                        height: surface::at_least_one(surface.height),
                        commit_serial: surface.commit_serial,
                        ..base
                    },
                ),
            )
        } else {
            Err(Self::xdg_surface_missing(xdg_surface_id))
        }
    }

    /// Whether a toplevel has a window.
    pub open spec fn has_window(self, xdg_toplevel_id: u32) -> bool {
        self.xdg_toplevel_to_window.contains_key(xdg_toplevel_id) && self.windows.contains_key(
            self.xdg_toplevel_to_window[xdg_toplevel_id],
        )
    }

    /// After a toplevel got a title, or lost it.
    pub open spec fn titled(self, xdg_toplevel_id: u32, title: Option<Seq<char>>) -> Self {
        if self.has_window(xdg_toplevel_id) {
            let number = self.xdg_toplevel_to_window[xdg_toplevel_id];
            self.with_window(number, WindowView { title, ..self.windows[number] })
        } else {
            self
        }
    }

    /// After a toplevel named its application, or took the name back.
    pub open spec fn named(self, xdg_toplevel_id: u32, app_id: Option<Seq<char>>) -> Self {
        if self.has_window(xdg_toplevel_id) {
            let number = self.xdg_toplevel_to_window[xdg_toplevel_id];
            self.with_window(number, WindowView { app_id, ..self.windows[number] })
        } else {
            self
        }
    }

    /// After the visible size of a window was set.
    pub open spec fn geometry_set(self, xdg_surface_id: u32, width: u32, height: u32) -> Result<
        Self,
        Seq<char>,
    > {
        if self.xdg_surface_to_surface.contains_key(xdg_surface_id) {
            let wl_surface_id = self.xdg_surface_to_surface[xdg_surface_id];
            let number = self.surface_to_window[wl_surface_id];
            if self.surface_to_window.contains_key(wl_surface_id) && self.windows.contains_key(
                number,
            ) {
                Ok(
                    self.with_window(
                        number,
                        WindowView {
                            width: surface::at_least_one(width),
                            height: surface::at_least_one(height),
                            ..self.windows[number]
                        },
                    ),
                )
            } else {
                Ok(self)
            }
        } else {
            Err(Self::xdg_surface_missing(xdg_surface_id))
        }
    }

    /// After the compositor proposed a configuration of a surface.
    pub open spec fn configure_seen(self, xdg_surface_id: u32) -> Self {
        if self.xdg_surface_to_surface.contains_key(xdg_surface_id) {
            let id = self.xdg_surface_to_surface[xdg_surface_id];
            self.surface_changed(id, SurfaceView { xdg_configure_seen: true, ..self.surface(id) })
        } else {
            self
        }
    }

    /// After the client accepted a configuration of a surface.
    pub open spec fn configure_acked(self, xdg_surface_id: u32) -> Self {
        if self.xdg_surface_to_surface.contains_key(xdg_surface_id) {
            let id = self.xdg_surface_to_surface[xdg_surface_id];
            self.surface_changed(id, SurfaceView { xdg_configure_acked: true, ..self.surface(id) })
        } else {
            self
        }
    }

    /// After a surface came onto an output.
    pub open spec fn output_entered(self, surface_id: u32, output_id: u32) -> Self {
        let surface = self.surface(surface_id);
        self.surface_changed(
            surface_id,
            SurfaceView { output_ids: surface.output_ids.insert(output_id), ..surface },
        )
    }

    /// After a surface left an output.
    pub open spec fn output_left(self, surface_id: u32, output_id: u32) -> Self {
        let surface = self.surface(surface_id);
        self.surface_changed(
            surface_id,
            SurfaceView { output_ids: surface.output_ids.remove(output_id), ..surface },
        )
    }

    /// After a surface got explicit synchronisation.
    pub open spec fn syncobj_surface_created(self, id: u32, wl_surface_id: Option<u32>) -> Self {
        match wl_surface_id {
            Some(wl_surface_id) => TrackerView {
                syncobj_surface_to_surface: self.syncobj_surface_to_surface.insert(
                    id,
                    wl_surface_id,
                ),
                ..self
            }.window_ensured(wl_surface_id),
            None => self,
        }
    }

    /// After a surface lost explicit synchronisation.
    pub open spec fn syncobj_surface_destroyed(self, id: u32) -> Self {
        TrackerView {
            syncobj_surface_to_surface: self.syncobj_surface_to_surface.remove(id),
            ..self
        }
    }

    /// After a timeline was imported.
    pub open spec fn timeline_imported(self, timeline_id: u32, fd: u64) -> Self {
        TrackerView { syncobj_timelines: self.syncobj_timelines.insert(timeline_id, fd), ..self }
    }

    /// After a timeline was destroyed.
    pub open spec fn timeline_destroyed(self, timeline_id: u32) -> Self {
        TrackerView { syncobj_timelines: self.syncobj_timelines.remove(timeline_id), ..self }
    }

    /// What is said where a timeline is not known.
    pub open spec fn timeline_missing(timeline_id: u32) -> Seq<char> {
        "missing syncobj timeline "@ + text::decimal(timeline_id as nat)
    }

    /// The surface that a point is set for, or why none can be set.
    pub open spec fn point_surface(self, id: u32, timeline_id: Option<u32>) -> Result<
        u32,
        Seq<char>,
    > {
        if !self.syncobj_surface_to_surface.contains_key(id) {
            Err("missing wl_surface for syncobj surface "@ + text::decimal(id as nat))
        } else {
            match timeline_id {
                Some(timeline) if !self.syncobj_timelines.contains_key(timeline) => Err(
                    Self::timeline_missing(timeline),
                ),
                _ => Ok(self.syncobj_surface_to_surface[id]),
            }
        }
    }

    /// After the point was set at which the next buffer may be read.
    pub open spec fn acquire_set(self, id: u32, timeline_id: Option<u32>, point: u64) -> Result<
        Self,
        Seq<char>,
    > {
        match self.point_surface(id, timeline_id) {
            Ok(surface_id) => Ok(
                self.surface_changed(
                    surface_id,
                    SurfaceView {
                        pending_acquire: Some(TrackedSyncPoint { timeline_id, point }),
                        ..self.surface(surface_id)
                    },
                ),
            ),
            Err(message) => Err(message),
        }
    }

    /// After the point was set at which the next buffer is given back.
    pub open spec fn release_set(self, id: u32, timeline_id: Option<u32>, point: u64) -> Result<
        Self,
        Seq<char>,
    > {
        match self.point_surface(id, timeline_id) {
            Ok(surface_id) => Ok(
                self.surface_changed(
                    surface_id,
                    SurfaceView {
                        pending_release: Some(TrackedSyncPoint { timeline_id, point }),
                        ..self.surface(surface_id)
                    },
                ),
            ),
            Err(message) => Err(message),
        }
    }
}

/// A set of surfaces that is closed under parents, but for one that has none or
/// is in it, holds no descendant of a surface that is no parent in it.
proof fn closed_set_has_no_way_out(
    parents: Map<u32, u32>,
    seen: Set<u32>,
    last: u32,
    surface_id: u32,
    ancestor: u32,
    steps: nat,
)
    requires
        seen.contains(surface_id) || surface_id == last,
        forall|id: u32| #[trigger]
            seen.contains(id) ==> parents.contains_key(id) && parents[id] != ancestor && (
            seen.contains(parents[id]) || parents[id] == last),
        seen.contains(last) || !parents.contains_key(last),
    ensures
        !ancestor_within(parents, surface_id, ancestor, steps),
    decreases steps,
{
    if steps > 0 && parents.contains_key(surface_id) {
        assert(seen.contains(surface_id));
        closed_set_has_no_way_out(
            parents,
            seen,
            last,
            parents[surface_id],
            ancestor,
            (steps - 1) as nat,
        );
    }
}

impl WaylandFrameTracker {
    /// A tracker that knows nothing yet; its windows' names start with the prefix.
    pub fn new(window_id_prefix: String) -> (tracker: Self)
        ensures
            tracker@ == TrackerView::empty(window_id_prefix@),
    {
        WaylandFrameTracker {
            colors: SurfaceColors::default(),
            window_id_prefix,
            next_commit_serial: 0,
            next_window_id: 0,
            dmabuf_params: Table::new(),
            shm_pools: Table::new(),
            buffers: Table::new(),
            surfaces: Table::new(),
            windows: Table::new(),
            surface_to_window: Table::new(),
            xdg_surface_to_surface: Table::new(),
            xdg_toplevel_to_window: Table::new(),
            subsurface_to_surface: Table::new(),
            surface_parent: Table::new(),
            surface_position: Table::new(),
            viewport_to_surface: Table::new(),
            syncobj_surface_to_surface: Table::new(),
            syncobj_timelines: Table::new(),
        }
    }

    /// Takes a surface out, to be changed and put back. A surface that is not
    /// known is fresh.
    pub fn take_surface(&mut self, surface_id: u32) -> (surface: TrackedSurface)
        ensures
            surface@ == old(self)@.surface(surface_id),
            final(self)@ == (TrackerView {
                surfaces: old(self)@.surfaces.remove(surface_id),
                ..old(self)@
            }),
    {
        match self.surfaces.remove(surface_id) {
            Some(surface) => surface,
            None => TrackedSurface::new(surface_id),
        }
    }

    /// Puts a surface back.
    pub fn put_surface(&mut self, surface_id: u32, surface: TrackedSurface)
        ensures
            final(self)@ == old(self)@.with_surface(surface_id, surface@),
    {
        self.surfaces.insert(surface_id, surface);
    }

    fn change_surface(&mut self, surface_id: u32, surface: TrackedSurface)
        ensures
            final(self)@ == old(self)@.surface_changed(surface_id, surface@),
    {
        self.put_surface(surface_id, surface);
        self.sync_window_from_surface(surface_id);
    }

    /// Whether a surface is below another in the tree of subsurfaces.
    pub fn surface_descends_from(&self, surface_id: u32, ancestor_id: u32) -> (below: bool)
        ensures
            below == descends_from(self@.surface_parent, surface_id, ancestor_id),
    {
        let ghost parents = self@.surface_parent;
        let mut seen: Table<u32, bool> = Table::new();
        let mut current: u32 = surface_id;
        let count: usize = self.surface_parent.len();
        while !seen.contains(current)
            invariant
                parents == self@.surface_parent,
                parents.dom().finite(),
                seen@.dom().subset_of(parents.dom()),
                count == parents.dom().len(),
                seen@.contains_key(surface_id) || current == surface_id,
                forall|id: u32| #[trigger]
                    seen@.dom().contains(id) ==> parents.contains_key(id) && parents[id]
                        != ancestor_id && (seen@.dom().contains(parents[id]) || parents[id]
                        == current),
                forall|steps: nat| #[trigger]
                    ancestor_within(parents, current, ancestor_id, steps) ==> descends_from(
                        parents,
                        surface_id,
                        ancestor_id,
                    ),
            ensures
                seen@.dom().contains(current),
            decreases parents.dom().len() - seen@.dom().len(),
        {
            let parent: u32 = match self.surface_parent.get(current) {
                Some(parent) => *parent,
                None => {
                    proof {
                        assert forall|steps: nat| !#[trigger] ancestor_within(
                            parents,
                            surface_id,
                            ancestor_id,
                            steps,
                        ) by {
                            closed_set_has_no_way_out(
                                parents,
                                seen@.dom(),
                                current,
                                surface_id,
                                ancestor_id,
                                steps,
                            );
                        }
                    }
                    return false;
                },
            };
            if parent == ancestor_id {
                proof {
                    assert(ancestor_within(parents, current, ancestor_id, 1));
                }
                return true;
            }
            let ghost before = seen@.dom();
            seen.insert(current, true);
            proof {
                assert(seen@.dom() =~= before.insert(current));
                vstd::set_lib::lemma_len_subset(seen@.dom(), parents.dom());
                assert forall|steps: nat| #[trigger]
                    ancestor_within(parents, parent, ancestor_id, steps) implies descends_from(
                    parents,
                    surface_id,
                    ancestor_id,
                ) by {
                    assert(ancestor_within(parents, current, ancestor_id, steps + 1));
                }
            }
            current = parent;
        }
        proof {
            assert forall|steps: nat| !#[trigger] ancestor_within(
                parents,
                surface_id,
                ancestor_id,
                steps,
            ) by {
                closed_set_has_no_way_out(
                    parents,
                    seen@.dom(),
                    current,
                    surface_id,
                    ancestor_id,
                    steps,
                );
            }
        }
        false
    }

    /// Makes sure that a surface belongs to a window, and says which.
    fn ensure_window(&mut self, surface_id: u32) -> (number: u64)
        ensures
            number == old(self)@.window_of(surface_id),
            final(self)@ == old(self)@.window_ensured(surface_id),
    {
        if let Some(number) = self.surface_to_window.get(surface_id) {
            return *number;
        }
        let number: u64 = next_number(self.next_window_id);
        self.next_window_id = number;
        let surface = self.take_surface(surface_id);
        let window = TrackedWindow {
            wl_surface_id: surface_id,
            input_surface_id: surface_id,
            xdg_surface_id: None,
            xdg_toplevel_id: None,
            title: None,
            app_id: None,
            width: at_least(surface.width),
            height: at_least(surface.height),
            mapped: surface.has_committed_buffer,
            focused: false,
            commit_serial: surface.commit_serial,
            output_count: surface.output_count(),
        };
        self.put_surface(surface_id, surface);
        self.surface_to_window.insert(surface_id, number);
        self.windows.insert(number, window);
        number
    }

    /// Writes the name of a window.
    pub fn name_of_window(&self, number: u64) -> (name: String)
        ensures
            name@ == window_name(self@.prefix, number),
    {
        let mut name = self.window_id_prefix.clone();
        name.append("-window-");
        append_decimal(&mut name, number);
        name
    }

    /// Makes sure that a surface belongs to a window, and names it.
    pub fn ensure_window_for_surface(&mut self, surface_id: u32) -> (window_id: String)
        ensures
            window_id@ == window_name(old(self)@.prefix, old(self)@.window_of(surface_id)),
            final(self)@ == old(self)@.window_ensured(surface_id),
    {
        let number: u64 = self.ensure_window(surface_id);
        self.name_of_window(number)
    }

    /// Lets a surface show a window if it does so better than the present one.
    fn promote_render_surface(&mut self, number: u64, candidate_id: u32)
        ensures
            final(self)@ == old(self)@.promoted(number, candidate_id),
    {
        let current_id: u32 = match self.windows.get(number) {
            Some(window) => window.wl_surface_id,
            None => return,
        };
        let below = self.surface_descends_from(candidate_id, current_id);
        let above = self.surface_descends_from(current_id, candidate_id);
        let takes_over = match self.surfaces.get(candidate_id) {
            None => false,
            Some(candidate) => {
                let better = match self.surfaces.get(current_id) {
                    Some(current) => candidate.outranks(current),
                    None => {
                        let mut nothing = TrackedSurface::new(current_id);
                        nothing.width = 0;
                        nothing.height = 0;
                        candidate.outranks(&nothing)
                    },
                };
                (below && candidate.has_committed_buffer) || (!above && better)
            },
        };
        if takes_over {
            if let Some(mut window) = self.windows.remove(number) {
                window.wl_surface_id = candidate_id;
                self.windows.insert(number, window);
            }
        }
    }

    /// Brings the window of a surface up to date.
    pub fn sync_window_from_surface(&mut self, surface_id: u32)
        ensures
            final(self)@ == old(self)@.synced(surface_id),
    {
        let number: u64 = self.ensure_window(surface_id);
        self.promote_render_surface(number, surface_id);
        let (width, height, commit_serial, mapped, output_count): (u32, u32, u64, bool, usize) =
            match self.surfaces.get(surface_id) {
            Some(surface) => (
                at_least(surface.width),
                at_least(surface.height),
                surface.commit_serial,
                surface.has_committed_buffer,
                surface.output_count(),
            ),
            None => return,
        };
        match self.windows.get(number) {
            Some(window) => {
                if window.wl_surface_id != surface_id {
                    return;
                }
            },
            None => return,
        }
        if let Some(mut window) = self.windows.remove(number) {
            window.width = width;
            window.height = height;
            window.commit_serial = commit_serial;
            window.mapped = mapped;
            window.output_count = output_count;
            self.windows.insert(number, window);
        }
    }
}

/// What is known, to be read.
impl WaylandFrameTracker {
    /// A surface.
    pub fn surface(&self, surface_id: u32) -> (found: Option<&TrackedSurface>)
        ensures
            match found {
                Some(surface) => self@.surfaces.contains_key(surface_id) && surface@
                    == self@.surfaces[surface_id],
                None => !self@.surfaces.contains_key(surface_id),
            },
    {
        self.surfaces.get(surface_id)
    }

    /// A buffer.
    pub fn buffer(&self, buffer_id: u32) -> (found: Option<&TrackedBuffer>)
        ensures
            match found {
                Some(buffer) => self@.buffers.contains_key(buffer_id) && buffer@
                    == self@.buffers[buffer_id],
                None => !self@.buffers.contains_key(buffer_id),
            },
    {
        self.buffers.get(buffer_id)
    }

    /// A window, by its number.
    pub fn window(&self, number: u64) -> (found: Option<&TrackedWindow>)
        ensures
            match found {
                Some(window) => self@.windows.contains_key(number) && window@
                    == self@.windows[number],
                None => !self@.windows.contains_key(number),
            },
    {
        self.windows.get(number)
    }

    /// The numbers of the windows, in ascending order.
    pub fn window_numbers(&self) -> (numbers: Vec<u64>)
        ensures
            numbers@ == table::in_order(self@.windows.dom()),
            table::ascending(numbers@),
            numbers@.to_set() == self@.windows.dom(),
    {
        self.windows.keys()
    }

    /// The numbers of the surfaces, in ascending order.
    pub fn surface_ids(&self) -> (ids: Vec<u32>)
        ensures
            ids@ == table::in_order(self@.surfaces.dom()),
            ids@.to_set() == self@.surfaces.dom(),
    {
        self.surfaces.keys()
    }

    /// How many surfaces are known.
    pub fn surface_count(&self) -> (count: usize)
        ensures
            count == self@.surfaces.dom().len(),
    {
        self.surfaces.len()
    }

    /// How many surfaces are parts of others.
    pub fn child_count(&self) -> (count: usize)
        ensures
            count == self@.surface_parent.dom().len(),
            self@.surface_parent.dom().finite(),
    {
        self.surface_parent.len()
    }

    /// The surface that a surface is a part of.
    pub fn parent(&self, surface_id: u32) -> (found: Option<u32>)
        ensures
            match found {
                Some(id) => self@.surface_parent.contains_key(surface_id)
                    && self@.surface_parent[surface_id] == id,
                None => !self@.surface_parent.contains_key(surface_id),
            },
    {
        match self.surface_parent.get(surface_id) {
            Some(id) => Some(*id),
            None => None,
        }
    }

    /// Where a surface lies in the one that it is a part of.
    pub fn position(&self, surface_id: u32) -> (position: (i32, i32))
        ensures
            position == (if self@.surface_position.contains_key(surface_id) {
                self@.surface_position[surface_id]
            } else {
                (0i32, 0i32)
            }),
    {
        match self.surface_position.get(surface_id) {
            Some(position) => *position,
            None => (0, 0),
        }
    }

    /// The file descriptor of a timeline.
    pub fn timeline(&self, timeline_id: u32) -> (found: Option<u64>)
        ensures
            match found {
                Some(fd) => self@.syncobj_timelines.contains_key(timeline_id)
                    && self@.syncobj_timelines[timeline_id] == fd,
                None => !self@.syncobj_timelines.contains_key(timeline_id),
            },
    {
        match self.syncobj_timelines.get(timeline_id) {
            Some(fd) => Some(*fd),
            None => None,
        }
    }

    /// The color description that holds of a surface.
    pub fn color(&self, surface_id: u32) -> (color: Option<ColorDescription>)
        ensures
            color == self@.colors.current(surface_id),
    {
        match self.colors.get(surface_id) {
            Some(color) => Some(*color),
            None => None,
        }
    }

    /// Takes in a request that concerns colors.
    pub fn note_color_request(&mut self, object_id: u32, request: &GeneratedHookRequest)
        ensures
            final(self)@ == (TrackerView {
                colors: old(self)@.colors.after(object_id, *request),
                ..old(self)@
            }),
    {
        self.colors.request(object_id, request);
    }
}

fn numbered(label: &str, number: u32) -> (message: String)
    ensures
        message@ == label@ + text::decimal(number as nat),
{
    let mut message = label.to_owned();
    append_decimal(&mut message, number as u64);
    message
}

impl WaylandFrameTracker {
    /// Notes a new shared-memory pool.
    pub fn note_shm_pool_created(&mut self, pool_id: u32, fd: u64, size: usize)
        ensures
            final(self)@ == old(self)@.pool_created(pool_id, fd, size),
    {
        self.shm_pools.insert(pool_id, TrackedShmPool { fd, size });
    }

    /// Notes the new size of a shared-memory pool.
    pub fn note_shm_pool_resized(&mut self, pool_id: u32, size: usize) -> (result: Result<
        (),
        String,
    >)
        ensures
            stepped(old(self)@, final(self)@, result, old(self)@.pool_resized(pool_id, size)),
    {
        let fd: u64 = match self.shm_pools.get(pool_id) {
            Some(pool) => pool.fd,
            None => return Err(numbered("missing wl_shm_pool ", pool_id)),
        };
        self.shm_pools.insert(pool_id, TrackedShmPool { fd, size });
        Ok(())
    }

    /// Notes the end of a shared-memory pool.
    pub fn note_shm_pool_destroyed(&mut self, pool_id: u32)
        ensures
            final(self)@ == old(self)@.pool_destroyed(pool_id),
    {
        self.shm_pools.remove(pool_id);
    }

    /// Notes a new buffer in a shared-memory pool.
    pub fn note_shm_buffer_created(&mut self, buffer: ShmBufferSpec) -> (result: Result<(), String>)
        ensures
            stepped(old(self)@, final(self)@, result, old(self)@.shm_buffer_created(buffer)),
    {
        if buffer.width <= 0 || buffer.height <= 0 || buffer.stride <= 0 {
            let mut message = numbered("wl_shm_pool.create_buffer ", buffer.buffer_id);
            message.append(" has invalid geometry ");
            append_signed(&mut message, buffer.width as i64);
            message.append("x");
            append_signed(&mut message, buffer.height as i64);
            message.append(" stride=");
            append_signed(&mut message, buffer.stride as i64);
            return Err(message);
        }
        let pool = match self.shm_pools.get(buffer.pool_id) {
            Some(pool) => *pool,
            None => return Err(numbered("missing wl_shm_pool ", buffer.pool_id)),
        };
        assert(0 <= buffer.stride * buffer.height <= 0x7fff_ffff * 0x7fff_ffff) by (nonlinear_arith)
            requires
                0 < buffer.stride <= 0x7fff_ffff,
                0 < buffer.height <= 0x7fff_ffff,
        ;
        let size: u64 = buffer.stride as u64 * buffer.height as u64;
        if size > usize::MAX as u64 {
            let mut message = numbered("wl_shm buffer ", buffer.buffer_id);
            message.append(" byte size overflow");
            return Err(message);
        }
        let end: u64 = buffer.offset as u64 + size;
        if end > usize::MAX as u64 {
            let mut message = numbered("wl_shm buffer ", buffer.buffer_id);
            message.append(" byte range overflow");
            return Err(message);
        }
        if end > pool.size as u64 {
            let mut message = numbered("wl_shm buffer ", buffer.buffer_id);
            message.append(" range ends at ");
            append_decimal(&mut message, end);
            message.append(", beyond pool size ");
            append_decimal(&mut message, pool.size as u64);
            return Err(message);
        }
        self.buffers.insert(
            buffer.buffer_id,
            TrackedBuffer {
                width: buffer.width as u32,
                height: buffer.height as u32,
                rgba: None,
                source: TrackedBufferSource::Shm(
                    TrackedShmBuffer {
                        fd: pool.fd,
                        offset: buffer.offset,
                        width: buffer.width as u32,
                        height: buffer.height as u32,
                        stride: buffer.stride as u32,
                        format: buffer.format,
                    },
                ),
            },
        );
        Ok(())
    }

    /// Notes a new object that collects the planes of a DMA-BUF.
    pub fn note_dmabuf_params_created(&mut self, params_id: u32)
        ensures
            final(self)@ == old(self)@.params_created(params_id),
    {
        self.dmabuf_params.insert(
            params_id,
            PendingDmabufParams { planes: Vec::new(), pending_create: None },
        );
    }

    /// Notes the end of an object that collects planes.
    pub fn destroy_dmabuf_params(&mut self, params_id: u32)
        ensures
            final(self)@ == old(self)@.params_destroyed(params_id),
    {
        self.dmabuf_params.remove(params_id);
    }

    /// Notes a plane of a DMA-BUF.
    pub fn note_dmabuf_plane(&mut self, params_id: u32, plane: TrackedDmabufPlane) -> (result:
        Result<(), String>)
        ensures
            stepped(old(self)@, final(self)@, result, old(self)@.plane_added(params_id, plane)),
    {
        if !self.dmabuf_params.contains(params_id) {
            return Err(numbered("missing dmabuf params object ", params_id));
        }
        if let Some(mut params) = self.dmabuf_params.remove(params_id) {
            add_plane(&mut params.planes, plane);
            self.dmabuf_params.insert(params_id, params);
        }
        Ok(())
    }

    fn insert_dmabuf(
        &mut self,
        buffer_id: u32,
        planes: Vec<TrackedDmabufPlane>,
        create: PendingDmabufCreate,
    )
        ensures
            final(self)@ == old(self)@.with_dmabuf(buffer_id, planes@, create),
    {
        self.buffers.insert(
            buffer_id,
            TrackedBuffer {
                width: create.width,
                height: create.height,
                rgba: None,
                source: TrackedBufferSource::Dmabuf(
                    TrackedDmabufBuffer {
                        width: create.width,
                        height: create.height,
                        format: create.format,
                        flags: create.flags,
                        planes,
                    },
                ),
            },
        );
    }

    /// Notes a DMA-BUF that is made at once.
    pub fn note_dmabuf_create_immed(
        &mut self,
        params_id: u32,
        buffer_id: u32,
        width: u32,
        height: u32,
        format: u32,
        flags: u32,
    ) -> (result: Result<(), String>)
        ensures
            stepped(
                old(self)@,
                final(self)@,
                result,
                old(self)@.dmabuf_created_at_once(
                    params_id,
                    buffer_id,
                    PendingDmabufCreate { width, height, format, flags },
                ),
            ),
    {
        let planes = match self.dmabuf_params.get(params_id) {
            Some(params) => copy_planes(&params.planes),
            None => return Err(numbered("missing dmabuf params object ", params_id)),
        };
        self.insert_dmabuf(buffer_id, planes, PendingDmabufCreate { width, height, format, flags });
        Ok(())
    }

    /// Notes a DMA-BUF that the compositor is asked to make.
    pub fn note_dmabuf_create(
        &mut self,
        params_id: u32,
        width: u32,
        height: u32,
        format: u32,
        flags: u32,
    ) -> (result: Result<(), String>)
        ensures
            stepped(
                old(self)@,
                final(self)@,
                result,
                old(self)@.dmabuf_requested(
                    params_id,
                    PendingDmabufCreate { width, height, format, flags },
                ),
            ),
    {
        if !self.dmabuf_params.contains(params_id) {
            return Err(numbered("missing dmabuf params object ", params_id));
        }
        if let Some(mut params) = self.dmabuf_params.remove(params_id) {
            params.pending_create = Some(PendingDmabufCreate { width, height, format, flags });
            self.dmabuf_params.insert(params_id, params);
        }
        Ok(())
    }

    /// Notes that the compositor made a DMA-BUF.
    pub fn note_dmabuf_created_from_event(&mut self, params_id: u32, buffer_id: u32) -> (result:
        Result<(), String>)
        ensures
            stepped(old(self)@, final(self)@, result, old(self)@.dmabuf_created(params_id, buffer_id)),
    {
        let (planes, pending) = match self.dmabuf_params.get(params_id) {
            Some(params) => (copy_planes(&params.planes), params.pending_create),
            None => return Err(numbered("missing dmabuf params object ", params_id)),
        };
        match pending {
            Some(create) => {
                self.insert_dmabuf(buffer_id, planes, create);
                Ok(())
            },
            None => {
                let mut message = numbered("dmabuf params object ", params_id);
                message.append(" has no pending create state");
                Err(message)
            },
        }
    }

    /// Attaches a buffer to a surface, or leaves the surface without one.
    pub fn set_surface_buffer(&mut self, surface_id: u32, buffer_id: Option<u32>)
        ensures
            final(self)@ == old(self)@.attached(surface_id, buffer_id),
    {
        self.ensure_window(surface_id);
        let ghost ensured = self@;
        let mut surface = self.take_surface(surface_id);
        surface.buffer_id = buffer_id;
        match buffer_id {
            None => {
                surface.width = 1;
                surface.height = 1;
                surface.rgba = vec![0, 0, 0, 0];
                surface.buffer_kind = None;
                surface.capture_error = None;
            },
            Some(id) => {
                if let Some(buffer) = self.buffers.get(id) {
                    surface.width = at_least(buffer.width);
                    surface.height = at_least(buffer.height);
                    surface.rgba = match &buffer.rgba {
                        Some(pixels) => copy_bytes(pixels),
                        None => Vec::new(),
                    };
                    surface.buffer_kind = Some(buffer.kind());
                    surface.capture_error = buffer.capture_error();
                }
            },
        }
        proof {
            assert(surface@ =~= ensured.with_attached(ensured.surface(surface_id), buffer_id));
            assert(self@.with_surface(surface_id, surface@) =~= ensured.with_surface(
                surface_id,
                surface@,
            ));
        }
        self.change_surface(surface_id, surface);
    }

    /// Forgets a buffer.
    pub fn destroy_buffer(&mut self, buffer_id: u32)
        ensures
            final(self)@ == old(self)@.buffer_destroyed(buffer_id),
    {
        self.buffers.remove(buffer_id);
        let keys = self.surfaces.keys();
        let ghost before = self@;
        let ghost expected = before.buffer_destroyed(buffer_id).surfaces;
        let mut index: usize = 0;
        while index < keys.len()
            invariant
                index <= keys@.len(),
                keys@.to_set() == before.surfaces.dom(),
                expected == before.buffer_destroyed(buffer_id).surfaces,
                self@ == (TrackerView { surfaces: self@.surfaces, ..before }),
                self@.surfaces.dom() == before.surfaces.dom(),
                forall|id: u32| #[trigger]
                    before.surfaces.contains_key(id) ==> self@.surfaces[id] == (
                    if keys@.take(index as int).contains(id) {
                        expected[id]
                    } else {
                        before.surfaces[id]
                    }),
                table::ascending(keys@),
            decreases keys@.len() - index,
        {
            let key: u32 = keys[index];
            proof {
                assert(keys@.to_set().contains(key));
                if keys@.take(index as int).contains(key) {
                    let at = choose|at: int| 0 <= at < index && keys@.take(index as int)[at] == key;
                    assert(table::Key::rank(keys@[at]) < table::Key::rank(keys@[index as int]));
                }
            }
            let mut surface = self.take_surface(key);
            if surface.buffer_id == Some(buffer_id) {
                surface.buffer_id = None;
            }
            self.put_surface(key, surface);
            proof {
                let seen = keys@.take(index + 1);
                assert(seen =~= keys@.take(index as int).push(key));
                assert forall|id: u32| seen.contains(id) == (keys@.take(index as int).contains(id)
                    || id == key) by {
                    if keys@.take(index as int).contains(id) {
                        let at = choose|at: int|
                            0 <= at < index && keys@.take(index as int)[at] == id;
                        assert(seen[at] == id);
                    }
                    assert(seen[index as int] == key);
                }
                assert(self@.surfaces.dom() =~= before.surfaces.dom());
            }
            index = index + 1;
        }
        proof {
            assert(keys@.take(index as int) =~= keys@);
            assert forall|id: u32| before.surfaces.contains_key(id) implies keys@.contains(id) by {
                assert(keys@.to_set().contains(id));
            }
            assert(self@.surfaces =~= expected);
        }
    }

    /// Notes that a part of a surface changed.
    pub fn add_damage(&mut self, surface_id: u32, rect: DamageRect)
        ensures
            final(self)@ == old(self)@.damaged(surface_id, rect),
    {
        let mut surface = self.take_surface(surface_id);
        surface.damage.push(rect);
        self.put_surface(surface_id, surface);
    }

    /// Commits a surface.
    pub fn commit_surface(&mut self, surface_id: u32)
        ensures
            final(self)@ == old(self)@.committed(surface_id),
    {
        self.ensure_window(surface_id);
        let ghost ensured = self@;
        self.next_commit_serial = next_number(self.next_commit_serial);
        let mut surface = self.take_surface(surface_id);
        surface.commit_serial = self.next_commit_serial;
        if surface.buffer_id.is_some() {
            surface.has_committed_buffer = true;
        }
        surface.last_acquire = surface.pending_acquire;
        surface.last_release = surface.pending_release;
        surface.pending_acquire = None;
        surface.pending_release = None;
        surface.damage = Vec::new();
        proof {
            let numbered = TrackerView { next_commit_serial: self@.next_commit_serial, ..ensured };
            assert(surface@ =~= TrackerView::with_committed(
                ensured.surface(surface_id),
                self@.next_commit_serial,
            ));
            assert(self@.with_surface(surface_id, surface@) =~= numbered.with_surface(
                surface_id,
                surface@,
            ));
        }
        self.change_surface(surface_id, surface);
    }

    /// Notes that a surface got the role of an xdg_surface.
    pub fn note_xdg_surface_created(&mut self, xdg_surface_id: u32, wl_surface_id: u32)
        ensures
            final(self)@ == old(self)@.xdg_surface_created(xdg_surface_id, wl_surface_id),
    {
        self.xdg_surface_to_surface.insert(xdg_surface_id, wl_surface_id);
    }

    /// Notes that a surface became a part of another.
    pub fn note_subsurface_created(&mut self, subsurface_id: u32, surface_id: u32, parent_id: u32)
        ensures
            final(self)@ == old(self)@.subsurface_created(subsurface_id, surface_id, parent_id),
    {
        self.subsurface_to_surface.insert(subsurface_id, surface_id);
        self.surface_parent.insert(surface_id, parent_id);
        if !self.surface_position.contains(surface_id) {
            self.surface_position.insert(surface_id, (0, 0));
        }
        let number: u64 = self.ensure_window(parent_id);
        let own: Option<u64> = match self.surface_to_window.get(surface_id) {
            Some(own) => Some(*own),
            None => None,
        };
        self.surface_to_window.insert(surface_id, number);
        if let Some(own) = own {
            if own != number {
                self.windows.remove(own);
            }
        }
        self.promote_render_surface(number, surface_id);
        self.sync_window_from_surface(surface_id);
    }

    /// Notes that a surface stopped to be a part of another.
    pub fn note_subsurface_destroyed(&mut self, subsurface_id: u32)
        ensures
            final(self)@ == old(self)@.subsurface_destroyed(subsurface_id),
    {
        if let Some(surface_id) = self.subsurface_to_surface.remove(subsurface_id) {
            self.surface_parent.remove(surface_id);
            self.surface_position.remove(surface_id);
        } else {
            assert(self@.subsurface_to_surface =~= old(self)@.subsurface_to_surface);
        }
    }

    /// Notes that a part of a surface was moved.
    pub fn note_subsurface_position(&mut self, subsurface_id: u32, x: i32, y: i32)
        ensures
            final(self)@ == old(self)@.subsurface_moved(subsurface_id, x, y),
    {
        let surface_id: u32 = match self.subsurface_to_surface.get(subsurface_id) {
            Some(surface_id) => *surface_id,
            None => return,
        };
        self.surface_position.insert(surface_id, (x, y));
    }

    /// Notes that a surface got a viewport.
    pub fn note_viewport_created(&mut self, viewport_id: u32, wl_surface_id: u32)
        ensures
            final(self)@ == old(self)@.viewport_created(viewport_id, wl_surface_id),
    {
        self.viewport_to_surface.insert(viewport_id, wl_surface_id);
        self.ensure_window(wl_surface_id);
    }

    fn scale_surface(&mut self, surface_id: u32, destination: Option<(u32, u32)>)
        ensures
            final(self)@ == old(self)@.scaled(surface_id, destination),
    {
        let mut surface = self.take_surface(surface_id);
        surface.viewport_destination = destination;
        proof {
            assert(self@.with_surface(surface_id, surface@) =~= old(self)@.with_surface(
                surface_id,
                surface@,
            ));
        }
        self.change_surface(surface_id, surface);
    }

    /// Notes the end of a viewport.
    pub fn note_viewport_destroyed(&mut self, viewport_id: u32)
        ensures
            final(self)@ == old(self)@.viewport_destroyed(viewport_id),
    {
        if let Some(wl_surface_id) = self.viewport_to_surface.remove(viewport_id) {
            self.scale_surface(wl_surface_id, None);
        } else {
            assert(self@.viewport_to_surface =~= old(self)@.viewport_to_surface);
        }
    }

    /// Notes the size that a viewport scales its surface to.
    pub fn note_viewport_destination(&mut self, viewport_id: u32, width: i32, height: i32) -> (result:
        Result<(), String>)
        ensures
            stepped(
                old(self)@,
                final(self)@,
                result,
                old(self)@.viewport_set(viewport_id, width, height),
            ),
    {
        let wl_surface_id: u32 = match self.viewport_to_surface.get(viewport_id) {
            Some(wl_surface_id) => *wl_surface_id,
            None => return Err(numbered("missing wl_surface for wp_viewport ", viewport_id)),
        };
        let destination: Option<(u32, u32)> = if width == -1 && height == -1 {
            None
        } else {
            Some((clamp_dimension(width), clamp_dimension(height)))
        };
        self.scale_surface(wl_surface_id, destination);
        Ok(())
    }

    /// Notes that an xdg_surface became a toplevel window, and names it.
    pub fn note_xdg_toplevel_created(&mut self, xdg_surface_id: u32, xdg_toplevel_id: u32) -> (result:
        Result<String, String>)
        ensures
            match old(self)@.toplevel_created(xdg_surface_id, xdg_toplevel_id) {
                Ok(next) => final(self)@ == next && (result matches Ok(name) && name@
                    == window_name(
                    old(self)@.prefix,
                    old(self)@.toplevel_window(xdg_surface_id),
                )),
                Err(message) => final(self)@ == old(self)@ && (result matches Err(error) && error@
                    == message),
            },
    {
        let wl_surface_id: u32 = match self.xdg_surface_to_surface.get(xdg_surface_id) {
            Some(wl_surface_id) => *wl_surface_id,
            None => return Err(numbered("missing wl_surface for xdg_surface ", xdg_surface_id)),
        };
        let number: u64 = self.ensure_window(wl_surface_id);
        self.xdg_toplevel_to_window.insert(xdg_toplevel_id, number);
        let surface = self.take_surface(wl_surface_id);
        let width: u32 = at_least(surface.width);
        let height: u32 = at_least(surface.height);
        let commit_serial: u64 = surface.commit_serial;
        let output_count: usize = surface.output_count();
        self.put_surface(wl_surface_id, surface);
        let mut window = match self.windows.remove(number) {
            Some(window) => window,
            None => TrackedWindow {
                wl_surface_id,
                input_surface_id: wl_surface_id,
                xdg_surface_id: None,
                xdg_toplevel_id: None,
                title: None,
                app_id: None,
                width,
                height,
                mapped: false,
                focused: false,
                commit_serial,
                output_count,
            },
        };
        window.wl_surface_id = wl_surface_id;
        window.input_surface_id = wl_surface_id;
        window.xdg_surface_id = Some(xdg_surface_id);
        window.xdg_toplevel_id = Some(xdg_toplevel_id);
        window.width = width;
        window.height = height;
        window.commit_serial = commit_serial;
        self.windows.insert(number, window);
        Ok(self.name_of_window(number))
    }

    /// Takes out the window of a toplevel, with its number.
    fn take_toplevel_window(&mut self, xdg_toplevel_id: u32) -> (taken: Option<(u64, TrackedWindow)>)
        ensures
            match taken {
                Some((number, window)) => old(self)@.has_window(xdg_toplevel_id) && number == old(
                    self,
                )@.xdg_toplevel_to_window[xdg_toplevel_id] && window@ == old(self)@.windows[number]
                    && final(self)@ == (TrackerView {
                    windows: old(self)@.windows.remove(number),
                    ..old(self)@
                }),
                None => !old(self)@.has_window(xdg_toplevel_id) && final(self)@ == old(self)@,
            },
    {
        let number: u64 = match self.xdg_toplevel_to_window.get(xdg_toplevel_id) {
            Some(number) => *number,
            None => return None,
        };
        match self.windows.remove(number) {
            Some(window) => Some((number, window)),
            None => {
                assert(self@.windows =~= old(self)@.windows);
                None
            },
        }
    }

    /// Notes the title of a toplevel.
    pub fn note_xdg_toplevel_title(&mut self, xdg_toplevel_id: u32, title: Option<String>)
        ensures
            final(self)@ == old(self)@.titled(xdg_toplevel_id, text::optional(title)),
    {
        if let Some((number, mut window)) = self.take_toplevel_window(xdg_toplevel_id) {
            window.title = title;
            self.windows.insert(number, window);
        }
    }

    /// Notes the application of a toplevel.
    pub fn note_xdg_toplevel_app_id(&mut self, xdg_toplevel_id: u32, app_id: Option<String>)
        ensures
            final(self)@ == old(self)@.named(xdg_toplevel_id, text::optional(app_id)),
    {
        if let Some((number, mut window)) = self.take_toplevel_window(xdg_toplevel_id) {
            window.app_id = app_id;
            self.windows.insert(number, window);
        }
    }

    /// Notes the visible size of a window.
    pub fn note_window_geometry(&mut self, xdg_surface_id: u32, width: u32, height: u32) -> (result:
        Result<(), String>)
        ensures
            stepped(
                old(self)@,
                final(self)@,
                result,
                old(self)@.geometry_set(xdg_surface_id, width, height),
            ),
    {
        let wl_surface_id: u32 = match self.xdg_surface_to_surface.get(xdg_surface_id) {
            Some(wl_surface_id) => *wl_surface_id,
            None => return Err(numbered("missing wl_surface for xdg_surface ", xdg_surface_id)),
        };
        let number: u64 = match self.surface_to_window.get(wl_surface_id) {
            Some(number) => *number,
            None => return Ok(()),
        };
        if let Some(mut window) = self.windows.remove(number) {
            window.width = at_least(width);
            window.height = at_least(height);
            self.windows.insert(number, window);
        } else {
            assert(self@.windows =~= old(self)@.windows);
        }
        Ok(())
    }

    fn xdg_wl_surface(&self, xdg_surface_id: u32) -> (found: Option<u32>)
        ensures
            match found {
                Some(id) => self@.xdg_surface_to_surface.contains_key(xdg_surface_id)
                    && self@.xdg_surface_to_surface[xdg_surface_id] == id,
                None => !self@.xdg_surface_to_surface.contains_key(xdg_surface_id),
            },
    {
        match self.xdg_surface_to_surface.get(xdg_surface_id) {
            Some(id) => Some(*id),
            None => None,
        }
    }

    /// Notes that the compositor proposed a configuration.
    pub fn note_xdg_surface_configure(&mut self, xdg_surface_id: u32)
        ensures
            final(self)@ == old(self)@.configure_seen(xdg_surface_id),
    {
        if let Some(wl_surface_id) = self.xdg_wl_surface(xdg_surface_id) {
            let mut surface = self.take_surface(wl_surface_id);
            surface.xdg_configure_seen = true;
            proof {
                assert(self@.with_surface(wl_surface_id, surface@) =~= old(self)@.with_surface(
                    wl_surface_id,
                    surface@,
                ));
            }
            self.change_surface(wl_surface_id, surface);
        }
    }

    /// Notes that the client accepted a configuration.
    pub fn note_xdg_surface_ack_configure(&mut self, xdg_surface_id: u32)
        ensures
            final(self)@ == old(self)@.configure_acked(xdg_surface_id),
    {
        if let Some(wl_surface_id) = self.xdg_wl_surface(xdg_surface_id) {
            let mut surface = self.take_surface(wl_surface_id);
            surface.xdg_configure_acked = true;
            proof {
                assert(self@.with_surface(wl_surface_id, surface@) =~= old(self)@.with_surface(
                    wl_surface_id,
                    surface@,
                ));
            }
            self.change_surface(wl_surface_id, surface);
        }
    }

    /// Notes that a surface came onto an output.
    pub fn note_surface_enter(&mut self, surface_id: u32, output_id: u32)
        ensures
            final(self)@ == old(self)@.output_entered(surface_id, output_id),
    {
        let mut surface = self.take_surface(surface_id);
        surface.enter_output(output_id);
        proof {
            assert(self@.with_surface(surface_id, surface@) =~= old(self)@.with_surface(
                surface_id,
                surface@,
            ));
        }
        self.change_surface(surface_id, surface);
    }

    /// Notes that a surface left an output.
    pub fn note_surface_leave(&mut self, surface_id: u32, output_id: u32)
        ensures
            final(self)@ == old(self)@.output_left(surface_id, output_id),
    {
        let mut surface = self.take_surface(surface_id);
        surface.leave_output(output_id);
        proof {
            assert(self@.with_surface(surface_id, surface@) =~= old(self)@.with_surface(
                surface_id,
                surface@,
            ));
        }
        self.change_surface(surface_id, surface);
    }

    /// Notes that a surface got explicit synchronisation.
    pub fn note_syncobj_surface_created(&mut self, syncobj_surface_id: u32, wl_surface_id: Option<u32>)
        ensures
            final(self)@ == old(self)@.syncobj_surface_created(syncobj_surface_id, wl_surface_id),
    {
        if let Some(wl_surface_id) = wl_surface_id {
            self.syncobj_surface_to_surface.insert(syncobj_surface_id, wl_surface_id);
            self.ensure_window(wl_surface_id);
        }
    }

    /// Notes that a surface lost explicit synchronisation.
    pub fn note_syncobj_surface_destroyed(&mut self, syncobj_surface_id: u32)
        ensures
            final(self)@ == old(self)@.syncobj_surface_destroyed(syncobj_surface_id),
    {
        self.syncobj_surface_to_surface.remove(syncobj_surface_id);
    }

    /// Notes a timeline.
    pub fn note_syncobj_timeline_imported(&mut self, timeline_id: u32, fd: u64)
        ensures
            final(self)@ == old(self)@.timeline_imported(timeline_id, fd),
    {
        self.syncobj_timelines.insert(timeline_id, fd);
    }

    /// Notes the end of a timeline.
    pub fn note_syncobj_timeline_destroyed(&mut self, timeline_id: u32)
        ensures
            final(self)@ == old(self)@.timeline_destroyed(timeline_id),
    {
        self.syncobj_timelines.remove(timeline_id);
    }

    fn surface_for_point(&self, syncobj_surface_id: u32, timeline_id: Option<u32>) -> (surface_id:
        Result<u32, String>)
        ensures
            text::outcome(surface_id) == self@.point_surface(syncobj_surface_id, timeline_id),
    {
        let surface_id: u32 = match self.syncobj_surface_to_surface.get(syncobj_surface_id) {
            Some(surface_id) => *surface_id,
            None => return Err(
                numbered("missing wl_surface for syncobj surface ", syncobj_surface_id),
            ),
        };
        if let Some(timeline) = timeline_id {
            if !self.syncobj_timelines.contains(timeline) {
                return Err(numbered("missing syncobj timeline ", timeline));
            }
        }
        Ok(surface_id)
    }

    /// Notes the point at which the next buffer may be read.
    pub fn note_syncobj_acquire_point(
        &mut self,
        syncobj_surface_id: u32,
        timeline_id: Option<u32>,
        point: u64,
    ) -> (result: Result<(), String>)
        ensures
            stepped(
                old(self)@,
                final(self)@,
                result,
                old(self)@.acquire_set(syncobj_surface_id, timeline_id, point),
            ),
    {
        let surface_id: u32 = match self.surface_for_point(syncobj_surface_id, timeline_id) {
            Ok(surface_id) => surface_id,
            Err(message) => return Err(message),
        };
        let mut surface = self.take_surface(surface_id);
        surface.pending_acquire = Some(TrackedSyncPoint { timeline_id, point });
        proof {
            assert(self@.with_surface(surface_id, surface@) =~= old(self)@.with_surface(
                surface_id,
                surface@,
            ));
        }
        self.change_surface(surface_id, surface);
        Ok(())
    }

    /// Notes the point at which the next buffer is given back.
    pub fn note_syncobj_release_point(
        &mut self,
        syncobj_surface_id: u32,
        timeline_id: Option<u32>,
        point: u64,
    ) -> (result: Result<(), String>)
        ensures
            stepped(
                old(self)@,
                final(self)@,
                result,
                old(self)@.release_set(syncobj_surface_id, timeline_id, point),
            ),
    {
        let surface_id: u32 = match self.surface_for_point(syncobj_surface_id, timeline_id) {
            Ok(surface_id) => surface_id,
            Err(message) => return Err(message),
        };
        let mut surface = self.take_surface(surface_id);
        surface.pending_release = Some(TrackedSyncPoint { timeline_id, point });
        proof {
            assert(self@.with_surface(surface_id, surface@) =~= old(self)@.with_surface(
                surface_id,
                surface@,
            ));
        }
        self.change_surface(surface_id, surface);
        Ok(())
    }
}

/// Whether one of several planes is read from a descriptor.
pub open spec fn planes_hold(planes: Seq<TrackedDmabufPlane>, fd: u64) -> bool {
    exists|i: int| 0 <= i < planes.len() && (#[trigger] planes[i]).fd == fd
}

/// Whether pixels are read from a descriptor.
pub open spec fn source_holds(source: SourceView, fd: u64) -> bool {
    match source {
        SourceView::Shm(buffer) => buffer.fd == fd,
        SourceView::Dmabuf(buffer) => planes_hold(buffer.planes, fd),
        SourceView::Unknown => false,
    }
}

impl TrackerView {
    /// Whether planes of a buffer to be made are read from a descriptor.
    pub open spec fn params_hold(self, params_id: u32, fd: u64) -> bool {
        self.dmabuf_params.contains_key(params_id) && planes_hold(
            self.dmabuf_params[params_id].planes,
            fd,
        )
    }

    /// Whether a shared-memory pool is a descriptor's.
    pub open spec fn pool_holds(self, pool_id: u32, fd: u64) -> bool {
        self.shm_pools.contains_key(pool_id) && self.shm_pools[pool_id].fd == fd
    }

    /// Whether a buffer is read from a descriptor.
    pub open spec fn buffer_holds(self, buffer_id: u32, fd: u64) -> bool {
        self.buffers.contains_key(buffer_id) && source_holds(self.buffers[buffer_id].source, fd)
    }

    /// Whether a timeline is a descriptor's.
    pub open spec fn timeline_holds(self, timeline_id: u32, fd: u64) -> bool {
        self.syncobj_timelines.contains_key(timeline_id) && self.syncobj_timelines[timeline_id]
            == fd
    }

    /// Whether a descriptor is still needed for a buffer or a timeline.
    pub open spec fn holds(self, fd: u64) -> bool {
        ||| exists|id: u32| #[trigger] self.params_hold(id, fd)
        ||| exists|id: u32| #[trigger] self.pool_holds(id, fd)
        ||| exists|id: u32| #[trigger] self.buffer_holds(id, fd)
        ||| exists|id: u32| #[trigger] self.timeline_holds(id, fd)
    }
}

fn any_plane_holds(planes: &Vec<TrackedDmabufPlane>, fd: u64) -> (held: bool)
    ensures
        held == planes_hold(planes@, fd),
{
    let mut index: usize = 0;
    while index < planes.len()
        invariant
            index <= planes@.len(),
            forall|i: int| 0 <= i < index ==> (#[trigger] planes@[i]).fd != fd,
        decreases planes@.len() - index,
    {
        if planes[index].fd == fd {
            return true;
        }
        index = index + 1;
    }
    false
}

impl WaylandFrameTracker {
    fn any_params_hold(&self, fd: u64) -> (held: bool)
        ensures
            held == (exists|id: u32| #[trigger] self@.params_hold(id, fd)),
    {
        let ids = self.dmabuf_params.keys();
        let mut index: usize = 0;
        while index < ids.len()
            invariant
                index <= ids@.len(),
                ids@.to_set() == self@.dmabuf_params.dom(),
                forall|i: int| 0 <= i < index ==> !#[trigger] self@.params_hold(ids@[i], fd),
            decreases ids@.len() - index,
        {
            if let Some(params) = self.dmabuf_params.get(ids[index]) {
                if any_plane_holds(&params.planes, fd) {
                    assert(self@.params_hold(ids@[index as int], fd));
                    return true;
                }
            }
            index = index + 1;
        }
        proof {
            assert forall|id: u32| !#[trigger] self@.params_hold(id, fd) by {
                if self@.dmabuf_params.contains_key(id) {
                    assert(ids@.to_set().contains(id));
                }
            }
        }
        false
    }

    fn any_pool_holds(&self, fd: u64) -> (held: bool)
        ensures
            held == (exists|id: u32| #[trigger] self@.pool_holds(id, fd)),
    {
        let ids = self.shm_pools.keys();
        let mut index: usize = 0;
        while index < ids.len()
            invariant
                index <= ids@.len(),
                ids@.to_set() == self@.shm_pools.dom(),
                forall|i: int| 0 <= i < index ==> !#[trigger] self@.pool_holds(ids@[i], fd),
            decreases ids@.len() - index,
        {
            if let Some(pool) = self.shm_pools.get(ids[index]) {
                if pool.fd == fd {
                    assert(self@.pool_holds(ids@[index as int], fd));
                    return true;
                }
            }
            index = index + 1;
        }
        proof {
            assert forall|id: u32| !#[trigger] self@.pool_holds(id, fd) by {
                if self@.shm_pools.contains_key(id) {
                    assert(ids@.to_set().contains(id));
                }
            }
        }
        false
    }

    fn any_buffer_holds(&self, fd: u64) -> (held: bool)
        ensures
            held == (exists|id: u32| #[trigger] self@.buffer_holds(id, fd)),
    {
        let ids = self.buffers.keys();
        let mut index: usize = 0;
        while index < ids.len()
            invariant
                index <= ids@.len(),
                ids@.to_set() == self@.buffers.dom(),
                forall|i: int| 0 <= i < index ==> !#[trigger] self@.buffer_holds(ids@[i], fd),
            decreases ids@.len() - index,
        {
            if let Some(buffer) = self.buffers.get(ids[index]) {
                let held = match &buffer.source {
                    TrackedBufferSource::Shm(shm) => shm.fd == fd,
                    TrackedBufferSource::Dmabuf(dmabuf) => any_plane_holds(&dmabuf.planes, fd),
                    TrackedBufferSource::Unknown => false,
                };
                if held {
                    assert(self@.buffer_holds(ids@[index as int], fd));
                    return true;
                }
            }
            index = index + 1;
        }
        proof {
            assert forall|id: u32| !#[trigger] self@.buffer_holds(id, fd) by {
                if self@.buffers.contains_key(id) {
                    assert(ids@.to_set().contains(id));
                }
            }
        }
        false
    }

    fn any_timeline_holds(&self, fd: u64) -> (held: bool)
        ensures
            held == (exists|id: u32| #[trigger] self@.timeline_holds(id, fd)),
    {
        let ids = self.syncobj_timelines.keys();
        let mut index: usize = 0;
        while index < ids.len()
            invariant
                index <= ids@.len(),
                ids@.to_set() == self@.syncobj_timelines.dom(),
                forall|i: int| 0 <= i < index ==> !#[trigger] self@.timeline_holds(ids@[i], fd),
            decreases ids@.len() - index,
        {
            if let Some(timeline) = self.syncobj_timelines.get(ids[index]) {
                if *timeline == fd {
                    assert(self@.timeline_holds(ids@[index as int], fd));
                    return true;
                }
            }
            index = index + 1;
        }
        proof {
            assert forall|id: u32| !#[trigger] self@.timeline_holds(id, fd) by {
                if self@.syncobj_timelines.contains_key(id) {
                    assert(ids@.to_set().contains(id));
                }
            }
        }
        false
    }

    /// Says whether a descriptor is still needed for a buffer or a timeline.
    pub fn holds_descriptor(&self, fd: u64) -> (held: bool)
        ensures
            held == self@.holds(fd),
    {
        self.any_params_hold(fd) || self.any_pool_holds(fd) || self.any_buffer_holds(fd)
            || self.any_timeline_holds(fd)
    }
}

} // verus!
