//! Screenshots: what has to be read to capture a window, when a frame is
//! fresh enough, and PNG images.

use crate::color;
use crate::color::ColorDescription;
use crate::surface;
use crate::surface::{
    BufferView, DmabufView, SourceView, SurfaceView, TrackedBufferSource, TrackedDmabufBuffer,
    TrackedShmBuffer, TrackedSurface, TrackedSyncPoint, copy_planes,
};
use crate::text;
use crate::text::{append_decimal, copy_bytes};
use crate::tracker::{TrackerView, WaylandFrameTracker};
use vstd::prelude::*;
use vstd::string::*;

verus! {

/// A point on a timeline that has to be reached before pixels are read.
#[derive(Debug, Clone, Copy, PartialEq, Eq, Structural)]
pub struct SyncWait {
    pub fd: u64,
    pub point: u64,
}

/// Where the pixels of a capture come from.
#[derive(Debug, PartialEq, Eq)]
pub enum PlannedPixels {
    /// Pixels that are there already.
    Ready(Vec<u8>),
    /// A buffer in shared memory.
    Shm(TrackedShmBuffer),
    /// A DMA-BUF.
    Dmabuf(TrackedDmabufBuffer),
    /// Nothing that can be read.
    Unreadable,
}

/// What has to be done to capture a window: a point to wait for, and the pixels
/// to read and to understand by a color description.
#[derive(Debug, PartialEq, Eq)]
pub struct CapturePlan {
    pub width: u32,
    pub height: u32,
    pub color: Option<ColorDescription>,
    pub wait: Option<SyncWait>,
    pub pixels: PlannedPixels,
}

/// The value of where pixels come from.
#[verifier::ext_equal]
pub enum PixelsView {
    Ready(Seq<u8>),
    Shm(TrackedShmBuffer),
    Dmabuf(DmabufView),
    Unreadable,
}

/// The value of a plan.
#[verifier::ext_equal]
pub struct PlanView {
    pub width: u32,
    pub height: u32,
    pub color: Option<ColorDescription>,
    pub wait: Option<SyncWait>,
    pub pixels: PixelsView,
}

impl View for PlannedPixels {
    type V = PixelsView;

    open spec fn view(&self) -> PixelsView {
        match self {
            PlannedPixels::Ready(rgba) => PixelsView::Ready(rgba@),
            PlannedPixels::Shm(buffer) => PixelsView::Shm(*buffer),
            PlannedPixels::Dmabuf(buffer) => PixelsView::Dmabuf(buffer@),
            PlannedPixels::Unreadable => PixelsView::Unreadable,
        }
    }
}

impl View for CapturePlan {
    type V = PlanView;

    open spec fn view(&self) -> PlanView {
        PlanView {
            width: self.width,
            height: self.height,
            color: self.color,
            wait: self.wait,
            pixels: self.pixels@,
        }
    }
}

impl TrackerView {
    /// What has to be waited for before the pixels of a surface are read.
    pub open spec fn wait_for(self, acquire: Option<TrackedSyncPoint>) -> Result<
        Option<SyncWait>,
        Seq<char>,
    > {
        match acquire {
            Some(TrackedSyncPoint { timeline_id: Some(timeline_id), point }) => {
                if self.syncobj_timelines.contains_key(timeline_id) {
                    Ok(Some(SyncWait { fd: self.syncobj_timelines[timeline_id], point }))
                } else {
                    Err(Self::timeline_missing(timeline_id))
                }
            },
            _ => Ok(None),
        }
    }

    /// How the pixels of a buffer that a surface shows are captured.
    pub open spec fn buffer_plan(
        self,
        surface: SurfaceView,
        buffer: BufferView,
        color: Option<ColorDescription>,
    ) -> Result<PlanView, Seq<char>> {
        match self.wait_for(surface.last_acquire) {
            Err(message) => Err(message),
            Ok(wait) => Ok(
                PlanView {
                    width: match buffer.source {
                        SourceView::Shm(shm) => shm.width,
                        _ => surface.width,
                    },
                    height: match buffer.source {
                        SourceView::Shm(shm) => shm.height,
                        _ => surface.height,
                    },
                    color,
                    wait,
                    pixels: match buffer.source {
                        SourceView::Shm(shm) => PixelsView::Shm(shm),
                        SourceView::Dmabuf(dmabuf) => PixelsView::Dmabuf(dmabuf),
                        SourceView::Unknown => PixelsView::Unreadable,
                    },
                },
            ),
        }
    }

    /// The color description of the surface that shows a window.
    pub open spec fn window_color(self, window_id: Seq<char>) -> Option<ColorDescription> {
        match self.number_of(window_id) {
            Some(number) => match self.shown_surface(number) {
                Some(surface) => self.colors.current(surface.id),
                None => None,
            },
            None => None,
        }
    }

    /// How a window is captured, if it is there and has anything to capture.
    /// `conversion` and `levels_valid` are what is said of its color description.
    pub open spec fn capture_plan(
        self,
        window_id: Seq<char>,
        conversion: Option<Seq<char>>,
        levels_valid: bool,
    ) -> Option<Result<PlanView, Seq<char>>> {
        match self.number_of(window_id) {
            None => None,
            Some(number) => match self.shown_surface(number) {
                None => None,
                Some(surface) => {
                    let color = self.colors.current(surface.id);
                    let valid = match color {
                        Some(description) => color::validity(description, conversion, levels_valid),
                        None => Ok(()),
                    };
                    match valid {
                        Err(message) => Some(Err(message)),
                        Ok(()) => if surface.rgba.len() > 0 {
                            Some(
                                Ok(
                                    PlanView {
                                        width: surface.width,
                                        height: surface.height,
                                        color,
                                        wait: None,
                                        pixels: PixelsView::Ready(surface.rgba),
                                    },
                                ),
                            )
                        } else {
                            match self.buffer_of(surface) {
                                Some(buffer) => Some(self.buffer_plan(surface, buffer, color)),
                                None => None,
                            }
                        },
                    }
                },
            },
        }
    }
}

/// The value of a plan that may be absent or fail.
pub open spec fn plan_value(plan: Option<Result<CapturePlan, String>>) -> Option<
    Result<PlanView, Seq<char>>,
> {
    match plan {
        Some(result) => Some(text::outcome(result)),
        None => None,
    }
}

impl WaylandFrameTracker {
    /// The color description of the surface that shows a window.
    pub fn color_of_window(&self, window_id: &str) -> (color: Option<ColorDescription>)
        ensures
            color == self@.window_color(window_id@),
    {
        match self.surface_for_window(window_id) {
            Some(surface) => self.color(surface.id),
            None => None,
        }
    }

    fn sync_wait(&self, acquire: Option<TrackedSyncPoint>) -> (wait: Result<
        Option<SyncWait>,
        String,
    >)
        ensures
            text::outcome(wait) == self@.wait_for(acquire),
    {
        let (timeline_id, point): (u32, u64) = match acquire {
            Some(acquire) => match acquire.timeline_id {
                Some(timeline_id) => (timeline_id, acquire.point),
                None => return Ok(None),
            },
            None => return Ok(None),
        };
        match self.timeline(timeline_id) {
            Some(fd) => Ok(Some(SyncWait { fd, point })),
            None => {
                let mut message = "missing syncobj timeline ".to_owned();
                append_decimal(&mut message, timeline_id as u64);
                Err(message)
            },
        }
    }

    fn plan_buffer(
        &self,
        surface: &TrackedSurface,
        source: &TrackedBufferSource,
        color: Option<ColorDescription>,
    ) -> (plan: Result<CapturePlan, String>)
        ensures
            forall|buffer: BufferView|
                buffer.source == source@ ==> text::outcome(plan) == #[trigger] self@.buffer_plan(
                    surface@,
                    buffer,
                    color,
                ),
    {
        let wait = match self.sync_wait(surface.last_acquire) {
            Ok(wait) => wait,
            Err(message) => return Err(message),
        };
        Ok(
            match source {
                TrackedBufferSource::Shm(buffer) => CapturePlan {
                    width: buffer.width,
                    height: buffer.height,
                    color,
                    wait,
                    pixels: PlannedPixels::Shm(*buffer),
                },
                TrackedBufferSource::Dmabuf(buffer) => CapturePlan {
                    width: surface.width,
                    height: surface.height,
                    color,
                    wait,
                    pixels: PlannedPixels::Dmabuf(
                        TrackedDmabufBuffer {
                            width: buffer.width,
                            height: buffer.height,
                            format: buffer.format,
                            flags: buffer.flags,
                            planes: copy_planes(&buffer.planes),
                        },
                    ),
                },
                TrackedBufferSource::Unknown => CapturePlan {
                    width: surface.width,
                    height: surface.height,
                    color,
                    wait,
                    pixels: PlannedPixels::Unreadable,
                },
            },
        )
    }

    /// Says how a window is captured.
    pub fn capture_window_rgba(
        &self,
        window_id: &str,
        conversion: &Option<String>,
        levels_valid: bool,
    ) -> (plan: Option<Result<CapturePlan, String>>)
        ensures
            plan_value(plan) == self@.capture_plan(
                window_id@,
                text::optional(*conversion),
                levels_valid,
            ),
    {
        let surface = match self.surface_for_window(window_id) {
            Some(surface) => surface,
            None => return None,
        };
        let color = self.color(surface.id);
        if let Some(description) = color {
            if let Err(message) = description.validate(conversion, levels_valid) {
                return Some(Err(message));
            }
        }
        if surface.rgba.len() > 0 {
            return Some(
                Ok(
                    CapturePlan {
                        width: surface.width,
                        height: surface.height,
                        color,
                        wait: None,
                        pixels: PlannedPixels::Ready(copy_bytes(&surface.rgba)),
                    },
                ),
            );
        }
        let buffer_id: u32 = match surface.buffer_id {
            Some(buffer_id) => buffer_id,
            None => return None,
        };
        match self.buffer(buffer_id) {
            Some(buffer) => {
                let plan = self.plan_buffer(surface, &buffer.source, color);
                assert(text::outcome(plan) == self@.buffer_plan(surface@, buffer@, color));
                Some(plan)
            },
            None => None,
        }
    }
}

/// The message for pixels that cannot be read.
pub fn unreadable_message() -> (message: String)
    ensures
        message@ == "window buffer has no readable pixel backing yet"@,
{
    "window buffer has no readable pixel backing yet".to_owned()
}

} // verus!
