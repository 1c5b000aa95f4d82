//! What is captured of a window: the pixels that were committed last, once they may be
//! read, understood by the color description that was committed with them.

use crate::capture::PixelsView;
use crate::color;
use crate::delivered;
use crate::frames;
use crate::frames::{CapturedFrame, NextFrame, Screenshot, StepView};
use crate::picture;
use crate::seen;
use crate::server::ServerView;
use crate::surface::{SourceView, WindowInfoView};
use crate::text;
use crate::tracker::TrackerView;
use vstd::prelude::*;

verus! {

/// A window is captured from the buffer that was attached to its surface and committed,
/// after the point that the client set for it, and by the surface's color description.
/// Shared memory has its own size; other buffers have that of the surface.
pub proof fn committed_buffer_is_captured(
    known: TrackerView,
    window_id: Seq<char>,
    surface_id: u32,
    buffer_id: u32,
    x: i32,
    y: i32,
    conversion: Option<Seq<char>>,
    levels_valid: bool,
)
    requires
        known.buffers.contains_key(buffer_id),
        known.buffers[buffer_id].rgba is None,
        known.surface(surface_id).id == surface_id,
        ({
            let after = seen::shown(known, surface_id, Some(buffer_id), x, y);
            let number = after.surface_to_window[surface_id];
            &&& after.windows.contains_key(number)
            &&& after.windows[number].wl_surface_id == surface_id
            &&& after.number_of(window_id) == Some(number)
            &&& after.colors.current(surface_id) matches Some(description) ==> color::validity(
                description,
                conversion,
                levels_valid,
            ) is Ok
            &&& known.surface(surface_id).pending_acquire matches Some(point) ==> (
            point.timeline_id matches Some(timeline) ==> known.syncobj_timelines.contains_key(
                timeline,
            ))
        }),
    ensures
        ({
            let buffer = known.buffers[buffer_id];
            let after = seen::shown(known, surface_id, Some(buffer_id), x, y);
            let planned = after.capture_plan(window_id, conversion, levels_valid);
            let plan = planned.unwrap()->Ok_0;
            &&& planned is Some
            &&& planned.unwrap() is Ok
            &&& plan.color == after.colors.current(surface_id)
            &&& after.window_color(window_id) == plan.color
            &&& match buffer.source {
                SourceView::Shm(memory) => plan.pixels == PixelsView::Shm(memory) && plan.width
                    == memory.width && plan.height == memory.height,
                SourceView::Dmabuf(image) => plan.pixels == PixelsView::Dmabuf(image) && plan.width
                    == seen::one_or(buffer.width as int) && plan.height == seen::one_or(
                    buffer.height as int,
                ),
                SourceView::Unknown => plan.pixels is Unreadable,
            }
            &&& match known.surface(surface_id).pending_acquire {
                Some(point) => match point.timeline_id {
                    Some(timeline) => plan.wait matches Some(wait) && wait.fd
                        == known.syncobj_timelines[timeline] && wait.point == point.point,
                    None => plan.wait is None,
                },
                None => plan.wait is None,
            }
        }),
{
    let after = seen::shown(known, surface_id, Some(buffer_id), x, y);
    let number = after.surface_to_window[surface_id];
    seen::surface_is_shown(known, surface_id, Some(buffer_id), x, y);
    assert(after.shown_surface(number) == Some(after.surfaces[surface_id]));
}

/// A window whose color description is not understood is not captured, and one that is
/// not there or shows nothing has nothing to capture.
pub proof fn odd_colors_are_not_captured(
    known: TrackerView,
    window_id: Seq<char>,
    conversion: Option<Seq<char>>,
    levels_valid: bool,
)
    ensures
        known.window_color(window_id) matches Some(description) ==> (color::validity(
            description,
            conversion,
            levels_valid,
        ) matches Err(message) ==> known.capture_plan(window_id, conversion, levels_valid) == Some(
            Err::<crate::capture::PlanView, Seq<char>>(message),
        )),
        known.number_of(window_id) is None ==> known.capture_plan(
            window_id,
            conversion,
            levels_valid,
        ) is None && known.window_color(window_id) is None,
{
}

/// A screenshot takes a frame that came after it was asked for as soon as there is one,
/// and otherwise, a quarter of a second later, the one that is there; before that it
/// waits. What it takes is a frame of the window that is meant.
pub proof fn screenshot_takes_the_freshest(
    wait: Screenshot,
    window: Option<WindowInfoView>,
    now: u64,
)
    ensures
        ({
            let fresh = window matches Some(found) && found.commit_serial > wait.baseline;
            let step = frames::screenshot_step(wait, window, now);
            &&& step is Wait <==> !fresh && now < wait.deadline
            &&& step is Absent <==> window is None && now >= wait.deadline
            &&& step matches StepView::Capture { window_id, commit_serial } ==> (window matches Some(
                found,
            ) && found.capturable && window_id == found.window_id && commit_serial
                == found.commit_serial)
            &&& window matches Some(found) ==> (fresh || now >= wait.deadline ==> (step is Capture
                <==> found.capturable))
            &&& step matches StepView::Failed(message) ==> (window matches Some(found)
                && !found.capturable && (found.capture_error matches Some(error) ==> message
                == error))
        }),
{
}

/// A screenshot counts from the frame that the window has when it is asked for, and
/// waits no longer than a quarter of a second.
pub proof fn screenshot_counts_from_now(proxy: ServerView, requested: Option<Seq<char>>, now: u64)
    requires
        now + 250 <= u64::MAX,
    ensures
        ({
            let (after, begun) = proxy.begun_screenshot(requested, now);
            let meant = after.meant_window(requested);
            &&& after.deadline == Some((now + 250) as u64)
            &&& begun is Ok <==> meant is Ok
            &&& begun matches Ok(wait) ==> wait.deadline == now + 250 && wait.baseline == (
            match meant->Ok_0 {
                Some(window) => window.commit_serial,
                None => 0u64,
            })
            &&& begun matches Err(message) ==> meant == Err::<Option<WindowInfoView>, Seq<char>>(
                message,
            )
        }),
{
}

/// The next frame is one with a serial above the one that the caller knows; until it is
/// there the capture waits, and when its time is over it fails. Without a serial of the
/// caller's, the first frame that is seen is the one to exceed.
pub proof fn next_frame_exceeds_its_serial(
    wait: NextFrame,
    requested: Option<Seq<char>>,
    window: Option<WindowInfoView>,
    now: u64,
)
    ensures
        ({
            let step = frames::next_frame_step(wait, requested, window, now);
            let next = window matches Some(found) && wait.after matches Some(serial)
                && found.commit_serial > serial;
            &&& step is Wait <==> !next && now < wait.deadline
            &&& !(step is Absent)
            &&& step is Capture <==> next && window.unwrap().capturable
            &&& step matches StepView::Capture { window_id, commit_serial } ==> window_id
                == window.unwrap().window_id && commit_serial == window.unwrap().commit_serial
            &&& next && !window.unwrap().capturable && window.unwrap().capture_error is Some
                ==> step == StepView::Failed(window.unwrap().capture_error.unwrap())
            &&& frames::after_window(wait.after, window) == (if wait.after is Some {
                wait.after
            } else {
                match window {
                    Some(found) => Some(found.commit_serial),
                    None => None,
                }
            })
        }),
{
}

/// A capture of the next frame waits as long as its caller says, from a millisecond to
/// ten seconds, and a second where the caller says nothing.
pub proof fn wait_is_kept_within_bounds(timeout_ms: Option<u64>)
    ensures
        1 <= frames::frame_timeout(timeout_ms) <= 10_000,
        timeout_ms is None ==> frames::frame_timeout(timeout_ms) == 1_000,
        timeout_ms matches Some(wanted) ==> (1 <= wanted <= 10_000 ==> frames::frame_timeout(
            timeout_ms,
        ) == wanted) && (wanted < 1 ==> frames::frame_timeout(timeout_ms) == 1) && (wanted > 10_000
            ==> frames::frame_timeout(timeout_ms) == 10_000),
{
}

/// A window is captured from the client that has it.
pub proof fn window_is_captured_from_its_client(
    proxy: ServerView,
    window_id: Seq<char>,
    conversion: Option<Seq<char>>,
    levels_valid: bool,
)
    ensures
        proxy.capture_plan(window_id, conversion, levels_valid) matches Some(plan) ==> exists|i: int|
            0 <= i < proxy.client_ids().len() && (#[trigger] proxy.sessions[
                proxy.client_ids()[i]
            ]).tracker.capture_plan(window_id, conversion, levels_valid) == Some(plan),
        proxy.capture_plan(window_id, conversion, levels_valid) is None ==> forall|i: int|
            0 <= i < proxy.client_ids().len() ==> (#[trigger] proxy.sessions[
                proxy.client_ids()[i]
            ]).tracker.capture_plan(window_id, conversion, levels_valid) is None,
        proxy.window_color(window_id) matches Some(color) ==> (proxy.holder(window_id) matches Some(
            client_id,
        ) && proxy.sessions[client_id].tracker.number_of(window_id) is Some
            && proxy.sessions[client_id].tracker.window_color(window_id) == Some(color)),
{
    plan_is_found(proxy, window_id, conversion, levels_valid, 0);
    delivered::holder_has_the_window(proxy, window_id);
}

proof fn plan_is_found(
    proxy: ServerView,
    window_id: Seq<char>,
    conversion: Option<Seq<char>>,
    levels_valid: bool,
    index: int,
)
    requires
        0 <= index,
    ensures
        ({
            let ids = proxy.client_ids();
            let planned = frames::plan_from(
                proxy.sessions,
                ids,
                window_id,
                conversion,
                levels_valid,
                index,
            );
            &&& planned matches Some(plan) ==> exists|i: int|
                index <= i < ids.len() && (#[trigger] proxy.sessions[ids[i]]).tracker.capture_plan(
                    window_id,
                    conversion,
                    levels_valid,
                ) == Some(plan)
            &&& planned is None ==> forall|i: int|
                index <= i < ids.len() ==> (
                #[trigger] proxy.sessions[ids[i]]).tracker.capture_plan(
                    window_id,
                    conversion,
                    levels_valid,
                ) is None
        }),
    decreases proxy.client_ids().len() - index,
{
    if index < proxy.client_ids().len() {
        plan_is_found(proxy, window_id, conversion, levels_valid, index + 1);
        assert(proxy.sessions[proxy.client_ids()[index]]
            == proxy.sessions[proxy.client_ids()[index]]);
    }
}

/// What was captured is handed out as the picture of its own pixels, of its own size and
/// with its own color note; what could not be captured is not handed out.
pub proof fn captured_pixels_are_handed_out(
    proxy: ServerView,
    window_id: Seq<char>,
    serial: u64,
    frame: CapturedFrame,
    error: String,
)
    ensures
        ({
            let file = picture::png_of(
                frame.width,
                frame.height,
                frame.rgba@,
                "wayland-mcp-color"@,
                text::optional(frame.color),
            );
            &&& proxy.ended_screenshot(Some(Ok(frame))).1 == (match file {
                Ok(bytes) => Ok::<Option<Seq<u8>>, Seq<char>>(Some(bytes)),
                Err(message) => Err(message),
            })
            &&& proxy.ended_next_frame(window_id, serial, Some(Ok(frame))).1 == file
        }),
        proxy.ended_screenshot(None).1 == Ok::<Option<Seq<u8>>, Seq<char>>(None),
        proxy.ended_screenshot(Some(Err(error))).1 == Err::<Option<Seq<u8>>, Seq<char>>(error@),
        proxy.ended_next_frame(window_id, serial, None).1 is Err,
        proxy.ended_next_frame(window_id, serial, Some(Err(error))).1 == Err::<Seq<u8>, Seq<char>>(
            error@,
        ),
        proxy.ended_screenshot(Some(Ok(frame))).0.deadline is None,
        proxy.ended_next_frame(window_id, serial, None).0.deadline is None,
{
}

/// A wait for a frame goes on with the window that its caller asks for. Frames are
/// followed as long as the wait may last, and no longer once it is known that none comes;
/// nothing else of the proxy changes but that all requests are looked at.
pub proof fn wait_goes_on_with_its_window(
    proxy: ServerView,
    screenshot: Screenshot,
    next: NextFrame,
    requested: Option<Seq<char>>,
    now: u64,
)
    requires
        now + next.timeout_ms <= u64::MAX,
    ensures
        ({
            let (after, step) = proxy.continued_screenshot(screenshot, requested, now);
            let meant = proxy.meant_window(requested);
            &&& step is Err <==> meant is Err
            &&& step matches Err(message) ==> meant->Err_0 == message && after == proxy
            &&& step matches Ok(said) ==> {
                &&& said is Wait <==> now < screenshot.deadline && !(meant->Ok_0 matches Some(found)
                    && found.commit_serial > screenshot.baseline)
                &&& said matches StepView::Capture { window_id, commit_serial } ==> (
                meant->Ok_0 matches Some(found) && window_id == found.window_id && commit_serial
                    == found.commit_serial)
                &&& said is Wait || said is Capture ==> after == proxy
                &&& said is Failed || said is Absent ==> after.deadline is None
            }
        }),
        ({
            let (after, kept, step) = proxy.continued_next_frame(next, requested, now);
            let meant = after.meant_window(requested);
            &&& kept.deadline == next.deadline && kept.timeout_ms == next.timeout_ms
            &&& next.after is Some ==> kept.after == next.after
            &&& step is Err || step->Ok_0 is Wait || step->Ok_0 is Capture ==> {
                &&& after.deadline == Some((now + next.timeout_ms) as u64)
                &&& step is Err <==> meant is Err
                &&& step is Ok && next.after is None && meant->Ok_0 is Some ==> kept.after == Some(
                    meant->Ok_0.unwrap().commit_serial,
                )
            }
            &&& step matches Ok(StepView::Capture { window_id, commit_serial }) ==> (
            meant->Ok_0 matches Some(found) && window_id == found.window_id && commit_serial
                == found.commit_serial && kept.after.unwrap() < commit_serial)
            &&& step matches Ok(StepView::Failed(message)) ==> after.deadline is None
        }),
{
}

} // verus!
