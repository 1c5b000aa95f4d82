//! Waiting for a frame of a window: a screenshot takes the next frame that comes
//! soon, or the one that is there; a capture of the next frame waits for one that
//! its caller has not seen.

use crate::capture;
use crate::capture::{CapturePlan, PlanView};
use crate::color::ColorDescription;
use crate::picture;
use crate::picture::encode_rgba_png;
use crate::server::{ServerView, WaylandProxyServer};
use crate::session::SessionView;
use crate::surface::{GuiWindowInfo, WindowInfoView};
use crate::text;
use crate::text::{append_decimal, copy_text};
use vstd::prelude::*;
use vstd::string::*;

verus! {

/// How long a screenshot waits for a new frame, in milliseconds.
pub const SCREENSHOT_REFRESH_MS: u64 = 250;

/// How long to wait before windows are looked at again, in milliseconds.
pub const FRAME_POLL_MS: u64 = 16;

/// How long to wait for the next frame if the caller does not say, in milliseconds.
pub const DEFAULT_FRAME_TIMEOUT_MS: u64 = 1_000;

/// The longest time to wait for the next frame, in milliseconds.
pub const MAX_FRAME_TIMEOUT_MS: u64 = 10_000;

/// A screenshot that a caller asks for.
#[derive(Debug, PartialEq, Eq)]
pub struct GuiScreenshotRequest {
    pub window_id: Option<String>,
}

/// A capture of the next frame that a caller asks for.
#[derive(Debug, PartialEq, Eq)]
pub struct GuiCaptureNextFrameRequest {
    pub window_id: Option<String>,
    pub after_commit_serial: Option<u64>,
    pub timeout_ms: Option<u64>,
}

/// A screenshot on its way: the serial that a new frame has to exceed, and the time
/// at which the frame that is there is taken.
#[derive(Debug, Clone, Copy, PartialEq, Eq, Structural)]
pub struct Screenshot {
    pub baseline: u64,
    pub deadline: u64,
}

impl View for Screenshot {
    type V = Screenshot;

    open spec fn view(&self) -> Screenshot {
        *self
    }
}

/// A capture of the next frame on its way: the serial that a new frame has to
/// exceed, once that is known, how long to wait, and until when.
#[derive(Debug, Clone, Copy, PartialEq, Eq, Structural)]
pub struct NextFrame {
    pub after: Option<u64>,
    pub timeout_ms: u64,
    pub deadline: u64,
}

/// What comes next in waiting for a frame.
#[derive(Debug, PartialEq, Eq)]
pub enum FrameStep {
    /// Windows are to be looked at again a little later.
    Wait,
    /// There is no window.
    Absent,
    /// A window is to be captured as it is with its last commit.
    Capture { window_id: String, commit_serial: u64 },
    /// The wait is over without a frame.
    Failed(String),
}

/// The value of what comes next.
#[verifier::ext_equal]
pub enum StepView {
    Wait,
    Absent,
    Capture { window_id: Seq<char>, commit_serial: u64 },
    Failed(Seq<char>),
}

impl View for FrameStep {
    type V = StepView;

    open spec fn view(&self) -> StepView {
        match self {
            FrameStep::Wait => StepView::Wait,
            FrameStep::Absent => StepView::Absent,
            FrameStep::Capture { window_id, commit_serial } => StepView::Capture {
                window_id: window_id@,
                commit_serial: *commit_serial,
            },
            FrameStep::Failed(message) => StepView::Failed(message@),
        }
    }
}

/// The pixels of a window, with a note on their colors.
#[derive(Debug, PartialEq, Eq)]
pub struct CapturedFrame {
    pub width: u32,
    pub height: u32,
    pub rgba: Vec<u8>,
    pub color: Option<String>,
}

impl CapturedFrame {
    /// The PNG file of the frame.
    pub open spec fn file(self) -> Result<Seq<u8>, Seq<char>> {
        picture::png_of(
            self.width,
            self.height,
            self.rgba@,
            picture::color_keyword(),
            text::optional(self.color),
        )
    }

    /// Whether the size of the frame can be computed with.
    pub open spec fn is_countable(self) -> bool {
        (4 * self.width + 1) * self.height <= usize::MAX
    }

    /// Says whether the size of the frame can be computed with.
    pub fn can_be_counted(&self) -> (countable: bool)
        ensures
            countable == self.is_countable(),
    {
        let row: u128 = 4 * self.width as u128 + 1;
        assert(row * self.height <= 0x4_0000_0000 * 0xffff_ffff) by (nonlinear_arith)
            requires
                row <= 0x4_0000_0000,
                self.height <= 0xffff_ffff,
        ;
        row * self.height as u128 <= usize::MAX as u128
    }
}

/// Why a window that is to be shown in a screenshot cannot be captured.
pub open spec fn not_capturable(window: WindowInfoView) -> Seq<char> {
    match window.capture_error {
        Some(error) => error,
        None => "window `"@ + window.window_id + "` exists but is not capturable yet"@,
    }
}

/// Why a window with a new frame cannot be captured.
pub open spec fn frame_not_capturable(window: WindowInfoView) -> Seq<char> {
    match window.capture_error {
        Some(error) => error,
        None => "window `"@ + window.window_id + "` produced a new frame at commit_serial="@
            + text::decimal(window.commit_serial as nat) + " but is not capturable"@,
    }
}

/// The message for a window with a new frame that has no pixels.
pub open spec fn surface_missing(window_id: Seq<char>, commit_serial: u64) -> Seq<char> {
    "window `"@ + window_id + "` produced commit_serial="@ + text::decimal(commit_serial as nat)
        + " but its tracked surface is missing"@
}

/// The message for a new frame that did not come.
pub open spec fn no_new_frame(timeout_ms: u64, requested: Option<Seq<char>>, after: u64) -> Seq<
    char,
> {
    "timed out after "@ + text::decimal(timeout_ms as nat) + " ms waiting for a new frame from "@
        + (match requested {
        Some(window_id) => window_id,
        None => "the selected window"@,
    }) + " after commit_serial="@ + text::decimal(after as nat)
}

/// How long to wait for the next frame.
pub open spec fn frame_timeout(timeout_ms: Option<u64>) -> u64 {
    match timeout_ms {
        None => DEFAULT_FRAME_TIMEOUT_MS,
        Some(0) => 1,
        Some(wanted) => if wanted > MAX_FRAME_TIMEOUT_MS {
            MAX_FRAME_TIMEOUT_MS
        } else {
            wanted
        },
    }
}

/// The serial that a new frame has to exceed, once a window was looked for.
pub open spec fn after_window(after: Option<u64>, window: Option<WindowInfoView>) -> Option<u64> {
    match (after, window) {
        (None, Some(found)) => Some(found.commit_serial),
        _ => after,
    }
}

/// A serial that may not be known yet.
pub open spec fn or_zero(serial: Option<u64>) -> u64 {
    match serial {
        Some(known) => known,
        None => 0,
    }
}

/// What comes next for a screenshot, given the window that is meant.
pub open spec fn screenshot_step(
    wait: Screenshot,
    window: Option<WindowInfoView>,
    now: u64,
) -> StepView {
    let refreshed = match window {
        Some(found) => found.commit_serial > wait.baseline,
        None => false,
    };
    if refreshed || now >= wait.deadline {
        match window {
            None => StepView::Absent,
            Some(found) => if found.capturable {
                StepView::Capture {
                    window_id: found.window_id,
                    commit_serial: found.commit_serial,
                }
            } else {
                StepView::Failed(not_capturable(found))
            },
        }
    } else {
        StepView::Wait
    }
}

/// What comes next for a capture of the next frame, given the window that is
/// meant and the serial to exceed.
pub open spec fn next_frame_step(
    wait: NextFrame,
    requested: Option<Seq<char>>,
    window: Option<WindowInfoView>,
    now: u64,
) -> StepView {
    let after = or_zero(after_window(wait.after, window));
    if window is Some && window->0.commit_serial > after {
        if window->0.capturable {
            StepView::Capture {
                window_id: window->0.window_id,
                commit_serial: window->0.commit_serial,
            }
        } else {
            StepView::Failed(frame_not_capturable(window->0))
        }
    } else if now >= wait.deadline {
        StepView::Failed(no_new_frame(wait.timeout_ms, requested, after))
    } else {
        StepView::Wait
    }
}

/// How a window is captured by the first client, from `index` on, that has
/// anything to say of it.
pub open spec fn plan_from(
    sessions: Map<u64, SessionView>,
    ids: Seq<u64>,
    window_id: Seq<char>,
    conversion: Option<Seq<char>>,
    levels_valid: bool,
    index: int,
) -> Option<Result<PlanView, Seq<char>>>
    decreases ids.len() - index,
{
    if index < 0 || index >= ids.len() {
        None
    } else {
        match sessions[ids[index]].tracker.capture_plan(window_id, conversion, levels_valid) {
            Some(plan) => Some(plan),
            None => plan_from(sessions, ids, window_id, conversion, levels_valid, index + 1),
        }
    }
}

impl ServerView {
    /// A screenshot that begins.
    pub open spec fn begun_screenshot(self, requested: Option<Seq<char>>, now: u64) -> (
        ServerView,
        Result<Screenshot, Seq<char>>,
    ) {
        let deadline = (now + SCREENSHOT_REFRESH_MS) as u64;
        let after = self.tracking_until(deadline);
        (
            after,
            match after.meant_window(requested) {
                Err(message) => Err(message),
                Ok(None) => Ok(Screenshot { baseline: 0, deadline }),
                Ok(Some(window)) => Ok(Screenshot { baseline: window.commit_serial, deadline }),
            },
        )
    }

    /// A screenshot that goes on. Clients are no longer looked at once it has
    /// come to nothing.
    pub open spec fn continued_screenshot(
        self,
        wait: Screenshot,
        requested: Option<Seq<char>>,
        now: u64,
    ) -> (ServerView, Result<StepView, Seq<char>>) {
        match self.meant_window(requested) {
            Err(message) => (self, Err(message)),
            Ok(window) => {
                let step = screenshot_step(wait, window, now);
                (
                    if step is Failed || step is Absent {
                        self.tracking_ended()
                    } else {
                        self
                    },
                    Ok(step),
                )
            },
        }
    }

    /// A screenshot that ends with a frame, or without one.
    pub open spec fn ended_screenshot(self, frame: Option<Result<CapturedFrame, String>>) -> (
        ServerView,
        Result<Option<Seq<u8>>, Seq<char>>,
    ) {
        match frame {
            None => (self.tracking_ended(), Ok(None)),
            Some(Err(message)) => (self, Err(message@)),
            Some(Ok(pixels)) => (
                self.tracking_ended(),
                match pixels.file() {
                    Ok(bytes) => Ok(Some(bytes)),
                    Err(message) => Err(message),
                },
            ),
        }
    }

    /// A capture of the next frame that goes on. Clients are looked at for as long
    /// as it lasts.
    pub open spec fn continued_next_frame(
        self,
        wait: NextFrame,
        requested: Option<Seq<char>>,
        now: u64,
    ) -> (ServerView, NextFrame, Result<StepView, Seq<char>>) {
        let looking = self.tracking_until((now + wait.timeout_ms) as u64);
        match looking.meant_window(requested) {
            Err(message) => (looking, wait, Err(message)),
            Ok(window) => {
                let step = next_frame_step(wait, requested, window, now);
                (
                    if step is Failed {
                        looking.tracking_ended()
                    } else {
                        looking
                    },
                    NextFrame { after: after_window(wait.after, window), ..wait },
                    Ok(step),
                )
            },
        }
    }

    /// A capture of the next frame that ends with a frame, or without one.
    pub open spec fn ended_next_frame(
        self,
        window_id: Seq<char>,
        commit_serial: u64,
        frame: Option<Result<CapturedFrame, String>>,
    ) -> (ServerView, Result<Seq<u8>, Seq<char>>) {
        (
            self.tracking_ended(),
            match frame {
                None => Err(surface_missing(window_id, commit_serial)),
                Some(Err(message)) => Err(message@),
                Some(Ok(pixels)) => pixels.file(),
            },
        )
    }

    /// How a window is captured.
    pub open spec fn capture_plan(
        self,
        window_id: Seq<char>,
        conversion: Option<Seq<char>>,
        levels_valid: bool,
    ) -> Option<Result<PlanView, Seq<char>>> {
        plan_from(self.sessions, self.client_ids(), window_id, conversion, levels_valid, 0)
    }

    /// The color description of the surface that shows a window.
    pub open spec fn window_color(self, window_id: Seq<char>) -> Option<ColorDescription> {
        match self.holder(window_id) {
            Some(client_id) => self.sessions[client_id].tracker.window_color(window_id),
            None => None,
        }
    }
}

/// A screenshot does not wait beyond its deadline.
pub proof fn screenshot_ends_by_its_deadline(
    wait: Screenshot,
    window: Option<WindowInfoView>,
    now: u64,
)
    requires
        now >= wait.deadline,
    ensures
        !(screenshot_step(wait, window, now) is Wait),
{
}

/// A capture of the next frame does not wait beyond its deadline, and what it
/// captures was committed after what its caller knows.
pub proof fn next_frame_is_new_or_none(
    wait: NextFrame,
    requested: Option<Seq<char>>,
    window: Option<WindowInfoView>,
    now: u64,
)
    ensures
        now >= wait.deadline ==> !(next_frame_step(wait, requested, window, now) is Wait),
        next_frame_step(wait, requested, window, now) matches StepView::Capture {
            commit_serial,
            ..
        } ==> wait.after is Some && commit_serial > wait.after->0,
        wait.after is None && window is Some ==> !(next_frame_step(wait, requested, window, now)
            is Capture),
{
}

/// The serial to exceed is settled by the first window that is seen, and stays.
pub proof fn serial_to_exceed_stays(
    after: Option<u64>,
    first: Option<WindowInfoView>,
    second: Option<WindowInfoView>,
)
    requires
        after_window(after, first) is Some,
    ensures
        after_window(after_window(after, first), second) == after_window(after, first),
{
}

fn capture_error_of(window: &GuiWindowInfo) -> (error: Option<String>)
    ensures
        text::optional(error) == window@.capture_error,
{
    copy_text(&window.capture_error)
}

/// Begins a capture of the next frame.
pub fn begin_next_frame(request: &GuiCaptureNextFrameRequest, now: u64) -> (wait: NextFrame)
    requires
        now + MAX_FRAME_TIMEOUT_MS <= u64::MAX,
    ensures
        wait == (NextFrame {
            after: request.after_commit_serial,
            timeout_ms: frame_timeout(request.timeout_ms),
            deadline: (now + frame_timeout(request.timeout_ms)) as u64,
        }),
        1 <= wait.timeout_ms <= MAX_FRAME_TIMEOUT_MS,
{
    let timeout_ms: u64 = match request.timeout_ms {
        None => DEFAULT_FRAME_TIMEOUT_MS,
        Some(wanted) => if wanted < 1 {
            1
        } else if wanted > MAX_FRAME_TIMEOUT_MS {
            MAX_FRAME_TIMEOUT_MS
        } else {
            wanted
        },
    };
    NextFrame { after: request.after_commit_serial, timeout_ms, deadline: now + timeout_ms }
}

/// The value of a file that may be absent or fail.
pub open spec fn file_value(file: Result<Option<Vec<u8>>, String>) -> Result<
    Option<Seq<u8>>,
    Seq<char>,
> {
    match file {
        Ok(Some(bytes)) => Ok(Some(bytes@)),
        Ok(None) => Ok(None),
        Err(message) => Err(message@),
    }
}

fn encode_frame(frame: &CapturedFrame) -> (file: Result<Vec<u8>, String>)
    requires
        frame.is_countable(),
    ensures
        text::outcome(file) == frame.file(),
{
    encode_rgba_png(frame.width, frame.height, &frame.rgba, &frame.color)
}

impl WaylandProxyServer {
    /// Begins a screenshot: clients that are only passed on are looked at again, so
    /// that a new frame is seen.
    pub fn begin_screenshot(&mut self, request: &GuiScreenshotRequest, now: u64) -> (begun: Result<
        Screenshot,
        String,
    >)
        requires
            now + SCREENSHOT_REFRESH_MS <= u64::MAX,
        ensures
            (final(self)@, text::outcome(begun)) == old(self)@.begun_screenshot(
                text::optional(request.window_id),
                now,
            ),
    {
        let deadline: u64 = now + SCREENSHOT_REFRESH_MS;
        self.enable_capture_tracking_until(deadline);
        match self.meant_window(&request.window_id) {
            Err(message) => Err(message),
            Ok(None) => Ok(Screenshot { baseline: 0, deadline }),
            Ok(Some(window)) => Ok(Screenshot { baseline: window.commit_serial, deadline }),
        }
    }

    /// Goes on with a screenshot.
    pub fn continue_screenshot(
        &mut self,
        wait: Screenshot,
        request: &GuiScreenshotRequest,
        now: u64,
    ) -> (step: Result<FrameStep, String>)
        ensures
            (final(self)@, text::outcome(step)) == old(self)@.continued_screenshot(
                wait,
                text::optional(request.window_id),
                now,
            ),
    {
        let window = match self.meant_window(&request.window_id) {
            Err(message) => return Err(message),
            Ok(window) => window,
        };
        match window {
            None => {
                if now < wait.deadline {
                    return Ok(FrameStep::Wait);
                }
                self.disable_capture_tracking();
                Ok(FrameStep::Absent)
            },
            Some(found) => {
                if found.commit_serial <= wait.baseline && now < wait.deadline {
                    return Ok(FrameStep::Wait);
                }
                if found.capturable {
                    return Ok(
                        FrameStep::Capture {
                            window_id: found.window_id,
                            commit_serial: found.commit_serial,
                        },
                    );
                }
                self.disable_capture_tracking();
                if let Some(error) = capture_error_of(&found) {
                    return Ok(FrameStep::Failed(error));
                }
                let mut message = "window `".to_owned();
                message.append(found.window_id.as_str());
                message.append("` exists but is not capturable yet");
                Ok(FrameStep::Failed(message))
            },
        }
    }

    /// Ends a screenshot with what was read of the window, if anything was there.
    pub fn end_screenshot(&mut self, frame: Option<Result<CapturedFrame, String>>) -> (file: Result<
        Option<Vec<u8>>,
        String,
    >)
        requires
            frame matches Some(Ok(pixels)) ==> pixels.is_countable(),
        ensures
            (final(self)@, file_value(file)) == old(self)@.ended_screenshot(frame),
    {
        match frame {
            None => {
                self.disable_capture_tracking();
                Ok(None)
            },
            Some(Err(message)) => Err(message),
            Some(Ok(pixels)) => {
                self.disable_capture_tracking();
                match encode_frame(&pixels) {
                    Ok(bytes) => Ok(Some(bytes)),
                    Err(message) => Err(message),
                }
            },
        }
    }

    /// Goes on with a capture of the next frame.
    pub fn continue_next_frame(
        &mut self,
        wait: &mut NextFrame,
        request: &GuiCaptureNextFrameRequest,
        now: u64,
    ) -> (step: Result<FrameStep, String>)
        requires
            now + old(wait).timeout_ms <= u64::MAX,
        ensures
            (final(self)@, *final(wait), text::outcome(step)) == old(self)@.continued_next_frame(
                *old(wait),
                text::optional(request.window_id),
                now,
            ),
    {
        self.enable_capture_tracking_until(now + wait.timeout_ms);
        let window = match self.meant_window(&request.window_id) {
            Err(message) => return Err(message),
            Ok(window) => window,
        };
        if let Some(found) = window {
            if wait.after.is_none() {
                wait.after = Some(found.commit_serial);
            }
            let after: u64 = match wait.after {
                Some(after) => after,
                None => 0,
            };
            if found.commit_serial > after {
                if found.capturable {
                    return Ok(
                        FrameStep::Capture {
                            window_id: found.window_id,
                            commit_serial: found.commit_serial,
                        },
                    );
                }
                self.disable_capture_tracking();
                if let Some(error) = capture_error_of(&found) {
                    return Ok(FrameStep::Failed(error));
                }
                let mut message = "window `".to_owned();
                message.append(found.window_id.as_str());
                message.append("` produced a new frame at commit_serial=");
                append_decimal(&mut message, found.commit_serial);
                message.append(" but is not capturable");
                return Ok(FrameStep::Failed(message));
            }
        }
        if now < wait.deadline {
            return Ok(FrameStep::Wait);
        }
        self.disable_capture_tracking();
        let mut message = "timed out after ".to_owned();
        append_decimal(&mut message, wait.timeout_ms);
        message.append(" ms waiting for a new frame from ");
        match &request.window_id {
            Some(window_id) => message.append(window_id.as_str()),
            None => message.append("the selected window"),
        }
        message.append(" after commit_serial=");
        append_decimal(
            &mut message,
            match wait.after {
                Some(after) => after,
                None => 0,
            },
        );
        Ok(FrameStep::Failed(message))
    }

    /// Ends a capture of the next frame with what was read of the window, if
    /// anything was there.
    pub fn end_next_frame(
        &mut self,
        window_id: &str,
        commit_serial: u64,
        frame: Option<Result<CapturedFrame, String>>,
    ) -> (file: Result<Vec<u8>, String>)
        requires
            frame matches Some(Ok(pixels)) ==> pixels.is_countable(),
        ensures
            (final(self)@, text::outcome(file)) == old(self)@.ended_next_frame(
                window_id@,
                commit_serial,
                frame,
            ),
    {
        self.disable_capture_tracking();
        match frame {
            None => {
                let mut message = "window `".to_owned();
                message.append(window_id);
                message.append("` produced commit_serial=");
                append_decimal(&mut message, commit_serial);
                message.append(" but its tracked surface is missing");
                Err(message)
            },
            Some(Err(message)) => Err(message),
            Some(Ok(pixels)) => encode_frame(&pixels),
        }
    }

    /// The color description of the surface that shows a window.
    pub fn color_of_window(&self, window_id: &str) -> (color: Option<ColorDescription>)
        ensures
            color == self@.window_color(window_id@),
    {
        match self.find_holder(window_id) {
            Some(client_id) => match self.sessions.get(client_id) {
                Some(session) => session.frame_tracker.color_of_window(window_id),
                None => None,
            },
            None => None,
        }
    }

    /// Says how a window is captured.
    pub fn capture_window_rgba(
        &self,
        window_id: &str,
        conversion: &Option<String>,
        levels_valid: bool,
    ) -> (plan: Option<Result<CapturePlan, String>>)
        ensures
            capture::plan_value(plan) == self@.capture_plan(
                window_id@,
                text::optional(*conversion),
                levels_valid,
            ),
    {
        let ids = self.sessions.keys();
        let mut index: usize = 0;
        while index < ids.len()
            invariant
                index <= ids@.len(),
                ids@ == self@.client_ids(),
                forall|i: int| 0 <= i < ids@.len() ==> self.sessions@.contains_key(
                    #[trigger] ids@[i],
                ),
                self@.capture_plan(window_id@, text::optional(*conversion), levels_valid)
                    == plan_from(
                    self@.sessions,
                    ids@,
                    window_id@,
                    text::optional(*conversion),
                    levels_valid,
                    index as int,
                ),
            decreases ids@.len() - index,
        {
            if let Some(session) = self.sessions.get(ids[index]) {
                let plan = session.frame_tracker.capture_window_rgba(
                    window_id,
                    conversion,
                    levels_valid,
                );
                if plan.is_some() {
                    return plan;
                }
            }
            index = index + 1;
        }
        None
    }
}

} // verus!
