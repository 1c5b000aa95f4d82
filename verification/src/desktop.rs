//! The windows of all clients: which one a caller means, what it is told of
//! them, and the input that it sends to them.

use crate::input;
use crate::input::{
    Delivery, DeliveryView, GuiWaylandKeyboardEvent, GuiWaylandPointerEvent, Resize, ResizeView,
};
use crate::keymap::{TextPlan, TextStroke};
use crate::server::{ServerView, WaylandProxyServer};
use crate::session::{SessionView, WaylandClientId};
use crate::surface;
use crate::surface::{GuiWindowInfo, PointerClickTarget, TargetView, WindowInfoView, copy_info};
use crate::table;
use crate::text;
use crate::windows;
use crate::windows::select_window_for_screenshot;
use vstd::prelude::*;
use vstd::string::*;

verus! {

/// A click that a caller asks for.
#[derive(Debug, PartialEq, Eq)]
pub struct GuiClickRequest {
    pub window_id: Option<String>,
    pub x: i64,
    pub y: i64,
    pub button: u8,
}

/// A motion of the pointer that a caller asks for.
#[derive(Debug, PartialEq, Eq)]
pub struct GuiPointerMoveRequest {
    pub window_id: Option<String>,
    pub x: i64,
    pub y: i64,
}

/// A pointer event that a caller asks for.
#[derive(Debug, PartialEq, Eq)]
pub struct GuiWaylandPointerEventRequest {
    pub window_id: Option<String>,
    pub event: GuiWaylandPointerEvent,
}

/// A keyboard event that a caller asks for.
#[derive(Debug, PartialEq, Eq)]
pub struct GuiWaylandKeyboardEventRequest {
    pub window_id: Option<String>,
    pub event: GuiWaylandKeyboardEvent,
}

/// A new size of a window that a caller asks for.
#[derive(Debug, PartialEq, Eq)]
pub struct GuiResizeWindowRequest {
    pub window_id: String,
    pub width: u32,
    pub height: u32,
}

/// The windows of clients, one client after the other.
pub open spec fn windows_of(sessions: Map<u64, SessionView>, ids: Seq<u64>) -> Seq<WindowInfoView>
    decreases ids.len(),
{
    if ids.len() == 0 {
        Seq::empty()
    } else {
        windows_of(sessions, ids.drop_last()) + sessions[ids.last()].tracker.infos()
    }
}

/// Where a window goes among windows that are in order: behind all that were
/// committed with its serial or a later one.
pub open spec fn serial_position(infos: Seq<WindowInfoView>, info: WindowInfoView) -> nat
    decreases infos.len(),
{
    if infos.len() == 0 {
        0
    } else if infos.last().commit_serial >= info.commit_serial {
        infos.len()
    } else {
        serial_position(infos.drop_last(), info)
    }
}

/// Windows by the serial of their last commit, the highest one first; those of
/// one serial stay as they are.
pub open spec fn by_serial(infos: Seq<WindowInfoView>) -> Seq<WindowInfoView>
    decreases infos.len(),
{
    if infos.len() == 0 {
        infos
    } else {
        let before = by_serial(infos.drop_last());
        before.insert(serial_position(before, infos.last()) as int, infos.last())
    }
}

proof fn serial_position_fits(infos: Seq<WindowInfoView>, info: WindowInfoView)
    requires
        windows::newest_first(infos),
    ensures
        serial_position(infos, info) <= infos.len(),
        forall|i: int|
            0 <= i < serial_position(infos, info) ==> (#[trigger] infos[i]).commit_serial
                >= info.commit_serial,
        forall|i: int|
            serial_position(infos, info) <= i < infos.len() ==> (#[trigger] infos[i]).commit_serial
                < info.commit_serial,
    decreases infos.len(),
{
    if infos.len() > 0 {
        if infos.last().commit_serial < info.commit_serial {
            let rest = infos.drop_last();
            assert forall|i: int, j: int| 0 <= i <= j < rest.len() implies (
            #[trigger] rest[i]).commit_serial >= (#[trigger] rest[j]).commit_serial by {
                assert(rest[i] == infos[i] && rest[j] == infos[j]);
            }
            serial_position_fits(rest, info);
            assert forall|i: int| 0 <= i < serial_position(infos, info) implies (
            #[trigger] infos[i]).commit_serial >= info.commit_serial by {
                assert(rest[i] == infos[i]);
            }
            assert forall|i: int| serial_position(infos, info) <= i < infos.len() implies (
            #[trigger] infos[i]).commit_serial < info.commit_serial by {
                if i < rest.len() {
                    assert(rest[i] == infos[i]);
                }
            }
        } else {
            assert forall|i: int| 0 <= i < infos.len() implies (#[trigger] infos[i]).commit_serial
                >= info.commit_serial by {
                assert(infos[infos.len() - 1] == infos.last());
            }
        }
    }
}

/// The windows of all clients are listed newest first, and sorting neither
/// loses nor doubles any.
pub proof fn all_windows_are_listed_newest_first(infos: Seq<WindowInfoView>)
    ensures
        windows::newest_first(by_serial(infos)),
        by_serial(infos).to_multiset() == infos.to_multiset(),
        by_serial(infos).len() == infos.len(),
    decreases infos.len(),
{
    broadcast use vstd::seq_lib::group_to_multiset_ensures;

    if infos.len() > 0 {
        let rest = infos.drop_last();
        let info = infos.last();
        let before = by_serial(rest);
        let position = serial_position(before, info) as int;
        let after = by_serial(infos);
        all_windows_are_listed_newest_first(rest);
        serial_position_fits(before, info);
        assert forall|i: int, j: int| 0 <= i <= j < after.len() implies (
        #[trigger] after[i]).commit_serial >= (#[trigger] after[j]).commit_serial by {
            if j < position {
                assert(after[i] == before[i] && after[j] == before[j]);
            } else if i > position {
                assert(after[i] == before[i - 1] && after[j] == before[j - 1]);
            } else {
                if i < position {
                    assert(after[i] == before[i]);
                }
                if j > position {
                    assert(after[j] == before[j - 1]);
                }
            }
        }
        assert(infos =~= rest.push(info));
        assert(infos.to_multiset() == rest.to_multiset().insert(info));
        vstd::seq_lib::to_multiset_insert(before, position, info);
    } else {
        assert(by_serial(infos) == infos);
    }
}

/// Sorting keeps windows of different names apart.
pub proof fn sorting_keeps_names_apart(infos: Seq<WindowInfoView>)
    requires
        windows::names_differ(infos),
    ensures
        windows::names_differ(by_serial(infos)),
    decreases infos.len(),
{
    broadcast use vstd::seq_lib::group_to_multiset_ensures;

    if infos.len() > 0 {
        let rest = infos.drop_last();
        let info = infos.last();
        let before = by_serial(rest);
        assert forall|i: int, j: int| 0 <= i < j < rest.len() implies (
        #[trigger] rest[i]).window_id != (#[trigger] rest[j]).window_id by {
            assert(rest[i] == infos[i] && rest[j] == infos[j]);
        }
        sorting_keeps_names_apart(rest);
        all_windows_are_listed_newest_first(rest);
        serial_position_fits(before, info);
        assert forall|i: int| 0 <= i < before.len() implies (#[trigger] before[i]).window_id
            != info.window_id by {
            assert(before.contains(before[i]));
            assert(before.to_multiset().count(before[i]) == rest.to_multiset().count(before[i]));
            let at = choose|at: int| 0 <= at < rest.len() && rest[at] == before[i];
            assert(infos[at].window_id != infos[infos.len() - 1].window_id);
        }
        windows::joining_keeps_names_apart(before, info, serial_position(before, info) as int);
    }
}

/// The first client, from `index` on, that has a window of a name.
pub open spec fn holder_from(
    sessions: Map<u64, SessionView>,
    ids: Seq<u64>,
    window_id: Seq<char>,
    index: int,
) -> Option<u64>
    decreases ids.len() - index,
{
    if index < 0 || index >= ids.len() {
        None
    } else if sessions[ids[index]].tracker.number_of(window_id) is Some {
        Some(ids[index])
    } else {
        holder_from(sessions, ids, window_id, index + 1)
    }
}

/// The first client, from `index` on, in whose windows a click goes somewhere
/// or is refused.
pub open spec fn target_from(
    sessions: Map<u64, SessionView>,
    ids: Seq<u64>,
    window_id: Seq<char>,
    x: i64,
    y: i64,
    index: int,
) -> Option<(u64, Result<TargetView, Seq<char>>)>
    decreases ids.len() - index,
{
    if index < 0 || index >= ids.len() {
        None
    } else {
        match sessions[ids[index]].tracker.click_target(window_id, x, y) {
            Ok(Some(target)) => Some((ids[index], Ok(target))),
            Err(message) => Some((ids[index], Err(message))),
            Ok(None) => target_from(sessions, ids, window_id, x, y, index + 1),
        }
    }
}

/// A message about a window, whose name stands in it in quotes.
pub open spec fn about_window(window_id: Seq<char>, rest: Seq<char>) -> Seq<char> {
    "window `"@ + window_id + rest
}

impl ServerView {
    /// The clients, in the order in which they came.
    pub open spec fn client_ids(self) -> Seq<u64> {
        table::in_order(self.sessions.dom())
    }

    /// The windows of all clients.
    pub open spec fn all_windows(self) -> Seq<WindowInfoView> {
        windows_of(self.sessions, self.client_ids())
    }

    /// The windows that are shown.
    pub open spec fn mapped_windows(self) -> Seq<WindowInfoView> {
        self.all_windows().filter(|info: WindowInfoView| info.mapped)
    }

    /// The window that a caller means.
    pub open spec fn meant_window(self, requested: Option<Seq<char>>) -> Result<
        Option<WindowInfoView>,
        Seq<char>,
    > {
        match windows::selected(self.mapped_windows(), requested) {
            Err(message) => Err(message),
            Ok(None) => Ok(None),
            Ok(Some(index)) => Ok(Some(self.mapped_windows()[index])),
        }
    }

    /// The client that has a window of a name.
    pub open spec fn holder(self, window_id: Seq<char>) -> Option<u64> {
        holder_from(self.sessions, self.client_ids(), window_id, 0)
    }

    /// A new size for a window.
    pub open spec fn resized(self, window_id: Seq<char>, width: u32, height: u32) -> (
        ServerView,
        Result<(u64, ResizeView), Seq<char>>,
    ) {
        if !(1 <= width <= 8192) || !(1 <= height <= 8192) {
            (self, Err("resizeWindow dimensions must be between 1 and 8192"@))
        } else {
            match self.holder(window_id) {
                None => (self, Err(about_window(window_id, "` is no longer available"@))),
                Some(client_id) => {
                    let (after, resize) = self.sessions[client_id].resized(
                        window_id,
                        width,
                        height,
                    );
                    (
                        self.with_session(client_id, after),
                        match resize {
                            Ok(sent) => Ok((client_id, sent)),
                            Err(message) => Err(message),
                        },
                    )
                },
            }
        }
    }

    /// What a client answers to input, with its state afterwards.
    pub open spec fn answered(
        self,
        client_id: u64,
        answer: (SessionView, Result<DeliveryView, Seq<char>>),
    ) -> (ServerView, Result<(u64, DeliveryView), Seq<char>>) {
        (
            self.with_session(client_id, answer.0),
            match answer.1 {
                Ok(delivery) => Ok((client_id, delivery)),
                Err(message) => Err(message),
            },
        )
    }

    /// Where input at a place of a window goes: the client and the place.
    pub open spec fn targeted(
        self,
        requested: Option<Seq<char>>,
        x: i64,
        y: i64,
        nothing: Seq<char>,
        gone: Seq<char>,
    ) -> Result<(u64, TargetView), Seq<char>> {
        match self.meant_window(requested) {
            Err(message) => Err(message),
            Ok(None) => Err(nothing),
            Ok(Some(window)) => match target_from(
                self.sessions,
                self.client_ids(),
                window.window_id,
                x,
                y,
                0,
            ) {
                Some((client_id, Ok(target))) => Ok((client_id, target)),
                Some((_, Err(message))) => Err(message),
                None => Err(about_window(window.window_id, gone)),
            },
        }
    }

    /// Where input that has no place of its own goes: the client and the
    /// window.
    pub open spec fn focused(
        self,
        requested: Option<Seq<char>>,
        nothing: Seq<char>,
        gone: Seq<char>,
    ) -> Result<(u64, WindowInfoView), Seq<char>> {
        match self.meant_window(requested) {
            Err(message) => Err(message),
            Ok(None) => Err(nothing),
            Ok(Some(window)) => match self.holder(window.window_id) {
                Some(client_id) => Ok((client_id, window)),
                None => Err(about_window(window.window_id, gone)),
            },
        }
    }

    /// A click.
    pub open spec fn clicked(
        self,
        requested: Option<Seq<char>>,
        x: i64,
        y: i64,
        button: u8,
        time: u32,
    ) -> (ServerView, Result<(u64, DeliveryView), Seq<char>>) {
        match self.targeted(
            requested,
            x,
            y,
            "gui_click has no proxied Wayland window to target"@,
            "` disappeared before gui_click could target it"@,
        ) {
            Err(message) => (self, Err(message)),
            Ok((client_id, target)) => self.answered(
                client_id,
                self.sessions[client_id].clicked(target, button, time),
            ),
        }
    }

    /// A motion of the pointer.
    pub open spec fn pointed(self, requested: Option<Seq<char>>, x: i64, y: i64, time: u32) -> (
        ServerView,
        Result<(u64, DeliveryView), Seq<char>>,
    ) {
        match self.targeted(
            requested,
            x,
            y,
            "pointer motion has no proxied Wayland window to target"@,
            "` disappeared before pointer motion could target it"@,
        ) {
            Err(message) => (self, Err(message)),
            Ok((client_id, target)) => self.answered(
                client_id,
                self.sessions[client_id].pointed(target, time),
            ),
        }
    }

    /// Where a pointer event goes. One without a place goes to the window's
    /// input surface.
    pub open spec fn pointer_target(
        self,
        requested: Option<Seq<char>>,
        event: GuiWaylandPointerEvent,
    ) -> Result<(u64, TargetView), Seq<char>> {
        let nothing = "raw Wayland pointer event has no mapped target window"@;
        let gone = "` disappeared before the raw Wayland pointer event could be emitted"@;
        match place_of(event) {
            Some((x, y)) => self.targeted(requested, x, y, nothing, gone),
            None => match self.focused(requested, nothing, gone) {
                Err(message) => Err(message),
                Ok((client_id, window)) => Ok(
                    (
                        client_id,
                        TargetView {
                            window_id: window.window_id,
                            surface_id: window.input_surface_id,
                            screenshot_x: 0,
                            screenshot_y: 0,
                            surface_x: 0,
                            surface_y: 0,
                        },
                    ),
                ),
            },
        }
    }

    /// A pointer event.
    pub open spec fn pointer_emitted(
        self,
        requested: Option<Seq<char>>,
        event: GuiWaylandPointerEvent,
        time: u32,
    ) -> (ServerView, Result<(u64, DeliveryView), Seq<char>>) {
        match self.pointer_target(requested, event) {
            Err(message) => (self, Err(message)),
            Ok((client_id, target)) => self.answered(
                client_id,
                self.sessions[client_id].pointer_emitted(target, event, time),
            ),
        }
    }

    /// A keyboard event.
    pub open spec fn keyboard_emitted(
        self,
        requested: Option<Seq<char>>,
        event: GuiWaylandKeyboardEvent,
        time: u32,
    ) -> (ServerView, Result<(u64, DeliveryView), Seq<char>>) {
        match self.focused(
            requested,
            "raw Wayland keyboard event has no mapped target window"@,
            "` disappeared before the raw Wayland keyboard event could be emitted"@,
        ) {
            Err(message) => (self, Err(message)),
            Ok((client_id, window)) => self.answered(
                client_id,
                self.sessions[client_id].keyboard_emitted(
                    window.window_id,
                    window.input_surface_id,
                    event,
                    time,
                ),
            ),
        }
    }

    /// The keyboard of the client that a text is typed into.
    pub open spec fn keyboard_of(self, requested: Option<Seq<char>>) -> Result<
        KeyboardView,
        Seq<char>,
    > {
        match self.focused(
            requested,
            "typeText has no mapped target window"@,
            "` disappeared before its keyboard map could be inspected"@,
        ) {
            Err(message) => Err(message),
            Ok((client_id, window)) => {
                let client = self.sessions[client_id];
                match client.keymap {
                    None => Err(
                        "typeText cannot target window `"@ + window.window_id
                            + "` because its client has not received an XKB keymap"@,
                    ),
                    Some(keymap) => Ok(
                        KeyboardView {
                            keymap,
                            layout_group: client.layout_group,
                            mods_depressed: client.mods_depressed,
                            mods_latched: client.mods_latched,
                            mods_locked: client.mods_locked,
                        },
                    ),
                }
            },
        }
    }
}

proof fn windows_of_one_are_among_all(
    sessions: Map<u64, SessionView>,
    ids: Seq<u64>,
    info: WindowInfoView,
)
    ensures
        windows_of(sessions, ids).contains(info) == exists|i: int|
            0 <= i < ids.len() && (#[trigger] sessions[ids[i]]).tracker.infos().contains(info),
    decreases ids.len(),
{
    if ids.len() > 0 {
        let rest = ids.drop_last();
        let before = windows_of(sessions, rest);
        let last = sessions[ids.last()].tracker.infos();
        windows_of_one_are_among_all(sessions, rest, info);
        if before.contains(info) {
            let i = choose|i: int|
                0 <= i < rest.len() && (#[trigger] sessions[rest[i]]).tracker.infos().contains(
                    info,
                );
            assert(sessions[ids[i]].tracker.infos().contains(info));
            let at = choose|at: int| 0 <= at < before.len() && before[at] == info;
            assert((before + last)[at] == info);
        }
        if last.contains(info) {
            assert(sessions[ids[ids.len() - 1]].tracker.infos().contains(info));
            let at = choose|at: int| 0 <= at < last.len() && last[at] == info;
            assert((before + last)[before.len() + at] == info);
        }
        if (before + last).contains(info) {
            let at = choose|at: int| 0 <= at < (before + last).len() && (before + last)[at] == info;
            if at < before.len() {
                assert(before[at] == info);
            } else {
                assert(last[at - before.len()] == info);
            }
        }
        if exists|i: int|
            0 <= i < ids.len() && (#[trigger] sessions[ids[i]]).tracker.infos().contains(info) {
            let i = choose|i: int|
                0 <= i < ids.len() && (#[trigger] sessions[ids[i]]).tracker.infos().contains(info);
            if i < rest.len() {
                assert(sessions[rest[i]].tracker.infos().contains(info));
            }
        }
    }
}

/// A window is listed exactly where a connected client has it.
pub proof fn listed_windows_are_of_clients(proxy: ServerView, info: WindowInfoView)
    requires
        proxy.sessions.dom().finite(),
    ensures
        by_serial(proxy.all_windows()).contains(info) == exists|client: u64| #[trigger]
            proxy.sessions.contains_key(client) && proxy.sessions[client].tracker.infos().contains(
                info,
            ),
{
    broadcast use vstd::seq_lib::group_to_multiset_ensures;

    let all = proxy.all_windows();
    let ids = proxy.client_ids();
    all_windows_are_listed_newest_first(all);
    assert(by_serial(all).to_multiset().count(info) == all.to_multiset().count(info));
    table::keys_have_an_order(proxy.sessions.dom());
    windows_of_one_are_among_all(proxy.sessions, ids, info);
    if all.contains(info) {
        let i = choose|i: int|
            0 <= i < ids.len() && (#[trigger] proxy.sessions[ids[i]]).tracker.infos().contains(
                info,
            );
        assert(ids.to_set().contains(ids[i]));
        assert(proxy.sessions.contains_key(ids[i]));
    }
    if exists|client: u64| #[trigger]
        proxy.sessions.contains_key(client) && proxy.sessions[client].tracker.infos().contains(
            info,
        ) {
        let client = choose|client: u64| #[trigger]
            proxy.sessions.contains_key(client) && proxy.sessions[client].tracker.infos().contains(
                info,
            );
        assert(ids.to_set().contains(client));
        let i = choose|i: int| 0 <= i < ids.len() && ids[i] == client;
        assert(proxy.sessions[ids[i]].tracker.infos().contains(info));
    }
}

/// The windows of a client that leaves are not listed any more, and those of the
/// others stay as they are.
pub proof fn windows_leave_with_their_client(
    proxy: ServerView,
    client_id: u64,
    detail: Seq<char>,
    now: u64,
    info: WindowInfoView,
)
    requires
        proxy.sessions.dom().finite(),
    ensures
        by_serial(proxy.client_finished(client_id, detail, now).all_windows()).contains(info)
            == exists|client: u64| #[trigger]
            proxy.sessions.contains_key(client) && client != client_id
                && proxy.sessions[client].tracker.infos().contains(info),
{
    let after = proxy.client_finished(client_id, detail, now);
    assert(after.sessions == proxy.sessions.remove(client_id));
    listed_windows_are_of_clients(after, info);
    if exists|client: u64| #[trigger]
        proxy.sessions.contains_key(client) && client != client_id
            && proxy.sessions[client].tracker.infos().contains(info) {
        let client = choose|client: u64| #[trigger]
            proxy.sessions.contains_key(client) && client != client_id
                && proxy.sessions[client].tracker.infos().contains(info);
        assert(after.sessions.contains_key(client));
    }
    if exists|client: u64| #[trigger]
        after.sessions.contains_key(client) && after.sessions[client].tracker.infos().contains(
            info,
        ) {
        let client = choose|client: u64| #[trigger]
            after.sessions.contains_key(client) && after.sessions[client].tracker.infos().contains(
                info,
            );
        assert(proxy.sessions.contains_key(client));
    }
}

/// The place of a pointer event that has one.
pub open spec fn place_of(event: GuiWaylandPointerEvent) -> Option<(i64, i64)> {
    match event {
        GuiWaylandPointerEvent::Enter { x, y, .. } => Some((x, y)),
        GuiWaylandPointerEvent::Motion { x, y, .. } => Some((x, y)),
        _ => None,
    }
}

/// A client's keyboard.
#[derive(Debug, PartialEq, Eq)]
pub struct Keyboard {
    pub keymap: String,
    pub layout_group: u32,
    pub mods_depressed: u32,
    pub mods_latched: u32,
    pub mods_locked: u32,
}

/// The value of a client's keyboard.
#[verifier::ext_equal]
pub struct KeyboardView {
    pub keymap: Seq<char>,
    pub layout_group: u32,
    pub mods_depressed: u32,
    pub mods_latched: u32,
    pub mods_locked: u32,
}

impl View for Keyboard {
    type V = KeyboardView;

    open spec fn view(&self) -> KeyboardView {
        KeyboardView {
            keymap: self.keymap@,
            layout_group: self.layout_group,
            mods_depressed: self.mods_depressed,
            mods_latched: self.mods_latched,
            mods_locked: self.mods_locked,
        }
    }
}

/// A key with the modifiers that are held with it, as the caller is told.
#[derive(Debug, Clone, Copy, PartialEq, Eq, Structural)]
pub struct GuiKeyboardTextStroke {
    pub key: u32,
    pub modifiers: u32,
}

/// What a text is typed with, as the caller is told: the keys, and what has to
/// be restored afterwards.
#[derive(Debug, PartialEq, Eq)]
pub struct GuiKeyboardTextPlan {
    pub layout_group: u32,
    pub restore_mods_depressed: u32,
    pub restore_mods_latched: u32,
    pub restore_mods_locked: u32,
    pub shift_modifier: Option<u32>,
    pub control_modifier: Option<u32>,
    pub alt_modifier: Option<u32>,
    pub logo_modifier: Option<u32>,
    pub strokes: Vec<GuiKeyboardTextStroke>,
}

/// What the caller is told of a stroke.
pub open spec fn told_stroke(stroke: TextStroke) -> GuiKeyboardTextStroke {
    GuiKeyboardTextStroke { key: stroke.key, modifiers: stroke.modifiers }
}

/// Tells the caller what a text is typed with.
pub fn keyboard_text_plan(keyboard: &Keyboard, plan: TextPlan) -> (told: GuiKeyboardTextPlan)
    ensures
        told.layout_group == keyboard.layout_group,
        told.restore_mods_depressed == keyboard.mods_depressed,
        told.restore_mods_latched == keyboard.mods_latched,
        told.restore_mods_locked == keyboard.mods_locked,
        told.shift_modifier == plan.shift_modifier,
        told.control_modifier == plan.control_modifier,
        told.alt_modifier == plan.alt_modifier,
        told.logo_modifier == plan.logo_modifier,
        told.strokes@ == plan.strokes@.map_values(|stroke: TextStroke| told_stroke(stroke)),
        told.strokes@.len() == plan.strokes@.len(),
        forall|i: int|
            0 <= i < told.strokes@.len() ==> (#[trigger] told.strokes@[i]).key
                == plan.strokes@[i].key && told.strokes@[i].modifiers == plan.strokes@[i].modifiers,
{
    let mut strokes: Vec<GuiKeyboardTextStroke> = Vec::new();
    let mut index: usize = 0;
    while index < plan.strokes.len()
        invariant
            index <= plan.strokes@.len(),
            strokes@.len() == index,
            forall|i: int| 0 <= i < index ==> #[trigger] strokes@[i] == told_stroke(
                plan.strokes@[i],
            ),
        decreases plan.strokes@.len() - index,
    {
        let stroke = plan.strokes[index];
        strokes.push(GuiKeyboardTextStroke { key: stroke.key, modifiers: stroke.modifiers });
        index = index + 1;
    }
    proof {
        assert(strokes@ =~= plan.strokes@.map_values(|stroke: TextStroke| told_stroke(stroke)));
    }
    GuiKeyboardTextPlan {
        layout_group: keyboard.layout_group,
        restore_mods_depressed: keyboard.mods_depressed,
        restore_mods_latched: keyboard.mods_latched,
        restore_mods_locked: keyboard.mods_locked,
        shift_modifier: plan.shift_modifier,
        control_modifier: plan.control_modifier,
        alt_modifier: plan.alt_modifier,
        logo_modifier: plan.logo_modifier,
        strokes,
    }
}

fn window_message(window_id: &str, rest: &str) -> (message: String)
    ensures
        message@ == about_window(window_id@, rest@),
{
    let mut message = "window `".to_owned();
    message.append(window_id);
    message.append(rest);
    message
}

fn insert_by_serial(infos: &mut Vec<GuiWindowInfo>, info: GuiWindowInfo)
    ensures
        surface::info_values(final(infos)@) == surface::info_values(old(infos)@).insert(
            serial_position(surface::info_values(old(infos)@), info@) as int,
            info@,
        ),
{
    let ghost before = surface::info_values(infos@);
    let mut position: usize = infos.len();
    proof {
        assert(before.take(position as int) =~= before);
    }
    while position > 0 && infos[position - 1].commit_serial < info.commit_serial
        invariant
            position <= infos@.len(),
            before == surface::info_values(infos@),
            serial_position(before, info@) == serial_position(before.take(position as int), info@),
        decreases position,
    {
        proof {
            assert(before.take(position as int).drop_last() =~= before.take(position - 1));
            assert(before.take(position as int).last() == infos@[position - 1]@);
        }
        position = position - 1;
    }
    proof {
        if position > 0 {
            assert(before.take(position as int).last() == infos@[position - 1]@);
        }
        assert(serial_position(before, info@) == position);
    }
    let ghost old_infos = infos@;
    infos.insert(position, info);
    proof {
        assert(surface::info_values(infos@) =~= before.insert(position as int, info@));
    }
}

impl WaylandProxyServer {
    fn collect_windows(&self) -> (infos: Vec<GuiWindowInfo>)
        ensures
            surface::info_values(infos@) == self@.all_windows(),
    {
        let keys = self.sessions.keys();
        let mut infos: Vec<GuiWindowInfo> = Vec::new();
        let mut index: usize = 0;
        proof {
            assert(keys@.take(0) =~= Seq::<u64>::empty());
            assert(surface::info_values(infos@) =~= Seq::<WindowInfoView>::empty());
        }
        while index < keys.len()
            invariant
                index <= keys@.len(),
                forall|i: int| 0 <= i < keys@.len() ==> self.sessions@.contains_key(
                    #[trigger] keys@[i],
                ),
                surface::info_values(infos@) == windows_of(
                    self.sessions@,
                    keys@.take(index as int),
                ),
            decreases keys@.len() - index,
        {
            proof {
                assert(keys@.take(index + 1).drop_last() =~= keys@.take(index as int));
                assert(keys@.take(index + 1).last() == keys@[index as int]);
            }
            if let Some(session) = self.sessions.get(keys[index]) {
                let ghost before = infos@;
                let mut own = session.frame_tracker.list_windows();
                let ghost added = own@;
                infos.append(&mut own);
                proof {
                    assert(surface::info_values(infos@) =~= surface::info_values(before)
                        + surface::info_values(added));
                }
            }
            index = index + 1;
        }
        proof {
            assert(keys@.take(index as int) =~= keys@);
        }
        infos
    }

    /// Lists the windows of all clients, the one committed last first.
    pub fn list_windows(&self) -> (infos: Vec<GuiWindowInfo>)
        ensures
            surface::info_values(infos@) == by_serial(self@.all_windows()),
    {
        let collected = self.collect_windows();
        let ghost values = surface::info_values(collected@);
        let mut infos: Vec<GuiWindowInfo> = Vec::new();
        let mut index: usize = 0;
        proof {
            assert(values.take(0) =~= Seq::<WindowInfoView>::empty());
            assert(surface::info_values(infos@) =~= by_serial(values.take(0)));
        }
        while index < collected.len()
            invariant
                index <= collected@.len(),
                values == surface::info_values(collected@),
                surface::info_values(infos@) == by_serial(values.take(index as int)),
            decreases collected@.len() - index,
        {
            proof {
                assert(values.take(index + 1).drop_last() =~= values.take(index as int));
                assert(values.take(index + 1).last() == collected@[index as int]@);
            }
            insert_by_serial(&mut infos, copy_info(&collected[index]));
            index = index + 1;
        }
        proof {
            assert(values.take(index as int) =~= values);
        }
        infos
    }

    /// Lists the windows that are shown.
    pub fn mapped_windows(&self) -> (infos: Vec<GuiWindowInfo>)
        ensures
            surface::info_values(infos@) == self@.mapped_windows(),
    {
        let collected = self.collect_windows();
        let ghost values = surface::info_values(collected@);
        let ghost wanted = |info: WindowInfoView| info.mapped;
        let mut infos: Vec<GuiWindowInfo> = Vec::new();
        let mut index: usize = 0;
        proof {
            reveal(Seq::filter);
            assert(values.take(0) =~= Seq::<WindowInfoView>::empty());
            assert(surface::info_values(infos@) =~= values.take(0).filter(wanted));
        }
        while index < collected.len()
            invariant
                index <= collected@.len(),
                values == surface::info_values(collected@),
                wanted == (|info: WindowInfoView| info.mapped),
                surface::info_values(infos@) == values.take(index as int).filter(wanted),
            decreases collected@.len() - index,
        {
            let info = &collected[index];
            let ghost before = infos@;
            proof {
                reveal(Seq::filter);
                assert(values.take(index + 1).drop_last() =~= values.take(index as int));
                assert(values.take(index + 1).last() == info@);
            }
            if info.mapped {
                infos.push(copy_info(info));
                proof {
                    assert(surface::info_values(infos@) =~= surface::info_values(before).push(
                        info@,
                    ));
                }
            }
            index = index + 1;
        }
        proof {
            assert(values.take(index as int) =~= values);
        }
        infos
    }

    /// Finds the window that a caller means.
    pub fn meant_window(&self, requested: &Option<String>) -> (window: Result<
        Option<GuiWindowInfo>,
        String,
    >)
        ensures
            match self@.meant_window(text::optional(*requested)) {
                Ok(Some(expected)) => window matches Ok(Some(found)) && found@ == expected,
                Ok(None) => window matches Ok(None),
                Err(message) => window matches Err(error) && error@ == message,
            },
    {
        let shown = self.mapped_windows();
        let wanted: Option<&str> = match requested {
            Some(window_id) => Some(window_id.as_str()),
            None => None,
        };
        match select_window_for_screenshot(shown.as_slice(), wanted) {
            Ok(Some(window)) => Ok(Some(copy_info(window))),
            Ok(None) => Ok(None),
            Err(message) => Err(message),
        }
    }

    pub(crate) fn find_holder(&self, window_id: &str) -> (client_id: Option<u64>)
        ensures
            client_id == self@.holder(window_id@),
            client_id matches Some(id) ==> self@.sessions.contains_key(id),
    {
        let keys = self.sessions.keys();
        let mut index: usize = 0;
        while index < keys.len()
            invariant
                index <= keys@.len(),
                forall|i: int| 0 <= i < keys@.len() ==> self.sessions@.contains_key(
                    #[trigger] keys@[i],
                ),
                keys@ == self@.client_ids(),
                self@.holder(window_id@) == holder_from(
                    self@.sessions,
                    keys@,
                    window_id@,
                    index as int,
                ),
            decreases keys@.len() - index,
        {
            if let Some(session) = self.sessions.get(keys[index]) {
                if session.frame_tracker.find_window(window_id).is_some() {
                    return Some(keys[index]);
                }
            }
            index = index + 1;
        }
        None
    }

    fn find_target(&self, window_id: &str, x: i64, y: i64) -> (found: Option<
        (u64, Result<PointerClickTarget, String>),
    >)
        ensures
            match target_from(self@.sessions, self@.client_ids(), window_id@, x, y, 0) {
                None => found is None,
                Some((client_id, expected)) => self@.sessions.contains_key(client_id) && (
                found matches Some((id, target)) && id == client_id && text::outcome(target)
                    == expected),
            },
    {
        let keys = self.sessions.keys();
        let mut index: usize = 0;
        while index < keys.len()
            invariant
                index <= keys@.len(),
                forall|i: int| 0 <= i < keys@.len() ==> self.sessions@.contains_key(
                    #[trigger] keys@[i],
                ),
                keys@ == self@.client_ids(),
                target_from(self@.sessions, keys@, window_id@, x, y, 0) == target_from(
                    self@.sessions,
                    keys@,
                    window_id@,
                    x,
                    y,
                    index as int,
                ),
            decreases keys@.len() - index,
        {
            if let Some(session) = self.sessions.get(keys[index]) {
                match session.frame_tracker.click_target_for_window(window_id, x, y) {
                    Ok(Some(target)) => return Some((keys[index], Ok(target))),
                    Err(message) => return Some((keys[index], Err(message))),
                    Ok(None) => {},
                }
            }
            index = index + 1;
        }
        None
    }

    fn target(
        &self,
        requested: &Option<String>,
        x: i64,
        y: i64,
        nothing: &str,
        gone: &str,
    ) -> (target: Result<(u64, PointerClickTarget), String>)
        ensures
            text::outcome(target) == self@.targeted(
                text::optional(*requested),
                x,
                y,
                nothing@,
                gone@,
            ),
            target matches Ok((client_id, _)) ==> self@.sessions.contains_key(client_id),
    {
        let window = match self.meant_window(requested) {
            Ok(Some(window)) => window,
            Ok(None) => return Err(nothing.to_owned()),
            Err(message) => return Err(message),
        };
        match self.find_target(window.window_id.as_str(), x, y) {
            Some((client_id, Ok(target))) => Ok((client_id, target)),
            Some((_, Err(message))) => Err(message),
            None => Err(window_message(window.window_id.as_str(), gone)),
        }
    }

    fn focus(&self, requested: &Option<String>, nothing: &str, gone: &str) -> (focus: Result<
        (u64, GuiWindowInfo),
        String,
    >)
        ensures
            text::outcome(focus) == self@.focused(text::optional(*requested), nothing@, gone@),
            focus matches Ok((client_id, _)) ==> self@.sessions.contains_key(client_id),
    {
        let window = match self.meant_window(requested) {
            Ok(Some(window)) => window,
            Ok(None) => return Err(nothing.to_owned()),
            Err(message) => return Err(message),
        };
        match self.find_holder(window.window_id.as_str()) {
            Some(client_id) => Ok((client_id, window)),
            None => Err(window_message(window.window_id.as_str(), gone)),
        }
    }

    /// Makes up a new size for a window.
    pub fn resize_window(&mut self, request: &GuiResizeWindowRequest) -> (resize: Result<
        (u64, Resize),
        String,
    >)
        ensures
            final(self)@ == old(self)@.resized(
                request.window_id@,
                request.width,
                request.height,
            ).0,
            text::outcome(resize) == old(self)@.resized(
                request.window_id@,
                request.width,
                request.height,
            ).1,
    {
        if request.width < 1 || request.width > 8192 || request.height < 1 || request.height
            > 8192 {
            return Err("resizeWindow dimensions must be between 1 and 8192".to_owned());
        }
        let client_id: u64 = match self.find_holder(request.window_id.as_str()) {
            Some(client_id) => client_id,
            None => {
                return Err(
                    window_message(request.window_id.as_str(), "` is no longer available"),
                );
            },
        };
        match self.sessions.remove(client_id) {
            Some(session) => {
                let mut session = session;
                let resize = session.resize_window(
                    request.window_id.as_str(),
                    request.width,
                    request.height,
                );
                let ghost told = session@;
                self.sessions.insert(client_id, session);
                proof {
                    assert(self@.sessions =~= old(self)@.sessions.insert(client_id, told));
                }
                match resize {
                    Ok(sent) => Ok((client_id, sent)),
                    Err(message) => Err(message),
                }
            },
            None => Err(window_message(request.window_id.as_str(), "` is no longer available")),
        }
    }

    /// Notes that a new size was sent to a client.
    pub fn note_resize_sent(&mut self, client_id: WaylandClientId, surface_id: u32, serial: u32)
        ensures
            final(self)@ == (if old(self)@.sessions.contains_key(client_id.0) {
                old(self)@.with_session(
                    client_id.0,
                    old(self)@.sessions[client_id.0].resize_sent(surface_id, serial),
                )
            } else {
                old(self)@
            }),
    {
        match self.sessions.remove(client_id.0) {
            Some(session) => {
                let mut session = session;
                session.note_resize_sent(surface_id, serial);
                let ghost told = session@;
                self.sessions.insert(client_id.0, session);
                proof {
                    assert(self@.sessions =~= old(self)@.sessions.insert(client_id.0, told));
                }
            },
            None => {
                proof {
                    assert(self@.sessions =~= old(self)@.sessions);
                }
            },
        }
    }

    /// Makes up a click.
    pub fn inject_click(&mut self, request: &GuiClickRequest, time: u32) -> (delivery: Result<
        (u64, Delivery),
        String,
    >)
        ensures
            ({
                let expected = old(self)@.clicked(
                    text::optional(request.window_id),
                    request.x,
                    request.y,
                    request.button,
                    time,
                );
                final(self)@ == expected.0 && text::outcome(delivery) == expected.1
            }),
    {
        let (client_id, target): (u64, PointerClickTarget) = match self.target(
            &request.window_id,
            request.x,
            request.y,
            "gui_click has no proxied Wayland window to target",
            "` disappeared before gui_click could target it",
        ) {
            Ok(found) => found,
            Err(message) => return Err(message),
        };
        match self.sessions.remove(client_id) {
            Some(session) => {
                let mut session = session;
                let delivery = session.inject_click(target, request.button, time);
                let ghost told = session@;
                self.sessions.insert(client_id, session);
                proof {
                    assert(self@.sessions =~= old(self)@.sessions.insert(client_id, told));
                }
                match delivery {
                    Ok(sent) => Ok((client_id, sent)),
                    Err(message) => Err(message),
                }
            },
            None => Err("the client disappeared".to_owned()),
        }
    }

    /// Makes up a motion of the pointer.
    pub fn inject_pointer_motion(&mut self, request: &GuiPointerMoveRequest, time: u32) -> (delivery:
        Result<(u64, Delivery), String>)
        ensures
            ({
                let expected = old(self)@.pointed(
                    text::optional(request.window_id),
                    request.x,
                    request.y,
                    time,
                );
                final(self)@ == expected.0 && text::outcome(delivery) == expected.1
            }),
    {
        let (client_id, target): (u64, PointerClickTarget) = match self.target(
            &request.window_id,
            request.x,
            request.y,
            "pointer motion has no proxied Wayland window to target",
            "` disappeared before pointer motion could target it",
        ) {
            Ok(found) => found,
            Err(message) => return Err(message),
        };
        match self.sessions.remove(client_id) {
            Some(session) => {
                let mut session = session;
                let delivery = session.inject_pointer_motion(target, time);
                let ghost told = session@;
                self.sessions.insert(client_id, session);
                proof {
                    assert(self@.sessions =~= old(self)@.sessions.insert(client_id, told));
                }
                match delivery {
                    Ok(sent) => Ok((client_id, sent)),
                    Err(message) => Err(message),
                }
            },
            None => Err("the client disappeared".to_owned()),
        }
    }

    fn pointer_target(&self, requested: &Option<String>, event: &GuiWaylandPointerEvent) -> (target:
        Result<(u64, PointerClickTarget), String>)
        ensures
            text::outcome(target) == self@.pointer_target(text::optional(*requested), *event),
            target matches Ok((client_id, _)) ==> self@.sessions.contains_key(client_id),
    {
        let nothing = "raw Wayland pointer event has no mapped target window";
        let gone = "` disappeared before the raw Wayland pointer event could be emitted";
        match event {
            GuiWaylandPointerEvent::Enter { x, y, serial: _ } => self.target(
                requested,
                *x,
                *y,
                nothing,
                gone,
            ),
            GuiWaylandPointerEvent::Motion { x, y, time: _ } => self.target(
                requested,
                *x,
                *y,
                nothing,
                gone,
            ),
            _ => match self.focus(requested, nothing, gone) {
                Ok((client_id, window)) => Ok(
                    (
                        client_id,
                        PointerClickTarget {
                            window_id: window.window_id,
                            surface_id: window.input_surface_id,
                            screenshot_x: 0,
                            screenshot_y: 0,
                            surface_x: 0,
                            surface_y: 0,
                        },
                    ),
                ),
                Err(message) => Err(message),
            },
        }
    }

    /// Makes up a pointer event.
    pub fn emit_wayland_pointer_event(
        &mut self,
        request: &GuiWaylandPointerEventRequest,
        time: u32,
    ) -> (delivery: Result<(u64, Delivery), String>)
        ensures
            ({
                let expected = old(self)@.pointer_emitted(
                    text::optional(request.window_id),
                    request.event,
                    time,
                );
                final(self)@ == expected.0 && text::outcome(delivery) == expected.1
            }),
    {
        let (client_id, target): (u64, PointerClickTarget) = match self.pointer_target(
            &request.window_id,
            &request.event,
        ) {
            Ok(found) => found,
            Err(message) => return Err(message),
        };
        match self.sessions.remove(client_id) {
            Some(session) => {
                let mut session = session;
                let delivery = session.emit_wayland_pointer_event(target, request.event, time);
                let ghost told = session@;
                self.sessions.insert(client_id, session);
                proof {
                    assert(self@.sessions =~= old(self)@.sessions.insert(client_id, told));
                }
                match delivery {
                    Ok(sent) => Ok((client_id, sent)),
                    Err(message) => Err(message),
                }
            },
            None => Err("the client disappeared".to_owned()),
        }
    }

    /// Makes up a keyboard event.
    pub fn emit_wayland_keyboard_event(
        &mut self,
        request: &GuiWaylandKeyboardEventRequest,
        time: u32,
    ) -> (delivery: Result<(u64, Delivery), String>)
        ensures
            ({
                let expected = old(self)@.keyboard_emitted(
                    text::optional(request.window_id),
                    request.event,
                    time,
                );
                final(self)@ == expected.0 && text::outcome(delivery) == expected.1
            }),
    {
        let (client_id, window): (u64, GuiWindowInfo) = match self.focus(
            &request.window_id,
            "raw Wayland keyboard event has no mapped target window",
            "` disappeared before the raw Wayland keyboard event could be emitted",
        ) {
            Ok(found) => found,
            Err(message) => return Err(message),
        };
        match self.sessions.remove(client_id) {
            Some(session) => {
                let mut session = session;
                let delivery = session.emit_wayland_keyboard_event(
                    window.window_id.as_str(),
                    window.input_surface_id,
                    &request.event,
                    time,
                );
                let ghost told = session@;
                self.sessions.insert(client_id, session);
                proof {
                    assert(self@.sessions =~= old(self)@.sessions.insert(client_id, told));
                }
                match delivery {
                    Ok(sent) => Ok((client_id, sent)),
                    Err(message) => Err(message),
                }
            },
            None => Err("the client disappeared".to_owned()),
        }
    }

    /// Finds the keyboard of the client that a text is typed into.
    pub fn keyboard_for_text(&self, requested: &Option<String>) -> (keyboard: Result<
        Keyboard,
        String,
    >)
        ensures
            text::outcome(keyboard) == self@.keyboard_of(text::optional(*requested)),
    {
        let (client_id, window): (u64, GuiWindowInfo) = match self.focus(
            requested,
            "typeText has no mapped target window",
            "` disappeared before its keyboard map could be inspected",
        ) {
            Ok(found) => found,
            Err(message) => return Err(message),
        };
        match self.sessions.get(client_id) {
            Some(session) => match &session.keyboard_keymap_text {
                Some(keymap) => Ok(
                    Keyboard {
                        keymap: keymap.clone(),
                        layout_group: session.keyboard_layout_group,
                        mods_depressed: session.keyboard_mods_depressed,
                        mods_latched: session.keyboard_mods_latched,
                        mods_locked: session.keyboard_mods_locked,
                    },
                ),
                None => {
                    let mut message = "typeText cannot target window `".to_owned();
                    message.append(window.window_id.as_str());
                    message.append("` because its client has not received an XKB keymap");
                    Err(message)
                },
            },
            None => Err("the client disappeared".to_owned()),
        }
    }
}

} // verus!
