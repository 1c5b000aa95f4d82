//! What a caller is told of the windows of a client, and what is needed to
//! click on one or to capture it.

use crate::surface;
use crate::surface::{
    BufferKind, BufferView, GuiWindowInfo, PointerClickTarget, SurfaceView, TargetView,
    TrackedSurface, WindowInfoView, at_least,
};
use crate::table;
use crate::table::Table;
use crate::text;
use crate::text::{append_decimal, append_signed, copy_text, str_eq};
use crate::tracker;
use crate::tracker::{TrackerView, WaylandFrameTracker};
use vstd::prelude::*;
use vstd::string::*;

verus! {

/// Whether a text comes before another in the order of their characters.
pub open spec fn text_before(a: Seq<char>, b: Seq<char>) -> bool
    decreases a.len(),
{
    if b.len() == 0 {
        false
    } else if a.len() == 0 {
        true
    } else if a[0] != b[0] {
        (a[0] as u32) < (b[0] as u32)
    } else {
        text_before(a.drop_first(), b.drop_first())
    }
}

/// Whether a text comes before another in the order of their characters.
pub fn precedes_text(a: &str, b: &str) -> (before: bool)
    ensures
        before == text_before(a@, b@),
{
    let a_len: usize = a.unicode_len();
    let b_len: usize = b.unicode_len();
    let mut index: usize = 0;
    proof {
        assert(a@.skip(0) =~= a@);
        assert(b@.skip(0) =~= b@);
    }
    while index < a_len && index < b_len
        invariant
            a_len == a@.len(),
            b_len == b@.len(),
            index <= a_len,
            index <= b_len,
            text_before(a@, b@) == text_before(a@.skip(index as int), b@.skip(index as int)),
        decreases a_len - index,
    {
        let a_char = a.get_char(index);
        let b_char = b.get_char(index);
        proof {
            assert(a@.skip(index as int).drop_first() =~= a@.skip(index + 1));
            assert(b@.skip(index as int).drop_first() =~= b@.skip(index + 1));
        }
        if a_char != b_char {
            return (a_char as u32) < (b_char as u32);
        }
        index = index + 1;
    }
    index < b_len
}

/// Whether a window is listed before another: the one committed last comes
/// first, and of two committed together the one whose name comes first.
pub open spec fn listed_before(a: WindowInfoView, b: WindowInfoView) -> bool {
    a.commit_serial > b.commit_serial || (a.commit_serial == b.commit_serial && text_before(
        a.window_id,
        b.window_id,
    ))
}

/// Where a window goes among windows that are in order: after all that it does
/// not come before.
pub open spec fn list_position(infos: Seq<WindowInfoView>, info: WindowInfoView) -> nat
    decreases infos.len(),
{
    if infos.len() == 0 {
        0
    } else if !listed_before(info, infos.last()) {
        infos.len()
    } else {
        list_position(infos.drop_last(), info)
    }
}

impl TrackerView {
    /// The surface that shows a window, if it is known.
    pub open spec fn shown_surface(self, number: u64) -> Option<SurfaceView> {
        let id = self.windows[number].wl_surface_id;
        if self.surfaces.contains_key(id) {
            Some(self.surfaces[id])
        } else {
            None
        }
    }

    /// The buffer of a surface, if it is known.
    pub open spec fn buffer_of(self, surface: SurfaceView) -> Option<BufferView> {
        match surface.buffer_id {
            Some(id) => if self.buffers.contains_key(id) {
                Some(self.buffers[id])
            } else {
                None
            },
            None => None,
        }
    }

    /// The buffer that shows a window, if it is known.
    pub open spec fn shown_buffer(self, number: u64) -> Option<BufferView> {
        match self.shown_surface(number) {
            Some(surface) => self.buffer_of(surface),
            None => None,
        }
    }

    /// Whether a window can be captured.
    pub open spec fn can_capture(self, number: u64) -> bool {
        match self.shown_surface(number) {
            Some(surface) => surface.rgba.len() > 0 || (match self.buffer_of(surface) {
                Some(buffer) => buffer.readable(),
                None => false,
            }),
            None => false,
        }
    }

    /// What a caller is told of a window.
    pub open spec fn info(self, number: u64) -> WindowInfoView {
        let window = self.windows[number];
        let surface = self.shown_surface(number);
        let capturable = self.can_capture(number);
        let on_output = window.mapped && window.commit_serial > 0 && capturable;
        WindowInfoView {
            window_id: tracker::window_name(self.prefix, number),
            title: window.title,
            app_id: window.app_id,
            width: surface::at_least_one(window.width),
            height: surface::at_least_one(window.height),
            mapped: window.mapped,
            focused: window.focused,
            commit_serial: window.commit_serial,
            on_capture_output: on_output,
            capture_output_count: if on_output {
                1
            } else {
                0
            },
            on_backend_output: window.output_count > 0,
            backend_output_count: window.output_count,
            buffer_kind: match surface {
                Some(surface) => match surface.buffer_kind {
                    Some(kind) => Some(surface::kind_text(kind)@),
                    None => None,
                },
                None => None,
            },
            sync_state: match surface {
                Some(surface) => surface.sync_text(),
                None => None,
            },
            capturable,
            capture_error: match surface {
                Some(surface) => surface.capture_error,
                None => None,
            },
            render_surface_id: window.wl_surface_id,
            input_surface_id: window.input_surface_id,
            capture_details: match self.shown_buffer(number) {
                Some(buffer) => Some(buffer.details()),
                None => None,
            },
        }
    }

    /// What a caller is told of the windows of these numbers, in the order of
    /// the list.
    pub open spec fn infos_of(self, numbers: Seq<u64>) -> Seq<WindowInfoView>
        decreases numbers.len(),
    {
        if numbers.len() == 0 {
            Seq::empty()
        } else {
            let before = self.infos_of(numbers.drop_last());
            let info = self.info(numbers.last());
            before.insert(list_position(before, info) as int, info)
        }
    }

    /// What a caller is told of all windows.
    pub open spec fn infos(self) -> Seq<WindowInfoView> {
        self.infos_of(table::in_order(self.windows.dom()))
    }

    /// Whether a window has a name.
    pub open spec fn is_named(self, number: u64, window_id: Seq<char>) -> bool {
        self.windows.contains_key(number) && tracker::window_name(self.prefix, number) == window_id
    }

    /// The number of the window that has a name.
    pub open spec fn number_of(self, window_id: Seq<char>) -> Option<u64> {
        if exists|number: u64| #[trigger] self.is_named(number, window_id) {
            Some(choose|number: u64| #[trigger] self.is_named(number, window_id))
        } else {
            None
        }
    }
}

/// Where a window is captured and where the compositor shows it are told apart: the
/// one output of the proxy holds just the committed windows that are mapped and can be
/// captured, whichever outputs of the compositor they are on.
pub proof fn outputs_are_told_apart(known: TrackerView, number: u64)
    ensures
        ({
            let info = known.info(number);
            &&& info.on_capture_output <==> info.mapped && info.capturable && info.commit_serial > 0
            &&& info.capture_output_count == if info.on_capture_output {
                1nat
            } else {
                0nat
            }
            &&& info.on_backend_output <==> info.backend_output_count > 0
            &&& info.backend_output_count == known.windows[number].output_count
        }),
{
}

/// A name leads to one window only: the one that has it.
pub proof fn named_window_is_found(known: TrackerView, number: u64, window_id: Seq<char>)
    requires
        known.is_named(number, window_id),
    ensures
        known.number_of(window_id) == Some(number),
{
    let found = known.number_of(window_id).unwrap();
    assert(known.is_named(found, window_id));
    tracker::window_names_differ(known.prefix, number, found);
}

proof fn list_position_is_within(infos: Seq<WindowInfoView>, info: WindowInfoView)
    ensures
        list_position(infos, info) <= infos.len(),
    decreases infos.len(),
{
    if infos.len() > 0 {
        list_position_is_within(infos.drop_last(), info);
    }
}

/// Whether windows are in the order of their commits, the last one first.
pub open spec fn newest_first(infos: Seq<WindowInfoView>) -> bool {
    forall|i: int, j: int|
        0 <= i <= j < infos.len() ==> (#[trigger] infos[i]).commit_serial >= (
        #[trigger] infos[j]).commit_serial
}

proof fn insertion_keeps_newest_first(infos: Seq<WindowInfoView>, info: WindowInfoView)
    requires
        newest_first(infos),
    ensures
        list_position(infos, info) <= infos.len(),
        forall|i: int|
            0 <= i < list_position(infos, info) ==> (#[trigger] infos[i]).commit_serial
                >= info.commit_serial,
        forall|i: int|
            list_position(infos, info) <= i < infos.len() ==> (#[trigger] infos[i]).commit_serial
                <= info.commit_serial,
    decreases infos.len(),
{
    if infos.len() > 0 && listed_before(info, infos.last()) {
        let rest = infos.drop_last();
        assert(newest_first(rest)) by {
            assert forall|i: int, j: int| 0 <= i <= j < rest.len() implies (
            #[trigger] rest[i]).commit_serial >= (#[trigger] rest[j]).commit_serial by {
                assert(rest[i] == infos[i] && rest[j] == infos[j]);
            }
        }
        insertion_keeps_newest_first(rest, info);
        assert forall|i: int| 0 <= i < list_position(infos, info) implies (
        #[trigger] infos[i]).commit_serial >= info.commit_serial by {
            assert(rest[i] == infos[i]);
        }
        assert forall|i: int| list_position(infos, info) <= i < infos.len() implies (
        #[trigger] infos[i]).commit_serial <= info.commit_serial by {
            if i < rest.len() {
                assert(rest[i] == infos[i]);
            }
        }
    } else if infos.len() > 0 {
        assert forall|i: int| 0 <= i < infos.len() implies (#[trigger] infos[i]).commit_serial
            >= info.commit_serial by {
            assert(infos[infos.len() - 1] == infos.last());
        }
    }
}

/// Whether no two windows have the same name.
pub open spec fn names_differ(infos: Seq<WindowInfoView>) -> bool {
    forall|i: int, j: int|
        0 <= i < j < infos.len() ==> (#[trigger] infos[i]).window_id != (
        #[trigger] infos[j]).window_id
}

/// A window with a name of its own can join others anywhere.
pub proof fn joining_keeps_names_apart(
    infos: Seq<WindowInfoView>,
    info: WindowInfoView,
    position: int,
)
    requires
        names_differ(infos),
        forall|i: int|
            0 <= i < infos.len() ==> (#[trigger] infos[i]).window_id != info.window_id,
        0 <= position <= infos.len(),
    ensures
        names_differ(infos.insert(position, info)),
        forall|i: int|
            0 <= i <= infos.len() ==> (#[trigger] infos.insert(position, info)[i]) == info
                || infos.contains(infos.insert(position, info)[i]),
{
    let after = infos.insert(position, info);
    assert forall|i: int| 0 <= i < after.len() implies (#[trigger] after[i]) == info
        || infos.contains(after[i]) by {
        if i < position {
            assert(after[i] == infos[i]);
        } else if i > position {
            assert(after[i] == infos[i - 1]);
        }
    }
    assert forall|i: int, j: int| 0 <= i < j < after.len() implies (
    #[trigger] after[i]).window_id != (#[trigger] after[j]).window_id by {
        let before_i = if i < position {
            i
        } else {
            i - 1
        };
        let before_j = if j < position {
            j
        } else {
            j - 1
        };
        if i != position {
            assert(after[i] == infos[before_i]);
        }
        if j != position {
            assert(after[j] == infos[before_j]);
        }
    }
}

/// Windows of different numbers are listed under different names, each under that
/// of its number.
pub proof fn listed_windows_are_told_apart(known: TrackerView, numbers: Seq<u64>)
    requires
        forall|i: int, j: int| 0 <= i < j < numbers.len() ==> numbers[i] != numbers[j],
    ensures
        names_differ(known.infos_of(numbers)),
        forall|i: int|
            0 <= i < known.infos_of(numbers).len() ==> exists|k: int|
                0 <= k < numbers.len() && (#[trigger] known.infos_of(numbers)[i])
                    == #[trigger] known.info(numbers[k]),
    decreases numbers.len(),
{
    if numbers.len() > 0 {
        let rest = numbers.drop_last();
        let before = known.infos_of(rest);
        let info = known.info(numbers.last());
        let position = list_position(before, info) as int;
        listed_windows_are_told_apart(known, rest);
        list_position_is_within(before, info);
        assert forall|i: int| 0 <= i < before.len() implies (#[trigger] before[i]).window_id
            != info.window_id by {
            let k = choose|k: int|
                0 <= k < rest.len() && before[i] == #[trigger] known.info(rest[k]);
            if before[i].window_id == info.window_id {
                tracker::window_names_differ(known.prefix, rest[k], numbers.last());
                assert(numbers[k] == numbers[numbers.len() - 1]);
            }
        }
        joining_keeps_names_apart(before, info, position);
        let after = known.infos_of(numbers);
        assert(after == before.insert(position, info));
        assert forall|i: int| 0 <= i < after.len() implies exists|k: int|
            0 <= k < numbers.len() && (#[trigger] after[i]) == #[trigger] known.info(
                numbers[k],
            ) by {
            if after[i] == info {
                assert(after[i] == known.info(numbers[numbers.len() - 1]));
            } else {
                let at = choose|at: int| 0 <= at < before.len() && before[at] == after[i];
                let k = choose|k: int|
                    0 <= k < rest.len() && before[at] == #[trigger] known.info(rest[k]);
                assert(after[i] == known.info(numbers[k]));
            }
        }
    }
}

proof fn codes_differ(a: char, b: char)
    requires
        a != b,
    ensures
        a as u32 != b as u32,
{
}

proof fn text_order_is_total(a: Seq<char>, b: Seq<char>)
    ensures
        a != b ==> text_before(a, b) || text_before(b, a),
    decreases a.len(),
{
    if a.len() > 0 && b.len() > 0 && a[0] == b[0] {
        text_order_is_total(a.drop_first(), b.drop_first());
        if a.drop_first() == b.drop_first() {
            assert(a =~= seq![a[0]] + a.drop_first());
            assert(b =~= seq![b[0]] + b.drop_first());
        }
    } else if a.len() == 0 && b.len() == 0 {
        assert(a =~= b);
    } else if a.len() > 0 && b.len() > 0 {
        codes_differ(a[0], b[0]);
    }
}

proof fn text_order_is_transitive(a: Seq<char>, b: Seq<char>, c: Seq<char>)
    requires
        text_before(a, b),
        text_before(b, c),
    ensures
        text_before(a, c),
    decreases a.len(),
{
    if a.len() > 0 && a[0] == b[0] && b[0] == c[0] {
        text_order_is_transitive(a.drop_first(), b.drop_first(), c.drop_first());
    }
}

proof fn list_order_is_transitive(a: WindowInfoView, b: WindowInfoView, c: WindowInfoView)
    requires
        listed_before(a, b),
        listed_before(b, c),
    ensures
        listed_before(a, c),
{
    if a.commit_serial == b.commit_serial && b.commit_serial == c.commit_serial {
        text_order_is_transitive(a.window_id, b.window_id, c.window_id);
    }
}

/// Whether each window is listed before all that follow it.
pub open spec fn in_list_order(infos: Seq<WindowInfoView>) -> bool {
    forall|i: int, j: int|
        0 <= i < j < infos.len() ==> listed_before(#[trigger] infos[i], #[trigger] infos[j])
}

proof fn insertion_keeps_list_order(infos: Seq<WindowInfoView>, info: WindowInfoView)
    requires
        in_list_order(infos),
        forall|i: int|
            0 <= i < infos.len() ==> (#[trigger] infos[i]).window_id != info.window_id,
    ensures
        list_position(infos, info) <= infos.len(),
        forall|i: int|
            0 <= i < list_position(infos, info) ==> listed_before(#[trigger] infos[i], info),
        forall|i: int|
            list_position(infos, info) <= i < infos.len() ==> listed_before(
                info,
                #[trigger] infos[i],
            ),
    decreases infos.len(),
{
    if infos.len() > 0 {
        let last = infos.last();
        assert(infos[infos.len() - 1] == last);
        if listed_before(info, last) {
            let rest = infos.drop_last();
            assert forall|i: int, j: int| 0 <= i < j < rest.len() implies listed_before(
                #[trigger] rest[i],
                #[trigger] rest[j],
            ) by {
                assert(rest[i] == infos[i] && rest[j] == infos[j]);
            }
            assert forall|i: int| 0 <= i < rest.len() implies (#[trigger] rest[i]).window_id
                != info.window_id by {
                assert(rest[i] == infos[i]);
            }
            insertion_keeps_list_order(rest, info);
            assert forall|i: int| 0 <= i < list_position(infos, info) implies listed_before(
                #[trigger] infos[i],
                info,
            ) by {
                assert(rest[i] == infos[i]);
            }
            assert forall|i: int|
                list_position(infos, info) <= i < infos.len() implies listed_before(
                info,
                #[trigger] infos[i],
            ) by {
                if i < rest.len() {
                    assert(rest[i] == infos[i]);
                }
            }
        } else {
            text_order_is_total(last.window_id, info.window_id);
            assert forall|i: int| 0 <= i < infos.len() implies listed_before(
                #[trigger] infos[i],
                info,
            ) by {
                if i < infos.len() - 1 {
                    list_order_is_transitive(infos[i], last, info);
                }
            }
        }
    }
}

/// The list is in order: the window committed last comes first, and windows of one
/// commit come in the order of their names.
pub proof fn windows_of_one_commit_are_listed_by_name(known: TrackerView, numbers: Seq<u64>)
    requires
        forall|i: int, j: int| 0 <= i < j < numbers.len() ==> numbers[i] != numbers[j],
    ensures
        in_list_order(known.infos_of(numbers)),
        forall|i: int, j: int|
            0 <= i < j < known.infos_of(numbers).len() && known.infos_of(numbers)[i].commit_serial
                == known.infos_of(numbers)[j].commit_serial ==> text_before(
                (#[trigger] known.infos_of(numbers)[i]).window_id,
                (#[trigger] known.infos_of(numbers)[j]).window_id,
            ),
    decreases numbers.len(),
{
    if numbers.len() > 0 {
        let rest = numbers.drop_last();
        let before = known.infos_of(rest);
        let info = known.info(numbers.last());
        let position = list_position(before, info) as int;
        let after = known.infos_of(numbers);
        windows_of_one_commit_are_listed_by_name(known, rest);
        listed_windows_are_told_apart(known, rest);
        assert forall|i: int| 0 <= i < before.len() implies (#[trigger] before[i]).window_id
            != info.window_id by {
            let k = choose|k: int|
                0 <= k < rest.len() && before[i] == #[trigger] known.info(rest[k]);
            if before[i].window_id == info.window_id {
                tracker::window_names_differ(known.prefix, rest[k], numbers.last());
                assert(numbers[k] == numbers[numbers.len() - 1]);
            }
        }
        insertion_keeps_list_order(before, info);
        assert(after == before.insert(position, info));
        assert forall|i: int, j: int| 0 <= i < j < after.len() implies listed_before(
            #[trigger] after[i],
            #[trigger] after[j],
        ) by {
            if j < position {
                assert(after[i] == before[i] && after[j] == before[j]);
            } else if i > position {
                assert(after[i] == before[i - 1] && after[j] == before[j - 1]);
            } else {
                if i < position {
                    assert(after[i] == before[i]);
                }
                if j > position {
                    assert(after[j] == before[j - 1]);
                    if i < position {
                        assert(listed_before(before[i], before[j - 1]));
                    }
                }
            }
        }
    }
}

/// Windows are listed newest first, and each of them once: there are as many
/// entries as windows, and each window has one.
pub proof fn windows_are_listed_newest_first(known: TrackerView, numbers: Seq<u64>)
    ensures
        newest_first(known.infos_of(numbers)),
        known.infos_of(numbers).len() == numbers.len(),
        forall|i: int|
            0 <= i < numbers.len() ==> known.infos_of(numbers).contains(
                known.info(#[trigger] numbers[i]),
            ),
    decreases numbers.len(),
{
    if numbers.len() > 0 {
        let rest = numbers.drop_last();
        let before = known.infos_of(rest);
        let info = known.info(numbers.last());
        let position = list_position(before, info) as int;
        let after = known.infos_of(numbers);
        windows_are_listed_newest_first(known, rest);
        insertion_keeps_newest_first(before, info);
        assert(after == before.insert(position, info));
        assert forall|i: int, j: int| 0 <= i <= j < after.len() implies (
        #[trigger] after[i]).commit_serial >= (#[trigger] after[j]).commit_serial by {
            if j < position {
                assert(after[i] == before[i] && after[j] == before[j]);
            } else if i > position {
                assert(after[i] == before[i - 1] && after[j] == before[j - 1]);
            } else {
                if i < position {
                    assert(after[i] == before[i]);
                }
                if j > position {
                    assert(after[j] == before[j - 1]);
                }
            }
        }
        assert forall|i: int| 0 <= i < numbers.len() implies after.contains(
            known.info(#[trigger] numbers[i]),
        ) by {
            if i < rest.len() {
                assert(rest[i] == numbers[i]);
                let at = choose|at: int| 0 <= at < before.len() && before[at] == known.info(rest[i]);
                if at < position {
                    assert(after[at] == before[at]);
                } else {
                    assert(after[at + 1] == before[at]);
                }
            } else {
                assert(after[position] == info);
            }
        }
    }
}

impl WaylandFrameTracker {
    fn window_info(&self, number: u64, window: &surface::TrackedWindow) -> (info: GuiWindowInfo)
        requires
            self@.windows.contains_key(number),
            window@ == self@.windows[number],
        ensures
            info@ == self@.info(number),
    {
        let surface = self.surface(window.wl_surface_id);
        let buffer = match surface {
            Some(surface) => match surface.buffer_id {
                Some(buffer_id) => self.buffer(buffer_id),
                None => None,
            },
            None => None,
        };
        let capturable = match surface {
            Some(surface) => surface.rgba.len() > 0 || (match buffer {
                Some(buffer) => buffer.has_readback(),
                None => false,
            }),
            None => false,
        };
        let on_output = window.mapped && window.commit_serial > 0 && capturable;
        GuiWindowInfo {
            window_id: self.name_of_window(number),
            title: copy_text(&window.title),
            app_id: copy_text(&window.app_id),
            width: at_least(window.width),
            height: at_least(window.height),
            mapped: window.mapped,
            focused: window.focused,
            commit_serial: window.commit_serial,
            on_capture_output: on_output,
            capture_output_count: if on_output {
                1
            } else {
                0
            },
            on_backend_output: window.output_count > 0,
            backend_output_count: window.output_count,
            buffer_kind: match surface {
                Some(surface) => match surface.buffer_kind {
                    Some(kind) => Some(kind.name().to_owned()),
                    None => None,
                },
                None => None,
            },
            sync_state: match surface {
                Some(surface) => surface.sync_state(),
                None => None,
            },
            capturable,
            capture_error: match surface {
                Some(surface) => copy_text(&surface.capture_error),
                None => None,
            },
            render_surface_id: window.wl_surface_id,
            input_surface_id: window.input_surface_id,
            capture_details: match buffer {
                Some(buffer) => Some(buffer.capture_details()),
                None => None,
            },
        }
    }

    /// Lists the windows, the one committed last first.
    pub fn list_windows(&self) -> (windows: Vec<GuiWindowInfo>)
        ensures
            surface::info_values(windows@) == self@.infos(),
    {
        let numbers = self.window_numbers();
        let mut windows: Vec<GuiWindowInfo> = Vec::new();
        let mut index: usize = 0;
        proof {
            assert(numbers@.take(0) =~= Seq::<u64>::empty());
            assert(surface::info_values(windows@) =~= Seq::<WindowInfoView>::empty());
        }
        while index < numbers.len()
            invariant
                index <= numbers@.len(),
                numbers@.to_set() == self@.windows.dom(),
                surface::info_values(windows@) == self@.infos_of(numbers@.take(index as int)),
            decreases numbers@.len() - index,
        {
            proof {
                assert(numbers@.to_set().contains(numbers@[index as int]));
                assert(numbers@.take(index + 1).drop_last() =~= numbers@.take(index as int));
                assert(numbers@.take(index + 1).last() == numbers@[index as int]);
            }
            if let Some(window) = self.window(numbers[index]) {
                let info = self.window_info(numbers[index], window);
                insert_info(&mut windows, info);
            }
            index = index + 1;
        }
        proof {
            assert(numbers@.take(index as int) =~= numbers@);
        }
        windows
    }

    /// Finds a window by its name.
    pub fn find_window(&self, window_id: &str) -> (found: Option<u64>)
        ensures
            found == self@.number_of(window_id@),
    {
        let numbers = self.window_numbers();
        let mut index: usize = 0;
        while index < numbers.len()
            invariant
                index <= numbers@.len(),
                numbers@.to_set() == self@.windows.dom(),
                forall|i: int|
                    0 <= i < index ==> !self@.is_named(#[trigger] numbers@[i], window_id@),
            decreases numbers@.len() - index,
        {
            let name = self.name_of_window(numbers[index]);
            if str_eq(name.as_str(), window_id) {
                proof {
                    assert(numbers@.to_set().contains(numbers@[index as int]));
                    named_window_is_found(self@, numbers@[index as int], window_id@);
                }
                return Some(numbers[index]);
            }
            index = index + 1;
        }
        proof {
            assert forall|number: u64| !#[trigger] self@.is_named(number, window_id@) by {
                if self@.windows.contains_key(number) {
                    assert(numbers@.to_set().contains(number));
                    let at = choose|at: int| 0 <= at < numbers@.len() && numbers@[at] == number;
                    assert(!self@.is_named(numbers@[at], window_id@));
                }
            }
        }
        None
    }

    /// The surface that shows a window.
    pub fn surface_for_window(&self, window_id: &str) -> (found: Option<&TrackedSurface>)
        ensures
            match found {
                Some(surface) => self@.number_of(window_id@) matches Some(number)
                    && self@.shown_surface(number) == Some(surface@),
                None => match self@.number_of(window_id@) {
                    Some(number) => self@.shown_surface(number) is None,
                    None => true,
                },
            },
    {
        let number: u64 = match self.find_window(window_id) {
            Some(number) => number,
            None => return None,
        };
        proof {
            assert(self@.is_named(number, window_id@));
        }
        match self.window(number) {
            Some(window) => self.surface(window.wl_surface_id),
            None => None,
        }
    }
}

fn insert_info(windows: &mut Vec<GuiWindowInfo>, info: GuiWindowInfo)
    ensures
        surface::info_values(final(windows)@) == surface::info_values(old(windows)@).insert(
            list_position(surface::info_values(old(windows)@), info@) as int,
            info@,
        ),
{
    let mut position: usize = windows.len();
    let ghost values = surface::info_values(windows@);
    proof {
        assert(values.take(position as int) =~= values);
    }
    while position > 0
        invariant
            position <= windows@.len(),
            windows@ == old(windows)@,
            values == surface::info_values(windows@),
            list_position(values, info@) == list_position(values.take(position as int), info@),
        ensures
            position <= windows@.len(),
            position == list_position(values, info@),
        decreases position,
    {
        proof {
            assert(values.take(position as int).drop_last() =~= values.take(position - 1));
            assert(values.take(position as int).last() == windows@[position - 1]@);
        }
        let other = &windows[position - 1];
        let before = info.commit_serial > other.commit_serial || (info.commit_serial
            == other.commit_serial && precedes_text(
            info.window_id.as_str(),
            other.window_id.as_str(),
        ));
        if !before {
            break;
        }
        position = position - 1;
    }
    windows.insert(position, info);
    assert(surface::info_values(windows@) =~= values.insert(position as int, info@));
}

impl TrackerView {
    /// Whether the surface that shows a window has pixels of its own.
    pub open spec fn has_pixels(self, window_id: Seq<char>) -> bool {
        match self.number_of(window_id) {
            Some(number) => match self.shown_surface(number) {
                Some(surface) => surface.rgba.len() > 0,
                None => false,
            },
            None => false,
        }
    }

    /// Whether a window is on an output with pixels of its own.
    pub open spec fn shows_pixels(self, info: WindowInfoView) -> bool {
        info.mapped && info.commit_serial > 0 && self.has_pixels(info.window_id)
    }

    /// Whether a window is on an output of the compositor with a DMA-BUF.
    pub open spec fn shows_dmabuf(self, number: u64) -> bool {
        self.windows.contains_key(number) && self.windows[number].mapped
            && self.windows[number].output_count > 0 && (match self.shown_surface(number) {
            Some(surface) => surface.buffer_kind == Some(BufferKind::Dmabuf),
            None => false,
        })
    }

    /// Whether a serial is the highest with which a surface was committed;
    /// where there is no surface it is zero.
    pub open spec fn is_latest_serial(self, serial: u64) -> bool {
        &&& forall|id: u32| #[trigger]
            self.surfaces.contains_key(id) ==> self.surfaces[id].commit_serial <= serial
        &&& serial == 0 || exists|id: u32| #[trigger]
            self.surfaces.contains_key(id) && self.surfaces[id].commit_serial == serial
    }
}

impl WaylandFrameTracker {
    /// Lists the windows on an output that have pixels of their own.
    pub fn list_capturable_windows(&self) -> (windows: Vec<GuiWindowInfo>)
        ensures
            surface::info_values(windows@) == self@.infos().filter(
                |info: WindowInfoView| self@.shows_pixels(info),
            ),
    {
        let listed = self.list_windows();
        let ghost values = surface::info_values(listed@);
        let ghost wanted = |info: WindowInfoView| self@.shows_pixels(info);
        let mut windows: Vec<GuiWindowInfo> = Vec::new();
        let mut index: usize = 0;
        proof {
            reveal(Seq::filter);
            assert(values.take(0) =~= Seq::<WindowInfoView>::empty());
            assert(surface::info_values(windows@) =~= values.take(0).filter(wanted));
        }
        while index < listed.len()
            invariant
                index <= listed@.len(),
                values == surface::info_values(listed@),
                wanted == (|info: WindowInfoView| self@.shows_pixels(info)),
                surface::info_values(windows@) == values.take(index as int).filter(wanted),
            decreases listed@.len() - index,
        {
            let info = &listed[index];
            let shown = info.mapped && info.commit_serial > 0 && (match self.surface_for_window(
                info.window_id.as_str(),
            ) {
                Some(surface) => surface.rgba.len() > 0,
                None => false,
            });
            proof {
                reveal(Seq::filter);
                assert(values.take(index + 1).drop_last() =~= values.take(index as int));
                assert(values.take(index + 1).last() == info@);
            }
            let ghost before = windows@;
            if shown {
                windows.push(surface::copy_info(info));
                assert(surface::info_values(windows@) =~= surface::info_values(before).push(info@));
            }
            index = index + 1;
        }
        proof {
            assert(values.take(index as int) =~= values);
        }
        windows
    }

    /// Whether any window is on an output of the compositor with a DMA-BUF.
    pub fn has_visible_dmabuf_window(&self) -> (any: bool)
        ensures
            any == (exists|number: u64| #[trigger] self@.shows_dmabuf(number)),
    {
        let numbers = self.window_numbers();
        let mut index: usize = 0;
        while index < numbers.len()
            invariant
                index <= numbers@.len(),
                numbers@.to_set() == self@.windows.dom(),
                forall|i: int| 0 <= i < index ==> !self@.shows_dmabuf(#[trigger] numbers@[i]),
            decreases numbers@.len() - index,
        {
            let shows = match self.window(numbers[index]) {
                Some(window) => window.mapped && window.output_count > 0 && (match self.surface(
                    window.wl_surface_id,
                ) {
                    Some(surface) => match surface.buffer_kind {
                        Some(BufferKind::Dmabuf) => true,
                        _ => false,
                    },
                    None => false,
                }),
                None => false,
            };
            if shows {
                assert(self@.shows_dmabuf(numbers@[index as int]));
                return true;
            }
            index = index + 1;
        }
        proof {
            assert forall|number: u64| !#[trigger] self@.shows_dmabuf(number) by {
                if self@.windows.contains_key(number) {
                    assert(numbers@.to_set().contains(number));
                    let at = choose|at: int| 0 <= at < numbers@.len() && numbers@[at] == number;
                    assert(!self@.shows_dmabuf(numbers@[at]));
                }
            }
        }
        false
    }

    /// The highest serial with which a surface was committed, or zero.
    pub fn latest_commit_serial(&self) -> (serial: u64)
        ensures
            self@.is_latest_serial(serial),
    {
        let ids = self.surface_ids();
        let mut serial: u64 = 0;
        let mut index: usize = 0;
        while index < ids.len()
            invariant
                index <= ids@.len(),
                ids@.to_set() == self@.surfaces.dom(),
                forall|i: int|
                    0 <= i < index ==> self@.surfaces[#[trigger] ids@[i]].commit_serial <= serial,
                serial == 0 || exists|id: u32| #[trigger]
                    self@.surfaces.contains_key(id) && self@.surfaces[id].commit_serial == serial,
            decreases ids@.len() - index,
        {
            proof {
                assert(ids@.to_set().contains(ids@[index as int]));
            }
            if let Some(surface) = self.surface(ids[index]) {
                if surface.commit_serial > serial {
                    serial = surface.commit_serial;
                    assert(self@.surfaces.contains_key(ids@[index as int]));
                }
            }
            index = index + 1;
        }
        proof {
            assert forall|id: u32| #[trigger] self@.surfaces.contains_key(id) implies
                self@.surfaces[id].commit_serial <= serial by {
                assert(ids@.to_set().contains(id));
                let at = choose|at: int| 0 <= at < ids@.len() && ids@[at] == id;
                assert(self@.surfaces[ids@[at]].commit_serial <= serial);
            }
        }
        serial
    }
}

/// The product of two numbers, kept within 64 bits.
pub open spec fn clipped_product(a: int, b: int) -> i64 {
    if a * b > i64::MAX {
        i64::MAX
    } else if a * b < i64::MIN {
        i64::MIN
    } else {
        (a * b) as i64
    }
}

/// A coordinate of `pixels` pixels, in a length that they are scaled to.
pub open spec fn scaled_coordinate(coordinate: i64, logical: u32, pixels: u32) -> i64 {
    let product = clipped_product(coordinate as int, surface::at_least_one(logical) as int) as int;
    (product / surface::at_least_one(pixels) as int) as i64
}

fn scale_coordinate(coordinate: i64, logical: u32, pixels: u32) -> (scaled: i64)
    requires
        coordinate >= 0,
    ensures
        scaled == scaled_coordinate(coordinate, logical, pixels),
        scaled >= 0,
{
    let factor: u32 = at_least(logical);
    let divisor: i64 = at_least(pixels) as i64;
    assert(0 <= coordinate * factor <= 0x7fff_ffff_ffff_ffff * 0xffff_ffff) by (nonlinear_arith)
        requires
            0 <= coordinate <= 0x7fff_ffff_ffff_ffff,
            0 <= factor <= 0xffff_ffff,
    ;
    let product: i128 = coordinate as i128 * factor as i128;
    let clipped: i64 = if product > i64::MAX as i128 {
        i64::MAX
    } else {
        product as i64
    };
    assert(0 <= clipped as int / divisor as int <= clipped) by (nonlinear_arith)
        requires
            0 <= clipped,
            1 <= divisor,
    ;
    clipped / divisor
}

impl TrackerView {
    /// Where a surface lies in the one that it is a part of.
    pub open spec fn offset_of(self, surface_id: u32) -> (i32, i32) {
        if self.surface_position.contains_key(surface_id) {
            self.surface_position[surface_id]
        } else {
            (0i32, 0i32)
        }
    }

    /// A point of a surface as a point of one of its first `steps` ancestors,
    /// or of the surface itself.
    pub open spec fn carried(self, from: u32, to: u32, x: i64, y: i64, steps: nat) -> Option<
        (i64, i64),
    >
        decreases steps,
    {
        if from == to {
            Some((x, y))
        } else if steps == 0 || !self.surface_parent.contains_key(from) {
            None
        } else {
            let offset = self.offset_of(from);
            self.carried(
                self.surface_parent[from],
                to,
                tracker::clipped_sum(x, offset.0 as i64),
                tracker::clipped_sum(y, offset.1 as i64),
                (steps - 1) as nat,
            )
        }
    }

    /// A point of a surface as a point of the surface itself or of an ancestor.
    pub open spec fn translated(self, from: u32, to: u32, x: i64, y: i64) -> Option<(i64, i64)> {
        if exists|steps: nat| (#[trigger] self.carried(from, to, x, y, steps)) is Some {
            self.carried(
                from,
                to,
                x,
                y,
                choose|steps: nat| (#[trigger] self.carried(from, to, x, y, steps)) is Some,
            )
        } else {
            None
        }
    }

    /// Whether a pixel lies in the screenshot of a surface.
    pub open spec fn in_screenshot(surface: SurfaceView, x: i64, y: i64) -> bool {
        0 <= x < surface.width && 0 <= y < surface.height
    }

    /// The point of the surface that a pixel of its screenshot shows.
    pub open spec fn surface_point(surface: SurfaceView, x: i64, y: i64) -> (i64, i64) {
        let logical = match surface.viewport_destination {
            Some(destination) => destination,
            None => (
                surface::at_least_one(surface.width),
                surface::at_least_one(surface.height),
            ),
        };
        (
            scaled_coordinate(x, logical.0, surface.width),
            scaled_coordinate(y, logical.1, surface.height),
        )
    }

    /// Where a click on a pixel of a window's screenshot goes. A pixel that the
    /// screenshot does not have is refused.
    pub open spec fn click_target(self, window_id: Seq<char>, x: i64, y: i64) -> Result<
        Option<TargetView>,
        Seq<char>,
    > {
        match self.number_of(window_id) {
            None => Ok(None),
            Some(number) => {
                let window = self.windows[number];
                match self.shown_surface(number) {
                    None => Err(
                        "missing wl_surface "@ + text::decimal(window.wl_surface_id as nat)
                            + " for window `"@ + window_id + "`"@,
                    ),
                    Some(surface) => if !Self::in_screenshot(surface, x, y) {
                        Err(
                            "click coordinate ("@ + text::signed_decimal(x as int) + ", "@
                                + text::signed_decimal(y as int)
                                + ") is outside screenshot bounds "@ + text::decimal(
                                surface.width as nat,
                            ) + "x"@ + text::decimal(surface.height as nat) + " for window `"@
                                + window_id + "`"@,
                        )
                    } else {
                        let point = Self::surface_point(surface, x, y);
                        match self.translated(
                            window.wl_surface_id,
                            window.input_surface_id,
                            point.0,
                            point.1,
                        ) {
                            None => Err(
                                "cannot translate render surface "@ + text::decimal(
                                    window.wl_surface_id as nat,
                                ) + " coordinates to input surface "@ + text::decimal(
                                    window.input_surface_id as nat,
                                ) + " for window `"@ + window_id + "`"@,
                            ),
                            Some(target) => Ok(
                                Some(
                                    TargetView {
                                        window_id,
                                        surface_id: window.input_surface_id,
                                        screenshot_x: x,
                                        screenshot_y: y,
                                        surface_x: target.0,
                                        surface_y: target.1,
                                    },
                                ),
                            ),
                        }
                    },
                }
            },
        }
    }
}

/// However many steps are allowed, a point is carried to the same point.
pub proof fn carried_is_one_point(
    known: TrackerView,
    from: u32,
    to: u32,
    x: i64,
    y: i64,
    a: nat,
    b: nat,
)
    requires
        known.carried(from, to, x, y, a) is Some,
        known.carried(from, to, x, y, b) is Some,
    ensures
        known.carried(from, to, x, y, a) == known.carried(from, to, x, y, b),
    decreases a,
{
    if from != to {
        let offset = known.offset_of(from);
        carried_is_one_point(
            known,
            known.surface_parent[from],
            to,
            tracker::clipped_sum(x, offset.0 as i64),
            tracker::clipped_sum(y, offset.1 as i64),
            (a - 1) as nat,
            (b - 1) as nat,
        );
    }
}

proof fn closed_set_leads_nowhere(
    known: TrackerView,
    seen: Set<u32>,
    last: u32,
    from: u32,
    to: u32,
    x: i64,
    y: i64,
    steps: nat,
)
    requires
        seen.contains(from) || from == last,
        forall|id: u32| #[trigger]
            seen.contains(id) ==> id != to && known.surface_parent.contains_key(id) && (
            seen.contains(known.surface_parent[id]) || known.surface_parent[id] == last),
        last != to,
        seen.contains(last) || !known.surface_parent.contains_key(last),
    ensures
        known.carried(from, to, x, y, steps) is None,
    decreases steps,
{
    if steps > 0 && known.surface_parent.contains_key(from) {
        let offset = known.offset_of(from);
        closed_set_leads_nowhere(
            known,
            seen,
            last,
            known.surface_parent[from],
            to,
            tracker::clipped_sum(x, offset.0 as i64),
            tracker::clipped_sum(y, offset.1 as i64),
            (steps - 1) as nat,
        );
    }
}

fn clip_sum(a: i64, b: i64) -> (sum: i64)
    ensures
        sum == tracker::clipped_sum(a, b),
{
    let sum: i128 = a as i128 + b as i128;
    if sum > i64::MAX as i128 {
        i64::MAX
    } else if sum < i64::MIN as i128 {
        i64::MIN
    } else {
        sum as i64
    }
}

impl WaylandFrameTracker {
    fn translate(&self, from: u32, to: u32, x: i64, y: i64) -> (point: Option<(i64, i64)>)
        ensures
            point == self@.translated(from, to, x, y),
    {
        let mut seen: Table<u32, bool> = Table::new();
        let mut current: u32 = from;
        let mut current_x: i64 = x;
        let mut current_y: i64 = y;
        let ghost mut taken: nat = 0;
        let count: usize = self.child_count();
        while current != to && !seen.contains(current)
            invariant
                self@.surface_parent.dom().finite(),
                seen@.dom().subset_of(self@.surface_parent.dom()),
                count == self@.surface_parent.dom().len(),
                seen@.contains_key(from) || current == from,
                forall|id: u32| #[trigger]
                    seen@.dom().contains(id) ==> id != to && self@.surface_parent.contains_key(id)
                        && (seen@.dom().contains(self@.surface_parent[id])
                        || self@.surface_parent[id] == current),
                forall|steps: nat|
                    #![trigger self@.carried(current, to, current_x, current_y, steps)]
                    self@.carried(from, to, x, y, steps + taken) == self@.carried(
                        current,
                        to,
                        current_x,
                        current_y,
                        steps,
                    ),
            decreases self@.surface_parent.dom().len() - seen@.dom().len(),
        {
            let parent: u32 = match self.parent(current) {
                Some(parent) => parent,
                None => {
                    proof {
                        assert forall|steps: nat| (#[trigger] self@.carried(
                            from,
                            to,
                            x,
                            y,
                            steps,
                        )) is None by {
                            closed_set_leads_nowhere(
                                self@,
                                seen@.dom(),
                                current,
                                from,
                                to,
                                x,
                                y,
                                steps,
                            );
                        }
                    }
                    return None;
                },
            };
            let offset: (i32, i32) = self.position(current);
            let next_x: i64 = clip_sum(current_x, offset.0 as i64);
            let next_y: i64 = clip_sum(current_y, offset.1 as i64);
            let ghost before = seen@.dom();
            seen.insert(current, true);
            proof {
                assert(seen@.dom() =~= before.insert(current));
                vstd::set_lib::lemma_len_subset(seen@.dom(), self@.surface_parent.dom());
                assert forall|steps: nat|
                    #![trigger self@.carried(parent, to, next_x, next_y, steps)]
                    self@.carried(from, to, x, y, steps + (taken + 1)) == self@.carried(
                        parent,
                        to,
                        next_x,
                        next_y,
                        steps,
                    ) by {
                    assert(self@.carried(current, to, current_x, current_y, steps + 1)
                        == self@.carried(parent, to, next_x, next_y, steps));
                    assert((steps + 1) + taken == steps + (taken + 1));
                }
                taken = taken + 1;
            }
            current = parent;
            current_x = next_x;
            current_y = next_y;
        }
        if current == to {
            proof {
                assert(self@.carried(current, to, current_x, current_y, 0) == Some(
                    (current_x, current_y),
                ));
                assert(self@.carried(from, to, x, y, 0 + taken) == Some((current_x, current_y)));
                let steps = choose|steps: nat|
                    (#[trigger] self@.carried(from, to, x, y, steps)) is Some;
                carried_is_one_point(self@, from, to, x, y, 0 + taken, steps);
            }
            return Some((current_x, current_y));
        }
        proof {
            assert forall|steps: nat| (#[trigger] self@.carried(from, to, x, y, steps)) is None by {
                closed_set_leads_nowhere(self@, seen@.dom(), current, from, to, x, y, steps);
            }
        }
        None
    }

    /// Where a click on a pixel of a window's screenshot goes.
    pub fn click_target_for_window(&self, window_id: &str, x: i64, y: i64) -> (target: Result<
        Option<PointerClickTarget>,
        String,
    >)
        ensures
            match self@.click_target(window_id@, x, y) {
                Ok(Some(expected)) => target matches Ok(Some(found)) && found@ == expected,
                Ok(None) => target matches Ok(None),
                Err(message) => target matches Err(error) && error@ == message,
            },
    {
        let number: u64 = match self.find_window(window_id) {
            Some(number) => number,
            None => return Ok(None),
        };
        proof {
            assert(self@.is_named(number, window_id@));
        }
        let (render_id, input_id): (u32, u32) = match self.window(number) {
            Some(window) => (window.wl_surface_id, window.input_surface_id),
            None => return Ok(None),
        };
        let surface = match self.surface(render_id) {
            Some(surface) => surface,
            None => {
                let mut message = "missing wl_surface ".to_owned();
                append_decimal(&mut message, render_id as u64);
                message.append(" for window `");
                message.append(window_id);
                message.append("`");
                return Err(message);
            },
        };
        if x < 0 || y < 0 || x >= surface.width as i64 || y >= surface.height as i64 {
            let mut message = "click coordinate (".to_owned();
            append_signed(&mut message, x);
            message.append(", ");
            append_signed(&mut message, y);
            message.append(") is outside screenshot bounds ");
            append_decimal(&mut message, surface.width as u64);
            message.append("x");
            append_decimal(&mut message, surface.height as u64);
            message.append(" for window `");
            message.append(window_id);
            message.append("`");
            return Err(message);
        }
        let (logical_width, logical_height): (u32, u32) = match surface.viewport_destination {
            Some(destination) => destination,
            None => (at_least(surface.width), at_least(surface.height)),
        };
        let surface_x: i64 = scale_coordinate(x, logical_width, surface.width);
        let surface_y: i64 = scale_coordinate(y, logical_height, surface.height);
        match self.translate(render_id, input_id, surface_x, surface_y) {
            Some((target_x, target_y)) => Ok(
                Some(
                    PointerClickTarget {
                        window_id: window_id.to_owned(),
                        surface_id: input_id,
                        screenshot_x: x,
                        screenshot_y: y,
                        surface_x: target_x,
                        surface_y: target_y,
                    },
                ),
            ),
            None => {
                let mut message = "cannot translate render surface ".to_owned();
                append_decimal(&mut message, render_id as u64);
                message.append(" coordinates to input surface ");
                append_decimal(&mut message, input_id as u64);
                message.append(" for window `");
                message.append(window_id);
                message.append("`");
                Err(message)
            },
        }
    }
}

/// Coordinates are never clamped: a click is accepted only on a pixel that the
/// window's screenshot has, and then it is that very pixel.
pub proof fn click_keeps_its_pixel(known: TrackerView, window_id: Seq<char>, x: i64, y: i64)
    requires
        known.click_target(window_id, x, y) matches Ok(Some(_)),
    ensures
        ({
            let number = known.number_of(window_id).unwrap();
            let target = known.click_target(window_id, x, y)->Ok_0.unwrap();
            &&& known.number_of(window_id) is Some
            &&& known.shown_surface(number) is Some
            &&& TrackerView::in_screenshot(known.shown_surface(number).unwrap(), x, y)
            &&& target.screenshot_x == x
            &&& target.screenshot_y == y
            &&& target.surface_id == known.windows[number].input_surface_id
        }),
{
}

/// The characters of a text slice that may be absent.
pub open spec fn optional_str(value: Option<&str>) -> Option<Seq<char>> {
    match value {
        Some(content) => Some(content@),
        None => None,
    }
}

/// The first window, from `index` on, that has the name.
pub open spec fn index_named(infos: Seq<WindowInfoView>, window_id: Seq<char>, index: int) -> Option<
    int,
>
    decreases infos.len() - index,
{
    if index < 0 || index >= infos.len() {
        None
    } else if infos[index].window_id == window_id {
        Some(index)
    } else {
        index_named(infos, window_id, index + 1)
    }
}

/// A window in a list of windows to choose from.
pub open spec fn choice_text(info: WindowInfoView) -> Seq<char> {
    let name = match info.title {
        Some(title) => title,
        None => match info.app_id {
            Some(app_id) => app_id,
            None => "unnamed"@,
        },
    };
    info.window_id + " ("@ + name + ", "@ + text::decimal(info.width as nat) + "x"@ + text::decimal(
        info.height as nat,
    ) + ")"@
}

/// The windows to choose from, separated by commas.
pub open spec fn choices_text(infos: Seq<WindowInfoView>) -> Seq<char>
    decreases infos.len(),
{
    if infos.len() == 0 {
        Seq::empty()
    } else {
        choices_text(infos.drop_last()) + (if infos.len() > 1 {
            ", "@
        } else {
            Seq::empty()
        }) + choice_text(infos.last())
    }
}

/// Which of the windows is meant: the one asked for, or the only one. Where
/// there is no window at all, none is.
pub open spec fn selected(infos: Seq<WindowInfoView>, requested: Option<Seq<char>>) -> Result<
    Option<int>,
    Seq<char>,
> {
    if infos.len() == 0 {
        Ok(None)
    } else {
        match requested {
            Some(window_id) => match index_named(infos, window_id, 0) {
                Some(index) => Ok(Some(index)),
                None => Err(
                    "unknown windowId `"@ + window_id
                        + "`; call wayland.windows() to inspect available windows"@,
                ),
            },
            None => if infos.len() == 1 {
                Ok(Some(0))
            } else {
                Err(
                    "multiple Wayland windows are available; call wayland.windows() and provide windowId to wayland.screenshot(). Available windows: "@
                        + choices_text(infos),
                )
            },
        }
    }
}

fn append_choice(message: &mut String, info: &GuiWindowInfo)
    ensures
        final(message)@ == old(message)@ + choice_text(info@),
{
    let mut choice = info.window_id.clone();
    choice.append(" (");
    match &info.title {
        Some(title) => choice.append(title.as_str()),
        None => match &info.app_id {
            Some(app_id) => choice.append(app_id.as_str()),
            None => choice.append("unnamed"),
        },
    }
    choice.append(", ");
    append_decimal(&mut choice, info.width as u64);
    choice.append("x");
    append_decimal(&mut choice, info.height as u64);
    choice.append(")");
    message.append(choice.as_str());
}

/// Picks the window that is meant.
pub fn select_window_for_screenshot<'a>(
    windows: &'a [GuiWindowInfo],
    requested_window_id: Option<&str>,
) -> (selection: Result<Option<&'a GuiWindowInfo>, String>)
    ensures
        match selected(surface::info_values(windows@), optional_str(requested_window_id)) {
            Ok(Some(index)) => 0 <= index < windows@.len() && (selection matches Ok(Some(window))
                && *window == windows@[index]),
            Ok(None) => selection matches Ok(None),
            Err(message) => selection matches Err(error) && error@ == message,
        },
{
    let ghost infos = surface::info_values(windows@);
    if windows.len() == 0 {
        return Ok(None);
    }
    if let Some(window_id) = requested_window_id {
        let mut index: usize = 0;
        while index < windows.len()
            invariant
                index <= windows@.len(),
                infos == surface::info_values(windows@),
                requested_window_id == Some(window_id),
                index_named(infos, window_id@, 0) == index_named(infos, window_id@, index as int),
            decreases windows@.len() - index,
        {
            if str_eq(windows[index].window_id.as_str(), window_id) {
                return Ok(Some(&windows[index]));
            }
            index = index + 1;
        }
        let mut message = "unknown windowId `".to_owned();
        message.append(window_id);
        message.append("`; call wayland.windows() to inspect available windows");
        return Err(message);
    }
    if windows.len() == 1 {
        return Ok(Some(&windows[0]));
    }
    let mut message =
        "multiple Wayland windows are available; call wayland.windows() and provide windowId to wayland.screenshot(). Available windows: ".to_owned();
    let ghost head = message@;
    let mut index: usize = 0;
    proof {
        assert(infos.take(0) =~= Seq::<WindowInfoView>::empty());
        assert(message@ =~= head + choices_text(infos.take(0)));
    }
    while index < windows.len()
        invariant
            index <= windows@.len(),
            infos == surface::info_values(windows@),
            message@ == head + choices_text(infos.take(index as int)),
        decreases windows@.len() - index,
    {
        if index > 0 {
            message.append(", ");
        }
        append_choice(&mut message, &windows[index]);
        index = index + 1;
        proof {
            let shown = infos.take(index as int);
            assert(shown.drop_last() =~= infos.take(index - 1));
            assert(shown.last() == windows@[index - 1]@);
            assert(message@ =~= head + choices_text(shown));
        }
    }
    proof {
        assert(infos.take(index as int) =~= infos);
    }
    Err(message)
}

} // verus!
