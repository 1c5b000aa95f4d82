//! Events that the proxy makes up for a client: clicks, pointer motion, raw
//! pointer and keyboard events, and new sizes of windows.

use crate::messages;
use crate::messages::{EventView, GeneratedEvent, encode_generated_event};
use crate::session;
use crate::session::{SessionView, WaylandClientSession, configure_number};
use crate::surface::{PointerClickTarget, TargetView};
use crate::table;
use crate::text;
use crate::text::{append_decimal, append_signed, str_eq};
use vstd::prelude::*;
use vstd::string::*;

verus! {

/// A pointer event that a caller asks for.
#[derive(Debug, Clone, Copy, PartialEq, Eq, Structural)]
pub enum GuiWaylandPointerEvent {
    Enter { x: i64, y: i64, serial: Option<u32> },
    Motion { x: i64, y: i64, time: Option<u32> },
    Button { button: u32, state: u32, serial: Option<u32>, time: Option<u32> },
    Axis { axis: u32, value: i32, time: Option<u32> },
    AxisSource { axis_source: u32 },
    AxisStop { axis: u32, time: Option<u32> },
    AxisDiscrete { axis: u32, discrete: i32 },
    AxisValue120 { axis: u32, value120: i32 },
    AxisRelativeDirection { axis: u32, direction: u32 },
    Frame,
}

/// A keyboard event that a caller asks for.
#[derive(Debug, PartialEq, Eq)]
pub enum GuiWaylandKeyboardEvent {
    Enter { serial: Option<u32>, keys: Vec<u32> },
    Leave { serial: Option<u32> },
    Key { key: u32, state: u32, serial: Option<u32>, time: Option<u32> },
    Modifiers {
        mods_depressed: u32,
        mods_latched: u32,
        mods_locked: u32,
        group: u32,
        serial: Option<u32>,
    },
    RepeatInfo { rate: i32, delay: i32 },
}

/// Messages for a client, and what the caller is told of them.
pub struct Delivery {
    pub messages: Vec<Vec<u8>>,
    pub report: String,
}

/// The value of messages for a client.
#[verifier::ext_equal]
pub struct DeliveryView {
    pub messages: Seq<Seq<u8>>,
    pub report: Seq<char>,
}

/// The bytes of messages.
pub open spec fn message_values(list: Seq<Vec<u8>>) -> Seq<Seq<u8>> {
    list.map_values(|message: Vec<u8>| message@)
}

impl View for Delivery {
    type V = DeliveryView;

    open spec fn view(&self) -> DeliveryView {
        DeliveryView { messages: message_values(self.messages@), report: self.report@ }
    }
}

/// The values of events.
pub open spec fn event_values(events: Seq<GeneratedEvent>) -> Seq<EventView> {
    events.map_values(|event: GeneratedEvent| event@)
}

/// The messages that tell one object of events.
pub open spec fn to_object(id: u32, events: Seq<EventView>) -> Result<Seq<Seq<u8>>, Seq<char>>
    decreases events.len(),
{
    if events.len() == 0 {
        Ok(Seq::empty())
    } else {
        match to_object(id, events.drop_last()) {
            Err(message) => Err(message),
            Ok(before) => match messages::event_message(id, events.last()) {
                Err(message) => Err(message),
                Ok(bytes) => Ok(before.push(bytes)),
            },
        }
    }
}

/// The messages that tell several objects of events, one object after the
/// other.
pub open spec fn to_objects(ids: Seq<u32>, events: Seq<EventView>) -> Result<
    Seq<Seq<u8>>,
    Seq<char>,
>
    decreases ids.len(),
{
    if ids.len() == 0 {
        Ok(Seq::empty())
    } else {
        match to_objects(ids.drop_last(), events) {
            Err(message) => Err(message),
            Ok(before) => match to_object(ids.last(), events) {
                Err(message) => Err(message),
                Ok(own) => Ok(before + own),
            },
        }
    }
}

/// The values of messages that may not have come about.
pub open spec fn messages_outcome(list: Result<Vec<Vec<u8>>, String>) -> Result<
    Seq<Seq<u8>>,
    Seq<char>,
> {
    match list {
        Ok(messages) => Ok(message_values(messages@)),
        Err(message) => Err(message@),
    }
}

proof fn failed_event_stays(id: u32, events: Seq<EventView>, count: int)
    requires
        0 <= count <= events.len(),
        to_object(id, events.take(count)) is Err,
    ensures
        to_object(id, events) == to_object(id, events.take(count)),
    decreases events.len(),
{
    if count == events.len() {
        assert(events.take(count) =~= events);
    } else {
        assert(events.drop_last().take(count) =~= events.take(count));
        failed_event_stays(id, events.drop_last(), count);
    }
}

proof fn failed_object_stays(ids: Seq<u32>, events: Seq<EventView>, count: int)
    requires
        0 <= count <= ids.len(),
        to_objects(ids.take(count), events) is Err,
    ensures
        to_objects(ids, events) == to_objects(ids.take(count), events),
    decreases ids.len(),
{
    if count == ids.len() {
        assert(ids.take(count) =~= ids);
    } else {
        assert(ids.drop_last().take(count) =~= ids.take(count));
        failed_object_stays(ids.drop_last(), events, count);
    }
}

fn encode_for_object(id: u32, events: &Vec<GeneratedEvent>) -> (encoded: Result<
    Vec<Vec<u8>>,
    String,
>)
    ensures
        messages_outcome(encoded) == to_object(id, event_values(events@)),
{
    let ghost values = event_values(events@);
    let mut list: Vec<Vec<u8>> = Vec::new();
    let mut index: usize = 0;
    proof {
        assert(values.take(0) =~= Seq::<EventView>::empty());
        assert(message_values(list@) =~= Seq::<Seq<u8>>::empty());
    }
    while index < events.len()
        invariant
            index <= events@.len(),
            values == event_values(events@),
            to_object(id, values.take(index as int)) == Ok::<Seq<Seq<u8>>, Seq<char>>(
                message_values(list@),
            ),
        decreases events@.len() - index,
    {
        let ghost before = list@;
        proof {
            assert(values.take(index + 1).drop_last() =~= values.take(index as int));
            assert(values.take(index + 1).last() == events@[index as int]@);
        }
        match encode_generated_event(id, &events[index]) {
            Ok(bytes) => {
                list.push(bytes);
                proof {
                    assert(message_values(list@) =~= message_values(before).push(bytes@));
                }
            },
            Err(message) => {
                proof {
                    failed_event_stays(id, values, index + 1);
                }
                return Err(message);
            },
        }
        index = index + 1;
    }
    proof {
        assert(values.take(index as int) =~= values);
    }
    Ok(list)
}

/// Writes the messages that tell several objects of events.
pub fn encode_for_objects(ids: &Vec<u32>, events: &Vec<GeneratedEvent>) -> (encoded: Result<
    Vec<Vec<u8>>,
    String,
>)
    ensures
        messages_outcome(encoded) == to_objects(ids@, event_values(events@)),
{
    let ghost values = event_values(events@);
    let mut list: Vec<Vec<u8>> = Vec::new();
    let mut index: usize = 0;
    proof {
        assert(ids@.take(0) =~= Seq::<u32>::empty());
        assert(message_values(list@) =~= Seq::<Seq<u8>>::empty());
    }
    while index < ids.len()
        invariant
            index <= ids@.len(),
            values == event_values(events@),
            to_objects(ids@.take(index as int), values) == Ok::<Seq<Seq<u8>>, Seq<char>>(
                message_values(list@),
            ),
        decreases ids@.len() - index,
    {
        let ghost before = list@;
        proof {
            assert(ids@.take(index + 1).drop_last() =~= ids@.take(index as int));
            assert(ids@.take(index + 1).last() == ids@[index as int]);
        }
        match encode_for_object(ids[index], events) {
            Ok(own) => {
                let mut own = own;
                let ghost added = own@;
                list.append(&mut own);
                proof {
                    assert(message_values(list@) =~= message_values(before) + message_values(added));
                }
            },
            Err(message) => {
                proof {
                    failed_object_stays(ids@, values, index + 1);
                }
                return Err(message);
            },
        }
        index = index + 1;
    }
    proof {
        assert(ids@.take(index as int) =~= ids@);
    }
    Ok(list)
}

/// The serial after `serial`; zero is never one.
pub open spec fn serial_after(serial: u32) -> u32 {
    if serial == u32::MAX {
        1
    } else {
        (serial + 1) as u32
    }
}

/// The millisecond after `time`, after the last of which comes the first.
pub open spec fn time_after(time: u32) -> u32 {
    if time == u32::MAX {
        0
    } else {
        (time + 1) as u32
    }
}

/// A number as a 24.8 fixed-point number, kept within its range.
pub open spec fn fixed(value: i64) -> i32 {
    if value * 256 > i32::MAX {
        i32::MAX
    } else if value * 256 < i32::MIN {
        i32::MIN
    } else {
        (value * 256) as i32
    }
}

/// A number as a 24.8 fixed-point number, kept within its range.
pub fn fixed_from_i64(value: i64) -> (number: i32)
    ensures
        number == fixed(value),
{
    let scaled: i128 = value as i128 * 256;
    if scaled > i32::MAX as i128 {
        i32::MAX
    } else if scaled < i32::MIN as i128 {
        i32::MIN
    } else {
        scaled as i32
    }
}

impl SessionView {
    /// After a serial was passed over.
    pub open spec fn serial_skipped(self) -> Self {
        SessionView { next_serial: serial_after(self.next_serial), ..self }
    }

    /// After a serial came with input that a caller sent.
    pub open spec fn serial_injected(self, serial: u32) -> Self {
        SessionView { injected: self.injected.insert(serial, ()), ..self }
    }

    /// After the next serial was used for input that a caller sent.
    pub open spec fn serial_used(self) -> Self {
        self.serial_injected(self.next_serial).serial_skipped()
    }

    /// Whether an object is of an interface, in a version or a later one.
    pub open spec fn is_object(self, id: u32, interface: Seq<char>, version: u32) -> bool {
        self.interfaces[id] == interface && self.version(id) >= version
    }

    /// The objects of an interface, in a version or a later one.
    pub open spec fn objects_of(self, interface: Seq<char>, version: u32) -> Seq<u32> {
        table::in_order(self.interfaces.dom()).filter(
            |id: u32| self.is_object(id, interface, version),
        )
    }
}

impl WaylandClientSession {
    /// Notes a serial that comes with input that a caller sends.
    pub fn note_injected_serial(&mut self, serial: u32)
        ensures
            final(self)@ == old(self)@.serial_injected(serial),
    {
        self.injected_serials.insert(serial, ());
        assert(self@ =~= old(self)@.serial_injected(serial));
    }

    /// Uses the next serial for input that a caller sends.
    pub fn next_synthetic_serial(&mut self) -> (serial: u32)
        ensures
            serial == old(self)@.next_serial,
            final(self)@ == old(self)@.serial_used(),
    {
        let serial: u32 = self.skip_serial();
        self.note_injected_serial(serial);
        assert(self@ =~= old(self)@.serial_used());
        serial
    }

    fn skip_serial(&mut self) -> (serial: u32)
        ensures
            serial == old(self)@.next_serial,
            final(self)@ == old(self)@.serial_skipped(),
    {
        let serial: u32 = self.next_synthetic_serial;
        self.next_synthetic_serial = if serial == u32::MAX {
            1
        } else {
            serial + 1
        };
        serial
    }

    /// Lists the objects of an interface, in a version or a later one.
    pub fn objects_of(&self, interface: &str, version: u32) -> (ids: Vec<u32>)
        ensures
            ids@ == self@.objects_of(interface@, version),
    {
        let keys = self.object_interfaces.keys();
        let ghost wanted = |id: u32| self@.is_object(id, interface@, version);
        let mut ids: Vec<u32> = Vec::new();
        let mut index: usize = 0;
        proof {
            reveal(Seq::filter);
            assert(keys@.take(0) =~= Seq::<u32>::empty());
            assert(ids@ =~= keys@.take(0).filter(wanted));
        }
        while index < keys.len()
            invariant
                index <= keys@.len(),
                forall|i: int| 0 <= i < keys@.len() ==> self.object_interfaces@.contains_key(
                    #[trigger] keys@[i],
                ),
                wanted == (|id: u32| self@.is_object(id, interface@, version)),
                ids@ == keys@.take(index as int).filter(wanted),
            decreases keys@.len() - index,
        {
            let id: u32 = keys[index];
            proof {
                reveal(Seq::filter);
                assert(keys@.take(index + 1).drop_last() =~= keys@.take(index as int));
                assert(keys@.take(index + 1).last() == id);
            }
            if let Some(own) = self.object_interfaces.get(id) {
                if str_eq(own.as_str(), interface) && self.version_of(id) >= version {
                    ids.push(id);
                }
            }
            index = index + 1;
        }
        proof {
            assert(keys@.take(index as int) =~= keys@);
        }
        ids
    }
}

/// A serial is never zero, whichever ones were used before.
pub proof fn serials_are_never_zero(client: SessionView)
    requires
        client.next_serial != 0,
    ensures
        client.serial_used().next_serial != 0,
        client.serial_skipped().next_serial != 0,
{
}

/// A new size for a window on its way: the messages, and the configure whose
/// acknowledgement the proxy takes.
pub struct Resize {
    pub delivery: Delivery,
    pub surface_id: u32,
    pub serial: u32,
}

/// The value of a new size on its way.
#[verifier::ext_equal]
pub struct ResizeView {
    pub delivery: DeliveryView,
    pub surface_id: u32,
    pub serial: u32,
}

impl View for Resize {
    type V = ResizeView;

    open spec fn view(&self) -> ResizeView {
        ResizeView {
            delivery: self.delivery@,
            surface_id: self.surface_id,
            serial: self.serial,
        }
    }
}

/// The messages that tell a window of its new size.
pub open spec fn resize_messages(
    toplevel_id: u32,
    surface_id: u32,
    serial: u32,
    width: u32,
    height: u32,
) -> Result<Seq<Seq<u8>>, Seq<char>> {
    match messages::event_message(
        toplevel_id,
        EventView::XdgToplevelConfigure {
            width: width as i32,
            height: height as i32,
            states: Seq::empty(),
        },
    ) {
        Err(message) => Err(message),
        Ok(toplevel) => match messages::event_message(
            surface_id,
            EventView::XdgSurfaceConfigure { serial },
        ) {
            Err(message) => Err(message),
            Ok(surface) => Ok(seq![toplevel, surface]),
        },
    }
}

impl SessionView {
    /// A new size for a window.
    pub open spec fn resized(self, window_id: Seq<char>, width: u32, height: u32) -> (
        SessionView,
        Result<ResizeView, Seq<char>>,
    ) {
        let quoted = "window `"@ + window_id;
        match self.tracker.number_of(window_id) {
            None => (self, Err(quoted + "` disappeared"@)),
            Some(number) => {
                let window = self.tracker.windows[number];
                if !window.mapped {
                    (self, Err(quoted + "` is not mapped"@))
                } else {
                    match (window.xdg_toplevel_id, window.xdg_surface_id) {
                        (None, _) => (self, Err(quoted + "` is not an xdg_toplevel"@)),
                        (_, None) => (self, Err(quoted + "` has no xdg_surface"@)),
                        (Some(toplevel_id), Some(surface_id)) => {
                            let serial = self.next_serial | 0x8000_0000;
                            let after = self.serial_skipped();
                            if !self.writable {
                                (after, Err("client event stream is unavailable"@))
                            } else {
                                match resize_messages(
                                    toplevel_id,
                                    surface_id,
                                    serial,
                                    width,
                                    height,
                                ) {
                                    Err(message) => (after, Err(message)),
                                    Ok(list) => (
                                        after,
                                        Ok(
                                            ResizeView {
                                                delivery: DeliveryView {
                                                    messages: list,
                                                    report: resize_report(window_id, width, height),
                                                },
                                                surface_id,
                                                serial,
                                            },
                                        ),
                                    ),
                                }
                            }
                        },
                    }
                }
            },
        }
    }

    /// After a new size was sent.
    pub open spec fn resize_sent(self, surface_id: u32, serial: u32) -> Self {
        SessionView {
            configures: self.configures.insert(session::configure_key(surface_id, serial), ()),
            ..self
        }
    }
}

/// What the caller is told of a new size.
pub open spec fn resize_report(window_id: Seq<char>, width: u32, height: u32) -> Seq<char> {
    "sent xdg configure "@ + text::decimal(width as nat) + " x "@ + text::decimal(height as nat)
        + " to window `"@ + window_id
        + "`; inspect a later frame to verify the client applied it"@
}

fn quoted_message(window_id: &str, rest: &str) -> (message: String)
    ensures
        message@ == "window `"@ + window_id@ + rest@,
{
    let mut message = "window `".to_owned();
    message.append(window_id);
    message.append(rest);
    message
}

impl WaylandClientSession {
    /// Makes up a new size for a window.
    pub fn resize_window(&mut self, window_id: &str, width: u32, height: u32) -> (resize: Result<
        Resize,
        String,
    >)
        ensures
            final(self)@ =~= old(self)@.resized(window_id@, width, height).0,
            text::outcome(resize) == old(self)@.resized(window_id@, width, height).1,
    {
        let number: u64 = match self.frame_tracker.find_window(window_id) {
            Some(number) => number,
            None => return Err(quoted_message(window_id, "` disappeared")),
        };
        proof {
            assert(self.frame_tracker@.is_named(number, window_id@));
        }
        let (mapped, toplevel, surface): (bool, Option<u32>, Option<u32>) =
            match self.frame_tracker.window(number) {
            Some(window) => (window.mapped, window.xdg_toplevel_id, window.xdg_surface_id),
            None => return Err(quoted_message(window_id, "` disappeared")),
        };
        if !mapped {
            return Err(quoted_message(window_id, "` is not mapped"));
        }
        let toplevel_id: u32 = match toplevel {
            Some(id) => id,
            None => return Err(quoted_message(window_id, "` is not an xdg_toplevel")),
        };
        let surface_id: u32 = match surface {
            Some(id) => id,
            None => return Err(quoted_message(window_id, "` has no xdg_surface")),
        };
        let serial: u32 = self.skip_serial() | 0x8000_0000;
        if !self.client_event_writer {
            return Err("client event stream is unavailable".to_owned());
        }
        let states: Vec<u8> = Vec::new();
        let configure = GeneratedEvent::XdgToplevelConfigure {
            width: width as i32,
            height: height as i32,
            states,
        };
        proof {
            assert(states@ =~= Seq::<u8>::empty());
        }
        let to_toplevel = match encode_generated_event(toplevel_id, &configure) {
            Ok(bytes) => bytes,
            Err(message) => return Err(message),
        };
        let to_surface = match encode_generated_event(
            surface_id,
            &GeneratedEvent::XdgSurfaceConfigure { serial },
        ) {
            Ok(bytes) => bytes,
            Err(message) => return Err(message),
        };
        let ghost sent = seq![to_toplevel@, to_surface@];
        let mut list: Vec<Vec<u8>> = Vec::new();
        list.push(to_toplevel);
        list.push(to_surface);
        proof {
            assert(message_values(list@) =~= sent);
        }
        let mut report = "sent xdg configure ".to_owned();
        append_decimal(&mut report, width as u64);
        report.append(" x ");
        append_decimal(&mut report, height as u64);
        report.append(" to window `");
        report.append(window_id);
        report.append("`; inspect a later frame to verify the client applied it");
        Ok(Resize { delivery: Delivery { messages: list, report }, surface_id, serial })
    }

    /// Notes that a new size was sent.
    pub fn note_resize_sent(&mut self, surface_id: u32, serial: u32)
        ensures
            final(self)@ == old(self)@.resize_sent(surface_id, serial),
    {
        self.synthetic_configures.insert(configure_number(surface_id, serial), ());
    }
}

/// The code of a mouse button.
pub open spec fn button_code(button: u8) -> Option<u32> {
    match button {
        1 => Some(0x110),
        2 => Some(0x112),
        3 => Some(0x111),
        _ => None,
    }
}

/// The events that move the pointer to a place.
pub open spec fn motion_events(target: TargetView, serial: u32, time: u32) -> Seq<EventView> {
    seq![
        EventView::WlPointerEnter {
            serial,
            surface: Some(target.surface_id),
            surface_x: fixed(target.surface_x),
            surface_y: fixed(target.surface_y),
        },
        EventView::WlPointerMotion {
            time,
            surface_x: fixed(target.surface_x),
            surface_y: fixed(target.surface_y),
        },
        EventView::WlPointerFrame,
    ]
}

/// The events of a click: the pointer moves there, the button is pressed, and
/// it is released a millisecond later.
pub open spec fn click_events(
    target: TargetView,
    button: u32,
    enter: u32,
    press: u32,
    release: u32,
    time: u32,
) -> Seq<EventView> {
    motion_events(target, enter, time) + seq![
        EventView::WlPointerButton { serial: press, time, button, state: 1 },
        EventView::WlPointerFrame,
        EventView::WlPointerButton { serial: release, time: time_after(time), button, state: 0 },
        EventView::WlPointerFrame,
    ]
}

/// What the caller is told of a pointer event at a place.
pub open spec fn pointer_report(head: Seq<char>, resources: nat, middle: Seq<char>, target: TargetView) -> Seq<
    char,
> {
    head + text::decimal(resources) + middle + target.window_id + "`: screenshot pixel ("@
        + text::signed_decimal(target.screenshot_x as int) + ", "@ + text::signed_decimal(
        target.screenshot_y as int,
    ) + ") -> input wl_surface "@ + text::decimal(target.surface_id as nat) + " coordinate ("@
        + text::signed_decimal(target.surface_x as int) + ", "@ + text::signed_decimal(
        target.surface_y as int,
    ) + ")"@
}

/// Messages with what the caller is told of them.
pub open spec fn with_report(list: Result<Seq<Seq<u8>>, Seq<char>>, report: Seq<char>) -> Result<
    DeliveryView,
    Seq<char>,
> {
    match list {
        Ok(messages) => Ok(DeliveryView { messages, report }),
        Err(message) => Err(message),
    }
}

impl SessionView {
    /// A click at a place.
    pub open spec fn clicked(self, target: TargetView, button: u8, time: u32) -> (
        SessionView,
        Result<DeliveryView, Seq<char>>,
    ) {
        let ids = self.objects_of("wl_pointer"@, 0);
        let pressed = self.serial_used();
        let released = pressed.serial_used();
        let after = released.serial_used();
        if ids.len() == 0 {
            (
                self,
                Err(
                    "gui_click cannot inject a Wayland click because the client has no wl_pointer"@,
                ),
            )
        } else {
            match button_code(button) {
                None => (
                    self,
                    Err(
                        "unsupported gui_click button "@ + text::decimal(button as nat)
                            + "; expected 1, 2, or 3"@,
                    ),
                ),
                Some(code) => if !self.writable {
                    (
                        after,
                        Err(
                            "gui_click cannot inject a Wayland click because the client stream is unavailable"@,
                        ),
                    )
                } else {
                    (
                        after,
                        with_report(
                            to_objects(
                                ids,
                                click_events(
                                    target,
                                    code,
                                    self.next_serial,
                                    pressed.next_serial,
                                    released.next_serial,
                                    time,
                                ),
                            ),
                            pointer_report(
                                "delivered button "@ + text::decimal(button as nat)
                                    + " press/release through "@,
                                ids.len(),
                                " wl_pointer resource(s) to window `"@,
                                target,
                            ),
                        ),
                    )
                },
            }
        }
    }

    /// A motion of the pointer to a place.
    pub open spec fn pointed(self, target: TargetView, time: u32) -> (
        SessionView,
        Result<DeliveryView, Seq<char>>,
    ) {
        let ids = self.objects_of("wl_pointer"@, 0);
        if ids.len() == 0 {
            (
                self,
                Err("pointer motion cannot be injected because the client has no wl_pointer"@),
            )
        } else if !self.writable {
            (
                self.serial_used(),
                Err("pointer motion cannot be injected because the client stream is unavailable"@),
            )
        } else {
            (
                self.serial_used(),
                with_report(
                    to_objects(ids, motion_events(target, self.next_serial, time)),
                    pointer_report(
                        "moved pointer through "@,
                        ids.len(),
                        " wl_pointer resource(s) to window `"@,
                        target,
                    ),
                ),
            )
        }
    }
}

fn append_pointer_report(
    report: &mut String,
    resources: usize,
    middle: &str,
    target: &PointerClickTarget,
)
    ensures
        final(report)@ == pointer_report(old(report)@, resources as nat, middle@, target@),
{
    append_decimal(report, resources as u64);
    report.append(middle);
    report.append(target.window_id.as_str());
    report.append("`: screenshot pixel (");
    append_signed(report, target.screenshot_x);
    report.append(", ");
    append_signed(report, target.screenshot_y);
    report.append(") -> input wl_surface ");
    append_decimal(report, target.surface_id as u64);
    report.append(" coordinate (");
    append_signed(report, target.surface_x);
    report.append(", ");
    append_signed(report, target.surface_y);
    report.append(")");
}

fn motion_event_list(target: &PointerClickTarget, serial: u32, time: u32) -> (events: Vec<
    GeneratedEvent,
>)
    ensures
        event_values(events@) == motion_events(target@, serial, time),
{
    let mut events: Vec<GeneratedEvent> = Vec::new();
    events.push(
        GeneratedEvent::WlPointerEnter {
            serial,
            surface: Some(target.surface_id),
            surface_x: fixed_from_i64(target.surface_x),
            surface_y: fixed_from_i64(target.surface_y),
        },
    );
    events.push(
        GeneratedEvent::WlPointerMotion {
            time,
            surface_x: fixed_from_i64(target.surface_x),
            surface_y: fixed_from_i64(target.surface_y),
        },
    );
    events.push(GeneratedEvent::WlPointerFrame);
    proof {
        assert(event_values(events@) =~= motion_events(target@, serial, time));
    }
    events
}

impl WaylandClientSession {
    /// Makes up a click at a place.
    pub fn inject_click(&mut self, target: PointerClickTarget, button: u8, time: u32) -> (delivery:
        Result<Delivery, String>)
        ensures
            final(self)@ =~= old(self)@.clicked(target@, button, time).0,
            text::outcome(delivery) == old(self)@.clicked(target@, button, time).1,
    {
        let pointer_ids = self.objects_of("wl_pointer", 0);
        if pointer_ids.len() == 0 {
            return Err(
                "gui_click cannot inject a Wayland click because the client has no wl_pointer".to_owned(),
            );
        }
        let code: u32 = match button {
            1 => 0x110,
            2 => 0x112,
            3 => 0x111,
            _ => {
                let mut message = "unsupported gui_click button ".to_owned();
                append_decimal(&mut message, button as u64);
                message.append("; expected 1, 2, or 3");
                return Err(message);
            },
        };
        let enter: u32 = self.next_synthetic_serial();
        let press: u32 = self.next_synthetic_serial();
        let release: u32 = self.next_synthetic_serial();
        if !self.client_event_writer {
            return Err(
                "gui_click cannot inject a Wayland click because the client stream is unavailable".to_owned(),
            );
        }
        let mut events = motion_event_list(&target, enter, time);
        let ghost motion = events@;
        let later: u32 = if time == u32::MAX {
            0
        } else {
            time + 1
        };
        events.push(
            GeneratedEvent::WlPointerButton { serial: press, time, button: code, state: 1 },
        );
        events.push(GeneratedEvent::WlPointerFrame);
        events.push(
            GeneratedEvent::WlPointerButton {
                serial: release,
                time: later,
                button: code,
                state: 0,
            },
        );
        events.push(GeneratedEvent::WlPointerFrame);
        proof {
            assert(event_values(events@) =~= event_values(motion) + event_values(
                events@.skip(motion.len() as int),
            ));
            assert(event_values(events@) =~= click_events(
                target@,
                code,
                enter,
                press,
                release,
                time,
            ));
        }
        let list = match encode_for_objects(&pointer_ids, &events) {
            Ok(list) => list,
            Err(message) => return Err(message),
        };
        let mut report = "delivered button ".to_owned();
        append_decimal(&mut report, button as u64);
        report.append(" press/release through ");
        append_pointer_report(
            &mut report,
            pointer_ids.len(),
            " wl_pointer resource(s) to window `",
            &target,
        );
        Ok(Delivery { messages: list, report })
    }

    /// Makes up a motion of the pointer to a place.
    pub fn inject_pointer_motion(&mut self, target: PointerClickTarget, time: u32) -> (delivery:
        Result<Delivery, String>)
        ensures
            final(self)@ =~= old(self)@.pointed(target@, time).0,
            text::outcome(delivery) == old(self)@.pointed(target@, time).1,
    {
        let pointer_ids = self.objects_of("wl_pointer", 0);
        if pointer_ids.len() == 0 {
            return Err(
                "pointer motion cannot be injected because the client has no wl_pointer".to_owned(),
            );
        }
        let enter: u32 = self.next_synthetic_serial();
        if !self.client_event_writer {
            return Err(
                "pointer motion cannot be injected because the client stream is unavailable".to_owned(),
            );
        }
        let events = motion_event_list(&target, enter, time);
        let list = match encode_for_objects(&pointer_ids, &events) {
            Ok(list) => list,
            Err(message) => return Err(message),
        };
        let mut report = "moved pointer through ".to_owned();
        append_pointer_report(
            &mut report,
            pointer_ids.len(),
            " wl_pointer resource(s) to window `",
            &target,
        );
        Ok(Delivery { messages: list, report })
    }
}

} // verus!
