//! Single pointer and keyboard events that a caller asks for by name.

use crate::input;
use crate::input::{
    Delivery, DeliveryView, GuiWaylandKeyboardEvent, GuiWaylandPointerEvent, encode_for_objects,
    fixed_from_i64,
};
use crate::messages::{EventView, GeneratedEvent};
use crate::session::{SessionView, WaylandClientSession};
use crate::surface::{PointerClickTarget, TargetView};
use crate::text;
use crate::text::append_decimal;
use crate::wire;
use crate::wire::write_word;
use vstd::prelude::*;
use vstd::string::*;

verus! {

/// The version from which on a pointer can be told of an event.
pub open spec fn pointer_version(event: GuiWaylandPointerEvent) -> u32 {
    match event {
        GuiWaylandPointerEvent::Enter { .. } => 1,
        GuiWaylandPointerEvent::Motion { .. } => 1,
        GuiWaylandPointerEvent::Button { .. } => 1,
        GuiWaylandPointerEvent::Axis { .. } => 1,
        GuiWaylandPointerEvent::Frame => 5,
        GuiWaylandPointerEvent::AxisSource { .. } => 5,
        GuiWaylandPointerEvent::AxisStop { .. } => 5,
        GuiWaylandPointerEvent::AxisDiscrete { .. } => 5,
        GuiWaylandPointerEvent::AxisValue120 { .. } => 8,
        GuiWaylandPointerEvent::AxisRelativeDirection { .. } => 9,
    }
}

/// The name of a pointer event.
pub open spec fn pointer_name(event: GuiWaylandPointerEvent) -> &'static str {
    match event {
        GuiWaylandPointerEvent::Enter { .. } => "wl_pointer.enter",
        GuiWaylandPointerEvent::Motion { .. } => "wl_pointer.motion",
        GuiWaylandPointerEvent::Button { .. } => "wl_pointer.button",
        GuiWaylandPointerEvent::Axis { .. } => "wl_pointer.axis",
        GuiWaylandPointerEvent::AxisSource { .. } => "wl_pointer.axis_source",
        GuiWaylandPointerEvent::AxisStop { .. } => "wl_pointer.axis_stop",
        GuiWaylandPointerEvent::AxisDiscrete { .. } => "wl_pointer.axis_discrete",
        GuiWaylandPointerEvent::AxisValue120 { .. } => "wl_pointer.axis_value120",
        GuiWaylandPointerEvent::AxisRelativeDirection { .. } => "wl_pointer.axis_relative_direction",
        GuiWaylandPointerEvent::Frame => "wl_pointer.frame",
    }
}

/// The serial of an event: there is none, or the caller gave one or not.
pub enum SerialNeed {
    Without,
    Own(u32),
    Next,
}

/// What is needed where the caller gave a serial or not.
pub open spec fn need_of(own: Option<u32>) -> SerialNeed {
    match own {
        Some(serial) => SerialNeed::Own(serial),
        None => SerialNeed::Next,
    }
}

/// Which serial a pointer event has.
pub open spec fn pointer_serial(event: GuiWaylandPointerEvent) -> SerialNeed {
    match event {
        GuiWaylandPointerEvent::Enter { serial, .. } => need_of(serial),
        GuiWaylandPointerEvent::Button { serial, .. } => need_of(serial),
        _ => SerialNeed::Without,
    }
}

/// What the caller gave, or what stands in for it.
pub open spec fn given(value: Option<u32>, otherwise: u32) -> u32 {
    match value {
        Some(own) => own,
        None => otherwise,
    }
}

/// The event that the pointer is told of. A serial or a time that the caller
/// did not give is `serial` or `time`.
pub open spec fn pointer_event(
    event: GuiWaylandPointerEvent,
    target: TargetView,
    serial: u32,
    time: u32,
) -> EventView {
    match event {
        GuiWaylandPointerEvent::Enter { serial: own, .. } => EventView::WlPointerEnter {
            serial: given(own, serial),
            surface: Some(target.surface_id),
            surface_x: input::fixed(target.surface_x),
            surface_y: input::fixed(target.surface_y),
        },
        GuiWaylandPointerEvent::Motion { time: own, .. } => EventView::WlPointerMotion {
            time: given(own, time),
            surface_x: input::fixed(target.surface_x),
            surface_y: input::fixed(target.surface_y),
        },
        GuiWaylandPointerEvent::Button { button, state, serial: own_serial, time: own_time } =>
            EventView::WlPointerButton {
                serial: given(own_serial, serial),
                time: given(own_time, time),
                button,
                state,
            },
        GuiWaylandPointerEvent::Axis { axis, value, time: own } => EventView::WlPointerAxis {
            time: given(own, time),
            axis,
            value,
        },
        GuiWaylandPointerEvent::AxisSource { axis_source } => EventView::WlPointerAxisSource {
            axis_source,
        },
        GuiWaylandPointerEvent::AxisStop { axis, time: own } => EventView::WlPointerAxisStop {
            time: given(own, time),
            axis,
        },
        GuiWaylandPointerEvent::AxisDiscrete { axis, discrete } =>
            EventView::WlPointerAxisDiscrete { axis, discrete },
        GuiWaylandPointerEvent::AxisValue120 { axis, value120 } =>
            EventView::WlPointerAxisValue120 { axis, value120 },
        GuiWaylandPointerEvent::AxisRelativeDirection { axis, direction } =>
            EventView::WlPointerAxisRelativeDirection { axis, direction },
        GuiWaylandPointerEvent::Frame => EventView::WlPointerFrame,
    }
}

/// The version from which on a keyboard can be told of an event.
pub open spec fn keyboard_version(event: GuiWaylandKeyboardEvent) -> u32 {
    match event {
        GuiWaylandKeyboardEvent::RepeatInfo { .. } => 4,
        _ => 1,
    }
}

/// The name of a keyboard event.
pub open spec fn keyboard_name(event: GuiWaylandKeyboardEvent) -> &'static str {
    match event {
        GuiWaylandKeyboardEvent::Enter { .. } => "wl_keyboard.enter",
        GuiWaylandKeyboardEvent::Leave { .. } => "wl_keyboard.leave",
        GuiWaylandKeyboardEvent::Key { .. } => "wl_keyboard.key",
        GuiWaylandKeyboardEvent::Modifiers { .. } => "wl_keyboard.modifiers",
        GuiWaylandKeyboardEvent::RepeatInfo { .. } => "wl_keyboard.repeat_info",
    }
}

/// Which serial a keyboard event has.
pub open spec fn keyboard_serial(event: GuiWaylandKeyboardEvent) -> SerialNeed {
    match event {
        GuiWaylandKeyboardEvent::Enter { serial, .. } => need_of(serial),
        GuiWaylandKeyboardEvent::Leave { serial } => need_of(serial),
        GuiWaylandKeyboardEvent::Key { serial, .. } => need_of(serial),
        GuiWaylandKeyboardEvent::Modifiers { serial, .. } => need_of(serial),
        GuiWaylandKeyboardEvent::RepeatInfo { .. } => SerialNeed::Without,
    }
}

/// The bytes of the keys that are down.
pub open spec fn key_bytes(keys: Seq<u32>) -> Seq<u8>
    decreases keys.len(),
{
    if keys.len() == 0 {
        Seq::empty()
    } else {
        key_bytes(keys.drop_last()) + wire::word_bytes(keys.last())
    }
}

/// The event that the keyboard is told of.
pub open spec fn keyboard_event(
    event: GuiWaylandKeyboardEvent,
    surface_id: u32,
    serial: u32,
    time: u32,
) -> EventView {
    match event {
        GuiWaylandKeyboardEvent::Enter { serial: own, keys } => EventView::WlKeyboardEnter {
            serial: given(own, serial),
            surface: Some(surface_id),
            keys: key_bytes(keys@),
        },
        GuiWaylandKeyboardEvent::Leave { serial: own } => EventView::WlKeyboardLeave {
            serial: given(own, serial),
            surface: Some(surface_id),
        },
        GuiWaylandKeyboardEvent::Key { key, state, serial: own_serial, time: own_time } =>
            EventView::WlKeyboardKey {
                serial: given(own_serial, serial),
                time: given(own_time, time),
                key,
                state,
            },
        GuiWaylandKeyboardEvent::Modifiers {
            mods_depressed,
            mods_latched,
            mods_locked,
            group,
            serial: own,
        } => EventView::WlKeyboardModifiers {
            serial: given(own, serial),
            mods_depressed,
            mods_latched,
            mods_locked,
            group,
        },
        GuiWaylandKeyboardEvent::RepeatInfo { rate, delay } => EventView::WlKeyboardRepeatInfo {
            rate,
            delay,
        },
    }
}

/// What the caller is told of an event.
pub open spec fn raw_report(
    event_name: Seq<char>,
    resources: nat,
    middle: Seq<char>,
    window_id: Seq<char>,
) -> Seq<char> {
    "emitted "@ + event_name + " through "@ + text::decimal(resources) + middle + window_id + "`"@
}

impl SessionView {
    /// After the serial of an event was taken.
    pub open spec fn serial_taken(self, need: SerialNeed) -> Self {
        match need {
            SerialNeed::Without => self,
            SerialNeed::Own(serial) => self.serial_injected(serial),
            SerialNeed::Next => self.serial_used(),
        }
    }

    /// Events for all objects of an interface, in a version or a later one.
    pub open spec fn emitted(
        self,
        ids: Seq<u32>,
        missing: Seq<char>,
        need: SerialNeed,
        event: EventView,
        report: Seq<char>,
    ) -> (SessionView, Result<DeliveryView, Seq<char>>) {
        let after = self.serial_taken(need);
        if ids.len() == 0 {
            (self, Err(missing))
        } else if !self.writable {
            (
                after,
                Err("raw Wayland event cannot be emitted because the client stream is unavailable"@),
            )
        } else {
            (after, input::with_report(input::to_objects(ids, seq![event]), report))
        }
    }

    /// A pointer event.
    pub open spec fn pointer_emitted(
        self,
        target: TargetView,
        event: GuiWaylandPointerEvent,
        time: u32,
    ) -> (SessionView, Result<DeliveryView, Seq<char>>) {
        let ids = self.objects_of("wl_pointer"@, pointer_version(event));
        self.emitted(
            ids,
            "client has no wl_pointer resource supporting event version "@ + text::decimal(
                pointer_version(event) as nat,
            ),
            pointer_serial(event),
            pointer_event(event, target, self.next_serial, time),
            raw_report(
                pointer_name(event)@,
                ids.len(),
                " wl_pointer resource(s) for window `"@,
                target.window_id,
            ),
        )
    }

    /// A keyboard event.
    pub open spec fn keyboard_emitted(
        self,
        window_id: Seq<char>,
        surface_id: u32,
        event: GuiWaylandKeyboardEvent,
        time: u32,
    ) -> (SessionView, Result<DeliveryView, Seq<char>>) {
        let ids = self.objects_of("wl_keyboard"@, keyboard_version(event));
        self.emitted(
            ids,
            "client has no wl_keyboard resource supporting event version "@ + text::decimal(
                keyboard_version(event) as nat,
            ),
            keyboard_serial(event),
            keyboard_event(event, surface_id, self.next_serial, time),
            raw_report(
                keyboard_name(event)@,
                ids.len(),
                " wl_keyboard resource(s) for window `"@,
                window_id,
            ),
        )
    }
}

fn needed_pointer_version(event: &GuiWaylandPointerEvent) -> (version: u32)
    ensures
        version == pointer_version(*event),
{
    match event {
        GuiWaylandPointerEvent::Enter { .. } => 1,
        GuiWaylandPointerEvent::Motion { .. } => 1,
        GuiWaylandPointerEvent::Button { .. } => 1,
        GuiWaylandPointerEvent::Axis { .. } => 1,
        GuiWaylandPointerEvent::Frame => 5,
        GuiWaylandPointerEvent::AxisSource { .. } => 5,
        GuiWaylandPointerEvent::AxisStop { .. } => 5,
        GuiWaylandPointerEvent::AxisDiscrete { .. } => 5,
        GuiWaylandPointerEvent::AxisValue120 { .. } => 8,
        GuiWaylandPointerEvent::AxisRelativeDirection { .. } => 9,
    }
}

fn name_of_pointer_event(event: &GuiWaylandPointerEvent) -> (name: &'static str)
    ensures
        name@ == pointer_name(*event)@,
{
    match event {
        GuiWaylandPointerEvent::Enter { .. } => "wl_pointer.enter",
        GuiWaylandPointerEvent::Motion { .. } => "wl_pointer.motion",
        GuiWaylandPointerEvent::Button { .. } => "wl_pointer.button",
        GuiWaylandPointerEvent::Axis { .. } => "wl_pointer.axis",
        GuiWaylandPointerEvent::AxisSource { .. } => "wl_pointer.axis_source",
        GuiWaylandPointerEvent::AxisStop { .. } => "wl_pointer.axis_stop",
        GuiWaylandPointerEvent::AxisDiscrete { .. } => "wl_pointer.axis_discrete",
        GuiWaylandPointerEvent::AxisValue120 { .. } => "wl_pointer.axis_value120",
        GuiWaylandPointerEvent::AxisRelativeDirection { .. } => "wl_pointer.axis_relative_direction",
        GuiWaylandPointerEvent::Frame => "wl_pointer.frame",
    }
}

fn name_of_keyboard_event(event: &GuiWaylandKeyboardEvent) -> (name: &'static str)
    ensures
        name@ == keyboard_name(*event)@,
{
    match event {
        GuiWaylandKeyboardEvent::Enter { .. } => "wl_keyboard.enter",
        GuiWaylandKeyboardEvent::Leave { .. } => "wl_keyboard.leave",
        GuiWaylandKeyboardEvent::Key { .. } => "wl_keyboard.key",
        GuiWaylandKeyboardEvent::Modifiers { .. } => "wl_keyboard.modifiers",
        GuiWaylandKeyboardEvent::RepeatInfo { .. } => "wl_keyboard.repeat_info",
    }
}

fn given_or(value: Option<u32>, otherwise: u32) -> (chosen: u32)
    ensures
        chosen == given(value, otherwise),
{
    match value {
        Some(own) => own,
        None => otherwise,
    }
}

fn encode_keys(keys: &Vec<u32>) -> (bytes: Vec<u8>)
    ensures
        bytes@ == key_bytes(keys@),
{
    let mut bytes: Vec<u8> = Vec::new();
    let mut index: usize = 0;
    proof {
        assert(keys@.take(0) =~= Seq::<u32>::empty());
    }
    while index < keys.len()
        invariant
            index <= keys@.len(),
            bytes@ == key_bytes(keys@.take(index as int)),
        decreases keys@.len() - index,
    {
        proof {
            assert(keys@.take(index + 1).drop_last() =~= keys@.take(index as int));
        }
        write_word(&mut bytes, keys[index]);
        index = index + 1;
    }
    proof {
        assert(keys@.take(index as int) =~= keys@);
    }
    bytes
}

fn unsupported(resource: &str, version: u32) -> (message: String)
    ensures
        message@ == resource@ + text::decimal(version as nat),
{
    let mut message = resource.to_owned();
    append_decimal(&mut message, version as u64);
    message
}

fn deliver(
    ids: &Vec<u32>,
    event: GeneratedEvent,
    event_name: &str,
    middle: &str,
    window_id: &str,
) -> (delivery: Result<Delivery, String>)
    ensures
        text::outcome(delivery) == input::with_report(
            input::to_objects(ids@, seq![event@]),
            raw_report(event_name@, ids@.len(), middle@, window_id@),
        ),
{
    let ghost told = event@;
    let mut events: Vec<GeneratedEvent> = Vec::new();
    events.push(event);
    proof {
        assert(input::event_values(events@) =~= seq![told]);
    }
    let list = match encode_for_objects(ids, &events) {
        Ok(list) => list,
        Err(message) => return Err(message),
    };
    let mut report = "emitted ".to_owned();
    report.append(event_name);
    report.append(" through ");
    append_decimal(&mut report, ids.len() as u64);
    report.append(middle);
    report.append(window_id);
    report.append("`");
    Ok(Delivery { messages: list, report })
}

impl WaylandClientSession {
    /// The serial of an event: the one that the caller gave, or the next one.
    fn serial_for(&mut self, own: Option<u32>) -> (serial: u32)
        ensures
            serial == given(own, old(self)@.next_serial),
            final(self)@ == old(self)@.serial_taken(need_of(own)),
    {
        match own {
            Some(serial) => {
                self.note_injected_serial(serial);
                serial
            },
            None => self.next_synthetic_serial(),
        }
    }

    fn make_pointer_event(
        &mut self,
        target: &PointerClickTarget,
        event: &GuiWaylandPointerEvent,
        now: u32,
    ) -> (made: GeneratedEvent)
        ensures
            made@ == pointer_event(*event, target@, old(self)@.next_serial, now),
            final(self)@ == old(self)@.serial_taken(pointer_serial(*event)),
    {
        match event {
            GuiWaylandPointerEvent::Enter { x: _, y: _, serial } => GeneratedEvent::WlPointerEnter {
                serial: self.serial_for(*serial),
                surface: Some(target.surface_id),
                surface_x: fixed_from_i64(target.surface_x),
                surface_y: fixed_from_i64(target.surface_y),
            },
            GuiWaylandPointerEvent::Motion { x: _, y: _, time } => GeneratedEvent::WlPointerMotion {
                time: given_or(*time, now),
                surface_x: fixed_from_i64(target.surface_x),
                surface_y: fixed_from_i64(target.surface_y),
            },
            GuiWaylandPointerEvent::Button { button, state, serial, time } =>
                GeneratedEvent::WlPointerButton {
                    serial: self.serial_for(*serial),
                    time: given_or(*time, now),
                    button: *button,
                    state: *state,
                },
            GuiWaylandPointerEvent::Axis { axis, value, time } => GeneratedEvent::WlPointerAxis {
                time: given_or(*time, now),
                axis: *axis,
                value: *value,
            },
            GuiWaylandPointerEvent::AxisSource { axis_source } =>
                GeneratedEvent::WlPointerAxisSource { axis_source: *axis_source },
            GuiWaylandPointerEvent::AxisStop { axis, time } => GeneratedEvent::WlPointerAxisStop {
                time: given_or(*time, now),
                axis: *axis,
            },
            GuiWaylandPointerEvent::AxisDiscrete { axis, discrete } =>
                GeneratedEvent::WlPointerAxisDiscrete { axis: *axis, discrete: *discrete },
            GuiWaylandPointerEvent::AxisValue120 { axis, value120 } =>
                GeneratedEvent::WlPointerAxisValue120 { axis: *axis, value120: *value120 },
            GuiWaylandPointerEvent::AxisRelativeDirection { axis, direction } =>
                GeneratedEvent::WlPointerAxisRelativeDirection {
                    axis: *axis,
                    direction: *direction,
                },
            GuiWaylandPointerEvent::Frame => GeneratedEvent::WlPointerFrame,
        }
    }

    fn make_keyboard_event(
        &mut self,
        surface_id: u32,
        event: &GuiWaylandKeyboardEvent,
        now: u32,
    ) -> (made: GeneratedEvent)
        ensures
            made@ == keyboard_event(*event, surface_id, old(self)@.next_serial, now),
            final(self)@ == old(self)@.serial_taken(keyboard_serial(*event)),
    {
        match event {
            GuiWaylandKeyboardEvent::Enter { serial, keys } => {
                let bytes = encode_keys(keys);
                GeneratedEvent::WlKeyboardEnter {
                    serial: self.serial_for(*serial),
                    surface: Some(surface_id),
                    keys: bytes,
                }
            },
            GuiWaylandKeyboardEvent::Leave { serial } => GeneratedEvent::WlKeyboardLeave {
                serial: self.serial_for(*serial),
                surface: Some(surface_id),
            },
            GuiWaylandKeyboardEvent::Key { key, state, serial, time } =>
                GeneratedEvent::WlKeyboardKey {
                    serial: self.serial_for(*serial),
                    time: given_or(*time, now),
                    key: *key,
                    state: *state,
                },
            GuiWaylandKeyboardEvent::Modifiers {
                mods_depressed,
                mods_latched,
                mods_locked,
                group,
                serial,
            } => GeneratedEvent::WlKeyboardModifiers {
                serial: self.serial_for(*serial),
                mods_depressed: *mods_depressed,
                mods_latched: *mods_latched,
                mods_locked: *mods_locked,
                group: *group,
            },
            GuiWaylandKeyboardEvent::RepeatInfo { rate, delay } =>
                GeneratedEvent::WlKeyboardRepeatInfo { rate: *rate, delay: *delay },
        }
    }

    /// Makes up a pointer event.
    pub fn emit_wayland_pointer_event(
        &mut self,
        target: PointerClickTarget,
        event: GuiWaylandPointerEvent,
        time: u32,
    ) -> (delivery: Result<Delivery, String>)
        ensures
            final(self)@ =~= old(self)@.pointer_emitted(target@, event, time).0,
            text::outcome(delivery) == old(self)@.pointer_emitted(target@, event, time).1,
    {
        let version: u32 = needed_pointer_version(&event);
        let pointer_ids = self.objects_of("wl_pointer", version);
        if pointer_ids.len() == 0 {
            return Err(
                unsupported("client has no wl_pointer resource supporting event version ", version),
            );
        }
        let generated = self.make_pointer_event(&target, &event, time);
        if !self.client_event_writer {
            return Err(
                "raw Wayland event cannot be emitted because the client stream is unavailable".to_owned(),
            );
        }
        deliver(
            &pointer_ids,
            generated,
            name_of_pointer_event(&event),
            " wl_pointer resource(s) for window `",
            target.window_id.as_str(),
        )
    }

    /// Makes up a keyboard event.
    pub fn emit_wayland_keyboard_event(
        &mut self,
        window_id: &str,
        surface_id: u32,
        event: &GuiWaylandKeyboardEvent,
        time: u32,
    ) -> (delivery: Result<Delivery, String>)
        ensures
            final(self)@ =~= old(self)@.keyboard_emitted(window_id@, surface_id, *event, time).0,
            text::outcome(delivery) == old(self)@.keyboard_emitted(
                window_id@,
                surface_id,
                *event,
                time,
            ).1,
    {
        let version: u32 = match event {
            GuiWaylandKeyboardEvent::RepeatInfo { .. } => 4,
            _ => 1,
        };
        let keyboard_ids = self.objects_of("wl_keyboard", version);
        if keyboard_ids.len() == 0 {
            return Err(
                unsupported(
                    "client has no wl_keyboard resource supporting event version ",
                    version,
                ),
            );
        }
        let generated = self.make_keyboard_event(surface_id, event, time);
        if !self.client_event_writer {
            return Err(
                "raw Wayland event cannot be emitted because the client stream is unavailable".to_owned(),
            );
        }
        deliver(
            &keyboard_ids,
            generated,
            name_of_keyboard_event(event),
            " wl_keyboard resource(s) for window `",
            window_id,
        )
    }
}

/// What the caller gave for an event is what the client is told: a serial and a
/// time of the caller's own are neither replaced nor used up.
pub proof fn own_serial_and_time_are_kept(
    client: SessionView,
    target: TargetView,
    button: u32,
    state: u32,
    serial: u32,
    time: u32,
    now: u32,
)
    ensures
        ({
            let event = GuiWaylandPointerEvent::Button {
                button,
                state,
                serial: Some(serial),
                time: Some(time),
            };
            &&& client.pointer_emitted(target, event, now).0.next_serial == client.next_serial
            &&& pointer_event(event, target, client.next_serial, now)
                == EventView::WlPointerButton { serial, time, button, state }
        }),
{
}

} // verus!
