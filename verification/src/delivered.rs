//! What clients receive when a caller sends input to their windows, word by word as
//! the protocol has it.

use crate::desktop;
use crate::input;
use crate::input::{DeliveryView, GuiWaylandKeyboardEvent, GuiWaylandPointerEvent};
use crate::layout;
use crate::messages;
use crate::messages::EventView;
use crate::raw_input;
use crate::server::ServerView;
use crate::session::SessionView;
use crate::surface::TargetView;
use crate::table;
use crate::table::Key;
use crate::wire;
use crate::wire::ArgView;
use vstd::prelude::*;

verus! {

/// Each object is told of all events, one after the other.
pub proof fn each_object_is_told(ids: Seq<u32>, events: Seq<EventView>, i: int, j: int)
    requires
        input::to_objects(ids, events) is Ok,
        0 <= i < ids.len(),
        0 <= j < events.len(),
    ensures
        input::to_objects(ids, events)->Ok_0.len() == ids.len() * events.len(),
        messages::event_message(ids[i], events[j]) == Ok::<Seq<u8>, Seq<char>>(
            input::to_objects(ids, events)->Ok_0[i * events.len() + j],
        ),
    decreases ids.len(),
{
    let rest = ids.drop_last();
    let before = input::to_objects(rest, events)->Ok_0;
    let own = input::to_object(ids.last(), events)->Ok_0;
    let count = events.len() as int;
    object_is_told(
        ids.last(),
        events,
        if i == rest.len() {
            j
        } else {
            0
        },
    );
    assert(ids.len() * count == rest.len() * count + count) by (nonlinear_arith)
        requires
            ids.len() == rest.len() + 1,
    ;
    if rest.len() > 0 {
        each_object_is_told(
            rest,
            events,
            if i < rest.len() {
                i
            } else {
                0
            },
            if i < rest.len() {
                j
            } else {
                0
            },
        );
    } else {
        assert(before =~= Seq::<Seq<u8>>::empty());
        assert(rest.len() * count == 0) by (nonlinear_arith)
            requires
                rest.len() == 0,
        ;
    }
    if i < rest.len() {
        assert(0 <= i * count + j < rest.len() * count) by (nonlinear_arith)
            requires
                0 <= i < rest.len(),
                0 <= j < count,
        ;
        assert((before + own)[i * count + j] == before[i * count + j]);
    } else {
        assert((before + own)[i * count + j] == own[j]);
    }
}

proof fn object_is_told(id: u32, events: Seq<EventView>, j: int)
    requires
        input::to_object(id, events) is Ok,
        0 <= j < events.len(),
    ensures
        input::to_object(id, events)->Ok_0.len() == events.len(),
        messages::event_message(id, events[j]) == Ok::<Seq<u8>, Seq<char>>(
            input::to_object(id, events)->Ok_0[j],
        ),
    decreases events.len(),
{
    let rest = events.drop_last();
    if rest.len() > 0 {
        object_is_told(
            id,
            rest,
            if j < rest.len() {
                j
            } else {
                0
            },
        );
    } else {
        assert(input::to_object(id, rest)->Ok_0 =~= Seq::<Seq<u8>>::empty());
    }
}

/// Whether a message is a wl_pointer.enter.
pub open spec fn is_enter(
    message: Seq<u8>,
    pointer: u32,
    serial: u32,
    surface: u32,
    x: i32,
    y: i32,
) -> bool {
    layout::reads_as(message, pointer, 0, seq![serial, surface, x as u32, y as u32])
}

/// Whether a message is a wl_pointer.motion.
pub open spec fn is_motion(message: Seq<u8>, pointer: u32, time: u32, x: i32, y: i32) -> bool {
    layout::reads_as(message, pointer, 2, seq![time, x as u32, y as u32])
}

/// Whether a message is a wl_pointer.button.
pub open spec fn is_button(
    message: Seq<u8>,
    pointer: u32,
    serial: u32,
    time: u32,
    button: u32,
    state: u32,
) -> bool {
    layout::reads_as(message, pointer, 3, seq![serial, time, button, state])
}

/// Whether a message is a wl_pointer.frame.
pub open spec fn is_frame(message: Seq<u8>, pointer: u32) -> bool {
    layout::reads_as(message, pointer, 5, Seq::empty())
}

proof fn event_reads_as(id: u32, event: EventView, words: Seq<u32>)
    requires
        wire::args_bytes(messages::event_args(event)) == wire::args_bytes(layout::word_args(words)),
        8 + 4 * words.len() <= 0xffff,
        messages::event_message(id, event) is Ok,
    ensures
        layout::reads_as(
            messages::event_message(id, event)->Ok_0,
            id,
            messages::event_opcode(event),
            words,
        ),
{
    layout::words_are_laid_out(
        id,
        messages::event_opcode(event),
        messages::event_args(event),
        words,
    );
}

/// A coordinate is told in units of a 256th.
pub proof fn coordinates_are_told_in_256ths(value: i64)
    ensures
        -0x80_0000 <= value < 0x80_0000 ==> input::fixed(value) == 256 * value,
        value >= 0x80_0000 ==> input::fixed(value) == i32::MAX,
        value < -0x80_0000 ==> input::fixed(value) == i32::MIN,
{
}

/// The serials of a client follow each other, and zero is left out.
pub open spec fn next(serial: u32) -> u32 {
    if serial == 0xffff_ffff {
        1
    } else {
        (serial + 1) as u32
    }
}

proof fn click_messages(client: SessionView, target: TargetView, button: u8, time: u32, i: int)
    requires
        client.clicked(target, button, time).1 is Ok,
        0 <= i < client.objects_of("wl_pointer"@, 0).len(),
    ensures
        ({
            let pointers = client.objects_of("wl_pointer"@, 0);
            let sent = client.clicked(target, button, time).1->Ok_0.messages;
            let events = input::click_events(
                target,
                input::button_code(button).unwrap(),
                client.next_serial,
                client.serial_used().next_serial,
                client.serial_used().serial_used().next_serial,
                time,
            );
            &&& input::button_code(button) is Some
            &&& events.len() == 7
            &&& sent.len() == 7 * pointers.len()
            &&& forall|j: int|
                0 <= j < 7 ==> messages::event_message(pointers[i], #[trigger] events[j]) == Ok::<
                    Seq<u8>,
                    Seq<char>,
                >(sent[7 * i + j])
        }),
{
    let pointers = client.objects_of("wl_pointer"@, 0);
    let events = input::click_events(
        target,
        input::button_code(button).unwrap(),
        client.next_serial,
        client.serial_used().next_serial,
        client.serial_used().serial_used().next_serial,
        time,
    );
    let sent = client.clicked(target, button, time).1->Ok_0.messages;
    assert(events.len() == 7);
    assert forall|j: int| 0 <= j < 7 implies messages::event_message(
        pointers[i],
        #[trigger] events[j],
    ) == Ok::<Seq<u8>, Seq<char>>(sent[7 * i + j]) by {
        each_object_is_told(pointers, events, i, j);
        assert(i * 7 == 7 * i);
    }
    each_object_is_told(pointers, events, i, 0);
}

#[verifier::spinoff_prover]
#[verifier::rlimit(60)]
proof fn client_is_clicked(client: SessionView, target: TargetView, button: u8, time: u32, i: int)
    requires
        client.clicked(target, button, time).1 is Ok,
        0 <= i < client.objects_of("wl_pointer"@, 0).len(),
    ensures
        ({
            let pointers = client.objects_of("wl_pointer"@, 0);
            let messages = client.clicked(target, button, time).1->Ok_0.messages;
            let enter = client.next_serial;
            let code = if button == 1 {
                0x110u32
            } else if button == 2 {
                0x112u32
            } else {
                0x111u32
            };
            let x = input::fixed(target.surface_x);
            let y = input::fixed(target.surface_y);
            let later = if time == 0xffff_ffff {
                0u32
            } else {
                (time + 1) as u32
            };
            &&& messages.len() == 7 * pointers.len()
            &&& is_enter(messages[7 * i], pointers[i], enter, target.surface_id, x, y)
            &&& is_motion(messages[7 * i + 1], pointers[i], time, x, y)
            &&& is_frame(messages[7 * i + 2], pointers[i])
            &&& is_button(messages[7 * i + 3], pointers[i], next(enter), time, code, 1)
            &&& is_frame(messages[7 * i + 4], pointers[i])
            &&& is_button(messages[7 * i + 5], pointers[i], next(next(enter)), later, code, 0)
            &&& is_frame(messages[7 * i + 6], pointers[i])
            &&& 1 <= button <= 3
        }),
{
    let pointers = client.objects_of("wl_pointer"@, 0);
    let events = input::click_events(
        target,
        input::button_code(button).unwrap(),
        client.next_serial,
        client.serial_used().next_serial,
        client.serial_used().serial_used().next_serial,
        time,
    );
    click_messages(client, target, button, time, i);
    let sent = client.clicked(target, button, time).1->Ok_0.messages;
    motion_reads_as(pointers[i], target, client.next_serial, time);
    frame_reads_as(pointers[i]);
    assert(messages::event_message(pointers[i], events[0]) == Ok::<Seq<u8>, Seq<char>>(
        sent[7 * i],
    ));
    assert(messages::event_message(pointers[i], events[1]) is Ok);
    assert(messages::event_message(pointers[i], events[2]) is Ok);
    assert(messages::event_message(pointers[i], events[3]) is Ok);
    button_reads_as(pointers[i], events[3]);
    assert(messages::event_message(pointers[i], events[4]) is Ok);
    assert(messages::event_message(pointers[i], events[5]) is Ok);
    button_reads_as(pointers[i], events[5]);
    assert(messages::event_message(pointers[i], events[6]) is Ok);
}

proof fn motion_reads_as(id: u32, target: TargetView, serial: u32, time: u32)
    ensures
        ({
            let events = input::motion_events(target, serial, time);
            let x = input::fixed(target.surface_x);
            let y = input::fixed(target.surface_y);
            &&& events.len() == 3
            &&& messages::event_message(id, events[0]) matches Ok(message) ==> is_enter(
                message,
                id,
                serial,
                target.surface_id,
                x,
                y,
            )
            &&& messages::event_message(id, events[1]) matches Ok(message) ==> is_motion(
                message,
                id,
                time,
                x,
                y,
            )
            &&& messages::event_message(id, events[2]) matches Ok(message) ==> is_frame(message, id)
        }),
{
    let events = input::motion_events(target, serial, time);
    let x = input::fixed(target.surface_x);
    let y = input::fixed(target.surface_y);
    layout::one_word_each(
        messages::event_args(events[0]),
        seq![serial, target.surface_id, x as u32, y as u32],
    );
    layout::one_word_each(messages::event_args(events[1]), seq![time, x as u32, y as u32]);
    if messages::event_message(id, events[0]) is Ok {
        event_reads_as(id, events[0], seq![serial, target.surface_id, x as u32, y as u32]);
    }
    if messages::event_message(id, events[1]) is Ok {
        event_reads_as(id, events[1], seq![time, x as u32, y as u32]);
    }
    frame_reads_as(id);
}

proof fn frame_reads_as(id: u32)
    ensures
        messages::event_message(id, EventView::WlPointerFrame) matches Ok(message) ==> is_frame(
            message,
            id,
        ),
{
    layout::one_word_each(messages::event_args(EventView::WlPointerFrame), Seq::<u32>::empty());
    if messages::event_message(id, EventView::WlPointerFrame) is Ok {
        event_reads_as(id, EventView::WlPointerFrame, Seq::empty());
    }
}

proof fn button_reads_as(id: u32, event: EventView)
    requires
        event is WlPointerButton,
        messages::event_message(id, event) is Ok,
    ensures
        event matches EventView::WlPointerButton { serial, time, button, state } ==> is_button(
            messages::event_message(id, event)->Ok_0,
            id,
            serial,
            time,
            button,
            state,
        ),
{
    if let EventView::WlPointerButton { serial, time, button, state } = event {
        layout::one_word_each(messages::event_args(event), seq![serial, time, button, state]);
        event_reads_as(id, event, seq![serial, time, button, state]);
    }
}

/// A click is a press and a release: each pointer of the client comes to the place,
/// is told that the button with the code of the one that was asked for is down, and
/// then, with a later serial, that it is up again. No button stays down.
pub proof fn click_presses_and_releases(
    proxy: ServerView,
    requested: Option<Seq<char>>,
    x: i64,
    y: i64,
    button: u8,
    time: u32,
    i: int,
)
    requires
        proxy.clicked(requested, x, y, button, time).1 is Ok,
        0 <= i < proxy.sessions[proxy.clicked(requested, x, y, button, time).1->Ok_0.0].objects_of(
            "wl_pointer"@,
            0,
        ).len(),
    ensures
        ({
            let (client_id, sent) = proxy.clicked(requested, x, y, button, time).1->Ok_0;
            let client = proxy.sessions[client_id];
            let pointers = client.objects_of("wl_pointer"@, 0);
            let enter = client.next_serial;
            let code = if button == 1 {
                0x110u32
            } else if button == 2 {
                0x112u32
            } else {
                0x111u32
            };
            let later = if time == 0xffff_ffff {
                0u32
            } else {
                (time + 1) as u32
            };
            &&& 1 <= button <= 3
            &&& sent.messages.len() == 7 * pointers.len()
            &&& is_frame(sent.messages[7 * i + 2], pointers[i])
            &&& is_button(sent.messages[7 * i + 3], pointers[i], next(enter), time, code, 1)
            &&& is_frame(sent.messages[7 * i + 4], pointers[i])
            &&& is_button(
                sent.messages[7 * i + 5],
                pointers[i],
                next(next(enter)),
                later,
                code,
                0,
            )
            &&& is_frame(sent.messages[7 * i + 6], pointers[i])
            &&& exists|target: TargetView|
                #![trigger input::fixed(target.surface_x)]
                {
                    &&& target.screenshot_x == x
                    &&& target.screenshot_y == y
                    &&& client.tracker.click_target(target.window_id, x, y) == Ok::<
                        Option<TargetView>,
                        Seq<char>,
                    >(Some(target))
                    &&& requested matches Some(window_id) ==> target.window_id == window_id
                    &&& is_enter(
                        sent.messages[7 * i],
                        pointers[i],
                        enter,
                        target.surface_id,
                        input::fixed(target.surface_x),
                        input::fixed(target.surface_y),
                    )
                    &&& is_motion(
                        sent.messages[7 * i + 1],
                        pointers[i],
                        time,
                        input::fixed(target.surface_x),
                        input::fixed(target.surface_y),
                    )
                }
        }),
{
    let (client_id, target) = proxy.targeted(
        requested,
        x,
        y,
        "gui_click has no proxied Wayland window to target"@,
        "` disappeared before gui_click could target it"@,
    )->Ok_0;
    place_is_meant(
        proxy,
        requested,
        x,
        y,
        "gui_click has no proxied Wayland window to target"@,
        "` disappeared before gui_click could target it"@,
    );
    client_is_clicked(proxy.sessions[client_id], target, button, time, i);
    assert(input::fixed(target.surface_x) == input::fixed(target.surface_x));
}

/// Input at a place of a window goes to the window that was asked for, on the pixel
/// that was asked for, in the client that has it.
pub proof fn place_is_meant(
    proxy: ServerView,
    requested: Option<Seq<char>>,
    x: i64,
    y: i64,
    nothing: Seq<char>,
    gone: Seq<char>,
)
    requires
        proxy.targeted(requested, x, y, nothing, gone) is Ok,
    ensures
        ({
            let (client_id, target) = proxy.targeted(requested, x, y, nothing, gone)->Ok_0;
            &&& proxy.client_ids().contains(client_id)
            &&& target.screenshot_x == x
            &&& target.screenshot_y == y
            &&& requested matches Some(window_id) ==> target.window_id == window_id
            &&& proxy.sessions[client_id].tracker.click_target(target.window_id, x, y) == Ok::<
                Option<TargetView>,
                Seq<char>,
            >(Some(target))
        }),
{
    let window = proxy.meant_window(requested)->Ok_0.unwrap();
    named_window_is_meant(proxy, requested);
    place_is_found(proxy, window.window_id, x, y, 0);
}

proof fn place_is_found(proxy: ServerView, window_id: Seq<char>, x: i64, y: i64, index: int)
    requires
        0 <= index,
        desktop::target_from(
            proxy.sessions,
            proxy.client_ids(),
            window_id,
            x,
            y,
            index,
        ) matches Some((_, Ok(_))),
    ensures
        desktop::target_from(
            proxy.sessions,
            proxy.client_ids(),
            window_id,
            x,
            y,
            index,
        ) matches Some((client_id, Ok(target))) ==> proxy.client_ids().contains(client_id)
            && target.window_id == window_id && target.screenshot_x == x && target.screenshot_y == y
            && proxy.sessions[client_id].tracker.click_target(window_id, x, y) == Ok::<
            Option<TargetView>,
            Seq<char>,
        >(Some(target)),
    decreases proxy.client_ids().len() - index,
{
    let ids = proxy.client_ids();
    if index < ids.len() {
        match proxy.sessions[ids[index]].tracker.click_target(window_id, x, y) {
            Ok(None) => {
                place_is_found(proxy, window_id, x, y, index + 1);
            },
            _ => {},
        }
    }
}

proof fn name_is_found(infos: Seq<crate::surface::WindowInfoView>, window_id: Seq<char>, index: int)
    requires
        0 <= index,
    ensures
        crate::windows::index_named(infos, window_id, index) matches Some(found) ==> index <= found
            < infos.len() && infos[found].window_id == window_id,
        crate::windows::index_named(infos, window_id, index) is None ==> forall|i: int|
            index <= i < infos.len() ==> (#[trigger] infos[i]).window_id != window_id,
    decreases infos.len() - index,
{
    if index < infos.len() {
        name_is_found(infos, window_id, index + 1);
    }
}

/// The window that is meant is mapped, and it is the one that was asked for where one
/// was; where none was, it is the only one. A name that no mapped window has is refused,
/// as is none where there are several.
pub proof fn named_window_is_meant(proxy: ServerView, requested: Option<Seq<char>>)
    ensures
        proxy.meant_window(requested) matches Ok(Some(window)) ==> {
            &&& proxy.mapped_windows().contains(window)
            &&& requested matches Some(window_id) ==> window.window_id == window_id
            &&& requested is None ==> proxy.mapped_windows().len() == 1
        },
        requested is None && proxy.mapped_windows().len() > 1 ==> proxy.meant_window(
            requested,
        ) is Err,
        proxy.mapped_windows().len() == 0 ==> proxy.meant_window(requested) matches Ok(None),
        proxy.mapped_windows().len() > 0 ==> (requested matches Some(window_id) ==> (
        proxy.meant_window(requested) is Ok <==> exists|i: int|
            0 <= i < proxy.mapped_windows().len() && (
            #[trigger] proxy.mapped_windows()[i]).window_id == window_id)),
        proxy.mapped_windows().len() == 1 && requested is None ==> proxy.meant_window(requested)
            == Ok::<Option<crate::surface::WindowInfoView>, Seq<char>>(
            Some(proxy.mapped_windows()[0]),
        ),
{
    if let Some(window_id) = requested {
        name_is_found(proxy.mapped_windows(), window_id, 0);
    }
}

proof fn motion_messages(client: SessionView, target: TargetView, time: u32, i: int)
    requires
        client.pointed(target, time).1 is Ok,
        0 <= i < client.objects_of("wl_pointer"@, 0).len(),
    ensures
        ({
            let pointers = client.objects_of("wl_pointer"@, 0);
            let sent = client.pointed(target, time).1->Ok_0.messages;
            let events = input::motion_events(target, client.next_serial, time);
            &&& events.len() == 3
            &&& sent.len() == 3 * pointers.len()
            &&& forall|j: int|
                0 <= j < 3 ==> messages::event_message(pointers[i], #[trigger] events[j]) == Ok::<
                    Seq<u8>,
                    Seq<char>,
                >(sent[3 * i + j])
        }),
{
    let pointers = client.objects_of("wl_pointer"@, 0);
    let events = input::motion_events(target, client.next_serial, time);
    let sent = client.pointed(target, time).1->Ok_0.messages;
    assert(events.len() == 3);
    assert forall|j: int| 0 <= j < 3 implies messages::event_message(
        pointers[i],
        #[trigger] events[j],
    ) == Ok::<Seq<u8>, Seq<char>>(sent[3 * i + j]) by {
        each_object_is_told(pointers, events, i, j);
        assert(i * 3 == 3 * i);
    }
    each_object_is_told(pointers, events, i, 0);
}

/// A motion brings each pointer of the client to the place that was asked for, and
/// presses nothing: it enters the surface, moves there, and that is one frame.
pub proof fn motion_moves_only(
    proxy: ServerView,
    requested: Option<Seq<char>>,
    x: i64,
    y: i64,
    time: u32,
    i: int,
)
    requires
        proxy.pointed(requested, x, y, time).1 is Ok,
        0 <= i < proxy.sessions[proxy.pointed(requested, x, y, time).1->Ok_0.0].objects_of(
            "wl_pointer"@,
            0,
        ).len(),
    ensures
        ({
            let (client_id, sent) = proxy.pointed(requested, x, y, time).1->Ok_0;
            let client = proxy.sessions[client_id];
            let pointers = client.objects_of("wl_pointer"@, 0);
            &&& sent.messages.len() == 3 * pointers.len()
            &&& is_frame(sent.messages[3 * i + 2], pointers[i])
            &&& exists|target: TargetView|
                #![trigger input::fixed(target.surface_x)]
                {
                    &&& client.tracker.click_target(target.window_id, x, y) == Ok::<
                        Option<TargetView>,
                        Seq<char>,
                    >(Some(target))
                    &&& requested matches Some(window_id) ==> target.window_id == window_id
                    &&& is_enter(
                        sent.messages[3 * i],
                        pointers[i],
                        client.next_serial,
                        target.surface_id,
                        input::fixed(target.surface_x),
                        input::fixed(target.surface_y),
                    )
                    &&& is_motion(
                        sent.messages[3 * i + 1],
                        pointers[i],
                        time,
                        input::fixed(target.surface_x),
                        input::fixed(target.surface_y),
                    )
                }
        }),
{
    let nothing = "pointer motion has no proxied Wayland window to target"@;
    let gone = "` disappeared before pointer motion could target it"@;
    let (client_id, target) = proxy.targeted(requested, x, y, nothing, gone)->Ok_0;
    let client = proxy.sessions[client_id];
    let pointers = client.objects_of("wl_pointer"@, 0);
    place_is_meant(proxy, requested, x, y, nothing, gone);
    motion_messages(client, target, time, i);
    let events = input::motion_events(target, client.next_serial, time);
    motion_reads_as(pointers[i], target, client.next_serial, time);
    assert(messages::event_message(pointers[i], events[0]) is Ok);
    assert(messages::event_message(pointers[i], events[1]) is Ok);
    assert(messages::event_message(pointers[i], events[2]) is Ok);
    assert(input::fixed(target.surface_x) == input::fixed(target.surface_x));
}

/// The number that the caller gave, or the one that stands in for it.
pub open spec fn own_or(own: Option<u32>, otherwise: u32) -> u32 {
    if own is Some {
        own.unwrap()
    } else {
        otherwise
    }
}

/// Whether a message tells a pointer of what a caller asked for, at a place.
pub open spec fn tells_pointer(
    message: Seq<u8>,
    pointer: u32,
    event: GuiWaylandPointerEvent,
    target: TargetView,
    serial: u32,
    now: u32,
) -> bool {
    let x = input::fixed(target.surface_x) as u32;
    let y = input::fixed(target.surface_y) as u32;
    match event {
        GuiWaylandPointerEvent::Enter { serial: own, .. } => layout::reads_as(
            message,
            pointer,
            0,
            seq![own_or(own, serial), target.surface_id, x, y],
        ),
        GuiWaylandPointerEvent::Motion { time, .. } => layout::reads_as(
            message,
            pointer,
            2,
            seq![own_or(time, now), x, y],
        ),
        GuiWaylandPointerEvent::Button { button, state, serial: own, time } => layout::reads_as(
            message,
            pointer,
            3,
            seq![own_or(own, serial), own_or(time, now), button, state],
        ),
        GuiWaylandPointerEvent::Axis { axis, value, time } => layout::reads_as(
            message,
            pointer,
            4,
            seq![own_or(time, now), axis, value as u32],
        ),
        GuiWaylandPointerEvent::Frame => layout::reads_as(message, pointer, 5, Seq::empty()),
        GuiWaylandPointerEvent::AxisSource { axis_source } => layout::reads_as(
            message,
            pointer,
            6,
            seq![axis_source],
        ),
        GuiWaylandPointerEvent::AxisStop { axis, time } => layout::reads_as(
            message,
            pointer,
            7,
            seq![own_or(time, now), axis],
        ),
        GuiWaylandPointerEvent::AxisDiscrete { axis, discrete } => layout::reads_as(
            message,
            pointer,
            8,
            seq![axis, discrete as u32],
        ),
        GuiWaylandPointerEvent::AxisValue120 { axis, value120 } => layout::reads_as(
            message,
            pointer,
            9,
            seq![axis, value120 as u32],
        ),
        GuiWaylandPointerEvent::AxisRelativeDirection { axis, direction } => layout::reads_as(
            message,
            pointer,
            10,
            seq![axis, direction],
        ),
    }
}

/// The words of an event for a pointer.
spec fn pointer_words(
    event: GuiWaylandPointerEvent,
    target: TargetView,
    serial: u32,
    now: u32,
) -> Seq<u32> {
    let x = input::fixed(target.surface_x) as u32;
    let y = input::fixed(target.surface_y) as u32;
    match event {
        GuiWaylandPointerEvent::Enter { serial: own, .. } => seq![
            own_or(own, serial),
            target.surface_id,
            x,
            y,
        ],
        GuiWaylandPointerEvent::Motion { time, .. } => seq![own_or(time, now), x, y],
        GuiWaylandPointerEvent::Button { button, state, serial: own, time } => seq![
            own_or(own, serial),
            own_or(time, now),
            button,
            state,
        ],
        GuiWaylandPointerEvent::Axis { axis, value, time } => seq![
            own_or(time, now),
            axis,
            value as u32,
        ],
        GuiWaylandPointerEvent::Frame => Seq::empty(),
        GuiWaylandPointerEvent::AxisSource { axis_source } => seq![axis_source],
        GuiWaylandPointerEvent::AxisStop { axis, time } => seq![own_or(time, now), axis],
        GuiWaylandPointerEvent::AxisDiscrete { axis, discrete } => seq![axis, discrete as u32],
        GuiWaylandPointerEvent::AxisValue120 { axis, value120 } => seq![axis, value120 as u32],
        GuiWaylandPointerEvent::AxisRelativeDirection { axis, direction } => seq![axis, direction],
    }
}

#[verifier::spinoff_prover]
#[verifier::rlimit(40)]
proof fn pointer_event_reads(
    pointer: u32,
    event: GuiWaylandPointerEvent,
    target: TargetView,
    serial: u32,
    now: u32,
)
    requires
        messages::event_message(
            pointer,
            raw_input::pointer_event(event, target, serial, now),
        ) is Ok,
    ensures
        tells_pointer(
            messages::event_message(
                pointer,
                raw_input::pointer_event(event, target, serial, now),
            )->Ok_0,
            pointer,
            event,
            target,
            serial,
            now,
        ),
{
    let made = raw_input::pointer_event(event, target, serial, now);
    let words = pointer_words(event, target, serial, now);
    layout::one_word_each(messages::event_args(made), words);
    event_reads_as(pointer, made, words);
}

/// A pointer event is told as the caller gave it: each pointer of the client that
/// knows such events gets one message, whose words are the caller's fields in the
/// order of the protocol. What the caller left out is the next serial of the client
/// or the time of day.
pub proof fn pointer_event_is_told(
    proxy: ServerView,
    requested: Option<Seq<char>>,
    event: GuiWaylandPointerEvent,
    time: u32,
    i: int,
)
    requires
        proxy.pointer_emitted(requested, event, time).1 is Ok,
        0 <= i < proxy.pointer_emitted(requested, event, time).1->Ok_0.1.messages.len(),
    ensures
        ({
            let (client_id, sent) = proxy.pointer_emitted(requested, event, time).1->Ok_0;
            let client = proxy.sessions[client_id];
            let version = match event {
                GuiWaylandPointerEvent::Enter { .. } => 1u32,
                GuiWaylandPointerEvent::Motion { .. } => 1u32,
                GuiWaylandPointerEvent::Button { .. } => 1u32,
                GuiWaylandPointerEvent::Axis { .. } => 1u32,
                GuiWaylandPointerEvent::AxisValue120 { .. } => 8u32,
                GuiWaylandPointerEvent::AxisRelativeDirection { .. } => 9u32,
                _ => 5u32,
            };
            let pointers = client.objects_of("wl_pointer"@, version);
            let target = proxy.pointer_target(requested, event)->Ok_0.1;
            &&& sent.messages.len() == pointers.len()
            &&& tells_pointer(
                sent.messages[i],
                pointers[i],
                event,
                target,
                client.next_serial,
                time,
            )
        }),
{
    let (client_id, target) = proxy.pointer_target(requested, event)->Ok_0;
    client_is_told(proxy.sessions[client_id], target, event, time, i);
}

proof fn client_is_told(
    client: SessionView,
    target: TargetView,
    event: GuiWaylandPointerEvent,
    time: u32,
    i: int,
)
    requires
        client.pointer_emitted(target, event, time).1 is Ok,
        0 <= i < client.pointer_emitted(target, event, time).1->Ok_0.messages.len(),
    ensures
        ({
            let sent = client.pointer_emitted(target, event, time).1->Ok_0.messages;
            let pointers = client.objects_of("wl_pointer"@, raw_input::pointer_version(event));
            &&& sent.len() == pointers.len()
            &&& tells_pointer(sent[i], pointers[i], event, target, client.next_serial, time)
        }),
{
    let sent = client.pointer_emitted(target, event, time).1->Ok_0.messages;
    let pointers = client.objects_of("wl_pointer"@, raw_input::pointer_version(event));
    let made = raw_input::pointer_event(event, target, client.next_serial, time);
    assert(sent == input::to_objects(pointers, seq![made])->Ok_0);
    one_message_each(pointers, made, i);
    pointer_event_reads(pointers[i], event, target, client.next_serial, time);
}

/// A pointer event goes where it was asked to go: to the window of the name that was
/// given, and, where the event has a place, to the point of its surface that lies
/// there on the screenshot.
pub proof fn pointer_event_goes_where_asked(
    proxy: ServerView,
    requested: Option<Seq<char>>,
    event: GuiWaylandPointerEvent,
)
    requires
        proxy.pointer_target(requested, event) is Ok,
    ensures
        ({
            let (client_id, target) = proxy.pointer_target(requested, event)->Ok_0;
            let known = proxy.sessions[client_id].tracker;
            &&& requested matches Some(window_id) ==> target.window_id == window_id
            &&& event matches GuiWaylandPointerEvent::Enter { x, y, .. } ==> known.click_target(
                target.window_id,
                x,
                y,
            ) == Ok::<Option<TargetView>, Seq<char>>(Some(target))
            &&& event matches GuiWaylandPointerEvent::Motion { x, y, .. } ==> known.click_target(
                target.window_id,
                x,
                y,
            ) == Ok::<Option<TargetView>, Seq<char>>(Some(target))
            &&& known.number_of(target.window_id) is Some
        }),
{
    let nothing = "raw Wayland pointer event has no mapped target window"@;
    let gone = "` disappeared before the raw Wayland pointer event could be emitted"@;
    match event {
        GuiWaylandPointerEvent::Enter { x, y, .. } => {
            place_is_meant(proxy, requested, x, y, nothing, gone);
        },
        GuiWaylandPointerEvent::Motion { x, y, .. } => {
            place_is_meant(proxy, requested, x, y, nothing, gone);
        },
        _ => {
            named_window_is_meant(proxy, requested);
            let window = proxy.meant_window(requested)->Ok_0.unwrap();
            holder_has_the_window(proxy, window.window_id);
        },
    }
}

proof fn one_message_each(ids: Seq<u32>, event: EventView, i: int)
    requires
        input::to_objects(ids, seq![event]) is Ok,
        0 <= i < input::to_objects(ids, seq![event])->Ok_0.len(),
    ensures
        input::to_objects(ids, seq![event])->Ok_0.len() == ids.len(),
        messages::event_message(ids[i], event) == Ok::<Seq<u8>, Seq<char>>(
            input::to_objects(ids, seq![event])->Ok_0[i],
        ),
{
    if ids.len() > 0 {
        each_object_is_told(ids, seq![event], 0, 0);
        assert(ids.len() * 1 == ids.len());
        each_object_is_told(ids, seq![event], i, 0);
        assert(i * 1 == i);
        assert(seq![event][0] == event);
    }
}

/// Whether a message tells a keyboard of what a caller asked for.
pub open spec fn tells_keyboard(
    message: Seq<u8>,
    keyboard: u32,
    event: GuiWaylandKeyboardEvent,
    surface: u32,
    serial: u32,
    now: u32,
) -> bool {
    match event {
        GuiWaylandKeyboardEvent::Enter { serial: own, keys } => layout::reads_as(
            message,
            keyboard,
            1,
            seq![own_or(own, serial), surface, (4 * keys@.len()) as u32] + keys@,
        ),
        GuiWaylandKeyboardEvent::Leave { serial: own } => layout::reads_as(
            message,
            keyboard,
            2,
            seq![own_or(own, serial), surface],
        ),
        GuiWaylandKeyboardEvent::Key { key, state, serial: own, time } => layout::reads_as(
            message,
            keyboard,
            3,
            seq![own_or(own, serial), own_or(time, now), key, state],
        ),
        GuiWaylandKeyboardEvent::Modifiers {
            mods_depressed,
            mods_latched,
            mods_locked,
            group,
            serial: own,
        } => layout::reads_as(
            message,
            keyboard,
            4,
            seq![own_or(own, serial), mods_depressed, mods_latched, mods_locked, group],
        ),
        GuiWaylandKeyboardEvent::RepeatInfo { rate, delay } => layout::reads_as(
            message,
            keyboard,
            5,
            seq![rate as u32, delay as u32],
        ),
    }
}

proof fn keys_are_words(keys: Seq<u32>)
    ensures
        raw_input::key_bytes(keys) == wire::args_bytes(layout::word_args(keys)),
        raw_input::key_bytes(keys).len() == 4 * keys.len(),
    decreases keys.len(),
{
    if keys.len() > 0 {
        keys_are_words(keys.drop_last());
        assert(layout::word_args(keys).drop_last() =~= layout::word_args(keys.drop_last()));
        assert(layout::word_args(keys).last() == ArgView::Uint(keys.last()));
    }
}

proof fn entered_keys_read(keyboard: u32, serial: u32, surface: u32, keys: Seq<u32>)
    requires
        messages::event_message(
            keyboard,
            EventView::WlKeyboardEnter {
                serial,
                surface: Some(surface),
                keys: raw_input::key_bytes(keys),
            },
        ) is Ok,
    ensures
        layout::reads_as(
            messages::event_message(
                keyboard,
                EventView::WlKeyboardEnter {
                    serial,
                    surface: Some(surface),
                    keys: raw_input::key_bytes(keys),
                },
            )->Ok_0,
            keyboard,
            1,
            seq![serial, surface, (4 * keys.len()) as u32] + keys,
        ),
{
    let bytes = raw_input::key_bytes(keys);
    let event = EventView::WlKeyboardEnter { serial, surface: Some(surface), keys: bytes };
    let head = seq![serial, surface, (4 * keys.len()) as u32];
    let front = seq![ArgView::Uint(serial), ArgView::Object(Some(surface))];
    keys_are_words(keys);
    let args = messages::event_args(event);
    assert(args =~= front.push(ArgView::Array(bytes)));
    assert(args.drop_last() =~= front);
    let counted = wire::counted_bytes(bytes);
    assert(wire::zeros(wire::padded(bytes.len() as int) - bytes.len()) =~= Seq::<u8>::empty());
    assert(counted =~= wire::word_bytes(bytes.len() as u32) + bytes);
    layout::one_word_each(front, seq![serial, surface]);
    let number = seq![(4 * keys.len()) as u32];
    assert(layout::word_args(head) =~= layout::word_args(seq![serial, surface])
        + layout::word_args(number));
    layout::args_follow_each_other(
        layout::word_args(seq![serial, surface]),
        layout::word_args(number),
    );
    let last = layout::word_args(number);
    assert(last.drop_last() =~= Seq::<ArgView>::empty());
    assert(last.last() == ArgView::Uint((4 * keys.len()) as u32));
    assert(wire::args_bytes(last.drop_last()) =~= Seq::<u8>::empty());
    assert(wire::args_bytes(last) =~= wire::word_bytes((4 * keys.len()) as u32));
    assert(layout::word_args(head + keys) =~= layout::word_args(head) + layout::word_args(keys));
    layout::args_follow_each_other(layout::word_args(head), layout::word_args(keys));
    assert(wire::args_bytes(args) =~= wire::args_bytes(layout::word_args(head + keys)));
    assert(wire::args_bytes(args).len() >= bytes.len() + 12) by {
        layout::words_take_four_bytes(head);
    }
    event_reads_as(keyboard, event, head + keys);
}

#[verifier::spinoff_prover]
#[verifier::rlimit(40)]
proof fn keyboard_event_reads(
    keyboard: u32,
    event: GuiWaylandKeyboardEvent,
    surface: u32,
    serial: u32,
    now: u32,
)
    requires
        messages::event_message(
            keyboard,
            raw_input::keyboard_event(event, surface, serial, now),
        ) is Ok,
    ensures
        tells_keyboard(
            messages::event_message(
                keyboard,
                raw_input::keyboard_event(event, surface, serial, now),
            )->Ok_0,
            keyboard,
            event,
            surface,
            serial,
            now,
        ),
{
    let made = raw_input::keyboard_event(event, surface, serial, now);
    match event {
        GuiWaylandKeyboardEvent::Enter { serial: own, keys } => {
            entered_keys_read(keyboard, own_or(own, serial), surface, keys@);
        },
        GuiWaylandKeyboardEvent::Leave { serial: own } => {
            let words = seq![own_or(own, serial), surface];
            layout::one_word_each(messages::event_args(made), words);
            event_reads_as(keyboard, made, words);
        },
        GuiWaylandKeyboardEvent::Key { key, state, serial: own, time } => {
            let words = seq![own_or(own, serial), own_or(time, now), key, state];
            layout::one_word_each(messages::event_args(made), words);
            event_reads_as(keyboard, made, words);
        },
        GuiWaylandKeyboardEvent::Modifiers {
            mods_depressed,
            mods_latched,
            mods_locked,
            group,
            serial: own,
        } => {
            let words = seq![
                own_or(own, serial),
                mods_depressed,
                mods_latched,
                mods_locked,
                group,
            ];
            layout::one_word_each(messages::event_args(made), words);
            event_reads_as(keyboard, made, words);
        },
        GuiWaylandKeyboardEvent::RepeatInfo { rate, delay } => {
            let words = seq![rate as u32, delay as u32];
            layout::one_word_each(messages::event_args(made), words);
            event_reads_as(keyboard, made, words);
        },
    }
}

/// The client that has a window of a name is a connected one, and has it.
pub proof fn holder_has_the_window(proxy: ServerView, window_id: Seq<char>)
    ensures
        proxy.holder(window_id) matches Some(client_id) ==> proxy.client_ids().contains(client_id)
            && proxy.sessions[client_id].tracker.number_of(window_id) is Some,
        proxy.holder(window_id) is None ==> forall|i: int|
            0 <= i < proxy.client_ids().len() ==> proxy.sessions[
                #[trigger] proxy.client_ids()[i]
            ].tracker.number_of(window_id) is None,
{
    holder_is_found(proxy, window_id, 0);
}

proof fn holder_is_found(proxy: ServerView, window_id: Seq<char>, index: int)
    requires
        0 <= index,
    ensures
        match desktop::holder_from(proxy.sessions, proxy.client_ids(), window_id, index) {
            Some(client_id) => proxy.client_ids().contains(client_id)
                && proxy.sessions[client_id].tracker.number_of(window_id) is Some,
            None => forall|i: int|
                index <= i < proxy.client_ids().len() ==> proxy.sessions[
                    #[trigger] proxy.client_ids()[i]
                ].tracker.number_of(window_id) is None,
        },
    decreases proxy.client_ids().len() - index,
{
    if index < proxy.client_ids().len() {
        holder_is_found(proxy, window_id, index + 1);
    }
}

/// A keyboard event is told as the caller gave it: each keyboard of the client that
/// has the window gets one message, whose words are the caller's fields in the order
/// of the protocol. What the caller left out is the next serial of the client or the
/// time of day.
pub proof fn keyboard_event_is_told(
    proxy: ServerView,
    requested: Option<Seq<char>>,
    event: GuiWaylandKeyboardEvent,
    time: u32,
    i: int,
)
    requires
        proxy.keyboard_emitted(requested, event, time).1 is Ok,
        0 <= i < proxy.keyboard_emitted(requested, event, time).1->Ok_0.1.messages.len(),
    ensures
        ({
            let (client_id, sent) = proxy.keyboard_emitted(requested, event, time).1->Ok_0;
            let client = proxy.sessions[client_id];
            let version = match event {
                GuiWaylandKeyboardEvent::RepeatInfo { .. } => 4u32,
                _ => 1u32,
            };
            let keyboards = client.objects_of("wl_keyboard"@, version);
            let window = proxy.meant_window(requested)->Ok_0.unwrap();
            &&& sent.messages.len() == keyboards.len()
            &&& requested matches Some(window_id) ==> window.window_id == window_id
            &&& client.tracker.number_of(window.window_id) is Some
            &&& tells_keyboard(
                sent.messages[i],
                keyboards[i],
                event,
                window.input_surface_id,
                client.next_serial,
                time,
            )
        }),
{
    named_window_is_meant(proxy, requested);
    let window = proxy.meant_window(requested)->Ok_0.unwrap();
    holder_has_the_window(proxy, window.window_id);
    let client_id = proxy.holder(window.window_id).unwrap();
    let client = proxy.sessions[client_id];
    let keyboards = client.objects_of("wl_keyboard"@, raw_input::keyboard_version(event));
    let made = raw_input::keyboard_event(event, window.input_surface_id, client.next_serial, time);
    let sent = proxy.keyboard_emitted(requested, event, time).1->Ok_0.1.messages;
    assert(sent == input::to_objects(keyboards, seq![made])->Ok_0);
    one_message_each(keyboards, made, i);
    keyboard_event_reads(
        keyboards[i],
        event,
        window.input_surface_id,
        client.next_serial,
        time,
    );
}

/// A new size is told as it was asked for: the window's toplevel gets the width and
/// the height, in this order and with no states, and then its surface the serial that
/// closes the configure, which is not one of the compositor's.
pub proof fn resize_tells_the_size(
    proxy: ServerView,
    window_id: Seq<char>,
    width: u32,
    height: u32,
)
    requires
        proxy.resized(window_id, width, height).1 is Ok,
    ensures
        ({
            let (client_id, sent) = proxy.resized(window_id, width, height).1->Ok_0;
            let known = proxy.sessions[client_id].tracker;
            let window = known.windows[known.number_of(window_id).unwrap()];
            &&& 1 <= width <= 8192
            &&& 1 <= height <= 8192
            &&& known.number_of(window_id) is Some
            &&& window.mapped
            &&& sent.delivery.messages.len() == 2
            &&& layout::reads_as(
                sent.delivery.messages[0],
                window.xdg_toplevel_id.unwrap(),
                0,
                seq![width, height, 0],
            )
            &&& layout::reads_as(
                sent.delivery.messages[1],
                window.xdg_surface_id.unwrap(),
                0,
                seq![sent.serial],
            )
            &&& sent.surface_id == window.xdg_surface_id.unwrap()
            &&& sent.serial >= 0x8000_0000
            &&& sent.delivery.report == "sent xdg configure "@ + crate::text::decimal(
                width as nat,
            ) + " x "@ + crate::text::decimal(height as nat) + " to window `"@ + window_id
                + "`; inspect a later frame to verify the client applied it"@
        }),
{
    holder_has_the_window(proxy, window_id);
    let client = proxy.sessions[proxy.holder(window_id).unwrap()];
    let known = client.tracker;
    let window = known.windows[known.number_of(window_id).unwrap()];
    let toplevel = window.xdg_toplevel_id.unwrap();
    let surface = window.xdg_surface_id.unwrap();
    let before = client.next_serial;
    let serial = before | 0x8000_0000;
    assert(before | 0x8000_0000 >= 0x8000_0000) by (bit_vector);
    let sized = EventView::XdgToplevelConfigure {
        width: width as i32,
        height: height as i32,
        states: Seq::empty(),
    };
    let closed = EventView::XdgSurfaceConfigure { serial };
    let nothing = Seq::<u8>::empty();
    assert(wire::zeros(wire::padded(0) - 0) =~= Seq::<u8>::empty());
    assert(wire::counted_bytes(nothing) =~= wire::word_bytes(0));
    assert(((width as i32) as u32) == width);
    assert(((height as i32) as u32) == height);
    layout::one_word_each(messages::event_args(sized), seq![width, height, 0]);
    layout::one_word_each(messages::event_args(closed), seq![serial]);
    event_reads_as(toplevel, sized, seq![width, height, 0]);
    event_reads_as(surface, closed, seq![serial]);
}

/// The objects that events go to are just those that the client has of the interface,
/// in the version that knows the event or a later one, each of them once.
pub proof fn objects_are_those_of_the_interface(
    client: SessionView,
    interface: Seq<char>,
    version: u32,
    id: u32,
)
    requires
        client.interfaces.dom().finite(),
    ensures
        client.objects_of(interface, version).contains(id) <==> (client.interfaces.contains_key(id)
            && client.interfaces[id] == interface && (if client.versions.contains_key(id) {
            client.versions[id] >= version
        } else {
            version <= 1
        })),
        client.objects_of(interface, version).no_duplicates(),
{
    broadcast use vstd::seq_lib::group_filter_ensures;

    let ids = table::in_order(client.interfaces.dom());
    let wanted = |id: u32| client.is_object(id, interface, version);
    let kept = ids.filter(wanted);
    table::keys_have_an_order(client.interfaces.dom());
    kept_in_order(ids, wanted);
    assert(ids.to_set().contains(id) <==> client.interfaces.contains_key(id));
    if client.interfaces.contains_key(id) && wanted(id) {
        let at = choose|at: int| 0 <= at < ids.len() && ids[at] == id;
        assert(kept.contains(ids[at]));
    }
    if kept.contains(id) {
        let at = choose|at: int| 0 <= at < kept.len() && kept[at] == id;
        assert(wanted(kept[at]));
        assert(ids.contains(kept[at]));
    }
    assert(kept.no_duplicates());
}

proof fn kept_in_order(ids: Seq<u32>, wanted: spec_fn(u32) -> bool)
    requires
        table::ascending(ids),
    ensures
        ids.filter(wanted).no_duplicates(),
        forall|i: int|
            0 <= i < ids.filter(wanted).len() ==> ids.contains(#[trigger] ids.filter(wanted)[i]),
    decreases ids.len(),
{
    reveal(Seq::filter);
    if ids.len() > 0 {
        let rest = ids.drop_last();
        let before = rest.filter(wanted);
        let kept = ids.filter(wanted);
        assert(table::ascending(rest)) by {
            assert forall|i: int, j: int| 0 <= i < j < rest.len() implies #[trigger] table::Key::rank(
                rest[i],
            ) < #[trigger] table::Key::rank(rest[j]) by {
                assert(ids[i].rank() < ids[j].rank());
            }
        }
        kept_in_order(rest, wanted);
        assert forall|i: int| 0 <= i < before.len() implies before[i] != ids.last() && ids.contains(
            #[trigger] before[i],
        ) by {
            assert(rest.contains(before[i]));
            let at = choose|at: int| 0 <= at < rest.len() && rest[at] == before[i];
            assert(ids[at] == rest[at]);
            assert(ids[at].rank() < ids[ids.len() - 1].rank());
        }
        assert(ids[ids.len() - 1] == ids.last());
        assert forall|i: int| 0 <= i < kept.len() implies ids.contains(#[trigger] kept[i]) by {
            if i < before.len() {
                assert(kept[i] == before[i]);
            }
        }
    }
}

/// The serials that input of a caller uses are those that follow each other from the
/// client's next one on, and they are known as the proxy's own.
pub proof fn serials_are_used_up(client: SessionView, target: TargetView, button: u8, time: u32)
    ensures
        client.clicked(target, button, time).1 is Ok ==> {
            let after = client.clicked(target, button, time).0;
            let enter = client.next_serial;
            &&& after.next_serial == next(next(next(enter)))
            &&& after.injected.contains_key(enter)
            &&& after.injected.contains_key(next(enter))
            &&& after.injected.contains_key(next(next(enter)))
            &&& forall|serial: u32|
                after.injected.contains_key(serial) <==> (client.injected.contains_key(serial)
                    || serial == enter || serial == next(enter) || serial == next(next(enter)))
            &&& after.tracker == client.tracker
        },
        client.pointed(target, time).1 is Ok ==> {
            let after = client.pointed(target, time).0;
            &&& after.next_serial == next(client.next_serial)
            &&& forall|serial: u32|
                after.injected.contains_key(serial) <==> (client.injected.contains_key(serial)
                    || serial == client.next_serial)
            &&& after.tracker == client.tracker
        },
{
}

/// Input is refused exactly where the client has no pointer or cannot be told anything,
/// or where there is no such button.
pub proof fn input_is_refused_for_cause(
    client: SessionView,
    target: TargetView,
    button: u8,
    time: u32,
)
    ensures
        client.clicked(target, button, time).1 is Ok <==> client.objects_of(
            "wl_pointer"@,
            0,
        ).len() > 0 && 1 <= button <= 3 && client.writable,
        client.pointed(target, time).1 is Ok <==> client.objects_of("wl_pointer"@, 0).len() > 0
            && client.writable,
{
    let pointers = client.objects_of("wl_pointer"@, 0);
    if let Some(code) = input::button_code(button) {
        let first = client.next_serial;
        let events = input::click_events(
            target,
            code,
            first,
            client.serial_used().next_serial,
            client.serial_used().serial_used().next_serial,
            time,
        );
        assert forall|i: int| 0 <= i < events.len() implies is_short(#[trigger] events[i]) by {}
        short_events_are_sent(pointers, events);
    }
    let events = input::motion_events(target, client.next_serial, time);
    assert forall|i: int| 0 <= i < events.len() implies is_short(#[trigger] events[i]) by {}
    short_events_are_sent(pointers, events);
}

spec fn is_short(event: EventView) -> bool {
    event is WlPointerEnter || event is WlPointerMotion || event is WlPointerButton
        || event is WlPointerFrame
}

proof fn short_event_fits(id: u32, event: EventView)
    requires
        is_short(event),
    ensures
        messages::event_message(id, event) is Ok,
{
    let args = messages::event_args(event);
    let words = Seq::new(
        args.len(),
        |i: int|
            match args[i] {
                ArgView::Uint(value) => value,
                ArgView::Fixed(value) => value as u32,
                ArgView::Object(Some(value)) => value,
                _ => 0u32,
            },
    );
    layout::one_word_each(args, words);
    layout::words_take_four_bytes(words);
}

proof fn short_events_are_sent_to_one(id: u32, events: Seq<EventView>)
    requires
        forall|i: int| 0 <= i < events.len() ==> is_short(#[trigger] events[i]),
    ensures
        input::to_object(id, events) is Ok,
    decreases events.len(),
{
    if events.len() > 0 {
        short_events_are_sent_to_one(id, events.drop_last());
        assert(is_short(events[events.len() - 1]));
        short_event_fits(id, events.last());
    }
}

proof fn short_events_are_sent(ids: Seq<u32>, events: Seq<EventView>)
    requires
        forall|i: int| 0 <= i < events.len() ==> is_short(#[trigger] events[i]),
    ensures
        input::to_objects(ids, events) is Ok,
    decreases ids.len(),
{
    if ids.len() > 0 {
        short_events_are_sent(ids.drop_last(), events);
        short_events_are_sent_to_one(ids.last(), events);
    }
}

/// A raw event of a caller uses the client's next serial only where the event has a
/// serial and the caller gave none; the serial that is sent is known as the proxy's own
/// in either case. It is refused exactly where no object of the client's knows such
/// events or the client cannot be told anything.
pub proof fn raw_events_use_serials(
    client: SessionView,
    target: TargetView,
    event: GuiWaylandPointerEvent,
    time: u32,
)
    ensures
        ({
            let (after, sent) = client.pointer_emitted(target, event, time);
            let pointers = client.objects_of("wl_pointer"@, raw_input::pointer_version(event));
            let own = match event {
                GuiWaylandPointerEvent::Enter { serial, .. } => serial,
                GuiWaylandPointerEvent::Button { serial, .. } => serial,
                _ => None,
            };
            let numbered = event is Enter || event is Button;
            &&& sent is Ok ==> pointers.len() > 0 && client.writable
            &&& sent is Ok && !numbered ==> after == client
            &&& sent is Ok && numbered ==> after.injected.contains_key(
                own_or(own, client.next_serial),
            ) && after.next_serial == (if own is Some {
                client.next_serial
            } else {
                next(client.next_serial)
            })
        }),
{
}

/// The same of a raw event for keyboards.
pub proof fn raw_key_events_use_serials(
    client: SessionView,
    window_id: Seq<char>,
    surface_id: u32,
    event: GuiWaylandKeyboardEvent,
    time: u32,
)
    ensures
        ({
            let (after, sent) = client.keyboard_emitted(window_id, surface_id, event, time);
            let own = match event {
                GuiWaylandKeyboardEvent::Enter { serial, .. } => serial,
                GuiWaylandKeyboardEvent::Leave { serial } => serial,
                GuiWaylandKeyboardEvent::Key { serial, .. } => serial,
                GuiWaylandKeyboardEvent::Modifiers { serial, .. } => serial,
                GuiWaylandKeyboardEvent::RepeatInfo { .. } => None,
            };
            &&& sent is Ok && event is RepeatInfo ==> after == client
            &&& sent is Ok && !(event is RepeatInfo) ==> after.injected.contains_key(
                own_or(own, client.next_serial),
            ) && after.next_serial == (if own is Some {
                client.next_serial
            } else {
                next(client.next_serial)
            })
        }),
{
}

/// A new size is refused exactly where it is out of range, where no client has a window
/// of the name, where the window is not a mapped toplevel, or where its client cannot be
/// told anything.
pub proof fn resize_is_refused_for_cause(
    proxy: ServerView,
    window_id: Seq<char>,
    width: u32,
    height: u32,
)
    ensures
        proxy.resized(window_id, width, height).1 is Ok <==> (1 <= width <= 8192 && 1 <= height
            <= 8192 && (proxy.holder(window_id) matches Some(client_id) && {
            let client = proxy.sessions[client_id];
            let window = client.tracker.windows[client.tracker.number_of(window_id).unwrap()];
            &&& window.mapped
            &&& window.xdg_toplevel_id is Some
            &&& window.xdg_surface_id is Some
            &&& client.writable
        })),
{
    holder_has_the_window(proxy, window_id);
    if let Some(client_id) = proxy.holder(window_id) {
        let client = proxy.sessions[client_id];
        let serial = client.next_serial | 0x8000_0000;
        let sized = EventView::XdgToplevelConfigure {
            width: width as i32,
            height: height as i32,
            states: Seq::empty(),
        };
        let nothing = Seq::<u8>::empty();
        assert(wire::zeros(wire::padded(0) - 0) =~= Seq::<u8>::empty());
        assert(wire::counted_bytes(nothing) =~= wire::word_bytes(0));
        let words = seq![(width as i32) as u32, (height as i32) as u32, 0];
        layout::one_word_each(messages::event_args(sized), words);
        layout::words_take_four_bytes(words);
        let closed = EventView::XdgSurfaceConfigure { serial };
        layout::one_word_each(messages::event_args(closed), seq![serial]);
        layout::words_take_four_bytes(seq![serial]);
    }
}

} // verus!
