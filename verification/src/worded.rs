//! What callers are told in words: which value stands at which place of what is said.

use crate::input::{GuiWaylandKeyboardEvent, GuiWaylandPointerEvent};
use crate::session::SessionView;
use crate::surface::{BufferView, SourceView, TargetView, TrackedDmabufPlane, WindowInfoView};
use crate::text;
use crate::tracker::TrackerView;
use crate::windows;
use vstd::prelude::*;

verus! {

/// A point as it is told: its coordinates in parentheses, the one to the right first.
pub open spec fn point(x: i64, y: i64) -> Seq<char> {
    "("@ + text::signed_decimal(x as int) + ", "@ + text::signed_decimal(y as int) + ")"@
}

/// What is told of a click names the button, how many pointers were told, the window,
/// the pixel that was asked for, and the surface and the point that it came to.
pub proof fn click_is_told(client: SessionView, target: TargetView, button: u8, time: u32)
    ensures
        client.clicked(target, button, time).1 matches Ok(sent) ==> sent.report
            == "delivered button "@ + text::decimal(button as nat) + " press/release through "@
            + text::decimal(client.objects_of("wl_pointer"@, 0).len())
            + " wl_pointer resource(s) to window `"@ + target.window_id + "`: screenshot pixel ("@
            + text::signed_decimal(target.screenshot_x as int) + ", "@ + text::signed_decimal(
            target.screenshot_y as int,
        ) + ") -> input wl_surface "@ + text::decimal(target.surface_id as nat) + " coordinate ("@
            + text::signed_decimal(target.surface_x as int) + ", "@ + text::signed_decimal(
            target.surface_y as int,
        ) + ")"@,
        client.pointed(target, time).1 matches Ok(sent) ==> sent.report
            == "moved pointer through "@ + text::decimal(client.objects_of("wl_pointer"@, 0).len())
            + " wl_pointer resource(s) to window `"@ + target.window_id + "`: screenshot pixel ("@
            + text::signed_decimal(target.screenshot_x as int) + ", "@ + text::signed_decimal(
            target.screenshot_y as int,
        ) + ") -> input wl_surface "@ + text::decimal(target.surface_id as nat) + " coordinate ("@
            + text::signed_decimal(target.surface_x as int) + ", "@ + text::signed_decimal(
            target.surface_y as int,
        ) + ")"@,
{
}

/// What is told of a raw event names the event, how many objects were told, and the
/// window.
pub proof fn raw_event_is_told(
    client: SessionView,
    target: TargetView,
    event: GuiWaylandPointerEvent,
    key_event: GuiWaylandKeyboardEvent,
    window_id: Seq<char>,
    surface_id: u32,
    time: u32,
)
    ensures
        client.pointer_emitted(target, event, time).1 matches Ok(sent) ==> {
            let name = match event {
                GuiWaylandPointerEvent::Enter { .. } => "enter"@,
                GuiWaylandPointerEvent::Motion { .. } => "motion"@,
                GuiWaylandPointerEvent::Button { .. } => "button"@,
                GuiWaylandPointerEvent::Axis { .. } => "axis"@,
                GuiWaylandPointerEvent::AxisSource { .. } => "axis_source"@,
                GuiWaylandPointerEvent::AxisStop { .. } => "axis_stop"@,
                GuiWaylandPointerEvent::AxisDiscrete { .. } => "axis_discrete"@,
                GuiWaylandPointerEvent::AxisValue120 { .. } => "axis_value120"@,
                GuiWaylandPointerEvent::AxisRelativeDirection { .. } => "axis_relative_direction"@,
                GuiWaylandPointerEvent::Frame => "frame"@,
            };
            sent.report == "emitted "@ + ("wl_pointer."@ + name) + " through "@ + text::decimal(
                sent.messages.len(),
            ) + " wl_pointer resource(s) for window `"@ + target.window_id + "`"@
        },
        client.keyboard_emitted(window_id, surface_id, key_event, time).1 matches Ok(sent) ==> {
            let name = match key_event {
                GuiWaylandKeyboardEvent::Enter { .. } => "enter"@,
                GuiWaylandKeyboardEvent::Leave { .. } => "leave"@,
                GuiWaylandKeyboardEvent::Key { .. } => "key"@,
                GuiWaylandKeyboardEvent::Modifiers { .. } => "modifiers"@,
                GuiWaylandKeyboardEvent::RepeatInfo { .. } => "repeat_info"@,
            };
            sent.report == "emitted "@ + ("wl_keyboard."@ + name) + " through "@ + text::decimal(
                sent.messages.len(),
            ) + " wl_keyboard resource(s) for window `"@ + window_id + "`"@
        },
{
    names_are_parts();
    let made = crate::raw_input::pointer_event(event, target, client.next_serial, time);
    let pointers = client.objects_of("wl_pointer"@, crate::raw_input::pointer_version(event));
    if client.pointer_emitted(target, event, time).1 is Ok {
        crate::delivered::each_object_is_told(pointers, seq![made], 0, 0);
        assert(pointers.len() * 1 == pointers.len());
    }
    let key_made = crate::raw_input::keyboard_event(
        key_event,
        surface_id,
        client.next_serial,
        time,
    );
    let keyboards = client.objects_of(
        "wl_keyboard"@,
        crate::raw_input::keyboard_version(key_event),
    );
    if client.keyboard_emitted(window_id, surface_id, key_event, time).1 is Ok {
        crate::delivered::each_object_is_told(keyboards, seq![key_made], 0, 0);
        assert(keyboards.len() * 1 == keyboards.len());
    }
}

proof fn names_are_parts()
    ensures
        "wl_pointer.enter"@ == "wl_pointer."@ + "enter"@,
        "wl_pointer.motion"@ == "wl_pointer."@ + "motion"@,
        "wl_pointer.button"@ == "wl_pointer."@ + "button"@,
        "wl_pointer.axis"@ == "wl_pointer."@ + "axis"@,
        "wl_pointer.axis_source"@ == "wl_pointer."@ + "axis_source"@,
        "wl_pointer.axis_stop"@ == "wl_pointer."@ + "axis_stop"@,
        "wl_pointer.axis_discrete"@ == "wl_pointer."@ + "axis_discrete"@,
        "wl_pointer.axis_value120"@ == "wl_pointer."@ + "axis_value120"@,
        "wl_pointer.axis_relative_direction"@ == "wl_pointer."@ + "axis_relative_direction"@,
        "wl_pointer.frame"@ == "wl_pointer."@ + "frame"@,
        "wl_keyboard.enter"@ == "wl_keyboard."@ + "enter"@,
        "wl_keyboard.leave"@ == "wl_keyboard."@ + "leave"@,
        "wl_keyboard.key"@ == "wl_keyboard."@ + "key"@,
        "wl_keyboard.modifiers"@ == "wl_keyboard."@ + "modifiers"@,
        "wl_keyboard.repeat_info"@ == "wl_keyboard."@ + "repeat_info"@,
{
    reveal_strlit("wl_pointer.");
    reveal_strlit("wl_keyboard.");
    reveal_strlit("wl_pointer.enter");
    reveal_strlit("enter");
    assert("wl_pointer.enter"@ =~= "wl_pointer."@ + "enter"@);
    reveal_strlit("wl_pointer.motion");
    reveal_strlit("motion");
    assert("wl_pointer.motion"@ =~= "wl_pointer."@ + "motion"@);
    reveal_strlit("wl_pointer.button");
    reveal_strlit("button");
    assert("wl_pointer.button"@ =~= "wl_pointer."@ + "button"@);
    reveal_strlit("wl_pointer.axis");
    reveal_strlit("axis");
    assert("wl_pointer.axis"@ =~= "wl_pointer."@ + "axis"@);
    reveal_strlit("wl_pointer.axis_source");
    reveal_strlit("axis_source");
    assert("wl_pointer.axis_source"@ =~= "wl_pointer."@ + "axis_source"@);
    reveal_strlit("wl_pointer.axis_stop");
    reveal_strlit("axis_stop");
    assert("wl_pointer.axis_stop"@ =~= "wl_pointer."@ + "axis_stop"@);
    reveal_strlit("wl_pointer.axis_discrete");
    reveal_strlit("axis_discrete");
    assert("wl_pointer.axis_discrete"@ =~= "wl_pointer."@ + "axis_discrete"@);
    reveal_strlit("wl_pointer.axis_value120");
    reveal_strlit("axis_value120");
    assert("wl_pointer.axis_value120"@ =~= "wl_pointer."@ + "axis_value120"@);
    reveal_strlit("wl_pointer.axis_relative_direction");
    reveal_strlit("axis_relative_direction");
    assert("wl_pointer.axis_relative_direction"@ =~= "wl_pointer."@ + "axis_relative_direction"@);
    reveal_strlit("wl_pointer.frame");
    reveal_strlit("frame");
    assert("wl_pointer.frame"@ =~= "wl_pointer."@ + "frame"@);
    reveal_strlit("wl_keyboard.enter");
    reveal_strlit("enter");
    assert("wl_keyboard.enter"@ =~= "wl_keyboard."@ + "enter"@);
    reveal_strlit("wl_keyboard.leave");
    reveal_strlit("leave");
    assert("wl_keyboard.leave"@ =~= "wl_keyboard."@ + "leave"@);
    reveal_strlit("wl_keyboard.key");
    reveal_strlit("key");
    assert("wl_keyboard.key"@ =~= "wl_keyboard."@ + "key"@);
    reveal_strlit("wl_keyboard.modifiers");
    reveal_strlit("modifiers");
    assert("wl_keyboard.modifiers"@ =~= "wl_keyboard."@ + "modifiers"@);
    reveal_strlit("wl_keyboard.repeat_info");
    reveal_strlit("repeat_info");
    assert("wl_keyboard.repeat_info"@ =~= "wl_keyboard."@ + "repeat_info"@);
}

/// What is told of how a buffer is captured names its format, and of shared memory the
/// stride and the place in the pool, of a DMA-BUF how many planes it has and the
/// modifier of each.
pub proof fn buffers_are_told(buffer: BufferView)
    ensures
        buffer.source matches SourceView::Shm(memory) ==> buffer.details()
            == "wl_shm format=0x"@ + text::hex(memory.format as nat, 8, false) + " stride="@
            + text::decimal(memory.stride as nat) + " offset="@ + text::decimal(
            memory.offset as nat,
        ),
        buffer.source matches SourceView::Dmabuf(image) ==> buffer.details()
            == "Vulkan DMA-BUF format=0x"@ + text::hex(image.format as nat, 8, false)
            + " planes="@ + text::decimal(image.planes.len()) + " modifiers=["@
            + crate::surface::modifiers_text(image.planes) + "]"@,
{
}

/// The modifiers of planes are told one after the other, with a comma between two.
pub proof fn modifiers_are_told(planes: Seq<TrackedDmabufPlane>, plane: TrackedDmabufPlane)
    ensures
        crate::surface::modifiers_text(seq![plane]) == "0x"@ + text::hex(
            plane.modifier as nat,
            16,
            false,
        ),
        planes.len() > 0 ==> crate::surface::modifiers_text(planes.push(plane))
            == crate::surface::modifiers_text(planes) + ","@ + crate::surface::modifiers_text(
            seq![plane],
        ),
{
    let one = seq![plane];
    assert(one.drop_last() =~= Seq::<TrackedDmabufPlane>::empty());
    assert(crate::surface::modifiers_text(one.drop_last()) =~= Seq::<char>::empty());
    assert(crate::surface::modifiers_text(one) =~= "0x"@ + text::hex(
        plane.modifier as nat,
        16,
        false,
    ));
    let more = planes.push(plane);
    assert(more.drop_last() =~= planes);
    if planes.len() > 0 {
        assert(crate::surface::modifiers_text(more) =~= crate::surface::modifiers_text(planes)
            + ","@ + crate::surface::modifiers_text(one));
    }
}

/// A caller that has to choose a window is told of each by its name, its title, or else
/// its application, and its width and height, one after the other with a comma between
/// two.
pub proof fn choices_are_told(infos: Seq<WindowInfoView>, info: WindowInfoView)
    ensures
        ({
            let title = match info.title {
                Some(title) => title,
                None => match info.app_id {
                    Some(app_id) => app_id,
                    None => "unnamed"@,
                },
            };
            windows::choices_text(seq![info]) == info.window_id + " ("@ + title + ", "@
                + text::decimal(info.width as nat) + "x"@ + text::decimal(info.height as nat)
                + ")"@
        }),
        infos.len() > 0 ==> windows::choices_text(infos.push(info)) == windows::choices_text(infos)
            + ", "@ + windows::choices_text(seq![info]),
{
    let one = seq![info];
    assert(one.drop_last() =~= Seq::<WindowInfoView>::empty());
    assert(windows::choices_text(one.drop_last()) =~= Seq::<char>::empty());
    assert(windows::choices_text(one) =~= windows::choice_text(info));
    let more = infos.push(info);
    assert(more.drop_last() =~= infos);
    if infos.len() > 0 {
        assert(windows::choices_text(more) =~= windows::choices_text(infos) + ", "@
            + windows::choices_text(one));
    }
}

/// A click outside of a screenshot is refused with the point that was asked for and the
/// size that the screenshot has.
pub proof fn missed_clicks_are_told(known: TrackerView, window_id: Seq<char>, x: i64, y: i64)
    requires
        ({
            let window = known.windows[known.number_of(window_id).unwrap()];
            let surface = known.surfaces[window.wl_surface_id];
            &&& known.number_of(window_id) is Some
            &&& known.surfaces.contains_key(window.wl_surface_id)
            &&& !(0 <= x < surface.width && 0 <= y < surface.height)
        }),
    ensures
        ({
            let window = known.windows[known.number_of(window_id).unwrap()];
            let surface = known.surfaces[window.wl_surface_id];
            known.click_target(window_id, x, y) == Err::<Option<TargetView>, Seq<char>>(
                "click coordinate "@ + point(x, y) + " is outside screenshot bounds "@
                    + text::decimal(surface.width as nat) + "x"@ + text::decimal(
                    surface.height as nat,
                ) + " for window `"@ + window_id + "`"@,
            )
        }),
{
    let window = known.windows[known.number_of(window_id).unwrap()];
    let surface = known.surfaces[window.wl_surface_id];
    reveal_strlit("click coordinate (");
    reveal_strlit("click coordinate ");
    reveal_strlit("(");
    reveal_strlit(")");
    reveal_strlit(") is outside screenshot bounds ");
    reveal_strlit(" is outside screenshot bounds ");
    assert("click coordinate ("@ =~= "click coordinate "@ + "("@);
    assert(") is outside screenshot bounds "@ =~= ")"@ + " is outside screenshot bounds "@);
    let bounds = text::decimal(surface.width as nat) + "x"@ + text::decimal(surface.height as nat)
        + " for window `"@ + window_id + "`"@;
    let said = known.click_target(window_id, x, y)->Err_0;
    let spelt = "click coordinate "@ + point(x, y) + " is outside screenshot bounds "@
        + text::decimal(surface.width as nat) + "x"@ + text::decimal(surface.height as nat)
        + " for window `"@ + window_id + "`"@;
    assert(said =~= "click coordinate ("@ + text::signed_decimal(x as int) + ", "@
        + text::signed_decimal(y as int) + ") is outside screenshot bounds "@ + bounds);
    assert(spelt =~= "click coordinate "@ + point(x, y) + " is outside screenshot bounds "@
        + bounds);
    assert(said =~= spelt);
}

} // verus!
