//! What a console does for its caller: which call a message of the runtime is, what
//! comes back of an evaluation, and how a picture is shown.

use crate::console;
use crate::console::{
    ActionView, CallView, ConsoleView, EventView, ImageView, MessageView, OutputView,
};
use crate::json;
use crate::picture;
use vstd::prelude::*;

verus! {

/// Whether a number that came with a call is a length that was asked for.
pub open spec fn is_length(given: Option<u64>, length: u32) -> bool {
    given matches Some(number) && number == length
}

/// A call asks for what its method and the members of its arguments say, each member
/// under its own name.
pub proof fn call_says_what_it_asks(method: Seq<char>, args: Seq<char>)
    requires
        json::json_fault(args) is None,
    ensures
        ({
            let window = json::json_text(args, "windowId"@);
            let asked = console::chosen_call(method, console::arguments_of(args));
            &&& asked matches Ok(CallView::ResizeWindow { window_id, width, height }) ==> method
                == "resize_window"@ && window == Some(window_id) && is_length(
                json::json_number(args, "width"@),
                width,
            ) && is_length(json::json_number(args, "height"@), height)
            &&& asked matches Ok(CallView::Screenshot { window_id }) ==> method == "screenshot"@
                && window_id == window
            &&& asked matches Ok(
                CallView::CaptureNextFrame { window_id, after_commit_serial, timeout_ms },
            ) ==> method == "capture_next_frame"@ && window_id == window && after_commit_serial
                == json::json_number(args, "afterCommitSerial"@) && timeout_ms == json::json_number(
                args,
                "timeoutMs"@,
            )
            &&& asked matches Ok(CallView::PointerEvent { window_id, event }) ==> method
                == "pointer_event"@ && window_id == window && json::json_part(args, "event"@)
                == Some(event)
            &&& asked matches Ok(CallView::KeyboardEvent { window_id, event }) ==> method
                == "keyboard_event"@ && window_id == window && json::json_part(args, "event"@)
                == Some(event)
            &&& asked matches Ok(CallView::KeyboardTextPlan { window_id, text }) ==> method
                == "keyboard_text_plan"@ && window_id == window && json::json_text(args, "text"@)
                == Some(text)
            &&& asked matches Ok(CallView::Environment) ==> method == "environment"@
            &&& asked matches Ok(CallView::Diagnostics) ==> method == "diagnostics"@
            &&& asked matches Ok(CallView::Windows) ==> method == "windows"@
        }),
{
}

/// A call is refused exactly where there is no such method or where a member that the
/// method needs is missing or, of a size, too large.
pub proof fn call_is_refused_for_cause(method: Seq<char>, args: Seq<char>)
    requires
        json::json_fault(args) is None,
    ensures
        ({
            let asked = console::chosen_call(method, console::arguments_of(args));
            let width = json::json_number(args, "width"@);
            let height = json::json_number(args, "height"@);
            &&& method == "environment"@ || method == "diagnostics"@ || method == "windows"@
                || method == "screenshot"@ || method == "capture_next_frame"@ ==> asked is Ok
            &&& method == "resize_window"@ ==> (asked is Ok <==> json::json_text(
                args,
                "windowId"@,
            ) is Some && (width matches Some(given) && given <= u32::MAX) && (
            height matches Some(given) && given <= u32::MAX))
            &&& method == "pointer_event"@ || method == "keyboard_event"@ ==> (asked is Ok
                <==> json::json_part(args, "event"@) is Some)
            &&& method == "keyboard_text_plan"@ ==> (asked is Ok <==> json::json_text(
                args,
                "text"@,
            ) is Some)
            &&& asked is Ok ==> method == "environment"@ || method == "diagnostics"@ || method
                == "windows"@ || method == "screenshot"@ || method == "capture_next_frame"@
                || method == "resize_window"@ || method == "pointer_event"@ || method
                == "keyboard_event"@ || method == "keyboard_text_plan"@
        }),
{
    reveal_strlit("environment");
    reveal_strlit("diagnostics");
    reveal_strlit("windows");
    reveal_strlit("screenshot");
    reveal_strlit("capture_next_frame");
    reveal_strlit("resize_window");
    reveal_strlit("pointer_event");
    reveal_strlit("keyboard_event");
    reveal_strlit("keyboard_text_plan");
    names_differ();
}

proof fn names_differ()
    ensures
        "environment"@ != "resize_window"@,
        "environment"@ != "pointer_event"@,
        "environment"@ != "keyboard_event"@,
        "environment"@ != "keyboard_text_plan"@,
        "diagnostics"@ != "resize_window"@,
        "diagnostics"@ != "pointer_event"@,
        "diagnostics"@ != "keyboard_event"@,
        "diagnostics"@ != "keyboard_text_plan"@,
        "windows"@ != "resize_window"@,
        "windows"@ != "pointer_event"@,
        "windows"@ != "keyboard_event"@,
        "windows"@ != "keyboard_text_plan"@,
        "screenshot"@ != "resize_window"@,
        "screenshot"@ != "pointer_event"@,
        "screenshot"@ != "keyboard_event"@,
        "screenshot"@ != "keyboard_text_plan"@,
        "capture_next_frame"@ != "resize_window"@,
        "capture_next_frame"@ != "pointer_event"@,
        "capture_next_frame"@ != "keyboard_event"@,
        "capture_next_frame"@ != "keyboard_text_plan"@,
        "resize_window"@ != "pointer_event"@,
        "resize_window"@ != "keyboard_event"@,
        "resize_window"@ != "keyboard_text_plan"@,
        "pointer_event"@ != "keyboard_text_plan"@,
        "keyboard_event"@ != "keyboard_text_plan"@,
{
    reveal_strlit("environment");
    reveal_strlit("diagnostics");
    reveal_strlit("windows");
    reveal_strlit("screenshot");
    reveal_strlit("capture_next_frame");
    reveal_strlit("resize_window");
    reveal_strlit("pointer_event");
    reveal_strlit("keyboard_event");
    reveal_strlit("keyboard_text_plan");
    assert("environment"@[0] == 'e' && "diagnostics"@[0] == 'd' && "windows"@[0] == 'w');
    assert("screenshot"@[0] == 's' && "capture_next_frame"@[0] == 'c');
    assert("resize_window"@[0] == 'r' && "pointer_event"@[0] == 'p');
    assert("keyboard_event"@[0] == 'k' && "keyboard_text_plan"@[0] == 'k');
    assert("keyboard_event"@.len() == 14 && "keyboard_text_plan"@.len() == 18);
}

/// A message of the runtime says what the members of its line say, each member under
/// its own name. What a line leaves out is taken for nothing.
pub proof fn message_says_what_its_line_says(line: Seq<char>)
    requires
        json::json_fault(line) is None,
    ensures
        ({
            let kind = json::json_text(line, "type"@);
            let message = console::message_of(line);
            &&& message is Ok
            &&& message matches Ok(MessageView::NativeCall { call_id, eval_id, method, args }) ==> {
                &&& kind == Some("native_call"@)
                &&& json::json_number(line, "id"@) matches Some(id) ==> call_id == id
                &&& eval_id == json::json_number(line, "evalId"@)
                &&& json::json_text(line, "method"@) matches Some(name) ==> method == name
                &&& json::json_part(line, "args"@) matches Some(part) ==> args == part
            }
            &&& message matches Ok(MessageView::EvalResult { id, logs, result }) ==> {
                &&& kind == Some("eval_result"@)
                &&& json::json_number(line, "id"@) matches Some(given) ==> id == given
                &&& result is Ok <==> json::json_flag(line, "ok"@) == Some(true)
                &&& result matches Ok(value) ==> (json::json_part(line, "value"@) matches Some(part)
                    ==> value == part)
                &&& result matches Err(error) ==> (json::json_text(line, "error"@) matches Some(
                    said,
                ) ==> error == said)
                &&& json::json_texts(line, "logs"@) is None ==> logs.len() == 0
            }
            &&& message matches Ok(MessageView::RuntimeError(error)) ==> kind == Some(
                "runtime_error"@,
            ) && (json::json_text(line, "error"@) matches Some(said) ==> error == said)
            &&& kind == Some("native_call"@) ==> message->Ok_0 is NativeCall
            &&& kind == Some("eval_result"@) ==> message->Ok_0 is EvalResult
            &&& kind == Some("runtime_error"@) ==> message->Ok_0 is RuntimeError
        }),
{
    reveal_strlit("native_call");
    reveal_strlit("eval_result");
    reveal_strlit("runtime_error");
    assert("native_call"@[0] == 'n' && "eval_result"@[0] == 'e' && "runtime_error"@[0] == 'r');
}

/// What an evaluation printed is told line by line, in the order in which it was
/// printed; what is no text is left out.
pub proof fn lines_keep_their_order(texts: Seq<Option<Seq<char>>>, at: int)
    requires
        0 <= at < texts.len(),
    ensures
        ({
            let before = console::present(texts.take(at));
            let told = console::present(texts);
            &&& told.len() <= texts.len()
            &&& before.len() <= told.len()
            &&& told.take(before.len() as int) == before
            &&& texts[at] matches Some(line) ==> before.len() < told.len() && told[
                before.len() as int
            ] == line
            &&& texts[at] is None ==> console::present(texts.take(at + 1)) == before
        }),
    decreases texts.len(),
{
    let rest = texts.drop_last();
    present_is_no_longer(texts);
    if at == texts.len() - 1 {
        assert(texts.take(at) =~= rest);
        assert(texts.take(at + 1) =~= texts);
        let before = console::present(rest);
        assert(console::present(texts).take(before.len() as int) =~= before);
    } else {
        lines_keep_their_order(rest, at);
        assert(rest.take(at) =~= texts.take(at));
        assert(rest.take(at + 1) =~= texts.take(at + 1));
        let before = console::present(texts.take(at));
        assert(console::present(texts).take(before.len() as int) =~= console::present(rest).take(
            before.len() as int,
        ));
    }
}

proof fn present_is_no_longer(texts: Seq<Option<Seq<char>>>)
    ensures
        console::present(texts).len() <= texts.len(),
    decreases texts.len(),
{
    if texts.len() > 0 {
        present_is_no_longer(texts.drop_last());
    }
}

/// An evaluation is answered with the value and the lines that the runtime sends under
/// its number, and with the pictures that were taken for it, in their order; pictures
/// of another evaluation do not come with it.
pub proof fn answer_has_its_pictures(
    console: ConsoleView,
    id: u64,
    other: u64,
    taken: ImageView,
    strange: ImageView,
    logs: Seq<Seq<char>>,
    value: Seq<char>,
    error: Seq<char>,
)
    requires
        console.pending is None,
        other != id,
    ensures
        ({
            let (begun, action) = console.stepped(EventView::Command { id });
            let shown = begun.with_image(Some(other), Some(strange)).with_image(
                Some(id),
                Some(taken),
            ).with_image(None, Some(strange)).with_image(Some(id), Some(strange));
            let told = shown.told(Ok(MessageView::EvalResult { id, logs, result: Ok(value) }));
            let failed = shown.told(Ok(MessageView::EvalResult { id, logs, result: Err(error) }));
            &&& action is Evaluate
            &&& shown.stepped(EventView::Command { id: other }).1 is Refuse
            &&& shown.told(Ok(MessageView::EvalResult { id: other, logs, result: Ok(value) })) == (
                shown,
                ActionView::Ignore,
            )
            &&& told.0.pending is None
            &&& told.1 == (ActionView::Answer {
                id,
                result: Ok(OutputView { value, logs, images: seq![taken, strange] }),
            })
            &&& failed.0.pending is None
            &&& failed.1 == (ActionView::Answer { id, result: Err(error) })
        }),
{
    let begun = console.stepped(EventView::Command { id }).0;
    let shown = begun.with_image(Some(other), Some(strange)).with_image(
        Some(id),
        Some(taken),
    ).with_image(None, Some(strange)).with_image(Some(id), Some(strange));
    assert(shown.pending->0.images =~= seq![taken, strange]);
}

/// A runtime that stops, cannot be told or read, or takes too long is started anew, and
/// the evaluation under way, if there is one, is answered with what went wrong.
pub proof fn trouble_is_answered(console: ConsoleView, error: Seq<char>)
    ensures
        forall|event: EventView| #[trigger]
            is_trouble(event) ==> {
                let (after, action) = console.stepped(event);
                &&& after.pending is None
                &&& after.timeout_ms == console.timeout_ms
                &&& console.pending is None ==> action == ActionView::Restart(None)
                &&& console.pending matches Some(evaluation) ==> (action matches ActionView::Restart(
                    Some((id, _)),
                ) && id == evaluation.id)
            },
{
}

/// Whether an event is one that the runtime does not survive.
pub open spec fn is_trouble(event: EventView) -> bool {
    event is Exited || event is ReadFailed || event is WriteFailed || event is TimedOut
}

/// An evaluation may take as long as is configured, from a second to a quarter of an
/// hour, and two minutes where nothing that can be read is configured.
pub proof fn time_is_kept_within_bounds(value: Option<Seq<char>>)
    ensures
        ({
            let limit = console::evaluation_timeout(value);
            let number = match value {
                Some(content) => console::number_in(content),
                None => None,
            };
            &&& 1_000 <= limit <= 900_000
            &&& number is None ==> limit == 120_000
            &&& number matches Some(given) ==> (1_000 <= given <= 900_000 ==> limit == given) && (
            given < 1_000 ==> limit == 1_000) && (given > 900_000 ==> limit == 900_000)
        }),
{
}

/// Code is taken up to a mebibyte.
pub proof fn long_code_is_refused(length: nat)
    ensures
        console::code_verdict(length) is Ok <==> length <= 1024 * 1024,
{
}

/// The number that a preview's coordinates are multiplied by leads from the preview to
/// the whole picture: from its last column to the last column, and from its last row to
/// the last row. Where the picture is its own preview, the number is one.
pub proof fn scale_leads_to_the_picture(
    image: ImageView,
    bytes: Seq<u8>,
    preview: Option<(Seq<u8>, u32, u32, u32, u32)>,
    size: Result<(u32, u32), Seq<char>>,
)
    ensures
        ({
            let shown = picture::embedded(bytes, preview, size);
            let report = console::reported(image, shown);
            &&& report.path == image.path
            &&& report.color == image.color
            &&& report.preview.0 * report.x_scale.0 == report.full.0 * report.x_scale.1
            &&& report.preview.1 * report.y_scale.0 == report.full.1 * report.y_scale.1
            &&& preview is None ==> report.preview == report.full && report.x_scale == (1u32, 1u32)
                && report.y_scale == (1u32, 1u32) && report.data == picture::base64_text(bytes)
            &&& preview is None ==> (size matches Ok(found) ==> report.full == found)
            &&& preview matches Some((small, full_width, full_height, width, height)) ==> {
                &&& report.full == (full_width, full_height)
                &&& report.preview == (width, height)
                &&& report.data == picture::base64_text(small)
            }
        }),
{
    let shown = picture::embedded(bytes, preview, size);
    let report = console::reported(image, shown);
    assert(shown.width * shown.full_width == shown.full_width * shown.width) by (nonlinear_arith);
    assert(shown.height * shown.full_height == shown.full_height * shown.height)
        by (nonlinear_arith);
}

/// A picture has a preview exactly where it is larger than one may be, can be reduced,
/// and was reduced; the preview is told with the size of the whole picture.
pub proof fn large_pictures_are_reduced(bytes: Seq<u8>)
    ensures
        ({
            let size = picture::image_size(bytes);
            let small = picture::thumbnail_of(bytes, 1600, 1000);
            let preview = picture::preview_of(bytes);
            &&& preview is Some <==> (size matches Ok((width, height)) && (width > 1600 || height
                > 1000)) && small is Some
            &&& preview matches Some((data, full_width, full_height, width, height)) ==> size == Ok::<
                (u32, u32),
                Seq<char>,
            >((full_width, full_height)) && small == Some((data, width, height))
        }),
{
}

/// The number that a character of base64 stands for.
pub open spec fn sextet(c: char) -> int {
    let code = c as u32;
    if 65 <= code <= 90 {
        code - 65
    } else if 97 <= code <= 122 {
        code - 71
    } else if 48 <= code <= 57 {
        code + 4
    } else if code == 43 {
        62
    } else if code == 47 {
        63
    } else {
        -1
    }
}

/// The bytes that base64 stands for, four characters at a time.
pub open spec fn unpacked(text: Seq<char>) -> Seq<int>
    decreases text.len(),
{
    if text.len() < 4 {
        Seq::empty()
    } else {
        let a = sextet(text[0]);
        let b = sextet(text[1]);
        let c = sextet(text[2]);
        let d = sextet(text[3]);
        let first = seq![a * 4 + b / 16];
        let second = seq![b % 16 * 16 + c / 4];
        let third = seq![c % 4 * 64 + d];
        (if text[2] == '=' {
            first
        } else if text[3] == '=' {
            first + second
        } else {
            first + second + third
        }) + unpacked(text.skip(4))
    }
}

proof fn character_has_its_sextet(bits: int)
    requires
        0 <= bits < 64,
    ensures
        sextet(picture::base64_char(bits)) == bits,
        picture::base64_char(bits) != '=',
{
}

/// Bytes in base64 are read back, and take four characters for every three of them
/// that are begun.
pub proof fn base64_is_read_back(bytes: Seq<u8>)
    ensures
        picture::base64_text(bytes).len() == (bytes.len() + 2) / 3 * 4,
        unpacked(picture::base64_text(bytes)) == bytes.map_values(|byte: u8| byte as int),
    decreases bytes.len(),
{
    let text = picture::base64_text(bytes);
    let values = bytes.map_values(|byte: u8| byte as int);
    if bytes.len() == 0 {
        assert(unpacked(text) =~= values);
    } else {
        let a = bytes[0] as int;
        let b = if bytes.len() > 1 {
            bytes[1] as int
        } else {
            0
        };
        let c = if bytes.len() > 2 {
            bytes[2] as int
        } else {
            0
        };
        character_has_its_sextet(a / 4);
        character_has_its_sextet(a % 4 * 16 + b / 16);
        character_has_its_sextet(b % 16 * 4 + c / 64);
        character_has_its_sextet(c % 64);
        let rest = if bytes.len() > 3 {
            bytes.skip(3)
        } else {
            Seq::empty()
        };
        let tail = rest.map_values(|byte: u8| byte as int);
        base64_is_read_back(rest);
        assert(text.skip(4) =~= picture::base64_text(rest));
        if bytes.len() == 1 {
            assert(unpacked(text) =~= values);
        } else if bytes.len() == 2 {
            assert(unpacked(text) =~= values);
        } else {
            assert(values =~= seq![a, b, c] + tail);
            assert(unpacked(text) =~= values);
        }
    }
}

/// The note of a keyword is the first one under it, and there is none exactly where
/// nothing is noted under it.
pub proof fn first_note_is_found(notes: Seq<(Seq<char>, Seq<char>)>, keyword: Seq<char>)
    ensures
        picture::first_note(notes, keyword) matches Some(note) ==> exists|i: int|
            0 <= i < notes.len() && #[trigger] notes[i] == (keyword, note) && forall|j: int|
                0 <= j < i ==> (#[trigger] notes[j]).0 != keyword,
        picture::first_note(notes, keyword) is None ==> forall|i: int|
            0 <= i < notes.len() ==> (#[trigger] notes[i]).0 != keyword,
    decreases notes.len(),
{
    if notes.len() > 0 {
        if notes[0].0 == keyword {
            assert(notes[0] == (keyword, notes[0].1));
        } else {
            let rest = notes.skip(1);
            first_note_is_found(rest, keyword);
            if let Some(note) = picture::first_note(rest, keyword) {
                let i = choose|i: int|
                    0 <= i < rest.len() && #[trigger] rest[i] == (keyword, note) && forall|j: int|
                        0 <= j < i ==> (#[trigger] rest[j]).0 != keyword;
                assert(notes[i + 1] == (keyword, note));
                assert forall|j: int| 0 <= j < i + 1 implies (#[trigger] notes[j]).0 != keyword by {
                    if j > 0 {
                        assert(rest[j - 1] == notes[j]);
                    }
                }
            } else {
                assert forall|i: int| 0 <= i < notes.len() implies (#[trigger] notes[i]).0
                    != keyword by {
                    if i > 0 {
                        assert(rest[i - 1] == notes[i]);
                    }
                }
            }
        }
    }
}

/// A call of the runtime is made as the runtime says, and the evaluation goes on; what
/// cannot be read, and what the runtime reports of itself, ends it with what is said.
pub proof fn runtime_is_heard(
    console: ConsoleView,
    call_id: u64,
    eval_id: Option<u64>,
    method: Seq<char>,
    args: Seq<char>,
    said: Seq<char>,
)
    ensures
        console.told(Ok(MessageView::NativeCall { call_id, eval_id, method, args })) == (
            console,
            ActionView::Call { call_id, eval_id, method, args },
        ),
        console.told(Ok(MessageView::Other)) == (console, ActionView::Ignore),
        ({
            let (after, action) = console.told(Ok(MessageView::RuntimeError(said)));
            &&& after.pending is None
            &&& action == ActionView::Restart(
                match console.pending {
                    Some(evaluation) => Some((evaluation.id, said)),
                    None => None,
                },
            )
        }),
        ({
            let (after, action) = console.told(Err(said));
            &&& after.pending is None
            &&& console.pending matches Some(evaluation) ==> action == ActionView::Restart(
                Some(
                    (
                        evaluation.id,
                        "invalid JavaScript console response: "@ + said
                            + "; the runtime was restarted and its state was cleared"@,
                    ),
                ),
            )
        }),
        console.stepped(EventView::CommandsClosed) == (console, ActionView::Close),
{
}

} // verus!
