use wayland_mcp::artifact::{ArtifactNumbers, check_tool, directory_name, sanitize_filename, tool_inventory};
use wayland_mcp::console::{
    CallArguments, ConsoleAction, ConsoleEvent, ConsoleMessage, JsConsoleImage, JsConsoleSession,
    JsEvalOutput, MessageParts, NativeCall, check_code, choose_call, compose_message,
    describe_image, evaluation_timeout_from_env, image_report, optional_string, read_message,
    read_native_call, report_image, retained_image,
};
use wayland_mcp::picture::{
    EmbeddedImage, bounded_png_preview, can_be_reduced, convert_rgba8_colors, coordinate_space,
    embedded_image, encode_rgba_png, find_color_note, needs_preview, pick_color_note, picture_size,
};

#[test]
fn advertises_exactly_one_persistent_console() {
    let tools = tool_inventory();
    assert_eq!(tools.len(), 1);
    assert_eq!(tools[0].name, "gui_console");
    assert_eq!(tools[0].required, vec!["code".to_string()]);
    assert!(
        !tools[0]
            .properties
            .iter()
            .any(|property| property.name == "action")
    );
}

#[test]
fn captured_color_notice_survives_png_and_retention() {
    let color =
        "{\"notice\":\"SDR sRGB preview, not the original HDR window\",\"tone_mapped\":true}";
    let png = encode_rgba_png(1, 1, &vec![128, 128, 128, 255], &Some(color.to_string())).unwrap();
    let reader = png::Decoder::new(std::io::Cursor::new(&png))
        .read_info()
        .unwrap();
    assert_eq!(
        reader.info().srgb,
        Some(png::SrgbRenderingIntent::Perceptual)
    );
    let (image, width, height) = retained_image("color-test.png".to_string(), png.clone()).unwrap();
    assert_eq!((width, height), (1, 1));
    assert_eq!(image.bytes, png);
    assert_eq!(image.path, "color-test.png");
    let kept: serde_json::Value = serde_json::from_str(&image.color.unwrap()).unwrap();
    let expected: serde_json::Value = serde_json::from_str(color).unwrap();
    assert_eq!(kept, expected);
}

#[test]
fn pictures_without_a_note_have_none() {
    let png = encode_rgba_png(2, 1, &vec![1, 2, 3, 255, 4, 5, 6, 255], &None).unwrap();
    assert_eq!(find_color_note(&png), Ok(None));
    assert_eq!(picture_size(&png), Ok((2, 1)));
    let (image, ..) = retained_image("plain.png".to_string(), png).unwrap();
    assert_eq!(image.color, None);
}

#[test]
fn only_the_note_on_colors_counts() {
    let mut bytes = Vec::new();
    {
        let mut encoder = png::Encoder::new(&mut bytes, 1, 1);
        encoder.set_color(png::ColorType::Rgba);
        encoder.set_depth(png::BitDepth::Eight);
        encoder
            .add_text_chunk("Author".to_string(), "someone".to_string())
            .unwrap();
        encoder
            .add_text_chunk("wayland-mcp-color".to_string(), "1".to_string())
            .unwrap();
        encoder
            .add_text_chunk("wayland-mcp-color".to_string(), "2".to_string())
            .unwrap();
        let mut writer = encoder.write_header().unwrap();
        writer.write_image_data(&[0, 0, 0, 0]).unwrap();
    }
    assert_eq!(find_color_note(&bytes), Ok(Some("1".to_string())));
}

#[test]
fn pixels_that_make_no_picture_are_refused() {
    assert!(encode_rgba_png(0, 1, &vec![], &None).is_err());
    assert!(encode_rgba_png(1, 0, &vec![], &None).is_err());
    assert!(encode_rgba_png(1, 1, &vec![0; 3], &None).is_err());
    assert!(encode_rgba_png(1, 1, &vec![0; 4], &Some("\u{20ac}".to_string())).is_err());
    assert!(encode_rgba_png(1, 1, &vec![0; 4], &Some("\u{ff}".to_string())).is_ok());
}

#[test]
fn files_that_are_no_pictures_are_not_retained() {
    let error = retained_image("x.png".to_string(), b"png bytes".to_vec()).unwrap_err();
    assert!(error.starts_with("captured invalid PNG: "));
    assert!(find_color_note(&b"png bytes".to_vec()).is_err());
    let png = encode_rgba_png(1, 1, &vec![0; 4], &Some("{".to_string())).unwrap();
    assert!(retained_image("x.png".to_string(), png).is_err());
}

#[test]
fn large_pictures_are_reduced_to_a_preview() {
    let png = encode_rgba_png(3200, 10, &vec![7; 3200 * 10 * 4], &None).unwrap();
    let (small, full_width, full_height, width, height) = bounded_png_preview(&png).unwrap();
    assert_eq!((full_width, full_height, width, height), (3200, 10, 1600, 5));
    assert_eq!(picture_size(&small), Ok((1600, 5)));
    assert_ne!(small, png);

    let image = embedded_image(&png).unwrap();
    assert!(image.reduced);
    assert_eq!((image.full_width, image.full_height), (3200, 10));
    assert_eq!((image.width, image.height), (1600, 5));
    assert_ne!(coordinate_space(true), coordinate_space(false));
}

#[test]
fn small_pictures_are_embedded_whole() {
    let png = encode_rgba_png(1600, 1000, &vec![9; 1600 * 1000 * 4], &None).unwrap();
    assert_eq!(bounded_png_preview(&png), None);
    let image = embedded_image(&png).unwrap();
    assert!(!image.reduced);
    assert_eq!((image.full_width, image.full_height), (1600, 1000));
    assert_eq!((image.width, image.height), (1600, 1000));
}

#[test]
fn unreadable_pictures_are_embedded_without_a_size() {
    let image = embedded_image(&b"Man".to_vec()).unwrap();
    assert_eq!(image.data, "TWFu");
    assert_eq!((image.full_width, image.full_height), (0, 0));
    assert_eq!(embedded_image(&b"Ma".to_vec()).unwrap().data, "TWE=");
    assert_eq!(embedded_image(&b"M".to_vec()).unwrap().data, "TQ==");
    assert_eq!(embedded_image(&vec![251, 255, 191]).unwrap().data, "+/+/");
    assert_eq!(embedded_image(&Vec::new()).unwrap().data, "");
}

#[test]
fn each_whole_pixel_is_converted() {
    let swap = Some(|r: u8, g: u8, b: u8, a: u8| (b, g, r, a));
    let mut rgba = vec![1, 2, 3, 4, 5, 6, 7, 8, 9, 10];
    convert_rgba8_colors(&mut rgba, &swap);
    assert_eq!(rgba, vec![3, 2, 1, 4, 7, 6, 5, 8, 9, 10]);
    let mut nothing = swap;
    nothing.take();
    convert_rgba8_colors(&mut rgba, &nothing);
    assert_eq!(rgba, vec![3, 2, 1, 4, 7, 6, 5, 8, 9, 10]);
}

#[test]
fn lines_of_the_runtime_are_read() {
    assert_eq!(
        read_message(
            "{\"type\":\"native_call\",\"id\":3,\"evalId\":2,\"method\":\"windows\",\"args\":{\"a\":1}}"
        ),
        Ok(ConsoleMessage::NativeCall {
            call_id: 3,
            eval_id: Some(2),
            method: "windows".to_string(),
            args: "{\"a\":1}".to_string(),
        })
    );
    assert_eq!(
        read_message("{\"type\":\"native_call\"}"),
        Ok(ConsoleMessage::NativeCall {
            call_id: 0,
            eval_id: None,
            method: String::new(),
            args: "{}".to_string(),
        })
    );
    assert_eq!(
        read_message("{\"type\":\"eval_result\",\"id\":4,\"ok\":true,\"value\":[1,2],\"logs\":[\"a\",7,\"b\"]}"),
        Ok(ConsoleMessage::EvalResult {
            id: 4,
            logs: vec!["a".to_string(), "b".to_string()],
            result: Ok("[1,2]".to_string()),
        })
    );
    assert_eq!(
        read_message("{\"type\":\"eval_result\",\"id\":4,\"ok\":true}"),
        Ok(ConsoleMessage::EvalResult {
            id: 4,
            logs: Vec::new(),
            result: Ok("null".to_string()),
        })
    );
    assert_eq!(
        read_message("{\"type\":\"eval_result\",\"error\":\"boom\"}"),
        Ok(ConsoleMessage::EvalResult {
            id: 0,
            logs: Vec::new(),
            result: Err("boom".to_string()),
        })
    );
    assert_eq!(
        read_message("{\"type\":\"eval_result\",\"ok\":false}"),
        Ok(ConsoleMessage::EvalResult {
            id: 0,
            logs: Vec::new(),
            result: Err("JavaScript evaluation failed".to_string()),
        })
    );
    assert_eq!(
        read_message("{\"type\":\"runtime_error\"}"),
        Ok(ConsoleMessage::RuntimeError(
            "JavaScript runtime error".to_string()
        ))
    );
    assert_eq!(read_message("{\"type\":7}"), Ok(ConsoleMessage::Other));
    assert_eq!(read_message("[]"), Ok(ConsoleMessage::Other));
    assert!(read_message("{").is_err());
}

fn image(path: &str) -> JsConsoleImage {
    JsConsoleImage {
        color: None,
        bytes: vec![1],
        path: path.to_string(),
    }
}

#[test]
fn an_evaluation_is_answered_with_its_pictures() {
    let mut console = JsConsoleSession::new(5_000);
    assert_eq!(
        console.step(&ConsoleEvent::Command { id: 8 }),
        ConsoleAction::Evaluate
    );
    assert_eq!(
        console.step(&ConsoleEvent::Command { id: 9 }),
        ConsoleAction::Refuse("the JavaScript console is already evaluating code".to_string())
    );
    console.keep_image(Some(8), Some(image("a")));
    console.keep_image(Some(7), Some(image("b")));
    console.keep_image(None, Some(image("c")));
    console.keep_image(Some(8), None);
    assert_eq!(
        console.step(&ConsoleEvent::Line(
            "{\"type\":\"eval_result\",\"id\":7,\"ok\":true}".to_string()
        )),
        ConsoleAction::Ignore
    );
    assert_eq!(
        console.step(&ConsoleEvent::Line(
            "{\"type\":\"eval_result\",\"id\":8,\"ok\":true,\"value\":42,\"logs\":[\"x\"]}".to_string()
        )),
        ConsoleAction::Answer {
            id: 8,
            result: Ok(JsEvalOutput {
                value: "42".to_string(),
                logs: vec!["x".to_string()],
                images: vec![image("a")],
            }),
        }
    );
    assert_eq!(console, JsConsoleSession::new(5_000));
}

#[test]
fn the_runtime_is_restarted_when_it_fails() {
    let cases = [
        (
            ConsoleEvent::Exited,
            "JavaScript console process exited; the runtime was restarted and its state was cleared",
        ),
        (
            ConsoleEvent::TimedOut,
            "JavaScript evaluation exceeded 1500 ms; the runtime was restarted and its state was cleared",
        ),
        (
            ConsoleEvent::ReadFailed("gone".to_string()),
            "failed to read JavaScript console: gone; the runtime was restarted and its state was cleared",
        ),
        (
            ConsoleEvent::WriteFailed("full".to_string()),
            "full; the JavaScript runtime was restarted and its state was cleared",
        ),
        (
            ConsoleEvent::Line("{\"type\":\"runtime_error\",\"error\":\"lost\"}".to_string()),
            "lost",
        ),
    ];
    for (event, message) in cases {
        let mut console = JsConsoleSession::new(1_500);
        assert_eq!(console.step(&event), ConsoleAction::Restart(None));
        console.step(&ConsoleEvent::Command { id: 1 });
        assert_eq!(
            console.step(&event),
            ConsoleAction::Restart(Some((1, message.to_string())))
        );
        assert_eq!(console, JsConsoleSession::new(1_500));
    }
    let mut console = JsConsoleSession::new(1_500);
    console.step(&ConsoleEvent::Command { id: 1 });
    match console.step(&ConsoleEvent::Line("not json".to_string())) {
        ConsoleAction::Restart(Some((1, message))) => {
            assert!(message.starts_with("invalid JavaScript console response: "));
            assert!(message.ends_with("; the runtime was restarted and its state was cleared"));
        }
        other => panic!("unexpected action {other:?}"),
    }
    assert_eq!(
        console.step(&ConsoleEvent::CommandsClosed),
        ConsoleAction::Close
    );
}

#[test]
fn a_call_of_the_runtime_is_passed_on() {
    let mut console = JsConsoleSession::new(1_500);
    assert_eq!(
        console.step(&ConsoleEvent::Line(
            "{\"type\":\"native_call\",\"id\":1,\"method\":\"environment\"}".to_string()
        )),
        ConsoleAction::Call {
            call_id: 1,
            eval_id: None,
            method: "environment".to_string(),
            args: "{}".to_string(),
        }
    );
}

#[test]
fn calls_of_the_runtime_are_read() {
    assert_eq!(read_native_call("environment", "{}"), Ok(NativeCall::Environment));
    assert_eq!(read_native_call("diagnostics", "{}"), Ok(NativeCall::Diagnostics));
    assert_eq!(read_native_call("windows", "{}"), Ok(NativeCall::Windows));
    assert_eq!(
        read_native_call("resize_window", "{\"windowId\":\"w\",\"width\":640,\"height\":480}"),
        Ok(NativeCall::ResizeWindow {
            window_id: "w".to_string(),
            width: 640,
            height: 480,
        })
    );
    assert_eq!(
        read_native_call("screenshot", "{\"windowId\":5}"),
        Ok(NativeCall::Screenshot { window_id: None })
    );
    assert_eq!(
        read_native_call(
            "capture_next_frame",
            "{\"windowId\":\"w\",\"afterCommitSerial\":3,\"timeoutMs\":20}"
        ),
        Ok(NativeCall::CaptureNextFrame {
            window_id: Some("w".to_string()),
            after_commit_serial: Some(3),
            timeout_ms: Some(20),
        })
    );
    assert_eq!(
        read_native_call("pointer_event", "{\"event\":{\"type\":\"frame\"}}"),
        Ok(NativeCall::PointerEvent {
            window_id: None,
            event: "{\"type\":\"frame\"}".to_string(),
        })
    );
    assert_eq!(
        read_native_call("keyboard_event", "{\"windowId\":\"w\",\"event\":null}"),
        Ok(NativeCall::KeyboardEvent {
            window_id: Some("w".to_string()),
            event: "null".to_string(),
        })
    );
    assert_eq!(
        read_native_call("keyboard_text_plan", "{\"text\":\"hi\"}"),
        Ok(NativeCall::KeyboardTextPlan {
            window_id: None,
            text: "hi".to_string(),
        })
    );
}

#[test]
fn calls_with_missing_arguments_are_refused() {
    for (method, args, message) in [
        ("resize_window", "{}", "resizeWindow requires windowId"),
        (
            "resize_window",
            "{\"windowId\":\"w\",\"width\":-1}",
            "resizeWindow requires a positive integer width",
        ),
        (
            "resize_window",
            "{\"windowId\":\"w\",\"width\":4294967296}",
            "resizeWindow requires a positive integer width",
        ),
        (
            "resize_window",
            "{\"windowId\":\"w\",\"width\":1}",
            "resizeWindow requires a positive integer height",
        ),
        ("pointer_event", "{}", "pointerEvent requires event"),
        ("keyboard_event", "{}", "keyboardEvent requires event"),
        ("keyboard_text_plan", "{\"text\":1}", "typeText requires text"),
        ("dance", "{}", "unknown JavaScript native call `dance`"),
    ] {
        assert_eq!(read_native_call(method, args), Err(message.to_string()));
    }
    assert_eq!(optional_string("{\"a\":\"b\"}", "a"), Some("b".to_string()));
    assert_eq!(optional_string("{\"a\":\"b\"}", "c"), None);
    assert_eq!(optional_string("nonsense", "a"), None);
}

#[test]
fn oversized_code_is_refused() {
    assert_eq!(check_code(&"x".repeat(1_048_576)), Ok(()));
    assert_eq!(
        check_code(&"x".repeat(1_048_577)),
        Err(
            "JavaScript evaluation is 1048577 bytes; the limit is 1048576 bytes".to_string()
        )
    );
    assert!(check_code(&"\u{e9}".repeat(524_289)).is_err());
}

#[test]
fn the_time_for_an_evaluation_is_bounded() {
    let timeout = |value: &str| evaluation_timeout_from_env(&Some(value.to_string()));
    assert_eq!(evaluation_timeout_from_env(&None), 120_000);
    assert_eq!(timeout("5000"), 5_000);
    assert_eq!(timeout("+5000"), 5_000);
    assert_eq!(timeout("0"), 1_000);
    assert_eq!(timeout("900001"), 900_000);
    for value in ["", "+", "-1", " 5000", "5_000", "18446744073709551616"] {
        assert_eq!(timeout(value), 120_000);
    }
    assert_eq!(timeout("18446744073709551615"), 900_000);
}

#[test]
fn files_are_named_after_windows() {
    assert_eq!(sanitize_filename("window/1 \u{e9}.-_Z9"), "window_1___-_Z9");
    assert_eq!(sanitize_filename(&"ab".repeat(60)), "ab".repeat(40));
    let mut numbers = ArtifactNumbers::new();
    assert_eq!(
        numbers.name_png("console-screenshot", &Some("a/b".to_string())),
        "000001-console-screenshot-a_b.png"
    );
    assert_eq!(numbers.name_png("x", &None), "000002-x-auto.png");
    numbers.next_id = u64::MAX;
    assert_eq!(
        numbers.name_png("x", &None),
        "18446744073709551615-x-auto.png"
    );
    assert_eq!(numbers.next_id, 0);
    assert_eq!(
        directory_name(12, 345, 6),
        "wayland-mcp-artifacts-12-345-6"
    );
}

#[test]
fn other_tools_are_unknown() {
    assert_eq!(check_tool("gui_console"), Ok(()));
    assert_eq!(
        check_tool("gui_click"),
        Err("unknown tool: gui_click".to_string())
    );
}

#[test]
fn messages_are_composed_of_their_members() {
    let nothing = || MessageParts {
        kind: None,
        id: None,
        eval_id: None,
        method: None,
        args: None,
        ok: None,
        value: None,
        error: None,
        logs: None,
    };
    assert_eq!(compose_message(nothing()), ConsoleMessage::Other);
    let call = MessageParts {
        kind: Some("native_call".to_string()),
        id: Some(3),
        method: Some("windows".to_string()),
        ..nothing()
    };
    assert_eq!(
        compose_message(call),
        ConsoleMessage::NativeCall {
            call_id: 3,
            eval_id: None,
            method: "windows".to_string(),
            args: "{}".to_string(),
        }
    );
    let result = MessageParts {
        kind: Some("eval_result".to_string()),
        ok: Some(true),
        logs: Some(vec![Some("a".to_string()), None]),
        ..nothing()
    };
    assert_eq!(
        compose_message(result),
        ConsoleMessage::EvalResult {
            id: 0,
            logs: vec!["a".to_string()],
            result: Ok("null".to_string()),
        }
    );
}

#[test]
fn unreadable_messages_restart_the_runtime() {
    let mut console = JsConsoleSession::new(1_000);
    assert_eq!(
        console.step(&ConsoleEvent::Command { id: 4 }),
        ConsoleAction::Evaluate
    );
    assert_eq!(
        console.hear(Err("broken".to_string())),
        ConsoleAction::Restart(Some((
            4,
            "invalid JavaScript console response: broken; the runtime was restarted and its state was cleared"
                .to_string()
        )))
    );
    assert_eq!(console.hear(Ok(ConsoleMessage::Other)), ConsoleAction::Ignore);
}

#[test]
fn calls_are_chosen_by_method_and_arguments() {
    let nothing = || CallArguments {
        window_id: None,
        width: None,
        height: None,
        after_commit_serial: None,
        timeout_ms: None,
        event: None,
        text: None,
    };
    let sized = CallArguments {
        window_id: Some("w".to_string()),
        width: Some(640),
        height: Some(1 << 32),
        ..nothing()
    };
    assert_eq!(
        choose_call("resize_window", sized),
        Err("resizeWindow requires a positive integer height".to_string())
    );
    assert_eq!(
        choose_call("screenshot", nothing()),
        Ok(NativeCall::Screenshot { window_id: None })
    );
}

#[test]
fn images_are_described_by_what_was_found() {
    let describe = |size, note, fault| {
        describe_image("p".to_string(), vec![1], size, note, fault).map(|(_, w, h)| (w, h))
    };
    assert_eq!(describe(Ok((2, 3)), Ok(None), None), Ok((2, 3)));
    assert_eq!(
        describe(Err("bad".to_string()), Ok(None), None),
        Err("captured invalid PNG: bad".to_string())
    );
    assert_eq!(
        describe(Ok((2, 3)), Err("torn".to_string()), None),
        Err("torn".to_string())
    );
    assert_eq!(
        describe(Ok((2, 3)), Ok(Some("{".to_string())), Some("open".to_string())),
        Err("open".to_string())
    );
    let notes = vec![
        ("Title".to_string(), "x".to_string()),
        ("wayland-mcp-color".to_string(), "y".to_string()),
        ("wayland-mcp-color".to_string(), "z".to_string()),
    ];
    assert_eq!(pick_color_note(&notes), Some("y".to_string()));
    assert!(!needs_preview(&Ok((1600, 1000))));
    assert!(needs_preview(&Ok((1601, 1))) && needs_preview(&Ok((1, 1001))));
    assert!(!needs_preview(&Err("no image".to_string())));
}

#[test]
fn reports_tell_of_pictures_and_their_scale() {
    let image = JsConsoleImage {
        color: Some("{}".to_string()),
        bytes: Vec::new(),
        path: "/tmp/frame.png".to_string(),
    };
    let shown = EmbeddedImage {
        data: "TQ==".to_string(),
        full_width: 3840,
        full_height: 2160,
        width: 1280,
        height: 720,
        reduced: true,
    };
    let report = report_image(&image, shown);
    assert_eq!(report.path, "/tmp/frame.png");
    assert_eq!(report.data, "TQ==");
    assert_eq!((report.full, report.preview), ((3840, 2160), (1280, 720)));
    assert_eq!(
        (report.x_scale, report.y_scale),
        ((3840, 1280), (2160, 720))
    );
    assert_eq!(report.coordinate_space, coordinate_space(true));
    assert_eq!(report.color, Some("{}".to_string()));

    let whole = image_report(&image).unwrap();
    assert_eq!((whole.x_scale, whole.y_scale), ((1, 1), (1, 1)));
    assert_eq!((whole.full, whole.preview), ((0, 0), (0, 0)));
    assert_eq!(whole.coordinate_space, coordinate_space(false));
    assert_eq!(whole.color, Some("{}".to_string()));
}

fn grey_row(width: u32, depth: png::BitDepth, sample_bytes: usize) -> Vec<u8> {
    let mut file = Vec::new();
    let mut encoder = png::Encoder::new(&mut file, width, 1);
    encoder.set_color(png::ColorType::Grayscale);
    encoder.set_depth(depth);
    let mut writer = encoder.write_header().unwrap();
    writer
        .write_image_data(&vec![255; width as usize * sample_bytes])
        .unwrap();
    drop(writer);
    file
}

#[test]
fn pictures_of_wide_samples_are_reduced_within_bounds() {
    for (width, depth, sample_bytes, reduced) in [
        (320_000, png::BitDepth::Sixteen, 2, true),
        (320_001, png::BitDepth::Sixteen, 2, false),
        (320_001, png::BitDepth::Eight, 1, true),
    ] {
        let file = grey_row(width, depth, sample_bytes);
        let image = embedded_image(&file).unwrap();
        assert_eq!(image.reduced, reduced);
        assert_eq!((image.full_width, image.full_height), (width, 1));
        let shown = if reduced { 1600 } else { width };
        assert_eq!((image.width, image.height), (shown, 1));
    }
    let tall = Ok((1, 200_001));
    assert!(!can_be_reduced(&tall, Some((8, 4))));
    assert!(can_be_reduced(&tall, Some((4, 4))));
    assert!(can_be_reduced(&Ok((320_000, 200_000)), Some((8, 4))));
    assert!(can_be_reduced(&Err("unreadable".to_string()), None));
}
