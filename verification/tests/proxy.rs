use wayland_mcp::capture::PlannedPixels;
use wayland_mcp::clients::{
    ClientCourse, RelayCourse, closing_detail, endpoint_is_live, replace_endpoint,
};
use wayland_mcp::decode::{WaylandInterceptArg, WaylandWireMessage};
use wayland_mcp::desktop::{
    GuiClickRequest, GuiPointerMoveRequest, GuiResizeWindowRequest, GuiWaylandKeyboardEventRequest,
    GuiWaylandPointerEventRequest,
};
use wayland_mcp::frames::{
    CapturedFrame, FrameStep, GuiCaptureNextFrameRequest, GuiScreenshotRequest, begin_next_frame,
};
use wayland_mcp::framing::{check_sent, join_message, remaining_bytes};
use wayland_mcp::globals::WaylandGlobalInfo;
use wayland_mcp::input::{GuiWaylandKeyboardEvent, GuiWaylandPointerEvent, fixed_from_i64};
use wayland_mcp::keymap::{
    TextStroke, XkbKey, XkbLevel, XkbTable, find_stroke, keymap_source, modifier_mask, plan_text,
    quoted_character,
};
use wayland_mcp::launch::{
    Endpoint, SocketPlace, WaylandProxyConfig, backend_socket_path, restart_error,
    screenshot_unavailable_message, unix_time_ms, wayland_timestamp_ms_u32,
};
use wayland_mcp::messages::{GeneratedEvent, encode_generated_event};
use wayland_mcp::picture::{find_color_note, picture_size};
use wayland_mcp::relay::{
    Discovery, IoError, is_normal_client_disconnect, is_timeout_error, string_error_to_io,
};
use wayland_mcp::server::WaylandProxyServer;
use wayland_mcp::session::{WaylandBackendSession, WaylandClientId};
use wayland_mcp::sync::{NodeSearch, drm_iowr, monotonic_timeout_nsec};
use wayland_mcp::wire::{
    DecodedWaylandArg, decode_wayland_header, encode_u32_message, encode_wayland_message,
    is_low_byte_first, read_string_arg, read_u32_arg, read_wayland_message,
};

fn server() -> WaylandProxyServer {
    WaylandProxyServer::new(WaylandProxyConfig::from_env(None, None))
}

fn own_globals() -> Vec<WaylandGlobalInfo> {
    vec![WaylandGlobalInfo {
        name: 1,
        interface: "wl_compositor".to_string(),
        version: 6,
    }]
}

fn arrive(server: &mut WaylandProxyServer) -> WaylandClientId {
    let client_id =
        server.register_client_session(own_globals(), Err("no compositor".to_string()), 10);
    server
        .track_object_interface(client_id, 1, "wl_display")
        .unwrap();
    client_id
}

/// Gives a client a window of four by two pixels, and a pointer and a keyboard.
fn open_window(server: &mut WaylandProxyServer, client_id: WaylandClientId) -> String {
    let mut session = server.sessions.remove(client_id.0).unwrap();
    session.client_event_writer = true;
    session.track_object_interface_version(60, "wl_pointer", 9);
    session.track_object_interface_version(61, "wl_keyboard", 9);
    let tracker = &mut session.frame_tracker;
    tracker.note_xdg_surface_created(30, 10);
    let window_id = tracker.note_xdg_toplevel_created(30, 31).unwrap();
    let mut surface = tracker.take_surface(10);
    surface.width = 4;
    surface.height = 2;
    surface.rgba = vec![255; 32];
    surface.has_committed_buffer = true;
    tracker.put_surface(10, surface);
    tracker.commit_surface(10);
    server.sessions.insert(client_id.0, session);
    window_id
}

fn commit(server: &mut WaylandProxyServer, client_id: WaylandClientId) {
    let mut session = server.sessions.remove(client_id.0).unwrap();
    session.frame_tracker.commit_surface(10);
    server.sessions.insert(client_id.0, session);
}

#[test]
fn messages_are_read_back_as_written() {
    let args = vec![
        DecodedWaylandArg::Uint(7),
        DecodedWaylandArg::String(Some("hello".to_string())),
    ];
    let bytes = encode_wayland_message(5, 2, &args).unwrap();
    let header = decode_wayland_header(&bytes).unwrap();
    assert_eq!(
        (header.object_id, header.opcode, header.size),
        (5, 2, bytes.len() as u16)
    );
    let mut offset = 8;
    assert_eq!(read_u32_arg(&bytes, header.size, &mut offset), Ok(7));
    assert_eq!(
        read_string_arg(&bytes, header.size, &mut offset),
        Ok(Some("hello".to_string()))
    );
    assert_eq!(offset, bytes.len());

    let mut stream = bytes.clone();
    stream.extend_from_slice(&[1, 2, 3]);
    assert_eq!(read_wayland_message(&stream), Ok(bytes));
}

#[test]
fn short_and_broken_messages_are_refused() {
    assert!(decode_wayland_header(&[0; 7]).is_err());
    for size in [7u32, 12] {
        let mut header = 1u32.to_ne_bytes().to_vec();
        header.extend_from_slice(&(size << 16).to_ne_bytes());
        assert!(decode_wayland_header(&header).is_err());
    }
    let mut offset = 8;
    assert!(read_u32_arg(&[0; 8], 8, &mut offset).is_err());
    // The bytes of a text are not UTF-8.
    let mut bytes = encode_u32_message(1, 0, &[2]);
    bytes.extend_from_slice(&[0xff, 0, 0, 0]);
    let mut offset = 8;
    assert!(read_string_arg(&bytes, bytes.len() as u16, &mut offset).is_err());
    assert_eq!(offset, 12);
}

#[test]
fn lengths_beyond_the_header_lose_their_high_bits() {
    let bytes = encode_u32_message(3, 1, &vec![5; 0x4000]);
    assert_eq!(bytes.len(), 0x1_0008);
    assert_eq!(bytes[..4], 3u32.to_ne_bytes());
    assert_eq!(bytes[4..8], ((8u32 << 16) | 1).to_ne_bytes());
    assert_eq!(bytes[8..12], 5u32.to_ne_bytes());
}

#[test]
fn pieces_of_a_message_are_put_together() {
    let bytes = encode_u32_message(3, 1, &[8, 9]);
    assert_eq!(remaining_bytes(&bytes[..8].to_vec()), Ok(8));
    let header = WaylandWireMessage {
        bytes: bytes[..8].to_vec(),
        fds: vec![4],
    };
    let payload = WaylandWireMessage {
        bytes: bytes[8..].to_vec(),
        fds: vec![5, 6],
    };
    let message = join_message(header, payload).unwrap();
    assert_eq!(message.bytes, bytes);
    assert_eq!(message.fds, vec![4, 5, 6]);
}

#[test]
fn missing_pieces_are_reported() {
    assert_eq!(
        remaining_bytes(&Vec::new()),
        Err("backend Wayland stream reached EOF".to_string())
    );
    assert_eq!(
        remaining_bytes(&vec![0; 5]),
        Err("failed to read complete Wayland header: received 5 bytes".to_string())
    );
    assert_eq!(
        remaining_bytes(&vec![0; 8]),
        Err("invalid Wayland message size 0".to_string())
    );
    let bytes = encode_u32_message(3, 1, &[8, 9]);
    let header = WaylandWireMessage {
        bytes: bytes[..8].to_vec(),
        fds: Vec::new(),
    };
    let payload = WaylandWireMessage {
        bytes: bytes[8..13].to_vec(),
        fds: Vec::new(),
    };
    assert_eq!(
        join_message(header, payload).err(),
        Some("failed to read complete Wayland payload: received 5 of 8 bytes".to_string())
    );
    assert_eq!(check_sent(8, 8), Ok(()));
    assert_eq!(
        check_sent(3, 8),
        Err("short send when writing Wayland wire message: sent 3 of 8 bytes".to_string())
    );
}

#[test]
fn a_sync_request_is_answered_locally() {
    let mut server = server();
    let client_id = arrive(&mut server);
    server
        .track_object_interface(client_id, 2, "wl_callback")
        .unwrap();
    let message = WaylandWireMessage {
        bytes: encode_u32_message(1, 0, &[2]),
        fds: Vec::new(),
    };
    let begun = server.ingest_request(client_id, message, 20).unwrap();
    assert!(!begun.forward);
    let ingested = server.complete_request(client_id, begun).unwrap();
    let sent: Vec<Vec<u8>> = ingested
        .backend_events
        .into_iter()
        .map(|event| event.encoded.bytes)
        .collect();
    assert_eq!(
        sent,
        vec![
            encode_generated_event(2, &GeneratedEvent::WlCallbackDone { callback_data: 0 }).unwrap(),
            encode_generated_event(1, &GeneratedEvent::WlDisplayDeleteId { id: 2 }).unwrap(),
        ]
    );
}

#[test]
fn a_registry_request_announces_the_own_globals() {
    let mut server = server();
    let client_id = arrive(&mut server);
    server
        .track_object_interface(client_id, 2, "wl_registry")
        .unwrap();
    let message = WaylandWireMessage {
        bytes: encode_u32_message(1, 1, &[2]),
        fds: Vec::new(),
    };
    let begun = server.ingest_request(client_id, message, 20).unwrap();
    let ingested = server.complete_request(client_id, begun).unwrap();
    assert_eq!(ingested.backend_events.len(), 1);
    assert_eq!(
        ingested.backend_events[0].encoded.bytes,
        encode_generated_event(
            2,
            &GeneratedEvent::WlRegistryGlobal {
                name: 1,
                interface: Some("wl_compositor".to_string()),
                version: 6,
            }
        )
        .unwrap()
    );
}

#[test]
fn an_answer_from_an_unknown_object_is_an_error() {
    let mut server = server();
    let client_id = arrive(&mut server);
    let message = WaylandWireMessage {
        bytes: encode_u32_message(1, 0, &[2]),
        fds: Vec::new(),
    };
    assert_eq!(
        server.ingest_request(client_id, message, 20).err(),
        Some("unknown backend interface for object 2".to_string())
    );
}

#[test]
fn a_client_with_a_compositor_is_passed_on() {
    let mut server = server();
    let backend = WaylandBackendSession::new(own_globals());
    let client_id = server.register_client_session(Vec::new(), Ok(backend), 10);
    server
        .track_object_interface(client_id, 1, "wl_display")
        .unwrap();
    assert_eq!(server.has_backend(client_id), Ok(true));
    let bytes = encode_u32_message(1, 0, &[2]);
    let message = WaylandWireMessage {
        bytes: bytes.clone(),
        fds: Vec::new(),
    };
    let begun = server.ingest_request(client_id, message, 20).unwrap();
    assert!(begun.forward);
    assert_eq!(begun.message.bytes, bytes);
    let ingested = server.complete_request(client_id, begun).unwrap();
    assert!(ingested.backend_events.is_empty());

    let event = encode_generated_event(2, &GeneratedEvent::WlCallbackDone { callback_data: 3 });
    let prepared = server
        .prepare_backend_event(
            client_id,
            WaylandWireMessage {
                bytes: event.clone().unwrap(),
                fds: Vec::new(),
            },
        )
        .unwrap();
    let completed = server
        .complete_backend_event(client_id, prepared, Ok(Vec::new()), 0)
        .unwrap();
    assert_eq!(completed.event.encoded.bytes, event.unwrap());
}

#[test]
fn a_client_that_draws_into_shared_memory_has_a_window() {
    let mut server =
        WaylandProxyServer::following_frames(WaylandProxyConfig::from_env(None, None));
    let backend = WaylandBackendSession::new(own_globals());
    let client_id = server.register_client_session(Vec::new(), Ok(backend), 10);
    server
        .track_object_interface(client_id, 1, "wl_display")
        .unwrap();
    let mut say = |object_id: u32, opcode: u16, args: Vec<DecodedWaylandArg>, fds: Vec<u64>| {
        let message = WaylandWireMessage {
            bytes: encode_wayland_message(object_id, opcode, &args).unwrap(),
            fds: fds.clone(),
        };
        let begun = server.ingest_request(client_id, message, 20).unwrap();
        assert!(begun.forward);
        assert_eq!(begun.message.fds, fds);
        server.complete_request(client_id, begun).unwrap();
    };
    let bind = |name: u32, interface: &str, id: u32| {
        vec![
            DecodedWaylandArg::Uint(name),
            DecodedWaylandArg::String(Some(interface.to_string())),
            DecodedWaylandArg::Uint(1),
            DecodedWaylandArg::NewId(id),
        ]
    };
    let made = DecodedWaylandArg::NewId;
    let object = |id: u32| DecodedWaylandArg::Object(Some(id));
    say(1, 1, vec![made(2)], vec![]);
    say(2, 0, bind(1, "wl_compositor", 3), vec![]);
    say(2, 0, bind(2, "xdg_wm_base", 4), vec![]);
    say(2, 0, bind(3, "wl_shm", 5), vec![]);
    say(3, 0, vec![made(10)], vec![]);
    say(4, 2, vec![made(11), object(10)], vec![]);
    say(11, 1, vec![made(12)], vec![]);
    let title = DecodedWaylandArg::String(Some("Pixels".to_string()));
    say(12, 2, vec![title], vec![]);
    say(
        5,
        0,
        vec![made(13), DecodedWaylandArg::Fd, DecodedWaylandArg::Int(16)],
        vec![77],
    );
    let buffer = [4, 2, 1, 8, 1].map(DecodedWaylandArg::Int);
    let [offset, width, height, stride, format] = buffer;
    say(
        13,
        0,
        vec![made(14), offset, width, height, stride, format],
        vec![],
    );
    let origin = DecodedWaylandArg::Int(0);
    say(10, 1, vec![object(14), origin, DecodedWaylandArg::Int(0)], vec![]);
    say(10, 6, vec![], vec![]);

    let windows = server.list_windows();
    assert_eq!(windows.len(), 1);
    assert_eq!(windows[0].title, Some("Pixels".to_string()));
    assert_eq!((windows[0].width, windows[0].height), (2, 1));
    assert!(windows[0].mapped && windows[0].capturable);
    assert_eq!(windows[0].buffer_kind, Some("shm".to_string()));
    assert!(server.holds_descriptor(77));
    let plan = server
        .capture_window_rgba(&windows[0].window_id, &None, true)
        .unwrap()
        .unwrap();
    let PlannedPixels::Shm(pixels) = plan.pixels else {
        panic!("the pixels are in shared memory");
    };
    assert_eq!(pixels.fd, 77);
    assert_eq!(
        pixels.read_rgba(&[9, 9, 9, 9, 1, 2, 3, 4, 5, 6, 7, 8]),
        Ok(vec![3, 2, 1, 255, 7, 6, 5, 255])
    );
}

#[test]
fn unknown_clients_are_reported() {
    let mut server = server();
    assert!(server.has_backend(WaylandClientId(9)).is_err());
    let message = WaylandWireMessage {
        bytes: encode_u32_message(1, 0, &[2]),
        fds: Vec::new(),
    };
    assert!(server.ingest_request(WaylandClientId(9), message, 20).is_err());
}

#[test]
fn the_history_of_connections_is_kept() {
    let mut server = server();
    let client_id = arrive(&mut server);
    server.finish_client_session(client_id, "client closed".to_string(), 30);
    server.note_accept_error("stopped".to_string(), 40);
    let last = server.connection_history.len() - 1;
    assert_eq!(server.connection_history[last].event, "accept_failed");
    assert_eq!(server.connection_history[last - 1].event, "closed");
    assert_eq!(
        server.connection_history[last - 1].client_id,
        Some(client_id.0)
    );
    assert_eq!(server.last_runtime_error.as_deref(), Some("stopped"));
    for time in 0..200 {
        server.note_accept_error("again".to_string(), time);
    }
    let newest = server.connection_history.len() - 1;
    assert!(newest < 200);
    assert_eq!(server.connection_history[newest].timestamp_unix_ms, 199);
}

#[test]
fn a_screenshot_takes_a_new_frame_or_the_old_one() {
    let mut server = server();
    let client_id = arrive(&mut server);
    let window_id = open_window(&mut server, client_id);
    let request = GuiScreenshotRequest { window_id: None };

    let wait = server.begin_screenshot(&request, 1_000).unwrap();
    assert_eq!((wait.baseline, wait.deadline), (1, 1_250));
    assert_eq!(
        server.continue_screenshot(wait, &request, 1_100),
        Ok(FrameStep::Wait)
    );
    assert_eq!(
        server.continue_screenshot(wait, &request, 1_250),
        Ok(FrameStep::Capture {
            window_id: window_id.clone(),
            commit_serial: 1,
        })
    );
    commit(&mut server, client_id);
    assert_eq!(
        server.continue_screenshot(wait, &request, 1_101),
        Ok(FrameStep::Capture {
            window_id: window_id.clone(),
            commit_serial: 2,
        })
    );

    assert_eq!(server.color_of_window(&window_id), None);
    let plan = server
        .capture_window_rgba(&window_id, &None, true)
        .unwrap()
        .unwrap();
    assert_eq!((plan.width, plan.height), (4, 2));
    assert_eq!(plan.pixels, PlannedPixels::Ready(vec![255; 32]));
    let file = server
        .end_screenshot(Some(Ok(CapturedFrame {
            width: plan.width,
            height: plan.height,
            rgba: vec![255; 32],
            color: Some("{}".to_string()),
        })))
        .unwrap()
        .unwrap();
    assert_eq!(picture_size(&file), Ok((4, 2)));
    assert_eq!(find_color_note(&file), Ok(Some("{}".to_string())));
    assert!(!server.capture_tracking_active(1_102));
}

#[test]
fn a_screenshot_without_a_window_comes_to_nothing() {
    let mut server = server();
    let request = GuiScreenshotRequest { window_id: None };
    let wait = server.begin_screenshot(&request, 0).unwrap();
    assert!(server.capture_tracking_active(1));
    assert_eq!(
        server.continue_screenshot(wait, &request, 1),
        Ok(FrameStep::Wait)
    );
    assert_eq!(
        server.continue_screenshot(wait, &request, 250),
        Ok(FrameStep::Absent)
    );
    assert!(!server.capture_tracking_active(1));
    assert_eq!(server.end_screenshot(None), Ok(None));
    assert_eq!(
        server.end_screenshot(Some(Err("lost".to_string()))),
        Err("lost".to_string())
    );
}

#[test]
fn the_next_frame_is_newer_than_the_last() {
    let mut server = server();
    let client_id = arrive(&mut server);
    let window_id = open_window(&mut server, client_id);
    let request = GuiCaptureNextFrameRequest {
        window_id: None,
        after_commit_serial: None,
        timeout_ms: Some(0),
    };
    let mut wait = begin_next_frame(&request, 100);
    assert_eq!((wait.after, wait.timeout_ms, wait.deadline), (None, 1, 101));
    assert_eq!(
        server.continue_next_frame(&mut wait, &request, 100),
        Ok(FrameStep::Wait)
    );
    assert_eq!(wait.after, Some(1));
    assert_eq!(
        server.continue_next_frame(&mut wait, &request, 101),
        Ok(FrameStep::Failed(
            "timed out after 1 ms waiting for a new frame from the selected window after commit_serial=1"
                .to_string()
        ))
    );
    commit(&mut server, client_id);
    assert_eq!(
        server.continue_next_frame(&mut wait, &request, 101),
        Ok(FrameStep::Capture {
            window_id: window_id.clone(),
            commit_serial: 2,
        })
    );
    assert_eq!(
        server.end_next_frame(&window_id, 2, None),
        Err(format!(
            "window `{window_id}` produced commit_serial=2 but its tracked surface is missing"
        ))
    );
    let frame = CapturedFrame {
        width: 4,
        height: 2,
        rgba: vec![1; 32],
        color: None,
    };
    let file = server.end_next_frame(&window_id, 2, Some(Ok(frame))).unwrap();
    assert_eq!(picture_size(&file), Ok((4, 2)));
}

#[test]
fn the_time_for_the_next_frame_is_bounded() {
    let timeout = |timeout_ms: Option<u64>| {
        begin_next_frame(
            &GuiCaptureNextFrameRequest {
                window_id: None,
                after_commit_serial: Some(4),
                timeout_ms,
            },
            0,
        )
    };
    assert_eq!(timeout(None).timeout_ms, 1_000);
    assert_eq!(timeout(Some(20_000)).timeout_ms, 10_000);
    assert_eq!(timeout(Some(500)).deadline, 500);
    assert_eq!(timeout(None).after, Some(4));
}

#[test]
fn clicks_reach_the_pointer_of_the_window() {
    let mut server = server();
    let client_id = arrive(&mut server);
    let window_id = open_window(&mut server, client_id);
    let (to, delivery) = server
        .inject_click(
            &GuiClickRequest {
                window_id: None,
                x: 3,
                y: 1,
                button: 1,
            },
            77,
        )
        .unwrap();
    assert_eq!(to, client_id.0);
    assert_eq!(delivery.messages.len(), 7);
    assert_eq!(
        delivery.messages[1],
        encode_generated_event(
            60,
            &GeneratedEvent::WlPointerMotion {
                time: 77,
                surface_x: 768,
                surface_y: 256,
            }
        )
        .unwrap()
    );
    assert_eq!(
        delivery.report,
        format!(
            "delivered button 1 press/release through 1 wl_pointer resource(s) to window `{window_id}`: screenshot pixel (3, 1) -> input wl_surface 10 coordinate (3, 1)"
        )
    );
    assert!(
        server
            .inject_click(
                &GuiClickRequest {
                    window_id: None,
                    x: 3,
                    y: 1,
                    button: 4,
                },
                77,
            )
            .is_err()
    );
    let (_, motion) = server
        .inject_pointer_motion(
            &GuiPointerMoveRequest {
                window_id: Some(window_id),
                x: 0,
                y: 0,
            },
            5,
        )
        .unwrap();
    assert_eq!(motion.messages.len(), 3);
}

#[test]
fn single_events_keep_what_the_caller_gives() {
    let mut server = server();
    let client_id = arrive(&mut server);
    open_window(&mut server, client_id);
    let (_, delivery) = server
        .emit_wayland_pointer_event(
            &GuiWaylandPointerEventRequest {
                window_id: None,
                event: GuiWaylandPointerEvent::Button {
                    button: 0x110,
                    state: 1,
                    serial: Some(5),
                    time: Some(6),
                },
            },
            77,
        )
        .unwrap();
    assert_eq!(
        delivery.messages,
        vec![
            encode_generated_event(
                60,
                &GeneratedEvent::WlPointerButton {
                    serial: 5,
                    time: 6,
                    button: 0x110,
                    state: 1,
                }
            )
            .unwrap()
        ]
    );
    let (_, delivery) = server
        .emit_wayland_keyboard_event(
            &GuiWaylandKeyboardEventRequest {
                window_id: None,
                event: GuiWaylandKeyboardEvent::Key {
                    key: 30,
                    state: 1,
                    serial: Some(8),
                    time: None,
                },
            },
            77,
        )
        .unwrap();
    assert_eq!(
        delivery.messages,
        vec![
            encode_generated_event(
                61,
                &GeneratedEvent::WlKeyboardKey {
                    serial: 8,
                    time: 77,
                    key: 30,
                    state: 1,
                }
            )
            .unwrap()
        ]
    );
}

#[test]
fn clipboard_claims_by_injected_serials_stay_with_the_proxy() {
    let mut server = server();
    let backend = WaylandBackendSession::new(own_globals());
    let client_id = server.register_client_session(Vec::new(), Ok(backend), 10);
    open_window(&mut server, client_id);
    server
        .track_object_interface(client_id, 70, "wl_data_device")
        .unwrap();
    server
        .emit_wayland_pointer_event(
            &GuiWaylandPointerEventRequest {
                window_id: None,
                event: GuiWaylandPointerEvent::Button {
                    button: 0x110,
                    state: 1,
                    serial: Some(5),
                    time: None,
                },
            },
            77,
        )
        .unwrap();
    let mut forwarded = |serial: u32| {
        let message = WaylandWireMessage {
            bytes: encode_u32_message(70, 1, &[71, serial]),
            fds: Vec::new(),
        };
        let begun = server.ingest_request(client_id, message, 20).unwrap();
        let forward = begun.forward;
        server.complete_request(client_id, begun).unwrap();
        forward
    };
    assert!(!forwarded(5));
    assert!(!forwarded(5));
    assert!(forwarded(6));
}

#[test]
fn descriptors_are_needed_as_long_as_they_are_used() {
    let mut server = server();
    let client_id = arrive(&mut server);
    let mut session = server.sessions.remove(client_id.0).unwrap();
    session.pending_client_fds.push(3);
    session.frame_tracker.note_shm_pool_created(40, 4, 64);
    session.frame_tracker.note_syncobj_timeline_imported(41, 5);
    server.sessions.insert(client_id.0, session);
    for fd in [3, 4, 5] {
        assert!(server.holds_descriptor(fd));
    }
    assert!(!server.holds_descriptor(6));
    server.remove_client_session(client_id);
    assert!(!server.holds_descriptor(4));
}

#[test]
fn windows_are_resized_within_bounds() {
    let mut server = server();
    let client_id = arrive(&mut server);
    let window_id = open_window(&mut server, client_id);
    let request = |width: u32| GuiResizeWindowRequest {
        window_id: window_id.clone(),
        width,
        height: 10,
    };
    assert_eq!(
        server.resize_window(&request(0)).err(),
        Some("resizeWindow dimensions must be between 1 and 8192".to_string())
    );
    assert!(server.resize_window(&request(8193)).is_err());
    let (to, resize) = server.resize_window(&request(8192)).unwrap();
    assert_eq!((to, resize.surface_id), (client_id.0, 30));
    assert!(
        server
            .resize_window(&GuiResizeWindowRequest {
                window_id: "nowhere".to_string(),
                width: 1,
                height: 1,
            })
            .is_err()
    );
}

#[test]
fn coordinates_are_in_24_8_fixed_point() {
    assert_eq!(fixed_from_i64(3), 768);
    assert_eq!(fixed_from_i64(-1), -256);
    assert_eq!(fixed_from_i64(i64::MAX), i32::MAX);
    assert_eq!(fixed_from_i64(i64::MIN), i32::MIN);
}

fn level(keysym: u32, mask: u32) -> XkbLevel {
    XkbLevel {
        keysyms: vec![keysym],
        masks: vec![mask],
    }
}

/// Two keys in two layouts; the letters of the second layout are swapped.
fn keyboard() -> XkbTable {
    let key = |keycode: u32, first: char, second: char| XkbKey {
        keycode,
        layouts: vec![
            vec![
                level(first as u32, 0),
                level(first.to_ascii_uppercase() as u32, 1),
            ],
            vec![
                level(second as u32, 0),
                level(second.to_ascii_uppercase() as u32, 1),
            ],
        ],
    };
    XkbTable {
        keys: vec![key(52, 'z', 'y'), key(29, 'y', 'z')],
        shift_index: 0,
        control_index: 2,
        alt_index: 3,
        logo_index: u32::MAX,
    }
}

#[test]
fn text_is_planned_by_the_active_layout() {
    let table = keyboard();
    let stroke = |key: u32, modifiers: u32| TextStroke { key, modifiers };
    let keysyms = vec!['z' as u32, 'Y' as u32];
    let first = plan_text(&table, 0, "zY", &keysyms).unwrap();
    assert_eq!(first.strokes, vec![stroke(44, 0), stroke(21, 1)]);
    let second = plan_text(&table, 1, "zY", &keysyms).unwrap();
    assert_eq!(second.strokes, vec![stroke(21, 0), stroke(44, 1)]);
    assert_eq!(first.shift_modifier, Some(1));
    assert_eq!(first.control_modifier, Some(4));
    assert_eq!(first.alt_modifier, Some(8));
    assert_eq!(first.logo_modifier, None);
    assert_eq!(find_stroke(&table, 0, 'Z' as u32), Some(stroke(44, 1)));
    assert_eq!(find_stroke(&table, 0, 0), None);
    assert_eq!(modifier_mask(31), Some(0x8000_0000));
    assert_eq!(modifier_mask(32), None);
}

#[test]
fn text_beyond_the_key_map_is_refused() {
    let error = plan_text(&keyboard(), 0, "q", &vec!['q' as u32]).unwrap_err();
    assert!(error.contains("not directly representable"));
    assert!(error.contains("'q'"));
    assert_eq!(quoted_character('\t'), "tab");
    assert_eq!(quoted_character('\n'), "newline");
    assert_eq!(quoted_character('\''), "'\\''");
}

#[test]
fn key_maps_end_before_their_nul() {
    assert_eq!(keymap_source("xkb\0\0"), Ok("xkb".to_string()));
    assert_eq!(
        keymap_source("a\0b"),
        Err("the client XKB keymap contains an interior NUL byte".to_string())
    );
}

#[test]
fn blank_names_are_no_names() {
    for blank in ["", " ", "\t\n", "\u{3000}\u{a0}\u{2009}\u{1680}\u{85}"] {
        let config = WaylandProxyConfig::from_env(Some(blank.to_string()), None);
        assert_eq!(config.socket_name, "wayland-mcp-0");
    }
    for name in ["a", " a ", "\u{200b}", "\u{180e}", "\u{feff}"] {
        let config = WaylandProxyConfig::from_env(None, Some(name.to_string()));
        assert_eq!(config.backend_socket, name);
    }
}

#[test]
fn sockets_are_named_by_the_environment() {
    let blank = WaylandProxyConfig::from_env(Some(" \t".to_string()), None);
    let usual = WaylandProxyConfig::from_env(None, Some("\u{a0}".to_string()));
    assert_eq!(blank, usual);
    let named = WaylandProxyConfig::from_env(Some("a".to_string()), Some("/run/b".to_string()));
    assert_eq!(named.socket_name, "a");
    assert_eq!(
        backend_socket_path(&named, false),
        Ok(SocketPlace::Absolute)
    );
    assert_eq!(
        backend_socket_path(&usual, true),
        Ok(SocketPlace::InRuntimeDir)
    );
    assert!(backend_socket_path(&usual, false).is_err());
    assert_eq!(wayland_timestamp_ms_u32(Some(0x1_0000_0005)), 5);
    assert_eq!(wayland_timestamp_ms_u32(None), 0);
    assert_eq!(unix_time_ms(Some(u128::MAX)), u64::MAX);
}

fn endpoint(is_socket: Result<bool, String>) -> Endpoint {
    Endpoint {
        socket_path: "/tmp/s".to_string(),
        shut_down: false,
        accept_loop_finished: false,
        is_socket,
    }
}

#[test]
fn only_live_endpoints_take_the_place_of_old_ones() {
    let live = endpoint(Ok(true));
    let file = endpoint(Ok(false));
    assert!(endpoint_is_live(&Some(endpoint(Ok(true)))));
    assert!(!endpoint_is_live(&Some(endpoint(Ok(false)))));
    assert!(!endpoint_is_live(&None));
    assert_eq!(replace_endpoint(&None, Ok(&live)), None);
    assert_eq!(
        replace_endpoint(&None, Ok(&file)),
        Some("Wayland proxy endpoint /tmp/s is not a Unix socket".to_string())
    );
    assert_eq!(
        replace_endpoint(&None, Err("no room".to_string())),
        Some("no room".to_string())
    );
    assert_eq!(
        replace_endpoint(
            &Some(endpoint(Err("gone".to_string()))),
            Err("no room".to_string())
        ),
        Some(restart_error(
            Some("Wayland proxy endpoint /tmp/s is unavailable: gone".to_string()),
            "no room".to_string()
        ))
    );
    assert_eq!(live.launch_preflight().endpoint_state, "ready");
    assert_eq!(file.launch_preflight().endpoint_state, "unavailable");
    assert!(
        screenshot_unavailable_message(&Some(live), &None).contains("call wayland.windows first")
    );
    assert!(
        screenshot_unavailable_message(&None, &Some("bind".to_string()))
            .ends_with("failed to start: bind")
    );
}

#[test]
fn silence_and_leaving_are_no_errors() {
    assert!(is_timeout_error("Resource temporarily unavailable (os error 11)"));
    assert!(!is_timeout_error("Broken pipe"));
    assert!(is_normal_client_disconnect("x: Broken pipe (os error 32)"));
    assert!(!is_normal_client_disconnect("Broken pip"));
    assert_eq!(
        string_error_to_io("odd".to_string()),
        IoError::Other("odd".to_string())
    );

    let mut server = server();
    let client_id = arrive(&mut server);
    server.last_runtime_error = None;
    let leaves = "backend Wayland stream reached EOF";
    assert_eq!(
        server.note_client_read(client_id, leaves.to_string()),
        ClientCourse::Left(leaves.to_string())
    );
    assert_eq!(
        server.note_client_read(
            client_id,
            "Resource temporarily unavailable (os error 11)".to_string()
        ),
        ClientCourse::Continue
    );
    assert_eq!(
        server.note_relay_read(client_id, leaves, false),
        RelayCourse::Stop
    );
    server.note_relay_send(client_id, "Broken pipe");
    server.note_client_exit("Connection reset by peer");
    assert_eq!(server.last_runtime_error, None);
}

#[test]
fn errors_of_a_connection_are_noted() {
    let mut server = server();
    let client_id = WaylandClientId(7);
    assert_eq!(
        server.note_client_read(client_id, "odd".to_string()),
        ClientCourse::Failed("odd".to_string())
    );
    assert_eq!(
        server.last_runtime_error.as_deref(),
        Some("client 7 read failed: odd")
    );
    server.note_ingest_failure(client_id, "bad");
    assert_eq!(
        server.last_runtime_error.as_deref(),
        Some("client 7 request ingest failed: bad")
    );
    assert_eq!(
        server.note_relay_read(client_id, "odd", false),
        RelayCourse::Stop
    );
    assert_eq!(
        server.last_runtime_error.as_deref(),
        Some("client 7 backend read failed: odd")
    );
    server.note_relay_tracking(client_id, "odd");
    assert_eq!(
        server.last_runtime_error.as_deref(),
        Some("client 7 backend event tracking failed: odd")
    );
    server.note_relay_send(client_id, "odd");
    assert_eq!(
        server.last_runtime_error.as_deref(),
        Some("client 7 backend event forward failed: odd")
    );
    server.note_relay_panic(client_id);
    assert_eq!(
        server.last_runtime_error.as_deref(),
        Some("client 7 backend relay thread panicked during shutdown")
    );
    server.note_client_exit("odd");
    assert_eq!(
        server.last_runtime_error.as_deref(),
        Some("Wayland proxy client exited: odd")
    );
    let quiet = "Resource temporarily unavailable (os error 11)";
    assert_eq!(
        server.note_relay_read(client_id, quiet, false),
        RelayCourse::Pause
    );
    assert_eq!(
        server.note_relay_read(client_id, quiet, true),
        RelayCourse::Stop
    );
    assert_eq!(
        closing_detail(&ClientCourse::Failed("odd".to_string())),
        "session error: odd"
    );
}

#[test]
fn globals_are_found_before_the_callback() {
    let mut search = Discovery::new();
    let global = encode_generated_event(
        2,
        &GeneratedEvent::WlRegistryGlobal {
            name: 4,
            interface: Some("wl_shm".to_string()),
            version: 1,
        },
    )
    .unwrap();
    let done =
        encode_generated_event(3, &GeneratedEvent::WlCallbackDone { callback_data: 0 }).unwrap();
    let (registry, callback) = Discovery::requests();
    assert_eq!(registry[8], 2);
    assert_eq!(callback[8], 3);
    assert_eq!(search.step(Ok(global)), Ok(false));
    assert_eq!(search.step(Ok(done)), Ok(true));
    assert_eq!(search.globals.len(), 1);
    assert_eq!(search.globals[0].interface, "wl_shm");
    assert_eq!(search.step(Err("odd".to_string())), Err("odd".to_string()));
}

#[test]
fn device_calls_have_their_numbers() {
    // DRM_IOCTL_SYNCOBJ_DESTROY takes two words.
    assert_eq!(drm_iowr(0xc0, 8), 0xc008_64c0);
    assert_eq!(drm_iowr(0xca, 48), 0xc030_64ca);
}

#[test]
fn waits_end_at_a_time_of_the_clock() {
    assert_eq!(monotonic_timeout_nsec(2, 3, 5_000_000_000), Ok(7_000_000_003));
    assert_eq!(
        monotonic_timeout_nsec(i64::MAX, 0, 1),
        Err("syncobj timeout overflowed i64".to_string())
    );
    assert_eq!(
        monotonic_timeout_nsec(0, 0, u128::MAX),
        Err("syncobj timeout is too large".to_string())
    );
    let mut search = NodeSearch::new();
    assert_eq!(
        search.failure(7),
        "failed to wait for explicit Wayland acquire sync point 7: no DRM render node accepted syncobj timeline fd"
    );
    assert_eq!(NodeSearch::node_path(127), None);
    let path = NodeSearch::node_path(128).unwrap();
    assert_eq!(path, "/dev/dri/renderD128");
    assert_eq!(NodeSearch::node_path(144), None);
    search.note_failure(&path, "busy");
    assert_eq!(
        search.failure(7),
        "failed to wait for explicit Wayland acquire sync point 7: /dev/dri/renderD128: busy"
    );
}

#[test]
fn resources_are_paired_one_to_one() {
    let mut server = server();
    let client_id = arrive(&mut server);
    assert_eq!(server.map_resource(client_id, 5, 50), Ok(()));
    assert_eq!(server.map_resource(client_id, 6, 60), Ok(()));
    assert_eq!(server.map_resource(client_id, 5, 60), Ok(()));
    let session = server.sessions.get(client_id.0).unwrap();
    assert_eq!(session.resource_map.backend_for(5), Some(60));
    assert_eq!(session.resource_map.client_for(60), Some(5));
    assert_eq!(session.resource_map.backend_for(6), None);
    assert_eq!(session.resource_map.client_for(50), None);
    assert_eq!(session.resource_map.len(), 1);
    assert!(server.map_resource(WaylandClientId(99), 1, 2).is_err());
}

#[test]
fn hooks_run_by_the_name_of_their_request() {
    let mut server =
        WaylandProxyServer::following_frames(WaylandProxyConfig::from_env(None, None));
    let client_id = arrive(&mut server);
    let serial = |server: &WaylandProxyServer| {
        let session = server.sessions.get(client_id.0).unwrap();
        session.frame_tracker.latest_commit_serial()
    };
    assert_eq!(serial(&server), 0);
    assert_eq!(
        server.invoke_intercepts_by_name(client_id, "wl_surface.commit", 10, &[]),
        Ok(())
    );
    assert_eq!(serial(&server), 1);
    assert_eq!(
        server.invoke_intercepts_by_name(
            client_id,
            "wl_surface.commit",
            10,
            &[WaylandInterceptArg::U32(1)]
        ),
        Err("generated hook request wl_surface.commit expected 0 args, got 1".to_string())
    );
    assert_eq!(
        server.invoke_intercepts_by_name(client_id, "wl_surface.nothing", 10, &[]),
        Err("missing generated request metadata for wl_surface.nothing".to_string())
    );
    assert_eq!(serial(&server), 1);
}

#[test]
fn requests_are_read_by_the_objects_of_their_client() {
    let mut server = server();
    let client_id = arrive(&mut server);
    let bytes = encode_u32_message(1, 0, &[2]);
    let request = server.decode_request(client_id, &bytes).unwrap();
    assert_eq!(request.interface, "wl_display");
    assert_eq!(request.request_name, "wl_display.sync");
    assert_eq!(request.args, vec![DecodedWaylandArg::NewId(2)]);
    let unknown = encode_u32_message(7, 0, &[]);
    assert!(server.decode_request(client_id, &unknown).is_err());
    assert!(server.decode_request(WaylandClientId(99), &bytes).is_err());
    assert_eq!(server.raw_forward_only_flag(client_id), Ok(false));
    assert!(server.raw_forward_only_flag(WaylandClientId(99)).is_err());
}

#[test]
fn events_that_wait_are_taken_in_together() {
    let mut server = server();
    let backend = WaylandBackendSession::new(own_globals());
    let client_id = server.register_client_session(Vec::new(), Ok(backend), 10);
    server
        .track_object_interface(client_id, 1, "wl_display")
        .unwrap();
    let message = WaylandWireMessage {
        bytes: encode_u32_message(1, 1, &[2]),
        fds: Vec::new(),
    };
    let begun = server.ingest_request(client_id, message, 20).unwrap();
    server.complete_request(client_id, begun).unwrap();
    let announcement = GeneratedEvent::WlRegistryGlobal {
        name: 44,
        interface: Some("wl_shm".to_string()),
        version: 1,
    };
    let reads = vec![
        Ok(WaylandWireMessage {
            bytes: encode_generated_event(2, &announcement).unwrap(),
            fds: Vec::new(),
        }),
        Err("failed to receive Wayland wire message with fds: Resource temporarily unavailable (os error 11)".to_string()),
    ];
    let events = server.poll_backend_events(client_id, reads).unwrap();
    assert_eq!(events.len(), 1);
    assert_eq!(
        events[0].decoded.as_ref().unwrap().generated_event,
        announcement
    );
    let session = server.sessions.get(client_id.0).unwrap();
    assert_eq!(session.find_backend_global("wl_shm"), Some(44));
    assert_eq!(session.find_backend_global("wl_seat"), None);
    assert!(
        server
            .poll_backend_events(WaylandClientId(99), Vec::new())
            .is_err()
    );
}

#[test]
fn windows_leave_with_their_client() {
    let mut server = server();
    let first = arrive(&mut server);
    let second = arrive(&mut server);
    let staying = open_window(&mut server, first);
    let leaving = open_window(&mut server, second);
    assert_eq!(staying, "wayland-client-1-window-1");
    assert_eq!(leaving, "wayland-client-2-window-1");
    commit(&mut server, second);
    let names = |server: &WaylandProxyServer| {
        server
            .list_windows()
            .into_iter()
            .map(|info| info.window_id)
            .collect::<Vec<_>>()
    };
    assert_eq!(names(&server), vec![leaving, staying.clone()]);
    server.finish_client_session(second, "client disconnected".to_string(), 30);
    assert_eq!(names(&server), vec![staying]);
}

#[test]
fn words_are_in_the_byte_order_of_the_machine() {
    let words = [7u32, 0x0102_0304];
    let bytes = encode_u32_message(3, 1, &words);
    assert_eq!(bytes[..4], 3u32.to_ne_bytes());
    assert_eq!(bytes[4..8], ((16u32 << 16) | 1).to_ne_bytes());
    assert_eq!(bytes[12..16], 0x0102_0304u32.to_ne_bytes());
    let header = decode_wayland_header(&bytes).unwrap();
    assert_eq!((header.object_id, header.opcode, header.size), (3, 1, 16));
    let mut offset = 8;
    for word in words {
        assert_eq!(read_u32_arg(&bytes, header.size, &mut offset), Ok(word));
    }
    assert_eq!(is_low_byte_first(), 1u32.to_ne_bytes()[0] == 1);
}

#[test]
fn only_the_newest_connections_are_remembered() {
    let mut server = server();
    for number in 1..=40 {
        let detail = Some(number.to_string());
        server.record_connection_event("closed", Some(WaylandClientId(number)), "ready", detail, 5);
    }
    let history = server.snapshot().connection_history;
    assert_eq!(history.len(), 32);
    for (entry, number) in history.iter().zip(9..) {
        assert_eq!(entry.client_id, Some(number));
        assert_eq!(entry.detail, Some(number.to_string()));
        assert_eq!(entry.timestamp_unix_ms, 5);
    }
}
