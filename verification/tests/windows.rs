use wayland_mcp::decode::{
    DecodedWaylandEvent, WaylandWireMessage, is_unsupported_dmabuf_advertisement,
};
use wayland_mcp::feedback::rewrite_dmabuf_feedback_event;
use wayland_mcp::globals::{
    WaylandGlobalInfo, filtered_backend_globals, upsert_backend_global,
};
use wayland_mcp::ingest::apply_undecoded_client_tracking;
use wayland_mcp::launch::WaylandProxyConfig;
use wayland_mcp::messages::{GeneratedEvent, encode_generated_event};
use wayland_mcp::server::WaylandProxyServer;
use wayland_mcp::session::{
    WaylandBackendSession, WaylandClientId, WaylandClientSession, configure_number,
};
use wayland_mcp::surface::{
    ARGB8888, GuiWindowInfo, PointerClickTarget, TrackedBuffer, TrackedBufferSource,
    TrackedDmabufBuffer, TrackedDmabufPlane, TrackedShmBuffer,
};
use wayland_mcp::table::Table;
use wayland_mcp::tracker::WaylandFrameTracker;
use wayland_mcp::wire::{DecodedWaylandArg, encode_u32_message, read_array_arg};

fn test_config() -> WaylandProxyConfig {
    WaylandProxyConfig {
        socket_name: "test-wayland".to_string(),
        backend_socket: "test-backend".to_string(),
    }
}

fn plane(fd: u64, stride: u32) -> TrackedDmabufPlane {
    TrackedDmabufPlane {
        fd,
        plane_idx: 0,
        offset: 0,
        stride,
        modifier: 0,
    }
}

fn draw(tracker: &mut WaylandFrameTracker, surface_id: u32, width: u32, height: u32, value: u8) {
    let mut surface = tracker.take_surface(surface_id);
    surface.width = width;
    surface.height = height;
    surface.rgba = vec![value; (width * height * 4) as usize];
    surface.has_committed_buffer = true;
    tracker.put_surface(surface_id, surface);
}

#[test]
fn resize_sends_an_xdg_configure_and_tracks_its_local_ack() -> Result<(), String> {
    let mut session = WaylandClientSession::new(WaylandClientId(1), Vec::new(), None);
    session.client_event_writer = true;
    session.frame_tracker.note_xdg_surface_created(30, 10);
    let window_id = session.frame_tracker.note_xdg_toplevel_created(30, 31)?;
    draw(&mut session.frame_tracker, 10, 4, 4, 0);
    session.frame_tracker.commit_surface(10);

    let resize = session.resize_window(&window_id, 1000, 650)?;
    let serial = 0x8000_0001;
    assert_eq!((resize.surface_id, resize.serial), (30, serial));
    session.note_resize_sent(resize.surface_id, resize.serial);
    assert!(session.synthetic_configures.contains(configure_number(30, serial)));
    let expected = [
        encode_generated_event(
            31,
            &GeneratedEvent::XdgToplevelConfigure {
                width: 1000,
                height: 650,
                states: Vec::new(),
            },
        )?,
        encode_generated_event(30, &GeneratedEvent::XdgSurfaceConfigure { serial })?,
    ]
    .concat();
    assert_eq!(resize.delivery.messages.concat(), expected);
    Ok(())
}

#[test]
fn dmabuf_advertisement_preserves_feedback_version_for_filtered_tables() {
    let globals = filtered_backend_globals(&[WaylandGlobalInfo {
        name: 7,
        interface: "zwp_linux_dmabuf_v1".to_string(),
        version: 5,
    }]);
    assert_eq!(globals[0].version, 5);
}

#[test]
fn ab4h_is_advertised_only_after_screenshot_support_is_enabled() {
    const DRM_FORMAT_ABGR16161616F: u32 = 0x4834_4241;
    for generated_event in [
        GeneratedEvent::ZwpLinuxDmabufV1Format {
            format: DRM_FORMAT_ABGR16161616F,
        },
        GeneratedEvent::ZwpLinuxDmabufV1Modifier {
            format: DRM_FORMAT_ABGR16161616F,
            modifier_hi: 0,
            modifier_lo: 0,
        },
    ] {
        let event = DecodedWaylandEvent {
            object_id: 7,
            size: 12,
            opcode: 0,
            interface: "zwp_linux_dmabuf_v1".to_string(),
            event_name: "fixture".to_string(),
            arg_specs: Vec::new(),
            generated_event,
            args: Vec::new(),
        };
        assert!(!is_unsupported_dmabuf_advertisement(&event));
    }
}

#[test]
fn unsupported_dmabuf_format_is_filtered_and_not_capturable() {
    const DRM_FORMAT_NV12: u32 = 0x3231_564e;
    let event = DecodedWaylandEvent {
        object_id: 7,
        size: 12,
        opcode: 0,
        interface: "zwp_linux_dmabuf_v1".to_string(),
        event_name: "format".to_string(),
        arg_specs: Vec::new(),
        generated_event: GeneratedEvent::ZwpLinuxDmabufV1Format {
            format: DRM_FORMAT_NV12,
        },
        args: Vec::new(),
    };
    assert!(is_unsupported_dmabuf_advertisement(&event));

    let buffer = TrackedBuffer {
        width: 8,
        height: 4,
        rgba: None,
        source: TrackedBufferSource::Dmabuf(TrackedDmabufBuffer {
            width: 8,
            height: 4,
            format: DRM_FORMAT_NV12,
            flags: 0,
            planes: vec![plane(3, 8)],
        }),
    };
    assert!(!buffer.has_readback());
    assert_eq!(
        buffer.capture_error().as_deref(),
        Some(
            "DMA-BUF DRM format 0x3231564E (NV12) is not supported for screenshots and is not advertised by this MCP"
        )
    );
}

#[test]
fn backend_globals_without_generated_protocol_metadata_are_not_advertised() {
    let global = |name: u32, interface: &str, version: u32| WaylandGlobalInfo {
        name,
        interface: interface.to_string(),
        version,
    };
    let globals = filtered_backend_globals(&[
        global(7, "wl_compositor", 6),
        global(8, "ext_data_control_manager_v1", 1),
        global(9, "wl_shm", 2),
        global(10, "wl_subcompositor", 1),
        global(11, "wl_data_device_manager", 3),
        global(12, "wp_color_manager_v1", 2),
        global(13, "wp_color_representation_manager_v1", 1),
    ]);

    assert_eq!(globals.len(), 5);
    assert_eq!(globals[0].interface, "wl_compositor");
    assert_eq!(globals[1].interface, "wl_shm");
    assert_eq!(globals[2].interface, "wl_subcompositor");
    assert_eq!(globals[3].interface, "wl_data_device_manager");
    assert_eq!(globals[4].interface, "wp_color_manager_v1");
    assert_eq!(globals[4].version, 2);
}

#[test]
fn repeated_registry_enumeration_does_not_duplicate_backend_globals() {
    let mut globals = vec![WaylandGlobalInfo {
        name: 4,
        interface: "wl_shm".to_string(),
        version: 1,
    }];
    upsert_backend_global(&mut globals, 4, "wl_shm", 2);

    assert_eq!(globals.len(), 1);
    assert_eq!(globals[0].version, 2);
}

#[test]
fn dmabuf_feedback_table_and_tranche_indices_are_filtered_together() -> Result<(), String> {
    let mut source = Vec::new();
    for (format, modifier) in [
        (0x3432_4241u32, 0x10u64),
        (0x4834_4241u32, 0u64),
        (0x3231_564eu32, 0u64),
    ] {
        source.extend_from_slice(&format.to_ne_bytes());
        source.extend_from_slice(&0u32.to_ne_bytes());
        source.extend_from_slice(&modifier.to_ne_bytes());
    }
    let mut session = WaylandClientSession::new(WaylandClientId(1), Vec::new(), None);
    let table_event = DecodedWaylandEvent {
        object_id: 50,
        size: 12,
        opcode: 1,
        interface: "zwp_linux_dmabuf_feedback_v1".to_string(),
        event_name: "format_table".to_string(),
        arg_specs: Vec::new(),
        generated_event: GeneratedEvent::ZwpLinuxDmabufFeedbackV1FormatTable {
            fd: true,
            size: 48,
        },
        args: vec![DecodedWaylandArg::Fd, DecodedWaylandArg::Uint(48)],
    };
    let mut table_message = WaylandWireMessage {
        bytes: encode_generated_event(50, &table_event.generated_event)?,
        fds: vec![3],
    };
    let table = rewrite_dmabuf_feedback_event(
        &mut session,
        &table_event,
        &mut table_message,
        Ok(source.clone()),
        4,
    )?;
    assert_eq!(table.as_deref(), Some(&source[..32]));
    assert_eq!(table_message.fds, vec![4]);
    assert_eq!(
        u32::from_ne_bytes(table_message.bytes[8..12].try_into().unwrap()),
        32
    );
    assert_eq!(
        session.dmabuf_feedback_index_maps.get(50),
        Some(&vec![Some(0), Some(1), None])
    );

    let tranche_event = DecodedWaylandEvent {
        object_id: 50,
        size: 16,
        opcode: 5,
        interface: "zwp_linux_dmabuf_feedback_v1".to_string(),
        event_name: "tranche_formats".to_string(),
        arg_specs: Vec::new(),
        generated_event: GeneratedEvent::ZwpLinuxDmabufFeedbackV1TrancheFormats {
            indices: [0u16.to_ne_bytes(), 1u16.to_ne_bytes(), 2u16.to_ne_bytes()].concat(),
        },
        args: Vec::new(),
    };
    let mut tranche_message = WaylandWireMessage {
        bytes: encode_generated_event(50, &tranche_event.generated_event)?,
        fds: Vec::new(),
    };
    rewrite_dmabuf_feedback_event(
        &mut session,
        &tranche_event,
        &mut tranche_message,
        Ok(Vec::new()),
        5,
    )?;
    let mut offset = 8;
    assert_eq!(
        read_array_arg(&tranche_message.bytes, 16, &mut offset)?,
        [0u16.to_ne_bytes(), 1u16.to_ne_bytes()].concat()
    );
    Ok(())
}

#[test]
fn supported_ab4h_buffer_is_reported_capturable() -> Result<(), String> {
    const DRM_FORMAT_ABGR16161616F: u32 = 0x4834_4241;
    let mut tracker = WaylandFrameTracker::new("test-client".to_string());

    tracker.note_dmabuf_params_created(20);
    tracker.note_dmabuf_plane(20, plane(3, 64))?;
    tracker.note_dmabuf_create_immed(20, 21, 8, 4, DRM_FORMAT_ABGR16161616F, 0)?;
    tracker.note_xdg_surface_created(30, 10);
    let window_id = tracker.note_xdg_toplevel_created(30, 31)?;
    tracker.set_surface_buffer(10, Some(21));
    tracker.commit_surface(10);

    let windows = tracker.list_windows();
    assert_eq!(windows.len(), 1);
    assert!(windows[0].capturable);
    assert_eq!(windows[0].capture_error, None);
    assert_eq!(windows[0].window_id, window_id);
    Ok(())
}

#[test]
fn dmabuf_window_tracks_syncobj_and_reports_vulkan_capture_path() -> Result<(), String> {
    let mut tracker = WaylandFrameTracker::new("test-client".to_string());

    tracker.note_dmabuf_params_created(20);
    tracker.note_dmabuf_plane(20, plane(3, 32))?;
    tracker.note_dmabuf_create_immed(20, 21, 8, 4, 875_713_112, 0)?;
    tracker.note_xdg_surface_created(30, 10);
    tracker.note_xdg_toplevel_created(30, 31)?;
    tracker.note_xdg_toplevel_title(31, Some("DMABUF fixture".to_string()));
    tracker.set_surface_buffer(10, Some(21));
    tracker.note_syncobj_surface_created(40, Some(10));
    tracker.note_syncobj_timeline_imported(41, 4);
    tracker.note_syncobj_acquire_point(40, Some(41), 7)?;
    tracker.note_syncobj_release_point(40, Some(41), 9)?;
    tracker.commit_surface(10);

    assert_eq!(
        tracker.list_windows(),
        vec![GuiWindowInfo {
            window_id: "test-client-window-1".to_string(),
            title: Some("DMABUF fixture".to_string()),
            app_id: None,
            width: 8,
            height: 4,
            mapped: true,
            focused: false,
            commit_serial: 1,
            on_capture_output: true,
            capture_output_count: 1,
            on_backend_output: false,
            backend_output_count: 0,
            buffer_kind: Some("dmabuf".to_string()),
            sync_state: Some(
                "acquire:timeline=41:point=7, release:timeline=41:point=9".to_string(),
            ),
            capturable: true,
            capture_error: None,
            render_surface_id: 10,
            input_surface_id: 10,
            capture_details: Some(
                "Vulkan DMA-BUF format=0x34325258 planes=1 modifiers=[0x0000000000000000]"
                    .to_string(),
            ),
        }]
    );

    tracker.note_surface_enter(10, 55);
    let window = tracker.list_windows().remove(0);
    assert!(window.on_capture_output);
    assert_eq!(window.capture_output_count, 1);
    assert!(window.on_backend_output);
    assert_eq!(window.backend_output_count, 1);
    Ok(())
}

#[test]
fn click_target_maps_screenshot_pixels_to_viewport_destination() -> Result<(), String> {
    let mut tracker = WaylandFrameTracker::new("test-client".to_string());

    tracker.note_dmabuf_params_created(20);
    tracker.note_dmabuf_plane(20, plane(3, 6400))?;
    tracker.note_dmabuf_create_immed(20, 21, 1600, 1200, 875_713_112, 0)?;
    tracker.note_xdg_surface_created(30, 10);
    let window_id = tracker.note_xdg_toplevel_created(30, 31)?;
    tracker.note_viewport_created(40, 10);
    tracker.note_viewport_destination(40, 1280, 960)?;
    tracker.set_surface_buffer(10, Some(21));
    tracker.commit_surface(10);

    assert_eq!(
        tracker.click_target_for_window(&window_id, 520, 80)?,
        Some(PointerClickTarget {
            window_id,
            surface_id: 10,
            screenshot_x: 520,
            screenshot_y: 80,
            surface_x: 416,
            surface_y: 64,
        })
    );
    Ok(())
}

#[test]
fn click_rejects_coordinates_outside_the_returned_screenshot() {
    let mut tracker = WaylandFrameTracker::new("test-client".to_string());
    let window_id = tracker.ensure_window_for_surface(10);
    draw(&mut tracker, 10, 100, 50, 0);
    tracker.sync_window_from_surface(10);

    let error = tracker
        .click_target_for_window(&window_id, 100, 49)
        .expect_err("x == width must be rejected rather than clamped");
    assert!(error.contains("outside screenshot bounds 100x50"));
}

#[test]
fn shm_argb8888_buffer_is_captured_as_rgba() -> Result<(), String> {
    // Two native-endian ARGB8888 pixels: opaque red, half-alpha green.
    let file = [0, 0, 255, 255, 0, 255, 0, 128];
    let buffer = TrackedShmBuffer {
        fd: 3,
        offset: 0,
        width: 2,
        height: 1,
        stride: 8,
        format: ARGB8888,
    };

    assert_eq!(
        buffer.read_rgba(&file)?,
        vec![255, 0, 0, 255, 0, 255, 0, 128]
    );
    Ok(())
}

#[test]
fn fd_attached_to_unknown_message_is_queued_for_following_request() -> Result<(), String> {
    let mut session = WaylandClientSession::new(WaylandClientId(1), Vec::new(), None);
    let mut message = WaylandWireMessage {
        bytes: encode_u32_message(999, 0, &[]),
        fds: vec![3],
    };

    apply_undecoded_client_tracking(&mut session, &mut message)?;

    assert!(message.fds.is_empty());
    assert_eq!(session.pending_client_fds.len(), 1);
    Ok(())
}

#[test]
fn fd_batched_with_manual_wl_shm_event_is_reserved_for_following_backend_event()
-> Result<(), String> {
    let mut object_interfaces = Table::new();
    object_interfaces.insert(22, "wl_shm".to_string());
    let mut backend = WaylandBackendSession {
        globals: Vec::new(),
        object_interfaces,
        pending_backend_fds: Vec::new(),
    };
    let bytes = encode_u32_message(22, 0, &[0]);
    let mut fds = vec![3];

    backend.reassociate_undecoded_backend_fds(&bytes, &mut fds)?;
    assert!(fds.is_empty());
    assert_eq!(backend.pending_backend_fds.len(), 1);

    let mut following_fds = Vec::new();
    wayland_mcp::fds::reassociate_fds(
        &mut backend.pending_backend_fds,
        &[DecodedWaylandArg::Fd],
        &mut following_fds,
    );
    assert_eq!(following_fds.len(), 1);
    assert!(backend.pending_backend_fds.is_empty());
    Ok(())
}

#[test]
fn firefox_style_render_subsurface_inherits_toplevel_identity() -> Result<(), String> {
    let mut tracker = WaylandFrameTracker::new("test-client".to_string());
    tracker.note_xdg_surface_created(30, 10);
    let window_id = tracker.note_xdg_toplevel_created(30, 31)?;
    tracker.note_xdg_toplevel_title(31, Some("Firefox fixture".to_string()));
    tracker.note_xdg_toplevel_app_id(31, Some("firefox".to_string()));

    draw(&mut tracker, 10, 1600, 1200, 0);
    tracker.commit_surface(10);

    // The page buffer can be smaller than its shell parent because of
    // output scaling; ancestry must outrank raw pixel area.
    draw(&mut tracker, 11, 1200, 900, 0xff);
    tracker.commit_surface(11);
    tracker.note_subsurface_created(40, 11, 10);
    tracker.note_subsurface_position(40, 17, 23);

    let windows = tracker.list_windows();
    assert_eq!(windows.len(), 1);
    assert_eq!(windows[0].window_id, window_id);
    assert_eq!(windows[0].title.as_deref(), Some("Firefox fixture"));
    assert_eq!(windows[0].app_id.as_deref(), Some("firefox"));
    assert_eq!((windows[0].width, windows[0].height), (1200, 900));
    assert!(windows[0].capturable);
    assert_eq!(
        tracker
            .surface_for_window(&window_id)
            .map(|surface| surface.id),
        Some(11)
    );
    assert_eq!(
        tracker.click_target_for_window(&window_id, 600, 450)?,
        Some(PointerClickTarget {
            window_id: window_id.clone(),
            surface_id: 10,
            screenshot_x: 600,
            screenshot_y: 450,
            surface_x: 617,
            surface_y: 473,
        })
    );
    Ok(())
}

#[test]
fn capture_tracking_temporarily_disables_raw_forwarding() {
    let mut server = WaylandProxyServer::new(test_config());
    let client_id = WaylandClientId(1);
    let mut session = WaylandClientSession::new(client_id, Vec::new(), None);
    session.raw_forward_only = true;
    server.sessions.insert(client_id.0, session);

    server.enable_capture_tracking_until(6_000);

    assert!(server.capture_tracking_active(5_000));
    assert!(!server.sessions.get(client_id.0).expect("session").raw_forward_only);
}

#[test]
fn expired_capture_tracking_is_cleared() {
    let mut server = WaylandProxyServer::new(test_config());
    server.capture_tracking_deadline = Some(4_000);

    assert!(!server.capture_tracking_active(5_000));
    assert_eq!(server.capture_tracking_deadline, None);
}

#[test]
fn disconnect_preserves_the_causal_runtime_error() {
    let mut server = WaylandProxyServer::new(test_config());
    let client_id = WaylandClientId(7);
    server.sessions.insert(
        client_id.0,
        WaylandClientSession::new(client_id, Vec::new(), None),
    );
    server.note_runtime_error("client 7 request ingest failed: fixture failure".to_string());

    server.remove_client_session(client_id);

    assert_eq!(server.sessions.len(), 0);
    assert_eq!(
        server.last_runtime_error.as_deref(),
        Some("client 7 request ingest failed: fixture failure")
    );
}

#[test]
fn commits_are_newer_than_all_before() -> Result<(), String> {
    let mut tracker = WaylandFrameTracker::new("test-".to_string());
    tracker.note_xdg_surface_created(30, 10);
    let first = tracker.note_xdg_toplevel_created(30, 31)?;
    tracker.note_xdg_surface_created(40, 20);
    let second = tracker.note_xdg_toplevel_created(40, 41)?;
    let serial = |tracker: &WaylandFrameTracker, window_id: &str| {
        tracker
            .surface_for_window(window_id)
            .map(|surface| surface.commit_serial)
    };
    draw(&mut tracker, 10, 4, 2, 1);
    draw(&mut tracker, 20, 3, 5, 2);
    tracker.commit_surface(10);
    tracker.commit_surface(20);
    assert_eq!(serial(&tracker, &first), Some(1));
    assert_eq!(serial(&tracker, &second), Some(2));
    tracker.commit_surface(10);
    assert_eq!(serial(&tracker, &first), Some(3));
    assert_eq!(serial(&tracker, &second), Some(2));
    assert_eq!(tracker.latest_commit_serial(), 3);
    let windows = tracker.list_windows();
    assert_eq!(windows.len(), 2);
    assert_eq!(windows[0].window_id, first);
    assert_eq!((windows[0].width, windows[0].height), (4, 2));
    assert_eq!((windows[1].width, windows[1].height), (3, 5));
    Ok(())
}

#[test]
fn bytes_behind_the_last_pixel_do_not_matter() {
    let buffer = TrackedShmBuffer {
        fd: 1,
        offset: 4,
        width: 1,
        height: 2,
        stride: 12,
        format: ARGB8888,
    };
    assert_eq!(buffer.bytes_to_read(), 20);
    let file: Vec<u8> = (0..32).collect();
    let read = buffer.read_rgba(&file[..20]);
    assert_eq!(read, Ok(vec![6, 5, 4, 7, 18, 17, 16, 19]));
    assert_eq!(buffer.read_rgba(&file), read);
    assert_eq!(
        buffer.read_rgba(&file[..19]),
        Err(
            "failed to read wl_shm row 1 at offset 16: failed to fill whole buffer".to_string()
        )
    );
    let largest = TrackedShmBuffer {
        fd: 1,
        offset: u32::MAX,
        width: u32::MAX,
        height: u32::MAX,
        stride: u32::MAX,
        format: ARGB8888,
    };
    assert_eq!(largest.bytes_to_read(), u64::MAX);
    let empty = TrackedShmBuffer {
        fd: 1,
        offset: 9,
        width: 5,
        height: 0,
        stride: 20,
        format: ARGB8888,
    };
    assert_eq!(empty.bytes_to_read(), 9);
}

#[test]
fn windows_with_pixels_are_told_from_the_rest() -> Result<(), String> {
    let mut tracker = WaylandFrameTracker::new("test-client".to_string());
    tracker.note_xdg_surface_created(30, 10);
    let drawn = tracker.note_xdg_toplevel_created(30, 31)?;
    tracker.note_xdg_surface_created(40, 20);
    tracker.note_xdg_toplevel_created(40, 41)?;
    draw(&mut tracker, 10, 2, 2, 9);
    tracker.commit_surface(10);
    tracker.commit_surface(20);
    let capturable = tracker.list_capturable_windows();
    assert_eq!(capturable.len(), 1);
    assert_eq!(capturable[0].window_id, drawn);
    assert!(!tracker.has_visible_dmabuf_window());
    Ok(())
}

#[test]
fn destroyed_buffers_are_on_no_surface() {
    let mut tracker = WaylandFrameTracker::new("test-client".to_string());
    tracker.set_surface_buffer(10, Some(7));
    tracker.set_surface_buffer(20, Some(8));
    tracker.destroy_buffer(7);
    assert_eq!(tracker.take_surface(10).buffer_id, None);
    assert_eq!(tracker.take_surface(20).buffer_id, Some(8));
}

#[test]
fn windows_of_one_commit_are_listed_by_name() -> Result<(), String> {
    let mut tracker = WaylandFrameTracker::new("test-client".to_string());
    for number in 1..=11 {
        tracker.note_xdg_surface_created(100 + number, number);
        tracker.note_xdg_toplevel_created(100 + number, 200 + number)?;
    }
    let names = tracker
        .list_windows()
        .into_iter()
        .map(|info| info.window_id)
        .collect::<Vec<_>>();
    let mut expected = (1..=11)
        .map(|number| format!("test-client-window-{number}"))
        .collect::<Vec<_>>();
    expected.sort();
    assert_eq!(names, expected);
    Ok(())
}

#[test]
fn rows_without_pixels_are_always_there() {
    let buffer = |width: u32, height: u32| TrackedShmBuffer {
        fd: 1,
        offset: 100,
        width,
        height,
        stride: u32::MAX,
        format: ARGB8888,
    };
    assert_eq!(buffer(0, 3).read_rgba(&[]), Ok(Vec::new()));
    assert!(buffer(1, 1).read_rgba(&[]).is_err());
    assert_eq!(
        buffer(u32::MAX, u32::MAX).read_rgba(&[]),
        Err("wl_shm output byte count overflow".to_string())
    );
}
