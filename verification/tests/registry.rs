use wayland_mcp::globals::{WaylandProtocolRegistry, register_frame_tracking_intercepts};
use wayland_mcp::messages::GeneratedHookRequestId;
use wayland_mcp::registry::{WaylandGeneratedProtocolRegistry, WaylandHookRegistry};
use wayland_mcp::tables::GeneratedRequestId;

#[test]
fn registry_exposes_expected_globals() {
    let registry = WaylandGeneratedProtocolRegistry::new();
    let globals = registry
        .globals()
        .iter()
        .map(|global| global.interface_name)
        .collect::<Vec<_>>();
    assert!(globals.contains(&"wl_compositor"));
    assert!(globals.contains(&"zwp_linux_dmabuf_v1"));
    assert!(globals.contains(&"xdg_wm_base"));
}

#[test]
fn registry_resolves_hook_requests_by_id_and_name() {
    let registry = WaylandGeneratedProtocolRegistry::new();
    let by_id = registry
        .hook_request_by_id(GeneratedHookRequestId::WlSurfaceCommit)
        .expect("hook request id");
    let by_name = registry
        .hook_request_by_name("wl_surface.commit")
        .expect("hook request name");
    assert_eq!(by_id.request_name, "wl_surface.commit");
    assert_eq!(by_id.request_name, by_name.request_name);
}

#[test]
fn registry_resolves_requests_by_generated_id() {
    let registry = WaylandGeneratedProtocolRegistry::new();
    let (interface, request) = registry
        .request_by_id(GeneratedRequestId::WlSurfaceCommit)
        .expect("request id");
    assert_eq!(interface.name, "wl_surface");
    assert_eq!(request.name, "commit");
}

#[test]
fn hook_registry_groups_hooks_by_generated_request_id() {
    let mut hooks = WaylandHookRegistry::default();
    hooks.register(GeneratedHookRequestId::WlSurfaceCommit, "hook-a");
    hooks.register(GeneratedHookRequestId::WlSurfaceCommit, "hook-b");
    hooks.register(GeneratedHookRequestId::WlSurfaceAttach, "hook-c");

    assert!(hooks.has_hooks(GeneratedHookRequestId::WlSurfaceCommit));
    assert_eq!(
        hooks.hooks_for(GeneratedHookRequestId::WlSurfaceCommit),
        ["hook-a", "hook-b"]
    );
    assert_eq!(
        hooks.hooks_for(GeneratedHookRequestId::WlSurfaceAttach),
        ["hook-c"]
    );
}

#[test]
fn hooks_are_found_by_the_full_name_of_their_request() {
    let registry = WaylandProtocolRegistry::default();
    assert_eq!(
        registry.hook_request_id("wl_surface.commit"),
        Some(GeneratedHookRequestId::WlSurfaceCommit)
    );
    assert_eq!(registry.hook_request_id("wl_surface.nothing"), None);
}

#[test]
fn names_of_hooks_come_once() {
    let mut registry = WaylandProtocolRegistry::default();
    register_frame_tracking_intercepts(&mut registry);
    let names = registry.intercept_names();
    assert!(names.contains(&"wl_surface.commit".to_string()));
    for (index, name) in names.iter().enumerate() {
        let id = registry.hook_request_id(name).unwrap();
        assert!(!registry.intercepts_for(id).is_empty());
        assert!(!names[..index].contains(name));
    }
}
