//! What a caller needs to start a program under the proxy, and what it is told
//! where the proxy cannot be used.

use crate::input::{GuiWaylandKeyboardEvent, GuiWaylandPointerEvent};
use crate::surface::GuiWindowInfo;
use crate::text;
use crate::text::{chars_of, str_eq};
use vstd::prelude::*;
use vstd::string::*;

verus! {

/// The name of the proxy's socket where none is configured.
pub const DEFAULT_PROXY_SOCKET: &'static str = "wayland-mcp-0";

/// The name of the compositor's socket where none is configured.
pub const DEFAULT_BACKEND_SOCKET: &'static str = "wayland-0";

/// Whether a character has the Unicode property White_Space.
pub open spec fn white_space(character: char) -> bool {
    let code = character as u32;
    ||| 0x09 <= code <= 0x0d
    ||| code == 0x20
    ||| code == 0x85
    ||| code == 0xa0
    ||| code == 0x1680
    ||| 0x2000 <= code <= 0x200a
    ||| code == 0x2028
    ||| code == 0x2029
    ||| code == 0x202f
    ||| code == 0x205f
    ||| code == 0x3000
}

fn is_white_space(character: char) -> (white: bool)
    ensures
        white == white_space(character),
{
    let code: u32 = character as u32;
    (0x09 <= code && code <= 0x0d) || code == 0x20 || code == 0x85 || code == 0xa0 || code
        == 0x1680 || (0x2000 <= code && code <= 0x200a) || code == 0x2028 || code == 0x2029 || code
        == 0x202f || code == 0x205f || code == 0x3000
}

/// Whether a text has nothing but white space.
pub open spec fn blank(content: Seq<char>) -> bool {
    forall|i: int| 0 <= i < content.len() ==> white_space(#[trigger] content[i])
}

fn is_blank(content: &str) -> (empty: bool)
    ensures
        empty == blank(content@),
{
    let characters = chars_of(content);
    let mut index: usize = 0;
    while index < characters.len()
        invariant
            index <= characters@.len(),
            characters@ == content@,
            forall|i: int| 0 <= i < index ==> white_space(#[trigger] content@[i]),
        decreases characters@.len() - index,
    {
        if !is_white_space(characters[index]) {
            return false;
        }
        index = index + 1;
    }
    true
}

/// A configured name, or the usual one where none is configured.
pub open spec fn configured(value: Option<Seq<char>>, usual: Seq<char>) -> Seq<char> {
    match value {
        Some(own) => if blank(own) {
            usual
        } else {
            own
        },
        None => usual,
    }
}

/// Where the proxy listens, and where the compositor does.
#[derive(Debug, PartialEq, Eq)]
pub struct WaylandProxyConfig {
    pub socket_name: String,
    pub backend_socket: String,
}

/// Takes a configured name, or the usual one where none is configured.
pub fn configured_name(value: Option<String>, usual: &str) -> (name: String)
    ensures
        name@ == configured(text::optional(value), usual@),
{
    match value {
        Some(own) => {
            if is_blank(own.as_str()) {
                usual.to_owned()
            } else {
                own
            }
        },
        None => usual.to_owned(),
    }
}

impl WaylandProxyConfig {
    /// The configuration from what is set in the environment.
    pub fn from_env(socket: Option<String>, backend: Option<String>) -> (config: Self)
        ensures
            config.socket_name@ == configured(text::optional(socket), DEFAULT_PROXY_SOCKET@),
            config.backend_socket@ == configured(text::optional(backend), DEFAULT_BACKEND_SOCKET@),
    {
        WaylandProxyConfig {
            socket_name: configured_name(socket, DEFAULT_PROXY_SOCKET),
            backend_socket: configured_name(backend, DEFAULT_BACKEND_SOCKET),
        }
    }
}

/// Where a compositor's socket is: at a path of its own, or under a name in the
/// directory for sockets.
#[derive(Debug, Clone, Copy, PartialEq, Eq, Structural)]
pub enum SocketPlace {
    Absolute,
    InRuntimeDir,
}

impl View for SocketPlace {
    type V = SocketPlace;

    open spec fn view(&self) -> SocketPlace {
        *self
    }
}

/// Where a compositor's socket is.
pub open spec fn socket_place(backend_socket: Seq<char>, has_runtime_dir: bool) -> Result<
    SocketPlace,
    Seq<char>,
> {
    if backend_socket.len() > 0 && backend_socket[0] == '/' {
        Ok(SocketPlace::Absolute)
    } else if has_runtime_dir {
        Ok(SocketPlace::InRuntimeDir)
    } else {
        Err("XDG_RUNTIME_DIR is not set for Wayland backend connection"@)
    }
}

/// Says where a compositor's socket is.
pub fn backend_socket_path(config: &WaylandProxyConfig, has_runtime_dir: bool) -> (place: Result<
    SocketPlace,
    String,
>)
    ensures
        text::outcome(place) == socket_place(config.backend_socket@, has_runtime_dir),
{
    let characters = chars_of(config.backend_socket.as_str());
    if characters.len() > 0 && characters[0] == '/' {
        Ok(SocketPlace::Absolute)
    } else if has_runtime_dir {
        Ok(SocketPlace::InRuntimeDir)
    } else {
        Err("XDG_RUNTIME_DIR is not set for Wayland backend connection".to_owned())
    }
}

/// The low 32 bits of the milliseconds since the epoch, and zero before it.
pub fn wayland_timestamp_ms_u32(since_epoch_ms: Option<u128>) -> (time: u32)
    ensures
        time == (match since_epoch_ms {
            Some(milliseconds) => (milliseconds % 0x1_0000_0000) as u32,
            None => 0,
        }),
{
    match since_epoch_ms {
        Some(milliseconds) => (milliseconds % 0x1_0000_0000) as u32,
        None => 0,
    }
}

/// The milliseconds since the epoch as far as 64 bits hold them, and zero
/// before it.
pub fn unix_time_ms(since_epoch_ms: Option<u128>) -> (time: u64)
    ensures
        time == (match since_epoch_ms {
            Some(milliseconds) => if milliseconds > u64::MAX {
                u64::MAX
            } else {
                milliseconds as u64
            },
            None => 0,
        }),
{
    match since_epoch_ms {
        Some(milliseconds) => {
            if milliseconds > u64::MAX as u128 {
                u64::MAX
            } else {
                milliseconds as u64
            }
        },
        None => 0,
    }
}

/// What is known of the proxy's endpoint before a program is started.
#[derive(Debug, PartialEq, Eq)]
pub struct WaylandLaunchPreflight {
    pub endpoint_state: String,
    pub endpoint_exists: bool,
    pub endpoint_is_unix_socket: bool,
    pub accept_loop_running: bool,
    pub caller_namespace_access: String,
    pub render_node_access: String,
    pub detail: Option<String>,
}

/// The value of what is known of the endpoint.
#[verifier::ext_equal]
pub struct PreflightView {
    pub endpoint_state: Seq<char>,
    pub endpoint_exists: bool,
    pub endpoint_is_unix_socket: bool,
    pub accept_loop_running: bool,
    pub caller_namespace_access: Seq<char>,
    pub render_node_access: Seq<char>,
    pub detail: Option<Seq<char>>,
}

impl View for WaylandLaunchPreflight {
    type V = PreflightView;

    open spec fn view(&self) -> PreflightView {
        PreflightView {
            endpoint_state: self.endpoint_state@,
            endpoint_exists: self.endpoint_exists,
            endpoint_is_unix_socket: self.endpoint_is_unix_socket,
            accept_loop_running: self.accept_loop_running,
            caller_namespace_access: self.caller_namespace_access@,
            render_node_access: self.render_node_access@,
            detail: text::optional(self.detail),
        }
    }
}

impl PreflightView {
    /// There is no endpoint.
    pub open spec fn unavailable(detail: Option<Seq<char>>) -> Self {
        PreflightView {
            endpoint_state: "unavailable"@,
            endpoint_exists: false,
            endpoint_is_unix_socket: false,
            accept_loop_running: false,
            caller_namespace_access: "not_tested"@,
            render_node_access: "not_tested"@,
            detail,
        }
    }
}

impl WaylandLaunchPreflight {
    /// There is no endpoint.
    pub fn unavailable(detail: Option<String>) -> (preflight: Self)
        ensures
            preflight@ == PreflightView::unavailable(text::optional(detail)),
    {
        WaylandLaunchPreflight {
            endpoint_state: "unavailable".to_owned(),
            endpoint_exists: false,
            endpoint_is_unix_socket: false,
            accept_loop_running: false,
            caller_namespace_access: "not_tested".to_owned(),
            render_node_access: "not_tested".to_owned(),
            detail,
        }
    }
}

/// The proxy's endpoint as it was found: what its path holds is either a socket
/// or something else, or could not be told.
pub struct Endpoint {
    pub socket_path: String,
    pub shut_down: bool,
    pub accept_loop_finished: bool,
    pub is_socket: Result<bool, String>,
}

/// The value of an endpoint.
#[verifier::ext_equal]
pub struct EndpointView {
    pub socket_path: Seq<char>,
    pub shut_down: bool,
    pub accept_loop_finished: bool,
    pub is_socket: Result<bool, Seq<char>>,
}

impl View for Endpoint {
    type V = EndpointView;

    open spec fn view(&self) -> EndpointView {
        EndpointView {
            socket_path: self.socket_path@,
            shut_down: self.shut_down,
            accept_loop_finished: self.accept_loop_finished,
            is_socket: text::outcome(self.is_socket),
        }
    }
}

/// The value of an endpoint that may be missing.
pub open spec fn optional_endpoint(endpoint: Option<Endpoint>) -> Option<EndpointView> {
    match endpoint {
        Some(found) => Some(found@),
        None => None,
    }
}

impl EndpointView {
    /// Why clients cannot connect, if they cannot.
    pub open spec fn error(self) -> Option<Seq<char>> {
        if self.shut_down {
            Some("Wayland proxy transport has been shut down"@)
        } else if self.accept_loop_finished {
            Some("Wayland proxy accept loop has stopped"@)
        } else {
            match self.is_socket {
                Ok(true) => None,
                Ok(false) => Some(
                    "Wayland proxy endpoint "@ + self.socket_path + " is not a Unix socket"@,
                ),
                Err(error) => Some(
                    "Wayland proxy endpoint "@ + self.socket_path + " is unavailable: "@ + error,
                ),
            }
        }
    }

    /// What a caller is told before it starts a program.
    pub open spec fn preflight(self) -> PreflightView {
        PreflightView {
            endpoint_state: if self.error() is None {
                "ready"@
            } else {
                "unavailable"@
            },
            endpoint_exists: self.is_socket is Ok,
            endpoint_is_unix_socket: self.is_socket == Ok::<bool, Seq<char>>(true),
            accept_loop_running: !self.shut_down && !self.accept_loop_finished,
            caller_namespace_access: "not_tested"@,
            render_node_access: "not_tested"@,
            detail: self.error(),
        }
    }
}

impl Endpoint {
    /// Why clients cannot connect, if they cannot.
    pub fn availability_error(&self) -> (error: Option<String>)
        ensures
            text::optional(error) == self@.error(),
    {
        if self.shut_down {
            return Some("Wayland proxy transport has been shut down".to_owned());
        }
        if self.accept_loop_finished {
            return Some("Wayland proxy accept loop has stopped".to_owned());
        }
        match &self.is_socket {
            Ok(true) => None,
            Ok(false) => {
                let mut message = "Wayland proxy endpoint ".to_owned();
                message.append(self.socket_path.as_str());
                message.append(" is not a Unix socket");
                Some(message)
            },
            Err(error) => {
                let mut message = "Wayland proxy endpoint ".to_owned();
                message.append(self.socket_path.as_str());
                message.append(" is unavailable: ");
                message.append(error.as_str());
                Some(message)
            },
        }
    }

    /// What a caller is told before it starts a program.
    pub fn launch_preflight(&self) -> (preflight: WaylandLaunchPreflight)
        ensures
            preflight@ == self@.preflight(),
    {
        let detail = self.availability_error();
        let (exists, socket): (bool, bool) = match &self.is_socket {
            Ok(socket) => (true, *socket),
            Err(_) => (false, false),
        };
        WaylandLaunchPreflight {
            endpoint_state: if detail.is_none() {
                "ready".to_owned()
            } else {
                "unavailable".to_owned()
            },
            endpoint_exists: exists,
            endpoint_is_unix_socket: socket,
            accept_loop_running: !self.shut_down && !self.accept_loop_finished,
            caller_namespace_access: "not_tested".to_owned(),
            render_node_access: "not_tested".to_owned(),
            detail,
        }
    }
}

/// An endpoint is called ready exactly where a client could connect: the proxy
/// accepts, and the path holds a socket.
pub proof fn ready_means_connectable(endpoint: EndpointView)
    ensures
        endpoint.preflight().endpoint_state == "ready"@ <==> (
        endpoint.preflight().accept_loop_running && endpoint.preflight().endpoint_is_unix_socket),
        endpoint.preflight().detail is None <==> endpoint.preflight().endpoint_state == "ready"@,
{
    reveal_strlit("ready");
    reveal_strlit("unavailable");
    assert("ready"@.len() != "unavailable"@.len());
}

/// What is said where a new endpoint could not be set up in place of an old
/// one.
pub open spec fn restart_text(previous: Option<Seq<char>>, error: Seq<char>) -> Seq<char> {
    match previous {
        Some(earlier) => "Wayland proxy endpoint became unavailable ("@ + earlier
            + ") and could not be restarted: "@ + error,
        None => error,
    }
}

/// Says that a new endpoint could not be set up in place of an old one.
pub fn restart_error(previous: Option<String>, error: String) -> (message: String)
    ensures
        message@ == restart_text(text::optional(previous), error@),
{
    match previous {
        Some(earlier) => {
            let mut message = "Wayland proxy endpoint became unavailable (".to_owned();
            message.append(earlier.as_str());
            message.append(") and could not be restarted: ");
            message.append(error.as_str());
            message
        },
        None => error,
    }
}

/// Why there is no screenshot, as the caller is told.
pub open spec fn screenshot_unavailable(
    endpoint: Option<EndpointView>,
    startup_error: Option<Seq<char>>,
) -> Seq<char> {
    let error = match endpoint {
        Some(found) => found.error(),
        None => None,
    };
    if endpoint is Some && error is None {
        "wayland.screenshot has no proxied Wayland window to capture yet; call wayland.windows first. This path only captures windows connected through the proxy and does not fall back to whole-desktop capture"@
    } else {
        match (error, startup_error) {
            (Some(message), _) =>
                "wayland.screenshot is unavailable because the in-process Wayland proxy endpoint is not live: "@
                + message,
            (None, Some(message)) =>
                "wayland.screenshot is unavailable because the in-process Wayland proxy failed to start: "@
                + message,
            (None, None) =>
                "wayland.screenshot is unavailable until the generated protocol server is implemented; the old raw-wire proxy transport is disabled and there is no whole-desktop fallback"@,
        }
    }
}

/// Says why there is no screenshot.
pub fn screenshot_unavailable_message(
    endpoint: &Option<Endpoint>,
    startup_error: &Option<String>,
) -> (message: String)
    ensures
        message@ == screenshot_unavailable(
            optional_endpoint(*endpoint),
            text::optional(*startup_error),
        ),
{
    if let Some(found) = endpoint {
        match found.availability_error() {
            None => {
                return "wayland.screenshot has no proxied Wayland window to capture yet; call wayland.windows first. This path only captures windows connected through the proxy and does not fall back to whole-desktop capture".to_owned();
            },
            Some(error) => {
                let mut message =
                    "wayland.screenshot is unavailable because the in-process Wayland proxy endpoint is not live: ".to_owned();
                message.append(error.as_str());
                return message;
            },
        }
    }
    match startup_error {
        Some(error) => {
            let mut message =
                "wayland.screenshot is unavailable because the in-process Wayland proxy failed to start: ".to_owned();
            message.append(error.as_str());
            message
        },
        None => "wayland.screenshot is unavailable until the generated protocol server is implemented; the old raw-wire proxy transport is disabled and there is no whole-desktop fallback".to_owned(),
    }
}

/// The kind of session that the proxy runs in.
#[derive(Debug, Clone, Copy, PartialEq, Eq, Structural)]
pub enum DesktopSession {
    Wayland,
}

/// Which kind of session this is, by whether a compositor is named in the
/// environment.
pub fn desktop_session(has_wayland_display: bool) -> (session: Option<DesktopSession>)
    ensures
        session == (if has_wayland_display {
            Some(DesktopSession::Wayland)
        } else {
            None::<DesktopSession>
        }),
{
    if has_wayland_display {
        Some(DesktopSession::Wayland)
    } else {
        None
    }
}

/// Whether the environment of this process is moved over to the proxy: a
/// compositor's socket is there, and clients can connect to the proxy.
pub fn takes_over_environment(backend_socket_exists: bool, endpoint: &Option<Endpoint>) -> (moved: bool)
    ensures
        moved == (backend_socket_exists && (optional_endpoint(*endpoint) matches Some(found)
            && found.error() is None)),
{
    if !backend_socket_exists {
        return false;
    }
    match endpoint {
        Some(found) => found.availability_error().is_none(),
        None => false,
    }
}

/// What stands in for the proxy where there is no compositor: it knows no
/// window, and refuses everything else.
#[derive(Debug, Clone, Copy, PartialEq, Eq, Structural)]
pub struct CommandGuiBackend;

/// What stands in for the proxy where there is no compositor.
pub fn default_command_backend() -> (backend: CommandGuiBackend)
    ensures
        backend == CommandGuiBackend,
{
    CommandGuiBackend
}

/// Why there is no screenshot without a compositor.
pub open spec fn command_screenshot_error(window_id: Option<Seq<char>>) -> Seq<char> {
    match window_id {
        Some(named) => if named == "desktop"@ {
            "wayland.screenshot is only available for windows connected through the Wayland proxy"@
        } else {
            "window_id `"@ + named
                + "` is not available because GUI capture only supports windows connected through the Wayland MCP proxy"@
        },
        None => "wayland.screenshot is only available for windows connected through the Wayland proxy"@,
    }
}

impl CommandGuiBackend {
    /// There are no windows.
    pub fn list_windows(&self) -> (windows: Result<Vec<GuiWindowInfo>, String>)
        ensures
            windows matches Ok(list) && list@ == Seq::<GuiWindowInfo>::empty(),
    {
        Ok(Vec::new())
    }

    /// There is no screenshot.
    pub fn screenshot(&self, window_id: &Option<String>) -> (image: Result<Vec<u8>, String>)
        ensures
            image matches Err(message) && message@ == command_screenshot_error(
                text::optional(*window_id),
            ),
    {
        if let Some(named) = window_id {
            if !str_eq(named.as_str(), "desktop") {
                let mut message = "window_id `".to_owned();
                message.append(named.as_str());
                message.append(
                    "` is not available because GUI capture only supports windows connected through the Wayland MCP proxy",
                );
                return Err(message);
            }
        }
        Err(
            "wayland.screenshot is only available for windows connected through the Wayland proxy".to_owned(),
        )
    }

    /// There is no next frame either.
    pub fn capture_next_frame(&self, window_id: &Option<String>) -> (image: Result<Vec<u8>, String>)
        ensures
            image matches Err(message) && message@ == command_screenshot_error(
                text::optional(*window_id),
            ),
    {
        self.screenshot(window_id)
    }

    /// There is no pointer.
    pub fn emit_wayland_pointer_event(&self, event: &GuiWaylandPointerEvent) -> (report: Result<
        String,
        String,
    >)
        ensures
            report matches Err(message) && message@
                == "raw Wayland pointer events are unavailable on the command backend"@,
    {
        Err("raw Wayland pointer events are unavailable on the command backend".to_owned())
    }

    /// There is no keyboard.
    pub fn emit_wayland_keyboard_event(&self, event: &GuiWaylandKeyboardEvent) -> (report: Result<
        String,
        String,
    >)
        ensures
            report matches Err(message) && message@
                == "raw Wayland keyboard events are unavailable on the command backend"@,
    {
        Err("raw Wayland keyboard events are unavailable on the command backend".to_owned())
    }

    /// There is no text entry.
    pub fn keyboard_text_plan(&self, text: &str) -> (message: String)
        ensures
            message@ == "text entry is unavailable on the command backend"@,
    {
        "text entry is unavailable on the command backend".to_owned()
    }
}

} // verus!
