//! Messages as the proxy reads them: which request or event a message is, with
//! its arguments, and which objects it makes.

use crate::dmabuf;
use crate::dmabuf::supports_screenshot_drm_format;
use crate::fds;
use crate::globals;
use crate::globals::is_suppressed_backend_global;
use crate::messages;
use crate::messages::{
    EventView, GeneratedDecodedArg, GeneratedEvent, GeneratedHookRequest,
    GeneratedImplementedRequest, GeneratedTrackedRequest, TrackedRequestView,
    decode_generated_event_by_opcode, decode_generated_hook_request_by_id,
    decode_generated_implemented_request_by_id, decode_generated_tracked_request_by_id,
    decoded_args,
};
use crate::registry;
use crate::registry::{WaylandGeneratedProtocolRegistry, find_generated_request};
use crate::table::Table;
use crate::tables;
use crate::tables::{
    GeneratedRequestId, event_message_spec, find_generated_request_id, interface_by_name,
    message_full_name, request_by_opcode, request_message_spec,
};
use crate::text;
use crate::text::{append_decimal, append_signed};
use crate::wire;
use crate::wire::{
    ArgView, DecodedWaylandArg, GeneratedArgKind, GeneratedArgSpec, decode_wayland_args,
    decode_wayland_header,
};
use vstd::prelude::*;
use vstd::string::*;

verus! {

/// A request of a client.
#[derive(Debug, PartialEq, Eq)]
pub struct DecodedWaylandRequest {
    pub object_id: u32,
    pub size: u16,
    pub opcode: u16,
    pub interface: String,
    pub request_name: String,
    pub request_id: GeneratedRequestId,
    pub implemented_request: Option<GeneratedImplementedRequest>,
    pub hook_request: Option<GeneratedHookRequest>,
    pub tracked_request: Option<GeneratedTrackedRequest>,
    pub args: Vec<DecodedWaylandArg>,
}

/// The value of a request.
#[verifier::ext_equal]
pub struct RequestView {
    pub object_id: u32,
    pub size: u16,
    pub opcode: u16,
    pub interface: Seq<char>,
    pub request_name: Seq<char>,
    pub request_id: GeneratedRequestId,
    pub implemented_request: Option<GeneratedImplementedRequest>,
    pub hook_request: Option<GeneratedHookRequest>,
    pub tracked_request: Option<TrackedRequestView>,
    pub args: Seq<ArgView>,
}

impl View for DecodedWaylandRequest {
    type V = RequestView;

    open spec fn view(&self) -> RequestView {
        RequestView {
            object_id: self.object_id,
            size: self.size,
            opcode: self.opcode,
            interface: self.interface@,
            request_name: self.request_name@,
            request_id: self.request_id,
            implemented_request: self.implemented_request,
            hook_request: self.hook_request,
            tracked_request: messages::optional_tracked(self.tracked_request),
            args: wire::arg_values(self.args@),
        }
    }
}

/// An event of a compositor.
#[derive(Debug, PartialEq, Eq)]
pub struct DecodedWaylandEvent {
    pub object_id: u32,
    pub size: u16,
    pub opcode: u16,
    pub interface: String,
    pub event_name: String,
    pub arg_specs: Vec<GeneratedArgSpec>,
    pub generated_event: GeneratedEvent,
    pub args: Vec<DecodedWaylandArg>,
}

/// The value of an event with its surroundings.
#[verifier::ext_equal]
pub struct DecodedEventView {
    pub object_id: u32,
    pub size: u16,
    pub opcode: u16,
    pub interface: Seq<char>,
    pub event_name: Seq<char>,
    pub arg_specs: Seq<GeneratedArgSpec>,
    pub generated_event: EventView,
    pub args: Seq<ArgView>,
}

impl View for DecodedWaylandEvent {
    type V = DecodedEventView;

    open spec fn view(&self) -> DecodedEventView {
        DecodedEventView {
            object_id: self.object_id,
            size: self.size,
            opcode: self.opcode,
            interface: self.interface@,
            event_name: self.event_name@,
            arg_specs: self.arg_specs@,
            generated_event: self.generated_event@,
            args: wire::arg_values(self.args@),
        }
    }
}

/// What is said of an opcode that an interface does not have.
pub open spec fn unknown_opcode(sort: Seq<char>, opcode: u16, interface: Seq<char>) -> Seq<char> {
    "unknown "@ + sort + " opcode "@ + text::decimal(opcode as nat) + " for interface "@ + interface
}

fn unknown_opcode_message(sort: &str, opcode: u16, interface: &str) -> (message: String)
    ensures
        message@ == unknown_opcode(sort@, opcode, interface@),
{
    let mut message = "unknown ".to_owned();
    message.append(sort);
    message.append(" opcode ");
    append_decimal(&mut message, opcode as u64);
    message.append(" for interface ");
    message.append(interface);
    message
}

/// The request that the message of an object of an interface is.
pub open spec fn request_in(
    header: wire::WaylandMessageHeader,
    interface: Seq<char>,
    bytes: Seq<u8>,
) -> Result<RequestView, Seq<char>> {
    match tables::interface_named(interface) {
        None => Err(unknown_opcode("request"@, header.opcode, interface)),
        Some(id) => match tables::request_message(id, header.opcode) {
            None => Err(unknown_opcode("request"@, header.opcode, interface)),
            Some(message) => match wire::message_args(bytes, header.size, message.args) {
                Err(error) => Err(error),
                Ok(args) => {
                    let name = tables::full_name(interface, message.name@);
                    match tables::request_at(id, header.opcode) {
                        None => Err("missing generated request id for "@ + name),
                        Some(request_id) => Ok(
                            RequestView {
                                object_id: header.object_id,
                                size: header.size,
                                opcode: header.opcode,
                                interface,
                                request_name: name,
                                request_id,
                                implemented_request: messages::implemented_request_of(
                                    request_id,
                                    args,
                                ),
                                hook_request: messages::hook_request_of(request_id, args),
                                tracked_request: messages::tracked_request_of(request_id, args),
                                args,
                            },
                        ),
                    }
                },
            },
        },
    }
}

/// The request that a message is, where `interfaces` are those of the objects.
pub open spec fn request_of_message(interfaces: Map<u32, Seq<char>>, bytes: Seq<u8>) -> Result<
    RequestView,
    Seq<char>,
> {
    match wire::header_of(bytes) {
        Err(message) => Err(message),
        Ok(header) => if interfaces.contains_key(header.object_id) {
            request_in(header, interfaces[header.object_id], bytes)
        } else {
            Err("unknown interface for object "@ + text::decimal(header.object_id as nat))
        },
    }
}

/// Reads the request that a message is.
pub fn decode_request_message(interfaces: &Table<u32, String>, bytes: &[u8]) -> (request: Result<
    DecodedWaylandRequest,
    String,
>)
    ensures
        text::outcome(request) == request_of_message(interfaces@, bytes@),
{
    let header = match decode_wayland_header(bytes) {
        Ok(header) => header,
        Err(message) => return Err(message),
    };
    let interface = match interfaces.get(header.object_id) {
        Some(interface) => interface,
        None => {
            let mut message = "unknown interface for object ".to_owned();
            append_decimal(&mut message, header.object_id as u64);
            return Err(message);
        },
    };
    let id = match interface_by_name(interface.as_str()) {
        Some(id) => id,
        None => return Err(
            unknown_opcode_message("request", header.opcode, interface.as_str()),
        ),
    };
    let request = match request_message_spec(id, header.opcode) {
        Some(request) => request,
        None => return Err(
            unknown_opcode_message("request", header.opcode, interface.as_str()),
        ),
    };
    let args = match decode_wayland_args(bytes, header.size, request.args.as_slice()) {
        Ok(args) => args,
        Err(message) => return Err(message),
    };
    let request_name = message_full_name(interface.as_str(), request.name);
    let request_id = match request_by_opcode(id, header.opcode) {
        Some(request_id) => request_id,
        None => {
            let mut message = "missing generated request id for ".to_owned();
            message.append(request_name.as_str());
            return Err(message);
        },
    };
    let decoded = decoded_args(args.as_slice());
    Ok(
        DecodedWaylandRequest {
            object_id: header.object_id,
            size: header.size,
            opcode: header.opcode,
            interface: interface.clone(),
            request_name,
            request_id,
            implemented_request: decode_generated_implemented_request_by_id(
                request_id,
                decoded.as_slice(),
            ),
            hook_request: decode_generated_hook_request_by_id(request_id, decoded.as_slice()),
            tracked_request: decode_generated_tracked_request_by_id(request_id, decoded.as_slice()),
            args,
        },
    )
}

/// The event that the message of an object of an interface is.
pub open spec fn event_in(
    header: wire::WaylandMessageHeader,
    interface: Seq<char>,
    bytes: Seq<u8>,
) -> Result<DecodedEventView, Seq<char>> {
    match tables::interface_named(interface) {
        None => Err(unknown_opcode("event"@, header.opcode, interface)),
        Some(id) => match tables::event_message(id, header.opcode) {
            None => Err(unknown_opcode("event"@, header.opcode, interface)),
            Some(message) => match wire::message_args(bytes, header.size, message.args) {
                Err(error) => Err(error),
                Ok(args) => {
                    let name = tables::full_name(interface, message.name@);
                    match messages::event_of(id, header.opcode, args) {
                        None => Err("generated event decoder could not decode "@ + name),
                        Some(generated_event) => Ok(
                            DecodedEventView {
                                object_id: header.object_id,
                                size: header.size,
                                opcode: header.opcode,
                                interface,
                                event_name: name,
                                arg_specs: message.args,
                                generated_event,
                                args,
                            },
                        ),
                    }
                },
            },
        },
    }
}

/// The event that a message is, where `interfaces` are those of the objects.
pub open spec fn event_of_message(interfaces: Map<u32, Seq<char>>, bytes: Seq<u8>) -> Result<
    DecodedEventView,
    Seq<char>,
> {
    match wire::header_of(bytes) {
        Err(message) => Err(message),
        Ok(header) => if interfaces.contains_key(header.object_id) {
            event_in(header, interfaces[header.object_id], bytes)
        } else {
            Err("unknown backend interface for object "@ + text::decimal(header.object_id as nat))
        },
    }
}

/// Reads the event that a message is.
pub fn decode_wayland_event(object_interfaces: &Table<u32, String>, bytes: &[u8]) -> (event: Result<
    DecodedWaylandEvent,
    String,
>)
    ensures
        text::outcome(event) == event_of_message(object_interfaces@, bytes@),
{
    let header = match decode_wayland_header(bytes) {
        Ok(header) => header,
        Err(message) => return Err(message),
    };
    let interface = match object_interfaces.get(header.object_id) {
        Some(interface) => interface,
        None => {
            let mut message = "unknown backend interface for object ".to_owned();
            append_decimal(&mut message, header.object_id as u64);
            return Err(message);
        },
    };
    let id = match interface_by_name(interface.as_str()) {
        Some(id) => id,
        None => return Err(unknown_opcode_message("event", header.opcode, interface.as_str())),
    };
    let event = match event_message_spec(id, header.opcode) {
        Some(event) => event,
        None => return Err(unknown_opcode_message("event", header.opcode, interface.as_str())),
    };
    let args = match decode_wayland_args(bytes, header.size, event.args.as_slice()) {
        Ok(args) => args,
        Err(message) => return Err(message),
    };
    let event_name = message_full_name(interface.as_str(), event.name);
    let decoded = decoded_args(args.as_slice());
    match decode_generated_event_by_opcode(interface.as_str(), header.opcode, decoded.as_slice()) {
        Some(generated_event) => Ok(
            DecodedWaylandEvent {
                object_id: header.object_id,
                size: header.size,
                opcode: header.opcode,
                interface: interface.clone(),
                event_name,
                arg_specs: event.args,
                generated_event,
                args,
            },
        ),
        None => {
            let mut message = "generated event decoder could not decode ".to_owned();
            message.append(event_name.as_str());
            Err(message)
        },
    }
}

/// The object that a request makes, with its interface.
pub open spec fn created_interface(request: GeneratedImplementedRequest) -> Option<
    (u32, &'static str),
> {
    match request {
        GeneratedImplementedRequest::WlDisplaySync { callback } => {
            Some((callback, "wl_callback"))
        },
        GeneratedImplementedRequest::WlDisplayGetRegistry { registry } => {
            Some((registry, "wl_registry"))
        },
        GeneratedImplementedRequest::WlCompositorCreateSurface { id } => {
            Some((id, "wl_surface"))
        },
        GeneratedImplementedRequest::WlCompositorCreateRegion { id } => {
            Some((id, "wl_region"))
        },
        GeneratedImplementedRequest::WlDataDeviceManagerCreateDataSource { id } => {
            Some((id, "wl_data_source"))
        },
        GeneratedImplementedRequest::WlDataDeviceManagerGetDataDevice { id, .. } => {
            Some((id, "wl_data_device"))
        },
        GeneratedImplementedRequest::WlShellGetShellSurface { id, .. } => {
            Some((id, "wl_shell_surface"))
        },
        GeneratedImplementedRequest::WlSurfaceFrame { callback } => {
            Some((callback, "wl_callback"))
        },
        GeneratedImplementedRequest::WlSurfaceGetRelease { callback } => {
            Some((callback, "wp_linux_buffer_release_v1"))
        },
        GeneratedImplementedRequest::WlSeatGetPointer { id } => {
            Some((id, "wl_pointer"))
        },
        GeneratedImplementedRequest::WlSeatGetKeyboard { id } => {
            Some((id, "wl_keyboard"))
        },
        GeneratedImplementedRequest::WlSeatGetTouch { id } => {
            Some((id, "wl_touch"))
        },
        GeneratedImplementedRequest::WlSubcompositorGetSubsurface { id, .. } => {
            Some((id, "wl_subsurface"))
        },
        GeneratedImplementedRequest::XdgWmBaseCreatePositioner { id } => {
            Some((id, "xdg_positioner"))
        },
        GeneratedImplementedRequest::XdgWmBaseGetXdgSurface { id, .. } => {
            Some((id, "xdg_surface"))
        },
        GeneratedImplementedRequest::XdgSurfaceGetToplevel { id } => {
            Some((id, "xdg_toplevel"))
        },
        GeneratedImplementedRequest::XdgSurfaceGetPopup { id, .. } => {
            Some((id, "xdg_popup"))
        },
        GeneratedImplementedRequest::ZwpLinuxDmabufV1CreateParams { params_id } => {
            Some((params_id, "zwp_linux_buffer_params_v1"))
        },
        GeneratedImplementedRequest::ZwpLinuxDmabufV1GetDefaultFeedback { id } => {
            Some((id, "zwp_linux_dmabuf_feedback_v1"))
        },
        GeneratedImplementedRequest::ZwpLinuxDmabufV1GetSurfaceFeedback { id, .. } => {
            Some((id, "zwp_linux_dmabuf_feedback_v1"))
        },
        GeneratedImplementedRequest::ZwpLinuxBufferParamsV1CreateImmed { buffer_id, .. } => {
            Some((buffer_id, "wl_buffer"))
        },
        GeneratedImplementedRequest::WpLinuxDrmSyncobjManagerV1GetSurface { id, .. } => {
            Some((id, "wp_linux_drm_syncobj_surface_v1"))
        },
        GeneratedImplementedRequest::WpLinuxDrmSyncobjManagerV1ImportTimeline { id, .. } => {
            Some((id, "wp_linux_drm_syncobj_timeline_v1"))
        },
        GeneratedImplementedRequest::WpTearingControlManagerV1GetTearingControl { id, .. } => {
            Some((id, "wp_tearing_control_v1"))
        },
        GeneratedImplementedRequest::WpPresentationFeedback { callback, .. } => {
            Some((callback, "wp_presentation_feedback"))
        },
        GeneratedImplementedRequest::WpColorManagerV1GetOutput { id, .. } => {
            Some((id, "wp_color_management_output_v1"))
        },
        GeneratedImplementedRequest::WpColorManagerV1GetSurface { id, .. } => {
            Some((id, "wp_color_management_surface_v1"))
        },
        GeneratedImplementedRequest::WpColorManagerV1GetSurfaceFeedback { id, .. } => {
            Some((id, "wp_color_management_surface_feedback_v1"))
        },
        GeneratedImplementedRequest::WpColorManagerV1CreateIccCreator { obj } => {
            Some((obj, "wp_image_description_creator_icc_v1"))
        },
        GeneratedImplementedRequest::WpColorManagerV1CreateParametricCreator { obj } => {
            Some((obj, "wp_image_description_creator_params_v1"))
        },
        GeneratedImplementedRequest::WpColorManagerV1CreateWindowsScrgb { image_description } => {
            Some((image_description, "wp_image_description_v1"))
        },
        GeneratedImplementedRequest::WpColorManagerV1GetImageDescription { image_description, .. } => {
            Some((image_description, "wp_image_description_v1"))
        },
        GeneratedImplementedRequest::WpColorManagerV1CreateWindowsBt2100 { image_description } => {
            Some((image_description, "wp_image_description_v1"))
        },
        GeneratedImplementedRequest::WpColorManagementOutputV1GetImageDescription { image_description } => {
            Some((image_description, "wp_image_description_v1"))
        },
        GeneratedImplementedRequest::WpColorManagementSurfaceFeedbackV1GetPreferred { image_description } => {
            Some((image_description, "wp_image_description_v1"))
        },
        GeneratedImplementedRequest::WpColorManagementSurfaceFeedbackV1GetPreferredParametric { image_description } => {
            Some((image_description, "wp_image_description_v1"))
        },
        GeneratedImplementedRequest::WpImageDescriptionCreatorIccV1Create { image_description } => {
            Some((image_description, "wp_image_description_v1"))
        },
        GeneratedImplementedRequest::WpImageDescriptionCreatorParamsV1Create { image_description } => {
            Some((image_description, "wp_image_description_v1"))
        },
        GeneratedImplementedRequest::WpImageDescriptionV1GetInformation { information } => {
            Some((information, "wp_image_description_info_v1"))
        },
        GeneratedImplementedRequest::WpFifoManagerV1GetFifo { id, .. } => {
            Some((id, "wp_fifo_v1"))
        },
        GeneratedImplementedRequest::WpFractionalScaleManagerV1GetFractionalScale { id, .. } => {
            Some((id, "wp_fractional_scale_v1"))
        },
        GeneratedImplementedRequest::WpViewporterGetViewport { id, .. } => {
            Some((id, "wp_viewport"))
        },
        _ => None,
    }
}

/// The object that a request makes, with its interface.
pub fn implemented_request_created_interface(request: &GeneratedImplementedRequest) -> (created:
    Option<(u32, &'static str)>)
    ensures
        created == created_interface(*request),
{
    match request {
        GeneratedImplementedRequest::WlDisplaySync { callback } => {
            Some((*callback, "wl_callback"))
        },
        GeneratedImplementedRequest::WlDisplayGetRegistry { registry } => {
            Some((*registry, "wl_registry"))
        },
        GeneratedImplementedRequest::WlCompositorCreateSurface { id } => {
            Some((*id, "wl_surface"))
        },
        GeneratedImplementedRequest::WlCompositorCreateRegion { id } => {
            Some((*id, "wl_region"))
        },
        GeneratedImplementedRequest::WlDataDeviceManagerCreateDataSource { id } => {
            Some((*id, "wl_data_source"))
        },
        GeneratedImplementedRequest::WlDataDeviceManagerGetDataDevice { id, .. } => {
            Some((*id, "wl_data_device"))
        },
        GeneratedImplementedRequest::WlShellGetShellSurface { id, .. } => {
            Some((*id, "wl_shell_surface"))
        },
        GeneratedImplementedRequest::WlSurfaceFrame { callback } => {
            Some((*callback, "wl_callback"))
        },
        GeneratedImplementedRequest::WlSurfaceGetRelease { callback } => {
            Some((*callback, "wp_linux_buffer_release_v1"))
        },
        GeneratedImplementedRequest::WlSeatGetPointer { id } => {
            Some((*id, "wl_pointer"))
        },
        GeneratedImplementedRequest::WlSeatGetKeyboard { id } => {
            Some((*id, "wl_keyboard"))
        },
        GeneratedImplementedRequest::WlSeatGetTouch { id } => {
            Some((*id, "wl_touch"))
        },
        GeneratedImplementedRequest::WlSubcompositorGetSubsurface { id, .. } => {
            Some((*id, "wl_subsurface"))
        },
        GeneratedImplementedRequest::XdgWmBaseCreatePositioner { id } => {
            Some((*id, "xdg_positioner"))
        },
        GeneratedImplementedRequest::XdgWmBaseGetXdgSurface { id, .. } => {
            Some((*id, "xdg_surface"))
        },
        GeneratedImplementedRequest::XdgSurfaceGetToplevel { id } => {
            Some((*id, "xdg_toplevel"))
        },
        GeneratedImplementedRequest::XdgSurfaceGetPopup { id, .. } => {
            Some((*id, "xdg_popup"))
        },
        GeneratedImplementedRequest::ZwpLinuxDmabufV1CreateParams { params_id } => {
            Some((*params_id, "zwp_linux_buffer_params_v1"))
        },
        GeneratedImplementedRequest::ZwpLinuxDmabufV1GetDefaultFeedback { id } => {
            Some((*id, "zwp_linux_dmabuf_feedback_v1"))
        },
        GeneratedImplementedRequest::ZwpLinuxDmabufV1GetSurfaceFeedback { id, .. } => {
            Some((*id, "zwp_linux_dmabuf_feedback_v1"))
        },
        GeneratedImplementedRequest::ZwpLinuxBufferParamsV1CreateImmed { buffer_id, .. } => {
            Some((*buffer_id, "wl_buffer"))
        },
        GeneratedImplementedRequest::WpLinuxDrmSyncobjManagerV1GetSurface { id, .. } => {
            Some((*id, "wp_linux_drm_syncobj_surface_v1"))
        },
        GeneratedImplementedRequest::WpLinuxDrmSyncobjManagerV1ImportTimeline { id, .. } => {
            Some((*id, "wp_linux_drm_syncobj_timeline_v1"))
        },
        GeneratedImplementedRequest::WpTearingControlManagerV1GetTearingControl { id, .. } => {
            Some((*id, "wp_tearing_control_v1"))
        },
        GeneratedImplementedRequest::WpPresentationFeedback { callback, .. } => {
            Some((*callback, "wp_presentation_feedback"))
        },
        GeneratedImplementedRequest::WpColorManagerV1GetOutput { id, .. } => {
            Some((*id, "wp_color_management_output_v1"))
        },
        GeneratedImplementedRequest::WpColorManagerV1GetSurface { id, .. } => {
            Some((*id, "wp_color_management_surface_v1"))
        },
        GeneratedImplementedRequest::WpColorManagerV1GetSurfaceFeedback { id, .. } => {
            Some((*id, "wp_color_management_surface_feedback_v1"))
        },
        GeneratedImplementedRequest::WpColorManagerV1CreateIccCreator { obj } => {
            Some((*obj, "wp_image_description_creator_icc_v1"))
        },
        GeneratedImplementedRequest::WpColorManagerV1CreateParametricCreator { obj } => {
            Some((*obj, "wp_image_description_creator_params_v1"))
        },
        GeneratedImplementedRequest::WpColorManagerV1CreateWindowsScrgb { image_description } => {
            Some((*image_description, "wp_image_description_v1"))
        },
        GeneratedImplementedRequest::WpColorManagerV1GetImageDescription { image_description, .. } => {
            Some((*image_description, "wp_image_description_v1"))
        },
        GeneratedImplementedRequest::WpColorManagerV1CreateWindowsBt2100 { image_description } => {
            Some((*image_description, "wp_image_description_v1"))
        },
        GeneratedImplementedRequest::WpColorManagementOutputV1GetImageDescription { image_description } => {
            Some((*image_description, "wp_image_description_v1"))
        },
        GeneratedImplementedRequest::WpColorManagementSurfaceFeedbackV1GetPreferred { image_description } => {
            Some((*image_description, "wp_image_description_v1"))
        },
        GeneratedImplementedRequest::WpColorManagementSurfaceFeedbackV1GetPreferredParametric { image_description } => {
            Some((*image_description, "wp_image_description_v1"))
        },
        GeneratedImplementedRequest::WpImageDescriptionCreatorIccV1Create { image_description } => {
            Some((*image_description, "wp_image_description_v1"))
        },
        GeneratedImplementedRequest::WpImageDescriptionCreatorParamsV1Create { image_description } => {
            Some((*image_description, "wp_image_description_v1"))
        },
        GeneratedImplementedRequest::WpImageDescriptionV1GetInformation { information } => {
            Some((*information, "wp_image_description_info_v1"))
        },
        GeneratedImplementedRequest::WpFifoManagerV1GetFifo { id, .. } => {
            Some((*id, "wp_fifo_v1"))
        },
        GeneratedImplementedRequest::WpFractionalScaleManagerV1GetFractionalScale { id, .. } => {
            Some((*id, "wp_fractional_scale_v1"))
        },
        GeneratedImplementedRequest::WpViewporterGetViewport { id, .. } => {
            Some((*id, "wp_viewport"))
        },
        _ => None,
    }
}

/// The object that one argument of a message makes, with its interface.
pub open spec fn made_by(spec_arg: GeneratedArgSpec, arg: ArgView) -> Option<(u32, Seq<char>)> {
    match (spec_arg.interface, arg) {
        (Some(interface), ArgView::NewId(id)) if spec_arg.kind == GeneratedArgKind::NewId => Some(
            (id, interface@),
        ),
        _ => None,
    }
}

/// The object that one argument of a message makes, with its interface.
pub fn made_by_arg(spec_arg: &GeneratedArgSpec, arg: &DecodedWaylandArg) -> (made: Option<
    (u32, &'static str),
>)
    ensures
        match made {
            Some((id, interface)) => made_by(*spec_arg, arg@) == Some((id, interface@)),
            None => made_by(*spec_arg, arg@) is None,
        },
{
    if spec_arg.kind != GeneratedArgKind::NewId {
        return None;
    }
    match (spec_arg.interface, arg) {
        (Some(interface), DecodedWaylandArg::NewId(id)) => Some((*id, interface)),
        _ => None,
    }
}

/// The interfaces of objects, with those that the first `count` arguments of a
/// message make.
pub open spec fn with_made(
    interfaces: Map<u32, Seq<char>>,
    specs: Seq<GeneratedArgSpec>,
    args: Seq<ArgView>,
    count: nat,
) -> Map<u32, Seq<char>>
    decreases count,
{
    if count == 0 {
        interfaces
    } else {
        let before = with_made(interfaces, specs, args, (count - 1) as nat);
        match made_by(specs[count - 1], args[count - 1]) {
            Some((id, interface)) => before.insert(id, interface),
            None => before,
        }
    }
}

/// How many arguments two lists have in common.
pub open spec fn common(specs: Seq<GeneratedArgSpec>, args: Seq<ArgView>) -> nat {
    if specs.len() < args.len() {
        specs.len()
    } else {
        args.len()
    }
}

/// The interfaces of objects, with those that a message makes.
pub open spec fn with_all_made(
    interfaces: Map<u32, Seq<char>>,
    specs: Seq<GeneratedArgSpec>,
    args: Seq<ArgView>,
) -> Map<u32, Seq<char>> {
    with_made(interfaces, specs, args, common(specs, args))
}

fn track_made(
    object_interfaces: &mut Table<u32, String>,
    specs: &Vec<GeneratedArgSpec>,
    args: &Vec<DecodedWaylandArg>,
)
    ensures
        final(object_interfaces)@ == with_all_made(
            old(object_interfaces)@,
            specs@,
            wire::arg_values(args@),
        ),
{
    let ghost values = wire::arg_values(args@);
    let mut index: usize = 0;
    while index < specs.len() && index < args.len()
        invariant
            index <= specs@.len(),
            index <= args@.len(),
            values == wire::arg_values(args@),
            object_interfaces@ == with_made(
                old(object_interfaces)@,
                specs@,
                values,
                index as nat,
            ),
        decreases specs@.len() - index,
    {
        if let Some((id, interface)) = made_by_arg(&specs[index], &args[index]) {
            object_interfaces.insert(id, interface.to_owned());
        }
        index = index + 1;
    }
}

/// Notes the interfaces of the objects that an event makes.
pub fn apply_object_interfaces_from_event(
    object_interfaces: &mut Table<u32, String>,
    event: &DecodedWaylandEvent,
)
    ensures
        final(object_interfaces)@ == with_all_made(
            old(object_interfaces)@,
            event@.arg_specs,
            event@.args,
        ),
{
    track_made(object_interfaces, &event.arg_specs, &event.args);
}

/// The interfaces of a compositor's objects after a request was passed on to it.
pub open spec fn backend_interfaces_after(
    interfaces: Map<u32, Seq<char>>,
    request: RequestView,
) -> Map<u32, Seq<char>> {
    if request.request_id == GeneratedRequestId::WlRegistryBind {
        match (request.args[0], request.args[1], request.args[2], request.args[3]) {
            (
                ArgView::Uint(_),
                ArgView::String(Some(interface)),
                ArgView::Uint(_),
                ArgView::NewId(id),
            ) if request.args.len() == 4 => interfaces.insert(id, interface),
            _ => interfaces,
        }
    } else {
        let created = match request.implemented_request {
            Some(implemented) => created_interface(implemented),
            None => None,
        };
        match created {
            Some((id, interface)) => interfaces.insert(id, interface@),
            None => match registry::entry_of(request.request_id) {
                Some((_, message)) => with_all_made(interfaces, message.args, request.args),
                None => interfaces,
            },
        }
    }
}

/// Notes the interfaces of the objects that a request makes at a compositor.
pub fn apply_backend_object_tracking(
    object_interfaces: &mut Table<u32, String>,
    generated: &WaylandGeneratedProtocolRegistry,
    request: &DecodedWaylandRequest,
)
    ensures
        final(object_interfaces)@ == backend_interfaces_after(old(object_interfaces)@, request@),
{
    if request.request_id == GeneratedRequestId::WlRegistryBind {
        if request.args.len() != 4 {
            return;
        }
        match (&request.args[0], &request.args[1], &request.args[2], &request.args[3]) {
            (
                DecodedWaylandArg::Uint(_),
                DecodedWaylandArg::String(Some(interface)),
                DecodedWaylandArg::Uint(_),
                DecodedWaylandArg::NewId(id),
            ) => {
                object_interfaces.insert(*id, interface.clone());
            },
            _ => {},
        }
        return;
    }
    if let Some(implemented) = &request.implemented_request {
        if let Some((id, interface)) = implemented_request_created_interface(implemented) {
            object_interfaces.insert(id, interface.to_owned());
            return;
        }
    }
    if let Some((_, message)) = generated.request_by_id(request.request_id) {
        track_made(object_interfaces, &message.args, &request.args);
    }
}

/// Whether an event announces a global that the proxy keeps from its clients.
pub open spec fn announces_suppressed(event: EventView) -> bool {
    match event {
        EventView::WlRegistryGlobal { interface: Some(interface), .. } => !globals::supported(
            interface,
        ),
        _ => false,
    }
}

/// Whether an event announces a global that the proxy keeps from its clients.
pub fn is_suppressed_registry_global_event(event: &DecodedWaylandEvent) -> (suppressed: bool)
    ensures
        suppressed == announces_suppressed(event@.generated_event),
{
    match &event.generated_event {
        GeneratedEvent::WlRegistryGlobal { name: _, interface, version: _ } => match interface {
            Some(interface) => is_suppressed_backend_global(interface.as_str()),
            None => false,
        },
        _ => false,
    }
}

/// Whether an event advertises a format of which no screenshot can be made.
pub open spec fn advertises_unsupported(event: EventView) -> bool {
    match event {
        EventView::ZwpLinuxDmabufV1Format { format } => dmabuf::vk_format(format) is None,
        EventView::ZwpLinuxDmabufV1Modifier { format, .. } => dmabuf::vk_format(format) is None,
        _ => false,
    }
}

/// Whether an event advertises a format of which no screenshot can be made.
pub fn is_unsupported_dmabuf_advertisement(event: &DecodedWaylandEvent) -> (unsupported: bool)
    ensures
        unsupported == advertises_unsupported(event@.generated_event),
{
    match &event.generated_event {
        GeneratedEvent::ZwpLinuxDmabufV1Format { format } => !supports_screenshot_drm_format(
            *format,
        ),
        GeneratedEvent::ZwpLinuxDmabufV1Modifier { format, modifier_hi: _, modifier_lo: _ } =>
            !supports_screenshot_drm_format(*format),
        _ => false,
    }
}

/// An argument that a hook takes.
#[derive(Debug, Clone, Copy, PartialEq, Eq, Structural)]
pub enum WaylandInterceptArg {
    I32(i32),
    U32(u32),
    Resource(u32),
}

/// The hook's argument that an argument of a message is.
pub open spec fn intercept_arg(arg: ArgView) -> Option<WaylandInterceptArg> {
    match arg {
        ArgView::Int(value) => Some(WaylandInterceptArg::I32(value)),
        ArgView::Fixed(value) => Some(WaylandInterceptArg::I32(value)),
        ArgView::Uint(value) => Some(WaylandInterceptArg::U32(value)),
        ArgView::NewId(value) => Some(WaylandInterceptArg::U32(value)),
        ArgView::Object(Some(value)) => Some(WaylandInterceptArg::Resource(value)),
        _ => None,
    }
}

impl WaylandInterceptArg {
    /// The hook's argument that an argument of a message is.
    pub fn from_decoded(arg: &DecodedWaylandArg) -> (converted: Option<Self>)
        ensures
            converted == intercept_arg(arg@),
    {
        match arg {
            DecodedWaylandArg::Int(value) => Some(WaylandInterceptArg::I32(*value)),
            DecodedWaylandArg::Fixed(value) => Some(WaylandInterceptArg::I32(*value)),
            DecodedWaylandArg::Uint(value) => Some(WaylandInterceptArg::U32(*value)),
            DecodedWaylandArg::NewId(value) => Some(WaylandInterceptArg::U32(*value)),
            DecodedWaylandArg::Object(value) => match value {
                Some(id) => Some(WaylandInterceptArg::Resource(*id)),
                None => None,
            },
            _ => None,
        }
    }
}

/// The value that a hook's argument stands for where an argument of a kind is
/// expected.
pub open spec fn expected_arg(kind: GeneratedArgKind, arg: WaylandInterceptArg) -> Option<ArgView> {
    match (kind, arg) {
        (GeneratedArgKind::Int, WaylandInterceptArg::I32(value)) => Some(ArgView::Int(value)),
        (GeneratedArgKind::Fixed, WaylandInterceptArg::I32(value)) => Some(ArgView::Int(value)),
        (GeneratedArgKind::Uint, WaylandInterceptArg::U32(value)) => Some(ArgView::Uint(value)),
        (GeneratedArgKind::NewId, WaylandInterceptArg::U32(value)) => Some(ArgView::NewId(value)),
        (GeneratedArgKind::Object, WaylandInterceptArg::Resource(value)) => Some(
            ArgView::Object(Some(value)),
        ),
        _ => None,
    }
}

/// The name of a kind of argument.
pub open spec fn kind_name(kind: GeneratedArgKind) -> Seq<char> {
    match kind {
        GeneratedArgKind::Int => "Int"@,
        GeneratedArgKind::Uint => "Uint"@,
        GeneratedArgKind::Fixed => "Fixed"@,
        GeneratedArgKind::Object => "Object"@,
        GeneratedArgKind::NewId => "NewId"@,
        GeneratedArgKind::String => "String"@,
        GeneratedArgKind::Array => "Array"@,
        GeneratedArgKind::Fd => "Fd"@,
    }
}

/// A hook's argument as it is shown.
pub open spec fn intercept_text(arg: WaylandInterceptArg) -> Seq<char> {
    match arg {
        WaylandInterceptArg::I32(value) => "I32("@ + text::signed_decimal(value as int) + ")"@,
        WaylandInterceptArg::U32(value) => "U32("@ + text::decimal(value as nat) + ")"@,
        WaylandInterceptArg::Resource(value) => "Resource("@ + text::decimal(value as nat) + ")"@,
    }
}

/// The values of the first `count` arguments of a hook, or what is wrong with
/// the first one that does not fit.
pub open spec fn expected_args(
    name: Seq<char>,
    specs: Seq<GeneratedArgSpec>,
    args: Seq<WaylandInterceptArg>,
    count: nat,
) -> Result<Seq<ArgView>, Seq<char>>
    decreases count,
{
    if count == 0 {
        Ok(Seq::empty())
    } else {
        match expected_args(name, specs, args, (count - 1) as nat) {
            Err(message) => Err(message),
            Ok(before) => match expected_arg(specs[count - 1].kind, args[count - 1]) {
                Some(value) => Ok(before.push(value)),
                None => Err(
                    "generated hook request "@ + name + " arg "@ + specs[count - 1].name@
                        + " expected "@ + kind_name(specs[count - 1].kind) + ", got "@
                        + intercept_text(args[count - 1]),
                ),
            },
        }
    }
}

/// The values of a hook's arguments, as its request takes them.
pub open spec fn hook_args(name: Seq<char>, args: Seq<WaylandInterceptArg>) -> Result<
    Seq<ArgView>,
    Seq<char>,
> {
    let entry = match tables::request_named(name) {
        Some(id) => registry::entry_of(id),
        None => None,
    };
    match entry {
        None => Err("missing generated request metadata for "@ + name),
        Some((_, message)) => if message.args.len() != args.len() {
            Err(
                "generated hook request "@ + name + " expected "@ + text::decimal(
                    message.args.len(),
                ) + " args, got "@ + text::decimal(args.len()),
            )
        } else {
            expected_args(name, message.args, args, args.len())
        },
    }
}

fn kind_text(kind: GeneratedArgKind) -> (name: &'static str)
    ensures
        name@ == kind_name(kind),
{
    match kind {
        GeneratedArgKind::Int => "Int",
        GeneratedArgKind::Uint => "Uint",
        GeneratedArgKind::Fixed => "Fixed",
        GeneratedArgKind::Object => "Object",
        GeneratedArgKind::NewId => "NewId",
        GeneratedArgKind::String => "String",
        GeneratedArgKind::Array => "Array",
        GeneratedArgKind::Fd => "Fd",
    }
}

fn append_intercept(message: &mut String, arg: WaylandInterceptArg)
    ensures
        final(message)@ == old(message)@ + intercept_text(arg),
{
    let ghost before = message@;
    match arg {
        WaylandInterceptArg::I32(value) => {
            message.append("I32(");
            append_signed(message, value as i64);
        },
        WaylandInterceptArg::U32(value) => {
            message.append("U32(");
            append_decimal(message, value as u64);
        },
        WaylandInterceptArg::Resource(value) => {
            message.append("Resource(");
            append_decimal(message, value as u64);
        },
    }
    message.append(")");
    assert(message@ =~= before + intercept_text(arg));
}

/// Reads a hook's arguments as its request takes them.
pub fn generated_decoded_args_from_intercept_args(
    request_name: &str,
    args: &[WaylandInterceptArg],
) -> (decoded: Result<Vec<GeneratedDecodedArg>, String>)
    ensures
        match hook_args(request_name@, args@) {
            Ok(values) => decoded matches Ok(list) && messages::decoded_values(list@) == values,
            Err(message) => decoded matches Err(error) && error@ == message,
        },
{
    let request = match find_generated_request(request_name) {
        Some((_, request)) => request,
        None => {
            let mut message = "missing generated request metadata for ".to_owned();
            message.append(request_name);
            return Err(message);
        },
    };
    let specs = &request.args;
    if specs.len() != args.len() {
        let mut message = "generated hook request ".to_owned();
        message.append(request_name);
        message.append(" expected ");
        append_decimal(&mut message, specs.len() as u64);
        message.append(" args, got ");
        append_decimal(&mut message, args.len() as u64);
        return Err(message);
    }
    let mut decoded: Vec<GeneratedDecodedArg> = Vec::new();
    let mut index: usize = 0;
    let ghost name = request_name@;
    proof {
        assert(messages::decoded_values(decoded@) =~= Seq::<ArgView>::empty());
    }
    while index < args.len()
        invariant
            index <= args@.len(),
            specs@.len() == args@.len(),
            name == request_name@,
            hook_args(name, args@) == expected_args(name, specs@, args@, args@.len()),
            expected_args(name, specs@, args@, index as nat) == Ok::<Seq<ArgView>, Seq<char>>(
                messages::decoded_values(decoded@),
            ),
        decreases args@.len() - index,
    {
        let ghost before = decoded@;
        let converted = match (specs[index].kind, args[index]) {
            (GeneratedArgKind::Int, WaylandInterceptArg::I32(value)) => Some(
                GeneratedDecodedArg::Int(value),
            ),
            (GeneratedArgKind::Fixed, WaylandInterceptArg::I32(value)) => Some(
                GeneratedDecodedArg::Int(value),
            ),
            (GeneratedArgKind::Uint, WaylandInterceptArg::U32(value)) => Some(
                GeneratedDecodedArg::Uint(value),
            ),
            (GeneratedArgKind::NewId, WaylandInterceptArg::U32(value)) => Some(
                GeneratedDecodedArg::NewId(value),
            ),
            (GeneratedArgKind::Object, WaylandInterceptArg::Resource(value)) => Some(
                GeneratedDecodedArg::Object(Some(value)),
            ),
            _ => None,
        };
        match converted {
            Some(value) => {
                decoded.push(value);
                assert(messages::decoded_values(decoded@) =~= messages::decoded_values(before).push(
                    value@,
                ));
            },
            None => {
                let mut message = "generated hook request ".to_owned();
                message.append(request_name);
                message.append(" arg ");
                message.append(specs[index].name);
                message.append(" expected ");
                message.append(kind_text(specs[index].kind));
                message.append(", got ");
                append_intercept(&mut message, args[index]);
                proof {
                    assert(expected_args(name, specs@, args@, (index + 1) as nat) == Err::<
                        Seq<ArgView>,
                        Seq<char>,
                    >(message@));
                    first_error_stays(name, specs@, args@, (index + 1) as nat, args@.len());
                }
                return Err(message);
            },
        }
        index = index + 1;
    }
    Ok(decoded)
}

proof fn first_error_stays(
    name: Seq<char>,
    specs: Seq<GeneratedArgSpec>,
    args: Seq<WaylandInterceptArg>,
    at: nat,
    count: nat,
)
    requires
        at <= count,
        expected_args(name, specs, args, at) is Err,
    ensures
        expected_args(name, specs, args, count) == expected_args(name, specs, args, at),
    decreases count,
{
    if at < count {
        first_error_stays(name, specs, args, at, (count - 1) as nat);
    }
}

/// The hook request that a request of a full name with these arguments is.
pub open spec fn named_hook_request(name: Seq<char>, args: Seq<ArgView>) -> Option<
    GeneratedHookRequest,
> {
    match tables::request_named(name) {
        Some(id) => messages::hook_request_of(id, args),
        None => None,
    }
}

/// Reads a hook request by the full name of its request.
pub fn decode_generated_hook_request(request_name: &str, args: &[GeneratedDecodedArg]) -> (request:
    Option<GeneratedHookRequest>)
    ensures
        request == named_hook_request(request_name@, messages::decoded_values(args@)),
{
    match find_generated_request_id(request_name) {
        Some(id) => decode_generated_hook_request_by_id(id, args),
        None => None,
    }
}

/// A message with the descriptors that travel beside it.
#[derive(Debug, PartialEq, Eq)]
pub struct WaylandWireMessage {
    pub bytes: Vec<u8>,
    pub fds: Vec<u64>,
}

/// The value of a message with its descriptors.
#[verifier::ext_equal]
pub struct WireView {
    pub bytes: Seq<u8>,
    pub fds: Seq<u64>,
}

impl View for WaylandWireMessage {
    type V = WireView;

    open spec fn view(&self) -> WireView {
        WireView { bytes: self.bytes@, fds: self.fds@ }
    }
}

/// An event on its way to a client: the message, and what it is where the proxy
/// can read it.
#[derive(Debug, PartialEq, Eq)]
pub struct WaylandBackendEvent {
    pub encoded: WaylandWireMessage,
    pub decoded: Option<DecodedWaylandEvent>,
}

/// The value of an event on its way.
#[verifier::ext_equal]
pub struct BackendEventView {
    pub encoded: WireView,
    pub decoded: Option<DecodedEventView>,
}

/// The value of an event that may not be readable.
pub open spec fn optional_decoded(event: Option<DecodedWaylandEvent>) -> Option<DecodedEventView> {
    match event {
        Some(decoded) => Some(decoded@),
        None => None,
    }
}

impl View for WaylandBackendEvent {
    type V = BackendEventView;

    open spec fn view(&self) -> BackendEventView {
        BackendEventView { encoded: self.encoded@, decoded: optional_decoded(self.decoded) }
    }
}

/// The values of a list of events on their way.
pub open spec fn backend_event_values(events: Seq<WaylandBackendEvent>) -> Seq<BackendEventView> {
    events.map_values(|event: WaylandBackendEvent| event@)
}

} // verus!
