//! What the proxy knows of the Wayland protocols: the interfaces, and the
//! arguments of each of their requests and events.
//!
//! `wl_shm` and `wl_shm_pool` are left out on purpose: the session reads their
//! requests itself.

use crate::text::str_eq;
use crate::wire::{GeneratedArgKind, GeneratedArgSpec};
use vstd::prelude::*;
use vstd::string::*;

verus! {

/// The interfaces that the proxy has wire metadata for.
#[derive(Debug, Clone, Copy, PartialEq, Eq, Structural)]
pub enum InterfaceId {
    WlDisplay,
    WlRegistry,
    WlCallback,
    WlCompositor,
    WlBuffer,
    WlDataOffer,
    WlDataSource,
    WlDataDevice,
    WlDataDeviceManager,
    WlShell,
    WlShellSurface,
    WlSurface,
    WlSeat,
    WlPointer,
    WlKeyboard,
    WlTouch,
    WlOutput,
    WlRegion,
    WlSubcompositor,
    WlSubsurface,
    WlFixes,
    XdgWmBase,
    XdgPositioner,
    XdgSurface,
    XdgToplevel,
    XdgPopup,
    ZwpLinuxDmabufV1,
    ZwpLinuxBufferParamsV1,
    ZwpLinuxDmabufFeedbackV1,
    WpLinuxDrmSyncobjManagerV1,
    WpLinuxDrmSyncobjTimelineV1,
    WpLinuxDrmSyncobjSurfaceV1,
    WpTearingControlManagerV1,
    WpTearingControlV1,
    WpPresentation,
    WpPresentationFeedback,
    WpColorManagerV1,
    WpColorManagementOutputV1,
    WpColorManagementSurfaceV1,
    WpColorManagementSurfaceFeedbackV1,
    WpImageDescriptionCreatorIccV1,
    WpImageDescriptionCreatorParamsV1,
    WpImageDescriptionV1,
    WpImageDescriptionInfoV1,
    WpImageDescriptionReferenceV1,
    WpFifoManagerV1,
    WpFifoV1,
    WpFractionalScaleManagerV1,
    WpFractionalScaleV1,
    WpViewporter,
    WpViewport,
}

/// An interface: its name, the version whose messages are listed, and whether
/// the proxy offers it as a global of its own when it has no compositor.
#[derive(Debug, Clone, Copy, PartialEq, Eq)]
pub struct GeneratedInterfaceSpec {
    pub name: &'static str,
    pub version: u32,
    pub is_global: bool,
}

/// A request or an event: its name and its arguments.
#[derive(Debug, PartialEq, Eq)]
pub struct GeneratedMessageSpec {
    pub name: &'static str,
    pub args: Vec<GeneratedArgSpec>,
}

/// The value of a message's specification.
#[verifier::ext_equal]
pub struct MessageView {
    pub name: &'static str,
    pub args: Seq<GeneratedArgSpec>,
}

impl View for GeneratedMessageSpec {
    type V = MessageView;

    open spec fn view(&self) -> MessageView {
        MessageView { name: self.name, args: self.args@ }
    }
}

/// The value of a specification that may be absent.
pub open spec fn optional_message(message: Option<GeneratedMessageSpec>) -> Option<MessageView> {
    match message {
        Some(found) => Some(found@),
        None => None,
    }
}

/// The requests of all interfaces.
#[derive(Debug, Clone, Copy, PartialEq, Eq, Structural)]
pub enum GeneratedRequestId {
    WlDisplaySync,
    WlDisplayGetRegistry,
    WlRegistryBind,
    WlCompositorCreateSurface,
    WlCompositorCreateRegion,
    WlCompositorRelease,
    WlBufferDestroy,
    WlDataOfferAccept,
    WlDataOfferReceive,
    WlDataOfferDestroy,
    WlDataOfferFinish,
    WlDataOfferSetActions,
    WlDataSourceOffer,
    WlDataSourceDestroy,
    WlDataSourceSetActions,
    WlDataDeviceStartDrag,
    WlDataDeviceSetSelection,
    WlDataDeviceRelease,
    WlDataDeviceManagerCreateDataSource,
    WlDataDeviceManagerGetDataDevice,
    WlShellGetShellSurface,
    WlShellSurfacePong,
    WlShellSurfaceMove,
    WlShellSurfaceResize,
    WlShellSurfaceSetToplevel,
    WlShellSurfaceSetTransient,
    WlShellSurfaceSetFullscreen,
    WlShellSurfaceSetPopup,
    WlShellSurfaceSetMaximized,
    WlShellSurfaceSetTitle,
    WlShellSurfaceSetClass,
    WlSurfaceDestroy,
    WlSurfaceAttach,
    WlSurfaceDamage,
    WlSurfaceFrame,
    WlSurfaceSetOpaqueRegion,
    WlSurfaceSetInputRegion,
    WlSurfaceCommit,
    WlSurfaceSetBufferTransform,
    WlSurfaceSetBufferScale,
    WlSurfaceDamageBuffer,
    WlSurfaceOffset,
    WlSurfaceGetRelease,
    WlSeatGetPointer,
    WlSeatGetKeyboard,
    WlSeatGetTouch,
    WlSeatRelease,
    WlPointerSetCursor,
    WlPointerRelease,
    WlKeyboardRelease,
    WlTouchRelease,
    WlOutputRelease,
    WlRegionDestroy,
    WlRegionAdd,
    WlRegionSubtract,
    WlSubcompositorDestroy,
    WlSubcompositorGetSubsurface,
    WlSubsurfaceDestroy,
    WlSubsurfaceSetPosition,
    WlSubsurfacePlaceAbove,
    WlSubsurfacePlaceBelow,
    WlSubsurfaceSetSync,
    WlSubsurfaceSetDesync,
    WlFixesDestroy,
    WlFixesDestroyRegistry,
    XdgWmBaseDestroy,
    XdgWmBaseCreatePositioner,
    XdgWmBaseGetXdgSurface,
    XdgWmBasePong,
    XdgPositionerDestroy,
    XdgPositionerSetSize,
    XdgPositionerSetAnchorRect,
    XdgPositionerSetAnchor,
    XdgPositionerSetGravity,
    XdgPositionerSetConstraintAdjustment,
    XdgPositionerSetOffset,
    XdgPositionerSetReactive,
    XdgPositionerSetParentSize,
    XdgPositionerSetParentConfigure,
    XdgSurfaceDestroy,
    XdgSurfaceGetToplevel,
    XdgSurfaceGetPopup,
    XdgSurfaceSetWindowGeometry,
    XdgSurfaceAckConfigure,
    XdgToplevelDestroy,
    XdgToplevelSetParent,
    XdgToplevelSetTitle,
    XdgToplevelSetAppId,
    XdgToplevelShowWindowMenu,
    XdgToplevelMove,
    XdgToplevelResize,
    XdgToplevelSetMaxSize,
    XdgToplevelSetMinSize,
    XdgToplevelSetMaximized,
    XdgToplevelUnsetMaximized,
    XdgToplevelSetFullscreen,
    XdgToplevelUnsetFullscreen,
    XdgToplevelSetMinimized,
    XdgPopupDestroy,
    XdgPopupGrab,
    XdgPopupReposition,
    ZwpLinuxDmabufV1Destroy,
    ZwpLinuxDmabufV1CreateParams,
    ZwpLinuxDmabufV1GetDefaultFeedback,
    ZwpLinuxDmabufV1GetSurfaceFeedback,
    ZwpLinuxBufferParamsV1Destroy,
    ZwpLinuxBufferParamsV1Add,
    ZwpLinuxBufferParamsV1Create,
    ZwpLinuxBufferParamsV1CreateImmed,
    ZwpLinuxDmabufFeedbackV1Destroy,
    WpLinuxDrmSyncobjManagerV1Destroy,
    WpLinuxDrmSyncobjManagerV1GetSurface,
    WpLinuxDrmSyncobjManagerV1ImportTimeline,
    WpLinuxDrmSyncobjTimelineV1Destroy,
    WpLinuxDrmSyncobjSurfaceV1Destroy,
    WpLinuxDrmSyncobjSurfaceV1SetAcquirePoint,
    WpLinuxDrmSyncobjSurfaceV1SetReleasePoint,
    WpTearingControlManagerV1Destroy,
    WpTearingControlManagerV1GetTearingControl,
    WpTearingControlV1SetPresentationHint,
    WpTearingControlV1Destroy,
    WpPresentationDestroy,
    WpPresentationFeedback,
    WpColorManagerV1Destroy,
    WpColorManagerV1GetOutput,
    WpColorManagerV1GetSurface,
    WpColorManagerV1GetSurfaceFeedback,
    WpColorManagerV1CreateIccCreator,
    WpColorManagerV1CreateParametricCreator,
    WpColorManagerV1CreateWindowsScrgb,
    WpColorManagerV1GetImageDescription,
    WpColorManagerV1CreateWindowsBt2100,
    WpColorManagementOutputV1Destroy,
    WpColorManagementOutputV1GetImageDescription,
    WpColorManagementSurfaceV1Destroy,
    WpColorManagementSurfaceV1SetImageDescription,
    WpColorManagementSurfaceV1UnsetImageDescription,
    WpColorManagementSurfaceFeedbackV1Destroy,
    WpColorManagementSurfaceFeedbackV1GetPreferred,
    WpColorManagementSurfaceFeedbackV1GetPreferredParametric,
    WpImageDescriptionCreatorIccV1Create,
    WpImageDescriptionCreatorIccV1SetIccFile,
    WpImageDescriptionCreatorParamsV1Create,
    WpImageDescriptionCreatorParamsV1SetTfNamed,
    WpImageDescriptionCreatorParamsV1SetTfPower,
    WpImageDescriptionCreatorParamsV1SetPrimariesNamed,
    WpImageDescriptionCreatorParamsV1SetPrimaries,
    WpImageDescriptionCreatorParamsV1SetLuminances,
    WpImageDescriptionCreatorParamsV1SetMasteringDisplayPrimaries,
    WpImageDescriptionCreatorParamsV1SetMasteringLuminance,
    WpImageDescriptionCreatorParamsV1SetMaxCll,
    WpImageDescriptionCreatorParamsV1SetMaxFall,
    WpImageDescriptionV1Destroy,
    WpImageDescriptionV1GetInformation,
    WpImageDescriptionReferenceV1Destroy,
    WpFifoManagerV1Destroy,
    WpFifoManagerV1GetFifo,
    WpFifoV1SetBarrier,
    WpFifoV1WaitBarrier,
    WpFifoV1Destroy,
    WpFractionalScaleManagerV1Destroy,
    WpFractionalScaleManagerV1GetFractionalScale,
    WpFractionalScaleV1Destroy,
    WpViewporterDestroy,
    WpViewporterGetViewport,
    WpViewportDestroy,
    WpViewportSetSource,
    WpViewportSetDestination,
}

/// A signed number.
#[verifier::allow_in_spec]
pub fn int_arg(name: &'static str) -> GeneratedArgSpec
    returns
        (GeneratedArgSpec { name, kind: GeneratedArgKind::Int, interface: None }),
{
    GeneratedArgSpec { name, kind: GeneratedArgKind::Int, interface: None }
}

/// An unsigned number.
#[verifier::allow_in_spec]
pub fn uint_arg(name: &'static str) -> GeneratedArgSpec
    returns
        (GeneratedArgSpec { name, kind: GeneratedArgKind::Uint, interface: None }),
{
    GeneratedArgSpec { name, kind: GeneratedArgKind::Uint, interface: None }
}

/// A signed number in 1/256 steps.
#[verifier::allow_in_spec]
pub fn fixed_arg(name: &'static str) -> GeneratedArgSpec
    returns
        (GeneratedArgSpec { name, kind: GeneratedArgKind::Fixed, interface: None }),
{
    GeneratedArgSpec { name, kind: GeneratedArgKind::Fixed, interface: None }
}

/// A string.
#[verifier::allow_in_spec]
pub fn string_arg(name: &'static str) -> GeneratedArgSpec
    returns
        (GeneratedArgSpec { name, kind: GeneratedArgKind::String, interface: None }),
{
    GeneratedArgSpec { name, kind: GeneratedArgKind::String, interface: None }
}

/// An array of bytes.
#[verifier::allow_in_spec]
pub fn array_arg(name: &'static str) -> GeneratedArgSpec
    returns
        (GeneratedArgSpec { name, kind: GeneratedArgKind::Array, interface: None }),
{
    GeneratedArgSpec { name, kind: GeneratedArgKind::Array, interface: None }
}

/// A file descriptor.
#[verifier::allow_in_spec]
pub fn fd_arg(name: &'static str) -> GeneratedArgSpec
    returns
        (GeneratedArgSpec { name, kind: GeneratedArgKind::Fd, interface: None }),
{
    GeneratedArgSpec { name, kind: GeneratedArgKind::Fd, interface: None }
}

/// An object of one interface.
#[verifier::allow_in_spec]
pub fn object_arg(name: &'static str, interface: &'static str) -> GeneratedArgSpec
    returns
        (GeneratedArgSpec { name, kind: GeneratedArgKind::Object, interface: Some(interface) }),
{
    GeneratedArgSpec { name, kind: GeneratedArgKind::Object, interface: Some(interface) }
}

/// An object of any interface.
#[verifier::allow_in_spec]
pub fn any_object_arg(name: &'static str) -> GeneratedArgSpec
    returns
        (GeneratedArgSpec { name, kind: GeneratedArgKind::Object, interface: None }),
{
    GeneratedArgSpec { name, kind: GeneratedArgKind::Object, interface: None }
}

/// A new object of one interface.
#[verifier::allow_in_spec]
pub fn new_id_arg(name: &'static str, interface: &'static str) -> GeneratedArgSpec
    returns
        (GeneratedArgSpec { name, kind: GeneratedArgKind::NewId, interface: Some(interface) }),
{
    GeneratedArgSpec { name, kind: GeneratedArgKind::NewId, interface: Some(interface) }
}

/// A new object whose interface the message itself names.
#[verifier::allow_in_spec]
pub fn any_new_id_arg(name: &'static str) -> GeneratedArgSpec
    returns
        (GeneratedArgSpec { name, kind: GeneratedArgKind::NewId, interface: None }),
{
    GeneratedArgSpec { name, kind: GeneratedArgKind::NewId, interface: None }
}

/// A message of an interface.
pub open spec fn listed(name: &'static str, args: Seq<GeneratedArgSpec>) -> Option<MessageView> {
    Some(MessageView { name, args })
}

fn message(name: &'static str, args: Vec<GeneratedArgSpec>) -> (found: Option<GeneratedMessageSpec>)
    ensures
        optional_message(found) == listed(name, args@),
{
    Some(GeneratedMessageSpec { name, args })
}

/// An interface of one name and version.
#[verifier::allow_in_spec]
pub fn interface(name: &'static str, version: u32, is_global: bool) -> GeneratedInterfaceSpec
    returns
        (GeneratedInterfaceSpec { name, version, is_global }),
{
    GeneratedInterfaceSpec { name, version, is_global }
}

/// The specification of an interface.
pub open spec fn interface_of(id: InterfaceId) -> GeneratedInterfaceSpec {
    match id {
        InterfaceId::WlDisplay => interface("wl_display", 1, false),
        InterfaceId::WlRegistry => interface("wl_registry", 1, false),
        InterfaceId::WlCallback => interface("wl_callback", 1, false),
        InterfaceId::WlCompositor => interface("wl_compositor", 7, true),
        InterfaceId::WlBuffer => interface("wl_buffer", 1, false),
        InterfaceId::WlDataOffer => interface("wl_data_offer", 3, false),
        InterfaceId::WlDataSource => interface("wl_data_source", 3, false),
        InterfaceId::WlDataDevice => interface("wl_data_device", 3, false),
        InterfaceId::WlDataDeviceManager => interface("wl_data_device_manager", 3, false),
        InterfaceId::WlShell => interface("wl_shell", 1, false),
        InterfaceId::WlShellSurface => interface("wl_shell_surface", 1, false),
        InterfaceId::WlSurface => interface("wl_surface", 7, false),
        InterfaceId::WlSeat => interface("wl_seat", 10, true),
        InterfaceId::WlPointer => interface("wl_pointer", 10, false),
        InterfaceId::WlKeyboard => interface("wl_keyboard", 10, false),
        InterfaceId::WlTouch => interface("wl_touch", 10, false),
        InterfaceId::WlOutput => interface("wl_output", 4, true),
        InterfaceId::WlRegion => interface("wl_region", 1, false),
        InterfaceId::WlSubcompositor => interface("wl_subcompositor", 1, false),
        InterfaceId::WlSubsurface => interface("wl_subsurface", 1, false),
        InterfaceId::WlFixes => interface("wl_fixes", 1, false),
        InterfaceId::XdgWmBase => interface("xdg_wm_base", 7, true),
        InterfaceId::XdgPositioner => interface("xdg_positioner", 7, false),
        InterfaceId::XdgSurface => interface("xdg_surface", 7, false),
        InterfaceId::XdgToplevel => interface("xdg_toplevel", 7, false),
        InterfaceId::XdgPopup => interface("xdg_popup", 7, false),
        InterfaceId::ZwpLinuxDmabufV1 => interface("zwp_linux_dmabuf_v1", 5, true),
        InterfaceId::ZwpLinuxBufferParamsV1 => interface("zwp_linux_buffer_params_v1", 5, false),
        InterfaceId::ZwpLinuxDmabufFeedbackV1 => interface("zwp_linux_dmabuf_feedback_v1", 5, false),
        InterfaceId::WpLinuxDrmSyncobjManagerV1 => interface("wp_linux_drm_syncobj_manager_v1", 1, true),
        InterfaceId::WpLinuxDrmSyncobjTimelineV1 => interface("wp_linux_drm_syncobj_timeline_v1", 1, false),
        InterfaceId::WpLinuxDrmSyncobjSurfaceV1 => interface("wp_linux_drm_syncobj_surface_v1", 1, false),
        InterfaceId::WpTearingControlManagerV1 => interface("wp_tearing_control_manager_v1", 1, true),
        InterfaceId::WpTearingControlV1 => interface("wp_tearing_control_v1", 1, false),
        InterfaceId::WpPresentation => interface("wp_presentation", 2, true),
        InterfaceId::WpPresentationFeedback => interface("wp_presentation_feedback", 2, false),
        InterfaceId::WpColorManagerV1 => interface("wp_color_manager_v1", 3, true),
        InterfaceId::WpColorManagementOutputV1 => interface("wp_color_management_output_v1", 3, false),
        InterfaceId::WpColorManagementSurfaceV1 => interface("wp_color_management_surface_v1", 3, false),
        InterfaceId::WpColorManagementSurfaceFeedbackV1 => interface("wp_color_management_surface_feedback_v1", 3, false),
        InterfaceId::WpImageDescriptionCreatorIccV1 => interface("wp_image_description_creator_icc_v1", 3, false),
        InterfaceId::WpImageDescriptionCreatorParamsV1 => interface("wp_image_description_creator_params_v1", 3, false),
        InterfaceId::WpImageDescriptionV1 => interface("wp_image_description_v1", 3, false),
        InterfaceId::WpImageDescriptionInfoV1 => interface("wp_image_description_info_v1", 3, false),
        InterfaceId::WpImageDescriptionReferenceV1 => interface("wp_image_description_reference_v1", 1, false),
        InterfaceId::WpFifoManagerV1 => interface("wp_fifo_manager_v1", 1, true),
        InterfaceId::WpFifoV1 => interface("wp_fifo_v1", 1, false),
        InterfaceId::WpFractionalScaleManagerV1 => interface("wp_fractional_scale_manager_v1", 1, true),
        InterfaceId::WpFractionalScaleV1 => interface("wp_fractional_scale_v1", 1, false),
        InterfaceId::WpViewporter => interface("wp_viewporter", 1, true),
        InterfaceId::WpViewport => interface("wp_viewport", 1, false),
    }
}

/// Looks up the specification of an interface.
pub fn interface_spec(id: InterfaceId) -> (found: GeneratedInterfaceSpec)
    ensures
        found == interface_of(id),
{
    match id {
        InterfaceId::WlDisplay => interface("wl_display", 1, false),
        InterfaceId::WlRegistry => interface("wl_registry", 1, false),
        InterfaceId::WlCallback => interface("wl_callback", 1, false),
        InterfaceId::WlCompositor => interface("wl_compositor", 7, true),
        InterfaceId::WlBuffer => interface("wl_buffer", 1, false),
        InterfaceId::WlDataOffer => interface("wl_data_offer", 3, false),
        InterfaceId::WlDataSource => interface("wl_data_source", 3, false),
        InterfaceId::WlDataDevice => interface("wl_data_device", 3, false),
        InterfaceId::WlDataDeviceManager => interface("wl_data_device_manager", 3, false),
        InterfaceId::WlShell => interface("wl_shell", 1, false),
        InterfaceId::WlShellSurface => interface("wl_shell_surface", 1, false),
        InterfaceId::WlSurface => interface("wl_surface", 7, false),
        InterfaceId::WlSeat => interface("wl_seat", 10, true),
        InterfaceId::WlPointer => interface("wl_pointer", 10, false),
        InterfaceId::WlKeyboard => interface("wl_keyboard", 10, false),
        InterfaceId::WlTouch => interface("wl_touch", 10, false),
        InterfaceId::WlOutput => interface("wl_output", 4, true),
        InterfaceId::WlRegion => interface("wl_region", 1, false),
        InterfaceId::WlSubcompositor => interface("wl_subcompositor", 1, false),
        InterfaceId::WlSubsurface => interface("wl_subsurface", 1, false),
        InterfaceId::WlFixes => interface("wl_fixes", 1, false),
        InterfaceId::XdgWmBase => interface("xdg_wm_base", 7, true),
        InterfaceId::XdgPositioner => interface("xdg_positioner", 7, false),
        InterfaceId::XdgSurface => interface("xdg_surface", 7, false),
        InterfaceId::XdgToplevel => interface("xdg_toplevel", 7, false),
        InterfaceId::XdgPopup => interface("xdg_popup", 7, false),
        InterfaceId::ZwpLinuxDmabufV1 => interface("zwp_linux_dmabuf_v1", 5, true),
        InterfaceId::ZwpLinuxBufferParamsV1 => interface("zwp_linux_buffer_params_v1", 5, false),
        InterfaceId::ZwpLinuxDmabufFeedbackV1 => interface("zwp_linux_dmabuf_feedback_v1", 5, false),
        InterfaceId::WpLinuxDrmSyncobjManagerV1 => interface("wp_linux_drm_syncobj_manager_v1", 1, true),
        InterfaceId::WpLinuxDrmSyncobjTimelineV1 => interface("wp_linux_drm_syncobj_timeline_v1", 1, false),
        InterfaceId::WpLinuxDrmSyncobjSurfaceV1 => interface("wp_linux_drm_syncobj_surface_v1", 1, false),
        InterfaceId::WpTearingControlManagerV1 => interface("wp_tearing_control_manager_v1", 1, true),
        InterfaceId::WpTearingControlV1 => interface("wp_tearing_control_v1", 1, false),
        InterfaceId::WpPresentation => interface("wp_presentation", 2, true),
        InterfaceId::WpPresentationFeedback => interface("wp_presentation_feedback", 2, false),
        InterfaceId::WpColorManagerV1 => interface("wp_color_manager_v1", 3, true),
        InterfaceId::WpColorManagementOutputV1 => interface("wp_color_management_output_v1", 3, false),
        InterfaceId::WpColorManagementSurfaceV1 => interface("wp_color_management_surface_v1", 3, false),
        InterfaceId::WpColorManagementSurfaceFeedbackV1 => interface("wp_color_management_surface_feedback_v1", 3, false),
        InterfaceId::WpImageDescriptionCreatorIccV1 => interface("wp_image_description_creator_icc_v1", 3, false),
        InterfaceId::WpImageDescriptionCreatorParamsV1 => interface("wp_image_description_creator_params_v1", 3, false),
        InterfaceId::WpImageDescriptionV1 => interface("wp_image_description_v1", 3, false),
        InterfaceId::WpImageDescriptionInfoV1 => interface("wp_image_description_info_v1", 3, false),
        InterfaceId::WpImageDescriptionReferenceV1 => interface("wp_image_description_reference_v1", 1, false),
        InterfaceId::WpFifoManagerV1 => interface("wp_fifo_manager_v1", 1, true),
        InterfaceId::WpFifoV1 => interface("wp_fifo_v1", 1, false),
        InterfaceId::WpFractionalScaleManagerV1 => interface("wp_fractional_scale_manager_v1", 1, true),
        InterfaceId::WpFractionalScaleV1 => interface("wp_fractional_scale_v1", 1, false),
        InterfaceId::WpViewporter => interface("wp_viewporter", 1, true),
        InterfaceId::WpViewport => interface("wp_viewport", 1, false),
    }
}

/// All interfaces.
pub open spec fn all_interfaces() -> Seq<InterfaceId> {
    seq![
        InterfaceId::WlDisplay,
        InterfaceId::WlRegistry,
        InterfaceId::WlCallback,
        InterfaceId::WlCompositor,
        InterfaceId::WlBuffer,
        InterfaceId::WlDataOffer,
        InterfaceId::WlDataSource,
        InterfaceId::WlDataDevice,
        InterfaceId::WlDataDeviceManager,
        InterfaceId::WlShell,
        InterfaceId::WlShellSurface,
        InterfaceId::WlSurface,
        InterfaceId::WlSeat,
        InterfaceId::WlPointer,
        InterfaceId::WlKeyboard,
        InterfaceId::WlTouch,
        InterfaceId::WlOutput,
        InterfaceId::WlRegion,
        InterfaceId::WlSubcompositor,
        InterfaceId::WlSubsurface,
        InterfaceId::WlFixes,
        InterfaceId::XdgWmBase,
        InterfaceId::XdgPositioner,
        InterfaceId::XdgSurface,
        InterfaceId::XdgToplevel,
        InterfaceId::XdgPopup,
        InterfaceId::ZwpLinuxDmabufV1,
        InterfaceId::ZwpLinuxBufferParamsV1,
        InterfaceId::ZwpLinuxDmabufFeedbackV1,
        InterfaceId::WpLinuxDrmSyncobjManagerV1,
        InterfaceId::WpLinuxDrmSyncobjTimelineV1,
        InterfaceId::WpLinuxDrmSyncobjSurfaceV1,
        InterfaceId::WpTearingControlManagerV1,
        InterfaceId::WpTearingControlV1,
        InterfaceId::WpPresentation,
        InterfaceId::WpPresentationFeedback,
        InterfaceId::WpColorManagerV1,
        InterfaceId::WpColorManagementOutputV1,
        InterfaceId::WpColorManagementSurfaceV1,
        InterfaceId::WpColorManagementSurfaceFeedbackV1,
        InterfaceId::WpImageDescriptionCreatorIccV1,
        InterfaceId::WpImageDescriptionCreatorParamsV1,
        InterfaceId::WpImageDescriptionV1,
        InterfaceId::WpImageDescriptionInfoV1,
        InterfaceId::WpImageDescriptionReferenceV1,
        InterfaceId::WpFifoManagerV1,
        InterfaceId::WpFifoV1,
        InterfaceId::WpFractionalScaleManagerV1,
        InterfaceId::WpFractionalScaleV1,
        InterfaceId::WpViewporter,
        InterfaceId::WpViewport,
    ]
}

/// Lists all interfaces.
pub fn interfaces() -> (ids: Vec<InterfaceId>)
    ensures
        ids@ == all_interfaces(),
{
    vec![
        InterfaceId::WlDisplay,
        InterfaceId::WlRegistry,
        InterfaceId::WlCallback,
        InterfaceId::WlCompositor,
        InterfaceId::WlBuffer,
        InterfaceId::WlDataOffer,
        InterfaceId::WlDataSource,
        InterfaceId::WlDataDevice,
        InterfaceId::WlDataDeviceManager,
        InterfaceId::WlShell,
        InterfaceId::WlShellSurface,
        InterfaceId::WlSurface,
        InterfaceId::WlSeat,
        InterfaceId::WlPointer,
        InterfaceId::WlKeyboard,
        InterfaceId::WlTouch,
        InterfaceId::WlOutput,
        InterfaceId::WlRegion,
        InterfaceId::WlSubcompositor,
        InterfaceId::WlSubsurface,
        InterfaceId::WlFixes,
        InterfaceId::XdgWmBase,
        InterfaceId::XdgPositioner,
        InterfaceId::XdgSurface,
        InterfaceId::XdgToplevel,
        InterfaceId::XdgPopup,
        InterfaceId::ZwpLinuxDmabufV1,
        InterfaceId::ZwpLinuxBufferParamsV1,
        InterfaceId::ZwpLinuxDmabufFeedbackV1,
        InterfaceId::WpLinuxDrmSyncobjManagerV1,
        InterfaceId::WpLinuxDrmSyncobjTimelineV1,
        InterfaceId::WpLinuxDrmSyncobjSurfaceV1,
        InterfaceId::WpTearingControlManagerV1,
        InterfaceId::WpTearingControlV1,
        InterfaceId::WpPresentation,
        InterfaceId::WpPresentationFeedback,
        InterfaceId::WpColorManagerV1,
        InterfaceId::WpColorManagementOutputV1,
        InterfaceId::WpColorManagementSurfaceV1,
        InterfaceId::WpColorManagementSurfaceFeedbackV1,
        InterfaceId::WpImageDescriptionCreatorIccV1,
        InterfaceId::WpImageDescriptionCreatorParamsV1,
        InterfaceId::WpImageDescriptionV1,
        InterfaceId::WpImageDescriptionInfoV1,
        InterfaceId::WpImageDescriptionReferenceV1,
        InterfaceId::WpFifoManagerV1,
        InterfaceId::WpFifoV1,
        InterfaceId::WpFractionalScaleManagerV1,
        InterfaceId::WpFractionalScaleV1,
        InterfaceId::WpViewporter,
        InterfaceId::WpViewport,
    ]
}

/// The interface of a name.
pub open spec fn interface_named(name: Seq<char>) -> Option<InterfaceId> {
    if name == "wl_display"@ {
        Some(InterfaceId::WlDisplay)
    } else if name == "wl_registry"@ {
        Some(InterfaceId::WlRegistry)
    } else if name == "wl_callback"@ {
        Some(InterfaceId::WlCallback)
    } else if name == "wl_compositor"@ {
        Some(InterfaceId::WlCompositor)
    } else if name == "wl_buffer"@ {
        Some(InterfaceId::WlBuffer)
    } else if name == "wl_data_offer"@ {
        Some(InterfaceId::WlDataOffer)
    } else if name == "wl_data_source"@ {
        Some(InterfaceId::WlDataSource)
    } else if name == "wl_data_device"@ {
        Some(InterfaceId::WlDataDevice)
    } else if name == "wl_data_device_manager"@ {
        Some(InterfaceId::WlDataDeviceManager)
    } else if name == "wl_shell"@ {
        Some(InterfaceId::WlShell)
    } else if name == "wl_shell_surface"@ {
        Some(InterfaceId::WlShellSurface)
    } else if name == "wl_surface"@ {
        Some(InterfaceId::WlSurface)
    } else if name == "wl_seat"@ {
        Some(InterfaceId::WlSeat)
    } else if name == "wl_pointer"@ {
        Some(InterfaceId::WlPointer)
    } else if name == "wl_keyboard"@ {
        Some(InterfaceId::WlKeyboard)
    } else if name == "wl_touch"@ {
        Some(InterfaceId::WlTouch)
    } else if name == "wl_output"@ {
        Some(InterfaceId::WlOutput)
    } else if name == "wl_region"@ {
        Some(InterfaceId::WlRegion)
    } else if name == "wl_subcompositor"@ {
        Some(InterfaceId::WlSubcompositor)
    } else if name == "wl_subsurface"@ {
        Some(InterfaceId::WlSubsurface)
    } else if name == "wl_fixes"@ {
        Some(InterfaceId::WlFixes)
    } else if name == "xdg_wm_base"@ {
        Some(InterfaceId::XdgWmBase)
    } else if name == "xdg_positioner"@ {
        Some(InterfaceId::XdgPositioner)
    } else if name == "xdg_surface"@ {
        Some(InterfaceId::XdgSurface)
    } else if name == "xdg_toplevel"@ {
        Some(InterfaceId::XdgToplevel)
    } else if name == "xdg_popup"@ {
        Some(InterfaceId::XdgPopup)
    } else if name == "zwp_linux_dmabuf_v1"@ {
        Some(InterfaceId::ZwpLinuxDmabufV1)
    } else if name == "zwp_linux_buffer_params_v1"@ {
        Some(InterfaceId::ZwpLinuxBufferParamsV1)
    } else if name == "zwp_linux_dmabuf_feedback_v1"@ {
        Some(InterfaceId::ZwpLinuxDmabufFeedbackV1)
    } else if name == "wp_linux_drm_syncobj_manager_v1"@ {
        Some(InterfaceId::WpLinuxDrmSyncobjManagerV1)
    } else if name == "wp_linux_drm_syncobj_timeline_v1"@ {
        Some(InterfaceId::WpLinuxDrmSyncobjTimelineV1)
    } else if name == "wp_linux_drm_syncobj_surface_v1"@ {
        Some(InterfaceId::WpLinuxDrmSyncobjSurfaceV1)
    } else if name == "wp_tearing_control_manager_v1"@ {
        Some(InterfaceId::WpTearingControlManagerV1)
    } else if name == "wp_tearing_control_v1"@ {
        Some(InterfaceId::WpTearingControlV1)
    } else if name == "wp_presentation"@ {
        Some(InterfaceId::WpPresentation)
    } else if name == "wp_presentation_feedback"@ {
        Some(InterfaceId::WpPresentationFeedback)
    } else if name == "wp_color_manager_v1"@ {
        Some(InterfaceId::WpColorManagerV1)
    } else if name == "wp_color_management_output_v1"@ {
        Some(InterfaceId::WpColorManagementOutputV1)
    } else if name == "wp_color_management_surface_v1"@ {
        Some(InterfaceId::WpColorManagementSurfaceV1)
    } else if name == "wp_color_management_surface_feedback_v1"@ {
        Some(InterfaceId::WpColorManagementSurfaceFeedbackV1)
    } else if name == "wp_image_description_creator_icc_v1"@ {
        Some(InterfaceId::WpImageDescriptionCreatorIccV1)
    } else if name == "wp_image_description_creator_params_v1"@ {
        Some(InterfaceId::WpImageDescriptionCreatorParamsV1)
    } else if name == "wp_image_description_v1"@ {
        Some(InterfaceId::WpImageDescriptionV1)
    } else if name == "wp_image_description_info_v1"@ {
        Some(InterfaceId::WpImageDescriptionInfoV1)
    } else if name == "wp_image_description_reference_v1"@ {
        Some(InterfaceId::WpImageDescriptionReferenceV1)
    } else if name == "wp_fifo_manager_v1"@ {
        Some(InterfaceId::WpFifoManagerV1)
    } else if name == "wp_fifo_v1"@ {
        Some(InterfaceId::WpFifoV1)
    } else if name == "wp_fractional_scale_manager_v1"@ {
        Some(InterfaceId::WpFractionalScaleManagerV1)
    } else if name == "wp_fractional_scale_v1"@ {
        Some(InterfaceId::WpFractionalScaleV1)
    } else if name == "wp_viewporter"@ {
        Some(InterfaceId::WpViewporter)
    } else if name == "wp_viewport"@ {
        Some(InterfaceId::WpViewport)
    } else {
        None
    }
}

/// Looks up an interface by its name.
pub fn interface_by_name(name: &str) -> (id: Option<InterfaceId>)
    ensures
        id == interface_named(name@),
{
    if str_eq(name, "wl_display") {
        Some(InterfaceId::WlDisplay)
    } else if str_eq(name, "wl_registry") {
        Some(InterfaceId::WlRegistry)
    } else if str_eq(name, "wl_callback") {
        Some(InterfaceId::WlCallback)
    } else if str_eq(name, "wl_compositor") {
        Some(InterfaceId::WlCompositor)
    } else if str_eq(name, "wl_buffer") {
        Some(InterfaceId::WlBuffer)
    } else if str_eq(name, "wl_data_offer") {
        Some(InterfaceId::WlDataOffer)
    } else if str_eq(name, "wl_data_source") {
        Some(InterfaceId::WlDataSource)
    } else if str_eq(name, "wl_data_device") {
        Some(InterfaceId::WlDataDevice)
    } else if str_eq(name, "wl_data_device_manager") {
        Some(InterfaceId::WlDataDeviceManager)
    } else if str_eq(name, "wl_shell") {
        Some(InterfaceId::WlShell)
    } else if str_eq(name, "wl_shell_surface") {
        Some(InterfaceId::WlShellSurface)
    } else if str_eq(name, "wl_surface") {
        Some(InterfaceId::WlSurface)
    } else if str_eq(name, "wl_seat") {
        Some(InterfaceId::WlSeat)
    } else if str_eq(name, "wl_pointer") {
        Some(InterfaceId::WlPointer)
    } else if str_eq(name, "wl_keyboard") {
        Some(InterfaceId::WlKeyboard)
    } else if str_eq(name, "wl_touch") {
        Some(InterfaceId::WlTouch)
    } else if str_eq(name, "wl_output") {
        Some(InterfaceId::WlOutput)
    } else if str_eq(name, "wl_region") {
        Some(InterfaceId::WlRegion)
    } else if str_eq(name, "wl_subcompositor") {
        Some(InterfaceId::WlSubcompositor)
    } else if str_eq(name, "wl_subsurface") {
        Some(InterfaceId::WlSubsurface)
    } else if str_eq(name, "wl_fixes") {
        Some(InterfaceId::WlFixes)
    } else if str_eq(name, "xdg_wm_base") {
        Some(InterfaceId::XdgWmBase)
    } else if str_eq(name, "xdg_positioner") {
        Some(InterfaceId::XdgPositioner)
    } else if str_eq(name, "xdg_surface") {
        Some(InterfaceId::XdgSurface)
    } else if str_eq(name, "xdg_toplevel") {
        Some(InterfaceId::XdgToplevel)
    } else if str_eq(name, "xdg_popup") {
        Some(InterfaceId::XdgPopup)
    } else if str_eq(name, "zwp_linux_dmabuf_v1") {
        Some(InterfaceId::ZwpLinuxDmabufV1)
    } else if str_eq(name, "zwp_linux_buffer_params_v1") {
        Some(InterfaceId::ZwpLinuxBufferParamsV1)
    } else if str_eq(name, "zwp_linux_dmabuf_feedback_v1") {
        Some(InterfaceId::ZwpLinuxDmabufFeedbackV1)
    } else if str_eq(name, "wp_linux_drm_syncobj_manager_v1") {
        Some(InterfaceId::WpLinuxDrmSyncobjManagerV1)
    } else if str_eq(name, "wp_linux_drm_syncobj_timeline_v1") {
        Some(InterfaceId::WpLinuxDrmSyncobjTimelineV1)
    } else if str_eq(name, "wp_linux_drm_syncobj_surface_v1") {
        Some(InterfaceId::WpLinuxDrmSyncobjSurfaceV1)
    } else if str_eq(name, "wp_tearing_control_manager_v1") {
        Some(InterfaceId::WpTearingControlManagerV1)
    } else if str_eq(name, "wp_tearing_control_v1") {
        Some(InterfaceId::WpTearingControlV1)
    } else if str_eq(name, "wp_presentation") {
        Some(InterfaceId::WpPresentation)
    } else if str_eq(name, "wp_presentation_feedback") {
        Some(InterfaceId::WpPresentationFeedback)
    } else if str_eq(name, "wp_color_manager_v1") {
        Some(InterfaceId::WpColorManagerV1)
    } else if str_eq(name, "wp_color_management_output_v1") {
        Some(InterfaceId::WpColorManagementOutputV1)
    } else if str_eq(name, "wp_color_management_surface_v1") {
        Some(InterfaceId::WpColorManagementSurfaceV1)
    } else if str_eq(name, "wp_color_management_surface_feedback_v1") {
        Some(InterfaceId::WpColorManagementSurfaceFeedbackV1)
    } else if str_eq(name, "wp_image_description_creator_icc_v1") {
        Some(InterfaceId::WpImageDescriptionCreatorIccV1)
    } else if str_eq(name, "wp_image_description_creator_params_v1") {
        Some(InterfaceId::WpImageDescriptionCreatorParamsV1)
    } else if str_eq(name, "wp_image_description_v1") {
        Some(InterfaceId::WpImageDescriptionV1)
    } else if str_eq(name, "wp_image_description_info_v1") {
        Some(InterfaceId::WpImageDescriptionInfoV1)
    } else if str_eq(name, "wp_image_description_reference_v1") {
        Some(InterfaceId::WpImageDescriptionReferenceV1)
    } else if str_eq(name, "wp_fifo_manager_v1") {
        Some(InterfaceId::WpFifoManagerV1)
    } else if str_eq(name, "wp_fifo_v1") {
        Some(InterfaceId::WpFifoV1)
    } else if str_eq(name, "wp_fractional_scale_manager_v1") {
        Some(InterfaceId::WpFractionalScaleManagerV1)
    } else if str_eq(name, "wp_fractional_scale_v1") {
        Some(InterfaceId::WpFractionalScaleV1)
    } else if str_eq(name, "wp_viewporter") {
        Some(InterfaceId::WpViewporter)
    } else if str_eq(name, "wp_viewport") {
        Some(InterfaceId::WpViewport)
    } else {
        None
    }
}

/// The request that an opcode stands for.
pub open spec fn request_at(interface: InterfaceId, opcode: u16) -> Option<GeneratedRequestId> {
    match interface {
        InterfaceId::WlDisplay => match opcode {
            0 => Some(GeneratedRequestId::WlDisplaySync),
            1 => Some(GeneratedRequestId::WlDisplayGetRegistry),
            _ => None,
        },
        InterfaceId::WlRegistry => match opcode {
            0 => Some(GeneratedRequestId::WlRegistryBind),
            _ => None,
        },
        InterfaceId::WlCompositor => match opcode {
            0 => Some(GeneratedRequestId::WlCompositorCreateSurface),
            1 => Some(GeneratedRequestId::WlCompositorCreateRegion),
            2 => Some(GeneratedRequestId::WlCompositorRelease),
            _ => None,
        },
        InterfaceId::WlBuffer => match opcode {
            0 => Some(GeneratedRequestId::WlBufferDestroy),
            _ => None,
        },
        InterfaceId::WlDataOffer => match opcode {
            0 => Some(GeneratedRequestId::WlDataOfferAccept),
            1 => Some(GeneratedRequestId::WlDataOfferReceive),
            2 => Some(GeneratedRequestId::WlDataOfferDestroy),
            3 => Some(GeneratedRequestId::WlDataOfferFinish),
            4 => Some(GeneratedRequestId::WlDataOfferSetActions),
            _ => None,
        },
        InterfaceId::WlDataSource => match opcode {
            0 => Some(GeneratedRequestId::WlDataSourceOffer),
            1 => Some(GeneratedRequestId::WlDataSourceDestroy),
            2 => Some(GeneratedRequestId::WlDataSourceSetActions),
            _ => None,
        },
        InterfaceId::WlDataDevice => match opcode {
            0 => Some(GeneratedRequestId::WlDataDeviceStartDrag),
            1 => Some(GeneratedRequestId::WlDataDeviceSetSelection),
            2 => Some(GeneratedRequestId::WlDataDeviceRelease),
            _ => None,
        },
        InterfaceId::WlDataDeviceManager => match opcode {
            0 => Some(GeneratedRequestId::WlDataDeviceManagerCreateDataSource),
            1 => Some(GeneratedRequestId::WlDataDeviceManagerGetDataDevice),
            _ => None,
        },
        InterfaceId::WlShell => match opcode {
            0 => Some(GeneratedRequestId::WlShellGetShellSurface),
            _ => None,
        },
        InterfaceId::WlShellSurface => match opcode {
            0 => Some(GeneratedRequestId::WlShellSurfacePong),
            1 => Some(GeneratedRequestId::WlShellSurfaceMove),
            2 => Some(GeneratedRequestId::WlShellSurfaceResize),
            3 => Some(GeneratedRequestId::WlShellSurfaceSetToplevel),
            4 => Some(GeneratedRequestId::WlShellSurfaceSetTransient),
            5 => Some(GeneratedRequestId::WlShellSurfaceSetFullscreen),
            6 => Some(GeneratedRequestId::WlShellSurfaceSetPopup),
            7 => Some(GeneratedRequestId::WlShellSurfaceSetMaximized),
            8 => Some(GeneratedRequestId::WlShellSurfaceSetTitle),
            9 => Some(GeneratedRequestId::WlShellSurfaceSetClass),
            _ => None,
        },
        InterfaceId::WlSurface => match opcode {
            0 => Some(GeneratedRequestId::WlSurfaceDestroy),
            1 => Some(GeneratedRequestId::WlSurfaceAttach),
            2 => Some(GeneratedRequestId::WlSurfaceDamage),
            3 => Some(GeneratedRequestId::WlSurfaceFrame),
            4 => Some(GeneratedRequestId::WlSurfaceSetOpaqueRegion),
            5 => Some(GeneratedRequestId::WlSurfaceSetInputRegion),
            6 => Some(GeneratedRequestId::WlSurfaceCommit),
            7 => Some(GeneratedRequestId::WlSurfaceSetBufferTransform),
            8 => Some(GeneratedRequestId::WlSurfaceSetBufferScale),
            9 => Some(GeneratedRequestId::WlSurfaceDamageBuffer),
            10 => Some(GeneratedRequestId::WlSurfaceOffset),
            11 => Some(GeneratedRequestId::WlSurfaceGetRelease),
            _ => None,
        },
        InterfaceId::WlSeat => match opcode {
            0 => Some(GeneratedRequestId::WlSeatGetPointer),
            1 => Some(GeneratedRequestId::WlSeatGetKeyboard),
            2 => Some(GeneratedRequestId::WlSeatGetTouch),
            3 => Some(GeneratedRequestId::WlSeatRelease),
            _ => None,
        },
        InterfaceId::WlPointer => match opcode {
            0 => Some(GeneratedRequestId::WlPointerSetCursor),
            1 => Some(GeneratedRequestId::WlPointerRelease),
            _ => None,
        },
        InterfaceId::WlKeyboard => match opcode {
            0 => Some(GeneratedRequestId::WlKeyboardRelease),
            _ => None,
        },
        InterfaceId::WlTouch => match opcode {
            0 => Some(GeneratedRequestId::WlTouchRelease),
            _ => None,
        },
        InterfaceId::WlOutput => match opcode {
            0 => Some(GeneratedRequestId::WlOutputRelease),
            _ => None,
        },
        InterfaceId::WlRegion => match opcode {
            0 => Some(GeneratedRequestId::WlRegionDestroy),
            1 => Some(GeneratedRequestId::WlRegionAdd),
            2 => Some(GeneratedRequestId::WlRegionSubtract),
            _ => None,
        },
        InterfaceId::WlSubcompositor => match opcode {
            0 => Some(GeneratedRequestId::WlSubcompositorDestroy),
            1 => Some(GeneratedRequestId::WlSubcompositorGetSubsurface),
            _ => None,
        },
        InterfaceId::WlSubsurface => match opcode {
            0 => Some(GeneratedRequestId::WlSubsurfaceDestroy),
            1 => Some(GeneratedRequestId::WlSubsurfaceSetPosition),
            2 => Some(GeneratedRequestId::WlSubsurfacePlaceAbove),
            3 => Some(GeneratedRequestId::WlSubsurfacePlaceBelow),
            4 => Some(GeneratedRequestId::WlSubsurfaceSetSync),
            5 => Some(GeneratedRequestId::WlSubsurfaceSetDesync),
            _ => None,
        },
        InterfaceId::WlFixes => match opcode {
            0 => Some(GeneratedRequestId::WlFixesDestroy),
            1 => Some(GeneratedRequestId::WlFixesDestroyRegistry),
            _ => None,
        },
        InterfaceId::XdgWmBase => match opcode {
            0 => Some(GeneratedRequestId::XdgWmBaseDestroy),
            1 => Some(GeneratedRequestId::XdgWmBaseCreatePositioner),
            2 => Some(GeneratedRequestId::XdgWmBaseGetXdgSurface),
            3 => Some(GeneratedRequestId::XdgWmBasePong),
            _ => None,
        },
        InterfaceId::XdgPositioner => match opcode {
            0 => Some(GeneratedRequestId::XdgPositionerDestroy),
            1 => Some(GeneratedRequestId::XdgPositionerSetSize),
            2 => Some(GeneratedRequestId::XdgPositionerSetAnchorRect),
            3 => Some(GeneratedRequestId::XdgPositionerSetAnchor),
            4 => Some(GeneratedRequestId::XdgPositionerSetGravity),
            5 => Some(GeneratedRequestId::XdgPositionerSetConstraintAdjustment),
            6 => Some(GeneratedRequestId::XdgPositionerSetOffset),
            7 => Some(GeneratedRequestId::XdgPositionerSetReactive),
            8 => Some(GeneratedRequestId::XdgPositionerSetParentSize),
            9 => Some(GeneratedRequestId::XdgPositionerSetParentConfigure),
            _ => None,
        },
        InterfaceId::XdgSurface => match opcode {
            0 => Some(GeneratedRequestId::XdgSurfaceDestroy),
            1 => Some(GeneratedRequestId::XdgSurfaceGetToplevel),
            2 => Some(GeneratedRequestId::XdgSurfaceGetPopup),
            3 => Some(GeneratedRequestId::XdgSurfaceSetWindowGeometry),
            4 => Some(GeneratedRequestId::XdgSurfaceAckConfigure),
            _ => None,
        },
        InterfaceId::XdgToplevel => match opcode {
            0 => Some(GeneratedRequestId::XdgToplevelDestroy),
            1 => Some(GeneratedRequestId::XdgToplevelSetParent),
            2 => Some(GeneratedRequestId::XdgToplevelSetTitle),
            3 => Some(GeneratedRequestId::XdgToplevelSetAppId),
            4 => Some(GeneratedRequestId::XdgToplevelShowWindowMenu),
            5 => Some(GeneratedRequestId::XdgToplevelMove),
            6 => Some(GeneratedRequestId::XdgToplevelResize),
            7 => Some(GeneratedRequestId::XdgToplevelSetMaxSize),
            8 => Some(GeneratedRequestId::XdgToplevelSetMinSize),
            9 => Some(GeneratedRequestId::XdgToplevelSetMaximized),
            10 => Some(GeneratedRequestId::XdgToplevelUnsetMaximized),
            11 => Some(GeneratedRequestId::XdgToplevelSetFullscreen),
            12 => Some(GeneratedRequestId::XdgToplevelUnsetFullscreen),
            13 => Some(GeneratedRequestId::XdgToplevelSetMinimized),
            _ => None,
        },
        InterfaceId::XdgPopup => match opcode {
            0 => Some(GeneratedRequestId::XdgPopupDestroy),
            1 => Some(GeneratedRequestId::XdgPopupGrab),
            2 => Some(GeneratedRequestId::XdgPopupReposition),
            _ => None,
        },
        InterfaceId::ZwpLinuxDmabufV1 => match opcode {
            0 => Some(GeneratedRequestId::ZwpLinuxDmabufV1Destroy),
            1 => Some(GeneratedRequestId::ZwpLinuxDmabufV1CreateParams),
            2 => Some(GeneratedRequestId::ZwpLinuxDmabufV1GetDefaultFeedback),
            3 => Some(GeneratedRequestId::ZwpLinuxDmabufV1GetSurfaceFeedback),
            _ => None,
        },
        InterfaceId::ZwpLinuxBufferParamsV1 => match opcode {
            0 => Some(GeneratedRequestId::ZwpLinuxBufferParamsV1Destroy),
            1 => Some(GeneratedRequestId::ZwpLinuxBufferParamsV1Add),
            2 => Some(GeneratedRequestId::ZwpLinuxBufferParamsV1Create),
            3 => Some(GeneratedRequestId::ZwpLinuxBufferParamsV1CreateImmed),
            _ => None,
        },
        InterfaceId::ZwpLinuxDmabufFeedbackV1 => match opcode {
            0 => Some(GeneratedRequestId::ZwpLinuxDmabufFeedbackV1Destroy),
            _ => None,
        },
        InterfaceId::WpLinuxDrmSyncobjManagerV1 => match opcode {
            0 => Some(GeneratedRequestId::WpLinuxDrmSyncobjManagerV1Destroy),
            1 => Some(GeneratedRequestId::WpLinuxDrmSyncobjManagerV1GetSurface),
            2 => Some(GeneratedRequestId::WpLinuxDrmSyncobjManagerV1ImportTimeline),
            _ => None,
        },
        InterfaceId::WpLinuxDrmSyncobjTimelineV1 => match opcode {
            0 => Some(GeneratedRequestId::WpLinuxDrmSyncobjTimelineV1Destroy),
            _ => None,
        },
        InterfaceId::WpLinuxDrmSyncobjSurfaceV1 => match opcode {
            0 => Some(GeneratedRequestId::WpLinuxDrmSyncobjSurfaceV1Destroy),
            1 => Some(GeneratedRequestId::WpLinuxDrmSyncobjSurfaceV1SetAcquirePoint),
            2 => Some(GeneratedRequestId::WpLinuxDrmSyncobjSurfaceV1SetReleasePoint),
            _ => None,
        },
        InterfaceId::WpTearingControlManagerV1 => match opcode {
            0 => Some(GeneratedRequestId::WpTearingControlManagerV1Destroy),
            1 => Some(GeneratedRequestId::WpTearingControlManagerV1GetTearingControl),
            _ => None,
        },
        InterfaceId::WpTearingControlV1 => match opcode {
            0 => Some(GeneratedRequestId::WpTearingControlV1SetPresentationHint),
            1 => Some(GeneratedRequestId::WpTearingControlV1Destroy),
            _ => None,
        },
        InterfaceId::WpPresentation => match opcode {
            0 => Some(GeneratedRequestId::WpPresentationDestroy),
            1 => Some(GeneratedRequestId::WpPresentationFeedback),
            _ => None,
        },
        InterfaceId::WpColorManagerV1 => match opcode {
            0 => Some(GeneratedRequestId::WpColorManagerV1Destroy),
            1 => Some(GeneratedRequestId::WpColorManagerV1GetOutput),
            2 => Some(GeneratedRequestId::WpColorManagerV1GetSurface),
            3 => Some(GeneratedRequestId::WpColorManagerV1GetSurfaceFeedback),
            4 => Some(GeneratedRequestId::WpColorManagerV1CreateIccCreator),
            5 => Some(GeneratedRequestId::WpColorManagerV1CreateParametricCreator),
            6 => Some(GeneratedRequestId::WpColorManagerV1CreateWindowsScrgb),
            7 => Some(GeneratedRequestId::WpColorManagerV1GetImageDescription),
            8 => Some(GeneratedRequestId::WpColorManagerV1CreateWindowsBt2100),
            _ => None,
        },
        InterfaceId::WpColorManagementOutputV1 => match opcode {
            0 => Some(GeneratedRequestId::WpColorManagementOutputV1Destroy),
            1 => Some(GeneratedRequestId::WpColorManagementOutputV1GetImageDescription),
            _ => None,
        },
        InterfaceId::WpColorManagementSurfaceV1 => match opcode {
            0 => Some(GeneratedRequestId::WpColorManagementSurfaceV1Destroy),
            1 => Some(GeneratedRequestId::WpColorManagementSurfaceV1SetImageDescription),
            2 => Some(GeneratedRequestId::WpColorManagementSurfaceV1UnsetImageDescription),
            _ => None,
        },
        InterfaceId::WpColorManagementSurfaceFeedbackV1 => match opcode {
            0 => Some(GeneratedRequestId::WpColorManagementSurfaceFeedbackV1Destroy),
            1 => Some(GeneratedRequestId::WpColorManagementSurfaceFeedbackV1GetPreferred),
            2 => Some(GeneratedRequestId::WpColorManagementSurfaceFeedbackV1GetPreferredParametric),
            _ => None,
        },
        InterfaceId::WpImageDescriptionCreatorIccV1 => match opcode {
            0 => Some(GeneratedRequestId::WpImageDescriptionCreatorIccV1Create),
            1 => Some(GeneratedRequestId::WpImageDescriptionCreatorIccV1SetIccFile),
            _ => None,
        },
        InterfaceId::WpImageDescriptionCreatorParamsV1 => match opcode {
            0 => Some(GeneratedRequestId::WpImageDescriptionCreatorParamsV1Create),
            1 => Some(GeneratedRequestId::WpImageDescriptionCreatorParamsV1SetTfNamed),
            2 => Some(GeneratedRequestId::WpImageDescriptionCreatorParamsV1SetTfPower),
            3 => Some(GeneratedRequestId::WpImageDescriptionCreatorParamsV1SetPrimariesNamed),
            4 => Some(GeneratedRequestId::WpImageDescriptionCreatorParamsV1SetPrimaries),
            5 => Some(GeneratedRequestId::WpImageDescriptionCreatorParamsV1SetLuminances),
            6 => Some(GeneratedRequestId::WpImageDescriptionCreatorParamsV1SetMasteringDisplayPrimaries),
            7 => Some(GeneratedRequestId::WpImageDescriptionCreatorParamsV1SetMasteringLuminance),
            8 => Some(GeneratedRequestId::WpImageDescriptionCreatorParamsV1SetMaxCll),
            9 => Some(GeneratedRequestId::WpImageDescriptionCreatorParamsV1SetMaxFall),
            _ => None,
        },
        InterfaceId::WpImageDescriptionV1 => match opcode {
            0 => Some(GeneratedRequestId::WpImageDescriptionV1Destroy),
            1 => Some(GeneratedRequestId::WpImageDescriptionV1GetInformation),
            _ => None,
        },
        InterfaceId::WpImageDescriptionReferenceV1 => match opcode {
            0 => Some(GeneratedRequestId::WpImageDescriptionReferenceV1Destroy),
            _ => None,
        },
        InterfaceId::WpFifoManagerV1 => match opcode {
            0 => Some(GeneratedRequestId::WpFifoManagerV1Destroy),
            1 => Some(GeneratedRequestId::WpFifoManagerV1GetFifo),
            _ => None,
        },
        InterfaceId::WpFifoV1 => match opcode {
            0 => Some(GeneratedRequestId::WpFifoV1SetBarrier),
            1 => Some(GeneratedRequestId::WpFifoV1WaitBarrier),
            2 => Some(GeneratedRequestId::WpFifoV1Destroy),
            _ => None,
        },
        InterfaceId::WpFractionalScaleManagerV1 => match opcode {
            0 => Some(GeneratedRequestId::WpFractionalScaleManagerV1Destroy),
            1 => Some(GeneratedRequestId::WpFractionalScaleManagerV1GetFractionalScale),
            _ => None,
        },
        InterfaceId::WpFractionalScaleV1 => match opcode {
            0 => Some(GeneratedRequestId::WpFractionalScaleV1Destroy),
            _ => None,
        },
        InterfaceId::WpViewporter => match opcode {
            0 => Some(GeneratedRequestId::WpViewporterDestroy),
            1 => Some(GeneratedRequestId::WpViewporterGetViewport),
            _ => None,
        },
        InterfaceId::WpViewport => match opcode {
            0 => Some(GeneratedRequestId::WpViewportDestroy),
            1 => Some(GeneratedRequestId::WpViewportSetSource),
            2 => Some(GeneratedRequestId::WpViewportSetDestination),
            _ => None,
        },
        _ => None,
    }
}

/// Looks up a request by its opcode.
pub fn request_by_opcode(interface: InterfaceId, opcode: u16) -> (id: Option<GeneratedRequestId>)
    ensures
        id == request_at(interface, opcode),
{
    match interface {
        InterfaceId::WlDisplay => match opcode {
            0 => Some(GeneratedRequestId::WlDisplaySync),
            1 => Some(GeneratedRequestId::WlDisplayGetRegistry),
            _ => None,
        },
        InterfaceId::WlRegistry => match opcode {
            0 => Some(GeneratedRequestId::WlRegistryBind),
            _ => None,
        },
        InterfaceId::WlCompositor => match opcode {
            0 => Some(GeneratedRequestId::WlCompositorCreateSurface),
            1 => Some(GeneratedRequestId::WlCompositorCreateRegion),
            2 => Some(GeneratedRequestId::WlCompositorRelease),
            _ => None,
        },
        InterfaceId::WlBuffer => match opcode {
            0 => Some(GeneratedRequestId::WlBufferDestroy),
            _ => None,
        },
        InterfaceId::WlDataOffer => match opcode {
            0 => Some(GeneratedRequestId::WlDataOfferAccept),
            1 => Some(GeneratedRequestId::WlDataOfferReceive),
            2 => Some(GeneratedRequestId::WlDataOfferDestroy),
            3 => Some(GeneratedRequestId::WlDataOfferFinish),
            4 => Some(GeneratedRequestId::WlDataOfferSetActions),
            _ => None,
        },
        InterfaceId::WlDataSource => match opcode {
            0 => Some(GeneratedRequestId::WlDataSourceOffer),
            1 => Some(GeneratedRequestId::WlDataSourceDestroy),
            2 => Some(GeneratedRequestId::WlDataSourceSetActions),
            _ => None,
        },
        InterfaceId::WlDataDevice => match opcode {
            0 => Some(GeneratedRequestId::WlDataDeviceStartDrag),
            1 => Some(GeneratedRequestId::WlDataDeviceSetSelection),
            2 => Some(GeneratedRequestId::WlDataDeviceRelease),
            _ => None,
        },
        InterfaceId::WlDataDeviceManager => match opcode {
            0 => Some(GeneratedRequestId::WlDataDeviceManagerCreateDataSource),
            1 => Some(GeneratedRequestId::WlDataDeviceManagerGetDataDevice),
            _ => None,
        },
        InterfaceId::WlShell => match opcode {
            0 => Some(GeneratedRequestId::WlShellGetShellSurface),
            _ => None,
        },
        InterfaceId::WlShellSurface => match opcode {
            0 => Some(GeneratedRequestId::WlShellSurfacePong),
            1 => Some(GeneratedRequestId::WlShellSurfaceMove),
            2 => Some(GeneratedRequestId::WlShellSurfaceResize),
            3 => Some(GeneratedRequestId::WlShellSurfaceSetToplevel),
            4 => Some(GeneratedRequestId::WlShellSurfaceSetTransient),
            5 => Some(GeneratedRequestId::WlShellSurfaceSetFullscreen),
            6 => Some(GeneratedRequestId::WlShellSurfaceSetPopup),
            7 => Some(GeneratedRequestId::WlShellSurfaceSetMaximized),
            8 => Some(GeneratedRequestId::WlShellSurfaceSetTitle),
            9 => Some(GeneratedRequestId::WlShellSurfaceSetClass),
            _ => None,
        },
        InterfaceId::WlSurface => match opcode {
            0 => Some(GeneratedRequestId::WlSurfaceDestroy),
            1 => Some(GeneratedRequestId::WlSurfaceAttach),
            2 => Some(GeneratedRequestId::WlSurfaceDamage),
            3 => Some(GeneratedRequestId::WlSurfaceFrame),
            4 => Some(GeneratedRequestId::WlSurfaceSetOpaqueRegion),
            5 => Some(GeneratedRequestId::WlSurfaceSetInputRegion),
            6 => Some(GeneratedRequestId::WlSurfaceCommit),
            7 => Some(GeneratedRequestId::WlSurfaceSetBufferTransform),
            8 => Some(GeneratedRequestId::WlSurfaceSetBufferScale),
            9 => Some(GeneratedRequestId::WlSurfaceDamageBuffer),
            10 => Some(GeneratedRequestId::WlSurfaceOffset),
            11 => Some(GeneratedRequestId::WlSurfaceGetRelease),
            _ => None,
        },
        InterfaceId::WlSeat => match opcode {
            0 => Some(GeneratedRequestId::WlSeatGetPointer),
            1 => Some(GeneratedRequestId::WlSeatGetKeyboard),
            2 => Some(GeneratedRequestId::WlSeatGetTouch),
            3 => Some(GeneratedRequestId::WlSeatRelease),
            _ => None,
        },
        InterfaceId::WlPointer => match opcode {
            0 => Some(GeneratedRequestId::WlPointerSetCursor),
            1 => Some(GeneratedRequestId::WlPointerRelease),
            _ => None,
        },
        InterfaceId::WlKeyboard => match opcode {
            0 => Some(GeneratedRequestId::WlKeyboardRelease),
            _ => None,
        },
        InterfaceId::WlTouch => match opcode {
            0 => Some(GeneratedRequestId::WlTouchRelease),
            _ => None,
        },
        InterfaceId::WlOutput => match opcode {
            0 => Some(GeneratedRequestId::WlOutputRelease),
            _ => None,
        },
        InterfaceId::WlRegion => match opcode {
            0 => Some(GeneratedRequestId::WlRegionDestroy),
            1 => Some(GeneratedRequestId::WlRegionAdd),
            2 => Some(GeneratedRequestId::WlRegionSubtract),
            _ => None,
        },
        InterfaceId::WlSubcompositor => match opcode {
            0 => Some(GeneratedRequestId::WlSubcompositorDestroy),
            1 => Some(GeneratedRequestId::WlSubcompositorGetSubsurface),
            _ => None,
        },
        InterfaceId::WlSubsurface => match opcode {
            0 => Some(GeneratedRequestId::WlSubsurfaceDestroy),
            1 => Some(GeneratedRequestId::WlSubsurfaceSetPosition),
            2 => Some(GeneratedRequestId::WlSubsurfacePlaceAbove),
            3 => Some(GeneratedRequestId::WlSubsurfacePlaceBelow),
            4 => Some(GeneratedRequestId::WlSubsurfaceSetSync),
            5 => Some(GeneratedRequestId::WlSubsurfaceSetDesync),
            _ => None,
        },
        InterfaceId::WlFixes => match opcode {
            0 => Some(GeneratedRequestId::WlFixesDestroy),
            1 => Some(GeneratedRequestId::WlFixesDestroyRegistry),
            _ => None,
        },
        InterfaceId::XdgWmBase => match opcode {
            0 => Some(GeneratedRequestId::XdgWmBaseDestroy),
            1 => Some(GeneratedRequestId::XdgWmBaseCreatePositioner),
            2 => Some(GeneratedRequestId::XdgWmBaseGetXdgSurface),
            3 => Some(GeneratedRequestId::XdgWmBasePong),
            _ => None,
        },
        InterfaceId::XdgPositioner => match opcode {
            0 => Some(GeneratedRequestId::XdgPositionerDestroy),
            1 => Some(GeneratedRequestId::XdgPositionerSetSize),
            2 => Some(GeneratedRequestId::XdgPositionerSetAnchorRect),
            3 => Some(GeneratedRequestId::XdgPositionerSetAnchor),
            4 => Some(GeneratedRequestId::XdgPositionerSetGravity),
            5 => Some(GeneratedRequestId::XdgPositionerSetConstraintAdjustment),
            6 => Some(GeneratedRequestId::XdgPositionerSetOffset),
            7 => Some(GeneratedRequestId::XdgPositionerSetReactive),
            8 => Some(GeneratedRequestId::XdgPositionerSetParentSize),
            9 => Some(GeneratedRequestId::XdgPositionerSetParentConfigure),
            _ => None,
        },
        InterfaceId::XdgSurface => match opcode {
            0 => Some(GeneratedRequestId::XdgSurfaceDestroy),
            1 => Some(GeneratedRequestId::XdgSurfaceGetToplevel),
            2 => Some(GeneratedRequestId::XdgSurfaceGetPopup),
            3 => Some(GeneratedRequestId::XdgSurfaceSetWindowGeometry),
            4 => Some(GeneratedRequestId::XdgSurfaceAckConfigure),
            _ => None,
        },
        InterfaceId::XdgToplevel => match opcode {
            0 => Some(GeneratedRequestId::XdgToplevelDestroy),
            1 => Some(GeneratedRequestId::XdgToplevelSetParent),
            2 => Some(GeneratedRequestId::XdgToplevelSetTitle),
            3 => Some(GeneratedRequestId::XdgToplevelSetAppId),
            4 => Some(GeneratedRequestId::XdgToplevelShowWindowMenu),
            5 => Some(GeneratedRequestId::XdgToplevelMove),
            6 => Some(GeneratedRequestId::XdgToplevelResize),
            7 => Some(GeneratedRequestId::XdgToplevelSetMaxSize),
            8 => Some(GeneratedRequestId::XdgToplevelSetMinSize),
            9 => Some(GeneratedRequestId::XdgToplevelSetMaximized),
            10 => Some(GeneratedRequestId::XdgToplevelUnsetMaximized),
            11 => Some(GeneratedRequestId::XdgToplevelSetFullscreen),
            12 => Some(GeneratedRequestId::XdgToplevelUnsetFullscreen),
            13 => Some(GeneratedRequestId::XdgToplevelSetMinimized),
            _ => None,
        },
        InterfaceId::XdgPopup => match opcode {
            0 => Some(GeneratedRequestId::XdgPopupDestroy),
            1 => Some(GeneratedRequestId::XdgPopupGrab),
            2 => Some(GeneratedRequestId::XdgPopupReposition),
            _ => None,
        },
        InterfaceId::ZwpLinuxDmabufV1 => match opcode {
            0 => Some(GeneratedRequestId::ZwpLinuxDmabufV1Destroy),
            1 => Some(GeneratedRequestId::ZwpLinuxDmabufV1CreateParams),
            2 => Some(GeneratedRequestId::ZwpLinuxDmabufV1GetDefaultFeedback),
            3 => Some(GeneratedRequestId::ZwpLinuxDmabufV1GetSurfaceFeedback),
            _ => None,
        },
        InterfaceId::ZwpLinuxBufferParamsV1 => match opcode {
            0 => Some(GeneratedRequestId::ZwpLinuxBufferParamsV1Destroy),
            1 => Some(GeneratedRequestId::ZwpLinuxBufferParamsV1Add),
            2 => Some(GeneratedRequestId::ZwpLinuxBufferParamsV1Create),
            3 => Some(GeneratedRequestId::ZwpLinuxBufferParamsV1CreateImmed),
            _ => None,
        },
        InterfaceId::ZwpLinuxDmabufFeedbackV1 => match opcode {
            0 => Some(GeneratedRequestId::ZwpLinuxDmabufFeedbackV1Destroy),
            _ => None,
        },
        InterfaceId::WpLinuxDrmSyncobjManagerV1 => match opcode {
            0 => Some(GeneratedRequestId::WpLinuxDrmSyncobjManagerV1Destroy),
            1 => Some(GeneratedRequestId::WpLinuxDrmSyncobjManagerV1GetSurface),
            2 => Some(GeneratedRequestId::WpLinuxDrmSyncobjManagerV1ImportTimeline),
            _ => None,
        },
        InterfaceId::WpLinuxDrmSyncobjTimelineV1 => match opcode {
            0 => Some(GeneratedRequestId::WpLinuxDrmSyncobjTimelineV1Destroy),
            _ => None,
        },
        InterfaceId::WpLinuxDrmSyncobjSurfaceV1 => match opcode {
            0 => Some(GeneratedRequestId::WpLinuxDrmSyncobjSurfaceV1Destroy),
            1 => Some(GeneratedRequestId::WpLinuxDrmSyncobjSurfaceV1SetAcquirePoint),
            2 => Some(GeneratedRequestId::WpLinuxDrmSyncobjSurfaceV1SetReleasePoint),
            _ => None,
        },
        InterfaceId::WpTearingControlManagerV1 => match opcode {
            0 => Some(GeneratedRequestId::WpTearingControlManagerV1Destroy),
            1 => Some(GeneratedRequestId::WpTearingControlManagerV1GetTearingControl),
            _ => None,
        },
        InterfaceId::WpTearingControlV1 => match opcode {
            0 => Some(GeneratedRequestId::WpTearingControlV1SetPresentationHint),
            1 => Some(GeneratedRequestId::WpTearingControlV1Destroy),
            _ => None,
        },
        InterfaceId::WpPresentation => match opcode {
            0 => Some(GeneratedRequestId::WpPresentationDestroy),
            1 => Some(GeneratedRequestId::WpPresentationFeedback),
            _ => None,
        },
        InterfaceId::WpColorManagerV1 => match opcode {
            0 => Some(GeneratedRequestId::WpColorManagerV1Destroy),
            1 => Some(GeneratedRequestId::WpColorManagerV1GetOutput),
            2 => Some(GeneratedRequestId::WpColorManagerV1GetSurface),
            3 => Some(GeneratedRequestId::WpColorManagerV1GetSurfaceFeedback),
            4 => Some(GeneratedRequestId::WpColorManagerV1CreateIccCreator),
            5 => Some(GeneratedRequestId::WpColorManagerV1CreateParametricCreator),
            6 => Some(GeneratedRequestId::WpColorManagerV1CreateWindowsScrgb),
            7 => Some(GeneratedRequestId::WpColorManagerV1GetImageDescription),
            8 => Some(GeneratedRequestId::WpColorManagerV1CreateWindowsBt2100),
            _ => None,
        },
        InterfaceId::WpColorManagementOutputV1 => match opcode {
            0 => Some(GeneratedRequestId::WpColorManagementOutputV1Destroy),
            1 => Some(GeneratedRequestId::WpColorManagementOutputV1GetImageDescription),
            _ => None,
        },
        InterfaceId::WpColorManagementSurfaceV1 => match opcode {
            0 => Some(GeneratedRequestId::WpColorManagementSurfaceV1Destroy),
            1 => Some(GeneratedRequestId::WpColorManagementSurfaceV1SetImageDescription),
            2 => Some(GeneratedRequestId::WpColorManagementSurfaceV1UnsetImageDescription),
            _ => None,
        },
        InterfaceId::WpColorManagementSurfaceFeedbackV1 => match opcode {
            0 => Some(GeneratedRequestId::WpColorManagementSurfaceFeedbackV1Destroy),
            1 => Some(GeneratedRequestId::WpColorManagementSurfaceFeedbackV1GetPreferred),
            2 => Some(GeneratedRequestId::WpColorManagementSurfaceFeedbackV1GetPreferredParametric),
            _ => None,
        },
        InterfaceId::WpImageDescriptionCreatorIccV1 => match opcode {
            0 => Some(GeneratedRequestId::WpImageDescriptionCreatorIccV1Create),
            1 => Some(GeneratedRequestId::WpImageDescriptionCreatorIccV1SetIccFile),
            _ => None,
        },
        InterfaceId::WpImageDescriptionCreatorParamsV1 => match opcode {
            0 => Some(GeneratedRequestId::WpImageDescriptionCreatorParamsV1Create),
            1 => Some(GeneratedRequestId::WpImageDescriptionCreatorParamsV1SetTfNamed),
            2 => Some(GeneratedRequestId::WpImageDescriptionCreatorParamsV1SetTfPower),
            3 => Some(GeneratedRequestId::WpImageDescriptionCreatorParamsV1SetPrimariesNamed),
            4 => Some(GeneratedRequestId::WpImageDescriptionCreatorParamsV1SetPrimaries),
            5 => Some(GeneratedRequestId::WpImageDescriptionCreatorParamsV1SetLuminances),
            6 => Some(GeneratedRequestId::WpImageDescriptionCreatorParamsV1SetMasteringDisplayPrimaries),
            7 => Some(GeneratedRequestId::WpImageDescriptionCreatorParamsV1SetMasteringLuminance),
            8 => Some(GeneratedRequestId::WpImageDescriptionCreatorParamsV1SetMaxCll),
            9 => Some(GeneratedRequestId::WpImageDescriptionCreatorParamsV1SetMaxFall),
            _ => None,
        },
        InterfaceId::WpImageDescriptionV1 => match opcode {
            0 => Some(GeneratedRequestId::WpImageDescriptionV1Destroy),
            1 => Some(GeneratedRequestId::WpImageDescriptionV1GetInformation),
            _ => None,
        },
        InterfaceId::WpImageDescriptionReferenceV1 => match opcode {
            0 => Some(GeneratedRequestId::WpImageDescriptionReferenceV1Destroy),
            _ => None,
        },
        InterfaceId::WpFifoManagerV1 => match opcode {
            0 => Some(GeneratedRequestId::WpFifoManagerV1Destroy),
            1 => Some(GeneratedRequestId::WpFifoManagerV1GetFifo),
            _ => None,
        },
        InterfaceId::WpFifoV1 => match opcode {
            0 => Some(GeneratedRequestId::WpFifoV1SetBarrier),
            1 => Some(GeneratedRequestId::WpFifoV1WaitBarrier),
            2 => Some(GeneratedRequestId::WpFifoV1Destroy),
            _ => None,
        },
        InterfaceId::WpFractionalScaleManagerV1 => match opcode {
            0 => Some(GeneratedRequestId::WpFractionalScaleManagerV1Destroy),
            1 => Some(GeneratedRequestId::WpFractionalScaleManagerV1GetFractionalScale),
            _ => None,
        },
        InterfaceId::WpFractionalScaleV1 => match opcode {
            0 => Some(GeneratedRequestId::WpFractionalScaleV1Destroy),
            _ => None,
        },
        InterfaceId::WpViewporter => match opcode {
            0 => Some(GeneratedRequestId::WpViewporterDestroy),
            1 => Some(GeneratedRequestId::WpViewporterGetViewport),
            _ => None,
        },
        InterfaceId::WpViewport => match opcode {
            0 => Some(GeneratedRequestId::WpViewportDestroy),
            1 => Some(GeneratedRequestId::WpViewportSetSource),
            2 => Some(GeneratedRequestId::WpViewportSetDestination),
            _ => None,
        },
        _ => None,
    }
}

/// Where a request stands: its interface and its opcode.
pub open spec fn request_place(id: GeneratedRequestId) -> (InterfaceId, u16) {
    match id {
        GeneratedRequestId::WlDisplaySync => (InterfaceId::WlDisplay, 0u16),
        GeneratedRequestId::WlDisplayGetRegistry => (InterfaceId::WlDisplay, 1u16),
        GeneratedRequestId::WlRegistryBind => (InterfaceId::WlRegistry, 0u16),
        GeneratedRequestId::WlCompositorCreateSurface => (InterfaceId::WlCompositor, 0u16),
        GeneratedRequestId::WlCompositorCreateRegion => (InterfaceId::WlCompositor, 1u16),
        GeneratedRequestId::WlCompositorRelease => (InterfaceId::WlCompositor, 2u16),
        GeneratedRequestId::WlBufferDestroy => (InterfaceId::WlBuffer, 0u16),
        GeneratedRequestId::WlDataOfferAccept => (InterfaceId::WlDataOffer, 0u16),
        GeneratedRequestId::WlDataOfferReceive => (InterfaceId::WlDataOffer, 1u16),
        GeneratedRequestId::WlDataOfferDestroy => (InterfaceId::WlDataOffer, 2u16),
        GeneratedRequestId::WlDataOfferFinish => (InterfaceId::WlDataOffer, 3u16),
        GeneratedRequestId::WlDataOfferSetActions => (InterfaceId::WlDataOffer, 4u16),
        GeneratedRequestId::WlDataSourceOffer => (InterfaceId::WlDataSource, 0u16),
        GeneratedRequestId::WlDataSourceDestroy => (InterfaceId::WlDataSource, 1u16),
        GeneratedRequestId::WlDataSourceSetActions => (InterfaceId::WlDataSource, 2u16),
        GeneratedRequestId::WlDataDeviceStartDrag => (InterfaceId::WlDataDevice, 0u16),
        GeneratedRequestId::WlDataDeviceSetSelection => (InterfaceId::WlDataDevice, 1u16),
        GeneratedRequestId::WlDataDeviceRelease => (InterfaceId::WlDataDevice, 2u16),
        GeneratedRequestId::WlDataDeviceManagerCreateDataSource => (InterfaceId::WlDataDeviceManager, 0u16),
        GeneratedRequestId::WlDataDeviceManagerGetDataDevice => (InterfaceId::WlDataDeviceManager, 1u16),
        GeneratedRequestId::WlShellGetShellSurface => (InterfaceId::WlShell, 0u16),
        GeneratedRequestId::WlShellSurfacePong => (InterfaceId::WlShellSurface, 0u16),
        GeneratedRequestId::WlShellSurfaceMove => (InterfaceId::WlShellSurface, 1u16),
        GeneratedRequestId::WlShellSurfaceResize => (InterfaceId::WlShellSurface, 2u16),
        GeneratedRequestId::WlShellSurfaceSetToplevel => (InterfaceId::WlShellSurface, 3u16),
        GeneratedRequestId::WlShellSurfaceSetTransient => (InterfaceId::WlShellSurface, 4u16),
        GeneratedRequestId::WlShellSurfaceSetFullscreen => (InterfaceId::WlShellSurface, 5u16),
        GeneratedRequestId::WlShellSurfaceSetPopup => (InterfaceId::WlShellSurface, 6u16),
        GeneratedRequestId::WlShellSurfaceSetMaximized => (InterfaceId::WlShellSurface, 7u16),
        GeneratedRequestId::WlShellSurfaceSetTitle => (InterfaceId::WlShellSurface, 8u16),
        GeneratedRequestId::WlShellSurfaceSetClass => (InterfaceId::WlShellSurface, 9u16),
        GeneratedRequestId::WlSurfaceDestroy => (InterfaceId::WlSurface, 0u16),
        GeneratedRequestId::WlSurfaceAttach => (InterfaceId::WlSurface, 1u16),
        GeneratedRequestId::WlSurfaceDamage => (InterfaceId::WlSurface, 2u16),
        GeneratedRequestId::WlSurfaceFrame => (InterfaceId::WlSurface, 3u16),
        GeneratedRequestId::WlSurfaceSetOpaqueRegion => (InterfaceId::WlSurface, 4u16),
        GeneratedRequestId::WlSurfaceSetInputRegion => (InterfaceId::WlSurface, 5u16),
        GeneratedRequestId::WlSurfaceCommit => (InterfaceId::WlSurface, 6u16),
        GeneratedRequestId::WlSurfaceSetBufferTransform => (InterfaceId::WlSurface, 7u16),
        GeneratedRequestId::WlSurfaceSetBufferScale => (InterfaceId::WlSurface, 8u16),
        GeneratedRequestId::WlSurfaceDamageBuffer => (InterfaceId::WlSurface, 9u16),
        GeneratedRequestId::WlSurfaceOffset => (InterfaceId::WlSurface, 10u16),
        GeneratedRequestId::WlSurfaceGetRelease => (InterfaceId::WlSurface, 11u16),
        GeneratedRequestId::WlSeatGetPointer => (InterfaceId::WlSeat, 0u16),
        GeneratedRequestId::WlSeatGetKeyboard => (InterfaceId::WlSeat, 1u16),
        GeneratedRequestId::WlSeatGetTouch => (InterfaceId::WlSeat, 2u16),
        GeneratedRequestId::WlSeatRelease => (InterfaceId::WlSeat, 3u16),
        GeneratedRequestId::WlPointerSetCursor => (InterfaceId::WlPointer, 0u16),
        GeneratedRequestId::WlPointerRelease => (InterfaceId::WlPointer, 1u16),
        GeneratedRequestId::WlKeyboardRelease => (InterfaceId::WlKeyboard, 0u16),
        GeneratedRequestId::WlTouchRelease => (InterfaceId::WlTouch, 0u16),
        GeneratedRequestId::WlOutputRelease => (InterfaceId::WlOutput, 0u16),
        GeneratedRequestId::WlRegionDestroy => (InterfaceId::WlRegion, 0u16),
        GeneratedRequestId::WlRegionAdd => (InterfaceId::WlRegion, 1u16),
        GeneratedRequestId::WlRegionSubtract => (InterfaceId::WlRegion, 2u16),
        GeneratedRequestId::WlSubcompositorDestroy => (InterfaceId::WlSubcompositor, 0u16),
        GeneratedRequestId::WlSubcompositorGetSubsurface => (InterfaceId::WlSubcompositor, 1u16),
        GeneratedRequestId::WlSubsurfaceDestroy => (InterfaceId::WlSubsurface, 0u16),
        GeneratedRequestId::WlSubsurfaceSetPosition => (InterfaceId::WlSubsurface, 1u16),
        GeneratedRequestId::WlSubsurfacePlaceAbove => (InterfaceId::WlSubsurface, 2u16),
        GeneratedRequestId::WlSubsurfacePlaceBelow => (InterfaceId::WlSubsurface, 3u16),
        GeneratedRequestId::WlSubsurfaceSetSync => (InterfaceId::WlSubsurface, 4u16),
        GeneratedRequestId::WlSubsurfaceSetDesync => (InterfaceId::WlSubsurface, 5u16),
        GeneratedRequestId::WlFixesDestroy => (InterfaceId::WlFixes, 0u16),
        GeneratedRequestId::WlFixesDestroyRegistry => (InterfaceId::WlFixes, 1u16),
        GeneratedRequestId::XdgWmBaseDestroy => (InterfaceId::XdgWmBase, 0u16),
        GeneratedRequestId::XdgWmBaseCreatePositioner => (InterfaceId::XdgWmBase, 1u16),
        GeneratedRequestId::XdgWmBaseGetXdgSurface => (InterfaceId::XdgWmBase, 2u16),
        GeneratedRequestId::XdgWmBasePong => (InterfaceId::XdgWmBase, 3u16),
        GeneratedRequestId::XdgPositionerDestroy => (InterfaceId::XdgPositioner, 0u16),
        GeneratedRequestId::XdgPositionerSetSize => (InterfaceId::XdgPositioner, 1u16),
        GeneratedRequestId::XdgPositionerSetAnchorRect => (InterfaceId::XdgPositioner, 2u16),
        GeneratedRequestId::XdgPositionerSetAnchor => (InterfaceId::XdgPositioner, 3u16),
        GeneratedRequestId::XdgPositionerSetGravity => (InterfaceId::XdgPositioner, 4u16),
        GeneratedRequestId::XdgPositionerSetConstraintAdjustment => (InterfaceId::XdgPositioner, 5u16),
        GeneratedRequestId::XdgPositionerSetOffset => (InterfaceId::XdgPositioner, 6u16),
        GeneratedRequestId::XdgPositionerSetReactive => (InterfaceId::XdgPositioner, 7u16),
        GeneratedRequestId::XdgPositionerSetParentSize => (InterfaceId::XdgPositioner, 8u16),
        GeneratedRequestId::XdgPositionerSetParentConfigure => (InterfaceId::XdgPositioner, 9u16),
        GeneratedRequestId::XdgSurfaceDestroy => (InterfaceId::XdgSurface, 0u16),
        GeneratedRequestId::XdgSurfaceGetToplevel => (InterfaceId::XdgSurface, 1u16),
        GeneratedRequestId::XdgSurfaceGetPopup => (InterfaceId::XdgSurface, 2u16),
        GeneratedRequestId::XdgSurfaceSetWindowGeometry => (InterfaceId::XdgSurface, 3u16),
        GeneratedRequestId::XdgSurfaceAckConfigure => (InterfaceId::XdgSurface, 4u16),
        GeneratedRequestId::XdgToplevelDestroy => (InterfaceId::XdgToplevel, 0u16),
        GeneratedRequestId::XdgToplevelSetParent => (InterfaceId::XdgToplevel, 1u16),
        GeneratedRequestId::XdgToplevelSetTitle => (InterfaceId::XdgToplevel, 2u16),
        GeneratedRequestId::XdgToplevelSetAppId => (InterfaceId::XdgToplevel, 3u16),
        GeneratedRequestId::XdgToplevelShowWindowMenu => (InterfaceId::XdgToplevel, 4u16),
        GeneratedRequestId::XdgToplevelMove => (InterfaceId::XdgToplevel, 5u16),
        GeneratedRequestId::XdgToplevelResize => (InterfaceId::XdgToplevel, 6u16),
        GeneratedRequestId::XdgToplevelSetMaxSize => (InterfaceId::XdgToplevel, 7u16),
        GeneratedRequestId::XdgToplevelSetMinSize => (InterfaceId::XdgToplevel, 8u16),
        GeneratedRequestId::XdgToplevelSetMaximized => (InterfaceId::XdgToplevel, 9u16),
        GeneratedRequestId::XdgToplevelUnsetMaximized => (InterfaceId::XdgToplevel, 10u16),
        GeneratedRequestId::XdgToplevelSetFullscreen => (InterfaceId::XdgToplevel, 11u16),
        GeneratedRequestId::XdgToplevelUnsetFullscreen => (InterfaceId::XdgToplevel, 12u16),
        GeneratedRequestId::XdgToplevelSetMinimized => (InterfaceId::XdgToplevel, 13u16),
        GeneratedRequestId::XdgPopupDestroy => (InterfaceId::XdgPopup, 0u16),
        GeneratedRequestId::XdgPopupGrab => (InterfaceId::XdgPopup, 1u16),
        GeneratedRequestId::XdgPopupReposition => (InterfaceId::XdgPopup, 2u16),
        GeneratedRequestId::ZwpLinuxDmabufV1Destroy => (InterfaceId::ZwpLinuxDmabufV1, 0u16),
        GeneratedRequestId::ZwpLinuxDmabufV1CreateParams => (InterfaceId::ZwpLinuxDmabufV1, 1u16),
        GeneratedRequestId::ZwpLinuxDmabufV1GetDefaultFeedback => (InterfaceId::ZwpLinuxDmabufV1, 2u16),
        GeneratedRequestId::ZwpLinuxDmabufV1GetSurfaceFeedback => (InterfaceId::ZwpLinuxDmabufV1, 3u16),
        GeneratedRequestId::ZwpLinuxBufferParamsV1Destroy => (InterfaceId::ZwpLinuxBufferParamsV1, 0u16),
        GeneratedRequestId::ZwpLinuxBufferParamsV1Add => (InterfaceId::ZwpLinuxBufferParamsV1, 1u16),
        GeneratedRequestId::ZwpLinuxBufferParamsV1Create => (InterfaceId::ZwpLinuxBufferParamsV1, 2u16),
        GeneratedRequestId::ZwpLinuxBufferParamsV1CreateImmed => (InterfaceId::ZwpLinuxBufferParamsV1, 3u16),
        GeneratedRequestId::ZwpLinuxDmabufFeedbackV1Destroy => (InterfaceId::ZwpLinuxDmabufFeedbackV1, 0u16),
        GeneratedRequestId::WpLinuxDrmSyncobjManagerV1Destroy => (InterfaceId::WpLinuxDrmSyncobjManagerV1, 0u16),
        GeneratedRequestId::WpLinuxDrmSyncobjManagerV1GetSurface => (InterfaceId::WpLinuxDrmSyncobjManagerV1, 1u16),
        GeneratedRequestId::WpLinuxDrmSyncobjManagerV1ImportTimeline => (InterfaceId::WpLinuxDrmSyncobjManagerV1, 2u16),
        GeneratedRequestId::WpLinuxDrmSyncobjTimelineV1Destroy => (InterfaceId::WpLinuxDrmSyncobjTimelineV1, 0u16),
        GeneratedRequestId::WpLinuxDrmSyncobjSurfaceV1Destroy => (InterfaceId::WpLinuxDrmSyncobjSurfaceV1, 0u16),
        GeneratedRequestId::WpLinuxDrmSyncobjSurfaceV1SetAcquirePoint => (InterfaceId::WpLinuxDrmSyncobjSurfaceV1, 1u16),
        GeneratedRequestId::WpLinuxDrmSyncobjSurfaceV1SetReleasePoint => (InterfaceId::WpLinuxDrmSyncobjSurfaceV1, 2u16),
        GeneratedRequestId::WpTearingControlManagerV1Destroy => (InterfaceId::WpTearingControlManagerV1, 0u16),
        GeneratedRequestId::WpTearingControlManagerV1GetTearingControl => (InterfaceId::WpTearingControlManagerV1, 1u16),
        GeneratedRequestId::WpTearingControlV1SetPresentationHint => (InterfaceId::WpTearingControlV1, 0u16),
        GeneratedRequestId::WpTearingControlV1Destroy => (InterfaceId::WpTearingControlV1, 1u16),
        GeneratedRequestId::WpPresentationDestroy => (InterfaceId::WpPresentation, 0u16),
        GeneratedRequestId::WpPresentationFeedback => (InterfaceId::WpPresentation, 1u16),
        GeneratedRequestId::WpColorManagerV1Destroy => (InterfaceId::WpColorManagerV1, 0u16),
        GeneratedRequestId::WpColorManagerV1GetOutput => (InterfaceId::WpColorManagerV1, 1u16),
        GeneratedRequestId::WpColorManagerV1GetSurface => (InterfaceId::WpColorManagerV1, 2u16),
        GeneratedRequestId::WpColorManagerV1GetSurfaceFeedback => (InterfaceId::WpColorManagerV1, 3u16),
        GeneratedRequestId::WpColorManagerV1CreateIccCreator => (InterfaceId::WpColorManagerV1, 4u16),
        GeneratedRequestId::WpColorManagerV1CreateParametricCreator => (InterfaceId::WpColorManagerV1, 5u16),
        GeneratedRequestId::WpColorManagerV1CreateWindowsScrgb => (InterfaceId::WpColorManagerV1, 6u16),
        GeneratedRequestId::WpColorManagerV1GetImageDescription => (InterfaceId::WpColorManagerV1, 7u16),
        GeneratedRequestId::WpColorManagerV1CreateWindowsBt2100 => (InterfaceId::WpColorManagerV1, 8u16),
        GeneratedRequestId::WpColorManagementOutputV1Destroy => (InterfaceId::WpColorManagementOutputV1, 0u16),
        GeneratedRequestId::WpColorManagementOutputV1GetImageDescription => (InterfaceId::WpColorManagementOutputV1, 1u16),
        GeneratedRequestId::WpColorManagementSurfaceV1Destroy => (InterfaceId::WpColorManagementSurfaceV1, 0u16),
        GeneratedRequestId::WpColorManagementSurfaceV1SetImageDescription => (InterfaceId::WpColorManagementSurfaceV1, 1u16),
        GeneratedRequestId::WpColorManagementSurfaceV1UnsetImageDescription => (InterfaceId::WpColorManagementSurfaceV1, 2u16),
        GeneratedRequestId::WpColorManagementSurfaceFeedbackV1Destroy => (InterfaceId::WpColorManagementSurfaceFeedbackV1, 0u16),
        GeneratedRequestId::WpColorManagementSurfaceFeedbackV1GetPreferred => (InterfaceId::WpColorManagementSurfaceFeedbackV1, 1u16),
        GeneratedRequestId::WpColorManagementSurfaceFeedbackV1GetPreferredParametric => (InterfaceId::WpColorManagementSurfaceFeedbackV1, 2u16),
        GeneratedRequestId::WpImageDescriptionCreatorIccV1Create => (InterfaceId::WpImageDescriptionCreatorIccV1, 0u16),
        GeneratedRequestId::WpImageDescriptionCreatorIccV1SetIccFile => (InterfaceId::WpImageDescriptionCreatorIccV1, 1u16),
        GeneratedRequestId::WpImageDescriptionCreatorParamsV1Create => (InterfaceId::WpImageDescriptionCreatorParamsV1, 0u16),
        GeneratedRequestId::WpImageDescriptionCreatorParamsV1SetTfNamed => (InterfaceId::WpImageDescriptionCreatorParamsV1, 1u16),
        GeneratedRequestId::WpImageDescriptionCreatorParamsV1SetTfPower => (InterfaceId::WpImageDescriptionCreatorParamsV1, 2u16),
        GeneratedRequestId::WpImageDescriptionCreatorParamsV1SetPrimariesNamed => (InterfaceId::WpImageDescriptionCreatorParamsV1, 3u16),
        GeneratedRequestId::WpImageDescriptionCreatorParamsV1SetPrimaries => (InterfaceId::WpImageDescriptionCreatorParamsV1, 4u16),
        GeneratedRequestId::WpImageDescriptionCreatorParamsV1SetLuminances => (InterfaceId::WpImageDescriptionCreatorParamsV1, 5u16),
        GeneratedRequestId::WpImageDescriptionCreatorParamsV1SetMasteringDisplayPrimaries => (InterfaceId::WpImageDescriptionCreatorParamsV1, 6u16),
        GeneratedRequestId::WpImageDescriptionCreatorParamsV1SetMasteringLuminance => (InterfaceId::WpImageDescriptionCreatorParamsV1, 7u16),
        GeneratedRequestId::WpImageDescriptionCreatorParamsV1SetMaxCll => (InterfaceId::WpImageDescriptionCreatorParamsV1, 8u16),
        GeneratedRequestId::WpImageDescriptionCreatorParamsV1SetMaxFall => (InterfaceId::WpImageDescriptionCreatorParamsV1, 9u16),
        GeneratedRequestId::WpImageDescriptionV1Destroy => (InterfaceId::WpImageDescriptionV1, 0u16),
        GeneratedRequestId::WpImageDescriptionV1GetInformation => (InterfaceId::WpImageDescriptionV1, 1u16),
        GeneratedRequestId::WpImageDescriptionReferenceV1Destroy => (InterfaceId::WpImageDescriptionReferenceV1, 0u16),
        GeneratedRequestId::WpFifoManagerV1Destroy => (InterfaceId::WpFifoManagerV1, 0u16),
        GeneratedRequestId::WpFifoManagerV1GetFifo => (InterfaceId::WpFifoManagerV1, 1u16),
        GeneratedRequestId::WpFifoV1SetBarrier => (InterfaceId::WpFifoV1, 0u16),
        GeneratedRequestId::WpFifoV1WaitBarrier => (InterfaceId::WpFifoV1, 1u16),
        GeneratedRequestId::WpFifoV1Destroy => (InterfaceId::WpFifoV1, 2u16),
        GeneratedRequestId::WpFractionalScaleManagerV1Destroy => (InterfaceId::WpFractionalScaleManagerV1, 0u16),
        GeneratedRequestId::WpFractionalScaleManagerV1GetFractionalScale => (InterfaceId::WpFractionalScaleManagerV1, 1u16),
        GeneratedRequestId::WpFractionalScaleV1Destroy => (InterfaceId::WpFractionalScaleV1, 0u16),
        GeneratedRequestId::WpViewporterDestroy => (InterfaceId::WpViewporter, 0u16),
        GeneratedRequestId::WpViewporterGetViewport => (InterfaceId::WpViewporter, 1u16),
        GeneratedRequestId::WpViewportDestroy => (InterfaceId::WpViewport, 0u16),
        GeneratedRequestId::WpViewportSetSource => (InterfaceId::WpViewport, 1u16),
        GeneratedRequestId::WpViewportSetDestination => (InterfaceId::WpViewport, 2u16),
    }
}

/// Looks up where a request stands.
pub fn request_position(id: GeneratedRequestId) -> (place: (InterfaceId, u16))
    ensures
        place == request_place(id),
{
    match id {
        GeneratedRequestId::WlDisplaySync => (InterfaceId::WlDisplay, 0u16),
        GeneratedRequestId::WlDisplayGetRegistry => (InterfaceId::WlDisplay, 1u16),
        GeneratedRequestId::WlRegistryBind => (InterfaceId::WlRegistry, 0u16),
        GeneratedRequestId::WlCompositorCreateSurface => (InterfaceId::WlCompositor, 0u16),
        GeneratedRequestId::WlCompositorCreateRegion => (InterfaceId::WlCompositor, 1u16),
        GeneratedRequestId::WlCompositorRelease => (InterfaceId::WlCompositor, 2u16),
        GeneratedRequestId::WlBufferDestroy => (InterfaceId::WlBuffer, 0u16),
        GeneratedRequestId::WlDataOfferAccept => (InterfaceId::WlDataOffer, 0u16),
        GeneratedRequestId::WlDataOfferReceive => (InterfaceId::WlDataOffer, 1u16),
        GeneratedRequestId::WlDataOfferDestroy => (InterfaceId::WlDataOffer, 2u16),
        GeneratedRequestId::WlDataOfferFinish => (InterfaceId::WlDataOffer, 3u16),
        GeneratedRequestId::WlDataOfferSetActions => (InterfaceId::WlDataOffer, 4u16),
        GeneratedRequestId::WlDataSourceOffer => (InterfaceId::WlDataSource, 0u16),
        GeneratedRequestId::WlDataSourceDestroy => (InterfaceId::WlDataSource, 1u16),
        GeneratedRequestId::WlDataSourceSetActions => (InterfaceId::WlDataSource, 2u16),
        GeneratedRequestId::WlDataDeviceStartDrag => (InterfaceId::WlDataDevice, 0u16),
        GeneratedRequestId::WlDataDeviceSetSelection => (InterfaceId::WlDataDevice, 1u16),
        GeneratedRequestId::WlDataDeviceRelease => (InterfaceId::WlDataDevice, 2u16),
        GeneratedRequestId::WlDataDeviceManagerCreateDataSource => (InterfaceId::WlDataDeviceManager, 0u16),
        GeneratedRequestId::WlDataDeviceManagerGetDataDevice => (InterfaceId::WlDataDeviceManager, 1u16),
        GeneratedRequestId::WlShellGetShellSurface => (InterfaceId::WlShell, 0u16),
        GeneratedRequestId::WlShellSurfacePong => (InterfaceId::WlShellSurface, 0u16),
        GeneratedRequestId::WlShellSurfaceMove => (InterfaceId::WlShellSurface, 1u16),
        GeneratedRequestId::WlShellSurfaceResize => (InterfaceId::WlShellSurface, 2u16),
        GeneratedRequestId::WlShellSurfaceSetToplevel => (InterfaceId::WlShellSurface, 3u16),
        GeneratedRequestId::WlShellSurfaceSetTransient => (InterfaceId::WlShellSurface, 4u16),
        GeneratedRequestId::WlShellSurfaceSetFullscreen => (InterfaceId::WlShellSurface, 5u16),
        GeneratedRequestId::WlShellSurfaceSetPopup => (InterfaceId::WlShellSurface, 6u16),
        GeneratedRequestId::WlShellSurfaceSetMaximized => (InterfaceId::WlShellSurface, 7u16),
        GeneratedRequestId::WlShellSurfaceSetTitle => (InterfaceId::WlShellSurface, 8u16),
        GeneratedRequestId::WlShellSurfaceSetClass => (InterfaceId::WlShellSurface, 9u16),
        GeneratedRequestId::WlSurfaceDestroy => (InterfaceId::WlSurface, 0u16),
        GeneratedRequestId::WlSurfaceAttach => (InterfaceId::WlSurface, 1u16),
        GeneratedRequestId::WlSurfaceDamage => (InterfaceId::WlSurface, 2u16),
        GeneratedRequestId::WlSurfaceFrame => (InterfaceId::WlSurface, 3u16),
        GeneratedRequestId::WlSurfaceSetOpaqueRegion => (InterfaceId::WlSurface, 4u16),
        GeneratedRequestId::WlSurfaceSetInputRegion => (InterfaceId::WlSurface, 5u16),
        GeneratedRequestId::WlSurfaceCommit => (InterfaceId::WlSurface, 6u16),
        GeneratedRequestId::WlSurfaceSetBufferTransform => (InterfaceId::WlSurface, 7u16),
        GeneratedRequestId::WlSurfaceSetBufferScale => (InterfaceId::WlSurface, 8u16),
        GeneratedRequestId::WlSurfaceDamageBuffer => (InterfaceId::WlSurface, 9u16),
        GeneratedRequestId::WlSurfaceOffset => (InterfaceId::WlSurface, 10u16),
        GeneratedRequestId::WlSurfaceGetRelease => (InterfaceId::WlSurface, 11u16),
        GeneratedRequestId::WlSeatGetPointer => (InterfaceId::WlSeat, 0u16),
        GeneratedRequestId::WlSeatGetKeyboard => (InterfaceId::WlSeat, 1u16),
        GeneratedRequestId::WlSeatGetTouch => (InterfaceId::WlSeat, 2u16),
        GeneratedRequestId::WlSeatRelease => (InterfaceId::WlSeat, 3u16),
        GeneratedRequestId::WlPointerSetCursor => (InterfaceId::WlPointer, 0u16),
        GeneratedRequestId::WlPointerRelease => (InterfaceId::WlPointer, 1u16),
        GeneratedRequestId::WlKeyboardRelease => (InterfaceId::WlKeyboard, 0u16),
        GeneratedRequestId::WlTouchRelease => (InterfaceId::WlTouch, 0u16),
        GeneratedRequestId::WlOutputRelease => (InterfaceId::WlOutput, 0u16),
        GeneratedRequestId::WlRegionDestroy => (InterfaceId::WlRegion, 0u16),
        GeneratedRequestId::WlRegionAdd => (InterfaceId::WlRegion, 1u16),
        GeneratedRequestId::WlRegionSubtract => (InterfaceId::WlRegion, 2u16),
        GeneratedRequestId::WlSubcompositorDestroy => (InterfaceId::WlSubcompositor, 0u16),
        GeneratedRequestId::WlSubcompositorGetSubsurface => (InterfaceId::WlSubcompositor, 1u16),
        GeneratedRequestId::WlSubsurfaceDestroy => (InterfaceId::WlSubsurface, 0u16),
        GeneratedRequestId::WlSubsurfaceSetPosition => (InterfaceId::WlSubsurface, 1u16),
        GeneratedRequestId::WlSubsurfacePlaceAbove => (InterfaceId::WlSubsurface, 2u16),
        GeneratedRequestId::WlSubsurfacePlaceBelow => (InterfaceId::WlSubsurface, 3u16),
        GeneratedRequestId::WlSubsurfaceSetSync => (InterfaceId::WlSubsurface, 4u16),
        GeneratedRequestId::WlSubsurfaceSetDesync => (InterfaceId::WlSubsurface, 5u16),
        GeneratedRequestId::WlFixesDestroy => (InterfaceId::WlFixes, 0u16),
        GeneratedRequestId::WlFixesDestroyRegistry => (InterfaceId::WlFixes, 1u16),
        GeneratedRequestId::XdgWmBaseDestroy => (InterfaceId::XdgWmBase, 0u16),
        GeneratedRequestId::XdgWmBaseCreatePositioner => (InterfaceId::XdgWmBase, 1u16),
        GeneratedRequestId::XdgWmBaseGetXdgSurface => (InterfaceId::XdgWmBase, 2u16),
        GeneratedRequestId::XdgWmBasePong => (InterfaceId::XdgWmBase, 3u16),
        GeneratedRequestId::XdgPositionerDestroy => (InterfaceId::XdgPositioner, 0u16),
        GeneratedRequestId::XdgPositionerSetSize => (InterfaceId::XdgPositioner, 1u16),
        GeneratedRequestId::XdgPositionerSetAnchorRect => (InterfaceId::XdgPositioner, 2u16),
        GeneratedRequestId::XdgPositionerSetAnchor => (InterfaceId::XdgPositioner, 3u16),
        GeneratedRequestId::XdgPositionerSetGravity => (InterfaceId::XdgPositioner, 4u16),
        GeneratedRequestId::XdgPositionerSetConstraintAdjustment => (InterfaceId::XdgPositioner, 5u16),
        GeneratedRequestId::XdgPositionerSetOffset => (InterfaceId::XdgPositioner, 6u16),
        GeneratedRequestId::XdgPositionerSetReactive => (InterfaceId::XdgPositioner, 7u16),
        GeneratedRequestId::XdgPositionerSetParentSize => (InterfaceId::XdgPositioner, 8u16),
        GeneratedRequestId::XdgPositionerSetParentConfigure => (InterfaceId::XdgPositioner, 9u16),
        GeneratedRequestId::XdgSurfaceDestroy => (InterfaceId::XdgSurface, 0u16),
        GeneratedRequestId::XdgSurfaceGetToplevel => (InterfaceId::XdgSurface, 1u16),
        GeneratedRequestId::XdgSurfaceGetPopup => (InterfaceId::XdgSurface, 2u16),
        GeneratedRequestId::XdgSurfaceSetWindowGeometry => (InterfaceId::XdgSurface, 3u16),
        GeneratedRequestId::XdgSurfaceAckConfigure => (InterfaceId::XdgSurface, 4u16),
        GeneratedRequestId::XdgToplevelDestroy => (InterfaceId::XdgToplevel, 0u16),
        GeneratedRequestId::XdgToplevelSetParent => (InterfaceId::XdgToplevel, 1u16),
        GeneratedRequestId::XdgToplevelSetTitle => (InterfaceId::XdgToplevel, 2u16),
        GeneratedRequestId::XdgToplevelSetAppId => (InterfaceId::XdgToplevel, 3u16),
        GeneratedRequestId::XdgToplevelShowWindowMenu => (InterfaceId::XdgToplevel, 4u16),
        GeneratedRequestId::XdgToplevelMove => (InterfaceId::XdgToplevel, 5u16),
        GeneratedRequestId::XdgToplevelResize => (InterfaceId::XdgToplevel, 6u16),
        GeneratedRequestId::XdgToplevelSetMaxSize => (InterfaceId::XdgToplevel, 7u16),
        GeneratedRequestId::XdgToplevelSetMinSize => (InterfaceId::XdgToplevel, 8u16),
        GeneratedRequestId::XdgToplevelSetMaximized => (InterfaceId::XdgToplevel, 9u16),
        GeneratedRequestId::XdgToplevelUnsetMaximized => (InterfaceId::XdgToplevel, 10u16),
        GeneratedRequestId::XdgToplevelSetFullscreen => (InterfaceId::XdgToplevel, 11u16),
        GeneratedRequestId::XdgToplevelUnsetFullscreen => (InterfaceId::XdgToplevel, 12u16),
        GeneratedRequestId::XdgToplevelSetMinimized => (InterfaceId::XdgToplevel, 13u16),
        GeneratedRequestId::XdgPopupDestroy => (InterfaceId::XdgPopup, 0u16),
        GeneratedRequestId::XdgPopupGrab => (InterfaceId::XdgPopup, 1u16),
        GeneratedRequestId::XdgPopupReposition => (InterfaceId::XdgPopup, 2u16),
        GeneratedRequestId::ZwpLinuxDmabufV1Destroy => (InterfaceId::ZwpLinuxDmabufV1, 0u16),
        GeneratedRequestId::ZwpLinuxDmabufV1CreateParams => (InterfaceId::ZwpLinuxDmabufV1, 1u16),
        GeneratedRequestId::ZwpLinuxDmabufV1GetDefaultFeedback => (InterfaceId::ZwpLinuxDmabufV1, 2u16),
        GeneratedRequestId::ZwpLinuxDmabufV1GetSurfaceFeedback => (InterfaceId::ZwpLinuxDmabufV1, 3u16),
        GeneratedRequestId::ZwpLinuxBufferParamsV1Destroy => (InterfaceId::ZwpLinuxBufferParamsV1, 0u16),
        GeneratedRequestId::ZwpLinuxBufferParamsV1Add => (InterfaceId::ZwpLinuxBufferParamsV1, 1u16),
        GeneratedRequestId::ZwpLinuxBufferParamsV1Create => (InterfaceId::ZwpLinuxBufferParamsV1, 2u16),
        GeneratedRequestId::ZwpLinuxBufferParamsV1CreateImmed => (InterfaceId::ZwpLinuxBufferParamsV1, 3u16),
        GeneratedRequestId::ZwpLinuxDmabufFeedbackV1Destroy => (InterfaceId::ZwpLinuxDmabufFeedbackV1, 0u16),
        GeneratedRequestId::WpLinuxDrmSyncobjManagerV1Destroy => (InterfaceId::WpLinuxDrmSyncobjManagerV1, 0u16),
        GeneratedRequestId::WpLinuxDrmSyncobjManagerV1GetSurface => (InterfaceId::WpLinuxDrmSyncobjManagerV1, 1u16),
        GeneratedRequestId::WpLinuxDrmSyncobjManagerV1ImportTimeline => (InterfaceId::WpLinuxDrmSyncobjManagerV1, 2u16),
        GeneratedRequestId::WpLinuxDrmSyncobjTimelineV1Destroy => (InterfaceId::WpLinuxDrmSyncobjTimelineV1, 0u16),
        GeneratedRequestId::WpLinuxDrmSyncobjSurfaceV1Destroy => (InterfaceId::WpLinuxDrmSyncobjSurfaceV1, 0u16),
        GeneratedRequestId::WpLinuxDrmSyncobjSurfaceV1SetAcquirePoint => (InterfaceId::WpLinuxDrmSyncobjSurfaceV1, 1u16),
        GeneratedRequestId::WpLinuxDrmSyncobjSurfaceV1SetReleasePoint => (InterfaceId::WpLinuxDrmSyncobjSurfaceV1, 2u16),
        GeneratedRequestId::WpTearingControlManagerV1Destroy => (InterfaceId::WpTearingControlManagerV1, 0u16),
        GeneratedRequestId::WpTearingControlManagerV1GetTearingControl => (InterfaceId::WpTearingControlManagerV1, 1u16),
        GeneratedRequestId::WpTearingControlV1SetPresentationHint => (InterfaceId::WpTearingControlV1, 0u16),
        GeneratedRequestId::WpTearingControlV1Destroy => (InterfaceId::WpTearingControlV1, 1u16),
        GeneratedRequestId::WpPresentationDestroy => (InterfaceId::WpPresentation, 0u16),
        GeneratedRequestId::WpPresentationFeedback => (InterfaceId::WpPresentation, 1u16),
        GeneratedRequestId::WpColorManagerV1Destroy => (InterfaceId::WpColorManagerV1, 0u16),
        GeneratedRequestId::WpColorManagerV1GetOutput => (InterfaceId::WpColorManagerV1, 1u16),
        GeneratedRequestId::WpColorManagerV1GetSurface => (InterfaceId::WpColorManagerV1, 2u16),
        GeneratedRequestId::WpColorManagerV1GetSurfaceFeedback => (InterfaceId::WpColorManagerV1, 3u16),
        GeneratedRequestId::WpColorManagerV1CreateIccCreator => (InterfaceId::WpColorManagerV1, 4u16),
        GeneratedRequestId::WpColorManagerV1CreateParametricCreator => (InterfaceId::WpColorManagerV1, 5u16),
        GeneratedRequestId::WpColorManagerV1CreateWindowsScrgb => (InterfaceId::WpColorManagerV1, 6u16),
        GeneratedRequestId::WpColorManagerV1GetImageDescription => (InterfaceId::WpColorManagerV1, 7u16),
        GeneratedRequestId::WpColorManagerV1CreateWindowsBt2100 => (InterfaceId::WpColorManagerV1, 8u16),
        GeneratedRequestId::WpColorManagementOutputV1Destroy => (InterfaceId::WpColorManagementOutputV1, 0u16),
        GeneratedRequestId::WpColorManagementOutputV1GetImageDescription => (InterfaceId::WpColorManagementOutputV1, 1u16),
        GeneratedRequestId::WpColorManagementSurfaceV1Destroy => (InterfaceId::WpColorManagementSurfaceV1, 0u16),
        GeneratedRequestId::WpColorManagementSurfaceV1SetImageDescription => (InterfaceId::WpColorManagementSurfaceV1, 1u16),
        GeneratedRequestId::WpColorManagementSurfaceV1UnsetImageDescription => (InterfaceId::WpColorManagementSurfaceV1, 2u16),
        GeneratedRequestId::WpColorManagementSurfaceFeedbackV1Destroy => (InterfaceId::WpColorManagementSurfaceFeedbackV1, 0u16),
        GeneratedRequestId::WpColorManagementSurfaceFeedbackV1GetPreferred => (InterfaceId::WpColorManagementSurfaceFeedbackV1, 1u16),
        GeneratedRequestId::WpColorManagementSurfaceFeedbackV1GetPreferredParametric => (InterfaceId::WpColorManagementSurfaceFeedbackV1, 2u16),
        GeneratedRequestId::WpImageDescriptionCreatorIccV1Create => (InterfaceId::WpImageDescriptionCreatorIccV1, 0u16),
        GeneratedRequestId::WpImageDescriptionCreatorIccV1SetIccFile => (InterfaceId::WpImageDescriptionCreatorIccV1, 1u16),
        GeneratedRequestId::WpImageDescriptionCreatorParamsV1Create => (InterfaceId::WpImageDescriptionCreatorParamsV1, 0u16),
        GeneratedRequestId::WpImageDescriptionCreatorParamsV1SetTfNamed => (InterfaceId::WpImageDescriptionCreatorParamsV1, 1u16),
        GeneratedRequestId::WpImageDescriptionCreatorParamsV1SetTfPower => (InterfaceId::WpImageDescriptionCreatorParamsV1, 2u16),
        GeneratedRequestId::WpImageDescriptionCreatorParamsV1SetPrimariesNamed => (InterfaceId::WpImageDescriptionCreatorParamsV1, 3u16),
        GeneratedRequestId::WpImageDescriptionCreatorParamsV1SetPrimaries => (InterfaceId::WpImageDescriptionCreatorParamsV1, 4u16),
        GeneratedRequestId::WpImageDescriptionCreatorParamsV1SetLuminances => (InterfaceId::WpImageDescriptionCreatorParamsV1, 5u16),
        GeneratedRequestId::WpImageDescriptionCreatorParamsV1SetMasteringDisplayPrimaries => (InterfaceId::WpImageDescriptionCreatorParamsV1, 6u16),
        GeneratedRequestId::WpImageDescriptionCreatorParamsV1SetMasteringLuminance => (InterfaceId::WpImageDescriptionCreatorParamsV1, 7u16),
        GeneratedRequestId::WpImageDescriptionCreatorParamsV1SetMaxCll => (InterfaceId::WpImageDescriptionCreatorParamsV1, 8u16),
        GeneratedRequestId::WpImageDescriptionCreatorParamsV1SetMaxFall => (InterfaceId::WpImageDescriptionCreatorParamsV1, 9u16),
        GeneratedRequestId::WpImageDescriptionV1Destroy => (InterfaceId::WpImageDescriptionV1, 0u16),
        GeneratedRequestId::WpImageDescriptionV1GetInformation => (InterfaceId::WpImageDescriptionV1, 1u16),
        GeneratedRequestId::WpImageDescriptionReferenceV1Destroy => (InterfaceId::WpImageDescriptionReferenceV1, 0u16),
        GeneratedRequestId::WpFifoManagerV1Destroy => (InterfaceId::WpFifoManagerV1, 0u16),
        GeneratedRequestId::WpFifoManagerV1GetFifo => (InterfaceId::WpFifoManagerV1, 1u16),
        GeneratedRequestId::WpFifoV1SetBarrier => (InterfaceId::WpFifoV1, 0u16),
        GeneratedRequestId::WpFifoV1WaitBarrier => (InterfaceId::WpFifoV1, 1u16),
        GeneratedRequestId::WpFifoV1Destroy => (InterfaceId::WpFifoV1, 2u16),
        GeneratedRequestId::WpFractionalScaleManagerV1Destroy => (InterfaceId::WpFractionalScaleManagerV1, 0u16),
        GeneratedRequestId::WpFractionalScaleManagerV1GetFractionalScale => (InterfaceId::WpFractionalScaleManagerV1, 1u16),
        GeneratedRequestId::WpFractionalScaleV1Destroy => (InterfaceId::WpFractionalScaleV1, 0u16),
        GeneratedRequestId::WpViewporterDestroy => (InterfaceId::WpViewporter, 0u16),
        GeneratedRequestId::WpViewporterGetViewport => (InterfaceId::WpViewporter, 1u16),
        GeneratedRequestId::WpViewportDestroy => (InterfaceId::WpViewport, 0u16),
        GeneratedRequestId::WpViewportSetSource => (InterfaceId::WpViewport, 1u16),
        GeneratedRequestId::WpViewportSetDestination => (InterfaceId::WpViewport, 2u16),
    }
}


/// The requests of `wl_display`.
pub open spec fn wl_display_requests(opcode: u16) -> Option<MessageView> {
    match opcode {
        0 => listed("sync", seq![new_id_arg("callback", "wl_callback")]),
        1 => listed("get_registry", seq![new_id_arg("registry", "wl_registry")]),
        _ => None,
    }
}

fn wl_display_request(opcode: u16) -> (found: Option<GeneratedMessageSpec>)
    ensures
        optional_message(found) == wl_display_requests(opcode),
{
    match opcode {
        0 => message("sync", vec![new_id_arg("callback", "wl_callback")]),
        1 => message("get_registry", vec![new_id_arg("registry", "wl_registry")]),
        _ => None,
    }
}

/// The requests of `wl_registry`.
pub open spec fn wl_registry_requests(opcode: u16) -> Option<MessageView> {
    match opcode {
        0 => listed(
            "bind",
            seq![
                uint_arg("name"), string_arg("id_interface"), uint_arg("id_version"),
                any_new_id_arg("id"),
            ],
        ),
        _ => None,
    }
}

fn wl_registry_request(opcode: u16) -> (found: Option<GeneratedMessageSpec>)
    ensures
        optional_message(found) == wl_registry_requests(opcode),
{
    match opcode {
        0 => message(
            "bind",
            vec![
                uint_arg("name"), string_arg("id_interface"), uint_arg("id_version"),
                any_new_id_arg("id"),
            ],
        ),
        _ => None,
    }
}

/// The requests of `wl_compositor`.
pub open spec fn wl_compositor_requests(opcode: u16) -> Option<MessageView> {
    match opcode {
        0 => listed("create_surface", seq![new_id_arg("id", "wl_surface")]),
        1 => listed("create_region", seq![new_id_arg("id", "wl_region")]),
        2 => listed("release", seq![]),
        _ => None,
    }
}

fn wl_compositor_request(opcode: u16) -> (found: Option<GeneratedMessageSpec>)
    ensures
        optional_message(found) == wl_compositor_requests(opcode),
{
    match opcode {
        0 => message("create_surface", vec![new_id_arg("id", "wl_surface")]),
        1 => message("create_region", vec![new_id_arg("id", "wl_region")]),
        2 => message("release", vec![]),
        _ => None,
    }
}

/// The requests of `wl_buffer`.
pub open spec fn wl_buffer_requests(opcode: u16) -> Option<MessageView> {
    match opcode {
        0 => listed("destroy", seq![]),
        _ => None,
    }
}

fn wl_buffer_request(opcode: u16) -> (found: Option<GeneratedMessageSpec>)
    ensures
        optional_message(found) == wl_buffer_requests(opcode),
{
    match opcode {
        0 => message("destroy", vec![]),
        _ => None,
    }
}

/// The requests of `wl_data_offer`.
pub open spec fn wl_data_offer_requests(opcode: u16) -> Option<MessageView> {
    match opcode {
        0 => listed("accept", seq![uint_arg("serial"), string_arg("mime_type")]),
        1 => listed("receive", seq![string_arg("mime_type"), fd_arg("fd")]),
        2 => listed("destroy", seq![]),
        3 => listed("finish", seq![]),
        4 => listed("set_actions", seq![uint_arg("dnd_actions"), uint_arg("preferred_action")]),
        _ => None,
    }
}

fn wl_data_offer_request(opcode: u16) -> (found: Option<GeneratedMessageSpec>)
    ensures
        optional_message(found) == wl_data_offer_requests(opcode),
{
    match opcode {
        0 => message("accept", vec![uint_arg("serial"), string_arg("mime_type")]),
        1 => message("receive", vec![string_arg("mime_type"), fd_arg("fd")]),
        2 => message("destroy", vec![]),
        3 => message("finish", vec![]),
        4 => message("set_actions", vec![uint_arg("dnd_actions"), uint_arg("preferred_action")]),
        _ => None,
    }
}

/// The requests of `wl_data_source`.
pub open spec fn wl_data_source_requests(opcode: u16) -> Option<MessageView> {
    match opcode {
        0 => listed("offer", seq![string_arg("mime_type")]),
        1 => listed("destroy", seq![]),
        2 => listed("set_actions", seq![uint_arg("dnd_actions")]),
        _ => None,
    }
}

fn wl_data_source_request(opcode: u16) -> (found: Option<GeneratedMessageSpec>)
    ensures
        optional_message(found) == wl_data_source_requests(opcode),
{
    match opcode {
        0 => message("offer", vec![string_arg("mime_type")]),
        1 => message("destroy", vec![]),
        2 => message("set_actions", vec![uint_arg("dnd_actions")]),
        _ => None,
    }
}

/// The requests of `wl_data_device`.
pub open spec fn wl_data_device_requests(opcode: u16) -> Option<MessageView> {
    match opcode {
        0 => listed(
            "start_drag",
            seq![
                object_arg("source", "wl_data_source"), object_arg("origin", "wl_surface"),
                object_arg("icon", "wl_surface"), uint_arg("serial"),
            ],
        ),
        1 => listed(
            "set_selection",
            seq![
                object_arg("source", "wl_data_source"), uint_arg("serial"),
            ],
        ),
        2 => listed("release", seq![]),
        _ => None,
    }
}

fn wl_data_device_request(opcode: u16) -> (found: Option<GeneratedMessageSpec>)
    ensures
        optional_message(found) == wl_data_device_requests(opcode),
{
    match opcode {
        0 => message(
            "start_drag",
            vec![
                object_arg("source", "wl_data_source"), object_arg("origin", "wl_surface"),
                object_arg("icon", "wl_surface"), uint_arg("serial"),
            ],
        ),
        1 => message(
            "set_selection",
            vec![
                object_arg("source", "wl_data_source"), uint_arg("serial"),
            ],
        ),
        2 => message("release", vec![]),
        _ => None,
    }
}

/// The requests of `wl_data_device_manager`.
pub open spec fn wl_data_device_manager_requests(opcode: u16) -> Option<MessageView> {
    match opcode {
        0 => listed("create_data_source", seq![new_id_arg("id", "wl_data_source")]),
        1 => listed(
            "get_data_device",
            seq![
                new_id_arg("id", "wl_data_device"), object_arg("seat", "wl_seat"),
            ],
        ),
        _ => None,
    }
}

fn wl_data_device_manager_request(opcode: u16) -> (found: Option<GeneratedMessageSpec>)
    ensures
        optional_message(found) == wl_data_device_manager_requests(opcode),
{
    match opcode {
        0 => message("create_data_source", vec![new_id_arg("id", "wl_data_source")]),
        1 => message(
            "get_data_device",
            vec![
                new_id_arg("id", "wl_data_device"), object_arg("seat", "wl_seat"),
            ],
        ),
        _ => None,
    }
}

/// The requests of `wl_shell`.
pub open spec fn wl_shell_requests(opcode: u16) -> Option<MessageView> {
    match opcode {
        0 => listed(
            "get_shell_surface",
            seq![
                new_id_arg("id", "wl_shell_surface"), object_arg("surface", "wl_surface"),
            ],
        ),
        _ => None,
    }
}

fn wl_shell_request(opcode: u16) -> (found: Option<GeneratedMessageSpec>)
    ensures
        optional_message(found) == wl_shell_requests(opcode),
{
    match opcode {
        0 => message(
            "get_shell_surface",
            vec![
                new_id_arg("id", "wl_shell_surface"), object_arg("surface", "wl_surface"),
            ],
        ),
        _ => None,
    }
}

/// The requests of `wl_shell_surface`.
pub open spec fn wl_shell_surface_requests(opcode: u16) -> Option<MessageView> {
    match opcode {
        0 => listed("pong", seq![uint_arg("serial")]),
        1 => listed("move", seq![object_arg("seat", "wl_seat"), uint_arg("serial")]),
        2 => listed(
            "resize",
            seq![
                object_arg("seat", "wl_seat"), uint_arg("serial"), uint_arg("edges"),
            ],
        ),
        3 => listed("set_toplevel", seq![]),
        4 => listed(
            "set_transient",
            seq![
                object_arg("parent", "wl_surface"), int_arg("x"), int_arg("y"), uint_arg("flags"),
            ],
        ),
        5 => listed(
            "set_fullscreen",
            seq![
                uint_arg("method"), uint_arg("framerate"), object_arg("output", "wl_output"),
            ],
        ),
        6 => listed(
            "set_popup",
            seq![
                object_arg("seat", "wl_seat"), uint_arg("serial"),
                object_arg("parent", "wl_surface"), int_arg("x"), int_arg("y"), uint_arg("flags"),
            ],
        ),
        7 => listed("set_maximized", seq![object_arg("output", "wl_output")]),
        8 => listed("set_title", seq![string_arg("title")]),
        9 => listed("set_class", seq![string_arg("class_")]),
        _ => None,
    }
}

fn wl_shell_surface_request(opcode: u16) -> (found: Option<GeneratedMessageSpec>)
    ensures
        optional_message(found) == wl_shell_surface_requests(opcode),
{
    match opcode {
        0 => message("pong", vec![uint_arg("serial")]),
        1 => message("move", vec![object_arg("seat", "wl_seat"), uint_arg("serial")]),
        2 => message(
            "resize",
            vec![
                object_arg("seat", "wl_seat"), uint_arg("serial"), uint_arg("edges"),
            ],
        ),
        3 => message("set_toplevel", vec![]),
        4 => message(
            "set_transient",
            vec![
                object_arg("parent", "wl_surface"), int_arg("x"), int_arg("y"), uint_arg("flags"),
            ],
        ),
        5 => message(
            "set_fullscreen",
            vec![
                uint_arg("method"), uint_arg("framerate"), object_arg("output", "wl_output"),
            ],
        ),
        6 => message(
            "set_popup",
            vec![
                object_arg("seat", "wl_seat"), uint_arg("serial"),
                object_arg("parent", "wl_surface"), int_arg("x"), int_arg("y"), uint_arg("flags"),
            ],
        ),
        7 => message("set_maximized", vec![object_arg("output", "wl_output")]),
        8 => message("set_title", vec![string_arg("title")]),
        9 => message("set_class", vec![string_arg("class_")]),
        _ => None,
    }
}

/// The requests of `wl_surface`.
pub open spec fn wl_surface_requests(opcode: u16) -> Option<MessageView> {
    match opcode {
        0 => listed("destroy", seq![]),
        1 => listed("attach", seq![object_arg("buffer", "wl_buffer"), int_arg("x"), int_arg("y")]),
        2 => listed(
            "damage",
            seq![
                int_arg("x"), int_arg("y"), int_arg("width"), int_arg("height"),
            ],
        ),
        3 => listed("frame", seq![new_id_arg("callback", "wl_callback")]),
        4 => listed("set_opaque_region", seq![object_arg("region", "wl_region")]),
        5 => listed("set_input_region", seq![object_arg("region", "wl_region")]),
        6 => listed("commit", seq![]),
        7 => listed("set_buffer_transform", seq![int_arg("transform")]),
        8 => listed("set_buffer_scale", seq![int_arg("scale")]),
        9 => listed(
            "damage_buffer",
            seq![
                int_arg("x"), int_arg("y"), int_arg("width"), int_arg("height"),
            ],
        ),
        10 => listed("offset", seq![int_arg("x"), int_arg("y")]),
        11 => listed("get_release", seq![new_id_arg("callback", "wl_callback")]),
        _ => None,
    }
}

fn wl_surface_request(opcode: u16) -> (found: Option<GeneratedMessageSpec>)
    ensures
        optional_message(found) == wl_surface_requests(opcode),
{
    match opcode {
        0 => message("destroy", vec![]),
        1 => message("attach", vec![object_arg("buffer", "wl_buffer"), int_arg("x"), int_arg("y")]),
        2 => message(
            "damage",
            vec![
                int_arg("x"), int_arg("y"), int_arg("width"), int_arg("height"),
            ],
        ),
        3 => message("frame", vec![new_id_arg("callback", "wl_callback")]),
        4 => message("set_opaque_region", vec![object_arg("region", "wl_region")]),
        5 => message("set_input_region", vec![object_arg("region", "wl_region")]),
        6 => message("commit", vec![]),
        7 => message("set_buffer_transform", vec![int_arg("transform")]),
        8 => message("set_buffer_scale", vec![int_arg("scale")]),
        9 => message(
            "damage_buffer",
            vec![
                int_arg("x"), int_arg("y"), int_arg("width"), int_arg("height"),
            ],
        ),
        10 => message("offset", vec![int_arg("x"), int_arg("y")]),
        11 => message("get_release", vec![new_id_arg("callback", "wl_callback")]),
        _ => None,
    }
}

/// The requests of `wl_seat`.
pub open spec fn wl_seat_requests(opcode: u16) -> Option<MessageView> {
    match opcode {
        0 => listed("get_pointer", seq![new_id_arg("id", "wl_pointer")]),
        1 => listed("get_keyboard", seq![new_id_arg("id", "wl_keyboard")]),
        2 => listed("get_touch", seq![new_id_arg("id", "wl_touch")]),
        3 => listed("release", seq![]),
        _ => None,
    }
}

fn wl_seat_request(opcode: u16) -> (found: Option<GeneratedMessageSpec>)
    ensures
        optional_message(found) == wl_seat_requests(opcode),
{
    match opcode {
        0 => message("get_pointer", vec![new_id_arg("id", "wl_pointer")]),
        1 => message("get_keyboard", vec![new_id_arg("id", "wl_keyboard")]),
        2 => message("get_touch", vec![new_id_arg("id", "wl_touch")]),
        3 => message("release", vec![]),
        _ => None,
    }
}

/// The requests of `wl_pointer`.
pub open spec fn wl_pointer_requests(opcode: u16) -> Option<MessageView> {
    match opcode {
        0 => listed(
            "set_cursor",
            seq![
                uint_arg("serial"), object_arg("surface", "wl_surface"), int_arg("hotspot_x"),
                int_arg("hotspot_y"),
            ],
        ),
        1 => listed("release", seq![]),
        _ => None,
    }
}

fn wl_pointer_request(opcode: u16) -> (found: Option<GeneratedMessageSpec>)
    ensures
        optional_message(found) == wl_pointer_requests(opcode),
{
    match opcode {
        0 => message(
            "set_cursor",
            vec![
                uint_arg("serial"), object_arg("surface", "wl_surface"), int_arg("hotspot_x"),
                int_arg("hotspot_y"),
            ],
        ),
        1 => message("release", vec![]),
        _ => None,
    }
}

/// The requests of `wl_keyboard`.
pub open spec fn wl_keyboard_requests(opcode: u16) -> Option<MessageView> {
    match opcode {
        0 => listed("release", seq![]),
        _ => None,
    }
}

fn wl_keyboard_request(opcode: u16) -> (found: Option<GeneratedMessageSpec>)
    ensures
        optional_message(found) == wl_keyboard_requests(opcode),
{
    match opcode {
        0 => message("release", vec![]),
        _ => None,
    }
}

/// The requests of `wl_touch`.
pub open spec fn wl_touch_requests(opcode: u16) -> Option<MessageView> {
    match opcode {
        0 => listed("release", seq![]),
        _ => None,
    }
}

fn wl_touch_request(opcode: u16) -> (found: Option<GeneratedMessageSpec>)
    ensures
        optional_message(found) == wl_touch_requests(opcode),
{
    match opcode {
        0 => message("release", vec![]),
        _ => None,
    }
}

/// The requests of `wl_output`.
pub open spec fn wl_output_requests(opcode: u16) -> Option<MessageView> {
    match opcode {
        0 => listed("release", seq![]),
        _ => None,
    }
}

fn wl_output_request(opcode: u16) -> (found: Option<GeneratedMessageSpec>)
    ensures
        optional_message(found) == wl_output_requests(opcode),
{
    match opcode {
        0 => message("release", vec![]),
        _ => None,
    }
}

/// The requests of `wl_region`.
pub open spec fn wl_region_requests(opcode: u16) -> Option<MessageView> {
    match opcode {
        0 => listed("destroy", seq![]),
        1 => listed("add", seq![int_arg("x"), int_arg("y"), int_arg("width"), int_arg("height")]),
        2 => listed(
            "subtract",
            seq![
                int_arg("x"), int_arg("y"), int_arg("width"), int_arg("height"),
            ],
        ),
        _ => None,
    }
}

fn wl_region_request(opcode: u16) -> (found: Option<GeneratedMessageSpec>)
    ensures
        optional_message(found) == wl_region_requests(opcode),
{
    match opcode {
        0 => message("destroy", vec![]),
        1 => message("add", vec![int_arg("x"), int_arg("y"), int_arg("width"), int_arg("height")]),
        2 => message(
            "subtract",
            vec![
                int_arg("x"), int_arg("y"), int_arg("width"), int_arg("height"),
            ],
        ),
        _ => None,
    }
}

/// The requests of `wl_subcompositor`.
pub open spec fn wl_subcompositor_requests(opcode: u16) -> Option<MessageView> {
    match opcode {
        0 => listed("destroy", seq![]),
        1 => listed(
            "get_subsurface",
            seq![
                new_id_arg("id", "wl_subsurface"), object_arg("surface", "wl_surface"),
                object_arg("parent", "wl_surface"),
            ],
        ),
        _ => None,
    }
}

fn wl_subcompositor_request(opcode: u16) -> (found: Option<GeneratedMessageSpec>)
    ensures
        optional_message(found) == wl_subcompositor_requests(opcode),
{
    match opcode {
        0 => message("destroy", vec![]),
        1 => message(
            "get_subsurface",
            vec![
                new_id_arg("id", "wl_subsurface"), object_arg("surface", "wl_surface"),
                object_arg("parent", "wl_surface"),
            ],
        ),
        _ => None,
    }
}

/// The requests of `wl_subsurface`.
pub open spec fn wl_subsurface_requests(opcode: u16) -> Option<MessageView> {
    match opcode {
        0 => listed("destroy", seq![]),
        1 => listed("set_position", seq![int_arg("x"), int_arg("y")]),
        2 => listed("place_above", seq![object_arg("sibling", "wl_surface")]),
        3 => listed("place_below", seq![object_arg("sibling", "wl_surface")]),
        4 => listed("set_sync", seq![]),
        5 => listed("set_desync", seq![]),
        _ => None,
    }
}

fn wl_subsurface_request(opcode: u16) -> (found: Option<GeneratedMessageSpec>)
    ensures
        optional_message(found) == wl_subsurface_requests(opcode),
{
    match opcode {
        0 => message("destroy", vec![]),
        1 => message("set_position", vec![int_arg("x"), int_arg("y")]),
        2 => message("place_above", vec![object_arg("sibling", "wl_surface")]),
        3 => message("place_below", vec![object_arg("sibling", "wl_surface")]),
        4 => message("set_sync", vec![]),
        5 => message("set_desync", vec![]),
        _ => None,
    }
}

/// The requests of `wl_fixes`.
pub open spec fn wl_fixes_requests(opcode: u16) -> Option<MessageView> {
    match opcode {
        0 => listed("destroy", seq![]),
        1 => listed("destroy_registry", seq![object_arg("registry", "wl_registry")]),
        _ => None,
    }
}

fn wl_fixes_request(opcode: u16) -> (found: Option<GeneratedMessageSpec>)
    ensures
        optional_message(found) == wl_fixes_requests(opcode),
{
    match opcode {
        0 => message("destroy", vec![]),
        1 => message("destroy_registry", vec![object_arg("registry", "wl_registry")]),
        _ => None,
    }
}

/// The requests of `xdg_wm_base`.
pub open spec fn xdg_wm_base_requests(opcode: u16) -> Option<MessageView> {
    match opcode {
        0 => listed("destroy", seq![]),
        1 => listed("create_positioner", seq![new_id_arg("id", "xdg_positioner")]),
        2 => listed(
            "get_xdg_surface",
            seq![
                new_id_arg("id", "xdg_surface"), object_arg("surface", "wl_surface"),
            ],
        ),
        3 => listed("pong", seq![uint_arg("serial")]),
        _ => None,
    }
}

fn xdg_wm_base_request(opcode: u16) -> (found: Option<GeneratedMessageSpec>)
    ensures
        optional_message(found) == xdg_wm_base_requests(opcode),
{
    match opcode {
        0 => message("destroy", vec![]),
        1 => message("create_positioner", vec![new_id_arg("id", "xdg_positioner")]),
        2 => message(
            "get_xdg_surface",
            vec![
                new_id_arg("id", "xdg_surface"), object_arg("surface", "wl_surface"),
            ],
        ),
        3 => message("pong", vec![uint_arg("serial")]),
        _ => None,
    }
}

/// The requests of `xdg_positioner`.
pub open spec fn xdg_positioner_requests(opcode: u16) -> Option<MessageView> {
    match opcode {
        0 => listed("destroy", seq![]),
        1 => listed("set_size", seq![int_arg("width"), int_arg("height")]),
        2 => listed(
            "set_anchor_rect",
            seq![
                int_arg("x"), int_arg("y"), int_arg("width"), int_arg("height"),
            ],
        ),
        3 => listed("set_anchor", seq![uint_arg("anchor")]),
        4 => listed("set_gravity", seq![uint_arg("gravity")]),
        5 => listed("set_constraint_adjustment", seq![uint_arg("constraint_adjustment")]),
        6 => listed("set_offset", seq![int_arg("x"), int_arg("y")]),
        7 => listed("set_reactive", seq![]),
        8 => listed("set_parent_size", seq![int_arg("parent_width"), int_arg("parent_height")]),
        9 => listed("set_parent_configure", seq![uint_arg("serial")]),
        _ => None,
    }
}

fn xdg_positioner_request(opcode: u16) -> (found: Option<GeneratedMessageSpec>)
    ensures
        optional_message(found) == xdg_positioner_requests(opcode),
{
    match opcode {
        0 => message("destroy", vec![]),
        1 => message("set_size", vec![int_arg("width"), int_arg("height")]),
        2 => message(
            "set_anchor_rect",
            vec![
                int_arg("x"), int_arg("y"), int_arg("width"), int_arg("height"),
            ],
        ),
        3 => message("set_anchor", vec![uint_arg("anchor")]),
        4 => message("set_gravity", vec![uint_arg("gravity")]),
        5 => message("set_constraint_adjustment", vec![uint_arg("constraint_adjustment")]),
        6 => message("set_offset", vec![int_arg("x"), int_arg("y")]),
        7 => message("set_reactive", vec![]),
        8 => message("set_parent_size", vec![int_arg("parent_width"), int_arg("parent_height")]),
        9 => message("set_parent_configure", vec![uint_arg("serial")]),
        _ => None,
    }
}

/// The requests of `xdg_surface`.
pub open spec fn xdg_surface_requests(opcode: u16) -> Option<MessageView> {
    match opcode {
        0 => listed("destroy", seq![]),
        1 => listed("get_toplevel", seq![new_id_arg("id", "xdg_toplevel")]),
        2 => listed(
            "get_popup",
            seq![
                new_id_arg("id", "xdg_popup"), object_arg("parent", "xdg_surface"),
                object_arg("positioner", "xdg_positioner"),
            ],
        ),
        3 => listed(
            "set_window_geometry",
            seq![
                int_arg("x"), int_arg("y"), int_arg("width"), int_arg("height"),
            ],
        ),
        4 => listed("ack_configure", seq![uint_arg("serial")]),
        _ => None,
    }
}

fn xdg_surface_request(opcode: u16) -> (found: Option<GeneratedMessageSpec>)
    ensures
        optional_message(found) == xdg_surface_requests(opcode),
{
    match opcode {
        0 => message("destroy", vec![]),
        1 => message("get_toplevel", vec![new_id_arg("id", "xdg_toplevel")]),
        2 => message(
            "get_popup",
            vec![
                new_id_arg("id", "xdg_popup"), object_arg("parent", "xdg_surface"),
                object_arg("positioner", "xdg_positioner"),
            ],
        ),
        3 => message(
            "set_window_geometry",
            vec![
                int_arg("x"), int_arg("y"), int_arg("width"), int_arg("height"),
            ],
        ),
        4 => message("ack_configure", vec![uint_arg("serial")]),
        _ => None,
    }
}

/// The requests of `xdg_toplevel`.
pub open spec fn xdg_toplevel_requests(opcode: u16) -> Option<MessageView> {
    match opcode {
        0 => listed("destroy", seq![]),
        1 => listed("set_parent", seq![object_arg("parent", "xdg_toplevel")]),
        2 => listed("set_title", seq![string_arg("title")]),
        3 => listed("set_app_id", seq![string_arg("app_id")]),
        4 => listed(
            "show_window_menu",
            seq![
                object_arg("seat", "wl_seat"), uint_arg("serial"), int_arg("x"), int_arg("y"),
            ],
        ),
        5 => listed("move", seq![object_arg("seat", "wl_seat"), uint_arg("serial")]),
        6 => listed(
            "resize",
            seq![
                object_arg("seat", "wl_seat"), uint_arg("serial"), uint_arg("edges"),
            ],
        ),
        7 => listed("set_max_size", seq![int_arg("width"), int_arg("height")]),
        8 => listed("set_min_size", seq![int_arg("width"), int_arg("height")]),
        9 => listed("set_maximized", seq![]),
        10 => listed("unset_maximized", seq![]),
        11 => listed("set_fullscreen", seq![object_arg("output", "wl_output")]),
        12 => listed("unset_fullscreen", seq![]),
        13 => listed("set_minimized", seq![]),
        _ => None,
    }
}

fn xdg_toplevel_request(opcode: u16) -> (found: Option<GeneratedMessageSpec>)
    ensures
        optional_message(found) == xdg_toplevel_requests(opcode),
{
    match opcode {
        0 => message("destroy", vec![]),
        1 => message("set_parent", vec![object_arg("parent", "xdg_toplevel")]),
        2 => message("set_title", vec![string_arg("title")]),
        3 => message("set_app_id", vec![string_arg("app_id")]),
        4 => message(
            "show_window_menu",
            vec![
                object_arg("seat", "wl_seat"), uint_arg("serial"), int_arg("x"), int_arg("y"),
            ],
        ),
        5 => message("move", vec![object_arg("seat", "wl_seat"), uint_arg("serial")]),
        6 => message(
            "resize",
            vec![
                object_arg("seat", "wl_seat"), uint_arg("serial"), uint_arg("edges"),
            ],
        ),
        7 => message("set_max_size", vec![int_arg("width"), int_arg("height")]),
        8 => message("set_min_size", vec![int_arg("width"), int_arg("height")]),
        9 => message("set_maximized", vec![]),
        10 => message("unset_maximized", vec![]),
        11 => message("set_fullscreen", vec![object_arg("output", "wl_output")]),
        12 => message("unset_fullscreen", vec![]),
        13 => message("set_minimized", vec![]),
        _ => None,
    }
}

/// The requests of `xdg_popup`.
pub open spec fn xdg_popup_requests(opcode: u16) -> Option<MessageView> {
    match opcode {
        0 => listed("destroy", seq![]),
        1 => listed("grab", seq![object_arg("seat", "wl_seat"), uint_arg("serial")]),
        2 => listed(
            "reposition",
            seq![
                object_arg("positioner", "xdg_positioner"), uint_arg("token"),
            ],
        ),
        _ => None,
    }
}

fn xdg_popup_request(opcode: u16) -> (found: Option<GeneratedMessageSpec>)
    ensures
        optional_message(found) == xdg_popup_requests(opcode),
{
    match opcode {
        0 => message("destroy", vec![]),
        1 => message("grab", vec![object_arg("seat", "wl_seat"), uint_arg("serial")]),
        2 => message(
            "reposition",
            vec![
                object_arg("positioner", "xdg_positioner"), uint_arg("token"),
            ],
        ),
        _ => None,
    }
}

/// The requests of `zwp_linux_dmabuf_v1`.
pub open spec fn zwp_linux_dmabuf_v1_requests(opcode: u16) -> Option<MessageView> {
    match opcode {
        0 => listed("destroy", seq![]),
        1 => listed("create_params", seq![new_id_arg("params_id", "zwp_linux_buffer_params_v1")]),
        2 => listed("get_default_feedback", seq![new_id_arg("id", "zwp_linux_dmabuf_feedback_v1")]),
        3 => listed(
            "get_surface_feedback",
            seq![
                new_id_arg("id", "zwp_linux_dmabuf_feedback_v1"),
                object_arg("surface", "wl_surface"),
            ],
        ),
        _ => None,
    }
}

fn zwp_linux_dmabuf_v1_request(opcode: u16) -> (found: Option<GeneratedMessageSpec>)
    ensures
        optional_message(found) == zwp_linux_dmabuf_v1_requests(opcode),
{
    match opcode {
        0 => message("destroy", vec![]),
        1 => message("create_params", vec![new_id_arg("params_id", "zwp_linux_buffer_params_v1")]),
        2 => message(
            "get_default_feedback",
            vec![
                new_id_arg("id", "zwp_linux_dmabuf_feedback_v1"),
            ],
        ),
        3 => message(
            "get_surface_feedback",
            vec![
                new_id_arg("id", "zwp_linux_dmabuf_feedback_v1"),
                object_arg("surface", "wl_surface"),
            ],
        ),
        _ => None,
    }
}

/// The requests of `zwp_linux_buffer_params_v1`.
pub open spec fn zwp_linux_buffer_params_v1_requests(opcode: u16) -> Option<MessageView> {
    match opcode {
        0 => listed("destroy", seq![]),
        1 => listed(
            "add",
            seq![
                fd_arg("fd"), uint_arg("plane_idx"), uint_arg("offset"), uint_arg("stride"),
                uint_arg("modifier_hi"), uint_arg("modifier_lo"),
            ],
        ),
        2 => listed(
            "create",
            seq![
                int_arg("width"), int_arg("height"), uint_arg("format"), uint_arg("flags"),
            ],
        ),
        3 => listed(
            "create_immed",
            seq![
                new_id_arg("buffer_id", "wl_buffer"), int_arg("width"), int_arg("height"),
                uint_arg("format"), uint_arg("flags"),
            ],
        ),
        _ => None,
    }
}

fn zwp_linux_buffer_params_v1_request(opcode: u16) -> (found: Option<GeneratedMessageSpec>)
    ensures
        optional_message(found) == zwp_linux_buffer_params_v1_requests(opcode),
{
    match opcode {
        0 => message("destroy", vec![]),
        1 => message(
            "add",
            vec![
                fd_arg("fd"), uint_arg("plane_idx"), uint_arg("offset"), uint_arg("stride"),
                uint_arg("modifier_hi"), uint_arg("modifier_lo"),
            ],
        ),
        2 => message(
            "create",
            vec![
                int_arg("width"), int_arg("height"), uint_arg("format"), uint_arg("flags"),
            ],
        ),
        3 => message(
            "create_immed",
            vec![
                new_id_arg("buffer_id", "wl_buffer"), int_arg("width"), int_arg("height"),
                uint_arg("format"), uint_arg("flags"),
            ],
        ),
        _ => None,
    }
}

/// The requests of `zwp_linux_dmabuf_feedback_v1`.
pub open spec fn zwp_linux_dmabuf_feedback_v1_requests(opcode: u16) -> Option<MessageView> {
    match opcode {
        0 => listed("destroy", seq![]),
        _ => None,
    }
}

fn zwp_linux_dmabuf_feedback_v1_request(opcode: u16) -> (found: Option<GeneratedMessageSpec>)
    ensures
        optional_message(found) == zwp_linux_dmabuf_feedback_v1_requests(opcode),
{
    match opcode {
        0 => message("destroy", vec![]),
        _ => None,
    }
}

/// The requests of `wp_linux_drm_syncobj_manager_v1`.
pub open spec fn wp_linux_drm_syncobj_manager_v1_requests(opcode: u16) -> Option<MessageView> {
    match opcode {
        0 => listed("destroy", seq![]),
        1 => listed(
            "get_surface",
            seq![
                new_id_arg("id", "wp_linux_drm_syncobj_surface_v1"),
                object_arg("surface", "wl_surface"),
            ],
        ),
        2 => listed(
            "import_timeline",
            seq![
                new_id_arg("id", "wp_linux_drm_syncobj_timeline_v1"), fd_arg("fd"),
            ],
        ),
        _ => None,
    }
}

fn wp_linux_drm_syncobj_manager_v1_request(opcode: u16) -> (found: Option<GeneratedMessageSpec>)
    ensures
        optional_message(found) == wp_linux_drm_syncobj_manager_v1_requests(opcode),
{
    match opcode {
        0 => message("destroy", vec![]),
        1 => message(
            "get_surface",
            vec![
                new_id_arg("id", "wp_linux_drm_syncobj_surface_v1"),
                object_arg("surface", "wl_surface"),
            ],
        ),
        2 => message(
            "import_timeline",
            vec![
                new_id_arg("id", "wp_linux_drm_syncobj_timeline_v1"), fd_arg("fd"),
            ],
        ),
        _ => None,
    }
}

/// The requests of `wp_linux_drm_syncobj_timeline_v1`.
pub open spec fn wp_linux_drm_syncobj_timeline_v1_requests(opcode: u16) -> Option<MessageView> {
    match opcode {
        0 => listed("destroy", seq![]),
        _ => None,
    }
}

fn wp_linux_drm_syncobj_timeline_v1_request(opcode: u16) -> (found: Option<GeneratedMessageSpec>)
    ensures
        optional_message(found) == wp_linux_drm_syncobj_timeline_v1_requests(opcode),
{
    match opcode {
        0 => message("destroy", vec![]),
        _ => None,
    }
}

/// The requests of `wp_linux_drm_syncobj_surface_v1`.
pub open spec fn wp_linux_drm_syncobj_surface_v1_requests(opcode: u16) -> Option<MessageView> {
    match opcode {
        0 => listed("destroy", seq![]),
        1 => listed(
            "set_acquire_point",
            seq![
                object_arg("timeline", "wp_linux_drm_syncobj_timeline_v1"), uint_arg("point_hi"),
                uint_arg("point_lo"),
            ],
        ),
        2 => listed(
            "set_release_point",
            seq![
                object_arg("timeline", "wp_linux_drm_syncobj_timeline_v1"), uint_arg("point_hi"),
                uint_arg("point_lo"),
            ],
        ),
        _ => None,
    }
}

fn wp_linux_drm_syncobj_surface_v1_request(opcode: u16) -> (found: Option<GeneratedMessageSpec>)
    ensures
        optional_message(found) == wp_linux_drm_syncobj_surface_v1_requests(opcode),
{
    match opcode {
        0 => message("destroy", vec![]),
        1 => message(
            "set_acquire_point",
            vec![
                object_arg("timeline", "wp_linux_drm_syncobj_timeline_v1"), uint_arg("point_hi"),
                uint_arg("point_lo"),
            ],
        ),
        2 => message(
            "set_release_point",
            vec![
                object_arg("timeline", "wp_linux_drm_syncobj_timeline_v1"), uint_arg("point_hi"),
                uint_arg("point_lo"),
            ],
        ),
        _ => None,
    }
}

/// The requests of `wp_tearing_control_manager_v1`.
pub open spec fn wp_tearing_control_manager_v1_requests(opcode: u16) -> Option<MessageView> {
    match opcode {
        0 => listed("destroy", seq![]),
        1 => listed(
            "get_tearing_control",
            seq![
                new_id_arg("id", "wp_tearing_control_v1"), object_arg("surface", "wl_surface"),
            ],
        ),
        _ => None,
    }
}

fn wp_tearing_control_manager_v1_request(opcode: u16) -> (found: Option<GeneratedMessageSpec>)
    ensures
        optional_message(found) == wp_tearing_control_manager_v1_requests(opcode),
{
    match opcode {
        0 => message("destroy", vec![]),
        1 => message(
            "get_tearing_control",
            vec![
                new_id_arg("id", "wp_tearing_control_v1"), object_arg("surface", "wl_surface"),
            ],
        ),
        _ => None,
    }
}

/// The requests of `wp_tearing_control_v1`.
pub open spec fn wp_tearing_control_v1_requests(opcode: u16) -> Option<MessageView> {
    match opcode {
        0 => listed("set_presentation_hint", seq![uint_arg("hint")]),
        1 => listed("destroy", seq![]),
        _ => None,
    }
}

fn wp_tearing_control_v1_request(opcode: u16) -> (found: Option<GeneratedMessageSpec>)
    ensures
        optional_message(found) == wp_tearing_control_v1_requests(opcode),
{
    match opcode {
        0 => message("set_presentation_hint", vec![uint_arg("hint")]),
        1 => message("destroy", vec![]),
        _ => None,
    }
}

/// The requests of `wp_presentation`.
pub open spec fn wp_presentation_requests(opcode: u16) -> Option<MessageView> {
    match opcode {
        0 => listed("destroy", seq![]),
        1 => listed(
            "feedback",
            seq![
                object_arg("surface", "wl_surface"),
                new_id_arg("callback", "wp_presentation_feedback"),
            ],
        ),
        _ => None,
    }
}

fn wp_presentation_request(opcode: u16) -> (found: Option<GeneratedMessageSpec>)
    ensures
        optional_message(found) == wp_presentation_requests(opcode),
{
    match opcode {
        0 => message("destroy", vec![]),
        1 => message(
            "feedback",
            vec![
                object_arg("surface", "wl_surface"),
                new_id_arg("callback", "wp_presentation_feedback"),
            ],
        ),
        _ => None,
    }
}

/// The requests of `wp_color_manager_v1`.
pub open spec fn wp_color_manager_v1_requests(opcode: u16) -> Option<MessageView> {
    match opcode {
        0 => listed("destroy", seq![]),
        1 => listed(
            "get_output",
            seq![
                new_id_arg("id", "wp_color_management_output_v1"),
                object_arg("output", "wl_output"),
            ],
        ),
        2 => listed(
            "get_surface",
            seq![
                new_id_arg("id", "wp_color_management_surface_v1"),
                object_arg("surface", "wl_surface"),
            ],
        ),
        3 => listed(
            "get_surface_feedback",
            seq![
                new_id_arg("id", "wp_color_management_surface_feedback_v1"),
                object_arg("surface", "wl_surface"),
            ],
        ),
        4 => listed(
            "create_icc_creator",
            seq![
                new_id_arg("obj", "wp_image_description_creator_icc_v1"),
            ],
        ),
        5 => listed(
            "create_parametric_creator",
            seq![
                new_id_arg("obj", "wp_image_description_creator_params_v1"),
            ],
        ),
        6 => listed(
            "create_windows_scrgb",
            seq![
                new_id_arg("image_description", "wp_image_description_v1"),
            ],
        ),
        7 => listed(
            "get_image_description",
            seq![
                new_id_arg("image_description", "wp_image_description_v1"),
                object_arg("reference", "wp_image_description_reference_v1"),
            ],
        ),
        8 => listed(
            "create_windows_bt2100",
            seq![
                new_id_arg("image_description", "wp_image_description_v1"),
            ],
        ),
        _ => None,
    }
}

fn wp_color_manager_v1_request(opcode: u16) -> (found: Option<GeneratedMessageSpec>)
    ensures
        optional_message(found) == wp_color_manager_v1_requests(opcode),
{
    match opcode {
        0 => message("destroy", vec![]),
        1 => message(
            "get_output",
            vec![
                new_id_arg("id", "wp_color_management_output_v1"),
                object_arg("output", "wl_output"),
            ],
        ),
        2 => message(
            "get_surface",
            vec![
                new_id_arg("id", "wp_color_management_surface_v1"),
                object_arg("surface", "wl_surface"),
            ],
        ),
        3 => message(
            "get_surface_feedback",
            vec![
                new_id_arg("id", "wp_color_management_surface_feedback_v1"),
                object_arg("surface", "wl_surface"),
            ],
        ),
        4 => message(
            "create_icc_creator",
            vec![
                new_id_arg("obj", "wp_image_description_creator_icc_v1"),
            ],
        ),
        5 => message(
            "create_parametric_creator",
            vec![
                new_id_arg("obj", "wp_image_description_creator_params_v1"),
            ],
        ),
        6 => message(
            "create_windows_scrgb",
            vec![
                new_id_arg("image_description", "wp_image_description_v1"),
            ],
        ),
        7 => message(
            "get_image_description",
            vec![
                new_id_arg("image_description", "wp_image_description_v1"),
                object_arg("reference", "wp_image_description_reference_v1"),
            ],
        ),
        8 => message(
            "create_windows_bt2100",
            vec![
                new_id_arg("image_description", "wp_image_description_v1"),
            ],
        ),
        _ => None,
    }
}

/// The requests of `wp_color_management_output_v1`.
pub open spec fn wp_color_management_output_v1_requests(opcode: u16) -> Option<MessageView> {
    match opcode {
        0 => listed("destroy", seq![]),
        1 => listed(
            "get_image_description",
            seq![
                new_id_arg("image_description", "wp_image_description_v1"),
            ],
        ),
        _ => None,
    }
}

fn wp_color_management_output_v1_request(opcode: u16) -> (found: Option<GeneratedMessageSpec>)
    ensures
        optional_message(found) == wp_color_management_output_v1_requests(opcode),
{
    match opcode {
        0 => message("destroy", vec![]),
        1 => message(
            "get_image_description",
            vec![
                new_id_arg("image_description", "wp_image_description_v1"),
            ],
        ),
        _ => None,
    }
}

/// The requests of `wp_color_management_surface_v1`.
pub open spec fn wp_color_management_surface_v1_requests(opcode: u16) -> Option<MessageView> {
    match opcode {
        0 => listed("destroy", seq![]),
        1 => listed(
            "set_image_description",
            seq![
                object_arg("image_description", "wp_image_description_v1"),
                uint_arg("render_intent"),
            ],
        ),
        2 => listed("unset_image_description", seq![]),
        _ => None,
    }
}

fn wp_color_management_surface_v1_request(opcode: u16) -> (found: Option<GeneratedMessageSpec>)
    ensures
        optional_message(found) == wp_color_management_surface_v1_requests(opcode),
{
    match opcode {
        0 => message("destroy", vec![]),
        1 => message(
            "set_image_description",
            vec![
                object_arg("image_description", "wp_image_description_v1"),
                uint_arg("render_intent"),
            ],
        ),
        2 => message("unset_image_description", vec![]),
        _ => None,
    }
}

/// The requests of `wp_color_management_surface_feedback_v1`.
pub open spec fn wp_color_management_surface_feedback_v1_requests(opcode: u16) -> Option<MessageView> {
    match opcode {
        0 => listed("destroy", seq![]),
        1 => listed(
            "get_preferred",
            seq![
                new_id_arg("image_description", "wp_image_description_v1"),
            ],
        ),
        2 => listed(
            "get_preferred_parametric",
            seq![
                new_id_arg("image_description", "wp_image_description_v1"),
            ],
        ),
        _ => None,
    }
}

fn wp_color_management_surface_feedback_v1_request(opcode: u16) -> (found: Option<GeneratedMessageSpec>)
    ensures
        optional_message(found) == wp_color_management_surface_feedback_v1_requests(opcode),
{
    match opcode {
        0 => message("destroy", vec![]),
        1 => message(
            "get_preferred",
            vec![
                new_id_arg("image_description", "wp_image_description_v1"),
            ],
        ),
        2 => message(
            "get_preferred_parametric",
            vec![
                new_id_arg("image_description", "wp_image_description_v1"),
            ],
        ),
        _ => None,
    }
}

/// The requests of `wp_image_description_creator_icc_v1`.
pub open spec fn wp_image_description_creator_icc_v1_requests(opcode: u16) -> Option<MessageView> {
    match opcode {
        0 => listed("create", seq![new_id_arg("image_description", "wp_image_description_v1")]),
        1 => listed(
            "set_icc_file",
            seq![
                fd_arg("icc_profile"), uint_arg("offset"), uint_arg("length"),
            ],
        ),
        _ => None,
    }
}

fn wp_image_description_creator_icc_v1_request(opcode: u16) -> (found: Option<GeneratedMessageSpec>)
    ensures
        optional_message(found) == wp_image_description_creator_icc_v1_requests(opcode),
{
    match opcode {
        0 => message("create", vec![new_id_arg("image_description", "wp_image_description_v1")]),
        1 => message(
            "set_icc_file",
            vec![
                fd_arg("icc_profile"), uint_arg("offset"), uint_arg("length"),
            ],
        ),
        _ => None,
    }
}

/// The requests of `wp_image_description_creator_params_v1`.
pub open spec fn wp_image_description_creator_params_v1_requests(opcode: u16) -> Option<MessageView> {
    match opcode {
        0 => listed("create", seq![new_id_arg("image_description", "wp_image_description_v1")]),
        1 => listed("set_tf_named", seq![uint_arg("tf")]),
        2 => listed("set_tf_power", seq![uint_arg("eexp")]),
        3 => listed("set_primaries_named", seq![uint_arg("primaries")]),
        4 => listed(
            "set_primaries",
            seq![
                int_arg("r_x"), int_arg("r_y"), int_arg("g_x"), int_arg("g_y"), int_arg("b_x"),
                int_arg("b_y"), int_arg("w_x"), int_arg("w_y"),
            ],
        ),
        5 => listed(
            "set_luminances",
            seq![
                uint_arg("min_lum"), uint_arg("max_lum"), uint_arg("reference_lum"),
            ],
        ),
        6 => listed(
            "set_mastering_display_primaries",
            seq![
                int_arg("r_x"), int_arg("r_y"), int_arg("g_x"), int_arg("g_y"), int_arg("b_x"),
                int_arg("b_y"), int_arg("w_x"), int_arg("w_y"),
            ],
        ),
        7 => listed("set_mastering_luminance", seq![uint_arg("min_lum"), uint_arg("max_lum")]),
        8 => listed("set_max_cll", seq![uint_arg("max_cll")]),
        9 => listed("set_max_fall", seq![uint_arg("max_fall")]),
        _ => None,
    }
}

fn wp_image_description_creator_params_v1_request(opcode: u16) -> (found: Option<GeneratedMessageSpec>)
    ensures
        optional_message(found) == wp_image_description_creator_params_v1_requests(opcode),
{
    match opcode {
        0 => message("create", vec![new_id_arg("image_description", "wp_image_description_v1")]),
        1 => message("set_tf_named", vec![uint_arg("tf")]),
        2 => message("set_tf_power", vec![uint_arg("eexp")]),
        3 => message("set_primaries_named", vec![uint_arg("primaries")]),
        4 => message(
            "set_primaries",
            vec![
                int_arg("r_x"), int_arg("r_y"), int_arg("g_x"), int_arg("g_y"), int_arg("b_x"),
                int_arg("b_y"), int_arg("w_x"), int_arg("w_y"),
            ],
        ),
        5 => message(
            "set_luminances",
            vec![
                uint_arg("min_lum"), uint_arg("max_lum"), uint_arg("reference_lum"),
            ],
        ),
        6 => message(
            "set_mastering_display_primaries",
            vec![
                int_arg("r_x"), int_arg("r_y"), int_arg("g_x"), int_arg("g_y"), int_arg("b_x"),
                int_arg("b_y"), int_arg("w_x"), int_arg("w_y"),
            ],
        ),
        7 => message("set_mastering_luminance", vec![uint_arg("min_lum"), uint_arg("max_lum")]),
        8 => message("set_max_cll", vec![uint_arg("max_cll")]),
        9 => message("set_max_fall", vec![uint_arg("max_fall")]),
        _ => None,
    }
}

/// The requests of `wp_image_description_v1`.
pub open spec fn wp_image_description_v1_requests(opcode: u16) -> Option<MessageView> {
    match opcode {
        0 => listed("destroy", seq![]),
        1 => listed(
            "get_information",
            seq![
                new_id_arg("information", "wp_image_description_info_v1"),
            ],
        ),
        _ => None,
    }
}

fn wp_image_description_v1_request(opcode: u16) -> (found: Option<GeneratedMessageSpec>)
    ensures
        optional_message(found) == wp_image_description_v1_requests(opcode),
{
    match opcode {
        0 => message("destroy", vec![]),
        1 => message(
            "get_information",
            vec![
                new_id_arg("information", "wp_image_description_info_v1"),
            ],
        ),
        _ => None,
    }
}

/// The requests of `wp_image_description_reference_v1`.
pub open spec fn wp_image_description_reference_v1_requests(opcode: u16) -> Option<MessageView> {
    match opcode {
        0 => listed("destroy", seq![]),
        _ => None,
    }
}

fn wp_image_description_reference_v1_request(opcode: u16) -> (found: Option<GeneratedMessageSpec>)
    ensures
        optional_message(found) == wp_image_description_reference_v1_requests(opcode),
{
    match opcode {
        0 => message("destroy", vec![]),
        _ => None,
    }
}

/// The requests of `wp_fifo_manager_v1`.
pub open spec fn wp_fifo_manager_v1_requests(opcode: u16) -> Option<MessageView> {
    match opcode {
        0 => listed("destroy", seq![]),
        1 => listed(
            "get_fifo",
            seq![
                new_id_arg("id", "wp_fifo_v1"), object_arg("surface", "wl_surface"),
            ],
        ),
        _ => None,
    }
}

fn wp_fifo_manager_v1_request(opcode: u16) -> (found: Option<GeneratedMessageSpec>)
    ensures
        optional_message(found) == wp_fifo_manager_v1_requests(opcode),
{
    match opcode {
        0 => message("destroy", vec![]),
        1 => message(
            "get_fifo",
            vec![
                new_id_arg("id", "wp_fifo_v1"), object_arg("surface", "wl_surface"),
            ],
        ),
        _ => None,
    }
}

/// The requests of `wp_fifo_v1`.
pub open spec fn wp_fifo_v1_requests(opcode: u16) -> Option<MessageView> {
    match opcode {
        0 => listed("set_barrier", seq![]),
        1 => listed("wait_barrier", seq![]),
        2 => listed("destroy", seq![]),
        _ => None,
    }
}

fn wp_fifo_v1_request(opcode: u16) -> (found: Option<GeneratedMessageSpec>)
    ensures
        optional_message(found) == wp_fifo_v1_requests(opcode),
{
    match opcode {
        0 => message("set_barrier", vec![]),
        1 => message("wait_barrier", vec![]),
        2 => message("destroy", vec![]),
        _ => None,
    }
}

/// The requests of `wp_fractional_scale_manager_v1`.
pub open spec fn wp_fractional_scale_manager_v1_requests(opcode: u16) -> Option<MessageView> {
    match opcode {
        0 => listed("destroy", seq![]),
        1 => listed(
            "get_fractional_scale",
            seq![
                new_id_arg("id", "wp_fractional_scale_v1"), object_arg("surface", "wl_surface"),
            ],
        ),
        _ => None,
    }
}

fn wp_fractional_scale_manager_v1_request(opcode: u16) -> (found: Option<GeneratedMessageSpec>)
    ensures
        optional_message(found) == wp_fractional_scale_manager_v1_requests(opcode),
{
    match opcode {
        0 => message("destroy", vec![]),
        1 => message(
            "get_fractional_scale",
            vec![
                new_id_arg("id", "wp_fractional_scale_v1"), object_arg("surface", "wl_surface"),
            ],
        ),
        _ => None,
    }
}

/// The requests of `wp_fractional_scale_v1`.
pub open spec fn wp_fractional_scale_v1_requests(opcode: u16) -> Option<MessageView> {
    match opcode {
        0 => listed("destroy", seq![]),
        _ => None,
    }
}

fn wp_fractional_scale_v1_request(opcode: u16) -> (found: Option<GeneratedMessageSpec>)
    ensures
        optional_message(found) == wp_fractional_scale_v1_requests(opcode),
{
    match opcode {
        0 => message("destroy", vec![]),
        _ => None,
    }
}

/// The requests of `wp_viewporter`.
pub open spec fn wp_viewporter_requests(opcode: u16) -> Option<MessageView> {
    match opcode {
        0 => listed("destroy", seq![]),
        1 => listed(
            "get_viewport",
            seq![
                new_id_arg("id", "wp_viewport"), object_arg("surface", "wl_surface"),
            ],
        ),
        _ => None,
    }
}

fn wp_viewporter_request(opcode: u16) -> (found: Option<GeneratedMessageSpec>)
    ensures
        optional_message(found) == wp_viewporter_requests(opcode),
{
    match opcode {
        0 => message("destroy", vec![]),
        1 => message(
            "get_viewport",
            vec![
                new_id_arg("id", "wp_viewport"), object_arg("surface", "wl_surface"),
            ],
        ),
        _ => None,
    }
}

/// The requests of `wp_viewport`.
pub open spec fn wp_viewport_requests(opcode: u16) -> Option<MessageView> {
    match opcode {
        0 => listed("destroy", seq![]),
        1 => listed(
            "set_source",
            seq![
                fixed_arg("x"), fixed_arg("y"), fixed_arg("width"), fixed_arg("height"),
            ],
        ),
        2 => listed("set_destination", seq![int_arg("width"), int_arg("height")]),
        _ => None,
    }
}

fn wp_viewport_request(opcode: u16) -> (found: Option<GeneratedMessageSpec>)
    ensures
        optional_message(found) == wp_viewport_requests(opcode),
{
    match opcode {
        0 => message("destroy", vec![]),
        1 => message(
            "set_source",
            vec![
                fixed_arg("x"), fixed_arg("y"), fixed_arg("width"), fixed_arg("height"),
            ],
        ),
        2 => message("set_destination", vec![int_arg("width"), int_arg("height")]),
        _ => None,
    }
}

/// The request that an opcode stands for.
pub open spec fn request_message(interface: InterfaceId, opcode: u16) -> Option<MessageView> {
    match interface {
        InterfaceId::WlDisplay => wl_display_requests(opcode),
        InterfaceId::WlRegistry => wl_registry_requests(opcode),
        InterfaceId::WlCompositor => wl_compositor_requests(opcode),
        InterfaceId::WlBuffer => wl_buffer_requests(opcode),
        InterfaceId::WlDataOffer => wl_data_offer_requests(opcode),
        InterfaceId::WlDataSource => wl_data_source_requests(opcode),
        InterfaceId::WlDataDevice => wl_data_device_requests(opcode),
        InterfaceId::WlDataDeviceManager => wl_data_device_manager_requests(opcode),
        InterfaceId::WlShell => wl_shell_requests(opcode),
        InterfaceId::WlShellSurface => wl_shell_surface_requests(opcode),
        InterfaceId::WlSurface => wl_surface_requests(opcode),
        InterfaceId::WlSeat => wl_seat_requests(opcode),
        InterfaceId::WlPointer => wl_pointer_requests(opcode),
        InterfaceId::WlKeyboard => wl_keyboard_requests(opcode),
        InterfaceId::WlTouch => wl_touch_requests(opcode),
        InterfaceId::WlOutput => wl_output_requests(opcode),
        InterfaceId::WlRegion => wl_region_requests(opcode),
        InterfaceId::WlSubcompositor => wl_subcompositor_requests(opcode),
        InterfaceId::WlSubsurface => wl_subsurface_requests(opcode),
        InterfaceId::WlFixes => wl_fixes_requests(opcode),
        InterfaceId::XdgWmBase => xdg_wm_base_requests(opcode),
        InterfaceId::XdgPositioner => xdg_positioner_requests(opcode),
        InterfaceId::XdgSurface => xdg_surface_requests(opcode),
        InterfaceId::XdgToplevel => xdg_toplevel_requests(opcode),
        InterfaceId::XdgPopup => xdg_popup_requests(opcode),
        InterfaceId::ZwpLinuxDmabufV1 => zwp_linux_dmabuf_v1_requests(opcode),
        InterfaceId::ZwpLinuxBufferParamsV1 => zwp_linux_buffer_params_v1_requests(opcode),
        InterfaceId::ZwpLinuxDmabufFeedbackV1 => zwp_linux_dmabuf_feedback_v1_requests(opcode),
        InterfaceId::WpLinuxDrmSyncobjManagerV1 => wp_linux_drm_syncobj_manager_v1_requests(opcode),
        InterfaceId::WpLinuxDrmSyncobjTimelineV1 => wp_linux_drm_syncobj_timeline_v1_requests(opcode),
        InterfaceId::WpLinuxDrmSyncobjSurfaceV1 => wp_linux_drm_syncobj_surface_v1_requests(opcode),
        InterfaceId::WpTearingControlManagerV1 => wp_tearing_control_manager_v1_requests(opcode),
        InterfaceId::WpTearingControlV1 => wp_tearing_control_v1_requests(opcode),
        InterfaceId::WpPresentation => wp_presentation_requests(opcode),
        InterfaceId::WpColorManagerV1 => wp_color_manager_v1_requests(opcode),
        InterfaceId::WpColorManagementOutputV1 => wp_color_management_output_v1_requests(opcode),
        InterfaceId::WpColorManagementSurfaceV1 => wp_color_management_surface_v1_requests(opcode),
        InterfaceId::WpColorManagementSurfaceFeedbackV1 => wp_color_management_surface_feedback_v1_requests(opcode),
        InterfaceId::WpImageDescriptionCreatorIccV1 => wp_image_description_creator_icc_v1_requests(opcode),
        InterfaceId::WpImageDescriptionCreatorParamsV1 => wp_image_description_creator_params_v1_requests(opcode),
        InterfaceId::WpImageDescriptionV1 => wp_image_description_v1_requests(opcode),
        InterfaceId::WpImageDescriptionReferenceV1 => wp_image_description_reference_v1_requests(opcode),
        InterfaceId::WpFifoManagerV1 => wp_fifo_manager_v1_requests(opcode),
        InterfaceId::WpFifoV1 => wp_fifo_v1_requests(opcode),
        InterfaceId::WpFractionalScaleManagerV1 => wp_fractional_scale_manager_v1_requests(opcode),
        InterfaceId::WpFractionalScaleV1 => wp_fractional_scale_v1_requests(opcode),
        InterfaceId::WpViewporter => wp_viewporter_requests(opcode),
        InterfaceId::WpViewport => wp_viewport_requests(opcode),
        _ => None,
    }
}

/// Looks up the specification of the request that an opcode stands for.
pub fn request_message_spec(interface: InterfaceId, opcode: u16) -> (found: Option<GeneratedMessageSpec>)
    ensures
        optional_message(found) == request_message(interface, opcode),
{
    match interface {
        InterfaceId::WlDisplay => wl_display_request(opcode),
        InterfaceId::WlRegistry => wl_registry_request(opcode),
        InterfaceId::WlCompositor => wl_compositor_request(opcode),
        InterfaceId::WlBuffer => wl_buffer_request(opcode),
        InterfaceId::WlDataOffer => wl_data_offer_request(opcode),
        InterfaceId::WlDataSource => wl_data_source_request(opcode),
        InterfaceId::WlDataDevice => wl_data_device_request(opcode),
        InterfaceId::WlDataDeviceManager => wl_data_device_manager_request(opcode),
        InterfaceId::WlShell => wl_shell_request(opcode),
        InterfaceId::WlShellSurface => wl_shell_surface_request(opcode),
        InterfaceId::WlSurface => wl_surface_request(opcode),
        InterfaceId::WlSeat => wl_seat_request(opcode),
        InterfaceId::WlPointer => wl_pointer_request(opcode),
        InterfaceId::WlKeyboard => wl_keyboard_request(opcode),
        InterfaceId::WlTouch => wl_touch_request(opcode),
        InterfaceId::WlOutput => wl_output_request(opcode),
        InterfaceId::WlRegion => wl_region_request(opcode),
        InterfaceId::WlSubcompositor => wl_subcompositor_request(opcode),
        InterfaceId::WlSubsurface => wl_subsurface_request(opcode),
        InterfaceId::WlFixes => wl_fixes_request(opcode),
        InterfaceId::XdgWmBase => xdg_wm_base_request(opcode),
        InterfaceId::XdgPositioner => xdg_positioner_request(opcode),
        InterfaceId::XdgSurface => xdg_surface_request(opcode),
        InterfaceId::XdgToplevel => xdg_toplevel_request(opcode),
        InterfaceId::XdgPopup => xdg_popup_request(opcode),
        InterfaceId::ZwpLinuxDmabufV1 => zwp_linux_dmabuf_v1_request(opcode),
        InterfaceId::ZwpLinuxBufferParamsV1 => zwp_linux_buffer_params_v1_request(opcode),
        InterfaceId::ZwpLinuxDmabufFeedbackV1 => zwp_linux_dmabuf_feedback_v1_request(opcode),
        InterfaceId::WpLinuxDrmSyncobjManagerV1 => wp_linux_drm_syncobj_manager_v1_request(opcode),
        InterfaceId::WpLinuxDrmSyncobjTimelineV1 => wp_linux_drm_syncobj_timeline_v1_request(opcode),
        InterfaceId::WpLinuxDrmSyncobjSurfaceV1 => wp_linux_drm_syncobj_surface_v1_request(opcode),
        InterfaceId::WpTearingControlManagerV1 => wp_tearing_control_manager_v1_request(opcode),
        InterfaceId::WpTearingControlV1 => wp_tearing_control_v1_request(opcode),
        InterfaceId::WpPresentation => wp_presentation_request(opcode),
        InterfaceId::WpColorManagerV1 => wp_color_manager_v1_request(opcode),
        InterfaceId::WpColorManagementOutputV1 => wp_color_management_output_v1_request(opcode),
        InterfaceId::WpColorManagementSurfaceV1 => wp_color_management_surface_v1_request(opcode),
        InterfaceId::WpColorManagementSurfaceFeedbackV1 => wp_color_management_surface_feedback_v1_request(opcode),
        InterfaceId::WpImageDescriptionCreatorIccV1 => wp_image_description_creator_icc_v1_request(opcode),
        InterfaceId::WpImageDescriptionCreatorParamsV1 => wp_image_description_creator_params_v1_request(opcode),
        InterfaceId::WpImageDescriptionV1 => wp_image_description_v1_request(opcode),
        InterfaceId::WpImageDescriptionReferenceV1 => wp_image_description_reference_v1_request(opcode),
        InterfaceId::WpFifoManagerV1 => wp_fifo_manager_v1_request(opcode),
        InterfaceId::WpFifoV1 => wp_fifo_v1_request(opcode),
        InterfaceId::WpFractionalScaleManagerV1 => wp_fractional_scale_manager_v1_request(opcode),
        InterfaceId::WpFractionalScaleV1 => wp_fractional_scale_v1_request(opcode),
        InterfaceId::WpViewporter => wp_viewporter_request(opcode),
        InterfaceId::WpViewport => wp_viewport_request(opcode),
        _ => None,
    }
}

/// The events of `wl_display`.
pub open spec fn wl_display_events(opcode: u16) -> Option<MessageView> {
    match opcode {
        0 => listed(
            "error",
            seq![
                any_object_arg("object_id"), uint_arg("code"), string_arg("message"),
            ],
        ),
        1 => listed("delete_id", seq![uint_arg("id")]),
        _ => None,
    }
}

fn wl_display_event(opcode: u16) -> (found: Option<GeneratedMessageSpec>)
    ensures
        optional_message(found) == wl_display_events(opcode),
{
    match opcode {
        0 => message(
            "error",
            vec![
                any_object_arg("object_id"), uint_arg("code"), string_arg("message"),
            ],
        ),
        1 => message("delete_id", vec![uint_arg("id")]),
        _ => None,
    }
}

/// The events of `wl_registry`.
pub open spec fn wl_registry_events(opcode: u16) -> Option<MessageView> {
    match opcode {
        0 => listed("global", seq![uint_arg("name"), string_arg("interface"), uint_arg("version")]),
        1 => listed("global_remove", seq![uint_arg("name")]),
        _ => None,
    }
}

fn wl_registry_event(opcode: u16) -> (found: Option<GeneratedMessageSpec>)
    ensures
        optional_message(found) == wl_registry_events(opcode),
{
    match opcode {
        0 => message(
            "global",
            vec![
                uint_arg("name"), string_arg("interface"), uint_arg("version"),
            ],
        ),
        1 => message("global_remove", vec![uint_arg("name")]),
        _ => None,
    }
}

/// The events of `wl_callback`.
pub open spec fn wl_callback_events(opcode: u16) -> Option<MessageView> {
    match opcode {
        0 => listed("done", seq![uint_arg("callback_data")]),
        _ => None,
    }
}

fn wl_callback_event(opcode: u16) -> (found: Option<GeneratedMessageSpec>)
    ensures
        optional_message(found) == wl_callback_events(opcode),
{
    match opcode {
        0 => message("done", vec![uint_arg("callback_data")]),
        _ => None,
    }
}

/// The events of `wl_buffer`.
pub open spec fn wl_buffer_events(opcode: u16) -> Option<MessageView> {
    match opcode {
        0 => listed("release", seq![]),
        _ => None,
    }
}

fn wl_buffer_event(opcode: u16) -> (found: Option<GeneratedMessageSpec>)
    ensures
        optional_message(found) == wl_buffer_events(opcode),
{
    match opcode {
        0 => message("release", vec![]),
        _ => None,
    }
}

/// The events of `wl_data_offer`.
pub open spec fn wl_data_offer_events(opcode: u16) -> Option<MessageView> {
    match opcode {
        0 => listed("offer", seq![string_arg("mime_type")]),
        1 => listed("source_actions", seq![uint_arg("source_actions")]),
        2 => listed("action", seq![uint_arg("dnd_action")]),
        _ => None,
    }
}

fn wl_data_offer_event(opcode: u16) -> (found: Option<GeneratedMessageSpec>)
    ensures
        optional_message(found) == wl_data_offer_events(opcode),
{
    match opcode {
        0 => message("offer", vec![string_arg("mime_type")]),
        1 => message("source_actions", vec![uint_arg("source_actions")]),
        2 => message("action", vec![uint_arg("dnd_action")]),
        _ => None,
    }
}

/// The events of `wl_data_source`.
pub open spec fn wl_data_source_events(opcode: u16) -> Option<MessageView> {
    match opcode {
        0 => listed("target", seq![string_arg("mime_type")]),
        1 => listed("send", seq![string_arg("mime_type"), fd_arg("fd")]),
        2 => listed("cancelled", seq![]),
        3 => listed("dnd_drop_performed", seq![]),
        4 => listed("dnd_finished", seq![]),
        5 => listed("action", seq![uint_arg("dnd_action")]),
        _ => None,
    }
}

fn wl_data_source_event(opcode: u16) -> (found: Option<GeneratedMessageSpec>)
    ensures
        optional_message(found) == wl_data_source_events(opcode),
{
    match opcode {
        0 => message("target", vec![string_arg("mime_type")]),
        1 => message("send", vec![string_arg("mime_type"), fd_arg("fd")]),
        2 => message("cancelled", vec![]),
        3 => message("dnd_drop_performed", vec![]),
        4 => message("dnd_finished", vec![]),
        5 => message("action", vec![uint_arg("dnd_action")]),
        _ => None,
    }
}

/// The events of `wl_data_device`.
pub open spec fn wl_data_device_events(opcode: u16) -> Option<MessageView> {
    match opcode {
        0 => listed("data_offer", seq![new_id_arg("id", "wl_data_offer")]),
        1 => listed(
            "enter",
            seq![
                uint_arg("serial"), object_arg("surface", "wl_surface"), fixed_arg("x"),
                fixed_arg("y"), object_arg("id", "wl_data_offer"),
            ],
        ),
        2 => listed("leave", seq![]),
        3 => listed("motion", seq![uint_arg("time"), fixed_arg("x"), fixed_arg("y")]),
        4 => listed("drop", seq![]),
        5 => listed("selection", seq![object_arg("id", "wl_data_offer")]),
        _ => None,
    }
}

fn wl_data_device_event(opcode: u16) -> (found: Option<GeneratedMessageSpec>)
    ensures
        optional_message(found) == wl_data_device_events(opcode),
{
    match opcode {
        0 => message("data_offer", vec![new_id_arg("id", "wl_data_offer")]),
        1 => message(
            "enter",
            vec![
                uint_arg("serial"), object_arg("surface", "wl_surface"), fixed_arg("x"),
                fixed_arg("y"), object_arg("id", "wl_data_offer"),
            ],
        ),
        2 => message("leave", vec![]),
        3 => message("motion", vec![uint_arg("time"), fixed_arg("x"), fixed_arg("y")]),
        4 => message("drop", vec![]),
        5 => message("selection", vec![object_arg("id", "wl_data_offer")]),
        _ => None,
    }
}

/// The events of `wl_shell_surface`.
pub open spec fn wl_shell_surface_events(opcode: u16) -> Option<MessageView> {
    match opcode {
        0 => listed("ping", seq![uint_arg("serial")]),
        1 => listed("configure", seq![uint_arg("edges"), int_arg("width"), int_arg("height")]),
        2 => listed("popup_done", seq![]),
        _ => None,
    }
}

fn wl_shell_surface_event(opcode: u16) -> (found: Option<GeneratedMessageSpec>)
    ensures
        optional_message(found) == wl_shell_surface_events(opcode),
{
    match opcode {
        0 => message("ping", vec![uint_arg("serial")]),
        1 => message("configure", vec![uint_arg("edges"), int_arg("width"), int_arg("height")]),
        2 => message("popup_done", vec![]),
        _ => None,
    }
}

/// The events of `wl_surface`.
pub open spec fn wl_surface_events(opcode: u16) -> Option<MessageView> {
    match opcode {
        0 => listed("enter", seq![object_arg("output", "wl_output")]),
        1 => listed("leave", seq![object_arg("output", "wl_output")]),
        2 => listed("preferred_buffer_scale", seq![int_arg("factor")]),
        3 => listed("preferred_buffer_transform", seq![uint_arg("transform")]),
        _ => None,
    }
}

fn wl_surface_event(opcode: u16) -> (found: Option<GeneratedMessageSpec>)
    ensures
        optional_message(found) == wl_surface_events(opcode),
{
    match opcode {
        0 => message("enter", vec![object_arg("output", "wl_output")]),
        1 => message("leave", vec![object_arg("output", "wl_output")]),
        2 => message("preferred_buffer_scale", vec![int_arg("factor")]),
        3 => message("preferred_buffer_transform", vec![uint_arg("transform")]),
        _ => None,
    }
}

/// The events of `wl_seat`.
pub open spec fn wl_seat_events(opcode: u16) -> Option<MessageView> {
    match opcode {
        0 => listed("capabilities", seq![uint_arg("capabilities")]),
        1 => listed("name", seq![string_arg("name")]),
        _ => None,
    }
}

fn wl_seat_event(opcode: u16) -> (found: Option<GeneratedMessageSpec>)
    ensures
        optional_message(found) == wl_seat_events(opcode),
{
    match opcode {
        0 => message("capabilities", vec![uint_arg("capabilities")]),
        1 => message("name", vec![string_arg("name")]),
        _ => None,
    }
}

/// The events of `wl_pointer`.
pub open spec fn wl_pointer_events(opcode: u16) -> Option<MessageView> {
    match opcode {
        0 => listed(
            "enter",
            seq![
                uint_arg("serial"), object_arg("surface", "wl_surface"), fixed_arg("surface_x"),
                fixed_arg("surface_y"),
            ],
        ),
        1 => listed("leave", seq![uint_arg("serial"), object_arg("surface", "wl_surface")]),
        2 => listed(
            "motion",
            seq![
                uint_arg("time"), fixed_arg("surface_x"), fixed_arg("surface_y"),
            ],
        ),
        3 => listed(
            "button",
            seq![
                uint_arg("serial"), uint_arg("time"), uint_arg("button"), uint_arg("state"),
            ],
        ),
        4 => listed("axis", seq![uint_arg("time"), uint_arg("axis"), fixed_arg("value")]),
        5 => listed("frame", seq![]),
        6 => listed("axis_source", seq![uint_arg("axis_source")]),
        7 => listed("axis_stop", seq![uint_arg("time"), uint_arg("axis")]),
        8 => listed("axis_discrete", seq![uint_arg("axis"), int_arg("discrete")]),
        9 => listed("axis_value120", seq![uint_arg("axis"), int_arg("value120")]),
        10 => listed("axis_relative_direction", seq![uint_arg("axis"), uint_arg("direction")]),
        _ => None,
    }
}

fn wl_pointer_event(opcode: u16) -> (found: Option<GeneratedMessageSpec>)
    ensures
        optional_message(found) == wl_pointer_events(opcode),
{
    match opcode {
        0 => message(
            "enter",
            vec![
                uint_arg("serial"), object_arg("surface", "wl_surface"), fixed_arg("surface_x"),
                fixed_arg("surface_y"),
            ],
        ),
        1 => message("leave", vec![uint_arg("serial"), object_arg("surface", "wl_surface")]),
        2 => message(
            "motion",
            vec![
                uint_arg("time"), fixed_arg("surface_x"), fixed_arg("surface_y"),
            ],
        ),
        3 => message(
            "button",
            vec![
                uint_arg("serial"), uint_arg("time"), uint_arg("button"), uint_arg("state"),
            ],
        ),
        4 => message("axis", vec![uint_arg("time"), uint_arg("axis"), fixed_arg("value")]),
        5 => message("frame", vec![]),
        6 => message("axis_source", vec![uint_arg("axis_source")]),
        7 => message("axis_stop", vec![uint_arg("time"), uint_arg("axis")]),
        8 => message("axis_discrete", vec![uint_arg("axis"), int_arg("discrete")]),
        9 => message("axis_value120", vec![uint_arg("axis"), int_arg("value120")]),
        10 => message("axis_relative_direction", vec![uint_arg("axis"), uint_arg("direction")]),
        _ => None,
    }
}

/// The events of `wl_keyboard`.
pub open spec fn wl_keyboard_events(opcode: u16) -> Option<MessageView> {
    match opcode {
        0 => listed("keymap", seq![uint_arg("format"), fd_arg("fd"), uint_arg("size")]),
        1 => listed(
            "enter",
            seq![
                uint_arg("serial"), object_arg("surface", "wl_surface"), array_arg("keys"),
            ],
        ),
        2 => listed("leave", seq![uint_arg("serial"), object_arg("surface", "wl_surface")]),
        3 => listed(
            "key",
            seq![
                uint_arg("serial"), uint_arg("time"), uint_arg("key"), uint_arg("state"),
            ],
        ),
        4 => listed(
            "modifiers",
            seq![
                uint_arg("serial"), uint_arg("mods_depressed"), uint_arg("mods_latched"),
                uint_arg("mods_locked"), uint_arg("group"),
            ],
        ),
        5 => listed("repeat_info", seq![int_arg("rate"), int_arg("delay")]),
        _ => None,
    }
}

fn wl_keyboard_event(opcode: u16) -> (found: Option<GeneratedMessageSpec>)
    ensures
        optional_message(found) == wl_keyboard_events(opcode),
{
    match opcode {
        0 => message("keymap", vec![uint_arg("format"), fd_arg("fd"), uint_arg("size")]),
        1 => message(
            "enter",
            vec![
                uint_arg("serial"), object_arg("surface", "wl_surface"), array_arg("keys"),
            ],
        ),
        2 => message("leave", vec![uint_arg("serial"), object_arg("surface", "wl_surface")]),
        3 => message(
            "key",
            vec![
                uint_arg("serial"), uint_arg("time"), uint_arg("key"), uint_arg("state"),
            ],
        ),
        4 => message(
            "modifiers",
            vec![
                uint_arg("serial"), uint_arg("mods_depressed"), uint_arg("mods_latched"),
                uint_arg("mods_locked"), uint_arg("group"),
            ],
        ),
        5 => message("repeat_info", vec![int_arg("rate"), int_arg("delay")]),
        _ => None,
    }
}

/// The events of `wl_touch`.
pub open spec fn wl_touch_events(opcode: u16) -> Option<MessageView> {
    match opcode {
        0 => listed(
            "down",
            seq![
                uint_arg("serial"), uint_arg("time"), object_arg("surface", "wl_surface"),
                int_arg("id"), fixed_arg("x"), fixed_arg("y"),
            ],
        ),
        1 => listed("up", seq![uint_arg("serial"), uint_arg("time"), int_arg("id")]),
        2 => listed(
            "motion",
            seq![
                uint_arg("time"), int_arg("id"), fixed_arg("x"), fixed_arg("y"),
            ],
        ),
        3 => listed("frame", seq![]),
        4 => listed("cancel", seq![]),
        5 => listed("shape", seq![int_arg("id"), fixed_arg("major"), fixed_arg("minor")]),
        6 => listed("orientation", seq![int_arg("id"), fixed_arg("orientation")]),
        _ => None,
    }
}

fn wl_touch_event(opcode: u16) -> (found: Option<GeneratedMessageSpec>)
    ensures
        optional_message(found) == wl_touch_events(opcode),
{
    match opcode {
        0 => message(
            "down",
            vec![
                uint_arg("serial"), uint_arg("time"), object_arg("surface", "wl_surface"),
                int_arg("id"), fixed_arg("x"), fixed_arg("y"),
            ],
        ),
        1 => message("up", vec![uint_arg("serial"), uint_arg("time"), int_arg("id")]),
        2 => message(
            "motion",
            vec![
                uint_arg("time"), int_arg("id"), fixed_arg("x"), fixed_arg("y"),
            ],
        ),
        3 => message("frame", vec![]),
        4 => message("cancel", vec![]),
        5 => message("shape", vec![int_arg("id"), fixed_arg("major"), fixed_arg("minor")]),
        6 => message("orientation", vec![int_arg("id"), fixed_arg("orientation")]),
        _ => None,
    }
}

/// The events of `wl_output`.
pub open spec fn wl_output_events(opcode: u16) -> Option<MessageView> {
    match opcode {
        0 => listed(
            "geometry",
            seq![
                int_arg("x"), int_arg("y"), int_arg("physical_width"), int_arg("physical_height"),
                int_arg("subpixel"), string_arg("make"), string_arg("model"), int_arg("transform"),
            ],
        ),
        1 => listed(
            "mode",
            seq![
                uint_arg("flags"), int_arg("width"), int_arg("height"), int_arg("refresh"),
            ],
        ),
        2 => listed("done", seq![]),
        3 => listed("scale", seq![int_arg("factor")]),
        4 => listed("name", seq![string_arg("name")]),
        5 => listed("description", seq![string_arg("description")]),
        _ => None,
    }
}

fn wl_output_event(opcode: u16) -> (found: Option<GeneratedMessageSpec>)
    ensures
        optional_message(found) == wl_output_events(opcode),
{
    match opcode {
        0 => message(
            "geometry",
            vec![
                int_arg("x"), int_arg("y"), int_arg("physical_width"), int_arg("physical_height"),
                int_arg("subpixel"), string_arg("make"), string_arg("model"), int_arg("transform"),
            ],
        ),
        1 => message(
            "mode",
            vec![
                uint_arg("flags"), int_arg("width"), int_arg("height"), int_arg("refresh"),
            ],
        ),
        2 => message("done", vec![]),
        3 => message("scale", vec![int_arg("factor")]),
        4 => message("name", vec![string_arg("name")]),
        5 => message("description", vec![string_arg("description")]),
        _ => None,
    }
}

/// The events of `xdg_wm_base`.
pub open spec fn xdg_wm_base_events(opcode: u16) -> Option<MessageView> {
    match opcode {
        0 => listed("ping", seq![uint_arg("serial")]),
        _ => None,
    }
}

fn xdg_wm_base_event(opcode: u16) -> (found: Option<GeneratedMessageSpec>)
    ensures
        optional_message(found) == xdg_wm_base_events(opcode),
{
    match opcode {
        0 => message("ping", vec![uint_arg("serial")]),
        _ => None,
    }
}

/// The events of `xdg_surface`.
pub open spec fn xdg_surface_events(opcode: u16) -> Option<MessageView> {
    match opcode {
        0 => listed("configure", seq![uint_arg("serial")]),
        _ => None,
    }
}

fn xdg_surface_event(opcode: u16) -> (found: Option<GeneratedMessageSpec>)
    ensures
        optional_message(found) == xdg_surface_events(opcode),
{
    match opcode {
        0 => message("configure", vec![uint_arg("serial")]),
        _ => None,
    }
}

/// The events of `xdg_toplevel`.
pub open spec fn xdg_toplevel_events(opcode: u16) -> Option<MessageView> {
    match opcode {
        0 => listed("configure", seq![int_arg("width"), int_arg("height"), array_arg("states")]),
        1 => listed("close", seq![]),
        2 => listed("configure_bounds", seq![int_arg("width"), int_arg("height")]),
        3 => listed("wm_capabilities", seq![array_arg("capabilities")]),
        _ => None,
    }
}

fn xdg_toplevel_event(opcode: u16) -> (found: Option<GeneratedMessageSpec>)
    ensures
        optional_message(found) == xdg_toplevel_events(opcode),
{
    match opcode {
        0 => message("configure", vec![int_arg("width"), int_arg("height"), array_arg("states")]),
        1 => message("close", vec![]),
        2 => message("configure_bounds", vec![int_arg("width"), int_arg("height")]),
        3 => message("wm_capabilities", vec![array_arg("capabilities")]),
        _ => None,
    }
}

/// The events of `xdg_popup`.
pub open spec fn xdg_popup_events(opcode: u16) -> Option<MessageView> {
    match opcode {
        0 => listed(
            "configure",
            seq![
                int_arg("x"), int_arg("y"), int_arg("width"), int_arg("height"),
            ],
        ),
        1 => listed("popup_done", seq![]),
        2 => listed("repositioned", seq![uint_arg("token")]),
        _ => None,
    }
}

fn xdg_popup_event(opcode: u16) -> (found: Option<GeneratedMessageSpec>)
    ensures
        optional_message(found) == xdg_popup_events(opcode),
{
    match opcode {
        0 => message(
            "configure",
            vec![
                int_arg("x"), int_arg("y"), int_arg("width"), int_arg("height"),
            ],
        ),
        1 => message("popup_done", vec![]),
        2 => message("repositioned", vec![uint_arg("token")]),
        _ => None,
    }
}

/// The events of `zwp_linux_dmabuf_v1`.
pub open spec fn zwp_linux_dmabuf_v1_events(opcode: u16) -> Option<MessageView> {
    match opcode {
        0 => listed("format", seq![uint_arg("format")]),
        1 => listed(
            "modifier",
            seq![
                uint_arg("format"), uint_arg("modifier_hi"), uint_arg("modifier_lo"),
            ],
        ),
        _ => None,
    }
}

fn zwp_linux_dmabuf_v1_event(opcode: u16) -> (found: Option<GeneratedMessageSpec>)
    ensures
        optional_message(found) == zwp_linux_dmabuf_v1_events(opcode),
{
    match opcode {
        0 => message("format", vec![uint_arg("format")]),
        1 => message(
            "modifier",
            vec![
                uint_arg("format"), uint_arg("modifier_hi"), uint_arg("modifier_lo"),
            ],
        ),
        _ => None,
    }
}

/// The events of `zwp_linux_buffer_params_v1`.
pub open spec fn zwp_linux_buffer_params_v1_events(opcode: u16) -> Option<MessageView> {
    match opcode {
        0 => listed("created", seq![new_id_arg("buffer", "wl_buffer")]),
        1 => listed("failed", seq![]),
        _ => None,
    }
}

fn zwp_linux_buffer_params_v1_event(opcode: u16) -> (found: Option<GeneratedMessageSpec>)
    ensures
        optional_message(found) == zwp_linux_buffer_params_v1_events(opcode),
{
    match opcode {
        0 => message("created", vec![new_id_arg("buffer", "wl_buffer")]),
        1 => message("failed", vec![]),
        _ => None,
    }
}

/// The events of `zwp_linux_dmabuf_feedback_v1`.
pub open spec fn zwp_linux_dmabuf_feedback_v1_events(opcode: u16) -> Option<MessageView> {
    match opcode {
        0 => listed("done", seq![]),
        1 => listed("format_table", seq![fd_arg("fd"), uint_arg("size")]),
        2 => listed("main_device", seq![array_arg("device")]),
        3 => listed("tranche_done", seq![]),
        4 => listed("tranche_target_device", seq![array_arg("device")]),
        5 => listed("tranche_formats", seq![array_arg("indices")]),
        6 => listed("tranche_flags", seq![uint_arg("flags")]),
        _ => None,
    }
}

fn zwp_linux_dmabuf_feedback_v1_event(opcode: u16) -> (found: Option<GeneratedMessageSpec>)
    ensures
        optional_message(found) == zwp_linux_dmabuf_feedback_v1_events(opcode),
{
    match opcode {
        0 => message("done", vec![]),
        1 => message("format_table", vec![fd_arg("fd"), uint_arg("size")]),
        2 => message("main_device", vec![array_arg("device")]),
        3 => message("tranche_done", vec![]),
        4 => message("tranche_target_device", vec![array_arg("device")]),
        5 => message("tranche_formats", vec![array_arg("indices")]),
        6 => message("tranche_flags", vec![uint_arg("flags")]),
        _ => None,
    }
}

/// The events of `wp_presentation`.
pub open spec fn wp_presentation_events(opcode: u16) -> Option<MessageView> {
    match opcode {
        0 => listed("clock_id", seq![uint_arg("clk_id")]),
        _ => None,
    }
}

fn wp_presentation_event(opcode: u16) -> (found: Option<GeneratedMessageSpec>)
    ensures
        optional_message(found) == wp_presentation_events(opcode),
{
    match opcode {
        0 => message("clock_id", vec![uint_arg("clk_id")]),
        _ => None,
    }
}

/// The events of `wp_presentation_feedback`.
pub open spec fn wp_presentation_feedback_events(opcode: u16) -> Option<MessageView> {
    match opcode {
        0 => listed("sync_output", seq![object_arg("output", "wl_output")]),
        1 => listed(
            "presented",
            seq![
                uint_arg("tv_sec_hi"), uint_arg("tv_sec_lo"), uint_arg("tv_nsec"),
                uint_arg("refresh"), uint_arg("seq_hi"), uint_arg("seq_lo"), uint_arg("flags"),
            ],
        ),
        2 => listed("discarded", seq![]),
        _ => None,
    }
}

fn wp_presentation_feedback_event(opcode: u16) -> (found: Option<GeneratedMessageSpec>)
    ensures
        optional_message(found) == wp_presentation_feedback_events(opcode),
{
    match opcode {
        0 => message("sync_output", vec![object_arg("output", "wl_output")]),
        1 => message(
            "presented",
            vec![
                uint_arg("tv_sec_hi"), uint_arg("tv_sec_lo"), uint_arg("tv_nsec"),
                uint_arg("refresh"), uint_arg("seq_hi"), uint_arg("seq_lo"), uint_arg("flags"),
            ],
        ),
        2 => message("discarded", vec![]),
        _ => None,
    }
}

/// The events of `wp_color_manager_v1`.
pub open spec fn wp_color_manager_v1_events(opcode: u16) -> Option<MessageView> {
    match opcode {
        0 => listed("supported_intent", seq![uint_arg("render_intent")]),
        1 => listed("supported_feature", seq![uint_arg("feature")]),
        2 => listed("supported_tf_named", seq![uint_arg("tf")]),
        3 => listed("supported_primaries_named", seq![uint_arg("primaries")]),
        4 => listed("done", seq![]),
        _ => None,
    }
}

fn wp_color_manager_v1_event(opcode: u16) -> (found: Option<GeneratedMessageSpec>)
    ensures
        optional_message(found) == wp_color_manager_v1_events(opcode),
{
    match opcode {
        0 => message("supported_intent", vec![uint_arg("render_intent")]),
        1 => message("supported_feature", vec![uint_arg("feature")]),
        2 => message("supported_tf_named", vec![uint_arg("tf")]),
        3 => message("supported_primaries_named", vec![uint_arg("primaries")]),
        4 => message("done", vec![]),
        _ => None,
    }
}

/// The events of `wp_color_management_output_v1`.
pub open spec fn wp_color_management_output_v1_events(opcode: u16) -> Option<MessageView> {
    match opcode {
        0 => listed("image_description_changed", seq![]),
        _ => None,
    }
}

fn wp_color_management_output_v1_event(opcode: u16) -> (found: Option<GeneratedMessageSpec>)
    ensures
        optional_message(found) == wp_color_management_output_v1_events(opcode),
{
    match opcode {
        0 => message("image_description_changed", vec![]),
        _ => None,
    }
}

/// The events of `wp_color_management_surface_feedback_v1`.
pub open spec fn wp_color_management_surface_feedback_v1_events(opcode: u16) -> Option<MessageView> {
    match opcode {
        0 => listed("preferred_changed", seq![uint_arg("identity")]),
        1 => listed("preferred_changed2", seq![uint_arg("identity_hi"), uint_arg("identity_lo")]),
        _ => None,
    }
}

fn wp_color_management_surface_feedback_v1_event(opcode: u16) -> (found: Option<GeneratedMessageSpec>)
    ensures
        optional_message(found) == wp_color_management_surface_feedback_v1_events(opcode),
{
    match opcode {
        0 => message("preferred_changed", vec![uint_arg("identity")]),
        1 => message("preferred_changed2", vec![uint_arg("identity_hi"), uint_arg("identity_lo")]),
        _ => None,
    }
}

/// The events of `wp_image_description_v1`.
pub open spec fn wp_image_description_v1_events(opcode: u16) -> Option<MessageView> {
    match opcode {
        0 => listed("failed", seq![uint_arg("cause"), string_arg("msg")]),
        1 => listed("ready", seq![uint_arg("identity")]),
        2 => listed("ready2", seq![uint_arg("identity_hi"), uint_arg("identity_lo")]),
        _ => None,
    }
}

fn wp_image_description_v1_event(opcode: u16) -> (found: Option<GeneratedMessageSpec>)
    ensures
        optional_message(found) == wp_image_description_v1_events(opcode),
{
    match opcode {
        0 => message("failed", vec![uint_arg("cause"), string_arg("msg")]),
        1 => message("ready", vec![uint_arg("identity")]),
        2 => message("ready2", vec![uint_arg("identity_hi"), uint_arg("identity_lo")]),
        _ => None,
    }
}

/// The events of `wp_image_description_info_v1`.
pub open spec fn wp_image_description_info_v1_events(opcode: u16) -> Option<MessageView> {
    match opcode {
        0 => listed("done", seq![]),
        1 => listed("icc_file", seq![fd_arg("icc"), uint_arg("icc_size")]),
        2 => listed(
            "primaries",
            seq![
                int_arg("r_x"), int_arg("r_y"), int_arg("g_x"), int_arg("g_y"), int_arg("b_x"),
                int_arg("b_y"), int_arg("w_x"), int_arg("w_y"),
            ],
        ),
        3 => listed("primaries_named", seq![uint_arg("primaries")]),
        4 => listed("tf_power", seq![uint_arg("eexp")]),
        5 => listed("tf_named", seq![uint_arg("tf")]),
        6 => listed(
            "luminances",
            seq![
                uint_arg("min_lum"), uint_arg("max_lum"), uint_arg("reference_lum"),
            ],
        ),
        7 => listed(
            "target_primaries",
            seq![
                int_arg("r_x"), int_arg("r_y"), int_arg("g_x"), int_arg("g_y"), int_arg("b_x"),
                int_arg("b_y"), int_arg("w_x"), int_arg("w_y"),
            ],
        ),
        8 => listed("target_luminance", seq![uint_arg("min_lum"), uint_arg("max_lum")]),
        9 => listed("target_max_cll", seq![uint_arg("max_cll")]),
        10 => listed("target_max_fall", seq![uint_arg("max_fall")]),
        _ => None,
    }
}

fn wp_image_description_info_v1_event(opcode: u16) -> (found: Option<GeneratedMessageSpec>)
    ensures
        optional_message(found) == wp_image_description_info_v1_events(opcode),
{
    match opcode {
        0 => message("done", vec![]),
        1 => message("icc_file", vec![fd_arg("icc"), uint_arg("icc_size")]),
        2 => message(
            "primaries",
            vec![
                int_arg("r_x"), int_arg("r_y"), int_arg("g_x"), int_arg("g_y"), int_arg("b_x"),
                int_arg("b_y"), int_arg("w_x"), int_arg("w_y"),
            ],
        ),
        3 => message("primaries_named", vec![uint_arg("primaries")]),
        4 => message("tf_power", vec![uint_arg("eexp")]),
        5 => message("tf_named", vec![uint_arg("tf")]),
        6 => message(
            "luminances",
            vec![
                uint_arg("min_lum"), uint_arg("max_lum"), uint_arg("reference_lum"),
            ],
        ),
        7 => message(
            "target_primaries",
            vec![
                int_arg("r_x"), int_arg("r_y"), int_arg("g_x"), int_arg("g_y"), int_arg("b_x"),
                int_arg("b_y"), int_arg("w_x"), int_arg("w_y"),
            ],
        ),
        8 => message("target_luminance", vec![uint_arg("min_lum"), uint_arg("max_lum")]),
        9 => message("target_max_cll", vec![uint_arg("max_cll")]),
        10 => message("target_max_fall", vec![uint_arg("max_fall")]),
        _ => None,
    }
}

/// The events of `wp_fractional_scale_v1`.
pub open spec fn wp_fractional_scale_v1_events(opcode: u16) -> Option<MessageView> {
    match opcode {
        0 => listed("preferred_scale", seq![uint_arg("scale")]),
        _ => None,
    }
}

fn wp_fractional_scale_v1_event(opcode: u16) -> (found: Option<GeneratedMessageSpec>)
    ensures
        optional_message(found) == wp_fractional_scale_v1_events(opcode),
{
    match opcode {
        0 => message("preferred_scale", vec![uint_arg("scale")]),
        _ => None,
    }
}

/// The event that an opcode stands for.
pub open spec fn event_message(interface: InterfaceId, opcode: u16) -> Option<MessageView> {
    match interface {
        InterfaceId::WlDisplay => wl_display_events(opcode),
        InterfaceId::WlRegistry => wl_registry_events(opcode),
        InterfaceId::WlCallback => wl_callback_events(opcode),
        InterfaceId::WlBuffer => wl_buffer_events(opcode),
        InterfaceId::WlDataOffer => wl_data_offer_events(opcode),
        InterfaceId::WlDataSource => wl_data_source_events(opcode),
        InterfaceId::WlDataDevice => wl_data_device_events(opcode),
        InterfaceId::WlShellSurface => wl_shell_surface_events(opcode),
        InterfaceId::WlSurface => wl_surface_events(opcode),
        InterfaceId::WlSeat => wl_seat_events(opcode),
        InterfaceId::WlPointer => wl_pointer_events(opcode),
        InterfaceId::WlKeyboard => wl_keyboard_events(opcode),
        InterfaceId::WlTouch => wl_touch_events(opcode),
        InterfaceId::WlOutput => wl_output_events(opcode),
        InterfaceId::XdgWmBase => xdg_wm_base_events(opcode),
        InterfaceId::XdgSurface => xdg_surface_events(opcode),
        InterfaceId::XdgToplevel => xdg_toplevel_events(opcode),
        InterfaceId::XdgPopup => xdg_popup_events(opcode),
        InterfaceId::ZwpLinuxDmabufV1 => zwp_linux_dmabuf_v1_events(opcode),
        InterfaceId::ZwpLinuxBufferParamsV1 => zwp_linux_buffer_params_v1_events(opcode),
        InterfaceId::ZwpLinuxDmabufFeedbackV1 => zwp_linux_dmabuf_feedback_v1_events(opcode),
        InterfaceId::WpPresentation => wp_presentation_events(opcode),
        InterfaceId::WpPresentationFeedback => wp_presentation_feedback_events(opcode),
        InterfaceId::WpColorManagerV1 => wp_color_manager_v1_events(opcode),
        InterfaceId::WpColorManagementOutputV1 => wp_color_management_output_v1_events(opcode),
        InterfaceId::WpColorManagementSurfaceFeedbackV1 => wp_color_management_surface_feedback_v1_events(opcode),
        InterfaceId::WpImageDescriptionV1 => wp_image_description_v1_events(opcode),
        InterfaceId::WpImageDescriptionInfoV1 => wp_image_description_info_v1_events(opcode),
        InterfaceId::WpFractionalScaleV1 => wp_fractional_scale_v1_events(opcode),
        _ => None,
    }
}

/// Looks up the specification of the event that an opcode stands for.
pub fn event_message_spec(interface: InterfaceId, opcode: u16) -> (found: Option<GeneratedMessageSpec>)
    ensures
        optional_message(found) == event_message(interface, opcode),
{
    match interface {
        InterfaceId::WlDisplay => wl_display_event(opcode),
        InterfaceId::WlRegistry => wl_registry_event(opcode),
        InterfaceId::WlCallback => wl_callback_event(opcode),
        InterfaceId::WlBuffer => wl_buffer_event(opcode),
        InterfaceId::WlDataOffer => wl_data_offer_event(opcode),
        InterfaceId::WlDataSource => wl_data_source_event(opcode),
        InterfaceId::WlDataDevice => wl_data_device_event(opcode),
        InterfaceId::WlShellSurface => wl_shell_surface_event(opcode),
        InterfaceId::WlSurface => wl_surface_event(opcode),
        InterfaceId::WlSeat => wl_seat_event(opcode),
        InterfaceId::WlPointer => wl_pointer_event(opcode),
        InterfaceId::WlKeyboard => wl_keyboard_event(opcode),
        InterfaceId::WlTouch => wl_touch_event(opcode),
        InterfaceId::WlOutput => wl_output_event(opcode),
        InterfaceId::XdgWmBase => xdg_wm_base_event(opcode),
        InterfaceId::XdgSurface => xdg_surface_event(opcode),
        InterfaceId::XdgToplevel => xdg_toplevel_event(opcode),
        InterfaceId::XdgPopup => xdg_popup_event(opcode),
        InterfaceId::ZwpLinuxDmabufV1 => zwp_linux_dmabuf_v1_event(opcode),
        InterfaceId::ZwpLinuxBufferParamsV1 => zwp_linux_buffer_params_v1_event(opcode),
        InterfaceId::ZwpLinuxDmabufFeedbackV1 => zwp_linux_dmabuf_feedback_v1_event(opcode),
        InterfaceId::WpPresentation => wp_presentation_event(opcode),
        InterfaceId::WpPresentationFeedback => wp_presentation_feedback_event(opcode),
        InterfaceId::WpColorManagerV1 => wp_color_manager_v1_event(opcode),
        InterfaceId::WpColorManagementOutputV1 => wp_color_management_output_v1_event(opcode),
        InterfaceId::WpColorManagementSurfaceFeedbackV1 => wp_color_management_surface_feedback_v1_event(opcode),
        InterfaceId::WpImageDescriptionV1 => wp_image_description_v1_event(opcode),
        InterfaceId::WpImageDescriptionInfoV1 => wp_image_description_info_v1_event(opcode),
        InterfaceId::WpFractionalScaleV1 => wp_fractional_scale_v1_event(opcode),
        _ => None,
    }
}

/// The full name of a message.
pub open spec fn full_name(interface: Seq<char>, message: Seq<char>) -> Seq<char> {
    interface + "."@ + message
}

/// Joins the name of an interface and the name of one of its messages.
pub fn message_full_name(interface: &str, message: &str) -> (name: String)
    ensures
        name@ == full_name(interface@, message@),
{
    let mut name = interface.to_owned();
    name.append(".");
    name.append(message);
    name
}

/// More than the opcodes of any interface.
pub const OPCODES: u16 = 16;

/// The opcode of the first request of an interface, from `opcode` on, that has
/// the full name.
pub open spec fn opcode_named(interface: InterfaceId, name: Seq<char>, opcode: u16) -> Option<u16>
    decreases OPCODES - opcode,
{
    if opcode >= OPCODES {
        None
    } else {
        match request_message(interface, opcode) {
            Some(found) if full_name(interface_of(interface).name@, found.name@) == name => Some(
                opcode,
            ),
            _ => opcode_named(interface, name, (opcode + 1) as u16),
        }
    }
}

/// The request that has the full name, in the interfaces from `index` on.
pub open spec fn request_named_from(name: Seq<char>, index: int) -> Option<GeneratedRequestId>
    decreases all_interfaces().len() - index,
{
    if index < 0 || index >= all_interfaces().len() {
        None
    } else {
        match opcode_named(all_interfaces()[index], name, 0) {
            Some(opcode) => request_at(all_interfaces()[index], opcode),
            None => request_named_from(name, index + 1),
        }
    }
}

/// The request of a full name, such as `wl_surface.commit`.
pub open spec fn request_named(name: Seq<char>) -> Option<GeneratedRequestId> {
    request_named_from(name, 0)
}

fn find_opcode(interface: InterfaceId, name: &str) -> (found: Option<u16>)
    ensures
        found == opcode_named(interface, name@, 0),
{
    let mut opcode: u16 = 0;
    while opcode < OPCODES
        invariant
            opcode <= OPCODES,
            opcode_named(interface, name@, 0) == opcode_named(interface, name@, opcode),
        decreases OPCODES - opcode,
    {
        if let Some(candidate) = request_message_spec(interface, opcode) {
            let candidate_name = message_full_name(interface_spec(interface).name, candidate.name);
            if str_eq(candidate_name.as_str(), name) {
                return Some(opcode);
            }
        }
        opcode = opcode + 1;
    }
    None
}

/// Looks up a request by its full name.
pub fn find_generated_request_id(name: &str) -> (found: Option<GeneratedRequestId>)
    ensures
        found == request_named(name@),
{
    let ids = interfaces();
    let mut index: usize = 0;
    while index < ids.len()
        invariant
            index <= ids@.len(),
            ids@ == all_interfaces(),
            request_named(name@) == request_named_from(name@, index as int),
        decreases ids@.len() - index,
    {
        if let Some(opcode) = find_opcode(ids[index], name) {
            return request_by_opcode(ids[index], opcode);
        }
        index = index + 1;
    }
    None
}

/// The specification of a request: that of its opcode in its interface.
pub open spec fn request_of(id: GeneratedRequestId) -> Option<MessageView> {
    request_message(request_place(id).0, request_place(id).1)
}

/// Each request is the one that its interface has under its opcode.
pub proof fn request_is_found_by_its_opcode(id: GeneratedRequestId)
    ensures
        request_at(request_place(id).0, request_place(id).1) == Some(id),
        request_of(id) is Some,
{
}

/// The names of interfaces are all different: each interface is found by its
/// own name.
#[verifier::rlimit(60)]
pub proof fn interface_is_found_by_its_name(id: InterfaceId)
    ensures
        interface_named(interface_of(id).name@) == Some(id),
{

    reveal_strlit("wl_display");
    assert("wl_display"@.len() == 10);
    reveal_strlit("wl_registry");
    assert("wl_registry"@.len() == 11);
    reveal_strlit("wl_callback");
    assert("wl_callback"@.len() == 11);
    reveal_strlit("wl_compositor");
    assert("wl_compositor"@.len() == 13);
    reveal_strlit("wl_buffer");
    assert("wl_buffer"@.len() == 9);
    reveal_strlit("wl_data_offer");
    assert("wl_data_offer"@.len() == 13);
    reveal_strlit("wl_data_source");
    assert("wl_data_source"@.len() == 14);
    reveal_strlit("wl_data_device");
    assert("wl_data_device"@.len() == 14);
    reveal_strlit("wl_data_device_manager");
    assert("wl_data_device_manager"@.len() == 22);
    reveal_strlit("wl_shell");
    assert("wl_shell"@.len() == 8);
    reveal_strlit("wl_shell_surface");
    assert("wl_shell_surface"@.len() == 16);
    reveal_strlit("wl_surface");
    assert("wl_surface"@.len() == 10);
    reveal_strlit("wl_seat");
    assert("wl_seat"@.len() == 7);
    reveal_strlit("wl_pointer");
    assert("wl_pointer"@.len() == 10);
    reveal_strlit("wl_keyboard");
    assert("wl_keyboard"@.len() == 11);
    reveal_strlit("wl_touch");
    assert("wl_touch"@.len() == 8);
    reveal_strlit("wl_output");
    assert("wl_output"@.len() == 9);
    reveal_strlit("wl_region");
    assert("wl_region"@.len() == 9);
    reveal_strlit("wl_subcompositor");
    assert("wl_subcompositor"@.len() == 16);
    reveal_strlit("wl_subsurface");
    assert("wl_subsurface"@.len() == 13);
    reveal_strlit("wl_fixes");
    assert("wl_fixes"@.len() == 8);
    reveal_strlit("xdg_wm_base");
    assert("xdg_wm_base"@.len() == 11);
    reveal_strlit("xdg_positioner");
    assert("xdg_positioner"@.len() == 14);
    reveal_strlit("xdg_surface");
    assert("xdg_surface"@.len() == 11);
    reveal_strlit("xdg_toplevel");
    assert("xdg_toplevel"@.len() == 12);
    reveal_strlit("xdg_popup");
    assert("xdg_popup"@.len() == 9);
    reveal_strlit("zwp_linux_dmabuf_v1");
    assert("zwp_linux_dmabuf_v1"@.len() == 19);
    reveal_strlit("zwp_linux_buffer_params_v1");
    assert("zwp_linux_buffer_params_v1"@.len() == 26);
    reveal_strlit("zwp_linux_dmabuf_feedback_v1");
    assert("zwp_linux_dmabuf_feedback_v1"@.len() == 28);
    reveal_strlit("wp_linux_drm_syncobj_manager_v1");
    assert("wp_linux_drm_syncobj_manager_v1"@.len() == 31);
    reveal_strlit("wp_linux_drm_syncobj_timeline_v1");
    assert("wp_linux_drm_syncobj_timeline_v1"@.len() == 32);
    reveal_strlit("wp_linux_drm_syncobj_surface_v1");
    assert("wp_linux_drm_syncobj_surface_v1"@.len() == 31);
    reveal_strlit("wp_tearing_control_manager_v1");
    assert("wp_tearing_control_manager_v1"@.len() == 29);
    reveal_strlit("wp_tearing_control_v1");
    assert("wp_tearing_control_v1"@.len() == 21);
    reveal_strlit("wp_presentation");
    assert("wp_presentation"@.len() == 15);
    reveal_strlit("wp_presentation_feedback");
    assert("wp_presentation_feedback"@.len() == 24);
    reveal_strlit("wp_color_manager_v1");
    assert("wp_color_manager_v1"@.len() == 19);
    reveal_strlit("wp_color_management_output_v1");
    assert("wp_color_management_output_v1"@.len() == 29);
    reveal_strlit("wp_color_management_surface_v1");
    assert("wp_color_management_surface_v1"@.len() == 30);
    reveal_strlit("wp_color_management_surface_feedback_v1");
    assert("wp_color_management_surface_feedback_v1"@.len() == 39);
    reveal_strlit("wp_image_description_creator_icc_v1");
    assert("wp_image_description_creator_icc_v1"@.len() == 35);
    reveal_strlit("wp_image_description_creator_params_v1");
    assert("wp_image_description_creator_params_v1"@.len() == 38);
    reveal_strlit("wp_image_description_v1");
    assert("wp_image_description_v1"@.len() == 23);
    reveal_strlit("wp_image_description_info_v1");
    assert("wp_image_description_info_v1"@.len() == 28);
    reveal_strlit("wp_image_description_reference_v1");
    assert("wp_image_description_reference_v1"@.len() == 33);
    reveal_strlit("wp_fifo_manager_v1");
    assert("wp_fifo_manager_v1"@.len() == 18);
    reveal_strlit("wp_fifo_v1");
    assert("wp_fifo_v1"@.len() == 10);
    reveal_strlit("wp_fractional_scale_manager_v1");
    assert("wp_fractional_scale_manager_v1"@.len() == 30);
    reveal_strlit("wp_fractional_scale_v1");
    assert("wp_fractional_scale_v1"@.len() == 22);
    reveal_strlit("wp_viewporter");
    assert("wp_viewporter"@.len() == 13);
    reveal_strlit("wp_viewport");
    assert("wp_viewport"@.len() == 11);
    assert("wl_registry"@[3] != "wl_callback"@[3]);
    assert("wl_compositor"@[3] != "wl_data_offer"@[3]);
    assert("wl_data_source"@[8] != "wl_data_device"@[8]);
    assert("wl_display"@[3] != "wl_surface"@[3]);
    assert("wl_display"@[3] != "wl_pointer"@[3]);
    assert("wl_surface"@[3] != "wl_pointer"@[3]);
    assert("wl_registry"@[3] != "wl_keyboard"@[3]);
    assert("wl_callback"@[3] != "wl_keyboard"@[3]);
    assert("wl_shell"@[3] != "wl_touch"@[3]);
    assert("wl_buffer"@[3] != "wl_output"@[3]);
    assert("wl_buffer"@[3] != "wl_region"@[3]);
    assert("wl_output"@[3] != "wl_region"@[3]);
    assert("wl_shell_surface"@[4] != "wl_subcompositor"@[4]);
    assert("wl_compositor"@[3] != "wl_subsurface"@[3]);
    assert("wl_data_offer"@[3] != "wl_subsurface"@[3]);
    assert("wl_shell"@[3] != "wl_fixes"@[3]);
    assert("wl_touch"@[3] != "wl_fixes"@[3]);
    assert("wl_registry"@[0] != "xdg_wm_base"@[0]);
    assert("wl_callback"@[0] != "xdg_wm_base"@[0]);
    assert("wl_keyboard"@[0] != "xdg_wm_base"@[0]);
    assert("wl_data_source"@[0] != "xdg_positioner"@[0]);
    assert("wl_data_device"@[0] != "xdg_positioner"@[0]);
    assert("wl_registry"@[0] != "xdg_surface"@[0]);
    assert("wl_callback"@[0] != "xdg_surface"@[0]);
    assert("wl_keyboard"@[0] != "xdg_surface"@[0]);
    assert("xdg_wm_base"@[4] != "xdg_surface"@[4]);
    assert("wl_buffer"@[0] != "xdg_popup"@[0]);
    assert("wl_output"@[0] != "xdg_popup"@[0]);
    assert("wl_region"@[0] != "xdg_popup"@[0]);
    assert("wp_linux_drm_syncobj_manager_v1"@[21] != "wp_linux_drm_syncobj_surface_v1"@[21]);
    assert("zwp_linux_dmabuf_v1"@[0] != "wp_color_manager_v1"@[0]);
    assert("wp_tearing_control_manager_v1"@[3] != "wp_color_management_output_v1"@[3]);
    assert("zwp_linux_dmabuf_feedback_v1"@[0] != "wp_image_description_info_v1"@[0]);
    assert("wl_display"@[1] != "wp_fifo_v1"@[1]);
    assert("wl_surface"@[1] != "wp_fifo_v1"@[1]);
    assert("wl_pointer"@[1] != "wp_fifo_v1"@[1]);
    assert("wp_color_management_surface_v1"@[3] != "wp_fractional_scale_manager_v1"@[3]);
    assert("wl_data_device_manager"@[1] != "wp_fractional_scale_v1"@[1]);
    assert("wl_compositor"@[1] != "wp_viewporter"@[1]);
    assert("wl_data_offer"@[1] != "wp_viewporter"@[1]);
    assert("wl_subsurface"@[1] != "wp_viewporter"@[1]);
    assert("wl_registry"@[1] != "wp_viewport"@[1]);
    assert("wl_callback"@[1] != "wp_viewport"@[1]);
    assert("wl_keyboard"@[1] != "wp_viewport"@[1]);
    assert("xdg_wm_base"@[0] != "wp_viewport"@[0]);
    assert("xdg_surface"@[0] != "wp_viewport"@[0]);
}

} // verus!
