//! What requests say: each part of a request is the argument at its place, and from
//! the parts the arguments are made again.

use crate::decode;
use crate::messages;
use crate::messages::{EventView, GeneratedHookRequest, GeneratedImplementedRequest, TrackedRequestView};
use crate::tables;
use crate::tables::{GeneratedRequestId, InterfaceId};
use crate::wire;
use crate::wire::{ArgView, GeneratedArgKind, GeneratedArgSpec};
use vstd::prelude::*;

verus! {

/// Which request of the protocol a request that windows and buffers are noted by is.
pub open spec fn noted_id(request: TrackedRequestView) -> GeneratedRequestId {
    match request {
        TrackedRequestView::WlRegistryBind { .. } => GeneratedRequestId::WlRegistryBind,
        TrackedRequestView::WlSubcompositorGetSubsurface { .. } => GeneratedRequestId::WlSubcompositorGetSubsurface,
        TrackedRequestView::WlSubsurfaceDestroy => GeneratedRequestId::WlSubsurfaceDestroy,
        TrackedRequestView::WlSubsurfaceSetPosition { .. } => GeneratedRequestId::WlSubsurfaceSetPosition,
        TrackedRequestView::XdgWmBaseGetXdgSurface { .. } => GeneratedRequestId::XdgWmBaseGetXdgSurface,
        TrackedRequestView::XdgSurfaceGetToplevel { .. } => GeneratedRequestId::XdgSurfaceGetToplevel,
        TrackedRequestView::XdgSurfaceSetWindowGeometry { .. } => GeneratedRequestId::XdgSurfaceSetWindowGeometry,
        TrackedRequestView::XdgSurfaceAckConfigure { .. } => GeneratedRequestId::XdgSurfaceAckConfigure,
        TrackedRequestView::XdgToplevelSetTitle { .. } => GeneratedRequestId::XdgToplevelSetTitle,
        TrackedRequestView::XdgToplevelSetAppId { .. } => GeneratedRequestId::XdgToplevelSetAppId,
        TrackedRequestView::ZwpLinuxDmabufV1CreateParams { .. } => GeneratedRequestId::ZwpLinuxDmabufV1CreateParams,
        TrackedRequestView::ZwpLinuxBufferParamsV1Destroy => GeneratedRequestId::ZwpLinuxBufferParamsV1Destroy,
        TrackedRequestView::ZwpLinuxBufferParamsV1Add { .. } => GeneratedRequestId::ZwpLinuxBufferParamsV1Add,
        TrackedRequestView::ZwpLinuxBufferParamsV1Create { .. } => GeneratedRequestId::ZwpLinuxBufferParamsV1Create,
        TrackedRequestView::ZwpLinuxBufferParamsV1CreateImmed { .. } => GeneratedRequestId::ZwpLinuxBufferParamsV1CreateImmed,
        TrackedRequestView::WpViewporterGetViewport { .. } => GeneratedRequestId::WpViewporterGetViewport,
        TrackedRequestView::WpViewportDestroy => GeneratedRequestId::WpViewportDestroy,
        TrackedRequestView::WpViewportSetDestination { .. } => GeneratedRequestId::WpViewportSetDestination,
    }
}

/// The arguments of a request that windows and buffers are noted by, in the order of the protocol.
pub open spec fn noted_args(request: TrackedRequestView) -> Seq<ArgView> {
    match request {
        TrackedRequestView::WlRegistryBind { name, id_interface, id_version, id } => seq![ArgView::Uint(name), ArgView::String(id_interface), ArgView::Uint(id_version), ArgView::NewId(id)],
        TrackedRequestView::WlSubcompositorGetSubsurface { id, surface, parent } => seq![ArgView::NewId(id), ArgView::Object(surface), ArgView::Object(parent)],
        TrackedRequestView::WlSubsurfaceDestroy => Seq::empty(),
        TrackedRequestView::WlSubsurfaceSetPosition { x, y } => seq![ArgView::Int(x), ArgView::Int(y)],
        TrackedRequestView::XdgWmBaseGetXdgSurface { id, surface } => seq![ArgView::NewId(id), ArgView::Object(surface)],
        TrackedRequestView::XdgSurfaceGetToplevel { id } => seq![ArgView::NewId(id)],
        TrackedRequestView::XdgSurfaceSetWindowGeometry { x, y, width, height } => seq![ArgView::Int(x), ArgView::Int(y), ArgView::Int(width), ArgView::Int(height)],
        TrackedRequestView::XdgSurfaceAckConfigure { serial } => seq![ArgView::Uint(serial)],
        TrackedRequestView::XdgToplevelSetTitle { title } => seq![ArgView::String(title)],
        TrackedRequestView::XdgToplevelSetAppId { app_id } => seq![ArgView::String(app_id)],
        TrackedRequestView::ZwpLinuxDmabufV1CreateParams { params_id } => seq![ArgView::NewId(params_id)],
        TrackedRequestView::ZwpLinuxBufferParamsV1Destroy => Seq::empty(),
        TrackedRequestView::ZwpLinuxBufferParamsV1Add { plane_idx, offset, stride, modifier_hi, modifier_lo, .. } => seq![ArgView::Fd, ArgView::Uint(plane_idx), ArgView::Uint(offset), ArgView::Uint(stride), ArgView::Uint(modifier_hi), ArgView::Uint(modifier_lo)],
        TrackedRequestView::ZwpLinuxBufferParamsV1Create { width, height, format, flags } => seq![ArgView::Int(width), ArgView::Int(height), ArgView::Uint(format), ArgView::Uint(flags)],
        TrackedRequestView::ZwpLinuxBufferParamsV1CreateImmed { buffer_id, width, height, format, flags } => seq![ArgView::NewId(buffer_id), ArgView::Int(width), ArgView::Int(height), ArgView::Uint(format), ArgView::Uint(flags)],
        TrackedRequestView::WpViewporterGetViewport { id, surface } => seq![ArgView::NewId(id), ArgView::Object(surface)],
        TrackedRequestView::WpViewportDestroy => Seq::empty(),
        TrackedRequestView::WpViewportSetDestination { width, height } => seq![ArgView::Int(width), ArgView::Int(height)],
    }
}

/// Read from its arguments, a request that windows and buffers are noted by is the one that the protocol has there, and each of
/// its parts is the argument at its place: none is left out, added or moved.
pub proof fn noted_request_is_as_sent(id: GeneratedRequestId, args: Seq<ArgView>)
    ensures
        messages::tracked_request_of(id, args) matches Some(request) ==> noted_id(request) == id && noted_args(request)
            == args,
{
    if let Some(request) = messages::tracked_request_of(id, args) {
        assert(noted_args(request) =~= args);
    }
}

/// Made of its arguments again, a request that windows and buffers are noted by is the same.
pub proof fn noted_request_is_read_back(request: TrackedRequestView)
    requires
        (request is ZwpLinuxBufferParamsV1Add ==> request->ZwpLinuxBufferParamsV1Add_fd),
    ensures
        messages::tracked_request_of(noted_id(request), noted_args(request)) == Some(request),
{
}

/// Which request of the protocol a request that the proxy takes part in is.
pub open spec fn implemented_id(request: GeneratedImplementedRequest) -> GeneratedRequestId {
    match request {
        GeneratedImplementedRequest::WlDisplaySync { .. } => GeneratedRequestId::WlDisplaySync,
        GeneratedImplementedRequest::WlDisplayGetRegistry { .. } => GeneratedRequestId::WlDisplayGetRegistry,
        GeneratedImplementedRequest::WlCompositorCreateSurface { .. } => GeneratedRequestId::WlCompositorCreateSurface,
        GeneratedImplementedRequest::WlCompositorCreateRegion { .. } => GeneratedRequestId::WlCompositorCreateRegion,
        GeneratedImplementedRequest::WlDataDeviceManagerCreateDataSource { .. } => GeneratedRequestId::WlDataDeviceManagerCreateDataSource,
        GeneratedImplementedRequest::WlDataDeviceManagerGetDataDevice { .. } => GeneratedRequestId::WlDataDeviceManagerGetDataDevice,
        GeneratedImplementedRequest::WlShellGetShellSurface { .. } => GeneratedRequestId::WlShellGetShellSurface,
        GeneratedImplementedRequest::WlSurfaceFrame { .. } => GeneratedRequestId::WlSurfaceFrame,
        GeneratedImplementedRequest::WlSurfaceGetRelease { .. } => GeneratedRequestId::WlSurfaceGetRelease,
        GeneratedImplementedRequest::WlSeatGetPointer { .. } => GeneratedRequestId::WlSeatGetPointer,
        GeneratedImplementedRequest::WlSeatGetKeyboard { .. } => GeneratedRequestId::WlSeatGetKeyboard,
        GeneratedImplementedRequest::WlSeatGetTouch { .. } => GeneratedRequestId::WlSeatGetTouch,
        GeneratedImplementedRequest::WlSubcompositorGetSubsurface { .. } => GeneratedRequestId::WlSubcompositorGetSubsurface,
        GeneratedImplementedRequest::WlFixesDestroyRegistry { .. } => GeneratedRequestId::WlFixesDestroyRegistry,
        GeneratedImplementedRequest::XdgWmBaseCreatePositioner { .. } => GeneratedRequestId::XdgWmBaseCreatePositioner,
        GeneratedImplementedRequest::XdgWmBaseGetXdgSurface { .. } => GeneratedRequestId::XdgWmBaseGetXdgSurface,
        GeneratedImplementedRequest::XdgSurfaceGetToplevel { .. } => GeneratedRequestId::XdgSurfaceGetToplevel,
        GeneratedImplementedRequest::XdgSurfaceGetPopup { .. } => GeneratedRequestId::XdgSurfaceGetPopup,
        GeneratedImplementedRequest::XdgSurfaceAckConfigure { .. } => GeneratedRequestId::XdgSurfaceAckConfigure,
        GeneratedImplementedRequest::ZwpLinuxDmabufV1CreateParams { .. } => GeneratedRequestId::ZwpLinuxDmabufV1CreateParams,
        GeneratedImplementedRequest::ZwpLinuxDmabufV1GetDefaultFeedback { .. } => GeneratedRequestId::ZwpLinuxDmabufV1GetDefaultFeedback,
        GeneratedImplementedRequest::ZwpLinuxDmabufV1GetSurfaceFeedback { .. } => GeneratedRequestId::ZwpLinuxDmabufV1GetSurfaceFeedback,
        GeneratedImplementedRequest::ZwpLinuxBufferParamsV1CreateImmed { .. } => GeneratedRequestId::ZwpLinuxBufferParamsV1CreateImmed,
        GeneratedImplementedRequest::WpLinuxDrmSyncobjManagerV1GetSurface { .. } => GeneratedRequestId::WpLinuxDrmSyncobjManagerV1GetSurface,
        GeneratedImplementedRequest::WpLinuxDrmSyncobjManagerV1ImportTimeline { .. } => GeneratedRequestId::WpLinuxDrmSyncobjManagerV1ImportTimeline,
        GeneratedImplementedRequest::WpLinuxDrmSyncobjTimelineV1Destroy => GeneratedRequestId::WpLinuxDrmSyncobjTimelineV1Destroy,
        GeneratedImplementedRequest::WpLinuxDrmSyncobjSurfaceV1Destroy => GeneratedRequestId::WpLinuxDrmSyncobjSurfaceV1Destroy,
        GeneratedImplementedRequest::WpLinuxDrmSyncobjSurfaceV1SetAcquirePoint { .. } => GeneratedRequestId::WpLinuxDrmSyncobjSurfaceV1SetAcquirePoint,
        GeneratedImplementedRequest::WpLinuxDrmSyncobjSurfaceV1SetReleasePoint { .. } => GeneratedRequestId::WpLinuxDrmSyncobjSurfaceV1SetReleasePoint,
        GeneratedImplementedRequest::WpTearingControlManagerV1GetTearingControl { .. } => GeneratedRequestId::WpTearingControlManagerV1GetTearingControl,
        GeneratedImplementedRequest::WpPresentationFeedback { .. } => GeneratedRequestId::WpPresentationFeedback,
        GeneratedImplementedRequest::WpColorManagerV1GetOutput { .. } => GeneratedRequestId::WpColorManagerV1GetOutput,
        GeneratedImplementedRequest::WpColorManagerV1GetSurface { .. } => GeneratedRequestId::WpColorManagerV1GetSurface,
        GeneratedImplementedRequest::WpColorManagerV1GetSurfaceFeedback { .. } => GeneratedRequestId::WpColorManagerV1GetSurfaceFeedback,
        GeneratedImplementedRequest::WpColorManagerV1CreateIccCreator { .. } => GeneratedRequestId::WpColorManagerV1CreateIccCreator,
        GeneratedImplementedRequest::WpColorManagerV1CreateParametricCreator { .. } => GeneratedRequestId::WpColorManagerV1CreateParametricCreator,
        GeneratedImplementedRequest::WpColorManagerV1CreateWindowsScrgb { .. } => GeneratedRequestId::WpColorManagerV1CreateWindowsScrgb,
        GeneratedImplementedRequest::WpColorManagerV1GetImageDescription { .. } => GeneratedRequestId::WpColorManagerV1GetImageDescription,
        GeneratedImplementedRequest::WpColorManagerV1CreateWindowsBt2100 { .. } => GeneratedRequestId::WpColorManagerV1CreateWindowsBt2100,
        GeneratedImplementedRequest::WpColorManagementOutputV1GetImageDescription { .. } => GeneratedRequestId::WpColorManagementOutputV1GetImageDescription,
        GeneratedImplementedRequest::WpColorManagementSurfaceFeedbackV1GetPreferred { .. } => GeneratedRequestId::WpColorManagementSurfaceFeedbackV1GetPreferred,
        GeneratedImplementedRequest::WpColorManagementSurfaceFeedbackV1GetPreferredParametric { .. } => GeneratedRequestId::WpColorManagementSurfaceFeedbackV1GetPreferredParametric,
        GeneratedImplementedRequest::WpImageDescriptionCreatorIccV1Create { .. } => GeneratedRequestId::WpImageDescriptionCreatorIccV1Create,
        GeneratedImplementedRequest::WpImageDescriptionCreatorParamsV1Create { .. } => GeneratedRequestId::WpImageDescriptionCreatorParamsV1Create,
        GeneratedImplementedRequest::WpImageDescriptionV1GetInformation { .. } => GeneratedRequestId::WpImageDescriptionV1GetInformation,
        GeneratedImplementedRequest::WpFifoManagerV1GetFifo { .. } => GeneratedRequestId::WpFifoManagerV1GetFifo,
        GeneratedImplementedRequest::WpFractionalScaleManagerV1GetFractionalScale { .. } => GeneratedRequestId::WpFractionalScaleManagerV1GetFractionalScale,
        GeneratedImplementedRequest::WpViewporterGetViewport { .. } => GeneratedRequestId::WpViewporterGetViewport,
    }
}

/// The arguments of a request that the proxy takes part in, in the order of the protocol.
pub open spec fn implemented_args(request: GeneratedImplementedRequest) -> Seq<ArgView> {
    match request {
        GeneratedImplementedRequest::WlDisplaySync { callback } => seq![ArgView::NewId(callback)],
        GeneratedImplementedRequest::WlDisplayGetRegistry { registry } => seq![ArgView::NewId(registry)],
        GeneratedImplementedRequest::WlCompositorCreateSurface { id } => seq![ArgView::NewId(id)],
        GeneratedImplementedRequest::WlCompositorCreateRegion { id } => seq![ArgView::NewId(id)],
        GeneratedImplementedRequest::WlDataDeviceManagerCreateDataSource { id } => seq![ArgView::NewId(id)],
        GeneratedImplementedRequest::WlDataDeviceManagerGetDataDevice { id, seat } => seq![ArgView::NewId(id), ArgView::Object(seat)],
        GeneratedImplementedRequest::WlShellGetShellSurface { id, surface } => seq![ArgView::NewId(id), ArgView::Object(surface)],
        GeneratedImplementedRequest::WlSurfaceFrame { callback } => seq![ArgView::NewId(callback)],
        GeneratedImplementedRequest::WlSurfaceGetRelease { callback } => seq![ArgView::NewId(callback)],
        GeneratedImplementedRequest::WlSeatGetPointer { id } => seq![ArgView::NewId(id)],
        GeneratedImplementedRequest::WlSeatGetKeyboard { id } => seq![ArgView::NewId(id)],
        GeneratedImplementedRequest::WlSeatGetTouch { id } => seq![ArgView::NewId(id)],
        GeneratedImplementedRequest::WlSubcompositorGetSubsurface { id, surface, parent } => seq![ArgView::NewId(id), ArgView::Object(surface), ArgView::Object(parent)],
        GeneratedImplementedRequest::WlFixesDestroyRegistry { registry } => seq![ArgView::Object(registry)],
        GeneratedImplementedRequest::XdgWmBaseCreatePositioner { id } => seq![ArgView::NewId(id)],
        GeneratedImplementedRequest::XdgWmBaseGetXdgSurface { id, surface } => seq![ArgView::NewId(id), ArgView::Object(surface)],
        GeneratedImplementedRequest::XdgSurfaceGetToplevel { id } => seq![ArgView::NewId(id)],
        GeneratedImplementedRequest::XdgSurfaceGetPopup { id, parent, positioner } => seq![ArgView::NewId(id), ArgView::Object(parent), ArgView::Object(positioner)],
        GeneratedImplementedRequest::XdgSurfaceAckConfigure { serial } => seq![ArgView::Uint(serial)],
        GeneratedImplementedRequest::ZwpLinuxDmabufV1CreateParams { params_id } => seq![ArgView::NewId(params_id)],
        GeneratedImplementedRequest::ZwpLinuxDmabufV1GetDefaultFeedback { id } => seq![ArgView::NewId(id)],
        GeneratedImplementedRequest::ZwpLinuxDmabufV1GetSurfaceFeedback { id, surface } => seq![ArgView::NewId(id), ArgView::Object(surface)],
        GeneratedImplementedRequest::ZwpLinuxBufferParamsV1CreateImmed { buffer_id, width, height, format, flags } => seq![ArgView::NewId(buffer_id), ArgView::Int(width), ArgView::Int(height), ArgView::Uint(format), ArgView::Uint(flags)],
        GeneratedImplementedRequest::WpLinuxDrmSyncobjManagerV1GetSurface { id, surface } => seq![ArgView::NewId(id), ArgView::Object(surface)],
        GeneratedImplementedRequest::WpLinuxDrmSyncobjManagerV1ImportTimeline { id, .. } => seq![ArgView::NewId(id), ArgView::Fd],
        GeneratedImplementedRequest::WpLinuxDrmSyncobjTimelineV1Destroy => Seq::empty(),
        GeneratedImplementedRequest::WpLinuxDrmSyncobjSurfaceV1Destroy => Seq::empty(),
        GeneratedImplementedRequest::WpLinuxDrmSyncobjSurfaceV1SetAcquirePoint { timeline, point_hi, point_lo } => seq![ArgView::Object(timeline), ArgView::Uint(point_hi), ArgView::Uint(point_lo)],
        GeneratedImplementedRequest::WpLinuxDrmSyncobjSurfaceV1SetReleasePoint { timeline, point_hi, point_lo } => seq![ArgView::Object(timeline), ArgView::Uint(point_hi), ArgView::Uint(point_lo)],
        GeneratedImplementedRequest::WpTearingControlManagerV1GetTearingControl { id, surface } => seq![ArgView::NewId(id), ArgView::Object(surface)],
        GeneratedImplementedRequest::WpPresentationFeedback { surface, callback } => seq![ArgView::Object(surface), ArgView::NewId(callback)],
        GeneratedImplementedRequest::WpColorManagerV1GetOutput { id, output } => seq![ArgView::NewId(id), ArgView::Object(output)],
        GeneratedImplementedRequest::WpColorManagerV1GetSurface { id, surface } => seq![ArgView::NewId(id), ArgView::Object(surface)],
        GeneratedImplementedRequest::WpColorManagerV1GetSurfaceFeedback { id, surface } => seq![ArgView::NewId(id), ArgView::Object(surface)],
        GeneratedImplementedRequest::WpColorManagerV1CreateIccCreator { obj } => seq![ArgView::NewId(obj)],
        GeneratedImplementedRequest::WpColorManagerV1CreateParametricCreator { obj } => seq![ArgView::NewId(obj)],
        GeneratedImplementedRequest::WpColorManagerV1CreateWindowsScrgb { image_description } => seq![ArgView::NewId(image_description)],
        GeneratedImplementedRequest::WpColorManagerV1GetImageDescription { image_description, reference } => seq![ArgView::NewId(image_description), ArgView::Object(reference)],
        GeneratedImplementedRequest::WpColorManagerV1CreateWindowsBt2100 { image_description } => seq![ArgView::NewId(image_description)],
        GeneratedImplementedRequest::WpColorManagementOutputV1GetImageDescription { image_description } => seq![ArgView::NewId(image_description)],
        GeneratedImplementedRequest::WpColorManagementSurfaceFeedbackV1GetPreferred { image_description } => seq![ArgView::NewId(image_description)],
        GeneratedImplementedRequest::WpColorManagementSurfaceFeedbackV1GetPreferredParametric { image_description } => seq![ArgView::NewId(image_description)],
        GeneratedImplementedRequest::WpImageDescriptionCreatorIccV1Create { image_description } => seq![ArgView::NewId(image_description)],
        GeneratedImplementedRequest::WpImageDescriptionCreatorParamsV1Create { image_description } => seq![ArgView::NewId(image_description)],
        GeneratedImplementedRequest::WpImageDescriptionV1GetInformation { information } => seq![ArgView::NewId(information)],
        GeneratedImplementedRequest::WpFifoManagerV1GetFifo { id, surface } => seq![ArgView::NewId(id), ArgView::Object(surface)],
        GeneratedImplementedRequest::WpFractionalScaleManagerV1GetFractionalScale { id, surface } => seq![ArgView::NewId(id), ArgView::Object(surface)],
        GeneratedImplementedRequest::WpViewporterGetViewport { id, surface } => seq![ArgView::NewId(id), ArgView::Object(surface)],
    }
}

/// Read from its arguments, a request that the proxy takes part in is the one that the protocol has there, and each of
/// its parts is the argument at its place: none is left out, added or moved.
pub proof fn implemented_request_is_as_sent(id: GeneratedRequestId, args: Seq<ArgView>)
    ensures
        messages::implemented_request_of(id, args) matches Some(request) ==> implemented_id(request) == id && implemented_args(request)
            == args,
{
    if let Some(request) = messages::implemented_request_of(id, args) {
        assert(implemented_args(request) =~= args);
    }
}

/// Made of its arguments again, a request that the proxy takes part in is the same.
pub proof fn implemented_request_is_read_back(request: GeneratedImplementedRequest)
    requires
        (request is WpLinuxDrmSyncobjManagerV1ImportTimeline ==> request->WpLinuxDrmSyncobjManagerV1ImportTimeline_fd),
    ensures
        messages::implemented_request_of(implemented_id(request), implemented_args(request)) == Some(request),
{
}

/// Which request of the protocol a request that hooks look at is.
pub open spec fn hook_id(request: GeneratedHookRequest) -> GeneratedRequestId {
    match request {
        GeneratedHookRequest::WlSurfaceDestroy => GeneratedRequestId::WlSurfaceDestroy,
        GeneratedHookRequest::WlSurfaceAttach { .. } => GeneratedRequestId::WlSurfaceAttach,
        GeneratedHookRequest::WlSurfaceDamage { .. } => GeneratedRequestId::WlSurfaceDamage,
        GeneratedHookRequest::WlSurfaceDamageBuffer { .. } => GeneratedRequestId::WlSurfaceDamageBuffer,
        GeneratedHookRequest::WlSurfaceCommit => GeneratedRequestId::WlSurfaceCommit,
        GeneratedHookRequest::WpLinuxDrmSyncobjManagerV1ImportTimeline { .. } => GeneratedRequestId::WpLinuxDrmSyncobjManagerV1ImportTimeline,
        GeneratedHookRequest::WpLinuxDrmSyncobjSurfaceV1SetAcquirePoint { .. } => GeneratedRequestId::WpLinuxDrmSyncobjSurfaceV1SetAcquirePoint,
        GeneratedHookRequest::WpLinuxDrmSyncobjSurfaceV1SetReleasePoint { .. } => GeneratedRequestId::WpLinuxDrmSyncobjSurfaceV1SetReleasePoint,
        GeneratedHookRequest::WpColorManagerV1GetSurface { .. } => GeneratedRequestId::WpColorManagerV1GetSurface,
        GeneratedHookRequest::WpColorManagerV1CreateParametricCreator { .. } => GeneratedRequestId::WpColorManagerV1CreateParametricCreator,
        GeneratedHookRequest::WpColorManagerV1CreateWindowsScrgb { .. } => GeneratedRequestId::WpColorManagerV1CreateWindowsScrgb,
        GeneratedHookRequest::WpColorManagementSurfaceV1Destroy => GeneratedRequestId::WpColorManagementSurfaceV1Destroy,
        GeneratedHookRequest::WpColorManagementSurfaceV1SetImageDescription { .. } => GeneratedRequestId::WpColorManagementSurfaceV1SetImageDescription,
        GeneratedHookRequest::WpColorManagementSurfaceV1UnsetImageDescription => GeneratedRequestId::WpColorManagementSurfaceV1UnsetImageDescription,
        GeneratedHookRequest::WpImageDescriptionCreatorParamsV1Create { .. } => GeneratedRequestId::WpImageDescriptionCreatorParamsV1Create,
        GeneratedHookRequest::WpImageDescriptionCreatorParamsV1SetTfNamed { .. } => GeneratedRequestId::WpImageDescriptionCreatorParamsV1SetTfNamed,
        GeneratedHookRequest::WpImageDescriptionCreatorParamsV1SetTfPower { .. } => GeneratedRequestId::WpImageDescriptionCreatorParamsV1SetTfPower,
        GeneratedHookRequest::WpImageDescriptionCreatorParamsV1SetPrimariesNamed { .. } => GeneratedRequestId::WpImageDescriptionCreatorParamsV1SetPrimariesNamed,
        GeneratedHookRequest::WpImageDescriptionCreatorParamsV1SetPrimaries { .. } => GeneratedRequestId::WpImageDescriptionCreatorParamsV1SetPrimaries,
        GeneratedHookRequest::WpImageDescriptionCreatorParamsV1SetLuminances { .. } => GeneratedRequestId::WpImageDescriptionCreatorParamsV1SetLuminances,
        GeneratedHookRequest::WpImageDescriptionV1Destroy => GeneratedRequestId::WpImageDescriptionV1Destroy,
    }
}

/// The arguments of a request that hooks look at, in the order of the protocol.
pub open spec fn hook_args(request: GeneratedHookRequest) -> Seq<ArgView> {
    match request {
        GeneratedHookRequest::WlSurfaceDestroy => Seq::empty(),
        GeneratedHookRequest::WlSurfaceAttach { buffer, x, y } => seq![ArgView::Object(buffer), ArgView::Int(x), ArgView::Int(y)],
        GeneratedHookRequest::WlSurfaceDamage { x, y, width, height } => seq![ArgView::Int(x), ArgView::Int(y), ArgView::Int(width), ArgView::Int(height)],
        GeneratedHookRequest::WlSurfaceDamageBuffer { x, y, width, height } => seq![ArgView::Int(x), ArgView::Int(y), ArgView::Int(width), ArgView::Int(height)],
        GeneratedHookRequest::WlSurfaceCommit => Seq::empty(),
        GeneratedHookRequest::WpLinuxDrmSyncobjManagerV1ImportTimeline { id, .. } => seq![ArgView::NewId(id), ArgView::Fd],
        GeneratedHookRequest::WpLinuxDrmSyncobjSurfaceV1SetAcquirePoint { timeline, point_hi, point_lo } => seq![ArgView::Object(timeline), ArgView::Uint(point_hi), ArgView::Uint(point_lo)],
        GeneratedHookRequest::WpLinuxDrmSyncobjSurfaceV1SetReleasePoint { timeline, point_hi, point_lo } => seq![ArgView::Object(timeline), ArgView::Uint(point_hi), ArgView::Uint(point_lo)],
        GeneratedHookRequest::WpColorManagerV1GetSurface { id, surface } => seq![ArgView::NewId(id), ArgView::Object(surface)],
        GeneratedHookRequest::WpColorManagerV1CreateParametricCreator { obj } => seq![ArgView::NewId(obj)],
        GeneratedHookRequest::WpColorManagerV1CreateWindowsScrgb { image_description } => seq![ArgView::NewId(image_description)],
        GeneratedHookRequest::WpColorManagementSurfaceV1Destroy => Seq::empty(),
        GeneratedHookRequest::WpColorManagementSurfaceV1SetImageDescription { image_description, render_intent } => seq![ArgView::Object(image_description), ArgView::Uint(render_intent)],
        GeneratedHookRequest::WpColorManagementSurfaceV1UnsetImageDescription => Seq::empty(),
        GeneratedHookRequest::WpImageDescriptionCreatorParamsV1Create { image_description } => seq![ArgView::NewId(image_description)],
        GeneratedHookRequest::WpImageDescriptionCreatorParamsV1SetTfNamed { tf } => seq![ArgView::Uint(tf)],
        GeneratedHookRequest::WpImageDescriptionCreatorParamsV1SetTfPower { eexp } => seq![ArgView::Uint(eexp)],
        GeneratedHookRequest::WpImageDescriptionCreatorParamsV1SetPrimariesNamed { primaries } => seq![ArgView::Uint(primaries)],
        GeneratedHookRequest::WpImageDescriptionCreatorParamsV1SetPrimaries { r_x, r_y, g_x, g_y, b_x, b_y, w_x, w_y } => seq![ArgView::Int(r_x), ArgView::Int(r_y), ArgView::Int(g_x), ArgView::Int(g_y), ArgView::Int(b_x), ArgView::Int(b_y), ArgView::Int(w_x), ArgView::Int(w_y)],
        GeneratedHookRequest::WpImageDescriptionCreatorParamsV1SetLuminances { min_lum, max_lum, reference_lum } => seq![ArgView::Uint(min_lum), ArgView::Uint(max_lum), ArgView::Uint(reference_lum)],
        GeneratedHookRequest::WpImageDescriptionV1Destroy => Seq::empty(),
    }
}

/// Read from its arguments, a request that hooks look at is the one that the protocol has there, and each of
/// its parts is the argument at its place: none is left out, added or moved.
pub proof fn hook_request_is_as_sent(id: GeneratedRequestId, args: Seq<ArgView>)
    ensures
        messages::hook_request_of(id, args) matches Some(request) ==> hook_id(request) == id && hook_args(request)
            == args,
{
    if let Some(request) = messages::hook_request_of(id, args) {
        assert(hook_args(request) =~= args);
    }
}

/// Made of its arguments again, a request that hooks look at is the same.
pub proof fn hook_request_is_read_back(request: GeneratedHookRequest)
    requires
        (request is WpLinuxDrmSyncobjManagerV1ImportTimeline ==> request->WpLinuxDrmSyncobjManagerV1ImportTimeline_fd),
    ensures
        messages::hook_request_of(hook_id(request), hook_args(request)) == Some(request),
{
}

/// Whether arguments are of the kinds that the protocol describes.
pub open spec fn are_as_described(args: Seq<ArgView>, described: Seq<GeneratedArgSpec>) -> bool {
    &&& args.len() == described.len()
    &&& forall|i: int|
        0 <= i < args.len() ==> wire::kind_of(#[trigger] args[i]) == described[i].kind
}

/// Where the object that a request makes stands among its arguments.
pub open spec fn place_of_made(request: GeneratedImplementedRequest) -> int {
    match request {
        GeneratedImplementedRequest::WpPresentationFeedback { .. } => 1,
        _ => 0,
    }
}

/// A request that makes an object makes the one that the protocol describes: the new
/// number stands at a place where a new object of that interface belongs. The release
/// of a buffer alone has an interface of its own in place of the callback's.
#[verifier::spinoff_prover]
#[verifier::rlimit(60)]
pub proof fn made_object_is_as_described(request: GeneratedImplementedRequest)
    requires
        request !is WlSurfaceGetRelease,
    ensures
        decode::created_interface(request) matches Some((id, interface)) ==> {
            let described = tables::request_of(implemented_id(request)).unwrap().args;
            let i = place_of_made(request);
            &&& 0 <= i < described.len()
            &&& implemented_args(request)[i] == ArgView::NewId(id)
            &&& described[i].kind == GeneratedArgKind::NewId
            &&& described[i].interface == Some(interface)
        },
{
    match request {
        GeneratedImplementedRequest::WlDisplaySync { .. } => {
            assert(tables::request_place(GeneratedRequestId::WlDisplaySync) == (InterfaceId::WlDisplay, 0u16));
        },
        GeneratedImplementedRequest::WlDisplayGetRegistry { .. } => {
            assert(tables::request_place(GeneratedRequestId::WlDisplayGetRegistry) == (InterfaceId::WlDisplay, 1u16));
        },
        GeneratedImplementedRequest::WlCompositorCreateSurface { .. } => {
            assert(tables::request_place(GeneratedRequestId::WlCompositorCreateSurface) == (InterfaceId::WlCompositor, 0u16));
        },
        GeneratedImplementedRequest::WlCompositorCreateRegion { .. } => {
            assert(tables::request_place(GeneratedRequestId::WlCompositorCreateRegion) == (InterfaceId::WlCompositor, 1u16));
        },
        GeneratedImplementedRequest::WlDataDeviceManagerCreateDataSource { .. } => {
            assert(tables::request_place(GeneratedRequestId::WlDataDeviceManagerCreateDataSource) == (InterfaceId::WlDataDeviceManager, 0u16));
        },
        GeneratedImplementedRequest::WlDataDeviceManagerGetDataDevice { .. } => {
            assert(tables::request_place(GeneratedRequestId::WlDataDeviceManagerGetDataDevice) == (InterfaceId::WlDataDeviceManager, 1u16));
        },
        GeneratedImplementedRequest::WlShellGetShellSurface { .. } => {
            assert(tables::request_place(GeneratedRequestId::WlShellGetShellSurface) == (InterfaceId::WlShell, 0u16));
        },
        GeneratedImplementedRequest::WlSurfaceFrame { .. } => {
            assert(tables::request_place(GeneratedRequestId::WlSurfaceFrame) == (InterfaceId::WlSurface, 3u16));
        },
        GeneratedImplementedRequest::WlSurfaceGetRelease { .. } => {
            assert(tables::request_place(GeneratedRequestId::WlSurfaceGetRelease) == (InterfaceId::WlSurface, 11u16));
        },
        GeneratedImplementedRequest::WlSeatGetPointer { .. } => {
            assert(tables::request_place(GeneratedRequestId::WlSeatGetPointer) == (InterfaceId::WlSeat, 0u16));
        },
        GeneratedImplementedRequest::WlSeatGetKeyboard { .. } => {
            assert(tables::request_place(GeneratedRequestId::WlSeatGetKeyboard) == (InterfaceId::WlSeat, 1u16));
        },
        GeneratedImplementedRequest::WlSeatGetTouch { .. } => {
            assert(tables::request_place(GeneratedRequestId::WlSeatGetTouch) == (InterfaceId::WlSeat, 2u16));
        },
        GeneratedImplementedRequest::WlSubcompositorGetSubsurface { .. } => {
            assert(tables::request_place(GeneratedRequestId::WlSubcompositorGetSubsurface) == (InterfaceId::WlSubcompositor, 1u16));
        },
        GeneratedImplementedRequest::WlFixesDestroyRegistry { .. } => {
            assert(tables::request_place(GeneratedRequestId::WlFixesDestroyRegistry) == (InterfaceId::WlFixes, 1u16));
        },
        GeneratedImplementedRequest::XdgWmBaseCreatePositioner { .. } => {
            assert(tables::request_place(GeneratedRequestId::XdgWmBaseCreatePositioner) == (InterfaceId::XdgWmBase, 1u16));
        },
        GeneratedImplementedRequest::XdgWmBaseGetXdgSurface { .. } => {
            assert(tables::request_place(GeneratedRequestId::XdgWmBaseGetXdgSurface) == (InterfaceId::XdgWmBase, 2u16));
        },
        GeneratedImplementedRequest::XdgSurfaceGetToplevel { .. } => {
            assert(tables::request_place(GeneratedRequestId::XdgSurfaceGetToplevel) == (InterfaceId::XdgSurface, 1u16));
        },
        GeneratedImplementedRequest::XdgSurfaceGetPopup { .. } => {
            assert(tables::request_place(GeneratedRequestId::XdgSurfaceGetPopup) == (InterfaceId::XdgSurface, 2u16));
        },
        GeneratedImplementedRequest::XdgSurfaceAckConfigure { .. } => {
            assert(tables::request_place(GeneratedRequestId::XdgSurfaceAckConfigure) == (InterfaceId::XdgSurface, 4u16));
        },
        GeneratedImplementedRequest::ZwpLinuxDmabufV1CreateParams { .. } => {
            assert(tables::request_place(GeneratedRequestId::ZwpLinuxDmabufV1CreateParams) == (InterfaceId::ZwpLinuxDmabufV1, 1u16));
        },
        GeneratedImplementedRequest::ZwpLinuxDmabufV1GetDefaultFeedback { .. } => {
            assert(tables::request_place(GeneratedRequestId::ZwpLinuxDmabufV1GetDefaultFeedback) == (InterfaceId::ZwpLinuxDmabufV1, 2u16));
        },
        GeneratedImplementedRequest::ZwpLinuxDmabufV1GetSurfaceFeedback { .. } => {
            assert(tables::request_place(GeneratedRequestId::ZwpLinuxDmabufV1GetSurfaceFeedback) == (InterfaceId::ZwpLinuxDmabufV1, 3u16));
        },
        GeneratedImplementedRequest::ZwpLinuxBufferParamsV1CreateImmed { .. } => {
            assert(tables::request_place(GeneratedRequestId::ZwpLinuxBufferParamsV1CreateImmed) == (InterfaceId::ZwpLinuxBufferParamsV1, 3u16));
        },
        GeneratedImplementedRequest::WpLinuxDrmSyncobjManagerV1GetSurface { .. } => {
            assert(tables::request_place(GeneratedRequestId::WpLinuxDrmSyncobjManagerV1GetSurface) == (InterfaceId::WpLinuxDrmSyncobjManagerV1, 1u16));
        },
        GeneratedImplementedRequest::WpLinuxDrmSyncobjManagerV1ImportTimeline { .. } => {
            assert(tables::request_place(GeneratedRequestId::WpLinuxDrmSyncobjManagerV1ImportTimeline) == (InterfaceId::WpLinuxDrmSyncobjManagerV1, 2u16));
        },
        GeneratedImplementedRequest::WpLinuxDrmSyncobjTimelineV1Destroy => {
            assert(tables::request_place(GeneratedRequestId::WpLinuxDrmSyncobjTimelineV1Destroy) == (InterfaceId::WpLinuxDrmSyncobjTimelineV1, 0u16));
        },
        GeneratedImplementedRequest::WpLinuxDrmSyncobjSurfaceV1Destroy => {
            assert(tables::request_place(GeneratedRequestId::WpLinuxDrmSyncobjSurfaceV1Destroy) == (InterfaceId::WpLinuxDrmSyncobjSurfaceV1, 0u16));
        },
        GeneratedImplementedRequest::WpLinuxDrmSyncobjSurfaceV1SetAcquirePoint { .. } => {
            assert(tables::request_place(GeneratedRequestId::WpLinuxDrmSyncobjSurfaceV1SetAcquirePoint) == (InterfaceId::WpLinuxDrmSyncobjSurfaceV1, 1u16));
        },
        GeneratedImplementedRequest::WpLinuxDrmSyncobjSurfaceV1SetReleasePoint { .. } => {
            assert(tables::request_place(GeneratedRequestId::WpLinuxDrmSyncobjSurfaceV1SetReleasePoint) == (InterfaceId::WpLinuxDrmSyncobjSurfaceV1, 2u16));
        },
        GeneratedImplementedRequest::WpTearingControlManagerV1GetTearingControl { .. } => {
            assert(tables::request_place(GeneratedRequestId::WpTearingControlManagerV1GetTearingControl) == (InterfaceId::WpTearingControlManagerV1, 1u16));
        },
        GeneratedImplementedRequest::WpPresentationFeedback { .. } => {
            assert(tables::request_place(GeneratedRequestId::WpPresentationFeedback) == (InterfaceId::WpPresentation, 1u16));
        },
        GeneratedImplementedRequest::WpColorManagerV1GetOutput { .. } => {
            assert(tables::request_place(GeneratedRequestId::WpColorManagerV1GetOutput) == (InterfaceId::WpColorManagerV1, 1u16));
        },
        GeneratedImplementedRequest::WpColorManagerV1GetSurface { .. } => {
            assert(tables::request_place(GeneratedRequestId::WpColorManagerV1GetSurface) == (InterfaceId::WpColorManagerV1, 2u16));
        },
        GeneratedImplementedRequest::WpColorManagerV1GetSurfaceFeedback { .. } => {
            assert(tables::request_place(GeneratedRequestId::WpColorManagerV1GetSurfaceFeedback) == (InterfaceId::WpColorManagerV1, 3u16));
        },
        GeneratedImplementedRequest::WpColorManagerV1CreateIccCreator { .. } => {
            assert(tables::request_place(GeneratedRequestId::WpColorManagerV1CreateIccCreator) == (InterfaceId::WpColorManagerV1, 4u16));
        },
        GeneratedImplementedRequest::WpColorManagerV1CreateParametricCreator { .. } => {
            assert(tables::request_place(GeneratedRequestId::WpColorManagerV1CreateParametricCreator) == (InterfaceId::WpColorManagerV1, 5u16));
        },
        GeneratedImplementedRequest::WpColorManagerV1CreateWindowsScrgb { .. } => {
            assert(tables::request_place(GeneratedRequestId::WpColorManagerV1CreateWindowsScrgb) == (InterfaceId::WpColorManagerV1, 6u16));
        },
        GeneratedImplementedRequest::WpColorManagerV1GetImageDescription { .. } => {
            assert(tables::request_place(GeneratedRequestId::WpColorManagerV1GetImageDescription) == (InterfaceId::WpColorManagerV1, 7u16));
        },
        GeneratedImplementedRequest::WpColorManagerV1CreateWindowsBt2100 { .. } => {
            assert(tables::request_place(GeneratedRequestId::WpColorManagerV1CreateWindowsBt2100) == (InterfaceId::WpColorManagerV1, 8u16));
        },
        GeneratedImplementedRequest::WpColorManagementOutputV1GetImageDescription { .. } => {
            assert(tables::request_place(GeneratedRequestId::WpColorManagementOutputV1GetImageDescription) == (InterfaceId::WpColorManagementOutputV1, 1u16));
        },
        GeneratedImplementedRequest::WpColorManagementSurfaceFeedbackV1GetPreferred { .. } => {
            assert(tables::request_place(GeneratedRequestId::WpColorManagementSurfaceFeedbackV1GetPreferred) == (InterfaceId::WpColorManagementSurfaceFeedbackV1, 1u16));
        },
        GeneratedImplementedRequest::WpColorManagementSurfaceFeedbackV1GetPreferredParametric { .. } => {
            assert(tables::request_place(GeneratedRequestId::WpColorManagementSurfaceFeedbackV1GetPreferredParametric) == (InterfaceId::WpColorManagementSurfaceFeedbackV1, 2u16));
        },
        GeneratedImplementedRequest::WpImageDescriptionCreatorIccV1Create { .. } => {
            assert(tables::request_place(GeneratedRequestId::WpImageDescriptionCreatorIccV1Create) == (InterfaceId::WpImageDescriptionCreatorIccV1, 0u16));
        },
        GeneratedImplementedRequest::WpImageDescriptionCreatorParamsV1Create { .. } => {
            assert(tables::request_place(GeneratedRequestId::WpImageDescriptionCreatorParamsV1Create) == (InterfaceId::WpImageDescriptionCreatorParamsV1, 0u16));
        },
        GeneratedImplementedRequest::WpImageDescriptionV1GetInformation { .. } => {
            assert(tables::request_place(GeneratedRequestId::WpImageDescriptionV1GetInformation) == (InterfaceId::WpImageDescriptionV1, 1u16));
        },
        GeneratedImplementedRequest::WpFifoManagerV1GetFifo { .. } => {
            assert(tables::request_place(GeneratedRequestId::WpFifoManagerV1GetFifo) == (InterfaceId::WpFifoManagerV1, 1u16));
        },
        GeneratedImplementedRequest::WpFractionalScaleManagerV1GetFractionalScale { .. } => {
            assert(tables::request_place(GeneratedRequestId::WpFractionalScaleManagerV1GetFractionalScale) == (InterfaceId::WpFractionalScaleManagerV1, 1u16));
        },
        GeneratedImplementedRequest::WpViewporterGetViewport { .. } => {
            assert(tables::request_place(GeneratedRequestId::WpViewporterGetViewport) == (InterfaceId::WpViewporter, 1u16));
        },
    }
}

/// The arguments of the requests that the proxy looks at are of the kinds that the
/// protocol describes for them.
#[verifier::spinoff_prover]
#[verifier::rlimit(60)]
pub proof fn noted_requests_are_as_described(request: TrackedRequestView)
    requires
        request !is WlRegistryBind,
    ensures
        tables::request_of(noted_id(request)) matches Some(message) && are_as_described(
            noted_args(request),
            message.args,
        ),
{
    match request {
        TrackedRequestView::WlRegistryBind { .. } => {
            assert(tables::request_place(GeneratedRequestId::WlRegistryBind) == (InterfaceId::WlRegistry, 0u16));
        },
        TrackedRequestView::WlSubcompositorGetSubsurface { .. } => {
            assert(tables::request_place(GeneratedRequestId::WlSubcompositorGetSubsurface) == (InterfaceId::WlSubcompositor, 1u16));
        },
        TrackedRequestView::WlSubsurfaceDestroy => {
            assert(tables::request_place(GeneratedRequestId::WlSubsurfaceDestroy) == (InterfaceId::WlSubsurface, 0u16));
        },
        TrackedRequestView::WlSubsurfaceSetPosition { .. } => {
            assert(tables::request_place(GeneratedRequestId::WlSubsurfaceSetPosition) == (InterfaceId::WlSubsurface, 1u16));
        },
        TrackedRequestView::XdgWmBaseGetXdgSurface { .. } => {
            assert(tables::request_place(GeneratedRequestId::XdgWmBaseGetXdgSurface) == (InterfaceId::XdgWmBase, 2u16));
        },
        TrackedRequestView::XdgSurfaceGetToplevel { .. } => {
            assert(tables::request_place(GeneratedRequestId::XdgSurfaceGetToplevel) == (InterfaceId::XdgSurface, 1u16));
        },
        TrackedRequestView::XdgSurfaceSetWindowGeometry { .. } => {
            assert(tables::request_place(GeneratedRequestId::XdgSurfaceSetWindowGeometry) == (InterfaceId::XdgSurface, 3u16));
        },
        TrackedRequestView::XdgSurfaceAckConfigure { .. } => {
            assert(tables::request_place(GeneratedRequestId::XdgSurfaceAckConfigure) == (InterfaceId::XdgSurface, 4u16));
        },
        TrackedRequestView::XdgToplevelSetTitle { .. } => {
            assert(tables::request_place(GeneratedRequestId::XdgToplevelSetTitle) == (InterfaceId::XdgToplevel, 2u16));
        },
        TrackedRequestView::XdgToplevelSetAppId { .. } => {
            assert(tables::request_place(GeneratedRequestId::XdgToplevelSetAppId) == (InterfaceId::XdgToplevel, 3u16));
        },
        TrackedRequestView::ZwpLinuxDmabufV1CreateParams { .. } => {
            assert(tables::request_place(GeneratedRequestId::ZwpLinuxDmabufV1CreateParams) == (InterfaceId::ZwpLinuxDmabufV1, 1u16));
        },
        TrackedRequestView::ZwpLinuxBufferParamsV1Destroy => {
            assert(tables::request_place(GeneratedRequestId::ZwpLinuxBufferParamsV1Destroy) == (InterfaceId::ZwpLinuxBufferParamsV1, 0u16));
        },
        TrackedRequestView::ZwpLinuxBufferParamsV1Add { .. } => {
            assert(tables::request_place(GeneratedRequestId::ZwpLinuxBufferParamsV1Add) == (InterfaceId::ZwpLinuxBufferParamsV1, 1u16));
        },
        TrackedRequestView::ZwpLinuxBufferParamsV1Create { .. } => {
            assert(tables::request_place(GeneratedRequestId::ZwpLinuxBufferParamsV1Create) == (InterfaceId::ZwpLinuxBufferParamsV1, 2u16));
        },
        TrackedRequestView::ZwpLinuxBufferParamsV1CreateImmed { .. } => {
            assert(tables::request_place(GeneratedRequestId::ZwpLinuxBufferParamsV1CreateImmed) == (InterfaceId::ZwpLinuxBufferParamsV1, 3u16));
        },
        TrackedRequestView::WpViewporterGetViewport { .. } => {
            assert(tables::request_place(GeneratedRequestId::WpViewporterGetViewport) == (InterfaceId::WpViewporter, 1u16));
        },
        TrackedRequestView::WpViewportDestroy => {
            assert(tables::request_place(GeneratedRequestId::WpViewportDestroy) == (InterfaceId::WpViewport, 0u16));
        },
        TrackedRequestView::WpViewportSetDestination { .. } => {
            assert(tables::request_place(GeneratedRequestId::WpViewportSetDestination) == (InterfaceId::WpViewport, 2u16));
        },
    }
}

/// The arguments of the requests that the proxy takes part in are of the kinds that
/// the protocol describes for them.
#[verifier::spinoff_prover]
#[verifier::rlimit(60)]
pub proof fn implemented_requests_are_as_described(request: GeneratedImplementedRequest)
    ensures
        tables::request_of(implemented_id(request)) matches Some(message) && are_as_described(
            implemented_args(request),
            message.args,
        ),
{
    match request {
        GeneratedImplementedRequest::WlDisplaySync { .. } => {
            assert(tables::request_place(GeneratedRequestId::WlDisplaySync) == (InterfaceId::WlDisplay, 0u16));
        },
        GeneratedImplementedRequest::WlDisplayGetRegistry { .. } => {
            assert(tables::request_place(GeneratedRequestId::WlDisplayGetRegistry) == (InterfaceId::WlDisplay, 1u16));
        },
        GeneratedImplementedRequest::WlCompositorCreateSurface { .. } => {
            assert(tables::request_place(GeneratedRequestId::WlCompositorCreateSurface) == (InterfaceId::WlCompositor, 0u16));
        },
        GeneratedImplementedRequest::WlCompositorCreateRegion { .. } => {
            assert(tables::request_place(GeneratedRequestId::WlCompositorCreateRegion) == (InterfaceId::WlCompositor, 1u16));
        },
        GeneratedImplementedRequest::WlDataDeviceManagerCreateDataSource { .. } => {
            assert(tables::request_place(GeneratedRequestId::WlDataDeviceManagerCreateDataSource) == (InterfaceId::WlDataDeviceManager, 0u16));
        },
        GeneratedImplementedRequest::WlDataDeviceManagerGetDataDevice { .. } => {
            assert(tables::request_place(GeneratedRequestId::WlDataDeviceManagerGetDataDevice) == (InterfaceId::WlDataDeviceManager, 1u16));
        },
        GeneratedImplementedRequest::WlShellGetShellSurface { .. } => {
            assert(tables::request_place(GeneratedRequestId::WlShellGetShellSurface) == (InterfaceId::WlShell, 0u16));
        },
        GeneratedImplementedRequest::WlSurfaceFrame { .. } => {
            assert(tables::request_place(GeneratedRequestId::WlSurfaceFrame) == (InterfaceId::WlSurface, 3u16));
        },
        GeneratedImplementedRequest::WlSurfaceGetRelease { .. } => {
            assert(tables::request_place(GeneratedRequestId::WlSurfaceGetRelease) == (InterfaceId::WlSurface, 11u16));
        },
        GeneratedImplementedRequest::WlSeatGetPointer { .. } => {
            assert(tables::request_place(GeneratedRequestId::WlSeatGetPointer) == (InterfaceId::WlSeat, 0u16));
        },
        GeneratedImplementedRequest::WlSeatGetKeyboard { .. } => {
            assert(tables::request_place(GeneratedRequestId::WlSeatGetKeyboard) == (InterfaceId::WlSeat, 1u16));
        },
        GeneratedImplementedRequest::WlSeatGetTouch { .. } => {
            assert(tables::request_place(GeneratedRequestId::WlSeatGetTouch) == (InterfaceId::WlSeat, 2u16));
        },
        GeneratedImplementedRequest::WlSubcompositorGetSubsurface { .. } => {
            assert(tables::request_place(GeneratedRequestId::WlSubcompositorGetSubsurface) == (InterfaceId::WlSubcompositor, 1u16));
        },
        GeneratedImplementedRequest::WlFixesDestroyRegistry { .. } => {
            assert(tables::request_place(GeneratedRequestId::WlFixesDestroyRegistry) == (InterfaceId::WlFixes, 1u16));
        },
        GeneratedImplementedRequest::XdgWmBaseCreatePositioner { .. } => {
            assert(tables::request_place(GeneratedRequestId::XdgWmBaseCreatePositioner) == (InterfaceId::XdgWmBase, 1u16));
        },
        GeneratedImplementedRequest::XdgWmBaseGetXdgSurface { .. } => {
            assert(tables::request_place(GeneratedRequestId::XdgWmBaseGetXdgSurface) == (InterfaceId::XdgWmBase, 2u16));
        },
        GeneratedImplementedRequest::XdgSurfaceGetToplevel { .. } => {
            assert(tables::request_place(GeneratedRequestId::XdgSurfaceGetToplevel) == (InterfaceId::XdgSurface, 1u16));
        },
        GeneratedImplementedRequest::XdgSurfaceGetPopup { .. } => {
            assert(tables::request_place(GeneratedRequestId::XdgSurfaceGetPopup) == (InterfaceId::XdgSurface, 2u16));
        },
        GeneratedImplementedRequest::XdgSurfaceAckConfigure { .. } => {
            assert(tables::request_place(GeneratedRequestId::XdgSurfaceAckConfigure) == (InterfaceId::XdgSurface, 4u16));
        },
        GeneratedImplementedRequest::ZwpLinuxDmabufV1CreateParams { .. } => {
            assert(tables::request_place(GeneratedRequestId::ZwpLinuxDmabufV1CreateParams) == (InterfaceId::ZwpLinuxDmabufV1, 1u16));
        },
        GeneratedImplementedRequest::ZwpLinuxDmabufV1GetDefaultFeedback { .. } => {
            assert(tables::request_place(GeneratedRequestId::ZwpLinuxDmabufV1GetDefaultFeedback) == (InterfaceId::ZwpLinuxDmabufV1, 2u16));
        },
        GeneratedImplementedRequest::ZwpLinuxDmabufV1GetSurfaceFeedback { .. } => {
            assert(tables::request_place(GeneratedRequestId::ZwpLinuxDmabufV1GetSurfaceFeedback) == (InterfaceId::ZwpLinuxDmabufV1, 3u16));
        },
        GeneratedImplementedRequest::ZwpLinuxBufferParamsV1CreateImmed { .. } => {
            assert(tables::request_place(GeneratedRequestId::ZwpLinuxBufferParamsV1CreateImmed) == (InterfaceId::ZwpLinuxBufferParamsV1, 3u16));
        },
        GeneratedImplementedRequest::WpLinuxDrmSyncobjManagerV1GetSurface { .. } => {
            assert(tables::request_place(GeneratedRequestId::WpLinuxDrmSyncobjManagerV1GetSurface) == (InterfaceId::WpLinuxDrmSyncobjManagerV1, 1u16));
        },
        GeneratedImplementedRequest::WpLinuxDrmSyncobjManagerV1ImportTimeline { .. } => {
            assert(tables::request_place(GeneratedRequestId::WpLinuxDrmSyncobjManagerV1ImportTimeline) == (InterfaceId::WpLinuxDrmSyncobjManagerV1, 2u16));
        },
        GeneratedImplementedRequest::WpLinuxDrmSyncobjTimelineV1Destroy => {
            assert(tables::request_place(GeneratedRequestId::WpLinuxDrmSyncobjTimelineV1Destroy) == (InterfaceId::WpLinuxDrmSyncobjTimelineV1, 0u16));
        },
        GeneratedImplementedRequest::WpLinuxDrmSyncobjSurfaceV1Destroy => {
            assert(tables::request_place(GeneratedRequestId::WpLinuxDrmSyncobjSurfaceV1Destroy) == (InterfaceId::WpLinuxDrmSyncobjSurfaceV1, 0u16));
        },
        GeneratedImplementedRequest::WpLinuxDrmSyncobjSurfaceV1SetAcquirePoint { .. } => {
            assert(tables::request_place(GeneratedRequestId::WpLinuxDrmSyncobjSurfaceV1SetAcquirePoint) == (InterfaceId::WpLinuxDrmSyncobjSurfaceV1, 1u16));
        },
        GeneratedImplementedRequest::WpLinuxDrmSyncobjSurfaceV1SetReleasePoint { .. } => {
            assert(tables::request_place(GeneratedRequestId::WpLinuxDrmSyncobjSurfaceV1SetReleasePoint) == (InterfaceId::WpLinuxDrmSyncobjSurfaceV1, 2u16));
        },
        GeneratedImplementedRequest::WpTearingControlManagerV1GetTearingControl { .. } => {
            assert(tables::request_place(GeneratedRequestId::WpTearingControlManagerV1GetTearingControl) == (InterfaceId::WpTearingControlManagerV1, 1u16));
        },
        GeneratedImplementedRequest::WpPresentationFeedback { .. } => {
            assert(tables::request_place(GeneratedRequestId::WpPresentationFeedback) == (InterfaceId::WpPresentation, 1u16));
        },
        GeneratedImplementedRequest::WpColorManagerV1GetOutput { .. } => {
            assert(tables::request_place(GeneratedRequestId::WpColorManagerV1GetOutput) == (InterfaceId::WpColorManagerV1, 1u16));
        },
        GeneratedImplementedRequest::WpColorManagerV1GetSurface { .. } => {
            assert(tables::request_place(GeneratedRequestId::WpColorManagerV1GetSurface) == (InterfaceId::WpColorManagerV1, 2u16));
        },
        GeneratedImplementedRequest::WpColorManagerV1GetSurfaceFeedback { .. } => {
            assert(tables::request_place(GeneratedRequestId::WpColorManagerV1GetSurfaceFeedback) == (InterfaceId::WpColorManagerV1, 3u16));
        },
        GeneratedImplementedRequest::WpColorManagerV1CreateIccCreator { .. } => {
            assert(tables::request_place(GeneratedRequestId::WpColorManagerV1CreateIccCreator) == (InterfaceId::WpColorManagerV1, 4u16));
        },
        GeneratedImplementedRequest::WpColorManagerV1CreateParametricCreator { .. } => {
            assert(tables::request_place(GeneratedRequestId::WpColorManagerV1CreateParametricCreator) == (InterfaceId::WpColorManagerV1, 5u16));
        },
        GeneratedImplementedRequest::WpColorManagerV1CreateWindowsScrgb { .. } => {
            assert(tables::request_place(GeneratedRequestId::WpColorManagerV1CreateWindowsScrgb) == (InterfaceId::WpColorManagerV1, 6u16));
        },
        GeneratedImplementedRequest::WpColorManagerV1GetImageDescription { .. } => {
            assert(tables::request_place(GeneratedRequestId::WpColorManagerV1GetImageDescription) == (InterfaceId::WpColorManagerV1, 7u16));
        },
        GeneratedImplementedRequest::WpColorManagerV1CreateWindowsBt2100 { .. } => {
            assert(tables::request_place(GeneratedRequestId::WpColorManagerV1CreateWindowsBt2100) == (InterfaceId::WpColorManagerV1, 8u16));
        },
        GeneratedImplementedRequest::WpColorManagementOutputV1GetImageDescription { .. } => {
            assert(tables::request_place(GeneratedRequestId::WpColorManagementOutputV1GetImageDescription) == (InterfaceId::WpColorManagementOutputV1, 1u16));
        },
        GeneratedImplementedRequest::WpColorManagementSurfaceFeedbackV1GetPreferred { .. } => {
            assert(tables::request_place(GeneratedRequestId::WpColorManagementSurfaceFeedbackV1GetPreferred) == (InterfaceId::WpColorManagementSurfaceFeedbackV1, 1u16));
        },
        GeneratedImplementedRequest::WpColorManagementSurfaceFeedbackV1GetPreferredParametric { .. } => {
            assert(tables::request_place(GeneratedRequestId::WpColorManagementSurfaceFeedbackV1GetPreferredParametric) == (InterfaceId::WpColorManagementSurfaceFeedbackV1, 2u16));
        },
        GeneratedImplementedRequest::WpImageDescriptionCreatorIccV1Create { .. } => {
            assert(tables::request_place(GeneratedRequestId::WpImageDescriptionCreatorIccV1Create) == (InterfaceId::WpImageDescriptionCreatorIccV1, 0u16));
        },
        GeneratedImplementedRequest::WpImageDescriptionCreatorParamsV1Create { .. } => {
            assert(tables::request_place(GeneratedRequestId::WpImageDescriptionCreatorParamsV1Create) == (InterfaceId::WpImageDescriptionCreatorParamsV1, 0u16));
        },
        GeneratedImplementedRequest::WpImageDescriptionV1GetInformation { .. } => {
            assert(tables::request_place(GeneratedRequestId::WpImageDescriptionV1GetInformation) == (InterfaceId::WpImageDescriptionV1, 1u16));
        },
        GeneratedImplementedRequest::WpFifoManagerV1GetFifo { .. } => {
            assert(tables::request_place(GeneratedRequestId::WpFifoManagerV1GetFifo) == (InterfaceId::WpFifoManagerV1, 1u16));
        },
        GeneratedImplementedRequest::WpFractionalScaleManagerV1GetFractionalScale { .. } => {
            assert(tables::request_place(GeneratedRequestId::WpFractionalScaleManagerV1GetFractionalScale) == (InterfaceId::WpFractionalScaleManagerV1, 1u16));
        },
        GeneratedImplementedRequest::WpViewporterGetViewport { .. } => {
            assert(tables::request_place(GeneratedRequestId::WpViewporterGetViewport) == (InterfaceId::WpViewporter, 1u16));
        },
    }
}

/// The arguments of the requests that hooks look at are of the kinds that the protocol
/// describes for them.
#[verifier::spinoff_prover]
#[verifier::rlimit(60)]
pub proof fn hook_requests_are_as_described(request: GeneratedHookRequest)
    ensures
        tables::request_of(hook_id(request)) matches Some(message) && are_as_described(
            hook_args(request),
            message.args,
        ),
{
    match request {
        GeneratedHookRequest::WlSurfaceDestroy => {
            assert(tables::request_place(GeneratedRequestId::WlSurfaceDestroy) == (InterfaceId::WlSurface, 0u16));
        },
        GeneratedHookRequest::WlSurfaceAttach { .. } => {
            assert(tables::request_place(GeneratedRequestId::WlSurfaceAttach) == (InterfaceId::WlSurface, 1u16));
        },
        GeneratedHookRequest::WlSurfaceDamage { .. } => {
            assert(tables::request_place(GeneratedRequestId::WlSurfaceDamage) == (InterfaceId::WlSurface, 2u16));
        },
        GeneratedHookRequest::WlSurfaceDamageBuffer { .. } => {
            assert(tables::request_place(GeneratedRequestId::WlSurfaceDamageBuffer) == (InterfaceId::WlSurface, 9u16));
        },
        GeneratedHookRequest::WlSurfaceCommit => {
            assert(tables::request_place(GeneratedRequestId::WlSurfaceCommit) == (InterfaceId::WlSurface, 6u16));
        },
        GeneratedHookRequest::WpLinuxDrmSyncobjManagerV1ImportTimeline { .. } => {
            assert(tables::request_place(GeneratedRequestId::WpLinuxDrmSyncobjManagerV1ImportTimeline) == (InterfaceId::WpLinuxDrmSyncobjManagerV1, 2u16));
        },
        GeneratedHookRequest::WpLinuxDrmSyncobjSurfaceV1SetAcquirePoint { .. } => {
            assert(tables::request_place(GeneratedRequestId::WpLinuxDrmSyncobjSurfaceV1SetAcquirePoint) == (InterfaceId::WpLinuxDrmSyncobjSurfaceV1, 1u16));
        },
        GeneratedHookRequest::WpLinuxDrmSyncobjSurfaceV1SetReleasePoint { .. } => {
            assert(tables::request_place(GeneratedRequestId::WpLinuxDrmSyncobjSurfaceV1SetReleasePoint) == (InterfaceId::WpLinuxDrmSyncobjSurfaceV1, 2u16));
        },
        GeneratedHookRequest::WpColorManagerV1GetSurface { .. } => {
            assert(tables::request_place(GeneratedRequestId::WpColorManagerV1GetSurface) == (InterfaceId::WpColorManagerV1, 2u16));
        },
        GeneratedHookRequest::WpColorManagerV1CreateParametricCreator { .. } => {
            assert(tables::request_place(GeneratedRequestId::WpColorManagerV1CreateParametricCreator) == (InterfaceId::WpColorManagerV1, 5u16));
        },
        GeneratedHookRequest::WpColorManagerV1CreateWindowsScrgb { .. } => {
            assert(tables::request_place(GeneratedRequestId::WpColorManagerV1CreateWindowsScrgb) == (InterfaceId::WpColorManagerV1, 6u16));
        },
        GeneratedHookRequest::WpColorManagementSurfaceV1Destroy => {
            assert(tables::request_place(GeneratedRequestId::WpColorManagementSurfaceV1Destroy) == (InterfaceId::WpColorManagementSurfaceV1, 0u16));
        },
        GeneratedHookRequest::WpColorManagementSurfaceV1SetImageDescription { .. } => {
            assert(tables::request_place(GeneratedRequestId::WpColorManagementSurfaceV1SetImageDescription) == (InterfaceId::WpColorManagementSurfaceV1, 1u16));
        },
        GeneratedHookRequest::WpColorManagementSurfaceV1UnsetImageDescription => {
            assert(tables::request_place(GeneratedRequestId::WpColorManagementSurfaceV1UnsetImageDescription) == (InterfaceId::WpColorManagementSurfaceV1, 2u16));
        },
        GeneratedHookRequest::WpImageDescriptionCreatorParamsV1Create { .. } => {
            assert(tables::request_place(GeneratedRequestId::WpImageDescriptionCreatorParamsV1Create) == (InterfaceId::WpImageDescriptionCreatorParamsV1, 0u16));
        },
        GeneratedHookRequest::WpImageDescriptionCreatorParamsV1SetTfNamed { .. } => {
            assert(tables::request_place(GeneratedRequestId::WpImageDescriptionCreatorParamsV1SetTfNamed) == (InterfaceId::WpImageDescriptionCreatorParamsV1, 1u16));
        },
        GeneratedHookRequest::WpImageDescriptionCreatorParamsV1SetTfPower { .. } => {
            assert(tables::request_place(GeneratedRequestId::WpImageDescriptionCreatorParamsV1SetTfPower) == (InterfaceId::WpImageDescriptionCreatorParamsV1, 2u16));
        },
        GeneratedHookRequest::WpImageDescriptionCreatorParamsV1SetPrimariesNamed { .. } => {
            assert(tables::request_place(GeneratedRequestId::WpImageDescriptionCreatorParamsV1SetPrimariesNamed) == (InterfaceId::WpImageDescriptionCreatorParamsV1, 3u16));
        },
        GeneratedHookRequest::WpImageDescriptionCreatorParamsV1SetPrimaries { .. } => {
            assert(tables::request_place(GeneratedRequestId::WpImageDescriptionCreatorParamsV1SetPrimaries) == (InterfaceId::WpImageDescriptionCreatorParamsV1, 4u16));
        },
        GeneratedHookRequest::WpImageDescriptionCreatorParamsV1SetLuminances { .. } => {
            assert(tables::request_place(GeneratedRequestId::WpImageDescriptionCreatorParamsV1SetLuminances) == (InterfaceId::WpImageDescriptionCreatorParamsV1, 5u16));
        },
        GeneratedHookRequest::WpImageDescriptionV1Destroy => {
            assert(tables::request_place(GeneratedRequestId::WpImageDescriptionV1Destroy) == (InterfaceId::WpImageDescriptionV1, 0u16));
        },
    }
}

/// What a hook is handed is what the message held: numbers stay numbers with their sign
/// or without, and objects stay objects.
pub proof fn hook_arguments_are_kept(arg: ArgView)
    ensures
        decode::intercept_arg(arg) matches Some(handed) ==> !(arg is Fixed) ==> decode::expected_arg(
            wire::kind_of(arg),
            handed,
        ) == Some(arg),
        decode::intercept_arg(arg) is None <==> arg is String || arg is Array || arg is Fd || arg
            == ArgView::Object(None),
{
}

/// The arguments of a hook are taken one by one, each at its place.
pub proof fn hook_arguments_keep_their_places(
    name: Seq<char>,
    specs: Seq<GeneratedArgSpec>,
    args: Seq<decode::WaylandInterceptArg>,
    count: nat,
    i: int,
)
    requires
        0 <= i < count,
        decode::expected_args(name, specs, args, count) is Ok,
    ensures
        decode::expected_args(name, specs, args, count)->Ok_0.len() == count,
        decode::expected_arg(specs[i].kind, args[i]) == Some(
            decode::expected_args(name, specs, args, count)->Ok_0[i],
        ),
    decreases count,
{
    if count == 1 {
        assert(decode::expected_args(name, specs, args, 0)->Ok_0.len() == 0);
    } else {
        hook_arguments_keep_their_places(
            name,
            specs,
            args,
            (count - 1) as nat,
            if i < count - 1 {
                i
            } else {
                0
            },
        );
    }
}

/// The events by which the proxy follows the compositor are read as the protocol has
/// them: which event it is by the interface and the opcode, and each part from the
/// argument at its place.
#[verifier::spinoff_prover]
pub proof fn followed_events_are_as_sent(
    a: u32,
    b: u32,
    c: u32,
    d: u32,
    e: u32,
    object: Option<u32>,
    name: Option<Seq<char>>,
    bytes: Seq<u8>,
)
    ensures
        messages::event_of(InterfaceId::WlDisplay, 1, seq![ArgView::Uint(a)]) == Some(
            EventView::WlDisplayDeleteId { id: a },
        ),
        messages::event_of(
            InterfaceId::WlRegistry,
            0,
            seq![ArgView::Uint(a), ArgView::String(name), ArgView::Uint(b)],
        ) == Some(EventView::WlRegistryGlobal { name: a, interface: name, version: b }),
        messages::event_of(InterfaceId::WlSurface, 0, seq![ArgView::Object(object)]) == Some(
            EventView::WlSurfaceEnter { output: object },
        ),
        messages::event_of(InterfaceId::WlSurface, 1, seq![ArgView::Object(object)]) == Some(
            EventView::WlSurfaceLeave { output: object },
        ),
        messages::event_of(
            InterfaceId::WlKeyboard,
            0,
            seq![ArgView::Uint(a), ArgView::Fd, ArgView::Uint(b)],
        ) == Some(EventView::WlKeyboardKeymap { format: a, fd: true, size: b }),
        messages::event_of(
            InterfaceId::WlKeyboard,
            4,
            seq![
                ArgView::Uint(a),
                ArgView::Uint(b),
                ArgView::Uint(c),
                ArgView::Uint(d),
                ArgView::Uint(e),
            ],
        ) == Some(
            EventView::WlKeyboardModifiers {
                serial: a,
                mods_depressed: b,
                mods_latched: c,
                mods_locked: d,
                group: e,
            },
        ),
        messages::event_of(InterfaceId::XdgSurface, 0, seq![ArgView::Uint(a)]) == Some(
            EventView::XdgSurfaceConfigure { serial: a },
        ),
        messages::event_of(InterfaceId::ZwpLinuxDmabufV1, 0, seq![ArgView::Uint(a)]) == Some(
            EventView::ZwpLinuxDmabufV1Format { format: a },
        ),
        messages::event_of(
            InterfaceId::ZwpLinuxDmabufV1,
            1,
            seq![ArgView::Uint(a), ArgView::Uint(b), ArgView::Uint(c)],
        ) == Some(
            EventView::ZwpLinuxDmabufV1Modifier { format: a, modifier_hi: b, modifier_lo: c },
        ),
        messages::event_of(
            InterfaceId::ZwpLinuxBufferParamsV1,
            0,
            seq![ArgView::NewId(a)],
        ) == Some(EventView::ZwpLinuxBufferParamsV1Created { buffer: a }),
        messages::event_of(InterfaceId::ZwpLinuxBufferParamsV1, 1, Seq::empty()) == Some(
            EventView::ZwpLinuxBufferParamsV1Failed,
        ),
        messages::event_of(
            InterfaceId::ZwpLinuxDmabufFeedbackV1,
            1,
            seq![ArgView::Fd, ArgView::Uint(a)],
        ) == Some(EventView::ZwpLinuxDmabufFeedbackV1FormatTable { fd: true, size: a }),
        messages::event_of(
            InterfaceId::ZwpLinuxDmabufFeedbackV1,
            5,
            seq![ArgView::Array(bytes)],
        ) == Some(EventView::ZwpLinuxDmabufFeedbackV1TrancheFormats { indices: bytes }),
{
}

} // verus!
