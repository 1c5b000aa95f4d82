//! Requests and events as values: what the proxy reads of the requests that a
//! client sends and of the events that a compositor sends, and the events that
//! it writes itself.

use crate::tables;
use crate::tables::{GeneratedRequestId, InterfaceId};
use crate::text;
use crate::text::{copy_bytes, copy_text};
use crate::wire;
use crate::wire::{ArgView, DecodedWaylandArg, encode_wayland_message};
use vstd::prelude::*;

verus! {

/// One decoded argument, as the readers of requests and events take it.
#[derive(Debug, PartialEq, Eq)]
pub enum GeneratedDecodedArg {
    Int(i32),
    Uint(u32),
    Fixed(i32),
    String(Option<String>),
    Object(Option<u32>),
    NewId(u32),
    Array(Vec<u8>),
    Fd,
}

impl View for GeneratedDecodedArg {
    type V = ArgView;

    open spec fn view(&self) -> ArgView {
        match self {
            GeneratedDecodedArg::Int(value) => ArgView::Int(*value),
            GeneratedDecodedArg::Uint(value) => ArgView::Uint(*value),
            GeneratedDecodedArg::Fixed(value) => ArgView::Fixed(*value),
            GeneratedDecodedArg::String(value) => ArgView::String(text::optional(*value)),
            GeneratedDecodedArg::Object(value) => ArgView::Object(*value),
            GeneratedDecodedArg::NewId(value) => ArgView::NewId(*value),
            GeneratedDecodedArg::Array(value) => ArgView::Array(value@),
            GeneratedDecodedArg::Fd => ArgView::Fd,
        }
    }
}

/// The values of a list of decoded arguments.
pub open spec fn decoded_values(args: Seq<GeneratedDecodedArg>) -> Seq<ArgView> {
    args.map_values(|arg: GeneratedDecodedArg| arg@)
}

impl GeneratedDecodedArg {
    /// The same value, as read from the wire.
    pub fn from_decoded(arg: &DecodedWaylandArg) -> (decoded: Self)
        ensures
            decoded@ == arg@,
    {
        match arg {
            DecodedWaylandArg::Int(value) => GeneratedDecodedArg::Int(*value),
            DecodedWaylandArg::Uint(value) => GeneratedDecodedArg::Uint(*value),
            DecodedWaylandArg::Fixed(value) => GeneratedDecodedArg::Fixed(*value),
            DecodedWaylandArg::String(value) => GeneratedDecodedArg::String(copy_text(value)),
            DecodedWaylandArg::Object(value) => GeneratedDecodedArg::Object(*value),
            DecodedWaylandArg::NewId(value) => GeneratedDecodedArg::NewId(*value),
            DecodedWaylandArg::Array(value) => GeneratedDecodedArg::Array(copy_bytes(value)),
            DecodedWaylandArg::Fd => GeneratedDecodedArg::Fd,
        }
    }
}

/// All arguments of a message, as read from the wire.
pub fn decoded_args(args: &[DecodedWaylandArg]) -> (decoded: Vec<GeneratedDecodedArg>)
    ensures
        decoded_values(decoded@) == wire::arg_values(args@),
{
    let mut decoded: Vec<GeneratedDecodedArg> = Vec::new();
    let mut index: usize = 0;
    while index < args.len()
        invariant
            index <= args@.len(),
            decoded@.len() == index,
            forall|i: int| 0 <= i < index ==> #[trigger] decoded@[i]@ == args@[i]@,
        decreases args@.len() - index,
    {
        decoded.push(GeneratedDecodedArg::from_decoded(&args[index]));
        index = index + 1;
    }
    assert(decoded_values(decoded@) =~= wire::arg_values(args@));
    decoded
}

/// The requests that hooks and the color state look at.
#[derive(Debug, Clone, Copy, PartialEq, Eq, Structural)]
#[allow(inconsistent_fields)]
pub enum GeneratedHookRequest {
    WlSurfaceDestroy,
    WlSurfaceAttach { buffer: Option<u32>, x: i32, y: i32 },
    WlSurfaceDamage { x: i32, y: i32, width: i32, height: i32 },
    WlSurfaceDamageBuffer { x: i32, y: i32, width: i32, height: i32 },
    WlSurfaceCommit,
    WpLinuxDrmSyncobjManagerV1ImportTimeline { id: u32, fd: bool },
    WpLinuxDrmSyncobjSurfaceV1SetAcquirePoint {
        timeline: Option<u32>,
        point_hi: u32,
        point_lo: u32,
    },
    WpLinuxDrmSyncobjSurfaceV1SetReleasePoint {
        timeline: Option<u32>,
        point_hi: u32,
        point_lo: u32,
    },
    WpColorManagerV1GetSurface { id: u32, surface: Option<u32> },
    WpColorManagerV1CreateParametricCreator { obj: u32 },
    WpColorManagerV1CreateWindowsScrgb { image_description: u32 },
    WpColorManagementSurfaceV1Destroy,
    WpColorManagementSurfaceV1SetImageDescription {
        image_description: Option<u32>,
        render_intent: u32,
    },
    WpColorManagementSurfaceV1UnsetImageDescription,
    WpImageDescriptionCreatorParamsV1Create { image_description: u32 },
    WpImageDescriptionCreatorParamsV1SetTfNamed { tf: u32 },
    WpImageDescriptionCreatorParamsV1SetTfPower { eexp: u32 },
    WpImageDescriptionCreatorParamsV1SetPrimariesNamed { primaries: u32 },
    WpImageDescriptionCreatorParamsV1SetPrimaries {
        r_x: i32,
        r_y: i32,
        g_x: i32,
        g_y: i32,
        b_x: i32,
        b_y: i32,
        w_x: i32,
        w_y: i32,
    },
    WpImageDescriptionCreatorParamsV1SetLuminances {
        min_lum: u32,
        max_lum: u32,
        reference_lum: u32,
    },
    WpImageDescriptionV1Destroy,
}

/// The names of those requests.
#[derive(Debug, Clone, Copy, PartialEq, Eq, Structural)]
pub enum GeneratedHookRequestId {
    WlSurfaceDestroy,
    WlSurfaceAttach,
    WlSurfaceDamage,
    WlSurfaceDamageBuffer,
    WlSurfaceCommit,
    WpLinuxDrmSyncobjManagerV1ImportTimeline,
    WpLinuxDrmSyncobjSurfaceV1SetAcquirePoint,
    WpLinuxDrmSyncobjSurfaceV1SetReleasePoint,
    WpColorManagerV1GetSurface,
    WpColorManagerV1CreateParametricCreator,
    WpColorManagerV1CreateWindowsScrgb,
    WpColorManagementSurfaceV1Destroy,
    WpColorManagementSurfaceV1SetImageDescription,
    WpColorManagementSurfaceV1UnsetImageDescription,
    WpImageDescriptionCreatorParamsV1Create,
    WpImageDescriptionCreatorParamsV1SetTfNamed,
    WpImageDescriptionCreatorParamsV1SetTfPower,
    WpImageDescriptionCreatorParamsV1SetPrimariesNamed,
    WpImageDescriptionCreatorParamsV1SetPrimaries,
    WpImageDescriptionCreatorParamsV1SetLuminances,
    WpImageDescriptionV1Destroy,
}

/// Which request a hook request is.
pub open spec fn hook_id(request: GeneratedHookRequest) -> GeneratedHookRequestId {
    match request {
        GeneratedHookRequest::WlSurfaceDestroy => GeneratedHookRequestId::WlSurfaceDestroy,
        GeneratedHookRequest::WlSurfaceAttach { .. } => GeneratedHookRequestId::WlSurfaceAttach,
        GeneratedHookRequest::WlSurfaceDamage { .. } => GeneratedHookRequestId::WlSurfaceDamage,
        GeneratedHookRequest::WlSurfaceDamageBuffer { .. } => GeneratedHookRequestId::WlSurfaceDamageBuffer,
        GeneratedHookRequest::WlSurfaceCommit => GeneratedHookRequestId::WlSurfaceCommit,
        GeneratedHookRequest::WpLinuxDrmSyncobjManagerV1ImportTimeline { .. } => GeneratedHookRequestId::WpLinuxDrmSyncobjManagerV1ImportTimeline,
        GeneratedHookRequest::WpLinuxDrmSyncobjSurfaceV1SetAcquirePoint { .. } => GeneratedHookRequestId::WpLinuxDrmSyncobjSurfaceV1SetAcquirePoint,
        GeneratedHookRequest::WpLinuxDrmSyncobjSurfaceV1SetReleasePoint { .. } => GeneratedHookRequestId::WpLinuxDrmSyncobjSurfaceV1SetReleasePoint,
        GeneratedHookRequest::WpColorManagerV1GetSurface { .. } => GeneratedHookRequestId::WpColorManagerV1GetSurface,
        GeneratedHookRequest::WpColorManagerV1CreateParametricCreator { .. } => GeneratedHookRequestId::WpColorManagerV1CreateParametricCreator,
        GeneratedHookRequest::WpColorManagerV1CreateWindowsScrgb { .. } => GeneratedHookRequestId::WpColorManagerV1CreateWindowsScrgb,
        GeneratedHookRequest::WpColorManagementSurfaceV1Destroy => GeneratedHookRequestId::WpColorManagementSurfaceV1Destroy,
        GeneratedHookRequest::WpColorManagementSurfaceV1SetImageDescription { .. } => GeneratedHookRequestId::WpColorManagementSurfaceV1SetImageDescription,
        GeneratedHookRequest::WpColorManagementSurfaceV1UnsetImageDescription => GeneratedHookRequestId::WpColorManagementSurfaceV1UnsetImageDescription,
        GeneratedHookRequest::WpImageDescriptionCreatorParamsV1Create { .. } => GeneratedHookRequestId::WpImageDescriptionCreatorParamsV1Create,
        GeneratedHookRequest::WpImageDescriptionCreatorParamsV1SetTfNamed { .. } => GeneratedHookRequestId::WpImageDescriptionCreatorParamsV1SetTfNamed,
        GeneratedHookRequest::WpImageDescriptionCreatorParamsV1SetTfPower { .. } => GeneratedHookRequestId::WpImageDescriptionCreatorParamsV1SetTfPower,
        GeneratedHookRequest::WpImageDescriptionCreatorParamsV1SetPrimariesNamed { .. } => GeneratedHookRequestId::WpImageDescriptionCreatorParamsV1SetPrimariesNamed,
        GeneratedHookRequest::WpImageDescriptionCreatorParamsV1SetPrimaries { .. } => GeneratedHookRequestId::WpImageDescriptionCreatorParamsV1SetPrimaries,
        GeneratedHookRequest::WpImageDescriptionCreatorParamsV1SetLuminances { .. } => GeneratedHookRequestId::WpImageDescriptionCreatorParamsV1SetLuminances,
        GeneratedHookRequest::WpImageDescriptionV1Destroy => GeneratedHookRequestId::WpImageDescriptionV1Destroy,
    }
}

impl GeneratedHookRequest {
    /// Which request this is.
    pub fn id(&self) -> (id: GeneratedHookRequestId)
        ensures
            id == hook_id(*self),
    {
        match self {
            GeneratedHookRequest::WlSurfaceDestroy => GeneratedHookRequestId::WlSurfaceDestroy,
            GeneratedHookRequest::WlSurfaceAttach { .. } => GeneratedHookRequestId::WlSurfaceAttach,
            GeneratedHookRequest::WlSurfaceDamage { .. } => GeneratedHookRequestId::WlSurfaceDamage,
            GeneratedHookRequest::WlSurfaceDamageBuffer { .. } => GeneratedHookRequestId::WlSurfaceDamageBuffer,
            GeneratedHookRequest::WlSurfaceCommit => GeneratedHookRequestId::WlSurfaceCommit,
            GeneratedHookRequest::WpLinuxDrmSyncobjManagerV1ImportTimeline { .. } => GeneratedHookRequestId::WpLinuxDrmSyncobjManagerV1ImportTimeline,
            GeneratedHookRequest::WpLinuxDrmSyncobjSurfaceV1SetAcquirePoint { .. } => GeneratedHookRequestId::WpLinuxDrmSyncobjSurfaceV1SetAcquirePoint,
            GeneratedHookRequest::WpLinuxDrmSyncobjSurfaceV1SetReleasePoint { .. } => GeneratedHookRequestId::WpLinuxDrmSyncobjSurfaceV1SetReleasePoint,
            GeneratedHookRequest::WpColorManagerV1GetSurface { .. } => GeneratedHookRequestId::WpColorManagerV1GetSurface,
            GeneratedHookRequest::WpColorManagerV1CreateParametricCreator { .. } => GeneratedHookRequestId::WpColorManagerV1CreateParametricCreator,
            GeneratedHookRequest::WpColorManagerV1CreateWindowsScrgb { .. } => GeneratedHookRequestId::WpColorManagerV1CreateWindowsScrgb,
            GeneratedHookRequest::WpColorManagementSurfaceV1Destroy => GeneratedHookRequestId::WpColorManagementSurfaceV1Destroy,
            GeneratedHookRequest::WpColorManagementSurfaceV1SetImageDescription { .. } => GeneratedHookRequestId::WpColorManagementSurfaceV1SetImageDescription,
            GeneratedHookRequest::WpColorManagementSurfaceV1UnsetImageDescription => GeneratedHookRequestId::WpColorManagementSurfaceV1UnsetImageDescription,
            GeneratedHookRequest::WpImageDescriptionCreatorParamsV1Create { .. } => GeneratedHookRequestId::WpImageDescriptionCreatorParamsV1Create,
            GeneratedHookRequest::WpImageDescriptionCreatorParamsV1SetTfNamed { .. } => GeneratedHookRequestId::WpImageDescriptionCreatorParamsV1SetTfNamed,
            GeneratedHookRequest::WpImageDescriptionCreatorParamsV1SetTfPower { .. } => GeneratedHookRequestId::WpImageDescriptionCreatorParamsV1SetTfPower,
            GeneratedHookRequest::WpImageDescriptionCreatorParamsV1SetPrimariesNamed { .. } => GeneratedHookRequestId::WpImageDescriptionCreatorParamsV1SetPrimariesNamed,
            GeneratedHookRequest::WpImageDescriptionCreatorParamsV1SetPrimaries { .. } => GeneratedHookRequestId::WpImageDescriptionCreatorParamsV1SetPrimaries,
            GeneratedHookRequest::WpImageDescriptionCreatorParamsV1SetLuminances { .. } => GeneratedHookRequestId::WpImageDescriptionCreatorParamsV1SetLuminances,
            GeneratedHookRequest::WpImageDescriptionV1Destroy => GeneratedHookRequestId::WpImageDescriptionV1Destroy,
        }
    }
}

/// All hook requests.
pub open spec fn all_hooks() -> Seq<GeneratedHookRequestId> {
    seq![
        GeneratedHookRequestId::WlSurfaceDestroy,
        GeneratedHookRequestId::WlSurfaceAttach,
        GeneratedHookRequestId::WlSurfaceDamage,
        GeneratedHookRequestId::WlSurfaceDamageBuffer,
        GeneratedHookRequestId::WlSurfaceCommit,
        GeneratedHookRequestId::WpLinuxDrmSyncobjManagerV1ImportTimeline,
        GeneratedHookRequestId::WpLinuxDrmSyncobjSurfaceV1SetAcquirePoint,
        GeneratedHookRequestId::WpLinuxDrmSyncobjSurfaceV1SetReleasePoint,
        GeneratedHookRequestId::WpColorManagerV1GetSurface,
        GeneratedHookRequestId::WpColorManagerV1CreateParametricCreator,
        GeneratedHookRequestId::WpColorManagerV1CreateWindowsScrgb,
        GeneratedHookRequestId::WpColorManagementSurfaceV1Destroy,
        GeneratedHookRequestId::WpColorManagementSurfaceV1SetImageDescription,
        GeneratedHookRequestId::WpColorManagementSurfaceV1UnsetImageDescription,
        GeneratedHookRequestId::WpImageDescriptionCreatorParamsV1Create,
        GeneratedHookRequestId::WpImageDescriptionCreatorParamsV1SetTfNamed,
        GeneratedHookRequestId::WpImageDescriptionCreatorParamsV1SetTfPower,
        GeneratedHookRequestId::WpImageDescriptionCreatorParamsV1SetPrimariesNamed,
        GeneratedHookRequestId::WpImageDescriptionCreatorParamsV1SetPrimaries,
        GeneratedHookRequestId::WpImageDescriptionCreatorParamsV1SetLuminances,
        GeneratedHookRequestId::WpImageDescriptionV1Destroy,
    ]
}

/// Lists all hook requests.
pub fn hooks() -> (ids: Vec<GeneratedHookRequestId>)
    ensures
        ids@ == all_hooks(),
{
    vec![
        GeneratedHookRequestId::WlSurfaceDestroy,
        GeneratedHookRequestId::WlSurfaceAttach,
        GeneratedHookRequestId::WlSurfaceDamage,
        GeneratedHookRequestId::WlSurfaceDamageBuffer,
        GeneratedHookRequestId::WlSurfaceCommit,
        GeneratedHookRequestId::WpLinuxDrmSyncobjManagerV1ImportTimeline,
        GeneratedHookRequestId::WpLinuxDrmSyncobjSurfaceV1SetAcquirePoint,
        GeneratedHookRequestId::WpLinuxDrmSyncobjSurfaceV1SetReleasePoint,
        GeneratedHookRequestId::WpColorManagerV1GetSurface,
        GeneratedHookRequestId::WpColorManagerV1CreateParametricCreator,
        GeneratedHookRequestId::WpColorManagerV1CreateWindowsScrgb,
        GeneratedHookRequestId::WpColorManagementSurfaceV1Destroy,
        GeneratedHookRequestId::WpColorManagementSurfaceV1SetImageDescription,
        GeneratedHookRequestId::WpColorManagementSurfaceV1UnsetImageDescription,
        GeneratedHookRequestId::WpImageDescriptionCreatorParamsV1Create,
        GeneratedHookRequestId::WpImageDescriptionCreatorParamsV1SetTfNamed,
        GeneratedHookRequestId::WpImageDescriptionCreatorParamsV1SetTfPower,
        GeneratedHookRequestId::WpImageDescriptionCreatorParamsV1SetPrimariesNamed,
        GeneratedHookRequestId::WpImageDescriptionCreatorParamsV1SetPrimaries,
        GeneratedHookRequestId::WpImageDescriptionCreatorParamsV1SetLuminances,
        GeneratedHookRequestId::WpImageDescriptionV1Destroy,
    ]
}

/// The request that a hook request is.
pub open spec fn hooked_request(id: GeneratedHookRequestId) -> GeneratedRequestId {
    match id {
        GeneratedHookRequestId::WlSurfaceDestroy => GeneratedRequestId::WlSurfaceDestroy,
        GeneratedHookRequestId::WlSurfaceAttach => GeneratedRequestId::WlSurfaceAttach,
        GeneratedHookRequestId::WlSurfaceDamage => GeneratedRequestId::WlSurfaceDamage,
        GeneratedHookRequestId::WlSurfaceDamageBuffer => GeneratedRequestId::WlSurfaceDamageBuffer,
        GeneratedHookRequestId::WlSurfaceCommit => GeneratedRequestId::WlSurfaceCommit,
        GeneratedHookRequestId::WpLinuxDrmSyncobjManagerV1ImportTimeline => {
            GeneratedRequestId::WpLinuxDrmSyncobjManagerV1ImportTimeline
        },
        GeneratedHookRequestId::WpLinuxDrmSyncobjSurfaceV1SetAcquirePoint => {
            GeneratedRequestId::WpLinuxDrmSyncobjSurfaceV1SetAcquirePoint
        },
        GeneratedHookRequestId::WpLinuxDrmSyncobjSurfaceV1SetReleasePoint => {
            GeneratedRequestId::WpLinuxDrmSyncobjSurfaceV1SetReleasePoint
        },
        GeneratedHookRequestId::WpColorManagerV1GetSurface => {
            GeneratedRequestId::WpColorManagerV1GetSurface
        },
        GeneratedHookRequestId::WpColorManagerV1CreateParametricCreator => {
            GeneratedRequestId::WpColorManagerV1CreateParametricCreator
        },
        GeneratedHookRequestId::WpColorManagerV1CreateWindowsScrgb => {
            GeneratedRequestId::WpColorManagerV1CreateWindowsScrgb
        },
        GeneratedHookRequestId::WpColorManagementSurfaceV1Destroy => {
            GeneratedRequestId::WpColorManagementSurfaceV1Destroy
        },
        GeneratedHookRequestId::WpColorManagementSurfaceV1SetImageDescription => {
            GeneratedRequestId::WpColorManagementSurfaceV1SetImageDescription
        },
        GeneratedHookRequestId::WpColorManagementSurfaceV1UnsetImageDescription => {
            GeneratedRequestId::WpColorManagementSurfaceV1UnsetImageDescription
        },
        GeneratedHookRequestId::WpImageDescriptionCreatorParamsV1Create => {
            GeneratedRequestId::WpImageDescriptionCreatorParamsV1Create
        },
        GeneratedHookRequestId::WpImageDescriptionCreatorParamsV1SetTfNamed => {
            GeneratedRequestId::WpImageDescriptionCreatorParamsV1SetTfNamed
        },
        GeneratedHookRequestId::WpImageDescriptionCreatorParamsV1SetTfPower => {
            GeneratedRequestId::WpImageDescriptionCreatorParamsV1SetTfPower
        },
        GeneratedHookRequestId::WpImageDescriptionCreatorParamsV1SetPrimariesNamed => {
            GeneratedRequestId::WpImageDescriptionCreatorParamsV1SetPrimariesNamed
        },
        GeneratedHookRequestId::WpImageDescriptionCreatorParamsV1SetPrimaries => {
            GeneratedRequestId::WpImageDescriptionCreatorParamsV1SetPrimaries
        },
        GeneratedHookRequestId::WpImageDescriptionCreatorParamsV1SetLuminances => {
            GeneratedRequestId::WpImageDescriptionCreatorParamsV1SetLuminances
        },
        GeneratedHookRequestId::WpImageDescriptionV1Destroy => {
            GeneratedRequestId::WpImageDescriptionV1Destroy
        },
    }
}

/// The full name of a hook request.
pub open spec fn hook_name(id: GeneratedHookRequestId) -> &'static str {
    match id {
        GeneratedHookRequestId::WlSurfaceDestroy => "wl_surface.destroy",
        GeneratedHookRequestId::WlSurfaceAttach => "wl_surface.attach",
        GeneratedHookRequestId::WlSurfaceDamage => "wl_surface.damage",
        GeneratedHookRequestId::WlSurfaceDamageBuffer => "wl_surface.damage_buffer",
        GeneratedHookRequestId::WlSurfaceCommit => "wl_surface.commit",
        GeneratedHookRequestId::WpLinuxDrmSyncobjManagerV1ImportTimeline => {
            "wp_linux_drm_syncobj_manager_v1.import_timeline"
        },
        GeneratedHookRequestId::WpLinuxDrmSyncobjSurfaceV1SetAcquirePoint => {
            "wp_linux_drm_syncobj_surface_v1.set_acquire_point"
        },
        GeneratedHookRequestId::WpLinuxDrmSyncobjSurfaceV1SetReleasePoint => {
            "wp_linux_drm_syncobj_surface_v1.set_release_point"
        },
        GeneratedHookRequestId::WpColorManagerV1GetSurface => "wp_color_manager_v1.get_surface",
        GeneratedHookRequestId::WpColorManagerV1CreateParametricCreator => {
            "wp_color_manager_v1.create_parametric_creator"
        },
        GeneratedHookRequestId::WpColorManagerV1CreateWindowsScrgb => {
            "wp_color_manager_v1.create_windows_scrgb"
        },
        GeneratedHookRequestId::WpColorManagementSurfaceV1Destroy => {
            "wp_color_management_surface_v1.destroy"
        },
        GeneratedHookRequestId::WpColorManagementSurfaceV1SetImageDescription => {
            "wp_color_management_surface_v1.set_image_description"
        },
        GeneratedHookRequestId::WpColorManagementSurfaceV1UnsetImageDescription => {
            "wp_color_management_surface_v1.unset_image_description"
        },
        GeneratedHookRequestId::WpImageDescriptionCreatorParamsV1Create => {
            "wp_image_description_creator_params_v1.create"
        },
        GeneratedHookRequestId::WpImageDescriptionCreatorParamsV1SetTfNamed => {
            "wp_image_description_creator_params_v1.set_tf_named"
        },
        GeneratedHookRequestId::WpImageDescriptionCreatorParamsV1SetTfPower => {
            "wp_image_description_creator_params_v1.set_tf_power"
        },
        GeneratedHookRequestId::WpImageDescriptionCreatorParamsV1SetPrimariesNamed => {
            "wp_image_description_creator_params_v1.set_primaries_named"
        },
        GeneratedHookRequestId::WpImageDescriptionCreatorParamsV1SetPrimaries => {
            "wp_image_description_creator_params_v1.set_primaries"
        },
        GeneratedHookRequestId::WpImageDescriptionCreatorParamsV1SetLuminances => {
            "wp_image_description_creator_params_v1.set_luminances"
        },
        GeneratedHookRequestId::WpImageDescriptionV1Destroy => "wp_image_description_v1.destroy",
    }
}

/// Looks up the full name of a hook request.
pub fn hook_request_name(id: GeneratedHookRequestId) -> (name: &'static str)
    ensures
        name == hook_name(id),
{
    match id {
        GeneratedHookRequestId::WlSurfaceDestroy => "wl_surface.destroy",
        GeneratedHookRequestId::WlSurfaceAttach => "wl_surface.attach",
        GeneratedHookRequestId::WlSurfaceDamage => "wl_surface.damage",
        GeneratedHookRequestId::WlSurfaceDamageBuffer => "wl_surface.damage_buffer",
        GeneratedHookRequestId::WlSurfaceCommit => "wl_surface.commit",
        GeneratedHookRequestId::WpLinuxDrmSyncobjManagerV1ImportTimeline => {
            "wp_linux_drm_syncobj_manager_v1.import_timeline"
        },
        GeneratedHookRequestId::WpLinuxDrmSyncobjSurfaceV1SetAcquirePoint => {
            "wp_linux_drm_syncobj_surface_v1.set_acquire_point"
        },
        GeneratedHookRequestId::WpLinuxDrmSyncobjSurfaceV1SetReleasePoint => {
            "wp_linux_drm_syncobj_surface_v1.set_release_point"
        },
        GeneratedHookRequestId::WpColorManagerV1GetSurface => "wp_color_manager_v1.get_surface",
        GeneratedHookRequestId::WpColorManagerV1CreateParametricCreator => {
            "wp_color_manager_v1.create_parametric_creator"
        },
        GeneratedHookRequestId::WpColorManagerV1CreateWindowsScrgb => {
            "wp_color_manager_v1.create_windows_scrgb"
        },
        GeneratedHookRequestId::WpColorManagementSurfaceV1Destroy => {
            "wp_color_management_surface_v1.destroy"
        },
        GeneratedHookRequestId::WpColorManagementSurfaceV1SetImageDescription => {
            "wp_color_management_surface_v1.set_image_description"
        },
        GeneratedHookRequestId::WpColorManagementSurfaceV1UnsetImageDescription => {
            "wp_color_management_surface_v1.unset_image_description"
        },
        GeneratedHookRequestId::WpImageDescriptionCreatorParamsV1Create => {
            "wp_image_description_creator_params_v1.create"
        },
        GeneratedHookRequestId::WpImageDescriptionCreatorParamsV1SetTfNamed => {
            "wp_image_description_creator_params_v1.set_tf_named"
        },
        GeneratedHookRequestId::WpImageDescriptionCreatorParamsV1SetTfPower => {
            "wp_image_description_creator_params_v1.set_tf_power"
        },
        GeneratedHookRequestId::WpImageDescriptionCreatorParamsV1SetPrimariesNamed => {
            "wp_image_description_creator_params_v1.set_primaries_named"
        },
        GeneratedHookRequestId::WpImageDescriptionCreatorParamsV1SetPrimaries => {
            "wp_image_description_creator_params_v1.set_primaries"
        },
        GeneratedHookRequestId::WpImageDescriptionCreatorParamsV1SetLuminances => {
            "wp_image_description_creator_params_v1.set_luminances"
        },
        GeneratedHookRequestId::WpImageDescriptionV1Destroy => "wp_image_description_v1.destroy",
    }
}

/// The requests that the session acts on: those that make objects, and those
/// that it may answer itself.
#[derive(Debug, Clone, Copy, PartialEq, Eq, Structural)]
#[allow(inconsistent_fields)]
pub enum GeneratedImplementedRequest {
    WlDisplaySync { callback: u32 },
    WlDisplayGetRegistry { registry: u32 },
    WlCompositorCreateSurface { id: u32 },
    WlCompositorCreateRegion { id: u32 },
    WlDataDeviceManagerCreateDataSource { id: u32 },
    WlDataDeviceManagerGetDataDevice { id: u32, seat: Option<u32> },
    WlShellGetShellSurface { id: u32, surface: Option<u32> },
    WlSurfaceFrame { callback: u32 },
    WlSurfaceGetRelease { callback: u32 },
    WlSeatGetPointer { id: u32 },
    WlSeatGetKeyboard { id: u32 },
    WlSeatGetTouch { id: u32 },
    WlSubcompositorGetSubsurface { id: u32, surface: Option<u32>, parent: Option<u32> },
    WlFixesDestroyRegistry { registry: Option<u32> },
    XdgWmBaseCreatePositioner { id: u32 },
    XdgWmBaseGetXdgSurface { id: u32, surface: Option<u32> },
    XdgSurfaceGetToplevel { id: u32 },
    XdgSurfaceGetPopup { id: u32, parent: Option<u32>, positioner: Option<u32> },
    XdgSurfaceAckConfigure { serial: u32 },
    ZwpLinuxDmabufV1CreateParams { params_id: u32 },
    ZwpLinuxDmabufV1GetDefaultFeedback { id: u32 },
    ZwpLinuxDmabufV1GetSurfaceFeedback { id: u32, surface: Option<u32> },
    ZwpLinuxBufferParamsV1CreateImmed {
        buffer_id: u32,
        width: i32,
        height: i32,
        format: u32,
        flags: u32,
    },
    WpLinuxDrmSyncobjManagerV1GetSurface { id: u32, surface: Option<u32> },
    WpLinuxDrmSyncobjManagerV1ImportTimeline { id: u32, fd: bool },
    WpLinuxDrmSyncobjTimelineV1Destroy,
    WpLinuxDrmSyncobjSurfaceV1Destroy,
    WpLinuxDrmSyncobjSurfaceV1SetAcquirePoint {
        timeline: Option<u32>,
        point_hi: u32,
        point_lo: u32,
    },
    WpLinuxDrmSyncobjSurfaceV1SetReleasePoint {
        timeline: Option<u32>,
        point_hi: u32,
        point_lo: u32,
    },
    WpTearingControlManagerV1GetTearingControl { id: u32, surface: Option<u32> },
    WpPresentationFeedback { surface: Option<u32>, callback: u32 },
    WpColorManagerV1GetOutput { id: u32, output: Option<u32> },
    WpColorManagerV1GetSurface { id: u32, surface: Option<u32> },
    WpColorManagerV1GetSurfaceFeedback { id: u32, surface: Option<u32> },
    WpColorManagerV1CreateIccCreator { obj: u32 },
    WpColorManagerV1CreateParametricCreator { obj: u32 },
    WpColorManagerV1CreateWindowsScrgb { image_description: u32 },
    WpColorManagerV1GetImageDescription { image_description: u32, reference: Option<u32> },
    WpColorManagerV1CreateWindowsBt2100 { image_description: u32 },
    WpColorManagementOutputV1GetImageDescription { image_description: u32 },
    WpColorManagementSurfaceFeedbackV1GetPreferred { image_description: u32 },
    WpColorManagementSurfaceFeedbackV1GetPreferredParametric { image_description: u32 },
    WpImageDescriptionCreatorIccV1Create { image_description: u32 },
    WpImageDescriptionCreatorParamsV1Create { image_description: u32 },
    WpImageDescriptionV1GetInformation { information: u32 },
    WpFifoManagerV1GetFifo { id: u32, surface: Option<u32> },
    WpFractionalScaleManagerV1GetFractionalScale { id: u32, surface: Option<u32> },
    WpViewporterGetViewport { id: u32, surface: Option<u32> },
}

/// The requests that windows and buffers are tracked by.
#[derive(Debug, PartialEq, Eq)]
pub enum GeneratedTrackedRequest {
    WlRegistryBind { name: u32, id_interface: Option<String>, id_version: u32, id: u32 },
    WlSubcompositorGetSubsurface { id: u32, surface: Option<u32>, parent: Option<u32> },
    WlSubsurfaceDestroy,
    WlSubsurfaceSetPosition { x: i32, y: i32 },
    XdgWmBaseGetXdgSurface { id: u32, surface: Option<u32> },
    XdgSurfaceGetToplevel { id: u32 },
    XdgSurfaceSetWindowGeometry { x: i32, y: i32, width: i32, height: i32 },
    XdgSurfaceAckConfigure { serial: u32 },
    XdgToplevelSetTitle { title: Option<String> },
    XdgToplevelSetAppId { app_id: Option<String> },
    ZwpLinuxDmabufV1CreateParams { params_id: u32 },
    ZwpLinuxBufferParamsV1Destroy,
    ZwpLinuxBufferParamsV1Add {
        fd: bool,
        plane_idx: u32,
        offset: u32,
        stride: u32,
        modifier_hi: u32,
        modifier_lo: u32,
    },
    ZwpLinuxBufferParamsV1Create { width: i32, height: i32, format: u32, flags: u32 },
    ZwpLinuxBufferParamsV1CreateImmed {
        buffer_id: u32,
        width: i32,
        height: i32,
        format: u32,
        flags: u32,
    },
    WpViewporterGetViewport { id: u32, surface: Option<u32> },
    WpViewportDestroy,
    WpViewportSetDestination { width: i32, height: i32 },
}

/// The value of a tracked request.
#[verifier::ext_equal]
pub enum TrackedRequestView {
    WlRegistryBind { name: u32, id_interface: Option<Seq<char>>, id_version: u32, id: u32 },
    WlSubcompositorGetSubsurface { id: u32, surface: Option<u32>, parent: Option<u32> },
    WlSubsurfaceDestroy,
    WlSubsurfaceSetPosition { x: i32, y: i32 },
    XdgWmBaseGetXdgSurface { id: u32, surface: Option<u32> },
    XdgSurfaceGetToplevel { id: u32 },
    XdgSurfaceSetWindowGeometry { x: i32, y: i32, width: i32, height: i32 },
    XdgSurfaceAckConfigure { serial: u32 },
    XdgToplevelSetTitle { title: Option<Seq<char>> },
    XdgToplevelSetAppId { app_id: Option<Seq<char>> },
    ZwpLinuxDmabufV1CreateParams { params_id: u32 },
    ZwpLinuxBufferParamsV1Destroy,
    ZwpLinuxBufferParamsV1Add {
        fd: bool,
        plane_idx: u32,
        offset: u32,
        stride: u32,
        modifier_hi: u32,
        modifier_lo: u32,
    },
    ZwpLinuxBufferParamsV1Create { width: i32, height: i32, format: u32, flags: u32 },
    ZwpLinuxBufferParamsV1CreateImmed {
        buffer_id: u32,
        width: i32,
        height: i32,
        format: u32,
        flags: u32,
    },
    WpViewporterGetViewport { id: u32, surface: Option<u32> },
    WpViewportDestroy,
    WpViewportSetDestination { width: i32, height: i32 },
}

impl View for GeneratedTrackedRequest {
    type V = TrackedRequestView;

    open spec fn view(&self) -> TrackedRequestView {
        match self {
            GeneratedTrackedRequest::WlRegistryBind { name, id_interface, id_version, id } => {
                TrackedRequestView::WlRegistryBind { name: *name, id_interface: text::optional(*id_interface), id_version: *id_version, id: *id }
            },
            GeneratedTrackedRequest::WlSubcompositorGetSubsurface { id, surface, parent } => {
                TrackedRequestView::WlSubcompositorGetSubsurface { id: *id, surface: *surface, parent: *parent }
            },
            GeneratedTrackedRequest::WlSubsurfaceDestroy => {
                TrackedRequestView::WlSubsurfaceDestroy
            },
            GeneratedTrackedRequest::WlSubsurfaceSetPosition { x, y } => {
                TrackedRequestView::WlSubsurfaceSetPosition { x: *x, y: *y }
            },
            GeneratedTrackedRequest::XdgWmBaseGetXdgSurface { id, surface } => {
                TrackedRequestView::XdgWmBaseGetXdgSurface { id: *id, surface: *surface }
            },
            GeneratedTrackedRequest::XdgSurfaceGetToplevel { id } => {
                TrackedRequestView::XdgSurfaceGetToplevel { id: *id }
            },
            GeneratedTrackedRequest::XdgSurfaceSetWindowGeometry { x, y, width, height } => {
                TrackedRequestView::XdgSurfaceSetWindowGeometry { x: *x, y: *y, width: *width, height: *height }
            },
            GeneratedTrackedRequest::XdgSurfaceAckConfigure { serial } => {
                TrackedRequestView::XdgSurfaceAckConfigure { serial: *serial }
            },
            GeneratedTrackedRequest::XdgToplevelSetTitle { title } => {
                TrackedRequestView::XdgToplevelSetTitle { title: text::optional(*title) }
            },
            GeneratedTrackedRequest::XdgToplevelSetAppId { app_id } => {
                TrackedRequestView::XdgToplevelSetAppId { app_id: text::optional(*app_id) }
            },
            GeneratedTrackedRequest::ZwpLinuxDmabufV1CreateParams { params_id } => {
                TrackedRequestView::ZwpLinuxDmabufV1CreateParams { params_id: *params_id }
            },
            GeneratedTrackedRequest::ZwpLinuxBufferParamsV1Destroy => {
                TrackedRequestView::ZwpLinuxBufferParamsV1Destroy
            },
            GeneratedTrackedRequest::ZwpLinuxBufferParamsV1Add { fd, plane_idx, offset, stride, modifier_hi, modifier_lo } => {
                TrackedRequestView::ZwpLinuxBufferParamsV1Add { fd: *fd, plane_idx: *plane_idx, offset: *offset, stride: *stride, modifier_hi: *modifier_hi, modifier_lo: *modifier_lo }
            },
            GeneratedTrackedRequest::ZwpLinuxBufferParamsV1Create { width, height, format, flags } => {
                TrackedRequestView::ZwpLinuxBufferParamsV1Create { width: *width, height: *height, format: *format, flags: *flags }
            },
            GeneratedTrackedRequest::ZwpLinuxBufferParamsV1CreateImmed { buffer_id, width, height, format, flags } => {
                TrackedRequestView::ZwpLinuxBufferParamsV1CreateImmed { buffer_id: *buffer_id, width: *width, height: *height, format: *format, flags: *flags }
            },
            GeneratedTrackedRequest::WpViewporterGetViewport { id, surface } => {
                TrackedRequestView::WpViewporterGetViewport { id: *id, surface: *surface }
            },
            GeneratedTrackedRequest::WpViewportDestroy => {
                TrackedRequestView::WpViewportDestroy
            },
            GeneratedTrackedRequest::WpViewportSetDestination { width, height } => {
                TrackedRequestView::WpViewportSetDestination { width: *width, height: *height }
            },
        }
    }
}

/// The value of a tracked request that may be absent.
pub open spec fn optional_tracked(request: Option<GeneratedTrackedRequest>) -> Option<
    TrackedRequestView,
> {
    match request {
        Some(found) => Some(found@),
        None => None,
    }
}

/// The hook request that a request with these arguments is.
pub open spec fn hook_request_of(id: GeneratedRequestId, args: Seq<ArgView>) -> Option<GeneratedHookRequest> {
    match id {
        GeneratedRequestId::WlSurfaceDestroy => {
            if args.len() == 0 {
                Some(GeneratedHookRequest::WlSurfaceDestroy)
            } else {
                None
            }
        },
        GeneratedRequestId::WlSurfaceAttach => {
            match (args[0], args[1], args[2]) {
                (ArgView::Object(buffer), ArgView::Int(x), ArgView::Int(y)) if args.len() == 3 => {
                    Some(GeneratedHookRequest::WlSurfaceAttach { buffer, x, y })
                },
                _ => None,
            }
        },
        GeneratedRequestId::WlSurfaceDamage => {
            match (args[0], args[1], args[2], args[3]) {
                (ArgView::Int(x), ArgView::Int(y), ArgView::Int(width), ArgView::Int(height)) if args.len() == 4 => {
                    Some(GeneratedHookRequest::WlSurfaceDamage { x, y, width, height })
                },
                _ => None,
            }
        },
        GeneratedRequestId::WlSurfaceDamageBuffer => {
            match (args[0], args[1], args[2], args[3]) {
                (ArgView::Int(x), ArgView::Int(y), ArgView::Int(width), ArgView::Int(height)) if args.len() == 4 => {
                    Some(GeneratedHookRequest::WlSurfaceDamageBuffer { x, y, width, height })
                },
                _ => None,
            }
        },
        GeneratedRequestId::WlSurfaceCommit => {
            if args.len() == 0 {
                Some(GeneratedHookRequest::WlSurfaceCommit)
            } else {
                None
            }
        },
        GeneratedRequestId::WpLinuxDrmSyncobjManagerV1ImportTimeline => {
            match (args[0], args[1]) {
                (ArgView::NewId(id), ArgView::Fd) if args.len() == 2 => {
                    Some(GeneratedHookRequest::WpLinuxDrmSyncobjManagerV1ImportTimeline { id, fd: true })
                },
                _ => None,
            }
        },
        GeneratedRequestId::WpLinuxDrmSyncobjSurfaceV1SetAcquirePoint => {
            match (args[0], args[1], args[2]) {
                (ArgView::Object(timeline), ArgView::Uint(point_hi), ArgView::Uint(point_lo)) if args.len() == 3 => {
                    Some(GeneratedHookRequest::WpLinuxDrmSyncobjSurfaceV1SetAcquirePoint { timeline, point_hi, point_lo })
                },
                _ => None,
            }
        },
        GeneratedRequestId::WpLinuxDrmSyncobjSurfaceV1SetReleasePoint => {
            match (args[0], args[1], args[2]) {
                (ArgView::Object(timeline), ArgView::Uint(point_hi), ArgView::Uint(point_lo)) if args.len() == 3 => {
                    Some(GeneratedHookRequest::WpLinuxDrmSyncobjSurfaceV1SetReleasePoint { timeline, point_hi, point_lo })
                },
                _ => None,
            }
        },
        GeneratedRequestId::WpColorManagerV1GetSurface => {
            match (args[0], args[1]) {
                (ArgView::NewId(id), ArgView::Object(surface)) if args.len() == 2 => {
                    Some(GeneratedHookRequest::WpColorManagerV1GetSurface { id, surface })
                },
                _ => None,
            }
        },
        GeneratedRequestId::WpColorManagerV1CreateParametricCreator => {
            match args[0] {
                ArgView::NewId(obj) if args.len() == 1 => {
                    Some(GeneratedHookRequest::WpColorManagerV1CreateParametricCreator { obj })
                },
                _ => None,
            }
        },
        GeneratedRequestId::WpColorManagerV1CreateWindowsScrgb => {
            match args[0] {
                ArgView::NewId(image_description) if args.len() == 1 => {
                    Some(GeneratedHookRequest::WpColorManagerV1CreateWindowsScrgb { image_description })
                },
                _ => None,
            }
        },
        GeneratedRequestId::WpColorManagementSurfaceV1Destroy => {
            if args.len() == 0 {
                Some(GeneratedHookRequest::WpColorManagementSurfaceV1Destroy)
            } else {
                None
            }
        },
        GeneratedRequestId::WpColorManagementSurfaceV1SetImageDescription => {
            match (args[0], args[1]) {
                (ArgView::Object(image_description), ArgView::Uint(render_intent)) if args.len() == 2 => {
                    Some(GeneratedHookRequest::WpColorManagementSurfaceV1SetImageDescription { image_description, render_intent })
                },
                _ => None,
            }
        },
        GeneratedRequestId::WpColorManagementSurfaceV1UnsetImageDescription => {
            if args.len() == 0 {
                Some(GeneratedHookRequest::WpColorManagementSurfaceV1UnsetImageDescription)
            } else {
                None
            }
        },
        GeneratedRequestId::WpImageDescriptionCreatorParamsV1Create => {
            match args[0] {
                ArgView::NewId(image_description) if args.len() == 1 => {
                    Some(GeneratedHookRequest::WpImageDescriptionCreatorParamsV1Create { image_description })
                },
                _ => None,
            }
        },
        GeneratedRequestId::WpImageDescriptionCreatorParamsV1SetTfNamed => {
            match args[0] {
                ArgView::Uint(tf) if args.len() == 1 => {
                    Some(GeneratedHookRequest::WpImageDescriptionCreatorParamsV1SetTfNamed { tf })
                },
                _ => None,
            }
        },
        GeneratedRequestId::WpImageDescriptionCreatorParamsV1SetTfPower => {
            match args[0] {
                ArgView::Uint(eexp) if args.len() == 1 => {
                    Some(GeneratedHookRequest::WpImageDescriptionCreatorParamsV1SetTfPower { eexp })
                },
                _ => None,
            }
        },
        GeneratedRequestId::WpImageDescriptionCreatorParamsV1SetPrimariesNamed => {
            match args[0] {
                ArgView::Uint(primaries) if args.len() == 1 => {
                    Some(GeneratedHookRequest::WpImageDescriptionCreatorParamsV1SetPrimariesNamed { primaries })
                },
                _ => None,
            }
        },
        GeneratedRequestId::WpImageDescriptionCreatorParamsV1SetPrimaries => {
            match (args[0], args[1], args[2], args[3], args[4], args[5], args[6], args[7]) {
                (ArgView::Int(r_x), ArgView::Int(r_y), ArgView::Int(g_x), ArgView::Int(g_y), ArgView::Int(b_x), ArgView::Int(b_y), ArgView::Int(w_x), ArgView::Int(w_y)) if args.len() == 8 => {
                    Some(GeneratedHookRequest::WpImageDescriptionCreatorParamsV1SetPrimaries { r_x, r_y, g_x, g_y, b_x, b_y, w_x, w_y })
                },
                _ => None,
            }
        },
        GeneratedRequestId::WpImageDescriptionCreatorParamsV1SetLuminances => {
            match (args[0], args[1], args[2]) {
                (ArgView::Uint(min_lum), ArgView::Uint(max_lum), ArgView::Uint(reference_lum)) if args.len() == 3 => {
                    Some(GeneratedHookRequest::WpImageDescriptionCreatorParamsV1SetLuminances { min_lum, max_lum, reference_lum })
                },
                _ => None,
            }
        },
        GeneratedRequestId::WpImageDescriptionV1Destroy => {
            if args.len() == 0 {
                Some(GeneratedHookRequest::WpImageDescriptionV1Destroy)
            } else {
                None
            }
        },
        _ => None,
    }
}

/// Reads such a request from the arguments that were decoded for it.
pub fn decode_generated_hook_request_by_id(id: GeneratedRequestId, args: &[GeneratedDecodedArg]) -> (request:
    Option<GeneratedHookRequest>)
    ensures
        request == hook_request_of(id, decoded_values(args@)),
{
    match id {
        GeneratedRequestId::WlSurfaceDestroy => {
            if args.len() != 0 {
                return None;
            }
            Some(GeneratedHookRequest::WlSurfaceDestroy)
        },
        GeneratedRequestId::WlSurfaceAttach => {
            if args.len() != 3 {
                return None;
            }
            match (&args[0], &args[1], &args[2]) {
                (GeneratedDecodedArg::Object(buffer), GeneratedDecodedArg::Int(x), GeneratedDecodedArg::Int(y)) => {
                    Some(GeneratedHookRequest::WlSurfaceAttach { buffer: *buffer, x: *x, y: *y })
                },
                _ => None,
            }
        },
        GeneratedRequestId::WlSurfaceDamage => {
            if args.len() != 4 {
                return None;
            }
            match (&args[0], &args[1], &args[2], &args[3]) {
                (GeneratedDecodedArg::Int(x), GeneratedDecodedArg::Int(y), GeneratedDecodedArg::Int(width), GeneratedDecodedArg::Int(height)) => {
                    Some(GeneratedHookRequest::WlSurfaceDamage { x: *x, y: *y, width: *width, height: *height })
                },
                _ => None,
            }
        },
        GeneratedRequestId::WlSurfaceDamageBuffer => {
            if args.len() != 4 {
                return None;
            }
            match (&args[0], &args[1], &args[2], &args[3]) {
                (GeneratedDecodedArg::Int(x), GeneratedDecodedArg::Int(y), GeneratedDecodedArg::Int(width), GeneratedDecodedArg::Int(height)) => {
                    Some(GeneratedHookRequest::WlSurfaceDamageBuffer { x: *x, y: *y, width: *width, height: *height })
                },
                _ => None,
            }
        },
        GeneratedRequestId::WlSurfaceCommit => {
            if args.len() != 0 {
                return None;
            }
            Some(GeneratedHookRequest::WlSurfaceCommit)
        },
        GeneratedRequestId::WpLinuxDrmSyncobjManagerV1ImportTimeline => {
            if args.len() != 2 {
                return None;
            }
            match (&args[0], &args[1]) {
                (GeneratedDecodedArg::NewId(id), GeneratedDecodedArg::Fd) => {
                    Some(GeneratedHookRequest::WpLinuxDrmSyncobjManagerV1ImportTimeline { id: *id, fd: true })
                },
                _ => None,
            }
        },
        GeneratedRequestId::WpLinuxDrmSyncobjSurfaceV1SetAcquirePoint => {
            if args.len() != 3 {
                return None;
            }
            match (&args[0], &args[1], &args[2]) {
                (GeneratedDecodedArg::Object(timeline), GeneratedDecodedArg::Uint(point_hi), GeneratedDecodedArg::Uint(point_lo)) => {
                    Some(GeneratedHookRequest::WpLinuxDrmSyncobjSurfaceV1SetAcquirePoint { timeline: *timeline, point_hi: *point_hi, point_lo: *point_lo })
                },
                _ => None,
            }
        },
        GeneratedRequestId::WpLinuxDrmSyncobjSurfaceV1SetReleasePoint => {
            if args.len() != 3 {
                return None;
            }
            match (&args[0], &args[1], &args[2]) {
                (GeneratedDecodedArg::Object(timeline), GeneratedDecodedArg::Uint(point_hi), GeneratedDecodedArg::Uint(point_lo)) => {
                    Some(GeneratedHookRequest::WpLinuxDrmSyncobjSurfaceV1SetReleasePoint { timeline: *timeline, point_hi: *point_hi, point_lo: *point_lo })
                },
                _ => None,
            }
        },
        GeneratedRequestId::WpColorManagerV1GetSurface => {
            if args.len() != 2 {
                return None;
            }
            match (&args[0], &args[1]) {
                (GeneratedDecodedArg::NewId(id), GeneratedDecodedArg::Object(surface)) => {
                    Some(GeneratedHookRequest::WpColorManagerV1GetSurface { id: *id, surface: *surface })
                },
                _ => None,
            }
        },
        GeneratedRequestId::WpColorManagerV1CreateParametricCreator => {
            if args.len() != 1 {
                return None;
            }
            match &args[0] {
                GeneratedDecodedArg::NewId(obj) => {
                    Some(GeneratedHookRequest::WpColorManagerV1CreateParametricCreator { obj: *obj })
                },
                _ => None,
            }
        },
        GeneratedRequestId::WpColorManagerV1CreateWindowsScrgb => {
            if args.len() != 1 {
                return None;
            }
            match &args[0] {
                GeneratedDecodedArg::NewId(image_description) => {
                    Some(GeneratedHookRequest::WpColorManagerV1CreateWindowsScrgb { image_description: *image_description })
                },
                _ => None,
            }
        },
        GeneratedRequestId::WpColorManagementSurfaceV1Destroy => {
            if args.len() != 0 {
                return None;
            }
            Some(GeneratedHookRequest::WpColorManagementSurfaceV1Destroy)
        },
        GeneratedRequestId::WpColorManagementSurfaceV1SetImageDescription => {
            if args.len() != 2 {
                return None;
            }
            match (&args[0], &args[1]) {
                (GeneratedDecodedArg::Object(image_description), GeneratedDecodedArg::Uint(render_intent)) => {
                    Some(GeneratedHookRequest::WpColorManagementSurfaceV1SetImageDescription { image_description: *image_description, render_intent: *render_intent })
                },
                _ => None,
            }
        },
        GeneratedRequestId::WpColorManagementSurfaceV1UnsetImageDescription => {
            if args.len() != 0 {
                return None;
            }
            Some(GeneratedHookRequest::WpColorManagementSurfaceV1UnsetImageDescription)
        },
        GeneratedRequestId::WpImageDescriptionCreatorParamsV1Create => {
            if args.len() != 1 {
                return None;
            }
            match &args[0] {
                GeneratedDecodedArg::NewId(image_description) => {
                    Some(GeneratedHookRequest::WpImageDescriptionCreatorParamsV1Create { image_description: *image_description })
                },
                _ => None,
            }
        },
        GeneratedRequestId::WpImageDescriptionCreatorParamsV1SetTfNamed => {
            if args.len() != 1 {
                return None;
            }
            match &args[0] {
                GeneratedDecodedArg::Uint(tf) => {
                    Some(GeneratedHookRequest::WpImageDescriptionCreatorParamsV1SetTfNamed { tf: *tf })
                },
                _ => None,
            }
        },
        GeneratedRequestId::WpImageDescriptionCreatorParamsV1SetTfPower => {
            if args.len() != 1 {
                return None;
            }
            match &args[0] {
                GeneratedDecodedArg::Uint(eexp) => {
                    Some(GeneratedHookRequest::WpImageDescriptionCreatorParamsV1SetTfPower { eexp: *eexp })
                },
                _ => None,
            }
        },
        GeneratedRequestId::WpImageDescriptionCreatorParamsV1SetPrimariesNamed => {
            if args.len() != 1 {
                return None;
            }
            match &args[0] {
                GeneratedDecodedArg::Uint(primaries) => {
                    Some(GeneratedHookRequest::WpImageDescriptionCreatorParamsV1SetPrimariesNamed { primaries: *primaries })
                },
                _ => None,
            }
        },
        GeneratedRequestId::WpImageDescriptionCreatorParamsV1SetPrimaries => {
            if args.len() != 8 {
                return None;
            }
            match (&args[0], &args[1], &args[2], &args[3], &args[4], &args[5], &args[6], &args[7]) {
                (GeneratedDecodedArg::Int(r_x), GeneratedDecodedArg::Int(r_y), GeneratedDecodedArg::Int(g_x), GeneratedDecodedArg::Int(g_y), GeneratedDecodedArg::Int(b_x), GeneratedDecodedArg::Int(b_y), GeneratedDecodedArg::Int(w_x), GeneratedDecodedArg::Int(w_y)) => {
                    Some(GeneratedHookRequest::WpImageDescriptionCreatorParamsV1SetPrimaries { r_x: *r_x, r_y: *r_y, g_x: *g_x, g_y: *g_y, b_x: *b_x, b_y: *b_y, w_x: *w_x, w_y: *w_y })
                },
                _ => None,
            }
        },
        GeneratedRequestId::WpImageDescriptionCreatorParamsV1SetLuminances => {
            if args.len() != 3 {
                return None;
            }
            match (&args[0], &args[1], &args[2]) {
                (GeneratedDecodedArg::Uint(min_lum), GeneratedDecodedArg::Uint(max_lum), GeneratedDecodedArg::Uint(reference_lum)) => {
                    Some(GeneratedHookRequest::WpImageDescriptionCreatorParamsV1SetLuminances { min_lum: *min_lum, max_lum: *max_lum, reference_lum: *reference_lum })
                },
                _ => None,
            }
        },
        GeneratedRequestId::WpImageDescriptionV1Destroy => {
            if args.len() != 0 {
                return None;
            }
            Some(GeneratedHookRequest::WpImageDescriptionV1Destroy)
        },
        _ => None,
    }
}

/// The implemented request that a request with these arguments is.
pub open spec fn implemented_request_of(id: GeneratedRequestId, args: Seq<ArgView>) -> Option<GeneratedImplementedRequest> {
    match id {
        GeneratedRequestId::WlDisplaySync => {
            match args[0] {
                ArgView::NewId(callback) if args.len() == 1 => {
                    Some(GeneratedImplementedRequest::WlDisplaySync { callback })
                },
                _ => None,
            }
        },
        GeneratedRequestId::WlDisplayGetRegistry => {
            match args[0] {
                ArgView::NewId(registry) if args.len() == 1 => {
                    Some(GeneratedImplementedRequest::WlDisplayGetRegistry { registry })
                },
                _ => None,
            }
        },
        GeneratedRequestId::WlCompositorCreateSurface => {
            match args[0] {
                ArgView::NewId(id) if args.len() == 1 => {
                    Some(GeneratedImplementedRequest::WlCompositorCreateSurface { id })
                },
                _ => None,
            }
        },
        GeneratedRequestId::WlCompositorCreateRegion => {
            match args[0] {
                ArgView::NewId(id) if args.len() == 1 => {
                    Some(GeneratedImplementedRequest::WlCompositorCreateRegion { id })
                },
                _ => None,
            }
        },
        GeneratedRequestId::WlDataDeviceManagerCreateDataSource => {
            match args[0] {
                ArgView::NewId(id) if args.len() == 1 => {
                    Some(GeneratedImplementedRequest::WlDataDeviceManagerCreateDataSource { id })
                },
                _ => None,
            }
        },
        GeneratedRequestId::WlDataDeviceManagerGetDataDevice => {
            match (args[0], args[1]) {
                (ArgView::NewId(id), ArgView::Object(seat)) if args.len() == 2 => {
                    Some(GeneratedImplementedRequest::WlDataDeviceManagerGetDataDevice { id, seat })
                },
                _ => None,
            }
        },
        GeneratedRequestId::WlShellGetShellSurface => {
            match (args[0], args[1]) {
                (ArgView::NewId(id), ArgView::Object(surface)) if args.len() == 2 => {
                    Some(GeneratedImplementedRequest::WlShellGetShellSurface { id, surface })
                },
                _ => None,
            }
        },
        GeneratedRequestId::WlSurfaceFrame => {
            match args[0] {
                ArgView::NewId(callback) if args.len() == 1 => {
                    Some(GeneratedImplementedRequest::WlSurfaceFrame { callback })
                },
                _ => None,
            }
        },
        GeneratedRequestId::WlSurfaceGetRelease => {
            match args[0] {
                ArgView::NewId(callback) if args.len() == 1 => {
                    Some(GeneratedImplementedRequest::WlSurfaceGetRelease { callback })
                },
                _ => None,
            }
        },
        GeneratedRequestId::WlSeatGetPointer => {
            match args[0] {
                ArgView::NewId(id) if args.len() == 1 => {
                    Some(GeneratedImplementedRequest::WlSeatGetPointer { id })
                },
                _ => None,
            }
        },
        GeneratedRequestId::WlSeatGetKeyboard => {
            match args[0] {
                ArgView::NewId(id) if args.len() == 1 => {
                    Some(GeneratedImplementedRequest::WlSeatGetKeyboard { id })
                },
                _ => None,
            }
        },
        GeneratedRequestId::WlSeatGetTouch => {
            match args[0] {
                ArgView::NewId(id) if args.len() == 1 => {
                    Some(GeneratedImplementedRequest::WlSeatGetTouch { id })
                },
                _ => None,
            }
        },
        GeneratedRequestId::WlSubcompositorGetSubsurface => {
            match (args[0], args[1], args[2]) {
                (ArgView::NewId(id), ArgView::Object(surface), ArgView::Object(parent)) if args.len() == 3 => {
                    Some(GeneratedImplementedRequest::WlSubcompositorGetSubsurface { id, surface, parent })
                },
                _ => None,
            }
        },
        GeneratedRequestId::WlFixesDestroyRegistry => {
            match args[0] {
                ArgView::Object(registry) if args.len() == 1 => {
                    Some(GeneratedImplementedRequest::WlFixesDestroyRegistry { registry })
                },
                _ => None,
            }
        },
        GeneratedRequestId::XdgWmBaseCreatePositioner => {
            match args[0] {
                ArgView::NewId(id) if args.len() == 1 => {
                    Some(GeneratedImplementedRequest::XdgWmBaseCreatePositioner { id })
                },
                _ => None,
            }
        },
        GeneratedRequestId::XdgWmBaseGetXdgSurface => {
            match (args[0], args[1]) {
                (ArgView::NewId(id), ArgView::Object(surface)) if args.len() == 2 => {
                    Some(GeneratedImplementedRequest::XdgWmBaseGetXdgSurface { id, surface })
                },
                _ => None,
            }
        },
        GeneratedRequestId::XdgSurfaceGetToplevel => {
            match args[0] {
                ArgView::NewId(id) if args.len() == 1 => {
                    Some(GeneratedImplementedRequest::XdgSurfaceGetToplevel { id })
                },
                _ => None,
            }
        },
        GeneratedRequestId::XdgSurfaceGetPopup => {
            match (args[0], args[1], args[2]) {
                (ArgView::NewId(id), ArgView::Object(parent), ArgView::Object(positioner)) if args.len() == 3 => {
                    Some(GeneratedImplementedRequest::XdgSurfaceGetPopup { id, parent, positioner })
                },
                _ => None,
            }
        },
        GeneratedRequestId::XdgSurfaceAckConfigure => {
            match args[0] {
                ArgView::Uint(serial) if args.len() == 1 => {
                    Some(GeneratedImplementedRequest::XdgSurfaceAckConfigure { serial })
                },
                _ => None,
            }
        },
        GeneratedRequestId::ZwpLinuxDmabufV1CreateParams => {
            match args[0] {
                ArgView::NewId(params_id) if args.len() == 1 => {
                    Some(GeneratedImplementedRequest::ZwpLinuxDmabufV1CreateParams { params_id })
                },
                _ => None,
            }
        },
        GeneratedRequestId::ZwpLinuxDmabufV1GetDefaultFeedback => {
            match args[0] {
                ArgView::NewId(id) if args.len() == 1 => {
                    Some(GeneratedImplementedRequest::ZwpLinuxDmabufV1GetDefaultFeedback { id })
                },
                _ => None,
            }
        },
        GeneratedRequestId::ZwpLinuxDmabufV1GetSurfaceFeedback => {
            match (args[0], args[1]) {
                (ArgView::NewId(id), ArgView::Object(surface)) if args.len() == 2 => {
                    Some(GeneratedImplementedRequest::ZwpLinuxDmabufV1GetSurfaceFeedback { id, surface })
                },
                _ => None,
            }
        },
        GeneratedRequestId::ZwpLinuxBufferParamsV1CreateImmed => {
            match (args[0], args[1], args[2], args[3], args[4]) {
                (ArgView::NewId(buffer_id), ArgView::Int(width), ArgView::Int(height), ArgView::Uint(format), ArgView::Uint(flags)) if args.len() == 5 => {
                    Some(GeneratedImplementedRequest::ZwpLinuxBufferParamsV1CreateImmed { buffer_id, width, height, format, flags })
                },
                _ => None,
            }
        },
        GeneratedRequestId::WpLinuxDrmSyncobjManagerV1GetSurface => {
            match (args[0], args[1]) {
                (ArgView::NewId(id), ArgView::Object(surface)) if args.len() == 2 => {
                    Some(GeneratedImplementedRequest::WpLinuxDrmSyncobjManagerV1GetSurface { id, surface })
                },
                _ => None,
            }
        },
        GeneratedRequestId::WpLinuxDrmSyncobjManagerV1ImportTimeline => {
            match (args[0], args[1]) {
                (ArgView::NewId(id), ArgView::Fd) if args.len() == 2 => {
                    Some(GeneratedImplementedRequest::WpLinuxDrmSyncobjManagerV1ImportTimeline { id, fd: true })
                },
                _ => None,
            }
        },
        GeneratedRequestId::WpLinuxDrmSyncobjTimelineV1Destroy => {
            if args.len() == 0 {
                Some(GeneratedImplementedRequest::WpLinuxDrmSyncobjTimelineV1Destroy)
            } else {
                None
            }
        },
        GeneratedRequestId::WpLinuxDrmSyncobjSurfaceV1Destroy => {
            if args.len() == 0 {
                Some(GeneratedImplementedRequest::WpLinuxDrmSyncobjSurfaceV1Destroy)
            } else {
                None
            }
        },
        GeneratedRequestId::WpLinuxDrmSyncobjSurfaceV1SetAcquirePoint => {
            match (args[0], args[1], args[2]) {
                (ArgView::Object(timeline), ArgView::Uint(point_hi), ArgView::Uint(point_lo)) if args.len() == 3 => {
                    Some(GeneratedImplementedRequest::WpLinuxDrmSyncobjSurfaceV1SetAcquirePoint { timeline, point_hi, point_lo })
                },
                _ => None,
            }
        },
        GeneratedRequestId::WpLinuxDrmSyncobjSurfaceV1SetReleasePoint => {
            match (args[0], args[1], args[2]) {
                (ArgView::Object(timeline), ArgView::Uint(point_hi), ArgView::Uint(point_lo)) if args.len() == 3 => {
                    Some(GeneratedImplementedRequest::WpLinuxDrmSyncobjSurfaceV1SetReleasePoint { timeline, point_hi, point_lo })
                },
                _ => None,
            }
        },
        GeneratedRequestId::WpTearingControlManagerV1GetTearingControl => {
            match (args[0], args[1]) {
                (ArgView::NewId(id), ArgView::Object(surface)) if args.len() == 2 => {
                    Some(GeneratedImplementedRequest::WpTearingControlManagerV1GetTearingControl { id, surface })
                },
                _ => None,
            }
        },
        GeneratedRequestId::WpPresentationFeedback => {
            match (args[0], args[1]) {
                (ArgView::Object(surface), ArgView::NewId(callback)) if args.len() == 2 => {
                    Some(GeneratedImplementedRequest::WpPresentationFeedback { surface, callback })
                },
                _ => None,
            }
        },
        GeneratedRequestId::WpColorManagerV1GetOutput => {
            match (args[0], args[1]) {
                (ArgView::NewId(id), ArgView::Object(output)) if args.len() == 2 => {
                    Some(GeneratedImplementedRequest::WpColorManagerV1GetOutput { id, output })
                },
                _ => None,
            }
        },
        GeneratedRequestId::WpColorManagerV1GetSurface => {
            match (args[0], args[1]) {
                (ArgView::NewId(id), ArgView::Object(surface)) if args.len() == 2 => {
                    Some(GeneratedImplementedRequest::WpColorManagerV1GetSurface { id, surface })
                },
                _ => None,
            }
        },
        GeneratedRequestId::WpColorManagerV1GetSurfaceFeedback => {
            match (args[0], args[1]) {
                (ArgView::NewId(id), ArgView::Object(surface)) if args.len() == 2 => {
                    Some(GeneratedImplementedRequest::WpColorManagerV1GetSurfaceFeedback { id, surface })
                },
                _ => None,
            }
        },
        GeneratedRequestId::WpColorManagerV1CreateIccCreator => {
            match args[0] {
                ArgView::NewId(obj) if args.len() == 1 => {
                    Some(GeneratedImplementedRequest::WpColorManagerV1CreateIccCreator { obj })
                },
                _ => None,
            }
        },
        GeneratedRequestId::WpColorManagerV1CreateParametricCreator => {
            match args[0] {
                ArgView::NewId(obj) if args.len() == 1 => {
                    Some(GeneratedImplementedRequest::WpColorManagerV1CreateParametricCreator { obj })
                },
                _ => None,
            }
        },
        GeneratedRequestId::WpColorManagerV1CreateWindowsScrgb => {
            match args[0] {
                ArgView::NewId(image_description) if args.len() == 1 => {
                    Some(GeneratedImplementedRequest::WpColorManagerV1CreateWindowsScrgb { image_description })
                },
                _ => None,
            }
        },
        GeneratedRequestId::WpColorManagerV1GetImageDescription => {
            match (args[0], args[1]) {
                (ArgView::NewId(image_description), ArgView::Object(reference)) if args.len() == 2 => {
                    Some(GeneratedImplementedRequest::WpColorManagerV1GetImageDescription { image_description, reference })
                },
                _ => None,
            }
        },
        GeneratedRequestId::WpColorManagerV1CreateWindowsBt2100 => {
            match args[0] {
                ArgView::NewId(image_description) if args.len() == 1 => {
                    Some(GeneratedImplementedRequest::WpColorManagerV1CreateWindowsBt2100 { image_description })
                },
                _ => None,
            }
        },
        GeneratedRequestId::WpColorManagementOutputV1GetImageDescription => {
            match args[0] {
                ArgView::NewId(image_description) if args.len() == 1 => {
                    Some(GeneratedImplementedRequest::WpColorManagementOutputV1GetImageDescription { image_description })
                },
                _ => None,
            }
        },
        GeneratedRequestId::WpColorManagementSurfaceFeedbackV1GetPreferred => {
            match args[0] {
                ArgView::NewId(image_description) if args.len() == 1 => {
                    Some(GeneratedImplementedRequest::WpColorManagementSurfaceFeedbackV1GetPreferred { image_description })
                },
                _ => None,
            }
        },
        GeneratedRequestId::WpColorManagementSurfaceFeedbackV1GetPreferredParametric => {
            match args[0] {
                ArgView::NewId(image_description) if args.len() == 1 => {
                    Some(GeneratedImplementedRequest::WpColorManagementSurfaceFeedbackV1GetPreferredParametric { image_description })
                },
                _ => None,
            }
        },
        GeneratedRequestId::WpImageDescriptionCreatorIccV1Create => {
            match args[0] {
                ArgView::NewId(image_description) if args.len() == 1 => {
                    Some(GeneratedImplementedRequest::WpImageDescriptionCreatorIccV1Create { image_description })
                },
                _ => None,
            }
        },
        GeneratedRequestId::WpImageDescriptionCreatorParamsV1Create => {
            match args[0] {
                ArgView::NewId(image_description) if args.len() == 1 => {
                    Some(GeneratedImplementedRequest::WpImageDescriptionCreatorParamsV1Create { image_description })
                },
                _ => None,
            }
        },
        GeneratedRequestId::WpImageDescriptionV1GetInformation => {
            match args[0] {
                ArgView::NewId(information) if args.len() == 1 => {
                    Some(GeneratedImplementedRequest::WpImageDescriptionV1GetInformation { information })
                },
                _ => None,
            }
        },
        GeneratedRequestId::WpFifoManagerV1GetFifo => {
            match (args[0], args[1]) {
                (ArgView::NewId(id), ArgView::Object(surface)) if args.len() == 2 => {
                    Some(GeneratedImplementedRequest::WpFifoManagerV1GetFifo { id, surface })
                },
                _ => None,
            }
        },
        GeneratedRequestId::WpFractionalScaleManagerV1GetFractionalScale => {
            match (args[0], args[1]) {
                (ArgView::NewId(id), ArgView::Object(surface)) if args.len() == 2 => {
                    Some(GeneratedImplementedRequest::WpFractionalScaleManagerV1GetFractionalScale { id, surface })
                },
                _ => None,
            }
        },
        GeneratedRequestId::WpViewporterGetViewport => {
            match (args[0], args[1]) {
                (ArgView::NewId(id), ArgView::Object(surface)) if args.len() == 2 => {
                    Some(GeneratedImplementedRequest::WpViewporterGetViewport { id, surface })
                },
                _ => None,
            }
        },
        _ => None,
    }
}

/// Reads such a request from the arguments that were decoded for it.
pub fn decode_generated_implemented_request_by_id(id: GeneratedRequestId, args: &[GeneratedDecodedArg]) -> (request:
    Option<GeneratedImplementedRequest>)
    ensures
        request == implemented_request_of(id, decoded_values(args@)),
{
    match id {
        GeneratedRequestId::WlDisplaySync => {
            if args.len() != 1 {
                return None;
            }
            match &args[0] {
                GeneratedDecodedArg::NewId(callback) => {
                    Some(GeneratedImplementedRequest::WlDisplaySync { callback: *callback })
                },
                _ => None,
            }
        },
        GeneratedRequestId::WlDisplayGetRegistry => {
            if args.len() != 1 {
                return None;
            }
            match &args[0] {
                GeneratedDecodedArg::NewId(registry) => {
                    Some(GeneratedImplementedRequest::WlDisplayGetRegistry { registry: *registry })
                },
                _ => None,
            }
        },
        GeneratedRequestId::WlCompositorCreateSurface => {
            if args.len() != 1 {
                return None;
            }
            match &args[0] {
                GeneratedDecodedArg::NewId(id) => {
                    Some(GeneratedImplementedRequest::WlCompositorCreateSurface { id: *id })
                },
                _ => None,
            }
        },
        GeneratedRequestId::WlCompositorCreateRegion => {
            if args.len() != 1 {
                return None;
            }
            match &args[0] {
                GeneratedDecodedArg::NewId(id) => {
                    Some(GeneratedImplementedRequest::WlCompositorCreateRegion { id: *id })
                },
                _ => None,
            }
        },
        GeneratedRequestId::WlDataDeviceManagerCreateDataSource => {
            if args.len() != 1 {
                return None;
            }
            match &args[0] {
                GeneratedDecodedArg::NewId(id) => {
                    Some(GeneratedImplementedRequest::WlDataDeviceManagerCreateDataSource { id: *id })
                },
                _ => None,
            }
        },
        GeneratedRequestId::WlDataDeviceManagerGetDataDevice => {
            if args.len() != 2 {
                return None;
            }
            match (&args[0], &args[1]) {
                (GeneratedDecodedArg::NewId(id), GeneratedDecodedArg::Object(seat)) => {
                    Some(GeneratedImplementedRequest::WlDataDeviceManagerGetDataDevice { id: *id, seat: *seat })
                },
                _ => None,
            }
        },
        GeneratedRequestId::WlShellGetShellSurface => {
            if args.len() != 2 {
                return None;
            }
            match (&args[0], &args[1]) {
                (GeneratedDecodedArg::NewId(id), GeneratedDecodedArg::Object(surface)) => {
                    Some(GeneratedImplementedRequest::WlShellGetShellSurface { id: *id, surface: *surface })
                },
                _ => None,
            }
        },
        GeneratedRequestId::WlSurfaceFrame => {
            if args.len() != 1 {
                return None;
            }
            match &args[0] {
                GeneratedDecodedArg::NewId(callback) => {
                    Some(GeneratedImplementedRequest::WlSurfaceFrame { callback: *callback })
                },
                _ => None,
            }
        },
        GeneratedRequestId::WlSurfaceGetRelease => {
            if args.len() != 1 {
                return None;
            }
            match &args[0] {
                GeneratedDecodedArg::NewId(callback) => {
                    Some(GeneratedImplementedRequest::WlSurfaceGetRelease { callback: *callback })
                },
                _ => None,
            }
        },
        GeneratedRequestId::WlSeatGetPointer => {
            if args.len() != 1 {
                return None;
            }
            match &args[0] {
                GeneratedDecodedArg::NewId(id) => {
                    Some(GeneratedImplementedRequest::WlSeatGetPointer { id: *id })
                },
                _ => None,
            }
        },
        GeneratedRequestId::WlSeatGetKeyboard => {
            if args.len() != 1 {
                return None;
            }
            match &args[0] {
                GeneratedDecodedArg::NewId(id) => {
                    Some(GeneratedImplementedRequest::WlSeatGetKeyboard { id: *id })
                },
                _ => None,
            }
        },
        GeneratedRequestId::WlSeatGetTouch => {
            if args.len() != 1 {
                return None;
            }
            match &args[0] {
                GeneratedDecodedArg::NewId(id) => {
                    Some(GeneratedImplementedRequest::WlSeatGetTouch { id: *id })
                },
                _ => None,
            }
        },
        GeneratedRequestId::WlSubcompositorGetSubsurface => {
            if args.len() != 3 {
                return None;
            }
            match (&args[0], &args[1], &args[2]) {
                (GeneratedDecodedArg::NewId(id), GeneratedDecodedArg::Object(surface), GeneratedDecodedArg::Object(parent)) => {
                    Some(GeneratedImplementedRequest::WlSubcompositorGetSubsurface { id: *id, surface: *surface, parent: *parent })
                },
                _ => None,
            }
        },
        GeneratedRequestId::WlFixesDestroyRegistry => {
            if args.len() != 1 {
                return None;
            }
            match &args[0] {
                GeneratedDecodedArg::Object(registry) => {
                    Some(GeneratedImplementedRequest::WlFixesDestroyRegistry { registry: *registry })
                },
                _ => None,
            }
        },
        GeneratedRequestId::XdgWmBaseCreatePositioner => {
            if args.len() != 1 {
                return None;
            }
            match &args[0] {
                GeneratedDecodedArg::NewId(id) => {
                    Some(GeneratedImplementedRequest::XdgWmBaseCreatePositioner { id: *id })
                },
                _ => None,
            }
        },
        GeneratedRequestId::XdgWmBaseGetXdgSurface => {
            if args.len() != 2 {
                return None;
            }
            match (&args[0], &args[1]) {
                (GeneratedDecodedArg::NewId(id), GeneratedDecodedArg::Object(surface)) => {
                    Some(GeneratedImplementedRequest::XdgWmBaseGetXdgSurface { id: *id, surface: *surface })
                },
                _ => None,
            }
        },
        GeneratedRequestId::XdgSurfaceGetToplevel => {
            if args.len() != 1 {
                return None;
            }
            match &args[0] {
                GeneratedDecodedArg::NewId(id) => {
                    Some(GeneratedImplementedRequest::XdgSurfaceGetToplevel { id: *id })
                },
                _ => None,
            }
        },
        GeneratedRequestId::XdgSurfaceGetPopup => {
            if args.len() != 3 {
                return None;
            }
            match (&args[0], &args[1], &args[2]) {
                (GeneratedDecodedArg::NewId(id), GeneratedDecodedArg::Object(parent), GeneratedDecodedArg::Object(positioner)) => {
                    Some(GeneratedImplementedRequest::XdgSurfaceGetPopup { id: *id, parent: *parent, positioner: *positioner })
                },
                _ => None,
            }
        },
        GeneratedRequestId::XdgSurfaceAckConfigure => {
            if args.len() != 1 {
                return None;
            }
            match &args[0] {
                GeneratedDecodedArg::Uint(serial) => {
                    Some(GeneratedImplementedRequest::XdgSurfaceAckConfigure { serial: *serial })
                },
                _ => None,
            }
        },
        GeneratedRequestId::ZwpLinuxDmabufV1CreateParams => {
            if args.len() != 1 {
                return None;
            }
            match &args[0] {
                GeneratedDecodedArg::NewId(params_id) => {
                    Some(GeneratedImplementedRequest::ZwpLinuxDmabufV1CreateParams { params_id: *params_id })
                },
                _ => None,
            }
        },
        GeneratedRequestId::ZwpLinuxDmabufV1GetDefaultFeedback => {
            if args.len() != 1 {
                return None;
            }
            match &args[0] {
                GeneratedDecodedArg::NewId(id) => {
                    Some(GeneratedImplementedRequest::ZwpLinuxDmabufV1GetDefaultFeedback { id: *id })
                },
                _ => None,
            }
        },
        GeneratedRequestId::ZwpLinuxDmabufV1GetSurfaceFeedback => {
            if args.len() != 2 {
                return None;
            }
            match (&args[0], &args[1]) {
                (GeneratedDecodedArg::NewId(id), GeneratedDecodedArg::Object(surface)) => {
                    Some(GeneratedImplementedRequest::ZwpLinuxDmabufV1GetSurfaceFeedback { id: *id, surface: *surface })
                },
                _ => None,
            }
        },
        GeneratedRequestId::ZwpLinuxBufferParamsV1CreateImmed => {
            if args.len() != 5 {
                return None;
            }
            match (&args[0], &args[1], &args[2], &args[3], &args[4]) {
                (GeneratedDecodedArg::NewId(buffer_id), GeneratedDecodedArg::Int(width), GeneratedDecodedArg::Int(height), GeneratedDecodedArg::Uint(format), GeneratedDecodedArg::Uint(flags)) => {
                    Some(GeneratedImplementedRequest::ZwpLinuxBufferParamsV1CreateImmed { buffer_id: *buffer_id, width: *width, height: *height, format: *format, flags: *flags })
                },
                _ => None,
            }
        },
        GeneratedRequestId::WpLinuxDrmSyncobjManagerV1GetSurface => {
            if args.len() != 2 {
                return None;
            }
            match (&args[0], &args[1]) {
                (GeneratedDecodedArg::NewId(id), GeneratedDecodedArg::Object(surface)) => {
                    Some(GeneratedImplementedRequest::WpLinuxDrmSyncobjManagerV1GetSurface { id: *id, surface: *surface })
                },
                _ => None,
            }
        },
        GeneratedRequestId::WpLinuxDrmSyncobjManagerV1ImportTimeline => {
            if args.len() != 2 {
                return None;
            }
            match (&args[0], &args[1]) {
                (GeneratedDecodedArg::NewId(id), GeneratedDecodedArg::Fd) => {
                    Some(GeneratedImplementedRequest::WpLinuxDrmSyncobjManagerV1ImportTimeline { id: *id, fd: true })
                },
                _ => None,
            }
        },
        GeneratedRequestId::WpLinuxDrmSyncobjTimelineV1Destroy => {
            if args.len() != 0 {
                return None;
            }
            Some(GeneratedImplementedRequest::WpLinuxDrmSyncobjTimelineV1Destroy)
        },
        GeneratedRequestId::WpLinuxDrmSyncobjSurfaceV1Destroy => {
            if args.len() != 0 {
                return None;
            }
            Some(GeneratedImplementedRequest::WpLinuxDrmSyncobjSurfaceV1Destroy)
        },
        GeneratedRequestId::WpLinuxDrmSyncobjSurfaceV1SetAcquirePoint => {
            if args.len() != 3 {
                return None;
            }
            match (&args[0], &args[1], &args[2]) {
                (GeneratedDecodedArg::Object(timeline), GeneratedDecodedArg::Uint(point_hi), GeneratedDecodedArg::Uint(point_lo)) => {
                    Some(GeneratedImplementedRequest::WpLinuxDrmSyncobjSurfaceV1SetAcquirePoint { timeline: *timeline, point_hi: *point_hi, point_lo: *point_lo })
                },
                _ => None,
            }
        },
        GeneratedRequestId::WpLinuxDrmSyncobjSurfaceV1SetReleasePoint => {
            if args.len() != 3 {
                return None;
            }
            match (&args[0], &args[1], &args[2]) {
                (GeneratedDecodedArg::Object(timeline), GeneratedDecodedArg::Uint(point_hi), GeneratedDecodedArg::Uint(point_lo)) => {
                    Some(GeneratedImplementedRequest::WpLinuxDrmSyncobjSurfaceV1SetReleasePoint { timeline: *timeline, point_hi: *point_hi, point_lo: *point_lo })
                },
                _ => None,
            }
        },
        GeneratedRequestId::WpTearingControlManagerV1GetTearingControl => {
            if args.len() != 2 {
                return None;
            }
            match (&args[0], &args[1]) {
                (GeneratedDecodedArg::NewId(id), GeneratedDecodedArg::Object(surface)) => {
                    Some(GeneratedImplementedRequest::WpTearingControlManagerV1GetTearingControl { id: *id, surface: *surface })
                },
                _ => None,
            }
        },
        GeneratedRequestId::WpPresentationFeedback => {
            if args.len() != 2 {
                return None;
            }
            match (&args[0], &args[1]) {
                (GeneratedDecodedArg::Object(surface), GeneratedDecodedArg::NewId(callback)) => {
                    Some(GeneratedImplementedRequest::WpPresentationFeedback { surface: *surface, callback: *callback })
                },
                _ => None,
            }
        },
        GeneratedRequestId::WpColorManagerV1GetOutput => {
            if args.len() != 2 {
                return None;
            }
            match (&args[0], &args[1]) {
                (GeneratedDecodedArg::NewId(id), GeneratedDecodedArg::Object(output)) => {
                    Some(GeneratedImplementedRequest::WpColorManagerV1GetOutput { id: *id, output: *output })
                },
                _ => None,
            }
        },
        GeneratedRequestId::WpColorManagerV1GetSurface => {
            if args.len() != 2 {
                return None;
            }
            match (&args[0], &args[1]) {
                (GeneratedDecodedArg::NewId(id), GeneratedDecodedArg::Object(surface)) => {
                    Some(GeneratedImplementedRequest::WpColorManagerV1GetSurface { id: *id, surface: *surface })
                },
                _ => None,
            }
        },
        GeneratedRequestId::WpColorManagerV1GetSurfaceFeedback => {
            if args.len() != 2 {
                return None;
            }
            match (&args[0], &args[1]) {
                (GeneratedDecodedArg::NewId(id), GeneratedDecodedArg::Object(surface)) => {
                    Some(GeneratedImplementedRequest::WpColorManagerV1GetSurfaceFeedback { id: *id, surface: *surface })
                },
                _ => None,
            }
        },
        GeneratedRequestId::WpColorManagerV1CreateIccCreator => {
            if args.len() != 1 {
                return None;
            }
            match &args[0] {
                GeneratedDecodedArg::NewId(obj) => {
                    Some(GeneratedImplementedRequest::WpColorManagerV1CreateIccCreator { obj: *obj })
                },
                _ => None,
            }
        },
        GeneratedRequestId::WpColorManagerV1CreateParametricCreator => {
            if args.len() != 1 {
                return None;
            }
            match &args[0] {
                GeneratedDecodedArg::NewId(obj) => {
                    Some(GeneratedImplementedRequest::WpColorManagerV1CreateParametricCreator { obj: *obj })
                },
                _ => None,
            }
        },
        GeneratedRequestId::WpColorManagerV1CreateWindowsScrgb => {
            if args.len() != 1 {
                return None;
            }
            match &args[0] {
                GeneratedDecodedArg::NewId(image_description) => {
                    Some(GeneratedImplementedRequest::WpColorManagerV1CreateWindowsScrgb { image_description: *image_description })
                },
                _ => None,
            }
        },
        GeneratedRequestId::WpColorManagerV1GetImageDescription => {
            if args.len() != 2 {
                return None;
            }
            match (&args[0], &args[1]) {
                (GeneratedDecodedArg::NewId(image_description), GeneratedDecodedArg::Object(reference)) => {
                    Some(GeneratedImplementedRequest::WpColorManagerV1GetImageDescription { image_description: *image_description, reference: *reference })
                },
                _ => None,
            }
        },
        GeneratedRequestId::WpColorManagerV1CreateWindowsBt2100 => {
            if args.len() != 1 {
                return None;
            }
            match &args[0] {
                GeneratedDecodedArg::NewId(image_description) => {
                    Some(GeneratedImplementedRequest::WpColorManagerV1CreateWindowsBt2100 { image_description: *image_description })
                },
                _ => None,
            }
        },
        GeneratedRequestId::WpColorManagementOutputV1GetImageDescription => {
            if args.len() != 1 {
                return None;
            }
            match &args[0] {
                GeneratedDecodedArg::NewId(image_description) => {
                    Some(GeneratedImplementedRequest::WpColorManagementOutputV1GetImageDescription { image_description: *image_description })
                },
                _ => None,
            }
        },
        GeneratedRequestId::WpColorManagementSurfaceFeedbackV1GetPreferred => {
            if args.len() != 1 {
                return None;
            }
            match &args[0] {
                GeneratedDecodedArg::NewId(image_description) => {
                    Some(GeneratedImplementedRequest::WpColorManagementSurfaceFeedbackV1GetPreferred { image_description: *image_description })
                },
                _ => None,
            }
        },
        GeneratedRequestId::WpColorManagementSurfaceFeedbackV1GetPreferredParametric => {
            if args.len() != 1 {
                return None;
            }
            match &args[0] {
                GeneratedDecodedArg::NewId(image_description) => {
                    Some(GeneratedImplementedRequest::WpColorManagementSurfaceFeedbackV1GetPreferredParametric { image_description: *image_description })
                },
                _ => None,
            }
        },
        GeneratedRequestId::WpImageDescriptionCreatorIccV1Create => {
            if args.len() != 1 {
                return None;
            }
            match &args[0] {
                GeneratedDecodedArg::NewId(image_description) => {
                    Some(GeneratedImplementedRequest::WpImageDescriptionCreatorIccV1Create { image_description: *image_description })
                },
                _ => None,
            }
        },
        GeneratedRequestId::WpImageDescriptionCreatorParamsV1Create => {
            if args.len() != 1 {
                return None;
            }
            match &args[0] {
                GeneratedDecodedArg::NewId(image_description) => {
                    Some(GeneratedImplementedRequest::WpImageDescriptionCreatorParamsV1Create { image_description: *image_description })
                },
                _ => None,
            }
        },
        GeneratedRequestId::WpImageDescriptionV1GetInformation => {
            if args.len() != 1 {
                return None;
            }
            match &args[0] {
                GeneratedDecodedArg::NewId(information) => {
                    Some(GeneratedImplementedRequest::WpImageDescriptionV1GetInformation { information: *information })
                },
                _ => None,
            }
        },
        GeneratedRequestId::WpFifoManagerV1GetFifo => {
            if args.len() != 2 {
                return None;
            }
            match (&args[0], &args[1]) {
                (GeneratedDecodedArg::NewId(id), GeneratedDecodedArg::Object(surface)) => {
                    Some(GeneratedImplementedRequest::WpFifoManagerV1GetFifo { id: *id, surface: *surface })
                },
                _ => None,
            }
        },
        GeneratedRequestId::WpFractionalScaleManagerV1GetFractionalScale => {
            if args.len() != 2 {
                return None;
            }
            match (&args[0], &args[1]) {
                (GeneratedDecodedArg::NewId(id), GeneratedDecodedArg::Object(surface)) => {
                    Some(GeneratedImplementedRequest::WpFractionalScaleManagerV1GetFractionalScale { id: *id, surface: *surface })
                },
                _ => None,
            }
        },
        GeneratedRequestId::WpViewporterGetViewport => {
            if args.len() != 2 {
                return None;
            }
            match (&args[0], &args[1]) {
                (GeneratedDecodedArg::NewId(id), GeneratedDecodedArg::Object(surface)) => {
                    Some(GeneratedImplementedRequest::WpViewporterGetViewport { id: *id, surface: *surface })
                },
                _ => None,
            }
        },
        _ => None,
    }
}

/// The tracked request that a request with these arguments is.
pub open spec fn tracked_request_of(id: GeneratedRequestId, args: Seq<ArgView>) -> Option<TrackedRequestView> {
    match id {
        GeneratedRequestId::WlRegistryBind => {
            match (args[0], args[1], args[2], args[3]) {
                (ArgView::Uint(name), ArgView::String(id_interface), ArgView::Uint(id_version), ArgView::NewId(id)) if args.len() == 4 => {
                    Some(TrackedRequestView::WlRegistryBind { name, id_interface, id_version, id })
                },
                _ => None,
            }
        },
        GeneratedRequestId::WlSubcompositorGetSubsurface => {
            match (args[0], args[1], args[2]) {
                (ArgView::NewId(id), ArgView::Object(surface), ArgView::Object(parent)) if args.len() == 3 => {
                    Some(TrackedRequestView::WlSubcompositorGetSubsurface { id, surface, parent })
                },
                _ => None,
            }
        },
        GeneratedRequestId::WlSubsurfaceDestroy => {
            if args.len() == 0 {
                Some(TrackedRequestView::WlSubsurfaceDestroy)
            } else {
                None
            }
        },
        GeneratedRequestId::WlSubsurfaceSetPosition => {
            match (args[0], args[1]) {
                (ArgView::Int(x), ArgView::Int(y)) if args.len() == 2 => {
                    Some(TrackedRequestView::WlSubsurfaceSetPosition { x, y })
                },
                _ => None,
            }
        },
        GeneratedRequestId::XdgWmBaseGetXdgSurface => {
            match (args[0], args[1]) {
                (ArgView::NewId(id), ArgView::Object(surface)) if args.len() == 2 => {
                    Some(TrackedRequestView::XdgWmBaseGetXdgSurface { id, surface })
                },
                _ => None,
            }
        },
        GeneratedRequestId::XdgSurfaceGetToplevel => {
            match args[0] {
                ArgView::NewId(id) if args.len() == 1 => {
                    Some(TrackedRequestView::XdgSurfaceGetToplevel { id })
                },
                _ => None,
            }
        },
        GeneratedRequestId::XdgSurfaceSetWindowGeometry => {
            match (args[0], args[1], args[2], args[3]) {
                (ArgView::Int(x), ArgView::Int(y), ArgView::Int(width), ArgView::Int(height)) if args.len() == 4 => {
                    Some(TrackedRequestView::XdgSurfaceSetWindowGeometry { x, y, width, height })
                },
                _ => None,
            }
        },
        GeneratedRequestId::XdgSurfaceAckConfigure => {
            match args[0] {
                ArgView::Uint(serial) if args.len() == 1 => {
                    Some(TrackedRequestView::XdgSurfaceAckConfigure { serial })
                },
                _ => None,
            }
        },
        GeneratedRequestId::XdgToplevelSetTitle => {
            match args[0] {
                ArgView::String(title) if args.len() == 1 => {
                    Some(TrackedRequestView::XdgToplevelSetTitle { title })
                },
                _ => None,
            }
        },
        GeneratedRequestId::XdgToplevelSetAppId => {
            match args[0] {
                ArgView::String(app_id) if args.len() == 1 => {
                    Some(TrackedRequestView::XdgToplevelSetAppId { app_id })
                },
                _ => None,
            }
        },
        GeneratedRequestId::ZwpLinuxDmabufV1CreateParams => {
            match args[0] {
                ArgView::NewId(params_id) if args.len() == 1 => {
                    Some(TrackedRequestView::ZwpLinuxDmabufV1CreateParams { params_id })
                },
                _ => None,
            }
        },
        GeneratedRequestId::ZwpLinuxBufferParamsV1Destroy => {
            if args.len() == 0 {
                Some(TrackedRequestView::ZwpLinuxBufferParamsV1Destroy)
            } else {
                None
            }
        },
        GeneratedRequestId::ZwpLinuxBufferParamsV1Add => {
            match (args[0], args[1], args[2], args[3], args[4], args[5]) {
                (ArgView::Fd, ArgView::Uint(plane_idx), ArgView::Uint(offset), ArgView::Uint(stride), ArgView::Uint(modifier_hi), ArgView::Uint(modifier_lo)) if args.len() == 6 => {
                    Some(TrackedRequestView::ZwpLinuxBufferParamsV1Add { fd: true, plane_idx, offset, stride, modifier_hi, modifier_lo })
                },
                _ => None,
            }
        },
        GeneratedRequestId::ZwpLinuxBufferParamsV1Create => {
            match (args[0], args[1], args[2], args[3]) {
                (ArgView::Int(width), ArgView::Int(height), ArgView::Uint(format), ArgView::Uint(flags)) if args.len() == 4 => {
                    Some(TrackedRequestView::ZwpLinuxBufferParamsV1Create { width, height, format, flags })
                },
                _ => None,
            }
        },
        GeneratedRequestId::ZwpLinuxBufferParamsV1CreateImmed => {
            match (args[0], args[1], args[2], args[3], args[4]) {
                (ArgView::NewId(buffer_id), ArgView::Int(width), ArgView::Int(height), ArgView::Uint(format), ArgView::Uint(flags)) if args.len() == 5 => {
                    Some(TrackedRequestView::ZwpLinuxBufferParamsV1CreateImmed { buffer_id, width, height, format, flags })
                },
                _ => None,
            }
        },
        GeneratedRequestId::WpViewporterGetViewport => {
            match (args[0], args[1]) {
                (ArgView::NewId(id), ArgView::Object(surface)) if args.len() == 2 => {
                    Some(TrackedRequestView::WpViewporterGetViewport { id, surface })
                },
                _ => None,
            }
        },
        GeneratedRequestId::WpViewportDestroy => {
            if args.len() == 0 {
                Some(TrackedRequestView::WpViewportDestroy)
            } else {
                None
            }
        },
        GeneratedRequestId::WpViewportSetDestination => {
            match (args[0], args[1]) {
                (ArgView::Int(width), ArgView::Int(height)) if args.len() == 2 => {
                    Some(TrackedRequestView::WpViewportSetDestination { width, height })
                },
                _ => None,
            }
        },
        _ => None,
    }
}

/// Reads such a request from the arguments that were decoded for it.
pub fn decode_generated_tracked_request_by_id(id: GeneratedRequestId, args: &[GeneratedDecodedArg]) -> (request:
    Option<GeneratedTrackedRequest>)
    ensures
        optional_tracked(request) == tracked_request_of(id, decoded_values(args@)),
{
    match id {
        GeneratedRequestId::WlRegistryBind => {
            if args.len() != 4 {
                return None;
            }
            match (&args[0], &args[1], &args[2], &args[3]) {
                (GeneratedDecodedArg::Uint(name), GeneratedDecodedArg::String(id_interface), GeneratedDecodedArg::Uint(id_version), GeneratedDecodedArg::NewId(id)) => {
                    Some(GeneratedTrackedRequest::WlRegistryBind { name: *name, id_interface: copy_text(id_interface), id_version: *id_version, id: *id })
                },
                _ => None,
            }
        },
        GeneratedRequestId::WlSubcompositorGetSubsurface => {
            if args.len() != 3 {
                return None;
            }
            match (&args[0], &args[1], &args[2]) {
                (GeneratedDecodedArg::NewId(id), GeneratedDecodedArg::Object(surface), GeneratedDecodedArg::Object(parent)) => {
                    Some(GeneratedTrackedRequest::WlSubcompositorGetSubsurface { id: *id, surface: *surface, parent: *parent })
                },
                _ => None,
            }
        },
        GeneratedRequestId::WlSubsurfaceDestroy => {
            if args.len() != 0 {
                return None;
            }
            Some(GeneratedTrackedRequest::WlSubsurfaceDestroy)
        },
        GeneratedRequestId::WlSubsurfaceSetPosition => {
            if args.len() != 2 {
                return None;
            }
            match (&args[0], &args[1]) {
                (GeneratedDecodedArg::Int(x), GeneratedDecodedArg::Int(y)) => {
                    Some(GeneratedTrackedRequest::WlSubsurfaceSetPosition { x: *x, y: *y })
                },
                _ => None,
            }
        },
        GeneratedRequestId::XdgWmBaseGetXdgSurface => {
            if args.len() != 2 {
                return None;
            }
            match (&args[0], &args[1]) {
                (GeneratedDecodedArg::NewId(id), GeneratedDecodedArg::Object(surface)) => {
                    Some(GeneratedTrackedRequest::XdgWmBaseGetXdgSurface { id: *id, surface: *surface })
                },
                _ => None,
            }
        },
        GeneratedRequestId::XdgSurfaceGetToplevel => {
            if args.len() != 1 {
                return None;
            }
            match &args[0] {
                GeneratedDecodedArg::NewId(id) => {
                    Some(GeneratedTrackedRequest::XdgSurfaceGetToplevel { id: *id })
                },
                _ => None,
            }
        },
        GeneratedRequestId::XdgSurfaceSetWindowGeometry => {
            if args.len() != 4 {
                return None;
            }
            match (&args[0], &args[1], &args[2], &args[3]) {
                (GeneratedDecodedArg::Int(x), GeneratedDecodedArg::Int(y), GeneratedDecodedArg::Int(width), GeneratedDecodedArg::Int(height)) => {
                    Some(GeneratedTrackedRequest::XdgSurfaceSetWindowGeometry { x: *x, y: *y, width: *width, height: *height })
                },
                _ => None,
            }
        },
        GeneratedRequestId::XdgSurfaceAckConfigure => {
            if args.len() != 1 {
                return None;
            }
            match &args[0] {
                GeneratedDecodedArg::Uint(serial) => {
                    Some(GeneratedTrackedRequest::XdgSurfaceAckConfigure { serial: *serial })
                },
                _ => None,
            }
        },
        GeneratedRequestId::XdgToplevelSetTitle => {
            if args.len() != 1 {
                return None;
            }
            match &args[0] {
                GeneratedDecodedArg::String(title) => {
                    Some(GeneratedTrackedRequest::XdgToplevelSetTitle { title: copy_text(title) })
                },
                _ => None,
            }
        },
        GeneratedRequestId::XdgToplevelSetAppId => {
            if args.len() != 1 {
                return None;
            }
            match &args[0] {
                GeneratedDecodedArg::String(app_id) => {
                    Some(GeneratedTrackedRequest::XdgToplevelSetAppId { app_id: copy_text(app_id) })
                },
                _ => None,
            }
        },
        GeneratedRequestId::ZwpLinuxDmabufV1CreateParams => {
            if args.len() != 1 {
                return None;
            }
            match &args[0] {
                GeneratedDecodedArg::NewId(params_id) => {
                    Some(GeneratedTrackedRequest::ZwpLinuxDmabufV1CreateParams { params_id: *params_id })
                },
                _ => None,
            }
        },
        GeneratedRequestId::ZwpLinuxBufferParamsV1Destroy => {
            if args.len() != 0 {
                return None;
            }
            Some(GeneratedTrackedRequest::ZwpLinuxBufferParamsV1Destroy)
        },
        GeneratedRequestId::ZwpLinuxBufferParamsV1Add => {
            if args.len() != 6 {
                return None;
            }
            match (&args[0], &args[1], &args[2], &args[3], &args[4], &args[5]) {
                (GeneratedDecodedArg::Fd, GeneratedDecodedArg::Uint(plane_idx), GeneratedDecodedArg::Uint(offset), GeneratedDecodedArg::Uint(stride), GeneratedDecodedArg::Uint(modifier_hi), GeneratedDecodedArg::Uint(modifier_lo)) => {
                    Some(GeneratedTrackedRequest::ZwpLinuxBufferParamsV1Add { fd: true, plane_idx: *plane_idx, offset: *offset, stride: *stride, modifier_hi: *modifier_hi, modifier_lo: *modifier_lo })
                },
                _ => None,
            }
        },
        GeneratedRequestId::ZwpLinuxBufferParamsV1Create => {
            if args.len() != 4 {
                return None;
            }
            match (&args[0], &args[1], &args[2], &args[3]) {
                (GeneratedDecodedArg::Int(width), GeneratedDecodedArg::Int(height), GeneratedDecodedArg::Uint(format), GeneratedDecodedArg::Uint(flags)) => {
                    Some(GeneratedTrackedRequest::ZwpLinuxBufferParamsV1Create { width: *width, height: *height, format: *format, flags: *flags })
                },
                _ => None,
            }
        },
        GeneratedRequestId::ZwpLinuxBufferParamsV1CreateImmed => {
            if args.len() != 5 {
                return None;
            }
            match (&args[0], &args[1], &args[2], &args[3], &args[4]) {
                (GeneratedDecodedArg::NewId(buffer_id), GeneratedDecodedArg::Int(width), GeneratedDecodedArg::Int(height), GeneratedDecodedArg::Uint(format), GeneratedDecodedArg::Uint(flags)) => {
                    Some(GeneratedTrackedRequest::ZwpLinuxBufferParamsV1CreateImmed { buffer_id: *buffer_id, width: *width, height: *height, format: *format, flags: *flags })
                },
                _ => None,
            }
        },
        GeneratedRequestId::WpViewporterGetViewport => {
            if args.len() != 2 {
                return None;
            }
            match (&args[0], &args[1]) {
                (GeneratedDecodedArg::NewId(id), GeneratedDecodedArg::Object(surface)) => {
                    Some(GeneratedTrackedRequest::WpViewporterGetViewport { id: *id, surface: *surface })
                },
                _ => None,
            }
        },
        GeneratedRequestId::WpViewportDestroy => {
            if args.len() != 0 {
                return None;
            }
            Some(GeneratedTrackedRequest::WpViewportDestroy)
        },
        GeneratedRequestId::WpViewportSetDestination => {
            if args.len() != 2 {
                return None;
            }
            match (&args[0], &args[1]) {
                (GeneratedDecodedArg::Int(width), GeneratedDecodedArg::Int(height)) => {
                    Some(GeneratedTrackedRequest::WpViewportSetDestination { width: *width, height: *height })
                },
                _ => None,
            }
        },
        _ => None,
    }
}

/// The events that the proxy reads or writes. Any other event that it knows is
/// kept as its opcode and its arguments.
#[derive(Debug, PartialEq, Eq)]
pub enum GeneratedEvent {
    WlDisplayDeleteId { id: u32 },
    WlRegistryGlobal { name: u32, interface: Option<String>, version: u32 },
    WlCallbackDone { callback_data: u32 },
    WlSurfaceEnter { output: Option<u32> },
    WlSurfaceLeave { output: Option<u32> },
    WlPointerEnter { serial: u32, surface: Option<u32>, surface_x: i32, surface_y: i32 },
    WlPointerMotion { time: u32, surface_x: i32, surface_y: i32 },
    WlPointerButton { serial: u32, time: u32, button: u32, state: u32 },
    WlPointerAxis { time: u32, axis: u32, value: i32 },
    WlPointerFrame,
    WlPointerAxisSource { axis_source: u32 },
    WlPointerAxisStop { time: u32, axis: u32 },
    WlPointerAxisDiscrete { axis: u32, discrete: i32 },
    WlPointerAxisValue120 { axis: u32, value120: i32 },
    WlPointerAxisRelativeDirection { axis: u32, direction: u32 },
    WlKeyboardKeymap { format: u32, fd: bool, size: u32 },
    WlKeyboardEnter { serial: u32, surface: Option<u32>, keys: Vec<u8> },
    WlKeyboardLeave { serial: u32, surface: Option<u32> },
    WlKeyboardKey { serial: u32, time: u32, key: u32, state: u32 },
    WlKeyboardModifiers {
        serial: u32,
        mods_depressed: u32,
        mods_latched: u32,
        mods_locked: u32,
        group: u32,
    },
    WlKeyboardRepeatInfo { rate: i32, delay: i32 },
    XdgSurfaceConfigure { serial: u32 },
    XdgToplevelConfigure { width: i32, height: i32, states: Vec<u8> },
    ZwpLinuxDmabufV1Format { format: u32 },
    ZwpLinuxDmabufV1Modifier { format: u32, modifier_hi: u32, modifier_lo: u32 },
    ZwpLinuxBufferParamsV1Created { buffer: u32 },
    ZwpLinuxBufferParamsV1Failed,
    ZwpLinuxDmabufFeedbackV1FormatTable { fd: bool, size: u32 },
    ZwpLinuxDmabufFeedbackV1TrancheFormats { indices: Vec<u8> },
    Other { opcode: u16, args: Vec<DecodedWaylandArg> },
}

/// The value of an event.
#[verifier::ext_equal]
pub enum EventView {
    WlDisplayDeleteId { id: u32 },
    WlRegistryGlobal { name: u32, interface: Option<Seq<char>>, version: u32 },
    WlCallbackDone { callback_data: u32 },
    WlSurfaceEnter { output: Option<u32> },
    WlSurfaceLeave { output: Option<u32> },
    WlPointerEnter { serial: u32, surface: Option<u32>, surface_x: i32, surface_y: i32 },
    WlPointerMotion { time: u32, surface_x: i32, surface_y: i32 },
    WlPointerButton { serial: u32, time: u32, button: u32, state: u32 },
    WlPointerAxis { time: u32, axis: u32, value: i32 },
    WlPointerFrame,
    WlPointerAxisSource { axis_source: u32 },
    WlPointerAxisStop { time: u32, axis: u32 },
    WlPointerAxisDiscrete { axis: u32, discrete: i32 },
    WlPointerAxisValue120 { axis: u32, value120: i32 },
    WlPointerAxisRelativeDirection { axis: u32, direction: u32 },
    WlKeyboardKeymap { format: u32, fd: bool, size: u32 },
    WlKeyboardEnter { serial: u32, surface: Option<u32>, keys: Seq<u8> },
    WlKeyboardLeave { serial: u32, surface: Option<u32> },
    WlKeyboardKey { serial: u32, time: u32, key: u32, state: u32 },
    WlKeyboardModifiers {
        serial: u32,
        mods_depressed: u32,
        mods_latched: u32,
        mods_locked: u32,
        group: u32,
    },
    WlKeyboardRepeatInfo { rate: i32, delay: i32 },
    XdgSurfaceConfigure { serial: u32 },
    XdgToplevelConfigure { width: i32, height: i32, states: Seq<u8> },
    ZwpLinuxDmabufV1Format { format: u32 },
    ZwpLinuxDmabufV1Modifier { format: u32, modifier_hi: u32, modifier_lo: u32 },
    ZwpLinuxBufferParamsV1Created { buffer: u32 },
    ZwpLinuxBufferParamsV1Failed,
    ZwpLinuxDmabufFeedbackV1FormatTable { fd: bool, size: u32 },
    ZwpLinuxDmabufFeedbackV1TrancheFormats { indices: Seq<u8> },
    Other { opcode: u16, args: Seq<ArgView> },
}

impl View for GeneratedEvent {
    type V = EventView;

    open spec fn view(&self) -> EventView {
        match self {
            GeneratedEvent::WlDisplayDeleteId { id } => {
                EventView::WlDisplayDeleteId { id: *id }
            },
            GeneratedEvent::WlRegistryGlobal { name, interface, version } => {
                EventView::WlRegistryGlobal { name: *name, interface: text::optional(*interface), version: *version }
            },
            GeneratedEvent::WlCallbackDone { callback_data } => {
                EventView::WlCallbackDone { callback_data: *callback_data }
            },
            GeneratedEvent::WlSurfaceEnter { output } => {
                EventView::WlSurfaceEnter { output: *output }
            },
            GeneratedEvent::WlSurfaceLeave { output } => {
                EventView::WlSurfaceLeave { output: *output }
            },
            GeneratedEvent::WlPointerEnter { serial, surface, surface_x, surface_y } => {
                EventView::WlPointerEnter { serial: *serial, surface: *surface, surface_x: *surface_x, surface_y: *surface_y }
            },
            GeneratedEvent::WlPointerMotion { time, surface_x, surface_y } => {
                EventView::WlPointerMotion { time: *time, surface_x: *surface_x, surface_y: *surface_y }
            },
            GeneratedEvent::WlPointerButton { serial, time, button, state } => {
                EventView::WlPointerButton { serial: *serial, time: *time, button: *button, state: *state }
            },
            GeneratedEvent::WlPointerAxis { time, axis, value } => {
                EventView::WlPointerAxis { time: *time, axis: *axis, value: *value }
            },
            GeneratedEvent::WlPointerFrame => {
                EventView::WlPointerFrame
            },
            GeneratedEvent::WlPointerAxisSource { axis_source } => {
                EventView::WlPointerAxisSource { axis_source: *axis_source }
            },
            GeneratedEvent::WlPointerAxisStop { time, axis } => {
                EventView::WlPointerAxisStop { time: *time, axis: *axis }
            },
            GeneratedEvent::WlPointerAxisDiscrete { axis, discrete } => {
                EventView::WlPointerAxisDiscrete { axis: *axis, discrete: *discrete }
            },
            GeneratedEvent::WlPointerAxisValue120 { axis, value120 } => {
                EventView::WlPointerAxisValue120 { axis: *axis, value120: *value120 }
            },
            GeneratedEvent::WlPointerAxisRelativeDirection { axis, direction } => {
                EventView::WlPointerAxisRelativeDirection { axis: *axis, direction: *direction }
            },
            GeneratedEvent::WlKeyboardKeymap { format, fd, size } => {
                EventView::WlKeyboardKeymap { format: *format, fd: *fd, size: *size }
            },
            GeneratedEvent::WlKeyboardEnter { serial, surface, keys } => {
                EventView::WlKeyboardEnter { serial: *serial, surface: *surface, keys: keys@ }
            },
            GeneratedEvent::WlKeyboardLeave { serial, surface } => {
                EventView::WlKeyboardLeave { serial: *serial, surface: *surface }
            },
            GeneratedEvent::WlKeyboardKey { serial, time, key, state } => {
                EventView::WlKeyboardKey { serial: *serial, time: *time, key: *key, state: *state }
            },
            GeneratedEvent::WlKeyboardModifiers { serial, mods_depressed, mods_latched, mods_locked, group } => {
                EventView::WlKeyboardModifiers { serial: *serial, mods_depressed: *mods_depressed, mods_latched: *mods_latched, mods_locked: *mods_locked, group: *group }
            },
            GeneratedEvent::WlKeyboardRepeatInfo { rate, delay } => {
                EventView::WlKeyboardRepeatInfo { rate: *rate, delay: *delay }
            },
            GeneratedEvent::XdgSurfaceConfigure { serial } => {
                EventView::XdgSurfaceConfigure { serial: *serial }
            },
            GeneratedEvent::XdgToplevelConfigure { width, height, states } => {
                EventView::XdgToplevelConfigure { width: *width, height: *height, states: states@ }
            },
            GeneratedEvent::ZwpLinuxDmabufV1Format { format } => {
                EventView::ZwpLinuxDmabufV1Format { format: *format }
            },
            GeneratedEvent::ZwpLinuxDmabufV1Modifier { format, modifier_hi, modifier_lo } => {
                EventView::ZwpLinuxDmabufV1Modifier { format: *format, modifier_hi: *modifier_hi, modifier_lo: *modifier_lo }
            },
            GeneratedEvent::ZwpLinuxBufferParamsV1Created { buffer } => {
                EventView::ZwpLinuxBufferParamsV1Created { buffer: *buffer }
            },
            GeneratedEvent::ZwpLinuxBufferParamsV1Failed => {
                EventView::ZwpLinuxBufferParamsV1Failed
            },
            GeneratedEvent::ZwpLinuxDmabufFeedbackV1FormatTable { fd, size } => {
                EventView::ZwpLinuxDmabufFeedbackV1FormatTable { fd: *fd, size: *size }
            },
            GeneratedEvent::ZwpLinuxDmabufFeedbackV1TrancheFormats { indices } => {
                EventView::ZwpLinuxDmabufFeedbackV1TrancheFormats { indices: indices@ }
            },
            GeneratedEvent::Other { opcode, args } => {
                EventView::Other { opcode: *opcode, args: wire::arg_values(args@) }
            },
        }
    }
}

/// The value of an event that may be absent.
pub open spec fn optional_event(event: Option<GeneratedEvent>) -> Option<EventView> {
    match event {
        Some(found) => Some(found@),
        None => None,
    }
}

/// The event that an opcode of an interface stands for, with its arguments.
pub open spec fn event_of(interface: InterfaceId, opcode: u16, args: Seq<ArgView>) -> Option<
    EventView,
> {
    match (interface, opcode) {
        (InterfaceId::WlDisplay, 1) => {
            match args[0] {
                ArgView::Uint(id) if args.len() == 1 => {
                    Some(EventView::WlDisplayDeleteId { id })
                },
                _ => None,
            }
        },
        (InterfaceId::WlRegistry, 0) => {
            match (args[0], args[1], args[2]) {
                (ArgView::Uint(name), ArgView::String(interface), ArgView::Uint(version)) if args.len() == 3 => {
                    Some(EventView::WlRegistryGlobal { name, interface, version })
                },
                _ => None,
            }
        },
        (InterfaceId::WlCallback, 0) => {
            match args[0] {
                ArgView::Uint(callback_data) if args.len() == 1 => {
                    Some(EventView::WlCallbackDone { callback_data })
                },
                _ => None,
            }
        },
        (InterfaceId::WlSurface, 0) => {
            match args[0] {
                ArgView::Object(output) if args.len() == 1 => {
                    Some(EventView::WlSurfaceEnter { output })
                },
                _ => None,
            }
        },
        (InterfaceId::WlSurface, 1) => {
            match args[0] {
                ArgView::Object(output) if args.len() == 1 => {
                    Some(EventView::WlSurfaceLeave { output })
                },
                _ => None,
            }
        },
        (InterfaceId::WlPointer, 0) => {
            match (args[0], args[1], args[2], args[3]) {
                (ArgView::Uint(serial), ArgView::Object(surface), ArgView::Fixed(surface_x), ArgView::Fixed(surface_y)) if args.len() == 4 => {
                    Some(EventView::WlPointerEnter { serial, surface, surface_x, surface_y })
                },
                _ => None,
            }
        },
        (InterfaceId::WlPointer, 2) => {
            match (args[0], args[1], args[2]) {
                (ArgView::Uint(time), ArgView::Fixed(surface_x), ArgView::Fixed(surface_y)) if args.len() == 3 => {
                    Some(EventView::WlPointerMotion { time, surface_x, surface_y })
                },
                _ => None,
            }
        },
        (InterfaceId::WlPointer, 3) => {
            match (args[0], args[1], args[2], args[3]) {
                (ArgView::Uint(serial), ArgView::Uint(time), ArgView::Uint(button), ArgView::Uint(state)) if args.len() == 4 => {
                    Some(EventView::WlPointerButton { serial, time, button, state })
                },
                _ => None,
            }
        },
        (InterfaceId::WlPointer, 4) => {
            match (args[0], args[1], args[2]) {
                (ArgView::Uint(time), ArgView::Uint(axis), ArgView::Fixed(value)) if args.len() == 3 => {
                    Some(EventView::WlPointerAxis { time, axis, value })
                },
                _ => None,
            }
        },
        (InterfaceId::WlPointer, 5) => {
            if args.len() == 0 {
                Some(EventView::WlPointerFrame)
            } else {
                None
            }
        },
        (InterfaceId::WlPointer, 6) => {
            match args[0] {
                ArgView::Uint(axis_source) if args.len() == 1 => {
                    Some(EventView::WlPointerAxisSource { axis_source })
                },
                _ => None,
            }
        },
        (InterfaceId::WlPointer, 7) => {
            match (args[0], args[1]) {
                (ArgView::Uint(time), ArgView::Uint(axis)) if args.len() == 2 => {
                    Some(EventView::WlPointerAxisStop { time, axis })
                },
                _ => None,
            }
        },
        (InterfaceId::WlPointer, 8) => {
            match (args[0], args[1]) {
                (ArgView::Uint(axis), ArgView::Int(discrete)) if args.len() == 2 => {
                    Some(EventView::WlPointerAxisDiscrete { axis, discrete })
                },
                _ => None,
            }
        },
        (InterfaceId::WlPointer, 9) => {
            match (args[0], args[1]) {
                (ArgView::Uint(axis), ArgView::Int(value120)) if args.len() == 2 => {
                    Some(EventView::WlPointerAxisValue120 { axis, value120 })
                },
                _ => None,
            }
        },
        (InterfaceId::WlPointer, 10) => {
            match (args[0], args[1]) {
                (ArgView::Uint(axis), ArgView::Uint(direction)) if args.len() == 2 => {
                    Some(EventView::WlPointerAxisRelativeDirection { axis, direction })
                },
                _ => None,
            }
        },
        (InterfaceId::WlKeyboard, 0) => {
            match (args[0], args[1], args[2]) {
                (ArgView::Uint(format), ArgView::Fd, ArgView::Uint(size)) if args.len() == 3 => {
                    Some(EventView::WlKeyboardKeymap { format, fd: true, size })
                },
                _ => None,
            }
        },
        (InterfaceId::WlKeyboard, 1) => {
            match (args[0], args[1], args[2]) {
                (ArgView::Uint(serial), ArgView::Object(surface), ArgView::Array(keys)) if args.len() == 3 => {
                    Some(EventView::WlKeyboardEnter { serial, surface, keys })
                },
                _ => None,
            }
        },
        (InterfaceId::WlKeyboard, 2) => {
            match (args[0], args[1]) {
                (ArgView::Uint(serial), ArgView::Object(surface)) if args.len() == 2 => {
                    Some(EventView::WlKeyboardLeave { serial, surface })
                },
                _ => None,
            }
        },
        (InterfaceId::WlKeyboard, 3) => {
            match (args[0], args[1], args[2], args[3]) {
                (ArgView::Uint(serial), ArgView::Uint(time), ArgView::Uint(key), ArgView::Uint(state)) if args.len() == 4 => {
                    Some(EventView::WlKeyboardKey { serial, time, key, state })
                },
                _ => None,
            }
        },
        (InterfaceId::WlKeyboard, 4) => {
            match (args[0], args[1], args[2], args[3], args[4]) {
                (ArgView::Uint(serial), ArgView::Uint(mods_depressed), ArgView::Uint(mods_latched), ArgView::Uint(mods_locked), ArgView::Uint(group)) if args.len() == 5 => {
                    Some(EventView::WlKeyboardModifiers { serial, mods_depressed, mods_latched, mods_locked, group })
                },
                _ => None,
            }
        },
        (InterfaceId::WlKeyboard, 5) => {
            match (args[0], args[1]) {
                (ArgView::Int(rate), ArgView::Int(delay)) if args.len() == 2 => {
                    Some(EventView::WlKeyboardRepeatInfo { rate, delay })
                },
                _ => None,
            }
        },
        (InterfaceId::XdgSurface, 0) => {
            match args[0] {
                ArgView::Uint(serial) if args.len() == 1 => {
                    Some(EventView::XdgSurfaceConfigure { serial })
                },
                _ => None,
            }
        },
        (InterfaceId::XdgToplevel, 0) => {
            match (args[0], args[1], args[2]) {
                (ArgView::Int(width), ArgView::Int(height), ArgView::Array(states)) if args.len() == 3 => {
                    Some(EventView::XdgToplevelConfigure { width, height, states })
                },
                _ => None,
            }
        },
        (InterfaceId::ZwpLinuxDmabufV1, 0) => {
            match args[0] {
                ArgView::Uint(format) if args.len() == 1 => {
                    Some(EventView::ZwpLinuxDmabufV1Format { format })
                },
                _ => None,
            }
        },
        (InterfaceId::ZwpLinuxDmabufV1, 1) => {
            match (args[0], args[1], args[2]) {
                (ArgView::Uint(format), ArgView::Uint(modifier_hi), ArgView::Uint(modifier_lo)) if args.len() == 3 => {
                    Some(EventView::ZwpLinuxDmabufV1Modifier { format, modifier_hi, modifier_lo })
                },
                _ => None,
            }
        },
        (InterfaceId::ZwpLinuxBufferParamsV1, 0) => {
            match args[0] {
                ArgView::NewId(buffer) if args.len() == 1 => {
                    Some(EventView::ZwpLinuxBufferParamsV1Created { buffer })
                },
                _ => None,
            }
        },
        (InterfaceId::ZwpLinuxBufferParamsV1, 1) => {
            if args.len() == 0 {
                Some(EventView::ZwpLinuxBufferParamsV1Failed)
            } else {
                None
            }
        },
        (InterfaceId::ZwpLinuxDmabufFeedbackV1, 1) => {
            match (args[0], args[1]) {
                (ArgView::Fd, ArgView::Uint(size)) if args.len() == 2 => {
                    Some(EventView::ZwpLinuxDmabufFeedbackV1FormatTable { fd: true, size })
                },
                _ => None,
            }
        },
        (InterfaceId::ZwpLinuxDmabufFeedbackV1, 5) => {
            match args[0] {
                ArgView::Array(indices) if args.len() == 1 => {
                    Some(EventView::ZwpLinuxDmabufFeedbackV1TrancheFormats { indices })
                },
                _ => None,
            }
        },
        _ => {
            if tables::event_message(interface, opcode) is Some {
                Some(EventView::Other { opcode, args })
            } else {
                None
            }
        },
    }
}

fn decode_event(interface: InterfaceId, opcode: u16, args: &[GeneratedDecodedArg]) -> (event:
    Option<GeneratedEvent>)
    ensures
        optional_event(event) == event_of(interface, opcode, decoded_values(args@)),
{
    match (interface, opcode) {
        (InterfaceId::WlDisplay, 1) => {
            if args.len() != 1 {
                return None;
            }
            match &args[0] {
                GeneratedDecodedArg::Uint(id) => {
                    Some(GeneratedEvent::WlDisplayDeleteId { id: *id })
                },
                _ => None,
            }
        },
        (InterfaceId::WlRegistry, 0) => {
            if args.len() != 3 {
                return None;
            }
            match (&args[0], &args[1], &args[2]) {
                (GeneratedDecodedArg::Uint(name), GeneratedDecodedArg::String(interface), GeneratedDecodedArg::Uint(version)) => {
                    Some(GeneratedEvent::WlRegistryGlobal { name: *name, interface: copy_text(interface), version: *version })
                },
                _ => None,
            }
        },
        (InterfaceId::WlCallback, 0) => {
            if args.len() != 1 {
                return None;
            }
            match &args[0] {
                GeneratedDecodedArg::Uint(callback_data) => {
                    Some(GeneratedEvent::WlCallbackDone { callback_data: *callback_data })
                },
                _ => None,
            }
        },
        (InterfaceId::WlSurface, 0) => {
            if args.len() != 1 {
                return None;
            }
            match &args[0] {
                GeneratedDecodedArg::Object(output) => {
                    Some(GeneratedEvent::WlSurfaceEnter { output: *output })
                },
                _ => None,
            }
        },
        (InterfaceId::WlSurface, 1) => {
            if args.len() != 1 {
                return None;
            }
            match &args[0] {
                GeneratedDecodedArg::Object(output) => {
                    Some(GeneratedEvent::WlSurfaceLeave { output: *output })
                },
                _ => None,
            }
        },
        (InterfaceId::WlPointer, 0) => {
            if args.len() != 4 {
                return None;
            }
            match (&args[0], &args[1], &args[2], &args[3]) {
                (GeneratedDecodedArg::Uint(serial), GeneratedDecodedArg::Object(surface), GeneratedDecodedArg::Fixed(surface_x), GeneratedDecodedArg::Fixed(surface_y)) => {
                    Some(GeneratedEvent::WlPointerEnter { serial: *serial, surface: *surface, surface_x: *surface_x, surface_y: *surface_y })
                },
                _ => None,
            }
        },
        (InterfaceId::WlPointer, 2) => {
            if args.len() != 3 {
                return None;
            }
            match (&args[0], &args[1], &args[2]) {
                (GeneratedDecodedArg::Uint(time), GeneratedDecodedArg::Fixed(surface_x), GeneratedDecodedArg::Fixed(surface_y)) => {
                    Some(GeneratedEvent::WlPointerMotion { time: *time, surface_x: *surface_x, surface_y: *surface_y })
                },
                _ => None,
            }
        },
        (InterfaceId::WlPointer, 3) => {
            if args.len() != 4 {
                return None;
            }
            match (&args[0], &args[1], &args[2], &args[3]) {
                (GeneratedDecodedArg::Uint(serial), GeneratedDecodedArg::Uint(time), GeneratedDecodedArg::Uint(button), GeneratedDecodedArg::Uint(state)) => {
                    Some(GeneratedEvent::WlPointerButton { serial: *serial, time: *time, button: *button, state: *state })
                },
                _ => None,
            }
        },
        (InterfaceId::WlPointer, 4) => {
            if args.len() != 3 {
                return None;
            }
            match (&args[0], &args[1], &args[2]) {
                (GeneratedDecodedArg::Uint(time), GeneratedDecodedArg::Uint(axis), GeneratedDecodedArg::Fixed(value)) => {
                    Some(GeneratedEvent::WlPointerAxis { time: *time, axis: *axis, value: *value })
                },
                _ => None,
            }
        },
        (InterfaceId::WlPointer, 5) => {
            if args.len() != 0 {
                return None;
            }
            Some(GeneratedEvent::WlPointerFrame)
        },
        (InterfaceId::WlPointer, 6) => {
            if args.len() != 1 {
                return None;
            }
            match &args[0] {
                GeneratedDecodedArg::Uint(axis_source) => {
                    Some(GeneratedEvent::WlPointerAxisSource { axis_source: *axis_source })
                },
                _ => None,
            }
        },
        (InterfaceId::WlPointer, 7) => {
            if args.len() != 2 {
                return None;
            }
            match (&args[0], &args[1]) {
                (GeneratedDecodedArg::Uint(time), GeneratedDecodedArg::Uint(axis)) => {
                    Some(GeneratedEvent::WlPointerAxisStop { time: *time, axis: *axis })
                },
                _ => None,
            }
        },
        (InterfaceId::WlPointer, 8) => {
            if args.len() != 2 {
                return None;
            }
            match (&args[0], &args[1]) {
                (GeneratedDecodedArg::Uint(axis), GeneratedDecodedArg::Int(discrete)) => {
                    Some(GeneratedEvent::WlPointerAxisDiscrete { axis: *axis, discrete: *discrete })
                },
                _ => None,
            }
        },
        (InterfaceId::WlPointer, 9) => {
            if args.len() != 2 {
                return None;
            }
            match (&args[0], &args[1]) {
                (GeneratedDecodedArg::Uint(axis), GeneratedDecodedArg::Int(value120)) => {
                    Some(GeneratedEvent::WlPointerAxisValue120 { axis: *axis, value120: *value120 })
                },
                _ => None,
            }
        },
        (InterfaceId::WlPointer, 10) => {
            if args.len() != 2 {
                return None;
            }
            match (&args[0], &args[1]) {
                (GeneratedDecodedArg::Uint(axis), GeneratedDecodedArg::Uint(direction)) => {
                    Some(GeneratedEvent::WlPointerAxisRelativeDirection { axis: *axis, direction: *direction })
                },
                _ => None,
            }
        },
        (InterfaceId::WlKeyboard, 0) => {
            if args.len() != 3 {
                return None;
            }
            match (&args[0], &args[1], &args[2]) {
                (GeneratedDecodedArg::Uint(format), GeneratedDecodedArg::Fd, GeneratedDecodedArg::Uint(size)) => {
                    Some(GeneratedEvent::WlKeyboardKeymap { format: *format, fd: true, size: *size })
                },
                _ => None,
            }
        },
        (InterfaceId::WlKeyboard, 1) => {
            if args.len() != 3 {
                return None;
            }
            match (&args[0], &args[1], &args[2]) {
                (GeneratedDecodedArg::Uint(serial), GeneratedDecodedArg::Object(surface), GeneratedDecodedArg::Array(keys)) => {
                    Some(GeneratedEvent::WlKeyboardEnter { serial: *serial, surface: *surface, keys: copy_bytes(keys) })
                },
                _ => None,
            }
        },
        (InterfaceId::WlKeyboard, 2) => {
            if args.len() != 2 {
                return None;
            }
            match (&args[0], &args[1]) {
                (GeneratedDecodedArg::Uint(serial), GeneratedDecodedArg::Object(surface)) => {
                    Some(GeneratedEvent::WlKeyboardLeave { serial: *serial, surface: *surface })
                },
                _ => None,
            }
        },
        (InterfaceId::WlKeyboard, 3) => {
            if args.len() != 4 {
                return None;
            }
            match (&args[0], &args[1], &args[2], &args[3]) {
                (GeneratedDecodedArg::Uint(serial), GeneratedDecodedArg::Uint(time), GeneratedDecodedArg::Uint(key), GeneratedDecodedArg::Uint(state)) => {
                    Some(GeneratedEvent::WlKeyboardKey { serial: *serial, time: *time, key: *key, state: *state })
                },
                _ => None,
            }
        },
        (InterfaceId::WlKeyboard, 4) => {
            if args.len() != 5 {
                return None;
            }
            match (&args[0], &args[1], &args[2], &args[3], &args[4]) {
                (GeneratedDecodedArg::Uint(serial), GeneratedDecodedArg::Uint(mods_depressed), GeneratedDecodedArg::Uint(mods_latched), GeneratedDecodedArg::Uint(mods_locked), GeneratedDecodedArg::Uint(group)) => {
                    Some(GeneratedEvent::WlKeyboardModifiers { serial: *serial, mods_depressed: *mods_depressed, mods_latched: *mods_latched, mods_locked: *mods_locked, group: *group })
                },
                _ => None,
            }
        },
        (InterfaceId::WlKeyboard, 5) => {
            if args.len() != 2 {
                return None;
            }
            match (&args[0], &args[1]) {
                (GeneratedDecodedArg::Int(rate), GeneratedDecodedArg::Int(delay)) => {
                    Some(GeneratedEvent::WlKeyboardRepeatInfo { rate: *rate, delay: *delay })
                },
                _ => None,
            }
        },
        (InterfaceId::XdgSurface, 0) => {
            if args.len() != 1 {
                return None;
            }
            match &args[0] {
                GeneratedDecodedArg::Uint(serial) => {
                    Some(GeneratedEvent::XdgSurfaceConfigure { serial: *serial })
                },
                _ => None,
            }
        },
        (InterfaceId::XdgToplevel, 0) => {
            if args.len() != 3 {
                return None;
            }
            match (&args[0], &args[1], &args[2]) {
                (GeneratedDecodedArg::Int(width), GeneratedDecodedArg::Int(height), GeneratedDecodedArg::Array(states)) => {
                    Some(GeneratedEvent::XdgToplevelConfigure { width: *width, height: *height, states: copy_bytes(states) })
                },
                _ => None,
            }
        },
        (InterfaceId::ZwpLinuxDmabufV1, 0) => {
            if args.len() != 1 {
                return None;
            }
            match &args[0] {
                GeneratedDecodedArg::Uint(format) => {
                    Some(GeneratedEvent::ZwpLinuxDmabufV1Format { format: *format })
                },
                _ => None,
            }
        },
        (InterfaceId::ZwpLinuxDmabufV1, 1) => {
            if args.len() != 3 {
                return None;
            }
            match (&args[0], &args[1], &args[2]) {
                (GeneratedDecodedArg::Uint(format), GeneratedDecodedArg::Uint(modifier_hi), GeneratedDecodedArg::Uint(modifier_lo)) => {
                    Some(GeneratedEvent::ZwpLinuxDmabufV1Modifier { format: *format, modifier_hi: *modifier_hi, modifier_lo: *modifier_lo })
                },
                _ => None,
            }
        },
        (InterfaceId::ZwpLinuxBufferParamsV1, 0) => {
            if args.len() != 1 {
                return None;
            }
            match &args[0] {
                GeneratedDecodedArg::NewId(buffer) => {
                    Some(GeneratedEvent::ZwpLinuxBufferParamsV1Created { buffer: *buffer })
                },
                _ => None,
            }
        },
        (InterfaceId::ZwpLinuxBufferParamsV1, 1) => {
            if args.len() != 0 {
                return None;
            }
            Some(GeneratedEvent::ZwpLinuxBufferParamsV1Failed)
        },
        (InterfaceId::ZwpLinuxDmabufFeedbackV1, 1) => {
            if args.len() != 2 {
                return None;
            }
            match (&args[0], &args[1]) {
                (GeneratedDecodedArg::Fd, GeneratedDecodedArg::Uint(size)) => {
                    Some(GeneratedEvent::ZwpLinuxDmabufFeedbackV1FormatTable { fd: true, size: *size })
                },
                _ => None,
            }
        },
        (InterfaceId::ZwpLinuxDmabufFeedbackV1, 5) => {
            if args.len() != 1 {
                return None;
            }
            match &args[0] {
                GeneratedDecodedArg::Array(indices) => {
                    Some(GeneratedEvent::ZwpLinuxDmabufFeedbackV1TrancheFormats { indices: copy_bytes(indices) })
                },
                _ => None,
            }
        },
        _ => {
            if tables::event_message_spec(interface, opcode).is_some() {
                Some(GeneratedEvent::Other { opcode, args: wire_args(args) })
            } else {
                None
            }
        },
    }
}

fn wire_args(args: &[GeneratedDecodedArg]) -> (copies: Vec<DecodedWaylandArg>)
    ensures
        wire::arg_values(copies@) == decoded_values(args@),
{
    let mut copies: Vec<DecodedWaylandArg> = Vec::new();
    let mut index: usize = 0;
    while index < args.len()
        invariant
            index <= args@.len(),
            copies@.len() == index,
            forall|i: int| 0 <= i < index ==> #[trigger] copies@[i]@ == args@[i]@,
        decreases args@.len() - index,
    {
        copies.push(
            match &args[index] {
                GeneratedDecodedArg::Int(value) => DecodedWaylandArg::Int(*value),
                GeneratedDecodedArg::Uint(value) => DecodedWaylandArg::Uint(*value),
                GeneratedDecodedArg::Fixed(value) => DecodedWaylandArg::Fixed(*value),
                GeneratedDecodedArg::String(value) => DecodedWaylandArg::String(copy_text(value)),
                GeneratedDecodedArg::Object(value) => DecodedWaylandArg::Object(*value),
                GeneratedDecodedArg::NewId(value) => DecodedWaylandArg::NewId(*value),
                GeneratedDecodedArg::Array(value) => DecodedWaylandArg::Array(copy_bytes(value)),
                GeneratedDecodedArg::Fd => DecodedWaylandArg::Fd,
            },
        );
        index = index + 1;
    }
    assert(wire::arg_values(copies@) =~= decoded_values(args@));
    copies
}

/// Reads an event from the arguments that were decoded for it.
pub fn decode_generated_event_by_opcode(
    interface: &str,
    opcode: u16,
    args: &[GeneratedDecodedArg],
) -> (event: Option<GeneratedEvent>)
    ensures
        optional_event(event) == (match tables::interface_named(interface@) {
            Some(id) => event_of(id, opcode, decoded_values(args@)),
            None => None,
        }),
{
    match tables::interface_by_name(interface) {
        Some(id) => decode_event(id, opcode, args),
        None => None,
    }
}

/// The opcode that an event is written with.
pub open spec fn event_opcode(event: EventView) -> u16 {
    match event {
        EventView::WlDisplayDeleteId { .. } => 1,
        EventView::WlRegistryGlobal { .. } => 0,
        EventView::WlCallbackDone { .. } => 0,
        EventView::WlSurfaceEnter { .. } => 0,
        EventView::WlSurfaceLeave { .. } => 1,
        EventView::WlPointerEnter { .. } => 0,
        EventView::WlPointerMotion { .. } => 2,
        EventView::WlPointerButton { .. } => 3,
        EventView::WlPointerAxis { .. } => 4,
        EventView::WlPointerFrame => 5,
        EventView::WlPointerAxisSource { .. } => 6,
        EventView::WlPointerAxisStop { .. } => 7,
        EventView::WlPointerAxisDiscrete { .. } => 8,
        EventView::WlPointerAxisValue120 { .. } => 9,
        EventView::WlPointerAxisRelativeDirection { .. } => 10,
        EventView::WlKeyboardKeymap { .. } => 0,
        EventView::WlKeyboardEnter { .. } => 1,
        EventView::WlKeyboardLeave { .. } => 2,
        EventView::WlKeyboardKey { .. } => 3,
        EventView::WlKeyboardModifiers { .. } => 4,
        EventView::WlKeyboardRepeatInfo { .. } => 5,
        EventView::XdgSurfaceConfigure { .. } => 0,
        EventView::XdgToplevelConfigure { .. } => 0,
        EventView::ZwpLinuxDmabufV1Format { .. } => 0,
        EventView::ZwpLinuxDmabufV1Modifier { .. } => 1,
        EventView::ZwpLinuxBufferParamsV1Created { .. } => 0,
        EventView::ZwpLinuxBufferParamsV1Failed => 1,
        EventView::ZwpLinuxDmabufFeedbackV1FormatTable { .. } => 1,
        EventView::ZwpLinuxDmabufFeedbackV1TrancheFormats { .. } => 5,
        EventView::Other { opcode, .. } => opcode,
    }
}

/// The arguments that an event is written with.
pub open spec fn event_args(event: EventView) -> Seq<ArgView> {
    match event {
        EventView::WlDisplayDeleteId { id } => {
            seq![ArgView::Uint(id)]
        },
        EventView::WlRegistryGlobal { name, interface, version } => {
            seq![ArgView::Uint(name), ArgView::String(interface), ArgView::Uint(version)]
        },
        EventView::WlCallbackDone { callback_data } => {
            seq![ArgView::Uint(callback_data)]
        },
        EventView::WlSurfaceEnter { output } => {
            seq![ArgView::Object(output)]
        },
        EventView::WlSurfaceLeave { output } => {
            seq![ArgView::Object(output)]
        },
        EventView::WlPointerEnter { serial, surface, surface_x, surface_y } => {
            seq![ArgView::Uint(serial), ArgView::Object(surface), ArgView::Fixed(surface_x), ArgView::Fixed(surface_y)]
        },
        EventView::WlPointerMotion { time, surface_x, surface_y } => {
            seq![ArgView::Uint(time), ArgView::Fixed(surface_x), ArgView::Fixed(surface_y)]
        },
        EventView::WlPointerButton { serial, time, button, state } => {
            seq![ArgView::Uint(serial), ArgView::Uint(time), ArgView::Uint(button), ArgView::Uint(state)]
        },
        EventView::WlPointerAxis { time, axis, value } => {
            seq![ArgView::Uint(time), ArgView::Uint(axis), ArgView::Fixed(value)]
        },
        EventView::WlPointerFrame => {
            seq![]
        },
        EventView::WlPointerAxisSource { axis_source } => {
            seq![ArgView::Uint(axis_source)]
        },
        EventView::WlPointerAxisStop { time, axis } => {
            seq![ArgView::Uint(time), ArgView::Uint(axis)]
        },
        EventView::WlPointerAxisDiscrete { axis, discrete } => {
            seq![ArgView::Uint(axis), ArgView::Int(discrete)]
        },
        EventView::WlPointerAxisValue120 { axis, value120 } => {
            seq![ArgView::Uint(axis), ArgView::Int(value120)]
        },
        EventView::WlPointerAxisRelativeDirection { axis, direction } => {
            seq![ArgView::Uint(axis), ArgView::Uint(direction)]
        },
        EventView::WlKeyboardKeymap { format, fd: _, size } => {
            seq![ArgView::Uint(format), ArgView::Fd, ArgView::Uint(size)]
        },
        EventView::WlKeyboardEnter { serial, surface, keys } => {
            seq![ArgView::Uint(serial), ArgView::Object(surface), ArgView::Array(keys)]
        },
        EventView::WlKeyboardLeave { serial, surface } => {
            seq![ArgView::Uint(serial), ArgView::Object(surface)]
        },
        EventView::WlKeyboardKey { serial, time, key, state } => {
            seq![ArgView::Uint(serial), ArgView::Uint(time), ArgView::Uint(key), ArgView::Uint(state)]
        },
        EventView::WlKeyboardModifiers { serial, mods_depressed, mods_latched, mods_locked, group } => {
            seq![ArgView::Uint(serial), ArgView::Uint(mods_depressed), ArgView::Uint(mods_latched), ArgView::Uint(mods_locked), ArgView::Uint(group)]
        },
        EventView::WlKeyboardRepeatInfo { rate, delay } => {
            seq![ArgView::Int(rate), ArgView::Int(delay)]
        },
        EventView::XdgSurfaceConfigure { serial } => {
            seq![ArgView::Uint(serial)]
        },
        EventView::XdgToplevelConfigure { width, height, states } => {
            seq![ArgView::Int(width), ArgView::Int(height), ArgView::Array(states)]
        },
        EventView::ZwpLinuxDmabufV1Format { format } => {
            seq![ArgView::Uint(format)]
        },
        EventView::ZwpLinuxDmabufV1Modifier { format, modifier_hi, modifier_lo } => {
            seq![ArgView::Uint(format), ArgView::Uint(modifier_hi), ArgView::Uint(modifier_lo)]
        },
        EventView::ZwpLinuxBufferParamsV1Created { buffer } => {
            seq![ArgView::NewId(buffer)]
        },
        EventView::ZwpLinuxBufferParamsV1Failed => {
            seq![]
        },
        EventView::ZwpLinuxDmabufFeedbackV1FormatTable { fd: _, size } => {
            seq![ArgView::Fd, ArgView::Uint(size)]
        },
        EventView::ZwpLinuxDmabufFeedbackV1TrancheFormats { indices } => {
            seq![ArgView::Array(indices)]
        },
        EventView::Other { args, .. } => args,
    }
}

fn event_wire_args(event: &GeneratedEvent) -> (args: Vec<DecodedWaylandArg>)
    ensures
        wire::arg_values(args@) == event_args(event@),
{
    let args = match event {
        GeneratedEvent::WlDisplayDeleteId { id } => {
            vec![DecodedWaylandArg::Uint(*id)]
        },
        GeneratedEvent::WlRegistryGlobal { name, interface, version } => {
            vec![DecodedWaylandArg::Uint(*name), DecodedWaylandArg::String(copy_text(interface)), DecodedWaylandArg::Uint(*version)]
        },
        GeneratedEvent::WlCallbackDone { callback_data } => {
            vec![DecodedWaylandArg::Uint(*callback_data)]
        },
        GeneratedEvent::WlSurfaceEnter { output } => {
            vec![DecodedWaylandArg::Object(*output)]
        },
        GeneratedEvent::WlSurfaceLeave { output } => {
            vec![DecodedWaylandArg::Object(*output)]
        },
        GeneratedEvent::WlPointerEnter { serial, surface, surface_x, surface_y } => {
            vec![DecodedWaylandArg::Uint(*serial), DecodedWaylandArg::Object(*surface), DecodedWaylandArg::Fixed(*surface_x), DecodedWaylandArg::Fixed(*surface_y)]
        },
        GeneratedEvent::WlPointerMotion { time, surface_x, surface_y } => {
            vec![DecodedWaylandArg::Uint(*time), DecodedWaylandArg::Fixed(*surface_x), DecodedWaylandArg::Fixed(*surface_y)]
        },
        GeneratedEvent::WlPointerButton { serial, time, button, state } => {
            vec![DecodedWaylandArg::Uint(*serial), DecodedWaylandArg::Uint(*time), DecodedWaylandArg::Uint(*button), DecodedWaylandArg::Uint(*state)]
        },
        GeneratedEvent::WlPointerAxis { time, axis, value } => {
            vec![DecodedWaylandArg::Uint(*time), DecodedWaylandArg::Uint(*axis), DecodedWaylandArg::Fixed(*value)]
        },
        GeneratedEvent::WlPointerFrame => {
            vec![]
        },
        GeneratedEvent::WlPointerAxisSource { axis_source } => {
            vec![DecodedWaylandArg::Uint(*axis_source)]
        },
        GeneratedEvent::WlPointerAxisStop { time, axis } => {
            vec![DecodedWaylandArg::Uint(*time), DecodedWaylandArg::Uint(*axis)]
        },
        GeneratedEvent::WlPointerAxisDiscrete { axis, discrete } => {
            vec![DecodedWaylandArg::Uint(*axis), DecodedWaylandArg::Int(*discrete)]
        },
        GeneratedEvent::WlPointerAxisValue120 { axis, value120 } => {
            vec![DecodedWaylandArg::Uint(*axis), DecodedWaylandArg::Int(*value120)]
        },
        GeneratedEvent::WlPointerAxisRelativeDirection { axis, direction } => {
            vec![DecodedWaylandArg::Uint(*axis), DecodedWaylandArg::Uint(*direction)]
        },
        GeneratedEvent::WlKeyboardKeymap { format, fd: _, size } => {
            vec![DecodedWaylandArg::Uint(*format), DecodedWaylandArg::Fd, DecodedWaylandArg::Uint(*size)]
        },
        GeneratedEvent::WlKeyboardEnter { serial, surface, keys } => {
            vec![DecodedWaylandArg::Uint(*serial), DecodedWaylandArg::Object(*surface), DecodedWaylandArg::Array(copy_bytes(keys))]
        },
        GeneratedEvent::WlKeyboardLeave { serial, surface } => {
            vec![DecodedWaylandArg::Uint(*serial), DecodedWaylandArg::Object(*surface)]
        },
        GeneratedEvent::WlKeyboardKey { serial, time, key, state } => {
            vec![DecodedWaylandArg::Uint(*serial), DecodedWaylandArg::Uint(*time), DecodedWaylandArg::Uint(*key), DecodedWaylandArg::Uint(*state)]
        },
        GeneratedEvent::WlKeyboardModifiers { serial, mods_depressed, mods_latched, mods_locked, group } => {
            vec![DecodedWaylandArg::Uint(*serial), DecodedWaylandArg::Uint(*mods_depressed), DecodedWaylandArg::Uint(*mods_latched), DecodedWaylandArg::Uint(*mods_locked), DecodedWaylandArg::Uint(*group)]
        },
        GeneratedEvent::WlKeyboardRepeatInfo { rate, delay } => {
            vec![DecodedWaylandArg::Int(*rate), DecodedWaylandArg::Int(*delay)]
        },
        GeneratedEvent::XdgSurfaceConfigure { serial } => {
            vec![DecodedWaylandArg::Uint(*serial)]
        },
        GeneratedEvent::XdgToplevelConfigure { width, height, states } => {
            vec![DecodedWaylandArg::Int(*width), DecodedWaylandArg::Int(*height), DecodedWaylandArg::Array(copy_bytes(states))]
        },
        GeneratedEvent::ZwpLinuxDmabufV1Format { format } => {
            vec![DecodedWaylandArg::Uint(*format)]
        },
        GeneratedEvent::ZwpLinuxDmabufV1Modifier { format, modifier_hi, modifier_lo } => {
            vec![DecodedWaylandArg::Uint(*format), DecodedWaylandArg::Uint(*modifier_hi), DecodedWaylandArg::Uint(*modifier_lo)]
        },
        GeneratedEvent::ZwpLinuxBufferParamsV1Created { buffer } => {
            vec![DecodedWaylandArg::NewId(*buffer)]
        },
        GeneratedEvent::ZwpLinuxBufferParamsV1Failed => {
            vec![]
        },
        GeneratedEvent::ZwpLinuxDmabufFeedbackV1FormatTable { fd: _, size } => {
            vec![DecodedWaylandArg::Fd, DecodedWaylandArg::Uint(*size)]
        },
        GeneratedEvent::ZwpLinuxDmabufFeedbackV1TrancheFormats { indices } => {
            vec![DecodedWaylandArg::Array(copy_bytes(indices))]
        },
        GeneratedEvent::Other { opcode: _, args } => wire_copies(args.as_slice()),
    };
    assert(wire::arg_values(args@) =~= event_args(event@));
    args
}

fn wire_copies(args: &[DecodedWaylandArg]) -> (copies: Vec<DecodedWaylandArg>)
    ensures
        wire::arg_values(copies@) == wire::arg_values(args@),
{
    let decoded = decoded_args(args);
    wire_args(decoded.as_slice())
}

fn event_wire_opcode(event: &GeneratedEvent) -> (opcode: u16)
    ensures
        opcode == event_opcode(event@),
{
    match event {
        GeneratedEvent::WlDisplayDeleteId { .. } => 1,
        GeneratedEvent::WlRegistryGlobal { .. } => 0,
        GeneratedEvent::WlCallbackDone { .. } => 0,
        GeneratedEvent::WlSurfaceEnter { .. } => 0,
        GeneratedEvent::WlSurfaceLeave { .. } => 1,
        GeneratedEvent::WlPointerEnter { .. } => 0,
        GeneratedEvent::WlPointerMotion { .. } => 2,
        GeneratedEvent::WlPointerButton { .. } => 3,
        GeneratedEvent::WlPointerAxis { .. } => 4,
        GeneratedEvent::WlPointerFrame => 5,
        GeneratedEvent::WlPointerAxisSource { .. } => 6,
        GeneratedEvent::WlPointerAxisStop { .. } => 7,
        GeneratedEvent::WlPointerAxisDiscrete { .. } => 8,
        GeneratedEvent::WlPointerAxisValue120 { .. } => 9,
        GeneratedEvent::WlPointerAxisRelativeDirection { .. } => 10,
        GeneratedEvent::WlKeyboardKeymap { .. } => 0,
        GeneratedEvent::WlKeyboardEnter { .. } => 1,
        GeneratedEvent::WlKeyboardLeave { .. } => 2,
        GeneratedEvent::WlKeyboardKey { .. } => 3,
        GeneratedEvent::WlKeyboardModifiers { .. } => 4,
        GeneratedEvent::WlKeyboardRepeatInfo { .. } => 5,
        GeneratedEvent::XdgSurfaceConfigure { .. } => 0,
        GeneratedEvent::XdgToplevelConfigure { .. } => 0,
        GeneratedEvent::ZwpLinuxDmabufV1Format { .. } => 0,
        GeneratedEvent::ZwpLinuxDmabufV1Modifier { .. } => 1,
        GeneratedEvent::ZwpLinuxBufferParamsV1Created { .. } => 0,
        GeneratedEvent::ZwpLinuxBufferParamsV1Failed => 1,
        GeneratedEvent::ZwpLinuxDmabufFeedbackV1FormatTable { .. } => 1,
        GeneratedEvent::ZwpLinuxDmabufFeedbackV1TrancheFormats { .. } => 5,
        GeneratedEvent::Other { opcode, args: _ } => *opcode,
    }
}

/// The message that an event is written as, or why it cannot be written.
pub open spec fn event_message(sender: u32, event: EventView) -> Result<Seq<u8>, Seq<char>> {
    if wire::fits(event_args(event)) {
        Ok(wire::message_bytes(sender, event_opcode(event), event_args(event)))
    } else {
        Err("Wayland message exceeds the wire limit of 65535 bytes"@)
    }
}

/// Writes an event of the object `sender`.
pub fn encode_generated_event(sender: u32, event: &GeneratedEvent) -> (bytes: Result<
    Vec<u8>,
    String,
>)
    ensures
        text::outcome(bytes) == event_message(sender, event@),
{
    let args = event_wire_args(event);
    let opcode: u16 = event_wire_opcode(event);
    encode_wayland_message(sender, opcode, args.as_slice())
}

/// The interface whose event this is; that of an event which is kept as its
/// opcode and arguments is not known.
pub open spec fn event_interface(event: EventView) -> Option<InterfaceId> {
    match event {
        EventView::WlDisplayDeleteId { .. } => Some(InterfaceId::WlDisplay),
        EventView::WlRegistryGlobal { .. } => Some(InterfaceId::WlRegistry),
        EventView::WlCallbackDone { .. } => Some(InterfaceId::WlCallback),
        EventView::WlSurfaceEnter { .. } => Some(InterfaceId::WlSurface),
        EventView::WlSurfaceLeave { .. } => Some(InterfaceId::WlSurface),
        EventView::WlPointerEnter { .. } => Some(InterfaceId::WlPointer),
        EventView::WlPointerMotion { .. } => Some(InterfaceId::WlPointer),
        EventView::WlPointerButton { .. } => Some(InterfaceId::WlPointer),
        EventView::WlPointerAxis { .. } => Some(InterfaceId::WlPointer),
        EventView::WlPointerFrame => Some(InterfaceId::WlPointer),
        EventView::WlPointerAxisSource { .. } => Some(InterfaceId::WlPointer),
        EventView::WlPointerAxisStop { .. } => Some(InterfaceId::WlPointer),
        EventView::WlPointerAxisDiscrete { .. } => Some(InterfaceId::WlPointer),
        EventView::WlPointerAxisValue120 { .. } => Some(InterfaceId::WlPointer),
        EventView::WlPointerAxisRelativeDirection { .. } => Some(InterfaceId::WlPointer),
        EventView::WlKeyboardKeymap { .. } => Some(InterfaceId::WlKeyboard),
        EventView::WlKeyboardEnter { .. } => Some(InterfaceId::WlKeyboard),
        EventView::WlKeyboardLeave { .. } => Some(InterfaceId::WlKeyboard),
        EventView::WlKeyboardKey { .. } => Some(InterfaceId::WlKeyboard),
        EventView::WlKeyboardModifiers { .. } => Some(InterfaceId::WlKeyboard),
        EventView::WlKeyboardRepeatInfo { .. } => Some(InterfaceId::WlKeyboard),
        EventView::XdgSurfaceConfigure { .. } => Some(InterfaceId::XdgSurface),
        EventView::XdgToplevelConfigure { .. } => Some(InterfaceId::XdgToplevel),
        EventView::ZwpLinuxDmabufV1Format { .. } => Some(InterfaceId::ZwpLinuxDmabufV1),
        EventView::ZwpLinuxDmabufV1Modifier { .. } => Some(InterfaceId::ZwpLinuxDmabufV1),
        EventView::ZwpLinuxBufferParamsV1Created { .. } => Some(InterfaceId::ZwpLinuxBufferParamsV1),
        EventView::ZwpLinuxBufferParamsV1Failed => Some(InterfaceId::ZwpLinuxBufferParamsV1),
        EventView::ZwpLinuxDmabufFeedbackV1FormatTable { .. } => Some(InterfaceId::ZwpLinuxDmabufFeedbackV1),
        EventView::ZwpLinuxDmabufFeedbackV1TrancheFormats { .. } => Some(InterfaceId::ZwpLinuxDmabufFeedbackV1),
        EventView::Other { .. } => None,
    }
}

/// Whether an event that carries a file descriptor says that it does.
pub open spec fn descriptor_is_noted(event: EventView) -> bool {
    match event {
        EventView::WlKeyboardKeymap { fd, .. } => fd,
        EventView::ZwpLinuxDmabufFeedbackV1FormatTable { fd, .. } => fd,
        _ => true,
    }
}

/// An event is read back as it was written: its opcode and its arguments stand
/// for the same event of the same interface.
pub proof fn written_event_is_read_back(event: EventView)
    requires
        event_interface(event) is Some,
        descriptor_is_noted(event),
    ensures
        event_of(event_interface(event).unwrap(), event_opcode(event), event_args(event)) == Some(
            event,
        ),
{
}

} // verus!
