use wayland_mcp::color::{ColorDescription, SurfaceColors, named_primaries};
use wayland_mcp::dmabuf::{
    DRM_FORMAT_ABGR2101010, DRM_FORMAT_ARGB2101010, DRM_FORMAT_XBGR2101010,
    DRM_FORMAT_XBGR16161616F, DRM_FORMAT_XRGB2101010, VK_FORMAT_A2B10G10R10_UNORM_PACK32,
    VK_FORMAT_A2R10G10B10_UNORM_PACK32, VK_FORMAT_R16G16B16A16_SFLOAT, copied_pixels_to_rgba,
    vk_format_for_drm_format,
};
use wayland_mcp::messages::GeneratedHookRequest;

#[test]
fn maps_xbgr16161616f_to_vulkan_float_rgba() {
    assert_eq!(
        vk_format_for_drm_format(DRM_FORMAT_XBGR16161616F),
        Some(VK_FORMAT_R16G16B16A16_SFLOAT)
    );
}

#[test]
fn converts_xbgr16161616f_pixels_to_rgba8() {
    let raw = [
        0x00, 0x3c, // R = 1.0
        0x00, 0x38, // G = 0.5
        0x00, 0x00, // B = 0.0
        0x00, 0x3c, // X = ignored
    ];

    assert_eq!(
        copied_pixels_to_rgba(&raw, 1, 1, VK_FORMAT_R16G16B16A16_SFLOAT),
        vec![255, 128, 0, 255]
    );
}

#[test]
fn maps_common_10_bit_drm_formats_to_vulkan() {
    assert_eq!(
        [
            vk_format_for_drm_format(DRM_FORMAT_XRGB2101010),
            vk_format_for_drm_format(DRM_FORMAT_ARGB2101010),
            vk_format_for_drm_format(DRM_FORMAT_XBGR2101010),
            vk_format_for_drm_format(DRM_FORMAT_ABGR2101010),
        ],
        [
            Some(VK_FORMAT_A2R10G10B10_UNORM_PACK32),
            Some(VK_FORMAT_A2R10G10B10_UNORM_PACK32),
            Some(VK_FORMAT_A2B10G10R10_UNORM_PACK32),
            Some(VK_FORMAT_A2B10G10R10_UNORM_PACK32),
        ]
    );
}

#[test]
fn converts_10_bit_packed_pixels_to_rgba8() {
    let xrgb = ((1023u32 << 20) | (512 << 10)).to_le_bytes();
    let xbgr = ((1023u32 << 20) | (512 << 10)).to_le_bytes();

    assert_eq!(
        copied_pixels_to_rgba(&xrgb, 1, 1, VK_FORMAT_A2R10G10B10_UNORM_PACK32),
        vec![255, 128, 0, 255]
    );
    assert_eq!(
        copied_pixels_to_rgba(&xbgr, 1, 1, VK_FORMAT_A2B10G10R10_UNORM_PACK32),
        vec![0, 128, 255, 255]
    );
}

fn show(colors: &mut SurfaceColors, creator: u32) -> ColorDescription {
    colors.request(
        creator,
        &GeneratedHookRequest::WpImageDescriptionCreatorParamsV1Create {
            image_description: 11,
        },
    );
    colors.request(
        1,
        &GeneratedHookRequest::WpColorManagerV1GetSurface {
            id: 12,
            surface: Some(13),
        },
    );
    colors.request(
        12,
        &GeneratedHookRequest::WpColorManagementSurfaceV1SetImageDescription {
            image_description: Some(11),
            render_intent: 0,
        },
    );
    colors.request(13, &GeneratedHookRequest::WlSurfaceCommit);
    *colors.get(13).unwrap()
}

#[test]
fn parametric_standard_gamuts_and_unknown_whitepoint() {
    for (expected, xy) in [
        (
            1,
            [
                640000, 330000, 300000, 600000, 150000, 60000, 312700, 329000,
            ],
        ),
        (
            6,
            [
                708000, 292000, 170000, 797000, 131000, 46000, 312700, 329000,
            ],
        ),
        (
            9,
            [
                680000, 320000, 265000, 690000, 150000, 60000, 312700, 329000,
            ],
        ),
    ] {
        let mut colors = SurfaceColors::default();
        colors.request(
            10,
            &GeneratedHookRequest::WpImageDescriptionCreatorParamsV1SetPrimaries {
                r_x: xy[0],
                r_y: xy[1],
                g_x: xy[2],
                g_y: xy[3],
                b_x: xy[4],
                b_y: xy[5],
                w_x: xy[6],
                w_y: xy[7],
            },
        );
        colors.request(
            10,
            &GeneratedHookRequest::WpImageDescriptionCreatorParamsV1SetTfNamed { tf: 2 },
        );
        let color = show(&mut colors, 10);
        assert_eq!(color.primaries, expected);
        assert!(color.validate(&None, true).is_ok());
        assert_eq!(named_primaries(xy.map(|v| v - 1)), expected);
        let mut different_white = xy;
        different_white[6] = 345700;
        assert_eq!(named_primaries(different_white), 0);
    }
    assert_eq!(named_primaries([i32::MIN; 8]), 0);
}

#[test]
fn description_is_copied_and_double_buffered() {
    let mut colors = SurfaceColors::default();
    colors.request(
        1,
        &GeneratedHookRequest::WpColorManagerV1CreateParametricCreator { obj: 2 },
    );
    colors.request(
        2,
        &GeneratedHookRequest::WpImageDescriptionCreatorParamsV1SetTfNamed { tf: 5 },
    );
    colors.request(
        2,
        &GeneratedHookRequest::WpImageDescriptionCreatorParamsV1SetPrimariesNamed { primaries: 6 },
    );
    colors.request(
        2,
        &GeneratedHookRequest::WpImageDescriptionCreatorParamsV1Create {
            image_description: 3,
        },
    );
    colors.request(
        1,
        &GeneratedHookRequest::WpColorManagerV1GetSurface {
            id: 4,
            surface: Some(5),
        },
    );
    colors.request(
        4,
        &GeneratedHookRequest::WpColorManagementSurfaceV1SetImageDescription {
            image_description: Some(3),
            render_intent: 0,
        },
    );
    colors.request(3, &GeneratedHookRequest::WpImageDescriptionV1Destroy);
    assert!(colors.get(5).is_none());
    colors.request(5, &GeneratedHookRequest::WlSurfaceCommit);
    assert!(colors.get(5).unwrap().validate(&None, true).is_ok());
    colors.request(
        4,
        &GeneratedHookRequest::WpColorManagementSurfaceV1UnsetImageDescription,
    );
    assert!(colors.get(5).is_some());
    colors.request(5, &GeneratedHookRequest::WlSurfaceCommit);
    assert!(colors.get(5).is_none());
    colors.request(
        4,
        &GeneratedHookRequest::WpColorManagementSurfaceV1SetImageDescription {
            image_description: Some(999),
            render_intent: 0,
        },
    );
    colors.request(5, &GeneratedHookRequest::WlSurfaceCommit);
    assert!(colors.get(5).unwrap().validate(&None, true).is_err());
    colors.request(5, &GeneratedHookRequest::WlSurfaceDestroy);
    assert!(colors.get(5).is_none());
}

const NAMED_PRIMARIES: [[i32; 8]; 10] = [
    [
        640000, 330000, 300000, 600000, 150000, 60000, 312700, 329000,
    ],
    [
        670000, 330000, 210000, 710000, 140000, 80000, 310000, 316000,
    ],
    [
        640000, 330000, 290000, 600000, 150000, 60000, 312700, 329000,
    ],
    [
        630000, 340000, 310000, 595000, 155000, 70000, 312700, 329000,
    ],
    [
        681000, 319000, 243000, 692000, 145000, 49000, 310000, 316000,
    ],
    [
        708000, 292000, 170000, 797000, 131000, 46000, 312700, 329000,
    ],
    [1000000, 0, 0, 1000000, 0, 0, 333333, 333333],
    [
        680000, 320000, 265000, 690000, 150000, 60000, 314000, 351000,
    ],
    [
        680000, 320000, 265000, 690000, 150000, 60000, 312700, 329000,
    ],
    [
        640000, 330000, 210000, 710000, 150000, 60000, 312700, 329000,
    ],
];

fn parametric(xy: [i32; 8], tf: u32, power: Option<u32>) -> ColorDescription {
    let mut colors = SurfaceColors::default();
    colors.request(
        10,
        &GeneratedHookRequest::WpImageDescriptionCreatorParamsV1SetPrimaries {
            r_x: xy[0],
            r_y: xy[1],
            g_x: xy[2],
            g_y: xy[3],
            b_x: xy[4],
            b_y: xy[5],
            w_x: xy[6],
            w_y: xy[7],
        },
    );
    if let Some(eexp) = power {
        colors.request(
            10,
            &GeneratedHookRequest::WpImageDescriptionCreatorParamsV1SetTfPower { eexp },
        );
    } else {
        colors.request(
            10,
            &GeneratedHookRequest::WpImageDescriptionCreatorParamsV1SetTfNamed { tf },
        );
    }
    colors.request(
        10,
        &GeneratedHookRequest::WpImageDescriptionCreatorParamsV1SetLuminances {
            min_lum: 0,
            max_lum: 100,
            reference_lum: 100,
        },
    );
    show(&mut colors, 10)
}

#[test]
fn every_protocol_named_primary_and_transfer_is_supported() {
    for primary in 1..=10 {
        assert_eq!(
            named_primaries(NAMED_PRIMARIES[(primary - 1) as usize]),
            primary
        );
        for tf in 1..=14 {
            let color = ColorDescription {
                tf,
                primaries: primary,
                ..Default::default()
            };
            color.validate(&None, true).unwrap();
            assert_ne!(color.transfer_name(), "unknown");
            assert_ne!(color.primaries_name(), "unknown");
        }
    }
    for (tf, primaries) in [(0, 1), (15, 1), (5, 0), (5, 11)] {
        assert!(
            ColorDescription {
                tf,
                primaries,
                ..Default::default()
            }
            .validate(&None, true)
            .is_err()
        );
    }
}

#[test]
fn arbitrary_primaries_whitepoints_and_client_rounding_are_preserved() {
    // More than one unit of rounding, as emitted by clients.
    let mut rounded = NAMED_PRIMARIES[0];
    rounded[0] += 17;
    let prophoto = [734700, 265300, 159600, 840400, 36600, 100, 345700, 358500];
    let mut d50 = NAMED_PRIMARIES[0];
    d50[6] = 345700;
    d50[7] = 358500;
    // An output profile of Chromium.
    let chromium = [
        689407, 309580, 239175, 721657, 135738, 44916, 312700, 329000,
    ];
    for xy in [rounded, prophoto, d50, chromium] {
        for tf in 1..=14 {
            let color = parametric(xy, tf, None);
            color.validate(&None, true).unwrap();
            assert_eq!(color.primaries, 0);
            assert_eq!(color.chromaticities.map(|found| found.to_array()), Some(xy));
            assert_eq!(color.primaries_name(), "custom chromaticities");
        }
    }
}

#[test]
fn every_legal_power_exponent_is_decoded_and_keeps_extended_sign() {
    let mut color = parametric(NAMED_PRIMARIES[0], 0, Some(10000));
    for eexp in 10000..=100000 {
        color.power = Some(eexp);
        color.validate(&None, true).unwrap();
    }
    for eexp in [0, 9999, 100001, u32::MAX] {
        color.power = Some(eexp);
        assert!(color.validate(&None, true).is_err());
    }
    let gamma = parametric(NAMED_PRIMARIES[0], 0, Some(22000));
    assert_eq!(gamma.power, Some(22000));
    assert_eq!(gamma.transfer_name(), "custom power");
}

#[test]
fn invalid_custom_primaries_fail_explicitly_without_srgb_fallback() {
    let mut collinear = NAMED_PRIMARIES[0];
    collinear[2] = collinear[0];
    collinear[3] = collinear[1];
    let mut invalid_white = NAMED_PRIMARIES[0];
    invalid_white[7] = 0;
    for (xy, error) in [
        (collinear, "degenerate custom color primaries matrix"),
        (
            invalid_white,
            "invalid custom color white point: y must be positive",
        ),
        (
            [0; 8],
            "invalid custom color white point: y must be positive",
        ),
    ] {
        let color = parametric(xy, 2, None);
        assert_eq!(color.chromaticities.map(|found| found.to_array()), Some(xy));
        assert_eq!(
            color.validate(&Some(error.to_string()), true),
            Err(error.to_string())
        );
    }
}

#[test]
fn unknown_descriptions_and_bad_levels_are_refused() {
    let color = ColorDescription {
        tf: 2,
        primaries: 1,
        ..Default::default()
    };
    assert!(color.validate(&None, false).is_err());
    assert_eq!(
        named_primaries([
            640000, 330000, 210000, 710000, 150000, 60000, 312700, 329000
        ]),
        10
    );
}
