use bevy_oxr::ext_set::KHR_ANDROID_CREATE_INSTANCE;
use bevy_oxr::ext_set::Platform;
use bevy_oxr::openxr::render::{end_frame_layer, COMPOSITION_LAYER_BLEND_TEXTURE_SOURCE_ALPHA};
use bevy_oxr::ext_set::FB_PASSTHROUGH;
use bevy_oxr::openxr::resources::init_instance_request;
use bevy_oxr::ext_set::{ExtensionSet, EXT_HAND_TRACKING, KHR_D3D12_ENABLE, KHR_VULKAN_ENABLE2};
use bevy_oxr::openxr::extensions::XrExtensions;
use bevy_oxr::openxr::init::{AppInfo as BorrowedAppInfo, Version as InitVersion};
use bevy_oxr::openxr::render::{eye_texture_views, frame_display_time, LEFT_XR_TEXTURE_HANDLE, RIGHT_XR_TEXTURE_HANDLE};
use bevy_oxr::openxr::resources::{instance_request, layers_to_submit};
use bevy_oxr::openxr::types::{
    AppInfo, GraphicsBackend, SwapchainCreateInfo, UnavailableExts, Version, XrError,
    SWAPCHAIN_USAGE_COLOR_ATTACHMENT, SWAPCHAIN_USAGE_SAMPLED,
};
use bevy_oxr::openxr::{
    image_rect, require_primary_stereo, select_backend, select_blend_mode, select_format,
    select_resolution, swapchain_create_info, DefaultXrPlugins, UVec2, ViewConfigurationView,
    VIEW_CONFIGURATION_TYPE_PRIMARY_STEREO,
};
use bevy_oxr::texture_format::TextureFormat;
use bevy_oxr::types::{
    BlendMode, ENVIRONMENT_BLEND_MODE_ADDITIVE, ENVIRONMENT_BLEND_MODE_ALPHA_BLEND,
    ENVIRONMENT_BLEND_MODE_OPAQUE,
};

fn view(rw: u32, rh: u32, mw: u32, mh: u32) -> ViewConfigurationView {
    ViewConfigurationView {
        recommended_image_rect_width: rw,
        max_image_rect_width: mw,
        recommended_image_rect_height: rh,
        max_image_rect_height: mh,
        recommended_swapchain_sample_count: 1,
        max_swapchain_sample_count: 4,
    }
}

#[test]
fn version_packs_major_minor_patch() {
    assert_eq!(Version(0, 12, 1).to_u32(), 0x000C_0001);
    assert_eq!(Version(1, 2, 3).to_u32(), 0x0102_0003);
    assert_eq!(Version::bevy(), Version(0, 12, 1));
    assert_eq!(Version::default().to_u32(), 0);
    assert_eq!(InitVersion(255, 255, 65535).to_u32(), u32::MAX);
    assert_eq!(InitVersion::bevy().to_u32(), 0x000C_0001);
}

#[test]
fn app_info_defaults() {
    let a = AppInfo::default();
    assert_eq!(a.name, "Bevy");
    assert_eq!(a.version, Version(0, 12, 1));
    let b = BorrowedAppInfo::default();
    assert_eq!(b.name, "");
    assert_eq!(b.version, InitVersion(0, 0, 0));
}

#[test]
fn default_plugins_ask_for_srgb_swapchain() {
    let p = DefaultXrPlugins.init_plugin();
    assert_eq!(p.formats, Some(vec![TextureFormat::Rgba8UnormSrgb]));
    assert!(p.backends.is_none());
    assert!(p.blend_modes.is_none());
    assert!(p.resolutions.is_none());
    assert!(!p.synchronous_pipeline_compilation);
}

#[test]
fn backend_is_available_with_vulkan_enablement() {
    let mut s = ExtensionSet::empty();
    assert!(GraphicsBackend::available_backends(&XrExtensions(ExtensionSet::empty())).is_empty());
    s.set(KHR_VULKAN_ENABLE2, true);
    let exts = XrExtensions(s);
    assert_eq!(GraphicsBackend::available_backends(&exts), vec![GraphicsBackend::Vulkan]);
    assert!(GraphicsBackend::Vulkan.is_available(&exts));
}

#[test]
fn backend_selection() {
    let available = vec![GraphicsBackend::Vulkan];
    assert!(matches!(select_backend(&None, &available), Ok(GraphicsBackend::Vulkan)));
    assert!(matches!(select_backend(&Some(vec![GraphicsBackend::Vulkan]), &available), Ok(GraphicsBackend::Vulkan)));
    assert!(matches!(select_backend(&Some(vec![]), &available), Err(XrError::NoAvailableBackend)));
    assert!(matches!(select_backend(&None, &vec![]), Err(XrError::NoAvailableBackend)));
}

#[test]
fn blend_mode_selection_takes_first_wanted_offer() {
    let available = vec![ENVIRONMENT_BLEND_MODE_OPAQUE, ENVIRONMENT_BLEND_MODE_ALPHA_BLEND];
    let wanted = Some(vec![ENVIRONMENT_BLEND_MODE_ADDITIVE, ENVIRONMENT_BLEND_MODE_ALPHA_BLEND, ENVIRONMENT_BLEND_MODE_OPAQUE]);
    assert_eq!(select_blend_mode(&wanted, &available).unwrap(), ENVIRONMENT_BLEND_MODE_ALPHA_BLEND);
    assert_eq!(select_blend_mode(&None, &available).unwrap(), ENVIRONMENT_BLEND_MODE_OPAQUE);
    let none_offered = Some(vec![ENVIRONMENT_BLEND_MODE_ADDITIVE]);
    assert!(matches!(select_blend_mode(&none_offered, &available), Err(XrError::NoAvailableBackend)));
}

#[test]
fn format_selection_takes_last_wanted_offer() {
    let available = vec![TextureFormat::Bgra8UnormSrgb, TextureFormat::Rgba8UnormSrgb, TextureFormat::Rgba16Float];
    let wanted = Some(vec![TextureFormat::Rgba8UnormSrgb, TextureFormat::R8Unorm, TextureFormat::Bgra8UnormSrgb]);
    assert_eq!(select_format(&wanted, &available).unwrap(), TextureFormat::Bgra8UnormSrgb);
    assert_eq!(select_format(&None, &available).unwrap(), TextureFormat::Bgra8UnormSrgb);
    assert!(matches!(
        select_format(&Some(vec![TextureFormat::R8Unorm]), &available),
        Err(XrError::NoAvailableFormat)
    ));
}

#[test]
fn primary_stereo_is_required() {
    assert!(require_primary_stereo(&vec![1, VIEW_CONFIGURATION_TYPE_PRIMARY_STEREO]).is_ok());
    assert!(matches!(require_primary_stereo(&vec![1]), Err(XrError::NoAvailableViewConfiguration)));
}

#[test]
fn resolution_prefers_exact_recommendation() {
    let views = vec![view(1000, 800, 2000, 1600), view(1200, 900, 1300, 1000)];
    let wanted = Some(vec![UVec2 { x: 1000, y: 800 }, UVec2 { x: 1250, y: 950 }]);
    let (res, v) = select_resolution(&wanted, &views).unwrap();
    assert_eq!(res, UVec2 { x: 1000, y: 800 });
    assert_eq!(v, views[0]);
}

#[test]
fn resolution_falls_back_to_last_that_fits() {
    let views = vec![view(1000, 800, 2000, 1600), view(1200, 900, 1300, 1000)];
    let wanted = Some(vec![UVec2 { x: 1250, y: 950 }, UVec2 { x: 1900, y: 1500 }]);
    let (res, v) = select_resolution(&wanted, &views).unwrap();
    assert_eq!(res, UVec2 { x: 1900, y: 1500 });
    assert_eq!(v, views[0]);
    let wanted = Some(vec![UVec2 { x: 1250, y: 950 }]);
    let (res, v) = select_resolution(&wanted, &views).unwrap();
    assert_eq!(res, UVec2 { x: 1250, y: 950 });
    assert_eq!(v, views[1]);
}

#[test]
fn resolution_without_wish_is_first_recommendation() {
    let views = vec![view(1000, 800, 2000, 1600), view(1200, 900, 1300, 1000)];
    let (res, v) = select_resolution(&None, &views).unwrap();
    assert_eq!(res, UVec2 { x: 1000, y: 800 });
    assert_eq!(v, views[0]);
    assert!(matches!(select_resolution(&None, &vec![]), Err(XrError::NoAvailableViewConfiguration)));
    let too_big = Some(vec![UVec2 { x: 5000, y: 5000 }]);
    assert!(matches!(select_resolution(&too_big, &views), Err(XrError::NoAvailableViewConfiguration)));
}

#[test]
fn swapchain_description() {
    let info = swapchain_create_info(TextureFormat::Rgba8UnormSrgb, UVec2 { x: 1920, y: 1080 });
    assert_eq!(info.create_flags, 0);
    assert_eq!(info.usage_flags, SWAPCHAIN_USAGE_COLOR_ATTACHMENT | SWAPCHAIN_USAGE_SAMPLED);
    assert_eq!(info.usage_flags, 33);
    assert_eq!(info.format, TextureFormat::Rgba8UnormSrgb);
    assert_eq!((info.sample_count, info.width, info.height), (1, 1920, 1080));
    assert_eq!((info.face_count, info.array_size, info.mip_count), (1, 2, 1));
    let raw = info.try_into_api(Some(43)).unwrap();
    assert_eq!((raw.format, raw.width, raw.array_size), (43, 1920, 2));
    let info: SwapchainCreateInfo = swapchain_create_info(TextureFormat::R8Unorm, UVec2 { x: 1, y: 1 });
    assert!(matches!(
        info.try_into_api(None),
        Err(XrError::UnsupportedTextureFormat(TextureFormat::R8Unorm))
    ));
}

#[test]
fn image_rect_covers_the_image() {
    let r = image_rect(UVec2 { x: 640, y: 480 });
    assert_eq!((r.x, r.y, r.width, r.height), (0, 0, 640, 480));
}

#[test]
fn instance_request_adds_backend_extensions() {
    let mut offered = ExtensionSet::empty();
    offered.set(KHR_VULKAN_ENABLE2, true);
    offered.set(EXT_HAND_TRACKING, true);
    let offered = XrExtensions(offered);
    let app = AppInfo::default();
    let req = instance_request(&app, XrExtensions::default(), GraphicsBackend::Vulkan, &offered, Platform::Other).unwrap();
    assert_eq!(req.application_name, "Bevy");
    assert_eq!(req.engine_name, "Bevy");
    assert_eq!(req.application_version, 0x000C_0001);
    assert_eq!(req.engine_version, 0x000C_0001);
    assert!(req.extensions.raw().get(KHR_VULKAN_ENABLE2));
    assert!(req.extensions.raw().get(EXT_HAND_TRACKING));
    assert!(!req.extensions.raw().get(KHR_D3D12_ENABLE));
    let nothing = XrExtensions(ExtensionSet::empty());
    assert!(matches!(
        instance_request(&app, XrExtensions::default(), GraphicsBackend::Vulkan, &nothing, Platform::Other),
        Err(XrError::UnavailableBackend(GraphicsBackend::Vulkan))
    ));
}

#[test]
fn unavailable_extensions_are_listed_with_tabs() {
    let e = UnavailableExts(vec!["XR_A".to_string(), "XR_B".to_string()]);
    assert_eq!(e.message(), "\tXR_A\tXR_B");
    let err: XrError = vec!["XR_C".to_string()].into();
    assert!(matches!(err, XrError::UnavailableExtensions(UnavailableExts(ref v)) if v == &vec!["XR_C".to_string()]));
}

#[test]
fn blend_mode_round_trip() {
    for m in [BlendMode::Opaque, BlendMode::Additive, BlendMode::AlphaBlend] {
        assert_eq!(BlendMode::from_environment_blend_mode(m.to_environment_blend_mode()), m);
    }
    assert_eq!(BlendMode::AlphaBlend.to_environment_blend_mode(), 3);
}

#[test]
fn layers_with_another_api_are_left_out() {
    let kept = layers_to_submit(GraphicsBackend::Vulkan, &vec![Some(GraphicsBackend::Vulkan), None, Some(GraphicsBackend::Vulkan)]);
    assert_eq!(kept, vec![0, 1, 2]);
    assert!(layers_to_submit(GraphicsBackend::Vulkan, &vec![]).is_empty());
}

#[test]
fn eye_views_and_display_time() {
    let (left, right) = eye_texture_views();
    assert_eq!((left.handle, left.base_array_layer, left.array_layer_count), (LEFT_XR_TEXTURE_HANDLE, 0, 1));
    assert_eq!((right.handle, right.base_array_layer, right.array_layer_count), (RIGHT_XR_TEXTURE_HANDLE, 1, 1));
    assert_eq!(LEFT_XR_TEXTURE_HANDLE, 1208214591);
    assert_eq!(frame_display_time(1_000_000, 11_111_111), 12_111_111);
}

#[test]
fn end_frame_layer_uses_first_view_twice() {
    let l = end_frame_layer(UVec2 { x: 800, y: 600 });
    assert_eq!(l.layer_flags, COMPOSITION_LAYER_BLEND_TEXTURE_SOURCE_ALPHA);
    assert_eq!(l.layer_flags, 2);
    assert_eq!((l.left.pose_view, l.left.image_array_index), (0, 0));
    assert_eq!((l.right.pose_view, l.right.image_array_index), (0, 0));
    assert_eq!((l.left.image_rect.width, l.left.image_rect.height), (800, 600));
}

#[test]
fn init_instance_request_intersects_first() {
    let mut offered = ExtensionSet::empty();
    offered.set(KHR_VULKAN_ENABLE2, true);
    let offered = XrExtensions(offered);
    let mut wanted = XrExtensions::default();
    wanted.enable_fb_passthrough();
    wanted.raw_mut().push_other("XR_X".to_string());
    let req = init_instance_request(&AppInfo::default(), wanted, GraphicsBackend::Vulkan, &offered, Platform::Other).unwrap();
    assert!(!req.extensions.raw().get(EXT_HAND_TRACKING));
    assert!(!req.extensions.raw().get(FB_PASSTHROUGH));
    assert!(req.extensions.raw().get(KHR_VULKAN_ENABLE2));
    assert!(req.extensions.raw().other.is_empty());
    assert!(matches!(
        init_instance_request(&AppInfo::default(), XrExtensions::default(), GraphicsBackend::Vulkan, &XrExtensions(ExtensionSet::empty()), Platform::Other),
        Err(XrError::UnavailableBackend(GraphicsBackend::Vulkan))
    ));
}

#[test]
fn platform_only_extensions_follow_the_build() {
    let both = || XrExtensions(set_of_flags(&[KHR_D3D12_ENABLE, EXT_HAND_TRACKING]));
    let other = both() & both();
    assert!(!other.raw().get(KHR_D3D12_ENABLE));
    assert!(other.raw().get(EXT_HAND_TRACKING));
    let windows = both().and_on(both(), Platform::Windows);
    assert!(windows.raw().get(KHR_D3D12_ENABLE));
    let android = both().or_on(both(), Platform::Android);
    assert!(!android.raw().get(KHR_D3D12_ENABLE));
    let android_ext = || XrExtensions(set_of_flags(&[KHR_ANDROID_CREATE_INSTANCE]));
    assert!(android_ext().or_on(XrExtensions(ExtensionSet::empty()), Platform::Android).raw().get(KHR_ANDROID_CREATE_INSTANCE));
    assert!(!android_ext().or(XrExtensions(ExtensionSet::empty())).raw().get(KHR_ANDROID_CREATE_INSTANCE));
}

fn set_of_flags(flags: &[usize]) -> ExtensionSet {
    let mut s = ExtensionSet::empty();
    for &f in flags {
        s.set(f, true);
    }
    s
}
