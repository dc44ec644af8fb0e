use ash::vk;
use bevy_oxr::ext_set::{Platform, KHR_D3D11_ENABLE};
use bevy_oxr::graphics::vulkan::{enabled_extensions_windows, vulkan_device_version_supported, vulkan_device_version_supported_android};
use bevy_oxr::graphics::{session_start_state, swapchain_end_layer};
use bevy_oxr::ext_set::{ExtensionSet, EXT_HAND_TRACKING, EXT_LOCAL_FLOOR, KHR_D3D12_ENABLE, KHR_VULKAN_ENABLE2};
use bevy_oxr::graphics::d3d12::{self, feature_level_supported, wgpu_to_d3d12};
use bevy_oxr::graphics::extensions::XrExtensions;
use bevy_oxr::graphics::vulkan::{self, vulkan_version_supported, wgpu_to_vulkan};
use bevy_oxr::graphics::{
    choose_backend, choose_blend_mode, swapchain_format, view_resolution, Backend, BackendChoiceError,
    XrAppInfo, XrPreferdBlendMode,
};
use bevy_oxr::openxr::{UVec2, ViewConfigurationView};
use bevy_oxr::texture_format::{AstcBlock, AstcChannel, TextureFormat};
use bevy_oxr::types::{ENVIRONMENT_BLEND_MODE_ADDITIVE, ENVIRONMENT_BLEND_MODE_ALPHA_BLEND, ENVIRONMENT_BLEND_MODE_OPAQUE};

fn exts(flags: &[usize]) -> XrExtensions {
    let mut s = ExtensionSet::empty();
    for &f in flags {
        s.set(f, true);
    }
    XrExtensions(s)
}

fn xr_version(major: u64, minor: u64, patch: u64) -> u64 {
    (major << 48) | (minor << 32) | patch
}

#[test]
fn defaults() {
    assert_eq!(XrPreferdBlendMode::default(), XrPreferdBlendMode::Opaque);
    assert_eq!(XrAppInfo::default().name, "Ambient");
}

#[test]
fn backend_choice_follows_preference_order() {
    let both = exts(&[KHR_VULKAN_ENABLE2, KHR_D3D12_ENABLE]);
    assert_eq!(choose_backend(&vec![Backend::D3D12, Backend::Vulkan], &both), Ok(Backend::D3D12));
    let vulkan_only = exts(&[KHR_VULKAN_ENABLE2]);
    assert_eq!(choose_backend(&vec![Backend::D3D12, Backend::Vulkan], &vulkan_only), Ok(Backend::Vulkan));
    assert_eq!(
        choose_backend(&vec![Backend::D3D12], &vulkan_only),
        Err(BackendChoiceError::NoSupportedBackend)
    );
    assert_eq!(choose_backend(&vec![], &both), Err(BackendChoiceError::NoBackendSelected));
}

#[test]
fn blend_mode_falls_back_to_opaque() {
    let offered = vec![ENVIRONMENT_BLEND_MODE_OPAQUE, ENVIRONMENT_BLEND_MODE_ALPHA_BLEND];
    assert_eq!(choose_blend_mode(XrPreferdBlendMode::AlphaBlend, &offered), ENVIRONMENT_BLEND_MODE_ALPHA_BLEND);
    assert_eq!(choose_blend_mode(XrPreferdBlendMode::Additive, &offered), ENVIRONMENT_BLEND_MODE_OPAQUE);
    assert_eq!(choose_blend_mode(XrPreferdBlendMode::Additive, &vec![ENVIRONMENT_BLEND_MODE_ADDITIVE]), ENVIRONMENT_BLEND_MODE_ADDITIVE);
    assert_eq!(choose_blend_mode(XrPreferdBlendMode::Opaque, &vec![]), ENVIRONMENT_BLEND_MODE_OPAQUE);
}

#[test]
fn enabled_extensions_add_the_backend() {
    let available = exts(&[KHR_VULKAN_ENABLE2, EXT_HAND_TRACKING, EXT_LOCAL_FLOOR]);
    let requested = XrExtensions::default();
    let enabled = vulkan::enabled_extensions(available, requested);
    assert!(enabled.get(KHR_VULKAN_ENABLE2));
    assert!(enabled.get(EXT_HAND_TRACKING));
    assert!(enabled.get(EXT_LOCAL_FLOOR));
    let available = exts(&[KHR_D3D12_ENABLE, EXT_HAND_TRACKING]);
    let enabled = d3d12::enabled_extensions(available, XrExtensions::default());
    assert!(enabled.get(KHR_D3D12_ENABLE));
    assert!(enabled.get(EXT_HAND_TRACKING));
    assert!(!enabled.get(EXT_LOCAL_FLOOR));
}

#[test]
fn vulkan_version_window() {
    assert!(vulkan_version_supported(xr_version(1, 0, 0), xr_version(1, 3, 0)));
    assert!(vulkan_version_supported(xr_version(1, 2, 0), xr_version(1, 0, 0)));
    assert!(!vulkan_version_supported(xr_version(1, 3, 0), xr_version(1, 3, 0)));
    assert!(!vulkan_version_supported(xr_version(0, 0, 1), xr_version(0, 9, 0)));
    assert!(vulkan_version_supported(0, xr_version(2, 0, 0)));
}

#[test]
fn d3d12_feature_level() {
    assert!(feature_level_supported(0xb000));
    assert!(feature_level_supported(0xa000));
    assert!(!feature_level_supported(0xc000));
}

#[test]
fn vulkan_formats() {
    assert_eq!(wgpu_to_vulkan(TextureFormat::R8Unorm), 9);
    assert_eq!(wgpu_to_vulkan(TextureFormat::Rgba8UnormSrgb), 43);
    assert_eq!(wgpu_to_vulkan(TextureFormat::Bgra8UnormSrgb), 50);
    assert_eq!(wgpu_to_vulkan(TextureFormat::Depth32Float), 126);
    assert_eq!(wgpu_to_vulkan(TextureFormat::NV12), 1_000_156_003);
    assert_eq!(
        wgpu_to_vulkan(TextureFormat::Astc { block: AstcBlock::B4x4, channel: AstcChannel::Unorm }),
        157
    );
    assert_eq!(
        wgpu_to_vulkan(TextureFormat::Astc { block: AstcBlock::B12x12, channel: AstcChannel::Hdr }),
        1_000_066_013
    );
}

#[test]
fn d3d12_formats() {
    assert_eq!(wgpu_to_d3d12(TextureFormat::R8Unorm), Some(61));
    assert_eq!(wgpu_to_d3d12(TextureFormat::Rgba8UnormSrgb), Some(29));
    assert_eq!(wgpu_to_d3d12(TextureFormat::Depth24Plus), Some(45));
    assert_eq!(wgpu_to_d3d12(TextureFormat::Stencil8), Some(45));
    assert_eq!(wgpu_to_d3d12(TextureFormat::NV12), Some(103));
    assert_eq!(wgpu_to_d3d12(TextureFormat::Etc2Rgb8Unorm), None);
    assert_eq!(
        wgpu_to_d3d12(TextureFormat::Astc { block: AstcBlock::B4x4, channel: AstcChannel::Unorm }),
        None
    );
}

#[test]
fn session_swapchain() {
    assert_eq!(swapchain_format(&None), TextureFormat::Rgba8UnormSrgb);
    assert_eq!(
        swapchain_format(&Some(vec![TextureFormat::Bgra8UnormSrgb, TextureFormat::Rgba8UnormSrgb])),
        TextureFormat::Bgra8UnormSrgb
    );
    let v = ViewConfigurationView {
        recommended_image_rect_width: 1440,
        max_image_rect_width: 2880,
        recommended_image_rect_height: 1600,
        max_image_rect_height: 3200,
        recommended_swapchain_sample_count: 4,
        max_swapchain_sample_count: 4,
    };
    let res = view_resolution(&vec![v]);
    assert_eq!(res, UVec2 { x: 1440, y: 1600 });
    let info = vulkan::swapchain_create_info(TextureFormat::Rgba8UnormSrgb, res);
    assert_eq!(info.format, 43);
    assert_eq!((info.create_flags, info.usage_flags, info.sample_count), (0, 33, 1));
    assert_eq!((info.width, info.height, info.face_count, info.array_size, info.mip_count), (1440, 1600, 1, 2, 1));
    let info = d3d12::swapchain_create_info(TextureFormat::Rgba8UnormSrgb, res);
    assert_eq!(info.format, 29);
    assert_eq!(info.array_size, 2);
}

#[test]
fn graphics_and_drops_overlay_in_vulkan_extensions() {
    let available = exts(&[KHR_VULKAN_ENABLE2, bevy_oxr::ext_set::EXTX_OVERLAY]);
    let requested = exts(&[bevy_oxr::ext_set::EXTX_OVERLAY]);
    let enabled = vulkan::enabled_extensions(available, requested);
    assert!(!enabled.get(bevy_oxr::ext_set::EXTX_OVERLAY));
    assert!(enabled.get(KHR_VULKAN_ENABLE2));
}

#[test]
fn android_vulkan_variants() {
    let available = exts(&[KHR_VULKAN_ENABLE2, EXT_HAND_TRACKING]);
    let enabled = vulkan::enabled_extensions_android(available, XrExtensions::default());
    assert!(enabled.get(bevy_oxr::ext_set::KHR_ANDROID_CREATE_INSTANCE));
    assert!(enabled.get(KHR_VULKAN_ENABLE2));
    assert!(enabled.get(EXT_HAND_TRACKING));
    assert!(vulkan::vulkan_version_supported_android(xr_version(1, 1, 0), xr_version(1, 3, 0)));
    assert!(!vulkan::vulkan_version_supported_android(xr_version(1, 2, 0), xr_version(1, 3, 0)));
    assert!(vulkan_version_supported(xr_version(1, 2, 0), xr_version(1, 3, 0)));
}

#[test]
fn backend_choice_messages() {
    let prefs = vec![Backend::Vulkan, Backend::D3D12];
    assert_eq!(
        BackendChoiceError::NoSupportedBackend.message(&prefs),
        "No selected backend was supported by the runtime. Selected: [Vulkan, D3D12]"
    );
    assert_eq!(format!("{:?}", prefs), "[Vulkan, D3D12]");
    assert_eq!(BackendChoiceError::NoSupportedBackend.message(&vec![Backend::D3D12]), "No selected backend was supported by the runtime. Selected: [D3D12]");
    assert_eq!(BackendChoiceError::NoBackendSelected.message(&vec![]), "Cannot initialize with no backend selected");
}

#[test]
fn session_start_and_end_layers() {
    let s = session_start_state();
    assert!(!s.running && s.should_render);
    assert_eq!((s.view_count, s.predicted_display_time_ns, s.predicted_display_period_ns, s.image_index), (0, 1, 1, 0));
    assert!(swapchain_end_layer(0, UVec2 { x: 10, y: 20 }).is_none());
    let l = swapchain_end_layer(2, UVec2 { x: 10, y: 20 }).unwrap();
    assert_eq!(l.layer_flags, 0);
    assert_eq!((l.left.pose_view, l.left.image_array_index), (0, 0));
    assert_eq!((l.right.pose_view, l.right.image_array_index), (1, 1));
    assert_eq!((l.right.image_rect.width, l.right.image_rect.height), (10, 20));
}

#[test]
fn graphics_platform_variants() {
    let available = exts(&[KHR_VULKAN_ENABLE2, KHR_D3D11_ENABLE]);
    let requested = exts(&[KHR_D3D11_ENABLE]);
    let enabled = enabled_extensions_windows(available, requested);
    assert!(enabled.get(KHR_D3D11_ENABLE));
    let enabled = vulkan::enabled_extensions(exts(&[KHR_VULKAN_ENABLE2, KHR_D3D11_ENABLE]), exts(&[KHR_D3D11_ENABLE]));
    assert!(!enabled.get(KHR_D3D11_ENABLE));
    let a = exts(&[KHR_D3D12_ENABLE]);
    let b = exts(&[KHR_D3D12_ENABLE]);
    assert!(!(a & b).raw().get(KHR_D3D12_ENABLE));
    let a = exts(&[KHR_D3D12_ENABLE]);
    let b = exts(&[KHR_D3D12_ENABLE]);
    assert!(a.and_on(b, Platform::Windows).raw().get(KHR_D3D12_ENABLE));
    let a = exts(&[KHR_D3D12_ENABLE]);
    let b = exts(&[KHR_D3D12_ENABLE]);
    assert!(!a.and_on(b, Platform::Android).raw().get(KHR_D3D12_ENABLE));
}

#[test]
fn vulkan_device_version() {
    assert!(vulkan_device_version_supported(vk::make_api_version(0, 1, 2, 0)));
    assert!(vulkan_device_version_supported(vk::make_api_version(0, 1, 3, 250)));
    assert!(!vulkan_device_version_supported(vk::make_api_version(0, 1, 1, 9)));
    assert!(vulkan_device_version_supported_android(vk::make_api_version(0, 1, 1, 0)));
    assert!(!vulkan_device_version_supported_android(vk::make_api_version(0, 1, 0, 3)));
}

#[test]
fn vulkan_table_matches_ash() {
    let table = [
        (TextureFormat::R8Unorm, vk::Format::R8_UNORM),
        (TextureFormat::R8Snorm, vk::Format::R8_SNORM),
        (TextureFormat::R8Uint, vk::Format::R8_UINT),
        (TextureFormat::R8Sint, vk::Format::R8_SINT),
        (TextureFormat::R16Uint, vk::Format::R16_UINT),
        (TextureFormat::R16Sint, vk::Format::R16_SINT),
        (TextureFormat::R16Unorm, vk::Format::R16_UNORM),
        (TextureFormat::R16Snorm, vk::Format::R16_SNORM),
        (TextureFormat::R16Float, vk::Format::R16_SFLOAT),
        (TextureFormat::Rg8Unorm, vk::Format::R8G8_UNORM),
        (TextureFormat::Rg8Snorm, vk::Format::R8G8_SNORM),
        (TextureFormat::Rg8Uint, vk::Format::R8G8_UINT),
        (TextureFormat::Rg8Sint, vk::Format::R8G8_SINT),
        (TextureFormat::Rg16Unorm, vk::Format::R16G16_UNORM),
        (TextureFormat::Rg16Snorm, vk::Format::R16G16_SNORM),
        (TextureFormat::R32Uint, vk::Format::R32_UINT),
        (TextureFormat::R32Sint, vk::Format::R32_SINT),
        (TextureFormat::R32Float, vk::Format::R32_SFLOAT),
        (TextureFormat::Rg16Uint, vk::Format::R16G16_UINT),
        (TextureFormat::Rg16Sint, vk::Format::R16G16_SINT),
        (TextureFormat::Rg16Float, vk::Format::R16G16_SFLOAT),
        (TextureFormat::Rgba8Unorm, vk::Format::R8G8B8A8_UNORM),
        (TextureFormat::Rgba8UnormSrgb, vk::Format::R8G8B8A8_SRGB),
        (TextureFormat::Bgra8UnormSrgb, vk::Format::B8G8R8A8_SRGB),
        (TextureFormat::Rgba8Snorm, vk::Format::R8G8B8A8_SNORM),
        (TextureFormat::Bgra8Unorm, vk::Format::B8G8R8A8_UNORM),
        (TextureFormat::Rgba8Uint, vk::Format::R8G8B8A8_UINT),
        (TextureFormat::Rgba8Sint, vk::Format::R8G8B8A8_SINT),
        (TextureFormat::Rgb10a2Uint, vk::Format::A2B10G10R10_UINT_PACK32),
        (TextureFormat::Rgb10a2Unorm, vk::Format::A2B10G10R10_UNORM_PACK32),
        (TextureFormat::Rg11b10Float, vk::Format::B10G11R11_UFLOAT_PACK32),
        (TextureFormat::Rg32Uint, vk::Format::R32G32_UINT),
        (TextureFormat::Rg32Sint, vk::Format::R32G32_SINT),
        (TextureFormat::Rg32Float, vk::Format::R32G32_SFLOAT),
        (TextureFormat::Rgba16Uint, vk::Format::R16G16B16A16_UINT),
        (TextureFormat::Rgba16Sint, vk::Format::R16G16B16A16_SINT),
        (TextureFormat::Rgba16Unorm, vk::Format::R16G16B16A16_UNORM),
        (TextureFormat::Rgba16Snorm, vk::Format::R16G16B16A16_SNORM),
        (TextureFormat::Rgba16Float, vk::Format::R16G16B16A16_SFLOAT),
        (TextureFormat::Rgba32Uint, vk::Format::R32G32B32A32_UINT),
        (TextureFormat::Rgba32Sint, vk::Format::R32G32B32A32_SINT),
        (TextureFormat::Rgba32Float, vk::Format::R32G32B32A32_SFLOAT),
        (TextureFormat::Depth32Float, vk::Format::D32_SFLOAT),
        (TextureFormat::Depth32FloatStencil8, vk::Format::D32_SFLOAT_S8_UINT),
        (TextureFormat::Depth16Unorm, vk::Format::D16_UNORM),
        (TextureFormat::NV12, vk::Format::G8_B8R8_2PLANE_420_UNORM),
        (TextureFormat::Rgb9e5Ufloat, vk::Format::E5B9G9R9_UFLOAT_PACK32),
        (TextureFormat::Bc1RgbaUnorm, vk::Format::BC1_RGBA_UNORM_BLOCK),
        (TextureFormat::Bc1RgbaUnormSrgb, vk::Format::BC1_RGBA_SRGB_BLOCK),
        (TextureFormat::Bc2RgbaUnorm, vk::Format::BC2_UNORM_BLOCK),
        (TextureFormat::Bc2RgbaUnormSrgb, vk::Format::BC2_SRGB_BLOCK),
        (TextureFormat::Bc3RgbaUnorm, vk::Format::BC3_UNORM_BLOCK),
        (TextureFormat::Bc3RgbaUnormSrgb, vk::Format::BC3_SRGB_BLOCK),
        (TextureFormat::Bc4RUnorm, vk::Format::BC4_UNORM_BLOCK),
        (TextureFormat::Bc4RSnorm, vk::Format::BC4_SNORM_BLOCK),
        (TextureFormat::Bc5RgUnorm, vk::Format::BC5_UNORM_BLOCK),
        (TextureFormat::Bc5RgSnorm, vk::Format::BC5_SNORM_BLOCK),
        (TextureFormat::Bc6hRgbUfloat, vk::Format::BC6H_UFLOAT_BLOCK),
        (TextureFormat::Bc6hRgbFloat, vk::Format::BC6H_SFLOAT_BLOCK),
        (TextureFormat::Bc7RgbaUnorm, vk::Format::BC7_UNORM_BLOCK),
        (TextureFormat::Bc7RgbaUnormSrgb, vk::Format::BC7_SRGB_BLOCK),
        (TextureFormat::Etc2Rgb8Unorm, vk::Format::ETC2_R8G8B8_UNORM_BLOCK),
        (TextureFormat::Etc2Rgb8UnormSrgb, vk::Format::ETC2_R8G8B8_SRGB_BLOCK),
        (TextureFormat::Etc2Rgb8A1Unorm, vk::Format::ETC2_R8G8B8A1_UNORM_BLOCK),
        (TextureFormat::Etc2Rgb8A1UnormSrgb, vk::Format::ETC2_R8G8B8A1_SRGB_BLOCK),
        (TextureFormat::Etc2Rgba8Unorm, vk::Format::ETC2_R8G8B8A8_UNORM_BLOCK),
        (TextureFormat::Etc2Rgba8UnormSrgb, vk::Format::ETC2_R8G8B8A8_SRGB_BLOCK),
        (TextureFormat::EacR11Unorm, vk::Format::EAC_R11_UNORM_BLOCK),
        (TextureFormat::EacR11Snorm, vk::Format::EAC_R11_SNORM_BLOCK),
        (TextureFormat::EacRg11Unorm, vk::Format::EAC_R11G11_UNORM_BLOCK),
        (TextureFormat::EacRg11Snorm, vk::Format::EAC_R11G11_SNORM_BLOCK),
        (TextureFormat::Astc { block: AstcBlock::B4x4, channel: AstcChannel::Unorm }, vk::Format::ASTC_4X4_UNORM_BLOCK),
        (TextureFormat::Astc { block: AstcBlock::B5x4, channel: AstcChannel::Unorm }, vk::Format::ASTC_5X4_UNORM_BLOCK),
        (TextureFormat::Astc { block: AstcBlock::B5x5, channel: AstcChannel::Unorm }, vk::Format::ASTC_5X5_UNORM_BLOCK),
        (TextureFormat::Astc { block: AstcBlock::B6x5, channel: AstcChannel::Unorm }, vk::Format::ASTC_6X5_UNORM_BLOCK),
        (TextureFormat::Astc { block: AstcBlock::B6x6, channel: AstcChannel::Unorm }, vk::Format::ASTC_6X6_UNORM_BLOCK),
        (TextureFormat::Astc { block: AstcBlock::B8x5, channel: AstcChannel::Unorm }, vk::Format::ASTC_8X5_UNORM_BLOCK),
        (TextureFormat::Astc { block: AstcBlock::B8x6, channel: AstcChannel::Unorm }, vk::Format::ASTC_8X6_UNORM_BLOCK),
        (TextureFormat::Astc { block: AstcBlock::B8x8, channel: AstcChannel::Unorm }, vk::Format::ASTC_8X8_UNORM_BLOCK),
        (TextureFormat::Astc { block: AstcBlock::B10x5, channel: AstcChannel::Unorm }, vk::Format::ASTC_10X5_UNORM_BLOCK),
        (TextureFormat::Astc { block: AstcBlock::B10x6, channel: AstcChannel::Unorm }, vk::Format::ASTC_10X6_UNORM_BLOCK),
        (TextureFormat::Astc { block: AstcBlock::B10x8, channel: AstcChannel::Unorm }, vk::Format::ASTC_10X8_UNORM_BLOCK),
        (TextureFormat::Astc { block: AstcBlock::B10x10, channel: AstcChannel::Unorm }, vk::Format::ASTC_10X10_UNORM_BLOCK),
        (TextureFormat::Astc { block: AstcBlock::B12x10, channel: AstcChannel::Unorm }, vk::Format::ASTC_12X10_UNORM_BLOCK),
        (TextureFormat::Astc { block: AstcBlock::B12x12, channel: AstcChannel::Unorm }, vk::Format::ASTC_12X12_UNORM_BLOCK),
        (TextureFormat::Astc { block: AstcBlock::B4x4, channel: AstcChannel::UnormSrgb }, vk::Format::ASTC_4X4_SRGB_BLOCK),
        (TextureFormat::Astc { block: AstcBlock::B5x4, channel: AstcChannel::UnormSrgb }, vk::Format::ASTC_5X4_SRGB_BLOCK),
        (TextureFormat::Astc { block: AstcBlock::B5x5, channel: AstcChannel::UnormSrgb }, vk::Format::ASTC_5X5_SRGB_BLOCK),
        (TextureFormat::Astc { block: AstcBlock::B6x5, channel: AstcChannel::UnormSrgb }, vk::Format::ASTC_6X5_SRGB_BLOCK),
        (TextureFormat::Astc { block: AstcBlock::B6x6, channel: AstcChannel::UnormSrgb }, vk::Format::ASTC_6X6_SRGB_BLOCK),
        (TextureFormat::Astc { block: AstcBlock::B8x5, channel: AstcChannel::UnormSrgb }, vk::Format::ASTC_8X5_SRGB_BLOCK),
        (TextureFormat::Astc { block: AstcBlock::B8x6, channel: AstcChannel::UnormSrgb }, vk::Format::ASTC_8X6_SRGB_BLOCK),
        (TextureFormat::Astc { block: AstcBlock::B8x8, channel: AstcChannel::UnormSrgb }, vk::Format::ASTC_8X8_SRGB_BLOCK),
        (TextureFormat::Astc { block: AstcBlock::B10x5, channel: AstcChannel::UnormSrgb }, vk::Format::ASTC_10X5_SRGB_BLOCK),
        (TextureFormat::Astc { block: AstcBlock::B10x6, channel: AstcChannel::UnormSrgb }, vk::Format::ASTC_10X6_SRGB_BLOCK),
        (TextureFormat::Astc { block: AstcBlock::B10x8, channel: AstcChannel::UnormSrgb }, vk::Format::ASTC_10X8_SRGB_BLOCK),
        (TextureFormat::Astc { block: AstcBlock::B10x10, channel: AstcChannel::UnormSrgb }, vk::Format::ASTC_10X10_SRGB_BLOCK),
        (TextureFormat::Astc { block: AstcBlock::B12x10, channel: AstcChannel::UnormSrgb }, vk::Format::ASTC_12X10_SRGB_BLOCK),
        (TextureFormat::Astc { block: AstcBlock::B12x12, channel: AstcChannel::UnormSrgb }, vk::Format::ASTC_12X12_SRGB_BLOCK),
        (TextureFormat::Astc { block: AstcBlock::B4x4, channel: AstcChannel::Hdr }, vk::Format::ASTC_4X4_SFLOAT_BLOCK_EXT),
        (TextureFormat::Astc { block: AstcBlock::B5x4, channel: AstcChannel::Hdr }, vk::Format::ASTC_5X4_SFLOAT_BLOCK_EXT),
        (TextureFormat::Astc { block: AstcBlock::B5x5, channel: AstcChannel::Hdr }, vk::Format::ASTC_5X5_SFLOAT_BLOCK_EXT),
        (TextureFormat::Astc { block: AstcBlock::B6x5, channel: AstcChannel::Hdr }, vk::Format::ASTC_6X5_SFLOAT_BLOCK_EXT),
        (TextureFormat::Astc { block: AstcBlock::B6x6, channel: AstcChannel::Hdr }, vk::Format::ASTC_6X6_SFLOAT_BLOCK_EXT),
        (TextureFormat::Astc { block: AstcBlock::B8x5, channel: AstcChannel::Hdr }, vk::Format::ASTC_8X5_SFLOAT_BLOCK_EXT),
        (TextureFormat::Astc { block: AstcBlock::B8x6, channel: AstcChannel::Hdr }, vk::Format::ASTC_8X6_SFLOAT_BLOCK_EXT),
        (TextureFormat::Astc { block: AstcBlock::B8x8, channel: AstcChannel::Hdr }, vk::Format::ASTC_8X8_SFLOAT_BLOCK_EXT),
        (TextureFormat::Astc { block: AstcBlock::B10x5, channel: AstcChannel::Hdr }, vk::Format::ASTC_10X5_SFLOAT_BLOCK_EXT),
        (TextureFormat::Astc { block: AstcBlock::B10x6, channel: AstcChannel::Hdr }, vk::Format::ASTC_10X6_SFLOAT_BLOCK_EXT),
        (TextureFormat::Astc { block: AstcBlock::B10x8, channel: AstcChannel::Hdr }, vk::Format::ASTC_10X8_SFLOAT_BLOCK_EXT),
        (TextureFormat::Astc { block: AstcBlock::B10x10, channel: AstcChannel::Hdr }, vk::Format::ASTC_10X10_SFLOAT_BLOCK_EXT),
        (TextureFormat::Astc { block: AstcBlock::B12x10, channel: AstcChannel::Hdr }, vk::Format::ASTC_12X10_SFLOAT_BLOCK_EXT),
        (TextureFormat::Astc { block: AstcBlock::B12x12, channel: AstcChannel::Hdr }, vk::Format::ASTC_12X12_SFLOAT_BLOCK_EXT),
    ];
    for (format, expected) in table {
        assert_eq!(wgpu_to_vulkan(format), expected.as_raw(), "{:?}", format);
    }
}
