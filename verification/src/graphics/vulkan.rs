//! The decisions of the Vulkan backend: the extensions its instance is created
//! with and the Vulkan version it targets.

use vstd::prelude::*;
use crate::ext_set::{ExtensionSet, Platform, KHR_ANDROID_CREATE_INSTANCE, KHR_VULKAN_ENABLE2, names_kept};
use crate::graphics::extensions::{XrExtensions, and_flags};
use crate::graphics::{RawSwapchainCreateInfo, raw_swapchain_create_info, raw_swapchain_info};
use crate::openxr::UVec2;
use crate::texture_format::{AstcBlock, AstcChannel, TextureFormat};

verus! {

/// The extensions to create a Vulkan instance with, in a build for
/// `platform`: those both available and requested (as `&` keeps them there),
/// and Vulkan enablement; on Android also Android instance creation. The
/// runtime must offer Vulkan enablement.
pub open spec fn vulkan_instance_flags(available: Seq<bool>, requested: Seq<bool>, platform: Platform) -> Seq<bool> {
    let base = and_flags(available, requested, platform).update(KHR_VULKAN_ENABLE2 as int, true);
    if platform == Platform::Android {
        base.update(KHR_ANDROID_CREATE_INSTANCE as int, true)
    } else {
        base
    }
}

/// The extensions to create a Vulkan instance with, in a build for
/// `platform`; see [`vulkan_instance_flags`].
pub fn enabled_extensions_on(
    available_extensions: XrExtensions,
    requested_extensions: XrExtensions,
    platform: Platform,
) -> (r: ExtensionSet)
    requires
        available_extensions.0.flags@[KHR_VULKAN_ENABLE2 as int],
    ensures
        r.flags@ == vulkan_instance_flags(available_extensions.0.flags@, requested_extensions.0.flags@, platform),
        r.others() == names_kept(available_extensions.0.others(), requested_extensions.0.others()),
{
    let mut enabled: ExtensionSet = available_extensions.and_on(requested_extensions, platform).into();
    enabled.flags[KHR_VULKAN_ENABLE2] = true;
    if platform == Platform::Android {
        enabled.flags[KHR_ANDROID_CREATE_INSTANCE] = true;
    }
    enabled
}

/// The extensions to create a Vulkan instance with, in a build for a platform
/// other than Windows and Android; see [`vulkan_instance_flags`].
pub fn enabled_extensions(available_extensions: XrExtensions, requested_extensions: XrExtensions) -> (r: ExtensionSet)
    requires
        available_extensions.0.flags@[KHR_VULKAN_ENABLE2 as int],
    ensures
        r.flags@ == vulkan_instance_flags(available_extensions.0.flags@, requested_extensions.0.flags@, Platform::Other),
        r.others() == names_kept(available_extensions.0.others(), requested_extensions.0.others()),
{
    enabled_extensions_on(available_extensions, requested_extensions, Platform::Other)
}

/// The extensions to create a Vulkan instance with in an Android build; see
/// [`vulkan_instance_flags`].
pub fn enabled_extensions_android(available_extensions: XrExtensions, requested_extensions: XrExtensions) -> (r: ExtensionSet)
    requires
        available_extensions.0.flags@[KHR_VULKAN_ENABLE2 as int],
    ensures
        r.flags@ == vulkan_instance_flags(available_extensions.0.flags@, requested_extensions.0.flags@, Platform::Android),
        r.others() == names_kept(available_extensions.0.others(), requested_extensions.0.others()),
{
    enabled_extensions_on(available_extensions, requested_extensions, Platform::Android)
}

/// The extensions to create a Vulkan instance with in a Windows build; see
/// [`vulkan_instance_flags`].
pub fn enabled_extensions_windows(available_extensions: XrExtensions, requested_extensions: XrExtensions) -> (r: ExtensionSet)
    requires
        available_extensions.0.flags@[KHR_VULKAN_ENABLE2 as int],
    ensures
        r.flags@ == vulkan_instance_flags(available_extensions.0.flags@, requested_extensions.0.flags@, Platform::Windows),
        r.others() == names_kept(available_extensions.0.others(), requested_extensions.0.others()),
{
    enabled_extensions_on(available_extensions, requested_extensions, Platform::Windows)
}

/// The raw value of `openxr::Version::new(major, minor, patch)`: major in bits
/// 48..64, minor in bits 32..48, patch in bits 0..32, as the crate's source packs it.
#[verifier::external_body]
fn xr_version(major: u16, minor: u16, patch: u32) -> (r: u64)
    ensures
        r as int == major as int * 0x1_0000_0000_0000 + minor as int * 0x1_0000_0000 + patch as int,
{
    openxr::Version::new(major, minor, patch).into_raw()
}

/// `openxr::Version::major` of the version with raw value `raw`: its top 16 bits,
/// as the crate's source computes it.
#[verifier::external_body]
fn xr_version_major(raw: u64) -> (r: u16)
    ensures
        r as int == raw as int / 0x1_0000_0000_0000,
{
    openxr::Version::from_raw(raw).major()
}

/// The raw OpenXR version of the Vulkan API that the backend targets, 1.2.0.
pub open spec fn vulkan_target_version() -> int {
    0x1_0000_0000_0000int + 2 * 0x1_0000_0000int
}

/// Whether the runtime accepts the Vulkan version the backend targets, given the
/// raw OpenXR versions of the oldest and newest Vulkan it supports: the target
/// is at least the oldest, and its major version is at most the newest's.
pub fn vulkan_version_supported(min_api_version_supported: u64, max_api_version_supported: u64) -> (r: bool)
    ensures
        r == (vulkan_target_version() >= min_api_version_supported
            && 1 <= max_api_version_supported as int / 0x1_0000_0000_0000),
{
    let target = xr_version(1, 2, 0);
    let below_min = target < min_api_version_supported;
    let above_max = xr_version_major(target) > xr_version_major(max_api_version_supported);
    !(below_min || above_max)
}

// Raw `VkFormat` values.

/// No format.
pub const VK_FORMAT_UNDEFINED: i32 = 0;

pub const VK_FORMAT_R8_UNORM: i32 = 9;
pub const VK_FORMAT_R8_SNORM: i32 = 10;
pub const VK_FORMAT_R8_UINT: i32 = 13;
pub const VK_FORMAT_R8_SINT: i32 = 14;
pub const VK_FORMAT_R16_UINT: i32 = 74;
pub const VK_FORMAT_R16_SINT: i32 = 75;
pub const VK_FORMAT_R16_UNORM: i32 = 70;
pub const VK_FORMAT_R16_SNORM: i32 = 71;
pub const VK_FORMAT_R16_SFLOAT: i32 = 76;
pub const VK_FORMAT_R8G8_UNORM: i32 = 16;
pub const VK_FORMAT_R8G8_SNORM: i32 = 17;
pub const VK_FORMAT_R8G8_UINT: i32 = 20;
pub const VK_FORMAT_R8G8_SINT: i32 = 21;
pub const VK_FORMAT_R16G16_UNORM: i32 = 77;
pub const VK_FORMAT_R16G16_SNORM: i32 = 78;
pub const VK_FORMAT_R32_UINT: i32 = 98;
pub const VK_FORMAT_R32_SINT: i32 = 99;
pub const VK_FORMAT_R32_SFLOAT: i32 = 100;
pub const VK_FORMAT_R16G16_UINT: i32 = 81;
pub const VK_FORMAT_R16G16_SINT: i32 = 82;
pub const VK_FORMAT_R16G16_SFLOAT: i32 = 83;
pub const VK_FORMAT_R8G8B8A8_UNORM: i32 = 37;
pub const VK_FORMAT_R8G8B8A8_SRGB: i32 = 43;
pub const VK_FORMAT_B8G8R8A8_SRGB: i32 = 50;
pub const VK_FORMAT_R8G8B8A8_SNORM: i32 = 38;
pub const VK_FORMAT_B8G8R8A8_UNORM: i32 = 44;
pub const VK_FORMAT_R8G8B8A8_UINT: i32 = 41;
pub const VK_FORMAT_R8G8B8A8_SINT: i32 = 42;
pub const VK_FORMAT_A2B10G10R10_UINT_PACK32: i32 = 68;
pub const VK_FORMAT_A2B10G10R10_UNORM_PACK32: i32 = 64;
pub const VK_FORMAT_B10G11R11_UFLOAT_PACK32: i32 = 122;
pub const VK_FORMAT_R32G32_UINT: i32 = 101;
pub const VK_FORMAT_R32G32_SINT: i32 = 102;
pub const VK_FORMAT_R32G32_SFLOAT: i32 = 103;
pub const VK_FORMAT_R16G16B16A16_UINT: i32 = 95;
pub const VK_FORMAT_R16G16B16A16_SINT: i32 = 96;
pub const VK_FORMAT_R16G16B16A16_UNORM: i32 = 91;
pub const VK_FORMAT_R16G16B16A16_SNORM: i32 = 92;
pub const VK_FORMAT_R16G16B16A16_SFLOAT: i32 = 97;
pub const VK_FORMAT_R32G32B32A32_UINT: i32 = 107;
pub const VK_FORMAT_R32G32B32A32_SINT: i32 = 108;
pub const VK_FORMAT_R32G32B32A32_SFLOAT: i32 = 109;
pub const VK_FORMAT_D32_SFLOAT: i32 = 126;
pub const VK_FORMAT_D32_SFLOAT_S8_UINT: i32 = 130;
pub const VK_FORMAT_D16_UNORM: i32 = 124;
pub const VK_FORMAT_G8_B8R8_2PLANE_420_UNORM: i32 = 1000156003;
pub const VK_FORMAT_E5B9G9R9_UFLOAT_PACK32: i32 = 123;
pub const VK_FORMAT_BC1_RGBA_UNORM_BLOCK: i32 = 133;
pub const VK_FORMAT_BC1_RGBA_SRGB_BLOCK: i32 = 134;
pub const VK_FORMAT_BC2_UNORM_BLOCK: i32 = 135;
pub const VK_FORMAT_BC2_SRGB_BLOCK: i32 = 136;
pub const VK_FORMAT_BC3_UNORM_BLOCK: i32 = 137;
pub const VK_FORMAT_BC3_SRGB_BLOCK: i32 = 138;
pub const VK_FORMAT_BC4_UNORM_BLOCK: i32 = 139;
pub const VK_FORMAT_BC4_SNORM_BLOCK: i32 = 140;
pub const VK_FORMAT_BC5_UNORM_BLOCK: i32 = 141;
pub const VK_FORMAT_BC5_SNORM_BLOCK: i32 = 142;
pub const VK_FORMAT_BC6H_UFLOAT_BLOCK: i32 = 143;
pub const VK_FORMAT_BC6H_SFLOAT_BLOCK: i32 = 144;
pub const VK_FORMAT_BC7_UNORM_BLOCK: i32 = 145;
pub const VK_FORMAT_BC7_SRGB_BLOCK: i32 = 146;
pub const VK_FORMAT_ETC2_R8G8B8_UNORM_BLOCK: i32 = 147;
pub const VK_FORMAT_ETC2_R8G8B8_SRGB_BLOCK: i32 = 148;
pub const VK_FORMAT_ETC2_R8G8B8A1_UNORM_BLOCK: i32 = 149;
pub const VK_FORMAT_ETC2_R8G8B8A1_SRGB_BLOCK: i32 = 150;
pub const VK_FORMAT_ETC2_R8G8B8A8_UNORM_BLOCK: i32 = 151;
pub const VK_FORMAT_ETC2_R8G8B8A8_SRGB_BLOCK: i32 = 152;
pub const VK_FORMAT_EAC_R11_UNORM_BLOCK: i32 = 153;
pub const VK_FORMAT_EAC_R11_SNORM_BLOCK: i32 = 154;
pub const VK_FORMAT_EAC_R11G11_UNORM_BLOCK: i32 = 155;
pub const VK_FORMAT_EAC_R11G11_SNORM_BLOCK: i32 = 156;
pub const VK_FORMAT_ASTC_4X4_UNORM_BLOCK: i32 = 157;
pub const VK_FORMAT_ASTC_5X4_UNORM_BLOCK: i32 = 159;
pub const VK_FORMAT_ASTC_5X5_UNORM_BLOCK: i32 = 161;
pub const VK_FORMAT_ASTC_6X5_UNORM_BLOCK: i32 = 163;
pub const VK_FORMAT_ASTC_6X6_UNORM_BLOCK: i32 = 165;
pub const VK_FORMAT_ASTC_8X5_UNORM_BLOCK: i32 = 167;
pub const VK_FORMAT_ASTC_8X6_UNORM_BLOCK: i32 = 169;
pub const VK_FORMAT_ASTC_8X8_UNORM_BLOCK: i32 = 171;
pub const VK_FORMAT_ASTC_10X5_UNORM_BLOCK: i32 = 173;
pub const VK_FORMAT_ASTC_10X6_UNORM_BLOCK: i32 = 175;
pub const VK_FORMAT_ASTC_10X8_UNORM_BLOCK: i32 = 177;
pub const VK_FORMAT_ASTC_10X10_UNORM_BLOCK: i32 = 179;
pub const VK_FORMAT_ASTC_12X10_UNORM_BLOCK: i32 = 181;
pub const VK_FORMAT_ASTC_12X12_UNORM_BLOCK: i32 = 183;
pub const VK_FORMAT_ASTC_4X4_SRGB_BLOCK: i32 = 158;
pub const VK_FORMAT_ASTC_5X4_SRGB_BLOCK: i32 = 160;
pub const VK_FORMAT_ASTC_5X5_SRGB_BLOCK: i32 = 162;
pub const VK_FORMAT_ASTC_6X5_SRGB_BLOCK: i32 = 164;
pub const VK_FORMAT_ASTC_6X6_SRGB_BLOCK: i32 = 166;
pub const VK_FORMAT_ASTC_8X5_SRGB_BLOCK: i32 = 168;
pub const VK_FORMAT_ASTC_8X6_SRGB_BLOCK: i32 = 170;
pub const VK_FORMAT_ASTC_8X8_SRGB_BLOCK: i32 = 172;
pub const VK_FORMAT_ASTC_10X5_SRGB_BLOCK: i32 = 174;
pub const VK_FORMAT_ASTC_10X6_SRGB_BLOCK: i32 = 176;
pub const VK_FORMAT_ASTC_10X8_SRGB_BLOCK: i32 = 178;
pub const VK_FORMAT_ASTC_10X10_SRGB_BLOCK: i32 = 180;
pub const VK_FORMAT_ASTC_12X10_SRGB_BLOCK: i32 = 182;
pub const VK_FORMAT_ASTC_12X12_SRGB_BLOCK: i32 = 184;
pub const VK_FORMAT_ASTC_4X4_SFLOAT_BLOCK_EXT: i32 = 1000066000;
pub const VK_FORMAT_ASTC_5X4_SFLOAT_BLOCK_EXT: i32 = 1000066001;
pub const VK_FORMAT_ASTC_5X5_SFLOAT_BLOCK_EXT: i32 = 1000066002;
pub const VK_FORMAT_ASTC_6X5_SFLOAT_BLOCK_EXT: i32 = 1000066003;
pub const VK_FORMAT_ASTC_6X6_SFLOAT_BLOCK_EXT: i32 = 1000066004;
pub const VK_FORMAT_ASTC_8X5_SFLOAT_BLOCK_EXT: i32 = 1000066005;
pub const VK_FORMAT_ASTC_8X6_SFLOAT_BLOCK_EXT: i32 = 1000066006;
pub const VK_FORMAT_ASTC_8X8_SFLOAT_BLOCK_EXT: i32 = 1000066007;
pub const VK_FORMAT_ASTC_10X5_SFLOAT_BLOCK_EXT: i32 = 1000066008;
pub const VK_FORMAT_ASTC_10X6_SFLOAT_BLOCK_EXT: i32 = 1000066009;
pub const VK_FORMAT_ASTC_10X8_SFLOAT_BLOCK_EXT: i32 = 1000066010;
pub const VK_FORMAT_ASTC_10X10_SFLOAT_BLOCK_EXT: i32 = 1000066011;
pub const VK_FORMAT_ASTC_12X10_SFLOAT_BLOCK_EXT: i32 = 1000066012;
pub const VK_FORMAT_ASTC_12X12_SFLOAT_BLOCK_EXT: i32 = 1000066013;


/// The raw Vulkan format of an ASTC texture with the given block footprint and
/// channel type.
pub open spec fn vulkan_astc_format(block: AstcBlock, channel: AstcChannel) -> i32 {
    match channel {
        AstcChannel::Unorm => match block {
            AstcBlock::B4x4 => VK_FORMAT_ASTC_4X4_UNORM_BLOCK,
            AstcBlock::B5x4 => VK_FORMAT_ASTC_5X4_UNORM_BLOCK,
            AstcBlock::B5x5 => VK_FORMAT_ASTC_5X5_UNORM_BLOCK,
            AstcBlock::B6x5 => VK_FORMAT_ASTC_6X5_UNORM_BLOCK,
            AstcBlock::B6x6 => VK_FORMAT_ASTC_6X6_UNORM_BLOCK,
            AstcBlock::B8x5 => VK_FORMAT_ASTC_8X5_UNORM_BLOCK,
            AstcBlock::B8x6 => VK_FORMAT_ASTC_8X6_UNORM_BLOCK,
            AstcBlock::B8x8 => VK_FORMAT_ASTC_8X8_UNORM_BLOCK,
            AstcBlock::B10x5 => VK_FORMAT_ASTC_10X5_UNORM_BLOCK,
            AstcBlock::B10x6 => VK_FORMAT_ASTC_10X6_UNORM_BLOCK,
            AstcBlock::B10x8 => VK_FORMAT_ASTC_10X8_UNORM_BLOCK,
            AstcBlock::B10x10 => VK_FORMAT_ASTC_10X10_UNORM_BLOCK,
            AstcBlock::B12x10 => VK_FORMAT_ASTC_12X10_UNORM_BLOCK,
            AstcBlock::B12x12 => VK_FORMAT_ASTC_12X12_UNORM_BLOCK,
        },
        AstcChannel::UnormSrgb => match block {
            AstcBlock::B4x4 => VK_FORMAT_ASTC_4X4_SRGB_BLOCK,
            AstcBlock::B5x4 => VK_FORMAT_ASTC_5X4_SRGB_BLOCK,
            AstcBlock::B5x5 => VK_FORMAT_ASTC_5X5_SRGB_BLOCK,
            AstcBlock::B6x5 => VK_FORMAT_ASTC_6X5_SRGB_BLOCK,
            AstcBlock::B6x6 => VK_FORMAT_ASTC_6X6_SRGB_BLOCK,
            AstcBlock::B8x5 => VK_FORMAT_ASTC_8X5_SRGB_BLOCK,
            AstcBlock::B8x6 => VK_FORMAT_ASTC_8X6_SRGB_BLOCK,
            AstcBlock::B8x8 => VK_FORMAT_ASTC_8X8_SRGB_BLOCK,
            AstcBlock::B10x5 => VK_FORMAT_ASTC_10X5_SRGB_BLOCK,
            AstcBlock::B10x6 => VK_FORMAT_ASTC_10X6_SRGB_BLOCK,
            AstcBlock::B10x8 => VK_FORMAT_ASTC_10X8_SRGB_BLOCK,
            AstcBlock::B10x10 => VK_FORMAT_ASTC_10X10_SRGB_BLOCK,
            AstcBlock::B12x10 => VK_FORMAT_ASTC_12X10_SRGB_BLOCK,
            AstcBlock::B12x12 => VK_FORMAT_ASTC_12X12_SRGB_BLOCK,
        },
        AstcChannel::Hdr => match block {
            AstcBlock::B4x4 => VK_FORMAT_ASTC_4X4_SFLOAT_BLOCK_EXT,
            AstcBlock::B5x4 => VK_FORMAT_ASTC_5X4_SFLOAT_BLOCK_EXT,
            AstcBlock::B5x5 => VK_FORMAT_ASTC_5X5_SFLOAT_BLOCK_EXT,
            AstcBlock::B6x5 => VK_FORMAT_ASTC_6X5_SFLOAT_BLOCK_EXT,
            AstcBlock::B6x6 => VK_FORMAT_ASTC_6X6_SFLOAT_BLOCK_EXT,
            AstcBlock::B8x5 => VK_FORMAT_ASTC_8X5_SFLOAT_BLOCK_EXT,
            AstcBlock::B8x6 => VK_FORMAT_ASTC_8X6_SFLOAT_BLOCK_EXT,
            AstcBlock::B8x8 => VK_FORMAT_ASTC_8X8_SFLOAT_BLOCK_EXT,
            AstcBlock::B10x5 => VK_FORMAT_ASTC_10X5_SFLOAT_BLOCK_EXT,
            AstcBlock::B10x6 => VK_FORMAT_ASTC_10X6_SFLOAT_BLOCK_EXT,
            AstcBlock::B10x8 => VK_FORMAT_ASTC_10X8_SFLOAT_BLOCK_EXT,
            AstcBlock::B10x10 => VK_FORMAT_ASTC_10X10_SFLOAT_BLOCK_EXT,
            AstcBlock::B12x10 => VK_FORMAT_ASTC_12X10_SFLOAT_BLOCK_EXT,
            AstcBlock::B12x12 => VK_FORMAT_ASTC_12X12_SFLOAT_BLOCK_EXT,
        },
    }
}

/// The raw Vulkan format that stands for `format`; none for the depth and
/// stencil formats whose layout depends on the device.
pub open spec fn vulkan_format(format: TextureFormat) -> Option<i32> {
    match format {
        TextureFormat::R8Unorm => Some(VK_FORMAT_R8_UNORM),
        TextureFormat::R8Snorm => Some(VK_FORMAT_R8_SNORM),
        TextureFormat::R8Uint => Some(VK_FORMAT_R8_UINT),
        TextureFormat::R8Sint => Some(VK_FORMAT_R8_SINT),
        TextureFormat::R16Uint => Some(VK_FORMAT_R16_UINT),
        TextureFormat::R16Sint => Some(VK_FORMAT_R16_SINT),
        TextureFormat::R16Unorm => Some(VK_FORMAT_R16_UNORM),
        TextureFormat::R16Snorm => Some(VK_FORMAT_R16_SNORM),
        TextureFormat::R16Float => Some(VK_FORMAT_R16_SFLOAT),
        TextureFormat::Rg8Unorm => Some(VK_FORMAT_R8G8_UNORM),
        TextureFormat::Rg8Snorm => Some(VK_FORMAT_R8G8_SNORM),
        TextureFormat::Rg8Uint => Some(VK_FORMAT_R8G8_UINT),
        TextureFormat::Rg8Sint => Some(VK_FORMAT_R8G8_SINT),
        TextureFormat::Rg16Unorm => Some(VK_FORMAT_R16G16_UNORM),
        TextureFormat::Rg16Snorm => Some(VK_FORMAT_R16G16_SNORM),
        TextureFormat::R32Uint => Some(VK_FORMAT_R32_UINT),
        TextureFormat::R32Sint => Some(VK_FORMAT_R32_SINT),
        TextureFormat::R32Float => Some(VK_FORMAT_R32_SFLOAT),
        TextureFormat::Rg16Uint => Some(VK_FORMAT_R16G16_UINT),
        TextureFormat::Rg16Sint => Some(VK_FORMAT_R16G16_SINT),
        TextureFormat::Rg16Float => Some(VK_FORMAT_R16G16_SFLOAT),
        TextureFormat::Rgba8Unorm => Some(VK_FORMAT_R8G8B8A8_UNORM),
        TextureFormat::Rgba8UnormSrgb => Some(VK_FORMAT_R8G8B8A8_SRGB),
        TextureFormat::Bgra8UnormSrgb => Some(VK_FORMAT_B8G8R8A8_SRGB),
        TextureFormat::Rgba8Snorm => Some(VK_FORMAT_R8G8B8A8_SNORM),
        TextureFormat::Bgra8Unorm => Some(VK_FORMAT_B8G8R8A8_UNORM),
        TextureFormat::Rgba8Uint => Some(VK_FORMAT_R8G8B8A8_UINT),
        TextureFormat::Rgba8Sint => Some(VK_FORMAT_R8G8B8A8_SINT),
        TextureFormat::Rgb10a2Uint => Some(VK_FORMAT_A2B10G10R10_UINT_PACK32),
        TextureFormat::Rgb10a2Unorm => Some(VK_FORMAT_A2B10G10R10_UNORM_PACK32),
        TextureFormat::Rg11b10Float => Some(VK_FORMAT_B10G11R11_UFLOAT_PACK32),
        TextureFormat::Rg32Uint => Some(VK_FORMAT_R32G32_UINT),
        TextureFormat::Rg32Sint => Some(VK_FORMAT_R32G32_SINT),
        TextureFormat::Rg32Float => Some(VK_FORMAT_R32G32_SFLOAT),
        TextureFormat::Rgba16Uint => Some(VK_FORMAT_R16G16B16A16_UINT),
        TextureFormat::Rgba16Sint => Some(VK_FORMAT_R16G16B16A16_SINT),
        TextureFormat::Rgba16Unorm => Some(VK_FORMAT_R16G16B16A16_UNORM),
        TextureFormat::Rgba16Snorm => Some(VK_FORMAT_R16G16B16A16_SNORM),
        TextureFormat::Rgba16Float => Some(VK_FORMAT_R16G16B16A16_SFLOAT),
        TextureFormat::Rgba32Uint => Some(VK_FORMAT_R32G32B32A32_UINT),
        TextureFormat::Rgba32Sint => Some(VK_FORMAT_R32G32B32A32_SINT),
        TextureFormat::Rgba32Float => Some(VK_FORMAT_R32G32B32A32_SFLOAT),
        TextureFormat::Depth32Float => Some(VK_FORMAT_D32_SFLOAT),
        TextureFormat::Depth32FloatStencil8 => Some(VK_FORMAT_D32_SFLOAT_S8_UINT),
        TextureFormat::Depth16Unorm => Some(VK_FORMAT_D16_UNORM),
        TextureFormat::NV12 => Some(VK_FORMAT_G8_B8R8_2PLANE_420_UNORM),
        TextureFormat::Rgb9e5Ufloat => Some(VK_FORMAT_E5B9G9R9_UFLOAT_PACK32),
        TextureFormat::Bc1RgbaUnorm => Some(VK_FORMAT_BC1_RGBA_UNORM_BLOCK),
        TextureFormat::Bc1RgbaUnormSrgb => Some(VK_FORMAT_BC1_RGBA_SRGB_BLOCK),
        TextureFormat::Bc2RgbaUnorm => Some(VK_FORMAT_BC2_UNORM_BLOCK),
        TextureFormat::Bc2RgbaUnormSrgb => Some(VK_FORMAT_BC2_SRGB_BLOCK),
        TextureFormat::Bc3RgbaUnorm => Some(VK_FORMAT_BC3_UNORM_BLOCK),
        TextureFormat::Bc3RgbaUnormSrgb => Some(VK_FORMAT_BC3_SRGB_BLOCK),
        TextureFormat::Bc4RUnorm => Some(VK_FORMAT_BC4_UNORM_BLOCK),
        TextureFormat::Bc4RSnorm => Some(VK_FORMAT_BC4_SNORM_BLOCK),
        TextureFormat::Bc5RgUnorm => Some(VK_FORMAT_BC5_UNORM_BLOCK),
        TextureFormat::Bc5RgSnorm => Some(VK_FORMAT_BC5_SNORM_BLOCK),
        TextureFormat::Bc6hRgbUfloat => Some(VK_FORMAT_BC6H_UFLOAT_BLOCK),
        TextureFormat::Bc6hRgbFloat => Some(VK_FORMAT_BC6H_SFLOAT_BLOCK),
        TextureFormat::Bc7RgbaUnorm => Some(VK_FORMAT_BC7_UNORM_BLOCK),
        TextureFormat::Bc7RgbaUnormSrgb => Some(VK_FORMAT_BC7_SRGB_BLOCK),
        TextureFormat::Etc2Rgb8Unorm => Some(VK_FORMAT_ETC2_R8G8B8_UNORM_BLOCK),
        TextureFormat::Etc2Rgb8UnormSrgb => Some(VK_FORMAT_ETC2_R8G8B8_SRGB_BLOCK),
        TextureFormat::Etc2Rgb8A1Unorm => Some(VK_FORMAT_ETC2_R8G8B8A1_UNORM_BLOCK),
        TextureFormat::Etc2Rgb8A1UnormSrgb => Some(VK_FORMAT_ETC2_R8G8B8A1_SRGB_BLOCK),
        TextureFormat::Etc2Rgba8Unorm => Some(VK_FORMAT_ETC2_R8G8B8A8_UNORM_BLOCK),
        TextureFormat::Etc2Rgba8UnormSrgb => Some(VK_FORMAT_ETC2_R8G8B8A8_SRGB_BLOCK),
        TextureFormat::EacR11Unorm => Some(VK_FORMAT_EAC_R11_UNORM_BLOCK),
        TextureFormat::EacR11Snorm => Some(VK_FORMAT_EAC_R11_SNORM_BLOCK),
        TextureFormat::EacRg11Unorm => Some(VK_FORMAT_EAC_R11G11_UNORM_BLOCK),
        TextureFormat::EacRg11Snorm => Some(VK_FORMAT_EAC_R11G11_SNORM_BLOCK),
        TextureFormat::Depth24Plus => None,
        TextureFormat::Depth24PlusStencil8 => None,
        TextureFormat::Stencil8 => None,
        TextureFormat::Astc { block, channel } => Some(vulkan_astc_format(block, channel)),
    }
}

/// The raw Vulkan format of a swapchain image in `format`. The depth and
/// stencil formats whose layout depends on the device have none, and are
/// refused.
pub fn wgpu_to_vulkan(format: TextureFormat) -> (r: i32)
    requires
        vulkan_format(format) is Some,
    ensures
        vulkan_format(format) == Some(r),
{
    match format {
        TextureFormat::R8Unorm => VK_FORMAT_R8_UNORM,
        TextureFormat::R8Snorm => VK_FORMAT_R8_SNORM,
        TextureFormat::R8Uint => VK_FORMAT_R8_UINT,
        TextureFormat::R8Sint => VK_FORMAT_R8_SINT,
        TextureFormat::R16Uint => VK_FORMAT_R16_UINT,
        TextureFormat::R16Sint => VK_FORMAT_R16_SINT,
        TextureFormat::R16Unorm => VK_FORMAT_R16_UNORM,
        TextureFormat::R16Snorm => VK_FORMAT_R16_SNORM,
        TextureFormat::R16Float => VK_FORMAT_R16_SFLOAT,
        TextureFormat::Rg8Unorm => VK_FORMAT_R8G8_UNORM,
        TextureFormat::Rg8Snorm => VK_FORMAT_R8G8_SNORM,
        TextureFormat::Rg8Uint => VK_FORMAT_R8G8_UINT,
        TextureFormat::Rg8Sint => VK_FORMAT_R8G8_SINT,
        TextureFormat::Rg16Unorm => VK_FORMAT_R16G16_UNORM,
        TextureFormat::Rg16Snorm => VK_FORMAT_R16G16_SNORM,
        TextureFormat::R32Uint => VK_FORMAT_R32_UINT,
        TextureFormat::R32Sint => VK_FORMAT_R32_SINT,
        TextureFormat::R32Float => VK_FORMAT_R32_SFLOAT,
        TextureFormat::Rg16Uint => VK_FORMAT_R16G16_UINT,
        TextureFormat::Rg16Sint => VK_FORMAT_R16G16_SINT,
        TextureFormat::Rg16Float => VK_FORMAT_R16G16_SFLOAT,
        TextureFormat::Rgba8Unorm => VK_FORMAT_R8G8B8A8_UNORM,
        TextureFormat::Rgba8UnormSrgb => VK_FORMAT_R8G8B8A8_SRGB,
        TextureFormat::Bgra8UnormSrgb => VK_FORMAT_B8G8R8A8_SRGB,
        TextureFormat::Rgba8Snorm => VK_FORMAT_R8G8B8A8_SNORM,
        TextureFormat::Bgra8Unorm => VK_FORMAT_B8G8R8A8_UNORM,
        TextureFormat::Rgba8Uint => VK_FORMAT_R8G8B8A8_UINT,
        TextureFormat::Rgba8Sint => VK_FORMAT_R8G8B8A8_SINT,
        TextureFormat::Rgb10a2Uint => VK_FORMAT_A2B10G10R10_UINT_PACK32,
        TextureFormat::Rgb10a2Unorm => VK_FORMAT_A2B10G10R10_UNORM_PACK32,
        TextureFormat::Rg11b10Float => VK_FORMAT_B10G11R11_UFLOAT_PACK32,
        TextureFormat::Rg32Uint => VK_FORMAT_R32G32_UINT,
        TextureFormat::Rg32Sint => VK_FORMAT_R32G32_SINT,
        TextureFormat::Rg32Float => VK_FORMAT_R32G32_SFLOAT,
        TextureFormat::Rgba16Uint => VK_FORMAT_R16G16B16A16_UINT,
        TextureFormat::Rgba16Sint => VK_FORMAT_R16G16B16A16_SINT,
        TextureFormat::Rgba16Unorm => VK_FORMAT_R16G16B16A16_UNORM,
        TextureFormat::Rgba16Snorm => VK_FORMAT_R16G16B16A16_SNORM,
        TextureFormat::Rgba16Float => VK_FORMAT_R16G16B16A16_SFLOAT,
        TextureFormat::Rgba32Uint => VK_FORMAT_R32G32B32A32_UINT,
        TextureFormat::Rgba32Sint => VK_FORMAT_R32G32B32A32_SINT,
        TextureFormat::Rgba32Float => VK_FORMAT_R32G32B32A32_SFLOAT,
        TextureFormat::Depth32Float => VK_FORMAT_D32_SFLOAT,
        TextureFormat::Depth32FloatStencil8 => VK_FORMAT_D32_SFLOAT_S8_UINT,
        TextureFormat::Depth16Unorm => VK_FORMAT_D16_UNORM,
        TextureFormat::NV12 => VK_FORMAT_G8_B8R8_2PLANE_420_UNORM,
        TextureFormat::Rgb9e5Ufloat => VK_FORMAT_E5B9G9R9_UFLOAT_PACK32,
        TextureFormat::Bc1RgbaUnorm => VK_FORMAT_BC1_RGBA_UNORM_BLOCK,
        TextureFormat::Bc1RgbaUnormSrgb => VK_FORMAT_BC1_RGBA_SRGB_BLOCK,
        TextureFormat::Bc2RgbaUnorm => VK_FORMAT_BC2_UNORM_BLOCK,
        TextureFormat::Bc2RgbaUnormSrgb => VK_FORMAT_BC2_SRGB_BLOCK,
        TextureFormat::Bc3RgbaUnorm => VK_FORMAT_BC3_UNORM_BLOCK,
        TextureFormat::Bc3RgbaUnormSrgb => VK_FORMAT_BC3_SRGB_BLOCK,
        TextureFormat::Bc4RUnorm => VK_FORMAT_BC4_UNORM_BLOCK,
        TextureFormat::Bc4RSnorm => VK_FORMAT_BC4_SNORM_BLOCK,
        TextureFormat::Bc5RgUnorm => VK_FORMAT_BC5_UNORM_BLOCK,
        TextureFormat::Bc5RgSnorm => VK_FORMAT_BC5_SNORM_BLOCK,
        TextureFormat::Bc6hRgbUfloat => VK_FORMAT_BC6H_UFLOAT_BLOCK,
        TextureFormat::Bc6hRgbFloat => VK_FORMAT_BC6H_SFLOAT_BLOCK,
        TextureFormat::Bc7RgbaUnorm => VK_FORMAT_BC7_UNORM_BLOCK,
        TextureFormat::Bc7RgbaUnormSrgb => VK_FORMAT_BC7_SRGB_BLOCK,
        TextureFormat::Etc2Rgb8Unorm => VK_FORMAT_ETC2_R8G8B8_UNORM_BLOCK,
        TextureFormat::Etc2Rgb8UnormSrgb => VK_FORMAT_ETC2_R8G8B8_SRGB_BLOCK,
        TextureFormat::Etc2Rgb8A1Unorm => VK_FORMAT_ETC2_R8G8B8A1_UNORM_BLOCK,
        TextureFormat::Etc2Rgb8A1UnormSrgb => VK_FORMAT_ETC2_R8G8B8A1_SRGB_BLOCK,
        TextureFormat::Etc2Rgba8Unorm => VK_FORMAT_ETC2_R8G8B8A8_UNORM_BLOCK,
        TextureFormat::Etc2Rgba8UnormSrgb => VK_FORMAT_ETC2_R8G8B8A8_SRGB_BLOCK,
        TextureFormat::EacR11Unorm => VK_FORMAT_EAC_R11_UNORM_BLOCK,
        TextureFormat::EacR11Snorm => VK_FORMAT_EAC_R11_SNORM_BLOCK,
        TextureFormat::EacRg11Unorm => VK_FORMAT_EAC_R11G11_UNORM_BLOCK,
        TextureFormat::EacRg11Snorm => VK_FORMAT_EAC_R11G11_SNORM_BLOCK,
        TextureFormat::Depth24Plus | TextureFormat::Depth24PlusStencil8 | TextureFormat::Stencil8 => VK_FORMAT_UNDEFINED,
        TextureFormat::Astc { block, channel } => match channel {
            AstcChannel::Unorm => match block {
                AstcBlock::B4x4 => VK_FORMAT_ASTC_4X4_UNORM_BLOCK,
                AstcBlock::B5x4 => VK_FORMAT_ASTC_5X4_UNORM_BLOCK,
                AstcBlock::B5x5 => VK_FORMAT_ASTC_5X5_UNORM_BLOCK,
                AstcBlock::B6x5 => VK_FORMAT_ASTC_6X5_UNORM_BLOCK,
                AstcBlock::B6x6 => VK_FORMAT_ASTC_6X6_UNORM_BLOCK,
                AstcBlock::B8x5 => VK_FORMAT_ASTC_8X5_UNORM_BLOCK,
                AstcBlock::B8x6 => VK_FORMAT_ASTC_8X6_UNORM_BLOCK,
                AstcBlock::B8x8 => VK_FORMAT_ASTC_8X8_UNORM_BLOCK,
                AstcBlock::B10x5 => VK_FORMAT_ASTC_10X5_UNORM_BLOCK,
                AstcBlock::B10x6 => VK_FORMAT_ASTC_10X6_UNORM_BLOCK,
                AstcBlock::B10x8 => VK_FORMAT_ASTC_10X8_UNORM_BLOCK,
                AstcBlock::B10x10 => VK_FORMAT_ASTC_10X10_UNORM_BLOCK,
                AstcBlock::B12x10 => VK_FORMAT_ASTC_12X10_UNORM_BLOCK,
                AstcBlock::B12x12 => VK_FORMAT_ASTC_12X12_UNORM_BLOCK,
            },
            AstcChannel::UnormSrgb => match block {
                AstcBlock::B4x4 => VK_FORMAT_ASTC_4X4_SRGB_BLOCK,
                AstcBlock::B5x4 => VK_FORMAT_ASTC_5X4_SRGB_BLOCK,
                AstcBlock::B5x5 => VK_FORMAT_ASTC_5X5_SRGB_BLOCK,
                AstcBlock::B6x5 => VK_FORMAT_ASTC_6X5_SRGB_BLOCK,
                AstcBlock::B6x6 => VK_FORMAT_ASTC_6X6_SRGB_BLOCK,
                AstcBlock::B8x5 => VK_FORMAT_ASTC_8X5_SRGB_BLOCK,
                AstcBlock::B8x6 => VK_FORMAT_ASTC_8X6_SRGB_BLOCK,
                AstcBlock::B8x8 => VK_FORMAT_ASTC_8X8_SRGB_BLOCK,
                AstcBlock::B10x5 => VK_FORMAT_ASTC_10X5_SRGB_BLOCK,
                AstcBlock::B10x6 => VK_FORMAT_ASTC_10X6_SRGB_BLOCK,
                AstcBlock::B10x8 => VK_FORMAT_ASTC_10X8_SRGB_BLOCK,
                AstcBlock::B10x10 => VK_FORMAT_ASTC_10X10_SRGB_BLOCK,
                AstcBlock::B12x10 => VK_FORMAT_ASTC_12X10_SRGB_BLOCK,
                AstcBlock::B12x12 => VK_FORMAT_ASTC_12X12_SRGB_BLOCK,
            },
            AstcChannel::Hdr => match block {
                AstcBlock::B4x4 => VK_FORMAT_ASTC_4X4_SFLOAT_BLOCK_EXT,
                AstcBlock::B5x4 => VK_FORMAT_ASTC_5X4_SFLOAT_BLOCK_EXT,
                AstcBlock::B5x5 => VK_FORMAT_ASTC_5X5_SFLOAT_BLOCK_EXT,
                AstcBlock::B6x5 => VK_FORMAT_ASTC_6X5_SFLOAT_BLOCK_EXT,
                AstcBlock::B6x6 => VK_FORMAT_ASTC_6X6_SFLOAT_BLOCK_EXT,
                AstcBlock::B8x5 => VK_FORMAT_ASTC_8X5_SFLOAT_BLOCK_EXT,
                AstcBlock::B8x6 => VK_FORMAT_ASTC_8X6_SFLOAT_BLOCK_EXT,
                AstcBlock::B8x8 => VK_FORMAT_ASTC_8X8_SFLOAT_BLOCK_EXT,
                AstcBlock::B10x5 => VK_FORMAT_ASTC_10X5_SFLOAT_BLOCK_EXT,
                AstcBlock::B10x6 => VK_FORMAT_ASTC_10X6_SFLOAT_BLOCK_EXT,
                AstcBlock::B10x8 => VK_FORMAT_ASTC_10X8_SFLOAT_BLOCK_EXT,
                AstcBlock::B10x10 => VK_FORMAT_ASTC_10X10_SFLOAT_BLOCK_EXT,
                AstcBlock::B12x10 => VK_FORMAT_ASTC_12X10_SFLOAT_BLOCK_EXT,
                AstcBlock::B12x12 => VK_FORMAT_ASTC_12X12_SFLOAT_BLOCK_EXT,
            },
        },
    }
}

/// How the session's swapchain is created with Vulkan: images in `format`, at
/// `resolution`; see [`raw_swapchain_info`].
pub fn swapchain_create_info(format: TextureFormat, resolution: UVec2) -> (r: RawSwapchainCreateInfo)
    requires
        vulkan_format(format) is Some,
    ensures
        vulkan_format(format) == Some(r.format as i32),
        r == raw_swapchain_info(r.format, resolution),
{
    let raw = wgpu_to_vulkan(format);
    raw_swapchain_create_info(raw as u32, resolution)
}

/// The raw OpenXR version of the Vulkan API that the backend targets on
/// Android, 1.1.0.
pub open spec fn vulkan_android_target_version() -> int {
    0x1_0000_0000_0000int + 0x1_0000_0000int
}

/// Whether the runtime accepts the Vulkan version the backend targets on
/// Android (1.1.0), given the raw OpenXR versions of the oldest and newest
/// Vulkan it supports: the target is at least the oldest, and its major
/// version is at most the newest's.
pub fn vulkan_version_supported_android(min_api_version_supported: u64, max_api_version_supported: u64) -> (r: bool)
    ensures
        r == (vulkan_android_target_version() >= min_api_version_supported
            && 1 <= max_api_version_supported as int / 0x1_0000_0000_0000),
{
    let target = xr_version(1, 1, 0);
    let below_min = target < min_api_version_supported;
    let above_max = xr_version_major(target) > xr_version_major(max_api_version_supported);
    !(below_min || above_max)
}

/// The Vulkan API version `ash::vk::make_api_version(variant, major, minor,
/// patch)`: variant in bits 29..32, major in bits 22..29, minor in bits 12..22,
/// patch in bits 0..12, as the crate's source packs them. The fields must fit
/// their bits.
#[verifier::external_body]
fn vk_api_version(variant: u32, major: u32, minor: u32, patch: u32) -> (r: u32)
    requires
        variant < 8,
        major < 128,
        minor < 1024,
        patch < 4096,
    ensures
        r as int == variant as int * 0x2000_0000 + major as int * 0x40_0000 + minor as int * 0x1000 + patch as int,
{
    ash::vk::make_api_version(variant, major, minor, patch)
}

/// Whether the physical device, reporting Vulkan `api_version`, runs the
/// version the backend targets, 1.2.0 (`make_api_version(0, 1, 2, 0)`).
pub fn vulkan_device_version_supported(api_version: u32) -> (r: bool)
    ensures
        r == (api_version >= 0x40_0000 + 2 * 0x1000),
{
    !(api_version < vk_api_version(0, 1, 2, 0))
}

/// Whether the physical device, reporting Vulkan `api_version`, runs the
/// version the backend targets on Android, 1.1.0 (`make_api_version(0, 1, 1, 0)`).
pub fn vulkan_device_version_supported_android(api_version: u32) -> (r: bool)
    ensures
        r == (api_version >= 0x40_0000 + 0x1000),
{
    !(api_version < vk_api_version(0, 1, 1, 0))
}

} // verus!
