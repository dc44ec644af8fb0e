//! The decisions of the Direct3D 12 backend: the extensions its instance is
//! created with and the feature level it targets.

use vstd::prelude::*;
use crate::ext_set::{ExtensionSet, Platform, KHR_D3D12_ENABLE, names_kept};
use crate::graphics::extensions::{XrExtensions, and_flags};
use crate::graphics::{RawSwapchainCreateInfo, raw_swapchain_create_info, raw_swapchain_info};
use crate::openxr::UVec2;
use crate::texture_format::TextureFormat;

verus! {

/// The feature level that the backend targets: `D3D_FEATURE_LEVEL_11_0`, as wgpu
/// hardcodes it.
pub const D3D_TARGET_FEATURE_LEVEL: u32 = 0xb000;

/// The extensions to create a Direct3D 12 instance with, in a Windows build
/// (the only one with Direct3D 12): those both available and requested, as
/// `&` keeps them there, and Direct3D 12 enablement. The runtime must offer
/// Direct3D 12 enablement.
pub fn enabled_extensions(available_extensions: XrExtensions, requested_extensions: XrExtensions) -> (r: ExtensionSet)
    requires
        available_extensions.0.flags@[KHR_D3D12_ENABLE as int],
    ensures
        r.flags@ == and_flags(available_extensions.0.flags@, requested_extensions.0.flags@, Platform::Windows).update(
            KHR_D3D12_ENABLE as int,
            true,
        ),
        r.others() == names_kept(available_extensions.0.others(), requested_extensions.0.others()),
{
    let mut enabled: ExtensionSet = available_extensions.and_on(requested_extensions, Platform::Windows).into();
    enabled.flags[KHR_D3D12_ENABLE] = true;
    enabled
}

/// Whether the runtime accepts the feature level the backend targets, given the
/// lowest feature level it requires.
pub fn feature_level_supported(min_feature_level: u32) -> (r: bool)
    ensures
        r == (min_feature_level <= D3D_TARGET_FEATURE_LEVEL),
{
    !(D3D_TARGET_FEATURE_LEVEL < min_feature_level)
}

// Raw `DXGI_FORMAT` values.
pub const DXGI_FORMAT_R8_UNORM: u32 = 61;
pub const DXGI_FORMAT_R8_SNORM: u32 = 63;
pub const DXGI_FORMAT_R8_UINT: u32 = 62;
pub const DXGI_FORMAT_R8_SINT: u32 = 64;
pub const DXGI_FORMAT_R16_UINT: u32 = 57;
pub const DXGI_FORMAT_R16_SINT: u32 = 59;
pub const DXGI_FORMAT_R16_UNORM: u32 = 56;
pub const DXGI_FORMAT_R16_SNORM: u32 = 58;
pub const DXGI_FORMAT_R16_FLOAT: u32 = 54;
pub const DXGI_FORMAT_R8G8_UNORM: u32 = 49;
pub const DXGI_FORMAT_R8G8_SNORM: u32 = 51;
pub const DXGI_FORMAT_R8G8_UINT: u32 = 50;
pub const DXGI_FORMAT_R8G8_SINT: u32 = 52;
pub const DXGI_FORMAT_R16G16_UNORM: u32 = 35;
pub const DXGI_FORMAT_R16G16_SNORM: u32 = 37;
pub const DXGI_FORMAT_R32_UINT: u32 = 42;
pub const DXGI_FORMAT_R32_SINT: u32 = 43;
pub const DXGI_FORMAT_R32_FLOAT: u32 = 41;
pub const DXGI_FORMAT_R16G16_UINT: u32 = 36;
pub const DXGI_FORMAT_R16G16_SINT: u32 = 38;
pub const DXGI_FORMAT_R16G16_FLOAT: u32 = 34;
pub const DXGI_FORMAT_R8G8B8A8_UNORM: u32 = 28;
pub const DXGI_FORMAT_R8G8B8A8_UNORM_SRGB: u32 = 29;
pub const DXGI_FORMAT_B8G8R8A8_UNORM_SRGB: u32 = 91;
pub const DXGI_FORMAT_R8G8B8A8_SNORM: u32 = 31;
pub const DXGI_FORMAT_B8G8R8A8_UNORM: u32 = 87;
pub const DXGI_FORMAT_R8G8B8A8_UINT: u32 = 30;
pub const DXGI_FORMAT_R8G8B8A8_SINT: u32 = 32;
pub const DXGI_FORMAT_R9G9B9E5_SHAREDEXP: u32 = 67;
pub const DXGI_FORMAT_R10G10B10A2_UINT: u32 = 25;
pub const DXGI_FORMAT_R10G10B10A2_UNORM: u32 = 24;
pub const DXGI_FORMAT_R11G11B10_FLOAT: u32 = 26;
pub const DXGI_FORMAT_R32G32_UINT: u32 = 17;
pub const DXGI_FORMAT_R32G32_SINT: u32 = 18;
pub const DXGI_FORMAT_R32G32_FLOAT: u32 = 16;
pub const DXGI_FORMAT_R16G16B16A16_UINT: u32 = 12;
pub const DXGI_FORMAT_R16G16B16A16_SINT: u32 = 14;
pub const DXGI_FORMAT_R16G16B16A16_UNORM: u32 = 11;
pub const DXGI_FORMAT_R16G16B16A16_SNORM: u32 = 13;
pub const DXGI_FORMAT_R16G16B16A16_FLOAT: u32 = 10;
pub const DXGI_FORMAT_R32G32B32A32_UINT: u32 = 3;
pub const DXGI_FORMAT_R32G32B32A32_SINT: u32 = 4;
pub const DXGI_FORMAT_R32G32B32A32_FLOAT: u32 = 2;
pub const DXGI_FORMAT_D24_UNORM_S8_UINT: u32 = 45;
pub const DXGI_FORMAT_D16_UNORM: u32 = 55;
pub const DXGI_FORMAT_D32_FLOAT: u32 = 40;
pub const DXGI_FORMAT_D32_FLOAT_S8X24_UINT: u32 = 20;
pub const DXGI_FORMAT_NV12: u32 = 103;
pub const DXGI_FORMAT_BC1_UNORM: u32 = 71;
pub const DXGI_FORMAT_BC1_UNORM_SRGB: u32 = 72;
pub const DXGI_FORMAT_BC2_UNORM: u32 = 74;
pub const DXGI_FORMAT_BC2_UNORM_SRGB: u32 = 75;
pub const DXGI_FORMAT_BC3_UNORM: u32 = 77;
pub const DXGI_FORMAT_BC3_UNORM_SRGB: u32 = 78;
pub const DXGI_FORMAT_BC4_UNORM: u32 = 80;
pub const DXGI_FORMAT_BC4_SNORM: u32 = 81;
pub const DXGI_FORMAT_BC5_UNORM: u32 = 83;
pub const DXGI_FORMAT_BC5_SNORM: u32 = 84;
pub const DXGI_FORMAT_BC6H_UF16: u32 = 95;
pub const DXGI_FORMAT_BC6H_SF16: u32 = 96;
pub const DXGI_FORMAT_BC7_UNORM: u32 = 98;
pub const DXGI_FORMAT_BC7_UNORM_SRGB: u32 = 99;

/// The raw DXGI format that stands for `format`; none for the ETC2, EAC and
/// ASTC formats, which Direct3D 12 has not.
pub open spec fn dxgi_format(format: TextureFormat) -> Option<u32> {
    match format {
        TextureFormat::R8Unorm => Some(DXGI_FORMAT_R8_UNORM),
        TextureFormat::R8Snorm => Some(DXGI_FORMAT_R8_SNORM),
        TextureFormat::R8Uint => Some(DXGI_FORMAT_R8_UINT),
        TextureFormat::R8Sint => Some(DXGI_FORMAT_R8_SINT),
        TextureFormat::R16Uint => Some(DXGI_FORMAT_R16_UINT),
        TextureFormat::R16Sint => Some(DXGI_FORMAT_R16_SINT),
        TextureFormat::R16Unorm => Some(DXGI_FORMAT_R16_UNORM),
        TextureFormat::R16Snorm => Some(DXGI_FORMAT_R16_SNORM),
        TextureFormat::R16Float => Some(DXGI_FORMAT_R16_FLOAT),
        TextureFormat::Rg8Unorm => Some(DXGI_FORMAT_R8G8_UNORM),
        TextureFormat::Rg8Snorm => Some(DXGI_FORMAT_R8G8_SNORM),
        TextureFormat::Rg8Uint => Some(DXGI_FORMAT_R8G8_UINT),
        TextureFormat::Rg8Sint => Some(DXGI_FORMAT_R8G8_SINT),
        TextureFormat::Rg16Unorm => Some(DXGI_FORMAT_R16G16_UNORM),
        TextureFormat::Rg16Snorm => Some(DXGI_FORMAT_R16G16_SNORM),
        TextureFormat::R32Uint => Some(DXGI_FORMAT_R32_UINT),
        TextureFormat::R32Sint => Some(DXGI_FORMAT_R32_SINT),
        TextureFormat::R32Float => Some(DXGI_FORMAT_R32_FLOAT),
        TextureFormat::Rg16Uint => Some(DXGI_FORMAT_R16G16_UINT),
        TextureFormat::Rg16Sint => Some(DXGI_FORMAT_R16G16_SINT),
        TextureFormat::Rg16Float => Some(DXGI_FORMAT_R16G16_FLOAT),
        TextureFormat::Rgba8Unorm => Some(DXGI_FORMAT_R8G8B8A8_UNORM),
        TextureFormat::Rgba8UnormSrgb => Some(DXGI_FORMAT_R8G8B8A8_UNORM_SRGB),
        TextureFormat::Bgra8UnormSrgb => Some(DXGI_FORMAT_B8G8R8A8_UNORM_SRGB),
        TextureFormat::Rgba8Snorm => Some(DXGI_FORMAT_R8G8B8A8_SNORM),
        TextureFormat::Bgra8Unorm => Some(DXGI_FORMAT_B8G8R8A8_UNORM),
        TextureFormat::Rgba8Uint => Some(DXGI_FORMAT_R8G8B8A8_UINT),
        TextureFormat::Rgba8Sint => Some(DXGI_FORMAT_R8G8B8A8_SINT),
        TextureFormat::Rgb9e5Ufloat => Some(DXGI_FORMAT_R9G9B9E5_SHAREDEXP),
        TextureFormat::Rgb10a2Uint => Some(DXGI_FORMAT_R10G10B10A2_UINT),
        TextureFormat::Rgb10a2Unorm => Some(DXGI_FORMAT_R10G10B10A2_UNORM),
        TextureFormat::Rg11b10Float => Some(DXGI_FORMAT_R11G11B10_FLOAT),
        TextureFormat::Rg32Uint => Some(DXGI_FORMAT_R32G32_UINT),
        TextureFormat::Rg32Sint => Some(DXGI_FORMAT_R32G32_SINT),
        TextureFormat::Rg32Float => Some(DXGI_FORMAT_R32G32_FLOAT),
        TextureFormat::Rgba16Uint => Some(DXGI_FORMAT_R16G16B16A16_UINT),
        TextureFormat::Rgba16Sint => Some(DXGI_FORMAT_R16G16B16A16_SINT),
        TextureFormat::Rgba16Unorm => Some(DXGI_FORMAT_R16G16B16A16_UNORM),
        TextureFormat::Rgba16Snorm => Some(DXGI_FORMAT_R16G16B16A16_SNORM),
        TextureFormat::Rgba16Float => Some(DXGI_FORMAT_R16G16B16A16_FLOAT),
        TextureFormat::Rgba32Uint => Some(DXGI_FORMAT_R32G32B32A32_UINT),
        TextureFormat::Rgba32Sint => Some(DXGI_FORMAT_R32G32B32A32_SINT),
        TextureFormat::Rgba32Float => Some(DXGI_FORMAT_R32G32B32A32_FLOAT),
        TextureFormat::Stencil8 => Some(DXGI_FORMAT_D24_UNORM_S8_UINT),
        TextureFormat::Depth16Unorm => Some(DXGI_FORMAT_D16_UNORM),
        TextureFormat::Depth24Plus => Some(DXGI_FORMAT_D24_UNORM_S8_UINT),
        TextureFormat::Depth24PlusStencil8 => Some(DXGI_FORMAT_D24_UNORM_S8_UINT),
        TextureFormat::Depth32Float => Some(DXGI_FORMAT_D32_FLOAT),
        TextureFormat::Depth32FloatStencil8 => Some(DXGI_FORMAT_D32_FLOAT_S8X24_UINT),
        TextureFormat::NV12 => Some(DXGI_FORMAT_NV12),
        TextureFormat::Bc1RgbaUnorm => Some(DXGI_FORMAT_BC1_UNORM),
        TextureFormat::Bc1RgbaUnormSrgb => Some(DXGI_FORMAT_BC1_UNORM_SRGB),
        TextureFormat::Bc2RgbaUnorm => Some(DXGI_FORMAT_BC2_UNORM),
        TextureFormat::Bc2RgbaUnormSrgb => Some(DXGI_FORMAT_BC2_UNORM_SRGB),
        TextureFormat::Bc3RgbaUnorm => Some(DXGI_FORMAT_BC3_UNORM),
        TextureFormat::Bc3RgbaUnormSrgb => Some(DXGI_FORMAT_BC3_UNORM_SRGB),
        TextureFormat::Bc4RUnorm => Some(DXGI_FORMAT_BC4_UNORM),
        TextureFormat::Bc4RSnorm => Some(DXGI_FORMAT_BC4_SNORM),
        TextureFormat::Bc5RgUnorm => Some(DXGI_FORMAT_BC5_UNORM),
        TextureFormat::Bc5RgSnorm => Some(DXGI_FORMAT_BC5_SNORM),
        TextureFormat::Bc6hRgbUfloat => Some(DXGI_FORMAT_BC6H_UF16),
        TextureFormat::Bc6hRgbFloat => Some(DXGI_FORMAT_BC6H_SF16),
        TextureFormat::Bc7RgbaUnorm => Some(DXGI_FORMAT_BC7_UNORM),
        TextureFormat::Bc7RgbaUnormSrgb => Some(DXGI_FORMAT_BC7_UNORM_SRGB),
        TextureFormat::Etc2Rgb8Unorm => None,
        TextureFormat::Etc2Rgb8UnormSrgb => None,
        TextureFormat::Etc2Rgb8A1Unorm => None,
        TextureFormat::Etc2Rgb8A1UnormSrgb => None,
        TextureFormat::Etc2Rgba8Unorm => None,
        TextureFormat::Etc2Rgba8UnormSrgb => None,
        TextureFormat::EacR11Unorm => None,
        TextureFormat::EacR11Snorm => None,
        TextureFormat::EacRg11Unorm => None,
        TextureFormat::EacRg11Snorm => None,
        TextureFormat::Astc { .. } => None,
    }
}

/// The raw DXGI format of a swapchain image in `format`, if Direct3D 12 has
/// one.
pub fn wgpu_to_d3d12(format: TextureFormat) -> (r: Option<u32>)
    ensures
        r == dxgi_format(format),
{
    let raw = match format {
        TextureFormat::R8Unorm => DXGI_FORMAT_R8_UNORM,
        TextureFormat::R8Snorm => DXGI_FORMAT_R8_SNORM,
        TextureFormat::R8Uint => DXGI_FORMAT_R8_UINT,
        TextureFormat::R8Sint => DXGI_FORMAT_R8_SINT,
        TextureFormat::R16Uint => DXGI_FORMAT_R16_UINT,
        TextureFormat::R16Sint => DXGI_FORMAT_R16_SINT,
        TextureFormat::R16Unorm => DXGI_FORMAT_R16_UNORM,
        TextureFormat::R16Snorm => DXGI_FORMAT_R16_SNORM,
        TextureFormat::R16Float => DXGI_FORMAT_R16_FLOAT,
        TextureFormat::Rg8Unorm => DXGI_FORMAT_R8G8_UNORM,
        TextureFormat::Rg8Snorm => DXGI_FORMAT_R8G8_SNORM,
        TextureFormat::Rg8Uint => DXGI_FORMAT_R8G8_UINT,
        TextureFormat::Rg8Sint => DXGI_FORMAT_R8G8_SINT,
        TextureFormat::Rg16Unorm => DXGI_FORMAT_R16G16_UNORM,
        TextureFormat::Rg16Snorm => DXGI_FORMAT_R16G16_SNORM,
        TextureFormat::R32Uint => DXGI_FORMAT_R32_UINT,
        TextureFormat::R32Sint => DXGI_FORMAT_R32_SINT,
        TextureFormat::R32Float => DXGI_FORMAT_R32_FLOAT,
        TextureFormat::Rg16Uint => DXGI_FORMAT_R16G16_UINT,
        TextureFormat::Rg16Sint => DXGI_FORMAT_R16G16_SINT,
        TextureFormat::Rg16Float => DXGI_FORMAT_R16G16_FLOAT,
        TextureFormat::Rgba8Unorm => DXGI_FORMAT_R8G8B8A8_UNORM,
        TextureFormat::Rgba8UnormSrgb => DXGI_FORMAT_R8G8B8A8_UNORM_SRGB,
        TextureFormat::Bgra8UnormSrgb => DXGI_FORMAT_B8G8R8A8_UNORM_SRGB,
        TextureFormat::Rgba8Snorm => DXGI_FORMAT_R8G8B8A8_SNORM,
        TextureFormat::Bgra8Unorm => DXGI_FORMAT_B8G8R8A8_UNORM,
        TextureFormat::Rgba8Uint => DXGI_FORMAT_R8G8B8A8_UINT,
        TextureFormat::Rgba8Sint => DXGI_FORMAT_R8G8B8A8_SINT,
        TextureFormat::Rgb9e5Ufloat => DXGI_FORMAT_R9G9B9E5_SHAREDEXP,
        TextureFormat::Rgb10a2Uint => DXGI_FORMAT_R10G10B10A2_UINT,
        TextureFormat::Rgb10a2Unorm => DXGI_FORMAT_R10G10B10A2_UNORM,
        TextureFormat::Rg11b10Float => DXGI_FORMAT_R11G11B10_FLOAT,
        TextureFormat::Rg32Uint => DXGI_FORMAT_R32G32_UINT,
        TextureFormat::Rg32Sint => DXGI_FORMAT_R32G32_SINT,
        TextureFormat::Rg32Float => DXGI_FORMAT_R32G32_FLOAT,
        TextureFormat::Rgba16Uint => DXGI_FORMAT_R16G16B16A16_UINT,
        TextureFormat::Rgba16Sint => DXGI_FORMAT_R16G16B16A16_SINT,
        TextureFormat::Rgba16Unorm => DXGI_FORMAT_R16G16B16A16_UNORM,
        TextureFormat::Rgba16Snorm => DXGI_FORMAT_R16G16B16A16_SNORM,
        TextureFormat::Rgba16Float => DXGI_FORMAT_R16G16B16A16_FLOAT,
        TextureFormat::Rgba32Uint => DXGI_FORMAT_R32G32B32A32_UINT,
        TextureFormat::Rgba32Sint => DXGI_FORMAT_R32G32B32A32_SINT,
        TextureFormat::Rgba32Float => DXGI_FORMAT_R32G32B32A32_FLOAT,
        TextureFormat::Stencil8 => DXGI_FORMAT_D24_UNORM_S8_UINT,
        TextureFormat::Depth16Unorm => DXGI_FORMAT_D16_UNORM,
        TextureFormat::Depth24Plus => DXGI_FORMAT_D24_UNORM_S8_UINT,
        TextureFormat::Depth24PlusStencil8 => DXGI_FORMAT_D24_UNORM_S8_UINT,
        TextureFormat::Depth32Float => DXGI_FORMAT_D32_FLOAT,
        TextureFormat::Depth32FloatStencil8 => DXGI_FORMAT_D32_FLOAT_S8X24_UINT,
        TextureFormat::NV12 => DXGI_FORMAT_NV12,
        TextureFormat::Bc1RgbaUnorm => DXGI_FORMAT_BC1_UNORM,
        TextureFormat::Bc1RgbaUnormSrgb => DXGI_FORMAT_BC1_UNORM_SRGB,
        TextureFormat::Bc2RgbaUnorm => DXGI_FORMAT_BC2_UNORM,
        TextureFormat::Bc2RgbaUnormSrgb => DXGI_FORMAT_BC2_UNORM_SRGB,
        TextureFormat::Bc3RgbaUnorm => DXGI_FORMAT_BC3_UNORM,
        TextureFormat::Bc3RgbaUnormSrgb => DXGI_FORMAT_BC3_UNORM_SRGB,
        TextureFormat::Bc4RUnorm => DXGI_FORMAT_BC4_UNORM,
        TextureFormat::Bc4RSnorm => DXGI_FORMAT_BC4_SNORM,
        TextureFormat::Bc5RgUnorm => DXGI_FORMAT_BC5_UNORM,
        TextureFormat::Bc5RgSnorm => DXGI_FORMAT_BC5_SNORM,
        TextureFormat::Bc6hRgbUfloat => DXGI_FORMAT_BC6H_UF16,
        TextureFormat::Bc6hRgbFloat => DXGI_FORMAT_BC6H_SF16,
        TextureFormat::Bc7RgbaUnorm => DXGI_FORMAT_BC7_UNORM,
        TextureFormat::Bc7RgbaUnormSrgb => DXGI_FORMAT_BC7_UNORM_SRGB,
        TextureFormat::Etc2Rgb8Unorm
        | TextureFormat::Etc2Rgb8UnormSrgb
        | TextureFormat::Etc2Rgb8A1Unorm
        | TextureFormat::Etc2Rgb8A1UnormSrgb
        | TextureFormat::Etc2Rgba8Unorm
        | TextureFormat::Etc2Rgba8UnormSrgb
        | TextureFormat::EacR11Unorm
        | TextureFormat::EacR11Snorm
        | TextureFormat::EacRg11Unorm
        | TextureFormat::EacRg11Snorm
        | TextureFormat::Astc { .. } => return None,
    };
    Some(raw)
}

/// How the session's swapchain is created with Direct3D 12: images in
/// `format`, at `resolution`; see [`raw_swapchain_info`]. The format must have
/// a DXGI counterpart.
pub fn swapchain_create_info(format: TextureFormat, resolution: UVec2) -> (r: RawSwapchainCreateInfo)
    requires
        dxgi_format(format) is Some,
    ensures
        r == raw_swapchain_info(dxgi_format(format)->0, resolution),
{
    let raw = wgpu_to_d3d12(format);
    match raw {
        Some(f) => raw_swapchain_create_info(f, resolution),
        None => raw_swapchain_create_info(0, resolution),
    }
}

} // verus!
