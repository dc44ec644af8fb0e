//! Plain-value types of the OpenXR plugin: versions, application info,
//! graphics backends, errors and swapchain descriptions.

use vstd::prelude::*;
use vstd::string::StringExecFns;
use crate::ext_set::{ExtensionSet, EXT_COUNT, KHR_VULKAN_ENABLE2, flags_within, names_within};
use crate::openxr::extensions::{XrExtensions, available_within};
use crate::graphics::RawSwapchainCreateInfo;
use crate::texture_format::TextureFormat;

verus! {

/// Packs a semantic version the way OpenXR packs application and engine
/// versions: major in bits 24..32, minor in bits 16..24, patch in bits 0..16.
pub open spec fn packed_version(major: u8, minor: u8, patch: u16) -> u32 {
    (major as int * 0x100_0000 + minor as int * 0x1_0000 + patch as int) as u32
}

/// An application or engine version: `(major, minor, patch)`.
#[derive(Clone, Copy, Debug, PartialEq, Eq, Structural)]
pub struct Version(pub u8, pub u8, pub u16);

impl Default for Version {
    /// Version 0.0.0.
    fn default() -> (v: Self)
        ensures
            v == Version(0, 0, 0),
    {
        Version(0, 0, 0)
    }
}

impl Version {
    /// The engine version reported to the runtime.
    pub fn bevy() -> (v: Self)
        ensures
            v == Version(0, 12, 1),
    {
        Version(0, 12, 1)
    }

    /// The packed 32-bit form of this version.
    pub fn to_u32(self) -> (r: u32)
        ensures
            r == packed_version(self.0, self.1, self.2),
            r as int == self.0 as int * 0x100_0000 + self.1 as int * 0x1_0000 + self.2 as int,
    {
        let major = (self.0 as u32) << 24u32;
        let minor = (self.1 as u32) << 16u32;
        let r = self.2 as u32 | major | minor;
        let a = self.0;
        let b = self.1;
        let c = self.2;
        assert(((c as u32) | ((a as u32) << 24u32) | ((b as u32) << 16u32)) as int
            == a as int * 0x100_0000 + b as int * 0x1_0000 + c as int) by (bit_vector);
        r
    }
}

/// Two versions pack to the same number only if they are the same version.
pub proof fn lemma_packed_version_injective(a: Version, b: Version)
    requires
        packed_version(a.0, a.1, a.2) == packed_version(b.0, b.1, b.2),
    ensures
        a == b,
{
    let (x0, x1, x2) = (a.0, a.1, a.2);
    let (y0, y1, y2) = (b.0, b.1, b.2);
    assert(x0 as int * 0x100_0000 + x1 as int * 0x1_0000 + x2 as int
        == y0 as int * 0x100_0000 + y1 as int * 0x1_0000 + y2 as int);
    assert(x2 as int == y2 as int && x1 as int == y1 as int && x0 as int == y0 as int) by (nonlinear_arith)
        requires
            x0 as int * 0x100_0000 + x1 as int * 0x1_0000 + x2 as int
                == y0 as int * 0x100_0000 + y1 as int * 0x1_0000 + y2 as int,
            x1 < 256, y1 < 256, x2 < 0x1_0000, y2 < 0x1_0000,
    ;
}

/// Information about the application, handed to the runtime.
#[derive(Debug)]
pub struct AppInfo {
    pub name: String,
    pub version: Version,
}

impl Default for AppInfo {
    /// An application called "Bevy", at the engine's version.
    fn default() -> (r: Self)
        ensures
            r.name@ == "Bevy"@,
            r.version == Version(0, 12, 1),
    {
        AppInfo { name: String::from_str("Bevy"), version: Version::bevy() }
    }
}

/// A graphics API that a session can render with.
#[derive(Clone, Copy, Debug, PartialEq, Eq, Structural)]
pub enum GraphicsBackend {
    Vulkan,
}

/// The flags of the extensions that `backend` cannot do without.
pub open spec fn required_flags(backend: GraphicsBackend) -> Seq<bool> {
    match backend {
        GraphicsBackend::Vulkan => Seq::new(EXT_COUNT as nat, |e: int| e == KHR_VULKAN_ENABLE2),
    }
}

/// The backends that the plugin supports, in order of preference.
pub open spec fn all_backends() -> Seq<GraphicsBackend> {
    seq![GraphicsBackend::Vulkan]
}

/// The backends of `backends` whose required extensions are all set in `flags`,
/// in order.
pub open spec fn backends_available(backends: Seq<GraphicsBackend>, flags: Seq<bool>) -> Seq<GraphicsBackend> {
    backends.filter(|b: GraphicsBackend| flags_within(required_flags(b), flags))
}

impl GraphicsBackend {
    /// The backends that the plugin supports, in order of preference.
    pub fn all() -> (r: Vec<Self>)
        ensures
            r@ == all_backends(),
    {
        let mut v = Vec::new();
        v.push(GraphicsBackend::Vulkan);
        proof {
            assert(v@ =~= all_backends());
        }
        v
    }

    /// The supported backends whose required extensions are all in `exts`.
    pub fn available_backends(exts: &XrExtensions) -> (r: Vec<Self>)
        ensures
            r@ == backends_available(all_backends(), exts.0.flags@),
    {
        let all = Self::all();
        let mut out: Vec<Self> = Vec::new();
        let mut i: usize = 0;
        while i < all.len()
            invariant
                i <= all@.len(),
                all@ == all_backends(),
                out@ == backends_available(all@.take(i as int), exts.0.flags@),
            decreases all@.len() - i,
        {
            let backend = all[i];
            proof {
                assert(all@.take(i + 1).drop_last() =~= all@.take(i as int));
                reveal_with_fuel(Seq::filter, 1);
            }
            if backend.is_available(exts) {
                out.push(backend);
            }
            i = i + 1;
        }
        proof {
            assert(all@.take(all@.len() as int) =~= all@);
        }
        out
    }

    /// Whether `exts` holds every extension this backend requires.
    pub fn is_available(&self, exts: &XrExtensions) -> (r: bool)
        ensures
            r == flags_within(required_flags(*self), exts.0.flags@),
    {
        let required = self.required_exts();
        let r = required.is_available(exts);
        proof {
            assert(required.0.others().len() == 0);
        }
        r
    }

    /// The extensions this backend cannot do without.
    pub fn required_exts(&self) -> (r: XrExtensions)
        ensures
            r.0.flags@ == required_flags(*self),
            r.0.other@.len() == 0,
    {
        match self {
            GraphicsBackend::Vulkan => {
                let mut exts = ExtensionSet::empty();
                exts.flags[KHR_VULKAN_ENABLE2] = true;
                proof {
                    assert(exts.flags@ =~= required_flags(*self));
                }
                XrExtensions(exts)
            },
        }
    }
}

/// Extension names that the runtime does not offer.
#[derive(Debug)]
pub struct UnavailableExts(pub Vec<String>);

/// Each name, led by a tab, one after the other.
pub open spec fn tab_led(names: Seq<Seq<char>>) -> Seq<char>
    decreases names.len(),
{
    if names.len() == 0 {
        Seq::empty()
    } else {
        tab_led(names.drop_last()) + "\t"@ + names.last()
    }
}

impl UnavailableExts {
    /// The names, each led by a tab, one after the other.
    pub fn message(&self) -> (r: String)
        ensures
            r@ == tab_led(self.0@.map_values(|s: String| s@)),
    {
        let ghost names = self.0@.map_values(|s: String| s@);
        let mut out = String::new();
        let mut i: usize = 0;
        while i < self.0.len()
            invariant
                i <= self.0@.len(),
                names == self.0@.map_values(|s: String| s@),
                out@ == tab_led(names.take(i as int)),
            decreases self.0@.len() - i,
        {
            out.append("\t");
            out.append(self.0[i].as_str());
            proof {
                assert(names.take(i + 1).drop_last() =~= names.take(i as int));
                assert(names.take(i + 1).last() == self.0@[i as int]@);
            }
            i = i + 1;
        }
        proof {
            assert(names.take(self.0@.len() as int) =~= names);
        }
        out
    }
}

/// Why the plugin could not set up a session.
#[derive(Debug)]
pub enum XrError {
    UnsupportedTextureFormat(TextureFormat),
    UnavailableBackend(GraphicsBackend),
    NoAvailableBackend,
    NoAvailableViewConfiguration,
    NoAvailableBlendMode,
    NoAvailableFormat,
    UnavailableExtensions(UnavailableExts),
    FailedGraphicsRequirements,
    GraphicsBackendMismatch { item: &'static str, backend: &'static str, expected_backend: &'static str },
}

impl From<Vec<String>> for XrError {
    /// The extensions with these names are not available.
    fn from(value: Vec<String>) -> (r: Self)
        ensures
            r == XrError::UnavailableExtensions(UnavailableExts(value)),
    {
        XrError::UnavailableExtensions(UnavailableExts(value))
    }
}

impl vstd::std_specs::convert::FromSpecImpl<Vec<String>> for XrError {
    open spec fn obeys_from_spec() -> bool {
        true
    }

    open spec fn from_spec(v: Vec<String>) -> Self {
        XrError::UnavailableExtensions(UnavailableExts(v))
    }
}

/// `SwapchainCreateInfo::create_flags`: no flag.
pub const SWAPCHAIN_CREATE_FLAGS_EMPTY: u64 = 0;
/// `SwapchainUsageFlags::COLOR_ATTACHMENT`.
pub const SWAPCHAIN_USAGE_COLOR_ATTACHMENT: u64 = 1;
/// `SwapchainUsageFlags::SAMPLED`.
pub const SWAPCHAIN_USAGE_SAMPLED: u64 = 32;

/// How a swapchain is to be created.
#[derive(Debug, Copy, Clone, PartialEq, Eq, Structural)]
pub struct SwapchainCreateInfo {
    pub create_flags: u64,
    pub usage_flags: u64,
    pub format: TextureFormat,
    pub sample_count: u32,
    pub width: u32,
    pub height: u32,
    pub face_count: u32,
    pub array_size: u32,
    pub mip_count: u32,
}

impl SwapchainCreateInfo {
    /// This description for a graphics API, given the API's raw counterpart of
    /// the format if it has one: the same fields with that format, or
    /// [`XrError::UnsupportedTextureFormat`] when the API has none.
    pub fn try_into_api(self, api_format: Option<u32>) -> (r: Result<RawSwapchainCreateInfo, XrError>)
        ensures
            match api_format {
                Some(f) => r == Ok::<RawSwapchainCreateInfo, XrError>(
                    RawSwapchainCreateInfo {
                        create_flags: self.create_flags,
                        usage_flags: self.usage_flags,
                        format: f,
                        sample_count: self.sample_count,
                        width: self.width,
                        height: self.height,
                        face_count: self.face_count,
                        array_size: self.array_size,
                        mip_count: self.mip_count,
                    },
                ),
                None => r matches Err(XrError::UnsupportedTextureFormat(f)) && f == self.format,
            },
    {
        match api_format {
            Some(format) => Ok(RawSwapchainCreateInfo {
                create_flags: self.create_flags,
                usage_flags: self.usage_flags,
                format,
                sample_count: self.sample_count,
                width: self.width,
                height: self.height,
                face_count: self.face_count,
                array_size: self.array_size,
                mip_count: self.mip_count,
            }),
            None => Err(XrError::UnsupportedTextureFormat(self.format)),
        }
    }
}

} // verus!
