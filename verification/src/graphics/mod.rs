//! Choosing a graphics backend and blend mode for an OpenXR session.

pub mod d3d12;
pub mod extensions;
pub mod vulkan;

use vstd::prelude::*;
use vstd::string::StringExecFns;
use crate::ext_set::{KHR_D3D12_ENABLE, KHR_VULKAN_ENABLE2};
use crate::graphics::extensions::XrExtensions;
use crate::openxr::{Rect2Di, UVec2, ViewConfigurationView, image_rect};
use crate::openxr::render::{ProjectionLayerPlan, ProjectionViewPlan};
use crate::openxr::types::{SWAPCHAIN_CREATE_FLAGS_EMPTY, SWAPCHAIN_USAGE_COLOR_ATTACHMENT, SWAPCHAIN_USAGE_SAMPLED};
use crate::texture_format::TextureFormat;
use crate::types::{ENVIRONMENT_BLEND_MODE_ADDITIVE, ENVIRONMENT_BLEND_MODE_ALPHA_BLEND, ENVIRONMENT_BLEND_MODE_OPAQUE};

verus! {

/// The blend mode that the app would like the session to use.
#[derive(Clone, Copy, Debug, PartialEq, Eq, Structural)]
pub enum XrPreferdBlendMode {
    Opaque,
    Additive,
    AlphaBlend,
}

impl Default for XrPreferdBlendMode {
    /// Opaque.
    fn default() -> (r: Self)
        ensures
            r == XrPreferdBlendMode::Opaque,
    {
        Self::Opaque
    }
}

/// The raw OpenXR environment blend mode that `pref` stands for.
pub open spec fn preferred_raw(pref: XrPreferdBlendMode) -> i32 {
    match pref {
        XrPreferdBlendMode::Opaque => ENVIRONMENT_BLEND_MODE_OPAQUE,
        XrPreferdBlendMode::Additive => ENVIRONMENT_BLEND_MODE_ADDITIVE,
        XrPreferdBlendMode::AlphaBlend => ENVIRONMENT_BLEND_MODE_ALPHA_BLEND,
    }
}

/// The blend mode a session uses: the preferred one if the runtime offers it,
/// else opaque.
pub open spec fn session_blend_mode(pref: XrPreferdBlendMode, available: Seq<i32>) -> i32 {
    if available.contains(preferred_raw(pref)) {
        preferred_raw(pref)
    } else {
        ENVIRONMENT_BLEND_MODE_OPAQUE
    }
}

/// Picks the raw environment blend mode of a session from the blend modes that
/// the runtime offers; see [`session_blend_mode`].
pub fn choose_blend_mode(pref: XrPreferdBlendMode, available: &Vec<i32>) -> (r: i32)
    ensures
        r == session_blend_mode(pref, available@),
{
    let wanted = match pref {
        XrPreferdBlendMode::Opaque => ENVIRONMENT_BLEND_MODE_OPAQUE,
        XrPreferdBlendMode::Additive => ENVIRONMENT_BLEND_MODE_ADDITIVE,
        XrPreferdBlendMode::AlphaBlend => ENVIRONMENT_BLEND_MODE_ALPHA_BLEND,
    };
    let mut i: usize = 0;
    while i < available.len()
        invariant
            i <= available@.len(),
            wanted == preferred_raw(pref),
            forall|j: int| 0 <= j < i ==> available@[j] != wanted,
        decreases available@.len() - i,
    {
        if available[i] == wanted {
            proof {
                assert(available@.contains(wanted));
            }
            return wanted;
        }
        i = i + 1;
    }
    ENVIRONMENT_BLEND_MODE_OPAQUE
}

/// The blend mode choice: the preferred mode (raw 1 opaque, 2 additive, 3
/// alpha blend) when the runtime offers it, else opaque (raw 1); never another
/// offered mode.
pub proof fn lemma_blend_mode_choice(pref: XrPreferdBlendMode, available: Seq<i32>)
    ensures
        preferred_raw(XrPreferdBlendMode::Opaque) == 1,
        preferred_raw(XrPreferdBlendMode::Additive) == 2,
        preferred_raw(XrPreferdBlendMode::AlphaBlend) == 3,
        available.contains(preferred_raw(pref)) ==> session_blend_mode(pref, available) == preferred_raw(pref),
        !available.contains(preferred_raw(pref)) ==> session_blend_mode(pref, available) == 1,
        session_blend_mode(pref, available) == preferred_raw(pref) || session_blend_mode(pref, available) == 1,
{
}

/// The name the app gives the runtime.
#[derive(Clone, Debug)]
pub struct XrAppInfo {
    pub name: String,
}

impl Default for XrAppInfo {
    /// An app called "Ambient".
    fn default() -> (r: Self)
        ensures
            r.name@ == "Ambient"@,
    {
        Self { name: String::from_str("Ambient") }
    }
}

/// A graphics API that a session can be created with.
#[derive(Clone, Copy, Debug, PartialEq, Eq, Structural)]
pub enum Backend {
    Vulkan,
    D3D12,
}

/// Whether the runtime, offering `flags`, supports `backend`.
pub open spec fn backend_supported(backend: Backend, flags: Seq<bool>) -> bool {
    match backend {
        Backend::Vulkan => flags[KHR_VULKAN_ENABLE2 as int],
        Backend::D3D12 => flags[KHR_D3D12_ENABLE as int],
    }
}

/// The first backend of `prefs` that the runtime supports.
pub open spec fn first_supported(prefs: Seq<Backend>, flags: Seq<bool>) -> Option<Backend>
    decreases prefs.len(),
{
    if prefs.len() == 0 {
        None
    } else if backend_supported(prefs[0], flags) {
        Some(prefs[0])
    } else {
        first_supported(prefs.drop_first(), flags)
    }
}

/// The backend choice picks the earliest preference that the runtime
/// supports, Vulkan needing Vulkan enablement and Direct3D 12 needing
/// Direct3D 12 enablement: it sits at the returned position, and no earlier
/// preference is supported.
pub proof fn lemma_first_supported_earliest(prefs: Seq<Backend>, flags: Seq<bool>) -> (i: int)
    requires
        first_supported(prefs, flags) is Some,
    ensures
        0 <= i < prefs.len(),
        first_supported(prefs, flags) == Some(prefs[i]),
        prefs[i] == Backend::Vulkan ==> flags[KHR_VULKAN_ENABLE2 as int],
        prefs[i] == Backend::D3D12 ==> flags[KHR_D3D12_ENABLE as int],
        forall|k: int| 0 <= k < i ==> !backend_supported(#[trigger] prefs[k], flags),
    decreases prefs.len(),
{
    if backend_supported(prefs[0], flags) {
        0
    } else {
        let j = lemma_first_supported_earliest(prefs.drop_first(), flags);
        assert(prefs[j + 1] == prefs.drop_first()[j]);
        assert forall|k: int| 0 <= k < j + 1 implies !backend_supported(#[trigger] prefs[k], flags) by {
            if k > 0 {
                assert(prefs[k] == prefs.drop_first()[k - 1]);
            }
        }
        j + 1
    }
}

/// When no preference is supported, the choice finds none.
pub proof fn lemma_first_supported_none(prefs: Seq<Backend>, flags: Seq<bool>)
    requires
        forall|k: int| 0 <= k < prefs.len() ==> !backend_supported(#[trigger] prefs[k], flags),
    ensures
        first_supported(prefs, flags) is None,
    decreases prefs.len(),
{
    if prefs.len() > 0 {
        assert forall|k: int| 0 <= k < prefs.drop_first().len() implies !backend_supported(#[trigger] prefs.drop_first()[k], flags) by {
            assert(prefs.drop_first()[k] == prefs[k + 1]);
        }
        lemma_first_supported_none(prefs.drop_first(), flags);
    }
}

/// Why no backend could be chosen.
#[derive(Clone, Copy, Debug, PartialEq, Eq, Structural)]
pub enum BackendChoiceError {
    /// The app selected no backend at all.
    NoBackendSelected,
    /// The runtime supports none of the selected backends.
    NoSupportedBackend,
}

/// The name of a backend, as its debug form writes it.
pub open spec fn backend_name(backend: Backend) -> Seq<char> {
    match backend {
        Backend::Vulkan => "Vulkan"@,
        Backend::D3D12 => "D3D12"@,
    }
}

/// The names of `prefs`, separated by ", ".
pub open spec fn backend_names(prefs: Seq<Backend>) -> Seq<char>
    decreases prefs.len(),
{
    if prefs.len() == 0 {
        Seq::empty()
    } else if prefs.len() == 1 {
        backend_name(prefs[0])
    } else {
        backend_names(prefs.drop_last()) + ", "@ + backend_name(prefs.last())
    }
}

/// The text of a backend-choice error, given the app's preferences.
pub open spec fn backend_choice_text(err: BackendChoiceError, prefs: Seq<Backend>) -> Seq<char> {
    match err {
        BackendChoiceError::NoBackendSelected => "Cannot initialize with no backend selected"@,
        BackendChoiceError::NoSupportedBackend => "No selected backend was supported by the runtime. Selected: ["@
            + backend_names(prefs) + "]"@,
    }
}

impl BackendChoiceError {
    /// What went wrong, in words; the second kind lists the selected backends.
    pub fn message(&self, backend_preference: &Vec<Backend>) -> (r: String)
        ensures
            r@ == backend_choice_text(*self, backend_preference@),
    {
        match self {
            BackendChoiceError::NoBackendSelected => String::from_str("Cannot initialize with no backend selected"),
            BackendChoiceError::NoSupportedBackend => {
                let ghost prefs = backend_preference@;
                let mut out = String::from_str("No selected backend was supported by the runtime. Selected: [");
                let ghost start = out@;
                let mut i: usize = 0;
                proof {
                    assert(prefs.take(0) =~= Seq::<Backend>::empty());
                    assert(out@ =~= start + backend_names(prefs.take(0)));
                }
                while i < backend_preference.len()
                    invariant
                        i <= prefs.len(),
                        prefs == backend_preference@,
                        out@ == start + backend_names(prefs.take(i as int)),
                    decreases prefs.len() - i,
                {
                    if i > 0 {
                        out.append(", ");
                    }
                    match backend_preference[i] {
                        Backend::Vulkan => out.append("Vulkan"),
                        Backend::D3D12 => out.append("D3D12"),
                    }
                    proof {
                        let next = prefs.take(i + 1);
                        assert(next.drop_last() =~= prefs.take(i as int));
                        assert(next.last() == prefs[i as int]);
                        if i == 0 {
                            assert(next[0] == prefs[0]);
                        }
                    }
                    i = i + 1;
                }
                out.append("]");
                proof {
                    assert(prefs.take(prefs.len() as int) =~= prefs);
                }
                out
            },
        }
    }
}

/// The backend to create the instance with: the first of the app's preferences
/// that the runtime supports.
pub fn choose_backend(backend_preference: &Vec<Backend>, available_extensions: &XrExtensions) -> (r: Result<Backend, BackendChoiceError>)
    ensures
        backend_preference@.len() == 0 ==> r == Err::<Backend, BackendChoiceError>(BackendChoiceError::NoBackendSelected),
        backend_preference@.len() > 0 ==> r == match first_supported(backend_preference@, available_extensions.0.flags@) {
            Some(b) => Ok(b),
            None => Err(BackendChoiceError::NoSupportedBackend),
        },
{
    if backend_preference.len() == 0 {
        return Err(BackendChoiceError::NoBackendSelected);
    }
    let ghost prefs = backend_preference@;
    let ghost flags = available_extensions.0.flags@;
    let mut i: usize = 0;
    proof {
        assert(prefs.skip(0) =~= prefs);
    }
    while i < backend_preference.len()
        invariant
            i <= prefs.len(),
            prefs == backend_preference@,
            flags == available_extensions.0.flags@,
            first_supported(prefs, flags) == first_supported(prefs.skip(i as int), flags),
        decreases prefs.len() - i,
    {
        let backend = backend_preference[i];
        proof {
            assert(prefs.skip(i as int)[0] == backend);
            assert(prefs.skip(i as int).drop_first() =~= prefs.skip(i + 1));
        }
        let supported = match backend {
            Backend::Vulkan => available_extensions.raw().flags[KHR_VULKAN_ENABLE2],
            Backend::D3D12 => available_extensions.raw().flags[KHR_D3D12_ENABLE],
        };
        if supported {
            return Ok(backend);
        }
        i = i + 1;
    }
    Err(BackendChoiceError::NoSupportedBackend)
}

/// The format of the swapchain images: the first format that the window's
/// surface supports, or `Rgba8UnormSrgb` when there is no window.
pub open spec fn surface_format(surface_formats: Option<Seq<TextureFormat>>) -> TextureFormat {
    match surface_formats {
        Some(formats) => formats[0],
        None => TextureFormat::Rgba8UnormSrgb,
    }
}

/// Picks the swapchain format from the formats the window's surface supports,
/// if there is a window; see [`surface_format`]. A surface supports at least
/// one format.
pub fn swapchain_format(surface_formats: &Option<Vec<TextureFormat>>) -> (r: TextureFormat)
    requires
        surface_formats matches Some(f) ==> f@.len() > 0,
    ensures
        r == surface_format(
            match surface_formats {
                Some(f) => Some(f@),
                None => None,
            },
        ),
{
    match surface_formats {
        Some(formats) => formats[0],
        None => TextureFormat::Rgba8UnormSrgb,
    }
}

/// The swapchain resolution: the size that the first view recommends. The
/// runtime reports at least one view.
pub fn view_resolution(views: &Vec<ViewConfigurationView>) -> (r: UVec2)
    requires
        views@.len() > 0,
    ensures
        r.x == views@[0].recommended_image_rect_width,
        r.y == views@[0].recommended_image_rect_height,
{
    UVec2 { x: views[0].recommended_image_rect_width, y: views[0].recommended_image_rect_height }
}

/// How a swapchain is created with a graphics API, the format given by the
/// API's own raw value.
#[derive(Clone, Copy, Debug, PartialEq, Eq, Structural)]
pub struct RawSwapchainCreateInfo {
    pub create_flags: u64,
    pub usage_flags: u64,
    pub format: u32,
    pub sample_count: u32,
    pub width: u32,
    pub height: u32,
    pub face_count: u32,
    pub array_size: u32,
    pub mip_count: u32,
}

/// The swapchain of a session: no flag, used as a color attachment and
/// sampled, one sample, the given resolution, one face, one layer per eye and
/// one mip level.
pub open spec fn raw_swapchain_info(format: u32, resolution: UVec2) -> RawSwapchainCreateInfo {
    RawSwapchainCreateInfo {
        create_flags: SWAPCHAIN_CREATE_FLAGS_EMPTY,
        usage_flags: SWAPCHAIN_USAGE_COLOR_ATTACHMENT | SWAPCHAIN_USAGE_SAMPLED,
        format,
        sample_count: 1,
        width: resolution.x,
        height: resolution.y,
        face_count: 1,
        array_size: 2,
        mip_count: 1,
    }
}

/// Builds [`raw_swapchain_info`].
pub fn raw_swapchain_create_info(format: u32, resolution: UVec2) -> (r: RawSwapchainCreateInfo)
    ensures
        r == raw_swapchain_info(format, resolution),
{
    RawSwapchainCreateInfo {
        create_flags: SWAPCHAIN_CREATE_FLAGS_EMPTY,
        usage_flags: SWAPCHAIN_USAGE_COLOR_ATTACHMENT | SWAPCHAIN_USAGE_SAMPLED,
        format,
        sample_count: 1,
        width: resolution.x,
        height: resolution.y,
        face_count: 1,
        array_size: 2,
        mip_count: 1,
    }
}

/// Where a new session starts: not yet running, no located views, a frame
/// state that is to be rendered at display time 1 ns with a 1 ns period, and
/// the first swapchain image.
#[derive(Clone, Copy, Debug, PartialEq, Eq, Structural)]
pub struct SessionStartState {
    pub running: bool,
    /// How many views have been located.
    pub view_count: usize,
    pub predicted_display_time_ns: i64,
    pub predicted_display_period_ns: i64,
    pub should_render: bool,
    /// The index of the swapchain image being rendered to.
    pub image_index: usize,
}

/// The state that session start hands over alongside the session.
pub fn session_start_state() -> (r: SessionStartState)
    ensures
        r == (SessionStartState {
            running: false,
            view_count: 0,
            predicted_display_time_ns: 1,
            predicted_display_period_ns: 1,
            should_render: true,
            image_index: 0,
        }),
{
    SessionStartState {
        running: false,
        view_count: 0,
        predicted_display_time_ns: 1,
        predicted_display_period_ns: 1,
        should_render: true,
        image_index: 0,
    }
}

/// The layer that ends a frame on the session's swapchain, given how many
/// views were located: none when no view was, in which case no frame is
/// submitted at all; else no flag and the first two views, each showing its
/// own array layer of the image, all of it. One located view alone is
/// refused.
pub fn swapchain_end_layer(view_count: usize, resolution: UVec2) -> (r: Option<ProjectionLayerPlan>)
    requires
        view_count != 1,
    ensures
        view_count == 0 ==> r is None,
        view_count >= 2 ==> r == Some(
            ProjectionLayerPlan {
                layer_flags: 0,
                left: ProjectionViewPlan {
                    pose_view: 0,
                    image_array_index: 0,
                    image_rect: Rect2Di { x: 0, y: 0, width: resolution.x as i32, height: resolution.y as i32 },
                },
                right: ProjectionViewPlan {
                    pose_view: 1,
                    image_array_index: 1,
                    image_rect: Rect2Di { x: 0, y: 0, width: resolution.x as i32, height: resolution.y as i32 },
                },
            },
        ),
{
    if view_count == 0 {
        return None;
    }
    let rect = image_rect(resolution);
    Some(ProjectionLayerPlan {
        layer_flags: 0,
        left: ProjectionViewPlan { pose_view: 0, image_array_index: 0, image_rect: rect },
        right: ProjectionViewPlan { pose_view: 1, image_array_index: 1, image_rect: rect },
    })
}

} // verus!
