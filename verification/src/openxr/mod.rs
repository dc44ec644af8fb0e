//! The OpenXR plugin: what it asks the runtime for, and how it chooses among
//! what the runtime offers.

pub mod extensions;
pub mod init;
pub mod render;
pub mod resources;
pub mod types;

use vstd::prelude::*;
use crate::openxr::extensions::XrExtensions;
use crate::openxr::types::{AppInfo, GraphicsBackend, SwapchainCreateInfo, XrError, SWAPCHAIN_CREATE_FLAGS_EMPTY, SWAPCHAIN_USAGE_COLOR_ATTACHMENT, SWAPCHAIN_USAGE_SAMPLED};
use crate::texture_format::TextureFormat;

verus! {

/// A width and height in pixels.
#[derive(Clone, Copy, Debug, PartialEq, Eq, Structural)]
pub struct UVec2 {
    pub x: u32,
    pub y: u32,
}

/// What the runtime reports of one view of a view configuration.
#[derive(Clone, Copy, Debug, PartialEq, Eq, Structural)]
pub struct ViewConfigurationView {
    pub recommended_image_rect_width: u32,
    pub max_image_rect_width: u32,
    pub recommended_image_rect_height: u32,
    pub max_image_rect_height: u32,
    pub recommended_swapchain_sample_count: u32,
    pub max_swapchain_sample_count: u32,
}

/// The raw value of OpenXR's primary stereo view configuration.
pub const VIEW_CONFIGURATION_TYPE_PRIMARY_STEREO: i32 = 2;

/// How the OpenXR plugin sets up a session.
#[derive(Debug)]
pub struct XrInitPlugin {
    /// Information about the app this is being used to build.
    pub app_info: AppInfo,
    /// Extensions wanted for this session.
    pub exts: XrExtensions,
    /// Raw environment blend modes the session can use. If [None], pick the first
    /// available blend mode.
    pub blend_modes: Option<Vec<i32>>,
    /// Backends the session can use. If [None], pick the first available backend.
    pub backends: Option<Vec<GraphicsBackend>>,
    /// Formats the swapchain can use. If [None], pick the first available format.
    pub formats: Option<Vec<TextureFormat>>,
    /// Resolutions the swapchain can use. If [None], pick the first available
    /// resolution.
    pub resolutions: Option<Vec<UVec2>>,
    /// Passed into the render plugin when added to the app.
    pub synchronous_pipeline_compilation: bool,
}

/// The plugins that make an app render to a headset.
pub struct DefaultXrPlugins;

impl DefaultXrPlugins {
    /// The setup that the default plugins use: the defaults, except that the
    /// swapchain format is `Rgba8UnormSrgb`.
    pub fn init_plugin(&self) -> (r: XrInitPlugin)
        ensures
            r.app_info.name@ == "Bevy"@,
            r.app_info.version == crate::openxr::types::Version(0, 12, 1),
            r.exts.0.other@.len() == 0,
            forall|e: int| 0 <= e < crate::ext_set::EXT_COUNT ==> (#[trigger] r.exts.0.flags@[e] <==> e == crate::ext_set::EXT_HAND_TRACKING),
            r.blend_modes is None,
            r.backends is None,
            r.formats matches Some(f) && f@ == seq![TextureFormat::Rgba8UnormSrgb],
            r.resolutions is None,
            !r.synchronous_pipeline_compilation,
    {
        let mut formats = Vec::new();
        formats.push(TextureFormat::Rgba8UnormSrgb);
        proof {
            assert(formats@ =~= seq![TextureFormat::Rgba8UnormSrgb]);
        }
        XrInitPlugin {
            app_info: AppInfo::default(),
            exts: XrExtensions::default(),
            blend_modes: None,
            backends: None,
            formats: Some(formats),
            resolutions: None,
            synchronous_pipeline_compilation: false,
        }
    }
}

/// The first of `wanted` that `available` holds.
pub open spec fn first_wanted<T>(wanted: Seq<T>, available: Seq<T>) -> Option<T>
    decreases wanted.len(),
{
    if wanted.len() == 0 {
        None
    } else if available.contains(wanted[0]) {
        Some(wanted[0])
    } else {
        first_wanted(wanted.drop_first(), available)
    }
}

/// The last of `wanted` that `available` holds.
pub open spec fn last_wanted<T>(wanted: Seq<T>, available: Seq<T>) -> Option<T>
    decreases wanted.len(),
{
    if wanted.len() == 0 {
        None
    } else if available.contains(wanted.last()) {
        Some(wanted.last())
    } else {
        last_wanted(wanted.drop_last(), available)
    }
}

/// The first element of `s`, if there is one.
pub open spec fn first_of<T>(s: Seq<T>) -> Option<T> {
    if s.len() > 0 {
        Some(s[0])
    } else {
        None
    }
}

/// `Ok` with the value, or `Err(err)` without one.
pub open spec fn ok_or<T>(o: Option<T>, err: XrError) -> Result<T, XrError> {
    match o {
        Some(v) => Ok(v),
        None => Err(err),
    }
}

fn contains_backend(v: &Vec<GraphicsBackend>, x: GraphicsBackend) -> (r: bool)
    ensures
        r == v@.contains(x),
{
    let mut i: usize = 0;
    while i < v.len()
        invariant
            i <= v@.len(),
            forall|j: int| 0 <= j < i ==> v@[j] != x,
        decreases v@.len() - i,
    {
        if v[i] == x {
            return true;
        }
        i = i + 1;
    }
    false
}

fn contains_raw(v: &Vec<i32>, x: i32) -> (r: bool)
    ensures
        r == v@.contains(x),
{
    let mut i: usize = 0;
    while i < v.len()
        invariant
            i <= v@.len(),
            forall|j: int| 0 <= j < i ==> v@[j] != x,
        decreases v@.len() - i,
    {
        if v[i] == x {
            return true;
        }
        i = i + 1;
    }
    false
}

fn contains_format(v: &Vec<TextureFormat>, x: TextureFormat) -> (r: bool)
    ensures
        r == v@.contains(x),
{
    let mut i: usize = 0;
    while i < v.len()
        invariant
            i <= v@.len(),
            forall|j: int| 0 <= j < i ==> v@[j] != x,
        decreases v@.len() - i,
    {
        if v[i] == x {
            return true;
        }
        i = i + 1;
    }
    false
}

fn first_available_backend(wanted: &Vec<GraphicsBackend>, available: &Vec<GraphicsBackend>) -> (r: Option<GraphicsBackend>)
    ensures
        r == first_wanted(wanted@, available@),
{
    let mut i: usize = 0;
    proof {
        assert(wanted@.skip(0) =~= wanted@);
    }
    while i < wanted.len()
        invariant
            i <= wanted@.len(),
            first_wanted(wanted@, available@) == first_wanted(wanted@.skip(i as int), available@),
        decreases wanted@.len() - i,
    {
        let x = wanted[i];
        proof {
            assert(wanted@.skip(i as int)[0] == x);
            assert(wanted@.skip(i as int).drop_first() =~= wanted@.skip(i + 1));
        }
        if contains_backend(available, x) {
            return Some(x);
        }
        i = i + 1;
    }
    None
}

fn first_available_raw(wanted: &Vec<i32>, available: &Vec<i32>) -> (r: Option<i32>)
    ensures
        r == first_wanted(wanted@, available@),
{
    let mut i: usize = 0;
    proof {
        assert(wanted@.skip(0) =~= wanted@);
    }
    while i < wanted.len()
        invariant
            i <= wanted@.len(),
            first_wanted(wanted@, available@) == first_wanted(wanted@.skip(i as int), available@),
        decreases wanted@.len() - i,
    {
        let x = wanted[i];
        proof {
            assert(wanted@.skip(i as int)[0] == x);
            assert(wanted@.skip(i as int).drop_first() =~= wanted@.skip(i + 1));
        }
        if contains_raw(available, x) {
            return Some(x);
        }
        i = i + 1;
    }
    None
}

/// The backend to render with: the first wanted backend that is available, or,
/// when no wish is given, the first available backend.
pub fn select_backend(wanted: &Option<Vec<GraphicsBackend>>, available: &Vec<GraphicsBackend>) -> (r: Result<GraphicsBackend, XrError>)
    ensures
        r == ok_or(
            match wanted {
                Some(w) => first_wanted(w@, available@),
                None => first_of(available@),
            },
            XrError::NoAvailableBackend,
        ),
{
    match wanted {
        Some(wanted_backends) => match first_available_backend(wanted_backends, available) {
            Some(x) => Ok(x),
            None => Err(XrError::NoAvailableBackend),
        },
        None => {
            if available.len() > 0 {
                Ok(available[0])
            } else {
                Err(XrError::NoAvailableBackend)
            }
        },
    }
}

/// The raw environment blend mode to use: the first wanted one that is
/// available, or, when no wish is given, the first available one. When none
/// fits, the error is `NoAvailableBackend` (not `NoAvailableBlendMode`).
pub fn select_blend_mode(wanted: &Option<Vec<i32>>, available: &Vec<i32>) -> (r: Result<i32, XrError>)
    ensures
        r == ok_or(
            match wanted {
                Some(w) => first_wanted(w@, available@),
                None => first_of(available@),
            },
            XrError::NoAvailableBackend,
        ),
{
    match wanted {
        Some(wanted_modes) => match first_available_raw(wanted_modes, available) {
            Some(x) => Ok(x),
            None => Err(XrError::NoAvailableBackend),
        },
        None => {
            if available.len() > 0 {
                Ok(available[0])
            } else {
                Err(XrError::NoAvailableBackend)
            }
        },
    }
}

/// The swapchain format to use: the last wanted format that is available, or,
/// when no wish is given, the first available format.
pub fn select_format(wanted: &Option<Vec<TextureFormat>>, available: &Vec<TextureFormat>) -> (r: Result<TextureFormat, XrError>)
    ensures
        r == ok_or(
            match wanted {
                Some(w) => last_wanted(w@, available@),
                None => first_of(available@),
            },
            XrError::NoAvailableFormat,
        ),
{
    match wanted {
        Some(formats) => {
            let mut format: Option<TextureFormat> = None;
            let mut i: usize = 0;
            while i < formats.len()
                invariant
                    i <= formats@.len(),
                    format == last_wanted(formats@.take(i as int), available@),
                decreases formats@.len() - i,
            {
                let f = formats[i];
                proof {
                    assert(formats@.take(i + 1).drop_last() =~= formats@.take(i as int));
                    assert(formats@.take(i + 1).last() == f);
                }
                if contains_format(available, f) {
                    format = Some(f);
                }
                i = i + 1;
            }
            proof {
                assert(formats@.take(formats@.len() as int) =~= formats@);
            }
            match format {
                Some(f) => Ok(f),
                None => Err(XrError::NoAvailableFormat),
            }
        },
        None => {
            if available.len() > 0 {
                Ok(available[0])
            } else {
                Err(XrError::NoAvailableFormat)
            }
        },
    }
}

/// Checks that the runtime offers the primary stereo view configuration.
pub fn require_primary_stereo(available: &Vec<i32>) -> (r: Result<(), XrError>)
    ensures
        r == if available@.contains(VIEW_CONFIGURATION_TYPE_PRIMARY_STEREO) {
            Ok::<(), XrError>(())
        } else {
            Err(XrError::NoAvailableViewConfiguration)
        },
{
    if contains_raw(available, VIEW_CONFIGURATION_TYPE_PRIMARY_STEREO) {
        Ok(())
    } else {
        Err(XrError::NoAvailableViewConfiguration)
    }
}

/// Whether `view` suits `res`: with `exact`, its recommended size is `res`;
/// otherwise its largest size is at least `res`.
pub open spec fn fits(res: UVec2, view: ViewConfigurationView, exact: bool) -> bool {
    if exact {
        view.recommended_image_rect_height == res.y && view.recommended_image_rect_width == res.x
    } else {
        view.max_image_rect_height >= res.y && view.max_image_rect_width >= res.x
    }
}

/// The last of `views` that suits `res`.
pub open spec fn last_fitting_view(res: UVec2, views: Seq<ViewConfigurationView>, exact: bool) -> Option<ViewConfigurationView>
    decreases views.len(),
{
    if views.len() == 0 {
        None
    } else if fits(res, views.last(), exact) {
        Some(views.last())
    } else {
        last_fitting_view(res, views.drop_last(), exact)
    }
}

/// The last pair, resolutions taken in order and views in order within each,
/// where the view suits the resolution.
pub open spec fn last_fitting(resolutions: Seq<UVec2>, views: Seq<ViewConfigurationView>, exact: bool) -> Option<(UVec2, ViewConfigurationView)>
    decreases resolutions.len(),
{
    if resolutions.len() == 0 {
        None
    } else {
        match last_fitting_view(resolutions.last(), views, exact) {
            Some(v) => Some((resolutions.last(), v)),
            None => last_fitting(resolutions.drop_last(), views, exact),
        }
    }
}

/// The resolution and view to use: a wanted resolution that some view
/// recommends, else one that some view can hold; or, when no wish is given,
/// the first view at its recommended size.
pub open spec fn chosen_resolution(wanted: Option<Seq<UVec2>>, views: Seq<ViewConfigurationView>) -> Option<(UVec2, ViewConfigurationView)> {
    match wanted {
        Some(rs) => match last_fitting(rs, views, true) {
            Some(p) => Some(p),
            None => last_fitting(rs, views, false),
        },
        None => if views.len() > 0 {
            Some((UVec2 { x: views[0].recommended_image_rect_width, y: views[0].recommended_image_rect_height }, views[0]))
        } else {
            None
        },
    }
}

fn fits_exec(res: UVec2, view: ViewConfigurationView, exact: bool) -> (r: bool)
    ensures
        r == fits(res, view, exact),
{
    if exact {
        view.recommended_image_rect_height == res.y && view.recommended_image_rect_width == res.x
    } else {
        view.max_image_rect_height >= res.y && view.max_image_rect_width >= res.x
    }
}

fn last_fitting_exec(resolutions: &Vec<UVec2>, views: &Vec<ViewConfigurationView>, exact: bool) -> (r: Option<(UVec2, ViewConfigurationView)>)
    ensures
        r == last_fitting(resolutions@, views@, exact),
{
    let mut preferred: Option<(UVec2, ViewConfigurationView)> = None;
    let mut i: usize = 0;
    while i < resolutions.len()
        invariant
            i <= resolutions@.len(),
            preferred == last_fitting(resolutions@.take(i as int), views@, exact),
        decreases resolutions@.len() - i,
    {
        let res = resolutions[i];
        let ghost before = preferred;
        let mut j: usize = 0;
        while j < views.len()
            invariant
                i < resolutions@.len(),
                res == resolutions@[i as int],
                j <= views@.len(),
                preferred == match last_fitting_view(res, views@.take(j as int), exact) {
                    Some(v) => Some((res, v)),
                    None => before,
                },
            decreases views@.len() - j,
        {
            let view = views[j];
            proof {
                assert(views@.take(j + 1).drop_last() =~= views@.take(j as int));
                assert(views@.take(j + 1).last() == view);
            }
            if fits_exec(res, view, exact) {
                preferred = Some((res, view));
            }
            j = j + 1;
        }
        proof {
            assert(views@.take(views@.len() as int) =~= views@);
            assert(resolutions@.take(i + 1).drop_last() =~= resolutions@.take(i as int));
            assert(resolutions@.take(i + 1).last() == res);
        }
        i = i + 1;
    }
    proof {
        assert(resolutions@.take(resolutions@.len() as int) =~= resolutions@);
    }
    preferred
}

/// The swapchain resolution and the view it comes from; see
/// [`chosen_resolution`].
pub fn select_resolution(wanted: &Option<Vec<UVec2>>, views: &Vec<ViewConfigurationView>) -> (r: Result<(UVec2, ViewConfigurationView), XrError>)
    ensures
        r == ok_or(
            chosen_resolution(
                match wanted {
                    Some(w) => Some(w@),
                    None => None,
                },
                views@,
            ),
            XrError::NoAvailableViewConfiguration,
        ),
{
    match wanted {
        Some(resolutions) => {
            let mut preferred = last_fitting_exec(resolutions, views, true);
            if preferred.is_none() {
                preferred = last_fitting_exec(resolutions, views, false);
            }
            match preferred {
                Some(p) => Ok(p),
                None => Err(XrError::NoAvailableViewConfiguration),
            }
        },
        None => {
            if views.len() > 0 {
                let config = views[0];
                Ok((UVec2 { x: config.recommended_image_rect_width, y: config.recommended_image_rect_height }, config))
            } else {
                Err(XrError::NoAvailableViewConfiguration)
            }
        },
    }
}

/// How the session's swapchain is created: images in `format` at
/// `resolution`, no flag, used as a color attachment and sampled, one sample,
/// one face, one layer per eye and one mip level.
pub fn swapchain_create_info(format: TextureFormat, resolution: UVec2) -> (r: SwapchainCreateInfo)
    ensures
        r == (SwapchainCreateInfo {
            create_flags: SWAPCHAIN_CREATE_FLAGS_EMPTY,
            usage_flags: SWAPCHAIN_USAGE_COLOR_ATTACHMENT | SWAPCHAIN_USAGE_SAMPLED,
            format,
            sample_count: 1,
            width: resolution.x,
            height: resolution.y,
            face_count: 1,
            array_size: 2,
            mip_count: 1,
        }),
{
    SwapchainCreateInfo {
        create_flags: SWAPCHAIN_CREATE_FLAGS_EMPTY,
        usage_flags: SWAPCHAIN_USAGE_COLOR_ATTACHMENT | SWAPCHAIN_USAGE_SAMPLED,
        format,
        sample_count: 1,
        width: resolution.x,
        height: resolution.y,
        face_count: 1,
        array_size: 2,
        mip_count: 1,
    }
}

/// A rectangle of pixels in a swapchain image.
#[derive(Clone, Copy, Debug, PartialEq, Eq, Structural)]
pub struct Rect2Di {
    pub x: i32,
    pub y: i32,
    pub width: i32,
    pub height: i32,
}

/// The part of each swapchain image that a frame's views show: all of it,
/// from the origin, the resolution's width and height taken as signed.
pub fn image_rect(resolution: UVec2) -> (r: Rect2Di)
    ensures
        r.x == 0,
        r.y == 0,
        r.width == resolution.x as i32,
        r.height == resolution.y as i32,
{
    Rect2Di { x: 0, y: 0, width: resolution.x as i32, height: resolution.y as i32 }
}

/// What the first-wish choice picks is both wished for and offered; and when
/// nothing is picked, nothing wished for is offered.
pub proof fn lemma_first_wanted_offered<T>(wanted: Seq<T>, available: Seq<T>)
    ensures
        first_wanted(wanted, available) matches Some(x) ==> wanted.contains(x) && available.contains(x),
        first_wanted(wanted, available) is None ==> forall|i: int| 0 <= i < wanted.len() ==> !available.contains(#[trigger] wanted[i]),
    decreases wanted.len(),
{
    if wanted.len() > 0 && !available.contains(wanted[0]) {
        lemma_first_wanted_offered(wanted.drop_first(), available);
        if let Some(x) = first_wanted(wanted, available) {
            let k = choose|k: int| 0 <= k < wanted.drop_first().len() && wanted.drop_first()[k] == x;
            assert(wanted[k + 1] == x);
        }
        assert forall|i: int| 0 <= i < wanted.len() && first_wanted(wanted, available) is None implies !available.contains(#[trigger] wanted[i]) by {
            if i > 0 {
                assert(wanted[i] == wanted.drop_first()[i - 1]);
            }
        }
    } else if wanted.len() > 0 {
        assert(wanted[0] == wanted[0]);
    }
}

/// What the last-wish choice picks is both wished for and offered; and when
/// nothing is picked, nothing wished for is offered.
pub proof fn lemma_last_wanted_offered<T>(wanted: Seq<T>, available: Seq<T>)
    ensures
        last_wanted(wanted, available) matches Some(x) ==> wanted.contains(x) && available.contains(x),
        last_wanted(wanted, available) is None ==> forall|i: int| 0 <= i < wanted.len() ==> !available.contains(#[trigger] wanted[i]),
    decreases wanted.len(),
{
    if wanted.len() > 0 && !available.contains(wanted.last()) {
        lemma_last_wanted_offered(wanted.drop_last(), available);
        if let Some(x) = last_wanted(wanted, available) {
            let k = choose|k: int| 0 <= k < wanted.drop_last().len() && wanted.drop_last()[k] == x;
            assert(wanted[k] == x);
        }
        assert forall|i: int| 0 <= i < wanted.len() && last_wanted(wanted, available) is None implies !available.contains(#[trigger] wanted[i]) by {
            if i < wanted.len() - 1 {
                assert(wanted[i] == wanted.drop_last()[i]);
            }
        }
    } else if wanted.len() > 0 {
        assert(wanted[wanted.len() - 1] == wanted.last());
    }
}

/// The view that the resolution choice settles on is one the runtime reported
/// and suits the chosen resolution, which was wished for.
pub proof fn lemma_last_fitting_sound(resolutions: Seq<UVec2>, views: Seq<ViewConfigurationView>, exact: bool)
    ensures
        last_fitting(resolutions, views, exact) matches Some((r, v)) ==> resolutions.contains(r) && views.contains(v) && fits(r, v, exact),
    decreases resolutions.len(),
{
    if resolutions.len() > 0 {
        lemma_last_fitting_view_sound(resolutions.last(), views, exact);
        assert(resolutions[resolutions.len() - 1] == resolutions.last());
        lemma_last_fitting_sound(resolutions.drop_last(), views, exact);
        if let Some((r, v)) = last_fitting(resolutions.drop_last(), views, exact) {
            let k = choose|k: int| 0 <= k < resolutions.drop_last().len() && resolutions.drop_last()[k] == r;
            assert(resolutions[k] == r);
        }
    }
}

/// The view that suits a resolution is one the runtime reported.
pub proof fn lemma_last_fitting_view_sound(res: UVec2, views: Seq<ViewConfigurationView>, exact: bool)
    ensures
        last_fitting_view(res, views, exact) matches Some(v) ==> views.contains(v) && fits(res, v, exact),
    decreases views.len(),
{
    if views.len() > 0 {
        assert(views[views.len() - 1] == views.last());
        lemma_last_fitting_view_sound(res, views.drop_last(), exact);
        if let Some(v) = last_fitting_view(res, views.drop_last(), exact) {
            let k = choose|k: int| 0 <= k < views.drop_last().len() && views.drop_last()[k] == v;
            assert(views[k] == v);
        }
    }
}

/// With wished resolutions, the chosen resolution is one of them, and the
/// chosen view is one the runtime reported that either recommends it exactly or
/// can hold it.
pub proof fn lemma_chosen_resolution_sound(resolutions: Seq<UVec2>, views: Seq<ViewConfigurationView>)
    ensures
        chosen_resolution(Some(resolutions), views) matches Some((r, v)) ==> resolutions.contains(r) && views.contains(v)
            && (fits(r, v, true) || fits(r, v, false)),
{
    lemma_last_fitting_sound(resolutions, views, true);
    lemma_last_fitting_sound(resolutions, views, false);
}

/// If some view suits some wished resolution, the search finds a pair.
pub proof fn lemma_last_fitting_finds(resolutions: Seq<UVec2>, views: Seq<ViewConfigurationView>, exact: bool, i: int, j: int)
    requires
        0 <= i < resolutions.len(),
        0 <= j < views.len(),
        fits(resolutions[i], views[j], exact),
    ensures
        last_fitting(resolutions, views, exact) is Some,
    decreases resolutions.len(),
{
    if last_fitting_view(resolutions.last(), views, exact) is None {
        if i == resolutions.len() - 1 {
            lemma_last_fitting_view_finds(resolutions.last(), views, exact, j);
        } else {
            assert(resolutions.drop_last()[i] == resolutions[i]);
            lemma_last_fitting_finds(resolutions.drop_last(), views, exact, i, j);
        }
    }
}

/// If some view suits a resolution, the search over the views finds one.
pub proof fn lemma_last_fitting_view_finds(res: UVec2, views: Seq<ViewConfigurationView>, exact: bool, j: int)
    requires
        0 <= j < views.len(),
        fits(res, views[j], exact),
    ensures
        last_fitting_view(res, views, exact) is Some,
    decreases views.len(),
{
    if !fits(res, views.last(), exact) {
        assert(j != views.len() - 1);
        assert(views.drop_last()[j] == views[j]);
        lemma_last_fitting_view_finds(res, views.drop_last(), exact, j);
    }
}

/// What the resolution choice gives, on the views' own fields. With wishes,
/// the resolution is a wished one and the view a reported one that either
/// recommends exactly that size or is at least that wide and that tall; and
/// when some reported view recommends some wished size exactly, the choice is
/// such an exact match. Without wishes, it is the first view at its
/// recommended size.
pub proof fn lemma_resolution_choice_fields(wanted: Option<Seq<UVec2>>, views: Seq<ViewConfigurationView>)
    ensures
        chosen_resolution(wanted, views) matches Some((r, v)) ==> views.contains(v),
        wanted matches Some(rs) ==> (chosen_resolution(wanted, views) matches Some((r, v)) ==> rs.contains(r) && (
            (v.recommended_image_rect_width == r.x && v.recommended_image_rect_height == r.y)
            || (r.x <= v.max_image_rect_width && r.y <= v.max_image_rect_height))),
        wanted matches Some(rs) ==> (forall|i: int, j: int|
            0 <= i < rs.len() && 0 <= j < views.len() && #[trigger] views[j].recommended_image_rect_width == #[trigger] rs[i].x
                && views[j].recommended_image_rect_height == rs[i].y ==> (chosen_resolution(wanted, views) matches Some((r, v))
                && v.recommended_image_rect_width == r.x && v.recommended_image_rect_height == r.y)),
        wanted is None ==> (chosen_resolution(wanted, views) matches Some((r, v)) ==> v == views[0]
            && r.x == v.recommended_image_rect_width && r.y == v.recommended_image_rect_height),
        wanted is None ==> (chosen_resolution(wanted, views) is Some <==> views.len() > 0),
{
    match wanted {
        Some(rs) => {
            lemma_last_fitting_sound(rs, views, true);
            lemma_last_fitting_sound(rs, views, false);
            assert forall|i: int, j: int|
                0 <= i < rs.len() && 0 <= j < views.len() && #[trigger] views[j].recommended_image_rect_width == #[trigger] rs[i].x
                    && views[j].recommended_image_rect_height == rs[i].y implies (chosen_resolution(wanted, views) matches Some((r, v))
                    && v.recommended_image_rect_width == r.x && v.recommended_image_rect_height == r.y) by {
                lemma_last_fitting_finds(rs, views, true, i, j);
            }
        },
        None => {
            if views.len() > 0 {
                assert(views.contains(views[0]));
            }
        },
    }
}

/// The first-wish choice picks the earliest wish that is offered: it sits at
/// the returned position among the wishes, is offered, and no earlier wish is.
pub proof fn lemma_first_wanted_earliest<T>(wanted: Seq<T>, available: Seq<T>) -> (i: int)
    requires
        first_wanted(wanted, available) is Some,
    ensures
        0 <= i < wanted.len(),
        first_wanted(wanted, available) == Some(wanted[i]),
        available.contains(wanted[i]),
        forall|k: int| 0 <= k < i ==> !available.contains(#[trigger] wanted[k]),
    decreases wanted.len(),
{
    if available.contains(wanted[0]) {
        0
    } else {
        let j = lemma_first_wanted_earliest(wanted.drop_first(), available);
        assert forall|k: int| 0 <= k < j + 1 implies !available.contains(#[trigger] wanted[k]) by {
            if k > 0 {
                assert(wanted[k] == wanted.drop_first()[k - 1]);
            }
        }
        j + 1
    }
}

/// The last-wish choice picks the latest wish that is offered: it sits at the
/// returned position among the wishes, is offered, and no later wish is.
pub proof fn lemma_last_wanted_latest<T>(wanted: Seq<T>, available: Seq<T>) -> (i: int)
    requires
        last_wanted(wanted, available) is Some,
    ensures
        0 <= i < wanted.len(),
        last_wanted(wanted, available) == Some(wanted[i]),
        available.contains(wanted[i]),
        forall|k: int| i < k < wanted.len() ==> !available.contains(#[trigger] wanted[k]),
    decreases wanted.len(),
{
    if available.contains(wanted.last()) {
        wanted.len() - 1
    } else {
        let j = lemma_last_wanted_latest(wanted.drop_last(), available);
        assert(wanted[j] == wanted.drop_last()[j]);
        assert forall|k: int| j < k < wanted.len() implies !available.contains(#[trigger] wanted[k]) by {
            if k < wanted.len() - 1 {
                assert(wanted[k] == wanted.drop_last()[k]);
            }
        }
        j
    }
}

} // verus!
