//! The extension set of the OpenXR plugin, with the set operations used to
//! merge what is asked for with what a graphics backend needs and with what the
//! runtime offers.

use vstd::prelude::*;
use crate::ext_set;
use crate::ext_set::{ExtensionSet, Platform, known_on, known_on_at, names_kept, names_merged, flags_within, names_within,
    lemma_names_kept_within, lemma_names_kept_all, lemma_names_merged_within};
use crate::ext_set::{
    ALMALENCE_DIGITAL_LENS_CONTROL,
    EPIC_VIEW_CONFIGURATION_FOV,
    EXTX_OVERLAY,
    EXT_CONFORMANCE_AUTOMATION,
    EXT_COUNT,
    EXT_DEBUG_UTILS,
    EXT_DPAD_BINDING,
    EXT_EYE_GAZE_INTERACTION,
    EXT_HAND_JOINTS_MOTION_RANGE,
    EXT_HAND_TRACKING,
    EXT_HP_MIXED_REALITY_CONTROLLER,
    EXT_PALM_POSE,
    EXT_PERFORMANCE_SETTINGS,
    EXT_SAMSUNG_ODYSSEY_CONTROLLER,
    EXT_THERMAL_QUERY,
    EXT_UUID,
    EXT_VIEW_CONFIGURATION_DEPTH_RANGE,
    EXT_WIN32_APPCONTAINER_COMPATIBLE,
    FB_ANDROID_SURFACE_SWAPCHAIN_CREATE,
    FB_COLOR_SPACE,
    FB_COMPOSITION_LAYER_ALPHA_BLEND,
    FB_COMPOSITION_LAYER_IMAGE_LAYOUT,
    FB_COMPOSITION_LAYER_SECURE_CONTENT,
    FB_COMPOSITION_LAYER_SETTINGS,
    FB_DISPLAY_REFRESH_RATE,
    FB_FOVEATION,
    FB_FOVEATION_CONFIGURATION,
    FB_FOVEATION_VULKAN,
    FB_HAND_TRACKING_AIM,
    FB_HAND_TRACKING_CAPSULES,
    FB_HAND_TRACKING_MESH,
    FB_KEYBOARD_TRACKING,
    FB_PASSTHROUGH,
    FB_PASSTHROUGH_KEYBOARD_HANDS,
    FB_RENDER_MODEL,
    FB_SCENE,
    FB_SPACE_WARP,
    FB_SPATIAL_ENTITY,
    FB_SPATIAL_ENTITY_CONTAINER,
    FB_SPATIAL_ENTITY_QUERY,
    FB_SPATIAL_ENTITY_STORAGE,
    FB_SWAPCHAIN_UPDATE_STATE,
    FB_SWAPCHAIN_UPDATE_STATE_ANDROID_SURFACE,
    FB_SWAPCHAIN_UPDATE_STATE_OPENGL_ES,
    FB_SWAPCHAIN_UPDATE_STATE_VULKAN,
    FB_TRIANGLE_MESH,
    HTCX_VIVE_TRACKER_INTERACTION,
    HTC_FACIAL_TRACKING,
    HTC_HAND_INTERACTION,
    HTC_VIVE_COSMOS_CONTROLLER_INTERACTION,
    HTC_VIVE_FOCUS3_CONTROLLER_INTERACTION,
    HTC_VIVE_WRIST_TRACKER_INTERACTION,
    HUAWEI_CONTROLLER_INTERACTION,
    KHR_ANDROID_CREATE_INSTANCE,
    KHR_ANDROID_SURFACE_SWAPCHAIN,
    KHR_ANDROID_THREAD_SETTINGS,
    KHR_BINDING_MODIFICATION,
    KHR_COMPOSITION_LAYER_COLOR_SCALE_BIAS,
    KHR_COMPOSITION_LAYER_CUBE,
    KHR_COMPOSITION_LAYER_CYLINDER,
    KHR_COMPOSITION_LAYER_DEPTH,
    KHR_COMPOSITION_LAYER_EQUIRECT,
    KHR_COMPOSITION_LAYER_EQUIRECT2,
    KHR_CONVERT_TIMESPEC_TIME,
    KHR_D3D11_ENABLE,
    KHR_D3D12_ENABLE,
    KHR_LOADER_INIT,
    KHR_LOADER_INIT_ANDROID,
    KHR_OPENGL_ENABLE,
    KHR_OPENGL_ES_ENABLE,
    KHR_SWAPCHAIN_USAGE_INPUT_ATTACHMENT_BIT,
    KHR_VISIBILITY_MASK,
    KHR_VULKAN_ENABLE,
    KHR_VULKAN_ENABLE2,
    KHR_VULKAN_SWAPCHAIN_FORMAT_LIST,
    KHR_WIN32_CONVERT_PERFORMANCE_COUNTER_TIME,
    META_PERFORMANCE_METRICS,
    META_VULKAN_SWAPCHAIN_CREATE_INFO,
    ML_ML2_CONTROLLER_INTERACTION,
    MNDX_EGL_ENABLE,
    MND_HEADLESS,
    MND_SWAPCHAIN_USAGE_INPUT_ATTACHMENT_BIT,
    MSFT_COMPOSITION_LAYER_REPROJECTION,
    MSFT_CONTROLLER_MODEL,
    MSFT_FIRST_PERSON_OBSERVER,
    MSFT_HAND_INTERACTION,
    MSFT_HAND_TRACKING_MESH,
    MSFT_HOLOGRAPHIC_WINDOW_ATTACHMENT,
    MSFT_PERCEPTION_ANCHOR_INTEROP,
    MSFT_SECONDARY_VIEW_CONFIGURATION,
    MSFT_SPATIAL_ANCHOR,
    MSFT_SPATIAL_ANCHOR_PERSISTENCE,
    MSFT_SPATIAL_GRAPH_BRIDGE,
    MSFT_UNBOUNDED_REFERENCE_SPACE,
    OCULUS_ANDROID_SESSION_STATE_ENABLE,
    OCULUS_AUDIO_DEVICE_GUID,
    ULTRALEAP_HAND_TRACKING_FOREARM,
    VALVE_ANALOG_THRESHOLD,
    VARJO_COMPOSITION_LAYER_DEPTH_TEST,
    VARJO_ENVIRONMENT_DEPTH_ESTIMATION,
    VARJO_FOVEATED_RENDERING,
    VARJO_MARKER_TRACKING,
    VARJO_QUAD_VIEWS,
    VARJO_VIEW_OFFSET,
};

verus! {

/// The extensions that `|` and `&` carry over in a build that knows them (see
/// [`carried`]); any other flag comes out unset.
pub open spec fn combined(ext: int) -> bool {
    ext == ALMALENCE_DIGITAL_LENS_CONTROL
        || ext == EPIC_VIEW_CONFIGURATION_FOV
        || ext == EXT_PERFORMANCE_SETTINGS
        || ext == EXT_THERMAL_QUERY
        || ext == EXT_DEBUG_UTILS
        || ext == EXT_EYE_GAZE_INTERACTION
        || ext == EXT_VIEW_CONFIGURATION_DEPTH_RANGE
        || ext == EXT_CONFORMANCE_AUTOMATION
        || ext == EXT_HAND_TRACKING
        || ext == EXT_WIN32_APPCONTAINER_COMPATIBLE
        || ext == EXT_DPAD_BINDING
        || ext == EXT_HAND_JOINTS_MOTION_RANGE
        || ext == EXT_SAMSUNG_ODYSSEY_CONTROLLER
        || ext == EXT_HP_MIXED_REALITY_CONTROLLER
        || ext == EXT_PALM_POSE
        || ext == EXT_UUID
        || ext == FB_COMPOSITION_LAYER_IMAGE_LAYOUT
        || ext == FB_COMPOSITION_LAYER_ALPHA_BLEND
        || ext == FB_ANDROID_SURFACE_SWAPCHAIN_CREATE
        || ext == FB_SWAPCHAIN_UPDATE_STATE
        || ext == FB_COMPOSITION_LAYER_SECURE_CONTENT
        || ext == FB_DISPLAY_REFRESH_RATE
        || ext == FB_COLOR_SPACE
        || ext == FB_HAND_TRACKING_MESH
        || ext == FB_HAND_TRACKING_AIM
        || ext == FB_HAND_TRACKING_CAPSULES
        || ext == FB_SPATIAL_ENTITY
        || ext == FB_FOVEATION
        || ext == FB_FOVEATION_CONFIGURATION
        || ext == FB_KEYBOARD_TRACKING
        || ext == FB_TRIANGLE_MESH
        || ext == FB_PASSTHROUGH
        || ext == FB_RENDER_MODEL
        || ext == FB_SPATIAL_ENTITY_QUERY
        || ext == FB_SPATIAL_ENTITY_STORAGE
        || ext == FB_FOVEATION_VULKAN
        || ext == FB_SWAPCHAIN_UPDATE_STATE_ANDROID_SURFACE
        || ext == FB_SWAPCHAIN_UPDATE_STATE_OPENGL_ES
        || ext == FB_SWAPCHAIN_UPDATE_STATE_VULKAN
        || ext == FB_SPACE_WARP
        || ext == FB_SCENE
        || ext == FB_SPATIAL_ENTITY_CONTAINER
        || ext == FB_PASSTHROUGH_KEYBOARD_HANDS
        || ext == FB_COMPOSITION_LAYER_SETTINGS
        || ext == HTC_VIVE_COSMOS_CONTROLLER_INTERACTION
        || ext == HTC_FACIAL_TRACKING
        || ext == HTC_VIVE_FOCUS3_CONTROLLER_INTERACTION
        || ext == HTC_HAND_INTERACTION
        || ext == HTC_VIVE_WRIST_TRACKER_INTERACTION
        || ext == HUAWEI_CONTROLLER_INTERACTION
        || ext == KHR_ANDROID_THREAD_SETTINGS
        || ext == KHR_ANDROID_SURFACE_SWAPCHAIN
        || ext == KHR_COMPOSITION_LAYER_CUBE
        || ext == KHR_ANDROID_CREATE_INSTANCE
        || ext == KHR_COMPOSITION_LAYER_DEPTH
        || ext == KHR_VULKAN_SWAPCHAIN_FORMAT_LIST
        || ext == KHR_COMPOSITION_LAYER_CYLINDER
        || ext == KHR_COMPOSITION_LAYER_EQUIRECT
        || ext == KHR_OPENGL_ENABLE
        || ext == KHR_OPENGL_ES_ENABLE
        || ext == KHR_VULKAN_ENABLE
        || ext == KHR_D3D11_ENABLE
        || ext == KHR_D3D12_ENABLE
        || ext == KHR_VISIBILITY_MASK
        || ext == KHR_COMPOSITION_LAYER_COLOR_SCALE_BIAS
        || ext == KHR_WIN32_CONVERT_PERFORMANCE_COUNTER_TIME
        || ext == KHR_CONVERT_TIMESPEC_TIME
        || ext == KHR_LOADER_INIT
        || ext == KHR_LOADER_INIT_ANDROID
        || ext == KHR_VULKAN_ENABLE2
        || ext == KHR_COMPOSITION_LAYER_EQUIRECT2
        || ext == KHR_BINDING_MODIFICATION
        || ext == KHR_SWAPCHAIN_USAGE_INPUT_ATTACHMENT_BIT
        || ext == META_VULKAN_SWAPCHAIN_CREATE_INFO
        || ext == META_PERFORMANCE_METRICS
        || ext == ML_ML2_CONTROLLER_INTERACTION
        || ext == MND_HEADLESS
        || ext == MND_SWAPCHAIN_USAGE_INPUT_ATTACHMENT_BIT
        || ext == MSFT_UNBOUNDED_REFERENCE_SPACE
        || ext == MSFT_SPATIAL_ANCHOR
        || ext == MSFT_SPATIAL_GRAPH_BRIDGE
        || ext == MSFT_HAND_INTERACTION
        || ext == MSFT_HAND_TRACKING_MESH
        || ext == MSFT_SECONDARY_VIEW_CONFIGURATION
        || ext == MSFT_FIRST_PERSON_OBSERVER
        || ext == MSFT_CONTROLLER_MODEL
        || ext == MSFT_PERCEPTION_ANCHOR_INTEROP
        || ext == MSFT_HOLOGRAPHIC_WINDOW_ATTACHMENT
        || ext == MSFT_COMPOSITION_LAYER_REPROJECTION
        || ext == MSFT_SPATIAL_ANCHOR_PERSISTENCE
        || ext == OCULUS_ANDROID_SESSION_STATE_ENABLE
        || ext == OCULUS_AUDIO_DEVICE_GUID
        || ext == ULTRALEAP_HAND_TRACKING_FOREARM
        || ext == VALVE_ANALOG_THRESHOLD
        || ext == VARJO_QUAD_VIEWS
        || ext == VARJO_FOVEATED_RENDERING
        || ext == VARJO_COMPOSITION_LAYER_DEPTH_TEST
        || ext == VARJO_ENVIRONMENT_DEPTH_ESTIMATION
        || ext == VARJO_MARKER_TRACKING
        || ext == VARJO_VIEW_OFFSET
        || ext == EXTX_OVERLAY
        || ext == MNDX_EGL_ENABLE
        || ext == HTCX_VIVE_TRACKER_INTERACTION
}

fn combined_at(ext: usize) -> (r: bool)
    ensures
        r == combined(ext as int),
{
    ext == ALMALENCE_DIGITAL_LENS_CONTROL
        || ext == EPIC_VIEW_CONFIGURATION_FOV
        || ext == EXT_PERFORMANCE_SETTINGS
        || ext == EXT_THERMAL_QUERY
        || ext == EXT_DEBUG_UTILS
        || ext == EXT_EYE_GAZE_INTERACTION
        || ext == EXT_VIEW_CONFIGURATION_DEPTH_RANGE
        || ext == EXT_CONFORMANCE_AUTOMATION
        || ext == EXT_HAND_TRACKING
        || ext == EXT_WIN32_APPCONTAINER_COMPATIBLE
        || ext == EXT_DPAD_BINDING
        || ext == EXT_HAND_JOINTS_MOTION_RANGE
        || ext == EXT_SAMSUNG_ODYSSEY_CONTROLLER
        || ext == EXT_HP_MIXED_REALITY_CONTROLLER
        || ext == EXT_PALM_POSE
        || ext == EXT_UUID
        || ext == FB_COMPOSITION_LAYER_IMAGE_LAYOUT
        || ext == FB_COMPOSITION_LAYER_ALPHA_BLEND
        || ext == FB_ANDROID_SURFACE_SWAPCHAIN_CREATE
        || ext == FB_SWAPCHAIN_UPDATE_STATE
        || ext == FB_COMPOSITION_LAYER_SECURE_CONTENT
        || ext == FB_DISPLAY_REFRESH_RATE
        || ext == FB_COLOR_SPACE
        || ext == FB_HAND_TRACKING_MESH
        || ext == FB_HAND_TRACKING_AIM
        || ext == FB_HAND_TRACKING_CAPSULES
        || ext == FB_SPATIAL_ENTITY
        || ext == FB_FOVEATION
        || ext == FB_FOVEATION_CONFIGURATION
        || ext == FB_KEYBOARD_TRACKING
        || ext == FB_TRIANGLE_MESH
        || ext == FB_PASSTHROUGH
        || ext == FB_RENDER_MODEL
        || ext == FB_SPATIAL_ENTITY_QUERY
        || ext == FB_SPATIAL_ENTITY_STORAGE
        || ext == FB_FOVEATION_VULKAN
        || ext == FB_SWAPCHAIN_UPDATE_STATE_ANDROID_SURFACE
        || ext == FB_SWAPCHAIN_UPDATE_STATE_OPENGL_ES
        || ext == FB_SWAPCHAIN_UPDATE_STATE_VULKAN
        || ext == FB_SPACE_WARP
        || ext == FB_SCENE
        || ext == FB_SPATIAL_ENTITY_CONTAINER
        || ext == FB_PASSTHROUGH_KEYBOARD_HANDS
        || ext == FB_COMPOSITION_LAYER_SETTINGS
        || ext == HTC_VIVE_COSMOS_CONTROLLER_INTERACTION
        || ext == HTC_FACIAL_TRACKING
        || ext == HTC_VIVE_FOCUS3_CONTROLLER_INTERACTION
        || ext == HTC_HAND_INTERACTION
        || ext == HTC_VIVE_WRIST_TRACKER_INTERACTION
        || ext == HUAWEI_CONTROLLER_INTERACTION
        || ext == KHR_ANDROID_THREAD_SETTINGS
        || ext == KHR_ANDROID_SURFACE_SWAPCHAIN
        || ext == KHR_COMPOSITION_LAYER_CUBE
        || ext == KHR_ANDROID_CREATE_INSTANCE
        || ext == KHR_COMPOSITION_LAYER_DEPTH
        || ext == KHR_VULKAN_SWAPCHAIN_FORMAT_LIST
        || ext == KHR_COMPOSITION_LAYER_CYLINDER
        || ext == KHR_COMPOSITION_LAYER_EQUIRECT
        || ext == KHR_OPENGL_ENABLE
        || ext == KHR_OPENGL_ES_ENABLE
        || ext == KHR_VULKAN_ENABLE
        || ext == KHR_D3D11_ENABLE
        || ext == KHR_D3D12_ENABLE
        || ext == KHR_VISIBILITY_MASK
        || ext == KHR_COMPOSITION_LAYER_COLOR_SCALE_BIAS
        || ext == KHR_WIN32_CONVERT_PERFORMANCE_COUNTER_TIME
        || ext == KHR_CONVERT_TIMESPEC_TIME
        || ext == KHR_LOADER_INIT
        || ext == KHR_LOADER_INIT_ANDROID
        || ext == KHR_VULKAN_ENABLE2
        || ext == KHR_COMPOSITION_LAYER_EQUIRECT2
        || ext == KHR_BINDING_MODIFICATION
        || ext == KHR_SWAPCHAIN_USAGE_INPUT_ATTACHMENT_BIT
        || ext == META_VULKAN_SWAPCHAIN_CREATE_INFO
        || ext == META_PERFORMANCE_METRICS
        || ext == ML_ML2_CONTROLLER_INTERACTION
        || ext == MND_HEADLESS
        || ext == MND_SWAPCHAIN_USAGE_INPUT_ATTACHMENT_BIT
        || ext == MSFT_UNBOUNDED_REFERENCE_SPACE
        || ext == MSFT_SPATIAL_ANCHOR
        || ext == MSFT_SPATIAL_GRAPH_BRIDGE
        || ext == MSFT_HAND_INTERACTION
        || ext == MSFT_HAND_TRACKING_MESH
        || ext == MSFT_SECONDARY_VIEW_CONFIGURATION
        || ext == MSFT_FIRST_PERSON_OBSERVER
        || ext == MSFT_CONTROLLER_MODEL
        || ext == MSFT_PERCEPTION_ANCHOR_INTEROP
        || ext == MSFT_HOLOGRAPHIC_WINDOW_ATTACHMENT
        || ext == MSFT_COMPOSITION_LAYER_REPROJECTION
        || ext == MSFT_SPATIAL_ANCHOR_PERSISTENCE
        || ext == OCULUS_ANDROID_SESSION_STATE_ENABLE
        || ext == OCULUS_AUDIO_DEVICE_GUID
        || ext == ULTRALEAP_HAND_TRACKING_FOREARM
        || ext == VALVE_ANALOG_THRESHOLD
        || ext == VARJO_QUAD_VIEWS
        || ext == VARJO_FOVEATED_RENDERING
        || ext == VARJO_COMPOSITION_LAYER_DEPTH_TEST
        || ext == VARJO_ENVIRONMENT_DEPTH_ESTIMATION
        || ext == VARJO_MARKER_TRACKING
        || ext == VARJO_VIEW_OFFSET
        || ext == EXTX_OVERLAY
        || ext == MNDX_EGL_ENABLE
        || ext == HTCX_VIVE_TRACKER_INTERACTION
}

/// Whether `|` and `&`, built for `platform`, carry the extension with index
/// `ext`: one of the listed extensions that the build knows.
pub open spec fn carried(platform: Platform, ext: int) -> bool {
    combined(ext) && known_on(platform, ext)
}

/// The flags of `a | b` built for `platform`: those carried over there that
/// either holds.
pub open spec fn or_flags(a: Seq<bool>, b: Seq<bool>, platform: Platform) -> Seq<bool> {
    Seq::new(EXT_COUNT as nat, |e: int| carried(platform, e) && (a[e] || b[e]))
}

/// The flags of `a & b` built for `platform`: those carried over there that
/// both hold.
pub open spec fn and_flags(a: Seq<bool>, b: Seq<bool>, platform: Platform) -> Seq<bool> {
    Seq::new(EXT_COUNT as nat, |e: int| carried(platform, e) && a[e] && b[e])
}

/// Only extensions that `|` and `&` carry over are set in `a`.
pub open spec fn only_combined(a: Seq<bool>, platform: Platform) -> bool {
    forall|e: int| 0 <= e < EXT_COUNT ==> a[e] ==> carried(platform, e)
}

/// Every extension of `a` (flag or name) is also in `b`.
pub open spec fn available_within(a: &XrExtensions, b: &XrExtensions) -> bool {
    flags_within(a.0.flags@, b.0.flags@) && names_within(a.0.others(), b.0.others())
}

/// `&` and `|` treat the flags of their operands alike in either order.
pub proof fn lemma_flag_ops_commute(a: Seq<bool>, b: Seq<bool>, platform: Platform)
    ensures
        and_flags(a, b, platform) == and_flags(b, a, platform),
        or_flags(a, b, platform) == or_flags(b, a, platform),
{
    assert(and_flags(a, b, platform) =~= and_flags(b, a, platform));
    assert(or_flags(a, b, platform) =~= or_flags(b, a, platform));
}

/// On a set whose flags `&` and `|` all carry over, both operations with the set
/// itself give its flags back.
pub proof fn lemma_flag_ops_idempotent(a: Seq<bool>, platform: Platform)
    requires
        a.len() == EXT_COUNT,
        only_combined(a, platform),
    ensures
        and_flags(a, a, platform) == a,
        or_flags(a, a, platform) == a,
{
    assert(and_flags(a, a, platform) =~= a);
    assert(or_flags(a, a, platform) =~= a);
}

/// Being available within another set is reflexive.
pub proof fn lemma_available_within_reflexive(a: &XrExtensions)
    ensures
        available_within(a, a),
{
    assert forall|i: int| 0 <= i < a.0.others().len() implies a.0.others().contains(
        #[trigger] a.0.others()[i],
    ) by {}
}

/// Being available within another set is transitive.
pub proof fn lemma_available_within_transitive(a: &XrExtensions, b: &XrExtensions, c: &XrExtensions)
    requires
        available_within(a, b),
        available_within(b, c),
    ensures
        available_within(a, c),
{
    assert forall|i: int| 0 <= i < a.0.others().len() implies c.0.others().contains(
        #[trigger] a.0.others()[i],
    ) by {
        assert(b.0.others().contains(a.0.others()[i]));
        let k = choose|k: int| 0 <= k < b.0.others().len() && b.0.others()[k] == a.0.others()[i];
        assert(c.0.others().contains(b.0.others()[k]));
    }
}

/// Everything in `a & b` is in `a` and in `b`.
pub proof fn lemma_and_within_operands(fa: Seq<bool>, fb: Seq<bool>, oa: Seq<Seq<char>>, ob: Seq<Seq<char>>, platform: Platform)
    ensures
        flags_within(and_flags(fa, fb, platform), fa),
        flags_within(and_flags(fa, fb, platform), fb),
        names_within(names_kept(oa, ob), oa),
        names_within(names_kept(oa, ob), ob),
{
    lemma_names_kept_within(oa, ob);
}

/// Everything in `a`, and everything in `b`, is in `a | b`, as long as `|`
/// carries over each of their flags.
pub proof fn lemma_operands_within_or(fa: Seq<bool>, fb: Seq<bool>, oa: Seq<Seq<char>>, ob: Seq<Seq<char>>, platform: Platform)
    requires
        only_combined(fa, platform),
        only_combined(fb, platform),
    ensures
        flags_within(fa, or_flags(fa, fb, platform)),
        flags_within(fb, or_flags(fa, fb, platform)),
        names_within(oa, names_merged(oa, ob)),
        names_within(ob, names_merged(oa, ob)),
{
    lemma_names_merged_within(oa, ob);
}

/// When `a` and `b` are both within `c`, so is `a | b`.
pub proof fn lemma_or_within_when_both(
    fa: Seq<bool>,
    fb: Seq<bool>,
    fc: Seq<bool>,
    oa: Seq<Seq<char>>,
    ob: Seq<Seq<char>>,
    oc: Seq<Seq<char>>,
    platform: Platform,
)
    requires
        flags_within(fa, fc),
        flags_within(fb, fc),
        names_within(oa, oc),
        names_within(ob, oc),
    ensures
        flags_within(or_flags(fa, fb, platform), fc),
        names_within(names_merged(oa, ob), oc),
{
    lemma_names_merged_within(oa, ob);
    let m = names_merged(oa, ob);
    assert forall|i: int| 0 <= i < m.len() implies oc.contains(#[trigger] m[i]) by {
        if oa.contains(m[i]) {
            let k = choose|k: int| 0 <= k < oa.len() && oa[k] == m[i];
            assert(oc.contains(oa[k]));
        } else {
            assert(ob.contains(m[i]));
            let k = choose|k: int| 0 <= k < ob.len() && ob[k] == m[i];
            assert(oc.contains(ob[k]));
        }
    }
}

/// On a set whose flags `&` all carries over, being available within `b` is the
/// same as being left unchanged by `& b`.
pub proof fn lemma_available_iff_and_unchanged(fa: Seq<bool>, fb: Seq<bool>, oa: Seq<Seq<char>>, ob: Seq<Seq<char>>, platform: Platform)
    requires
        fa.len() == EXT_COUNT,
        only_combined(fa, platform),
    ensures
        (flags_within(fa, fb) && names_within(oa, ob)) <==> (and_flags(fa, fb, platform) == fa && names_kept(oa, ob) == oa),
{
    lemma_names_kept_all(oa, ob);
    if flags_within(fa, fb) {
        assert(and_flags(fa, fb, platform) =~= fa);
    }
    if and_flags(fa, fb, platform) == fa {
        assert forall|e: int| 0 <= e < EXT_COUNT && fa[e] implies fb[e] by {
            assert(and_flags(fa, fb, platform)[e] == fa[e]);
        }
    }
}

/// The extensions of the OpenXR plugin.
#[derive(Debug)]
pub struct XrExtensions(pub ExtensionSet);

impl XrExtensions {
    /// The underlying extension set, to change it in place.
    pub fn raw_mut(&mut self) -> (r: &mut ExtensionSet)
        ensures
            *r == old(self).0,
            final(self).0 == *final(r),
    {
        &mut self.0
    }

    /// The underlying extension set.
    pub fn raw(&self) -> (r: &ExtensionSet)
        ensures
            *r == self.0,
    {
        &self.0
    }

    /// Asks for Meta's passthrough.
    pub fn enable_fb_passthrough(&mut self) -> (r: &mut Self)
        ensures
            r.0.flags@ == old(self).0.flags@.update(FB_PASSTHROUGH as int, true),
            r.0.other@ == old(self).0.other@,
            *final(self) == *final(r),
    {
        self.0.flags[FB_PASSTHROUGH] = true;
        self
    }

    /// Stops asking for Meta's passthrough.
    pub fn disable_fb_passthrough(&mut self) -> (r: &mut Self)
        ensures
            r.0.flags@ == old(self).0.flags@.update(FB_PASSTHROUGH as int, false),
            r.0.other@ == old(self).0.other@,
            *final(self) == *final(r),
    {
        self.0.flags[FB_PASSTHROUGH] = false;
        self
    }

    /// Asks for hand tracking.
    pub fn enable_hand_tracking(&mut self) -> (r: &mut Self)
        ensures
            r.0.flags@ == old(self).0.flags@.update(EXT_HAND_TRACKING as int, true),
            r.0.other@ == old(self).0.other@,
            *final(self) == *final(r),
    {
        self.0.flags[EXT_HAND_TRACKING] = true;
        self
    }

    /// Stops asking for hand tracking.
    pub fn disable_hand_tracking(&mut self) -> (r: &mut Self)
        ensures
            r.0.flags@ == old(self).0.flags@.update(EXT_HAND_TRACKING as int, false),
            r.0.other@ == old(self).0.other@,
            *final(self) == *final(r),
    {
        self.0.flags[EXT_HAND_TRACKING] = false;
        self
    }

    /// Returns true if all of the extensions enabled are also available in
    /// `available_exts`.
    pub fn is_available(&self, available_exts: &XrExtensions) -> (r: bool)
        ensures
            r == available_within(self, available_exts),
    {
        let mut e: usize = 0;
        while e < EXT_COUNT
            invariant
                e <= EXT_COUNT,
                forall|j: int| 0 <= j < e ==> self.0.flags@[j] ==> available_exts.0.flags@[j],
            decreases EXT_COUNT - e,
        {
            if self.0.flags[e] && !available_exts.0.flags[e] {
                return false;
            }
            e = e + 1;
        }
        let mut i: usize = 0;
        while i < self.0.other.len()
            invariant
                i <= self.0.other@.len(),
                flags_within(self.0.flags@, available_exts.0.flags@),
                forall|j: int| 0 <= j < i ==> available_exts.0.others().contains(#[trigger] self.0.others()[j]),
            decreases self.0.other@.len() - i,
        {
            if !available_exts.0.contains_other(&self.0.other[i]) {
                proof {
                    assert(self.0.others()[i as int] == self.0.other@[i as int]@);
                    assert(!names_within(self.0.others(), available_exts.0.others()));
                }
                return false;
            }
            i = i + 1;
        }
        true
    }

    /// `self | rhs` as built for a platform other than Windows and Android; see
    /// [`XrExtensions::or_on`].
    pub fn or(self, rhs: Self) -> (r: Self)
        ensures
            r.0.flags@ == or_flags(self.0.flags@, rhs.0.flags@, Platform::Other),
            r.0.others() == names_merged(self.0.others(), rhs.0.others()),
    {
        self.or_on(rhs, Platform::Other)
    }

    /// `self & rhs` as built for a platform other than Windows and Android; see
    /// [`XrExtensions::and_on`].
    pub fn and(self, rhs: Self) -> (r: Self)
        ensures
            r.0.flags@ == and_flags(self.0.flags@, rhs.0.flags@, Platform::Other),
            r.0.others() == names_kept(self.0.others(), rhs.0.others()),
    {
        self.and_on(rhs, Platform::Other)
    }

    /// The extensions of either set, as built for `platform`: each flag carried
    /// over there that either holds; the unnamed extensions of `self`, then those of `rhs` that
    /// are not yet present.
    pub fn or_on(self, rhs: Self, platform: Platform) -> (r: Self)
        ensures
            r.0.flags@ == or_flags(self.0.flags@, rhs.0.flags@, platform),
            r.0.others() == names_merged(self.0.others(), rhs.0.others()),
    {
        let mut flags = ExtensionSet::empty().flags;
        let mut e: usize = 0;
        while e < EXT_COUNT
            invariant
                e <= EXT_COUNT,
                forall|j: int| 0 <= j < e ==> #[trigger] flags@[j] == (carried(platform, j) && (self.0.flags@[j] || rhs.0.flags@[j])),
            decreases EXT_COUNT - e,
        {
            flags[e] = combined_at(e) && known_on_at(platform, e) && (self.0.flags[e] || rhs.0.flags[e]);
            e = e + 1;
        }
        proof {
            assert(flags@ =~= or_flags(self.0.flags@, rhs.0.flags@, platform));
        }
        let ghost start = self.0.others();
        let mut out = ExtensionSet { flags, other: self.0.other };
        let mut i: usize = 0;
        while i < rhs.0.other.len()
            invariant
                i <= rhs.0.other@.len(),
                out.flags@ == or_flags(self.0.flags@, rhs.0.flags@, platform),
                out.others() == names_merged(start, rhs.0.others().take(i as int)),
            decreases rhs.0.other@.len() - i,
        {
            let name = &rhs.0.other[i];
            proof {
                assert(rhs.0.others().take(i + 1).drop_last() =~= rhs.0.others().take(i as int));
                assert(rhs.0.others().take(i + 1).last() == name@);
            }
            if !out.contains_other(name) {
                out.push_other(name.clone());
            }
            i = i + 1;
        }
        proof {
            assert(rhs.0.others().take(rhs.0.other@.len() as int) =~= rhs.0.others());
        }
        XrExtensions(out)
    }

    /// The extensions of both sets, as built for `platform`: each flag carried
    /// over there that both hold, and the unnamed extensions of `self` that `rhs` names too, in the
    /// order of `self`.
    pub fn and_on(self, rhs: Self, platform: Platform) -> (r: Self)
        ensures
            r.0.flags@ == and_flags(self.0.flags@, rhs.0.flags@, platform),
            r.0.others() == names_kept(self.0.others(), rhs.0.others()),
    {
        let mut flags = ExtensionSet::empty().flags;
        let mut e: usize = 0;
        while e < EXT_COUNT
            invariant
                e <= EXT_COUNT,
                forall|j: int| 0 <= j < e ==> #[trigger] flags@[j] == (carried(platform, j) && self.0.flags@[j] && rhs.0.flags@[j]),
            decreases EXT_COUNT - e,
        {
            flags[e] = combined_at(e) && known_on_at(platform, e) && self.0.flags[e] && rhs.0.flags[e];
            e = e + 1;
        }
        proof {
            assert(flags@ =~= and_flags(self.0.flags@, rhs.0.flags@, platform));
        }
        let mut out = ExtensionSet { flags, other: Vec::new() };
        proof {
            assert(out.others() =~= names_kept(self.0.others().take(0), rhs.0.others()));
        }
        let mut i: usize = 0;
        while i < self.0.other.len()
            invariant
                i <= self.0.other@.len(),
                out.flags@ == and_flags(self.0.flags@, rhs.0.flags@, platform),
                out.others() == names_kept(self.0.others().take(i as int), rhs.0.others()),
            decreases self.0.other@.len() - i,
        {
            let name = &self.0.other[i];
            proof {
                assert(self.0.others().take(i + 1).drop_last() =~= self.0.others().take(i as int));
                assert(self.0.others().take(i + 1).last() == name@);
            }
            if rhs.0.contains_other(name) {
                out.push_other(name.clone());
            }
            i = i + 1;
        }
        proof {
            assert(self.0.others().take(self.0.other@.len() as int) =~= self.0.others());
        }
        XrExtensions(out)
    }
}

impl std::ops::BitOr for XrExtensions {
    type Output = Self;

    /// See [`XrExtensions::or`].
    fn bitor(self, rhs: Self) -> (r: Self)
        ensures
            r.0.flags@ == or_flags(self.0.flags@, rhs.0.flags@, Platform::Other),
            r.0.others() == names_merged(self.0.others(), rhs.0.others()),
    {
        self.or(rhs)
    }
}

/// The result of `|` is stated by the `ensures` of `bitor` itself: it holds
/// extension names, which no spec function can build.
impl vstd::std_specs::ops::BitOrSpecImpl for XrExtensions {
    open spec fn obeys_bitor_spec() -> bool {
        false
    }

    open spec fn bitor_req(self, rhs: Self) -> bool {
        true
    }

    open spec fn bitor_spec(self, rhs: Self) -> Self {
        vstd::pervasive::arbitrary()
    }
}

impl std::ops::BitAnd for XrExtensions {
    type Output = Self;

    /// See [`XrExtensions::and`].
    fn bitand(self, rhs: Self) -> (r: Self)
        ensures
            r.0.flags@ == and_flags(self.0.flags@, rhs.0.flags@, Platform::Other),
            r.0.others() == names_kept(self.0.others(), rhs.0.others()),
    {
        self.and(rhs)
    }
}

/// The result of `&` is stated by the `ensures` of `bitand` itself: it holds
/// extension names, which no spec function can build.
impl vstd::std_specs::ops::BitAndSpecImpl for XrExtensions {
    open spec fn obeys_bitand_spec() -> bool {
        false
    }

    open spec fn bitand_req(self, rhs: Self) -> bool {
        true
    }

    open spec fn bitand_spec(self, rhs: Self) -> Self {
        vstd::pervasive::arbitrary()
    }
}

impl Default for XrExtensions {
    /// Hand tracking, nothing else.
    fn default() -> (r: Self)
        ensures
            forall|e: int| 0 <= e < EXT_COUNT ==> (#[trigger] r.0.flags@[e] <==> e == EXT_HAND_TRACKING),
            r.0.other@.len() == 0,
    {
        let mut exts = ExtensionSet::empty();
        exts.flags[EXT_HAND_TRACKING] = true;
        XrExtensions(exts)
    }
}

impl Clone for XrExtensions {
    fn clone(&self) -> (r: Self)
        ensures
            r.0.flags@ == self.0.flags@,
            r.0.others() == self.0.others(),
    {
        XrExtensions(self.0.duplicate())
    }
}

impl From<ExtensionSet> for XrExtensions {
    fn from(value: ExtensionSet) -> (r: Self)
        ensures
            r == XrExtensions(value),
    {
        XrExtensions(value)
    }
}

impl vstd::std_specs::convert::FromSpecImpl<ExtensionSet> for XrExtensions {
    open spec fn obeys_from_spec() -> bool {
        true
    }

    open spec fn from_spec(v: ExtensionSet) -> Self {
        XrExtensions(v)
    }
}

impl From<XrExtensions> for ExtensionSet {
    fn from(value: XrExtensions) -> (r: Self)
        ensures
            r == value.0,
    {
        value.0
    }
}

impl vstd::std_specs::convert::FromSpecImpl<XrExtensions> for ExtensionSet {
    open spec fn obeys_from_spec() -> bool {
        true
    }

    open spec fn from_spec(v: XrExtensions) -> Self {
        v.0
    }
}

/// `&` and `|` at the extension with index `e` are the conjunction and the
/// disjunction of what the operands hold there.
pub open spec fn combines(a: Seq<bool>, b: Seq<bool>, platform: Platform, e: usize) -> bool {
    &&& and_flags(a, b, platform)[e as int] == (a[e as int] && b[e as int])
    &&& or_flags(a, b, platform)[e as int] == (a[e as int] || b[e as int])
}

/// Neither `&` nor `|` holds the extension with index `e`.
pub open spec fn drops(a: Seq<bool>, b: Seq<bool>, platform: Platform, e: usize) -> bool {
    &&& !and_flags(a, b, platform)[e as int]
    &&& !or_flags(a, b, platform)[e as int]
}

/// What `&` and `|` do to each extension, one by one: the ones the plugin
/// writes its operations over are combined (the Windows-only and Android-only
/// ones only in those builds, and dropped elsewhere); every other one, such as
/// `ext_local_floor`, is dropped.
pub proof fn lemma_each_extension_combines(a: Seq<bool>, b: Seq<bool>, platform: Platform)
    ensures
        combines(a, b, platform, ext_set::ALMALENCE_DIGITAL_LENS_CONTROL),
        drops(a, b, platform, ext_set::BD_CONTROLLER_INTERACTION),
        combines(a, b, platform, ext_set::EPIC_VIEW_CONFIGURATION_FOV),
        combines(a, b, platform, ext_set::EXT_PERFORMANCE_SETTINGS),
        combines(a, b, platform, ext_set::EXT_THERMAL_QUERY),
        combines(a, b, platform, ext_set::EXT_DEBUG_UTILS),
        combines(a, b, platform, ext_set::EXT_EYE_GAZE_INTERACTION),
        combines(a, b, platform, ext_set::EXT_VIEW_CONFIGURATION_DEPTH_RANGE),
        combines(a, b, platform, ext_set::EXT_CONFORMANCE_AUTOMATION),
        combines(a, b, platform, ext_set::EXT_HAND_TRACKING),
        platform == Platform::Windows ==> combines(a, b, platform, ext_set::EXT_WIN32_APPCONTAINER_COMPATIBLE),
        platform != Platform::Windows ==> drops(a, b, platform, ext_set::EXT_WIN32_APPCONTAINER_COMPATIBLE),
        combines(a, b, platform, ext_set::EXT_DPAD_BINDING),
        combines(a, b, platform, ext_set::EXT_HAND_JOINTS_MOTION_RANGE),
        combines(a, b, platform, ext_set::EXT_SAMSUNG_ODYSSEY_CONTROLLER),
        combines(a, b, platform, ext_set::EXT_HP_MIXED_REALITY_CONTROLLER),
        combines(a, b, platform, ext_set::EXT_PALM_POSE),
        combines(a, b, platform, ext_set::EXT_UUID),
        drops(a, b, platform, ext_set::EXT_HAND_INTERACTION),
        drops(a, b, platform, ext_set::EXT_ACTIVE_ACTION_SET_PRIORITY),
        drops(a, b, platform, ext_set::EXT_LOCAL_FLOOR),
        drops(a, b, platform, ext_set::EXT_HAND_TRACKING_DATA_SOURCE),
        drops(a, b, platform, ext_set::EXT_PLANE_DETECTION),
        drops(a, b, platform, ext_set::EXT_FUTURE),
        drops(a, b, platform, ext_set::EXT_USER_PRESENCE),
        combines(a, b, platform, ext_set::FB_COMPOSITION_LAYER_IMAGE_LAYOUT),
        combines(a, b, platform, ext_set::FB_COMPOSITION_LAYER_ALPHA_BLEND),
        platform == Platform::Android ==> combines(a, b, platform, ext_set::FB_ANDROID_SURFACE_SWAPCHAIN_CREATE),
        platform != Platform::Android ==> drops(a, b, platform, ext_set::FB_ANDROID_SURFACE_SWAPCHAIN_CREATE),
        combines(a, b, platform, ext_set::FB_SWAPCHAIN_UPDATE_STATE),
        combines(a, b, platform, ext_set::FB_COMPOSITION_LAYER_SECURE_CONTENT),
        drops(a, b, platform, ext_set::FB_BODY_TRACKING),
        combines(a, b, platform, ext_set::FB_DISPLAY_REFRESH_RATE),
        combines(a, b, platform, ext_set::FB_COLOR_SPACE),
        combines(a, b, platform, ext_set::FB_HAND_TRACKING_MESH),
        combines(a, b, platform, ext_set::FB_HAND_TRACKING_AIM),
        combines(a, b, platform, ext_set::FB_HAND_TRACKING_CAPSULES),
        combines(a, b, platform, ext_set::FB_SPATIAL_ENTITY),
        combines(a, b, platform, ext_set::FB_FOVEATION),
        combines(a, b, platform, ext_set::FB_FOVEATION_CONFIGURATION),
        combines(a, b, platform, ext_set::FB_KEYBOARD_TRACKING),
        combines(a, b, platform, ext_set::FB_TRIANGLE_MESH),
        combines(a, b, platform, ext_set::FB_PASSTHROUGH),
        combines(a, b, platform, ext_set::FB_RENDER_MODEL),
        combines(a, b, platform, ext_set::FB_SPATIAL_ENTITY_QUERY),
        combines(a, b, platform, ext_set::FB_SPATIAL_ENTITY_STORAGE),
        combines(a, b, platform, ext_set::FB_FOVEATION_VULKAN),
        platform == Platform::Android ==> combines(a, b, platform, ext_set::FB_SWAPCHAIN_UPDATE_STATE_ANDROID_SURFACE),
        platform != Platform::Android ==> drops(a, b, platform, ext_set::FB_SWAPCHAIN_UPDATE_STATE_ANDROID_SURFACE),
        combines(a, b, platform, ext_set::FB_SWAPCHAIN_UPDATE_STATE_OPENGL_ES),
        combines(a, b, platform, ext_set::FB_SWAPCHAIN_UPDATE_STATE_VULKAN),
        drops(a, b, platform, ext_set::FB_TOUCH_CONTROLLER_PRO),
        drops(a, b, platform, ext_set::FB_SPATIAL_ENTITY_SHARING),
        combines(a, b, platform, ext_set::FB_SPACE_WARP),
        drops(a, b, platform, ext_set::FB_HAPTIC_AMPLITUDE_ENVELOPE),
        combines(a, b, platform, ext_set::FB_SCENE),
        drops(a, b, platform, ext_set::FB_SCENE_CAPTURE),
        combines(a, b, platform, ext_set::FB_SPATIAL_ENTITY_CONTAINER),
        drops(a, b, platform, ext_set::FB_FACE_TRACKING),
        drops(a, b, platform, ext_set::FB_EYE_TRACKING_SOCIAL),
        combines(a, b, platform, ext_set::FB_PASSTHROUGH_KEYBOARD_HANDS),
        combines(a, b, platform, ext_set::FB_COMPOSITION_LAYER_SETTINGS),
        drops(a, b, platform, ext_set::FB_TOUCH_CONTROLLER_PROXIMITY),
        drops(a, b, platform, ext_set::FB_HAPTIC_PCM),
        drops(a, b, platform, ext_set::FB_COMPOSITION_LAYER_DEPTH_TEST),
        drops(a, b, platform, ext_set::FB_SPATIAL_ENTITY_STORAGE_BATCH),
        drops(a, b, platform, ext_set::FB_SPATIAL_ENTITY_USER),
        drops(a, b, platform, ext_set::FB_FACE_TRACKING2),
        combines(a, b, platform, ext_set::HTC_VIVE_COSMOS_CONTROLLER_INTERACTION),
        combines(a, b, platform, ext_set::HTC_FACIAL_TRACKING),
        combines(a, b, platform, ext_set::HTC_VIVE_FOCUS3_CONTROLLER_INTERACTION),
        combines(a, b, platform, ext_set::HTC_HAND_INTERACTION),
        combines(a, b, platform, ext_set::HTC_VIVE_WRIST_TRACKER_INTERACTION),
        drops(a, b, platform, ext_set::HTC_PASSTHROUGH),
        drops(a, b, platform, ext_set::HTC_FOVEATION),
        drops(a, b, platform, ext_set::HTC_ANCHOR),
        combines(a, b, platform, ext_set::HUAWEI_CONTROLLER_INTERACTION),
        platform == Platform::Android ==> combines(a, b, platform, ext_set::KHR_ANDROID_THREAD_SETTINGS),
        platform != Platform::Android ==> drops(a, b, platform, ext_set::KHR_ANDROID_THREAD_SETTINGS),
        platform == Platform::Android ==> combines(a, b, platform, ext_set::KHR_ANDROID_SURFACE_SWAPCHAIN),
        platform != Platform::Android ==> drops(a, b, platform, ext_set::KHR_ANDROID_SURFACE_SWAPCHAIN),
        combines(a, b, platform, ext_set::KHR_COMPOSITION_LAYER_CUBE),
        platform == Platform::Android ==> combines(a, b, platform, ext_set::KHR_ANDROID_CREATE_INSTANCE),
        platform != Platform::Android ==> drops(a, b, platform, ext_set::KHR_ANDROID_CREATE_INSTANCE),
        combines(a, b, platform, ext_set::KHR_COMPOSITION_LAYER_DEPTH),
        combines(a, b, platform, ext_set::KHR_VULKAN_SWAPCHAIN_FORMAT_LIST),
        combines(a, b, platform, ext_set::KHR_COMPOSITION_LAYER_CYLINDER),
        combines(a, b, platform, ext_set::KHR_COMPOSITION_LAYER_EQUIRECT),
        combines(a, b, platform, ext_set::KHR_OPENGL_ENABLE),
        combines(a, b, platform, ext_set::KHR_OPENGL_ES_ENABLE),
        combines(a, b, platform, ext_set::KHR_VULKAN_ENABLE),
        platform == Platform::Windows ==> combines(a, b, platform, ext_set::KHR_D3D11_ENABLE),
        platform != Platform::Windows ==> drops(a, b, platform, ext_set::KHR_D3D11_ENABLE),
        platform == Platform::Windows ==> combines(a, b, platform, ext_set::KHR_D3D12_ENABLE),
        platform != Platform::Windows ==> drops(a, b, platform, ext_set::KHR_D3D12_ENABLE),
        combines(a, b, platform, ext_set::KHR_VISIBILITY_MASK),
        combines(a, b, platform, ext_set::KHR_COMPOSITION_LAYER_COLOR_SCALE_BIAS),
        platform == Platform::Windows ==> combines(a, b, platform, ext_set::KHR_WIN32_CONVERT_PERFORMANCE_COUNTER_TIME),
        platform != Platform::Windows ==> drops(a, b, platform, ext_set::KHR_WIN32_CONVERT_PERFORMANCE_COUNTER_TIME),
        combines(a, b, platform, ext_set::KHR_CONVERT_TIMESPEC_TIME),
        combines(a, b, platform, ext_set::KHR_LOADER_INIT),
        platform == Platform::Android ==> combines(a, b, platform, ext_set::KHR_LOADER_INIT_ANDROID),
        platform != Platform::Android ==> drops(a, b, platform, ext_set::KHR_LOADER_INIT_ANDROID),
        combines(a, b, platform, ext_set::KHR_VULKAN_ENABLE2),
        combines(a, b, platform, ext_set::KHR_COMPOSITION_LAYER_EQUIRECT2),
        combines(a, b, platform, ext_set::KHR_BINDING_MODIFICATION),
        combines(a, b, platform, ext_set::KHR_SWAPCHAIN_USAGE_INPUT_ATTACHMENT_BIT),
        drops(a, b, platform, ext_set::KHR_LOCATE_SPACES),
        drops(a, b, platform, ext_set::KHR_MAINTENANCE1),
        drops(a, b, platform, ext_set::META_FOVEATION_EYE_TRACKED),
        drops(a, b, platform, ext_set::META_LOCAL_DIMMING),
        drops(a, b, platform, ext_set::META_PASSTHROUGH_PREFERENCES),
        drops(a, b, platform, ext_set::META_VIRTUAL_KEYBOARD),
        combines(a, b, platform, ext_set::META_VULKAN_SWAPCHAIN_CREATE_INFO),
        combines(a, b, platform, ext_set::META_PERFORMANCE_METRICS),
        drops(a, b, platform, ext_set::META_HEADSET_ID),
        drops(a, b, platform, ext_set::META_RECOMMENDED_LAYER_RESOLUTION),
        drops(a, b, platform, ext_set::META_PASSTHROUGH_COLOR_LUT),
        drops(a, b, platform, ext_set::META_SPATIAL_ENTITY_MESH),
        drops(a, b, platform, ext_set::META_AUTOMATIC_LAYER_FILTER),
        drops(a, b, platform, ext_set::META_TOUCH_CONTROLLER_PLUS),
        drops(a, b, platform, ext_set::META_ENVIRONMENT_DEPTH),
        combines(a, b, platform, ext_set::ML_ML2_CONTROLLER_INTERACTION),
        drops(a, b, platform, ext_set::ML_FRAME_END_INFO),
        drops(a, b, platform, ext_set::ML_GLOBAL_DIMMER),
        drops(a, b, platform, ext_set::ML_COMPAT),
        drops(a, b, platform, ext_set::ML_MARKER_UNDERSTANDING),
        drops(a, b, platform, ext_set::ML_LOCALIZATION_MAP),
        drops(a, b, platform, ext_set::ML_USER_CALIBRATION),
        combines(a, b, platform, ext_set::MND_HEADLESS),
        combines(a, b, platform, ext_set::MND_SWAPCHAIN_USAGE_INPUT_ATTACHMENT_BIT),
        combines(a, b, platform, ext_set::MSFT_UNBOUNDED_REFERENCE_SPACE),
        combines(a, b, platform, ext_set::MSFT_SPATIAL_ANCHOR),
        combines(a, b, platform, ext_set::MSFT_SPATIAL_GRAPH_BRIDGE),
        combines(a, b, platform, ext_set::MSFT_HAND_INTERACTION),
        combines(a, b, platform, ext_set::MSFT_HAND_TRACKING_MESH),
        combines(a, b, platform, ext_set::MSFT_SECONDARY_VIEW_CONFIGURATION),
        combines(a, b, platform, ext_set::MSFT_FIRST_PERSON_OBSERVER),
        combines(a, b, platform, ext_set::MSFT_CONTROLLER_MODEL),
        platform == Platform::Windows ==> combines(a, b, platform, ext_set::MSFT_PERCEPTION_ANCHOR_INTEROP),
        platform != Platform::Windows ==> drops(a, b, platform, ext_set::MSFT_PERCEPTION_ANCHOR_INTEROP),
        platform == Platform::Windows ==> combines(a, b, platform, ext_set::MSFT_HOLOGRAPHIC_WINDOW_ATTACHMENT),
        platform != Platform::Windows ==> drops(a, b, platform, ext_set::MSFT_HOLOGRAPHIC_WINDOW_ATTACHMENT),
        combines(a, b, platform, ext_set::MSFT_COMPOSITION_LAYER_REPROJECTION),
        combines(a, b, platform, ext_set::MSFT_SPATIAL_ANCHOR_PERSISTENCE),
        platform == Platform::Android ==> combines(a, b, platform, ext_set::OCULUS_ANDROID_SESSION_STATE_ENABLE),
        platform != Platform::Android ==> drops(a, b, platform, ext_set::OCULUS_ANDROID_SESSION_STATE_ENABLE),
        combines(a, b, platform, ext_set::OCULUS_AUDIO_DEVICE_GUID),
        drops(a, b, platform, ext_set::OCULUS_EXTERNAL_CAMERA),
        drops(a, b, platform, ext_set::OPPO_CONTROLLER_INTERACTION),
        drops(a, b, platform, ext_set::QCOM_TRACKING_OPTIMIZATION_SETTINGS),
        combines(a, b, platform, ext_set::ULTRALEAP_HAND_TRACKING_FOREARM),
        combines(a, b, platform, ext_set::VALVE_ANALOG_THRESHOLD),
        combines(a, b, platform, ext_set::VARJO_QUAD_VIEWS),
        combines(a, b, platform, ext_set::VARJO_FOVEATED_RENDERING),
        combines(a, b, platform, ext_set::VARJO_COMPOSITION_LAYER_DEPTH_TEST),
        combines(a, b, platform, ext_set::VARJO_ENVIRONMENT_DEPTH_ESTIMATION),
        combines(a, b, platform, ext_set::VARJO_MARKER_TRACKING),
        combines(a, b, platform, ext_set::VARJO_VIEW_OFFSET),
        drops(a, b, platform, ext_set::VARJO_XR4_CONTROLLER_INTERACTION),
        drops(a, b, platform, ext_set::YVR_CONTROLLER_INTERACTION),
        combines(a, b, platform, ext_set::EXTX_OVERLAY),
        combines(a, b, platform, ext_set::MNDX_EGL_ENABLE),
        drops(a, b, platform, ext_set::MNDX_FORCE_FEEDBACK_CURL),
        combines(a, b, platform, ext_set::HTCX_VIVE_TRACKER_INTERACTION),
{
}

} // verus!
