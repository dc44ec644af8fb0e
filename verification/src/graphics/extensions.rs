//! The extension set that a session asks for, with the intersection used
//! to keep only what the runtime offers.

use vstd::prelude::*;
use crate::ext_set;
use crate::ext_set::{
    ExtensionSet, Platform, flags_within, names_kept,
    ALMALENCE_DIGITAL_LENS_CONTROL,
    EPIC_VIEW_CONFIGURATION_FOV,
    EXT_CONFORMANCE_AUTOMATION,
    EXT_COUNT,
    EXT_DEBUG_UTILS,
    EXT_DPAD_BINDING,
    EXT_EYE_GAZE_INTERACTION,
    EXT_HAND_JOINTS_MOTION_RANGE,
    EXT_HAND_TRACKING,
    EXT_HP_MIXED_REALITY_CONTROLLER,
    EXT_LOCAL_FLOOR,
    EXT_PALM_POSE,
    EXT_PERFORMANCE_SETTINGS,
    EXT_SAMSUNG_ODYSSEY_CONTROLLER,
    EXT_THERMAL_QUERY,
    EXT_UUID,
    EXT_VIEW_CONFIGURATION_DEPTH_RANGE,
    EXT_WIN32_APPCONTAINER_COMPATIBLE,
    FB_ANDROID_SURFACE_SWAPCHAIN_CREATE,
    FB_COLOR_SPACE,
    FB_COMPOSITION_LAYER_ALPHA_BLEND,
    FB_COMPOSITION_LAYER_IMAGE_LAYOUT,
    FB_COMPOSITION_LAYER_SECURE_CONTENT,
    FB_COMPOSITION_LAYER_SETTINGS,
    FB_DISPLAY_REFRESH_RATE,
    FB_FOVEATION,
    FB_FOVEATION_CONFIGURATION,
    FB_FOVEATION_VULKAN,
    FB_HAND_TRACKING_AIM,
    FB_HAND_TRACKING_CAPSULES,
    FB_HAND_TRACKING_MESH,
    FB_KEYBOARD_TRACKING,
    FB_PASSTHROUGH,
    FB_PASSTHROUGH_KEYBOARD_HANDS,
    FB_RENDER_MODEL,
    FB_SCENE,
    FB_SPACE_WARP,
    FB_SPATIAL_ENTITY,
    FB_SPATIAL_ENTITY_CONTAINER,
    FB_SPATIAL_ENTITY_QUERY,
    FB_SPATIAL_ENTITY_STORAGE,
    FB_SWAPCHAIN_UPDATE_STATE,
    FB_SWAPCHAIN_UPDATE_STATE_ANDROID_SURFACE,
    FB_SWAPCHAIN_UPDATE_STATE_OPENGL_ES,
    FB_SWAPCHAIN_UPDATE_STATE_VULKAN,
    FB_TRIANGLE_MESH,
    HTC_FACIAL_TRACKING,
    HTC_HAND_INTERACTION,
    HTC_VIVE_COSMOS_CONTROLLER_INTERACTION,
    HTC_VIVE_FOCUS3_CONTROLLER_INTERACTION,
    HTC_VIVE_WRIST_TRACKER_INTERACTION,
    HUAWEI_CONTROLLER_INTERACTION,
    KHR_ANDROID_CREATE_INSTANCE,
    KHR_ANDROID_SURFACE_SWAPCHAIN,
    KHR_ANDROID_THREAD_SETTINGS,
    KHR_BINDING_MODIFICATION,
    KHR_COMPOSITION_LAYER_COLOR_SCALE_BIAS,
    KHR_COMPOSITION_LAYER_CUBE,
    KHR_COMPOSITION_LAYER_CYLINDER,
    KHR_COMPOSITION_LAYER_DEPTH,
    KHR_COMPOSITION_LAYER_EQUIRECT,
    KHR_COMPOSITION_LAYER_EQUIRECT2,
    KHR_CONVERT_TIMESPEC_TIME,
    KHR_D3D11_ENABLE,
    KHR_D3D12_ENABLE,
    KHR_LOADER_INIT,
    KHR_LOADER_INIT_ANDROID,
    KHR_OPENGL_ENABLE,
    KHR_OPENGL_ES_ENABLE,
    KHR_SWAPCHAIN_USAGE_INPUT_ATTACHMENT_BIT,
    KHR_VISIBILITY_MASK,
    KHR_VULKAN_ENABLE,
    KHR_VULKAN_ENABLE2,
    KHR_VULKAN_SWAPCHAIN_FORMAT_LIST,
    KHR_WIN32_CONVERT_PERFORMANCE_COUNTER_TIME,
    META_PERFORMANCE_METRICS,
    META_VULKAN_SWAPCHAIN_CREATE_INFO,
    ML_ML2_CONTROLLER_INTERACTION,
    MND_HEADLESS,
    MND_SWAPCHAIN_USAGE_INPUT_ATTACHMENT_BIT,
    MSFT_COMPOSITION_LAYER_REPROJECTION,
    MSFT_CONTROLLER_MODEL,
    MSFT_FIRST_PERSON_OBSERVER,
    MSFT_HAND_INTERACTION,
    MSFT_HAND_TRACKING_MESH,
    MSFT_HOLOGRAPHIC_WINDOW_ATTACHMENT,
    MSFT_PERCEPTION_ANCHOR_INTEROP,
    MSFT_SECONDARY_VIEW_CONFIGURATION,
    MSFT_SPATIAL_ANCHOR,
    MSFT_SPATIAL_ANCHOR_PERSISTENCE,
    MSFT_SPATIAL_GRAPH_BRIDGE,
    MSFT_UNBOUNDED_REFERENCE_SPACE,
    OCULUS_ANDROID_SESSION_STATE_ENABLE,
    OCULUS_AUDIO_DEVICE_GUID,
    ULTRALEAP_HAND_TRACKING_FOREARM,
    VALVE_ANALOG_THRESHOLD,
    VARJO_COMPOSITION_LAYER_DEPTH_TEST,
    VARJO_ENVIRONMENT_DEPTH_ESTIMATION,
    VARJO_FOVEATED_RENDERING,
    VARJO_MARKER_TRACKING,
    VARJO_QUAD_VIEWS,
    VARJO_VIEW_OFFSET,
};

verus! {

/// The extensions, shared by every platform, that `&` carries over.
pub open spec fn common_and_keeps(ext: int) -> bool {
    ext == ALMALENCE_DIGITAL_LENS_CONTROL
        || ext == EPIC_VIEW_CONFIGURATION_FOV
        || ext == EXT_PERFORMANCE_SETTINGS
        || ext == EXT_THERMAL_QUERY
        || ext == EXT_DEBUG_UTILS
        || ext == EXT_EYE_GAZE_INTERACTION
        || ext == EXT_VIEW_CONFIGURATION_DEPTH_RANGE
        || ext == EXT_CONFORMANCE_AUTOMATION
        || ext == EXT_HAND_TRACKING
        || ext == EXT_DPAD_BINDING
        || ext == EXT_HAND_JOINTS_MOTION_RANGE
        || ext == EXT_SAMSUNG_ODYSSEY_CONTROLLER
        || ext == EXT_HP_MIXED_REALITY_CONTROLLER
        || ext == EXT_PALM_POSE
        || ext == EXT_UUID
        || ext == EXT_LOCAL_FLOOR
        || ext == FB_COMPOSITION_LAYER_IMAGE_LAYOUT
        || ext == FB_COMPOSITION_LAYER_ALPHA_BLEND
        || ext == FB_SWAPCHAIN_UPDATE_STATE
        || ext == FB_COMPOSITION_LAYER_SECURE_CONTENT
        || ext == FB_DISPLAY_REFRESH_RATE
        || ext == FB_COLOR_SPACE
        || ext == FB_HAND_TRACKING_MESH
        || ext == FB_HAND_TRACKING_AIM
        || ext == FB_HAND_TRACKING_CAPSULES
        || ext == FB_SPATIAL_ENTITY
        || ext == FB_FOVEATION
        || ext == FB_FOVEATION_CONFIGURATION
        || ext == FB_KEYBOARD_TRACKING
        || ext == FB_TRIANGLE_MESH
        || ext == FB_PASSTHROUGH
        || ext == FB_RENDER_MODEL
        || ext == FB_SPATIAL_ENTITY_QUERY
        || ext == FB_SPATIAL_ENTITY_STORAGE
        || ext == FB_FOVEATION_VULKAN
        || ext == FB_SWAPCHAIN_UPDATE_STATE_OPENGL_ES
        || ext == FB_SWAPCHAIN_UPDATE_STATE_VULKAN
        || ext == FB_SPACE_WARP
        || ext == FB_SCENE
        || ext == FB_SPATIAL_ENTITY_CONTAINER
        || ext == FB_PASSTHROUGH_KEYBOARD_HANDS
        || ext == FB_COMPOSITION_LAYER_SETTINGS
        || ext == HTC_VIVE_COSMOS_CONTROLLER_INTERACTION
        || ext == HTC_FACIAL_TRACKING
        || ext == HTC_VIVE_FOCUS3_CONTROLLER_INTERACTION
        || ext == HTC_HAND_INTERACTION
        || ext == HTC_VIVE_WRIST_TRACKER_INTERACTION
        || ext == HUAWEI_CONTROLLER_INTERACTION
        || ext == KHR_COMPOSITION_LAYER_CUBE
        || ext == KHR_COMPOSITION_LAYER_DEPTH
        || ext == KHR_VULKAN_SWAPCHAIN_FORMAT_LIST
        || ext == KHR_COMPOSITION_LAYER_CYLINDER
        || ext == KHR_COMPOSITION_LAYER_EQUIRECT
        || ext == KHR_OPENGL_ENABLE
        || ext == KHR_OPENGL_ES_ENABLE
        || ext == KHR_VULKAN_ENABLE
        || ext == KHR_VISIBILITY_MASK
        || ext == KHR_COMPOSITION_LAYER_COLOR_SCALE_BIAS
        || ext == KHR_CONVERT_TIMESPEC_TIME
        || ext == KHR_LOADER_INIT
        || ext == KHR_VULKAN_ENABLE2
        || ext == KHR_COMPOSITION_LAYER_EQUIRECT2
        || ext == KHR_BINDING_MODIFICATION
        || ext == KHR_SWAPCHAIN_USAGE_INPUT_ATTACHMENT_BIT
        || ext == META_VULKAN_SWAPCHAIN_CREATE_INFO
        || ext == META_PERFORMANCE_METRICS
        || ext == ML_ML2_CONTROLLER_INTERACTION
        || ext == MND_HEADLESS
        || ext == MND_SWAPCHAIN_USAGE_INPUT_ATTACHMENT_BIT
        || ext == MSFT_UNBOUNDED_REFERENCE_SPACE
        || ext == MSFT_SPATIAL_ANCHOR
        || ext == MSFT_SPATIAL_GRAPH_BRIDGE
        || ext == MSFT_HAND_INTERACTION
        || ext == MSFT_HAND_TRACKING_MESH
        || ext == MSFT_SECONDARY_VIEW_CONFIGURATION
        || ext == MSFT_FIRST_PERSON_OBSERVER
        || ext == MSFT_CONTROLLER_MODEL
        || ext == MSFT_COMPOSITION_LAYER_REPROJECTION
        || ext == MSFT_SPATIAL_ANCHOR_PERSISTENCE
        || ext == OCULUS_AUDIO_DEVICE_GUID
        || ext == ULTRALEAP_HAND_TRACKING_FOREARM
        || ext == VALVE_ANALOG_THRESHOLD
        || ext == VARJO_QUAD_VIEWS
        || ext == VARJO_FOVEATED_RENDERING
        || ext == VARJO_COMPOSITION_LAYER_DEPTH_TEST
        || ext == VARJO_ENVIRONMENT_DEPTH_ESTIMATION
        || ext == VARJO_MARKER_TRACKING
        || ext == VARJO_VIEW_OFFSET
}

/// The Android-only extensions that `&` carries over.
pub open spec fn android_and_keeps(ext: int) -> bool {
    ext == FB_ANDROID_SURFACE_SWAPCHAIN_CREATE
        || ext == FB_SWAPCHAIN_UPDATE_STATE_ANDROID_SURFACE
        || ext == KHR_ANDROID_THREAD_SETTINGS
        || ext == KHR_ANDROID_SURFACE_SWAPCHAIN
        || ext == KHR_ANDROID_CREATE_INSTANCE
        || ext == KHR_LOADER_INIT_ANDROID
        || ext == OCULUS_ANDROID_SESSION_STATE_ENABLE
}

/// The Windows-only extensions that `&` carries over.
pub open spec fn windows_and_keeps(ext: int) -> bool {
    ext == EXT_WIN32_APPCONTAINER_COMPATIBLE
        || ext == KHR_D3D11_ENABLE
        || ext == KHR_D3D12_ENABLE
        || ext == KHR_WIN32_CONVERT_PERFORMANCE_COUNTER_TIME
        || ext == MSFT_PERCEPTION_ANCHOR_INTEROP
        || ext == MSFT_HOLOGRAPHIC_WINDOW_ATTACHMENT
}

/// Whether `a & b`, built for `platform`, can hold the extension with index
/// `ext`: the shared ones everywhere, the Android-only ones in Android builds
/// and the Windows-only ones in Windows builds.
pub open spec fn and_keeps(platform: Platform, ext: int) -> bool {
    ||| common_and_keeps(ext)
    ||| platform == Platform::Android && android_and_keeps(ext)
    ||| platform == Platform::Windows && windows_and_keeps(ext)
}

fn common_and_keeps_at(ext: usize) -> (r: bool)
    ensures
        r == common_and_keeps(ext as int),
{
    ext == ALMALENCE_DIGITAL_LENS_CONTROL
        || ext == EPIC_VIEW_CONFIGURATION_FOV
        || ext == EXT_PERFORMANCE_SETTINGS
        || ext == EXT_THERMAL_QUERY
        || ext == EXT_DEBUG_UTILS
        || ext == EXT_EYE_GAZE_INTERACTION
        || ext == EXT_VIEW_CONFIGURATION_DEPTH_RANGE
        || ext == EXT_CONFORMANCE_AUTOMATION
        || ext == EXT_HAND_TRACKING
        || ext == EXT_DPAD_BINDING
        || ext == EXT_HAND_JOINTS_MOTION_RANGE
        || ext == EXT_SAMSUNG_ODYSSEY_CONTROLLER
        || ext == EXT_HP_MIXED_REALITY_CONTROLLER
        || ext == EXT_PALM_POSE
        || ext == EXT_UUID
        || ext == EXT_LOCAL_FLOOR
        || ext == FB_COMPOSITION_LAYER_IMAGE_LAYOUT
        || ext == FB_COMPOSITION_LAYER_ALPHA_BLEND
        || ext == FB_SWAPCHAIN_UPDATE_STATE
        || ext == FB_COMPOSITION_LAYER_SECURE_CONTENT
        || ext == FB_DISPLAY_REFRESH_RATE
        || ext == FB_COLOR_SPACE
        || ext == FB_HAND_TRACKING_MESH
        || ext == FB_HAND_TRACKING_AIM
        || ext == FB_HAND_TRACKING_CAPSULES
        || ext == FB_SPATIAL_ENTITY
        || ext == FB_FOVEATION
        || ext == FB_FOVEATION_CONFIGURATION
        || ext == FB_KEYBOARD_TRACKING
        || ext == FB_TRIANGLE_MESH
        || ext == FB_PASSTHROUGH
        || ext == FB_RENDER_MODEL
        || ext == FB_SPATIAL_ENTITY_QUERY
        || ext == FB_SPATIAL_ENTITY_STORAGE
        || ext == FB_FOVEATION_VULKAN
        || ext == FB_SWAPCHAIN_UPDATE_STATE_OPENGL_ES
        || ext == FB_SWAPCHAIN_UPDATE_STATE_VULKAN
        || ext == FB_SPACE_WARP
        || ext == FB_SCENE
        || ext == FB_SPATIAL_ENTITY_CONTAINER
        || ext == FB_PASSTHROUGH_KEYBOARD_HANDS
        || ext == FB_COMPOSITION_LAYER_SETTINGS
        || ext == HTC_VIVE_COSMOS_CONTROLLER_INTERACTION
        || ext == HTC_FACIAL_TRACKING
        || ext == HTC_VIVE_FOCUS3_CONTROLLER_INTERACTION
        || ext == HTC_HAND_INTERACTION
        || ext == HTC_VIVE_WRIST_TRACKER_INTERACTION
        || ext == HUAWEI_CONTROLLER_INTERACTION
        || ext == KHR_COMPOSITION_LAYER_CUBE
        || ext == KHR_COMPOSITION_LAYER_DEPTH
        || ext == KHR_VULKAN_SWAPCHAIN_FORMAT_LIST
        || ext == KHR_COMPOSITION_LAYER_CYLINDER
        || ext == KHR_COMPOSITION_LAYER_EQUIRECT
        || ext == KHR_OPENGL_ENABLE
        || ext == KHR_OPENGL_ES_ENABLE
        || ext == KHR_VULKAN_ENABLE
        || ext == KHR_VISIBILITY_MASK
        || ext == KHR_COMPOSITION_LAYER_COLOR_SCALE_BIAS
        || ext == KHR_CONVERT_TIMESPEC_TIME
        || ext == KHR_LOADER_INIT
        || ext == KHR_VULKAN_ENABLE2
        || ext == KHR_COMPOSITION_LAYER_EQUIRECT2
        || ext == KHR_BINDING_MODIFICATION
        || ext == KHR_SWAPCHAIN_USAGE_INPUT_ATTACHMENT_BIT
        || ext == META_VULKAN_SWAPCHAIN_CREATE_INFO
        || ext == META_PERFORMANCE_METRICS
        || ext == ML_ML2_CONTROLLER_INTERACTION
        || ext == MND_HEADLESS
        || ext == MND_SWAPCHAIN_USAGE_INPUT_ATTACHMENT_BIT
        || ext == MSFT_UNBOUNDED_REFERENCE_SPACE
        || ext == MSFT_SPATIAL_ANCHOR
        || ext == MSFT_SPATIAL_GRAPH_BRIDGE
        || ext == MSFT_HAND_INTERACTION
        || ext == MSFT_HAND_TRACKING_MESH
        || ext == MSFT_SECONDARY_VIEW_CONFIGURATION
        || ext == MSFT_FIRST_PERSON_OBSERVER
        || ext == MSFT_CONTROLLER_MODEL
        || ext == MSFT_COMPOSITION_LAYER_REPROJECTION
        || ext == MSFT_SPATIAL_ANCHOR_PERSISTENCE
        || ext == OCULUS_AUDIO_DEVICE_GUID
        || ext == ULTRALEAP_HAND_TRACKING_FOREARM
        || ext == VALVE_ANALOG_THRESHOLD
        || ext == VARJO_QUAD_VIEWS
        || ext == VARJO_FOVEATED_RENDERING
        || ext == VARJO_COMPOSITION_LAYER_DEPTH_TEST
        || ext == VARJO_ENVIRONMENT_DEPTH_ESTIMATION
        || ext == VARJO_MARKER_TRACKING
        || ext == VARJO_VIEW_OFFSET
}

/// The flags of `a & b` built for `platform`: those that `&` carries over there
/// and that both hold.
pub open spec fn and_flags(a: Seq<bool>, b: Seq<bool>, platform: Platform) -> Seq<bool> {
    Seq::new(EXT_COUNT as nat, |e: int| and_keeps(platform, e) && a[e] && b[e])
}

/// `&` treats the flags of its operands alike in either order.
pub proof fn lemma_and_flags_commute(a: Seq<bool>, b: Seq<bool>, platform: Platform)
    ensures
        and_flags(a, b, platform) == and_flags(b, a, platform),
{
    assert(and_flags(a, b, platform) =~= and_flags(b, a, platform));
}

/// Every flag of `a & b` is a flag of `a` and of `b`.
pub proof fn lemma_and_flags_within(a: Seq<bool>, b: Seq<bool>, platform: Platform)
    ensures
        flags_within(and_flags(a, b, platform), a),
        flags_within(and_flags(a, b, platform), b),
{
}

/// A set whose flags `&` all carries over keeps its flags when `&`-ed with
/// itself.
pub proof fn lemma_and_flags_idempotent(a: Seq<bool>, platform: Platform)
    requires
        a.len() == EXT_COUNT,
        forall|e: int| 0 <= e < EXT_COUNT ==> a[e] ==> and_keeps(platform, e),
    ensures
        and_flags(a, a, platform) == a,
{
    assert(and_flags(a, a, platform) =~= a);
}

/// Sets each Android-only flag of `out` that `&` carries over to whether both
/// `lhs` and `rhs` hold it.
pub fn and_android_only_exts(lhs: &XrExtensions, rhs: &XrExtensions, out: &mut ExtensionSet)
    ensures
        final(out).other@ == old(out).other@,
        forall|e: int| 0 <= e < EXT_COUNT ==> #[trigger] final(out).flags@[e] == if android_and_keeps(e) {
            lhs.0.flags@[e] && rhs.0.flags@[e]
        } else {
            old(out).flags@[e]
        },
{
    out.flags[FB_ANDROID_SURFACE_SWAPCHAIN_CREATE] = lhs.0.flags[FB_ANDROID_SURFACE_SWAPCHAIN_CREATE] && rhs.0.flags[FB_ANDROID_SURFACE_SWAPCHAIN_CREATE];
    out.flags[FB_SWAPCHAIN_UPDATE_STATE_ANDROID_SURFACE] = lhs.0.flags[FB_SWAPCHAIN_UPDATE_STATE_ANDROID_SURFACE] && rhs.0.flags[FB_SWAPCHAIN_UPDATE_STATE_ANDROID_SURFACE];
    out.flags[KHR_ANDROID_THREAD_SETTINGS] = lhs.0.flags[KHR_ANDROID_THREAD_SETTINGS] && rhs.0.flags[KHR_ANDROID_THREAD_SETTINGS];
    out.flags[KHR_ANDROID_SURFACE_SWAPCHAIN] = lhs.0.flags[KHR_ANDROID_SURFACE_SWAPCHAIN] && rhs.0.flags[KHR_ANDROID_SURFACE_SWAPCHAIN];
    out.flags[KHR_ANDROID_CREATE_INSTANCE] = lhs.0.flags[KHR_ANDROID_CREATE_INSTANCE] && rhs.0.flags[KHR_ANDROID_CREATE_INSTANCE];
    out.flags[KHR_LOADER_INIT_ANDROID] = lhs.0.flags[KHR_LOADER_INIT_ANDROID] && rhs.0.flags[KHR_LOADER_INIT_ANDROID];
    out.flags[OCULUS_ANDROID_SESSION_STATE_ENABLE] = lhs.0.flags[OCULUS_ANDROID_SESSION_STATE_ENABLE] && rhs.0.flags[OCULUS_ANDROID_SESSION_STATE_ENABLE];
}

/// Sets each Windows-only flag of `out` that `&` carries over to whether both
/// `lhs` and `rhs` hold it.
pub fn and_windows_only_exts(lhs: &XrExtensions, rhs: &XrExtensions, out: &mut ExtensionSet)
    ensures
        final(out).other@ == old(out).other@,
        forall|e: int| 0 <= e < EXT_COUNT ==> #[trigger] final(out).flags@[e] == if windows_and_keeps(e) {
            lhs.0.flags@[e] && rhs.0.flags@[e]
        } else {
            old(out).flags@[e]
        },
{
    out.flags[EXT_WIN32_APPCONTAINER_COMPATIBLE] = lhs.0.flags[EXT_WIN32_APPCONTAINER_COMPATIBLE] && rhs.0.flags[EXT_WIN32_APPCONTAINER_COMPATIBLE];
    out.flags[KHR_D3D11_ENABLE] = lhs.0.flags[KHR_D3D11_ENABLE] && rhs.0.flags[KHR_D3D11_ENABLE];
    out.flags[KHR_D3D12_ENABLE] = lhs.0.flags[KHR_D3D12_ENABLE] && rhs.0.flags[KHR_D3D12_ENABLE];
    out.flags[KHR_WIN32_CONVERT_PERFORMANCE_COUNTER_TIME] = lhs.0.flags[KHR_WIN32_CONVERT_PERFORMANCE_COUNTER_TIME] && rhs.0.flags[KHR_WIN32_CONVERT_PERFORMANCE_COUNTER_TIME];
    out.flags[MSFT_PERCEPTION_ANCHOR_INTEROP] = lhs.0.flags[MSFT_PERCEPTION_ANCHOR_INTEROP] && rhs.0.flags[MSFT_PERCEPTION_ANCHOR_INTEROP];
    out.flags[MSFT_HOLOGRAPHIC_WINDOW_ATTACHMENT] = lhs.0.flags[MSFT_HOLOGRAPHIC_WINDOW_ATTACHMENT] && rhs.0.flags[MSFT_HOLOGRAPHIC_WINDOW_ATTACHMENT];
}

/// The extensions that a session is to be created with.
#[derive(Debug)]
pub struct XrExtensions(pub ExtensionSet);

impl XrExtensions {
    /// The underlying extension set, to change it in place.
    pub fn raw_mut(&mut self) -> (r: &mut ExtensionSet)
        ensures
            *r == old(self).0,
            final(self).0 == *final(r),
    {
        &mut self.0
    }

    /// The underlying extension set.
    pub fn raw(&self) -> (r: &ExtensionSet)
        ensures
            *r == self.0,
    {
        &self.0
    }

    /// Asks for hand tracking.
    pub fn enable_hand_tracking(&mut self) -> (r: &mut Self)
        ensures
            r.0.flags@ == old(self).0.flags@.update(EXT_HAND_TRACKING as int, true),
            r.0.other@ == old(self).0.other@,
            *final(self) == *final(r),
    {
        self.0.flags[EXT_HAND_TRACKING] = true;
        self
    }

    /// Stops asking for hand tracking.
    pub fn disable_hand_tracking(&mut self) -> (r: &mut Self)
        ensures
            r.0.flags@ == old(self).0.flags@.update(EXT_HAND_TRACKING as int, false),
            r.0.other@ == old(self).0.other@,
            *final(self) == *final(r),
    {
        self.0.flags[EXT_HAND_TRACKING] = false;
        self
    }

    /// Asks for the local-floor reference space.
    pub fn enable_local_floor(&mut self) -> (r: &mut Self)
        ensures
            r.0.flags@ == old(self).0.flags@.update(EXT_LOCAL_FLOOR as int, true),
            r.0.other@ == old(self).0.other@,
            *final(self) == *final(r),
    {
        self.0.flags[EXT_LOCAL_FLOOR] = true;
        self
    }

    /// Stops asking for the local-floor reference space.
    pub fn disable_local_floor(&mut self) -> (r: &mut Self)
        ensures
            r.0.flags@ == old(self).0.flags@.update(EXT_LOCAL_FLOOR as int, false),
            r.0.other@ == old(self).0.other@,
            *final(self) == *final(r),
    {
        self.0.flags[EXT_LOCAL_FLOOR] = false;
        self
    }

    /// The extensions of both sets, as built for a platform other than Windows
    /// and Android: each flag that `&` carries over there and that both hold,
    /// and the unnamed extensions of `self` that `rhs` names too, in the order
    /// of `self`.
    pub fn and(self, rhs: Self) -> (r: Self)
        ensures
            r.0.flags@ == and_flags(self.0.flags@, rhs.0.flags@, Platform::Other),
            r.0.others() == names_kept(self.0.others(), rhs.0.others()),
    {
        self.and_on(rhs, Platform::Other)
    }

    /// The extensions of both sets, as built for `platform`: each flag that `&`
    /// carries over there and that both hold, and the unnamed extensions of
    /// `self` that `rhs` names too, in the order of `self`.
    pub fn and_on(self, rhs: Self, platform: Platform) -> (r: Self)
        ensures
            r.0.flags@ == and_flags(self.0.flags@, rhs.0.flags@, platform),
            r.0.others() == names_kept(self.0.others(), rhs.0.others()),
    {
        let mut out = ExtensionSet::empty();
        let mut e: usize = 0;
        while e < EXT_COUNT
            invariant
                e <= EXT_COUNT,
                out.other@.len() == 0,
                forall|j: int| 0 <= j < e ==> out.flags@[j] == (common_and_keeps(j) && self.0.flags@[j] && rhs.0.flags@[j]),
                forall|j: int| e <= j < EXT_COUNT ==> !out.flags@[j],
            decreases EXT_COUNT - e,
        {
            out.flags[e] = common_and_keeps_at(e) && self.0.flags[e] && rhs.0.flags[e];
            e = e + 1;
        }
        if platform == Platform::Android {
            and_android_only_exts(&self, &rhs, &mut out);
        }
        if platform == Platform::Windows {
            and_windows_only_exts(&self, &rhs, &mut out);
        }
        proof {
            assert forall|j: int| 0 <= j < EXT_COUNT implies out.flags@[j] == #[trigger] and_flags(self.0.flags@, rhs.0.flags@, platform)[j] by {
            }
            assert(out.flags@ =~= and_flags(self.0.flags@, rhs.0.flags@, platform));
        }
        let mut i: usize = 0;
        while i < self.0.other.len()
            invariant
                i <= self.0.other@.len(),
                out.flags@ == and_flags(self.0.flags@, rhs.0.flags@, platform),
                out.others() == names_kept(self.0.others().take(i as int), rhs.0.others()),
            decreases self.0.other@.len() - i,
        {
            let name = &self.0.other[i];
            let keep = rhs.0.contains_other(name);
            proof {
                assert(self.0.others().take(i + 1).drop_last() =~= self.0.others().take(i as int));
                assert(self.0.others().take(i + 1).last() == name@);
            }
            if keep {
                out.push_other(name.clone());
            }
            i = i + 1;
        }
        proof {
            assert(self.0.others().take(self.0.other@.len() as int) =~= self.0.others());
        }
        XrExtensions(out)
    }
}

impl std::ops::BitAnd for XrExtensions {
    type Output = Self;

    /// See [`XrExtensions::and`].
    fn bitand(self, rhs: Self) -> (r: Self)
        ensures
            r.0.flags@ == and_flags(self.0.flags@, rhs.0.flags@, Platform::Other),
            r.0.others() == names_kept(self.0.others(), rhs.0.others()),
    {
        self.and(rhs)
    }
}

/// The result of `&` is stated by the `ensures` of `bitand` itself: it holds
/// extension names, which no spec function can build.
impl vstd::std_specs::ops::BitAndSpecImpl for XrExtensions {
    open spec fn obeys_bitand_spec() -> bool {
        false
    }

    open spec fn bitand_req(self, rhs: Self) -> bool {
        true
    }

    open spec fn bitand_spec(self, rhs: Self) -> Self {
        vstd::pervasive::arbitrary()
    }
}

impl Default for XrExtensions {
    /// Hand tracking and the local-floor reference space, nothing else.
    fn default() -> (r: Self)
        ensures
            forall|e: int| 0 <= e < EXT_COUNT ==> (#[trigger] r.0.flags@[e] <==> (e == EXT_HAND_TRACKING || e == EXT_LOCAL_FLOOR)),
            r.0.other@.len() == 0,
    {
        let mut exts = ExtensionSet::empty();
        exts.flags[EXT_HAND_TRACKING] = true;
        exts.flags[EXT_LOCAL_FLOOR] = true;
        XrExtensions(exts)
    }
}

impl Clone for XrExtensions {
    fn clone(&self) -> (r: Self)
        ensures
            r.0.flags@ == self.0.flags@,
            r.0.others() == self.0.others(),
    {
        XrExtensions(self.0.duplicate())
    }
}

impl From<ExtensionSet> for XrExtensions {
    fn from(value: ExtensionSet) -> (r: Self)
        ensures
            r == XrExtensions(value),
    {
        XrExtensions(value)
    }
}

impl vstd::std_specs::convert::FromSpecImpl<ExtensionSet> for XrExtensions {
    open spec fn obeys_from_spec() -> bool {
        true
    }

    open spec fn from_spec(v: ExtensionSet) -> Self {
        XrExtensions(v)
    }
}

impl From<XrExtensions> for ExtensionSet {
    fn from(value: XrExtensions) -> (r: Self)
        ensures
            r == value.0,
    {
        value.0
    }
}

impl vstd::std_specs::convert::FromSpecImpl<XrExtensions> for ExtensionSet {
    open spec fn obeys_from_spec() -> bool {
        true
    }

    open spec fn from_spec(v: XrExtensions) -> Self {
        v.0
    }
}

/// `&` at the extension with index `e` is the conjunction of what the operands
/// hold there.
pub open spec fn intersects(a: Seq<bool>, b: Seq<bool>, platform: Platform, e: usize) -> bool {
    and_flags(a, b, platform)[e as int] == (a[e as int] && b[e as int])
}

/// What `&` does to each extension, one by one: the ones the plugin writes
/// its intersection over are intersected (the Android-only and Windows-only
/// ones only in those builds, and dropped elsewhere); every other one, such as
/// `extx_overlay`, is dropped.
pub proof fn lemma_each_extension_intersects(a: Seq<bool>, b: Seq<bool>, platform: Platform)
    ensures
        intersects(a, b, platform, ext_set::ALMALENCE_DIGITAL_LENS_CONTROL),
        !and_flags(a, b, platform)[ext_set::BD_CONTROLLER_INTERACTION as int],
        intersects(a, b, platform, ext_set::EPIC_VIEW_CONFIGURATION_FOV),
        intersects(a, b, platform, ext_set::EXT_PERFORMANCE_SETTINGS),
        intersects(a, b, platform, ext_set::EXT_THERMAL_QUERY),
        intersects(a, b, platform, ext_set::EXT_DEBUG_UTILS),
        intersects(a, b, platform, ext_set::EXT_EYE_GAZE_INTERACTION),
        intersects(a, b, platform, ext_set::EXT_VIEW_CONFIGURATION_DEPTH_RANGE),
        intersects(a, b, platform, ext_set::EXT_CONFORMANCE_AUTOMATION),
        intersects(a, b, platform, ext_set::EXT_HAND_TRACKING),
        platform == Platform::Windows ==> intersects(a, b, platform, ext_set::EXT_WIN32_APPCONTAINER_COMPATIBLE),
        platform != Platform::Windows ==> !and_flags(a, b, platform)[ext_set::EXT_WIN32_APPCONTAINER_COMPATIBLE as int],
        intersects(a, b, platform, ext_set::EXT_DPAD_BINDING),
        intersects(a, b, platform, ext_set::EXT_HAND_JOINTS_MOTION_RANGE),
        intersects(a, b, platform, ext_set::EXT_SAMSUNG_ODYSSEY_CONTROLLER),
        intersects(a, b, platform, ext_set::EXT_HP_MIXED_REALITY_CONTROLLER),
        intersects(a, b, platform, ext_set::EXT_PALM_POSE),
        intersects(a, b, platform, ext_set::EXT_UUID),
        !and_flags(a, b, platform)[ext_set::EXT_HAND_INTERACTION as int],
        !and_flags(a, b, platform)[ext_set::EXT_ACTIVE_ACTION_SET_PRIORITY as int],
        intersects(a, b, platform, ext_set::EXT_LOCAL_FLOOR),
        !and_flags(a, b, platform)[ext_set::EXT_HAND_TRACKING_DATA_SOURCE as int],
        !and_flags(a, b, platform)[ext_set::EXT_PLANE_DETECTION as int],
        !and_flags(a, b, platform)[ext_set::EXT_FUTURE as int],
        !and_flags(a, b, platform)[ext_set::EXT_USER_PRESENCE as int],
        intersects(a, b, platform, ext_set::FB_COMPOSITION_LAYER_IMAGE_LAYOUT),
        intersects(a, b, platform, ext_set::FB_COMPOSITION_LAYER_ALPHA_BLEND),
        platform == Platform::Android ==> intersects(a, b, platform, ext_set::FB_ANDROID_SURFACE_SWAPCHAIN_CREATE),
        platform != Platform::Android ==> !and_flags(a, b, platform)[ext_set::FB_ANDROID_SURFACE_SWAPCHAIN_CREATE as int],
        intersects(a, b, platform, ext_set::FB_SWAPCHAIN_UPDATE_STATE),
        intersects(a, b, platform, ext_set::FB_COMPOSITION_LAYER_SECURE_CONTENT),
        !and_flags(a, b, platform)[ext_set::FB_BODY_TRACKING as int],
        intersects(a, b, platform, ext_set::FB_DISPLAY_REFRESH_RATE),
        intersects(a, b, platform, ext_set::FB_COLOR_SPACE),
        intersects(a, b, platform, ext_set::FB_HAND_TRACKING_MESH),
        intersects(a, b, platform, ext_set::FB_HAND_TRACKING_AIM),
        intersects(a, b, platform, ext_set::FB_HAND_TRACKING_CAPSULES),
        intersects(a, b, platform, ext_set::FB_SPATIAL_ENTITY),
        intersects(a, b, platform, ext_set::FB_FOVEATION),
        intersects(a, b, platform, ext_set::FB_FOVEATION_CONFIGURATION),
        intersects(a, b, platform, ext_set::FB_KEYBOARD_TRACKING),
        intersects(a, b, platform, ext_set::FB_TRIANGLE_MESH),
        intersects(a, b, platform, ext_set::FB_PASSTHROUGH),
        intersects(a, b, platform, ext_set::FB_RENDER_MODEL),
        intersects(a, b, platform, ext_set::FB_SPATIAL_ENTITY_QUERY),
        intersects(a, b, platform, ext_set::FB_SPATIAL_ENTITY_STORAGE),
        intersects(a, b, platform, ext_set::FB_FOVEATION_VULKAN),
        platform == Platform::Android ==> intersects(a, b, platform, ext_set::FB_SWAPCHAIN_UPDATE_STATE_ANDROID_SURFACE),
        platform != Platform::Android ==> !and_flags(a, b, platform)[ext_set::FB_SWAPCHAIN_UPDATE_STATE_ANDROID_SURFACE as int],
        intersects(a, b, platform, ext_set::FB_SWAPCHAIN_UPDATE_STATE_OPENGL_ES),
        intersects(a, b, platform, ext_set::FB_SWAPCHAIN_UPDATE_STATE_VULKAN),
        !and_flags(a, b, platform)[ext_set::FB_TOUCH_CONTROLLER_PRO as int],
        !and_flags(a, b, platform)[ext_set::FB_SPATIAL_ENTITY_SHARING as int],
        intersects(a, b, platform, ext_set::FB_SPACE_WARP),
        !and_flags(a, b, platform)[ext_set::FB_HAPTIC_AMPLITUDE_ENVELOPE as int],
        intersects(a, b, platform, ext_set::FB_SCENE),
        !and_flags(a, b, platform)[ext_set::FB_SCENE_CAPTURE as int],
        intersects(a, b, platform, ext_set::FB_SPATIAL_ENTITY_CONTAINER),
        !and_flags(a, b, platform)[ext_set::FB_FACE_TRACKING as int],
        !and_flags(a, b, platform)[ext_set::FB_EYE_TRACKING_SOCIAL as int],
        intersects(a, b, platform, ext_set::FB_PASSTHROUGH_KEYBOARD_HANDS),
        intersects(a, b, platform, ext_set::FB_COMPOSITION_LAYER_SETTINGS),
        !and_flags(a, b, platform)[ext_set::FB_TOUCH_CONTROLLER_PROXIMITY as int],
        !and_flags(a, b, platform)[ext_set::FB_HAPTIC_PCM as int],
        !and_flags(a, b, platform)[ext_set::FB_COMPOSITION_LAYER_DEPTH_TEST as int],
        !and_flags(a, b, platform)[ext_set::FB_SPATIAL_ENTITY_STORAGE_BATCH as int],
        !and_flags(a, b, platform)[ext_set::FB_SPATIAL_ENTITY_USER as int],
        !and_flags(a, b, platform)[ext_set::FB_FACE_TRACKING2 as int],
        intersects(a, b, platform, ext_set::HTC_VIVE_COSMOS_CONTROLLER_INTERACTION),
        intersects(a, b, platform, ext_set::HTC_FACIAL_TRACKING),
        intersects(a, b, platform, ext_set::HTC_VIVE_FOCUS3_CONTROLLER_INTERACTION),
        intersects(a, b, platform, ext_set::HTC_HAND_INTERACTION),
        intersects(a, b, platform, ext_set::HTC_VIVE_WRIST_TRACKER_INTERACTION),
        !and_flags(a, b, platform)[ext_set::HTC_PASSTHROUGH as int],
        !and_flags(a, b, platform)[ext_set::HTC_FOVEATION as int],
        !and_flags(a, b, platform)[ext_set::HTC_ANCHOR as int],
        intersects(a, b, platform, ext_set::HUAWEI_CONTROLLER_INTERACTION),
        platform == Platform::Android ==> intersects(a, b, platform, ext_set::KHR_ANDROID_THREAD_SETTINGS),
        platform != Platform::Android ==> !and_flags(a, b, platform)[ext_set::KHR_ANDROID_THREAD_SETTINGS as int],
        platform == Platform::Android ==> intersects(a, b, platform, ext_set::KHR_ANDROID_SURFACE_SWAPCHAIN),
        platform != Platform::Android ==> !and_flags(a, b, platform)[ext_set::KHR_ANDROID_SURFACE_SWAPCHAIN as int],
        intersects(a, b, platform, ext_set::KHR_COMPOSITION_LAYER_CUBE),
        platform == Platform::Android ==> intersects(a, b, platform, ext_set::KHR_ANDROID_CREATE_INSTANCE),
        platform != Platform::Android ==> !and_flags(a, b, platform)[ext_set::KHR_ANDROID_CREATE_INSTANCE as int],
        intersects(a, b, platform, ext_set::KHR_COMPOSITION_LAYER_DEPTH),
        intersects(a, b, platform, ext_set::KHR_VULKAN_SWAPCHAIN_FORMAT_LIST),
        intersects(a, b, platform, ext_set::KHR_COMPOSITION_LAYER_CYLINDER),
        intersects(a, b, platform, ext_set::KHR_COMPOSITION_LAYER_EQUIRECT),
        intersects(a, b, platform, ext_set::KHR_OPENGL_ENABLE),
        intersects(a, b, platform, ext_set::KHR_OPENGL_ES_ENABLE),
        intersects(a, b, platform, ext_set::KHR_VULKAN_ENABLE),
        platform == Platform::Windows ==> intersects(a, b, platform, ext_set::KHR_D3D11_ENABLE),
        platform != Platform::Windows ==> !and_flags(a, b, platform)[ext_set::KHR_D3D11_ENABLE as int],
        platform == Platform::Windows ==> intersects(a, b, platform, ext_set::KHR_D3D12_ENABLE),
        platform != Platform::Windows ==> !and_flags(a, b, platform)[ext_set::KHR_D3D12_ENABLE as int],
        intersects(a, b, platform, ext_set::KHR_VISIBILITY_MASK),
        intersects(a, b, platform, ext_set::KHR_COMPOSITION_LAYER_COLOR_SCALE_BIAS),
        platform == Platform::Windows ==> intersects(a, b, platform, ext_set::KHR_WIN32_CONVERT_PERFORMANCE_COUNTER_TIME),
        platform != Platform::Windows ==> !and_flags(a, b, platform)[ext_set::KHR_WIN32_CONVERT_PERFORMANCE_COUNTER_TIME as int],
        intersects(a, b, platform, ext_set::KHR_CONVERT_TIMESPEC_TIME),
        intersects(a, b, platform, ext_set::KHR_LOADER_INIT),
        platform == Platform::Android ==> intersects(a, b, platform, ext_set::KHR_LOADER_INIT_ANDROID),
        platform != Platform::Android ==> !and_flags(a, b, platform)[ext_set::KHR_LOADER_INIT_ANDROID as int],
        intersects(a, b, platform, ext_set::KHR_VULKAN_ENABLE2),
        intersects(a, b, platform, ext_set::KHR_COMPOSITION_LAYER_EQUIRECT2),
        intersects(a, b, platform, ext_set::KHR_BINDING_MODIFICATION),
        intersects(a, b, platform, ext_set::KHR_SWAPCHAIN_USAGE_INPUT_ATTACHMENT_BIT),
        !and_flags(a, b, platform)[ext_set::KHR_LOCATE_SPACES as int],
        !and_flags(a, b, platform)[ext_set::KHR_MAINTENANCE1 as int],
        !and_flags(a, b, platform)[ext_set::META_FOVEATION_EYE_TRACKED as int],
        !and_flags(a, b, platform)[ext_set::META_LOCAL_DIMMING as int],
        !and_flags(a, b, platform)[ext_set::META_PASSTHROUGH_PREFERENCES as int],
        !and_flags(a, b, platform)[ext_set::META_VIRTUAL_KEYBOARD as int],
        intersects(a, b, platform, ext_set::META_VULKAN_SWAPCHAIN_CREATE_INFO),
        intersects(a, b, platform, ext_set::META_PERFORMANCE_METRICS),
        !and_flags(a, b, platform)[ext_set::META_HEADSET_ID as int],
        !and_flags(a, b, platform)[ext_set::META_RECOMMENDED_LAYER_RESOLUTION as int],
        !and_flags(a, b, platform)[ext_set::META_PASSTHROUGH_COLOR_LUT as int],
        !and_flags(a, b, platform)[ext_set::META_SPATIAL_ENTITY_MESH as int],
        !and_flags(a, b, platform)[ext_set::META_AUTOMATIC_LAYER_FILTER as int],
        !and_flags(a, b, platform)[ext_set::META_TOUCH_CONTROLLER_PLUS as int],
        !and_flags(a, b, platform)[ext_set::META_ENVIRONMENT_DEPTH as int],
        intersects(a, b, platform, ext_set::ML_ML2_CONTROLLER_INTERACTION),
        !and_flags(a, b, platform)[ext_set::ML_FRAME_END_INFO as int],
        !and_flags(a, b, platform)[ext_set::ML_GLOBAL_DIMMER as int],
        !and_flags(a, b, platform)[ext_set::ML_COMPAT as int],
        !and_flags(a, b, platform)[ext_set::ML_MARKER_UNDERSTANDING as int],
        !and_flags(a, b, platform)[ext_set::ML_LOCALIZATION_MAP as int],
        !and_flags(a, b, platform)[ext_set::ML_USER_CALIBRATION as int],
        intersects(a, b, platform, ext_set::MND_HEADLESS),
        intersects(a, b, platform, ext_set::MND_SWAPCHAIN_USAGE_INPUT_ATTACHMENT_BIT),
        intersects(a, b, platform, ext_set::MSFT_UNBOUNDED_REFERENCE_SPACE),
        intersects(a, b, platform, ext_set::MSFT_SPATIAL_ANCHOR),
        intersects(a, b, platform, ext_set::MSFT_SPATIAL_GRAPH_BRIDGE),
        intersects(a, b, platform, ext_set::MSFT_HAND_INTERACTION),
        intersects(a, b, platform, ext_set::MSFT_HAND_TRACKING_MESH),
        intersects(a, b, platform, ext_set::MSFT_SECONDARY_VIEW_CONFIGURATION),
        intersects(a, b, platform, ext_set::MSFT_FIRST_PERSON_OBSERVER),
        intersects(a, b, platform, ext_set::MSFT_CONTROLLER_MODEL),
        platform == Platform::Windows ==> intersects(a, b, platform, ext_set::MSFT_PERCEPTION_ANCHOR_INTEROP),
        platform != Platform::Windows ==> !and_flags(a, b, platform)[ext_set::MSFT_PERCEPTION_ANCHOR_INTEROP as int],
        platform == Platform::Windows ==> intersects(a, b, platform, ext_set::MSFT_HOLOGRAPHIC_WINDOW_ATTACHMENT),
        platform != Platform::Windows ==> !and_flags(a, b, platform)[ext_set::MSFT_HOLOGRAPHIC_WINDOW_ATTACHMENT as int],
        intersects(a, b, platform, ext_set::MSFT_COMPOSITION_LAYER_REPROJECTION),
        intersects(a, b, platform, ext_set::MSFT_SPATIAL_ANCHOR_PERSISTENCE),
        platform == Platform::Android ==> intersects(a, b, platform, ext_set::OCULUS_ANDROID_SESSION_STATE_ENABLE),
        platform != Platform::Android ==> !and_flags(a, b, platform)[ext_set::OCULUS_ANDROID_SESSION_STATE_ENABLE as int],
        intersects(a, b, platform, ext_set::OCULUS_AUDIO_DEVICE_GUID),
        !and_flags(a, b, platform)[ext_set::OCULUS_EXTERNAL_CAMERA as int],
        !and_flags(a, b, platform)[ext_set::OPPO_CONTROLLER_INTERACTION as int],
        !and_flags(a, b, platform)[ext_set::QCOM_TRACKING_OPTIMIZATION_SETTINGS as int],
        intersects(a, b, platform, ext_set::ULTRALEAP_HAND_TRACKING_FOREARM),
        intersects(a, b, platform, ext_set::VALVE_ANALOG_THRESHOLD),
        intersects(a, b, platform, ext_set::VARJO_QUAD_VIEWS),
        intersects(a, b, platform, ext_set::VARJO_FOVEATED_RENDERING),
        intersects(a, b, platform, ext_set::VARJO_COMPOSITION_LAYER_DEPTH_TEST),
        intersects(a, b, platform, ext_set::VARJO_ENVIRONMENT_DEPTH_ESTIMATION),
        intersects(a, b, platform, ext_set::VARJO_MARKER_TRACKING),
        intersects(a, b, platform, ext_set::VARJO_VIEW_OFFSET),
        !and_flags(a, b, platform)[ext_set::VARJO_XR4_CONTROLLER_INTERACTION as int],
        !and_flags(a, b, platform)[ext_set::YVR_CONTROLLER_INTERACTION as int],
        !and_flags(a, b, platform)[ext_set::EXTX_OVERLAY as int],
        !and_flags(a, b, platform)[ext_set::MNDX_EGL_ENABLE as int],
        !and_flags(a, b, platform)[ext_set::MNDX_FORCE_FEEDBACK_CURL as int],
        !and_flags(a, b, platform)[ext_set::HTCX_VIVE_TRACKER_INTERACTION as int],
{
}

} // verus!
