//! A plain-value model of the OpenXR extension set: one flag for each
//! extension known to the high-level bindings, addressed by the index
//! constants below, plus the names of the extensions unknown to them.

use vstd::prelude::*;

verus! {

/// The number of extensions that have a flag of their own.
pub const EXT_COUNT: usize = 152;

/// Index of the `almalence_digital_lens_control` flag.
pub const ALMALENCE_DIGITAL_LENS_CONTROL: usize = 0;
/// Index of the `bd_controller_interaction` flag.
pub const BD_CONTROLLER_INTERACTION: usize = 1;
/// Index of the `epic_view_configuration_fov` flag.
pub const EPIC_VIEW_CONFIGURATION_FOV: usize = 2;
/// Index of the `ext_performance_settings` flag.
pub const EXT_PERFORMANCE_SETTINGS: usize = 3;
/// Index of the `ext_thermal_query` flag.
pub const EXT_THERMAL_QUERY: usize = 4;
/// Index of the `ext_debug_utils` flag.
pub const EXT_DEBUG_UTILS: usize = 5;
/// Index of the `ext_eye_gaze_interaction` flag.
pub const EXT_EYE_GAZE_INTERACTION: usize = 6;
/// Index of the `ext_view_configuration_depth_range` flag.
pub const EXT_VIEW_CONFIGURATION_DEPTH_RANGE: usize = 7;
/// Index of the `ext_conformance_automation` flag.
pub const EXT_CONFORMANCE_AUTOMATION: usize = 8;
/// Index of the `ext_hand_tracking` flag.
pub const EXT_HAND_TRACKING: usize = 9;
/// Index of the `ext_win32_appcontainer_compatible` flag (a Windows-only extension).
pub const EXT_WIN32_APPCONTAINER_COMPATIBLE: usize = 10;
/// Index of the `ext_dpad_binding` flag.
pub const EXT_DPAD_BINDING: usize = 11;
/// Index of the `ext_hand_joints_motion_range` flag.
pub const EXT_HAND_JOINTS_MOTION_RANGE: usize = 12;
/// Index of the `ext_samsung_odyssey_controller` flag.
pub const EXT_SAMSUNG_ODYSSEY_CONTROLLER: usize = 13;
/// Index of the `ext_hp_mixed_reality_controller` flag.
pub const EXT_HP_MIXED_REALITY_CONTROLLER: usize = 14;
/// Index of the `ext_palm_pose` flag.
pub const EXT_PALM_POSE: usize = 15;
/// Index of the `ext_uuid` flag.
pub const EXT_UUID: usize = 16;
/// Index of the `ext_hand_interaction` flag.
pub const EXT_HAND_INTERACTION: usize = 17;
/// Index of the `ext_active_action_set_priority` flag.
pub const EXT_ACTIVE_ACTION_SET_PRIORITY: usize = 18;
/// Index of the `ext_local_floor` flag.
pub const EXT_LOCAL_FLOOR: usize = 19;
/// Index of the `ext_hand_tracking_data_source` flag.
pub const EXT_HAND_TRACKING_DATA_SOURCE: usize = 20;
/// Index of the `ext_plane_detection` flag.
pub const EXT_PLANE_DETECTION: usize = 21;
/// Index of the `ext_future` flag.
pub const EXT_FUTURE: usize = 22;
/// Index of the `ext_user_presence` flag.
pub const EXT_USER_PRESENCE: usize = 23;
/// Index of the `fb_composition_layer_image_layout` flag.
pub const FB_COMPOSITION_LAYER_IMAGE_LAYOUT: usize = 24;
/// Index of the `fb_composition_layer_alpha_blend` flag.
pub const FB_COMPOSITION_LAYER_ALPHA_BLEND: usize = 25;
/// Index of the `fb_android_surface_swapchain_create` flag (an Android-only extension).
pub const FB_ANDROID_SURFACE_SWAPCHAIN_CREATE: usize = 26;
/// Index of the `fb_swapchain_update_state` flag.
pub const FB_SWAPCHAIN_UPDATE_STATE: usize = 27;
/// Index of the `fb_composition_layer_secure_content` flag.
pub const FB_COMPOSITION_LAYER_SECURE_CONTENT: usize = 28;
/// Index of the `fb_body_tracking` flag.
pub const FB_BODY_TRACKING: usize = 29;
/// Index of the `fb_display_refresh_rate` flag.
pub const FB_DISPLAY_REFRESH_RATE: usize = 30;
/// Index of the `fb_color_space` flag.
pub const FB_COLOR_SPACE: usize = 31;
/// Index of the `fb_hand_tracking_mesh` flag.
pub const FB_HAND_TRACKING_MESH: usize = 32;
/// Index of the `fb_hand_tracking_aim` flag.
pub const FB_HAND_TRACKING_AIM: usize = 33;
/// Index of the `fb_hand_tracking_capsules` flag.
pub const FB_HAND_TRACKING_CAPSULES: usize = 34;
/// Index of the `fb_spatial_entity` flag.
pub const FB_SPATIAL_ENTITY: usize = 35;
/// Index of the `fb_foveation` flag.
pub const FB_FOVEATION: usize = 36;
/// Index of the `fb_foveation_configuration` flag.
pub const FB_FOVEATION_CONFIGURATION: usize = 37;
/// Index of the `fb_keyboard_tracking` flag.
pub const FB_KEYBOARD_TRACKING: usize = 38;
/// Index of the `fb_triangle_mesh` flag.
pub const FB_TRIANGLE_MESH: usize = 39;
/// Index of the `fb_passthrough` flag.
pub const FB_PASSTHROUGH: usize = 40;
/// Index of the `fb_render_model` flag.
pub const FB_RENDER_MODEL: usize = 41;
/// Index of the `fb_spatial_entity_query` flag.
pub const FB_SPATIAL_ENTITY_QUERY: usize = 42;
/// Index of the `fb_spatial_entity_storage` flag.
pub const FB_SPATIAL_ENTITY_STORAGE: usize = 43;
/// Index of the `fb_foveation_vulkan` flag.
pub const FB_FOVEATION_VULKAN: usize = 44;
/// Index of the `fb_swapchain_update_state_android_surface` flag (an Android-only extension).
pub const FB_SWAPCHAIN_UPDATE_STATE_ANDROID_SURFACE: usize = 45;
/// Index of the `fb_swapchain_update_state_opengl_es` flag.
pub const FB_SWAPCHAIN_UPDATE_STATE_OPENGL_ES: usize = 46;
/// Index of the `fb_swapchain_update_state_vulkan` flag.
pub const FB_SWAPCHAIN_UPDATE_STATE_VULKAN: usize = 47;
/// Index of the `fb_touch_controller_pro` flag.
pub const FB_TOUCH_CONTROLLER_PRO: usize = 48;
/// Index of the `fb_spatial_entity_sharing` flag.
pub const FB_SPATIAL_ENTITY_SHARING: usize = 49;
/// Index of the `fb_space_warp` flag.
pub const FB_SPACE_WARP: usize = 50;
/// Index of the `fb_haptic_amplitude_envelope` flag.
pub const FB_HAPTIC_AMPLITUDE_ENVELOPE: usize = 51;
/// Index of the `fb_scene` flag.
pub const FB_SCENE: usize = 52;
/// Index of the `fb_scene_capture` flag.
pub const FB_SCENE_CAPTURE: usize = 53;
/// Index of the `fb_spatial_entity_container` flag.
pub const FB_SPATIAL_ENTITY_CONTAINER: usize = 54;
/// Index of the `fb_face_tracking` flag.
pub const FB_FACE_TRACKING: usize = 55;
/// Index of the `fb_eye_tracking_social` flag.
pub const FB_EYE_TRACKING_SOCIAL: usize = 56;
/// Index of the `fb_passthrough_keyboard_hands` flag.
pub const FB_PASSTHROUGH_KEYBOARD_HANDS: usize = 57;
/// Index of the `fb_composition_layer_settings` flag.
pub const FB_COMPOSITION_LAYER_SETTINGS: usize = 58;
/// Index of the `fb_touch_controller_proximity` flag.
pub const FB_TOUCH_CONTROLLER_PROXIMITY: usize = 59;
/// Index of the `fb_haptic_pcm` flag.
pub const FB_HAPTIC_PCM: usize = 60;
/// Index of the `fb_composition_layer_depth_test` flag.
pub const FB_COMPOSITION_LAYER_DEPTH_TEST: usize = 61;
/// Index of the `fb_spatial_entity_storage_batch` flag.
pub const FB_SPATIAL_ENTITY_STORAGE_BATCH: usize = 62;
/// Index of the `fb_spatial_entity_user` flag.
pub const FB_SPATIAL_ENTITY_USER: usize = 63;
/// Index of the `fb_face_tracking2` flag.
pub const FB_FACE_TRACKING2: usize = 64;
/// Index of the `htc_vive_cosmos_controller_interaction` flag.
pub const HTC_VIVE_COSMOS_CONTROLLER_INTERACTION: usize = 65;
/// Index of the `htc_facial_tracking` flag.
pub const HTC_FACIAL_TRACKING: usize = 66;
/// Index of the `htc_vive_focus3_controller_interaction` flag.
pub const HTC_VIVE_FOCUS3_CONTROLLER_INTERACTION: usize = 67;
/// Index of the `htc_hand_interaction` flag.
pub const HTC_HAND_INTERACTION: usize = 68;
/// Index of the `htc_vive_wrist_tracker_interaction` flag.
pub const HTC_VIVE_WRIST_TRACKER_INTERACTION: usize = 69;
/// Index of the `htc_passthrough` flag.
pub const HTC_PASSTHROUGH: usize = 70;
/// Index of the `htc_foveation` flag.
pub const HTC_FOVEATION: usize = 71;
/// Index of the `htc_anchor` flag.
pub const HTC_ANCHOR: usize = 72;
/// Index of the `huawei_controller_interaction` flag.
pub const HUAWEI_CONTROLLER_INTERACTION: usize = 73;
/// Index of the `khr_android_thread_settings` flag (an Android-only extension).
pub const KHR_ANDROID_THREAD_SETTINGS: usize = 74;
/// Index of the `khr_android_surface_swapchain` flag (an Android-only extension).
pub const KHR_ANDROID_SURFACE_SWAPCHAIN: usize = 75;
/// Index of the `khr_composition_layer_cube` flag.
pub const KHR_COMPOSITION_LAYER_CUBE: usize = 76;
/// Index of the `khr_android_create_instance` flag (an Android-only extension).
pub const KHR_ANDROID_CREATE_INSTANCE: usize = 77;
/// Index of the `khr_composition_layer_depth` flag.
pub const KHR_COMPOSITION_LAYER_DEPTH: usize = 78;
/// Index of the `khr_vulkan_swapchain_format_list` flag.
pub const KHR_VULKAN_SWAPCHAIN_FORMAT_LIST: usize = 79;
/// Index of the `khr_composition_layer_cylinder` flag.
pub const KHR_COMPOSITION_LAYER_CYLINDER: usize = 80;
/// Index of the `khr_composition_layer_equirect` flag.
pub const KHR_COMPOSITION_LAYER_EQUIRECT: usize = 81;
/// Index of the `khr_opengl_enable` flag.
pub const KHR_OPENGL_ENABLE: usize = 82;
/// Index of the `khr_opengl_es_enable` flag.
pub const KHR_OPENGL_ES_ENABLE: usize = 83;
/// Index of the `khr_vulkan_enable` flag.
pub const KHR_VULKAN_ENABLE: usize = 84;
/// Index of the `khr_d3d11_enable` flag (a Windows-only extension).
pub const KHR_D3D11_ENABLE: usize = 85;
/// Index of the `khr_d3d12_enable` flag (a Windows-only extension).
pub const KHR_D3D12_ENABLE: usize = 86;
/// Index of the `khr_visibility_mask` flag.
pub const KHR_VISIBILITY_MASK: usize = 87;
/// Index of the `khr_composition_layer_color_scale_bias` flag.
pub const KHR_COMPOSITION_LAYER_COLOR_SCALE_BIAS: usize = 88;
/// Index of the `khr_win32_convert_performance_counter_time` flag (a Windows-only extension).
pub const KHR_WIN32_CONVERT_PERFORMANCE_COUNTER_TIME: usize = 89;
/// Index of the `khr_convert_timespec_time` flag.
pub const KHR_CONVERT_TIMESPEC_TIME: usize = 90;
/// Index of the `khr_loader_init` flag.
pub const KHR_LOADER_INIT: usize = 91;
/// Index of the `khr_loader_init_android` flag (an Android-only extension).
pub const KHR_LOADER_INIT_ANDROID: usize = 92;
/// Index of the `khr_vulkan_enable2` flag.
pub const KHR_VULKAN_ENABLE2: usize = 93;
/// Index of the `khr_composition_layer_equirect2` flag.
pub const KHR_COMPOSITION_LAYER_EQUIRECT2: usize = 94;
/// Index of the `khr_binding_modification` flag.
pub const KHR_BINDING_MODIFICATION: usize = 95;
/// Index of the `khr_swapchain_usage_input_attachment_bit` flag.
pub const KHR_SWAPCHAIN_USAGE_INPUT_ATTACHMENT_BIT: usize = 96;
/// Index of the `khr_locate_spaces` flag.
pub const KHR_LOCATE_SPACES: usize = 97;
/// Index of the `khr_maintenance1` flag.
pub const KHR_MAINTENANCE1: usize = 98;
/// Index of the `meta_foveation_eye_tracked` flag.
pub const META_FOVEATION_EYE_TRACKED: usize = 99;
/// Index of the `meta_local_dimming` flag.
pub const META_LOCAL_DIMMING: usize = 100;
/// Index of the `meta_passthrough_preferences` flag.
pub const META_PASSTHROUGH_PREFERENCES: usize = 101;
/// Index of the `meta_virtual_keyboard` flag.
pub const META_VIRTUAL_KEYBOARD: usize = 102;
/// Index of the `meta_vulkan_swapchain_create_info` flag.
pub const META_VULKAN_SWAPCHAIN_CREATE_INFO: usize = 103;
/// Index of the `meta_performance_metrics` flag.
pub const META_PERFORMANCE_METRICS: usize = 104;
/// Index of the `meta_headset_id` flag.
pub const META_HEADSET_ID: usize = 105;
/// Index of the `meta_recommended_layer_resolution` flag.
pub const META_RECOMMENDED_LAYER_RESOLUTION: usize = 106;
/// Index of the `meta_passthrough_color_lut` flag.
pub const META_PASSTHROUGH_COLOR_LUT: usize = 107;
/// Index of the `meta_spatial_entity_mesh` flag.
pub const META_SPATIAL_ENTITY_MESH: usize = 108;
/// Index of the `meta_automatic_layer_filter` flag.
pub const META_AUTOMATIC_LAYER_FILTER: usize = 109;
/// Index of the `meta_touch_controller_plus` flag.
pub const META_TOUCH_CONTROLLER_PLUS: usize = 110;
/// Index of the `meta_environment_depth` flag.
pub const META_ENVIRONMENT_DEPTH: usize = 111;
/// Index of the `ml_ml2_controller_interaction` flag.
pub const ML_ML2_CONTROLLER_INTERACTION: usize = 112;
/// Index of the `ml_frame_end_info` flag.
pub const ML_FRAME_END_INFO: usize = 113;
/// Index of the `ml_global_dimmer` flag.
pub const ML_GLOBAL_DIMMER: usize = 114;
/// Index of the `ml_compat` flag.
pub const ML_COMPAT: usize = 115;
/// Index of the `ml_marker_understanding` flag.
pub const ML_MARKER_UNDERSTANDING: usize = 116;
/// Index of the `ml_localization_map` flag.
pub const ML_LOCALIZATION_MAP: usize = 117;
/// Index of the `ml_user_calibration` flag.
pub const ML_USER_CALIBRATION: usize = 118;
/// Index of the `mnd_headless` flag.
pub const MND_HEADLESS: usize = 119;
/// Index of the `mnd_swapchain_usage_input_attachment_bit` flag.
pub const MND_SWAPCHAIN_USAGE_INPUT_ATTACHMENT_BIT: usize = 120;
/// Index of the `msft_unbounded_reference_space` flag.
pub const MSFT_UNBOUNDED_REFERENCE_SPACE: usize = 121;
/// Index of the `msft_spatial_anchor` flag.
pub const MSFT_SPATIAL_ANCHOR: usize = 122;
/// Index of the `msft_spatial_graph_bridge` flag.
pub const MSFT_SPATIAL_GRAPH_BRIDGE: usize = 123;
/// Index of the `msft_hand_interaction` flag.
pub const MSFT_HAND_INTERACTION: usize = 124;
/// Index of the `msft_hand_tracking_mesh` flag.
pub const MSFT_HAND_TRACKING_MESH: usize = 125;
/// Index of the `msft_secondary_view_configuration` flag.
pub const MSFT_SECONDARY_VIEW_CONFIGURATION: usize = 126;
/// Index of the `msft_first_person_observer` flag.
pub const MSFT_FIRST_PERSON_OBSERVER: usize = 127;
/// Index of the `msft_controller_model` flag.
pub const MSFT_CONTROLLER_MODEL: usize = 128;
/// Index of the `msft_perception_anchor_interop` flag (a Windows-only extension).
pub const MSFT_PERCEPTION_ANCHOR_INTEROP: usize = 129;
/// Index of the `msft_holographic_window_attachment` flag (a Windows-only extension).
pub const MSFT_HOLOGRAPHIC_WINDOW_ATTACHMENT: usize = 130;
/// Index of the `msft_composition_layer_reprojection` flag.
pub const MSFT_COMPOSITION_LAYER_REPROJECTION: usize = 131;
/// Index of the `msft_spatial_anchor_persistence` flag.
pub const MSFT_SPATIAL_ANCHOR_PERSISTENCE: usize = 132;
/// Index of the `oculus_android_session_state_enable` flag (an Android-only extension).
pub const OCULUS_ANDROID_SESSION_STATE_ENABLE: usize = 133;
/// Index of the `oculus_audio_device_guid` flag.
pub const OCULUS_AUDIO_DEVICE_GUID: usize = 134;
/// Index of the `oculus_external_camera` flag.
pub const OCULUS_EXTERNAL_CAMERA: usize = 135;
/// Index of the `oppo_controller_interaction` flag.
pub const OPPO_CONTROLLER_INTERACTION: usize = 136;
/// Index of the `qcom_tracking_optimization_settings` flag.
pub const QCOM_TRACKING_OPTIMIZATION_SETTINGS: usize = 137;
/// Index of the `ultraleap_hand_tracking_forearm` flag.
pub const ULTRALEAP_HAND_TRACKING_FOREARM: usize = 138;
/// Index of the `valve_analog_threshold` flag.
pub const VALVE_ANALOG_THRESHOLD: usize = 139;
/// Index of the `varjo_quad_views` flag.
pub const VARJO_QUAD_VIEWS: usize = 140;
/// Index of the `varjo_foveated_rendering` flag.
pub const VARJO_FOVEATED_RENDERING: usize = 141;
/// Index of the `varjo_composition_layer_depth_test` flag.
pub const VARJO_COMPOSITION_LAYER_DEPTH_TEST: usize = 142;
/// Index of the `varjo_environment_depth_estimation` flag.
pub const VARJO_ENVIRONMENT_DEPTH_ESTIMATION: usize = 143;
/// Index of the `varjo_marker_tracking` flag.
pub const VARJO_MARKER_TRACKING: usize = 144;
/// Index of the `varjo_view_offset` flag.
pub const VARJO_VIEW_OFFSET: usize = 145;
/// Index of the `varjo_xr4_controller_interaction` flag.
pub const VARJO_XR4_CONTROLLER_INTERACTION: usize = 146;
/// Index of the `yvr_controller_interaction` flag.
pub const YVR_CONTROLLER_INTERACTION: usize = 147;
/// Index of the `extx_overlay` flag.
pub const EXTX_OVERLAY: usize = 148;
/// Index of the `mndx_egl_enable` flag.
pub const MNDX_EGL_ENABLE: usize = 149;
/// Index of the `mndx_force_feedback_curl` flag.
pub const MNDX_FORCE_FEEDBACK_CURL: usize = 150;
/// Index of the `htcx_vive_tracker_interaction` flag.
pub const HTCX_VIVE_TRACKER_INTERACTION: usize = 151;

/// The platform a build targets, as far as extensions go: some extensions
/// exist only in Windows builds, some only in Android builds.
#[derive(Clone, Copy, Debug, PartialEq, Eq, Structural)]
pub enum Platform {
    Windows,
    Android,
    /// Any other platform.
    Other,
}

/// The extensions that only Windows builds know.
pub open spec fn windows_only(ext: int) -> bool {
    ext == EXT_WIN32_APPCONTAINER_COMPATIBLE
        || ext == KHR_D3D11_ENABLE
        || ext == KHR_D3D12_ENABLE
        || ext == KHR_WIN32_CONVERT_PERFORMANCE_COUNTER_TIME
        || ext == MSFT_PERCEPTION_ANCHOR_INTEROP
        || ext == MSFT_HOLOGRAPHIC_WINDOW_ATTACHMENT
}

/// The extensions that only Android builds know.
pub open spec fn android_only(ext: int) -> bool {
    ext == FB_ANDROID_SURFACE_SWAPCHAIN_CREATE
        || ext == FB_SWAPCHAIN_UPDATE_STATE_ANDROID_SURFACE
        || ext == KHR_ANDROID_THREAD_SETTINGS
        || ext == KHR_ANDROID_SURFACE_SWAPCHAIN
        || ext == KHR_ANDROID_CREATE_INSTANCE
        || ext == KHR_LOADER_INIT_ANDROID
        || ext == OCULUS_ANDROID_SESSION_STATE_ENABLE
}

/// Whether a build for `platform` knows the extension with index `ext`.
pub open spec fn known_on(platform: Platform, ext: int) -> bool {
    &&& windows_only(ext) ==> platform == Platform::Windows
    &&& android_only(ext) ==> platform == Platform::Android
}

/// Computes [`known_on`].
pub fn known_on_at(platform: Platform, ext: usize) -> (r: bool)
    ensures
        r == known_on(platform, ext as int),
{
    let windows = ext == EXT_WIN32_APPCONTAINER_COMPATIBLE || ext == KHR_D3D11_ENABLE || ext == KHR_D3D12_ENABLE
        || ext == KHR_WIN32_CONVERT_PERFORMANCE_COUNTER_TIME || ext == MSFT_PERCEPTION_ANCHOR_INTEROP
        || ext == MSFT_HOLOGRAPHIC_WINDOW_ATTACHMENT;
    let android = ext == FB_ANDROID_SURFACE_SWAPCHAIN_CREATE || ext == FB_SWAPCHAIN_UPDATE_STATE_ANDROID_SURFACE
        || ext == KHR_ANDROID_THREAD_SETTINGS || ext == KHR_ANDROID_SURFACE_SWAPCHAIN || ext == KHR_ANDROID_CREATE_INSTANCE
        || ext == KHR_LOADER_INIT_ANDROID || ext == OCULUS_ANDROID_SESSION_STATE_ENABLE;
    (!windows || platform == Platform::Windows) && (!android || platform == Platform::Android)
}

/// The names in `v`, as character sequences.
pub open spec fn name_seq(v: Seq<String>) -> Seq<Seq<char>> {
    v.map_values(|s: String| s@)
}

/// The names of `s` that also occur in `keep`, in the order of `s`.
pub open spec fn names_kept(s: Seq<Seq<char>>, keep: Seq<Seq<char>>) -> Seq<Seq<char>>
    decreases s.len(),
{
    if s.len() == 0 {
        Seq::empty()
    } else {
        let rest = names_kept(s.drop_last(), keep);
        if keep.contains(s.last()) {
            rest.push(s.last())
        } else {
            rest
        }
    }
}

/// `acc` followed by each name of `rest`, in order, that is not already present
/// at the moment it is reached.
pub open spec fn names_merged(acc: Seq<Seq<char>>, rest: Seq<Seq<char>>) -> Seq<Seq<char>>
    decreases rest.len(),
{
    if rest.len() == 0 {
        acc
    } else {
        let before = names_merged(acc, rest.drop_last());
        if before.contains(rest.last()) {
            before
        } else {
            before.push(rest.last())
        }
    }
}

/// Every flag set in `a` is set in `b`.
pub open spec fn flags_within(a: Seq<bool>, b: Seq<bool>) -> bool {
    forall|e: int| 0 <= e < EXT_COUNT ==> a[e] ==> b[e]
}

/// Every name of `a` occurs in `b`.
pub open spec fn names_within(a: Seq<Seq<char>>, b: Seq<Seq<char>>) -> bool {
    forall|i: int| 0 <= i < a.len() ==> b.contains(#[trigger] a[i])
}

/// Asking for an extension and then no longer asking for it gives back a set
/// that did not hold it; the other way round gives back a set that did.
pub proof fn lemma_toggle_round_trip(flags: Seq<bool>, e: int)
    requires
        0 <= e < flags.len(),
    ensures
        !flags[e] ==> flags.update(e, true).update(e, false) == flags,
        flags[e] ==> flags.update(e, false).update(e, true) == flags,
{
    if flags[e] {
        assert(flags.update(e, false).update(e, true) =~= flags);
    } else {
        assert(flags.update(e, true).update(e, false) =~= flags);
    }
}

/// Each name that `names_kept` keeps comes from `s` and occurs in `keep`.
pub proof fn lemma_names_kept_within(s: Seq<Seq<char>>, keep: Seq<Seq<char>>)
    ensures
        names_within(names_kept(s, keep), s),
        names_within(names_kept(s, keep), keep),
    decreases s.len(),
{
    if s.len() > 0 {
        lemma_names_kept_within(s.drop_last(), keep);
        let rest = names_kept(s.drop_last(), keep);
        assert forall|i: int| 0 <= i < names_kept(s, keep).len() implies s.contains(
            #[trigger] names_kept(s, keep)[i],
        ) && keep.contains(names_kept(s, keep)[i]) by {
            if i < rest.len() {
                assert(s.drop_last().contains(rest[i]));
                let k = choose|k: int| 0 <= k < s.drop_last().len() && s.drop_last()[k] == rest[i];
                assert(s[k] == rest[i]);
            } else {
                assert(names_kept(s, keep)[i] == s.last());
                assert(s[s.len() - 1] == s.last());
            }
        }
    }
}

/// `names_kept` holds a name exactly when both lists hold it.
pub proof fn lemma_names_kept_contains(s: Seq<Seq<char>>, keep: Seq<Seq<char>>, x: Seq<char>)
    ensures
        names_kept(s, keep).contains(x) <==> (s.contains(x) && keep.contains(x)),
    decreases s.len(),
{
    if s.len() > 0 {
        let prefix = s.drop_last();
        let rest = names_kept(prefix, keep);
        lemma_names_kept_contains(prefix, keep, x);
        if prefix.contains(x) {
            let k = choose|k: int| 0 <= k < prefix.len() && prefix[k] == x;
            assert(s[k] == x);
        }
        if s.contains(x) && x != s.last() {
            let k = choose|k: int| 0 <= k < s.len() && s[k] == x;
            assert(k != s.len() - 1);
            assert(prefix[k] == x);
        }
        if keep.contains(s.last()) {
            let all = rest.push(s.last());
            assert(all[rest.len() as int] == s.last());
            if rest.contains(x) {
                let k = choose|k: int| 0 <= k < rest.len() && rest[k] == x;
                assert(all[k] == x);
            }
            if all.contains(x) && x != s.last() {
                let k = choose|k: int| 0 <= k < all.len() && all[k] == x;
                assert(rest[k] == x);
            }
        }
        assert(s[s.len() - 1] == s.last());
    }
}

/// The names of `a & b` and of `b & a` are the same: a name is in one exactly
/// when it is in the other (their order may differ).
pub proof fn lemma_names_kept_commute(a: Seq<Seq<char>>, b: Seq<Seq<char>>)
    ensures
        forall|x: Seq<char>| #[trigger] names_kept(a, b).contains(x) <==> names_kept(b, a).contains(x),
{
    assert forall|x: Seq<char>| #[trigger] names_kept(a, b).contains(x) <==> names_kept(b, a).contains(x) by {
        lemma_names_kept_contains(a, b, x);
        lemma_names_kept_contains(b, a, x);
    }
}

/// `names_kept` keeps all of `s` exactly when every name of `s` occurs in `keep`.
pub proof fn lemma_names_kept_all(s: Seq<Seq<char>>, keep: Seq<Seq<char>>)
    ensures
        names_kept(s, keep) == s <==> names_within(s, keep),
    decreases s.len(),
{
    lemma_names_kept_within(s, keep);
    if s.len() > 0 {
        lemma_names_kept_all(s.drop_last(), keep);
        if names_within(s, keep) {
            assert forall|i: int| 0 <= i < s.drop_last().len() implies keep.contains(
                #[trigger] s.drop_last()[i],
            ) by {
                assert(s.drop_last()[i] == s[i]);
            }
            assert(keep.contains(s[s.len() - 1]));
            assert(names_kept(s, keep) =~= s.drop_last().push(s.last()));
            assert(s.drop_last().push(s.last()) =~= s);
        }
    } else {
        assert(names_kept(s, keep) =~= s);
    }
}

/// `names_merged` keeps every name of `acc` and every name of `rest`, and adds
/// nothing else.
pub proof fn lemma_names_merged_within(acc: Seq<Seq<char>>, rest: Seq<Seq<char>>)
    ensures
        names_within(acc, names_merged(acc, rest)),
        names_within(rest, names_merged(acc, rest)),
        forall|i: int| 0 <= i < names_merged(acc, rest).len() ==>
            acc.contains(#[trigger] names_merged(acc, rest)[i]) || rest.contains(names_merged(acc, rest)[i]),
    decreases rest.len(),
{
    if rest.len() == 0 {
        assert forall|i: int| 0 <= i < acc.len() implies acc.contains(#[trigger] acc[i]) by {}
    } else {
        let before = names_merged(acc, rest.drop_last());
        lemma_names_merged_within(acc, rest.drop_last());
        let merged = names_merged(acc, rest);
        assert forall|i: int| 0 <= i < acc.len() implies merged.contains(#[trigger] acc[i]) by {
            assert(before.contains(acc[i]));
            let k = choose|k: int| 0 <= k < before.len() && before[k] == acc[i];
            assert(merged[k] == acc[i]);
        }
        assert forall|i: int| 0 <= i < rest.len() implies merged.contains(#[trigger] rest[i]) by {
            if i < rest.len() - 1 {
                assert(rest.drop_last()[i] == rest[i]);
                assert(before.contains(rest[i]));
                let k = choose|k: int| 0 <= k < before.len() && before[k] == rest[i];
                assert(merged[k] == rest[i]);
            } else {
                if before.contains(rest.last()) {
                    let k = choose|k: int| 0 <= k < before.len() && before[k] == rest.last();
                    assert(merged[k] == rest[i]);
                } else {
                    assert(merged[before.len() as int] == rest[i]);
                }
            }
        }
        assert forall|i: int| 0 <= i < merged.len() implies acc.contains(#[trigger] merged[i])
            || rest.contains(merged[i]) by {
            if i < before.len() {
                assert(merged[i] == before[i]);
                if rest.drop_last().contains(before[i]) {
                    let k = choose|k: int| 0 <= k < rest.drop_last().len() && rest.drop_last()[k] == before[i];
                    assert(rest[k] == before[i]);
                }
            } else {
                assert(merged[i] == rest.last());
                assert(rest[rest.len() - 1] == rest.last());
            }
        }
    }
}

/// A set of OpenXR extensions.
#[derive(Debug)]
pub struct ExtensionSet {
    /// `flags[e]` tells whether the extension with index `e` is in the set.
    pub flags: [bool; EXT_COUNT],
    /// Extensions that have no flag of their own, by name.
    pub other: Vec<String>,
}

impl ExtensionSet {
    /// The names of the extensions without a flag of their own.
    pub open spec fn others(&self) -> Seq<Seq<char>> {
        name_seq(self.other@)
    }

    /// Whether the extension with index `ext` is in the set.
    pub open spec fn has(&self, ext: int) -> bool {
        self.flags@[ext]
    }

    /// The set with no extension in it.
    pub fn empty() -> (r: Self)
        ensures
            forall|e: int| 0 <= e < EXT_COUNT ==> !r.flags@[e],
            r.other@.len() == 0,
    {
        ExtensionSet { flags: [false; EXT_COUNT], other: Vec::new() }
    }

    /// Whether the extension with index `ext` is in the set.
    pub fn get(&self, ext: usize) -> (r: bool)
        requires
            ext < EXT_COUNT,
        ensures
            r == self.has(ext as int),
    {
        self.flags[ext]
    }

    /// Puts the extension with index `ext` in the set, or takes it out.
    pub fn set(&mut self, ext: usize, value: bool)
        requires
            ext < EXT_COUNT,
        ensures
            final(self).flags@ == old(self).flags@.update(ext as int, value),
            final(self).other@ == old(self).other@,
    {
        self.flags[ext] = value;
    }

    /// Adds an extension that has no flag of its own, by name.
    pub fn push_other(&mut self, name: String)
        ensures
            final(self).flags@ == old(self).flags@,
            final(self).others() == old(self).others().push(name@),
    {
        self.other.push(name);
        proof {
            assert(final(self).others() =~= old(self).others().push(name@));
        }
    }

    /// Whether `name` is among the extensions without a flag of their own.
    pub fn contains_other(&self, name: &String) -> (r: bool)
        ensures
            r == self.others().contains(name@),
    {
        let mut i: usize = 0;
        while i < self.other.len()
            invariant
                i <= self.other@.len(),
                forall|j: int| 0 <= j < i ==> self.others()[j] != name@,
            decreases self.other@.len() - i,
        {
            if self.other[i] == *name {
                proof {
                    assert(self.others()[i as int] == name@);
                }
                return true;
            }
            i = i + 1;
        }
        proof {
            if self.others().contains(name@) {
                let k = choose|k: int| 0 <= k < self.others().len() && self.others()[k] == name@;
                assert(self.others()[k] == name@);
            }
        }
        false
    }

    /// A copy of the set.
    pub fn duplicate(&self) -> (r: Self)
        ensures
            r.flags@ == self.flags@,
            r.others() == self.others(),
    {
        let mut other: Vec<String> = Vec::new();
        let mut i: usize = 0;
        while i < self.other.len()
            invariant
                i <= self.other@.len(),
                name_seq(other@) == self.others().take(i as int),
            decreases self.other@.len() - i,
        {
            let name = self.other[i].clone();
            let ghost before = other@;
            other.push(name);
            proof {
                assert(name@ == self.others()[i as int]);
                assert(other@ == before.push(name));
                assert(name_seq(other@) =~= name_seq(before).push(name@));
                assert(name_seq(other@) =~= self.others().take(i + 1));
            }
            i = i + 1;
        }
        proof {
            assert(self.others().take(self.other@.len() as int) =~= self.others());
        }
        ExtensionSet { flags: self.flags, other }
    }
}

} // verus!
