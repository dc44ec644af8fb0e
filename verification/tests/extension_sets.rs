use bevy_oxr::ext_set::{EXTX_OVERLAY, HTCX_VIVE_TRACKER_INTERACTION, MNDX_EGL_ENABLE};
use bevy_oxr::ext_set::{
    ExtensionSet, EXT_COUNT, EXT_HAND_TRACKING, EXT_LOCAL_FLOOR, FB_PASSTHROUGH, KHR_D3D12_ENABLE,
    KHR_VULKAN_ENABLE2,
};
use bevy_oxr::graphics::extensions::{and_android_only_exts, and_windows_only_exts, XrExtensions as GraphicsExtensions};
use bevy_oxr::ext_set::{KHR_ANDROID_CREATE_INSTANCE, KHR_D3D11_ENABLE};
use bevy_oxr::openxr::types::GraphicsBackend;
use bevy_oxr::openxr::extensions::XrExtensions;

fn set_of(flags: &[usize], others: &[&str]) -> ExtensionSet {
    let mut s = ExtensionSet::empty();
    for &f in flags {
        s.set(f, true);
    }
    for o in others {
        s.push_other(o.to_string());
    }
    s
}

fn set_flags(s: &ExtensionSet) -> Vec<usize> {
    (0..EXT_COUNT).filter(|&e| s.get(e)).collect()
}

#[test]
fn openxr_default_wants_hand_tracking_only() {
    let d = XrExtensions::default();
    assert_eq!(set_flags(d.raw()), vec![EXT_HAND_TRACKING]);
    assert!(d.raw().other.is_empty());
}

#[test]
fn graphics_default_wants_hand_tracking_and_local_floor() {
    let d = GraphicsExtensions::default();
    assert_eq!(set_flags(d.raw()), vec![EXT_HAND_TRACKING, EXT_LOCAL_FLOOR]);
}

#[test]
fn openxr_toggles_change_one_flag() {
    let mut e = XrExtensions(ExtensionSet::empty());
    e.enable_fb_passthrough().enable_hand_tracking();
    assert_eq!(set_flags(e.raw()), vec![EXT_HAND_TRACKING, FB_PASSTHROUGH]);
    e.disable_hand_tracking();
    assert_eq!(set_flags(e.raw()), vec![FB_PASSTHROUGH]);
    e.disable_fb_passthrough();
    assert!(set_flags(e.raw()).is_empty());
}

#[test]
fn graphics_toggles_change_one_flag() {
    let mut e = GraphicsExtensions(ExtensionSet::empty());
    e.enable_local_floor();
    assert_eq!(set_flags(e.raw()), vec![EXT_LOCAL_FLOOR]);
    e.enable_hand_tracking().disable_local_floor();
    assert_eq!(set_flags(e.raw()), vec![EXT_HAND_TRACKING]);
    e.disable_hand_tracking();
    assert!(set_flags(e.raw()).is_empty());
    e.raw_mut().set(KHR_D3D12_ENABLE, true);
    assert_eq!(set_flags(e.raw()), vec![KHR_D3D12_ENABLE]);
}

#[test]
fn openxr_and_keeps_common_flags_and_names() {
    let a = XrExtensions(set_of(&[EXT_HAND_TRACKING, FB_PASSTHROUGH], &["XR_A", "XR_B"]));
    let b = XrExtensions(set_of(&[FB_PASSTHROUGH, KHR_VULKAN_ENABLE2], &["XR_B", "XR_C"]));
    let c = a & b;
    assert_eq!(set_flags(c.raw()), vec![FB_PASSTHROUGH]);
    assert_eq!(c.raw().other, vec!["XR_B".to_string()]);
}

#[test]
fn openxr_or_merges_flags_and_names_without_repeats() {
    let a = XrExtensions(set_of(&[EXT_HAND_TRACKING], &["XR_A", "XR_B"]));
    let b = XrExtensions(set_of(&[KHR_VULKAN_ENABLE2], &["XR_B", "XR_C"]));
    let c = a | b;
    assert_eq!(set_flags(c.raw()), vec![EXT_HAND_TRACKING, KHR_VULKAN_ENABLE2]);
    assert_eq!(
        c.raw().other,
        vec!["XR_A".to_string(), "XR_B".to_string(), "XR_C".to_string()]
    );
}

#[test]
fn openxr_operations_drop_flags_they_do_not_carry() {
    let a = XrExtensions(set_of(&[EXT_LOCAL_FLOOR, EXT_HAND_TRACKING], &[]));
    let b = XrExtensions(set_of(&[EXT_LOCAL_FLOOR, EXT_HAND_TRACKING], &[]));
    let c = a & b;
    assert_eq!(set_flags(c.raw()), vec![EXT_HAND_TRACKING]);
}

#[test]
fn graphics_and_keeps_common_flags_and_names() {
    let a = GraphicsExtensions(set_of(&[EXT_LOCAL_FLOOR, KHR_VULKAN_ENABLE2], &["XR_A", "XR_B"]));
    let b = GraphicsExtensions(set_of(&[EXT_LOCAL_FLOOR], &["XR_B"]));
    let c = a & b;
    assert_eq!(set_flags(c.raw()), vec![EXT_LOCAL_FLOOR]);
    assert_eq!(c.raw().other, vec!["XR_B".to_string()]);
}

#[test]
fn is_available_when_everything_wanted_is_offered() {
    let wanted = XrExtensions(set_of(&[EXT_HAND_TRACKING], &["XR_A"]));
    let offered = XrExtensions(set_of(&[EXT_HAND_TRACKING, FB_PASSTHROUGH], &["XR_A", "XR_B"]));
    assert!(wanted.is_available(&offered));
    assert!(wanted.is_available(&wanted.clone()));
    assert!(!offered.is_available(&wanted));
    let missing_name = XrExtensions(set_of(&[EXT_HAND_TRACKING], &["XR_Z"]));
    assert!(!missing_name.is_available(&offered));
}

#[test]
fn conversions_keep_the_set() {
    let s = set_of(&[FB_PASSTHROUGH], &["XR_A"]);
    let e: XrExtensions = s.into();
    let back: ExtensionSet = e.into();
    assert_eq!(set_flags(&back), vec![FB_PASSTHROUGH]);
    assert_eq!(back.other, vec!["XR_A".to_string()]);
}

#[test]
fn platform_flags_are_anded_in_place() {
    let a = GraphicsExtensions(set_of(&[KHR_ANDROID_CREATE_INSTANCE, KHR_D3D11_ENABLE, KHR_D3D12_ENABLE], &[]));
    let b = GraphicsExtensions(set_of(&[KHR_ANDROID_CREATE_INSTANCE, KHR_D3D12_ENABLE], &[]));
    let mut out = set_of(&[EXT_HAND_TRACKING], &["XR_KEEP"]);
    and_android_only_exts(&a, &b, &mut out);
    assert_eq!(set_flags(&out), vec![EXT_HAND_TRACKING, KHR_ANDROID_CREATE_INSTANCE]);
    and_windows_only_exts(&a, &b, &mut out);
    let mut expected = vec![EXT_HAND_TRACKING, KHR_ANDROID_CREATE_INSTANCE, KHR_D3D12_ENABLE];
    expected.sort();
    assert_eq!(set_flags(&out), expected);
    assert_eq!(out.other, vec!["XR_KEEP".to_string()]);
}

#[test]
fn vulkan_requires_vulkan_enablement_only() {
    let req = GraphicsBackend::Vulkan.required_exts();
    assert_eq!(set_flags(req.raw()), vec![KHR_VULKAN_ENABLE2]);
    assert!(req.raw().other.is_empty());
}

#[test]
fn and_commutes_and_or_contains_operands() {
    let a = XrExtensions(set_of(&[EXT_HAND_TRACKING, FB_PASSTHROUGH], &["XR_A"]));
    let b = XrExtensions(set_of(&[FB_PASSTHROUGH, KHR_VULKAN_ENABLE2], &["XR_A", "XR_B"]));
    let ab = a.clone() & b.clone();
    let ba = b.clone() & a.clone();
    assert_eq!(set_flags(ab.raw()), set_flags(ba.raw()));
    let either = a.clone() | b.clone();
    assert!(a.is_available(&either));
    assert!(b.is_available(&either));
    assert!(ab.is_available(&a));
    assert!(ab.is_available(&b));
    let same = a.clone() & a.clone();
    assert_eq!(set_flags(same.raw()), set_flags(a.raw()));
}

#[test]
fn availability_is_transitive() {
    let a = XrExtensions(set_of(&[EXT_HAND_TRACKING], &[]));
    let b = XrExtensions(set_of(&[EXT_HAND_TRACKING, FB_PASSTHROUGH], &["XR_A"]));
    let c = XrExtensions(set_of(&[EXT_HAND_TRACKING, FB_PASSTHROUGH, KHR_VULKAN_ENABLE2], &["XR_A", "XR_B"]));
    assert!(a.is_available(&b) && b.is_available(&c) && a.is_available(&c));
}

#[test]
fn availability_of_a_flag_that_and_drops() {
    let a = XrExtensions(set_of(&[EXT_LOCAL_FLOOR], &[]));
    assert!(a.is_available(&a.clone()));
    let both = a.clone() & a.clone();
    assert!(!both.raw().get(EXT_LOCAL_FLOOR));
}

#[test]
fn graphics_and_leaves_out_overlay_egl_and_vive_tracker() {
    let flags = [EXTX_OVERLAY, MNDX_EGL_ENABLE, HTCX_VIVE_TRACKER_INTERACTION, EXT_HAND_TRACKING];
    let a = GraphicsExtensions(set_of(&flags, &[]));
    let b = GraphicsExtensions(set_of(&flags, &[]));
    let c = a & b;
    assert_eq!(set_flags(c.raw()), vec![EXT_HAND_TRACKING]);
}

#[test]
fn and_holds_the_same_names_either_way() {
    let a = XrExtensions(set_of(&[], &["XR_A", "XR_B", "XR_C"]));
    let b = XrExtensions(set_of(&[], &["XR_C", "XR_D", "XR_A"]));
    let mut ab = (a.clone() & b.clone()).raw().other.clone();
    let mut ba = (b & a).raw().other.clone();
    assert_eq!(ab, vec!["XR_A".to_string(), "XR_C".to_string()]);
    assert_eq!(ba, vec!["XR_C".to_string(), "XR_A".to_string()]);
    ab.sort();
    ba.sort();
    assert_eq!(ab, ba);
}
