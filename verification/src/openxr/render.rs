//! Per-frame decisions of the renderer: when a frame is shown, and which
//! layer of the swapchain image each eye's texture view covers.

use vstd::prelude::*;
use crate::openxr::{Rect2Di, UVec2, image_rect};

verus! {

/// The handle of the left eye's texture view.
pub const LEFT_XR_TEXTURE_HANDLE: u32 = 1208214591;

/// The handle of the right eye's texture view.
pub const RIGHT_XR_TEXTURE_HANDLE: u32 = 3383858418;

/// A two-dimensional view of part of a swapchain image's array layers.
#[derive(Clone, Copy, Debug, PartialEq, Eq, Structural)]
pub struct EyeTextureView {
    /// The handle the view is registered under.
    pub handle: u32,
    /// The first array layer it covers.
    pub base_array_layer: u32,
    /// How many array layers it covers.
    pub array_layer_count: u32,
}

/// The views of a swapchain image for the left and the right eye: one layer
/// each, the left eye's first.
pub fn eye_texture_views() -> (r: (EyeTextureView, EyeTextureView))
    ensures
        r.0 == (EyeTextureView { handle: LEFT_XR_TEXTURE_HANDLE, base_array_layer: 0, array_layer_count: 1 }),
        r.1 == (EyeTextureView { handle: RIGHT_XR_TEXTURE_HANDLE, base_array_layer: 1, array_layer_count: 1 }),
{
    (
        EyeTextureView { handle: LEFT_XR_TEXTURE_HANDLE, base_array_layer: 0, array_layer_count: 1 },
        EyeTextureView { handle: RIGHT_XR_TEXTURE_HANDLE, base_array_layer: 1, array_layer_count: 1 },
    )
}

/// The time, in nanoseconds, that the frame being prepared is shown at: the
/// display time the runtime predicted, one display period later.
pub fn frame_display_time(predicted_display_time: i64, predicted_display_period: i64) -> (r: i64)
    requires
        i64::MIN <= predicted_display_time + predicted_display_period <= i64::MAX,
    ensures
        r == predicted_display_time + predicted_display_period,
{
    predicted_display_time + predicted_display_period
}

/// `CompositionLayerFlags::BLEND_TEXTURE_SOURCE_ALPHA`.
pub const COMPOSITION_LAYER_BLEND_TEXTURE_SOURCE_ALPHA: u64 = 2;

/// One view of a projection layer: which located view's pose and field of
/// view it takes, and which part of the swapchain image it shows.
#[derive(Clone, Copy, Debug, PartialEq, Eq, Structural)]
pub struct ProjectionViewPlan {
    /// The index of the located view whose pose and field of view are used.
    pub pose_view: usize,
    pub image_array_index: u32,
    pub image_rect: Rect2Di,
}

/// The projection layer that ends a frame: its flags and its two views.
#[derive(Clone, Copy, Debug, PartialEq, Eq, Structural)]
pub struct ProjectionLayerPlan {
    pub layer_flags: u64,
    /// The view for the left eye.
    pub left: ProjectionViewPlan,
    /// The view for the right eye.
    pub right: ProjectionViewPlan,
}

/// The layer that ends each frame: blended by the texture's alpha, and both
/// views taking the first located view's pose and field of view and showing
/// array layer 0 of the image, all of it.
pub fn end_frame_layer(resolution: UVec2) -> (r: ProjectionLayerPlan)
    ensures
        r.layer_flags == COMPOSITION_LAYER_BLEND_TEXTURE_SOURCE_ALPHA,
        r.left.pose_view == 0 && r.right.pose_view == 0,
        r.left.image_array_index == 0 && r.right.image_array_index == 0,
        r.left.image_rect == r.right.image_rect,
        r.left.image_rect == (Rect2Di { x: 0, y: 0, width: resolution.x as i32, height: resolution.y as i32 }),
{
    let rect = image_rect(resolution);
    let view = ProjectionViewPlan { pose_view: 0, image_array_index: 0, image_rect: rect };
    ProjectionLayerPlan { layer_flags: COMPOSITION_LAYER_BLEND_TEXTURE_SOURCE_ALPHA, left: view, right: view }
}

} // verus!
