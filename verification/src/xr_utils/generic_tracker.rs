//! Entities that track something in space, and the plugin that draws them.

use vstd::prelude::*;

verus! {

/// Marks an entity that tracks something in space.
#[derive(Clone, Copy, Debug)]
pub struct GenericTracker;

/// Draws the axes of each generic tracker.
pub struct GenericTrackerGizmoPlugin;

} // verus!
