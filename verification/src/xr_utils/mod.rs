//! Utilities around the plugin: action bindings, interaction-profile path
//! tables and tracker bookkeeping.

pub mod actions;
pub mod generic_tracker;
pub mod valve_index_controller_profile_constants;
pub mod xdev_trackers;
