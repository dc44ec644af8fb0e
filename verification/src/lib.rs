//! Verified core of an OpenXR integration for the Bevy engine: extension-set
//! algebra, runtime capability selection, session state decisions, texture
//! format tables and the interaction-profile path tables.

pub mod backend;
pub mod ext_set;
pub mod graphics;
pub mod openxr;
pub mod passthrough;
pub mod render_restart;
pub mod texture_format;
pub mod types;
pub mod xr_init;
pub mod xr_utils;
