# bevy_oxr

The decision-making core of an OpenXR integration for the Bevy engine, written
in Verus and proved against its contracts.

- `src/` is the verified library:
  - `ext_set`, `openxr::extensions`, `graphics::extensions`: the extension-set
    model and its algebra (`&`, `|`, availability), with the laws it obeys;
  - `openxr`, `openxr::types`, `openxr::resources`, `openxr::init`: choosing a
    backend, blend mode, view configuration, resolution and swapchain format
    from what the runtime offers, and what an instance is created with;
  - `graphics`: the Vulkan and Direct3D 12 session setup decisions and the
    texture format tables;
  - `xr_init`, `render_restart`, `passthrough`: the session, XR on/off and
    passthrough state machines;
  - `backend`, `xr_utils`: controller binding paths, the Valve Index
    interaction-profile paths, action binding suggestions and XDev trackers.
- `app/` is the plain Rust around it: loading the OpenXR runtime, converting
  between the `openxr` crate's values and the library's, and performing the
  actions that the library decides (beginning and ending sessions, version
  checks).
- `tests/` exercise the library on concrete values.
