//! What the plugin hands the runtime when it creates an instance.

use vstd::prelude::*;
use vstd::string::StringExecFns;
use crate::ext_set::{Platform, flags_within};
use crate::ext_set::names_kept;
use crate::openxr::extensions::{XrExtensions, and_flags, or_flags};
use crate::openxr::types::{AppInfo, GraphicsBackend, Version, XrError, packed_version, required_flags};

verus! {

/// The application information and extensions to create an instance with.
#[derive(Debug)]
pub struct InstanceRequest {
    pub application_name: String,
    pub application_version: u32,
    pub engine_name: String,
    pub engine_version: u32,
    pub extensions: XrExtensions,
}

/// Decides how to create an instance for `backend` in a build for `platform`,
/// given the extensions that the runtime offers: the backend must be available, and the instance gets the
/// wanted extensions together with those the backend requires.
pub fn instance_request(
    app_info: &AppInfo,
    exts: XrExtensions,
    backend: GraphicsBackend,
    available_exts: &XrExtensions,
    platform: Platform,
) -> (r: Result<InstanceRequest, XrError>)
    ensures
        !flags_within(required_flags(backend), available_exts.0.flags@) ==> r == Err::<InstanceRequest, XrError>(
            XrError::UnavailableBackend(backend),
        ),
        flags_within(required_flags(backend), available_exts.0.flags@) ==> (r matches Ok(req) && {
            &&& req.application_name@ == app_info.name@
            &&& req.application_version == packed_version(app_info.version.0, app_info.version.1, app_info.version.2)
            &&& req.engine_name@ == "Bevy"@
            &&& req.engine_version == packed_version(0, 12, 1)
            &&& req.extensions.0.flags@ == or_flags(exts.0.flags@, required_flags(backend), platform)
            &&& req.extensions.0.others() == exts.0.others()
        }),
{
    if !backend.is_available(available_exts) {
        return Err(XrError::UnavailableBackend(backend));
    }
    let required = backend.required_exts();
    proof {
        assert(required.0.others() =~= Seq::<Seq<char>>::empty());
    }
    let required_exts = exts.or_on(required, platform);
    Ok(InstanceRequest {
        application_name: app_info.name.clone(),
        application_version: app_info.version.to_u32(),
        engine_name: String::from_str("Bevy"),
        engine_version: Version::bevy().to_u32(),
        extensions: required_exts,
    })
}

/// How plugin setup creates its instance: the wanted extensions are first cut
/// down to those the runtime offers (`wanted & available`), then the request is
/// made as [`instance_request`] makes it.
pub fn init_instance_request(
    app_info: &AppInfo,
    wanted: XrExtensions,
    backend: GraphicsBackend,
    available_exts: &XrExtensions,
    platform: Platform,
) -> (r: Result<InstanceRequest, XrError>)
    ensures
        !flags_within(required_flags(backend), available_exts.0.flags@) ==> r == Err::<InstanceRequest, XrError>(
            XrError::UnavailableBackend(backend),
        ),
        flags_within(required_flags(backend), available_exts.0.flags@) ==> (r matches Ok(req) && {
            &&& req.application_name@ == app_info.name@
            &&& req.application_version == packed_version(app_info.version.0, app_info.version.1, app_info.version.2)
            &&& req.engine_name@ == "Bevy"@
            &&& req.engine_version == packed_version(0, 12, 1)
            &&& req.extensions.0.flags@ == or_flags(
                and_flags(wanted.0.flags@, available_exts.0.flags@, platform),
                required_flags(backend),
                platform,
            )
            &&& req.extensions.0.others() == names_kept(wanted.0.others(), available_exts.0.others())
        }),
{
    let exts = wanted.and_on(available_exts.clone(), platform);
    instance_request(app_info, exts, backend, available_exts, platform)
}

/// Whether a composition layer is submitted with a frame stream of
/// `stream_backend`: a layer without a swapchain always is, one with a
/// swapchain only when the swapchain uses the same graphics API.
pub open spec fn layer_submitted(stream_backend: GraphicsBackend, layer_backend: Option<GraphicsBackend>) -> bool {
    match layer_backend {
        Some(b) => b == stream_backend,
        None => true,
    }
}

/// The indices, in order, of the layers that `layer_submitted` keeps.
pub open spec fn submitted_indices(stream_backend: GraphicsBackend, layer_backends: Seq<Option<GraphicsBackend>>) -> Seq<usize>
    decreases layer_backends.len(),
{
    if layer_backends.len() == 0 {
        Seq::empty()
    } else {
        let rest = submitted_indices(stream_backend, layer_backends.drop_last());
        if layer_submitted(stream_backend, layer_backends.last()) {
            rest.push((layer_backends.len() - 1) as usize)
        } else {
            rest
        }
    }
}

/// Picks the layers to submit when a frame ends, given the graphics API of
/// each layer's swapchain (none for a layer without one); the others are left
/// out with a warning.
pub fn layers_to_submit(stream_backend: GraphicsBackend, layer_backends: &Vec<Option<GraphicsBackend>>) -> (r: Vec<usize>)
    ensures
        r@ == submitted_indices(stream_backend, layer_backends@),
{
    let mut kept: Vec<usize> = Vec::new();
    let mut i: usize = 0;
    while i < layer_backends.len()
        invariant
            i <= layer_backends@.len(),
            kept@ == submitted_indices(stream_backend, layer_backends@.take(i as int)),
        decreases layer_backends@.len() - i,
    {
        let keep = match layer_backends[i] {
            Some(b) => b == stream_backend,
            None => true,
        };
        proof {
            assert(layer_backends@.take(i + 1).drop_last() =~= layer_backends@.take(i as int));
            assert(layer_backends@.take(i + 1).last() == layer_backends@[i as int]);
        }
        if keep {
            kept.push(i);
        }
        i = i + 1;
    }
    proof {
        assert(layer_backends@.take(layer_backends@.len() as int) =~= layer_backends@);
    }
    kept
}

/// The layers submitted are exactly those that use the stream's graphics API
/// or no swapchain, each index once, in increasing order.
pub proof fn lemma_submitted_indices_exact(stream_backend: GraphicsBackend, layer_backends: Seq<Option<GraphicsBackend>>)
    requires
        layer_backends.len() <= usize::MAX,
    ensures
        forall|k: int| 0 <= k < submitted_indices(stream_backend, layer_backends).len() ==> {
            let i = #[trigger] submitted_indices(stream_backend, layer_backends)[k];
            i < layer_backends.len() && layer_submitted(stream_backend, layer_backends[i as int])
        },
        forall|i: int| 0 <= i < layer_backends.len() && #[trigger] layer_submitted(stream_backend, layer_backends[i])
            ==> submitted_indices(stream_backend, layer_backends).contains(i as usize),
        forall|j: int, k: int| 0 <= j < k < submitted_indices(stream_backend, layer_backends).len()
            ==> submitted_indices(stream_backend, layer_backends)[j] < submitted_indices(stream_backend, layer_backends)[k],
    decreases layer_backends.len(),
{
    if layer_backends.len() > 0 {
        let prefix = layer_backends.drop_last();
        lemma_submitted_indices_exact(stream_backend, prefix);
        let rest = submitted_indices(stream_backend, prefix);
        let n = (layer_backends.len() - 1) as usize;
        assert forall|k: int| 0 <= k < rest.len() implies #[trigger] rest[k] < n by {
            assert(rest[k] < prefix.len());
        }
        assert forall|i: int| 0 <= i < prefix.len() implies prefix[i] == layer_backends[i] by {}
        assert(layer_backends.last() == layer_backends[n as int]);
        let all = submitted_indices(stream_backend, layer_backends);
        assert forall|i: int| 0 <= i < layer_backends.len() && #[trigger] layer_submitted(stream_backend, layer_backends[i])
            implies all.contains(i as usize) by {
            if i < n {
                assert(prefix[i] == layer_backends[i]);
                assert(rest.contains(i as usize));
                let k = choose|k: int| 0 <= k < rest.len() && rest[k] == i as usize;
                assert(all[k] == i as usize);
            } else {
                assert(all[all.len() - 1] == n);
            }
        }
    }
}

} // verus!
