//! Construction of the API instance.  The instance is built atomically:
//! either every requested layer and extension is offered by the host and a
//! fully formed instance comes back, or the request fails with
//! `InitializationError` and nothing is left behind.

use vstd::prelude::*;

use crate::errors::RenderError;
use crate::names::{all_available, all_contained, name_views};

verus! {

/// A semantic version triple, as handed to the driver for the application
/// and the engine.
#[derive(Clone, Copy, Debug, PartialEq, Eq, Structural)]
pub struct Version {
    pub major: u32,
    pub minor: u32,
    pub patch: u32,
}

/// What the host platform offers: the instance layers and instance
/// extensions its driver reports.  The enumeration itself is driver work and
/// happens outside this crate; the reported names enter here as plain lists.
#[derive(Debug)]
pub struct HostCapabilities {
    pub layers: Vec<String>,
    pub extensions: Vec<String>,
}

/// A request for an instance: identification of the application and engine,
/// and the layers and extensions the chain insists on.
#[derive(Debug)]
pub struct InstanceRequest {
    pub app_name: String,
    pub app_version: Version,
    pub engine_name: String,
    pub engine_version: Version,
    pub layers: Vec<String>,
    pub extensions: Vec<String>,
}

/// The top-level handle of the connection to the graphics API, together with
/// the set of layers and extensions it was created with.  Exactly one is
/// meant to live per process; `context::ContextCell` enforces that and gives
/// each instance it builds a distinct `stamp`, so two handles refer to the
/// same underlying instance exactly when their stamps agree.
#[derive(Debug)]
pub struct GraphicsInstance {
    pub stamp: u64,
    pub app_name: String,
    pub app_version: Version,
    pub engine_name: String,
    pub engine_version: Version,
    pub layers: Vec<String>,
    pub extensions: Vec<String>,
}

/// The host offers every layer and every extension the request names.
pub open spec fn instance_supported(req: InstanceRequest, host: HostCapabilities) -> bool {
    &&& all_contained(name_views(req.layers@), name_views(host.layers@))
    &&& all_contained(name_views(req.extensions@), name_views(host.extensions@))
}

/// Everything `create_instance` promises about its result.
pub open spec fn create_instance_post(
    req: InstanceRequest,
    host: HostCapabilities,
    stamp: u64,
    r: Result<GraphicsInstance, RenderError>,
) -> bool {
    &&& instance_supported(req, host) <==> r is Ok
    &&& r matches Ok(g) ==> {
        &&& g.stamp == stamp
        &&& g.app_name@ == req.app_name@
        &&& g.app_version == req.app_version
        &&& g.engine_name@ == req.engine_name@
        &&& g.engine_version == req.engine_version
        &&& g.layers@ == req.layers@
        &&& g.extensions@ == req.extensions@
    }
    &&& r matches Err(e) ==> e == RenderError::InitializationError
}

/// Builds the instance, or reports the environment mismatch.  Succeeds if
/// and only if the host offers every requested layer and extension; on
/// failure no instance object exists.
pub fn create_instance(
    req: InstanceRequest,
    host: &HostCapabilities,
    stamp: u64,
) -> (r: Result<GraphicsInstance, RenderError>)
    ensures
        create_instance_post(req, *host, stamp, r),
{
    if !all_available(&req.layers, &host.layers) {
        return Err(RenderError::InitializationError);
    }
    if !all_available(&req.extensions, &host.extensions) {
        return Err(RenderError::InitializationError);
    }
    Ok(GraphicsInstance {
        stamp,
        app_name: req.app_name,
        app_version: req.app_version,
        engine_name: req.engine_name,
        engine_version: req.engine_version,
        layers: req.layers,
        extensions: req.extensions,
    })
}

/// If even one requested extension is missing from the host, no result that
/// `create_instance` can return is anything but `InitializationError`.
pub proof fn lemma_unsupported_extension_fails(
    req: InstanceRequest,
    host: HostCapabilities,
    stamp: u64,
    i: int,
    r: Result<GraphicsInstance, RenderError>,
)
    requires
        0 <= i < req.extensions@.len(),
        !crate::names::contains_name(name_views(host.extensions@), req.extensions@[i]@),
        create_instance_post(req, host, stamp, r),
    ensures
        r == Err::<GraphicsInstance, RenderError>(RenderError::InitializationError),
{
    assert(name_views(req.extensions@)[i] == req.extensions@[i]@);
    assert(!instance_supported(req, host));
}

} // verus!
