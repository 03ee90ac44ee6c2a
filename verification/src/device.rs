//! Creation of the logical device and its queue handle against one chosen
//! adapter and queue family.
//!
//! Queue priorities live on the API's unit scale and are held here in
//! thousandths, so the full priority is the integer 1000; the chain never
//! needs a fractional value, and the driver's floating-point scale stays at
//! the boundary outside this crate.

use vstd::prelude::*;

use crate::adapter::PhysicalAdapter;
use crate::errors::RenderError;
use crate::names::{all_available, all_contained, name_views};

verus! {

/// The priority 1.0 on the API's unit scale, in thousandths.
pub const FULL_QUEUE_PRIORITY: u32 = 1000;

/// A request for a logical device: the device-level layers and extensions it
/// must be created with, the queue family to draw from, and the priorities
/// of the queues requested from that family.
#[derive(Debug)]
pub struct DeviceRequest {
    pub layers: Vec<String>,
    pub extensions: Vec<String>,
    pub queue_family: u32,
    pub queue_priorities: Vec<u32>,
}

/// An opened connection to one adapter.  It owns its queues and outlives
/// every queue handle and surface derived from it; `stamp` identifies the
/// one initialization that produced it.
#[derive(Debug)]
pub struct LogicalDevice {
    pub stamp: u64,
    pub adapter_id: u64,
    pub family_index: u32,
    pub layers: Vec<String>,
    pub extensions: Vec<String>,
}

/// A (queue object, family index) pair borrowed from a logical device's
/// lifetime, not independently owned: `device_stamp` names the device it
/// belongs to.
#[derive(Clone, Copy, Debug, PartialEq, Eq, Structural)]
pub struct QueueHandle {
    pub device_stamp: u64,
    pub family_index: u32,
    pub queue_index: u32,
}

/// The default policy: exactly one queue, at full priority.
pub open spec fn queue_policy_ok(priorities: Seq<u32>) -> bool {
    priorities =~= seq![FULL_QUEUE_PRIORITY]
}

/// The adapter offers every layer and extension the request names, the
/// family index names a reported family, and the queue request follows the
/// one-queue-at-full-priority policy.
pub open spec fn device_request_supported(req: DeviceRequest, adapter: PhysicalAdapter) -> bool {
    &&& all_contained(name_views(req.layers@), name_views(adapter.device_layers@))
    &&& all_contained(name_views(req.extensions@), name_views(adapter.device_extensions@))
    &&& (req.queue_family as int) < adapter.queue_families@.len()
    &&& queue_policy_ok(req.queue_priorities@)
}

/// Everything `create_device` promises about its result.
pub open spec fn create_device_post(
    req: DeviceRequest,
    adapter: PhysicalAdapter,
    stamp: u64,
    r: Result<(LogicalDevice, QueueHandle), RenderError>,
) -> bool {
    &&& device_request_supported(req, adapter) <==> r is Ok
    &&& r matches Ok(pair) ==> {
        &&& pair.0.stamp == stamp
        &&& pair.0.adapter_id == adapter.id
        &&& pair.0.family_index == req.queue_family
        &&& pair.0.layers@ == req.layers@
        &&& pair.0.extensions@ == req.extensions@
        &&& pair.1 == (QueueHandle {
            device_stamp: stamp,
            family_index: req.queue_family,
            queue_index: 0,
        })
    }
    &&& r matches Err(e) ==> e == RenderError::DeviceCreationError
}

/// Opens the logical device on `adapter` and hands out the single queue the
/// policy asks for.  Fails with `DeviceCreationError` when a requested
/// layer or extension (notably swapchain support) is unavailable on the
/// adapter, when the family index names no reported family, or when the
/// queue request strays from one queue at full priority; on failure no
/// device exists.
pub fn create_device(adapter: &PhysicalAdapter, req: DeviceRequest, stamp: u64) -> (r: Result<
    (LogicalDevice, QueueHandle),
    RenderError,
>)
    ensures
        create_device_post(req, *adapter, stamp, r),
{
    if !all_available(&req.layers, &adapter.device_layers) {
        return Err(RenderError::DeviceCreationError);
    }
    if !all_available(&req.extensions, &adapter.device_extensions) {
        return Err(RenderError::DeviceCreationError);
    }
    if (req.queue_family as usize) >= adapter.queue_families.len() {
        return Err(RenderError::DeviceCreationError);
    }
    if req.queue_priorities.len() != 1 {
        return Err(RenderError::DeviceCreationError);
    }
    if req.queue_priorities[0] != FULL_QUEUE_PRIORITY {
        return Err(RenderError::DeviceCreationError);
    }
    proof {
        assert(req.queue_priorities@ =~= seq![FULL_QUEUE_PRIORITY]);
    }
    let device = LogicalDevice {
        stamp,
        adapter_id: adapter.id,
        family_index: req.queue_family,
        layers: req.layers,
        extensions: req.extensions,
    };
    let queue = QueueHandle { device_stamp: stamp, family_index: req.queue_family, queue_index: 0 };
    Ok((device, queue))
}

/// The default queue request of the chain: one queue at full priority.
pub fn default_queue_priorities() -> (v: Vec<u32>)
    ensures
        queue_policy_ok(v@),
{
    let mut v: Vec<u32> = Vec::new();
    v.push(FULL_QUEUE_PRIORITY);
    proof {
        assert(v@ =~= seq![FULL_QUEUE_PRIORITY]);
    }
    v
}

} // verus!
