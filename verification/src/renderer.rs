//! The full bootstrap chain, run strictly forward exactly once: instance,
//! diagnostics channel, adapter selection, queue family, logical device and
//! queue — and the context cell that makes the chain run only on the first
//! request.
//!
//! The chain's own policy lives here: the validation layer and the three
//! instance extensions it insists on, the swapchain extension the device
//! needs, and one queue at full priority.  What the host actually offers
//! enters as a `HostCapabilities` value and an adapter list, reported by the
//! driver outside this crate.

use vstd::prelude::*;
use vstd::string::StringSliceAdditionalSpecFns;

use crate::adapter::{
    find_queue_family, has_matching_family, queue_family_search_post, select_adapter,
    PhysicalAdapter, QUEUE_GRAPHICS,
};
use crate::debug::{
    attach, DebugChannel, DiagnosticSink, SEVERITY_ERROR, SEVERITY_PERFORMANCE_WARNING,
    SEVERITY_WARNING,
};
use crate::device::{
    create_device, DeviceRequest, LogicalDevice, QueueHandle,
    default_queue_priorities, queue_policy_ok,
};
use crate::errors::RenderError;
use crate::instance::{
    create_instance, GraphicsInstance, HostCapabilities, InstanceRequest,
    Version,
};
use crate::names::{all_contained, contains_name, name_views};
use crate::surface::{command_of, SurfaceBinding, SurfaceCommand};

verus! {

/// The validation layer the chain enables on the instance and the device.
pub open spec fn spec_validation_layer() -> Seq<char> {
    "VK_LAYER_LUNARG_standard_validation"@
}

/// The instance extensions the chain insists on: surface support, the
/// platform's own surface extension, and the debug-report channel.
pub open spec fn spec_standard_extensions(platform: Seq<char>) -> Seq<Seq<char>> {
    seq!["VK_KHR_surface"@, platform, "VK_EXT_debug_report"@]
}

/// The instance layers the chain insists on.
pub open spec fn spec_standard_layers() -> Seq<Seq<char>> {
    seq![spec_validation_layer()]
}

/// The device extension that makes presentation possible.
pub open spec fn spec_swapchain_extension() -> Seq<char> {
    "VK_KHR_swapchain"@
}

/// The host offers every layer and extension of the standard instance
/// request.
pub open spec fn host_supports_standard(platform: Seq<char>, host: HostCapabilities) -> bool {
    &&& all_contained(spec_standard_layers(), name_views(host.layers@))
    &&& all_contained(spec_standard_extensions(platform), name_views(host.extensions@))
}

/// The adapter offers the validation layer and the swapchain extension the
/// standard device request names.
pub open spec fn adapter_supports_standard_device(adapter: PhysicalAdapter) -> bool {
    &&& contains_name(name_views(adapter.device_layers@), spec_validation_layer())
    &&& contains_name(name_views(adapter.device_extensions@), spec_swapchain_extension())
}

/// The severity set the diagnostics channel is attached with.
pub open spec fn spec_standard_severity() -> u32 {
    SEVERITY_ERROR | SEVERITY_WARNING | SEVERITY_PERFORMANCE_WARNING
}

/// The one graphics context of the process: the instance with its
/// diagnostics channel, the chosen adapter, and the device and queue opened
/// on it.  Built by `init` alone, and only through a `ContextCell`.
#[derive(Debug)]
pub struct Renderer {
    pub instance: GraphicsInstance,
    pub adapter: PhysicalAdapter,
    pub device: LogicalDevice,
    pub queue: QueueHandle,
    pub dbg: DebugChannel,
}

/// A fully formed renderer, exactly as the standard chain builds it from
/// `adapters` with initialization stamp `stamp`.
pub open spec fn renderer_formed(
    platform: Seq<char>,
    adapters: Seq<PhysicalAdapter>,
    stamp: u64,
    rend: Renderer,
) -> bool {
    &&& rend.instance.stamp == stamp
    &&& rend.instance.app_name@ == "screenshader"@
    &&& rend.instance.app_version == (Version { major: 0, minor: 1, patch: 0 })
    &&& rend.instance.engine_name@ == "ShaderSandbox"@
    &&& rend.instance.engine_version == (Version { major: 0, minor: 1, patch: 0 })
    &&& name_views(rend.instance.layers@) == spec_standard_layers()
    &&& name_views(rend.instance.extensions@) == spec_standard_extensions(platform)
    &&& adapters.len() > 0 && rend.adapter == adapters[0]
    &&& queue_family_search_post(
        adapters[0].queue_families@,
        QUEUE_GRAPHICS,
        Ok(rend.queue.family_index),
    )
    &&& rend.device.stamp == stamp
    &&& rend.device.adapter_id == adapters[0].id
    &&& rend.device.family_index == rend.queue.family_index
    &&& name_views(rend.device.layers@) == spec_standard_layers()
    &&& name_views(rend.device.extensions@) == seq![spec_swapchain_extension()]
    &&& rend.queue == (QueueHandle {
        device_stamp: stamp,
        family_index: rend.queue.family_index,
        queue_index: 0,
    })
    &&& rend.dbg.instance_stamp == stamp
    &&& rend.dbg.severity == spec_standard_severity()
}

/// Everything `init` promises about its result: each failure comes exactly
/// from the first step of the chain that cannot go on, and success delivers
/// the renderer the standard chain describes.
pub open spec fn init_post(
    platform: Seq<char>,
    host: HostCapabilities,
    adapters: Seq<PhysicalAdapter>,
    stamp: u64,
    r: Result<Renderer, RenderError>,
) -> bool {
    let supported = host_supports_standard(platform, host);
    let some_adapter = adapters.len() > 0;
    let family_found = some_adapter && has_matching_family(
        adapters[0].queue_families@,
        QUEUE_GRAPHICS,
    );
    let device_ok = some_adapter && adapter_supports_standard_device(adapters[0]);
    &&& !supported ==> r == Err::<Renderer, RenderError>(RenderError::InitializationError)
    &&& supported && !some_adapter ==> r == Err::<Renderer, RenderError>(
        RenderError::EnumerationError,
    )
    &&& supported && some_adapter && !family_found ==> r == Err::<Renderer, RenderError>(
        RenderError::CapabilityError,
    )
    &&& supported && family_found && !device_ok ==> r == Err::<Renderer, RenderError>(
        RenderError::DeviceCreationError,
    )
    &&& supported && family_found && device_ok ==> (r matches Ok(rend) && renderer_formed(
        platform,
        adapters,
        stamp,
        rend,
    ))
}

/// How `init` uses the diagnostics sink: a failure after the channel is
/// attached (anything but `InitializationError`) reports at least one
/// diagnostic line before the error surfaces, and nothing else is written.
pub open spec fn init_diagnostics(
    r: Result<Renderer, RenderError>,
    old_lines: Seq<Vec<u8>>,
    new_lines: Seq<Vec<u8>>,
) -> bool {
    match r {
        Ok(_) => new_lines == old_lines,
        Err(e) => {
            &&& e == RenderError::InitializationError ==> new_lines == old_lines
            &&& e != RenderError::InitializationError ==> new_lines.len() > old_lines.len()
        },
    }
}

/// The standard instance request: the application and engine names and
/// versions, the validation layer, and the three instance extensions, with
/// the platform's surface extension in the middle.
pub fn standard_instance_request(platform_surface_extension: String) -> (r: InstanceRequest)
    ensures
        r.app_name@ == "screenshader"@,
        r.app_version == (Version { major: 0, minor: 1, patch: 0 }),
        r.engine_name@ == "ShaderSandbox"@,
        r.engine_version == (Version { major: 0, minor: 1, patch: 0 }),
        name_views(r.layers@) == spec_standard_layers(),
        name_views(r.extensions@) == spec_standard_extensions(platform_surface_extension@),
{
    let mut layers: Vec<String> = Vec::new();
    layers.push("VK_LAYER_LUNARG_standard_validation".to_owned());
    let mut extensions: Vec<String> = Vec::new();
    extensions.push("VK_KHR_surface".to_owned());
    extensions.push(platform_surface_extension);
    extensions.push("VK_EXT_debug_report".to_owned());
    proof {
        assert(name_views(layers@) =~= spec_standard_layers());
        assert(name_views(extensions@) =~= spec_standard_extensions(
            extensions@[1]@,
        ));
    }
    InstanceRequest {
        app_name: "screenshader".to_owned(),
        app_version: Version { major: 0, minor: 1, patch: 0 },
        engine_name: "ShaderSandbox".to_owned(),
        engine_version: Version { major: 0, minor: 1, patch: 0 },
        layers,
        extensions,
    }
}

/// The standard device request against queue family `family`: the
/// validation layer, the swapchain extension, and one queue at full
/// priority.
pub fn standard_device_request(family: u32) -> (r: DeviceRequest)
    ensures
        name_views(r.layers@) == spec_standard_layers(),
        name_views(r.extensions@) == seq![spec_swapchain_extension()],
        r.queue_family == family,
        queue_policy_ok(r.queue_priorities@),
{
    let mut layers: Vec<String> = Vec::new();
    layers.push("VK_LAYER_LUNARG_standard_validation".to_owned());
    let mut extensions: Vec<String> = Vec::new();
    extensions.push("VK_KHR_swapchain".to_owned());
    proof {
        assert(name_views(layers@) =~= spec_standard_layers());
        assert(name_views(extensions@) =~= seq![spec_swapchain_extension()]);
    }
    DeviceRequest {
        layers,
        extensions,
        queue_family: family,
        queue_priorities: default_queue_priorities(),
    }
}

/// The bytes of a diagnostic text, as an owned message buffer.
fn message_bytes(text: &str) -> (r: Vec<u8>)
    ensures
        r@ == text.spec_bytes(),
{
    let bytes = text.as_bytes();
    let mut r: Vec<u8> = Vec::new();
    let mut i: usize = 0;
    while i < bytes.len()
        invariant
            i <= bytes@.len(),
            bytes@ == text.spec_bytes(),
            r@ == bytes@.subrange(0, i as int),
        decreases bytes@.len() - i,
    {
        r.push(bytes[i]);
        proof {
            assert(r@ =~= bytes@.subrange(0, i + 1 as int));
        }
        i += 1;
    }
    proof {
        assert(r@ =~= bytes@);
    }
    r
}

impl Renderer {
    /// Runs the chain once, strictly forward: build the instance, attach
    /// the diagnostics channel, take the first adapter, find its first
    /// graphics-capable queue family, and open the device and queue.  Every
    /// failure is final; a failure after the channel is attached routes a
    /// diagnostic line into `sink` first.
    pub fn init(
        platform_surface_extension: String,
        host: &HostCapabilities,
        adapters: Vec<PhysicalAdapter>,
        sink: &mut DiagnosticSink,
        stamp: u64,
    ) -> (r: Result<Renderer, RenderError>)
        requires
            adapters@.len() > 0 ==> adapters@[0].queue_families@.len() <= u32::MAX,
        ensures
            init_post(platform_surface_extension@, *host, adapters@, stamp, r),
            init_diagnostics(r, old(sink).lines@, final(sink).lines@),
    {
        let req = standard_instance_request(platform_surface_extension);
        let instance = match create_instance(req, host, stamp) {
            Ok(instance) => instance,
            Err(e) => {
                return Err(e);
            },
        };
        let mut dbg = attach(
            &instance,
            SEVERITY_ERROR | SEVERITY_WARNING | SEVERITY_PERFORMANCE_WARNING,
        );
        proof {
            assert((SEVERITY_ERROR | SEVERITY_WARNING | SEVERITY_PERFORMANCE_WARNING)
                & SEVERITY_ERROR != 0) by {
                assert((1u32 | 2u32 | 4u32) & 1u32 != 0u32) by (bit_vector);
            }
        }
        let adapter = match select_adapter(adapters) {
            Ok(adapter) => adapter,
            Err(e) => {
                let msg = message_bytes("adapter enumeration returned no hardware");
                dbg.dispatch(sink, SEVERITY_ERROR, &msg);
                return Err(e);
            },
        };
        let family = match find_queue_family(&adapter, QUEUE_GRAPHICS) {
            Ok(family) => family,
            Err(e) => {
                let msg = message_bytes("no queue family of the adapter takes graphics commands");
                dbg.dispatch(sink, SEVERITY_ERROR, &msg);
                return Err(e);
            },
        };
        let dreq = standard_device_request(family);
        match create_device(&adapter, dreq, stamp) {
            Ok((device, queue)) => {
                proof {
                    crate::names::lemma_singleton_contained(
                        spec_validation_layer(),
                        name_views(adapter.device_layers@),
                    );
                    crate::names::lemma_singleton_contained(
                        spec_swapchain_extension(),
                        name_views(adapter.device_extensions@),
                    );
                }
                Ok(Renderer { instance, adapter, device, queue, dbg })
            },
            Err(e) => {
                proof {
                    crate::names::lemma_singleton_contained(
                        spec_validation_layer(),
                        name_views(adapter.device_layers@),
                    );
                    crate::names::lemma_singleton_contained(
                        spec_swapchain_extension(),
                        name_views(adapter.device_extensions@),
                    );
                }
                let msg = message_bytes("the device request was rejected for this adapter");
                dbg.dispatch(sink, SEVERITY_ERROR, &msg);
                Err(e)
            },
        }
    }

    /// Opens the binding of `window` to this context's instance, adapter
    /// and queue family; the first command is the mandatory presentation
    /// pre-check.
    pub fn make_surface(&self, window: u64) -> (b: SurfaceBinding)
        ensures
            b.phase is AwaitPresentation,
            b.instance_stamp == self.instance.stamp,
            b.adapter_id == self.adapter.id,
            b.family_index == self.queue.family_index,
            b.window == window,
            command_of(b.phase) == SurfaceCommand::QueryPresentation,
    {
        SurfaceBinding::new(self.instance.stamp, self.adapter.id, self.queue.family_index, window)
    }
}

} // verus!
