use screenshader::adapter::{PhysicalAdapter, QueueFamily, QUEUE_COMPUTE, QUEUE_GRAPHICS};
use screenshader::context::ContextCell;
use screenshader::debug::DiagnosticSink;
use screenshader::errors::RenderError;
use screenshader::instance::HostCapabilities;
use screenshader::renderer::Renderer;
use screenshader::surface::SurfaceCommand;

fn names(list: &[&str]) -> Vec<String> {
    let mut v = Vec::new();
    for n in list {
        v.push((*n).to_owned());
    }
    v
}

fn capable_host() -> HostCapabilities {
    HostCapabilities {
        layers: names(&["VK_LAYER_LUNARG_standard_validation", "VK_LAYER_other"]),
        extensions: names(&[
            "VK_KHR_surface",
            "VK_KHR_xcb_surface",
            "VK_KHR_win32_surface",
            "VK_EXT_debug_report",
        ]),
    }
}

fn capable_adapter(id: u64) -> PhysicalAdapter {
    PhysicalAdapter {
        id,
        queue_families: vec![
            QueueFamily { flags: QUEUE_COMPUTE, count: 1 },
            QueueFamily { flags: QUEUE_GRAPHICS | QUEUE_COMPUTE, count: 4 },
        ],
        device_layers: names(&["VK_LAYER_LUNARG_standard_validation"]),
        device_extensions: names(&["VK_KHR_swapchain"]),
    }
}

fn platform() -> String {
    "VK_KHR_xcb_surface".to_owned()
}

#[test]
fn full_chain_builds_the_renderer() {
    let mut sink = DiagnosticSink::new();
    let rend = Renderer::init(platform(), &capable_host(), vec![capable_adapter(8)], &mut sink, 1)
        .unwrap();
    assert_eq!(rend.instance.stamp, 1);
    assert_eq!(rend.instance.app_name, "screenshader");
    assert_eq!(rend.instance.engine_name, "ShaderSandbox");
    assert_eq!(
        rend.instance.extensions,
        names(&["VK_KHR_surface", "VK_KHR_xcb_surface", "VK_EXT_debug_report"])
    );
    assert_eq!(rend.adapter.id, 8);
    assert_eq!(rend.queue.family_index, 1);
    assert_eq!(rend.queue.queue_index, 0);
    assert_eq!(rend.device.adapter_id, 8);
    assert_eq!(rend.device.family_index, 1);
    assert_eq!(rend.device.extensions, names(&["VK_KHR_swapchain"]));
    assert_eq!(rend.dbg.instance_stamp, 1);
    assert!(sink.lines.is_empty());
}

#[test]
fn missing_host_extension_fails_before_diagnostics() {
    let mut host = capable_host();
    host.extensions = names(&["VK_KHR_surface"]);
    let mut sink = DiagnosticSink::new();
    let got = Renderer::init(platform(), &host, vec![capable_adapter(8)], &mut sink, 1);
    assert_eq!(got.unwrap_err(), RenderError::InitializationError);
    assert!(sink.lines.is_empty());
}

#[test]
fn zero_adapters_fail_with_a_diagnostic() {
    let mut sink = DiagnosticSink::new();
    let got = Renderer::init(platform(), &capable_host(), Vec::new(), &mut sink, 1);
    assert_eq!(got.unwrap_err(), RenderError::EnumerationError);
    assert!(sink.lines.len() >= 1);
}

#[test]
fn graphics_less_adapter_fails_with_a_diagnostic() {
    let mut adapter = capable_adapter(8);
    adapter.queue_families = vec![QueueFamily { flags: QUEUE_COMPUTE, count: 1 }];
    let mut sink = DiagnosticSink::new();
    let got = Renderer::init(platform(), &capable_host(), vec![adapter], &mut sink, 1);
    assert_eq!(got.unwrap_err(), RenderError::CapabilityError);
    assert!(sink.lines.len() >= 1);
}

#[test]
fn swapchain_less_adapter_fails_with_a_diagnostic() {
    let mut adapter = capable_adapter(8);
    adapter.device_extensions = Vec::new();
    let mut sink = DiagnosticSink::new();
    let got = Renderer::init(platform(), &capable_host(), vec![adapter], &mut sink, 1);
    assert_eq!(got.unwrap_err(), RenderError::DeviceCreationError);
    assert!(sink.lines.len() >= 1);
}

#[test]
fn accessor_runs_the_chain_once_and_reuses_it() {
    let mut cell = ContextCell::new();
    let mut sink = DiagnosticSink::new();
    let first = cell
        .get_or_init(platform(), &capable_host(), vec![capable_adapter(8)], &mut sink)
        .unwrap();
    assert_eq!(cell.inits_performed, 1);
    // The second enumeration reports different hardware; a cell that holds
    // a context must ignore it rather than reinitialize.
    let second = cell
        .get_or_init(platform(), &capable_host(), vec![capable_adapter(99)], &mut sink)
        .unwrap();
    assert_eq!(cell.inits_performed, 1);
    assert_eq!(first, second);
    assert_eq!(first.adapter_id, 8);
}

#[test]
fn failed_chain_leaves_the_cell_empty() {
    let mut cell = ContextCell::new();
    let mut sink = DiagnosticSink::new();
    let got = cell.get_or_init(platform(), &capable_host(), Vec::new(), &mut sink);
    assert_eq!(got.unwrap_err(), RenderError::EnumerationError);
    assert_eq!(cell.inits_performed, 1);
    assert!(cell.inner.is_none());
}

#[test]
fn make_surface_starts_from_the_chosen_pair() {
    let mut sink = DiagnosticSink::new();
    let rend = Renderer::init(platform(), &capable_host(), vec![capable_adapter(8)], &mut sink, 5)
        .unwrap();
    let binding = rend.make_surface(321);
    assert_eq!(binding.command(), SurfaceCommand::QueryPresentation);
    assert_eq!(binding.instance_stamp, 5);
    assert_eq!(binding.adapter_id, 8);
    assert_eq!(binding.family_index, 1);
    assert_eq!(binding.window, 321);
}

#[test]
fn errors_describe_themselves() {
    assert_eq!(
        RenderError::EnumerationError.describe(),
        "no graphics adapters were enumerated"
    );
    assert_eq!(
        RenderError::PresentationUnsupportedError.describe(),
        "the window system cannot present from the chosen queue family"
    );
}
