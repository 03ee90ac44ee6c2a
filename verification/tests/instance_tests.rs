use screenshader::errors::RenderError;
use screenshader::instance::{create_instance, HostCapabilities, InstanceRequest, Version};

fn names(list: &[&str]) -> Vec<String> {
    let mut v = Vec::new();
    for n in list {
        v.push((*n).to_owned());
    }
    v
}

fn request(layers: &[&str], extensions: &[&str]) -> InstanceRequest {
    InstanceRequest {
        app_name: "screenshader".to_owned(),
        app_version: Version { major: 0, minor: 1, patch: 0 },
        engine_name: "ShaderSandbox".to_owned(),
        engine_version: Version { major: 0, minor: 1, patch: 0 },
        layers: names(layers),
        extensions: names(extensions),
    }
}

fn full_host() -> HostCapabilities {
    HostCapabilities {
        layers: names(&["VK_LAYER_LUNARG_standard_validation"]),
        extensions: names(&["VK_KHR_surface", "VK_KHR_xcb_surface", "VK_EXT_debug_report"]),
    }
}

#[test]
fn supported_request_builds_instance() {
    let req = request(
        &["VK_LAYER_LUNARG_standard_validation"],
        &["VK_KHR_surface", "VK_EXT_debug_report"],
    );
    let got = create_instance(req, &full_host(), 7).unwrap();
    assert_eq!(got.stamp, 7);
    assert_eq!(got.app_name, "screenshader");
    assert_eq!(got.engine_name, "ShaderSandbox");
    assert_eq!(got.layers, names(&["VK_LAYER_LUNARG_standard_validation"]));
    assert_eq!(got.extensions, names(&["VK_KHR_surface", "VK_EXT_debug_report"]));
}

#[test]
fn unsupported_extension_is_initialization_error() {
    let req = request(&[], &["VK_KHR_surface", "VK_EXT_no_such_extension"]);
    let got = create_instance(req, &full_host(), 1);
    assert_eq!(got.unwrap_err(), RenderError::InitializationError);
}

#[test]
fn unsupported_layer_is_initialization_error() {
    let req = request(&["VK_LAYER_no_such_layer"], &[]);
    let got = create_instance(req, &full_host(), 1);
    assert_eq!(got.unwrap_err(), RenderError::InitializationError);
}

#[test]
fn empty_request_always_succeeds() {
    let host = HostCapabilities { layers: Vec::new(), extensions: Vec::new() };
    let got = create_instance(request(&[], &[]), &host, 3).unwrap();
    assert_eq!(got.stamp, 3);
    assert!(got.layers.is_empty());
    assert!(got.extensions.is_empty());
}
