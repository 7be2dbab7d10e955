use std::collections::HashSet;
use k8s_csi_xetfs::identity::{IdentityService, PluginCapability, PluginCapabilityType, PLUGIN_NAME, VENDOR_VERSION};

fn get() -> IdentityService {
    IdentityService
}

fn capability_string(value: PluginCapability) -> String {
    match value.kind.unwrap() {
        PluginCapabilityType::Service(service) => service.to_string(),
        PluginCapabilityType::VolumeExpansion(volume_expansion) => volume_expansion.to_string(),
    }
}

#[test]
fn test_probe() {
    let i = get();
    assert!(i.probe().is_ok());
}

#[test]
fn test_get_plugin_capabilities() {
    let supported_capabilities: HashSet<String> = HashSet::new(); // empty

    let i = get();
    let response = i.get_plugin_capabilities().unwrap();
    let mut response_capabilities: HashSet<String> = HashSet::new();
    let original_len = response.capabilities.len();
    for capability in response.capabilities {
        response_capabilities.insert(capability_string(capability));
    }
    // assert unique elements
    assert_eq!(original_len, response_capabilities.len());
    // assert expected elements
    assert_eq!(response_capabilities, supported_capabilities);
}

#[test]
fn test_get_plugin_info() {
    let i = get();
    let response = i.get_plugin_info().unwrap();
    assert_eq!(response.name.as_str(), PLUGIN_NAME);
    assert_eq!(response.vendor_version, VENDOR_VERSION);
}

#[test]
fn plugin_identity_values() {
    let response = get().get_plugin_info().unwrap();
    assert_eq!(response.name, "csi.xethub.xetdata.com");
    assert_eq!(response.vendor_version, "0.1.0");
    assert!(response.manifest.is_empty());
    assert_eq!(get().probe().unwrap().ready, None);
}
