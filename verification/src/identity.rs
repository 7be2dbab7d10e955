//! The CSI Identity service: who the plugin is and what it supports.

use vstd::prelude::*;
use vstd::hash_map::StringHashMap;
use crate::status::CsiStatus;
use crate::volume::string_map_view;

verus! {

/// The name under which the plugin registers with Kubernetes.
pub const PLUGIN_NAME: &'static str = "csi.xethub.xetdata.com";
/// The version of the plugin, as reported to Kubernetes.
pub const VENDOR_VERSION: &'static str = "0.1.0";

/// Answer to `GetPluginInfo`.
pub struct GetPluginInfoResponse {
    pub name: String,
    pub vendor_version: String,
    pub manifest: StringHashMap<String>,
}

/// The kind of a plugin capability, with the numeric type of the capability.
#[derive(Debug, Clone, Copy)]
pub enum PluginCapabilityType {
    Service(i32),
    VolumeExpansion(i32),
}

/// A capability that the plugin advertises.
#[derive(Debug, Clone, Copy)]
pub struct PluginCapability {
    pub kind: Option<PluginCapabilityType>,
}

/// Answer to `GetPluginCapabilities`.
pub struct GetPluginCapabilitiesResponse {
    pub capabilities: Vec<PluginCapability>,
}

/// Answer to `Probe`.
#[derive(Debug, Clone, Copy)]
pub struct ProbeResponse {
    pub ready: Option<bool>,
}

/// The CSI Identity service of the plugin.
#[derive(Debug, Clone, Copy)]
pub struct IdentityService;

impl IdentityService {
    /// The plugin's name and version, with an empty manifest.
    pub fn get_plugin_info(&self) -> (res: Result<GetPluginInfoResponse, CsiStatus>)
        ensures
            res matches Ok(r) && r.name@ == PLUGIN_NAME@ && r.vendor_version@ == VENDOR_VERSION@
                && string_map_view(r.manifest) == Map::<Seq<char>, Seq<char>>::empty(),
    {
        let manifest: StringHashMap<String> = StringHashMap::new();
        assert(string_map_view(manifest) =~= Map::<Seq<char>, Seq<char>>::empty());
        Ok(GetPluginInfoResponse {
            name: PLUGIN_NAME.to_owned(),
            vendor_version: VENDOR_VERSION.to_owned(),
            manifest,
        })
    }

    /// The plugin advertises no capability.
    pub fn get_plugin_capabilities(&self) -> (res: Result<GetPluginCapabilitiesResponse, CsiStatus>)
        ensures
            res matches Ok(r) && r.capabilities@.len() == 0,
    {
        Ok(GetPluginCapabilitiesResponse { capabilities: Vec::new() })
    }

    /// The plugin is always healthy; it leaves its readiness unsaid.
    pub fn probe(&self) -> (res: Result<ProbeResponse, CsiStatus>)
        ensures
            res matches Ok(r) && r.ready is None,
    {
        Ok(ProbeResponse { ready: None })
    }
}

} // verus!
