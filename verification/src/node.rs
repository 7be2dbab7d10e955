//! The CSI Node service: publishing and unpublishing volumes on this node, and
//! the answers for the node capabilities that the plugin lacks.

use vstd::prelude::*;
use crate::driver::{
    XetHubCSIDriver, VolumesView, PublishPlan, PendingPublish, PendingUnpublish,
    PublishPlanView, publish_decision, after_mount, unpublish_decision,
    after_unmount, plan_result_view, unmount_result_view, unit_result_view, registry_wf,
};
use crate::error::{K8sCSIXetFSError, concat_str};
use crate::status::{CsiStatus, StatusCode, StatusView};
use crate::volume::{XetCSIVolume, NodePublishVolumeRequest, volume_of_request};

verus! {

/// The node service capabilities of the CSI specification.
#[derive(Debug, Clone, Copy, PartialEq, Eq, Structural)]
pub enum NodeCapabilityType {
    Unknown,
    StageUnstageVolume,
    GetVolumeStats,
    ExpandVolume,
    VolumeCondition,
    SingleNodeMultiWriter,
    VolumeMountGroup,
}

/// The name of a capability in the CSI specification.
pub open spec fn capability_name(t: NodeCapabilityType) -> Seq<char> {
    match t {
        NodeCapabilityType::Unknown => "UNKNOWN"@,
        NodeCapabilityType::StageUnstageVolume => "STAGE_UNSTAGE_VOLUME"@,
        NodeCapabilityType::GetVolumeStats => "GET_VOLUME_STATS"@,
        NodeCapabilityType::ExpandVolume => "EXPAND_VOLUME"@,
        NodeCapabilityType::VolumeCondition => "VOLUME_CONDITION"@,
        NodeCapabilityType::SingleNodeMultiWriter => "SINGLE_NODE_MULTI_WRITER"@,
        NodeCapabilityType::VolumeMountGroup => "VOLUME_MOUNT_GROUP"@,
    }
}

impl NodeCapabilityType {
    /// The name of the capability in the CSI specification.
    pub fn as_str_name(&self) -> (s: &'static str)
        ensures
            s@ == capability_name(*self),
    {
        match self {
            NodeCapabilityType::Unknown => "UNKNOWN",
            NodeCapabilityType::StageUnstageVolume => "STAGE_UNSTAGE_VOLUME",
            NodeCapabilityType::GetVolumeStats => "GET_VOLUME_STATS",
            NodeCapabilityType::ExpandVolume => "EXPAND_VOLUME",
            NodeCapabilityType::VolumeCondition => "VOLUME_CONDITION",
            NodeCapabilityType::SingleNodeMultiWriter => "SINGLE_NODE_MULTI_WRITER",
            NodeCapabilityType::VolumeMountGroup => "VOLUME_MOUNT_GROUP",
        }
    }
}

/// The status that answers a request for a capability that the plugin lacks.
pub open spec fn missing_capability_status(capability: NodeCapabilityType, code: StatusCode) -> StatusView {
    StatusView { code, message: "missing capability "@ + capability_name(capability) }
}

/// Refuses a request for a capability that the plugin lacks, with the given code.
pub fn missing_capability<T>(capability: NodeCapabilityType, code: StatusCode) -> (res: Result<T, CsiStatus>)
    ensures
        res matches Err(e) && e@ == missing_capability_status(capability, code),
{
    Err(CsiStatus::new(code, concat_str("missing capability ", capability.as_str_name())))
}

/// The parts of a CSI `NodeUnpublishVolume` request that this plugin reads.
pub struct NodeUnpublishVolumeRequest {
    pub volume_id: String,
    pub target_path: String,
}

/// A node service capability that the plugin advertises.
#[derive(Debug, Clone, Copy)]
pub struct NodeServiceCapability {
    pub rpc: NodeCapabilityType,
}

/// Answer to `NodeGetCapabilities`.
pub struct NodeGetCapabilitiesResponse {
    pub capabilities: Vec<NodeServiceCapability>,
}

/// The topology segments under which a node is accessible.
pub struct Topology {
    pub segments: vstd::hash_map::StringHashMap<String>,
}

/// Answer to `NodeGetInfo`; a limit of 0 volumes means no limit.
pub struct NodeGetInfoResponse {
    pub node_id: String,
    pub max_volumes_per_node: i64,
    pub accessible_topology: Option<Topology>,
}

/// Mathematical model of a [`NodeService`].
pub struct NodeServiceView {
    pub node_id: Seq<char>,
    pub volumes: VolumesView,
}

/// What a publish request leads to: the status that refuses a request that
/// lacks repository or commit, else the publish decision for its volume.
pub open spec fn publish_request_decision(m: VolumesView, r: crate::volume::PublishRequestView) -> Result<PublishPlanView, StatusView> {
    match volume_of_request(r) {
        Err(e) => Err(e),
        Ok(v) => publish_decision(m, v),
    }
}

/// The CSI Node service of the plugin on one node.
pub struct NodeService {
    driver: XetHubCSIDriver,
    node_id: String,
}

impl View for NodeService {
    type V = NodeServiceView;

    closed spec fn view(&self) -> NodeServiceView {
        NodeServiceView { node_id: self.node_id@, volumes: self.driver@ }
    }
}

impl NodeService {
    /// The node service of node `node_id`, with no published volume.
    pub fn new(node_id: String) -> (s: NodeService)
        ensures
            s@.node_id == node_id@,
            s@.volumes == Map::<Seq<char>, crate::volume::VolumeView>::empty(),
            registry_wf(s@.volumes),
    {
        NodeService { node_id, driver: XetHubCSIDriver::new() }
    }

    /// The registry of published volumes.
    pub fn driver(&self) -> (d: &XetHubCSIDriver)
        ensures
            d@ == self@.volumes,
    {
        &self.driver
    }

    /// Staging is not supported.
    pub fn node_stage_volume(&self) -> (res: Result<(), CsiStatus>)
        ensures
            res matches Err(e) && e@ == missing_capability_status(
                NodeCapabilityType::StageUnstageVolume,
                StatusCode::FailedPrecondition,
            ),
    {
        missing_capability(NodeCapabilityType::StageUnstageVolume, StatusCode::FailedPrecondition)
    }

    /// Unstaging is not supported.
    pub fn node_unstage_volume(&self) -> (res: Result<(), CsiStatus>)
        ensures
            res matches Err(e) && e@ == missing_capability_status(
                NodeCapabilityType::StageUnstageVolume,
                StatusCode::FailedPrecondition,
            ),
    {
        missing_capability(NodeCapabilityType::StageUnstageVolume, StatusCode::FailedPrecondition)
    }

    /// Decides a publish request; where the plan is to mount, the caller mounts
    /// and hands the outcome to `node_publish_volume_finish`.
    pub fn node_publish_volume(&self, request: NodePublishVolumeRequest) -> (res: Result<PublishPlan, CsiStatus>)
        ensures
            plan_result_view(res) == publish_request_decision(self@.volumes, request@),
    {
        let volume_spec = XetCSIVolume::try_from(request)?;
        self.driver.begin_publish(volume_spec)
    }

    /// Registers a mounted volume, or answers the mount's failure.
    pub fn node_publish_volume_finish(&mut self, pending: PendingPublish, outcome: Result<(), K8sCSIXetFSError>) -> (res: Result<(), CsiStatus>)
        ensures
            final(self)@.node_id == old(self)@.node_id,
            (final(self)@.volumes, unit_result_view(res)) == after_mount(old(self)@.volumes, pending@, outcome),
            registry_wf(final(self)@.volumes),
            forall|k: Seq<char>| #[trigger] old(self)@.volumes.contains_key(k)
                ==> final(self)@.volumes.contains_key(k) && final(self)@.volumes[k] == old(self)@.volumes[k],
    {
        self.driver.finish_publish(pending, outcome)
    }

    /// Decides an unpublish request; where the plan is to unmount, the caller
    /// unmounts and hands the outcome to `node_unpublish_volume_finish`.
    pub fn node_unpublish_volume(&self, request: NodeUnpublishVolumeRequest) -> (res: Result<PendingUnpublish, CsiStatus>)
        ensures
            unmount_result_view(res) == unpublish_decision(self@.volumes, request.volume_id@),
    {
        self.driver.begin_unpublish(request.volume_id.as_str())
    }

    /// Removes an unmounted volume, or answers the unmount's failure.
    pub fn node_unpublish_volume_finish(&mut self, pending: PendingUnpublish, outcome: Result<(), K8sCSIXetFSError>) -> (res: Result<(), CsiStatus>)
        ensures
            final(self)@.node_id == old(self)@.node_id,
            (final(self)@.volumes, unit_result_view(res)) == after_unmount(old(self)@.volumes, pending@.volume_id, outcome),
            registry_wf(final(self)@.volumes),
    {
        self.driver.finish_unpublish(pending, outcome)
    }

    /// Volume statistics are not supported.
    pub fn node_get_volume_stats(&self) -> (res: Result<(), CsiStatus>)
        ensures
            res matches Err(e) && e@ == missing_capability_status(
                NodeCapabilityType::GetVolumeStats,
                StatusCode::FailedPrecondition,
            ),
    {
        missing_capability(NodeCapabilityType::GetVolumeStats, StatusCode::FailedPrecondition)
    }

    /// Expanding a volume is not supported.
    pub fn node_expand_volume(&self) -> (res: Result<(), CsiStatus>)
        ensures
            res matches Err(e) && e@ == missing_capability_status(
                NodeCapabilityType::ExpandVolume,
                StatusCode::InvalidArgument,
            ),
    {
        missing_capability(NodeCapabilityType::ExpandVolume, StatusCode::InvalidArgument)
    }

    /// The node advertises no node service capability.
    pub fn node_get_capabilities(&self) -> (res: Result<NodeGetCapabilitiesResponse, CsiStatus>)
        ensures
            res matches Ok(r) && r.capabilities@.len() == 0,
    {
        Ok(NodeGetCapabilitiesResponse { capabilities: Vec::new() })
    }

    /// The node's id, with no limit on the number of volumes.
    pub fn node_get_info(&self) -> (res: Result<NodeGetInfoResponse, CsiStatus>)
        ensures
            res matches Ok(r) && r.node_id@ == self@.node_id && r.max_volumes_per_node == 0
                && r.accessible_topology is None,
    {
        Ok(NodeGetInfoResponse { node_id: self.node_id.clone(), max_volumes_per_node: 0, accessible_topology: None })
    }
}

} // verus!
