use k8s_csi_xetfs::driver::PublishPlan;
use k8s_csi_xetfs::error::K8sCSIXetFSError;
use k8s_csi_xetfs::node::{missing_capability, NodeCapabilityType, NodeService, NodeUnpublishVolumeRequest};
use k8s_csi_xetfs::status::StatusCode;
use k8s_csi_xetfs::volume::{spec, NodePublishVolumeRequest};

fn publish_request(volume_id: &str, repo: &str, commit: &str, path: &str) -> NodePublishVolumeRequest {
    let mut r = NodePublishVolumeRequest::new(volume_id.to_string(), path.to_string());
    r.insert_volume_context("repo".to_string(), repo.to_string());
    r.insert_volume_context("commit".to_string(), commit.to_string());
    r
}

#[test]
fn unsupported_capabilities() {
    let n = NodeService::new("node-a".to_string());
    let e = n.node_stage_volume().unwrap_err();
    assert_eq!(e.code(), StatusCode::FailedPrecondition);
    assert_eq!(e.message(), "missing capability STAGE_UNSTAGE_VOLUME");
    let e = n.node_unstage_volume().unwrap_err();
    assert_eq!(e.code(), StatusCode::FailedPrecondition);
    assert_eq!(e.message(), "missing capability STAGE_UNSTAGE_VOLUME");
    let e = n.node_get_volume_stats().unwrap_err();
    assert_eq!(e.code(), StatusCode::FailedPrecondition);
    assert_eq!(e.message(), "missing capability GET_VOLUME_STATS");
    let e = n.node_expand_volume().unwrap_err();
    assert_eq!(e.code(), StatusCode::InvalidArgument);
    assert_eq!(e.message(), "missing capability EXPAND_VOLUME");
}

#[test]
fn capability_names() {
    assert_eq!(NodeCapabilityType::Unknown.as_str_name(), "UNKNOWN");
    assert_eq!(NodeCapabilityType::VolumeCondition.as_str_name(), "VOLUME_CONDITION");
    assert_eq!(NodeCapabilityType::SingleNodeMultiWriter.as_str_name(), "SINGLE_NODE_MULTI_WRITER");
    assert_eq!(NodeCapabilityType::VolumeMountGroup.as_str_name(), "VOLUME_MOUNT_GROUP");
    let r: Result<u8, _> = missing_capability(NodeCapabilityType::ExpandVolume, StatusCode::NotFound);
    let e = r.unwrap_err();
    assert_eq!(e.code(), StatusCode::NotFound);
    assert_eq!(e.message(), "missing capability EXPAND_VOLUME");
}

#[test]
fn info_and_capabilities() {
    let n = NodeService::new("node-a".to_string());
    let info = n.node_get_info().unwrap();
    assert_eq!(info.node_id, "node-a");
    assert_eq!(info.max_volumes_per_node, 0);
    assert!(info.accessible_topology.is_none());
    assert!(n.node_get_capabilities().unwrap().capabilities.is_empty());
}

#[test]
fn publish_and_unpublish_through_the_node_service() {
    let mut n = NodeService::new("node-a".to_string());
    let pending = match n.node_publish_volume(publish_request("v1", "repo", "main", "/mnt/v1")).unwrap() {
        PublishPlan::Mount(p) => p,
        PublishPlan::AlreadyPublished => panic!("nothing was published yet"),
    };
    assert!(pending.volume() == &spec("v1", "repo", "main", "/mnt/v1"));
    assert!(n.node_publish_volume_finish(pending, Ok(())).is_ok());
    assert!(matches!(
        n.node_publish_volume(publish_request("v1", "repo", "main", "/mnt/v1")).unwrap(),
        PublishPlan::AlreadyPublished
    ));
    let pending = n
        .node_unpublish_volume(NodeUnpublishVolumeRequest { volume_id: "v1".to_string(), target_path: "/other".to_string() })
        .unwrap();
    assert_eq!(pending.path(), "/mnt/v1");
    assert!(n.node_unpublish_volume_finish(pending, Ok(())).is_ok());
    assert!(n.driver().get("v1").is_none());
}

#[test]
fn publish_request_without_repo_is_refused() {
    let n = NodeService::new("node-a".to_string());
    let r = NodePublishVolumeRequest::new("v1".to_string(), "/mnt".to_string());
    let e = n.node_publish_volume(r).err().unwrap();
    assert_eq!(e.code(), StatusCode::InvalidArgument);
    assert_eq!(e.message(), "missing repo in volume context");
}

#[test]
fn publish_failure_through_the_node_service() {
    let mut n = NodeService::new("node-a".to_string());
    let pending = match n.node_publish_volume(publish_request("v1", "repo", "main", "/mnt/v1")).unwrap() {
        PublishPlan::Mount(p) => p,
        PublishPlan::AlreadyPublished => panic!("nothing was published yet"),
    };
    let e = n
        .node_publish_volume_finish(pending, Err(K8sCSIXetFSError::IOError("No such file or directory (os error 2)".to_string())))
        .unwrap_err();
    assert_eq!(e.code(), StatusCode::Internal);
    assert_eq!(e.message(), "IOError No such file or directory (os error 2)");
    assert_eq!(n.driver().len(), 0);
}
