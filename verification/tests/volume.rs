use k8s_csi_xetfs::status::StatusCode;
use k8s_csi_xetfs::volume::{spec, NodePublishVolumeRequest, XetCSIVolume};

fn request() -> NodePublishVolumeRequest {
    let mut r = NodePublishVolumeRequest::new("vol-1".to_string(), "/var/lib/kubelet/pods/x".to_string());
    r.insert_volume_context("repo".to_string(), "https://xethub.com/XetHub/Flickr30k.git".to_string());
    r.insert_volume_context("commit".to_string(), "main".to_string());
    r
}

#[test]
fn try_from_reads_required_fields() {
    let v = XetCSIVolume::try_from(request()).unwrap();
    assert_eq!(v.volume_id, "vol-1");
    assert_eq!(v.path, "/var/lib/kubelet/pods/x");
    assert_eq!(v.repo, "https://xethub.com/XetHub/Flickr30k.git");
    assert_eq!(v.commit, "main");
    assert_eq!(v.user, "");
    assert_eq!(v.pat, "");
    assert_eq!(v.cas, None);
    assert!(v.validate());
}

#[test]
fn try_from_reads_optional_fields() {
    let mut r = request();
    r.insert_secret("user".to_string(), "alice".to_string());
    r.insert_secret("pat".to_string(), "SECRET-REDACTED".to_string());
    r.insert_volume_context("cas".to_string(), "cas.example:443".to_string());
    let v = XetCSIVolume::try_from(r).unwrap();
    assert_eq!(v.user, "alice");
    assert_eq!(v.pat, "SECRET-REDACTED");
    assert_eq!(v.cas, Some("cas.example:443".to_string()));
}

#[test]
fn try_from_missing_repo() {
    let mut r = NodePublishVolumeRequest::new("vol-1".to_string(), "/mnt".to_string());
    r.insert_volume_context("commit".to_string(), "main".to_string());
    let err = XetCSIVolume::try_from(r).err().unwrap();
    assert_eq!(err.code(), StatusCode::InvalidArgument);
    assert_eq!(err.message(), "missing repo in volume context");
}

#[test]
fn try_from_missing_commit() {
    let mut r = NodePublishVolumeRequest::new("vol-1".to_string(), "/mnt".to_string());
    r.insert_volume_context("repo".to_string(), "r".to_string());
    let err = XetCSIVolume::try_from(r).err().unwrap();
    assert_eq!(err.code(), StatusCode::InvalidArgument);
    assert_eq!(err.message(), "missing commit in volume context");
}

#[test]
fn try_from_missing_both_reports_repo() {
    let r = NodePublishVolumeRequest::new("vol-1".to_string(), "/mnt".to_string());
    let err = XetCSIVolume::try_from(r).err().unwrap();
    assert_eq!(err.message(), "missing repo in volume context");
}

#[test]
fn try_from_keeps_empty_id_for_validation() {
    let mut r = NodePublishVolumeRequest::new(String::new(), "/mnt".to_string());
    r.insert_volume_context("repo".to_string(), "r".to_string());
    r.insert_volume_context("commit".to_string(), "c".to_string());
    let v = XetCSIVolume::try_from(r).unwrap();
    assert!(!v.validate());
}

#[test]
fn validate_needs_all_four_fields() {
    assert!(spec("1", "r", "c", "/p").validate());
    assert!(!spec("", "r", "c", "/p").validate());
    assert!(!spec("1", "", "c", "/p").validate());
    assert!(!spec("1", "r", "", "/p").validate());
    assert!(!spec("1", "r", "c", "").validate());
}

#[test]
fn spec_builds_a_volume_without_credentials() {
    let v = spec("123", "repo", "commit", "/path");
    assert_eq!(v.volume_id, "123");
    assert_eq!(v.repo, "repo");
    assert_eq!(v.commit, "commit");
    assert_eq!(v.path, "/path");
    assert_eq!(v.user, "");
    assert_eq!(v.pat, "");
    assert_eq!(v.cas, None);
}

#[test]
fn volumes_compare_by_every_field() {
    let a = spec("1", "r", "c", "/p");
    assert!(a == spec("1", "r", "c", "/p"));
    assert!(a != spec("1", "r", "c", "/q"));
    let mut b = a.clone();
    b.pat = "x".to_string();
    assert!(a != b);
    let mut c = a.clone();
    c.cas = Some("cas".to_string());
    assert!(a != c);
}

#[test]
fn default_volume_is_empty_and_invalid() {
    let v = XetCSIVolume::default();
    assert_eq!(v.volume_id, "");
    assert_eq!(v.path, "");
    assert_eq!(v.repo, "");
    assert_eq!(v.commit, "");
    assert_eq!(v.user, "");
    assert_eq!(v.pat, "");
    assert_eq!(v.cas, None);
    assert!(!v.validate());
}
