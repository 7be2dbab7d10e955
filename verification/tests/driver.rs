use k8s_csi_xetfs::driver::{PublishPlan, XetHubCSIDriver};
use k8s_csi_xetfs::error::K8sCSIXetFSError;
use k8s_csi_xetfs::status::{CsiStatus, StatusCode};
use k8s_csi_xetfs::volume::{spec, XetCSIVolume};

/// Stands in for the mount command: counts its calls and answers as told.
struct FakeMounter {
    calls: usize,
    fail: bool,
}

impl FakeMounter {
    fn new(fail: bool) -> Self {
        FakeMounter { calls: 0, fail }
    }

    fn mount(&mut self, _volume: &XetCSIVolume) -> Result<(), K8sCSIXetFSError> {
        self.calls += 1;
        if self.fail {
            Err(K8sCSIXetFSError::IOError(String::new()))
        } else {
            Ok(())
        }
    }

    fn unmount(&mut self, _path: &str) -> Result<(), K8sCSIXetFSError> {
        self.calls += 1;
        if self.fail {
            Err(K8sCSIXetFSError::GenericError("umount existed with status code: exit status: 32".to_string()))
        } else {
            Ok(())
        }
    }
}

fn publish(driver: &mut XetHubCSIDriver, volume_spec: XetCSIVolume, mounter: &mut FakeMounter) -> Result<(), CsiStatus> {
    match driver.begin_publish(volume_spec)? {
        PublishPlan::AlreadyPublished => Ok(()),
        PublishPlan::Mount(pending) => {
            let outcome = mounter.mount(pending.volume());
            driver.finish_publish(pending, outcome)
        }
    }
}

fn unpublish(driver: &mut XetHubCSIDriver, volume_id: &str, mounter: &mut FakeMounter) -> Result<(), CsiStatus> {
    let pending = driver.begin_unpublish(volume_id)?;
    let outcome = mounter.unmount(pending.path());
    driver.finish_unpublish(pending, outcome)
}

#[test]
fn test_simple() {
    let mut mounter = FakeMounter::new(false);
    let mut driver = XetHubCSIDriver::new();
    let volume_spec = spec("123", "123", "123", "123");
    assert!(publish(&mut driver, volume_spec.clone(), &mut mounter).is_ok());
    assert!(driver.get("123").unwrap() == &volume_spec);
    assert_eq!(mounter.calls, 1);
}

#[test]
fn test_repeat_publish() {
    let mut mounter = FakeMounter::new(false);
    let mut driver = XetHubCSIDriver::new();
    let volume_spec = spec("123", "123", "123", "123");
    publish(&mut driver, volume_spec.clone(), &mut mounter).unwrap();
    let result = publish(&mut driver, volume_spec, &mut mounter);
    assert!(result.is_ok());
    // mount should only be called once.
    assert_eq!(mounter.calls, 1);
}

#[test]
fn test_repeat_volume_id() {
    let mut mounter = FakeMounter::new(false);
    let mut driver = XetHubCSIDriver::new();
    let volume_spec = spec("123", "123", "123", "123");
    publish(&mut driver, volume_spec.clone(), &mut mounter).unwrap();
    let volume_spec = spec("123", "124", "124", "124");
    let result = publish(&mut driver, volume_spec, &mut mounter);
    assert!(result.is_err());
    assert!(matches!(result.unwrap_err().code(), StatusCode::AlreadyExists));
    assert_eq!(mounter.calls, 1);
}

#[test]
fn test_mount_fails() {
    let mut mounter = FakeMounter::new(true);
    let mut driver = XetHubCSIDriver::new();
    let volume_spec = spec("123", "123", "123", "123");
    let result = publish(&mut driver, volume_spec, &mut mounter);
    assert!(result.is_err());
    assert!(matches!(result.unwrap_err().code(), StatusCode::Internal));
    assert_eq!(mounter.calls, 1);
}

#[test]
fn conflict_message_names_the_volume() {
    let mut mounter = FakeMounter::new(false);
    let mut driver = XetHubCSIDriver::new();
    publish(&mut driver, spec("123", "123", "123", "123"), &mut mounter).unwrap();
    let err = publish(&mut driver, spec("123", "124", "124", "124"), &mut mounter).unwrap_err();
    assert_eq!(err.message(), "volume 123 already exists");
    assert!(driver.get("123").unwrap() == &spec("123", "123", "123", "123"));
}

#[test]
fn invalid_volume_is_refused_before_mounting() {
    let mut mounter = FakeMounter::new(false);
    let mut driver = XetHubCSIDriver::new();
    for volume_spec in [
        spec("", "repo", "main", "/mnt"),
        spec("1", "", "main", "/mnt"),
        spec("1", "repo", "", "/mnt"),
        spec("1", "repo", "main", ""),
    ] {
        let err = publish(&mut driver, volume_spec, &mut mounter).unwrap_err();
        assert_eq!(err.code(), StatusCode::InvalidArgument);
        assert_eq!(err.message(), "invalid volume spec");
    }
    assert_eq!(mounter.calls, 0);
    assert_eq!(driver.len(), 0);
}

#[test]
fn failed_mount_registers_nothing() {
    let mut mounter = FakeMounter::new(true);
    let mut driver = XetHubCSIDriver::new();
    let err = publish(&mut driver, spec("123", "123", "123", "123"), &mut mounter).unwrap_err();
    assert_eq!(err.message(), "IOError ");
    assert!(driver.get("123").is_none());
    assert_eq!(driver.len(), 0);
}

#[test]
fn unpublish_removes_a_published_volume() {
    let mut mounter = FakeMounter::new(false);
    let mut driver = XetHubCSIDriver::new();
    publish(&mut driver, spec("7", "repo", "main", "/mnt/a"), &mut mounter).unwrap();
    publish(&mut driver, spec("8", "repo", "main", "/mnt/b"), &mut mounter).unwrap();
    let pending = driver.begin_unpublish("7").unwrap();
    assert_eq!(pending.path(), "/mnt/a");
    assert_eq!(pending.volume_id(), "7");
    assert!(driver.finish_unpublish(pending, Ok(())).is_ok());
    assert!(driver.get("7").is_none());
    assert!(driver.get("8").unwrap() == &spec("8", "repo", "main", "/mnt/b"));
    assert_eq!(driver.len(), 1);
}

#[test]
fn unpublish_unknown_volume_is_not_found() {
    let mut mounter = FakeMounter::new(false);
    let mut driver = XetHubCSIDriver::new();
    let err = unpublish(&mut driver, "42", &mut mounter).unwrap_err();
    assert_eq!(err.code(), StatusCode::NotFound);
    assert_eq!(err.message(), "volume with volume id 42 not found");
    assert_eq!(mounter.calls, 0);
}

#[test]
fn unpublish_twice_is_not_found() {
    let mut mounter = FakeMounter::new(false);
    let mut driver = XetHubCSIDriver::new();
    publish(&mut driver, spec("7", "repo", "main", "/mnt/a"), &mut mounter).unwrap();
    assert!(unpublish(&mut driver, "7", &mut mounter).is_ok());
    let err = unpublish(&mut driver, "7", &mut mounter).unwrap_err();
    assert_eq!(err.code(), StatusCode::NotFound);
}

#[test]
fn failed_unmount_keeps_the_volume() {
    let mut ok_mounter = FakeMounter::new(false);
    let mut driver = XetHubCSIDriver::new();
    publish(&mut driver, spec("7", "repo", "main", "/mnt/a"), &mut ok_mounter).unwrap();
    let mut failing = FakeMounter::new(true);
    let err = unpublish(&mut driver, "7", &mut failing).unwrap_err();
    assert_eq!(err.code(), StatusCode::Internal);
    assert_eq!(err.message(), "umount existed with status code: exit status: 32");
    assert!(driver.get("7").is_some());
}

#[test]
fn publish_after_unpublish_mounts_again() {
    let mut mounter = FakeMounter::new(false);
    let mut driver = XetHubCSIDriver::new();
    publish(&mut driver, spec("7", "repo", "main", "/mnt/a"), &mut mounter).unwrap();
    unpublish(&mut driver, "7", &mut mounter).unwrap();
    publish(&mut driver, spec("7", "other", "dev", "/mnt/c"), &mut mounter).unwrap();
    assert!(driver.get("7").unwrap() == &spec("7", "other", "dev", "/mnt/c"));
    assert_eq!(mounter.calls, 3);
}

#[test]
fn interleaved_publishes_never_overwrite() {
    let mut driver = XetHubCSIDriver::new();
    let first = match driver.begin_publish(spec("9", "repo-a", "main", "/mnt/a")).unwrap() {
        PublishPlan::Mount(p) => p,
        PublishPlan::AlreadyPublished => panic!("nothing was published yet"),
    };
    let second = match driver.begin_publish(spec("9", "repo-b", "main", "/mnt/b")).unwrap() {
        PublishPlan::Mount(p) => p,
        PublishPlan::AlreadyPublished => panic!("nothing was published yet"),
    };
    let same = match driver.begin_publish(spec("9", "repo-a", "main", "/mnt/a")).unwrap() {
        PublishPlan::Mount(p) => p,
        PublishPlan::AlreadyPublished => panic!("nothing was published yet"),
    };
    assert!(driver.finish_publish(first, Ok(())).is_ok());
    let err = driver.finish_publish(second, Ok(())).unwrap_err();
    assert_eq!(err.code(), StatusCode::AlreadyExists);
    assert_eq!(err.message(), "volume 9 already exists");
    assert!(driver.finish_publish(same, Ok(())).is_ok());
    assert!(driver.get("9").unwrap() == &spec("9", "repo-a", "main", "/mnt/a"));
    assert_eq!(driver.len(), 1);
}
