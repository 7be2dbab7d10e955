//! Properties of publishing and unpublishing that span several requests.

use vstd::prelude::*;
use crate::driver::{
    VolumesView, PublishPlanView, UnmountView, registry_wf, publish_decision, after_mount,
    unpublish_decision, after_unmount,
};
use crate::error::{K8sCSIXetFSError, error_message};
use crate::status::{StatusCode, StatusView};
use crate::volume::{VolumeView, PublishRequestView, volume_of_request};

verus! {

/// Once a volume is mounted and registered, the registry holds it under its id,
/// stays well formed, and a repeat of the same publish request succeeds with
/// nothing more to mount.
pub proof fn lemma_publish_then_repeat(m: VolumesView, v: VolumeView)
    requires
        registry_wf(m),
        publish_decision(m, v) == Ok::<PublishPlanView, StatusView>(PublishPlanView::Mount(v)),
    ensures
        after_mount(m, v, Ok(())).1 == Ok::<(), StatusView>(()),
        after_mount(m, v, Ok(())).0.contains_key(v.volume_id),
        after_mount(m, v, Ok(())).0[v.volume_id] == v,
        registry_wf(after_mount(m, v, Ok(())).0),
        publish_decision(after_mount(m, v, Ok(())).0, v) == Ok::<PublishPlanView, StatusView>(PublishPlanView::AlreadyPublished),
{
    let m2 = after_mount(m, v, Ok(())).0;
    assert forall|k: Seq<char>| #[trigger] m2.contains_key(k) implies m2[k].volume_id == k && m2[k].valid() by {
        if k != v.volume_id {
            assert(m.contains_key(k));
        }
    }
}

/// Once a volume is published, a request to publish another valid volume under
/// the same id is refused with `AlreadyExists`, and the registry is unchanged.
pub proof fn lemma_publish_conflict(m: VolumesView, v: VolumeView, w: VolumeView)
    requires
        publish_decision(m, v) == Ok::<PublishPlanView, StatusView>(PublishPlanView::Mount(v)),
        w.valid(),
        w.volume_id == v.volume_id,
        w != v,
    ensures
        publish_decision(after_mount(m, v, Ok(())).0, w) == Err::<PublishPlanView, StatusView>(StatusView {
            code: StatusCode::AlreadyExists,
            message: "volume "@ + w.volume_id + " already exists"@,
        }),
{
}

/// A failed mount leaves the registry as it was and answers `Internal` with the
/// error's text.
pub proof fn lemma_failed_mount_changes_nothing(m: VolumesView, v: VolumeView, e: K8sCSIXetFSError)
    ensures
        after_mount(m, v, Err(e)).0 == m,
        after_mount(m, v, Err(e)).1 == Err::<(), StatusView>(StatusView { code: StatusCode::Internal, message: error_message(e) }),
{
}

/// Unpublishing a volume that was just published unmounts the path that it was
/// published at and, once unmounted, leaves the registry as it was before.
pub proof fn lemma_unpublish_undoes_publish(m: VolumesView, v: VolumeView)
    requires
        publish_decision(m, v) == Ok::<PublishPlanView, StatusView>(PublishPlanView::Mount(v)),
    ensures
        unpublish_decision(after_mount(m, v, Ok(())).0, v.volume_id)
            == Ok::<UnmountView, StatusView>(UnmountView { volume_id: v.volume_id, path: v.path }),
        after_unmount(after_mount(m, v, Ok(())).0, v.volume_id, Ok(())).0 == m,
        after_unmount(after_mount(m, v, Ok(())).0, v.volume_id, Ok(())).1 == Ok::<(), StatusView>(()),
{
    assert(after_unmount(after_mount(m, v, Ok(())).0, v.volume_id, Ok(())).0 =~= m);
}

/// Once a volume is unmounted and removed, a further request to unpublish it is
/// answered `NotFound`.
pub proof fn lemma_unpublish_twice(m: VolumesView, volume_id: Seq<char>)
    ensures
        unpublish_decision(after_unmount(m, volume_id, Ok(())).0, volume_id) == Err::<UnmountView, StatusView>(StatusView {
            code: StatusCode::NotFound,
            message: "volume with volume id "@ + volume_id + " not found"@,
        }),
{
}

/// Every step of publishing and unpublishing keeps the registry well formed.
pub proof fn lemma_steps_keep_wf(m: VolumesView, v: VolumeView, volume_id: Seq<char>, outcome: Result<(), K8sCSIXetFSError>)
    requires
        registry_wf(m),
    ensures
        publish_decision(m, v) == Ok::<PublishPlanView, StatusView>(PublishPlanView::Mount(v))
            ==> registry_wf(after_mount(m, v, outcome).0),
        registry_wf(after_unmount(m, volume_id, outcome).0),
{
    if publish_decision(m, v) == Ok::<PublishPlanView, StatusView>(PublishPlanView::Mount(v)) {
        let m2 = after_mount(m, v, outcome).0;
        assert forall|k: Seq<char>| #[trigger] m2.contains_key(k) implies m2[k].volume_id == k && m2[k].valid() by {
            if k != v.volume_id {
                assert(m.contains_key(k));
            }
        }
    }
    let m3 = after_unmount(m, volume_id, outcome).0;
    assert forall|k: Seq<char>| #[trigger] m3.contains_key(k) implies m3[k].volume_id == k && m3[k].valid() by {
        assert(m.contains_key(k));
    }
}

/// A publish request that carries a volume's repository, commit and CAS server
/// in its volume context, and its user and token in its secrets, is read back
/// as that volume.
pub proof fn lemma_request_round_trip(v: VolumeView)
    ensures
        volume_of_request(PublishRequestView {
            volume_id: v.volume_id,
            target_path: v.path,
            volume_context: match v.cas {
                Some(cas) => Map::empty().insert("repo"@, v.repo).insert("commit"@, v.commit).insert("cas"@, cas),
                None => Map::empty().insert("repo"@, v.repo).insert("commit"@, v.commit),
            },
            secrets: Map::empty().insert("user"@, v.user).insert("pat"@, v.pat),
        }) == Ok::<VolumeView, StatusView>(v),
{
    reveal_strlit("repo");
    reveal_strlit("commit");
    reveal_strlit("cas");
    reveal_strlit("user");
    reveal_strlit("pat");
    assert("repo"@[0] != "commit"@[0]);
    assert("repo"@[0] != "cas"@[0]);
    assert("commit"@[1] != "cas"@[1]);
    assert("user"@[0] != "pat"@[0]);
}

/// The registry after a whole publish request for `v` whose mount, if the
/// plan asks for one, ends with `outcome`: it changes only where the plan was
/// to mount.
pub open spec fn registry_after_publish(m: VolumesView, v: VolumeView, outcome: Result<(), K8sCSIXetFSError>) -> VolumesView {
    match publish_decision(m, v) {
        Ok(PublishPlanView::Mount(w)) => after_mount(m, w, outcome).0,
        _ => m,
    }
}

/// Whatever a publish request leads to, the registry stays well formed, keeps
/// every volume it held unchanged, and grows by at most one volume.
pub proof fn lemma_publish_keeps_entries(m: VolumesView, v: VolumeView, outcome: Result<(), K8sCSIXetFSError>)
    requires
        registry_wf(m),
    ensures
        registry_wf(registry_after_publish(m, v, outcome)),
        forall|k: Seq<char>| #[trigger] m.contains_key(k) ==> registry_after_publish(m, v, outcome).contains_key(k)
            && registry_after_publish(m, v, outcome)[k] == m[k],
        registry_after_publish(m, v, outcome).len() <= m.len() + 1,
{
    lemma_steps_keep_wf(m, v, Seq::empty(), outcome);
    if publish_decision(m, v) == Ok::<PublishPlanView, StatusView>(PublishPlanView::Mount(v)) {
        if outcome is Ok {
            assert(m.insert(v.volume_id, v).dom() =~= m.dom().insert(v.volume_id));
        }
    }
}

/// Whatever order the steps of several publish requests run in, finishing a
/// publish never replaces nor removes a registered volume, and the registry
/// stays well formed.
pub proof fn lemma_mount_never_overwrites(m: VolumesView, v: VolumeView, outcome: Result<(), K8sCSIXetFSError>)
    requires
        registry_wf(m),
        v.valid(),
    ensures
        forall|k: Seq<char>| #[trigger] m.contains_key(k) ==> after_mount(m, v, outcome).0.contains_key(k)
            && after_mount(m, v, outcome).0[k] == m[k],
        registry_wf(after_mount(m, v, outcome).0),
        after_mount(m, v, outcome).0.len() <= m.len() + 1,
{
    let m2 = after_mount(m, v, outcome).0;
    assert forall|k: Seq<char>| #[trigger] m2.contains_key(k) implies m2[k].volume_id == k && m2[k].valid() by {
        if k != v.volume_id {
            assert(m.contains_key(k));
        }
    }
    if outcome is Ok && !m.contains_key(v.volume_id) {
        assert(m2.dom() =~= m.dom().insert(v.volume_id));
    }
}

} // verus!
