//! What each request step must give, stated over all inputs.

use vstd::prelude::*;
use crate::driver::{
    VolumesView, PublishPlanView, UnmountView, publish_decision, after_mount, already_exists_status,
    unpublish_decision, after_unmount,
};
use crate::error::{K8sCSIXetFSError, error_message};
use crate::mount::{CommandView, git_xet_mount_command, umount_command, umount_outcome};
use crate::node::{NodeCapabilityType, capability_name, missing_capability_status};
use crate::node::publish_request_decision;
use crate::status::{StatusCode, StatusView};
use crate::volume::{VolumeView, PublishRequestView, volume_of_request};

verus! {

/// Whether some environment variable of `c` is named `name`.
pub open spec fn sets_env(c: CommandView, name: Seq<char>) -> bool {
    exists|i: int| 0 <= i < c.envs.len() && #[trigger] c.envs[i].0 == name
}

/// A volume is valid exactly when its path, id, commit and repository are all
/// non-empty, whatever characters they hold.
pub proof fn lemma_valid_iff_nonempty(v: VolumeView)
    ensures
        v.valid() <==> (v.path.len() > 0 && v.volume_id.len() > 0 && v.commit.len() > 0 && v.repo.len() > 0),
{
}

/// The mount command runs `git-xet mount -r <commit> <repo> <path>` at log
/// level `info`; it passes the credentials exactly when both user and token
/// are non-empty, and the CAS server whenever one is given, whatever the
/// credentials are.
pub proof fn lemma_mount_command(v: VolumeView)
    ensures
        git_xet_mount_command(v).program == "git-xet"@,
        git_xet_mount_command(v).args == seq!["mount"@, "-r"@, v.commit, v.repo, v.path],
        git_xet_mount_command(v).envs.contains(("XET_LOG_LEVEL"@, "info"@)),
        (v.user.len() > 0 && v.pat.len() > 0) ==> git_xet_mount_command(v).envs.contains(("XET_USER_NAME"@, v.user))
            && git_xet_mount_command(v).envs.contains(("XET_USER_TOKEN"@, v.pat)),
        sets_env(git_xet_mount_command(v), "XET_USER_NAME"@) <==> (v.user.len() > 0 && v.pat.len() > 0),
        sets_env(git_xet_mount_command(v), "XET_USER_TOKEN"@) <==> (v.user.len() > 0 && v.pat.len() > 0),
        forall|cas: Seq<char>| v.cas == Some(cas) ==> #[trigger] git_xet_mount_command(v).envs.contains(("XET_CAS_SERVER"@, cas)),
        sets_env(git_xet_mount_command(v), "XET_CAS_SERVER"@) <==> v.cas is Some,
        git_xet_mount_command(v).envs.len() == 1 + (if v.user.len() > 0 && v.pat.len() > 0 { 2int } else { 0int })
            + (if v.cas is Some { 1int } else { 0int }),
        forall|i: int| 0 <= i < git_xet_mount_command(v).envs.len() ==> {
            let e = #[trigger] git_xet_mount_command(v).envs[i];
            ||| e == ("XET_LOG_LEVEL"@, "info"@)
            ||| (v.user.len() > 0 && v.pat.len() > 0 && e == ("XET_USER_NAME"@, v.user))
            ||| (v.user.len() > 0 && v.pat.len() > 0 && e == ("XET_USER_TOKEN"@, v.pat))
            ||| (v.cas is Some && e == ("XET_CAS_SERVER"@, v.cas->Some_0))
        },
{
    reveal_strlit("XET_LOG_LEVEL");
    reveal_strlit("XET_USER_NAME");
    reveal_strlit("XET_USER_TOKEN");
    reveal_strlit("XET_CAS_SERVER");
    let c = git_xet_mount_command(v);
    let creds = v.user.len() > 0 && v.pat.len() > 0;
    let log = seq![("XET_LOG_LEVEL"@, "info"@)];
    let mid: Seq<(Seq<char>, Seq<char>)> = if creds {
        seq![("XET_USER_NAME"@, v.user), ("XET_USER_TOKEN"@, v.pat)]
    } else {
        Seq::empty()
    };
    let tail: Seq<(Seq<char>, Seq<char>)> = match v.cas {
        Some(cas) => seq![("XET_CAS_SERVER"@, cas)],
        None => Seq::empty(),
    };
    assert(c.envs == log + mid + tail);
    let n_mid: int = if creds { 2 } else { 0 };
    assert(c.envs.len() == 1 + n_mid + tail.len());
    assert(c.envs[0] == ("XET_LOG_LEVEL"@, "info"@));
    assert("XET_LOG_LEVEL"@[4] != "XET_USER_NAME"@[4]);
    assert("XET_LOG_LEVEL"@[4] != "XET_USER_TOKEN"@[4]);
    assert("XET_LOG_LEVEL"@[4] != "XET_CAS_SERVER"@[4]);
    assert("XET_USER_NAME"@[4] != "XET_CAS_SERVER"@[4]);
    assert("XET_USER_TOKEN"@[4] != "XET_CAS_SERVER"@[4]);
    assert("XET_USER_NAME"@[9] != "XET_USER_TOKEN"@[9]);
    assert(c.envs.contains(("XET_LOG_LEVEL"@, "info"@)));
    if creds {
        assert(c.envs[1] == ("XET_USER_NAME"@, v.user));
        assert(c.envs[2] == ("XET_USER_TOKEN"@, v.pat));
        assert(c.envs[1].0 == "XET_USER_NAME"@);
        assert(c.envs[2].0 == "XET_USER_TOKEN"@);
        assert(sets_env(c, "XET_USER_NAME"@));
        assert(sets_env(c, "XET_USER_TOKEN"@));
    }
    match v.cas {
        Some(cas) => {
            assert(c.envs[1 + n_mid] == ("XET_CAS_SERVER"@, cas));
            assert(c.envs[1 + n_mid].0 == "XET_CAS_SERVER"@);
            assert(sets_env(c, "XET_CAS_SERVER"@));
        },
        None => {},
    }
    assert(sets_env(c, "XET_USER_NAME"@) ==> creds) by {
        if sets_env(c, "XET_USER_NAME"@) {
            let i = choose|i: int| 0 <= i < c.envs.len() && #[trigger] c.envs[i].0 == "XET_USER_NAME"@;
            if !creds {
                assert(i == 0 || i == 1);
            }
        }
    }
    assert(sets_env(c, "XET_USER_TOKEN"@) ==> creds) by {
        if sets_env(c, "XET_USER_TOKEN"@) {
            let i = choose|i: int| 0 <= i < c.envs.len() && #[trigger] c.envs[i].0 == "XET_USER_TOKEN"@;
            if !creds {
                assert(i == 0 || i == 1);
            }
        }
    }
    assert(sets_env(c, "XET_CAS_SERVER"@) ==> v.cas is Some) by {
        if sets_env(c, "XET_CAS_SERVER"@) {
            let i = choose|i: int| 0 <= i < c.envs.len() && #[trigger] c.envs[i].0 == "XET_CAS_SERVER"@;
            if v.cas is None {
                assert(0 <= i < 1 + n_mid);
            }
        }
    }
}

/// A request whose volume context names a repository and a commit is read as
/// the volume with the request's id and target path, that repository and
/// commit, the CAS server of the volume context where it names one (whatever
/// the secrets hold), and the user and token of the secrets where they hold
/// them (else empty). A request without repository, or else without commit,
/// is refused with `InvalidArgument`.
pub proof fn lemma_request_fields(r: PublishRequestView)
    ensures
        !r.volume_context.contains_key("repo"@) ==> volume_of_request(r) == Err::<VolumeView, StatusView>(
            StatusView { code: StatusCode::InvalidArgument, message: "missing repo in volume context"@ }),
        r.volume_context.contains_key("repo"@) && !r.volume_context.contains_key("commit"@)
            ==> volume_of_request(r) == Err::<VolumeView, StatusView>(
                StatusView { code: StatusCode::InvalidArgument, message: "missing commit in volume context"@ }),
        r.volume_context.contains_key("repo"@) && r.volume_context.contains_key("commit"@) ==> {
            &&& volume_of_request(r) is Ok
            &&& volume_of_request(r)->Ok_0.volume_id == r.volume_id
            &&& volume_of_request(r)->Ok_0.path == r.target_path
            &&& volume_of_request(r)->Ok_0.repo == r.volume_context["repo"@]
            &&& volume_of_request(r)->Ok_0.commit == r.volume_context["commit"@]
            &&& (r.volume_context.contains_key("cas"@)
                ==> volume_of_request(r)->Ok_0.cas == Some(r.volume_context["cas"@]))
            &&& (!r.volume_context.contains_key("cas"@) ==> volume_of_request(r)->Ok_0.cas is None)
            &&& (r.secrets.contains_key("user"@) ==> volume_of_request(r)->Ok_0.user == r.secrets["user"@])
            &&& (!r.secrets.contains_key("user"@) ==> volume_of_request(r)->Ok_0.user.len() == 0)
            &&& (r.secrets.contains_key("pat"@) ==> volume_of_request(r)->Ok_0.pat == r.secrets["pat"@])
            &&& (!r.secrets.contains_key("pat"@) ==> volume_of_request(r)->Ok_0.pat.len() == 0)
        },
{
}

/// A plan to mount always carries exactly the requested volume; a valid volume
/// under a free id is always planned for mounting; a repeat is accepted only
/// for the very volume registered under its id; a valid volume under an id that
/// holds another volume is refused with `AlreadyExists`; an invalid volume is
/// refused with `InvalidArgument`.
pub proof fn lemma_publish_decision(m: VolumesView, v: VolumeView)
    ensures
        (publish_decision(m, v) is Ok && publish_decision(m, v)->Ok_0 is Mount)
            ==> (publish_decision(m, v)->Ok_0->Mount_0 == v && v.valid() && !m.contains_key(v.volume_id)),
        v.valid() && !m.contains_key(v.volume_id)
            ==> publish_decision(m, v) == Ok::<PublishPlanView, StatusView>(PublishPlanView::Mount(v)),
        publish_decision(m, v) == Ok::<PublishPlanView, StatusView>(PublishPlanView::AlreadyPublished)
            <==> (v.valid() && m.contains_key(v.volume_id) && m[v.volume_id] == v),
        v.valid() && m.contains_key(v.volume_id) && m[v.volume_id] != v
            ==> publish_decision(m, v) == Err::<PublishPlanView, StatusView>(already_exists_status(v.volume_id)),
        already_exists_status(v.volume_id)
            == (StatusView { code: StatusCode::AlreadyExists, message: "volume "@ + v.volume_id + " already exists"@ }),
        !v.valid() ==> publish_decision(m, v) == Err::<PublishPlanView, StatusView>(
            StatusView { code: StatusCode::InvalidArgument, message: "invalid volume spec"@ }),
        v.valid() && !m.contains_key(v.volume_id)
            ==> after_mount(m, v, Ok(())).0 == m.insert(v.volume_id, v) && after_mount(m, v, Ok(())).1 is Ok,
{
}

/// The node service answers a publish request by reading its volume and then
/// deciding the publish of exactly that volume: a request it cannot read is
/// refused with the reading's status; a valid volume under an id that holds
/// another volume is refused with `AlreadyExists`; a repeat is accepted only
/// for the volume registered under the id; a mount is planned only for the
/// volume read, under a free id.
pub proof fn lemma_publish_request(m: VolumesView, r: PublishRequestView)
    ensures
        volume_of_request(r) is Err
            ==> publish_request_decision(m, r) == Err::<PublishPlanView, StatusView>(volume_of_request(r)->Err_0),
        volume_of_request(r) is Ok ==> ({
            let v = volume_of_request(r)->Ok_0;
            v.valid() && m.contains_key(v.volume_id) && m[v.volume_id] != v
                ==> publish_request_decision(m, r) == Err::<PublishPlanView, StatusView>(already_exists_status(v.volume_id))
        }),
        publish_request_decision(m, r) == Ok::<PublishPlanView, StatusView>(PublishPlanView::AlreadyPublished)
            ==> (volume_of_request(r) is Ok && m.contains_key(volume_of_request(r)->Ok_0.volume_id)
                && m[volume_of_request(r)->Ok_0.volume_id] == volume_of_request(r)->Ok_0),
        (publish_request_decision(m, r) is Ok && publish_request_decision(m, r)->Ok_0 is Mount) ==> ({
            let w = publish_request_decision(m, r)->Ok_0->Mount_0;
            volume_of_request(r) == Ok::<VolumeView, StatusView>(w) && w.valid() && !m.contains_key(w.volume_id)
        }),
{
    match volume_of_request(r) {
        Ok(v) => { lemma_publish_decision(m, v); },
        Err(_) => {},
    }
}

/// A failed mount registers nothing and answers `Internal` with the error's
/// text; the text of an error is its message, prefixed by `IOError ` or
/// `TransportError ` for I/O and transport errors.
pub proof fn lemma_mount_failure(m: VolumesView, v: VolumeView, e: K8sCSIXetFSError)
    ensures
        after_mount(m, v, Err(e)).0 == m,
        after_mount(m, v, Err(e)).1 == Err::<(), StatusView>(StatusView { code: StatusCode::Internal, message: error_message(e) }),
        e matches K8sCSIXetFSError::GenericError(t) ==> error_message(e) == t@,
        e matches K8sCSIXetFSError::IOError(t) ==> error_message(e) == "IOError "@ + t@,
        e matches K8sCSIXetFSError::TonicTransportError(t) ==> error_message(e) == "TransportError "@ + t@,
{
}

/// An unpublish request is planned exactly when its id is registered, and then
/// unmounts the path that volume was published at; an unknown id is answered
/// `NotFound`. A successful unmount removes exactly that id; a failed one
/// changes nothing and answers `Internal` with the error's text.
pub proof fn lemma_unpublish(m: VolumesView, volume_id: Seq<char>, e: K8sCSIXetFSError)
    ensures
        m.contains_key(volume_id) ==> unpublish_decision(m, volume_id)
            == Ok::<UnmountView, StatusView>(UnmountView { volume_id, path: m[volume_id].path }),
        !m.contains_key(volume_id) ==> unpublish_decision(m, volume_id) == Err::<UnmountView, StatusView>(
            StatusView { code: StatusCode::NotFound, message: "volume with volume id "@ + volume_id + " not found"@ }),
        after_unmount(m, volume_id, Ok(())).0 == m.remove(volume_id),
        after_unmount(m, volume_id, Ok(())).1 is Ok,
        after_unmount(m, volume_id, Err(e)).0 == m,
        after_unmount(m, volume_id, Err(e)).1 == Err::<(), StatusView>(StatusView { code: StatusCode::Internal, message: error_message(e) }),
{
}

/// Unmounting runs `umount <path>` with no extra environment, and fails, quoting
/// the exit status, exactly when the command did not succeed.
pub proof fn lemma_umount(path: Seq<char>, success: bool, exit_status: Seq<char>)
    ensures
        umount_command(path) == (CommandView { program: "umount"@, args: seq![path], envs: Seq::empty() }),
        umount_outcome(success, exit_status) is Ok <==> success,
        !success ==> umount_outcome(success, exit_status)
            == Err::<(), Seq<char>>("umount existed with status code: "@ + exit_status),
{
}

/// An unsupported capability is answered with the given code and the message
/// `missing capability <NAME>`, where the name is the capability's name in the
/// CSI specification.
pub proof fn lemma_missing_capability(c: NodeCapabilityType, code: StatusCode)
    ensures
        missing_capability_status(c, code) == (StatusView { code, message: "missing capability "@ + capability_name(c) }),
        c == NodeCapabilityType::Unknown ==> capability_name(c) == "UNKNOWN"@,
        c == NodeCapabilityType::StageUnstageVolume ==> capability_name(c) == "STAGE_UNSTAGE_VOLUME"@,
        c == NodeCapabilityType::GetVolumeStats ==> capability_name(c) == "GET_VOLUME_STATS"@,
        c == NodeCapabilityType::ExpandVolume ==> capability_name(c) == "EXPAND_VOLUME"@,
        c == NodeCapabilityType::VolumeCondition ==> capability_name(c) == "VOLUME_CONDITION"@,
        c == NodeCapabilityType::SingleNodeMultiWriter ==> capability_name(c) == "SINGLE_NODE_MULTI_WRITER"@,
        c == NodeCapabilityType::VolumeMountGroup ==> capability_name(c) == "VOLUME_MOUNT_GROUP"@,
{
}

} // verus!
