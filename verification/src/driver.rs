//! The registry of published volumes and the decisions taken around each mount
//! and unmount.
//!
//! Publishing and unpublishing alternate decisions with outside work: the
//! caller asks for a plan, runs the mount or unmount command that the plan asks
//! for, and hands the command's outcome back, all while it holds the registry
//! exclusively.

use vstd::prelude::*;
use vstd::hash_map::StringHashMap;
use crate::error::{K8sCSIXetFSError, error_message, concat_str};
use crate::status::{CsiStatus, StatusCode, StatusView};
use crate::volume::{XetCSIVolume, VolumeView};

verus! {

/// Mathematical model of the registry: published volumes by volume id.
pub type VolumesView = Map<Seq<char>, VolumeView>;

/// The registry is finite, and every published volume is valid and is
/// registered under its own id.
pub open spec fn registry_wf(m: VolumesView) -> bool {
    &&& m.dom().finite()
    &&& forall|k: Seq<char>| #[trigger] m.contains_key(k) ==> m[k].volume_id == k && m[k].valid()
}

/// Mathematical model of a [`PublishPlan`].
pub enum PublishPlanView {
    AlreadyPublished,
    Mount(VolumeView),
}

/// What a publish request for volume `v` leads to, given the registry `m`.
pub open spec fn publish_decision(m: VolumesView, v: VolumeView) -> Result<PublishPlanView, StatusView> {
    if !v.valid() {
        Err(StatusView { code: StatusCode::InvalidArgument, message: "invalid volume spec"@ })
    } else if m.contains_key(v.volume_id) {
        if m[v.volume_id] == v {
            Ok(PublishPlanView::AlreadyPublished)
        } else {
            Err(already_exists_status(v.volume_id))
        }
    } else {
        Ok(PublishPlanView::Mount(v))
    }
}

/// The status that refuses a volume under an id that holds another volume.
pub open spec fn already_exists_status(volume_id: Seq<char>) -> StatusView {
    StatusView { code: StatusCode::AlreadyExists, message: "volume "@ + volume_id + " already exists"@ }
}

/// The registry and the answer after the mount of `v` ended with `outcome`.
/// A mounted volume is registered only where its id is still free; an entry
/// that is there by then is never replaced, and is answered as at planning: a
/// repeat of the same volume succeeds, another volume is refused.
pub open spec fn after_mount(m: VolumesView, v: VolumeView, outcome: Result<(), K8sCSIXetFSError>) -> (VolumesView, Result<(), StatusView>) {
    match outcome {
        Ok(_) => if !m.contains_key(v.volume_id) {
            (m.insert(v.volume_id, v), Ok(()))
        } else if m[v.volume_id] == v {
            (m, Ok(()))
        } else {
            (m, Err(already_exists_status(v.volume_id)))
        },
        Err(e) => (m, Err(StatusView { code: StatusCode::Internal, message: error_message(e) })),
    }
}

/// Mathematical model of a [`PendingUnpublish`]: the volume id and the path to unmount.
pub struct UnmountView {
    pub volume_id: Seq<char>,
    pub path: Seq<char>,
}

/// What an unpublish request for `volume_id` leads to, given the registry `m`.
pub open spec fn unpublish_decision(m: VolumesView, volume_id: Seq<char>) -> Result<UnmountView, StatusView> {
    if m.contains_key(volume_id) {
        Ok(UnmountView { volume_id, path: m[volume_id].path })
    } else {
        Err(StatusView {
            code: StatusCode::NotFound,
            message: "volume with volume id "@ + volume_id + " not found"@,
        })
    }
}

/// The registry and the answer after the unmount of `volume_id` ended with `outcome`.
pub open spec fn after_unmount(m: VolumesView, volume_id: Seq<char>, outcome: Result<(), K8sCSIXetFSError>) -> (VolumesView, Result<(), StatusView>) {
    match outcome {
        Ok(_) => (m.remove(volume_id), Ok(())),
        Err(e) => (m, Err(StatusView { code: StatusCode::Internal, message: error_message(e) })),
    }
}

/// The view of an answer that carries nothing on success.
pub open spec fn unit_result_view(r: Result<(), CsiStatus>) -> Result<(), StatusView> {
    match r {
        Ok(_) => Ok(()),
        Err(e) => Err(e@),
    }
}

/// A valid volume that is to be mounted before it is registered.
pub struct PendingPublish {
    volume: XetCSIVolume,
}

impl View for PendingPublish {
    type V = VolumeView;

    closed spec fn view(&self) -> VolumeView {
        self.volume@
    }
}

impl PendingPublish {
    #[verifier::type_invariant]
    spec fn inv(self) -> bool {
        self.volume@.valid()
    }

    /// The volume to mount.
    pub fn volume(&self) -> (v: &XetCSIVolume)
        ensures
            v@ == self@,
            v@.valid(),
    {
        proof { use_type_invariant(self); }
        &self.volume
    }
}

/// What to do for a publish request that was not refused.
pub enum PublishPlan {
    /// The same volume is already published: nothing to do.
    AlreadyPublished,
    /// Mount the volume, then hand the outcome to `finish_publish`.
    Mount(PendingPublish),
}

/// The view of a publish plan or of the status that refused the request.
pub open spec fn plan_result_view(r: Result<PublishPlan, CsiStatus>) -> Result<PublishPlanView, StatusView> {
    match r {
        Ok(PublishPlan::AlreadyPublished) => Ok(PublishPlanView::AlreadyPublished),
        Ok(PublishPlan::Mount(p)) => Ok(PublishPlanView::Mount(p@)),
        Err(e) => Err(e@),
    }
}

/// A published volume that is to be unmounted before it is removed.
pub struct PendingUnpublish {
    volume_id: String,
    path: String,
}

impl View for PendingUnpublish {
    type V = UnmountView;

    closed spec fn view(&self) -> UnmountView {
        UnmountView { volume_id: self.volume_id@, path: self.path@ }
    }
}

impl PendingUnpublish {
    /// The id of the volume to remove.
    pub fn volume_id(&self) -> (s: &str)
        ensures
            s@ == self@.volume_id,
    {
        self.volume_id.as_str()
    }

    /// The path to unmount.
    pub fn path(&self) -> (s: &str)
        ensures
            s@ == self@.path,
    {
        self.path.as_str()
    }
}

/// The view of an unmount plan or of the status that refused the request.
pub open spec fn unmount_result_view(r: Result<PendingUnpublish, CsiStatus>) -> Result<UnmountView, StatusView> {
    match r {
        Ok(p) => Ok(p@),
        Err(e) => Err(e@),
    }
}

/// Refuses a volume under an id that holds another volume.
fn already_exists(volume_id: &str) -> (s: CsiStatus)
    ensures
        s@ == already_exists_status(volume_id@),
{
    let mut message = concat_str("volume ", volume_id);
    message.append(" already exists");
    CsiStatus::already_exists(message)
}

/// The view of a map of volumes.
pub open spec fn volumes_view(m: StringHashMap<XetCSIVolume>) -> VolumesView {
    m@.map_values(|v: XetCSIVolume| v@)
}

fn empty_volumes() -> (m: StringHashMap<XetCSIVolume>)
    ensures
        volumes_view(m) == Map::<Seq<char>, VolumeView>::empty(),
        registry_wf(volumes_view(m)),
{
    let m = StringHashMap::new();
    assert(volumes_view(m) =~= Map::<Seq<char>, VolumeView>::empty());
    m
}

/// The volumes that this node has published, by volume id.
pub struct XetHubCSIDriver {
    volumes: StringHashMap<XetCSIVolume>,
}

impl View for XetHubCSIDriver {
    type V = VolumesView;

    closed spec fn view(&self) -> VolumesView {
        self.volumes@.map_values(|v: XetCSIVolume| v@)
    }
}

impl XetHubCSIDriver {
    #[verifier::type_invariant]
    spec fn inv(self) -> bool {
        registry_wf(self@)
    }

    /// A driver with no published volume.
    pub fn new() -> (d: XetHubCSIDriver)
        ensures
            d@ == Map::<Seq<char>, VolumeView>::empty(),
            registry_wf(d@),
    {
        let d = XetHubCSIDriver { volumes: empty_volumes() };
        assert(d@ =~= Map::<Seq<char>, VolumeView>::empty());
        d
    }

    /// The published volume with the given id, if any.
    pub fn get(&self, volume_id: &str) -> (v: Option<&XetCSIVolume>)
        ensures
            match v {
                Some(v) => self@.contains_key(volume_id@) && v@ == self@[volume_id@],
                None => !self@.contains_key(volume_id@),
            },
    {
        self.volumes.get(volume_id)
    }

    /// The number of published volumes.
    pub fn len(&self) -> (n: usize)
        ensures
            n == self@.len(),
    {
        broadcast use vstd::hash_map::group_hash_map_axioms;
        assert(self.volumes@.dom() =~= self@.dom());
        self.volumes.len()
    }

    /// Decides a publish request: refuse an invalid volume, accept a repeat of a
    /// published one, refuse another volume under a published id, else mount.
    pub fn begin_publish(&self, volume_spec: XetCSIVolume) -> (res: Result<PublishPlan, CsiStatus>)
        ensures
            plan_result_view(res) == publish_decision(self@, volume_spec@),
    {
        if !volume_spec.validate() {
            return Err(CsiStatus::invalid_argument("invalid volume spec".to_owned()));
        }
        match self.volumes.get(volume_spec.volume_id.as_str()) {
            Some(volume) => {
                if volume_spec == *volume {
                    Ok(PublishPlan::AlreadyPublished)
                } else {
                    Err(already_exists(volume_spec.volume_id.as_str()))
                }
            },
            None => Ok(PublishPlan::Mount(PendingPublish { volume: volume_spec })),
        }
    }

    /// Registers the volume once it is mounted; answers `Internal` with the
    /// error's text where the mount failed, and then registers nothing.
    pub fn finish_publish(&mut self, pending: PendingPublish, outcome: Result<(), K8sCSIXetFSError>) -> (res: Result<(), CsiStatus>)
        ensures
            (final(self)@, unit_result_view(res)) == after_mount(old(self)@, pending@, outcome),
            registry_wf(final(self)@),
            forall|k: Seq<char>| #[trigger] old(self)@.contains_key(k)
                ==> final(self)@.contains_key(k) && final(self)@[k] == old(self)@[k],
    {
        proof {
            use_type_invariant(&*self);
            use_type_invariant(&pending);
        }
        match outcome {
            Ok(()) => {
                let volume = pending.volume;
                match self.volumes.get(volume.volume_id.as_str()) {
                    Some(existing) => {
                        if volume == *existing {
                            return Ok(());
                        } else {
                            return Err(already_exists(volume.volume_id.as_str()));
                        }
                    },
                    None => {},
                }
                let mut volumes = empty_volumes();
                std::mem::swap(&mut volumes, &mut self.volumes);
                let ghost before = volumes@;
                let key = volume.volume_id.clone();
                volumes.insert(key, volume);
                assert(volumes@.map_values(|v: XetCSIVolume| v@) =~= before.map_values(|v: XetCSIVolume| v@).insert(volume@.volume_id, volume@));
                self.volumes = volumes;
                Ok(())
            },
            Err(e) => Err(CsiStatus::internal(e.message())),
        }
    }

    /// Decides an unpublish request: refuse an unknown volume id, else unmount
    /// the path that the volume was published at.
    pub fn begin_unpublish(&self, volume_id: &str) -> (res: Result<PendingUnpublish, CsiStatus>)
        ensures
            unmount_result_view(res) == unpublish_decision(self@, volume_id@),
    {
        match self.volumes.get(volume_id) {
            Some(volume) => Ok(PendingUnpublish { volume_id: volume_id.to_owned(), path: volume.path.clone() }),
            None => {
                let mut message = concat_str("volume with volume id ", volume_id);
                message.append(" not found");
                Err(CsiStatus::not_found(message))
            },
        }
    }

    /// Removes the volume once it is unmounted; answers `Internal` with the
    /// error's text where the unmount failed, and then removes nothing.
    pub fn finish_unpublish(&mut self, pending: PendingUnpublish, outcome: Result<(), K8sCSIXetFSError>) -> (res: Result<(), CsiStatus>)
        ensures
            (final(self)@, unit_result_view(res)) == after_unmount(old(self)@, pending@.volume_id, outcome),
            registry_wf(final(self)@),
    {
        proof {
            use_type_invariant(&*self);
        }
        match outcome {
            Ok(()) => {
                let mut volumes = empty_volumes();
                std::mem::swap(&mut volumes, &mut self.volumes);
                let ghost before = volumes@;
                volumes.remove(pending.volume_id.as_str());
                assert(volumes@.map_values(|v: XetCSIVolume| v@) =~= before.map_values(|v: XetCSIVolume| v@).remove(pending@.volume_id));
                self.volumes = volumes;
                Ok(())
            },
            Err(e) => Err(CsiStatus::internal(e.message())),
        }
    }
}

} // verus!
