//! The volume that a publish request asks for, and how it is read out of the request.

use vstd::prelude::*;
use vstd::hash_map::StringHashMap;
use vstd::std_specs::cmp::PartialEqSpecImpl;
use crate::status::{CsiStatus, StatusCode, StatusView};

verus! {

/// Key of the repository URL in a publish request's volume context.
pub const VOLUME_CONTEXT_REPO_KEY: &'static str = "repo";
/// Key of the commit or branch in a publish request's volume context.
pub const VOLUME_CONTEXT_COMMIT_KEY: &'static str = "commit";
/// Key of the optional CAS server in a publish request's volume context.
pub const VOLUME_CONTEXT_CAS_KEY: &'static str = "cas";
/// Key of the user name in a publish request's secrets.
pub const SECRETS_USER_KEY: &'static str = "user";
/// Key of the personal access token in a publish request's secrets.
pub const SECRETS_PAT_KEY: &'static str = "pat";

/// Mathematical model of a [`XetCSIVolume`].
pub struct VolumeView {
    pub volume_id: Seq<char>,
    pub path: Seq<char>,
    pub repo: Seq<char>,
    pub commit: Seq<char>,
    pub user: Seq<char>,
    pub pat: Seq<char>,
    pub cas: Option<Seq<char>>,
}

impl VolumeView {
    /// A volume can be published only when it names a target path, an id, a
    /// commit and a repository.
    pub open spec fn valid(self) -> bool {
        &&& self.path.len() > 0
        &&& self.volume_id.len() > 0
        &&& self.commit.len() > 0
        &&& self.repo.len() > 0
    }
}

pub open spec fn opt_string_view(s: Option<String>) -> Option<Seq<char>> {
    match s {
        Some(t) => Some(t@),
        None => None,
    }
}

/// A XetHub repository volume to be mounted at a target path on the node.
///
/// It has no `Debug` form, so that the user name and access token it carries
/// are never printed.
#[derive(Clone)]
pub struct XetCSIVolume {
    pub volume_id: String,
    pub path: String,
    pub repo: String,
    pub commit: String,
    pub user: String,
    pub pat: String,
    pub cas: Option<String>,
}

impl View for XetCSIVolume {
    type V = VolumeView;

    open spec fn view(&self) -> VolumeView {
        VolumeView {
            volume_id: self.volume_id@,
            path: self.path@,
            repo: self.repo@,
            commit: self.commit@,
            user: self.user@,
            pat: self.pat@,
            cas: opt_string_view(self.cas),
        }
    }
}

fn opt_string_eq(a: &Option<String>, b: &Option<String>) -> (r: bool)
    ensures
        r == (opt_string_view(*a) == opt_string_view(*b)),
{
    match (a, b) {
        (Some(x), Some(y)) => *x == *y,
        (None, None) => true,
        _ => false,
    }
}

impl PartialEq for XetCSIVolume {
    fn eq(&self, other: &Self) -> (r: bool) {
        self.volume_id == other.volume_id && self.path == other.path && self.repo == other.repo
            && self.commit == other.commit && self.user == other.user && self.pat == other.pat
            && opt_string_eq(&self.cas, &other.cas)
    }
}

impl PartialEqSpecImpl for XetCSIVolume {
    open spec fn obeys_eq_spec() -> bool {
        true
    }

    open spec fn eq_spec(&self, other: &Self) -> bool {
        self@ == other@
    }
}

impl Default for XetCSIVolume {
    /// A volume whose fields are all empty, with no CAS server.
    fn default() -> (v: XetCSIVolume)
        ensures
            v@ == (VolumeView {
                volume_id: Seq::empty(),
                path: Seq::empty(),
                repo: Seq::empty(),
                commit: Seq::empty(),
                user: Seq::empty(),
                pat: Seq::empty(),
                cas: None,
            }),
    {
        XetCSIVolume {
            volume_id: String::new(),
            path: String::new(),
            repo: String::new(),
            commit: String::new(),
            user: String::new(),
            pat: String::new(),
            cas: None,
        }
    }
}

impl XetCSIVolume {
    /// Whether the volume names a target path, an id, a commit and a repository.
    pub fn validate(&self) -> (b: bool)
        ensures
            b == self@.valid(),
    {
        !self.path.as_str().is_empty() && !self.volume_id.as_str().is_empty()
            && !self.commit.as_str().is_empty() && !self.repo.as_str().is_empty()
    }
}

/// Builds a volume from its id, repository, commit and target path, with no
/// credentials and no CAS server.
pub fn spec(volume_id: &str, repo: &str, commit: &str, path: &str) -> (v: XetCSIVolume)
    ensures
        v@ == (VolumeView {
            volume_id: volume_id@,
            path: path@,
            repo: repo@,
            commit: commit@,
            user: Seq::empty(),
            pat: Seq::empty(),
            cas: None,
        }),
{
    XetCSIVolume {
        volume_id: volume_id.to_owned(),
        path: path.to_owned(),
        repo: repo.to_owned(),
        commit: commit.to_owned(),
        user: String::new(),
        pat: String::new(),
        cas: None,
    }
}

/// The view of a map from strings to strings.
pub open spec fn string_map_view(m: StringHashMap<String>) -> Map<Seq<char>, Seq<char>> {
    m@.map_values(|s: String| s@)
}

/// Mathematical model of a [`NodePublishVolumeRequest`].
pub struct PublishRequestView {
    pub volume_id: Seq<char>,
    pub target_path: Seq<char>,
    pub volume_context: Map<Seq<char>, Seq<char>>,
    pub secrets: Map<Seq<char>, Seq<char>>,
}

/// The parts of a CSI `NodePublishVolume` request that this plugin reads.
pub struct NodePublishVolumeRequest {
    pub volume_id: String,
    pub target_path: String,
    pub volume_context: StringHashMap<String>,
    pub secrets: StringHashMap<String>,
}

impl View for NodePublishVolumeRequest {
    type V = PublishRequestView;

    open spec fn view(&self) -> PublishRequestView {
        PublishRequestView {
            volume_id: self.volume_id@,
            target_path: self.target_path@,
            volume_context: string_map_view(self.volume_context),
            secrets: string_map_view(self.secrets),
        }
    }
}

impl NodePublishVolumeRequest {
    /// A request for the given volume and target path, with an empty volume
    /// context and no secrets.
    pub fn new(volume_id: String, target_path: String) -> (r: NodePublishVolumeRequest)
        ensures
            r@ == (PublishRequestView {
                volume_id: volume_id@,
                target_path: target_path@,
                volume_context: Map::empty(),
                secrets: Map::empty(),
            }),
    {
        let r = NodePublishVolumeRequest {
            volume_id,
            target_path,
            volume_context: StringHashMap::new(),
            secrets: StringHashMap::new(),
        };
        assert(string_map_view(r.volume_context) =~= Map::empty());
        assert(string_map_view(r.secrets) =~= Map::empty());
        r
    }

    /// Sets an entry of the volume context.
    pub fn insert_volume_context(&mut self, key: String, value: String)
        ensures
            final(self)@ == (PublishRequestView {
                volume_context: old(self)@.volume_context.insert(key@, value@),
                ..old(self)@
            }),
    {
        self.volume_context.insert(key, value);
        assert(string_map_view(self.volume_context) =~= old(self)@.volume_context.insert(key@, value@));
    }

    /// Sets an entry of the secrets.
    pub fn insert_secret(&mut self, key: String, value: String)
        ensures
            final(self)@ == (PublishRequestView {
                secrets: old(self)@.secrets.insert(key@, value@),
                ..old(self)@
            }),
    {
        self.secrets.insert(key, value);
        assert(string_map_view(self.secrets) =~= old(self)@.secrets.insert(key@, value@));
    }
}

/// The value under `key`, or the empty string where there is none.
pub open spec fn value_or_empty(m: Map<Seq<char>, Seq<char>>, key: Seq<char>) -> Seq<char> {
    if m.contains_key(key) { m[key] } else { Seq::empty() }
}

/// The value under `key`, if any.
pub open spec fn value_if_any(m: Map<Seq<char>, Seq<char>>, key: Seq<char>) -> Option<Seq<char>> {
    if m.contains_key(key) { Some(m[key]) } else { None }
}

/// The volume that a publish request asks for: repository and commit are
/// required in the volume context; user and token in the secrets, and the CAS
/// server in the volume context, are optional.
pub open spec fn volume_of_request(r: PublishRequestView) -> Result<VolumeView, StatusView> {
    if !r.volume_context.contains_key("repo"@) {
        Err(StatusView { code: StatusCode::InvalidArgument, message: "missing repo in volume context"@ })
    } else if !r.volume_context.contains_key("commit"@) {
        Err(StatusView { code: StatusCode::InvalidArgument, message: "missing commit in volume context"@ })
    } else {
        Ok(VolumeView {
            volume_id: r.volume_id,
            path: r.target_path,
            repo: r.volume_context["repo"@],
            commit: r.volume_context["commit"@],
            user: value_or_empty(r.secrets, "user"@),
            pat: value_or_empty(r.secrets, "pat"@),
            cas: value_if_any(r.volume_context, "cas"@),
        })
    }
}

/// The view of the outcome of reading a volume out of a request.
pub open spec fn volume_result_view(res: Result<XetCSIVolume, CsiStatus>) -> Result<VolumeView, StatusView> {
    match res {
        Ok(v) => Ok(v@),
        Err(e) => Err(e@),
    }
}

fn string_value_or_empty(m: &StringHashMap<String>, key: &str) -> (s: String)
    ensures
        s@ == value_or_empty(string_map_view(*m), key@),
{
    match m.get(key) {
        Some(v) => v.clone(),
        None => String::new(),
    }
}

fn string_value_if_any(m: &StringHashMap<String>, key: &str) -> (s: Option<String>)
    ensures
        opt_string_view(s) == value_if_any(string_map_view(*m), key@),
{
    match m.get(key) {
        Some(v) => Some(v.clone()),
        None => None,
    }
}

impl XetCSIVolume {
    /// Reads the requested volume out of a publish request.
    pub fn try_from(value: NodePublishVolumeRequest) -> (res: Result<XetCSIVolume, CsiStatus>)
        ensures
            volume_result_view(res) == volume_of_request(value@),
    {
        let repo = match value.volume_context.get(VOLUME_CONTEXT_REPO_KEY) {
            Some(repo) => repo.clone(),
            None => {
                return Err(CsiStatus::invalid_argument("missing repo in volume context".to_owned()));
            },
        };
        let commit = match value.volume_context.get(VOLUME_CONTEXT_COMMIT_KEY) {
            Some(commit) => commit.clone(),
            None => {
                return Err(CsiStatus::invalid_argument("missing commit in volume context".to_owned()));
            },
        };
        let user = string_value_or_empty(&value.secrets, SECRETS_USER_KEY);
        let pat = string_value_or_empty(&value.secrets, SECRETS_PAT_KEY);
        let cas = string_value_if_any(&value.volume_context, VOLUME_CONTEXT_CAS_KEY);
        Ok(XetCSIVolume {
            volume_id: value.volume_id,
            path: value.target_path,
            repo,
            commit,
            user,
            pat,
            cas,
        })
    }
}

} // verus!
