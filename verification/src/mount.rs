//! The commands that mount a volume with `git-xet` and unmount it, and how
//! their outcome is judged.

use vstd::prelude::*;
use crate::error::{K8sCSIXetFSError, concat_str};
use crate::volume::{XetCSIVolume, VolumeView};

verus! {

/// Program that mounts a XetHub repository.
pub const GIT_XET_BIN: &'static str = "git-xet";
/// Subcommand of `git-xet` that mounts a repository.
pub const GIT_XET_MOUNT_SUBCOMMAND: &'static str = "mount";
/// Flag of `git-xet mount` that names the commit or branch.
pub const GIT_XET_MOUNT_REF_FLAG: &'static str = "-r";
/// Environment variable that carries the user name to `git-xet`.
pub const GIT_XET_ENV_VAR_USER_NAME: &'static str = "XET_USER_NAME";
/// Environment variable that carries the access token to `git-xet`.
pub const GIT_XET_ENV_VAR_USER_TOKEN: &'static str = "XET_USER_TOKEN";
/// Environment variable that sets the log level of `git-xet`.
pub const GIT_XET_ENV_VAR_LOG_LEVEL: &'static str = "XET_LOG_LEVEL";
/// Environment variable that names the CAS server to `git-xet`.
pub const GIT_XET_ENV_VAR_CAS_SERVER: &'static str = "XET_CAS_SERVER";
/// Program that unmounts a path.
pub const UMOUNT_BIN: &'static str = "umount";

/// Mathematical model of a [`CommandSpec`].
pub struct CommandView {
    pub program: Seq<char>,
    pub args: Seq<Seq<char>>,
    pub envs: Seq<(Seq<char>, Seq<char>)>,
}

/// A program to run, with its arguments and the environment variables to set.
///
/// It has no `Debug` form, since its environment may carry an access token.
#[derive(Clone)]
pub struct CommandSpec {
    pub program: String,
    pub args: Vec<String>,
    pub envs: Vec<(String, String)>,
}

impl View for CommandSpec {
    type V = CommandView;

    open spec fn view(&self) -> CommandView {
        CommandView {
            program: self.program@,
            args: self.args@.map_values(|s: String| s@),
            envs: self.envs@.map_values(|p: (String, String)| (p.0@, p.1@)),
        }
    }
}

/// The `git-xet` command that mounts volume `v`: `git-xet mount -r <commit>
/// <repo> <path>`, logging at level `info`, with the credentials where both
/// user and token are given, and with the CAS server where one is given.
pub open spec fn git_xet_mount_command(v: VolumeView) -> CommandView {
    CommandView {
        program: "git-xet"@,
        args: seq!["mount"@, "-r"@, v.commit, v.repo, v.path],
        envs: seq![("XET_LOG_LEVEL"@, "info"@)]
            + (if v.user.len() > 0 && v.pat.len() > 0 {
                seq![("XET_USER_NAME"@, v.user), ("XET_USER_TOKEN"@, v.pat)]
            } else {
                Seq::empty()
            })
            + (match v.cas {
                Some(cas) => seq![("XET_CAS_SERVER"@, cas)],
                None => Seq::empty(),
            }),
    }
}

/// The command that unmounts `path`: `umount <path>`.
pub open spec fn umount_command(path: Seq<char>) -> CommandView {
    CommandView { program: "umount"@, args: seq![path], envs: Seq::empty() }
}

/// The error that an unmount ends with: none when the command succeeded, else
/// one that quotes the exit status.
pub open spec fn umount_outcome(success: bool, exit_status: Seq<char>) -> Result<(), Seq<char>> {
    if success {
        Ok(())
    } else {
        Err("umount existed with status code: "@ + exit_status)
    }
}

/// Mounts volumes with the `git-xet` command line.
#[derive(Debug, Clone, Copy)]
pub struct GitXetMounter;

impl GitXetMounter {
    /// The command that mounts `volume_spec`.
    pub fn mount(&self, volume_spec: &XetCSIVolume) -> (cmd: CommandSpec)
        ensures
            cmd@ == git_xet_mount_command(volume_spec@),
    {
        let mut args: Vec<String> = Vec::new();
        args.push(GIT_XET_MOUNT_SUBCOMMAND.to_owned());
        args.push(GIT_XET_MOUNT_REF_FLAG.to_owned());
        args.push(volume_spec.commit.clone());
        args.push(volume_spec.repo.clone());
        args.push(volume_spec.path.clone());
        let mut envs: Vec<(String, String)> = Vec::new();
        envs.push((GIT_XET_ENV_VAR_LOG_LEVEL.to_owned(), "info".to_owned()));
        let ghost base = envs@.map_values(|p: (String, String)| (p.0@, p.1@));
        if !volume_spec.user.as_str().is_empty() && !volume_spec.pat.as_str().is_empty() {
            envs.push((GIT_XET_ENV_VAR_USER_NAME.to_owned(), volume_spec.user.clone()));
            envs.push((GIT_XET_ENV_VAR_USER_TOKEN.to_owned(), volume_spec.pat.clone()));
        }
        let ghost with_user = envs@.map_values(|p: (String, String)| (p.0@, p.1@));
        match &volume_spec.cas {
            Some(cas) => {
                envs.push((GIT_XET_ENV_VAR_CAS_SERVER.to_owned(), cas.clone()));
            },
            None => {},
        }
        let cmd = CommandSpec { program: GIT_XET_BIN.to_owned(), args, envs };
        let ghost spec_cmd = git_xet_mount_command(volume_spec@);
        assert(cmd@.args =~= spec_cmd.args);
        assert(cmd@.envs =~= spec_cmd.envs);
        cmd
    }

    /// The command that unmounts `path`.
    pub fn unmount(&self, path: &str) -> (cmd: CommandSpec)
        ensures
            cmd@ == umount_command(path@),
    {
        let mut args: Vec<String> = Vec::new();
        args.push(path.to_owned());
        let envs: Vec<(String, String)> = Vec::new();
        let cmd = CommandSpec { program: UMOUNT_BIN.to_owned(), args, envs };
        assert(cmd@.args =~= umount_command(path@).args);
        assert(cmd@.envs =~= umount_command(path@).envs);
        cmd
    }

    /// Judges an unmount by whether its command succeeded; `exit_status` is
    /// the text of the command's exit status.
    pub fn unmount_result(&self, success: bool, exit_status: &str) -> (res: Result<(), K8sCSIXetFSError>)
        ensures
            match (res, umount_outcome(success, exit_status@)) {
                (Ok(_), Ok(_)) => true,
                (Err(K8sCSIXetFSError::GenericError(m)), Err(t)) => m@ == t,
                _ => false,
            },
    {
        if !success {
            return Err(K8sCSIXetFSError::GenericError(concat_str("umount existed with status code: ", exit_status)));
        }
        Ok(())
    }
}

} // verus!
