//! A small container runtime, as a library of decisions: paths and image
//! ids, the runtime configuration, and the ordered system operations that
//! pull an image, create a container and run a process inside fresh
//! namespaces. The operations are values; a caller carries them out.

pub mod action;
pub mod client;
pub mod command;
pub mod config_json;
pub mod container;
pub mod container_manager;
pub mod daemon;
pub mod document;
pub mod error;
pub mod files;
pub mod image;
pub mod image_manager;
pub mod json;
pub mod networking;
pub mod pattern;
pub mod random;
pub mod runtime_spec;
pub mod text;
pub mod theorems;
pub mod utils;

use vstd::prelude::*;

verus! {

/// What a plain run needs: the root of a file system and a command.
#[derive(Clone, Debug, PartialEq, Eq)]
pub struct Config {
    pub root_filesystem: String,
    pub command: String,
}

/// What `Config::new` says where it refuses its arguments.
pub open spec fn config_refusal(rootfs: Option<Seq<char>>, exists: bool, cmd: Option<Seq<char>>) -> Option<
    Seq<char>,
> {
    match rootfs {
        None => Some("invalid root path"@),
        Some(path) => if !exists {
            Some("root path '"@ + path + "' doesn't exist"@)
        } else if cmd is None {
            Some("invalid command"@)
        } else {
            None
        },
    }
}

impl Config {
    /// The configuration with the root `rootfs` and the command `cmd`.
    /// `exists` says whether the root is there. A missing argument and a
    /// root that is not there are refused, each in its own words.
    pub fn new(rootfs: Option<&str>, exists: bool, cmd: Option<&str>) -> (r: Result<
        Config,
        String,
    >)
        ensures
            match config_refusal(rootfs.deep_view(), exists, cmd.deep_view()) {
                Some(words) => r matches Err(e) && e@ == words,
                None => r matches Ok(c) && Some(c.root_filesystem@) == rootfs.deep_view() && Some(
                    c.command@,
                ) == cmd.deep_view(),
            },
    {
        let path = match rootfs {
            Some(path) => path,
            None => {
                return Err(String::from_str("invalid root path"));
            },
        };
        if !exists {
            let mut words = String::from_str("root path '");
            words.append(path);
            words.append("' doesn't exist");
            return Err(words);
        }
        let command = match cmd {
            Some(command) => command,
            None => {
                return Err(String::from_str("invalid command"));
            },
        };
        Ok(Config { root_filesystem: String::from_str(path), command: String::from_str(command) })
    }
}

/// A process to start, and who starts it.
#[derive(Clone, Debug, PartialEq, Eq)]
pub struct Process {
    pub cmd: Vec<String>,
    pub host_uid: u32,
    pub host_gid: u32,
    pub cwd: String,
    pub become_daemon: bool,
    pub env: Vec<String>,
}

impl Process {
    /// The process `cmd` in the directory `cwd` with the environment `env`,
    /// started by the user `host_uid` and the group `host_gid` of the host.
    pub fn new(
        cmd: Vec<String>,
        cwd: String,
        become_daemon: bool,
        env: Vec<String>,
        host_uid: u32,
        host_gid: u32,
    ) -> (r: Process)
        ensures
            r == (Process { cmd, host_uid, host_gid, cwd, become_daemon, env }),
    {
        Process { cwd, env, become_daemon, cmd, host_uid, host_gid }
    }
}

} // verus!
