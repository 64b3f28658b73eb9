//! The daemon: one process that takes commands over a socket, one client
//! at a time.

use vstd::prelude::*;
use crate::action::{push_action, Action, ActionView};
use crate::command::{parsed_opt, run_command, Command, Opt};
use crate::container_manager::ContainerManager;
use crate::error::Failure;
use crate::image_manager::ImageManager;
use crate::text::{i64_to_decimal, signed_decimal};
use crate::utils::socket_path;

verus! {

/// The daemon.
pub struct Daemon {
    /// The socket on which the daemon listens.
    pub socket_path: String,
    pub image_manager: ImageManager,
    pub container_manager: ContainerManager,
}

/// The file that names the process of the daemon.
pub open spec fn daemon_pid_path() -> Seq<char> {
    "/var/lib/minato/pid"@
}

/// The most that a client writes of a command, in bytes.
pub const MESSAGE_LIMIT: usize = 1024;

impl Daemon {
    /// A daemon on the socket `socket` below the state root.
    pub fn new() -> (r: Result<Daemon, Failure>)
        ensures
            r matches Ok(daemon) && daemon.socket_path@ == socket_path("socket"@),
    {
        let mut path = String::from_str("/var/lib/minato/");
        path.append("socket");
        Ok(
            Daemon {
                socket_path: path,
                image_manager: ImageManager::new(),
                container_manager: ContainerManager::new(),
            },
        )
    }

    /// What is due before the daemon binds its socket: a socket file left
    /// behind is removed.
    pub fn create_socket(socket_path: String) -> (r: Vec<Action>)
        ensures
            r.deep_view() == seq![ActionView::RemoveFile { path: socket_path@ }],
    {
        let mut plan: Vec<Action> = Vec::new();
        push_action(&mut plan, Action::RemoveFile { path: socket_path });
        assert(plan.deep_view() =~= seq![ActionView::RemoveFile { path: socket_path@ }]);
        plan
    }

    /// What `start` asks for before the daemon, the process `pid`, waits
    /// for clients: its pid file written anew.
    pub open spec fn start_plan(pid: i32) -> Seq<ActionView> {
        seq![
            ActionView::RemoveFile { path: daemon_pid_path() },
            ActionView::WriteFile {
                path: daemon_pid_path(),
                data: signed_decimal(pid as int) + "\n"@,
            },
        ]
    }

    /// Start the daemon, the process `pid`.
    pub fn start(&self, pid: i32) -> (r: Vec<Action>)
        ensures
            r.deep_view() == Self::start_plan(pid),
    {
        let mut line = i64_to_decimal(pid as i64);
        line.append("\n");
        let mut plan: Vec<Action> = Vec::new();
        push_action(&mut plan, Action::RemoveFile { path: String::from_str("/var/lib/minato/pid") });
        push_action(
            &mut plan,
            Action::WriteFile { path: String::from_str("/var/lib/minato/pid"), data: line },
        );
        assert(plan.deep_view() =~= Self::start_plan(pid));
        plan
    }

    /// What is due when the daemon stops waiting for clients: its pid file
    /// removed.
    pub fn finish(&self) -> (r: Vec<Action>)
        ensures
            r.deep_view() == seq![ActionView::RemoveFile { path: daemon_pid_path() }],
    {
        let mut plan: Vec<Action> = Vec::new();
        push_action(&mut plan, Action::RemoveFile { path: String::from_str("/var/lib/minato/pid") });
        assert(plan.deep_view() =~= seq![ActionView::RemoveFile { path: daemon_pid_path() }]);
        plan
    }

    /// The command that a client's message asks for. A message that is no
    /// call is refused; a call that tells the daemon to stop gives
    /// `DaemonExit`, and one without a command is refused too.
    pub fn handle_client(&self, message: &str) -> (r: Result<Command, Failure>)
        ensures
            match parsed_opt(message@) {
                Err(e) => r == Err::<Command, Failure>(e),
                Ok(opt) => if opt.exit {
                    r == Err::<Command, Failure>(Failure::DaemonExit)
                } else {
                    match opt.subcommand {
                        None => r == Err::<Command, Failure>(Failure::NoSubcommand),
                        Some(subcommand) => r matches Ok(c) && c.daemon == opt.daemon
                            && c.subcommand.deep_view() == subcommand,
                    }
                },
            },
    {
        let opt = match Opt::from_str(message) {
            Ok(opt) => opt,
            Err(e) => {
                return Err(e);
            },
        };
        if opt.exit {
            return Err(Failure::DaemonExit);
        }
        run_command(opt)
    }

    /// What the daemon answers once a command is done.
    pub fn reply() -> (r: &'static str)
        ensures
            r@ == "OK"@,
    {
        "OK"
    }

    /// Whether the daemon goes on to wait for the next client: it does as
    /// long as a client's command ended well.
    pub fn goes_on(outcome: &Result<(), Failure>) -> (r: bool)
        ensures
            r == (outcome is Ok),
    {
        outcome.is_ok()
    }
}

} // verus!
