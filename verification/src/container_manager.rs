//! The commands on containers: create, run, open, stop, list and delete.

use vstd::prelude::*;
use crate::action::{push_action, Action, ActionView, Fork, NamespaceType, Plan, Words};
use crate::container::{Container, Network};
use crate::error::Failure;
use crate::image::Image;
use crate::text::{pad_right, padded, parse_i32, parsed_i32, remove_char, without_char};
use crate::utils::container_path;

verus! {

/// The entry point of the commands on containers.
pub struct ContainerManager {
    container_list: Vec<Container>,
}

/// A stored container, and the process id in its pid file where it has one.
#[derive(Clone, Debug, PartialEq, Eq)]
pub struct Entry {
    pub container: Container,
    pub pid: Option<String>,
}

/// A run that may begin: the container, whether it runs as a daemon, and
/// the network it gets.
#[derive(Clone, Debug, PartialEq, Eq)]
pub struct Launch {
    pub container: Container,
    pub daemon: bool,
    pub network: Option<Network>,
}

/// The kinds of namespace in the order in which `open` enters them. The
/// order is fixed, so that the plan of `open` is the same at every call.
pub open spec fn entered_kinds() -> Seq<NamespaceType> {
    seq![
        NamespaceType::Ipc,
        NamespaceType::Uts,
        NamespaceType::Network,
        NamespaceType::Pid,
        NamespaceType::Mount,
        NamespaceType::Cgroup,
        NamespaceType::User,
    ]
}

/// The name of the file that stands for a namespace of the kind `kind`.
pub open spec fn namespace_file(kind: NamespaceType) -> Seq<char> {
    match kind {
        NamespaceType::Pid => "pid"@,
        NamespaceType::Mount => "mnt"@,
        NamespaceType::Uts => "uts"@,
        NamespaceType::Ipc => "ipc"@,
        NamespaceType::User => "user"@,
        NamespaceType::Cgroup => "cgroup"@,
        NamespaceType::Network => "net"@,
    }
}

/// The entry into the namespace of the kind `kind` of the process `pid`.
pub open spec fn enter(pid: Seq<char>, kind: NamespaceType) -> ActionView {
    ActionView::EnterNamespace {
        path: "/proc/"@ + pid + "/ns/"@ + namespace_file(kind),
        kind,
    }
}

/// What `open` asks for: the entry into every namespace of the process `pid`.
pub open spec fn open_plan(pid: Seq<char>) -> Seq<ActionView> {
    Seq::new(entered_kinds().len(), |i: int| enter(pid, entered_kinds()[i]))
}

/// The shell that `open` starts inside the container.
pub open spec fn shell() -> ActionView {
    ActionView::Exec {
        path: "/bin/sh"@,
        args: seq!["sh"@],
        env: seq![
            "PATH=/bin:/sbin:/usr/bin:/usr/sbin:/usr/local/bin"@,
            "TERM=xterm-256color"@,
            "LC_ALL=C"@,
        ],
        search: false,
    }
}

/// One row of the list of containers: the process id in a column of 10
/// characters, the id and the image in columns of 30, and the path.
pub open spec fn container_row(
    pid: Seq<char>,
    id: Seq<char>,
    image: Seq<char>,
    path: Seq<char>,
) -> Seq<char> {
    padded(pid, 10) + " "@ + padded(id, 30) + " "@ + padded(image, 30) + " "@ + path
}

/// The row of one stored container; a dash stands where it has no process
/// or no image.
pub open spec fn entry_row(entry: Entry) -> Seq<char> {
    container_row(
        match entry.pid {
            Some(pid) => pid@,
            None => "-"@,
        },
        entry.container.id@,
        match entry.container.image {
            Some(image) => image.id@,
            None => "-"@,
        },
        entry.container.path@,
    )
}

/// The list of `entries`: the titles of the columns, and a row for each container.
pub open spec fn container_list(entries: Seq<Entry>) -> Seq<ActionView> {
    seq![ActionView::Print { line: container_row("pid"@, "id"@, "image"@, "path"@) }] + Seq::new(
        entries.len(),
        |i: int| ActionView::Print { line: entry_row(entries[i]) },
    )
}

/// The network of a run: there is one where both addresses are given.
pub open spec fn network_of(host_ip: Option<String>, container_ip: Option<String>) -> Option<
    Network,
> {
    match (host_ip, container_ip) {
        (Some(host_ip), Some(container_ip)) => Some(Network { host_ip, container_ip }),
        _ => None,
    }
}

fn row(pid: &str, id: &str, image: &str, path: &str) -> (r: String)
    ensures
        r@ == container_row(pid@, id@, image@, path@),
{
    let mut line = pad_right(pid, 10);
    line.append(" ");
    line.append(pad_right(id, 30).as_str());
    line.append(" ");
    line.append(pad_right(image, 30).as_str());
    line.append(" ");
    line.append(path);
    line
}

impl ContainerManager {
    /// A manager that knows no container yet.
    pub fn new() -> (r: ContainerManager)
        ensures
            r.known()@.len() == 0,
    {
        ContainerManager { container_list: Vec::new() }
    }

    /// The containers that the manager knows.
    pub closed spec fn known(&self) -> Vec<Container> {
        self.container_list
    }

    /// Make the container `container_name` on `image`, the stored image
    /// that the command names, or nothing where there is no such image:
    /// then nothing is done, and that is reported. `exists` says whether
    /// the container's directory is there already: then nothing is done
    /// either. Else the new container comes with the plan that makes it.
    pub fn create(&self, container_name: &str, image: Option<Image>, exists: bool) -> (r: (
        Option<Container>,
        Plan,
    ))
        ensures
            r.1.cleanup@.len() == 0,
            image is None ==> r.0 is None && r.1.actions@.len() == 0 && r.1.issue == Some(
                Failure::ImageNotFound,
            ),
            image is Some ==> (r.0 matches Some(c) && c.is_new(container_name@, image) && (exists
                ==> r.1.actions@.len() == 0 && r.1.issue == Some(Failure::ContainerExists)) && (
            !exists ==> r.1.actions.deep_view() == c.create_plan(image.unwrap()) && r.1.issue
                is None)),
    {
        if image.is_none() {
            return (None, Plan::skip(Failure::ImageNotFound));
        }
        let container = Container::new(Some(container_name), image);
        let plan = container.create(exists);
        (Some(container), plan)
    }

    /// Decide whether the stored container may run. `container` is the
    /// container that the command names, or nothing where there is none;
    /// `running` says whether it has a pid file. A container that is not
    /// there or that runs already is not started, and that is reported.
    /// The run gets a network where both addresses are given. The volume
    /// is taken and has no effect.
    pub fn run(
        &self,
        container: Option<Container>,
        running: bool,
        daemon: bool,
        volume: Option<String>,
        host_ip: Option<String>,
        container_ip: Option<String>,
    ) -> (r: Result<Launch, Failure>)
        ensures
            container is None ==> r == Err::<Launch, Failure>(Failure::ContainerNotFound),
            container is Some && running ==> r == Err::<Launch, Failure>(Failure::AlreadyRunning),
            container is Some && !running ==> r == Ok::<Launch, Failure>(
                Launch {
                    container: container.unwrap(),
                    daemon,
                    network: network_of(host_ip, container_ip),
                },
            ),
    {
        let container = match container {
            Some(container) => container,
            None => {
                return Err(Failure::ContainerNotFound);
            },
        };
        if running {
            return Err(Failure::AlreadyRunning);
        }
        let network = match (host_ip, container_ip) {
            (Some(host_ip), Some(container_ip)) => Some(Network { host_ip, container_ip }),
            _ => None,
        };
        Ok(Launch { container, daemon, network })
    }

    /// The entry into the namespace of the kind `kind` that the file `fd`
    /// stands for.
    pub fn set_namespace(&self, fd: &str, kind: NamespaceType) -> (r: Action)
        ensures
            r.deep_view() == (ActionView::EnterNamespace { path: fd@, kind }),
    {
        Action::EnterNamespace { path: String::from_str(fd), kind }
    }

    /// The start of a shell inside the container.
    pub fn do_exec(&self) -> (r: Action)
        ensures
            r.deep_view() == shell(),
    {
        let args = Words::new().with("sh").done();
        let env = Words::new().with("PATH=/bin:/sbin:/usr/bin:/usr/sbin:/usr/local/bin").with(
            "TERM=xterm-256color",
        ).with("LC_ALL=C").done();
        assert(args.deep_view() =~= seq!["sh"@]);
        assert(env.deep_view() =~= seq![
            "PATH=/bin:/sbin:/usr/bin:/usr/sbin:/usr/local/bin"@,
            "TERM=xterm-256color"@,
            "LC_ALL=C"@,
        ]);
        Action::Exec { path: String::from_str("/bin/sh"), args, env, search: false }
    }

    /// Enter the running container `container_name`. `pid_file` is the
    /// content of the container's pid file, or nothing where it has none:
    /// then nothing is done, and that is reported. Else every namespace of
    /// the process that the file names is entered.
    pub fn open(&self, container_name: &str, pid_file: Option<&str>) -> (r: Plan)
        ensures
            r.cleanup@.len() == 0,
            match pid_file {
                None => r.actions@.len() == 0 && r.issue == Some(Failure::NotRunning),
                Some(content) => r.actions.deep_view() == open_plan(without_char(content@, '\n'))
                    && r.issue is None,
            },
    {
        let pid = match pid_file {
            None => {
                return Plan::skip(Failure::NotRunning);
            },
            Some(content) => remove_char(content, '\n'),
        };
        let mut dir = String::from_str("/proc/");
        dir.append(pid.as_str());
        dir.append("/ns/");
        let mut plan: Vec<Action> = Vec::new();
        push_action(&mut plan, self.set_namespace(file_in(&dir, "ipc").as_str(), NamespaceType::Ipc));
        push_action(&mut plan, self.set_namespace(file_in(&dir, "uts").as_str(), NamespaceType::Uts));
        push_action(
            &mut plan,
            self.set_namespace(file_in(&dir, "net").as_str(), NamespaceType::Network),
        );
        push_action(&mut plan, self.set_namespace(file_in(&dir, "pid").as_str(), NamespaceType::Pid));
        push_action(
            &mut plan,
            self.set_namespace(file_in(&dir, "mnt").as_str(), NamespaceType::Mount),
        );
        push_action(
            &mut plan,
            self.set_namespace(file_in(&dir, "cgroup").as_str(), NamespaceType::Cgroup),
        );
        push_action(
            &mut plan,
            self.set_namespace(file_in(&dir, "user").as_str(), NamespaceType::User),
        );
        assert(plan.deep_view() =~= open_plan(pid@));
        Plan::of(plan)
    }

    /// Whether the shell is due once `entered`, the plan of `open`, is
    /// carried out: it is where `open` found the container running.
    pub fn shell_is_due(&self, entered: &Plan) -> (r: bool)
        ensures
            r == (entered.issue is None),
    {
        entered.issue.is_none()
    }

    /// What each side of the fork does once the namespaces are entered: the
    /// new process starts a shell, the other waits for it. That no process
    /// was made is reported, no more.
    pub fn open_shell(&self, fork: Fork) -> (r: Plan)
        ensures
            r.cleanup@.len() == 0,
            r.issue is None,
            match fork {
                Fork::Child => r.actions.deep_view() == seq![shell()],
                Fork::Parent { child } => r.actions.deep_view() == seq![
                    ActionView::Wait { pid: child },
                ],
                Fork::Failed => r.actions@.len() == 0,
            },
    {
        let mut plan: Vec<Action> = Vec::new();
        match fork {
            Fork::Child => {
                push_action(&mut plan, self.do_exec());
                assert(plan.deep_view() =~= seq![shell()]);
            },
            Fork::Parent { child } => {
                push_action(&mut plan, Action::Wait { pid: child });
                assert(plan.deep_view() =~= seq![ActionView::Wait { pid: child }]);
            },
            Fork::Failed => {},
        }
        Plan::of(plan)
    }

    /// Stop the running container `container_name`. `pid_file` is the
    /// content of the container's pid file, or nothing where it has none:
    /// then nothing is done, and that is reported. Else the process that
    /// the file names is asked to end; a content that names no process is
    /// refused.
    pub fn stop(&self, container_name: &str, pid_file: Option<&str>) -> (r: Plan)
        ensures
            r.cleanup@.len() == 0,
            match pid_file {
                None => r.actions@.len() == 0 && r.issue == Some(Failure::NotRunning),
                Some(content) => match parsed_i32(without_char(content@, '\n')) {
                    None => r.actions@.len() == 0 && r.issue == Some(Failure::BadPid),
                    Some(pid) => r.actions.deep_view() == seq![ActionView::Terminate { pid }]
                        && r.issue is None,
                },
            },
    {
        let text = match pid_file {
            None => {
                return Plan::skip(Failure::NotRunning);
            },
            Some(content) => remove_char(content, '\n'),
        };
        match parse_i32(text.as_str()) {
            None => Plan::skip(Failure::BadPid),
            Some(pid) => {
                let mut plan: Vec<Action> = Vec::new();
                push_action(&mut plan, Action::Terminate { pid });
                assert(plan.deep_view() =~= seq![ActionView::Terminate { pid }]);
                Plan::of(plan)
            },
        }
    }

    /// List the stored containers. `entries` holds them, in the order of
    /// the store, or nothing where the directory of the containers is
    /// absent: then that is reported.
    pub fn list(&self, entries: Option<&Vec<Entry>>) -> (r: Plan)
        ensures
            r.cleanup@.len() == 0,
            match entries {
                None => r.actions@.len() == 0 && r.issue == Some(Failure::ContainerNotFound),
                Some(found) => r.actions.deep_view() == container_list(found@) && r.issue is None,
            },
    {
        let found = match entries {
            None => {
                return Plan::skip(Failure::ContainerNotFound);
            },
            Some(found) => found,
        };
        let mut plan: Vec<Action> = Vec::new();
        push_action(&mut plan, Action::Print { line: row("pid", "id", "image", "path") });
        let mut i: usize = 0;
        while i < found.len()
            invariant
                i <= found.len(),
                plan.deep_view() == container_list(found@).take(i + 1),
            decreases found.len() - i,
        {
            let entry = &found[i];
            let pid = match &entry.pid {
                Some(pid) => pid.as_str(),
                None => "-",
            };
            let image = match &entry.container.image {
                Some(image) => image.id.as_str(),
                None => "-",
            };
            push_action(
                &mut plan,
                Action::Print {
                    line: row(pid, entry.container.id.as_str(), image, entry.container.path.as_str()),
                },
            );
            i += 1;
            assert(plan.deep_view() =~= container_list(found@).take(i + 1));
        }
        assert(plan.deep_view() =~= container_list(found@));
        Plan::of(plan)
    }

    /// Remove the container `container_name` from the store. `exists` says
    /// whether its directory is there, `running` whether it has a pid
    /// file. A container that runs is left alone, and one that is not
    /// there needs nothing; both are reported.
    pub fn delete(&self, container_name: &str, exists: bool, running: bool) -> (r: Plan)
        ensures
            r.cleanup@.len() == 0,
            running ==> r.actions@.len() == 0 && r.issue == Some(Failure::AlreadyRunning),
            !running && !exists ==> r.actions@.len() == 0 && r.issue == Some(
                Failure::ContainerNotFound,
            ),
            !running && exists ==> r.actions.deep_view() == seq![
                ActionView::RemoveDirAll { path: container_path(container_name@) },
            ] && r.issue is None,
    {
        if running {
            return Plan::skip(Failure::AlreadyRunning);
        }
        let container = Container::new(Some(container_name), None);
        container.delete(exists)
    }
}

fn file_in(dir: &String, name: &str) -> (r: String)
    ensures
        r@ == dir@ + name@,
{
    let mut path = dir.clone();
    path.append(name);
    path
}

} // verus!
