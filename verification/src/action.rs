//! The operations on the system that the runtime asks for. Each is a value:
//! the library decides which operations are due and in which order, and the
//! caller carries them out one after the other.

use vstd::prelude::*;
use crate::error::Failure;
use crate::runtime_spec::{Spec, SpecView};

verus! {

/// The kinds of namespace that a container can be given.
#[derive(Clone, Copy, Debug, PartialEq, Eq, Structural)]
pub enum NamespaceType {
    Pid,
    Mount,
    Uts,
    Ipc,
    User,
    Cgroup,
    Network,
}

/// A set of namespace kinds.
#[derive(Clone, Copy, Debug, PartialEq, Eq, Structural)]
pub struct NamespaceSet {
    pub pid: bool,
    pub mount: bool,
    pub uts: bool,
    pub ipc: bool,
    pub user: bool,
    pub cgroup: bool,
    pub network: bool,
}

impl NamespaceSet {
    /// Whether `kind` is in the set.
    pub open spec fn has(self, kind: NamespaceType) -> bool {
        match kind {
            NamespaceType::Pid => self.pid,
            NamespaceType::Mount => self.mount,
            NamespaceType::Uts => self.uts,
            NamespaceType::Ipc => self.ipc,
            NamespaceType::User => self.user,
            NamespaceType::Cgroup => self.cgroup,
            NamespaceType::Network => self.network,
        }
    }

    /// The set without any kind.
    pub fn empty() -> (r: NamespaceSet)
        ensures
            forall|k: NamespaceType| !r.has(k),
    {
        NamespaceSet {
            pid: false,
            mount: false,
            uts: false,
            ipc: false,
            user: false,
            cgroup: false,
            network: false,
        }
    }

    /// Whether `kind` is in the set.
    pub fn contains(self, kind: NamespaceType) -> (r: bool)
        ensures
            r == self.has(kind),
    {
        match kind {
            NamespaceType::Pid => self.pid,
            NamespaceType::Mount => self.mount,
            NamespaceType::Uts => self.uts,
            NamespaceType::Ipc => self.ipc,
            NamespaceType::User => self.user,
            NamespaceType::Cgroup => self.cgroup,
            NamespaceType::Network => self.network,
        }
    }

    /// The set with `kind` added.
    pub fn with(self, kind: NamespaceType) -> (r: NamespaceSet)
        ensures
            forall|k: NamespaceType| r.has(k) == (k == kind || self.has(k)),
    {
        let mut r = self;
        match kind {
            NamespaceType::Pid => r.pid = true,
            NamespaceType::Mount => r.mount = true,
            NamespaceType::Uts => r.uts = true,
            NamespaceType::Ipc => r.ipc = true,
            NamespaceType::User => r.user = true,
            NamespaceType::Cgroup => r.cgroup = true,
            NamespaceType::Network => r.network = true,
        }
        r
    }
}

/// The options of a mount.
#[derive(Clone, Copy, Debug, PartialEq, Eq, Structural)]
pub struct MountFlags {
    pub bind: bool,
    pub recursive: bool,
    pub private: bool,
    pub nosuid: bool,
    pub nodev: bool,
    pub noexec: bool,
    pub remount: bool,
}

/// No option.
pub open spec fn no_flags() -> MountFlags {
    MountFlags {
        bind: false,
        recursive: false,
        private: false,
        nosuid: false,
        nodev: false,
        noexec: false,
        remount: false,
    }
}

impl MountFlags {
    /// No option.
    pub fn none() -> (r: MountFlags)
        ensures
            r == no_flags(),
    {
        MountFlags {
            bind: false,
            recursive: false,
            private: false,
            nosuid: false,
            nodev: false,
            noexec: false,
            remount: false,
        }
    }
}

/// One operation on the system.
#[derive(Clone, Debug, PartialEq, Eq)]
pub enum Action {
    /// Make the directory and the missing ones above it.
    CreateDirAll { path: String },
    /// Make one directory with the permission bits `mode`.
    MakeDir { path: String, mode: u32 },
    /// Remove the directory and all below it, if it is there.
    RemoveDirAll { path: String },
    /// Remove the file, if it is there.
    RemoveFile { path: String },
    /// Make an empty file, unless something is there already.
    EnsureFile { path: String },
    /// Write `data` as the whole content of the file, making it where it is missing.
    WriteFile { path: String, data: String },
    /// Write `data` as the whole content of the file; that the write fails
    /// is reported, no more.
    TryWriteFile { path: String, data: String },
    /// Open a file that is there for writing, and write `data` to it.
    Overwrite { path: String, data: String },
    /// Make `link` a symbolic link to `target`.
    Symlink { target: String, link: String },
    /// Fetch `url` with the bearer `token` and store the body in the file `into`.
    Download { url: String, token: String, into: String },
    /// Unpack the gzipped tar `archive` into the directory `into`, unless that is there already.
    Unpack { archive: String, into: String },
    /// Mount `source` on `target`.
    Mount {
        source: Option<String>,
        target: String,
        fstype: Option<String>,
        flags: MountFlags,
        options: Option<String>,
    },
    /// Unmount `target`.
    Unmount { target: String },
    /// Unmount `target` lazily.
    Detach { target: String },
    /// Leave the namespaces that the process shares with its parent, for new ones.
    Unshare { namespaces: NamespaceSet },
    /// Make `path` the working directory.
    ChangeDir { path: String },
    /// Make `new_root` the root of the mount namespace and move the old root to `put_old`.
    PivotRoot { new_root: String, put_old: String },
    /// Set the host name.
    SetHostname { name: String },
    /// Set a variable of the environment.
    SetEnv { name: String, value: String },
    /// Replace the process by the program `path`; `search` looks it up in `PATH`.
    Exec { path: String, args: Vec<String>, env: Vec<String>, search: bool },
    /// Enter the namespace that the file `path` stands for. Where the file
    /// is absent or the kernel refuses, that is reported and the namespace
    /// is passed over.
    EnterNamespace { path: String, kind: NamespaceType },
    /// Ask the process `pid` to end.
    Terminate { pid: i32 },
    /// Run `program` with `args` and wait for it; that it ends with a failure is reported, no more.
    Run { program: String, args: Vec<String> },
    /// Pause for `millis` milliseconds.
    Sleep { millis: u64 },
    /// Wait until the process `pid` has ended.
    Wait { pid: i32 },
    /// End the process with the status `code`.
    Exit { code: i32 },
    /// Print one line.
    Print { line: String },
    /// Write the configuration `spec` to the file, as the JSON text of the
    /// document that `save` gives of it.
    SaveSpec { path: String, spec: Spec },
    /// Keep, or keep no longer, the capabilities over a change of user.
    KeepCapabilities { keep: bool },
    /// Take on the user `uid` and the group `gid`, as real, effective and saved ids.
    SetIds { uid: u32, gid: u32 },
}

/// An operation, with its texts as sequences of characters.
pub enum ActionView {
    CreateDirAll { path: Seq<char> },
    MakeDir { path: Seq<char>, mode: u32 },
    RemoveDirAll { path: Seq<char> },
    RemoveFile { path: Seq<char> },
    EnsureFile { path: Seq<char> },
    WriteFile { path: Seq<char>, data: Seq<char> },
    TryWriteFile { path: Seq<char>, data: Seq<char> },
    Overwrite { path: Seq<char>, data: Seq<char> },
    Symlink { target: Seq<char>, link: Seq<char> },
    Download { url: Seq<char>, token: Seq<char>, into: Seq<char> },
    Unpack { archive: Seq<char>, into: Seq<char> },
    Mount {
        source: Option<Seq<char>>,
        target: Seq<char>,
        fstype: Option<Seq<char>>,
        flags: MountFlags,
        options: Option<Seq<char>>,
    },
    Unmount { target: Seq<char> },
    Detach { target: Seq<char> },
    Unshare { namespaces: NamespaceSet },
    ChangeDir { path: Seq<char> },
    PivotRoot { new_root: Seq<char>, put_old: Seq<char> },
    SetHostname { name: Seq<char> },
    SetEnv { name: Seq<char>, value: Seq<char> },
    Exec { path: Seq<char>, args: Seq<Seq<char>>, env: Seq<Seq<char>>, search: bool },
    EnterNamespace { path: Seq<char>, kind: NamespaceType },
    Terminate { pid: i32 },
    Run { program: Seq<char>, args: Seq<Seq<char>> },
    Sleep { millis: u64 },
    Wait { pid: i32 },
    Exit { code: i32 },
    Print { line: Seq<char> },
    SaveSpec { path: Seq<char>, spec: SpecView },
    KeepCapabilities { keep: bool },
    SetIds { uid: u32, gid: u32 },
}

impl DeepView for Action {
    type V = ActionView;

    open spec fn deep_view(&self) -> ActionView {
        match *self {
            Action::CreateDirAll { path } => ActionView::CreateDirAll { path: path@ },
            Action::MakeDir { path, mode } => ActionView::MakeDir { path: path@, mode },
            Action::RemoveDirAll { path } => ActionView::RemoveDirAll { path: path@ },
            Action::RemoveFile { path } => ActionView::RemoveFile { path: path@ },
            Action::EnsureFile { path } => ActionView::EnsureFile { path: path@ },
            Action::WriteFile { path, data } => ActionView::WriteFile { path: path@, data: data@ },
            Action::TryWriteFile { path, data } => ActionView::TryWriteFile {
                path: path@,
                data: data@,
            },
            Action::Overwrite { path, data } => ActionView::Overwrite { path: path@, data: data@ },
            Action::Symlink { target, link } => ActionView::Symlink {
                target: target@,
                link: link@,
            },
            Action::Download { url, token, into } => ActionView::Download {
                url: url@,
                token: token@,
                into: into@,
            },
            Action::Unpack { archive, into } => ActionView::Unpack {
                archive: archive@,
                into: into@,
            },
            Action::Mount { source, target, fstype, flags, options } => ActionView::Mount {
                source: source.deep_view(),
                target: target@,
                fstype: fstype.deep_view(),
                flags,
                options: options.deep_view(),
            },
            Action::Unmount { target } => ActionView::Unmount { target: target@ },
            Action::Detach { target } => ActionView::Detach { target: target@ },
            Action::Unshare { namespaces } => ActionView::Unshare { namespaces },
            Action::ChangeDir { path } => ActionView::ChangeDir { path: path@ },
            Action::PivotRoot { new_root, put_old } => ActionView::PivotRoot {
                new_root: new_root@,
                put_old: put_old@,
            },
            Action::SetHostname { name } => ActionView::SetHostname { name: name@ },
            Action::SetEnv { name, value } => ActionView::SetEnv { name: name@, value: value@ },
            Action::Exec { path, args, env, search } => ActionView::Exec {
                path: path@,
                args: args.deep_view(),
                env: env.deep_view(),
                search,
            },
            Action::EnterNamespace { path, kind } => ActionView::EnterNamespace {
                path: path@,
                kind,
            },
            Action::Terminate { pid } => ActionView::Terminate { pid },
            Action::Run { program, args } => ActionView::Run {
                program: program@,
                args: args.deep_view(),
            },
            Action::Sleep { millis } => ActionView::Sleep { millis },
            Action::Wait { pid } => ActionView::Wait { pid },
            Action::Exit { code } => ActionView::Exit { code },
            Action::Print { line } => ActionView::Print { line: line@ },
            Action::SaveSpec { path, spec } => ActionView::SaveSpec {
                path: path@,
                spec: spec.deep_view(),
            },
            Action::KeepCapabilities { keep } => ActionView::KeepCapabilities { keep },
            Action::SetIds { uid, gid } => ActionView::SetIds { uid, gid },
        }
    }
}

/// How a fork ended, seen from the process that asks.
#[derive(Clone, Copy, Debug, PartialEq, Eq, Structural)]
pub enum Fork {
    /// This is the new process.
    Child,
    /// This is the process that forked; `child` is the new one.
    Parent { child: i32 },
    /// No process was made.
    Failed,
}

/// Put `action` behind the operations of `plan`.
pub fn push_action(plan: &mut Vec<Action>, action: Action)
    ensures
        final(plan).deep_view() == old(plan).deep_view().push(action.deep_view()),
{
    plan.push(action);
    assert(plan.deep_view() =~= old(plan).deep_view().push(action.deep_view()));
}

/// Put the operations of `more` behind those of `plan`.
pub fn append_actions(plan: &mut Vec<Action>, more: Vec<Action>)
    ensures
        final(plan).deep_view() == old(plan).deep_view() + more.deep_view(),
{
    let mut more = more;
    let ghost added = more.deep_view();
    plan.append(&mut more);
    assert(plan.deep_view() =~= old(plan).deep_view() + added);
}

/// Put `item` behind the texts of `list`.
pub fn push_text(list: &mut Vec<String>, item: String)
    ensures
        final(list).deep_view() == old(list).deep_view().push(item@),
{
    list.push(item);
    assert(list.deep_view() =~= old(list).deep_view().push(item@));
}

/// A copy of the texts of `list`.
pub fn copy_texts(list: &Vec<String>) -> (r: Vec<String>)
    ensures
        r.deep_view() == list.deep_view(),
{
    let mut copy: Vec<String> = Vec::new();
    let mut i: usize = 0;
    while i < list.len()
        invariant
            i <= list.len(),
            copy.deep_view() == list.deep_view().take(i as int),
        decreases list.len() - i,
    {
        push_text(&mut copy, list[i].clone());
        i += 1;
        assert(copy.deep_view() =~= list.deep_view().take(i as int));
    }
    assert(list.deep_view().take(list.len() as int) =~= list.deep_view());
    copy
}

/// A list of texts in the making.
pub struct Words {
    pub items: Vec<String>,
}

impl Words {
    /// The texts so far.
    pub open spec fn texts(self) -> Seq<Seq<char>> {
        self.items.deep_view()
    }

    /// No text yet.
    pub fn new() -> (r: Words)
        ensures
            r.texts() == Seq::<Seq<char>>::empty(),
    {
        let r = Words { items: Vec::new() };
        assert(r.texts() =~= Seq::<Seq<char>>::empty());
        r
    }

    /// The list with `word` behind it.
    pub fn with(self, word: &str) -> (r: Words)
        ensures
            r.texts() == self.texts().push(word@),
    {
        let mut items = self.items;
        push_text(&mut items, String::from_str(word));
        Words { items }
    }

    /// The texts as a vector.
    pub fn done(self) -> (r: Vec<String>)
        ensures
            r.deep_view() == self.texts(),
    {
        self.items
    }
}

/// Operations in their order, and how the operation that asked for them
/// ends once they are done.
#[derive(Clone, Debug, PartialEq, Eq)]
pub struct Plan {
    /// What is to be done, in this order, as long as each operation succeeds.
    pub actions: Vec<Action>,
    /// What is to be done after that, whatever became of `actions`; that one
    /// of these fails is reported and does not stop the others.
    pub cleanup: Vec<Action>,
    /// Nothing, or what is reported once all that is done.
    pub issue: Option<crate::error::Failure>,
}

impl Plan {
    /// The plan that asks for `actions` and nothing else.
    pub fn of(actions: Vec<Action>) -> (r: Plan)
        ensures
            r.actions == actions,
            r.cleanup@.len() == 0,
            r.issue is None,
    {
        Plan { actions, cleanup: Vec::new(), issue: None }
    }

    /// The plan that only cleans up: every operation of `cleanup` is
    /// tried, whichever of them fail.
    pub fn cleaning(cleanup: Vec<Action>) -> (r: Plan)
        ensures
            r.actions@.len() == 0,
            r.cleanup == cleanup,
            r.issue is None,
    {
        Plan { actions: Vec::new(), cleanup, issue: None }
    }

    /// The plan that asks for nothing and reports `issue`.
    pub fn skip(issue: crate::error::Failure) -> (r: Plan)
        ensures
            r.actions@.len() == 0,
            r.cleanup@.len() == 0,
            r.issue == Some(issue),
    {
        Plan { actions: Vec::new(), cleanup: Vec::new(), issue: Some(issue) }
    }

    /// Whether the plan asks for nothing.
    pub open spec fn is_empty(&self) -> bool {
        self.actions@.len() == 0 && self.cleanup@.len() == 0
    }

    /// The operations that are tried where the operation at the place
    /// `failed` of `actions` is the first that fails, or where none fails:
    /// the operations up to and with the one that fails, and then the whole
    /// cleanup, whichever of its operations fail.
    pub open spec fn tried(&self, failed: Option<usize>) -> Seq<ActionView> {
        match failed {
            Some(k) => if k < self.actions@.len() {
                self.actions.deep_view().take(k + 1) + self.cleanup.deep_view()
            } else {
                self.actions.deep_view() + self.cleanup.deep_view()
            },
            None => self.actions.deep_view() + self.cleanup.deep_view(),
        }
    }

    /// Whatever fails, the whole cleanup is tried, behind what was tried of
    /// `actions`: no failure keeps an operation of the cleanup from being
    /// tried.
    pub proof fn lemma_cleanup_is_tried(&self, failed: Option<usize>)
        ensures
            self.tried(failed).len() >= self.cleanup@.len(),
            self.tried(failed).skip(self.tried(failed).len() - self.cleanup@.len())
                == self.cleanup.deep_view(),
            failed is None ==> self.tried(failed) == self.actions.deep_view()
                + self.cleanup.deep_view(),
    {
        let tried = self.tried(failed);
        assert(self.cleanup.deep_view().len() == self.cleanup@.len());
        assert(self.actions.deep_view().len() == self.actions@.len());
        assert(tried.skip(tried.len() - self.cleanup@.len()) =~= self.cleanup.deep_view());
    }

    /// How the plan ends, given the failure of the first of `actions` that
    /// failed, or nothing where none did: that failure comes
    /// first; else what the plan reports, where that is fatal; else all is
    /// well. What failed of the cleanup never counts.
    pub open spec fn outcome(&self, failed: Option<Failure>) -> Result<(), Failure> {
        match failed {
            Some(e) => Err(e),
            None => match self.issue {
                Some(issue) => if issue.spec_is_fatal() {
                    Err(issue)
                } else {
                    Ok(())
                },
                None => Ok(()),
            },
        }
    }

    /// A failure among `actions` is what the plan ends with, whatever the
    /// plan reports and whatever fails of the cleanup.
    pub proof fn lemma_first_failure_is_returned(&self, failure: Failure)
        ensures
            self.outcome(Some(failure)) == Err::<(), Failure>(failure),
    {
    }

    /// How the plan ends. `failed` is the failure of the first operation of
    /// `actions` that failed, or nothing where none did; what failed of the
    /// cleanup is not asked for.
    pub fn settle(&self, failed: Option<Failure>) -> (r: Result<(), Failure>)
        ensures
            r == self.outcome(failed),
    {
        match failed {
            Some(e) => Err(e),
            None => match self.issue {
                Some(issue) => if issue.is_fatal() {
                    Err(issue)
                } else {
                    Ok(())
                },
                None => Ok(()),
            },
        }
    }

    /// The operation that is due once `done` operations were tried, where
    /// the operation at the place `failed` of `actions` was the first to
    /// fail, or where none has failed so far; nothing once all is tried.
    pub fn due(&self, done: usize, failed: Option<usize>) -> (r: Option<&Action>)
        ensures
            done < self.tried(failed).len() ==> r.deep_view() == Some(self.tried(failed)[done as int]),
            done >= self.tried(failed).len() ==> r is None,
    {
        let stop: usize = match failed {
            Some(k) => if k < self.actions.len() {
                k + 1
            } else {
                self.actions.len()
            },
            None => self.actions.len(),
        };
        if done < stop {
            Some(&self.actions[done])
        } else if done - stop < self.cleanup.len() {
            Some(&self.cleanup[done - stop])
        } else {
            None
        }
    }

    /// The place of the first of `actions` that failed, once the operation
    /// that was due after `done` others has succeeded or not: a failure
    /// counts where it is the first and the operation is one of `actions`
    /// and no part of the cleanup.
    pub fn first_failure(&self, done: usize, failed: Option<usize>, succeeded: bool) -> (r: Option<
        usize,
    >)
        ensures
            r == if failed is None && !succeeded && done < self.actions@.len() {
                Some(done)
            } else {
                failed
            },
    {
        if failed.is_none() && !succeeded && done < self.actions.len() {
            Some(done)
        } else {
            failed
        }
    }
}

} // verus!
