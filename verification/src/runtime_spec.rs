//! The configuration of a container: the process to run, the host name,
//! the namespaces to make and the limits on devices.

use vstd::prelude::*;
use crate::action::{copy_texts, push_text, NamespaceSet, NamespaceType};
use crate::error::Failure;

verus! {

/// The user that the process runs as inside the container.
#[derive(Clone, Debug, PartialEq, Eq)]
pub struct User {
    pub uid: u32,
    pub gid: u32,
    pub additional_gids: Vec<u32>,
}

/// The process of a container.
#[derive(Clone, Debug, PartialEq, Eq)]
pub struct Process {
    /// The program and its arguments.
    pub args: Vec<String>,
    /// The environment, each variable as a name, `=` and a value.
    pub env: Vec<String>,
    pub user: User,
}

/// One namespace that the container asks for.
#[derive(Clone, Copy, Debug, PartialEq, Eq, Structural)]
pub struct Namespace {
    pub typ: NamespaceType,
}

/// One rule of the devices cgroup.
#[derive(Clone, Debug, PartialEq, Eq)]
pub struct Device {
    pub allow: bool,
    pub typ: String,
    pub major: Option<i64>,
    pub minor: Option<i64>,
    pub access: String,
}

/// The limits on what the container may use.
#[derive(Clone, Debug, PartialEq, Eq)]
pub struct Resources {
    pub devices: Vec<Device>,
}

/// What concerns the kernel.
#[derive(Clone, Debug, PartialEq, Eq)]
pub struct Linux {
    pub namespaces: Vec<Namespace>,
    pub resources: Option<Resources>,
}

/// The configuration of a container.
#[derive(Clone, Debug, PartialEq, Eq)]
pub struct Spec {
    pub process: Process,
    pub hostname: String,
    pub linux: Option<Linux>,
}

/// A user, as plain values.
pub struct UserView {
    pub uid: u32,
    pub gid: u32,
    pub additional_gids: Seq<u32>,
}

/// A process, with its texts as sequences of characters.
pub struct ProcessView {
    pub args: Seq<Seq<char>>,
    pub env: Seq<Seq<char>>,
    pub user: UserView,
}

/// A device rule, with its texts as sequences of characters.
pub struct DeviceView {
    pub allow: bool,
    pub typ: Seq<char>,
    pub major: Option<i64>,
    pub minor: Option<i64>,
    pub access: Seq<char>,
}

/// Limits, as plain values.
pub struct ResourcesView {
    pub devices: Seq<DeviceView>,
}

/// What concerns the kernel, as plain values.
pub struct LinuxView {
    pub namespaces: Seq<Namespace>,
    pub resources: Option<ResourcesView>,
}

/// A configuration, with its texts as sequences of characters.
pub struct SpecView {
    pub process: ProcessView,
    pub hostname: Seq<char>,
    pub linux: Option<LinuxView>,
}

impl DeepView for User {
    type V = UserView;

    open spec fn deep_view(&self) -> UserView {
        UserView { uid: self.uid, gid: self.gid, additional_gids: self.additional_gids@ }
    }
}

impl DeepView for Process {
    type V = ProcessView;

    open spec fn deep_view(&self) -> ProcessView {
        ProcessView {
            args: self.args.deep_view(),
            env: self.env.deep_view(),
            user: self.user.deep_view(),
        }
    }
}

impl DeepView for Device {
    type V = DeviceView;

    open spec fn deep_view(&self) -> DeviceView {
        DeviceView {
            allow: self.allow,
            typ: self.typ@,
            major: self.major,
            minor: self.minor,
            access: self.access@,
        }
    }
}

impl DeepView for Resources {
    type V = ResourcesView;

    open spec fn deep_view(&self) -> ResourcesView {
        ResourcesView { devices: self.devices.deep_view() }
    }
}

impl DeepView for Linux {
    type V = LinuxView;

    open spec fn deep_view(&self) -> LinuxView {
        LinuxView { namespaces: self.namespaces@, resources: self.resources.deep_view() }
    }
}

impl DeepView for Spec {
    type V = SpecView;

    open spec fn deep_view(&self) -> SpecView {
        SpecView {
            process: self.process.deep_view(),
            hostname: self.hostname@,
            linux: self.linux.deep_view(),
        }
    }
}

impl SpecView {
    /// The namespaces that the configuration asks for.
    pub open spec fn namespaces(self) -> Seq<Namespace> {
        match self.linux {
            Some(linux) => linux.namespaces,
            None => Seq::empty(),
        }
    }

    /// The rules that every configuration keeps.
    pub open spec fn valid(self) -> bool {
        &&& self.process.args.len() > 0
        &&& self.process.args[0].len() > 0
        &&& kinds_unique(self.namespaces())
        &&& (asks_for(self.namespaces(), NamespaceType::Pid) || asks_for(
            self.namespaces(),
            NamespaceType::Network,
        )) ==> asks_for(self.namespaces(), NamespaceType::Mount)
    }
}

/// Whether a namespace of the kind `kind` is among `namespaces`.
pub open spec fn asks_for(namespaces: Seq<Namespace>, kind: NamespaceType) -> bool {
    exists|i: int| 0 <= i < namespaces.len() && #[trigger] namespaces[i].typ == kind
}

/// No kind of namespace is asked for twice.
pub open spec fn kinds_unique(namespaces: Seq<Namespace>) -> bool {
    forall|i: int, j: int|
        0 <= i < j < namespaces.len() ==> #[trigger] namespaces[i].typ
            != #[trigger] namespaces[j].typ
}

/// The kinds of namespace that `namespaces` asks for, as a set.
pub open spec fn set_of(namespaces: Seq<Namespace>) -> NamespaceSet {
    NamespaceSet {
        pid: asks_for(namespaces, NamespaceType::Pid),
        mount: asks_for(namespaces, NamespaceType::Mount),
        uts: asks_for(namespaces, NamespaceType::Uts),
        ipc: asks_for(namespaces, NamespaceType::Ipc),
        user: asks_for(namespaces, NamespaceType::User),
        cgroup: asks_for(namespaces, NamespaceType::Cgroup),
        network: asks_for(namespaces, NamespaceType::Network),
    }
}

impl Linux {
    /// The kinds of namespace asked for, as a set.
    pub fn namespace_set(&self) -> (r: NamespaceSet)
        ensures
            r == set_of(self.namespaces@),
            forall|k: NamespaceType| r.has(k) == asks_for(self.namespaces@, k),
    {
        let mut set = NamespaceSet::empty();
        let mut i: usize = 0;
        while i < self.namespaces.len()
            invariant
                i <= self.namespaces.len(),
                forall|k: NamespaceType|
                    set.has(k) == asks_for(self.namespaces@.take(i as int), k),
            decreases self.namespaces.len() - i,
        {
            let kind = self.namespaces[i].typ;
            let ghost before = self.namespaces@.take(i as int);
            let ghost now = self.namespaces@.take(i + 1);
            let ghost old_set = set;
            set = set.with(kind);
            assert forall|k: NamespaceType| set.has(k) == asks_for(now, k) by {
                if asks_for(now, k) {
                    let j = choose|j: int| 0 <= j < now.len() && #[trigger] now[j].typ == k;
                    if j < i {
                        assert(before[j].typ == k);
                    }
                }
                if old_set.has(k) {
                    let j = choose|j: int| 0 <= j < before.len() && #[trigger] before[j].typ == k;
                    assert(now[j].typ == k);
                }
                if k == kind {
                    assert(now[i as int].typ == k);
                }
            }
            i += 1;
        }
        assert(self.namespaces@.take(self.namespaces.len() as int) =~= self.namespaces@);
        assert(set.has(NamespaceType::Pid) == asks_for(self.namespaces@, NamespaceType::Pid));
        assert(set.has(NamespaceType::Mount) == asks_for(self.namespaces@, NamespaceType::Mount));
        assert(set.has(NamespaceType::Uts) == asks_for(self.namespaces@, NamespaceType::Uts));
        assert(set.has(NamespaceType::Ipc) == asks_for(self.namespaces@, NamespaceType::Ipc));
        assert(set.has(NamespaceType::User) == asks_for(self.namespaces@, NamespaceType::User));
        assert(set.has(NamespaceType::Cgroup) == asks_for(
            self.namespaces@,
            NamespaceType::Cgroup,
        ));
        assert(set.has(NamespaceType::Network) == asks_for(
            self.namespaces@,
            NamespaceType::Network,
        ));
        set
    }

    /// Whether no kind of namespace is asked for twice.
    pub fn has_unique_kinds(&self) -> (r: bool)
        ensures
            r == kinds_unique(self.namespaces@),
    {
        let mut seen = NamespaceSet::empty();
        let mut i: usize = 0;
        while i < self.namespaces.len()
            invariant
                i <= self.namespaces.len(),
                kinds_unique(self.namespaces@.take(i as int)),
                forall|k: NamespaceType|
                    seen.has(k) == asks_for(self.namespaces@.take(i as int), k),
            decreases self.namespaces.len() - i,
        {
            let kind = self.namespaces[i].typ;
            let ghost before = self.namespaces@.take(i as int);
            let ghost now = self.namespaces@.take(i + 1);
            if seen.contains(kind) {
                proof {
                    let j = choose|j: int| 0 <= j < before.len() && #[trigger] before[j].typ == kind;
                    assert(self.namespaces@[j].typ == self.namespaces@[i as int].typ);
                }
                return false;
            }
            let ghost old_seen = seen;
            seen = seen.with(kind);
            assert forall|k: NamespaceType| seen.has(k) == asks_for(now, k) by {
                if asks_for(now, k) {
                    let j = choose|j: int| 0 <= j < now.len() && #[trigger] now[j].typ == k;
                    if j < i {
                        assert(before[j].typ == k);
                    }
                }
                if old_seen.has(k) {
                    let j = choose|j: int| 0 <= j < before.len() && #[trigger] before[j].typ == k;
                    assert(now[j].typ == k);
                }
                if k == kind {
                    assert(now[i as int].typ == k);
                }
            }
            assert forall|a: int, b: int| 0 <= a < b < now.len() implies #[trigger] now[a].typ
                != #[trigger] now[b].typ by {
                if b < i {
                    assert(before[a].typ != before[b].typ);
                } else {
                    if now[a].typ == kind {
                        assert(before[a].typ == kind);
                        assert(asks_for(before, kind));
                    }
                }
            }
            i += 1;
        }
        assert(self.namespaces@.take(self.namespaces.len() as int) =~= self.namespaces@);
        true
    }
}

impl Spec {
    /// The namespaces that the configuration asks for; none where it says
    /// nothing of the kernel.
    pub open spec fn namespaces(&self) -> Seq<Namespace> {
        match self.linux {
            Some(linux) => linux.namespaces@,
            None => Seq::empty(),
        }
    }

    /// The rules that every configuration keeps: the process names a
    /// program, no kind of namespace is asked for twice, and whoever asks
    /// for a pid or a network namespace asks for a mount namespace too.
    pub open spec fn well_formed(&self) -> bool {
        &&& self.process.args@.len() > 0
        &&& self.process.args@[0]@.len() > 0
        &&& kinds_unique(self.namespaces())
        &&& (asks_for(self.namespaces(), NamespaceType::Pid) || asks_for(
            self.namespaces(),
            NamespaceType::Network,
        )) ==> asks_for(self.namespaces(), NamespaceType::Mount)
    }

    /// Whether a configuration keeps the rules shows in its plain values.
    pub proof fn lemma_well_formed_is_valid(&self)
        ensures
            self.well_formed() == self.deep_view().valid(),
            self.namespaces() == self.deep_view().namespaces(),
    {
        assert(self.process.args.deep_view().len() == self.process.args@.len());
        if self.process.args@.len() > 0 {
            assert(self.process.args.deep_view()[0] == self.process.args@[0]@);
        }
    }

    /// The kinds of namespace that the configuration asks for.
    pub fn namespace_set(&self) -> (r: NamespaceSet)
        ensures
            r == set_of(self.namespaces()),
            forall|k: NamespaceType| r.has(k) == asks_for(self.namespaces(), k),
    {
        match &self.linux {
            Some(linux) => linux.namespace_set(),
            None => {
                let set = NamespaceSet::empty();
                assert(!set.has(NamespaceType::Pid) && !set.has(NamespaceType::Mount) && !set.has(
                    NamespaceType::Uts,
                ) && !set.has(NamespaceType::Ipc) && !set.has(NamespaceType::User) && !set.has(
                    NamespaceType::Cgroup,
                ) && !set.has(NamespaceType::Network));
                set
            },
        }
    }

    /// Whether the configuration keeps the rules.
    pub fn is_well_formed(&self) -> (r: bool)
        ensures
            r == self.well_formed(),
    {
        if self.process.args.len() == 0 {
            return false;
        }
        if self.process.args[0].as_str().unicode_len() == 0 {
            return false;
        }
        let unique = match &self.linux {
            Some(linux) => linux.has_unique_kinds(),
            None => true,
        };
        if !unique {
            return false;
        }
        let set = self.namespace_set();
        if (set.contains(NamespaceType::Pid) || set.contains(NamespaceType::Network))
            && !set.contains(NamespaceType::Mount) {
            return false;
        }
        true
    }

    /// The configuration, where it keeps the rules.
    pub fn checked(self) -> (r: Result<Spec, Failure>)
        ensures
            self.well_formed() ==> r == Ok::<Spec, Failure>(self),
            !self.well_formed() ==> r == Err::<Spec, Failure>(Failure::BadSpec),
    {
        if self.is_well_formed() {
            Ok(self)
        } else {
            Err(Failure::BadSpec)
        }
    }

    /// The configuration that a new container gets.
    pub fn new() -> (r: Result<Spec, Failure>)
        ensures
            r matches Ok(s) && s.is_default(),
    {
        Ok(Spec::default())
    }

    /// What `new` and `default` return.
    pub open spec fn is_default(&self) -> bool {
        &&& self.hostname@ == "minato"@
        &&& self.process.args.deep_view() == seq!["/bin/sh"@]
        &&& self.process.env.deep_view() == seq![
            "PATH=/usr/local/sbin:/usr/local/bin:/usr/sbin:/usr/bin:/sbin:/bin"@,
            "TERM=xterm"@,
        ]
        &&& self.process.user.uid == 0
        &&& self.process.user.gid == 0
        &&& self.process.user.additional_gids@.len() == 0
        &&& self.linux matches Some(linux) && linux.namespaces@ == default_namespaces()
            && linux.resources is None
    }
}

impl Default for Spec {
    /// The configuration that a new container gets: the host name `minato`,
    /// a shell as the process, run by root, and every kind of namespace but
    /// those for cgroups and the network.
    fn default() -> (r: Spec)
        ensures
            r.is_default(),
    {
        let mut args: Vec<String> = Vec::new();
        push_text(&mut args, String::from_str("/bin/sh"));
        let mut env: Vec<String> = Vec::new();
        push_text(
            &mut env,
            String::from_str("PATH=/usr/local/sbin:/usr/local/bin:/usr/sbin:/usr/bin:/sbin:/bin"),
        );
        push_text(&mut env, String::from_str("TERM=xterm"));
        let mut namespaces: Vec<Namespace> = Vec::new();
        namespaces.push(Namespace { typ: NamespaceType::Pid });
        namespaces.push(Namespace { typ: NamespaceType::Mount });
        namespaces.push(Namespace { typ: NamespaceType::Uts });
        namespaces.push(Namespace { typ: NamespaceType::Ipc });
        namespaces.push(Namespace { typ: NamespaceType::User });
        let spec = Spec {
            process: Process {
                args,
                env,
                user: User { uid: 0, gid: 0, additional_gids: Vec::new() },
            },
            hostname: String::from_str("minato"),
            linux: Some(Linux { namespaces, resources: None }),
        };
        assert(spec.process.args.deep_view() =~= seq!["/bin/sh"@]);
        assert(spec.process.env.deep_view() =~= seq![
            "PATH=/usr/local/sbin:/usr/local/bin:/usr/sbin:/usr/bin:/sbin:/bin"@,
            "TERM=xterm"@,
        ]);
        assert(spec.namespaces() =~= default_namespaces());
        spec
    }
}

impl User {
    /// A copy of the user.
    pub fn copy(&self) -> (r: User)
        ensures
            r.deep_view() == self.deep_view(),
    {
        let mut gids: Vec<u32> = Vec::new();
        let mut i: usize = 0;
        while i < self.additional_gids.len()
            invariant
                i <= self.additional_gids.len(),
                gids@ == self.additional_gids@.take(i as int),
            decreases self.additional_gids.len() - i,
        {
            gids.push(self.additional_gids[i]);
            i += 1;
            assert(gids@ =~= self.additional_gids@.take(i as int));
        }
        assert(self.additional_gids@.take(self.additional_gids.len() as int)
            =~= self.additional_gids@);
        User { uid: self.uid, gid: self.gid, additional_gids: gids }
    }
}

impl Process {
    /// A copy of the process.
    pub fn copy(&self) -> (r: Process)
        ensures
            r.deep_view() == self.deep_view(),
    {
        Process { args: copy_texts(&self.args), env: copy_texts(&self.env), user: self.user.copy() }
    }
}

impl Device {
    /// A copy of the device rule.
    pub fn copy(&self) -> (r: Device)
        ensures
            r.deep_view() == self.deep_view(),
    {
        Device {
            allow: self.allow,
            typ: self.typ.clone(),
            major: self.major,
            minor: self.minor,
            access: self.access.clone(),
        }
    }
}

impl Resources {
    /// A copy of the limits.
    pub fn copy(&self) -> (r: Resources)
        ensures
            r.deep_view() == self.deep_view(),
    {
        let mut devices: Vec<Device> = Vec::new();
        let mut i: usize = 0;
        while i < self.devices.len()
            invariant
                i <= self.devices.len(),
                devices.deep_view() == self.devices.deep_view().take(i as int),
            decreases self.devices.len() - i,
        {
            let ghost before = devices.deep_view();
            let device = self.devices[i].copy();
            devices.push(device);
            assert(devices.deep_view() =~= before.push(device.deep_view()));
            i += 1;
            assert(devices.deep_view() =~= self.devices.deep_view().take(i as int));
        }
        assert(self.devices.deep_view().take(self.devices.len() as int)
            =~= self.devices.deep_view());
        Resources { devices }
    }
}

impl Linux {
    /// A copy of what concerns the kernel.
    pub fn copy(&self) -> (r: Linux)
        ensures
            r.deep_view() == self.deep_view(),
    {
        let mut namespaces: Vec<Namespace> = Vec::new();
        let mut i: usize = 0;
        while i < self.namespaces.len()
            invariant
                i <= self.namespaces.len(),
                namespaces@ == self.namespaces@.take(i as int),
            decreases self.namespaces.len() - i,
        {
            namespaces.push(self.namespaces[i]);
            i += 1;
            assert(namespaces@ =~= self.namespaces@.take(i as int));
        }
        assert(self.namespaces@.take(self.namespaces.len() as int) =~= self.namespaces@);
        let resources = match &self.resources {
            Some(resources) => Some(resources.copy()),
            None => None,
        };
        Linux { namespaces, resources }
    }
}

impl Spec {
    /// A copy of the configuration.
    pub fn copy(&self) -> (r: Spec)
        ensures
            r.deep_view() == self.deep_view(),
    {
        let linux = match &self.linux {
            Some(linux) => Some(linux.copy()),
            None => None,
        };
        Spec { process: self.process.copy(), hostname: self.hostname.clone(), linux }
    }
}

/// The namespaces of a new container.
pub open spec fn default_namespaces() -> Seq<Namespace> {
    seq![
        Namespace { typ: NamespaceType::Pid },
        Namespace { typ: NamespaceType::Mount },
        Namespace { typ: NamespaceType::Uts },
        Namespace { typ: NamespaceType::Ipc },
        Namespace { typ: NamespaceType::User },
    ]
}

/// The configuration of a new container keeps the rules.
pub proof fn lemma_default_is_well_formed(spec: Spec)
    requires
        spec.is_default(),
    ensures
        spec.well_formed(),
{
    reveal_strlit("/bin/sh");
    let ns = spec.namespaces();
    assert(ns == default_namespaces());
    assert(spec.process.args.deep_view().len() == spec.process.args@.len());
    assert(spec.process.args.deep_view()[0] == spec.process.args@[0]@);
    assert(ns[1].typ == NamespaceType::Mount);
}

} // verus!
