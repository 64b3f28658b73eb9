//! Containers: their place in the store, and the ordered operations that
//! start a process inside fresh namespaces and clean up behind it.

use vstd::prelude::*;
use crate::action::{
    append_actions, copy_texts, no_flags, push_action, push_text, Action, ActionView, Fork,
    MountFlags, Plan, Words,
};
use crate::config_json::decoded_spec;
use crate::document::Json;
use crate::error::Failure;
use crate::image::Image;
use crate::networking;
use crate::random::{is_random_name, random_name};
use crate::runtime_spec::{set_of, Device, Spec};
use crate::text::{
    after, before, contains_char, decimal, i64_to_decimal, join, joined, signed_decimal,
    starts_with, strip_prefix, take_after, take_before, u64_to_decimal,
};
use crate::utils::{container_path, image_path, path_below, prepare_directory};

verus! {

/// A container of the store.
#[derive(Clone, Debug, PartialEq, Eq)]
pub struct Container {
    pub id: String,
    /// The image whose layers lie below the container's own.
    pub image: Option<Image>,
    /// The directory of the container in the store.
    pub path: String,
    pub spec: Spec,
}

/// The network that a run gives its container: the address of the bridge
/// on the host and the address of the container, each with its prefix length.
#[derive(Clone, Debug, PartialEq, Eq)]
pub struct Network {
    pub host_ip: String,
    pub container_ip: String,
}

/// `name` below the directory `dir`.
pub open spec fn below(dir: Seq<char>, name: Seq<char>) -> Seq<char> {
    dir + "/"@ + name
}

/// The root of the container's file system.
pub open spec fn rootfs(path: Seq<char>) -> Seq<char> {
    below(path, "merged"@)
}

/// A mount.
pub open spec fn mount(
    source: Option<Seq<char>>,
    target: Seq<char>,
    fstype: Option<Seq<char>>,
    flags: MountFlags,
    options: Option<Seq<char>>,
) -> ActionView {
    ActionView::Mount { source, target, fstype, flags, options }
}

/// The mount of `source` on `target` as a view of the same files.
pub open spec fn bind(source: Seq<char>, target: Seq<char>, flags: MountFlags) -> ActionView {
    mount(Some(source), target, None, flags, None)
}

/// The options of a bound file of the host.
pub open spec fn file_flags() -> MountFlags {
    MountFlags { bind: true, nosuid: true, nodev: true, ..no_flags() }
}

/// The options of a bound tree of the host.
pub open spec fn tree_flags() -> MountFlags {
    MountFlags { bind: true, recursive: true, ..no_flags() }
}

/// The directories of the layers, as the container sees them below `lower`.
pub open spec fn lower_dirs(path: Seq<char>, layers: Seq<Seq<char>>) -> Seq<Seq<char>> {
    Seq::new(layers.len(), |i: int| below(below(path, "lower"@), layers[i]))
}

/// The options of the overlay: the layers in their order, the container's
/// own layer and the work directory.
pub open spec fn overlay_options(path: Seq<char>, layers: Seq<Seq<char>>) -> Seq<char> {
    "lowerdir="@ + joined(lower_dirs(path, layers), ":"@) + ",upperdir="@ + below(path, "upper"@)
        + ",workdir="@ + below(path, "work"@)
}

/// The controllers of the cgroup hierarchy, one directory each.
pub open spec fn cgroup_controllers() -> Seq<Seq<char>> {
    seq![
        "freezer"@,
        "hugetlb"@,
        "memory"@,
        "blkio"@,
        "cpuset"@,
        "cpu,cpuacct"@,
        "devices"@,
        "pids"@,
        "net_cls,net_prio"@,
        "perf_event"@,
        "rdma"@,
    ]
}

/// The mount of one controller: its directory made anew, and the
/// controller mounted on it.
pub open spec fn cgroup_mount(controller: Seq<char>) -> Seq<ActionView> {
    let dir = "sys/fs/cgroup/"@ + controller;
    seq![
        ActionView::RemoveDirAll { path: dir },
        ActionView::CreateDirAll { path: dir },
        mount(
            Some("cgroup"@),
            dir,
            Some("cgroup"@),
            MountFlags { nosuid: true, nodev: true, noexec: true, ..no_flags() },
            Some(controller),
        ),
    ]
}

/// The mounts of the first `count` controllers of `controllers`.
pub open spec fn cgroup_mounts(controllers: Seq<Seq<char>>, count: nat) -> Seq<ActionView>
    decreases count,
{
    if count == 0 || count > controllers.len() {
        Seq::empty()
    } else {
        cgroup_mounts(controllers, (count - 1) as nat) + cgroup_mount(controllers[count - 1])
    }
}

/// A number of a device rule, or a star for any.
pub open spec fn device_number(n: Option<i64>) -> Seq<char> {
    match n {
        Some(x) => signed_decimal(x as int),
        None => "*"@,
    }
}

/// The line of a device rule: the type, major and minor number, and the access.
pub open spec fn device_line(device: Device) -> Seq<char> {
    device.typ@ + " "@ + device_number(device.major) + ":"@ + device_number(device.minor) + " "@
        + device.access@
}

/// The write that programs one device rule; that it fails is reported,
/// no more.
pub open spec fn device_rule(device: Device) -> ActionView {
    ActionView::TryWriteFile {
        path: if device.allow {
            "sys/fs/cgroup/devices/devices.allow"@
        } else {
            "sys/fs/cgroup/devices/devices.deny"@
        },
        data: device_line(device),
    }
}

/// The line of an id map: the id inside the container, the id on the host
/// that it stands for, and the length 1.
pub open spec fn id_map_line(inside: u32, host: u32) -> Seq<char> {
    decimal(inside as nat) + " "@ + decimal(host as nat) + " 1\n"@
}

/// The variable of the environment that `entry` sets: what stands in front
/// of its first `=` gets what stands behind it.
pub open spec fn env_setting(entry: Seq<char>) -> ActionView {
    ActionView::SetEnv { name: before(entry, '='), value: after(entry, '=') }
}

impl Container {
    /// The container `id` in the store, with the configuration of a new container.
    pub open spec fn is_new(&self, id: Seq<char>, image: Option<Image>) -> bool {
        &&& self.id@ == id
        &&& self.image == image
        &&& self.path@ == container_path(id)
        &&& self.spec.is_default()
    }

    /// The layers below the container's own; none where it has no image.
    pub open spec fn layers(&self) -> Seq<Seq<char>> {
        match self.image {
            Some(image) => image.fs_layers.deep_view(),
            None => Seq::empty(),
        }
    }

    /// The container `id`, on `image`, with the configuration of a new container.
    pub fn with_id(id: String, image: Option<Image>) -> (r: Container)
        ensures
            r.is_new(id@, image),
            r.id == id,
    {
        let mut path = String::from_str("/var/lib/minato/containers/");
        path.append(id.as_str());
        Container { id, image, path, spec: Spec::default() }
    }

    /// A new container on `image`: the one named `container_id`, or one
    /// with a name of eight letters and digits drawn by chance.
    pub fn new(container_id: Option<&str>, image: Option<Image>) -> (r: Container)
        ensures
            r.is_new(r.id@, image),
            match container_id {
                Some(id) => r.id@ == id@,
                None => is_random_name(r.id@, 8),
            },
    {
        let id = match container_id {
            Some(id) => String::from_str(id),
            None => random_name(8),
        };
        Container::with_id(id, image)
    }

    fn sub(&self, name: &str) -> (r: String)
        ensures
            r@ == below(self.path@, name@),
    {
        let mut path = self.path.clone();
        path.append("/");
        path.append(name);
        path
    }

    /// What `create` asks for where there is something to make: the
    /// container's directory with `upper`, `work` and `merged` in it, the
    /// link `lower` to the image's directory, and the container's
    /// configuration in `config.json`.
    pub open spec fn create_plan(&self, image: Image) -> Seq<ActionView> {
        seq![
            ActionView::CreateDirAll { path: self.path@ },
            ActionView::CreateDirAll { path: below(self.path@, "upper"@) },
            ActionView::CreateDirAll { path: below(self.path@, "work"@) },
            ActionView::CreateDirAll { path: below(self.path@, "merged"@) },
            ActionView::Symlink {
                target: image_path(image.id@),
                link: below(self.path@, "lower"@),
            },
            ActionView::SaveSpec {
                path: below(self.path@, "config.json"@),
                spec: self.spec.deep_view(),
            },
        ]
    }

    /// Make the container in the store. `exists` says whether its directory
    /// is there already: then nothing is done, and that is reported.
    /// Without an image nothing is done either.
    pub fn create(&self, exists: bool) -> (r: Plan)
        ensures
            r.cleanup@.len() == 0,
            exists ==> r.actions@.len() == 0 && r.issue == Some(Failure::ContainerExists),
            !exists && self.image is None ==> r.actions@.len() == 0 && r.issue == Some(
                Failure::ImageNotFound,
            ),
            !exists && self.image is Some ==> r.actions.deep_view() == self.create_plan(
                self.image.unwrap(),
            ) && r.issue is None,
    {
        if exists {
            return Plan::skip(Failure::ContainerExists);
        }
        match &self.image {
            None => Plan::skip(Failure::ImageNotFound),
            Some(image) => {
                let mut target = String::from_str("/var/lib/minato/images/");
                target.append(image.id.as_str());
                let mut plan: Vec<Action> = Vec::new();
                push_action(&mut plan, Action::CreateDirAll { path: self.path.clone() });
                push_action(&mut plan, Action::CreateDirAll { path: self.sub("upper") });
                push_action(&mut plan, Action::CreateDirAll { path: self.sub("work") });
                push_action(&mut plan, Action::CreateDirAll { path: self.sub("merged") });
                push_action(&mut plan, Action::Symlink { target, link: self.sub("lower") });
                push_action(
                    &mut plan,
                    Action::SaveSpec { path: self.sub("config.json"), spec: self.spec.copy() },
                );
                assert(plan.deep_view() =~= self.create_plan(*image));
                Plan::of(plan)
            },
        }
    }

    /// The image id that the target of a container's link `lower` stands
    /// for: what follows the directory of the images; nothing where the
    /// link does not lead there.
    pub open spec fn linked_image(target: Seq<char>) -> Option<Seq<char>> {
        if "/var/lib/minato/images/"@.is_prefix_of(target) {
            Some(target.skip("/var/lib/minato/images/"@.len() as int))
        } else {
            None
        }
    }

    /// The image id that the target of a container's link `lower` stands for.
    pub fn linked_image_id(target: &str) -> (r: Option<String>)
        ensures
            r.deep_view() == Self::linked_image(target@),
    {
        if starts_with(target, "/var/lib/minato/images/") {
            Some(strip_prefix(target, "/var/lib/minato/images/"))
        } else {
            None
        }
    }

    /// Load the stored container `container_name` from what the store
    /// holds of it: `stored` says whether its directory is there, `image`
    /// is its image, found through the link `lower`, or nothing where that
    /// image is not in the store, and `config` is the document in
    /// `config.json`. There is no container where the directory or the
    /// image is absent; then the document is not read. A document that
    /// holds no configuration is refused.
    pub fn load(container_name: &str, stored: bool, image: Option<Image>, config: &Json) -> (r:
        Result<Option<Container>, Failure>)
        ensures
            !stored || image is None ==> r == Ok::<Option<Container>, Failure>(None),
            stored && image is Some ==> match decoded_spec(config.deep_view()) {
                Err(e) => r == Err::<Option<Container>, Failure>(e),
                Ok(spec) => (r matches Ok(Some(c)) && c.id@ == container_name@ && c.path@
                    == container_path(container_name@) && c.image == image
                    && c.spec.deep_view() == spec),
            },
    {
        if !stored {
            return Ok(None);
        }
        if image.is_none() {
            return Ok(None);
        }
        let spec = match Spec::load(config) {
            Ok(spec) => spec,
            Err(e) => {
                return Err(e);
            },
        };
        let mut container = Container::with_id(String::from_str(container_name), image);
        container.spec = spec;
        Ok(Some(container))
    }

    /// What `delete` asks for where there is something to remove.
    pub open spec fn delete_plan(&self) -> Seq<ActionView> {
        seq![ActionView::RemoveDirAll { path: self.path@ }]
    }

    /// Remove the container from the store. `exists` says whether its
    /// directory is there: where it is not, nothing is done, and that is
    /// reported.
    pub fn delete(&self, exists: bool) -> (r: Plan)
        ensures
            r.cleanup@.len() == 0,
            !exists ==> r.actions@.len() == 0 && r.issue == Some(Failure::ContainerNotFound),
            exists ==> r.actions.deep_view() == self.delete_plan() && r.issue is None,
    {
        if !exists {
            return Plan::skip(Failure::ContainerNotFound);
        }
        let mut plan: Vec<Action> = Vec::new();
        push_action(&mut plan, Action::RemoveDirAll { path: self.path.clone() });
        assert(plan.deep_view() =~= self.delete_plan());
        Plan::of(plan)
    }

    /// What `mount_container_filesystem` asks for: the overlay of the
    /// image's layers, in their order, and the container's own layer, on
    /// `merged`.
    pub open spec fn mount_container_filesystem_plan(&self) -> Seq<ActionView> {
        seq![
            mount(
                Some("overlay"@),
                rootfs(self.path@),
                Some("overlay"@),
                no_flags(),
                Some(overlay_options(self.path@, self.layers())),
            ),
        ]
    }

    fn lower_directories(&self) -> (r: Vec<String>)
        ensures
            r.deep_view() == lower_dirs(self.path@, self.layers()),
    {
        let mut dirs: Vec<String> = Vec::new();
        match &self.image {
            None => {
                assert(dirs.deep_view() =~= lower_dirs(self.path@, self.layers()));
            },
            Some(image) => {
                let lower = self.sub("lower");
                let mut i: usize = 0;
                while i < image.fs_layers.len()
                    invariant
                        i <= image.fs_layers.len(),
                        lower@ == below(self.path@, "lower"@),
                        self.layers() == image.fs_layers.deep_view(),
                        dirs.deep_view() == lower_dirs(self.path@, self.layers()).take(i as int),
                    decreases image.fs_layers.len() - i,
                {
                    let mut dir = lower.clone();
                    dir.append("/");
                    dir.append(image.fs_layers[i].as_str());
                    push_text(&mut dirs, dir);
                    i += 1;
                    assert(dirs.deep_view() =~= lower_dirs(self.path@, self.layers()).take(
                        i as int,
                    ));
                }
                assert(dirs.deep_view() =~= lower_dirs(self.path@, self.layers()));
            },
        }
        dirs
    }

    /// Mount the layers of the container as one file system.
    pub fn mount_container_filesystem(&self) -> (r: Vec<Action>)
        ensures
            r.deep_view() == self.mount_container_filesystem_plan(),
    {
        let dirs = self.lower_directories();
        let mut options = String::from_str("lowerdir=");
        options.append(join(&dirs, ":").as_str());
        options.append(",upperdir=");
        options.append(self.sub("upper").as_str());
        options.append(",workdir=");
        options.append(self.sub("work").as_str());
        let mut plan: Vec<Action> = Vec::new();
        push_action(
            &mut plan,
            Action::Mount {
                source: Some(String::from_str("overlay")),
                target: self.sub("merged"),
                fstype: Some(String::from_str("overlay")),
                flags: MountFlags::none(),
                options: Some(options),
            },
        );
        assert(plan.deep_view() =~= self.mount_container_filesystem_plan());
        plan
    }

    /// What `prepare_container_mountpoint` asks for: the namespaces of the
    /// configuration, the root of the parent made private with all below
    /// it, the container's root mounted on itself, and the working
    /// directory moved there.
    pub open spec fn prepare_container_mountpoint_plan(&self) -> Seq<ActionView> {
        seq![
            ActionView::Unshare { namespaces: set_of(self.spec.namespaces()) },
            mount(
                None,
                "/"@,
                None,
                MountFlags { recursive: true, private: true, ..no_flags() },
                None,
            ),
            bind(
                rootfs(self.path@),
                rootfs(self.path@),
                MountFlags { bind: true, nosuid: true, ..no_flags() },
            ),
            ActionView::ChangeDir { path: rootfs(self.path@) },
        ]
    }

    /// Prepare the root of the container.
    pub fn prepare_container_mountpoint(&self) -> (r: Vec<Action>)
        ensures
            r.deep_view() == self.prepare_container_mountpoint_plan(),
    {
        let namespaces = self.spec.namespace_set();
        let mut plan: Vec<Action> = Vec::new();
        push_action(&mut plan, Action::Unshare { namespaces });
        push_action(
            &mut plan,
            Action::Mount {
                source: None,
                target: String::from_str("/"),
                fstype: None,
                flags: MountFlags { recursive: true, private: true, ..MountFlags::none() },
                options: None,
            },
        );
        push_action(
            &mut plan,
            Action::Mount {
                source: Some(self.sub("merged")),
                target: self.sub("merged"),
                fstype: None,
                flags: MountFlags { bind: true, nosuid: true, ..MountFlags::none() },
                options: None,
            },
        );
        push_action(&mut plan, Action::ChangeDir { path: self.sub("merged") });
        assert(plan.deep_view() =~= self.prepare_container_mountpoint_plan());
        plan
    }

    /// What `prepare_container_directories` asks for: the directories
    /// `put_old`, `dev`, `sys`, `proc` and `old_proc` in the container's
    /// root, each made anew.
    pub open spec fn prepare_container_directories_plan(&self) -> Seq<ActionView> {
        let root = rootfs(self.path@);
        fresh_directory(root, "put_old"@) + fresh_directory(root, "dev"@) + fresh_directory(
            root,
            "sys"@,
        ) + fresh_directory(root, "proc"@) + fresh_directory(root, "old_proc"@)
    }

    /// Make the directories that the later steps mount on.
    pub fn prepare_container_directories(&self) -> (r: Vec<Action>)
        ensures
            r.deep_view() == self.prepare_container_directories_plan(),
    {
        let root = self.sub("merged");
        let mut plan: Vec<Action> = Vec::new();
        append_actions(&mut plan, prepare_directory(root.as_str(), "put_old", 0o755));
        append_actions(&mut plan, prepare_directory(root.as_str(), "dev", 0o755));
        append_actions(&mut plan, prepare_directory(root.as_str(), "sys", 0o755));
        append_actions(&mut plan, prepare_directory(root.as_str(), "proc", 0o755));
        append_actions(&mut plan, prepare_directory(root.as_str(), "old_proc", 0o755));
        assert(plan.deep_view() =~= self.prepare_container_directories_plan());
        plan
    }

    /// What `prepare_container_networking` asks for: the host's `hosts` and
    /// `resolv.conf` bound onto the container's.
    pub open spec fn prepare_container_networking_plan() -> Seq<ActionView> {
        seq![
            ActionView::EnsureFile { path: "etc/hosts"@ },
            bind("/etc/hosts"@, "etc/hosts"@, file_flags()),
            ActionView::EnsureFile { path: "etc/resolv.conf"@ },
            bind("/etc/resolv.conf"@, "etc/resolv.conf"@, file_flags()),
        ]
    }

    /// Bind the files of the host that name other hosts.
    pub fn prepare_container_networking(&self) -> (r: Vec<Action>)
        ensures
            r.deep_view() == Self::prepare_container_networking_plan(),
    {
        let mut plan: Vec<Action> = Vec::new();
        push_action(&mut plan, Action::EnsureFile { path: String::from_str("etc/hosts") });
        push_action(&mut plan, bind_file("/etc/hosts", "etc/hosts"));
        push_action(&mut plan, Action::EnsureFile { path: String::from_str("etc/resolv.conf") });
        push_action(&mut plan, bind_file("/etc/resolv.conf", "etc/resolv.conf"));
        assert(plan.deep_view() =~= Self::prepare_container_networking_plan());
        plan
    }

    /// What `bind_init_shim` asks for: the init program of the state root
    /// bound onto `sbin/tini` in the container.
    pub open spec fn bind_init_shim_plan() -> Seq<ActionView> {
        seq![
            ActionView::EnsureFile { path: "sbin/tini"@ },
            bind("/var/lib/minato/tini"@, "sbin/tini"@, file_flags()),
        ]
    }

    /// Bind the init program into the container.
    pub fn bind_init_shim(&self) -> (r: Vec<Action>)
        ensures
            r.deep_view() == Self::bind_init_shim_plan(),
    {
        let mut plan: Vec<Action> = Vec::new();
        push_action(&mut plan, Action::EnsureFile { path: String::from_str("sbin/tini") });
        push_action(&mut plan, bind_file("/var/lib/minato/tini", "sbin/tini"));
        assert(plan.deep_view() =~= Self::bind_init_shim_plan());
        plan
    }

    /// What `mount_container_directories` asks for: the host's `/proc`
    /// bound onto `old_proc`, and its `/dev` onto `dev`.
    pub open spec fn mount_container_directories_plan() -> Seq<ActionView> {
        seq![
            bind("/proc"@, "old_proc"@, tree_flags()),
            bind("/dev"@, "dev"@, tree_flags()),
        ]
    }

    /// Bind the trees of the host that the container sees.
    pub fn mount_container_directories(&self) -> (r: Vec<Action>)
        ensures
            r.deep_view() == Self::mount_container_directories_plan(),
    {
        let mut plan: Vec<Action> = Vec::new();
        push_action(&mut plan, bind_tree("/proc", "old_proc"));
        push_action(&mut plan, bind_tree("/dev", "dev"));
        assert(plan.deep_view() =~= Self::mount_container_directories_plan());
        plan
    }

    /// What `mount_container_cgroup_hierarchy` asks for: every controller
    /// mounted on a directory of its own below `sys/fs/cgroup`.
    pub open spec fn mount_container_cgroup_hierarchy_plan() -> Seq<ActionView> {
        cgroup_mounts(cgroup_controllers(), cgroup_controllers().len())
    }

    /// Mount the cgroup hierarchy.
    pub fn mount_container_cgroup_hierarchy(&self) -> (r: Vec<Action>)
        ensures
            r.deep_view() == Self::mount_container_cgroup_hierarchy_plan(),
    {
        let controllers = Words::new().with("freezer").with("hugetlb").with("memory").with(
            "blkio",
        ).with("cpuset").with("cpu,cpuacct").with("devices").with("pids").with(
            "net_cls,net_prio",
        ).with("perf_event").with("rdma").done();
        assert(controllers.deep_view() =~= cgroup_controllers());
        let mut plan: Vec<Action> = Vec::new();
        let mut i: usize = 0;
        while i < controllers.len()
            invariant
                i <= controllers.len(),
                controllers.deep_view() == cgroup_controllers(),
                plan.deep_view() == cgroup_mounts(cgroup_controllers(), i as nat),
            decreases controllers.len() - i,
        {
            let controller = controllers[i].as_str();
            assert(controller@ == cgroup_controllers()[i as int]);
            let mut dir = String::from_str("sys/fs/cgroup/");
            dir.append(controller);
            let ghost done = plan.deep_view();
            push_action(&mut plan, Action::RemoveDirAll { path: dir.clone() });
            push_action(&mut plan, Action::CreateDirAll { path: dir.clone() });
            push_action(
                &mut plan,
                Action::Mount {
                    source: Some(String::from_str("cgroup")),
                    target: dir,
                    fstype: Some(String::from_str("cgroup")),
                    flags: MountFlags {
                        nosuid: true,
                        nodev: true,
                        noexec: true,
                        ..MountFlags::none()
                    },
                    options: Some(String::from_str(controller)),
                },
            );
            assert(plan.deep_view() =~= done + cgroup_mount(controller@));
            i += 1;
        }
        plan
    }

    /// The device rules of the configuration; none where it names none.
    pub open spec fn devices(&self) -> Seq<Device> {
        match self.spec.linux {
            Some(linux) => match linux.resources {
                Some(resources) => resources.devices@,
                None => Seq::empty(),
            },
            None => Seq::empty(),
        }
    }

    /// What `configure_cgroups` asks for: one write for each device rule of
    /// the configuration, in their order. A write that fails does not stop
    /// the start of the container.
    pub open spec fn configure_cgroups_plan(&self) -> Seq<ActionView> {
        Seq::new(self.devices().len(), |i: int| device_rule(self.devices()[i]))
    }

    /// Program the devices cgroup as the configuration says.
    pub fn configure_cgroups(&self) -> (r: Vec<Action>)
        ensures
            r.deep_view() == self.configure_cgroups_plan(),
    {
        let mut plan: Vec<Action> = Vec::new();
        let resources = match &self.spec.linux {
            Some(linux) => &linux.resources,
            None => {
                assert(plan.deep_view() =~= self.configure_cgroups_plan());
                return plan;
            },
        };
        let devices = match resources {
            Some(resources) => &resources.devices,
            None => {
                assert(plan.deep_view() =~= self.configure_cgroups_plan());
                return plan;
            },
        };
        let mut i: usize = 0;
        while i < devices.len()
            invariant
                i <= devices.len(),
                devices@ == self.devices(),
                plan.deep_view() == self.configure_cgroups_plan().take(i as int),
            decreases devices.len() - i,
        {
            let device = &devices[i];
            let path = if device.allow {
                String::from_str("sys/fs/cgroup/devices/devices.allow")
            } else {
                String::from_str("sys/fs/cgroup/devices/devices.deny")
            };
            let mut data = device.typ.clone();
            data.append(" ");
            data.append(device_number_text(device.major).as_str());
            data.append(":");
            data.append(device_number_text(device.minor).as_str());
            data.append(" ");
            data.append(device.access.as_str());
            push_action(&mut plan, Action::TryWriteFile { path, data });
            i += 1;
            assert(plan.deep_view() =~= self.configure_cgroups_plan().take(i as int));
        }
        assert(plan.deep_view() =~= self.configure_cgroups_plan());
        plan
    }

    /// What `prepare_container_id_maps` asks for: the user and the group of
    /// the configuration stand for `host_uid` and `host_gid` of the host;
    /// before the groups are mapped, `setgroups` is denied.
    pub open spec fn prepare_container_id_maps_plan(&self, host_uid: u32, host_gid: u32) -> Seq<
        ActionView,
    > {
        seq![
            ActionView::Overwrite {
                path: "/proc/self/uid_map"@,
                data: id_map_line(self.spec.process.user.uid, host_uid),
            },
            ActionView::Overwrite { path: "/proc/self/setgroups"@, data: "deny"@ },
            ActionView::Overwrite {
                path: "/proc/self/gid_map"@,
                data: id_map_line(self.spec.process.user.gid, host_gid),
            },
        ]
    }

    /// Write the id maps of the user namespace.
    pub fn prepare_container_id_maps(&self, host_uid: u32, host_gid: u32) -> (r: Vec<Action>)
        ensures
            r.deep_view() == self.prepare_container_id_maps_plan(host_uid, host_gid),
    {
        let mut plan: Vec<Action> = Vec::new();
        push_action(
            &mut plan,
            Action::Overwrite {
                path: String::from_str("/proc/self/uid_map"),
                data: id_map_text(self.spec.process.user.uid, host_uid),
            },
        );
        push_action(
            &mut plan,
            Action::Overwrite {
                path: String::from_str("/proc/self/setgroups"),
                data: String::from_str("deny"),
            },
        );
        push_action(
            &mut plan,
            Action::Overwrite {
                path: String::from_str("/proc/self/gid_map"),
                data: id_map_text(self.spec.process.user.gid, host_gid),
            },
        );
        assert(plan.deep_view() =~= self.prepare_container_id_maps_plan(host_uid, host_gid));
        plan
    }

    /// What `prepare_container_ids` asks for: the user and the group of the
    /// configuration taken on, with the capabilities kept over the change.
    pub open spec fn prepare_container_ids_plan(&self) -> Seq<ActionView> {
        seq![
            ActionView::KeepCapabilities { keep: true },
            ActionView::SetIds {
                uid: self.spec.process.user.uid,
                gid: self.spec.process.user.gid,
            },
            ActionView::KeepCapabilities { keep: false },
        ]
    }

    /// Take on the user and the group of the configuration.
    pub fn prepare_container_ids(&self) -> (r: Vec<Action>)
        ensures
            r.deep_view() == self.prepare_container_ids_plan(),
    {
        let mut plan: Vec<Action> = Vec::new();
        push_action(&mut plan, Action::KeepCapabilities { keep: true });
        push_action(
            &mut plan,
            Action::SetIds { uid: self.spec.process.user.uid, gid: self.spec.process.user.gid },
        );
        push_action(&mut plan, Action::KeepCapabilities { keep: false });
        assert(plan.deep_view() =~= self.prepare_container_ids_plan());
        plan
    }

    /// What `pivot_container_root` asks for: the working directory becomes
    /// the root, and the old root is let go and removed.
    pub open spec fn pivot_container_root_plan() -> Seq<ActionView> {
        seq![
            ActionView::PivotRoot { new_root: "."@, put_old: "put_old"@ },
            ActionView::Detach { target: "/put_old"@ },
            ActionView::RemoveDirAll { path: "/put_old"@ },
        ]
    }

    /// Change the root of the mount namespace to the container's.
    pub fn pivot_container_root(&self) -> (r: Vec<Action>)
        ensures
            r.deep_view() == Self::pivot_container_root_plan(),
    {
        let mut plan: Vec<Action> = Vec::new();
        push_action(
            &mut plan,
            Action::PivotRoot {
                new_root: String::from_str("."),
                put_old: String::from_str("put_old"),
            },
        );
        push_action(&mut plan, Action::Detach { target: String::from_str("/put_old") });
        push_action(&mut plan, Action::RemoveDirAll { path: String::from_str("/put_old") });
        assert(plan.deep_view() =~= Self::pivot_container_root_plan());
        plan
    }

    /// What `remount_container_directories` asks for: a fresh `/proc`, the
    /// host's let go and removed, and the root mounted again on itself.
    pub open spec fn remount_container_directories_plan() -> Seq<ActionView> {
        seq![
            mount(
                Some("/proc"@),
                "/proc"@,
                Some("proc"@),
                MountFlags { nosuid: true, ..no_flags() },
                None,
            ),
            ActionView::Detach { target: "/old_proc"@ },
            ActionView::RemoveDirAll { path: "/old_proc"@ },
            bind(
                "/"@,
                "/"@,
                MountFlags { bind: true, nosuid: true, remount: true, ..no_flags() },
            ),
        ]
    }

    /// Mount `/proc` and the root again, inside the new namespaces.
    pub fn remount_container_directories(&self) -> (r: Vec<Action>)
        ensures
            r.deep_view() == Self::remount_container_directories_plan(),
    {
        let mut plan: Vec<Action> = Vec::new();
        push_action(
            &mut plan,
            Action::Mount {
                source: Some(String::from_str("/proc")),
                target: String::from_str("/proc"),
                fstype: Some(String::from_str("proc")),
                flags: MountFlags { nosuid: true, ..MountFlags::none() },
                options: None,
            },
        );
        push_action(&mut plan, Action::Detach { target: String::from_str("/old_proc") });
        push_action(&mut plan, Action::RemoveDirAll { path: String::from_str("/old_proc") });
        push_action(
            &mut plan,
            Action::Mount {
                source: Some(String::from_str("/")),
                target: String::from_str("/"),
                fstype: None,
                flags: MountFlags { bind: true, nosuid: true, remount: true, ..MountFlags::none() },
                options: None,
            },
        );
        assert(plan.deep_view() =~= Self::remount_container_directories_plan());
        plan
    }

    /// What `unmount_container_filesystem` asks for.
    pub open spec fn unmount_container_filesystem_plan(&self) -> Seq<ActionView> {
        seq![ActionView::Unmount { target: rootfs(self.path@) }]
    }

    /// Unmount the container's file system.
    pub fn unmount_container_filesystem(&self) -> (r: Vec<Action>)
        ensures
            r.deep_view() == self.unmount_container_filesystem_plan(),
    {
        let mut plan: Vec<Action> = Vec::new();
        push_action(&mut plan, Action::Unmount { target: self.sub("merged") });
        assert(plan.deep_view() =~= self.unmount_container_filesystem_plan());
        plan
    }

    /// The start of the init program with the process of the configuration
    /// as its arguments, and with the environment of the configuration.
    pub open spec fn init_exec(&self) -> ActionView {
        ActionView::Exec {
            path: "tini"@,
            args: seq!["tini"@] + self.spec.process.args.deep_view(),
            env: self.spec.process.env.deep_view(),
            search: true,
        }
    }

    /// What `do_exec` asks for: every variable of the configuration's
    /// environment set, in their order, and then the init program started.
    pub open spec fn do_exec_plan(&self) -> Seq<ActionView> {
        let env = self.spec.process.env.deep_view();
        Seq::new(env.len(), |i: int| env_setting(env[i])).push(self.init_exec())
    }

    /// Start the process of the container. An entry of the environment
    /// without `=` is refused.
    pub fn do_exec(&self) -> (r: Result<Vec<Action>, Failure>)
        ensures
            environment_well_formed(self.spec.process.env.deep_view()) ==> (r matches Ok(plan)
                && plan.deep_view() == self.do_exec_plan()),
            !environment_well_formed(self.spec.process.env.deep_view()) ==> r == Err::<
                Vec<Action>,
                Failure,
            >(Failure::BadEnvironment),
    {
        let env = &self.spec.process.env;
        let ghost entries = env.deep_view();
        let ghost settings = Seq::new(entries.len(), |i: int| env_setting(entries[i]));
        let mut plan: Vec<Action> = Vec::new();
        let mut i: usize = 0;
        while i < env.len()
            invariant
                i <= env.len(),
                *env == self.spec.process.env,
                entries == env.deep_view(),
                entries.len() == env.len(),
                settings == Seq::new(entries.len(), |i: int| env_setting(entries[i])),
                forall|j: int| 0 <= j < i ==> (#[trigger] entries[j]).contains('='),
                plan.deep_view() == settings.take(i as int),
            decreases env.len() - i,
        {
            let entry = env[i].as_str();
            assert(entry@ == entries[i as int]);
            if !contains_char(entry, '=') {
                assert(!self.spec.process.env.deep_view()[i as int].contains('='));
                return Err(Failure::BadEnvironment);
            }
            push_action(
                &mut plan,
                Action::SetEnv { name: take_before(entry, '='), value: take_after(entry, '=') },
            );
            i += 1;
            assert(plan.deep_view() =~= settings.take(i as int));
        }
        assert(settings.take(env.len() as int) =~= settings);
        let mut args: Vec<String> = Vec::new();
        push_text(&mut args, String::from_str("tini"));
        let mut k: usize = 0;
        while k < self.spec.process.args.len()
            invariant
                k <= self.spec.process.args.len(),
                args.deep_view() == seq!["tini"@] + self.spec.process.args.deep_view().take(
                    k as int,
                ),
            decreases self.spec.process.args.len() - k,
        {
            push_text(&mut args, self.spec.process.args[k].clone());
            k += 1;
            assert(args.deep_view() =~= seq!["tini"@] + self.spec.process.args.deep_view().take(
                k as int,
            ));
        }
        assert(self.spec.process.args.deep_view().take(self.spec.process.args.len() as int)
            =~= self.spec.process.args.deep_view());
        push_action(
            &mut plan,
            Action::Exec {
                path: String::from_str("tini"),
                args,
                env: copy_texts(env),
                search: true,
            },
        );
        Ok(plan)
    }

    /// What the first process of the container does: the mounts renewed,
    /// the host name of the configuration set, and the init program started.
    pub open spec fn inner_child_plan(&self) -> Seq<ActionView> {
        Self::remount_container_directories_plan() + seq![
            ActionView::SetHostname { name: self.spec.hostname@ },
        ] + self.do_exec_plan()
    }

    /// What the process that forked the container's first process does: in
    /// the foreground it waits for it and ends; as a daemon, nothing.
    pub open spec fn inner_parent_plan(child: i32, daemon: bool) -> Seq<ActionView> {
        if daemon {
            Seq::empty()
        } else {
            seq![ActionView::Wait { pid: child }, ActionView::Exit { code: 0 }]
        }
    }

    /// The second fork, which brings a process into the new pid namespace:
    /// what each side does once `fork` is known. Only the new process
    /// starts the init program. That no process was made is reported.
    pub fn execute_inner_fork(&self, fork: Fork, daemon: bool) -> (r: Result<Plan, Failure>)
        ensures
            fork matches Fork::Child && !environment_well_formed(
                self.spec.process.env.deep_view(),
            ) ==> r == Err::<Plan, Failure>(Failure::BadEnvironment),
            fork matches Fork::Child && environment_well_formed(self.spec.process.env.deep_view())
                ==> (r matches Ok(plan) && plan.actions.deep_view() == self.inner_child_plan()
                && plan.cleanup@.len() == 0 && plan.issue is None),
            fork matches Fork::Parent { child } ==> (r matches Ok(plan) && plan.actions.deep_view()
                == Self::inner_parent_plan(child, daemon) && plan.cleanup@.len() == 0
                && plan.issue is None),
            fork matches Fork::Failed ==> (r matches Ok(plan) && plan.is_empty() && plan.issue
                == Some(Failure::System)),
    {
        match fork {
            Fork::Child => {
                let exec = match self.do_exec() {
                    Ok(plan) => plan,
                    Err(e) => {
                        return Err(e);
                    },
                };
                let mut plan = self.remount_container_directories();
                push_action(&mut plan, Action::SetHostname { name: self.spec.hostname.clone() });
                append_actions(&mut plan, exec);
                Ok(Plan::of(plan))
            },
            Fork::Parent { child } => {
                let mut plan: Vec<Action> = Vec::new();
                if !daemon {
                    push_action(&mut plan, Action::Wait { pid: child });
                    push_action(&mut plan, Action::Exit { code: 0 });
                }
                assert(plan.deep_view() =~= Self::inner_parent_plan(child, daemon));
                Ok(Plan::of(plan))
            },
            Fork::Failed => Ok(Plan::skip(Failure::System)),
        }
    }

    /// What `cleanup` asks for: the container's file system unmounted, its
    /// network taken down, and its pid file removed.
    pub open spec fn cleanup_plan(&self) -> Seq<ActionView> {
        self.unmount_container_filesystem_plan()
            + networking::delete_container_from_network_plan(self.id@)
            + networking::remove_veth_from_bridge_plan(self.id@) + networking::delete_veth_plan(
            self.id@,
        ) + networking::delete_bridge_plan() + networking::delete_network_namespace_plan(self.id@)
            + seq![ActionView::RemoveFile { path: below(self.path@, "pid"@) }]
    }

    /// Clean up behind a run of the container.
    pub fn cleanup(&self) -> (r: Vec<Action>)
        ensures
            r.deep_view() == self.cleanup_plan(),
    {
        let id = self.id.as_str();
        let mut plan = self.unmount_container_filesystem();
        append_actions(&mut plan, networking::delete_container_from_network(id));
        append_actions(&mut plan, networking::remove_veth_from_bridge(id));
        append_actions(&mut plan, networking::delete_veth(id));
        append_actions(&mut plan, networking::delete_bridge(id));
        append_actions(&mut plan, networking::delete_network_namespace(id));
        push_action(&mut plan, Action::RemoveFile { path: self.sub("pid") });
        assert(plan.deep_view() =~= self.cleanup_plan());
        plan
    }

    /// What `clean_run` asks for, in the order of the steps: the file
    /// system mounted; the namespaces left, the parent's root made private
    /// and the container's root bound; the auxiliary directories made; the
    /// host's files and the init program bound in; `/proc` and `/dev`
    /// bound; the cgroup hierarchy mounted and the device rules written;
    /// the id maps written; the root changed.
    pub open spec fn clean_run_plan(&self, host_uid: u32, host_gid: u32) -> Seq<ActionView> {
        self.mount_container_filesystem_plan() + self.prepare_container_mountpoint_plan()
            + self.prepare_container_directories_plan() + Self::prepare_container_networking_plan()
            + Self::bind_init_shim_plan() + Self::mount_container_directories_plan()
            + Self::mount_container_cgroup_hierarchy_plan() + self.configure_cgroups_plan()
            + self.prepare_container_id_maps_plan(host_uid, host_gid)
            + Self::pivot_container_root_plan()
    }

    /// What the process does that becomes the container, up to the second
    /// fork. `host_uid` and `host_gid` are the user and the group of the
    /// host that run the container.
    pub fn clean_run(&self, host_uid: u32, host_gid: u32) -> (r: Vec<Action>)
        ensures
            r.deep_view() == self.clean_run_plan(host_uid, host_gid),
    {
        let mut plan = self.mount_container_filesystem();
        append_actions(&mut plan, self.prepare_container_mountpoint());
        append_actions(&mut plan, self.prepare_container_directories());
        append_actions(&mut plan, self.prepare_container_networking());
        append_actions(&mut plan, self.bind_init_shim());
        append_actions(&mut plan, self.mount_container_directories());
        append_actions(&mut plan, self.mount_container_cgroup_hierarchy());
        append_actions(&mut plan, self.configure_cgroups());
        append_actions(&mut plan, self.prepare_container_id_maps(host_uid, host_gid));
        append_actions(&mut plan, self.pivot_container_root());
        plan
    }

    /// The content of the pid file while `child` runs the container.
    pub open spec fn pid_line(child: i32) -> Seq<char> {
        signed_decimal(child as int) + "\n"@
    }

    /// The network brought up for the container whose first process is
    /// `child`; nothing where the run asks for no network.
    pub open spec fn network_plan(&self, child: i32, network: Option<Network>) -> Seq<ActionView> {
        match network {
            Some(n) => networking::create_bridge_plan(n.host_ip@) + networking::create_veth_plan(
                self.id@,
            ) + networking::add_veth_to_bridge_plan(self.id@)
                + networking::add_container_to_network_plan(self.id@, child, n.container_ip@),
            None => Seq::empty(),
        }
    }

    /// What the supervisor does once `child` runs the container: it writes
    /// the pid file, pauses until the child's namespaces can be seen, and
    /// brings up the network.
    pub open spec fn supervise_plan(&self, child: i32, network: Option<Network>) -> Seq<
        ActionView,
    > {
        seq![
            ActionView::RemoveFile { path: below(self.path@, "pid"@) },
            ActionView::WriteFile { path: below(self.path@, "pid"@), data: Self::pid_line(child) },
            ActionView::Sleep { millis: 10 },
        ] + self.network_plan(child, network)
    }

    /// What the supervisor asks for, with the wait for the child in the
    /// foreground.
    pub open spec fn supervisor_actions(
        &self,
        child: i32,
        daemon: bool,
        network: Option<Network>,
    ) -> Seq<ActionView> {
        if daemon {
            self.supervise_plan(child, network)
        } else {
            self.supervise_plan(child, network).push(ActionView::Wait { pid: child })
        }
    }

    /// Run the container: what each side of the first fork does once `fork`
    /// is known.
    ///
    /// The new process prepares the container (`clean_run`). The supervisor
    /// writes the pid file and brings up the network; in the foreground it
    /// waits for the child and cleans up whatever happened, as a daemon it
    /// returns, and `cleanup` is due when the child has ended. Where no
    /// process was made, the supervisor cleans up and reports that.
    pub fn run(
        &self,
        fork: Fork,
        daemon: bool,
        network: Option<Network>,
        host_uid: u32,
        host_gid: u32,
    ) -> (r: Plan)
        ensures
            fork matches Fork::Child ==> r.actions.deep_view() == self.clean_run_plan(
                host_uid,
                host_gid,
            ) && r.cleanup@.len() == 0 && r.issue is None,
            fork matches Fork::Parent { child } ==> r.actions.deep_view()
                == self.supervisor_actions(child, daemon, network) && r.issue is None && (daemon
                ==> r.cleanup@.len() == 0) && (!daemon ==> r.cleanup.deep_view()
                == self.cleanup_plan()),
            fork matches Fork::Failed ==> r.actions@.len() == 0 && r.cleanup.deep_view()
                == self.cleanup_plan() && r.issue == Some(Failure::System),
    {
        match fork {
            Fork::Child => Plan::of(self.clean_run(host_uid, host_gid)),
            Fork::Parent { child } => {
                let id = self.id.as_str();
                let mut line = i64_to_decimal(child as i64);
                line.append("\n");
                let mut plan: Vec<Action> = Vec::new();
                push_action(&mut plan, Action::RemoveFile { path: self.sub("pid") });
                push_action(&mut plan, Action::WriteFile { path: self.sub("pid"), data: line });
                push_action(&mut plan, Action::Sleep { millis: 10 });
                match &network {
                    Some(n) => {
                        append_actions(
                            &mut plan,
                            networking::create_bridge(id, n.host_ip.as_str()),
                        );
                        append_actions(&mut plan, networking::create_veth(id));
                        append_actions(&mut plan, networking::add_veth_to_bridge(id));
                        append_actions(
                            &mut plan,
                            networking::add_container_to_network(
                                id,
                                child,
                                n.container_ip.as_str(),
                            ),
                        );
                    },
                    None => {},
                }
                assert(plan.deep_view() =~= self.supervise_plan(child, network));
                if daemon {
                    Plan::of(plan)
                } else {
                    push_action(&mut plan, Action::Wait { pid: child });
                    Plan { actions: plan, cleanup: self.cleanup(), issue: None }
                }
            },
            Fork::Failed => Plan {
                actions: Vec::new(),
                cleanup: self.cleanup(),
                issue: Some(Failure::System),
            },
        }
    }
}

/// Every entry of the environment holds a `=`.
pub open spec fn environment_well_formed(env: Seq<Seq<char>>) -> bool {
    forall|i: int| 0 <= i < env.len() ==> (#[trigger] env[i]).contains('=')
}

/// The directory `name` below `root`, made anew for owner, group and others
/// to read and enter, and for the owner to write.
pub open spec fn fresh_directory(root: Seq<char>, name: Seq<char>) -> Seq<ActionView> {
    seq![
        ActionView::RemoveDirAll { path: path_below(root, name) },
        ActionView::MakeDir { path: path_below(root, name), mode: 0o755 },
    ]
}

fn bind_file(source: &str, target: &str) -> (r: Action)
    ensures
        r.deep_view() == bind(source@, target@, file_flags()),
{
    Action::Mount {
        source: Some(String::from_str(source)),
        target: String::from_str(target),
        fstype: None,
        flags: MountFlags { bind: true, nosuid: true, nodev: true, ..MountFlags::none() },
        options: None,
    }
}

fn bind_tree(source: &str, target: &str) -> (r: Action)
    ensures
        r.deep_view() == bind(source@, target@, tree_flags()),
{
    Action::Mount {
        source: Some(String::from_str(source)),
        target: String::from_str(target),
        fstype: None,
        flags: MountFlags { bind: true, recursive: true, ..MountFlags::none() },
        options: None,
    }
}

fn device_number_text(n: Option<i64>) -> (r: String)
    ensures
        r@ == device_number(n),
{
    match n {
        Some(x) => i64_to_decimal(x),
        None => String::from_str("*"),
    }
}

fn id_map_text(inside: u32, host: u32) -> (r: String)
    ensures
        r@ == id_map_line(inside, host),
{
    let mut line = u64_to_decimal(inside as u64);
    line.append(" ");
    line.append(u64_to_decimal(host as u64).as_str());
    line.append(" 1\n");
    line
}

} // verus!
