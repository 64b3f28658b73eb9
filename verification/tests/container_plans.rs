use minato::action::{Action, Fork, MountFlags, NamespaceSet, NamespaceType, Plan};
use minato::container::{Container, Network};
use minato::document::Json;
use minato::error::Failure;
use minato::image::Image;
use minato::runtime_spec::{Device, Linux, Namespace, Resources, Spec};

fn none() -> MountFlags {
    MountFlags::none()
}

fn text(s: &str) -> String {
    String::from(s)
}

fn alpine() -> Image {
    let mut image = Image::new("alpine");
    image.fs_layers = vec![text("aaa"), text("bbb")];
    image
}

fn c1() -> Container {
    Container::new(Some("c1"), Some(alpine()))
}

fn ip(args: &[&str]) -> Action {
    Action::Run { program: text("ip"), args: args.iter().map(|a| a.to_string()).collect() }
}

fn cleanup_of_c1() -> Vec<Action> {
    vec![
        Action::Unmount { target: text("/var/lib/minato/containers/c1/merged") },
        ip(&["netns", "exec", "c1-ns", "ip", "route", "del", "default"]),
        ip(&["link", "set", "dev", "c1-veth0", "nomaster"]),
        ip(&["netns", "exec", "c1-ns", "ip", "link", "del", "c1-veth0"]),
        ip(&["link", "del", "c1-veth0"]),
        ip(&["link", "del", "name", "br0"]),
        ip(&["netns", "del", "c1-ns"]),
        Action::RemoveFile { path: text("/var/lib/minato/containers/c1/pid") },
    ]
}

#[test]
fn new_container_with_a_name() {
    let c = c1();
    assert_eq!(c.id, "c1");
    assert_eq!(c.path, "/var/lib/minato/containers/c1");
    assert_eq!(c.image, Some(alpine()));
    assert_eq!(c.spec, Spec::default());
}

#[test]
fn new_container_without_a_name_gets_eight_letters_and_digits() {
    let a = Container::new(None, None);
    assert_eq!(a.id.chars().count(), 8);
    assert!(a.id.chars().all(|c| c.is_ascii_alphanumeric()));
    assert_eq!(a.path, format!("/var/lib/minato/containers/{}", a.id));
    let mut distinct = std::collections::HashSet::new();
    for _ in 0..20 {
        distinct.insert(Container::new(None, None).id);
    }
    assert!(distinct.len() > 1);
}

#[test]
fn create_makes_the_directories_the_link_and_the_configuration() {
    let plan = c1().create(false);
    assert_eq!(
        plan,
        Plan {
            actions: vec![
                Action::CreateDirAll { path: text("/var/lib/minato/containers/c1") },
                Action::CreateDirAll { path: text("/var/lib/minato/containers/c1/upper") },
                Action::CreateDirAll { path: text("/var/lib/minato/containers/c1/work") },
                Action::CreateDirAll { path: text("/var/lib/minato/containers/c1/merged") },
                Action::Symlink {
                    target: text("/var/lib/minato/images/library/alpine:latest"),
                    link: text("/var/lib/minato/containers/c1/lower"),
                },
                Action::SaveSpec {
                    path: text("/var/lib/minato/containers/c1/config.json"),
                    spec: Spec::default(),
                },
            ],
            cleanup: vec![],
            issue: None,
        }
    );
}

#[test]
fn create_of_an_existing_container_does_nothing() {
    assert_eq!(
        c1().create(true),
        Plan { actions: vec![], cleanup: vec![], issue: Some(Failure::ContainerExists) }
    );
}

#[test]
fn create_without_an_image_does_nothing() {
    assert_eq!(
        Container::new(Some("c1"), None).create(false),
        Plan { actions: vec![], cleanup: vec![], issue: Some(Failure::ImageNotFound) }
    );
}

#[test]
fn create_after_delete_is_as_the_first_time() {
    let c = c1();
    let first = c.create(false);
    let removed = c.delete(true);
    assert_eq!(
        removed.actions,
        vec![Action::RemoveDirAll { path: text("/var/lib/minato/containers/c1") }]
    );
    assert_eq!(c.create(false), first);
}

#[test]
fn delete_of_a_missing_container_does_nothing() {
    assert_eq!(
        c1().delete(false),
        Plan { actions: vec![], cleanup: vec![], issue: Some(Failure::ContainerNotFound) }
    );
}

#[test]
fn linked_image_id_strips_the_image_directory() {
    assert_eq!(
        Container::linked_image_id("/var/lib/minato/images/library/alpine:latest"),
        Some(text("library/alpine:latest"))
    );
    assert_eq!(Container::linked_image_id("/somewhere/else"), None);
}

#[test]
fn load_puts_the_container_together() {
    let mut spec = Spec::default();
    spec.hostname = text("box1");
    let loaded = Container::load("c1", true, Some(alpine()), &spec.save()).unwrap().unwrap();
    assert_eq!(loaded.id, "c1");
    assert_eq!(loaded.path, "/var/lib/minato/containers/c1");
    assert_eq!(loaded.image, Some(alpine()));
    assert_eq!(loaded.spec, spec);
}

#[test]
fn load_finds_nothing_without_directory_or_image() {
    assert_eq!(Container::load("c1", false, Some(alpine()), &Spec::default().save()), Ok(None));
    assert_eq!(Container::load("c1", true, None, &Spec::default().save()), Ok(None));
    assert_eq!(Container::load("c1", false, None, &Json::Null), Ok(None));
}

#[test]
fn load_refuses_a_configuration_without_a_program() {
    let mut spec = Spec::default();
    spec.process.args = vec![];
    assert_eq!(Container::load("c1", true, Some(alpine()), &spec.save()), Err(Failure::BadSpec));
    assert_eq!(Container::load("c1", true, Some(alpine()), &Json::Null), Err(Failure::BadSpec));
}

#[test]
fn overlay_keeps_the_order_of_the_layers() {
    assert_eq!(
        c1().mount_container_filesystem(),
        vec![Action::Mount {
            source: Some(text("overlay")),
            target: text("/var/lib/minato/containers/c1/merged"),
            fstype: Some(text("overlay")),
            flags: none(),
            options: Some(text(
                "lowerdir=/var/lib/minato/containers/c1/lower/aaa:/var/lib/minato/containers/c1/lower/bbb,upperdir=/var/lib/minato/containers/c1/upper,workdir=/var/lib/minato/containers/c1/work"
            )),
        }]
    );
}

#[test]
fn mountpoint_unshares_the_namespaces_of_the_configuration() {
    let plan = c1().prepare_container_mountpoint();
    assert_eq!(
        plan,
        vec![
            Action::Unshare {
                namespaces: NamespaceSet {
                    pid: true,
                    mount: true,
                    uts: true,
                    ipc: true,
                    user: true,
                    cgroup: false,
                    network: false,
                },
            },
            Action::Mount {
                source: None,
                target: text("/"),
                fstype: None,
                flags: MountFlags { recursive: true, private: true, ..none() },
                options: None,
            },
            Action::Mount {
                source: Some(text("/var/lib/minato/containers/c1/merged")),
                target: text("/var/lib/minato/containers/c1/merged"),
                fstype: None,
                flags: MountFlags { bind: true, nosuid: true, ..none() },
                options: None,
            },
            Action::ChangeDir { path: text("/var/lib/minato/containers/c1/merged") },
        ]
    );
}

#[test]
fn pid_namespace_is_unshared_with_the_mount_namespace() {
    let mut c = c1();
    c.spec.process.args = vec![text("/bin/sh"), text("-c"), text("echo $$")];
    c.spec.linux = Some(Linux {
        namespaces: vec![
            Namespace { typ: NamespaceType::Pid },
            Namespace { typ: NamespaceType::Mount },
        ],
        resources: None,
    });
    assert!(c.spec.is_well_formed());
    let plan = c.prepare_container_mountpoint();
    assert_eq!(
        plan[0],
        Action::Unshare {
            namespaces: NamespaceSet {
                pid: true,
                mount: true,
                uts: false,
                ipc: false,
                user: false,
                cgroup: false,
                network: false,
            },
        }
    );
    let inner = c.execute_inner_fork(Fork::Child, false).unwrap();
    assert_eq!(
        inner.actions.last(),
        Some(&Action::Exec {
            path: text("tini"),
            args: vec![text("tini"), text("/bin/sh"), text("-c"), text("echo $$")],
            env: Spec::default().process.env,
            search: true,
        })
    );
}

#[test]
fn auxiliary_directories() {
    let plan = c1().prepare_container_directories();
    let mut expected = vec![];
    for name in ["put_old", "dev", "sys", "proc", "old_proc"] {
        let path = format!("/var/lib/minato/containers/c1/merged/{}", name);
        expected.push(Action::RemoveDirAll { path: path.clone() });
        expected.push(Action::MakeDir { path, mode: 0o755 });
    }
    assert_eq!(plan, expected);
}

#[test]
fn host_files_and_init_program_are_bound() {
    let files = MountFlags { bind: true, nosuid: true, nodev: true, ..none() };
    assert_eq!(
        c1().prepare_container_networking(),
        vec![
            Action::EnsureFile { path: text("etc/hosts") },
            Action::Mount {
                source: Some(text("/etc/hosts")),
                target: text("etc/hosts"),
                fstype: None,
                flags: files,
                options: None,
            },
            Action::EnsureFile { path: text("etc/resolv.conf") },
            Action::Mount {
                source: Some(text("/etc/resolv.conf")),
                target: text("etc/resolv.conf"),
                fstype: None,
                flags: files,
                options: None,
            },
        ]
    );
    assert_eq!(
        c1().bind_init_shim(),
        vec![
            Action::EnsureFile { path: text("sbin/tini") },
            Action::Mount {
                source: Some(text("/var/lib/minato/tini")),
                target: text("sbin/tini"),
                fstype: None,
                flags: files,
                options: None,
            },
        ]
    );
}

#[test]
fn proc_and_dev_are_bound() {
    let trees = MountFlags { bind: true, recursive: true, ..none() };
    assert_eq!(
        c1().mount_container_directories(),
        vec![
            Action::Mount {
                source: Some(text("/proc")),
                target: text("old_proc"),
                fstype: None,
                flags: trees,
                options: None,
            },
            Action::Mount {
                source: Some(text("/dev")),
                target: text("dev"),
                fstype: None,
                flags: trees,
                options: None,
            },
        ]
    );
}

#[test]
fn cgroup_hierarchy_has_a_mount_for_each_controller() {
    let plan = c1().mount_container_cgroup_hierarchy();
    let controllers = [
        "freezer", "hugetlb", "memory", "blkio", "cpuset", "cpu,cpuacct", "devices", "pids",
        "net_cls,net_prio", "perf_event", "rdma",
    ];
    let mut expected = vec![];
    for controller in controllers {
        let dir = format!("sys/fs/cgroup/{}", controller);
        expected.push(Action::RemoveDirAll { path: dir.clone() });
        expected.push(Action::CreateDirAll { path: dir.clone() });
        expected.push(Action::Mount {
            source: Some(text("cgroup")),
            target: dir,
            fstype: Some(text("cgroup")),
            flags: MountFlags { nosuid: true, nodev: true, noexec: true, ..none() },
            options: Some(text(controller)),
        });
    }
    assert_eq!(plan, expected);
}

#[test]
fn device_rules_are_written_in_their_order() {
    let mut c = c1();
    c.spec.linux = Some(Linux {
        namespaces: vec![],
        resources: Some(Resources {
            devices: vec![
                Device { allow: false, typ: text("a"), major: None, minor: None, access: text("rwm") },
                Device {
                    allow: true,
                    typ: text("c"),
                    major: Some(1),
                    minor: Some(5),
                    access: text("rw"),
                },
                Device { allow: true, typ: text("b"), major: Some(-1), minor: None, access: text("r") },
            ],
        }),
    });
    assert_eq!(
        c.configure_cgroups(),
        vec![
            Action::TryWriteFile {
                path: text("sys/fs/cgroup/devices/devices.deny"),
                data: text("a *:* rwm"),
            },
            Action::TryWriteFile {
                path: text("sys/fs/cgroup/devices/devices.allow"),
                data: text("c 1:5 rw"),
            },
            Action::TryWriteFile {
                path: text("sys/fs/cgroup/devices/devices.allow"),
                data: text("b -1:* r"),
            },
        ]
    );
    assert_eq!(c1().configure_cgroups(), vec![]);
}

#[test]
fn id_maps_of_an_unprivileged_user() {
    assert_eq!(
        c1().prepare_container_id_maps(1000, 1000),
        vec![
            Action::Overwrite { path: text("/proc/self/uid_map"), data: text("0 1000 1\n") },
            Action::Overwrite { path: text("/proc/self/setgroups"), data: text("deny") },
            Action::Overwrite { path: text("/proc/self/gid_map"), data: text("0 1000 1\n") },
        ]
    );
}

#[test]
fn id_maps_of_a_configured_user() {
    let mut c = c1();
    c.spec.process.user.uid = 33;
    c.spec.process.user.gid = 44;
    let plan = c.prepare_container_id_maps(0, 5);
    assert_eq!(
        plan[0],
        Action::Overwrite { path: text("/proc/self/uid_map"), data: text("33 0 1\n") }
    );
    assert_eq!(
        plan[2],
        Action::Overwrite { path: text("/proc/self/gid_map"), data: text("44 5 1\n") }
    );
    assert_eq!(
        c.prepare_container_ids(),
        vec![
            Action::KeepCapabilities { keep: true },
            Action::SetIds { uid: 33, gid: 44 },
            Action::KeepCapabilities { keep: false },
        ]
    );
}

#[test]
fn pivot_root_lets_the_old_root_go() {
    assert_eq!(
        c1().pivot_container_root(),
        vec![
            Action::PivotRoot { new_root: text("."), put_old: text("put_old") },
            Action::Detach { target: text("/put_old") },
            Action::RemoveDirAll { path: text("/put_old") },
        ]
    );
}

#[test]
fn remount_inside_the_container() {
    assert_eq!(
        c1().remount_container_directories(),
        vec![
            Action::Mount {
                source: Some(text("/proc")),
                target: text("/proc"),
                fstype: Some(text("proc")),
                flags: MountFlags { nosuid: true, ..none() },
                options: None,
            },
            Action::Detach { target: text("/old_proc") },
            Action::RemoveDirAll { path: text("/old_proc") },
            Action::Mount {
                source: Some(text("/")),
                target: text("/"),
                fstype: None,
                flags: MountFlags { bind: true, nosuid: true, remount: true, ..none() },
                options: None,
            },
        ]
    );
}

#[test]
fn do_exec_sets_the_environment_and_starts_the_init_program() {
    let mut c = c1();
    c.spec.process.args = vec![text("/bin/echo"), text("hi")];
    c.spec.process.env = vec![text("PATH=/bin"), text("A=b=c"), text("EMPTY=")];
    assert_eq!(
        c.do_exec().unwrap(),
        vec![
            Action::SetEnv { name: text("PATH"), value: text("/bin") },
            Action::SetEnv { name: text("A"), value: text("b=c") },
            Action::SetEnv { name: text("EMPTY"), value: text("") },
            Action::Exec {
                path: text("tini"),
                args: vec![text("tini"), text("/bin/echo"), text("hi")],
                env: vec![text("PATH=/bin"), text("A=b=c"), text("EMPTY=")],
                search: true,
            },
        ]
    );
}

#[test]
fn do_exec_refuses_an_entry_without_equals_sign() {
    let mut c = c1();
    c.spec.process.env = vec![text("PATH=/bin"), text("BROKEN")];
    assert_eq!(c.do_exec(), Err(Failure::BadEnvironment));
    assert_eq!(c.execute_inner_fork(Fork::Child, false), Err(Failure::BadEnvironment));
}

#[test]
fn inner_child_sets_the_host_name_before_the_init_program() {
    let mut c = c1();
    c.spec.hostname = text("box1");
    c.spec.process.args = vec![text("/bin/hostname")];
    let plan = c.execute_inner_fork(Fork::Child, false).unwrap();
    let mut expected = c.remount_container_directories();
    expected.push(Action::SetHostname { name: text("box1") });
    expected.extend(c.do_exec().unwrap());
    assert_eq!(plan, Plan { actions: expected, cleanup: vec![], issue: None });
    assert!(c.spec.namespace_set().contains(NamespaceType::Uts));
}

#[test]
fn inner_parent_waits_in_the_foreground_only() {
    assert_eq!(
        c1().execute_inner_fork(Fork::Parent { child: 7 }, false).unwrap(),
        Plan {
            actions: vec![Action::Wait { pid: 7 }, Action::Exit { code: 0 }],
            cleanup: vec![],
            issue: None,
        }
    );
    assert_eq!(
        c1().execute_inner_fork(Fork::Parent { child: 7 }, true).unwrap(),
        Plan { actions: vec![], cleanup: vec![], issue: None }
    );
    assert_eq!(
        c1().execute_inner_fork(Fork::Failed, false).unwrap(),
        Plan { actions: vec![], cleanup: vec![], issue: Some(Failure::System) }
    );
}

#[test]
fn cleanup_unmounts_takes_the_network_down_and_removes_the_pid_file() {
    assert_eq!(c1().cleanup(), cleanup_of_c1());
    assert_eq!(
        c1().unmount_container_filesystem(),
        vec![Action::Unmount { target: text("/var/lib/minato/containers/c1/merged") }]
    );
}

#[test]
fn clean_run_follows_the_order_of_the_steps() {
    let c = c1();
    let mut expected = c.mount_container_filesystem();
    expected.extend(c.prepare_container_mountpoint());
    expected.extend(c.prepare_container_directories());
    expected.extend(c.prepare_container_networking());
    expected.extend(c.bind_init_shim());
    expected.extend(c.mount_container_directories());
    expected.extend(c.mount_container_cgroup_hierarchy());
    expected.extend(c.configure_cgroups());
    expected.extend(c.prepare_container_id_maps(1000, 100));
    expected.extend(c.pivot_container_root());
    assert_eq!(c.clean_run(1000, 100), expected);
    assert_eq!(expected.len(), 1 + 4 + 10 + 4 + 2 + 2 + 33 + 0 + 3 + 3);
    assert_eq!(
        c.run(Fork::Child, false, None, 1000, 100),
        Plan { actions: expected, cleanup: vec![], issue: None }
    );
}

#[test]
fn supervisor_in_the_foreground_writes_the_pid_file_waits_and_cleans_up() {
    let plan = c1().run(Fork::Parent { child: 4242 }, false, None, 0, 0);
    assert_eq!(
        plan,
        Plan {
            actions: vec![
                Action::RemoveFile { path: text("/var/lib/minato/containers/c1/pid") },
                Action::WriteFile {
                    path: text("/var/lib/minato/containers/c1/pid"),
                    data: text("4242\n"),
                },
                Action::Sleep { millis: 10 },
                Action::Wait { pid: 4242 },
            ],
            cleanup: cleanup_of_c1(),
            issue: None,
        }
    );
}

#[test]
fn supervisor_as_a_daemon_returns_without_cleaning_up() {
    let plan = c1().run(Fork::Parent { child: 4242 }, true, None, 0, 0);
    assert_eq!(
        plan,
        Plan {
            actions: vec![
                Action::RemoveFile { path: text("/var/lib/minato/containers/c1/pid") },
                Action::WriteFile {
                    path: text("/var/lib/minato/containers/c1/pid"),
                    data: text("4242\n"),
                },
                Action::Sleep { millis: 10 },
            ],
            cleanup: vec![],
            issue: None,
        }
    );
}

#[test]
fn supervisor_brings_up_the_network_after_the_pause() {
    let network = Network { host_ip: text("10.1.0.1/16"), container_ip: text("10.1.0.2/16") };
    let plan = c1().run(Fork::Parent { child: 9 }, true, Some(network), 0, 0);
    assert_eq!(plan.actions.len(), 3 + 3 + 2 + 1 + 8);
    assert_eq!(plan.actions[2], Action::Sleep { millis: 10 });
    assert_eq!(plan.actions[3], ip(&["link", "add", "br0", "type", "bridge"]));
    assert_eq!(plan.actions[4], ip(&["addr", "add", "10.1.0.1/16", "dev", "br0"]));
    assert_eq!(
        plan.actions[11],
        Action::Symlink { target: text("/proc/9/ns/net"), link: text("/var/run/netns/c1-ns") }
    );
    assert_eq!(
        plan.actions[16],
        ip(&["netns", "exec", "c1-ns", "ip", "route", "add", "default", "via", "10.1.0.2"])
    );
}

#[test]
fn failed_fork_cleans_up_and_reports() {
    assert_eq!(
        c1().run(Fork::Failed, false, None, 0, 0),
        Plan { actions: vec![], cleanup: cleanup_of_c1(), issue: Some(Failure::System) }
    );
}

#[test]
fn foreground_run_of_echo() {
    let mut c = c1();
    c.spec.process.args = vec![text("/bin/echo"), text("hi")];
    let supervisor = c.run(Fork::Parent { child: 31 }, false, None, 0, 0);
    assert_eq!(supervisor.actions.last(), Some(&Action::Wait { pid: 31 }));
    assert_eq!(
        supervisor.cleanup.first(),
        Some(&Action::Unmount { target: text("/var/lib/minato/containers/c1/merged") })
    );
    assert_eq!(
        supervisor.cleanup.last(),
        Some(&Action::RemoveFile { path: text("/var/lib/minato/containers/c1/pid") })
    );
    assert_eq!(supervisor.issue, None);
    let first_process = c.execute_inner_fork(Fork::Child, false).unwrap();
    assert_eq!(
        first_process.actions.last(),
        Some(&Action::Exec {
            path: text("tini"),
            args: vec![text("tini"), text("/bin/echo"), text("hi")],
            env: Spec::default().process.env,
            search: true,
        })
    );
    let starts = |plan: &[Action]| plan.iter().filter(|a| matches!(a, Action::Exec { .. })).count();
    assert_eq!(starts(&first_process.actions), 1);
    assert_eq!(starts(&c.clean_run(0, 0)), 0);
    assert_eq!(starts(&supervisor.actions), 0);
    assert_eq!(starts(&supervisor.cleanup), 0);
}

#[test]
fn pid_file_is_written_before_the_wait_and_removed_by_the_cleanup() {
    let network = Network { host_ip: text("10.1.0.1/16"), container_ip: text("10.1.0.2/16") };
    for network in [None, Some(network)] {
        let plan = c1().run(Fork::Parent { child: 5 }, false, network, 0, 0);
        let pid = text("/var/lib/minato/containers/c1/pid");
        let written = plan
            .actions
            .iter()
            .position(|a| matches!(a, Action::WriteFile { path, .. } if *path == pid))
            .unwrap();
        let wait = plan.actions.iter().position(|a| matches!(a, Action::Wait { .. })).unwrap();
        assert!(written < wait);
        assert!(plan.actions[written + 1..]
            .iter()
            .all(|a| !matches!(a, Action::RemoveFile { path } if *path == pid)
                && !matches!(a, Action::RemoveDirAll { .. })));
        assert_eq!(plan.cleanup.last(), Some(&Action::RemoveFile { path: pid }));
    }
}

#[test]
fn created_container_has_its_four_directories() {
    let plan = c1().create(false);
    let made: Vec<String> = plan
        .actions
        .iter()
        .filter_map(|a| match a {
            Action::CreateDirAll { path } => Some(path.clone()),
            Action::Symlink { link, .. } => Some(link.clone()),
            Action::SaveSpec { path, .. } => Some(path.clone()),
            _ => None,
        })
        .collect();
    for name in ["lower", "upper", "work", "merged", "config.json"] {
        assert!(made.contains(&format!("/var/lib/minato/containers/c1/{}", name)));
    }
}

#[test]
fn create_saves_the_configuration_of_the_container() {
    let mut c = c1();
    c.spec.hostname = text("box1");
    c.spec.process.args = vec![text("/bin/echo"), text("hi")];
    let plan = c.create(false);
    assert_eq!(
        plan.actions.last(),
        Some(&Action::SaveSpec {
            path: text("/var/lib/minato/containers/c1/config.json"),
            spec: c.spec.clone(),
        })
    );
    assert_eq!(c.spec.copy(), c.spec);
}
