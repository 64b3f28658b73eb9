//! The network of a container: a bridge on the host, a pair of virtual
//! ethernet devices, and the container's network namespace under a name.
//! Every step is a call of the `ip` utility.

use vstd::prelude::*;
use crate::action::{push_action, Action, ActionView, Words};
use crate::text::{before, i64_to_decimal, signed_decimal, take_before};

verus! {

/// The name of the one bridge that all containers share.
pub open spec fn bridge_name() -> Seq<char> {
    "br0"@
}

/// The name of the host's end of a container's pair of devices.
pub open spec fn veth_host(container_id: Seq<char>) -> Seq<char> {
    container_id + "-veth0"@
}

/// The name of the container's end of its pair of devices.
pub open spec fn veth_guest(container_id: Seq<char>) -> Seq<char> {
    container_id + "-veth1"@
}

/// The name of a container's network namespace.
pub open spec fn netns_name(container_id: Seq<char>) -> Seq<char> {
    container_id + "-ns"@
}

/// The file under which a container's network namespace is known to `ip`.
pub open spec fn netns_path(container_id: Seq<char>) -> Seq<char> {
    "/var/run/netns/"@ + netns_name(container_id)
}

/// The file that stands for the network namespace of the process `pid`.
pub open spec fn proc_netns_path(pid: i32) -> Seq<char> {
    "/proc/"@ + signed_decimal(pid as int) + "/ns/net"@
}

/// A call of `ip` with `args`.
pub open spec fn ip(args: Seq<Seq<char>>) -> ActionView {
    ActionView::Run { program: "ip"@, args }
}

/// A call of `ip` inside the network namespace `namespace`.
pub open spec fn ip_inside(namespace: Seq<char>, args: Seq<Seq<char>>) -> ActionView {
    ip(seq!["netns"@, "exec"@, namespace, "ip"@] + args)
}

fn ip_command(args: Words) -> (r: Action)
    ensures
        r.deep_view() == ip(args.texts()),
{
    Action::Run { program: String::from_str("ip"), args: args.done() }
}

fn inside(namespace: &str) -> (r: Words)
    ensures
        r.texts() == seq!["netns"@, "exec"@, namespace@, "ip"@],
{
    let w = Words::new().with("netns").with("exec").with(namespace).with("ip");
    assert(w.texts() =~= seq!["netns"@, "exec"@, namespace@, "ip"@]);
    w
}

fn suffixed(container_id: &str, suffix: &str) -> (r: String)
    ensures
        r@ == container_id@ + suffix@,
{
    let mut name = String::from_str(container_id);
    name.append(suffix);
    name
}

/// What `create_network_namespace` asks for.
pub open spec fn create_network_namespace_plan(container_id: Seq<char>) -> Seq<ActionView> {
    seq![ip(seq!["netns"@, "add"@, netns_name(container_id)])]
}

/// Make the network namespace of the container.
pub fn create_network_namespace(container_id: &str) -> (r: Vec<Action>)
    ensures
        r.deep_view() == create_network_namespace_plan(container_id@),
{
    let namespace = suffixed(container_id, "-ns");
    let mut plan: Vec<Action> = Vec::new();
    let w = Words::new().with("netns").with("add").with(namespace.as_str());
    assert(w.texts() =~= seq!["netns"@, "add"@, netns_name(container_id@)]);
    push_action(&mut plan, ip_command(w));
    assert(plan.deep_view() =~= create_network_namespace_plan(container_id@));
    plan
}

/// What `delete_network_namespace` asks for.
pub open spec fn delete_network_namespace_plan(container_id: Seq<char>) -> Seq<ActionView> {
    seq![ip(seq!["netns"@, "del"@, netns_name(container_id)])]
}

/// Remove the network namespace of the container.
pub fn delete_network_namespace(container_id: &str) -> (r: Vec<Action>)
    ensures
        r.deep_view() == delete_network_namespace_plan(container_id@),
{
    let namespace = suffixed(container_id, "-ns");
    let mut plan: Vec<Action> = Vec::new();
    let w = Words::new().with("netns").with("del").with(namespace.as_str());
    assert(w.texts() =~= seq!["netns"@, "del"@, netns_name(container_id@)]);
    push_action(&mut plan, ip_command(w));
    assert(plan.deep_view() =~= delete_network_namespace_plan(container_id@));
    plan
}

/// What `create_bridge` asks for: the bridge, its address, and the link up.
pub open spec fn create_bridge_plan(host_ip: Seq<char>) -> Seq<ActionView> {
    seq![
        ip(seq!["link"@, "add"@, bridge_name(), "type"@, "bridge"@]),
        ip(seq!["addr"@, "add"@, host_ip, "dev"@, bridge_name()]),
        ip(seq!["link"@, "set"@, "dev"@, bridge_name(), "up"@]),
    ]
}

/// Make the bridge and give it the address `host_ip`.
pub fn create_bridge(container_id: &str, host_ip: &str) -> (r: Vec<Action>)
    ensures
        r.deep_view() == create_bridge_plan(host_ip@),
{
    let mut plan: Vec<Action> = Vec::new();
    let w = Words::new().with("link").with("add").with("br0").with("type").with("bridge");
    assert(w.texts() =~= seq!["link"@, "add"@, bridge_name(), "type"@, "bridge"@]);
    push_action(&mut plan, ip_command(w));
    let w = Words::new().with("addr").with("add").with(host_ip).with("dev").with("br0");
    assert(w.texts() =~= seq!["addr"@, "add"@, host_ip@, "dev"@, bridge_name()]);
    push_action(&mut plan, ip_command(w));
    let w = Words::new().with("link").with("set").with("dev").with("br0").with("up");
    assert(w.texts() =~= seq!["link"@, "set"@, "dev"@, bridge_name(), "up"@]);
    push_action(&mut plan, ip_command(w));
    assert(plan.deep_view() =~= create_bridge_plan(host_ip@));
    plan
}

/// What `delete_bridge` asks for.
pub open spec fn delete_bridge_plan() -> Seq<ActionView> {
    seq![ip(seq!["link"@, "del"@, "name"@, bridge_name()])]
}

/// Remove the bridge.
pub fn delete_bridge(container_id: &str) -> (r: Vec<Action>)
    ensures
        r.deep_view() == delete_bridge_plan(),
{
    let mut plan: Vec<Action> = Vec::new();
    let w = Words::new().with("link").with("del").with("name").with("br0");
    assert(w.texts() =~= seq!["link"@, "del"@, "name"@, bridge_name()]);
    push_action(&mut plan, ip_command(w));
    assert(plan.deep_view() =~= delete_bridge_plan());
    plan
}

/// What `create_veth` asks for: the pair of devices, and the host's end up.
pub open spec fn create_veth_plan(container_id: Seq<char>) -> Seq<ActionView> {
    seq![
        ip(
            seq![
                "link"@,
                "add"@,
                veth_host(container_id),
                "type"@,
                "veth"@,
                "peer"@,
                "name"@,
                veth_guest(container_id),
            ],
        ),
        ip(seq!["link"@, "set"@, veth_host(container_id), "up"@]),
    ]
}

/// Make the pair of virtual ethernet devices between host and container.
pub fn create_veth(container_id: &str) -> (r: Vec<Action>)
    ensures
        r.deep_view() == create_veth_plan(container_id@),
{
    let host = suffixed(container_id, "-veth0");
    let guest = suffixed(container_id, "-veth1");
    let mut plan: Vec<Action> = Vec::new();
    let w = Words::new().with("link").with("add").with(host.as_str()).with("type").with(
        "veth",
    ).with("peer").with("name").with(guest.as_str());
    assert(w.texts() =~= seq![
        "link"@,
        "add"@,
        veth_host(container_id@),
        "type"@,
        "veth"@,
        "peer"@,
        "name"@,
        veth_guest(container_id@),
    ]);
    push_action(&mut plan, ip_command(w));
    let w = Words::new().with("link").with("set").with(host.as_str()).with("up");
    assert(w.texts() =~= seq!["link"@, "set"@, veth_host(container_id@), "up"@]);
    push_action(&mut plan, ip_command(w));
    assert(plan.deep_view() =~= create_veth_plan(container_id@));
    plan
}

/// What `delete_veth` asks for: the host's end removed, seen from the
/// container's namespace and from the host.
pub open spec fn delete_veth_plan(container_id: Seq<char>) -> Seq<ActionView> {
    seq![
        ip_inside(netns_name(container_id), seq!["link"@, "del"@, veth_host(container_id)]),
        ip(seq!["link"@, "del"@, veth_host(container_id)]),
    ]
}

/// Remove the pair of virtual ethernet devices.
pub fn delete_veth(container_id: &str) -> (r: Vec<Action>)
    ensures
        r.deep_view() == delete_veth_plan(container_id@),
{
    let namespace = suffixed(container_id, "-ns");
    let host = suffixed(container_id, "-veth0");
    let mut plan: Vec<Action> = Vec::new();
    let w = inside(namespace.as_str()).with("link").with("del").with(host.as_str());
    assert(w.texts() =~= seq!["netns"@, "exec"@, netns_name(container_id@), "ip"@] + seq![
        "link"@,
        "del"@,
        veth_host(container_id@),
    ]);
    push_action(&mut plan, ip_command(w));
    let w = Words::new().with("link").with("del").with(host.as_str());
    assert(w.texts() =~= seq!["link"@, "del"@, veth_host(container_id@)]);
    push_action(&mut plan, ip_command(w));
    assert(plan.deep_view() =~= delete_veth_plan(container_id@));
    plan
}

/// What `add_veth_to_bridge` asks for.
pub open spec fn add_veth_to_bridge_plan(container_id: Seq<char>) -> Seq<ActionView> {
    seq![ip(seq!["link"@, "set"@, "dev"@, veth_host(container_id), "master"@, bridge_name()])]
}

/// Plug the host's end of the pair into the bridge.
pub fn add_veth_to_bridge(container_id: &str) -> (r: Vec<Action>)
    ensures
        r.deep_view() == add_veth_to_bridge_plan(container_id@),
{
    let host = suffixed(container_id, "-veth0");
    let mut plan: Vec<Action> = Vec::new();
    let w = Words::new().with("link").with("set").with("dev").with(host.as_str()).with(
        "master",
    ).with("br0");
    assert(w.texts() =~= seq![
        "link"@,
        "set"@,
        "dev"@,
        veth_host(container_id@),
        "master"@,
        bridge_name(),
    ]);
    push_action(&mut plan, ip_command(w));
    assert(plan.deep_view() =~= add_veth_to_bridge_plan(container_id@));
    plan
}

/// What `remove_veth_from_bridge` asks for.
pub open spec fn remove_veth_from_bridge_plan(container_id: Seq<char>) -> Seq<ActionView> {
    seq![ip(seq!["link"@, "set"@, "dev"@, veth_host(container_id), "nomaster"@])]
}

/// Pull the host's end of the pair out of the bridge.
pub fn remove_veth_from_bridge(container_id: &str) -> (r: Vec<Action>)
    ensures
        r.deep_view() == remove_veth_from_bridge_plan(container_id@),
{
    let host = suffixed(container_id, "-veth0");
    let mut plan: Vec<Action> = Vec::new();
    let w = Words::new().with("link").with("set").with("dev").with(host.as_str()).with(
        "nomaster",
    );
    assert(w.texts() =~= seq!["link"@, "set"@, "dev"@, veth_host(container_id@), "nomaster"@]);
    push_action(&mut plan, ip_command(w));
    assert(plan.deep_view() =~= remove_veth_from_bridge_plan(container_id@));
    plan
}

/// What `add_container_to_network` asks for: the namespace of the process
/// `child` gets its name, the container's end of the pair moves into it,
/// the loopback device and that end come up, the end gets the address
/// `container_ip`, and the default route goes through the host part of
/// that address.
pub open spec fn add_container_to_network_plan(
    container_id: Seq<char>,
    child: i32,
    container_ip: Seq<char>,
) -> Seq<ActionView> {
    let namespace = netns_name(container_id);
    let guest = veth_guest(container_id);
    seq![
        ActionView::CreateDirAll { path: "/var/run/netns/"@ },
        ActionView::RemoveFile { path: netns_path(container_id) },
        ActionView::Symlink { target: proc_netns_path(child), link: netns_path(container_id) },
        ip(seq!["link"@, "set"@, guest, "netns"@, namespace]),
        ip_inside(namespace, seq!["link"@, "set"@, "lo"@, "up"@]),
        ip_inside(namespace, seq!["link"@, "set"@, guest, "up"@]),
        ip_inside(namespace, seq!["addr"@, "add"@, container_ip, "dev"@, guest]),
        ip_inside(
            namespace,
            seq!["route"@, "add"@, "default"@, "via"@, before(container_ip, '/')],
        ),
    ]
}

/// Bring the container, whose first process is `child`, into the network.
pub fn add_container_to_network(container_id: &str, child: i32, container_ip: &str) -> (r: Vec<
    Action,
>)
    ensures
        r.deep_view() == add_container_to_network_plan(container_id@, child, container_ip@),
{
    let namespace = suffixed(container_id, "-ns");
    let guest = suffixed(container_id, "-veth1");
    let gateway = take_before(container_ip, '/');
    let mut link = String::from_str("/var/run/netns/");
    link.append(namespace.as_str());
    let mut target = String::from_str("/proc/");
    target.append(i64_to_decimal(child as i64).as_str());
    target.append("/ns/net");
    let ghost ns = netns_name(container_id@);
    let ghost head = seq!["netns"@, "exec"@, ns, "ip"@];

    let mut plan: Vec<Action> = Vec::new();
    push_action(&mut plan, Action::CreateDirAll { path: String::from_str("/var/run/netns/") });
    push_action(&mut plan, Action::RemoveFile { path: link.clone() });
    push_action(&mut plan, Action::Symlink { target, link });

    let w = Words::new().with("link").with("set").with(guest.as_str()).with("netns").with(
        namespace.as_str(),
    );
    assert(w.texts() =~= seq!["link"@, "set"@, veth_guest(container_id@), "netns"@, ns]);
    push_action(&mut plan, ip_command(w));

    let w = inside(namespace.as_str()).with("link").with("set").with("lo").with("up");
    assert(w.texts() =~= head + seq!["link"@, "set"@, "lo"@, "up"@]);
    push_action(&mut plan, ip_command(w));

    let w = inside(namespace.as_str()).with("link").with("set").with(guest.as_str()).with("up");
    assert(w.texts() =~= head + seq!["link"@, "set"@, veth_guest(container_id@), "up"@]);
    push_action(&mut plan, ip_command(w));

    let w = inside(namespace.as_str()).with("addr").with("add").with(container_ip).with(
        "dev",
    ).with(guest.as_str());
    assert(w.texts() =~= head + seq![
        "addr"@,
        "add"@,
        container_ip@,
        "dev"@,
        veth_guest(container_id@),
    ]);
    push_action(&mut plan, ip_command(w));

    let w = inside(namespace.as_str()).with("route").with("add").with("default").with(
        "via",
    ).with(gateway.as_str());
    assert(w.texts() =~= head + seq![
        "route"@,
        "add"@,
        "default"@,
        "via"@,
        before(container_ip@, '/'),
    ]);
    push_action(&mut plan, ip_command(w));

    assert(plan.deep_view() =~= add_container_to_network_plan(
        container_id@,
        child,
        container_ip@,
    ));
    plan
}

/// What `delete_container_from_network` asks for.
pub open spec fn delete_container_from_network_plan(container_id: Seq<char>) -> Seq<ActionView> {
    seq![ip_inside(netns_name(container_id), seq!["route"@, "del"@, "default"@])]
}

/// Take the default route out of the container's network namespace.
pub fn delete_container_from_network(container_id: &str) -> (r: Vec<Action>)
    ensures
        r.deep_view() == delete_container_from_network_plan(container_id@),
{
    let namespace = suffixed(container_id, "-ns");
    let mut plan: Vec<Action> = Vec::new();
    let w = inside(namespace.as_str()).with("route").with("del").with("default");
    assert(w.texts() =~= seq!["netns"@, "exec"@, netns_name(container_id@), "ip"@] + seq![
        "route"@,
        "del"@,
        "default"@,
    ]);
    push_action(&mut plan, ip_command(w));
    assert(plan.deep_view() =~= delete_container_from_network_plan(container_id@));
    plan
}

} // verus!
