use minato::action::Action;
use minato::networking::{
    add_container_to_network, add_veth_to_bridge, create_bridge, create_network_namespace,
    create_veth, delete_bridge, delete_container_from_network, delete_network_namespace,
    delete_veth, remove_veth_from_bridge,
};

fn ip(args: &[&str]) -> Action {
    Action::Run { program: String::from("ip"), args: args.iter().map(|a| a.to_string()).collect() }
}

#[test]
fn network_namespace_commands() {
    assert_eq!(create_network_namespace("c1"), vec![ip(&["netns", "add", "c1-ns"])]);
    assert_eq!(delete_network_namespace("c1"), vec![ip(&["netns", "del", "c1-ns"])]);
}

#[test]
fn bridge_commands() {
    assert_eq!(
        create_bridge("c1", "10.1.0.1/16"),
        vec![
            ip(&["link", "add", "br0", "type", "bridge"]),
            ip(&["addr", "add", "10.1.0.1/16", "dev", "br0"]),
            ip(&["link", "set", "dev", "br0", "up"]),
        ]
    );
    assert_eq!(delete_bridge("c1"), vec![ip(&["link", "del", "name", "br0"])]);
}

#[test]
fn veth_commands() {
    assert_eq!(
        create_veth("c1"),
        vec![
            ip(&["link", "add", "c1-veth0", "type", "veth", "peer", "name", "c1-veth1"]),
            ip(&["link", "set", "c1-veth0", "up"]),
        ]
    );
    assert_eq!(
        delete_veth("c1"),
        vec![
            ip(&["netns", "exec", "c1-ns", "ip", "link", "del", "c1-veth0"]),
            ip(&["link", "del", "c1-veth0"]),
        ]
    );
    assert_eq!(
        add_veth_to_bridge("c1"),
        vec![ip(&["link", "set", "dev", "c1-veth0", "master", "br0"])]
    );
    assert_eq!(
        remove_veth_from_bridge("c1"),
        vec![ip(&["link", "set", "dev", "c1-veth0", "nomaster"])]
    );
}

#[test]
fn container_joins_the_network() {
    assert_eq!(
        add_container_to_network("c1", 4242, "10.1.0.2/16"),
        vec![
            Action::CreateDirAll { path: String::from("/var/run/netns/") },
            Action::RemoveFile { path: String::from("/var/run/netns/c1-ns") },
            Action::Symlink {
                target: String::from("/proc/4242/ns/net"),
                link: String::from("/var/run/netns/c1-ns"),
            },
            ip(&["link", "set", "c1-veth1", "netns", "c1-ns"]),
            ip(&["netns", "exec", "c1-ns", "ip", "link", "set", "lo", "up"]),
            ip(&["netns", "exec", "c1-ns", "ip", "link", "set", "c1-veth1", "up"]),
            ip(&["netns", "exec", "c1-ns", "ip", "addr", "add", "10.1.0.2/16", "dev", "c1-veth1"]),
            ip(&["netns", "exec", "c1-ns", "ip", "route", "add", "default", "via", "10.1.0.2"]),
        ]
    );
}

#[test]
fn default_route_of_an_address_without_prefix_length() {
    let plan = add_container_to_network("c", 1, "10.0.0.9");
    assert_eq!(
        plan[7],
        ip(&["netns", "exec", "c-ns", "ip", "route", "add", "default", "via", "10.0.0.9"])
    );
}

#[test]
fn container_leaves_the_network() {
    assert_eq!(
        delete_container_from_network("c1"),
        vec![ip(&["netns", "exec", "c1-ns", "ip", "route", "del", "default"])]
    );
}
