use minato::utils::{
    fix_image_id, get_container_path_with_str, get_container_pid_path,
    get_container_pid_with_str, get_image_path_with_str, get_socket_path, join_path,
    prepare_directory, print_caps, split_image_id,
};
use minato::action::Action;

#[test]
fn fix_image_id_adds_repository_and_tag() {
    assert_eq!(fix_image_id("alpine").unwrap(), "library/alpine:latest");
}

#[test]
fn fix_image_id_keeps_repository() {
    assert_eq!(fix_image_id("a/b").unwrap(), "a/b:latest");
}

#[test]
fn fix_image_id_keeps_tag() {
    assert_eq!(fix_image_id("a:1").unwrap(), "library/a:1");
}

#[test]
fn fix_image_id_of_empty_text() {
    assert_eq!(fix_image_id("").unwrap(), "library/:latest");
}

#[test]
fn fix_image_id_twice_is_once() {
    for id in ["alpine", "a/b", "a:1", "", "x/y:z", ":", "/", "a:b:c", "a:b/c"] {
        let once = fix_image_id(id).unwrap();
        let twice = fix_image_id(&once).unwrap();
        assert_eq!(once, twice);
    }
}

#[test]
fn split_image_id_parts() {
    let (name, reference) = split_image_id(String::from("library/alpine:3.12")).unwrap();
    assert_eq!(name, "library/alpine");
    assert_eq!(reference, "3.12");
}

#[test]
fn split_image_id_defaults() {
    let (name, reference) = split_image_id(String::from("alpine")).unwrap();
    assert_eq!(name, "library/alpine");
    assert_eq!(reference, "latest");
}

#[test]
fn split_image_id_takes_the_part_between_the_first_two_colons() {
    let (name, reference) = split_image_id(String::from("a/b:c:d")).unwrap();
    assert_eq!(name, "a/b");
    assert_eq!(reference, "c");
}

#[test]
fn split_image_id_with_empty_reference() {
    let (name, reference) = split_image_id(String::from("a/b:")).unwrap();
    assert_eq!(name, "a/b");
    assert_eq!(reference, "");
}

#[test]
fn fixed_id_is_name_colon_reference() {
    for id in ["alpine", "a/b", "a:1", "x/y:z"] {
        let fixed = fix_image_id(id).unwrap();
        let (name, reference) = split_image_id(fixed.clone()).unwrap();
        assert_eq!(fixed, format!("{}:{}", name, reference));
    }
}

#[test]
fn paths_below_the_state_root() {
    assert_eq!(
        get_image_path_with_str("library/alpine:latest").unwrap(),
        "/var/lib/minato/images/library/alpine:latest"
    );
    assert_eq!(get_container_path_with_str("c1").unwrap(), "/var/lib/minato/containers/c1");
    assert_eq!(get_container_pid_path("c1"), "/var/lib/minato/containers/c1/pid");
    assert_eq!(get_socket_path("socket").unwrap(), "/var/lib/minato/socket");
}

#[test]
fn pid_of_a_pid_file() {
    assert_eq!(get_container_pid_with_str(Some("1234\n")).unwrap(), Some(String::from("1234")));
    assert_eq!(get_container_pid_with_str(Some("12\n34\n")).unwrap(), Some(String::from("1234")));
    assert_eq!(get_container_pid_with_str(None).unwrap(), None);
}

#[test]
fn join_path_cases() {
    assert_eq!(join_path("/a/b", "c"), "/a/b/c");
    assert_eq!(join_path("/a/b/", "c"), "/a/b/c");
    assert_eq!(join_path("/a/b", "/c"), "/c");
    assert_eq!(join_path("", "c"), "c");
}

#[test]
fn prepare_directory_removes_then_makes() {
    let plan = prepare_directory("/r/merged", "proc", 0o755);
    assert_eq!(
        plan,
        vec![
            Action::RemoveDirAll { path: String::from("/r/merged/proc") },
            Action::MakeDir { path: String::from("/r/merged/proc"), mode: 0o755 },
        ]
    );
}

#[test]
fn print_caps_runs_capsh() {
    assert_eq!(
        print_caps(),
        Action::Run { program: String::from("/usr/sbin/capsh"), args: vec![String::from("--print")] }
    );
}
