use minato::client::Client;
use minato::command::{
    option_from_groups, option_from_str, run_command, run_command_from_string, Command, ContainerAction,
    ImageAction, Opt, Subcommand,
};
use minato::daemon::Daemon;
use minato::error::Failure;
use minato::action::Action;
use minato::pattern::{find, group};

fn text(s: &str) -> String {
    String::from(s)
}

fn opt(subcommand: Option<Subcommand>) -> Opt {
    Opt { daemon: true, exit: false, debug: false, log_level: text("minato"), subcommand }
}

fn all_commands() -> Vec<Subcommand> {
    vec![
        Subcommand::Image { action: ImageAction::Pull { image_id: text("library/alpine:latest") } },
        Subcommand::Image { action: ImageAction::List },
        Subcommand::Image { action: ImageAction::Delete { image_id: text("alpine") } },
        Subcommand::Container {
            action: ContainerAction::Create { container_name: text("c1"), image_id: text("alpine") },
        },
        Subcommand::Container {
            action: ContainerAction::Run {
                container_name: text("c1"),
                volume: None,
                host_ip: None,
                container_ip: None,
            },
        },
        Subcommand::Container {
            action: ContainerAction::Run {
                container_name: text("c"),
                volume: Some(text("/host:/guest")),
                host_ip: Some(text("10.1.0.1/16")),
                container_ip: Some(text("10.1.0.2/16")),
            },
        },
        Subcommand::Container {
            action: ContainerAction::Run {
                container_name: text("c1"),
                volume: None,
                host_ip: Some(text("10.1.0.1/16")),
                container_ip: None,
            },
        },
        Subcommand::Container { action: ContainerAction::Open { container_name: text("c1") } },
        Subcommand::Container { action: ContainerAction::Stop { container_name: text("c1") } },
        Subcommand::Container { action: ContainerAction::List },
        Subcommand::Container { action: ContainerAction::Delete { container_name: text("x") } },
    ]
}

#[test]
fn encode_writes_the_call_down() {
    let call = opt(Some(Subcommand::Container {
        action: ContainerAction::Run {
            container_name: text("c1"),
            volume: None,
            host_ip: Some(text("10.1.0.1/16")),
            container_ip: None,
        },
    }));
    assert_eq!(
        call.encode(),
        r#"Opt { daemon: true, exit: false, debug: false, log_level: "minato", subcommand: Some(Container { action: Run { container_name: "c1", volume: None, host_ip: Some("10.1.0.1/16"), container_ip: None } }) }"#
    );
    assert_eq!(
        opt(None).encode(),
        r#"Opt { daemon: true, exit: false, debug: false, log_level: "minato", subcommand: None }"#
    );
}

#[test]
fn encode_is_the_debug_form() {
    for subcommand in all_commands() {
        let call = opt(Some(subcommand));
        assert_eq!(call.encode(), format!("{:?}", call));
    }
    let call = Opt { daemon: false, exit: true, debug: true, log_level: text(""), subcommand: None };
    assert_eq!(call.encode(), format!("{:?}", call));
}

#[test]
fn every_command_is_read_as_it_was_written() {
    for subcommand in all_commands() {
        let call = opt(Some(subcommand));
        assert_eq!(Opt::from_str(&call.encode()), Ok(call.clone()), "{}", call.encode());
    }
}

#[test]
fn switches_are_read_as_they_were_written() {
    for daemon in [false, true] {
        for exit in [false, true] {
            for debug in [false, true] {
                let call = Opt { daemon, exit, debug, log_level: text("info"), subcommand: None };
                assert_eq!(Opt::from_str(&call.encode()), Ok(call));
            }
        }
    }
}

#[test]
fn text_that_is_no_call_is_refused() {
    assert_eq!(Opt::from_str("hello"), Err(Failure::BadCommand));
    assert_eq!(Opt::from_str(""), Err(Failure::BadCommand));
    assert_eq!(run_command_from_string("hello"), Err(Failure::BadCommand));
}

#[test]
fn command_that_cannot_be_read_leaves_the_call_without_one() {
    let read = Opt::from_str(
        r#"Opt { daemon: true, exit: false, debug: false, log_level: "minato", subcommand: Some(Volume { action: List }) }"#,
    );
    assert_eq!(read, Ok(opt(None)));
}

#[test]
fn subcommand_from_str_cases() {
    assert_eq!(Subcommand::from_str("None"), Err(Failure::NoSubcommand));
    assert_eq!(Subcommand::from_str("nothing"), Err(Failure::BadSubcommand));
    assert_eq!(Subcommand::from_str("Some(Volume { action: List })"), Err(Failure::BadSubcommand));
    assert_eq!(Subcommand::from_str("Some(Image { action: Push })"), Err(Failure::BadAction));
    assert_eq!(Subcommand::from_str("Some(Container { action: Pause })"), Err(Failure::BadAction));
    assert_eq!(
        Subcommand::from_str("Some(Image { action: List })"),
        Ok(Subcommand::Image { action: ImageAction::List })
    );
}

#[test]
fn image_action_from_str_cases() {
    assert_eq!(
        ImageAction::from_str(r#"Image { action: Pull { image_id: "a/b:1" } }"#),
        Ok(ImageAction::Pull { image_id: text("a/b:1") })
    );
    assert_eq!(
        ImageAction::from_str(r#"Image { action: Delete { image_id: "x" } }"#),
        Ok(ImageAction::Delete { image_id: text("x") })
    );
    assert_eq!(ImageAction::from_str("Image { action: List }"), Ok(ImageAction::List));
    assert_eq!(ImageAction::from_str("Image { action: Push }"), Err(Failure::BadAction));
}

#[test]
fn container_action_from_str_cases() {
    assert_eq!(
        ContainerAction::from_str(
            r#"Container { action: Create { container_name: "c", image_id: "i" } }"#
        ),
        Ok(ContainerAction::Create { container_name: text("c"), image_id: text("i") })
    );
    assert_eq!(
        ContainerAction::from_str(r#"Container { action: Open { container_name: "c" } }"#),
        Ok(ContainerAction::Open { container_name: text("c") })
    );
    assert_eq!(
        ContainerAction::from_str(r#"Container { action: Stop { container_name: "c" } }"#),
        Ok(ContainerAction::Stop { container_name: text("c") })
    );
    assert_eq!(
        ContainerAction::from_str(r#"Container { action: Delete { container_name: "c" } }"#),
        Ok(ContainerAction::Delete { container_name: text("c") })
    );
    assert_eq!(ContainerAction::from_str("Container { action: List }"), Ok(ContainerAction::List));
    assert_eq!(ContainerAction::from_str("Container { action: Pause }"), Err(Failure::BadAction));
}

#[test]
fn from_groups_reads_the_groups_by_their_place() {
    let groups = vec![None, Some(text("Pull { .. }")), Some(text("a")), Some(text("b"))];
    assert_eq!(ImageAction::from_groups(&groups), Ok(ImageAction::Pull { image_id: text("a") }));
    let groups = vec![None, Some(text("Delete { .. }")), Some(text("a")), Some(text("b"))];
    assert_eq!(ImageAction::from_groups(&groups), Ok(ImageAction::Delete { image_id: text("b") }));
    let groups = vec![None, Some(text("Delete"))];
    assert_eq!(ImageAction::from_groups(&groups), Ok(ImageAction::Delete { image_id: text("") }));
    assert_eq!(ImageAction::from_groups(&vec![]), Err(Failure::BadAction));
    assert_eq!(ImageAction::from_groups(&vec![None, None]), Err(Failure::BadAction));
    let mut groups = vec![None; 11];
    groups[1] = Some(text("Stop"));
    groups[9] = Some(text("s"));
    groups[10] = Some(text("d"));
    assert_eq!(
        ContainerAction::from_groups(&groups),
        Ok(ContainerAction::Stop { container_name: text("s") })
    );
    groups[1] = Some(text("Run"));
    groups[4] = Some(text("r"));
    groups[5] = Some(text(r#"Some("v")"#));
    groups[6] = Some(text("None"));
    assert_eq!(
        ContainerAction::from_groups(&groups),
        Ok(ContainerAction::Run {
            container_name: text("r"),
            volume: Some(text("v")),
            host_ip: None,
            container_ip: None,
        })
    );
    let groups = vec![None, Some(text("true")), Some(text("false")), None, Some(text("lvl")), Some(text("None"))];
    assert_eq!(
        Opt::from_groups(&groups),
        Opt { daemon: true, exit: false, debug: false, log_level: text("lvl"), subcommand: None }
    );
    let groups = vec![None, None, Some(text("Image { action: List }"))];
    assert_eq!(
        Subcommand::from_groups(&groups),
        Ok(Subcommand::Image { action: ImageAction::List })
    );
    assert_eq!(Subcommand::from_groups(&vec![None, None, Some(text("x"))]), Err(Failure::BadSubcommand));
}

#[test]
fn option_from_str_cases() {
    assert_eq!(option_from_str(r#"Some("/a:/b")"#), Some(text("/a:/b")));
    assert_eq!(option_from_str("None"), None);
    assert_eq!(option_from_str(""), None);
    assert_eq!(option_from_str(r#"Some("")"#), None);
    assert_eq!(option_from_groups(None), None);
    assert_eq!(
        option_from_groups(Some(vec![Some(text("whole")), Some(text("inner"))])),
        Some(text("inner"))
    );
    assert_eq!(option_from_groups(Some(vec![Some(text("whole")), None])), Some(text("")));
    assert_eq!(option_from_groups(Some(vec![])), Some(text("")));
}

#[test]
fn run_command_gives_the_command() {
    let subcommand = Subcommand::Image { action: ImageAction::List };
    assert_eq!(
        run_command(opt(Some(subcommand.clone()))),
        Ok(Command { daemon: true, subcommand: subcommand.clone() })
    );
    assert_eq!(run_command(opt(None)), Err(Failure::NoSubcommand));
    assert_eq!(
        run_command_from_string(&opt(Some(subcommand.clone())).encode()),
        Ok(Command { daemon: true, subcommand })
    );
    assert_eq!(run_command_from_string(&opt(None).encode()), Err(Failure::NoSubcommand));
}

#[test]
fn daemon_reads_a_message() {
    let daemon = Daemon::new().unwrap();
    assert_eq!(daemon.socket_path, "/var/lib/minato/socket");
    let subcommand = Subcommand::Container {
        action: ContainerAction::Stop { container_name: text("c1") },
    };
    assert_eq!(
        daemon.handle_client(&opt(Some(subcommand.clone())).encode()),
        Ok(Command { daemon: true, subcommand: subcommand.clone() })
    );
    let mut leave = opt(Some(subcommand));
    leave.exit = true;
    assert_eq!(daemon.handle_client(&leave.encode()), Err(Failure::DaemonExit));
    let mut leave = opt(None);
    leave.exit = true;
    assert_eq!(daemon.handle_client(&leave.encode()), Err(Failure::DaemonExit));
    assert_eq!(daemon.handle_client(&opt(None).encode()), Err(Failure::NoSubcommand));
    assert_eq!(daemon.handle_client("garbage"), Err(Failure::BadCommand));
    assert_eq!(Daemon::reply(), "OK");
}

#[test]
fn daemon_pid_file_and_socket() {
    let daemon = Daemon::new().unwrap();
    assert_eq!(
        daemon.start(77),
        vec![
            Action::RemoveFile { path: text("/var/lib/minato/pid") },
            Action::WriteFile { path: text("/var/lib/minato/pid"), data: text("77\n") },
        ]
    );
    assert_eq!(daemon.finish(), vec![Action::RemoveFile { path: text("/var/lib/minato/pid") }]);
    assert_eq!(
        Daemon::create_socket(text("/var/lib/minato/socket")),
        vec![Action::RemoveFile { path: text("/var/lib/minato/socket") }]
    );
    assert!(Daemon::goes_on(&Ok(())));
    assert!(!Daemon::goes_on(&Err(Failure::DaemonExit)));
    assert!(!Daemon::goes_on(&Err(Failure::BadCommand)));
}

#[test]
fn client_sends_the_call_written_down() {
    let client = Client::new().unwrap();
    assert_eq!(client.socket_path, "/var/lib/minato/socket");
    let call = opt(Some(Subcommand::Image { action: ImageAction::List }));
    assert_eq!(client.send(&call), Ok(call.encode()));
}

#[test]
fn client_refuses_a_call_longer_than_the_daemon_reads() {
    let client = Client::new().unwrap();
    let fits = |n: usize| {
        opt(Some(Subcommand::Image { action: ImageAction::Pull { image_id: "x".repeat(n) } }))
    };
    let overhead = fits(0).encode().len();
    assert!(client.send(&fits(1024 - overhead)).is_ok());
    assert_eq!(client.send(&fits(1024 - overhead + 1)), Err(Failure::BadCommand));
    let wide = opt(Some(Subcommand::Image {
        action: ImageAction::Pull { image_id: "ä".repeat((1024 - overhead) / 2 + 1) },
    }));
    assert_eq!(client.send(&wide), Err(Failure::BadCommand));
}

#[test]
fn find_gives_the_groups_of_the_leftmost_match() {
    assert_eq!(
        find(r"(\w)(\d)?(\w)", "  AZ BY"),
        Ok(Some(vec![Some(text("AZ")), Some(text("A")), None, Some(text("Z"))]))
    );
    assert_eq!(find("a+", "bbb"), Ok(None));
    assert_eq!(find("", "bbb"), Ok(Some(vec![Some(text(""))])));
}

#[test]
fn find_refuses_what_is_no_pattern() {
    assert_eq!(find("(", "x"), Err(Failure::BadPattern));
    assert_eq!(find(r"\w{1000}", "x"), Err(Failure::BadPattern));
}

#[test]
fn group_is_empty_where_nothing_was_captured() {
    let groups = vec![Some(text("whole")), None, Some(text("b"))];
    assert_eq!(group(&groups, 0), "whole");
    assert_eq!(group(&groups, 1), "");
    assert_eq!(group(&groups, 2), "b");
    assert_eq!(group(&groups, 3), "");
}

#[test]
fn client_refuses_a_call_that_the_daemon_would_read_as_another() {
    let client = Client::new().unwrap();
    let run = |container_name: &str, volume: Option<&str>| {
        opt(Some(Subcommand::Container {
            action: ContainerAction::Run {
                container_name: text(container_name),
                volume: volume.map(text),
                host_ip: None,
                container_ip: None,
            },
        }))
    };
    assert!(client.send(&run("c1", Some("/a:/b"))).is_ok());
    assert_eq!(client.send(&run("c\"1", None)), Err(Failure::BadCommand));
    assert_eq!(client.send(&run("c1", Some(""))), Err(Failure::BadCommand));
    assert_eq!(client.send(&run("", None)), Err(Failure::BadCommand));
    let mut odd = opt(None);
    odd.log_level = text("a\"b");
    assert_eq!(client.send(&odd), Err(Failure::BadCommand));
}

#[test]
fn what_the_client_sends_the_daemon_reads() {
    let client = Client::new().unwrap();
    let daemon = Daemon::new().unwrap();
    for subcommand in all_commands() {
        let call = opt(Some(subcommand.clone()));
        let message = client.send(&call).unwrap();
        assert_eq!(daemon.handle_client(&message), Ok(Command { daemon: true, subcommand }));
    }
}

#[test]
fn same_tells_calls_apart() {
    let commands = all_commands();
    for (i, a) in commands.iter().enumerate() {
        for (j, b) in commands.iter().enumerate() {
            assert_eq!(a.same(b), i == j);
            assert_eq!(opt(Some(a.clone())).same(&opt(Some(b.clone()))), i == j);
        }
        assert!(!opt(Some(a.clone())).same(&opt(None)));
    }
    assert!(opt(None).same(&opt(None)));
    let mut other = opt(None);
    other.debug = true;
    assert!(!opt(None).same(&other));
}
