use minato::action::NamespaceType;
use minato::document::{Json, Member};
use minato::error::Failure;
use minato::runtime_spec::{Device, Linux, Namespace, Process, Resources, Spec, User};

fn text(s: &str) -> String {
    String::from(s)
}

fn member(key: &str, value: Json) -> Member {
    Member { key: text(key), value }
}

fn object(members: Vec<(&str, Json)>) -> Json {
    Json::Object(members.into_iter().map(|(k, v)| member(k, v)).collect())
}

fn full() -> Spec {
    Spec {
        process: Process {
            args: vec![text("/bin/echo"), text("hi")],
            env: vec![text("PATH=/bin"), text("TERM=xterm")],
            user: User { uid: 1000, gid: u32::MAX, additional_gids: vec![1, 2, 3] },
        },
        hostname: text("box1"),
        linux: Some(Linux {
            namespaces: vec![
                Namespace { typ: NamespaceType::Pid },
                Namespace { typ: NamespaceType::Network },
                Namespace { typ: NamespaceType::Cgroup },
                Namespace { typ: NamespaceType::Mount },
                Namespace { typ: NamespaceType::Uts },
                Namespace { typ: NamespaceType::Ipc },
                Namespace { typ: NamespaceType::User },
            ],
            resources: Some(Resources {
                devices: vec![
                    Device {
                        allow: false,
                        typ: text("a"),
                        major: None,
                        minor: None,
                        access: text("rwm"),
                    },
                    Device {
                        allow: true,
                        typ: text("c"),
                        major: Some(1),
                        minor: Some(-5),
                        access: text("rw"),
                    },
                ],
            }),
        }),
    }
}

/// `document` with the member at `path` replaced by `value`.
fn replaced(document: Json, path: &[&str], value: &mut Option<Json>) -> Json {
    match document {
        Json::Object(members) => Json::Object(
            members
                .into_iter()
                .map(|m| {
                    if m.key != path[0] {
                        m
                    } else if path.len() == 1 {
                        Member { key: m.key, value: value.take().unwrap() }
                    } else {
                        Member { key: m.key, value: replaced(m.value, &path[1..], value) }
                    }
                })
                .collect(),
        ),
        other => other,
    }
}

#[test]
fn save_writes_every_part() {
    let mut spec = Spec::default();
    spec.process.env = vec![text("A=1")];
    assert_eq!(
        spec.save(),
        object(vec![
            (
                "process",
                object(vec![
                    ("args", Json::List(vec![Json::Text(text("/bin/sh"))])),
                    ("env", Json::List(vec![Json::Text(text("A=1"))])),
                    (
                        "user",
                        object(vec![
                            ("uid", Json::Number(0)),
                            ("gid", Json::Number(0)),
                            ("additionalGids", Json::List(vec![])),
                        ])
                    ),
                ])
            ),
            ("hostname", Json::Text(text("minato"))),
            (
                "linux",
                object(vec![
                    (
                        "namespaces",
                        Json::List(
                            ["pid", "mount", "uts", "ipc", "user"]
                                .iter()
                                .map(|k| object(vec![("type", Json::Text(text(k)))]))
                                .collect()
                        )
                    ),
                    ("resources", Json::Null),
                ])
            ),
        ])
    );
}

#[test]
fn load_of_save_is_the_same_configuration() {
    for spec in [Spec::default(), full()] {
        assert_eq!(Spec::load(&spec.save()), Ok(spec));
    }
    let mut bare = Spec::default();
    bare.linux = None;
    assert_eq!(bare.save().get("linux"), Some(&Json::Null));
    assert_eq!(Spec::load(&bare.save()), Ok(bare));
}

#[test]
fn load_takes_absent_parts_as_none() {
    let document = object(vec![
        (
            "process",
            object(vec![
                ("args", Json::List(vec![Json::Text(text("sh"))])),
                ("env", Json::List(vec![])),
                (
                    "user",
                    object(vec![
                        ("uid", Json::Number(0)),
                        ("gid", Json::Number(0)),
                        ("additionalGids", Json::List(vec![])),
                    ]),
                ),
                ("cwd", Json::Text(text("/"))),
            ]),
        ),
        ("ociVersion", Json::Text(text("1.0.0"))),
        ("hostname", Json::Text(text("h"))),
    ]);
    let spec = Spec::load(&document).unwrap();
    assert_eq!(spec.linux, None);
    assert_eq!(spec.hostname, "h");
    assert_eq!(spec.process.args, vec![text("sh")]);
}

#[test]
fn load_refuses_documents_of_another_shape() {
    assert_eq!(Spec::load(&Json::Null), Err(Failure::BadSpec));
    assert_eq!(Spec::load(&Json::List(vec![])), Err(Failure::BadSpec));
    assert_eq!(Spec::load(&object(vec![])), Err(Failure::BadSpec));
    let with = |path: &[&str], value: Json| replaced(full().save(), path, &mut Some(value));
    assert_eq!(Spec::load(&with(&["hostname"], Json::Text(text("other")))).unwrap().hostname, "other");
    assert_eq!(Spec::load(&with(&["hostname"], Json::Number(1))), Err(Failure::BadSpec));
    assert_eq!(Spec::load(&with(&["process"], Json::Null)), Err(Failure::BadSpec));
    assert_eq!(Spec::load(&with(&["process", "args"], Json::Text(text("sh")))), Err(Failure::BadSpec));
    assert_eq!(
        Spec::load(&with(&["process", "env"], Json::List(vec![Json::Number(1)]))),
        Err(Failure::BadSpec)
    );
    assert_eq!(Spec::load(&with(&["process", "user", "uid"], Json::Number(-1))), Err(Failure::BadSpec));
    assert_eq!(
        Spec::load(&with(&["process", "user", "gid"], Json::Number(4294967296))),
        Err(Failure::BadSpec)
    );
    assert_eq!(
        Spec::load(&with(&["process", "user", "gid"], Json::Number(4294967295))).unwrap().process.user.gid,
        u32::MAX
    );
    assert_eq!(
        Spec::load(&with(
            &["linux", "namespaces"],
            Json::List(vec![object(vec![("type", Json::Text(text("time")))])])
        )),
        Err(Failure::BadSpec)
    );
    assert_eq!(
        Spec::load(&with(&["linux", "resources", "devices"], Json::List(vec![object(vec![])]))),
        Err(Failure::BadSpec)
    );
    assert_eq!(Spec::load(&with(&["linux", "resources"], Json::Bool(true))), Err(Failure::BadSpec));
}

#[test]
fn load_refuses_a_configuration_that_breaks_the_rules() {
    let mut spec = Spec::default();
    spec.process.args = vec![];
    assert_eq!(Spec::load(&spec.save()), Err(Failure::BadSpec));
    let mut spec = Spec::default();
    spec.linux = Some(Linux {
        namespaces: vec![Namespace { typ: NamespaceType::Pid }],
        resources: None,
    });
    assert_eq!(Spec::load(&spec.save()), Err(Failure::BadSpec));
    let mut spec = Spec::default();
    spec.linux = Some(Linux {
        namespaces: vec![
            Namespace { typ: NamespaceType::Uts },
            Namespace { typ: NamespaceType::Uts },
        ],
        resources: None,
    });
    assert_eq!(Spec::load(&spec.save()), Err(Failure::BadSpec));
}

#[test]
fn get_finds_the_first_member_of_a_name() {
    let document = object(vec![
        ("a", Json::Number(1)),
        ("b", Json::Number(2)),
        ("a", Json::Number(3)),
    ]);
    assert_eq!(document.get("a"), Some(&Json::Number(1)));
    assert_eq!(document.get("b"), Some(&Json::Number(2)));
    assert_eq!(document.get("c"), None);
    assert_eq!(Json::Null.get("a"), None);
    assert_eq!(Json::List(vec![Json::Null]).get("a"), None);
}

fn to_value(json: &Json) -> serde_json::Value {
    match json {
        Json::Null => serde_json::Value::Null,
        Json::Bool(b) => serde_json::Value::Bool(*b),
        Json::Number(n) => serde_json::Value::from(*n),
        Json::Text(text) => serde_json::Value::String(text.clone()),
        Json::List(items) => serde_json::Value::Array(items.iter().map(to_value).collect()),
        Json::Object(members) => {
            let mut map = serde_json::Map::new();
            for member in members {
                map.insert(member.key.clone(), to_value(&member.value));
            }
            serde_json::Value::Object(map)
        }
    }
}

fn from_value(value: &serde_json::Value) -> Json {
    match value {
        serde_json::Value::Null => Json::Null,
        serde_json::Value::Bool(b) => Json::Bool(*b),
        serde_json::Value::Number(n) => Json::Number(n.as_i64().unwrap()),
        serde_json::Value::String(text) => Json::Text(text.clone()),
        serde_json::Value::Array(items) => Json::List(items.iter().map(from_value).collect()),
        serde_json::Value::Object(map) => Json::Object(
            map.iter().map(|(k, v)| Member { key: k.clone(), value: from_value(v) }).collect(),
        ),
    }
}

#[test]
fn load_of_save_through_json_text() {
    for spec in [Spec::default(), full()] {
        let written = serde_json::to_string(&to_value(&spec.save())).unwrap();
        let read: serde_json::Value = serde_json::from_str(&written).unwrap();
        assert_eq!(Spec::load(&from_value(&read)), Ok(spec));
    }
}

#[test]
fn load_reads_a_configuration_written_by_hand() {
    let written = r#"{
        "ociVersion": "1.0.0",
        "process": {
            "terminal": true,
            "user": { "uid": 0, "gid": 0, "additionalGids": [10] },
            "args": ["/bin/echo", "hi"],
            "env": ["PATH=/bin"],
            "cwd": "/"
        },
        "hostname": "box1",
        "linux": {
            "namespaces": [{ "type": "pid" }, { "type": "mount" }, { "type": "uts" }],
            "resources": { "devices": [{ "allow": false, "type": "a", "access": "rwm" }] }
        }
    }"#;
    let read: serde_json::Value = serde_json::from_str(written).unwrap();
    let spec = Spec::load(&from_value(&read)).unwrap();
    assert_eq!(spec.hostname, "box1");
    assert_eq!(spec.process.args, vec![text("/bin/echo"), text("hi")]);
    assert_eq!(spec.process.user.additional_gids, vec![10]);
    assert_eq!(
        spec.linux.unwrap().resources.unwrap().devices,
        vec![Device { allow: false, typ: text("a"), major: None, minor: None, access: text("rwm") }]
    );
}
