use minato::action::{Action, Plan};
use minato::error::Failure;
use minato::image::{Image, PullStage, PullStep};
use minato::image_manager::{ImageManager, Pull};
use minato::json::Shallow;

fn text(s: &str) -> String {
    String::from(s)
}

const MANIFEST: &str = r#"{
  "name": "library/alpine",
  "tag": "latest",
  "fsLayers": [
    { "blobSum": "sha256:aaa" },
    { "blobSum": "sha256:bbb" }
  ]
}"#;

const MANIFEST_COMPACT: &str =
    r#"{"fsLayers":[{"blobSum":"sha256:aaa"},{"blobSum":"sha256:bbb"}],"name":"library/alpine","tag":"latest"}"#;

fn manifest_actions(body: &str) -> Vec<Action> {
    vec![
        Action::CreateDirAll { path: text("/var/lib/minato/images/json") },
        Action::WriteFile {
            path: text("/var/lib/minato/images/json/library_alpine:latest.json"),
            data: text(body),
        },
    ]
}

fn download(digest: &str, token: &str) -> Action {
    Action::Download {
        url: format!("https://registry.hub.docker.com/v2/library/alpine/blobs/sha256:{}", digest),
        token: text(token),
        into: format!("/var/lib/minato/images/library/alpine:latest/{}.tar.gz", digest),
    }
}

fn clear() -> Action {
    Action::RemoveDirAll { path: text("/var/lib/minato/images/library/alpine:latest") }
}

fn make() -> Action {
    Action::CreateDirAll { path: text("/var/lib/minato/images/library/alpine:latest") }
}

fn head(body: &str) -> Vec<Action> {
    let mut actions = vec![clear()];
    actions.extend(manifest_actions(body));
    actions.push(make());
    actions
}

#[test]
fn new_image_has_identity_and_path() {
    let image = Image::new("alpine");
    assert_eq!(image.id, "library/alpine:latest");
    assert_eq!(image.name, "library/alpine");
    assert_eq!(image.reference, "latest");
    assert_eq!(image.path, "/var/lib/minato/images/library/alpine:latest");
    assert!(image.fs_layers.is_empty());
}

#[test]
fn load_takes_the_layers_in_the_order_of_the_directory() {
    let image = Image::load("alpine", Some(vec![text("bbb"), text("aaa")]), Some(MANIFEST))
        .unwrap()
        .unwrap();
    assert_eq!(image.id, "library/alpine:latest");
    assert_eq!(image.fs_layers, vec![text("bbb"), text("aaa")]);
    assert_eq!(Image::load("alpine", None, Some(MANIFEST)).unwrap(), None);
    assert_eq!(Image::load("alpine", None, None).unwrap(), None);
}

#[test]
fn load_finds_no_image_in_what_a_failed_pull_left() {
    let names = |list: &[&str]| Some(list.iter().map(|n| text(n)).collect::<Vec<String>>());
    assert_eq!(Image::load("alpine", names(&["aaa"]), Some(MANIFEST)), Ok(None));
    assert_eq!(Image::load("alpine", names(&["aaa", "bbb", "bbb.tar.gz"]), Some(MANIFEST)), Ok(None));
    assert_eq!(Image::load("alpine", names(&["aaa", "bbb"]), None), Ok(None));
    assert_eq!(Image::load("alpine", names(&["aaa", "bbb"]), Some("{}")), Ok(None));
    assert!(Image::load("alpine", names(&["aaa", "bbb"]), Some(MANIFEST)).unwrap().is_some());
}

#[test]
fn pull_of_a_stored_image_does_nothing() {
    let mut image = Image::new("alpine");
    let before = image.clone();
    let entries = vec![text("bbb"), text("aaa")];
    assert_eq!(
        image.pull(Some(&entries), Some(MANIFEST)),
        Ok(PullStep::Apply {
            plan: Plan { actions: vec![], cleanup: vec![], issue: Some(Failure::ImageExists) }
        })
    );
    assert_eq!(image, before);
    assert!(Image::is_complete(Some(&entries), Some(MANIFEST_COMPACT)));
    assert!(Image::is_complete(Some(&vec![]), Some(r#"{"fsLayers":[]}"#)));
}

#[test]
fn pull_starts_with_the_token_request() {
    let mut image = Image::new("alpine");
    let first = PullStep::Fetch {
        url: text(
            "https://auth.docker.io/token?service=registry.docker.io&scope=repository:library/alpine:pull",
        ),
        token: None,
        next: PullStage::Token,
    };
    assert_eq!(image.pull(None, None), Ok(first.clone()));
    assert_eq!(image.pull_from_docker(PullStage::Start, ""), Ok(first));
}

#[test]
fn token_reply_leads_to_the_manifest_request() {
    let mut image = Image::new("alpine:3.12");
    assert_eq!(
        image.pull_from_docker(PullStage::Token, r#"{"token": "t0k3n", "expires_in": 300}"#),
        Ok(PullStep::Fetch {
            url: text("https://registry.hub.docker.com/v2/library/alpine/manifests/3.12"),
            token: Some(text("t0k3n")),
            next: PullStage::Manifest { token: text("t0k3n") },
        })
    );
}

#[test]
fn token_is_read_from_the_reply() {
    let image = Image::new("alpine");
    assert_eq!(image.get_authentication_token(r#"{"token":"abc"}"#), Ok(text("abc")));
    assert_eq!(image.get_authentication_token(r#"{"token":""}"#), Ok(text("")));
    assert_eq!(image.get_authentication_token(r#"{"token":5}"#), Err(Failure::TokenMissing));
    assert_eq!(image.get_authentication_token(r#"{"other":"abc"}"#), Err(Failure::TokenMissing));
    assert_eq!(image.get_authentication_token(r#"["token"]"#), Err(Failure::TokenMissing));
    assert_eq!(image.get_authentication_token("not json"), Err(Failure::MalformedJson));
    assert_eq!(image.get_authentication_token(""), Err(Failure::MalformedJson));
    assert_eq!(image.get_authentication_token(r#"{"token":null}"#), Err(Failure::TokenMissing));
    assert_eq!(image.get_authentication_token(r#"{"token":["abc"]}"#), Err(Failure::TokenMissing));
    assert_eq!(image.get_authentication_token(r#"{"token":{"a":"b"}}"#), Err(Failure::TokenMissing));
    assert_eq!(Image::token_from(Some(Shallow::Text(text("x")))), Ok(text("x")));
    assert_eq!(Image::token_from(None), Err(Failure::TokenMissing));
    assert_eq!(Image::token_from(Some(Shallow::Null)), Err(Failure::TokenMissing));
    assert_eq!(Image::token_from(Some(Shallow::Bool(true))), Err(Failure::TokenMissing));
    assert_eq!(Image::token_from(Some(Shallow::Number(text("5")))), Err(Failure::TokenMissing));
    assert_eq!(Image::token_from(Some(Shallow::List(vec![]))), Err(Failure::TokenMissing));
    assert_eq!(Image::token_from(Some(Shallow::Object(text("{}")))), Err(Failure::TokenMissing));
}

#[test]
fn bad_token_reply_ends_the_pull() {
    let mut image = Image::new("alpine");
    assert_eq!(image.pull_from_docker(PullStage::Token, "{}"), Err(Failure::TokenMissing));
    assert_eq!(image.pull_from_docker(PullStage::Token, "<html>"), Err(Failure::MalformedJson));
}

#[test]
fn manifest_is_kept_as_it_is_written_again() {
    let image = Image::new("alpine");
    assert_eq!(image.get_image_json(MANIFEST), Ok(text(MANIFEST_COMPACT)));
    assert_eq!(image.get_image_json("{"), Err(Failure::MalformedJson));
    assert_eq!(image.write_image_json("{}"), manifest_actions("{}"));
}

#[test]
fn layers_are_read_in_the_order_of_the_manifest() {
    let image = Image::new("alpine");
    assert_eq!(
        image.extract_layers_from_body(MANIFEST),
        Ok(vec![Some(text("sha256:aaa")), Some(text("sha256:bbb"))])
    );
    assert_eq!(
        image.extract_layers_from_body(r#"{"fsLayers":[{"blobSum":"x"},{"other":1},7]}"#),
        Ok(vec![Some(text("x")), None, None])
    );
    assert_eq!(image.extract_layers_from_body(r#"{"fsLayers":[]}"#), Ok(vec![]));
    assert_eq!(image.extract_layers_from_body(r#"{"fsLayers":{}}"#), Err(Failure::LayersMissing));
    assert_eq!(image.extract_layers_from_body("{}"), Err(Failure::LayersMissing));
    assert_eq!(image.extract_layers_from_body("]"), Err(Failure::MalformedJson));
    assert_eq!(
        image.extract_layers_from_body(r#"{"fsLayers":"sha256:aaa"}"#),
        Err(Failure::LayersMissing)
    );
    assert_eq!(
        image.extract_layers_from_body(r#"{"fsLayers":[{"blobSum":5},{"blobSum":["x"]}]}"#),
        Ok(vec![None, None])
    );
    assert_eq!(Image::layers_from(None), Err(Failure::LayersMissing));
    assert_eq!(Image::layers_from(Some(Shallow::Text(text("x")))), Err(Failure::LayersMissing));
    assert_eq!(Image::layers_from(Some(Shallow::Object(text("{}")))), Err(Failure::LayersMissing));
    assert_eq!(
        Image::layers_from(Some(Shallow::List(vec![
            text(r#"{"blobSum":"sha256:aaa"}"#),
            text(r#"{"size":1}"#),
            text("no json"),
            text(r#"{"blobSum":"b"}"#),
        ]))),
        Ok(vec![Some(text("sha256:aaa")), None, None, Some(text("b"))])
    );
    assert_eq!(Image::blob_sum_from(Some(Shallow::Text(text("x")))), Some(text("x")));
    assert_eq!(Image::blob_sum_from(Some(Shallow::Number(text("1")))), None);
    assert_eq!(Image::blob_sum_from(None), None);
}

#[test]
fn download_layer_adds_the_digest() {
    let mut image = Image::new("alpine");
    assert_eq!(image.download_layer("tok", &Some(text("sha256:aaa"))), Ok(download("aaa", "tok")));
    assert_eq!(image.fs_layers, vec![text("aaa")]);
    assert_eq!(image.download_layer("tok", &None), Err(Failure::BlobSumMissing));
    assert_eq!(image.fs_layers, vec![text("aaa")]);
}

#[test]
fn digest_loses_the_prefix_only() {
    let mut image = Image::new("alpine");
    let action = image.download_layer("t", &Some(text("md5:sha256:x"))).unwrap();
    assert_eq!(image.fs_layers, vec![text("md5:sha256:x")]);
    assert_eq!(
        action,
        Action::Download {
            url: text("https://registry.hub.docker.com/v2/library/alpine/blobs/md5:sha256:x"),
            token: text("t"),
            into: text("/var/lib/minato/images/library/alpine:latest/md5:sha256:x.tar.gz"),
        }
    );
}

#[test]
fn manifest_reply_plans_the_rest_of_the_pull() {
    let mut image = Image::new("alpine");
    let step = image.pull_from_docker(PullStage::Manifest { token: text("tok") }, MANIFEST);
    let mut actions = head(MANIFEST_COMPACT);
    actions.push(download("aaa", "tok"));
    actions.push(download("bbb", "tok"));
    for digest in ["aaa", "bbb"] {
        actions.push(Action::Unpack {
            archive: format!(
                "/var/lib/minato/images/library/alpine:latest/{}.tar.gz",
                digest
            ),
            into: format!("/var/lib/minato/images/library/alpine:latest/{}", digest),
        });
    }
    for digest in ["aaa", "bbb"] {
        actions.push(Action::RemoveFile {
            path: format!(
                "/var/lib/minato/images/library/alpine:latest/{}.tar.gz",
                digest
            ),
        });
    }
    assert_eq!(step, Ok(PullStep::Apply { plan: Plan { actions, cleanup: vec![], issue: None } }));
    assert_eq!(image.fs_layers, vec![text("aaa"), text("bbb")]);
}

#[test]
fn manifest_without_layers_is_kept_and_reported() {
    let mut image = Image::new("alpine");
    let step = image.pull_from_docker(PullStage::Manifest { token: text("tok") }, r#"{"a": 1}"#);
    assert_eq!(
        step,
        Ok(PullStep::Apply {
            plan: Plan {
                actions: manifest_actions(r#"{"a":1}"#),
                cleanup: vec![],
                issue: Some(Failure::LayersMissing),
            }
        })
    );
    assert!(image.fs_layers.is_empty());
}

#[test]
fn layer_without_blob_sum_ends_the_downloads() {
    let mut image = Image::new("alpine");
    let reply = r#"{"fsLayers":[{"blobSum":"sha256:aaa"},{"size":1},{"blobSum":"sha256:ccc"}]}"#;
    let step = image.pull_from_docker(PullStage::Manifest { token: text("tok") }, reply);
    let mut actions = head(reply);
    actions.push(download("aaa", "tok"));
    assert_eq!(
        step,
        Ok(PullStep::Apply {
            plan: Plan { actions, cleanup: vec![], issue: Some(Failure::BlobSumMissing) }
        })
    );
    assert_eq!(image.fs_layers, vec![text("aaa")]);
}

#[test]
fn manifest_that_is_no_json_ends_the_pull() {
    let mut image = Image::new("alpine");
    assert_eq!(
        image.pull_from_docker(PullStage::Manifest { token: text("tok") }, "oops"),
        Err(Failure::MalformedJson)
    );
}

#[test]
fn pull_layers_with_what_was_found() {
    let mut image = Image::new("alpine");
    let plan = image.pull_layers("tok", "{}", Err(Failure::LayersMissing));
    assert_eq!(
        plan,
        Plan { actions: manifest_actions("{}"), cleanup: vec![], issue: Some(Failure::LayersMissing) }
    );
    let plan = image.pull_layers("tok", "{}", Ok(vec![]));
    assert_eq!(plan, Plan { actions: head("{}"), cleanup: vec![], issue: None });
}

#[test]
fn unpack_and_remove_follow_the_layers() {
    let mut image = Image::new("a/b:1");
    image.fs_layers = vec![text("x")];
    assert_eq!(
        image.unpack_image_layers(),
        vec![Action::Unpack {
            archive: text("/var/lib/minato/images/a/b:1/x.tar.gz"),
            into: text("/var/lib/minato/images/a/b:1/x"),
        }]
    );
    assert_eq!(
        image.remove_archives(),
        vec![Action::RemoveFile { path: text("/var/lib/minato/images/a/b:1/x.tar.gz") }]
    );
}

#[test]
fn delete_removes_manifest_and_directory() {
    let image = Image::new("alpine");
    let expected = vec![
        Action::RemoveFile { path: text("/var/lib/minato/images/json/library_alpine:latest.json") },
        Action::RemoveDirAll { path: text("/var/lib/minato/images/library/alpine:latest") },
    ];
    assert_eq!(
        image.delete(true),
        Plan { actions: expected.clone(), cleanup: vec![], issue: None }
    );
    assert_eq!(
        image.delete(false),
        Plan {
            actions: expected[..1].to_vec(),
            cleanup: vec![],
            issue: Some(Failure::ImageNotFound),
        }
    );
    assert_eq!(image.delete_image_json(), expected[..1].to_vec());
    assert_eq!(image.delete_image_directory(), expected[1..].to_vec());
    let manager = ImageManager::new();
    assert_eq!(manager.delete("alpine", true).actions, expected);
    assert_eq!(manager.delete("alpine", false).issue, Some(Failure::ImageNotFound));
    assert_eq!(manager.delete("alpine", false).actions, expected[..1].to_vec());
}

#[test]
fn manager_begins_a_pull() {
    let manager = ImageManager::new();
    let pull = manager.pull("alpine", None, None).unwrap();
    let mut image = Image::new("alpine");
    let step = image.pull(None, None).unwrap();
    assert_eq!(pull, Pull { image: image.clone(), step });
    let entries = vec![text("aaa"), text("bbb")];
    let again = manager.pull("alpine", Some(&entries), Some(MANIFEST)).unwrap();
    assert_eq!(
        again.step,
        PullStep::Apply {
            plan: Plan { actions: vec![], cleanup: vec![], issue: Some(Failure::ImageExists) }
        }
    );
}

#[test]
fn manager_lists_the_ids_that_a_manifest_name_can_stand_for() {
    let manager = ImageManager::new();
    assert_eq!(
        manager.list_ids(&vec![text("library_alpine:latest.json")]),
        vec![text("library/alpine:latest")]
    );
    assert_eq!(
        manager.list_ids(&vec![text("my_repo_img:1.json")]),
        vec![text("my/repo_img:1"), text("my_repo/img:1"), text("my/repo/img:1")]
    );
    assert_eq!(
        manager.list_ids(&vec![text("a_b:v_1.json")]),
        vec![text("a/b:v_1")]
    );
    assert_eq!(
        manager.list_ids(&vec![
            text("notes.txt"),
            text("a_b:3.12.json"),
            text(".json"),
            text("nocolon_x.json"),
            text("noslash:1.json"),
            text("c_d:1.json"),
        ]),
        vec![text("a/b:3.12"), text("c/d:1")]
    );
}

#[test]
fn every_image_is_listed_under_its_id() {
    let manager = ImageManager::new();
    for id in ["alpine", "my_repo/img:1", "a/b_c/d_e:latest", "x_y", "_/_:_", "a/b"] {
        let image = Image::new(id);
        let manifest = match &image.write_image_json("{}")[1] {
            Action::WriteFile { path, .. } => path.clone(),
            other => panic!("{:?}", other),
        };
        let name = manifest.strip_prefix("/var/lib/minato/images/json/").unwrap();
        let ids = manager.list_ids(&vec![text(name)]);
        assert_eq!(ids.iter().filter(|listed| **listed == image.id).count(), 1, "{}", id);
        for listed in ids {
            let other = Image::new(&listed);
            assert_eq!(other.id, listed);
            assert_eq!(other.write_image_json("{}")[1], image.write_image_json("{}")[1]);
        }
    }
}

#[test]
fn manager_lists_images_in_columns() {
    let manager = ImageManager::new();
    let images = vec![Image::new("alpine"), Image::new("some/long-repository-name:with-a-long-tag")];
    let plan = manager.list(Some(&images));
    assert_eq!(
        plan.actions,
        vec![
            Action::Print { line: format!("{:25} {:25} {:25} {}", "id", "name", "reference", "path") },
            Action::Print {
                line: format!(
                    "{:25} {:25} {:25} {}",
                    "library/alpine:latest",
                    "library/alpine",
                    "latest",
                    "/var/lib/minato/images/library/alpine:latest"
                )
            },
            Action::Print {
                line: format!(
                    "{:25} {:25} {:25} {}",
                    "some/long-repository-name:with-a-long-tag",
                    "some/long-repository-name",
                    "with-a-long-tag",
                    "/var/lib/minato/images/some/long-repository-name:with-a-long-tag"
                )
            },
        ]
    );
    assert_eq!(plan.issue, None);
    assert_eq!(
        manager.list(None),
        Plan { actions: vec![], cleanup: vec![], issue: Some(Failure::ImageNotFound) }
    );
}

#[test]
fn directory_left_by_a_failed_pull_is_not_taken_for_the_image() {
    let mut image = Image::new("alpine");
    let first = image.pull(None, None);
    let starts = |step: Result<PullStep, Failure>| matches!(step, Ok(PullStep::Fetch { .. }));
    assert!(starts(first));
    let names = |list: &[&str]| list.iter().map(|n| text(n)).collect::<Vec<String>>();
    let left = [
        names(&[]),
        names(&["aaa.tar.gz"]),
        names(&["aaa.tar.gz", "bbb.tar.gz"]),
        names(&["aaa", "aaa.tar.gz", "bbb.tar.gz"]),
        names(&["aaa", "bbb", "aaa.tar.gz", "bbb.tar.gz"]),
        names(&["aaa", "bbb", "bbb.tar.gz"]),
        names(&["aaa"]),
        names(&["bbb"]),
    ];
    for entries in left.iter() {
        assert!(!Image::is_complete(Some(entries), Some(MANIFEST)), "{:?}", entries);
        assert!(starts(image.pull(Some(entries), Some(MANIFEST))), "{:?}", entries);
    }
    let whole = names(&["aaa", "bbb"]);
    assert!(!starts(image.pull(Some(&whole), Some(MANIFEST))));
    assert!(starts(image.pull(Some(&whole), None)));
    assert!(starts(image.pull(None, Some(MANIFEST))));
    assert!(starts(image.pull(Some(&whole), Some("no json"))));
    assert!(starts(image.pull(Some(&whole), Some(r#"{"name":"x"}"#))));
    assert!(starts(image.pull(
        Some(&whole),
        Some(r#"{"fsLayers":[{"blobSum":"sha256:aaa"},{"size":1}]}"#)
    )));
}

#[test]
fn pull_makes_the_directory_anew_and_removes_the_archives_last() {
    let mut image = Image::new("alpine");
    let step = image.pull_from_docker(PullStage::Manifest { token: text("tok") }, MANIFEST);
    let plan = match step {
        Ok(PullStep::Apply { plan }) => plan,
        other => panic!("{:?}", other),
    };
    assert_eq!(plan.actions[0], clear());
    assert_eq!(plan.actions[3], make());
    let place = |wanted: fn(&Action) -> bool| -> Vec<usize> {
        plan.actions.iter().enumerate().filter(|(_, a)| wanted(a)).map(|(i, _)| i).collect()
    };
    let downloads = place(|a| matches!(a, Action::Download { .. }));
    let unpacks = place(|a| matches!(a, Action::Unpack { .. }));
    let removals = place(|a| matches!(a, Action::RemoveFile { .. }));
    assert_eq!(downloads, vec![4, 5]);
    assert_eq!(unpacks, vec![6, 7]);
    assert_eq!(removals, vec![8, 9]);
    assert_eq!(plan.actions.len(), 10);
    assert_eq!(image.manifest_file(), "/var/lib/minato/images/json/library_alpine:latest.json");
}

#[test]
fn pull_after_a_failed_pull_fetches_the_layers_again() {
    let mut image = Image::new("alpine");
    let reply = r#"{"fsLayers":[{"blobSum":"sha256:aaa"},{"size":1}]}"#;
    let failed = image.pull_from_docker(PullStage::Manifest { token: text("tok") }, reply);
    assert!(matches!(
        failed,
        Ok(PullStep::Apply { plan: Plan { issue: Some(Failure::BlobSumMissing), .. } })
    ));
    let mut again = Image::new("alpine");
    let left = vec![text("aaa.tar.gz")];
    assert!(matches!(again.pull(Some(&left), Some(reply)), Ok(PullStep::Fetch { .. })));
    let step = again.pull_from_docker(PullStage::Manifest { token: text("tok") }, MANIFEST);
    match step {
        Ok(PullStep::Apply { plan }) => {
            assert_eq!(plan.issue, None);
            assert_eq!(plan.actions[0], clear());
            assert!(plan.actions.contains(&download("aaa", "tok")));
            assert!(plan.actions.contains(&download("bbb", "tok")));
        }
        other => panic!("{:?}", other),
    }
}
