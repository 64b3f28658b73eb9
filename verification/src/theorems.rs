//! What holds of the plans of the library, whatever the container, the
//! image and the files on the system.

use vstd::prelude::*;
use crate::action::{ActionView, Plan};
use crate::config_json::{decoded_spec, encoded_spec, lemma_spec_round_trip};
use crate::container::{below, cgroup_mount, cgroup_mounts, Container, Network};
use crate::error::Failure;
use crate::files::{
    after_action, after_plan, all_spare, leaves_out, lemma_after_plans, lemma_left_out,
    lemma_mounted_after_plans, lemma_nothing_mounted, lemma_spared, lies_below, mounted_after,
    mounted_after_action, spares,
};
use crate::image::{archive_path, complete, layer_path, manifest_path, Image};
use crate::networking;
use crate::runtime_spec::{Spec, SpecView};
use crate::utils::{container_path, fixed_image_id, image_path};

verus! {

/// A configuration that keeps the rules is loaded from the document that
/// `save` gives as it was saved.
pub proof fn lemma_load_of_save(spec: Spec)
    requires
        spec.well_formed(),
    ensures
        decoded_spec(encoded_spec(spec.deep_view())) == Ok::<SpecView, Failure>(spec.deep_view()),
{
    spec.lemma_well_formed_is_valid();
    lemma_spec_round_trip(spec.deep_view());
}

/// After `create` the container's directory is there; after `delete` it is
/// gone with all that lay below it. So the next `create` finds no
/// directory, and asks for what the first asked for.
pub proof fn lemma_create_then_delete(container: Container, image: Image, files: Set<Seq<char>>)
    ensures
        after_plan(files, container.create_plan(image)).contains(container.path@),
        !after_plan(
            after_plan(files, container.create_plan(image)),
            container.delete_plan(),
        ).contains(container.path@),
        forall|p: Seq<char>|
            lies_below(p, container.path@) ==> !after_plan(
                after_plan(files, container.create_plan(image)),
                container.delete_plan(),
            ).contains(p),
{
    let made = after_plan(files, container.create_plan(image));
    let first = seq![ActionView::CreateDirAll { path: container.path@ }];
    let rest = container.create_plan(image).skip(1);
    assert(container.create_plan(image) =~= first + rest);
    lemma_after_plans(files, first, rest);
    assert(first.drop_last() =~= Seq::<ActionView>::empty());
    assert(after_plan(files, first) == after_action(
        after_plan(files, first.drop_last()),
        first.last(),
    ));
    assert(after_plan(files, first).contains(container.path@));
    assert(all_spare(rest, container.path@));
    lemma_spared(after_plan(files, first), rest, container.path@);
    let removal = container.delete_plan();
    assert(removal.drop_last() =~= Seq::<ActionView>::empty());
    assert(after_plan(made, removal) == after_action(
        after_plan(made, removal.drop_last()),
        removal.last(),
    ));
}

/// An image of the store: its id is complete, and its directory is the one
/// of that id.
pub open spec fn stored_under_its_id(image: Image) -> bool {
    image.id@.contains(':') && image.path@ == image_path(image.id@)
}

/// Neither the directory of the manifests nor a manifest is the directory
/// of an image.
proof fn lemma_manifests_are_no_image(image: Image)
    requires
        stored_under_its_id(image),
    ensures
        "/var/lib/minato/images/json"@ != image.path@,
        manifest_path(fixed_image_id(image.id@)) != image.path@,
        manifest_path(image.id@) != image.path@,
{
    reveal_strlit("/var/lib/minato/images/");
    reveal_strlit("/var/lib/minato/images/json");
    reveal_strlit("/var/lib/minato/images/json/");
    reveal_strlit(".json");
    reveal_strlit(":latest");
    reveal_strlit("library/");
    let id = image.id@;
    let path = image.path@;
    let json = "/var/lib/minato/images/json"@;
    if json == path {
        let i = choose|i: int| 0 <= i < id.len() && id[i] == ':';
        assert(path[23 + i] == id[i]);
        assert(json[23] == 'j' && json[24] == 's' && json[25] == 'o' && json[26] == 'n');
    }
    assert(fixed_image_id(id).len() >= id.len());
    assert(manifest_path(fixed_image_id(id)).len() > path.len());
    assert(manifest_path(id).len() > path.len());
}

/// Neither the directory of the manifests nor a manifest lies below the
/// directory of an image.
proof fn lemma_manifests_are_outside_the_image(image: Image, p: Seq<char>)
    requires
        stored_under_its_id(image),
        lies_below(p, image.path@),
    ensures
        p != "/var/lib/minato/images/json"@,
        p != manifest_path(fixed_image_id(image.id@)),
{
    reveal_strlit("/var/lib/minato/images/");
    reveal_strlit("/var/lib/minato/images/json");
    reveal_strlit("/var/lib/minato/images/json/");
    reveal_strlit(".json");
    reveal_strlit("/");
    let id = image.id@;
    let path = image.path@;
    let c = choose|c: int| 0 <= c < id.len() && id[c] == ':';
    let q: int = 23 + id.len() as int;
    assert(p.subrange(0, (path + "/"@).len() as int) == path + "/"@);
    assert(p[23 + c] == (path + "/"@)[23 + c]);
    assert(p[q] == (path + "/"@)[q]);
    assert(p[23 + c] == ':');
    assert(p[q] == '/');
    let json = "/var/lib/minato/images/json"@;
    if p == json {
        assert(json[23] == 'j' && json[24] == 's' && json[25] == 'o' && json[26] == 'n');
    }
    let flat = crate::text::replaced(fixed_image_id(id), '/', '_');
    let manifest = manifest_path(fixed_image_id(id));
    if p == manifest {
        let head = "/var/lib/minato/images/json/"@;
        assert(head[23] == 'j' && head[24] == 's' && head[25] == 'o' && head[26] == 'n'
            && head[27] == '/');
        assert(forall|k: int| 0 <= k < 28 ==> manifest[k] == head[k]);
        assert(23 + c >= 28);
        if q < 28 + flat.len() {
            assert(manifest[q] == flat[q - 28]);
        } else {
            assert(manifest[q] == ".json"@[q - 28 - flat.len()]);
        }
    }
}

/// What a pull asks for before its downloads leaves the image's directory
/// empty, or not there at all where it has not come to make it.
proof fn lemma_pull_starts_from_nothing(
    image: Image,
    body: Seq<char>,
    files: Set<Seq<char>>,
    tried: int,
    below: Seq<char>,
)
    requires
        stored_under_its_id(image),
        1 <= tried <= 4,
        lies_below(below, image.path@),
    ensures
        tried <= 3 ==> !after_plan(files, image.head_plan(body).take(tried)).contains(image.path@),
        !after_plan(files, image.head_plan(body).take(tried)).contains(below),
{
    lemma_manifests_are_no_image(image);
    lemma_manifests_are_outside_the_image(image, below);
    reveal_strlit("/");
    let path = image.path@;
    let plan = image.head_plan(body).take(tried);
    let first = plan.take(1);
    let rest = plan.skip(1);
    assert(plan =~= first + rest);
    lemma_after_plans(files, first, rest);
    assert(first.drop_last() =~= Seq::<ActionView>::empty());
    assert(first.last() == ActionView::RemoveDirAll { path });
    assert(after_plan(files, first) == after_action(
        after_plan(files, first.drop_last()),
        first.last(),
    ));
    assert(below.len() > path.len());
    assert forall|i: int| 0 <= i < rest.len() implies leaves_out(#[trigger] rest[i], below) by {
        assert(rest[i] == image.head_plan(body)[i + 1]);
    }
    lemma_left_out(after_plan(files, first), rest, below);
    if tried <= 3 {
        assert forall|i: int| 0 <= i < rest.len() implies leaves_out(#[trigger] rest[i], path) by {
            assert(rest[i] == image.head_plan(body)[i + 1]);
        }
        lemma_left_out(after_plan(files, first), rest, path);
    }
}

/// What a look into the store shows of an image's directory: `entries` is
/// nothing where the directory is not there, and else names what stands
/// in it.
pub open spec fn shown(
    files: Set<Seq<char>>,
    path: Seq<char>,
    entries: Option<Seq<Seq<char>>>,
) -> bool {
    match entries {
        None => !files.contains(path),
        Some(names) => files.contains(path) && forall|n: Seq<char>|
            names.contains(n) <==> !n.contains('/') && files.contains(
                #[trigger] layer_path(path, n),
            ),
    }
}

/// A pull that is new to the image and finds a manifest of which every
/// layer names its `blobSum`: `pulled` is the image as the pull leaves it,
/// with the layers of the manifest `body`.
pub open spec fn pulls(
    image: Image,
    pulled: Image,
    body: Seq<char>,
    sums: Seq<Option<Seq<char>>>,
) -> bool {
    &&& pulled.path == image.path
    &&& image.fs_layers.deep_view().len() == 0
    &&& crate::image::layers_of(crate::json::json_member(body, "fsLayers"@)) == Ok::<
        Seq<Option<Seq<char>>>,
        Failure,
    >(sums)
    &&& crate::image::leading(sums) == sums.len()
    &&& pulled.fs_layers.deep_view() == crate::image::digests(sums, sums.len())
}

/// A pull that fails before the last archive is unpacked leaves nothing
/// that is taken for the stored image: whatever the directory then shows,
/// `pull` does not take the image for complete, and starts again. The
/// directory is not there, or it lacks a layer, or it still holds an
/// archive. `tried` is the number of the pull's operations that were
/// done, the one that failed among them or not.
pub proof fn lemma_failed_pull_is_not_taken_for_stored(
    image: Image,
    pulled: Image,
    token: Seq<char>,
    body: Seq<char>,
    sums: Seq<Option<Seq<char>>>,
    files: Set<Seq<char>>,
    tried: int,
    entries: Option<Seq<Seq<char>>>,
)
    requires
        stored_under_its_id(image),
        pulls(image, pulled, body, sums),
        1 <= tried <= 4 + 2 * sums.len(),
        tried < image.complete_plan(pulled, token, body, sums).len(),
        shown(
            after_plan(files, image.complete_plan(pulled, token, body, sums).take(tried)),
            image.path@,
            entries,
        ),
    ensures
        !complete(entries, Some(body)),
{
    reveal_strlit("/");
    reveal_strlit(".tar.gz");
    let path = image.path@;
    let n = sums.len();
    let layers = crate::image::digests(sums, n);
    let plan = image.complete_plan(pulled, token, body, sums);
    let head = image.head_plan(body);
    let downloads = image.downloads(token, sums, n);
    let unpack = pulled.unpack_image_layers_plan();
    let remove = pulled.remove_archives_plan();
    assert(plan =~= head + downloads + unpack + remove);
    assert(head.len() == 4);
    let state = after_plan(files, plan.take(tried));
    if tried <= 4 {
        assert(plan.take(tried) =~= head.take(tried));
        if n > 0 {
            let dir = layer_path(path, layers[0]);
            assert((path + "/"@).is_prefix_of(dir)) by {
                assert(dir.subrange(0, (path + "/"@).len() as int) =~= path + "/"@);
            }
            lemma_pull_starts_from_nothing(image, body, files, tried, dir);
            if entries is Some {
                assert(!entries.unwrap().contains(layers[0]));
            }
        } else {
            lemma_pull_starts_from_nothing(image, body, files, tried, path + "/"@);
        }
    } else {
        let archive = archive_path(path, layers[0]);
        let first = plan.take(5);
        let rest = plan.take(tried).skip(5);
        assert(plan.take(tried) =~= first + rest);
        lemma_after_plans(files, first, rest);
        assert(first.last() == downloads[0]);
        assert(after_plan(files, first) == after_action(
            after_plan(files, first.drop_last()),
            first.last(),
        ));
        assert(after_plan(files, first).contains(archive));
        assert(all_spare(rest, archive)) by {
            assert forall|k: int| 0 <= k < rest.len() implies spares(#[trigger] rest[k], archive) by {
                let at = k + 5;
                assert(rest[k] == plan[at]);
                if at < 4 + n {
                    assert(plan[at] == downloads[at - 4]);
                } else {
                    assert(plan[at] == unpack[at - 4 - n]);
                }
            }
        }
        lemma_spared(after_plan(files, first), rest, archive);
        assert(state.contains(archive));
        if entries is Some {
            let names = entries.unwrap();
            let name = layers[0] + ".tar.gz"@;
            assert(layer_path(path, name) =~= archive);
            if name.contains('/') {
                let i = choose|i: int| 0 <= i < name.len() && name[i] == '/';
                assert(layers[0][i] == '/');
                assert(layers[0].contains('/'));
                assert(!names.contains(layers[0]));
            } else {
                assert(names.contains(name));
            }
        }
    }
}

/// A manifest with a layer that names no `blobSum` never stands for a
/// stored image, whatever the directory holds.
pub proof fn lemma_refused_manifest_is_never_complete(
    body: Seq<char>,
    sums: Seq<Option<Seq<char>>>,
    entries: Option<Seq<Seq<char>>>,
)
    requires
        crate::image::layers_of(crate::json::json_member(body, "fsLayers"@)) == Ok::<
            Seq<Option<Seq<char>>>,
            Failure,
        >(sums),
        crate::image::leading(sums) < sums.len(),
    ensures
        !complete(entries, Some(body)),
{
}

/// After a pull that went through, the image's directory is there.
/// `pulled` is the image with the layers that the pull gave it.
pub proof fn lemma_pulled_image_is_stored(
    image: Image,
    pulled: Image,
    token: Seq<char>,
    body: Seq<char>,
    sums: Seq<Option<Seq<char>>>,
    files: Set<Seq<char>>,
)
    requires
        pulled.path == image.path,
    ensures
        after_plan(files, image.complete_plan(pulled, token, body, sums)).contains(image.path@),
{
    reveal_strlit("/");
    let path = image.path@;
    let plan = image.complete_plan(pulled, token, body, sums);
    let made = image.head_plan(body);
    let c = image.downloads(token, sums, crate::image::leading(sums));
    let d = pulled.unpack_image_layers_plan();
    let e = pulled.remove_archives_plan();
    let rest = c + d + e;
    assert(plan =~= made + rest);
    lemma_after_plans(files, made, rest);
    assert(made.last() == ActionView::CreateDirAll { path });
    assert(after_plan(files, made).contains(path));
    assert(all_spare(rest, path)) by {
        assert forall|i: int| 0 <= i < rest.len() implies spares(#[trigger] rest[i], path) by {
            if i < c.len() {
                assert(rest[i] == c[i]);
            } else if i < c.len() + d.len() {
                assert(rest[i] == d[i - c.len()]);
            } else {
                let k = i - c.len() - d.len();
                assert(rest[i] == e[k]);
                assert(e[k]->RemoveFile_path.len() > path.len());
            }
        }
    }
    lemma_spared(after_plan(files, made), rest, path);
}

/// Two texts behind the same text are the same where the wholes are.
proof fn lemma_same_rest(a: Seq<char>, x: Seq<char>, y: Seq<char>)
    requires
        a + x == a + y,
    ensures
        x == y,
{
    assert((a + x).skip(a.len() as int) =~= x);
    assert((a + y).skip(a.len() as int) =~= y);
}

/// After a pull that went through, every layer has its directory in the
/// image's directory, and no archive of a layer is left there. `pulled`
/// is the image with the layers that the pull gave it; no layer of its
/// stands under the name that the archive of another has.
pub proof fn lemma_pulled_layers_are_stored(
    image: Image,
    pulled: Image,
    token: Seq<char>,
    body: Seq<char>,
    sums: Seq<Option<Seq<char>>>,
    files: Set<Seq<char>>,
    i: int,
)
    requires
        pulled.path == image.path,
        0 <= i < pulled.fs_layers.deep_view().len(),
        forall|j: int|
            0 <= j < pulled.fs_layers.deep_view().len() ==> pulled.fs_layers.deep_view()[i]
                != #[trigger] pulled.fs_layers.deep_view()[j] + ".tar.gz"@,
    ensures
        after_plan(files, image.complete_plan(pulled, token, body, sums)).contains(
            layer_path(image.path@, pulled.fs_layers.deep_view()[i]),
        ),
        !after_plan(files, image.complete_plan(pulled, token, body, sums)).contains(
            archive_path(image.path@, pulled.fs_layers.deep_view()[i]),
        ),
{
    let path = image.path@;
    let layers = pulled.fs_layers.deep_view();
    let layer = layers[i];
    let work = image.complete_plan(pulled, token, body, sums);
    let fetch = image.fetch_plan(token, body, sums);
    let unpack = pulled.unpack_image_layers_plan();
    let remove = pulled.remove_archives_plan();

    // The layer's directory is unpacked and stays.
    let kept = layer_path(path, layer);
    let first = fetch + unpack.take(i + 1);
    let rest = unpack.skip(i + 1) + remove;
    assert(work =~= first + rest);
    lemma_after_plans(files, first, rest);
    assert(first.last() == unpack[i]);
    assert(after_plan(files, first) == after_action(
        after_plan(files, first.drop_last()),
        first.last(),
    ));
    assert(after_plan(files, first).contains(kept));
    assert(all_spare(rest, kept)) by {
        assert forall|k: int| 0 <= k < rest.len() implies spares(#[trigger] rest[k], kept) by {
            let n = unpack.skip(i + 1).len();
            if k < n {
                assert(rest[k] == unpack[i + 1 + k]);
            } else {
                let j = k - n;
                assert(rest[k] == remove[j]);
                if archive_path(path, layers[j]) == kept {
                    assert(archive_path(path, layers[j]) =~= (path + "/"@) + (layers[j]
                        + ".tar.gz"@));
                    assert(kept =~= (path + "/"@) + layer);
                    lemma_same_rest(path + "/"@, layers[j] + ".tar.gz"@, layer);
                }
            }
        }
    }
    lemma_spared(after_plan(files, first), rest, kept);

    // The layer's archive is removed and does not come back.
    let gone = archive_path(path, layer);
    let before = fetch + unpack + remove.take(i + 1);
    let after = remove.skip(i + 1);
    assert(work =~= before + after);
    lemma_after_plans(files, before, after);
    assert(before.last() == remove[i]);
    assert(after_plan(files, before) == after_action(
        after_plan(files, before.drop_last()),
        before.last(),
    ));
    assert(!after_plan(files, before).contains(gone));
    assert forall|k: int| 0 <= k < after.len() implies leaves_out(#[trigger] after[k], gone) by {
        assert(after[k] == remove[i + 1 + k]);
    }
    lemma_left_out(after_plan(files, before), after, gone);
}

/// After a pull that went through, `pull` takes the image for stored, asks
/// for nothing, and so leaves the files as the first pull left them.
/// No layer of the image stands under a name with a slash, or under the
/// name that the archive of another has.
pub proof fn lemma_pulled_image_is_complete(
    image: Image,
    pulled: Image,
    token: Seq<char>,
    body: Seq<char>,
    sums: Seq<Option<Seq<char>>>,
    files: Set<Seq<char>>,
    entries: Option<Seq<Seq<char>>>,
)
    requires
        pulls(image, pulled, body, sums),
        forall|i: int, j: int|
            0 <= i < pulled.fs_layers.deep_view().len() && 0 <= j
                < pulled.fs_layers.deep_view().len() ==> #[trigger] pulled.fs_layers.deep_view()[i]
                != #[trigger] pulled.fs_layers.deep_view()[j] + ".tar.gz"@,
        forall|i: int|
            0 <= i < pulled.fs_layers.deep_view().len() ==> !(
            #[trigger] pulled.fs_layers.deep_view()[i]).contains('/'),
        shown(
            after_plan(files, image.complete_plan(pulled, token, body, sums)),
            image.path@,
            entries,
        ),
    ensures
        complete(entries, Some(body)),
{
    let path = image.path@;
    let layers = pulled.fs_layers.deep_view();
    let state = after_plan(files, image.complete_plan(pulled, token, body, sums));
    lemma_pulled_image_is_stored(image, pulled, token, body, sums, files);
    let names = entries.unwrap();
    assert forall|i: int| 0 <= i < layers.len() implies names.contains(#[trigger] layers[i])
        && !names.contains(layers[i] + ".tar.gz"@) by {
        lemma_pulled_layers_are_stored(image, pulled, token, body, sums, files, i);
        assert(layer_path(path, layers[i] + ".tar.gz"@) =~= archive_path(path, layers[i]));
        assert(state.contains(layer_path(path, layers[i])));
    }
}

/// After `delete`, neither the image's directory nor its manifest is
/// there, whether the directory was there before or not.
pub proof fn lemma_deleted_image_is_gone(image: Image, files: Set<Seq<char>>)
    requires
        stored_under_its_id(image),
    ensures
        !after_plan(files, image.delete_plan()).contains(image.path@),
        !after_plan(files, image.delete_plan()).contains(manifest_path(image.id@)),
        !files.contains(image.path@) ==> !after_plan(
            files,
            seq![ActionView::RemoveFile { path: manifest_path(image.id@) }],
        ).contains(image.path@) && !after_plan(
            files,
            seq![ActionView::RemoveFile { path: manifest_path(image.id@) }],
        ).contains(manifest_path(image.id@)),
{
    lemma_manifests_are_no_image(image);
    let manifest = manifest_path(image.id@);
    let one = seq![ActionView::RemoveFile { path: manifest }];
    let both = image.delete_plan();
    assert(one.drop_last() =~= Seq::<ActionView>::empty());
    assert(after_plan(files, one) == after_action(after_plan(files, one.drop_last()), one.last()));
    assert(both.drop_last() =~= one);
    assert(after_plan(files, both) == after_action(after_plan(files, both.drop_last()), both.last()));
}

/// After `create`, the container's directory holds `lower`, `upper`,
/// `work` and `merged`, and the configuration.
pub proof fn lemma_created_container_is_complete(
    container: Container,
    image: Image,
    files: Set<Seq<char>>,
)
    ensures
        after_plan(files, container.create_plan(image)).contains(
            below(container.path@, "lower"@),
        ),
        after_plan(files, container.create_plan(image)).contains(
            below(container.path@, "upper"@),
        ),
        after_plan(files, container.create_plan(image)).contains(below(container.path@, "work"@)),
        after_plan(files, container.create_plan(image)).contains(
            below(container.path@, "merged"@),
        ),
        after_plan(files, container.create_plan(image)).contains(
            below(container.path@, "config.json"@),
        ),
{
    let plan = container.create_plan(image);
    assert forall|k: int| 1 <= k < 6 implies after_plan(files, plan).contains(
        #[trigger] made_by(plan[k]),
    ) by {
        let head = plan.take(k + 1);
        let tail = plan.skip(k + 1);
        assert(plan =~= head + tail);
        lemma_after_plans(files, head, tail);
        assert(head.last() == plan[k]);
        assert(after_plan(files, head) == after_action(
            after_plan(files, head.drop_last()),
            head.last(),
        ));
        assert(after_plan(files, head).contains(made_by(plan[k])));
        assert(all_spare(tail, made_by(plan[k])));
        lemma_spared(after_plan(files, head), tail, made_by(plan[k]));
    }
    assert(made_by(plan[1]) == below(container.path@, "upper"@));
    assert(made_by(plan[2]) == below(container.path@, "work"@));
    assert(made_by(plan[3]) == below(container.path@, "merged"@));
    assert(made_by(plan[4]) == below(container.path@, "lower"@));
    assert(made_by(plan[5]) == below(container.path@, "config.json"@));
}

/// The path that an operation puts there; the empty path for one that
/// puts none.
pub open spec fn made_by(action: ActionView) -> Seq<char> {
    match action {
        ActionView::CreateDirAll { path } => path,
        ActionView::MakeDir { path, mode } => path,
        ActionView::EnsureFile { path } => path,
        ActionView::WriteFile { path, data } => path,
        ActionView::SaveSpec { path, spec } => path,
        ActionView::Symlink { target, link } => link,
        ActionView::Download { url, token, into } => into,
        ActionView::Unpack { archive, into } => into,
        _ => Seq::empty(),
    }
}

/// The name of a container's network namespace is never the container's
/// pid file.
proof fn lemma_netns_is_no_pid_file(id: Seq<char>, path: Seq<char>)
    ensures
        networking::netns_path(id) != below(path, "pid"@),
{
    reveal_strlit("-ns");
    reveal_strlit("pid");
    let a = networking::netns_path(id);
    let b = below(path, "pid"@);
    assert(a[a.len() - 1] == 's');
    assert(b[b.len() - 1] == 'd');
}

/// While the supervisor waits for the container, the pid file is there:
/// the supervisor has written it, and what brings up the network leaves it
/// where it is.
pub proof fn lemma_pid_file_while_running(
    container: Container,
    child: i32,
    network: Option<Network>,
    files: Set<Seq<char>>,
)
    ensures
        after_plan(files, container.supervise_plan(child, network)).contains(
            below(container.path@, "pid"@),
        ),
{
    let pid = below(container.path@, "pid"@);
    let head = seq![
        ActionView::RemoveFile { path: pid },
        ActionView::WriteFile { path: pid, data: Container::pid_line(child) },
    ];
    let tail = seq![ActionView::Sleep { millis: 10 }] + container.network_plan(child, network);
    assert(container.supervise_plan(child, network) =~= head + tail);
    lemma_after_plans(files, head, tail);
    assert(after_plan(files, head) == after_action(after_plan(files, head.drop_last()), head.last()));
    assert(after_plan(files, head).contains(pid));
    lemma_netns_is_no_pid_file(container.id@, container.path@);
    assert(all_spare(tail, pid));
    lemma_spared(after_plan(files, head), tail, pid);
}

/// Once the supervisor has cleaned up, the pid file is gone.
pub proof fn lemma_pid_file_after_cleanup(container: Container, files: Set<Seq<char>>)
    ensures
        !after_plan(files, container.cleanup_plan()).contains(below(container.path@, "pid"@)),
{
    let plan = container.cleanup_plan();
    assert(plan.last() == ActionView::RemoveFile { path: below(container.path@, "pid"@) });
}

/// Once the supervisor has cleaned up, the container's file system is
/// mounted no more.
pub proof fn lemma_unmounted_after_cleanup(container: Container, mounts: Set<Seq<char>>)
    ensures
        !mounted_after(mounts, container.cleanup_plan()).contains(
            crate::container::rootfs(container.path@),
        ),
{
    let root = crate::container::rootfs(container.path@);
    let plan = container.cleanup_plan();
    let first = container.unmount_container_filesystem_plan();
    let rest = plan.skip(1);
    assert(plan =~= first + rest);
    lemma_mounted_after_plans(mounts, first, rest);
    assert(first.drop_last() =~= Seq::<ActionView>::empty());
    assert(mounted_after(mounts, first) == mounted_after_action(
        mounted_after(mounts, first.drop_last()),
        first.last(),
    ));
    assert(!mounted_after(mounts, first).contains(root));
    lemma_nothing_mounted(mounted_after(mounts, first), rest, root);
}

/// The directory of an image is not the directory of a container, nor does
/// it lie below one.
proof fn lemma_image_is_outside_containers(image_id: Seq<char>, container_name: Seq<char>)
    ensures
        image_path(image_id) != container_path(container_name),
        !lies_below(image_path(image_id), container_path(container_name)),
{
    reveal_strlit("/var/lib/minato/images/");
    reveal_strlit("/var/lib/minato/containers/");
    reveal_strlit("/");
    let a = image_path(image_id);
    let b = container_path(container_name);
    assert(a[16] == 'i');
    assert(b[16] == 'c');
    if lies_below(a, b) {
        assert(a.subrange(0, (b + "/"@).len() as int)[16] == (b + "/"@)[16]);
    }
}

/// Deleting a container leaves the image that lies below it in the store.
pub proof fn lemma_delete_keeps_the_image(
    container: Container,
    image_id: Seq<char>,
    files: Set<Seq<char>>,
)
    requires
        container.path@ == container_path(container.id@),
        files.contains(image_path(image_id)),
    ensures
        after_plan(files, container.delete_plan()).contains(image_path(image_id)),
{
    lemma_image_is_outside_containers(image_id, container.id@);
    assert(all_spare(container.delete_plan(), image_path(image_id)));
    lemma_spared(files, container.delete_plan(), image_path(image_id));
}

/// Whatever fails while the supervisor is at work, all of the cleanup is
/// tried, down to the removal of the pid file; no failure of the cleanup
/// stops it or is returned, and a failure of the supervisor's own
/// operations is returned as it is. `plan` is a plan with the container's
/// cleanup, as `run` gives it in the foreground and where no process was
/// made; `failed` is the place of the first of its operations that failed,
/// or nothing.
pub proof fn lemma_supervisor_cleans_up_whatever_fails(
    container: Container,
    plan: Plan,
    failed: Option<usize>,
    failure: Failure,
)
    requires
        plan.cleanup.deep_view() == container.cleanup_plan(),
    ensures
        plan.tried(failed).skip(plan.tried(failed).len() - container.cleanup_plan().len())
            == container.cleanup_plan(),
        plan.tried(failed).last() == (ActionView::RemoveFile {
            path: below(container.path@, "pid"@),
        }),
        plan.outcome(Some(failure)) == Err::<(), Failure>(failure),
{
    plan.lemma_cleanup_is_tried(failed);
    let tried = plan.tried(failed);
    let cleanup = container.cleanup_plan();
    assert(plan.cleanup.deep_view().len() == plan.cleanup@.len());
    assert(tried.last() == tried.skip(tried.len() - cleanup.len()).last());
    assert(cleanup.last() == ActionView::RemoveFile { path: below(container.path@, "pid"@) });
}

/// Whether an operation replaces the process by a program.
pub open spec fn starts_program(action: ActionView) -> bool {
    action is Exec
}

/// Whether no operation of the plan replaces the process by a program.
pub open spec fn none_starts(plan: Seq<ActionView>) -> bool {
    forall|i: int| 0 <= i < plan.len() ==> !starts_program(#[trigger] plan[i])
}

proof fn lemma_none_starts_concat(first: Seq<ActionView>, second: Seq<ActionView>)
    requires
        none_starts(first),
        none_starts(second),
    ensures
        none_starts(first + second),
{
    assert forall|i: int| 0 <= i < (first + second).len() implies !starts_program(
        #[trigger] (first + second)[i],
    ) by {
        if i < first.len() {
            assert((first + second)[i] == first[i]);
        } else {
            assert((first + second)[i] == second[i - first.len()]);
        }
    }
}

proof fn lemma_cgroup_mounts_start_nothing(controllers: Seq<Seq<char>>, count: nat)
    ensures
        none_starts(cgroup_mounts(controllers, count)),
    decreases count,
{
    if count == 0 || count > controllers.len() {
    } else {
        lemma_cgroup_mounts_start_nothing(controllers, (count - 1) as nat);
        assert(none_starts(cgroup_mount(controllers[count - 1])));
        lemma_none_starts_concat(
            cgroup_mounts(controllers, (count - 1) as nat),
            cgroup_mount(controllers[count - 1]),
        );
    }
}

/// The init program is started by the first process of the container, the
/// one that the second fork made, as the last thing it does, and nowhere
/// else: neither what prepares the container nor what the supervisor does
/// replaces its process by a program.
pub proof fn lemma_only_the_inner_child_starts_the_init_program(
    container: Container,
    host_uid: u32,
    host_gid: u32,
    child: i32,
    daemon: bool,
    network: Option<Network>,
)
    ensures
        container.inner_child_plan().last() == container.init_exec(),
        none_starts(container.inner_child_plan().drop_last()),
        none_starts(container.clean_run_plan(host_uid, host_gid)),
        none_starts(container.supervisor_actions(child, daemon, network)),
        none_starts(container.cleanup_plan()),
        none_starts(Container::inner_parent_plan(child, daemon)),
{
    let head = Container::remount_container_directories_plan() + seq![
        ActionView::SetHostname { name: container.spec.hostname@ },
    ];
    let env = container.spec.process.env.deep_view();
    let settings = Seq::new(env.len(), |i: int| crate::container::env_setting(env[i]));
    assert(container.inner_child_plan().drop_last() =~= head + settings);
    assert(none_starts(head));
    assert(none_starts(settings));
    lemma_none_starts_concat(head, settings);

    let a = container.mount_container_filesystem_plan();
    let b = container.prepare_container_mountpoint_plan();
    let c = container.prepare_container_directories_plan();
    let d = Container::prepare_container_networking_plan();
    let e = Container::bind_init_shim_plan();
    let f = Container::mount_container_directories_plan();
    let g = Container::mount_container_cgroup_hierarchy_plan();
    let h = container.configure_cgroups_plan();
    let i = container.prepare_container_id_maps_plan(host_uid, host_gid);
    let j = Container::pivot_container_root_plan();
    assert(none_starts(a));
    assert(none_starts(b));
    assert(none_starts(c));
    assert(none_starts(d));
    assert(none_starts(e));
    assert(none_starts(f));
    lemma_cgroup_mounts_start_nothing(
        crate::container::cgroup_controllers(),
        crate::container::cgroup_controllers().len(),
    );
    assert(none_starts(h));
    assert(none_starts(i));
    assert(none_starts(j));
    lemma_none_starts_concat(a, b);
    lemma_none_starts_concat(a + b, c);
    lemma_none_starts_concat(a + b + c, d);
    lemma_none_starts_concat(a + b + c + d, e);
    lemma_none_starts_concat(a + b + c + d + e, f);
    lemma_none_starts_concat(a + b + c + d + e + f, g);
    lemma_none_starts_concat(a + b + c + d + e + f + g, h);
    lemma_none_starts_concat(a + b + c + d + e + f + g + h, i);
    lemma_none_starts_concat(a + b + c + d + e + f + g + h + i, j);

    let net = container.network_plan(child, network);
    assert(none_starts(net));
    let start = seq![
        ActionView::RemoveFile { path: below(container.path@, "pid"@) },
        ActionView::WriteFile {
            path: below(container.path@, "pid"@),
            data: Container::pid_line(child),
        },
        ActionView::Sleep { millis: 10 },
    ];
    lemma_none_starts_concat(start, net);
    assert(none_starts(container.supervise_plan(child, network)));
    assert(none_starts(container.supervisor_actions(child, daemon, network)));
    assert(none_starts(container.cleanup_plan()));
}

} // verus!
