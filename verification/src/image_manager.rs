//! The commands on images: pull, list and delete.

use vstd::prelude::*;
use crate::action::{push_action, push_text, Action, ActionView, Plan};
use crate::error::Failure;
use crate::image::{authentication_url, complete, manifest_path, Image, PullStage, PullStep};
use crate::text::{
    contains_char, find_char, index_of, lemma_index_of, lemma_index_of_skip, pad_right, padded,
    replaced, strip_suffix, without_suffix,
};
use crate::utils::{
    fixed_image_id, image_path, lemma_fixed_id_is_name_and_reference,
    lemma_fixed_image_id_is_complete, plain_image_id, slashes_lead,
};

verus! {

/// The entry point of the commands on images.
pub struct ImageManager {
    image_list: Vec<Image>,
}

/// A pull that has begun: the image and what is due next.
#[derive(Clone, Debug, PartialEq, Eq)]
pub struct Pull {
    pub image: Image,
    pub step: PullStep,
}

/// One row of the list of images: id, name and reference in columns of 25
/// characters, and the path.
pub open spec fn image_row(
    id: Seq<char>,
    name: Seq<char>,
    reference: Seq<char>,
    path: Seq<char>,
) -> Seq<char> {
    padded(id, 25) + " "@ + padded(name, 25) + " "@ + padded(reference, 25) + " "@ + path
}

/// Every text of `list` with `c` behind it.
pub open spec fn extended(list: Seq<Seq<char>>, c: char) -> Seq<Seq<char>> {
    Seq::new(list.len(), |i: int| list[i].push(c))
}

/// The texts that `s` can stand for, where each underscore in front of the
/// place `limit` stands for itself or for a slash, and every other
/// character for itself.
pub open spec fn readings(s: Seq<char>, limit: int) -> Seq<Seq<char>>
    decreases s.len(),
{
    if s.len() == 0 {
        seq![Seq::empty()]
    } else {
        let shorter = readings(s.drop_last(), limit);
        if s.last() == '_' && s.len() - 1 < limit {
            extended(shorter, '_') + extended(shorter, '/')
        } else {
            extended(shorter, s.last())
        }
    }
}

/// The texts of `list` that hold a slash.
pub open spec fn with_slash(list: Seq<Seq<char>>) -> Seq<Seq<char>>
    decreases list.len(),
{
    if list.len() == 0 {
        Seq::empty()
    } else if list.last().contains('/') {
        with_slash(list.drop_last()).push(list.last())
    } else {
        with_slash(list.drop_last())
    }
}

/// The image ids that the manifest file named `stem.json` can belong to.
/// The name of the file is the id with its slashes turned into
/// underscores, so each underscore in front of the colon may have been a
/// slash; an id holds a colon, and a slash in front of it.
pub open spec fn ids_of_manifest(stem: Seq<char>) -> Seq<Seq<char>> {
    if stem.contains(':') {
        with_slash(readings(stem, index_of(stem, ':')))
    } else {
        Seq::empty()
    }
}

/// The ids of the images that the manifest files `entries` can belong to:
/// for each name that ends in `.json`, the ids that it can stand for.
/// Other names are passed over.
pub open spec fn listed_ids(entries: Seq<Seq<char>>) -> Seq<Seq<char>>
    decreases entries.len(),
{
    if entries.len() == 0 {
        Seq::empty()
    } else {
        let rest = listed_ids(entries.drop_last());
        match without_suffix(entries.last(), ".json"@) {
            Some(stem) => rest + ids_of_manifest(stem),
            None => rest,
        }
    }
}

/// The name of the manifest file of the image `id`.
pub open spec fn manifest_name(id: Seq<char>) -> Seq<char> {
    replaced(id, '/', '_') + ".json"@
}

/// A text is among the readings of what it becomes with its slashes turned
/// into underscores, where its slashes stand in front of `limit`.
pub proof fn lemma_reading_of_flattened(t: Seq<char>, limit: int)
    requires
        forall|i: int| 0 <= i < t.len() && t[i] == '/' ==> i < limit,
    ensures
        readings(replaced(t, '/', '_'), limit).contains(t),
    decreases t.len(),
{
    let flat = replaced(t, '/', '_');
    if t.len() == 0 {
        assert(readings(flat, limit)[0] =~= t);
    } else {
        let u = t.drop_last();
        lemma_reading_of_flattened(u, limit);
        assert(flat.drop_last() =~= replaced(u, '/', '_'));
        let shorter = readings(flat.drop_last(), limit);
        let k = choose|k: int| 0 <= k < shorter.len() && shorter[k] == u;
        assert(u.push(t.last()) =~= t);
        if t.last() == '/' {
            assert(flat.last() == '_');
            assert(readings(flat, limit)[shorter.len() + k] == shorter[k].push('/'));
        } else {
            assert(flat.last() == t.last());
            assert(readings(flat, limit)[k] == shorter[k].push(t.last()));
        }
    }
}

/// Every reading of `s` becomes, with its slashes turned into underscores,
/// what `s` becomes.
pub proof fn lemma_readings_flatten(s: Seq<char>, limit: int, r: Seq<char>)
    requires
        readings(s, limit).contains(r),
    ensures
        replaced(r, '/', '_') == replaced(s, '/', '_'),
    decreases s.len(),
{
    let all = readings(s, limit);
    let i = choose|i: int| 0 <= i < all.len() && all[i] == r;
    if s.len() == 0 {
        assert(replaced(r, '/', '_') =~= replaced(s, '/', '_'));
    } else {
        let shorter = readings(s.drop_last(), limit);
        let k = if i < shorter.len() {
            i
        } else {
            i - shorter.len()
        };
        assert(r.drop_last() =~= shorter[k]);
        assert(shorter.contains(shorter[k]));
        lemma_readings_flatten(s.drop_last(), limit, shorter[k]);
        assert(replaced(r, '/', '_').drop_last() =~= replaced(r.drop_last(), '/', '_'));
        assert(replaced(s, '/', '_').drop_last() =~= replaced(s.drop_last(), '/', '_'));
        assert(replaced(r, '/', '_') =~= replaced(r, '/', '_').drop_last().push(
            replaced(r, '/', '_').last(),
        ));
        assert(replaced(s, '/', '_') =~= replaced(s, '/', '_').drop_last().push(
            replaced(s, '/', '_').last(),
        ));
    }
}

/// A text with a slash that is in a list is among the texts of the list
/// that hold a slash, and those are texts of the list.
pub proof fn lemma_with_slash(list: Seq<Seq<char>>, t: Seq<char>)
    ensures
        with_slash(list).contains(t) == (list.contains(t) && t.contains('/')),
    decreases list.len(),
{
    if list.len() == 0 {
    } else {
        let rest = list.drop_last();
        lemma_with_slash(rest, t);
        if list.contains(t) {
            let i = choose|i: int| 0 <= i < list.len() && list[i] == t;
            if i < rest.len() {
                assert(rest[i] == t);
            }
        }
        if rest.contains(t) {
            let i = choose|i: int| 0 <= i < rest.len() && rest[i] == t;
            assert(list[i] == t);
        }
        assert(list[list.len() - 1] == list.last());
        let kept = with_slash(rest);
        if list.last().contains('/') {
            if kept.contains(t) {
                let i = choose|i: int| 0 <= i < kept.len() && kept[i] == t;
                assert(kept.push(list.last())[i] == t);
            }
            if with_slash(list).contains(t) {
                let i = choose|i: int| 0 <= i < with_slash(list).len() && with_slash(list)[i] == t;
                if i < kept.len() {
                    assert(kept[i] == t);
                }
            }
            assert(kept.push(list.last())[kept.len() as int] == list.last());
        }
    }
}

/// The manifest file of a stored image is listed under the image's id,
/// whatever characters the id holds, and under nothing that would not
/// have got that file for its manifest. Where several ids share the name
/// of their manifest file, the file is listed under each; which of them
/// are in the store shows in their directories.
pub proof fn lemma_stored_image_is_listed(id: Seq<char>)
    requires
        id.contains(':'),
        id.contains('/'),
        slashes_lead(id),
    ensures
        listed_ids(seq![manifest_name(id)]).contains(id),
        forall|other: Seq<char>| #[trigger]
            listed_ids(seq![manifest_name(id)]).contains(other) ==> manifest_name(other)
                == manifest_name(id) && other.contains('/'),
{
    reveal_strlit(".json");
    let flat = replaced(id, '/', '_');
    let entries = seq![manifest_name(id)];
    assert(entries.drop_last() =~= Seq::<Seq<char>>::empty());
    assert(listed_ids(entries.drop_last()) =~= Seq::<Seq<char>>::empty());
    assert(manifest_name(id).subrange(flat.len() as int, manifest_name(id).len() as int)
        =~= ".json"@);
    assert(manifest_name(id).take(flat.len() as int) =~= flat);
    assert(without_suffix(manifest_name(id), ".json"@) == Some(flat));
    assert(listed_ids(entries) =~= ids_of_manifest(flat));
    lemma_index_of(id, ':');
    let k = index_of(id, ':');
    assert forall|j: int| 0 <= j < k implies flat[j] != ':' by {}
    lemma_index_of_skip(flat, ':', k);
    assert(flat.skip(k)[0] == ':');
    assert(index_of(flat, ':') == k);
    assert(flat[k] == ':');
    assert(flat.contains(':'));
    lemma_reading_of_flattened(id, k);
    lemma_with_slash(readings(flat, k), id);
    assert forall|other: Seq<char>| #[trigger]
        listed_ids(entries).contains(other) implies manifest_name(other) == manifest_name(id)
        && other.contains('/') by {
        lemma_with_slash(readings(flat, k), other);
        lemma_readings_flatten(flat, k, other);
        assert(replaced(flat, '/', '_') =~= flat);
    }
}

/// The list of `images`: the titles of the columns, and a row for each image.
pub open spec fn image_list(images: Seq<Image>) -> Seq<ActionView> {
    seq![ActionView::Print { line: image_row("id"@, "name"@, "reference"@, "path"@) }] + Seq::new(
        images.len(),
        |i: int|
            ActionView::Print {
                line: image_row(
                    images[i].id@,
                    images[i].name@,
                    images[i].reference@,
                    images[i].path@,
                ),
            },
    )
}

fn row(id: &str, name: &str, reference: &str, path: &str) -> (r: String)
    ensures
        r@ == image_row(id@, name@, reference@, path@),
{
    let mut line = pad_right(id, 25);
    line.append(" ");
    line.append(pad_right(name, 25).as_str());
    line.append(" ");
    line.append(pad_right(reference, 25).as_str());
    line.append(" ");
    line.append(path);
    line
}

fn extend(list: &Vec<String>, c: char, out: &mut Vec<String>)
    ensures
        final(out).deep_view() == old(out).deep_view() + extended(list.deep_view(), c),
{
    let ghost before = out.deep_view();
    let mut i: usize = 0;
    while i < list.len()
        invariant
            i <= list.len(),
            out.deep_view() == before + extended(list.deep_view(), c).take(i as int),
        decreases list.len() - i,
    {
        let mut text = list[i].clone();
        text.push(c);
        push_text(out, text);
        i += 1;
        assert(out.deep_view() =~= before + extended(list.deep_view(), c).take(i as int));
    }
    assert(extended(list.deep_view(), c).take(list.len() as int) =~= extended(
        list.deep_view(),
        c,
    ));
}

fn readings_of(s: &str, limit: usize) -> (r: Vec<String>)
    ensures
        r.deep_view() == readings(s@, limit as int),
{
    let n = s.unicode_len();
    let mut list: Vec<String> = Vec::new();
    push_text(&mut list, String::new());
    assert(list.deep_view() =~= readings(s@.take(0), limit as int));
    let mut i: usize = 0;
    while i < n
        invariant
            n == s@.len(),
            i <= n,
            list.deep_view() == readings(s@.take(i as int), limit as int),
        decreases n - i,
    {
        let c = s.get_char(i);
        let ghost longer = s@.take(i + 1);
        assert(longer.drop_last() =~= s@.take(i as int));
        assert(longer.last() == c);
        let mut next: Vec<String> = Vec::new();
        if c == '_' && i < limit {
            extend(&list, '_', &mut next);
            extend(&list, '/', &mut next);
        } else {
            extend(&list, c, &mut next);
        }
        list = next;
        i += 1;
        assert(list.deep_view() =~= readings(longer, limit as int));
    }
    assert(s@.take(n as int) =~= s@);
    list
}

fn manifest_ids(stem: &str) -> (r: Vec<String>)
    ensures
        r.deep_view() == ids_of_manifest(stem@),
{
    let mut ids: Vec<String> = Vec::new();
    if !contains_char(stem, ':') {
        assert(ids.deep_view() =~= ids_of_manifest(stem@));
        return ids;
    }
    let all = readings_of(stem, find_char(stem, ':'));
    let mut i: usize = 0;
    while i < all.len()
        invariant
            i <= all.len(),
            ids.deep_view() == with_slash(all.deep_view().take(i as int)),
        decreases all.len() - i,
    {
        let ghost next = all.deep_view().take(i + 1);
        assert(next.drop_last() =~= all.deep_view().take(i as int));
        assert(next.last() == all[i as int]@);
        if contains_char(all[i].as_str(), '/') {
            push_text(&mut ids, all[i].clone());
        }
        i += 1;
    }
    assert(all.deep_view().take(all.len() as int) =~= all.deep_view());
    ids
}

/// The manifest of an image that was pulled under an id with at most one
/// colon, and no slash behind it, is listed under the image's id: the
/// image gets its row, whatever its name holds.
pub proof fn lemma_pulled_image_is_listed(id: Seq<char>)
    requires
        plain_image_id(id),
    ensures
        listed_ids(seq![manifest_name(fixed_image_id(id))]).contains(fixed_image_id(id)),
{
    lemma_fixed_image_id_is_complete(id);
    lemma_fixed_id_is_name_and_reference(id);
    lemma_stored_image_is_listed(fixed_image_id(id));
}

impl ImageManager {
    /// A manager that knows no image yet.
    pub fn new() -> (r: ImageManager)
        ensures
            r.known()@.len() == 0,
    {
        ImageManager { image_list: Vec::new() }
    }

    /// The images that the manager knows.
    pub closed spec fn known(&self) -> Vec<Image> {
        self.image_list
    }

    /// Begin the pull of the image `image_id`. `entries` are the names in
    /// the image's directory and `manifest` is its stored manifest, each
    /// nothing where it is not there. Where the image is in the store as a
    /// whole, nothing is done and that is reported. Else the token is
    /// asked for.
    pub fn pull(&self, image_id: &str, entries: Option<&Vec<String>>, manifest: Option<&str>) -> (r:
        Result<Pull, Failure>)
        ensures
            r matches Ok(pull) && pull.image.names(image_id@) && pull.image.fs_layers@.len() == 0
                && (complete(entries.deep_view(), manifest.deep_view()) ==> (
            pull.step matches PullStep::Apply { plan } && plan.is_empty() && plan.issue == Some(
                Failure::ImageExists,
            ))) && (!complete(entries.deep_view(), manifest.deep_view()) ==> (
            pull.step matches PullStep::Fetch { url, token, next } && url@ == authentication_url(
                pull.image.name@,
            ) && token is None && next == PullStage::Token)),
    {
        let mut image = Image::new(image_id);
        match image.pull(entries, manifest) {
            Ok(step) => Ok(Pull { image, step }),
            Err(e) => Err(e),
        }
    }

    /// The ids of the images that the manifest files `entries` can belong
    /// to. The caller looks each of them up in the store.
    pub fn list_ids(&self, entries: &Vec<String>) -> (r: Vec<String>)
        ensures
            r.deep_view() == listed_ids(entries.deep_view()),
    {
        let mut ids: Vec<String> = Vec::new();
        let mut i: usize = 0;
        while i < entries.len()
            invariant
                i <= entries.len(),
                ids.deep_view() == listed_ids(entries.deep_view().take(i as int)),
            decreases entries.len() - i,
        {
            let ghost next = entries.deep_view().take(i + 1);
            assert(next.drop_last() =~= entries.deep_view().take(i as int));
            assert(next.last() == entries[i as int]@);
            match strip_suffix(entries[i].as_str(), ".json") {
                Some(stem) => {
                    let found = manifest_ids(stem.as_str());
                    let ghost before = ids.deep_view();
                    let mut k: usize = 0;
                    while k < found.len()
                        invariant
                            k <= found.len(),
                            ids.deep_view() == before + found.deep_view().take(k as int),
                        decreases found.len() - k,
                    {
                        push_text(&mut ids, found[k].clone());
                        k += 1;
                        assert(ids.deep_view() =~= before + found.deep_view().take(k as int));
                    }
                    assert(found.deep_view().take(found.len() as int) =~= found.deep_view());
                },
                None => {},
            }
            i += 1;
        }
        assert(entries.deep_view().take(entries.len() as int) =~= entries.deep_view());
        ids
    }

    /// List the stored images. `images` holds them, in the order of their
    /// manifests, or nothing where the directory of the manifests is
    /// absent: then that is reported.
    pub fn list(&self, images: Option<&Vec<Image>>) -> (r: Plan)
        ensures
            r.cleanup@.len() == 0,
            match images {
                None => r.actions@.len() == 0 && r.issue == Some(Failure::ImageNotFound),
                Some(found) => r.actions.deep_view() == image_list(found@) && r.issue is None,
            },
    {
        let found = match images {
            None => {
                return Plan::skip(Failure::ImageNotFound);
            },
            Some(found) => found,
        };
        let mut plan: Vec<Action> = Vec::new();
        push_action(&mut plan, Action::Print { line: row("id", "name", "reference", "path") });
        let mut i: usize = 0;
        while i < found.len()
            invariant
                i <= found.len(),
                plan.deep_view() == image_list(found@).take(i + 1),
            decreases found.len() - i,
        {
            let image = &found[i];
            push_action(
                &mut plan,
                Action::Print {
                    line: row(
                        image.id.as_str(),
                        image.name.as_str(),
                        image.reference.as_str(),
                        image.path.as_str(),
                    ),
                },
            );
            i += 1;
            assert(plan.deep_view() =~= image_list(found@).take(i + 1));
        }
        assert(plan.deep_view() =~= image_list(found@));
        Plan::of(plan)
    }

    /// What `delete` asks for where the image is there: its manifest and
    /// its directory removed.
    pub open spec fn delete_plan(image_id: Seq<char>) -> Seq<ActionView> {
        seq![
            ActionView::RemoveFile { path: manifest_path(fixed_image_id(image_id)) },
            ActionView::RemoveDirAll { path: image_path(fixed_image_id(image_id)) },
        ]
    }

    /// Remove the image `image_id` from the store: its manifest and its
    /// directory. `exists` says whether the directory is there: where it
    /// is not, that is reported, and the manifest is removed all the same.
    pub fn delete(&self, image_id: &str, exists: bool) -> (r: Plan)
        ensures
            r.cleanup@.len() == 0,
            !exists ==> r.actions.deep_view() == seq![
                ActionView::RemoveFile { path: manifest_path(fixed_image_id(image_id@)) },
            ] && r.issue == Some(Failure::ImageNotFound),
            exists ==> r.actions.deep_view() == Self::delete_plan(image_id@) && r.issue is None,
    {
        let image = Image::new(image_id);
        image.delete(exists)
    }
}

} // verus!
