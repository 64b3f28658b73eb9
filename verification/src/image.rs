//! Images: their identity, their place in the store, and how one is
//! pulled from the registry.

use vstd::prelude::*;
use crate::action::{append_actions, push_action, push_text, Action, ActionView, Plan};
use crate::error::Failure;
use crate::json::{compact, json_compact, json_member, member, Shallow, ShallowView};
use crate::text::{replace_char, replaced, strip_prefix, without_prefix};
use crate::utils::{
    fix_image_id, fixed_image_id, get_image_path_with_str, image_name, image_path,
    image_reference, lemma_fixed_id_is_name_and_reference, plain_image_id, split_image_id,
};

verus! {

/// Where the registry hands out a token for pulling `name`.
pub open spec fn authentication_url(name: Seq<char>) -> Seq<char> {
    "https://auth.docker.io/token?service=registry.docker.io&scope=repository:"@ + name
        + ":pull"@
}

/// Where the registry keeps the manifest of `name` at `reference`.
pub open spec fn manifest_url(name: Seq<char>, reference: Seq<char>) -> Seq<char> {
    "https://registry.hub.docker.com/v2/"@ + name + "/manifests/"@ + reference
}

/// Where the registry keeps the layer `blob_sum` of `name`.
pub open spec fn blob_url(name: Seq<char>, blob_sum: Seq<char>) -> Seq<char> {
    "https://registry.hub.docker.com/v2/"@ + name + "/blobs/"@ + blob_sum
}

/// The file that keeps the manifest of the image `id`: the id with every
/// slash turned into an underscore, beside the images.
pub open spec fn manifest_path(id: Seq<char>) -> Seq<char> {
    "/var/lib/minato/images/json/"@ + replaced(id, '/', '_') + ".json"@
}

/// The digest that names a layer in the store: its `blobSum` without the
/// prefix `sha256:`.
pub open spec fn layer_digest(blob_sum: Seq<char>) -> Seq<char> {
    without_prefix(blob_sum, "sha256:"@)
}

/// The directory of the layer `layer` below `dir`.
pub open spec fn layer_path(dir: Seq<char>, layer: Seq<char>) -> Seq<char> {
    dir + "/"@ + layer
}

/// The archive of the layer `layer` below `dir`.
pub open spec fn archive_path(dir: Seq<char>, layer: Seq<char>) -> Seq<char> {
    layer_path(dir, layer) + ".tar.gz"@
}

/// The token in the registry's reply, as far as it was found: the text
/// under `token`.
pub open spec fn token_of(found: Option<Option<ShallowView>>) -> Result<Seq<char>, Failure> {
    match found {
        None => Err(Failure::MalformedJson),
        Some(Some(ShallowView::Text(token))) => Ok(token),
        Some(_) => Err(Failure::TokenMissing),
    }
}

/// The `blobSum` of a layer, as far as it was found: a text.
pub open spec fn blob_sum_of(found: Option<Option<ShallowView>>) -> Option<Seq<char>> {
    match found {
        Some(Some(ShallowView::Text(blob_sum))) => Some(blob_sum),
        _ => None,
    }
}

/// The `blobSum` of each of the layers `elements`, each a JSON text.
pub open spec fn blob_sums(elements: Seq<Seq<char>>) -> Seq<Option<Seq<char>>> {
    Seq::new(elements.len(), |i: int| blob_sum_of(json_member(elements[i], "blobSum"@)))
}

/// The layers in the registry's manifest, as far as they were found: of
/// each element of the list under `fsLayers` its `blobSum`.
pub open spec fn layers_of(found: Option<Option<ShallowView>>) -> Result<
    Seq<Option<Seq<char>>>,
    Failure,
> {
    match found {
        None => Err(Failure::MalformedJson),
        Some(Some(ShallowView::List(elements))) => Ok(blob_sums(elements)),
        Some(_) => Err(Failure::LayersMissing),
    }
}

/// The number of layers at the head of `sums` that name their `blobSum`.
pub open spec fn leading(sums: Seq<Option<Seq<char>>>) -> nat
    decreases sums.len(),
{
    if sums.len() == 0 || sums[0] is None {
        0
    } else {
        1 + leading(sums.skip(1))
    }
}

/// Where the first `i` layers name their `blobSum`, the count goes on behind them.
pub proof fn lemma_leading_skip(sums: Seq<Option<Seq<char>>>, i: int)
    requires
        0 <= i <= sums.len(),
        forall|j: int| 0 <= j < i ==> sums[j] is Some,
    ensures
        leading(sums) == i + leading(sums.skip(i)),
        leading(sums) <= sums.len(),
    decreases i,
{
    if i == 0 {
        assert(sums.skip(0) =~= sums);
        lemma_leading_bound(sums);
    } else {
        lemma_leading_skip(sums.skip(1), i - 1);
        assert(sums.skip(1).skip(i - 1) =~= sums.skip(i));
    }
}

/// No more layers lead than there are.
pub proof fn lemma_leading_bound(sums: Seq<Option<Seq<char>>>)
    ensures
        leading(sums) <= sums.len(),
        forall|j: int| 0 <= j < leading(sums) ==> sums[j] is Some,
        leading(sums) < sums.len() ==> sums[leading(sums) as int] is None,
    decreases sums.len(),
{
    if sums.len() == 0 || sums[0] is None {
    } else {
        let rest = sums.skip(1);
        lemma_leading_bound(rest);
        assert forall|j: int| 0 <= j < leading(sums) implies sums[j] is Some by {
            if j > 0 {
                assert(rest[j - 1] == sums[j]);
            }
        }
        if leading(sums) < sums.len() {
            assert(rest[leading(rest) as int] == sums[leading(sums) as int]);
        }
    }
}

/// The digests of the first `count` layers of `sums`.
pub open spec fn digests(sums: Seq<Option<Seq<char>>>, count: nat) -> Seq<Seq<char>> {
    Seq::new(count, |i: int| layer_digest(sums[i].unwrap()))
}

/// The layers that a stored manifest names, each by its digest; nothing
/// where the manifest cannot be read, holds no layers, or holds a layer
/// without `blobSum`.
pub open spec fn manifest_layers(manifest: Seq<char>) -> Option<Seq<Seq<char>>> {
    match layers_of(json_member(manifest, "fsLayers"@)) {
        Ok(sums) => if leading(sums) == sums.len() {
            Some(digests(sums, sums.len()))
        } else {
            None
        },
        Err(_) => None,
    }
}

/// Whether a directory with the entries `entries` holds all of `layers`:
/// each has its directory, and of none the archive is left.
pub open spec fn holds_all(entries: Seq<Seq<char>>, layers: Seq<Seq<char>>) -> bool {
    forall|i: int|
        0 <= i < layers.len() ==> entries.contains(#[trigger] layers[i]) && !entries.contains(
            layers[i] + ".tar.gz"@,
        )
}

/// Whether an image is in the store as a whole. `entries` are the names in
/// its directory, `manifest` is its stored manifest, each nothing where
/// it is not there. The image is there as a whole where both are there
/// and the directory holds all layers that the manifest names.
pub open spec fn complete(entries: Option<Seq<Seq<char>>>, manifest: Option<Seq<char>>) -> bool {
    match (entries, manifest) {
        (Some(e), Some(m)) => match manifest_layers(m) {
            Some(layers) => holds_all(e, layers),
            None => false,
        },
        _ => false,
    }
}

/// How far a pull has come.
#[derive(Clone, Debug, PartialEq, Eq)]
pub enum PullStage {
    /// Nothing was asked of the registry yet.
    Start,
    /// The token was asked for.
    Token,
    /// The manifest was asked for, with `token`.
    Manifest { token: String },
}

/// What a pull asks for next.
#[derive(Clone, Debug, PartialEq, Eq)]
pub enum PullStep {
    /// Fetch `url`, with the bearer `token` where there is one, and come
    /// back with the body of the reply at the stage `next`.
    Fetch { url: String, token: Option<String>, next: PullStage },
    /// Carry out the plan; with that the pull has ended.
    Apply { plan: Plan },
}

fn holds(names: &Vec<String>, name: &str) -> (r: bool)
    ensures
        r == names.deep_view().contains(name@),
{
    let mut i: usize = 0;
    while i < names.len()
        invariant
            i <= names.len(),
            forall|j: int| 0 <= j < i ==> names.deep_view()[j] != name@,
        decreases names.len() - i,
    {
        assert(names.deep_view()[i as int] == names@[i as int]@);
        if crate::text::str_eq(names[i].as_str(), name) {
            return true;
        }
        i += 1;
    }
    false
}

/// An image of the store.
#[derive(Clone, Debug, PartialEq, Eq)]
pub struct Image {
    /// The name, a colon and the reference.
    pub id: String,
    /// The repository and the path below it.
    pub name: String,
    /// A tag or a digest.
    pub reference: String,
    /// The layers, each by its digest, the topmost first.
    pub fs_layers: Vec<String>,
    /// The directory of the image in the store.
    pub path: String,
}

impl Image {
    /// Whether this is the image that `image_id` names: the id is
    /// completed, name and reference are its parts, and the path is the
    /// image's directory.
    pub open spec fn names(&self, image_id: Seq<char>) -> bool {
        &&& self.id@ == fixed_image_id(image_id)
        &&& self.name@ == image_name(self.id@)
        &&& self.reference@ == image_reference(self.id@)
        &&& self.path@ == image_path(self.id@)
    }

    /// The image that `image_id` names, with no layer yet.
    pub fn new(image_id: &str) -> (r: Image)
        ensures
            r.names(image_id@),
            r.fs_layers@.len() == 0,
            plain_image_id(image_id@) ==> r.id@ == r.name@ + ":"@ + r.reference@,
    {
        proof {
            if plain_image_id(image_id@) {
                lemma_fixed_id_is_name_and_reference(image_id@);
            }
        }
        let id = match fix_image_id(image_id) {
            Ok(id) => id,
            Err(_) => String::from_str(image_id),
        };
        let (name, reference) = match split_image_id(id.clone()) {
            Ok(parts) => parts,
            Err(_) => (String::new(), String::new()),
        };
        let path = match get_image_path_with_str(id.as_str()) {
            Ok(path) => path,
            Err(_) => String::new(),
        };
        Image { id, name, reference, fs_layers: Vec::new(), path }
    }

    /// The stored image that `image_id` names. `layers` holds the names of
    /// the entries of the image's directory, in the order in which the
    /// directory gives them, and `manifest` is the image's stored manifest,
    /// each nothing where it is not there. There is such an image only
    /// where it is in the store as a whole: a directory that lacks a layer
    /// of the manifest or still holds an archive is no image.
    pub fn load(image_id: &str, layers: Option<Vec<String>>, manifest: Option<&str>) -> (r: Result<
        Option<Image>,
        Failure,
    >)
        ensures
            r matches Ok(found) && if complete(layers.deep_view(), manifest.deep_view()) {
                found matches Some(image) && image.names(image_id@) && Some(image.fs_layers)
                    == layers
            } else {
                found is None
            },
    {
        let whole = Self::is_complete(layers.as_ref(), manifest);
        let mut image = Image::new(image_id);
        match layers {
            Some(l) => if whole {
                image.fs_layers = l;
                Ok(Some(image))
            } else {
                Ok(None)
            },
            None => Ok(None),
        }
    }

    /// The token, given what the registry's reply holds under `token`:
    /// only a text counts.
    pub fn token_from(found: Option<Shallow>) -> (r: Result<String, Failure>)
        ensures
            match token_of(Some(found.deep_view())) {
                Ok(token) => r matches Ok(t) && t@ == token,
                Err(e) => r == Err::<String, Failure>(e),
            },
    {
        match found {
            Some(Shallow::Text(token)) => Ok(token),
            _ => Err(Failure::TokenMissing),
        }
    }

    /// The token in `reply`, the body of the registry's answer to the
    /// token request: the text that the JSON document holds under `token`.
    pub fn get_authentication_token(&self, reply: &str) -> (r: Result<String, Failure>)
        ensures
            match token_of(json_member(reply@, "token"@)) {
                Ok(token) => r matches Ok(t) && t@ == token,
                Err(e) => r == Err::<String, Failure>(e),
            },
    {
        match member(reply, "token") {
            Ok(found) => Self::token_from(found),
            Err(_) => Err(Failure::MalformedJson),
        }
    }

    /// The manifest in `reply`, the body of the registry's answer to the
    /// manifest request, as it is kept in the store.
    pub fn get_image_json(&self, reply: &str) -> (r: Result<String, Failure>)
        ensures
            match json_compact(reply@) {
                Some(body) => r matches Ok(b) && b@ == body,
                None => r == Err::<String, Failure>(Failure::MalformedJson),
            },
    {
        match compact(reply) {
            Ok(body) => Ok(body),
            Err(_) => Err(Failure::MalformedJson),
        }
    }

    /// What `write_image_json` asks for: the directory of the manifests,
    /// and the manifest in the file of this image.
    pub open spec fn write_image_json_plan(&self, body: Seq<char>) -> Seq<ActionView> {
        seq![
            ActionView::CreateDirAll { path: "/var/lib/minato/images/json"@ },
            ActionView::WriteFile { path: manifest_path(fixed_image_id(self.id@)), data: body },
        ]
    }

    /// Keep the manifest `body` in the store.
    pub fn write_image_json(&self, body: &str) -> (r: Vec<Action>)
        ensures
            r.deep_view() == self.write_image_json_plan(body@),
    {
        let id = match fix_image_id(self.id.as_str()) {
            Ok(id) => id,
            Err(_) => self.id.clone(),
        };
        let mut path = String::from_str("/var/lib/minato/images/json/");
        path.append(replace_char(id.as_str(), '/', '_').as_str());
        path.append(".json");
        let mut plan: Vec<Action> = Vec::new();
        push_action(
            &mut plan,
            Action::CreateDirAll { path: String::from_str("/var/lib/minato/images/json") },
        );
        push_action(&mut plan, Action::WriteFile { path, data: String::from_str(body) });
        assert(plan.deep_view() =~= self.write_image_json_plan(body@));
        plan
    }

    /// The `blobSum` of a layer, given what the layer holds under
    /// `blobSum`: only a text counts.
    pub fn blob_sum_from(found: Option<Shallow>) -> (r: Option<String>)
        ensures
            r.deep_view() == blob_sum_of(Some(found.deep_view())),
    {
        match found {
            Some(Shallow::Text(blob_sum)) => Some(blob_sum),
            _ => None,
        }
    }

    /// The layers, given what the manifest holds under `fsLayers`: only a
    /// list counts, and of each of its elements the `blobSum`.
    pub fn layers_from(found: Option<Shallow>) -> (r: Result<Vec<Option<String>>, Failure>)
        ensures
            match layers_of(Some(found.deep_view())) {
                Ok(layers) => r matches Ok(l) && l.deep_view() == layers,
                Err(e) => r == Err::<Vec<Option<String>>, Failure>(e),
            },
    {
        let elements = match found {
            Some(Shallow::List(elements)) => elements,
            _ => {
                return Err(Failure::LayersMissing);
            },
        };
        let mut layers: Vec<Option<String>> = Vec::new();
        let mut i: usize = 0;
        while i < elements.len()
            invariant
                i <= elements.len(),
                layers.deep_view() == blob_sums(elements.deep_view()).take(i as int),
            decreases elements.len() - i,
        {
            let blob_sum = match member(elements[i].as_str(), "blobSum") {
                Ok(found) => Self::blob_sum_from(found),
                Err(_) => None,
            };
            let ghost before = layers.deep_view();
            layers.push(blob_sum);
            assert(layers.deep_view() =~= before.push(blob_sum.deep_view()));
            i += 1;
            assert(layers.deep_view() =~= blob_sums(elements.deep_view()).take(i as int));
        }
        assert(blob_sums(elements.deep_view()).take(elements.len() as int) =~= blob_sums(
            elements.deep_view(),
        ));
        Ok(layers)
    }

    /// The layers of the manifest `body`, in its order: for each element of
    /// the list `fsLayers` its `blobSum`, where it names one.
    pub fn extract_layers_from_body(&self, body: &str) -> (r: Result<
        Vec<Option<String>>,
        Failure,
    >)
        ensures
            match layers_of(json_member(body@, "fsLayers"@)) {
                Ok(layers) => r matches Ok(l) && l.deep_view() == layers,
                Err(e) => r == Err::<Vec<Option<String>>, Failure>(e),
            },
    {
        match member(body, "fsLayers") {
            Ok(found) => Self::layers_from(found),
            Err(_) => Err(Failure::MalformedJson),
        }
    }

    /// The download of the layer `blob_sum` into its archive in the image's
    /// directory.
    pub open spec fn download(&self, token: Seq<char>, blob_sum: Seq<char>) -> ActionView {
        ActionView::Download {
            url: blob_url(self.name@, blob_sum),
            token,
            into: archive_path(self.path@, layer_digest(blob_sum)),
        }
    }

    /// Take one layer of the manifest into the image: its digest joins the
    /// layers, and its download is due. A layer that names no `blobSum`
    /// is refused, and the image stays as it is.
    pub fn download_layer(&mut self, token: &str, fs_layer: &Option<String>) -> (r: Result<
        Action,
        Failure,
    >)
        ensures
            final(self).id == old(self).id,
            final(self).name == old(self).name,
            final(self).reference == old(self).reference,
            final(self).path == old(self).path,
            match *fs_layer {
                None => r == Err::<Action, Failure>(Failure::BlobSumMissing) && final(
                    self
                ).fs_layers == old(self).fs_layers,
                Some(blob_sum) => {
                    &&& r matches Ok(action) && action.deep_view() == old(self).download(
                        token@,
                        blob_sum@,
                    )
                    &&& final(self).fs_layers.deep_view() == old(self).fs_layers.deep_view().push(
                        layer_digest(blob_sum@),
                    )
                },
            },
    {
        match fs_layer {
            None => Err(Failure::BlobSumMissing),
            Some(blob_sum) => {
                let digest = strip_prefix(blob_sum.as_str(), "sha256:");
                let mut into = self.path.clone();
                into.append("/");
                into.append(digest.as_str());
                into.append(".tar.gz");
                let mut url = String::from_str("https://registry.hub.docker.com/v2/");
                url.append(self.name.as_str());
                url.append("/blobs/");
                url.append(blob_sum.as_str());
                push_text(&mut self.fs_layers, digest);
                Ok(Action::Download { url, token: String::from_str(token), into })
            },
        }
    }

    /// What `unpack_image_layers` asks for: every layer's archive unpacked
    /// in place into the layer's directory, in the order of the layers.
    pub open spec fn unpack_image_layers_plan(&self) -> Seq<ActionView> {
        let layers = self.fs_layers.deep_view();
        Seq::new(
            layers.len(),
            |i: int|
                ActionView::Unpack {
                    archive: archive_path(self.path@, layers[i]),
                    into: layer_path(self.path@, layers[i]),
                },
        )
    }

    /// Unpack the archives of the layers.
    pub fn unpack_image_layers(&self) -> (r: Vec<Action>)
        ensures
            r.deep_view() == self.unpack_image_layers_plan(),
    {
        let dir = self.path.clone();
        let mut plan: Vec<Action> = Vec::new();
        let mut i: usize = 0;
        while i < self.fs_layers.len()
            invariant
                i <= self.fs_layers.len(),
                dir@ == self.path@,
                plan.deep_view() == self.unpack_image_layers_plan().take(i as int),
            decreases self.fs_layers.len() - i,
        {
            let mut into = dir.clone();
            into.append("/");
            into.append(self.fs_layers[i].as_str());
            let mut archive = into.clone();
            archive.append(".tar.gz");
            push_action(&mut plan, Action::Unpack { archive, into });
            i += 1;
            assert(plan.deep_view() =~= self.unpack_image_layers_plan().take(i as int));
        }
        assert(plan.deep_view() =~= self.unpack_image_layers_plan());
        plan
    }

    /// What `remove_archives` asks for: every layer's archive removed.
    pub open spec fn remove_archives_plan(&self) -> Seq<ActionView> {
        let layers = self.fs_layers.deep_view();
        Seq::new(
            layers.len(),
            |i: int| ActionView::RemoveFile { path: archive_path(self.path@, layers[i]) },
        )
    }

    /// Remove the archives of the layers.
    pub fn remove_archives(&self) -> (r: Vec<Action>)
        ensures
            r.deep_view() == self.remove_archives_plan(),
    {
        let dir = self.path.clone();
        let mut plan: Vec<Action> = Vec::new();
        let mut i: usize = 0;
        while i < self.fs_layers.len()
            invariant
                i <= self.fs_layers.len(),
                dir@ == self.path@,
                plan.deep_view() == self.remove_archives_plan().take(i as int),
            decreases self.fs_layers.len() - i,
        {
            let mut path = dir.clone();
            path.append("/");
            path.append(self.fs_layers[i].as_str());
            path.append(".tar.gz");
            push_action(&mut plan, Action::RemoveFile { path });
            i += 1;
            assert(plan.deep_view() =~= self.remove_archives_plan().take(i as int));
        }
        assert(plan.deep_view() =~= self.remove_archives_plan());
        plan
    }

    /// The downloads of the first `count` layers of `sums`.
    pub open spec fn downloads(
        &self,
        token: Seq<char>,
        sums: Seq<Option<Seq<char>>>,
        count: nat,
    ) -> Seq<ActionView> {
        Seq::new(count, |i: int| self.download(token, sums[i].unwrap()))
    }

    /// What a pull asks for before its downloads.
    pub open spec fn head_plan(&self, body: Seq<char>) -> Seq<ActionView> {
        seq![ActionView::RemoveDirAll { path: self.path@ }] + self.write_image_json_plan(body)
            + seq![ActionView::CreateDirAll { path: self.path@ }]
    }

    /// What a pull asks for up to the end of the downloads, once the
    /// manifest `body` is here and `sums` are its layers: what an earlier
    /// pull left of the image removed, so that nothing half done is taken
    /// for done; the manifest kept; the directory of the image made; and
    /// the layers downloaded into it as far as they name their `blobSum`.
    pub open spec fn fetch_plan(
        &self,
        token: Seq<char>,
        body: Seq<char>,
        sums: Seq<Option<Seq<char>>>,
    ) -> Seq<ActionView> {
        seq![ActionView::RemoveDirAll { path: self.path@ }] + self.write_image_json_plan(body)
            + seq![ActionView::CreateDirAll { path: self.path@ }] + self.downloads(
            token,
            sums,
            leading(sums),
        )
    }

    /// All that a pull asks for once the manifest is here, where every
    /// layer names its `blobSum`: the downloads, then, with the layers that
    /// the image has by then (`pulled`), the archives unpacked in place and
    /// removed.
    pub open spec fn complete_plan(
        &self,
        pulled: Image,
        token: Seq<char>,
        body: Seq<char>,
        sums: Seq<Option<Seq<char>>>,
    ) -> Seq<ActionView> {
        self.fetch_plan(token, body, sums) + pulled.unpack_image_layers_plan()
            + pulled.remove_archives_plan()
    }

    /// The rest of a pull once the manifest is here. `layers` is what was
    /// found of the manifest's layers.
    ///
    /// The manifest is kept in any case. Where the layers were not found,
    /// that is reported and nothing else is done. Else the image's
    /// directory is made anew and the layers are downloaded into it in the
    /// manifest's order and join the image. At the first layer without a
    /// `blobSum` the plan ends and reports it. Where all name theirs, the
    /// archives are unpacked in place and then removed. The removal of the
    /// archives comes last, so that a directory without an archive holds
    /// layers that were unpacked to their end.
    pub fn pull_layers(
        &mut self,
        token: &str,
        body: &str,
        layers: Result<Vec<Option<String>>, Failure>,
    ) -> (r: Plan)
        ensures
            final(self).id == old(self).id,
            final(self).name == old(self).name,
            final(self).reference == old(self).reference,
            final(self).path == old(self).path,
            r.cleanup@.len() == 0,
            match layers {
                Err(e) => {
                    &&& final(self).fs_layers == old(self).fs_layers
                    &&& r.actions.deep_view() == old(self).write_image_json_plan(body@)
                    &&& r.issue == Some(e)
                },
                Ok(sums) => {
                    let found = sums.deep_view();
                    &&& final(self).fs_layers.deep_view() == old(self).fs_layers.deep_view()
                        + digests(found, leading(found))
                    &&& leading(found) < found.len() ==> r.actions.deep_view() == old(
                        self
                    ).fetch_plan(token@, body@, found) && r.issue == Some(Failure::BlobSumMissing)
                    &&& leading(found) == found.len() ==> r.actions.deep_view() == old(
                        self
                    ).complete_plan(*final(self), token@, body@, found) && r.issue is None
                },
            },
    {
        let ghost start = *self;
        let sums = match layers {
            Err(e) => {
                return Plan {
                    actions: self.write_image_json(body),
                    cleanup: Vec::new(),
                    issue: Some(e),
                };
            },
            Ok(sums) => sums,
        };
        let ghost found = sums.deep_view();
        let mut plan: Vec<Action> = Vec::new();
        push_action(&mut plan, Action::RemoveDirAll { path: self.path.clone() });
        append_actions(&mut plan, self.write_image_json(body));
        push_action(&mut plan, Action::CreateDirAll { path: self.path.clone() });
        let ghost head = plan.deep_view();
        assert(head =~= start.head_plan(body@));
        let mut i: usize = 0;
        while i < sums.len()
            invariant
                i <= sums.len(),
                found == sums.deep_view(),
                found.len() == sums.len(),
                layers == Ok::<Vec<Option<String>>, Failure>(sums),
                start == *old(self),
                head == start.head_plan(body@),
                self.id == start.id,
                self.name == start.name,
                self.reference == start.reference,
                self.path == start.path,
                forall|j: int| 0 <= j < i ==> found[j] is Some,
                self.fs_layers.deep_view() == start.fs_layers.deep_view() + digests(
                    found,
                    i as nat,
                ),
                plan.deep_view() == head + start.downloads(token@, found, i as nat),
            decreases sums.len() - i,
        {
            let ghost layers_before = self.fs_layers.deep_view();
            let ghost plan_before = plan.deep_view();
            assert(found[i as int] == sums@[i as int].deep_view());
            match self.download_layer(token, &sums[i]) {
                Err(e) => {
                    proof {
                        lemma_leading_skip(found, i as int);
                        assert(found.skip(i as int)[0] is None);
                    }
                    return Plan { actions: plan, cleanup: Vec::new(), issue: Some(e) };
                },
                Ok(action) => {
                    push_action(&mut plan, action);
                },
            }
            i += 1;
            assert(self.fs_layers.deep_view() =~= start.fs_layers.deep_view() + digests(
                found,
                i as nat,
            ));
            assert(plan.deep_view() =~= head + start.downloads(token@, found, i as nat));
        }
        proof {
            lemma_leading_skip(found, sums.len() as int);
        }
        append_actions(&mut plan, self.unpack_image_layers());
        append_actions(&mut plan, self.remove_archives());
        Plan::of(plan)
    }

    /// One step of a pull from the registry. `stage` says how far the pull
    /// has come, and `reply` is the body of the registry's answer to what
    /// the step before asked for; at the start it is not read.
    ///
    /// At the start the token is asked for. With the token, the manifest
    /// is asked for. With the manifest, the rest is planned (`pull_layers`),
    /// for the layers that the manifest names as it is kept in the store.
    /// An answer that cannot be used ends the pull with its failure.
    pub fn pull_from_docker(&mut self, stage: PullStage, reply: &str) -> (r: Result<
        PullStep,
        Failure,
    >)
        ensures
            final(self).id == old(self).id,
            final(self).name == old(self).name,
            final(self).reference == old(self).reference,
            final(self).path == old(self).path,
            match stage {
                PullStage::Start => {
                    &&& final(self).fs_layers == old(self).fs_layers
                    &&& r matches Ok(PullStep::Fetch { url, token, next })
                    &&& url@ == authentication_url(old(self).name@)
                    &&& token is None
                    &&& next == PullStage::Token
                },
                PullStage::Token => {
                    &&& final(self).fs_layers == old(self).fs_layers
                    &&& match token_of(json_member(reply@, "token"@)) {
                        Err(e) => r == Err::<PullStep, Failure>(e),
                        Ok(found) => {
                            &&& r matches Ok(PullStep::Fetch { url, token, next })
                            &&& url@ == manifest_url(old(self).name@, old(self).reference@)
                            &&& token.deep_view() == Some(found)
                            &&& next matches PullStage::Manifest { token: kept }
                            &&& kept@ == found
                        },
                    }
                },
                PullStage::Manifest { token } => match json_compact(reply@) {
                    None => r == Err::<PullStep, Failure>(Failure::MalformedJson) && final(
                        self
                    ).fs_layers == old(self).fs_layers,
                    Some(body) => match layers_of(json_member(body, "fsLayers"@)) {
                        Err(Failure::MalformedJson) => r == Err::<PullStep, Failure>(
                            Failure::MalformedJson,
                        ) && final(self).fs_layers == old(self).fs_layers,
                        Err(e) => {
                            &&& r matches Ok(PullStep::Apply { plan })
                            &&& final(self).fs_layers == old(self).fs_layers
                            &&& plan.actions.deep_view() == old(self).write_image_json_plan(body)
                            &&& plan.cleanup@.len() == 0
                            &&& plan.issue == Some(e)
                        },
                        Ok(found) => {
                            &&& r matches Ok(PullStep::Apply { plan })
                            &&& plan.cleanup@.len() == 0
                            &&& final(self).fs_layers.deep_view() == old(
                                self
                            ).fs_layers.deep_view() + digests(found, leading(found))
                            &&& leading(found) < found.len() ==> plan.actions.deep_view() == old(
                                self
                            ).fetch_plan(token@, body, found) && plan.issue == Some(
                                Failure::BlobSumMissing,
                            )
                            &&& leading(found) == found.len() ==> plan.actions.deep_view() == old(
                                self
                            ).complete_plan(*final(self), token@, body, found) && plan.issue
                                is None
                        },
                    },
                },
            },
    {
        match stage {
            PullStage::Start => {
                let mut url = String::from_str(
                    "https://auth.docker.io/token?service=registry.docker.io&scope=repository:",
                );
                url.append(self.name.as_str());
                url.append(":pull");
                Ok(PullStep::Fetch { url, token: None, next: PullStage::Token })
            },
            PullStage::Token => {
                let token = match self.get_authentication_token(reply) {
                    Ok(token) => token,
                    Err(e) => {
                        return Err(e);
                    },
                };
                let mut url = String::from_str("https://registry.hub.docker.com/v2/");
                url.append(self.name.as_str());
                url.append("/manifests/");
                url.append(self.reference.as_str());
                Ok(
                    PullStep::Fetch {
                        url,
                        token: Some(token.clone()),
                        next: PullStage::Manifest { token },
                    },
                )
            },
            PullStage::Manifest { token } => {
                let body = match self.get_image_json(reply) {
                    Ok(body) => body,
                    Err(e) => {
                        return Err(e);
                    },
                };
                let layers = self.extract_layers_from_body(body.as_str());
                match layers {
                    Err(Failure::MalformedJson) => {
                        return Err(Failure::MalformedJson);
                    },
                    _ => {},
                }
                let plan = self.pull_layers(token.as_str(), body.as_str(), layers);
                Ok(PullStep::Apply { plan })
            },
        }
    }

    /// Whether the image is in the store as a whole, given the names in
    /// its directory and its stored manifest, each nothing where it is not
    /// there.
    pub fn is_complete(entries: Option<&Vec<String>>, manifest: Option<&str>) -> (r: bool)
        ensures
            r == complete(entries.deep_view(), manifest.deep_view()),
    {
        let names = match entries {
            Some(names) => names,
            None => {
                return false;
            },
        };
        let text = match manifest {
            Some(text) => text,
            None => {
                return false;
            },
        };
        let sums = match member(text, "fsLayers") {
            Ok(found) => match Self::layers_from(found) {
                Ok(sums) => sums,
                Err(_) => {
                    return false;
                },
            },
            Err(_) => {
                return false;
            },
        };
        let ghost found = sums.deep_view();
        let mut i: usize = 0;
        while i < sums.len()
            invariant
                i <= sums.len(),
                found == sums.deep_view(),
                found.len() == sums.len(),
                layers_of(json_member(text@, "fsLayers"@)) == Ok::<
                    Seq<Option<Seq<char>>>,
                    Failure,
                >(found),
                entries.deep_view() == Some(names.deep_view()),
                manifest.deep_view() == Some(text@),
                forall|j: int| 0 <= j < i ==> found[j] is Some,
                forall|j: int|
                    0 <= j < i ==> names.deep_view().contains(
                        layer_digest((#[trigger] found[j]).unwrap()),
                    ) && !names.deep_view().contains(
                        layer_digest(found[j].unwrap()) + ".tar.gz"@,
                    ),
            decreases sums.len() - i,
        {
            assert(found[i as int] == sums@[i as int].deep_view());
            let digest = match &sums[i] {
                Some(blob_sum) => strip_prefix(blob_sum.as_str(), "sha256:"),
                None => {
                    proof {
                        lemma_leading_skip(found, i as int);
                        assert(found.skip(i as int)[0] is None);
                    }
                    return false;
                },
            };
            let mut archive = digest.clone();
            archive.append(".tar.gz");
            if !holds(names, digest.as_str()) || holds(names, archive.as_str()) {
                proof {
                    if leading(found) == found.len() {
                        assert(digests(found, found.len())[i as int] == digest@);
                    }
                }
                return false;
            }
            i += 1;
        }
        proof {
            lemma_leading_skip(found, sums.len() as int);
            assert forall|j: int| 0 <= j < digests(found, found.len()).len() implies
                names.deep_view().contains(#[trigger] digests(found, found.len())[j])
                && !names.deep_view().contains(digests(found, found.len())[j] + ".tar.gz"@) by {
                assert(found[j] is Some);
            }
        }
        true
    }

    /// Pull the image. `entries` are the names in the image's directory and
    /// `manifest` is the image's stored manifest, each nothing where it is
    /// not there. Where the image is in the store as a whole, nothing is
    /// done and that is reported, so that a second pull changes nothing.
    /// Else the pull from the registry starts: also where an earlier pull
    /// has left a directory behind that lacks a layer or still holds an
    /// archive.
    pub fn pull(&mut self, entries: Option<&Vec<String>>, manifest: Option<&str>) -> (r: Result<
        PullStep,
        Failure,
    >)
        ensures
            *final(self) == *old(self),
            complete(entries.deep_view(), manifest.deep_view()) ==> (r matches Ok(
                PullStep::Apply { plan },
            ) && plan.is_empty() && plan.issue == Some(Failure::ImageExists)),
            !complete(entries.deep_view(), manifest.deep_view()) ==> (r matches Ok(
                PullStep::Fetch { url, token, next },
            ) && url@ == authentication_url(old(self).name@) && token is None && next
                == PullStage::Token),
    {
        if Self::is_complete(entries, manifest) {
            return Ok(PullStep::Apply { plan: Plan::skip(Failure::ImageExists) });
        }
        let mut url = String::from_str(
            "https://auth.docker.io/token?service=registry.docker.io&scope=repository:",
        );
        url.append(self.name.as_str());
        url.append(":pull");
        Ok(PullStep::Fetch { url, token: None, next: PullStage::Token })
    }

    /// What `delete` asks for where there is something to remove: the
    /// manifest and the directory of the image.
    pub open spec fn delete_plan(&self) -> Seq<ActionView> {
        seq![
            ActionView::RemoveFile { path: manifest_path(self.id@) },
            ActionView::RemoveDirAll { path: self.path@ },
        ]
    }

    /// The file that keeps the manifest of the image.
    pub fn manifest_file(&self) -> (r: String)
        ensures
            r@ == manifest_path(self.id@),
    {
        let mut path = String::from_str("/var/lib/minato/images/json/");
        path.append(replace_char(self.id.as_str(), '/', '_').as_str());
        path.append(".json");
        path
    }

    /// What `delete_image_json` asks for.
    pub fn delete_image_json(&self) -> (r: Vec<Action>)
        ensures
            r.deep_view() == seq![ActionView::RemoveFile { path: manifest_path(self.id@) }],
    {
        let mut plan: Vec<Action> = Vec::new();
        push_action(&mut plan, Action::RemoveFile { path: self.manifest_file() });
        assert(plan.deep_view() =~= seq![
            ActionView::RemoveFile { path: manifest_path(self.id@) },
        ]);
        plan
    }

    /// What `delete_image_directory` asks for.
    pub fn delete_image_directory(&self) -> (r: Vec<Action>)
        ensures
            r.deep_view() == seq![ActionView::RemoveDirAll { path: self.path@ }],
    {
        let mut plan: Vec<Action> = Vec::new();
        push_action(&mut plan, Action::RemoveDirAll { path: self.path.clone() });
        assert(plan.deep_view() =~= seq![ActionView::RemoveDirAll { path: self.path@ }]);
        plan
    }

    /// Remove the image from the store: its manifest and its directory.
    /// `exists` says whether the directory is there: where it is not, that
    /// is reported, and the manifest is removed all the same, so that none
    /// stays behind without its image.
    pub fn delete(&self, exists: bool) -> (r: Plan)
        ensures
            r.cleanup@.len() == 0,
            !exists ==> r.actions.deep_view() == seq![
                ActionView::RemoveFile { path: manifest_path(self.id@) },
            ] && r.issue == Some(Failure::ImageNotFound),
            exists ==> r.actions.deep_view() == self.delete_plan() && r.issue is None,
    {
        if !exists {
            return Plan {
                actions: self.delete_image_json(),
                cleanup: Vec::new(),
                issue: Some(Failure::ImageNotFound),
            };
        }
        let mut plan = self.delete_image_json();
        append_actions(&mut plan, self.delete_image_directory());
        assert(plan.deep_view() =~= self.delete_plan());
        Plan::of(plan)
    }
}

} // verus!
