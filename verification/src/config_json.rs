//! The configuration of a container as a JSON document, and back.

use vstd::prelude::*;
use crate::action::{push_text, NamespaceType};
use crate::document::{
    item_views, lemma_list_view, member, member_views, push_item, push_member, Json, JsonView,
    Member,
};
use crate::error::Failure;
use crate::runtime_spec::{
    Device, DeviceView, Linux, LinuxView, Namespace, Process, ProcessView, Resources,
    ResourcesView, Spec, SpecView, User, UserView,
};
use crate::text::str_eq;

verus! {

/// The name of a kind of namespace in a configuration.
pub open spec fn kind_name(kind: NamespaceType) -> Seq<char> {
    match kind {
        NamespaceType::Pid => "pid"@,
        NamespaceType::Mount => "mount"@,
        NamespaceType::Uts => "uts"@,
        NamespaceType::Ipc => "ipc"@,
        NamespaceType::User => "user"@,
        NamespaceType::Cgroup => "cgroup"@,
        NamespaceType::Network => "network"@,
    }
}

/// The kind of namespace that a configuration calls `name`.
pub open spec fn kind_of(name: Seq<char>) -> Option<NamespaceType> {
    if name == "pid"@ {
        Some(NamespaceType::Pid)
    } else if name == "mount"@ {
        Some(NamespaceType::Mount)
    } else if name == "uts"@ {
        Some(NamespaceType::Uts)
    } else if name == "ipc"@ {
        Some(NamespaceType::Ipc)
    } else if name == "user"@ {
        Some(NamespaceType::User)
    } else if name == "cgroup"@ {
        Some(NamespaceType::Cgroup)
    } else if name == "network"@ {
        Some(NamespaceType::Network)
    } else {
        None
    }
}

/// A list of texts as a document.
pub open spec fn texts(items: Seq<Seq<char>>) -> JsonView {
    JsonView::List(Seq::new(items.len(), |i: int| JsonView::Text(items[i])))
}

/// A list of ids as a document.
pub open spec fn ids(items: Seq<u32>) -> JsonView {
    JsonView::List(Seq::new(items.len(), |i: int| JsonView::Number(items[i] as i64)))
}

/// A number that may be left out, as a document.
pub open spec fn optional_number(n: Option<i64>) -> JsonView {
    match n {
        Some(x) => JsonView::Number(x),
        None => JsonView::Null,
    }
}

/// A user as a document.
pub open spec fn encoded_user(user: UserView) -> JsonView {
    JsonView::Object(
        seq![
            ("uid"@, JsonView::Number(user.uid as i64)),
            ("gid"@, JsonView::Number(user.gid as i64)),
            ("additionalGids"@, ids(user.additional_gids)),
        ],
    )
}

/// A process as a document.
pub open spec fn encoded_process(process: ProcessView) -> JsonView {
    JsonView::Object(
        seq![
            ("args"@, texts(process.args)),
            ("env"@, texts(process.env)),
            ("user"@, encoded_user(process.user)),
        ],
    )
}

/// A namespace as a document.
pub open spec fn encoded_namespace(namespace: Namespace) -> JsonView {
    JsonView::Object(seq![("type"@, JsonView::Text(kind_name(namespace.typ)))])
}

/// A device rule as a document.
pub open spec fn encoded_device(device: DeviceView) -> JsonView {
    JsonView::Object(
        seq![
            ("allow"@, JsonView::Bool(device.allow)),
            ("type"@, JsonView::Text(device.typ)),
            ("major"@, optional_number(device.major)),
            ("minor"@, optional_number(device.minor)),
            ("access"@, JsonView::Text(device.access)),
        ],
    )
}

/// Limits as a document.
pub open spec fn encoded_resources(resources: Option<ResourcesView>) -> JsonView {
    match resources {
        Some(r) => JsonView::Object(
            seq![
                (
                    "devices"@,
                    JsonView::List(
                        Seq::new(r.devices.len(), |i: int| encoded_device(r.devices[i])),
                    ),
                ),
            ],
        ),
        None => JsonView::Null,
    }
}

/// What concerns the kernel, as a document.
pub open spec fn encoded_linux(linux: Option<LinuxView>) -> JsonView {
    match linux {
        Some(l) => JsonView::Object(
            seq![
                (
                    "namespaces"@,
                    JsonView::List(
                        Seq::new(l.namespaces.len(), |i: int| encoded_namespace(l.namespaces[i])),
                    ),
                ),
                ("resources"@, encoded_resources(l.resources)),
            ],
        ),
        None => JsonView::Null,
    }
}

/// A configuration as a document.
pub open spec fn encoded_spec(spec: SpecView) -> JsonView {
    JsonView::Object(
        seq![
            ("process"@, encoded_process(spec.process)),
            ("hostname"@, JsonView::Text(spec.hostname)),
            ("linux"@, encoded_linux(spec.linux)),
        ],
    )
}

/// The text that a document is.
pub open spec fn text_of(found: Option<JsonView>) -> Option<Seq<char>> {
    match found {
        Some(JsonView::Text(text)) => Some(text),
        _ => None,
    }
}

/// The truth value that a document is.
pub open spec fn bool_of(found: Option<JsonView>) -> Option<bool> {
    match found {
        Some(JsonView::Bool(b)) => Some(b),
        _ => None,
    }
}

/// The id that a document is: a number of 32 bits without sign.
pub open spec fn id_of(found: Option<JsonView>) -> Option<u32> {
    match found {
        Some(JsonView::Number(n)) => if 0 <= n <= 0xffff_ffff {
            Some(n as u32)
        } else {
            None
        },
        _ => None,
    }
}

/// The number that a document is, where it may be left out: nothing for
/// a document that is absent or null.
pub open spec fn optional_number_of(found: Option<JsonView>) -> Option<Option<i64>> {
    match found {
        None => Some(None),
        Some(JsonView::Null) => Some(None),
        Some(JsonView::Number(n)) => Some(Some(n)),
        _ => None,
    }
}

/// The texts that a document, a list of texts, holds.
pub open spec fn texts_of(found: Option<JsonView>) -> Option<Seq<Seq<char>>> {
    match found {
        Some(JsonView::List(items)) => if forall|i: int|
            0 <= i < items.len() ==> text_of(Some(#[trigger] items[i])) is Some {
            Some(Seq::new(items.len(), |i: int| text_of(Some(items[i])).unwrap()))
        } else {
            None
        },
        _ => None,
    }
}

/// The ids that a document, a list of ids, holds.
pub open spec fn ids_of(found: Option<JsonView>) -> Option<Seq<u32>> {
    match found {
        Some(JsonView::List(items)) => if forall|i: int|
            0 <= i < items.len() ==> id_of(Some(#[trigger] items[i])) is Some {
            Some(Seq::new(items.len(), |i: int| id_of(Some(items[i])).unwrap()))
        } else {
            None
        },
        _ => None,
    }
}

/// The user that a document stands for.
pub open spec fn decoded_user(found: Option<JsonView>) -> Option<UserView> {
    match found {
        Some(user) => match (
            id_of(user.field("uid"@)),
            id_of(user.field("gid"@)),
            ids_of(user.field("additionalGids"@)),
        ) {
            (Some(uid), Some(gid), Some(additional_gids)) => Some(
                UserView { uid, gid, additional_gids },
            ),
            _ => None,
        },
        None => None,
    }
}

/// The process that a document stands for.
pub open spec fn decoded_process(found: Option<JsonView>) -> Option<ProcessView> {
    match found {
        Some(process) => match (
            texts_of(process.field("args"@)),
            texts_of(process.field("env"@)),
            decoded_user(process.field("user"@)),
        ) {
            (Some(args), Some(env), Some(user)) => Some(ProcessView { args, env, user }),
            _ => None,
        },
        None => None,
    }
}

/// The namespace that a document stands for.
pub open spec fn decoded_namespace(found: JsonView) -> Option<Namespace> {
    match text_of(found.field("type"@)) {
        Some(name) => match kind_of(name) {
            Some(typ) => Some(Namespace { typ }),
            None => None,
        },
        None => None,
    }
}

/// The device rule that a document stands for.
pub open spec fn decoded_device(found: JsonView) -> Option<DeviceView> {
    match (
        bool_of(found.field("allow"@)),
        text_of(found.field("type"@)),
        optional_number_of(found.field("major"@)),
        optional_number_of(found.field("minor"@)),
        text_of(found.field("access"@)),
    ) {
        (Some(allow), Some(typ), Some(major), Some(minor), Some(access)) => Some(
            DeviceView { allow, typ, major, minor, access },
        ),
        _ => None,
    }
}

/// The limits that a document stands for; none for a document that is
/// absent or null.
pub open spec fn decoded_resources(found: Option<JsonView>) -> Option<Option<ResourcesView>> {
    match found {
        None => Some(None),
        Some(JsonView::Null) => Some(None),
        Some(resources) => match resources.field("devices"@) {
            Some(JsonView::List(items)) => if forall|i: int|
                0 <= i < items.len() ==> decoded_device(#[trigger] items[i]) is Some {
                Some(
                    Some(
                        ResourcesView {
                            devices: Seq::new(
                                items.len(),
                                |i: int| decoded_device(items[i]).unwrap(),
                            ),
                        },
                    ),
                )
            } else {
                None
            },
            _ => None,
        },
    }
}

/// What concerns the kernel in a document; nothing for a document that is
/// absent or null.
pub open spec fn decoded_linux(found: Option<JsonView>) -> Option<Option<LinuxView>> {
    match found {
        None => Some(None),
        Some(JsonView::Null) => Some(None),
        Some(linux) => match (linux.field("namespaces"@), decoded_resources(linux.field("resources"@))) {
            (Some(JsonView::List(items)), Some(resources)) => if forall|i: int|
                0 <= i < items.len() ==> decoded_namespace(#[trigger] items[i]) is Some {
                Some(
                    Some(
                        LinuxView {
                            namespaces: Seq::new(
                                items.len(),
                                |i: int| decoded_namespace(items[i]).unwrap(),
                            ),
                            resources,
                        },
                    ),
                )
            } else {
                None
            },
            _ => None,
        },
    }
}

/// The configuration that a document stands for, before the rules are
/// looked at.
pub open spec fn decoded_parts(document: JsonView) -> Option<SpecView> {
    match (
        decoded_process(document.field("process"@)),
        text_of(document.field("hostname"@)),
        decoded_linux(document.field("linux"@)),
    ) {
        (Some(process), Some(hostname), Some(linux)) => Some(
            SpecView { process, hostname, linux },
        ),
        _ => None,
    }
}

/// The configuration that a document stands for. A document of another
/// shape is refused, and so is a configuration that breaks the rules.
pub open spec fn decoded_spec(document: JsonView) -> Result<SpecView, Failure> {
    match decoded_parts(document) {
        Some(spec) => if spec.valid() {
            Ok(spec)
        } else {
            Err(Failure::BadSpec)
        },
        None => Err(Failure::BadSpec),
    }
}

fn texts_to_json(items: &Vec<String>) -> (r: Json)
    ensures
        r.deep_view() == texts(items.deep_view()),
{
    let mut list: Vec<Json> = Vec::new();
    let mut i: usize = 0;
    while i < items.len()
        invariant
            i <= items.len(),
            item_views(list@) == texts(items.deep_view())->List_0.take(i as int),
        decreases items.len() - i,
    {
        push_item(&mut list, Json::text(items[i].as_str()));
        i += 1;
        assert(item_views(list@) =~= texts(items.deep_view())->List_0.take(i as int));
    }
    assert(item_views(list@) =~= texts(items.deep_view())->List_0);
    Json::list(list)
}

fn ids_to_json(items: &Vec<u32>) -> (r: Json)
    ensures
        r.deep_view() == ids(items@),
{
    let mut list: Vec<Json> = Vec::new();
    let mut i: usize = 0;
    while i < items.len()
        invariant
            i <= items.len(),
            item_views(list@) == ids(items@)->List_0.take(i as int),
        decreases items.len() - i,
    {
        push_item(&mut list, Json::Number(items[i] as i64));
        i += 1;
        assert(item_views(list@) =~= ids(items@)->List_0.take(i as int));
    }
    assert(item_views(list@) =~= ids(items@)->List_0);
    Json::list(list)
}

fn optional_number_to_json(n: Option<i64>) -> (r: Json)
    ensures
        r.deep_view() == optional_number(n),
{
    match n {
        Some(x) => Json::Number(x),
        None => Json::Null,
    }
}

fn kind_text(kind: NamespaceType) -> (r: &'static str)
    ensures
        r@ == kind_name(kind),
{
    match kind {
        NamespaceType::Pid => "pid",
        NamespaceType::Mount => "mount",
        NamespaceType::Uts => "uts",
        NamespaceType::Ipc => "ipc",
        NamespaceType::User => "user",
        NamespaceType::Cgroup => "cgroup",
        NamespaceType::Network => "network",
    }
}

impl User {
    /// The user as a document.
    pub fn to_json(&self) -> (r: Json)
        ensures
            r.deep_view() == encoded_user(self.deep_view()),
    {
        let mut members: Vec<Member> = Vec::new();
        push_member(&mut members, "uid", Json::Number(self.uid as i64));
        push_member(&mut members, "gid", Json::Number(self.gid as i64));
        push_member(&mut members, "additionalGids", ids_to_json(&self.additional_gids));
        assert(member_views(members@) =~= encoded_user(self.deep_view())->Object_0);
        Json::object(members)
    }
}

impl Process {
    /// The process as a document.
    pub fn to_json(&self) -> (r: Json)
        ensures
            r.deep_view() == encoded_process(self.deep_view()),
    {
        let mut members: Vec<Member> = Vec::new();
        push_member(&mut members, "args", texts_to_json(&self.args));
        push_member(&mut members, "env", texts_to_json(&self.env));
        push_member(&mut members, "user", self.user.to_json());
        assert(member_views(members@) =~= encoded_process(self.deep_view())->Object_0);
        Json::object(members)
    }
}

impl Namespace {
    /// The namespace as a document.
    pub fn to_json(&self) -> (r: Json)
        ensures
            r.deep_view() == encoded_namespace(*self),
    {
        let mut members: Vec<Member> = Vec::new();
        push_member(&mut members, "type", Json::text(kind_text(self.typ)));
        assert(member_views(members@) =~= encoded_namespace(*self)->Object_0);
        Json::object(members)
    }
}

impl Device {
    /// The device rule as a document.
    pub fn to_json(&self) -> (r: Json)
        ensures
            r.deep_view() == encoded_device(self.deep_view()),
    {
        let mut members: Vec<Member> = Vec::new();
        push_member(&mut members, "allow", Json::Bool(self.allow));
        push_member(&mut members, "type", Json::text(self.typ.as_str()));
        push_member(&mut members, "major", optional_number_to_json(self.major));
        push_member(&mut members, "minor", optional_number_to_json(self.minor));
        push_member(&mut members, "access", Json::text(self.access.as_str()));
        assert(member_views(members@) =~= encoded_device(self.deep_view())->Object_0);
        Json::object(members)
    }
}

impl Resources {
    /// The limits as a document.
    pub fn to_json(&self) -> (r: Json)
        ensures
            r.deep_view() == encoded_resources(Some(self.deep_view())),
    {
        let ghost devices = self.deep_view().devices;
        let ghost written = Seq::new(devices.len(), |i: int| encoded_device(devices[i]));
        let mut list: Vec<Json> = Vec::new();
        let mut i: usize = 0;
        while i < self.devices.len()
            invariant
                i <= self.devices.len(),
                devices == self.devices.deep_view(),
                devices.len() == self.devices.len(),
                written == Seq::new(devices.len(), |i: int| encoded_device(devices[i])),
                item_views(list@) == written.take(i as int),
            decreases self.devices.len() - i,
        {
            assert(devices[i as int] == self.devices@[i as int].deep_view());
            push_item(&mut list, self.devices[i].to_json());
            i += 1;
            assert(item_views(list@) =~= written.take(i as int));
        }
        assert(item_views(list@) =~= written);
        let mut members: Vec<Member> = Vec::new();
        push_member(&mut members, "devices", Json::list(list));
        assert(member_views(members@) =~= encoded_resources(Some(self.deep_view()))->Object_0);
        Json::object(members)
    }
}

impl Linux {
    /// What concerns the kernel, as a document.
    pub fn to_json(&self) -> (r: Json)
        ensures
            r.deep_view() == encoded_linux(Some(self.deep_view())),
    {
        let ghost written = Seq::new(
            self.namespaces@.len(),
            |i: int| encoded_namespace(self.namespaces@[i]),
        );
        let mut list: Vec<Json> = Vec::new();
        let mut i: usize = 0;
        while i < self.namespaces.len()
            invariant
                i <= self.namespaces.len(),
                written == Seq::new(
                    self.namespaces@.len(),
                    |i: int| encoded_namespace(self.namespaces@[i]),
                ),
                item_views(list@) == written.take(i as int),
            decreases self.namespaces.len() - i,
        {
            push_item(&mut list, self.namespaces[i].to_json());
            i += 1;
            assert(item_views(list@) =~= written.take(i as int));
        }
        assert(item_views(list@) =~= written);
        let resources = match &self.resources {
            Some(resources) => resources.to_json(),
            None => Json::Null,
        };
        let mut members: Vec<Member> = Vec::new();
        push_member(&mut members, "namespaces", Json::list(list));
        push_member(&mut members, "resources", resources);
        assert(member_views(members@) =~= encoded_linux(Some(self.deep_view()))->Object_0);
        Json::object(members)
    }
}

impl Spec {
    /// Save the configuration: the document that holds it.
    pub fn save(&self) -> (r: Json)
        ensures
            r.deep_view() == encoded_spec(self.deep_view()),
    {
        let linux = match &self.linux {
            Some(linux) => linux.to_json(),
            None => Json::Null,
        };
        let mut members: Vec<Member> = Vec::new();
        push_member(&mut members, "process", self.process.to_json());
        push_member(&mut members, "hostname", Json::text(self.hostname.as_str()));
        push_member(&mut members, "linux", linux);
        assert(member_views(members@) =~= encoded_spec(self.deep_view())->Object_0);
        Json::object(members)
    }
}

fn text_from(found: Option<&Json>) -> (r: Option<String>)
    ensures
        r.deep_view() == text_of(found.deep_view()),
{
    match found {
        Some(Json::Text(text)) => Some(text.clone()),
        _ => None,
    }
}

fn bool_from(found: Option<&Json>) -> (r: Option<bool>)
    ensures
        r == bool_of(found.deep_view()),
{
    match found {
        Some(Json::Bool(b)) => Some(*b),
        _ => None,
    }
}

fn id_from(found: Option<&Json>) -> (r: Option<u32>)
    ensures
        r == id_of(found.deep_view()),
{
    match found {
        Some(Json::Number(n)) => if 0 <= *n && *n <= 0xffff_ffff {
            Some(*n as u32)
        } else {
            None
        },
        _ => None,
    }
}

fn optional_number_from(found: Option<&Json>) -> (r: Option<Option<i64>>)
    ensures
        r == optional_number_of(found.deep_view()),
{
    match found {
        None => Some(None),
        Some(Json::Null) => Some(None),
        Some(Json::Number(n)) => Some(Some(*n)),
        _ => None,
    }
}

fn texts_from(found: Option<&Json>) -> (r: Option<Vec<String>>)
    ensures
        r.deep_view() == texts_of(found.deep_view()),
{
    match found {
        Some(Json::List(items)) => {
            proof {
                lemma_list_view(*items);
            }
            let ghost views = item_views(items@);
            let mut out: Vec<String> = Vec::new();
            let mut i: usize = 0;
            while i < items.len()
                invariant
                    i <= items.len(),
                    found.deep_view() == Some(JsonView::List(views)),
                    views == item_views(items@),
                    forall|j: int| 0 <= j < i ==> text_of(Some(#[trigger] views[j])) is Some,
                    out.deep_view() == Seq::new(
                        i as nat,
                        |j: int| text_of(Some(views[j])).unwrap(),
                    ),
                decreases items.len() - i,
            {
                assert(views[i as int] == items@[i as int].deep_view());
                match &items[i] {
                    Json::Text(text) => {
                        push_text(&mut out, text.clone());
                    },
                    _ => {
                        assert(text_of(Some(views[i as int])) is None);
                        return None;
                    },
                }
                i += 1;
                assert(out.deep_view() =~= Seq::new(
                    i as nat,
                    |j: int| text_of(Some(views[j])).unwrap(),
                ));
            }
            Some(out)
        },
        _ => None,
    }
}

fn ids_from(found: Option<&Json>) -> (r: Option<Vec<u32>>)
    ensures
        match r {
            Some(list) => ids_of(found.deep_view()) == Some(list@),
            None => ids_of(found.deep_view()) is None,
        },
{
    match found {
        Some(Json::List(items)) => {
            proof {
                lemma_list_view(*items);
            }
            let ghost views = item_views(items@);
            let mut out: Vec<u32> = Vec::new();
            let mut i: usize = 0;
            while i < items.len()
                invariant
                    i <= items.len(),
                    found.deep_view() == Some(JsonView::List(views)),
                    views == item_views(items@),
                    forall|j: int| 0 <= j < i ==> id_of(Some(#[trigger] views[j])) is Some,
                    out@ == Seq::new(i as nat, |j: int| id_of(Some(views[j])).unwrap()),
                decreases items.len() - i,
            {
                assert(views[i as int] == items@[i as int].deep_view());
                match id_from(Some(&items[i])) {
                    Some(id) => {
                        out.push(id);
                    },
                    None => {
                        return None;
                    },
                }
                i += 1;
                assert(out@ =~= Seq::new(i as nat, |j: int| id_of(Some(views[j])).unwrap()));
            }
            Some(out)
        },
        _ => None,
    }
}

fn kind_from(name: &str) -> (r: Option<NamespaceType>)
    ensures
        r == kind_of(name@),
{
    if str_eq(name, "pid") {
        Some(NamespaceType::Pid)
    } else if str_eq(name, "mount") {
        Some(NamespaceType::Mount)
    } else if str_eq(name, "uts") {
        Some(NamespaceType::Uts)
    } else if str_eq(name, "ipc") {
        Some(NamespaceType::Ipc)
    } else if str_eq(name, "user") {
        Some(NamespaceType::User)
    } else if str_eq(name, "cgroup") {
        Some(NamespaceType::Cgroup)
    } else if str_eq(name, "network") {
        Some(NamespaceType::Network)
    } else {
        None
    }
}

impl User {
    /// The user that a document stands for.
    pub fn from_json(found: Option<&Json>) -> (r: Option<User>)
        ensures
            r.deep_view() == decoded_user(found.deep_view()),
    {
        let user = match found {
            Some(user) => user,
            None => {
                return None;
            },
        };
        let uid = id_from(user.get("uid"));
        let gid = id_from(user.get("gid"));
        let additional_gids = ids_from(user.get("additionalGids"));
        match (uid, gid, additional_gids) {
            (Some(uid), Some(gid), Some(additional_gids)) => Some(
                User { uid, gid, additional_gids },
            ),
            _ => None,
        }
    }
}

impl Process {
    /// The process that a document stands for.
    pub fn from_json(found: Option<&Json>) -> (r: Option<Process>)
        ensures
            r.deep_view() == decoded_process(found.deep_view()),
    {
        let process = match found {
            Some(process) => process,
            None => {
                return None;
            },
        };
        let args = texts_from(process.get("args"));
        let env = texts_from(process.get("env"));
        let user = User::from_json(process.get("user"));
        match (args, env, user) {
            (Some(args), Some(env), Some(user)) => Some(Process { args, env, user }),
            _ => None,
        }
    }
}

impl Namespace {
    /// The namespace that a document stands for.
    pub fn from_json(found: &Json) -> (r: Option<Namespace>)
        ensures
            r == decoded_namespace(found.deep_view()),
    {
        match text_from(found.get("type")) {
            Some(name) => match kind_from(name.as_str()) {
                Some(typ) => Some(Namespace { typ }),
                None => None,
            },
            None => None,
        }
    }
}

impl Device {
    /// The device rule that a document stands for.
    pub fn from_json(found: &Json) -> (r: Option<Device>)
        ensures
            r.deep_view() == decoded_device(found.deep_view()),
    {
        let allow = bool_from(found.get("allow"));
        let typ = text_from(found.get("type"));
        let major = optional_number_from(found.get("major"));
        let minor = optional_number_from(found.get("minor"));
        let access = text_from(found.get("access"));
        match (allow, typ, major, minor, access) {
            (Some(allow), Some(typ), Some(major), Some(minor), Some(access)) => Some(
                Device { allow, typ, major, minor, access },
            ),
            _ => None,
        }
    }
}

impl Resources {
    /// The limits that a document stands for; none for a document that is
    /// absent or null.
    pub fn from_json(found: Option<&Json>) -> (r: Option<Option<Resources>>)
        ensures
            r.deep_view() == decoded_resources(found.deep_view()),
    {
        let resources = match found {
            None => {
                return Some(None);
            },
            Some(Json::Null) => {
                return Some(None);
            },
            Some(resources) => resources,
        };
        match resources.get("devices") {
            Some(Json::List(items)) => {
                proof {
                    lemma_list_view(*items);
                }
                let ghost views = item_views(items@);
                let mut devices: Vec<Device> = Vec::new();
                let mut i: usize = 0;
                while i < items.len()
                    invariant
                        i <= items.len(),
                        found.deep_view() == Some(resources.deep_view()),
                        !(resources.deep_view() is Null),
                        resources.deep_view().field("devices"@) == Some(JsonView::List(views)),
                        views == item_views(items@),
                        forall|j: int| 0 <= j < i ==> decoded_device(#[trigger] views[j]) is Some,
                        devices.deep_view() == Seq::new(
                            i as nat,
                            |j: int| decoded_device(views[j]).unwrap(),
                        ),
                    decreases items.len() - i,
                {
                    assert(views[i as int] == items@[i as int].deep_view());
                    match Device::from_json(&items[i]) {
                        Some(device) => {
                            let ghost before = devices.deep_view();
                            devices.push(device);
                            assert(devices.deep_view() =~= before.push(device.deep_view()));
                        },
                        None => {
                            return None;
                        },
                    }
                    i += 1;
                    assert(devices.deep_view() =~= Seq::new(
                        i as nat,
                        |j: int| decoded_device(views[j]).unwrap(),
                    ));
                }
                Some(Some(Resources { devices }))
            },
            _ => None,
        }
    }
}

impl Linux {
    /// What concerns the kernel in a document; nothing for a document that
    /// is absent or null.
    pub fn from_json(found: Option<&Json>) -> (r: Option<Option<Linux>>)
        ensures
            r.deep_view() == decoded_linux(found.deep_view()),
    {
        let linux = match found {
            None => {
                return Some(None);
            },
            Some(Json::Null) => {
                return Some(None);
            },
            Some(linux) => linux,
        };
        let resources = match Resources::from_json(linux.get("resources")) {
            Some(resources) => resources,
            None => {
                return None;
            },
        };
        match linux.get("namespaces") {
            Some(Json::List(items)) => {
                proof {
                    lemma_list_view(*items);
                }
                let ghost views = item_views(items@);
                let mut namespaces: Vec<Namespace> = Vec::new();
                let mut i: usize = 0;
                while i < items.len()
                    invariant
                        i <= items.len(),
                        found.deep_view() == Some(linux.deep_view()),
                        !(linux.deep_view() is Null),
                        linux.deep_view().field("namespaces"@) == Some(JsonView::List(views)),
                        decoded_resources(linux.deep_view().field("resources"@)) == Some(
                            resources.deep_view(),
                        ),
                        views == item_views(items@),
                        forall|j: int|
                            0 <= j < i ==> decoded_namespace(#[trigger] views[j]) is Some,
                        namespaces@ == Seq::new(
                            i as nat,
                            |j: int| decoded_namespace(views[j]).unwrap(),
                        ),
                    decreases items.len() - i,
                {
                    assert(views[i as int] == items@[i as int].deep_view());
                    match Namespace::from_json(&items[i]) {
                        Some(namespace) => {
                            namespaces.push(namespace);
                        },
                        None => {
                            return None;
                        },
                    }
                    i += 1;
                    assert(namespaces@ =~= Seq::new(
                        i as nat,
                        |j: int| decoded_namespace(views[j]).unwrap(),
                    ));
                }
                Some(Some(Linux { namespaces, resources }))
            },
            _ => None,
        }
    }
}

impl Spec {
    /// Load a configuration: the one that the document holds. A document
    /// of another shape is refused, and so is a configuration that breaks
    /// the rules.
    pub fn load(document: &Json) -> (r: Result<Spec, Failure>)
        ensures
            match decoded_spec(document.deep_view()) {
                Ok(spec) => r matches Ok(s) && s.deep_view() == spec,
                Err(e) => r == Err::<Spec, Failure>(e),
            },
    {
        let process = Process::from_json(document.get("process"));
        let hostname = text_from(document.get("hostname"));
        let linux = Linux::from_json(document.get("linux"));
        match (process, hostname, linux) {
            (Some(process), Some(hostname), Some(linux)) => {
                let spec = Spec { process, hostname, linux };
                proof {
                    spec.lemma_well_formed_is_valid();
                }
                if spec.is_well_formed() {
                    Ok(spec)
                } else {
                    Err(Failure::BadSpec)
                }
            },
            _ => Err(Failure::BadSpec),
        }
    }
}

/// The names of the kinds of namespace differ, so that each kind is read
/// as it was written.
pub proof fn lemma_kind_round_trip(kind: NamespaceType)
    ensures
        kind_of(kind_name(kind)) == Some(kind),
{
    reveal_strlit("pid");
    reveal_strlit("mount");
    reveal_strlit("uts");
    reveal_strlit("ipc");
    reveal_strlit("user");
    reveal_strlit("cgroup");
    reveal_strlit("network");
    assert("pid"@[0] == 'p' && "uts"@[0] == 'u' && "ipc"@[0] == 'i');
    assert("pid"@.len() == 3 && "uts"@.len() == 3 && "ipc"@.len() == 3);
    assert("mount"@.len() == 5 && "user"@.len() == 4 && "cgroup"@.len() == 6 && "network"@.len()
        == 7);
}

/// A list of texts is read as it was written.
pub proof fn lemma_texts_round_trip(items: Seq<Seq<char>>)
    ensures
        texts_of(Some(texts(items))) == Some(items),
{
    let written = texts(items)->List_0;
    assert forall|i: int| 0 <= i < written.len() implies text_of(Some(#[trigger] written[i]))
        is Some by {}
    assert(Seq::new(written.len(), |i: int| text_of(Some(written[i])).unwrap()) =~= items);
}

/// A list of ids is read as it was written.
pub proof fn lemma_ids_round_trip(items: Seq<u32>)
    ensures
        ids_of(Some(ids(items))) == Some(items),
{
    let written = ids(items)->List_0;
    assert forall|i: int| 0 <= i < written.len() implies id_of(Some(#[trigger] written[i]))
        is Some by {}
    assert(Seq::new(written.len(), |i: int| id_of(Some(written[i])).unwrap()) =~= items);
}

/// A user is read as it was written.
pub proof fn lemma_user_round_trip(user: UserView)
    ensures
        decoded_user(Some(encoded_user(user))) == Some(user),
{
    reveal_strlit("uid");
    reveal_strlit("gid");
    reveal_strlit("additionalGids");
    reveal_with_fuel(member, 4);
    lemma_ids_round_trip(user.additional_gids);
    let written = encoded_user(user);
    assert("uid"@[0] == 'u' && "gid"@[0] == 'g');
    assert(written.field("uid"@) == Some(JsonView::Number(user.uid as i64)));
    assert(written.field("gid"@) == Some(JsonView::Number(user.gid as i64)));
    assert(written.field("additionalGids"@) == Some(ids(user.additional_gids)));
}

/// A process is read as it was written.
pub proof fn lemma_process_round_trip(process: ProcessView)
    ensures
        decoded_process(Some(encoded_process(process))) == Some(process),
{
    reveal_strlit("args");
    reveal_strlit("env");
    reveal_strlit("user");
    reveal_with_fuel(member, 4);
    lemma_texts_round_trip(process.args);
    lemma_texts_round_trip(process.env);
    lemma_user_round_trip(process.user);
    let written = encoded_process(process);
    assert("args"@.len() == 4 && "env"@.len() == 3 && "user"@.len() == 4);
    assert("args"@[0] == 'a' && "user"@[0] == 'u');
    assert(written.field("args"@) == Some(texts(process.args)));
    assert(written.field("env"@) == Some(texts(process.env)));
    assert(written.field("user"@) == Some(encoded_user(process.user)));
}

/// A namespace is read as it was written.
pub proof fn lemma_namespace_round_trip(namespace: Namespace)
    ensures
        decoded_namespace(encoded_namespace(namespace)) == Some(namespace),
{
    reveal_with_fuel(member, 2);
    lemma_kind_round_trip(namespace.typ);
}

/// A device rule is read as it was written.
pub proof fn lemma_device_round_trip(device: DeviceView)
    ensures
        decoded_device(encoded_device(device)) == Some(device),
{
    reveal_strlit("allow");
    reveal_strlit("type");
    reveal_strlit("major");
    reveal_strlit("minor");
    reveal_strlit("access");
    reveal_with_fuel(member, 6);
    let written = encoded_device(device);
    assert("allow"@[1] == 'l' && "access"@[1] == 'c');
    assert("major"@[1] == 'a' && "minor"@[1] == 'i' && "allow"@[0] == 'a' && "major"@[0] == 'm');
    assert(written.field("allow"@) == Some(JsonView::Bool(device.allow)));
    assert(written.field("type"@) == Some(JsonView::Text(device.typ)));
    assert(written.field("major"@) == Some(optional_number(device.major)));
    assert(written.field("minor"@) == Some(optional_number(device.minor)));
    assert(written.field("access"@) == Some(JsonView::Text(device.access)));
}

/// Limits are read as they were written.
pub proof fn lemma_resources_round_trip(resources: Option<ResourcesView>)
    ensures
        decoded_resources(Some(encoded_resources(resources))) == Some(resources),
{
    reveal_with_fuel(member, 2);
    match resources {
        None => {},
        Some(r) => {
            let items = Seq::new(r.devices.len(), |i: int| encoded_device(r.devices[i]));
            assert(encoded_resources(resources).field("devices"@) == Some(JsonView::List(items)));
            assert forall|i: int| 0 <= i < items.len() implies decoded_device(
                #[trigger] items[i],
            ) == Some(r.devices[i]) by {
                lemma_device_round_trip(r.devices[i]);
            }
            assert(Seq::new(items.len(), |i: int| decoded_device(items[i]).unwrap())
                =~= r.devices);
        },
    }
}

/// What concerns the kernel is read as it was written.
pub proof fn lemma_linux_round_trip(linux: Option<LinuxView>)
    ensures
        decoded_linux(Some(encoded_linux(linux))) == Some(linux),
{
    reveal_strlit("namespaces");
    reveal_strlit("resources");
    reveal_with_fuel(member, 3);
    match linux {
        None => {},
        Some(l) => {
            let items = Seq::new(l.namespaces.len(), |i: int| encoded_namespace(l.namespaces[i]));
            let written = encoded_linux(linux);
            assert("namespaces"@.len() == 10 && "resources"@.len() == 9);
            assert(written.field("namespaces"@) == Some(JsonView::List(items)));
            assert(written.field("resources"@) == Some(encoded_resources(l.resources)));
            lemma_resources_round_trip(l.resources);
            assert forall|i: int| 0 <= i < items.len() implies decoded_namespace(
                #[trigger] items[i],
            ) == Some(l.namespaces[i]) by {
                lemma_namespace_round_trip(l.namespaces[i]);
            }
            assert(Seq::new(items.len(), |i: int| decoded_namespace(items[i]).unwrap())
                =~= l.namespaces);
        },
    }
}

/// A configuration that keeps the rules is read from its document as it
/// was written to it.
pub proof fn lemma_spec_round_trip(spec: SpecView)
    requires
        spec.valid(),
    ensures
        decoded_spec(encoded_spec(spec)) == Ok::<SpecView, Failure>(spec),
{
    reveal_strlit("process");
    reveal_strlit("hostname");
    reveal_strlit("linux");
    reveal_with_fuel(member, 4);
    lemma_process_round_trip(spec.process);
    lemma_linux_round_trip(spec.linux);
    let written = encoded_spec(spec);
    assert("process"@.len() == 7 && "hostname"@.len() == 8 && "linux"@.len() == 5);
    assert(written.field("process"@) == Some(encoded_process(spec.process)));
    assert(written.field("hostname"@) == Some(JsonView::Text(spec.hostname)));
    assert(written.field("linux"@) == Some(encoded_linux(spec.linux)));
}

} // verus!
