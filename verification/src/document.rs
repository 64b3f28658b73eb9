//! JSON documents as trees.

use vstd::prelude::*;

verus! {

/// A JSON document.
#[derive(Debug, PartialEq, Eq)]
pub enum Json {
    Null,
    Bool(bool),
    /// A whole number.
    Number(i64),
    Text(String),
    List(Vec<Json>),
    /// The members of an object, in their order.
    Object(Vec<Member>),
}

/// A member of an object.
#[derive(Debug, PartialEq, Eq)]
pub struct Member {
    pub key: String,
    pub value: Json,
}

/// A JSON document, with its texts as sequences of characters.
pub enum JsonView {
    Null,
    Bool(bool),
    Number(i64),
    Text(Seq<char>),
    List(Seq<JsonView>),
    Object(Seq<(Seq<char>, JsonView)>),
}

impl DeepView for Json {
    type V = JsonView;

    open spec fn deep_view(&self) -> JsonView {
        self.tree()
    }
}

impl Json {
    /// The document with its texts as sequences of characters.
    pub open spec fn tree(&self) -> JsonView
        decreases self,
    {
        match self {
            Json::Null => JsonView::Null,
            Json::Bool(b) => JsonView::Bool(*b),
            Json::Number(n) => JsonView::Number(*n),
            Json::Text(s) => JsonView::Text(s@),
            Json::List(items) => JsonView::List(
                Seq::new(
                    items@.len(),
                    |i: int|
                        if 0 <= i < items@.len() {
                            items@[i].tree()
                        } else {
                            JsonView::Null
                        },
                ),
            ),
            Json::Object(members) => JsonView::Object(
                Seq::new(
                    members@.len(),
                    |i: int|
                        if 0 <= i < members@.len() {
                            (members@[i].key@, members@[i].value.tree())
                        } else {
                            (Seq::empty(), JsonView::Null)
                        },
                ),
            ),
        }
    }
}

/// The views of the documents `items`.
pub open spec fn item_views(items: Seq<Json>) -> Seq<JsonView> {
    Seq::new(items.len(), |i: int| items[i].deep_view())
}

/// The views of the members `members`.
pub open spec fn member_views(members: Seq<Member>) -> Seq<(Seq<char>, JsonView)> {
    Seq::new(members.len(), |i: int| (members[i].key@, members[i].value.deep_view()))
}

/// The view of a list is the list of the views.
pub proof fn lemma_list_view(items: Vec<Json>)
    ensures
        Json::List(items).deep_view() == JsonView::List(item_views(items@)),
{
    let view = Json::List(items).deep_view();
    assert(view is List);
    assert(view->List_0.len() == items@.len());
    assert forall|i: int| 0 <= i < items@.len() implies view->List_0[i]
        == items@[i].deep_view() by {
        reveal_with_fuel(Json::tree, 2);
    }
    assert(view->List_0 =~= item_views(items@));
}

/// The view of an object is the object of the views.
pub proof fn lemma_object_view(members: Vec<Member>)
    ensures
        Json::Object(members).deep_view() == JsonView::Object(member_views(members@)),
{
    let view = Json::Object(members).deep_view();
    assert(view is Object);
    assert(view->Object_0.len() == members@.len());
    assert forall|i: int| 0 <= i < members@.len() implies view->Object_0[i] == (
        members@[i].key@,
        members@[i].value.deep_view(),
    ) by {
        reveal_with_fuel(Json::tree, 2);
    }
    assert(view->Object_0 =~= member_views(members@));
}

/// What the members hold under `key`: the value of the first member of
/// that name.
pub open spec fn member(members: Seq<(Seq<char>, JsonView)>, key: Seq<char>) -> Option<JsonView>
    decreases members.len(),
{
    if members.len() == 0 {
        None
    } else if members[0].0 == key {
        Some(members[0].1)
    } else {
        member(members.skip(1), key)
    }
}

impl JsonView {
    /// What the document, an object, holds under `key`.
    pub open spec fn field(self, key: Seq<char>) -> Option<JsonView> {
        match self {
            JsonView::Object(members) => member(members, key),
            _ => None,
        }
    }
}

/// Where none of the first `i` members has the name `key`, the search goes
/// on behind them.
pub proof fn lemma_member_skip(members: Seq<(Seq<char>, JsonView)>, key: Seq<char>, i: int)
    requires
        0 <= i <= members.len(),
        forall|j: int| 0 <= j < i ==> members[j].0 != key,
    ensures
        member(members, key) == member(members.skip(i), key),
    decreases i,
{
    if i == 0 {
        assert(members.skip(0) =~= members);
    } else {
        lemma_member_skip(members.skip(1), key, i - 1);
        assert(members.skip(1).skip(i - 1) =~= members.skip(i));
    }
}

/// Put `item` behind the documents of `items`.
pub fn push_item(items: &mut Vec<Json>, item: Json)
    ensures
        item_views(final(items)@) == item_views(old(items)@).push(item.deep_view()),
{
    items.push(item);
    assert(item_views(items@) =~= item_views(old(items)@).push(item.deep_view()));
}

/// Put the member `key` with `value` behind the members of `members`.
pub fn push_member(members: &mut Vec<Member>, key: &str, value: Json)
    ensures
        member_views(final(members)@) == member_views(old(members)@).push(
            (key@, value.deep_view()),
        ),
{
    members.push(Member { key: String::from_str(key), value });
    assert(member_views(members@) =~= member_views(old(members)@).push(
        (key@, value.deep_view()),
    ));
}

impl Json {
    /// The document that is the text `text`.
    pub fn text(text: &str) -> (r: Json)
        ensures
            r.deep_view() == JsonView::Text(text@),
    {
        Json::Text(String::from_str(text))
    }

    /// The document that is the list of `items`.
    pub fn list(items: Vec<Json>) -> (r: Json)
        ensures
            r.deep_view() == JsonView::List(item_views(items@)),
    {
        proof {
            lemma_list_view(items);
        }
        Json::List(items)
    }

    /// The document that is the object of `members`.
    pub fn object(members: Vec<Member>) -> (r: Json)
        ensures
            r.deep_view() == JsonView::Object(member_views(members@)),
    {
        proof {
            lemma_object_view(members);
        }
        Json::Object(members)
    }

    /// The members of the document, where it is an object.
    pub open spec fn members_view(&self) -> Seq<(Seq<char>, JsonView)> {
        match self.deep_view() {
            JsonView::Object(members) => members,
            _ => Seq::empty(),
        }
    }

    /// What the document, an object, holds under `key`.
    pub fn get(&self, key: &str) -> (r: Option<&Json>)
        ensures
            r.deep_view() == self.deep_view().field(key@),
    {
        match self {
            Json::Object(members) => {
                let ghost views = self.members_view();
                proof {
                    lemma_object_view(*members);
                }
                let mut i: usize = 0;
                while i < members.len()
                    invariant
                        i <= members.len(),
                        self.deep_view() == JsonView::Object(views),
                        views.len() == members@.len(),
                        forall|j: int|
                            0 <= j < members@.len() ==> views[j] == (
                                members@[j].key@,
                                members@[j].value.deep_view(),
                            ),
                        forall|j: int| 0 <= j < i ==> views[j].0 != key@,
                    decreases members.len() - i,
                {
                    if crate::text::str_eq(members[i].key.as_str(), key) {
                        proof {
                            lemma_member_skip(views, key@, i as int);
                            assert(views.skip(i as int)[0] == views[i as int]);
                        }
                        return Some(&members[i].value);
                    }
                    i += 1;
                }
                proof {
                    lemma_member_skip(views, key@, members.len() as int);
                }
                None
            },
            _ => None,
        }
    }
}

} // verus!
