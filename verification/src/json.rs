//! JSON documents as the portal sends them, held as plain values.
use vstd::prelude::*;

verus! {

/// A JSON value.
///
/// A number is held as its decimal text. The members of an object keep the
/// order in which they were given; where a name stands twice, a reader takes
/// the first.
#[derive(Debug, PartialEq, Eq)]
pub enum Json {
    Null,
    Bool(bool),
    Number(String),
    Text(String),
    Array(Vec<Json>),
    Object(Vec<(String, Json)>),
}

/// What a [`Json`] value holds.
pub enum JsonView {
    Null,
    Bool(bool),
    Number(Seq<char>),
    Text(Seq<char>),
    Array(Seq<JsonView>),
    Object(Seq<(Seq<char>, JsonView)>),
}

/// What `value` holds.
pub open spec fn json_view(value: Json) -> JsonView
    decreases value, 0nat,
{
    match value {
        Json::Null => JsonView::Null,
        Json::Bool(flag) => JsonView::Bool(flag),
        Json::Number(digits) => JsonView::Number(digits@),
        Json::Text(text) => JsonView::Text(text@),
        Json::Array(items) => JsonView::Array(items_view(items@, items@.len())),
        Json::Object(members) => JsonView::Object(members_view(members@, members@.len())),
    }
}

/// What the first `count` of `items` hold, in their order.
pub open spec fn items_view(items: Seq<Json>, count: nat) -> Seq<JsonView>
    decreases items, count,
{
    if 0 < count <= items.len() {
        items_view(items, (count - 1) as nat).push(json_view(items[count - 1]))
    } else {
        Seq::empty()
    }
}

/// The names of the first `count` of `members` and what their values hold, in
/// their order.
pub open spec fn members_view(members: Seq<(String, Json)>, count: nat) -> Seq<
    (Seq<char>, JsonView),
>
    decreases members, count,
{
    if 0 < count <= members.len() {
        members_view(members, (count - 1) as nat).push(
            (members[count - 1].0@, json_view(members[count - 1].1)),
        )
    } else {
        Seq::empty()
    }
}

impl View for Json {
    type V = JsonView;

    open spec fn view(&self) -> JsonView {
        json_view(*self)
    }
}

/// The view of a list of items holds the view of each, one for one.
pub proof fn lemma_items_view(items: Seq<Json>, count: nat)
    requires
        count <= items.len(),
    ensures
        items_view(items, count).len() == count,
        forall|i: int| 0 <= i < count ==> #[trigger] items_view(items, count)[i] == items[i]@,
    decreases count,
{
    if count > 0 {
        lemma_items_view(items, (count - 1) as nat);
    }
}

/// The view of a list of members holds each name and the view of its value,
/// one for one.
pub proof fn lemma_members_view(members: Seq<(String, Json)>, count: nat)
    requires
        count <= members.len(),
    ensures
        members_view(members, count).len() == count,
        forall|i: int|
            0 <= i < count ==> #[trigger] members_view(members, count)[i] == (
                members[i].0@,
                members[i].1@,
            ),
    decreases count,
{
    if count > 0 {
        lemma_members_view(members, (count - 1) as nat);
    }
}

} // verus!
