//! The profile resolver: finding the caller's profile identifier in whatever
//! document the profile listing sends.
//!
//! The portal does not fix the shape of that document, so the search looks
//! through wrapping objects for the first one that names an `id`.
use crate::json::{lemma_members_view, Json, JsonView};
use crate::text::same_text;
use vstd::prelude::*;

verus! {

/// The name of the member that holds an identifier.
pub open spec fn id_name() -> Seq<char> {
    "id"@
}

/// The value of the first of `members`, from position `from` on, that is named
/// `name`.
pub open spec fn member_named(
    members: Seq<(Seq<char>, JsonView)>,
    name: Seq<char>,
    from: int,
) -> Option<JsonView>
    decreases members.len() - from,
{
    if 0 <= from < members.len() {
        if members[from].0 == name {
            Some(members[from].1)
        } else {
            member_named(members, name, from + 1)
        }
    } else {
        None
    }
}

/// The identifier that `value` names itself: the text of its member `id` where
/// `value` is an object and that member is a text or a number.
pub open spec fn own_id(value: JsonView) -> Option<Seq<char>> {
    match value {
        JsonView::Object(members) => match member_named(members, id_name(), 0) {
            Some(JsonView::Text(text)) => Some(text),
            Some(JsonView::Number(digits)) => Some(digits),
            _ => None,
        },
        _ => None,
    }
}

/// The profile identifier in `value`.
///
/// In an object it is the first one found in a member's value, the members
/// taken in their order, and failing that the object's own. In an array it is
/// the first element's own and no other. Any other value has none.
pub open spec fn profile_id_in(value: JsonView) -> Option<Seq<char>>
    decreases value, 0int,
{
    match value {
        JsonView::Object(members) => match first_in_members(members, 0) {
            Some(id) => Some(id),
            None => own_id(value),
        },
        JsonView::Array(items) => if items.len() > 0 {
            own_id(items[0])
        } else {
            None
        },
        _ => None,
    }
}

/// The profile identifier in the first of `members`, from position `from` on,
/// whose value holds one.
pub open spec fn first_in_members(members: Seq<(Seq<char>, JsonView)>, from: int) -> Option<
    Seq<char>,
>
    decreases members, members.len() - from,
{
    if 0 <= from < members.len() {
        match profile_id_in(members[from].1) {
            Some(id) => Some(id),
            None => first_in_members(members, from + 1),
        }
    } else {
        None
    }
}

/// The identifier that `value` names itself, if it names one.
pub fn extract_id(value: &Json) -> (id: Option<String>)
    ensures
        id.deep_view() == own_id(value@),
{
    match value {
        Json::Object(members) => {
            let ghost all = value@->Object_0;
            proof {
                lemma_members_view(members@, members@.len());
            }
            let mut at: usize = 0;
            while at < members.len()
                invariant
                    at <= members.len(),
                    value@ == JsonView::Object(all),
                    all.len() == members.len(),
                    forall|i: int|
                        0 <= i < members.len() ==> #[trigger] all[i] == (
                            members[i].0@,
                            members[i].1@,
                        ),
                    member_named(all, id_name(), 0) == member_named(all, id_name(), at as int),
                decreases members.len() - at,
            {
                if same_text(members[at].0.as_str(), "id") {
                    assert(all[at as int].0 == id_name());
                    return match &members[at].1 {
                        Json::Text(text) => Some(text.clone()),
                        Json::Number(digits) => Some(digits.clone()),
                        _ => None,
                    };
                }
                assert(all[at as int].0 != id_name());
                at = at + 1;
            }
            None
        },
        _ => None,
    }
}

/// The profile identifier in `value`, if it holds one.
pub fn find_profile_id(value: &Json) -> (id: Option<String>)
    ensures
        id.deep_view() == profile_id_in(value@),
    decreases value,
{
    match value {
        Json::Object(members) => {
            let ghost all = value@->Object_0;
            proof {
                lemma_members_view(members@, members@.len());
            }
            let mut at: usize = 0;
            while at < members.len()
                invariant
                    at <= members.len(),
                    *value == Json::Object(*members),
                    value@ == JsonView::Object(all),
                    all.len() == members.len(),
                    forall|i: int|
                        0 <= i < members.len() ==> #[trigger] all[i] == (
                            members[i].0@,
                            members[i].1@,
                        ),
                    first_in_members(all, 0) == first_in_members(all, at as int),
                decreases members.len() - at,
            {
                let found = find_profile_id(&members[at].1);
                assert(all[at as int].1 == members[at as int].1@);
                if found.is_some() {
                    return found;
                }
                at = at + 1;
            }
            extract_id(value)
        },
        Json::Array(items) => {
            if items.len() > 0 {
                proof {
                    crate::json::lemma_items_view(items@, items@.len());
                }
                extract_id(&items[0])
            } else {
                None
            }
        },
        _ => None,
    }
}

} // verus!
