//! JSON documents and their mathematical value.

use crate::text::same_text;
use vstd::prelude::*;

verus! {

/// The mathematical value of a JSON document.
pub enum JsonView {
    Null,
    Bool(bool),
    Number(Seq<char>),
    Text(Seq<char>),
    Array(Seq<JsonView>),
    Object(Seq<MemberView>),
}

/// One member of an object: a key and the value under it.
pub struct MemberView {
    pub key: Seq<char>,
    pub value: JsonView,
}

/// A JSON document.
///
/// A number is kept as its decimal text. An object keeps its members in
/// order; where a key is repeated, the first occurrence is the member.
#[derive(Debug, PartialEq, Eq)]
pub enum Json {
    Null,
    Bool(bool),
    Number(String),
    Text(String),
    Array(Vec<Json>),
    Object(Vec<(String, Json)>),
}

impl View for Json {
    type V = JsonView;

    open spec fn view(&self) -> JsonView
        decreases self,
    {
        match self {
            Json::Null => JsonView::Null,
            Json::Bool(b) => JsonView::Bool(*b),
            Json::Number(n) => JsonView::Number(n@),
            Json::Text(s) => JsonView::Text(s@),
            Json::Array(items) => JsonView::Array(
                Seq::new(
                    items@.len(),
                    |i: int|
                        if 0 <= i < items@.len() {
                            items@[i].view()
                        } else {
                            JsonView::Null
                        },
                ),
            ),
            Json::Object(members) => JsonView::Object(
                Seq::new(
                    members@.len(),
                    |i: int|
                        if 0 <= i < members@.len() {
                            MemberView { key: members@[i].0@, value: members@[i].1.view() }
                        } else {
                            MemberView { key: Seq::empty(), value: JsonView::Null }
                        },
                ),
            ),
        }
    }
}

/// The value under `key` among `members`: that of the first member with
/// this key, if there is one.
pub open spec fn lookup(members: Seq<MemberView>, key: Seq<char>) -> Option<JsonView>
    decreases members.len(),
{
    if members.len() == 0 {
        None
    } else if members[0].key == key {
        Some(members[0].value)
    } else {
        lookup(members.drop_first(), key)
    }
}

impl JsonView {
    /// The member `key` of an object; nothing else has members.
    pub open spec fn member(self, key: Seq<char>) -> Option<JsonView> {
        match self {
            JsonView::Object(members) => lookup(members, key),
            _ => None,
        }
    }

    /// The characters of a text value; nothing else has any.
    pub open spec fn text(self) -> Option<Seq<char>> {
        match self {
            JsonView::Text(s) => Some(s),
            _ => None,
        }
    }
}

/// `lookup` finds a value exactly where some member has the key and no
/// member before it does.
pub proof fn lemma_lookup_is_first_match(members: Seq<MemberView>, key: Seq<char>)
    ensures
        match lookup(members, key) {
            Some(v) => exists|i: int|
                0 <= i < members.len() && #[trigger] members[i] == (MemberView { key, value: v })
                    && forall|j: int| 0 <= j < i ==> (#[trigger] members[j]).key != key,
            None => forall|i: int| 0 <= i < members.len() ==> (#[trigger] members[i]).key != key,
        },
    decreases members.len(),
{
    if members.len() == 0 {
    } else if members[0].key == key {
        assert(members[0] == (MemberView { key, value: members[0].value }));
    } else {
        let rest = members.drop_first();
        lemma_lookup_is_first_match(rest, key);
        match lookup(rest, key) {
            Some(v) => {
                let i = choose|i: int|
                    0 <= i < rest.len() && #[trigger] rest[i] == (MemberView { key, value: v })
                        && forall|j: int| 0 <= j < i ==> (#[trigger] rest[j]).key != key;
                assert(members[i + 1] == rest[i]);
                assert forall|j: int| 0 <= j < i + 1 implies (#[trigger] members[j]).key
                    != key by {
                    if j > 0 {
                        assert(rest[j - 1] == members[j]);
                    }
                }
            },
            None => {
                assert forall|i: int| 0 <= i < members.len() implies (#[trigger] members[i]).key
                    != key by {
                    if i > 0 {
                        assert(rest[i - 1] == members[i]);
                    }
                }
            },
        }
    }
}

impl Json {
    /// The member `key` of this document, if it is an object that has one.
    pub fn get(&self, key: &str) -> (r: Option<&Json>)
        ensures
            match r {
                Some(m) => self@.member(key@) == Some(m@),
                None => self@.member(key@) is None,
            },
    {
        match self {
            Json::Object(members) => {
                let n: usize = members.len();
                let mut i: usize = 0;
                proof {
                    let all = self@->Object_0;
                    assert(all.skip(0) =~= all);
                }
                while i < n
                    invariant
                        i <= n,
                        n == members@.len(),
                        self@ matches JsonView::Object(all) && all.len() == n && lookup(
                            all,
                            key@,
                        ) == lookup(all.skip(i as int), key@) && forall|k: int|
                            0 <= k < n ==> all[k] == (MemberView {
                                key: members@[k].0@,
                                value: members@[k].1@,
                            }),
                    decreases n - i,
                {
                    let ghost all = self@->Object_0;
                    proof {
                        assert(all.skip(i as int)[0] == all[i as int]);
                        assert(all.skip(i as int).drop_first() =~= all.skip(i as int + 1));
                    }
                    if same_text(members[i].0.as_str(), key) {
                        return Some(&members[i].1);
                    }
                    i = i + 1;
                }
                None
            },
            _ => None,
        }
    }

    /// The characters of this document, if it is a text value.
    pub fn as_str(&self) -> (r: Option<&str>)
        ensures
            match r {
                Some(s) => self@.text() == Some(s@),
                None => self@.text() is None,
            },
    {
        match self {
            Json::Text(s) => Some(s.as_str()),
            _ => None,
        }
    }
}

} // verus!
