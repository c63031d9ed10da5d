//! JSON values as far as replies of a backend are read.

use vstd::prelude::*;

use crate::text;

verus! {

/// A JSON value.
pub enum Json {
    Null,
    Bool(bool),
    /// A number, as it is written.
    Number(String),
    Text(String),
    Array(Vec<Json>),
    /// The members of an object, by name.
    Object(Vec<(String, Json)>),
}

/// The value of the first member called `key`.
pub open spec fn member_of(members: Seq<(String, Json)>, key: Seq<char>) -> Option<Json>
    decreases members.len(),
{
    if members.len() == 0 {
        None
    } else if members.first().0@ == key {
        Some(members.first().1)
    } else {
        member_of(members.drop_first(), key)
    }
}

/// The text under `key` in each of the items that are objects and have a text there, in order.
pub open spec fn texts_under(items: Seq<Json>, key: Seq<char>) -> Seq<Seq<char>>
    decreases items.len(),
{
    if items.len() == 0 {
        Seq::empty()
    } else {
        let before = texts_under(items.drop_last(), key);
        match items.last().text_under(key) {
            Some(t) => before.push(t),
            None => before,
        }
    }
}

impl Json {
    /// The member called `key`, in an object that has one.
    pub open spec fn member_spec(self, key: Seq<char>) -> Option<Json> {
        match self {
            Json::Object(members) => member_of(members@, key),
            _ => None,
        }
    }

    /// The text under `key`, in an object that has one there.
    pub open spec fn text_under(self, key: Seq<char>) -> Option<Seq<char>> {
        match self.member_spec(key) {
            Some(Json::Text(t)) => Some(t@),
            _ => None,
        }
    }

    /// The texts under `name` in the items of the array under `list`.
    pub open spec fn listed(self, list: Seq<char>, name: Seq<char>) -> Seq<Seq<char>> {
        match self.member_spec(list) {
            Some(Json::Array(items)) => texts_under(items@, name),
            _ => Seq::empty(),
        }
    }

    /// The member called `key`, in an object that has one.
    pub fn member(&self, key: &str) -> (r: Option<&Json>)
        ensures
            r matches Some(v) ==> self.member_spec(key@) == Some(*v),
            r is None ==> self.member_spec(key@) is None,
    {
        match self {
            Json::Object(members) => {
                let mut i: usize = 0;
                assert(members@.skip(0) == members@);
                while i < members.len()
                    invariant
                        i <= members@.len(),
                        *self == Json::Object(*members),
                        member_of(members@, key@) == member_of(members@.skip(i as int), key@),
                    decreases members@.len() - i,
                {
                    proof {
                        let rest = members@.skip(i as int);
                        assert(rest.first() == members@[i as int]);
                        assert(rest.drop_first() == members@.skip(i + 1));
                    }
                    if text::same(members[i].0.as_str(), key) {
                        return Some(&members[i].1);
                    }
                    i = i + 1;
                }
                None
            },
            _ => None,
        }
    }

    /// The texts under `name` in the items of the array under `list`. Items without such a text
    /// are passed over.
    pub fn list(&self, list: &str, name: &str) -> (r: Vec<String>)
        ensures
            text::texts(r@) == self.listed(list@, name@),
    {
        let mut out: Vec<String> = Vec::new();
        if let Some(Json::Array(items)) = self.member(list) {
            let mut i: usize = 0;
            assert(text::texts(out@) == texts_under(items@.take(0), name@));
            while i < items.len()
                invariant
                    i <= items@.len(),
                    text::texts(out@) == texts_under(items@.take(i as int), name@),
                decreases items@.len() - i,
            {
                let ghost done = text::texts(out@);
                proof {
                    let next = items@.take(i + 1);
                    assert(next.drop_last() == items@.take(i as int));
                    assert(next.last() == items@[i as int]);
                }
                if let Some(Json::Text(t)) = items[i].member(name) {
                    out.push(t.clone());
                    assert(text::texts(out@) == done.push(t@));
                }
                i = i + 1;
            }
            assert(items@.take(items@.len() as int) == items@);
        } else {
            assert(text::texts(out@) == Seq::<Seq<char>>::empty());
        }
        out
    }
}

} // verus!
