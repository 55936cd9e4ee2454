use vstd::prelude::*;

verus! {

/// A JSON document as the bridge exchanges it with both services. A number
/// keeps its decimal text, since the bridge only ever passes numbers along.
pub enum Json {
    Null,
    Bool(bool),
    Number(String),
    Str(String),
    Array(Vec<Json>),
    Object(Vec<(String, Json)>),
}

/// The value of the first member named `key`.
pub open spec fn member(members: Seq<(String, Json)>, key: Seq<char>) -> Option<Json>
    decreases members.len(),
{
    if members.len() == 0 {
        None
    } else if members[0].0@ == key {
        Some(members[0].1)
    } else {
        member(members.drop_first(), key)
    }
}

/// `v[key]`: the member of an object; nothing for any other kind of value.
pub open spec fn field(v: Json, key: Seq<char>) -> Option<Json> {
    match v {
        Json::Object(members) => member(members@, key),
        _ => None,
    }
}

/// `v` is the string `t`.
pub open spec fn is_str(v: Json, t: Seq<char>) -> bool {
    match v {
        Json::Str(s) => s@ == t,
        _ => false,
    }
}

/// `v[key]` read as a string.
pub open spec fn str_field(v: Json, key: Seq<char>) -> Option<String> {
    match field(v, key) {
        Some(Json::Str(s)) => Some(s),
        _ => None,
    }
}

/// `v[outer][inner]` read as a string.
pub open spec fn nested_str_field(v: Json, outer: Seq<char>, inner: Seq<char>) -> Option<String> {
    match field(v, outer) {
        Some(o) => str_field(o, inner),
        None => None,
    }
}

proof fn lemma_member_skip(members: Seq<(String, Json)>, i: int, key: Seq<char>)
    requires
        0 <= i < members.len(),
        members[i].0@ != key,
    ensures
        member(members.subrange(i, members.len() as int), key) == member(
            members.subrange(i + 1, members.len() as int),
            key,
        ),
{
    assert(members.subrange(i, members.len() as int).drop_first() =~= members.subrange(
        i + 1,
        members.len() as int,
    ));
}

impl Json {
    /// The member named `key`, where `self` is an object that has one.
    pub fn get(&self, key: &String) -> (r: Option<&Json>)
        ensures
            match r {
                Some(x) => field(*self, key@) == Some(*x),
                None => field(*self, key@) is None,
            },
    {
        match self {
            Json::Object(members) => {
                let mut i: usize = 0;
                assert(members@.subrange(0, members@.len() as int) =~= members@);
                while i < members.len()
                    invariant
                        0 <= i <= members@.len(),
                        field(*self, key@) == member(members@, key@),
                        member(members@, key@) == member(
                            members@.subrange(i as int, members@.len() as int),
                            key@,
                        ),
                    decreases members@.len() - i,
                {
                    if members[i].0 == *key {
                        let ghost rest = members@.subrange(i as int, members@.len() as int);
                        assert(rest.len() > 0 && rest[0] == members@[i as int]);
                        assert(member(rest, key@) == Some(members@[i as int].1));
                        return Some(&members[i].1);
                    }
                    proof {
                        lemma_member_skip(members@, i as int, key@);
                    }
                    i = i + 1;
                }
                assert(members@.subrange(i as int, members@.len() as int).len() == 0);
                None
            },
            _ => None,
        }
    }

    /// The member named `key` when it is a string.
    pub fn get_str(&self, key: &String) -> (r: Option<String>)
        ensures
            r == str_field(*self, key@),
    {
        match self.get(key) {
            Some(Json::Str(s)) => Some(s.clone()),
            _ => None,
        }
    }

    /// The member `inner` of the member `outer`, when it is a string.
    pub fn get_nested_str(&self, outer: &String, inner: &String) -> (r: Option<String>)
        ensures
            r == nested_str_field(*self, outer@, inner@),
    {
        match self.get(outer) {
            Some(o) => o.get_str(inner),
            None => None,
        }
    }
}

} // verus!
