//! A structured document, as the window manager reports its window tree.

use vstd::prelude::*;

verus! {

/// A value of a structured document.
///
/// The members of an object keep their order; a document is expected to give
/// each key of an object once, and a lookup takes the first member with the key.
#[derive(PartialEq, Eq, Debug)]
pub enum JsonValue {
    Null,
    Bool(bool),
    /// A number, kept as its literal text: nothing here reads its value.
    Number(String),
    Str(String),
    Array(Vec<JsonValue>),
    Object(Vec<(String, JsonValue)>),
}

/// The value of the first member of `members` whose key is `key`.
pub open spec fn member(members: Seq<(String, JsonValue)>, key: Seq<char>) -> Option<JsonValue>
    decreases members.len(),
{
    if members.len() == 0 {
        None
    } else if members[0].0@ == key {
        Some(members[0].1)
    } else {
        member(members.drop_first(), key)
    }
}

/// The value under `key` when `v` is an object that has such a member.
pub open spec fn field(v: JsonValue, key: Seq<char>) -> Option<JsonValue> {
    match v {
        JsonValue::Object(members) => member(members@, key),
        _ => None,
    }
}

/// A member found in a sequence of members is smaller than the sequence.
pub proof fn lemma_member_decreases(members: Seq<(String, JsonValue)>, key: Seq<char>)
    ensures
        member(members, key) matches Some(x) ==> decreases_to!(members => x),
    decreases members.len(),
{
    if members.len() > 0 {
        assert(decreases_to!(members => members[0]));
        assert(decreases_to!(members[0] => members[0].1));
        if members[0].0@ != key {
            lemma_member_decreases(members.drop_first(), key);
            assert(decreases_to!(members => members.subrange(1, members.len() as int)));
            assert(members.drop_first() == members.subrange(1, members.len() as int));
        }
    }
}

/// A value that stands under a key of an object is smaller than the object.
pub proof fn lemma_field_decreases(v: JsonValue, key: Seq<char>)
    ensures
        field(v, key) matches Some(x) ==> decreases_to!(v => x),
{
    if let JsonValue::Object(members) = v {
        lemma_member_decreases(members@, key);
        assert(decreases_to!(v => members));
        assert(decreases_to!(members => members@));
    }
}

/// Where `members` holds no key `key` before `i`, the lookup may start at `i`.
proof fn lemma_member_skip(members: Seq<(String, JsonValue)>, key: Seq<char>, i: int)
    requires
        0 <= i <= members.len(),
        forall|j: int| 0 <= j < i ==> members[j].0@ != key,
    ensures
        member(members, key) == member(members.subrange(i, members.len() as int), key),
    decreases i,
{
    if i > 0 {
        let rest = members.drop_first();
        lemma_member_skip(rest, key, i - 1);
        assert(rest.subrange(i - 1, rest.len() as int) =~= members.subrange(i, members.len() as int));
    } else {
        assert(members.subrange(0, members.len() as int) =~= members);
    }
}

impl JsonValue {
    /// The value under `key`, where this is an object with such a member.
    pub fn get(&self, key: &str) -> (r: Option<&JsonValue>)
        ensures
            r matches Some(x) ==> field(*self, key@) == Some(*x),
            r is None ==> field(*self, key@) is None,
    {
        match self {
            JsonValue::Object(members) => {
                let k = String::from_str(key);
                let mut i: usize = 0;
                while i < members.len()
                    invariant
                        0 <= i <= members.len(),
                        k@ == key@,
                        *self == JsonValue::Object(*members),
                        forall|j: int| 0 <= j < i ==> members@[j].0@ != key@,
                    decreases members.len() - i,
                {
                    if members[i].0 == k {
                        proof {
                            lemma_member_skip(members@, key@, i as int);
                            let rest = members@.subrange(i as int, members.len() as int);
                            assert(rest[0] == members@[i as int]);
                        }
                        return Some(&members[i].1);
                    }
                    i = i + 1;
                }
                proof {
                    lemma_member_skip(members@, key@, i as int);
                }
                None
            },
            _ => None,
        }
    }

    /// The text, where this is a string.
    pub fn as_str(&self) -> (r: Option<&String>)
        ensures
            r matches Some(s) ==> *self == JsonValue::Str(*s),
            r is None ==> !(*self is Str),
    {
        match self {
            JsonValue::Str(s) => Some(s),
            _ => None,
        }
    }

    /// The elements, where this is an array.
    pub fn as_array(&self) -> (r: Option<&Vec<JsonValue>>)
        ensures
            r matches Some(a) ==> *self == JsonValue::Array(*a),
            r is None ==> !(*self is Array),
    {
        match self {
            JsonValue::Array(a) => Some(a),
            _ => None,
        }
    }
}

} // verus!
