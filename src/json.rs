//! A JSON value as the library reads and writes it; text conversion is left to a JSON crate.

use vstd::prelude::*;
use vstd::string::StringExecFns;

verus! {

/// A JSON value.
pub enum Json {
    /// `null`.
    Null,
    /// `true` or `false`.
    Bool(bool),
    /// A non-negative integer.
    UInt(u64),
    /// A negative integer.
    Int(i64),
    /// Any other number, kept as its text.
    Decimal(String),
    /// A string.
    Str(String),
    /// An array.
    Array(Vec<Json>),
    /// An object, its members in order.
    Object(Vec<(String, Json)>),
}

/// The value of the first member of `members` named `key`.
pub open spec fn member(members: Seq<(String, Json)>, key: Seq<char>) -> Option<Json>
    decreases members.len(),
{
    if members.len() == 0 {
        None
    } else if members[0].0@ == key {
        Some(members[0].1)
    } else {
        member(members.drop_first(), key)
    }
}

/// The member `key` of `j` when `j` is an object.
pub open spec fn field(j: Json, key: Seq<char>) -> Option<Json> {
    match j {
        Json::Object(m) => member(m@, key),
        _ => None,
    }
}

} // verus!

verus! {

/// A non-negative integer.
pub open spec fn read_u64(j: Option<Json>) -> Option<u64> {
    match j {
        Some(Json::UInt(n)) => Some(n),
        _ => None,
    }
}

/// A boolean.
pub open spec fn read_bool(j: Option<Json>) -> Option<bool> {
    match j {
        Some(Json::Bool(b)) => Some(b),
        _ => None,
    }
}

/// A string.
pub open spec fn read_text(j: Option<Json>) -> Option<String> {
    match j {
        Some(Json::Str(s)) => Some(s),
        _ => None,
    }
}

/// A non-zero id.
pub open spec fn read_id(j: Option<Json>) -> Option<u64> {
    match j {
        Some(Json::UInt(n)) => if n != 0 {
            Some(n)
        } else {
            None
        },
        _ => None,
    }
}

/// An optional string: absent or `null` read as `None`.
pub open spec fn read_opt_text(j: Option<Json>) -> Option<Option<String>> {
    match j {
        None => Some(None),
        Some(Json::Null) => Some(None),
        Some(Json::Str(s)) => Some(Some(s)),
        _ => None,
    }
}

/// An optional non-negative integer: absent or `null` read as `None`.
pub open spec fn read_opt_u64(j: Option<Json>) -> Option<Option<u64>> {
    match j {
        None => Some(None),
        Some(Json::Null) => Some(None),
        Some(Json::UInt(n)) => Some(Some(n)),
        _ => None,
    }
}

/// An optional non-zero id: absent or `null` read as `None`.
pub open spec fn read_opt_id(j: Option<Json>) -> Option<Option<u64>> {
    match j {
        None => Some(None),
        Some(Json::Null) => Some(None),
        Some(Json::UInt(n)) => if n != 0 {
            Some(Some(n))
        } else {
            None
        },
        _ => None,
    }
}

/// Whether `t` is the text `lit`.
pub fn text_is(t: &String, lit: &str) -> (r: bool)
    ensures
        r == (t@ == lit@),
{
    *t == String::from_str(lit)
}

/// The index of the first member named `key`.
fn position(members: &Vec<(String, Json)>, key: &str) -> (r: Option<usize>)
    ensures
        r is Some ==> r->0 < members@.len() && member(members@, key@) == Some(
            members@[r->0 as int].1,
        ),
        r is None ==> member(members@, key@) is None,
{
    let k = String::from_str(key);
    let mut i: usize = 0;
    assert(members@.subrange(0, members@.len() as int) =~= members@);
    while i < members.len()
        invariant
            i <= members@.len(),
            k@ == key@,
            member(members@, key@) == member(
                members@.subrange(i as int, members@.len() as int),
                key@,
            ),
        decreases members@.len() - i,
    {
        proof {
            let rest = members@.subrange(i as int, members@.len() as int);
            assert(rest.drop_first() =~= members@.subrange(i + 1, members@.len() as int));
            assert(rest[0] == members@[i as int]);
        }
        if members[i].0 == k {
            return Some(i);
        }
        i = i + 1;
    }
    assert(members@.subrange(i as int, members@.len() as int).len() == 0);
    None
}

impl Json {
    /// The member `key` of this value when it is an object.
    pub fn get(&self, key: &str) -> (r: Option<&Json>)
        ensures
            r is Some ==> field(*self, key@) == Some(*r->0),
            r is None ==> field(*self, key@) is None,
    {
        match self {
            Json::Object(members) => match position(members, key) {
                Some(i) => Some(&members[i].1),
                None => None,
            },
            _ => None,
        }
    }

    /// Takes the member `key` out of this value when it is an object.
    pub fn into_field(self, key: &str) -> (r: Option<Json>)
        ensures
            r == field(self, key@),
    {
        match self {
            Json::Object(mut members) => match position(&members, key) {
                Some(i) => {
                    let (_, v) = members.remove(i);
                    Some(v)
                },
                None => None,
            },
            _ => None,
        }
    }

    /// Whether this value is an object.
    pub fn is_object(&self) -> (r: bool)
        ensures
            r == self is Object,
    {
        match self {
            Json::Object(_) => true,
            _ => false,
        }
    }

    /// The member `key` read as a non-negative integer.
    pub fn u64_at(&self, key: &str) -> (r: Option<u64>)
        ensures
            r == read_u64(field(*self, key@)),
    {
        match self.get(key) {
            Some(Json::UInt(n)) => Some(*n),
            _ => None,
        }
    }

    /// The member `key` read as a boolean.
    pub fn bool_at(&self, key: &str) -> (r: Option<bool>)
        ensures
            r == read_bool(field(*self, key@)),
    {
        match self.get(key) {
            Some(Json::Bool(b)) => Some(*b),
            _ => None,
        }
    }

    /// The member `key` read as a string.
    pub fn text_at(&self, key: &str) -> (r: Option<String>)
        ensures
            r == read_text(field(*self, key@)),
    {
        match self.get(key) {
            Some(Json::Str(s)) => Some(s.clone()),
            _ => None,
        }
    }

    /// The member `key` read as a non-zero id.
    pub fn id_at(&self, key: &str) -> (r: Option<u64>)
        ensures
            r == read_id(field(*self, key@)),
    {
        match self.get(key) {
            Some(Json::UInt(n)) => if *n != 0 {
                Some(*n)
            } else {
                None
            },
            _ => None,
        }
    }

    /// The member `key` read as an optional string.
    pub fn opt_text_at(&self, key: &str) -> (r: Option<Option<String>>)
        ensures
            r == read_opt_text(field(*self, key@)),
    {
        match self.get(key) {
            None => Some(None),
            Some(Json::Null) => Some(None),
            Some(Json::Str(s)) => Some(Some(s.clone())),
            _ => None,
        }
    }

    /// The member `key` read as an optional non-negative integer.
    pub fn opt_u64_at(&self, key: &str) -> (r: Option<Option<u64>>)
        ensures
            r == read_opt_u64(field(*self, key@)),
    {
        match self.get(key) {
            None => Some(None),
            Some(Json::Null) => Some(None),
            Some(Json::UInt(n)) => Some(Some(*n)),
            _ => None,
        }
    }

    /// The member `key` read as an optional non-zero id.
    pub fn opt_id_at(&self, key: &str) -> (r: Option<Option<u64>>)
        ensures
            r == read_opt_id(field(*self, key@)),
    {
        match self.get(key) {
            None => Some(None),
            Some(Json::Null) => Some(None),
            Some(Json::UInt(n)) => if *n != 0 {
                Some(Some(*n))
            } else {
                None
            },
            _ => None,
        }
    }
}

/// Looking a key up after a member was appended finds an earlier member of that name first,
/// else the appended one when it has that name.
pub proof fn lemma_member_push(s: Seq<(String, Json)>, m: (String, Json), key: Seq<char>)
    ensures
        member(s.push(m), key) == if member(s, key) is Some {
            member(s, key)
        } else if m.0@ == key {
            Some(m.1)
        } else {
            None
        },
    decreases s.len(),
{
    if s.len() == 0 {
        assert(s.push(m).drop_first() =~= Seq::<(String, Json)>::empty());
        assert(s.push(m)[0] == m);
        assert(member(Seq::<(String, Json)>::empty(), key) is None);
        assert(member(s, key) is None);
    } else {
        assert(s.push(m).drop_first() =~= s.drop_first().push(m));
        assert(s.push(m)[0] == s[0]);
        lemma_member_push(s.drop_first(), m, key);
    }
}

/// Appends the member `key`: `value` to `members`.
pub fn push_member(members: &mut Vec<(String, Json)>, key: &str, value: Json)
    ensures
        forall|k: Seq<char>| #[trigger] member(final(members)@, k) == if member(old(members)@, k) is Some {
            member(old(members)@, k)
        } else if k == key@ {
            Some(value)
        } else {
            None
        },
{
    let ghost before = members@;
    let m = (String::from_str(key), value);
    members.push(m);
    proof {
        assert forall|k: Seq<char>| #[trigger] member(members@, k) == if member(before, k) is Some {
            member(before, k)
        } else if k == key@ {
            Some(value)
        } else {
            None
        } by {
            lemma_member_push(before, m, k);
        }
    }
}

} // verus!
