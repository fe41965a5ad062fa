//! A JSON value held as plain data, and what the library reads from it.

use vstd::prelude::*;
use vstd::string::*;

verus! {

broadcast use vstd::std_specs::vec::axiom_vec_index_decreases;

#[verifier::external_type_specification]
#[verifier::external_body]
pub struct ExNumber(serde_json::Number);

/// A JSON number, split as serde_json keeps it: non-negative integers,
/// negative integers, and floating-point numbers (carried, never inspected).
#[derive(Debug, PartialEq)]
pub enum JsonNumber {
    PosInt(u64),
    NegInt(i64),
    Float(serde_json::Number),
}

/// A JSON value. Object members keep the order in which they are stored.
#[derive(Debug, PartialEq)]
pub enum JsonValue {
    Null,
    Bool(bool),
    Number(JsonNumber),
    String(String),
    Array(Vec<JsonValue>),
    Object(Vec<(String, JsonValue)>),
}

/// `a` comes strictly before `b` in the order of code points (the order in
/// which Rust compares strings).
pub open spec fn text_lt(a: Seq<char>, b: Seq<char>) -> bool {
    exists|k: int|
        0 <= k <= a.len() && k <= b.len() && a.subrange(0, k) == b.subrange(0, k) && (if k
            == a.len() {
            k < b.len()
        } else {
            k < b.len() && (a[k] as u32) < (b[k] as u32)
        })
}

/// The first member of `entries` named `key`, if any.
pub open spec fn member(entries: Seq<(String, JsonValue)>, key: Seq<char>) -> Option<JsonValue>
    decreases entries.len(),
{
    if entries.len() == 0 {
        None
    } else if entries[0].0@ == key {
        Some(entries[0].1)
    } else {
        member(entries.drop_first(), key)
    }
}

impl JsonNumber {
    /// An integer in the form serde_json gives it: negative numbers only as `NegInt`.
    pub open spec fn is_integer(self) -> bool {
        match self {
            JsonNumber::PosInt(_) => true,
            JsonNumber::NegInt(i) => i < 0,
            JsonNumber::Float(_) => false,
        }
    }
}

impl JsonValue {
    /// Arrays and objects are nested at most `n` deep.
    pub open spec fn nests_within(self, n: nat) -> bool
        decreases self,
    {
        match self {
            JsonValue::Array(items) => n >= 1 && forall|i: int|
                0 <= i < items.len() ==> (#[trigger] items[i]).nests_within((n - 1) as nat),
            JsonValue::Object(entries) => n >= 1 && forall|i: int|
                0 <= i < entries.len() ==> (#[trigger] entries[i]).1.nests_within((n - 1) as nat),
            _ => true,
        }
    }

    /// The value holds no floating-point number, and each object has its member
    /// names strictly increasing (so no name twice).
    pub open spec fn well_formed(self) -> bool
        decreases self,
    {
        match self {
            JsonValue::Number(n) => n.is_integer(),
            JsonValue::Array(items) => forall|i: int|
                0 <= i < items.len() ==> (#[trigger] items[i]).well_formed(),
            JsonValue::Object(entries) => (forall|i: int, j: int|
                0 <= i < j < entries.len() ==> text_lt(
                    (#[trigger] entries[i]).0@,
                    (#[trigger] entries[j]).0@,
                )) && (forall|i: int|
                0 <= i < entries.len() ==> (#[trigger] entries[i]).1.well_formed()),
            _ => true,
        }
    }

    /// The member `key` of an object; nothing for any other value.
    pub open spec fn field(self, key: Seq<char>) -> Option<JsonValue> {
        match self {
            JsonValue::Object(entries) => member(entries@, key),
            _ => None,
        }
    }

    /// The text of a string value.
    pub open spec fn text(self) -> Option<Seq<char>> {
        match self {
            JsonValue::String(s) => Some(s@),
            _ => None,
        }
    }
}

/// Two texts are equal, char for char.
pub fn text_equals(a: &str, b: &str) -> (r: bool)
    ensures
        r == (a@ == b@),
{
    let n = a.unicode_len();
    if n != b.unicode_len() {
        return false;
    }
    let mut i: usize = 0;
    while i < n
        invariant
            n == a@.len(),
            n == b@.len(),
            i <= n,
            forall|j: int| 0 <= j < i ==> a@[j] == b@[j],
        decreases n - i,
    {
        if a.get_char(i) != b.get_char(i) {
            return false;
        }
        i += 1;
    }
    assert(a@ =~= b@);
    true
}

/// Skipping members whose name is not `key` does not change which member is found.
proof fn lemma_member_skip(entries: Seq<(String, JsonValue)>, key: Seq<char>, i: int)
    requires
        0 <= i <= entries.len(),
        forall|j: int| 0 <= j < i ==> (#[trigger] entries[j]).0@ != key,
    ensures
        member(entries, key) == member(entries.subrange(i, entries.len() as int), key),
    decreases i,
{
    if i == 0 {
        assert(entries.subrange(0, entries.len() as int) =~= entries);
    } else {
        let rest = entries.drop_first();
        assert forall|j: int| 0 <= j < i - 1 implies (#[trigger] rest[j]).0@ != key by {
            assert(rest[j] == entries[j + 1]);
        }
        lemma_member_skip(rest, key, i - 1);
        assert(rest.subrange(i - 1, rest.len() as int) =~= entries.subrange(
            i,
            entries.len() as int,
        ));
    }
}

impl JsonValue {
    /// The member `key` of an object (the first one of that name).
    pub fn get(&self, key: &str) -> (r: Option<&JsonValue>)
        ensures
            match r {
                Some(v) => self.field(key@) == Some(*v),
                None => self.field(key@) is None,
            },
    {
        match self {
            JsonValue::Object(entries) => {
                let mut i: usize = 0;
                while i < entries.len()
                    invariant
                        *self == JsonValue::Object(*entries),
                        i <= entries@.len(),
                        forall|j: int| 0 <= j < i ==> (#[trigger] entries@[j]).0@ != key@,
                    decreases entries@.len() - i,
                {
                    if text_equals(entries[i].0.as_str(), key) {
                        proof {
                            lemma_member_skip(entries@, key@, i as int);
                            let rest = entries@.subrange(i as int, entries@.len() as int);
                            assert(rest[0] == entries@[i as int]);
                        }
                        return Some(&entries[i].1);
                    }
                    i += 1;
                }
                proof {
                    lemma_member_skip(entries@, key@, i as int);
                }
                None
            },
            _ => None,
        }
    }

    /// The text of a string value.
    pub fn as_str(&self) -> (r: Option<&str>)
        ensures
            match r {
                Some(t) => self.text() == Some(t@),
                None => self.text() is None,
            },
    {
        match self {
            JsonValue::String(s) => Some(s.as_str()),
            _ => None,
        }
    }
}

} // verus!
