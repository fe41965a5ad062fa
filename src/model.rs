//! Graph elements as the behaviours see them: entity and relation instances
//! with their named properties, each property carrying its own identifier.

use crate::json::{text_equals, JsonNumber, JsonValue};
use vstd::prelude::*;

verus! {

broadcast use vstd::std_specs::vec::axiom_vec_index_decreases;

/// A named property of an instance: its identifier (which also keys the
/// observers installed on it) and its current value.
#[derive(Debug, PartialEq)]
pub struct PropertyInstance {
    pub name: String,
    pub id: u128,
    pub value: JsonValue,
}

/// The first property named `name`, if any.
pub open spec fn property_named(props: Seq<PropertyInstance>, name: Seq<char>) -> Option<
    PropertyInstance,
>
    decreases props.len(),
{
    if props.len() == 0 {
        None
    } else if props[0].name@ == name {
        Some(props[0])
    } else {
        property_named(props.drop_first(), name)
    }
}

proof fn lemma_property_skip(props: Seq<PropertyInstance>, name: Seq<char>, i: int)
    requires
        0 <= i <= props.len(),
        forall|j: int| 0 <= j < i ==> (#[trigger] props[j]).name@ != name,
    ensures
        property_named(props, name) == property_named(props.subrange(i, props.len() as int), name),
    decreases i,
{
    if i == 0 {
        assert(props.subrange(0, props.len() as int) =~= props);
    } else {
        let rest = props.drop_first();
        assert forall|j: int| 0 <= j < i - 1 implies (#[trigger] rest[j]).name@ != name by {
            assert(rest[j] == props[j + 1]);
        }
        lemma_property_skip(rest, name, i - 1);
        assert(rest.subrange(i - 1, rest.len() as int) =~= props.subrange(i, props.len() as int));
    }
}

/// Finds the first property named `name`.
pub fn find_property<'a>(props: &'a Vec<PropertyInstance>, name: &str) -> (r: Option<
    &'a PropertyInstance,
>)
    ensures
        match r {
            Some(p) => property_named(props@, name@) == Some(*p),
            None => property_named(props@, name@) is None,
        },
{
    let mut i: usize = 0;
    while i < props.len()
        invariant
            i <= props@.len(),
            forall|j: int| 0 <= j < i ==> (#[trigger] props@[j]).name@ != name@,
        decreases props@.len() - i,
    {
        if text_equals(props[i].name.as_str(), name) {
            proof {
                lemma_property_skip(props@, name@, i as int);
                let rest = props@.subrange(i as int, props@.len() as int);
                assert(rest[0] == props@[i as int]);
            }
            return Some(&props[i]);
        }
        i += 1;
    }
    proof {
        lemma_property_skip(props@, name@, i as int);
    }
    None
}

/// The value as an `i64`, as serde_json's `as_i64` reads it: an integer in
/// range; nothing for a float, a larger integer, or a value that is no number.
pub open spec fn integer_of(v: JsonValue) -> Option<i64> {
    match v {
        JsonValue::Number(JsonNumber::PosInt(u)) => if u <= i64::MAX as u64 {
            Some(u as i64)
        } else {
            None
        },
        JsonValue::Number(JsonNumber::NegInt(i)) => Some(i),
        _ => None,
    }
}

/// The text of the string property `name`; nothing if it is missing or no string.
pub open spec fn string_property(props: Seq<PropertyInstance>, name: Seq<char>) -> Option<Seq<char>> {
    match property_named(props, name) {
        Some(p) => p.value.text(),
        None => None,
    }
}

/// The integer property `name`; nothing if it is missing or not an `i64`.
pub open spec fn integer_property(props: Seq<PropertyInstance>, name: Seq<char>) -> Option<i64> {
    match property_named(props, name) {
        Some(p) => integer_of(p.value),
        None => None,
    }
}

/// Reads the string property `name`.
pub fn as_string(props: &Vec<PropertyInstance>, name: &str) -> (r: Option<String>)
    ensures
        match r {
            Some(s) => string_property(props@, name@) == Some(s@),
            None => string_property(props@, name@) is None,
        },
{
    match find_property(props, name) {
        Some(p) => match p.value.as_str() {
            Some(t) => Some(t.to_string()),
            None => None,
        },
        None => None,
    }
}

/// Reads the integer property `name`.
pub fn as_i64(props: &Vec<PropertyInstance>, name: &str) -> (r: Option<i64>)
    ensures
        r == integer_property(props@, name@),
{
    match find_property(props, name) {
        Some(p) => match &p.value {
            JsonValue::Number(JsonNumber::PosInt(u)) => if *u <= i64::MAX as u64 {
                Some(*u as i64)
            } else {
                None
            },
            JsonValue::Number(JsonNumber::NegInt(i)) => Some(*i),
            _ => None,
        },
        None => None,
    }
}

/// An entity instance: a node of the graph.
#[derive(Debug, PartialEq)]
pub struct EntityInstance {
    pub id: u128,
    pub type_label: String,
    pub properties: Vec<PropertyInstance>,
}

impl EntityInstance {
    /// The property `name` of this entity.
    pub open spec fn property(&self, name: Seq<char>) -> Option<PropertyInstance> {
        property_named(self.properties@, name)
    }

    /// Finds the property `name`.
    pub fn get(&self, name: &str) -> (r: Option<&PropertyInstance>)
        ensures
            match r {
                Some(p) => self.property(name@) == Some(*p),
                None => self.property(name@) is None,
            },
    {
        find_property(&self.properties, name)
    }
}

/// The key of a relation instance: its source, its type and its target.
#[derive(Debug, PartialEq)]
pub struct EdgeKey {
    pub outbound_id: u128,
    pub type_label: String,
    pub inbound_id: u128,
}

/// An edge key as plain values: source, type, target.
pub type EdgeKeyView = (u128, Seq<char>, u128);

impl EdgeKey {
    pub open spec fn view(&self) -> EdgeKeyView {
        (self.outbound_id, self.type_label@, self.inbound_id)
    }

    /// Whether the two keys name the same edge.
    pub fn matches(&self, other: &EdgeKey) -> (r: bool)
        ensures
            r == (self@ == other@),
    {
        self.outbound_id == other.outbound_id && self.inbound_id == other.inbound_id
            && text_equals(self.type_label.as_str(), other.type_label.as_str())
    }

    /// A copy of the key.
    pub fn duplicate(&self) -> (r: EdgeKey)
        ensures
            r == *self,
    {
        EdgeKey {
            outbound_id: self.outbound_id,
            type_label: self.type_label.clone(),
            inbound_id: self.inbound_id,
        }
    }
}

/// A relation instance: a typed edge from `outbound` to `inbound`.
#[derive(Debug, PartialEq)]
pub struct RelationInstance {
    pub outbound: EntityInstance,
    pub type_label: String,
    pub inbound: EntityInstance,
    pub properties: Vec<PropertyInstance>,
}

impl RelationInstance {
    /// The key of the edge.
    pub open spec fn key_spec(&self) -> EdgeKey {
        EdgeKey {
            outbound_id: self.outbound.id,
            type_label: self.type_label,
            inbound_id: self.inbound.id,
        }
    }

    /// The key of the edge.
    pub fn get_key(&self) -> (r: EdgeKey)
        ensures
            r == self.key_spec(),
    {
        EdgeKey {
            outbound_id: self.outbound.id,
            type_label: self.type_label.clone(),
            inbound_id: self.inbound.id,
        }
    }
}

} // verus!
