//! JSON values as the control plane exchanges them.
use crate::text::str_eq;
use vstd::prelude::*;

verus! {

/// A JSON value. A number that is no integer of 64 bits with sign is kept
/// as `OtherNumber`, without its value: nothing here reads one. The fields
/// of an object are kept in order; a name is looked up from the front.
#[derive(Debug, PartialEq)]
pub enum Json {
    Null,
    Bool(bool),
    Int(i64),
    OtherNumber,
    Text(String),
    Array(Vec<Json>),
    Object(Vec<(String, Json)>),
}

/// Whether field `i` of `fields` is the first one called `key`.
pub open spec fn first_field_at(fields: Seq<(String, Json)>, key: Seq<char>, i: int) -> bool {
    &&& 0 <= i < fields.len()
    &&& fields[i].0@ == key
    &&& forall|k: int| 0 <= k < i ==> (#[trigger] fields[k]).0@ != key
}

/// Whether some field of `fields` is called `key`.
pub open spec fn has_field(fields: Seq<(String, Json)>, key: Seq<char>) -> bool {
    exists|i: int| 0 <= i < fields.len() && (#[trigger] fields[i]).0@ == key
}

/// The index of the first field of `fields` called `key`.
pub open spec fn field_index(fields: Seq<(String, Json)>, key: Seq<char>) -> int {
    choose|i: int| first_field_at(fields, key, i)
}

impl Json {
    /// Whether the value is an object.
    pub open spec fn is_obj(self) -> bool {
        self is Object
    }

    /// Whether the value is an object with a field called `key`.
    pub open spec fn has(self, key: Seq<char>) -> bool {
        self matches Json::Object(fields) && has_field(fields@, key)
    }

    /// The first field called `key` of an object that has one.
    pub open spec fn field(self, key: Seq<char>) -> Json
        recommends
            self.has(key),
    {
        let fields = self->Object_0@;
        fields[field_index(fields, key)].1
    }

    /// The text of a value that is one.
    pub open spec fn text(self) -> Option<Seq<char>> {
        match self {
            Json::Text(text) => Some(text@),
            _ => None,
        }
    }

    /// The integer of a value that is one.
    pub open spec fn integer(self) -> Option<i64> {
        match self {
            Json::Int(n) => Some(n),
            _ => None,
        }
    }

    /// The items of a value that is an array.
    pub open spec fn items(self) -> Option<Seq<Json>> {
        match self {
            Json::Array(items) => Some(items@),
            _ => None,
        }
    }

    /// Whether the value is an object.
    pub fn is_object(&self) -> (yes: bool)
        ensures
            yes == self.is_obj(),
    {
        match self {
            Json::Object(_) => true,
            _ => false,
        }
    }

    /// The first field called `key`, where the value is an object that has
    /// one.
    #[verifier::loop_isolation(false)]
    pub fn get(&self, key: &str) -> (found: Option<&Json>)
        ensures
            found.is_some() == self.has(key@),
            found matches Some(value) ==> *value == self.field(key@),
    {
        match self {
            Json::Object(fields) => {
                let mut i: usize = 0;
                while i < fields.len()
                    invariant
                        i <= fields@.len(),
                        forall|k: int| 0 <= k < i ==> (#[trigger] fields@[k]).0@ != key@,
                    decreases fields@.len() - i,
                {
                    if str_eq(fields[i].0.as_str(), key) {
                        proof {
                            assert(first_field_at(fields@, key@, i as int));
                            let j = field_index(fields@, key@);
                            assert(first_field_at(fields@, key@, j));
                            assert(j == i) by {
                                if j < i {
                                    assert(fields@[j].0@ != key@);
                                } else if i < j {
                                    assert(fields@[i as int].0@ != key@);
                                }
                            }
                        }
                        return Some(&fields[i].1);
                    }
                    i += 1;
                }
                None
            },
            _ => None,
        }
    }

    /// The text, where the value is one.
    pub fn as_str(&self) -> (text: Option<&str>)
        ensures
            text.is_some() == self.text().is_some(),
            text matches Some(t) ==> self.text() == Some(t@),
    {
        match self {
            Json::Text(text) => Some(text.as_str()),
            _ => None,
        }
    }

    /// The integer, where the value is one.
    pub fn as_i64(&self) -> (n: Option<i64>)
        ensures
            n == self.integer(),
    {
        match self {
            Json::Int(n) => Some(*n),
            _ => None,
        }
    }

    /// The items, where the value is an array.
    pub fn as_array(&self) -> (items: Option<&Vec<Json>>)
        ensures
            items.is_some() == self.items().is_some(),
            items matches Some(list) ==> self.items() == Some(list@),
    {
        match self {
            Json::Array(items) => Some(items),
            _ => None,
        }
    }
}

} // verus!
