use vstd::prelude::*;

verus! {

/// A JSON number as the layout loader reads it: its value as an unsigned integer when it is
/// one, and its value in thousandths, rounded, when that fits an `i32`.
#[derive(PartialEq, Eq, Structural, Clone, Copy, Debug)]
pub struct JsonNumber {
    pub unsigned: Option<u64>,
    pub milli: Option<i32>,
}

/// A parsed JSON document. Object members keep their order; keys are unique.
pub enum JsonValue {
    Null,
    Bool(bool),
    Number(JsonNumber),
    Str(String),
    Array(Vec<JsonValue>),
    Object(Vec<(String, JsonValue)>),
}

/// The value of the first member named `key`, searching members from `i`.
pub open spec fn find_member(members: Seq<(String, JsonValue)>, key: Seq<char>, i: int) -> Option<
    JsonValue,
>
    decreases members.len() - i,
{
    if i < 0 || i >= members.len() {
        None
    } else if members[i].0@ == key {
        Some(members[i].1)
    } else {
        find_member(members, key, i + 1)
    }
}

/// The member `key` of an object; `None` for a missing member or a value that is no object.
pub open spec fn member(v: JsonValue, key: Seq<char>) -> Option<JsonValue> {
    match v {
        JsonValue::Object(members) => find_member(members@, key, 0),
        _ => None,
    }
}

impl JsonValue {
    /// The member `key` of an object.
    pub fn get(&self, key: &str) -> (r: Option<&JsonValue>)
        ensures
            r matches Some(x) ==> member(*self, key@) == Some(*x),
            r is None ==> member(*self, key@) is None,
    {
        match self {
            JsonValue::Object(members) => {
                let k = String::from_str(key);
                let mut i: usize = 0;
                while i < members.len()
                    invariant
                        i <= members@.len(),
                        k@ == key@,
                        member(*self, key@) == find_member(members@, key@, 0),
                        find_member(members@, key@, 0) == find_member(members@, key@, i as int),
                    decreases members@.len() - i,
                {
                    if members[i].0 == k {
                        assert(find_member(members@, key@, i as int) == Some(members@[i as int].1));
                        return Some(&members[i].1);
                    }
                    i += 1;
                }
                None
            },
            _ => None,
        }
    }

    /// The value as a non-negative integer.
    pub fn as_u64(&self) -> (r: Option<u64>)
        ensures
            r == match *self {
                JsonValue::Number(n) => n.unsigned,
                _ => None,
            },
    {
        match self {
            JsonValue::Number(n) => n.unsigned,
            _ => None,
        }
    }

    /// The value in thousandths.
    pub fn as_milli(&self) -> (r: Option<i32>)
        ensures
            r == match *self {
                JsonValue::Number(n) => n.milli,
                _ => None,
            },
    {
        match self {
            JsonValue::Number(n) => n.milli,
            _ => None,
        }
    }

    /// The value as a boolean.
    pub fn as_bool(&self) -> (r: Option<bool>)
        ensures
            r == match *self {
                JsonValue::Bool(b) => Some(b),
                _ => None,
            },
    {
        match self {
            JsonValue::Bool(b) => Some(*b),
            _ => None,
        }
    }
}

} // verus!
