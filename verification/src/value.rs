//! The structured values in which requests arrive and replies leave.

use vstd::prelude::*;
use vstd::string::StringExecFns;

verus! {

/// A self-describing value: a scalar, a list, or a list of key and value
/// pairs. A number with a fraction is carried as its 64 IEEE 754 bits.
#[derive(Debug, PartialEq, Eq)]
pub enum Value {
    Null,
    Bool(bool),
    Integer(i128),
    Float(u64),
    Bytes(Vec<u8>),
    Text(String),
    Array(Vec<Value>),
    Dict(Vec<(Value, Value)>),
    Tag(u64, Box<Value>),
}

/// Whether `value` is the text `text`.
pub open spec fn is_text(value: Value, text: Seq<char>) -> bool {
    value matches Value::Text(held) && held@ == text
}

/// The value of the first pair in `entries` whose key is the text `name`.
pub open spec fn lookup(entries: Seq<(Value, Value)>, name: Seq<char>) -> Option<Value>
    decreases entries.len(),
{
    if entries.len() == 0 {
        None
    } else if is_text(entries[0].0, name) {
        Some(entries[0].1)
    } else {
        lookup(entries.drop_first(), name)
    }
}

impl Value {
    /// What a dictionary holds under the text key `name`; `None` for one
    /// without that key and for a value that is no dictionary.
    pub open spec fn field_of(self, name: Seq<char>) -> Option<Value> {
        match self {
            Value::Dict(entries) => lookup(entries@, name),
            _ => None,
        }
    }

    /// A text value.
    pub fn text(content: &str) -> (value: Value)
        ensures
            is_text(value, content@),
    {
        Value::Text(String::from_str(content))
    }

    /// A dictionary with one pair: the text `name` and `inner`.
    pub fn single_entry(name: &str, inner: Value) -> (value: Value)
        ensures
            value matches Value::Dict(entries) && entries@.len() == 1 && is_text(
                entries@[0].0,
                name@,
            ) && entries@[0].1 == inner,
    {
        let mut entries: Vec<(Value, Value)> = Vec::new();
        entries.push((Value::text(name), inner));
        Value::Dict(entries)
    }

    /// Looks up the text key `name` in a dictionary.
    pub fn field(&self, name: &str) -> (found: Option<&Value>)
        ensures
            match found {
                Some(held) => self.field_of(name@) == Some(*held),
                None => self.field_of(name@) is None,
            },
    {
        match self {
            Value::Dict(entries) => {
                let wanted = String::from_str(name);
                let mut at: usize = 0;
                assert(entries@.skip(0) =~= entries@);
                while at < entries.len()
                    invariant
                        at <= entries.len(),
                        wanted@ == name@,
                        self.field_of(name@) == lookup(entries@, name@),
                        lookup(entries@, name@) == lookup(entries@.skip(at as int), name@),
                    decreases entries.len() - at,
                {
                    let ghost rest = entries@.skip(at as int);
                    assert(rest[0] == entries@[at as int]);
                    assert(rest.drop_first() =~= entries@.skip(at + 1));
                    match &entries[at].0 {
                        Value::Text(held) => {
                            if *held == wanted {
                                assert(is_text(rest[0].0, name@));
                                return Some(&entries[at].1);
                            }
                        },
                        _ => {},
                    }
                    at += 1;
                }
                None
            },
            _ => None,
        }
    }
}

} // verus!
