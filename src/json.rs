use vstd::prelude::*;

verus! {

/// A JSON number, as the parser represents it.
#[derive(Clone, Copy, Debug, PartialEq, Eq, Structural)]
pub enum JsonNumber {
    /// A non-negative integer.
    PosInt(u64),
    /// A negative integer.
    NegInt(i64),
    /// Any other number, held as the IEEE 754 bit pattern of a double.
    Float(u64),
}

/// An untyped JSON tree, with object members in the order the parser gave them.
#[derive(Debug)]
pub enum Json {
    Null,
    Bool(bool),
    Number(JsonNumber),
    Str(String),
    Array(Vec<Json>),
    Object(Vec<(String, Json)>),
}

impl Json {
    /// Whether this value is a JSON object.
    pub fn is_object(&self) -> (r: bool)
        ensures
            r == self is Object,
    {
        match self {
            Json::Object(_) => true,
            _ => false,
        }
    }
}

} // verus!
