use vstd::prelude::*;

verus! {

/// A JSON number as the JSON tree holds it: a non-negative integer, a
/// negative integer, or a binary64 float kept as its IEEE-754 bit pattern.
#[derive(Clone, Copy, Debug, PartialEq, Eq, Structural)]
pub enum Number {
    PosInt(u64),
    NegInt(i64),
    Float(u64),
}

/// A generic JSON value tree; object members keep their document order.
#[derive(Debug, PartialEq, Eq)]
pub enum Json {
    Null,
    Bool(bool),
    Number(Number),
    String(String),
    Array(Vec<Json>),
    Object(Vec<(String, Json)>),
}

} // verus!
