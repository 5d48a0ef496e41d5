use vstd::prelude::*;

verus! {

/// A plain value carried through the JSON facade as it is.
pub struct SerdeJsonValue<T> {
    pub value: T,
}

impl<T> SerdeJsonValue<T> {
    pub fn new(value: T) -> (r: Self)
        ensures
            r.value == value,
    {
        SerdeJsonValue { value }
    }
}

} // verus!
