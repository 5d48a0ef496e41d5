use vstd::prelude::*;

verus! {

/// A present one-or-many wire value: a bare value or an array.
#[derive(Debug, PartialEq, Eq)]
pub enum Lax<T> {
    One(T),
    Many(Vec<T>),
}

/// The items that a possibly absent one-or-many wire value stands for.
pub open spec fn lax_items<T>(l: Option<Lax<T>>) -> Seq<T> {
    match l {
        None => Seq::empty(),
        Some(Lax::One(x)) => seq![x],
        Some(Lax::Many(v)) => v@,
    }
}

/// The wire shape that a sequence of items is written as: absent for no
/// item, a bare value for one, an array in the same order for more.
pub open spec fn lax_shape<T>(items: Seq<T>, l: Option<Lax<T>>) -> bool {
    if items.len() == 0 {
        l is None
    } else if items.len() == 1 {
        l == Some(Lax::One(items[0]))
    } else {
        l matches Some(Lax::Many(v)) && v@ == items
    }
}

/// Writes a sequence as a one-or-many wire value.
pub fn to_lax_array<T>(origin: Vec<T>) -> (r: Option<Lax<T>>)
    ensures
        lax_shape(origin@, r),
{
    let n = origin.len();
    if n == 0 {
        None
    } else if n == 1 {
        let mut origin = origin;
        let x = origin.pop().unwrap();
        Some(Lax::One(x))
    } else {
        Some(Lax::Many(origin))
    }
}

/// Reads a one-or-many wire value as a sequence, keeping the order.
pub fn from_lax_array<T>(origin: Option<Lax<T>>) -> (r: Vec<T>)
    ensures
        r@ == lax_items(origin),
{
    match origin {
        None => Vec::new(),
        Some(Lax::One(x)) => {
            let mut v = Vec::new();
            v.push(x);
            v
        },
        Some(Lax::Many(v)) => v,
    }
}

/// Reading back what was written gives the same items in the same order.
pub proof fn lemma_lax_round_trip<T>(items: Seq<T>, l: Option<Lax<T>>)
    requires
        lax_shape(items, l),
    ensures
        lax_items(l) == items,
{
    if items.len() == 1 {
        assert(seq![items[0]] =~= items);
    }
}

/// Reading and writing again is stable: a second pass gives the same items
/// as the first, though an array of one item is written back as a bare value.
pub proof fn lemma_lax_idempotent<T>(l: Option<Lax<T>>, l2: Option<Lax<T>>)
    requires
        lax_shape(lax_items(l), l2),
    ensures
        lax_items(l2) == lax_items(l),
        lax_shape(lax_items(l2), l2),
{
    lemma_lax_round_trip(lax_items(l), l2);
}

} // verus!
