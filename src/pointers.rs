//! A list built from boxes, and a box of one's own.
use vstd::prelude::*;

verus! {

/// A list of integers, each cell owning the rest in a box.
pub enum List {
    Cons(i32, Box<List>),
    Null,
}

impl List {
    /// The integers of the list, front first.
    pub open spec fn values(&self) -> Seq<i32>
        decreases self,
    {
        match self {
            List::Cons(value, rest) => seq![*value] + rest.values(),
            List::Null => Seq::empty(),
        }
    }
}

/// The integers of `list` in order, as they are printed one per line
/// before the end marker.
pub fn cons_values(list: &List) -> (r: Vec<i32>)
    ensures
        r@ == list.values(),
    decreases list,
{
    match list {
        List::Cons(integer, nested_list) => {
            let rest = cons_values(nested_list);
            let mut r: Vec<i32> = Vec::new();
            r.push(*integer);
            let mut i: usize = 0;
            while i < rest.len()
                invariant
                    i <= rest@.len(),
                    r@ == seq![*integer] + rest@.take(i as int),
                decreases rest@.len() - i,
            {
                r.push(rest[i]);
                assert(rest@.take(i + 1) =~= rest@.take(i as int).push(rest@[i as int]));
                i = i + 1;
            }
            assert(rest@.take(rest@.len() as int) =~= rest@);
            r
        },
        List::Null => Vec::new(),
    }
}

/// A box that holds its value in place.
pub struct CustomBox<T>(pub T);

impl<T> CustomBox<T> {
    pub fn new(x: T) -> (r: CustomBox<T>)
        ensures
            r.0 == x,
    {
        CustomBox(x)
    }

    /// The value held.
    pub fn get(&self) -> (r: &T)
        ensures
            *r == self.0,
    {
        &self.0
    }
}

} // verus!
