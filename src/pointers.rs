//! A shared cons list, a minimal box, and a slice split into two mutable
//! halves.
use vstd::prelude::*;

verus! {

/// A list whose tails can be shared between lists.
#[derive(PartialEq, Debug)]
pub enum List {
    Cons(i32, std::rc::Rc<List>),
    Nil,
}

/// A box that holds one value and dereferences to it.
pub struct MyBox<T>(pub T);

impl<T> MyBox<T> {
    pub fn new(x: T) -> (b: MyBox<T>)
        ensures
            b.0 == x,
    {
        MyBox(x)
    }
}

impl<T> std::ops::Deref for MyBox<T> {
    type Target = T;

    fn deref(&self) -> (r: &T)
        ensures
            *r == self.0,
    {
        &self.0
    }
}

/// Splits `values` at `mid` into two halves that can be changed
/// independently.
pub fn split_at_mut(values: &mut [i32], mid: usize) -> (halves: (&mut [i32], &mut [i32]))
    requires
        mid <= old(values)@.len(),
    ensures
        halves.0@ == old(values)@.subrange(0, mid as int),
        halves.1@ == old(values)@.subrange(mid as int, old(values)@.len() as int),
        final(values)@ == final(halves.0)@ + final(halves.1)@,
{
    values.split_at_mut(mid)
}

} // verus!
