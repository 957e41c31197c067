//! A box that the stub firmware shares with the code it runs: a value on the
//! heap that both sides reach, or nothing yet.

use crate::firmware::Object;
use vstd::prelude::*;

verus! {

/// A value on the heap, or nothing (the default).
#[derive(Debug)]
pub struct SharedBox<T> {
    value: Option<Box<T>>,
}

impl<T> SharedBox<T> {
    /// The value held, if any.
    pub closed spec fn contents(&self) -> Option<T> {
        match self.value {
            Some(b) => Some(*b),
            None => None,
        }
    }

    /// A box holding a copy of `val`.
    pub fn new(val: &T) -> (b: Self)
        where
            T: Copy,
        ensures
            b.contents() == Some(*val),
    {
        SharedBox { value: Some(Box::new(*val)) }
    }

    /// Access to the value; the box must hold one.
    pub fn as_mut_ptr(&mut self) -> (r: &mut T)
        requires
            old(self).contents() is Some,
        ensures
            *r == old(self).contents()->0,
            final(self).contents() == Some(*final(r)),
    {
        match &mut self.value {
            Some(b) => &mut **b,
            None => unreached(),
        }
    }
}

impl<T> Default for SharedBox<T> {
    /// An empty box.
    fn default() -> (b: Self)
        ensures
            b.contents() is None,
    {
        SharedBox { value: None }
    }
}


/// A protocol's data on the heap, shared with the code the firmware runs.
#[derive(Debug)]
pub struct SharedAnyBox {
    value: Box<Object>,
}

impl SharedAnyBox {
    /// The data held.
    pub closed spec fn contents(&self) -> Object {
        *self.value
    }

    /// A box holding `val`.
    pub fn new(val: Object) -> (b: Self)
        ensures
            b.contents() == val,
    {
        SharedAnyBox { value: Box::new(val) }
    }

    /// Access to the data.
    pub fn as_mut_ptr(&mut self) -> (r: &mut Object)
        ensures
            *r == old(self).contents(),
            final(self).contents() == *final(r),
    {
        &mut *self.value
    }
}

} // verus!
