//! Strings that the firmware allocated from pool memory.

use crate::error::Error;
use vstd::prelude::*;

verus! {

/// A string allocated by the firmware from boot services pool memory, held
/// by its address.
#[derive(Debug)]
pub struct PoolString {
    text: usize,
}

impl PoolString {
    /// The address of the string.
    pub closed spec fn address(&self) -> usize {
        self.text
    }

    /// Takes hold of the string at `text`; a null address (zero) means that
    /// the firmware ran out of resources.
    pub fn new(text: usize) -> (r: Result<PoolString, Error>)
        ensures
            match r {
                Ok(s) => text != 0 && s.address() == text,
                Err(e) => text == 0 && e == Error::OutOfResources,
            },
    {
        if text == 0 {
            Err(Error::OutOfResources)
        } else {
            Ok(PoolString { text })
        }
    }

    /// The address of the string.
    pub fn as_addr(&self) -> (a: usize)
        ensures
            a == self.address(),
    {
        self.text
    }
}

} // verus!
