//! The random number generator protocol: asking which algorithms it
//! offers, and the stub firmware's generator.

use crate::guid::Guid;
use crate::status::{Status, BUFFER_TOO_SMALL, SUCCESS};
use vstd::prelude::*;

verus! {

/// The raw algorithm: entropy straight from the source,
/// `e43176d7-b6e8-4827-b784-7ffdc4b68561`.
pub const ALGORITHM_RAW: u128 = 0x6185b6c4fd7f84b74827b6e8e43176d7;

/// The size in bytes of an algorithm identifier (a GUID).
pub const ALGORITHM_SIZE: usize = 16;

/// The stub's list of algorithms: it reports the raw algorithm alone and
/// writes it first in the list, whatever size the list was said to have.
/// The list must have room for it.
pub fn stub_get_info(algorithm_list_size: &mut usize, algorithm_list: &mut Vec<Guid>) -> (status: Status)
    requires
        old(algorithm_list)@.len() >= 1,
    ensures
        status.0 == SUCCESS,
        *final(algorithm_list_size) == ALGORITHM_SIZE,
        final(algorithm_list)@ == old(algorithm_list)@.update(0, Guid(ALGORITHM_RAW)),
{
    *algorithm_list_size = ALGORITHM_SIZE;
    algorithm_list.set(0, Guid(ALGORITHM_RAW));
    Status(SUCCESS)
}

/// The stub's random numbers: every byte is 1.
pub fn stub_get_rng(algorithm: Option<Guid>, value: &mut Vec<u8>) -> (status: Status)
    ensures
        status.0 == SUCCESS,
        final(value)@.len() == old(value)@.len(),
        forall|i: int| 0 <= i < final(value)@.len() ==> final(value)@[i] == 1,
{
    let mut i: usize = 0;
    while i < value.len()
        invariant
            i <= value@.len(),
            value@.len() == old(value)@.len(),
            forall|j: int| 0 <= j < i ==> value@[j] == 1,
        decreases value@.len() - i,
    {
        value.set(i, 1);
        i = i + 1;
    }
    Status(SUCCESS)
}

/// What asking for the algorithms returns, given what the firmware
/// answered: the number of identifiers
/// written on success, the size in bytes needed if the list was too small,
/// and nothing on any other failure.
pub open spec fn info_result(status: Status, size_in_bytes: nat) -> Result<nat, Option<nat>> {
    if status.0 == SUCCESS {
        Ok(size_in_bytes / (ALGORITHM_SIZE as nat))
    } else if status.0 == BUFFER_TOO_SMALL {
        Err(Some(size_in_bytes))
    } else {
        Err(None)
    }
}

/// A random number generator: the stub's.
pub struct Rng;

impl Rng {
    /// Returns the algorithms the generator offers, written at the start of
    /// `algorithm_list`: on success the number written. If the list is too
    /// small, the error holds the size in bytes needed.
    pub fn get_info(&mut self, algorithm_list: &mut Vec<Guid>) -> (r: Result<usize, Option<usize>>)
        requires
            old(algorithm_list)@.len() >= 1,
            old(algorithm_list)@.len() * ALGORITHM_SIZE <= usize::MAX,
        ensures
            r == Ok::<usize, Option<usize>>(1),
            final(algorithm_list)@ == old(algorithm_list)@.update(0, Guid(ALGORITHM_RAW)),
    {
        let mut algorithm_list_size = algorithm_list.len() * ALGORITHM_SIZE;
        let status = stub_get_info(&mut algorithm_list_size, algorithm_list);
        let r = Rng::info_result(status, algorithm_list_size);
        r
    }

    /// What asking for the algorithms returns for the firmware's answer.
    pub fn info_result(status: Status, algorithm_list_size: usize) -> (r: Result<usize, Option<usize>>)
        ensures
            match info_result(status, algorithm_list_size as nat) {
                Ok(n) => r == Ok::<usize, Option<usize>>(n as usize),
                Err(Some(n)) => r == Err::<usize, Option<usize>>(Some(n as usize)),
                Err(None) => r == Err::<usize, Option<usize>>(None),
            },
    {
        if status.0 == SUCCESS {
            Ok(algorithm_list_size / ALGORITHM_SIZE)
        } else if status.0 == BUFFER_TOO_SMALL {
            Err(Some(algorithm_list_size))
        } else {
            Err(None)
        }
    }

    /// Fills `buffer` with random numbers from `algorithm`, or from the
    /// default algorithm when none is given.
    pub fn get_rng(&mut self, algorithm: Option<Guid>, buffer: &mut Vec<u8>) -> (r: Result<(), Status>)
        ensures
            r is Ok,
            final(buffer)@.len() == old(buffer)@.len(),
            forall|i: int| 0 <= i < final(buffer)@.len() ==> final(buffer)@[i] == 1,
    {
        let status = stub_get_rng(algorithm, buffer);
        if status.0 == SUCCESS {
            Ok(())
        } else {
            Err(status)
        }
    }
}

} // verus!
