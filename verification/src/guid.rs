//! Globally unique identifiers.

use vstd::prelude::*;

verus! {

/// A GUID: sixteen bytes, held as one number whose little-endian bytes are
/// the GUID's bytes in memory order.
#[derive(Clone, Copy, Debug, PartialEq, Eq, Structural)]
pub struct Guid(pub u128);

/// The device path protocol, `09576e91-6d3f-11d2-8e39-00a0c969723b`.
pub const DEVICE_PATH: u128 = 0x3b7269c9a000398e11d26d3f09576e91;
/// The loaded image protocol, `5b1b31a1-9562-11d2-8e3f-00a0c969723b`.
pub const LOADED_IMAGE: u128 = 0x3b7269c9a0003f8e11d295625b1b31a1;
/// The loaded image device path protocol, `bc62157e-3e33-4fec-9920-2d3b36d750df`.
pub const LOADED_IMAGE_DEVICE_PATH: u128 = 0xdf50d7363b2d20994fec3e33bc62157e;
/// The simple text output protocol, `387477c2-69c7-11d2-8e39-00a0c969723b`.
pub const SIMPLE_TEXT_OUTPUT: u128 = 0x3b7269c9a000398e11d269c7387477c2;
/// The simple text input protocol, `387477c1-69c7-11d2-8e39-00a0c969723b`.
pub const SIMPLE_TEXT_INPUT: u128 = 0x3b7269c9a000398e11d269c7387477c1;
/// The simple file system protocol, `964e5b22-6459-11d2-8e39-00a0c969723b`.
pub const SIMPLE_FILE_SYSTEM: u128 = 0x3b7269c9a000398e11d26459964e5b22;
/// The device path to text protocol, `8b843e20-8132-4852-90cc-551a4e4a7f1c`.
pub const DEVICE_PATH_TO_TEXT: u128 = 0x1c7f4a4e1a55cc90485281328b843e20;
/// The device path from text protocol, `05c99a21-c70f-4ad2-8a5f-35df3343f51e`.
pub const DEVICE_PATH_FROM_TEXT: u128 = 0x1ef54333df355f8a4ad2c70f05c99a21;
/// The serial I/O protocol, `bb25cf6f-f1d4-11d2-9a0c-0090273fc1fd`.
pub const SERIAL_IO: u128 = 0xfdc13f2790000c9a11d2f1d4bb25cf6f;
/// The graphics output protocol, `9042a9de-23dc-4a38-96fb-7aded080516a`.
pub const GRAPHICS_OUTPUT: u128 = 0x6a5180d0de7afb964a3823dc9042a9de;
/// The simple pointer protocol, `31878c87-0b75-11d5-9a4f-0090273fc14d`.
pub const SIMPLE_POINTER: u128 = 0x4dc13f2790004f9a11d50b7531878c87;
/// The random number generator protocol, `3152bca5-eade-433d-862e-c01cdc291f44`.
pub const RNG: u128 = 0x441f29dc1cc02e86433deade3152bca5;

} // verus!
