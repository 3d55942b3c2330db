//! Readback export: device buffers serialised for persistence.
//!
//! A dump is bincode's image of a vector: the element count as a 64-bit
//! little-endian integer, then the elements — raw bytes for the voxel
//! volume, four little-endian bytes per 32-bit value for the debug buffer.
//! Writing the dump to disk is the caller's business; this module only
//! produces host-owned bytes, blocking until the device copy is done.

use vstd::prelude::*;

use crate::codec::le_bytes_of_words;
use crate::codec::le_words_of_bytes;
use crate::engine::FractalComputeEngine;

verus! {

/// The eight little-endian bytes of a 64-bit count.
pub open spec fn u64_le_bytes(n: u64) -> Seq<u8> {
    le_bytes_of_words(seq![(n & 0xFFFF_FFFF) as u32, (n >> 32) as u32])
}

/// The dump of a byte sequence: its length as eight little-endian bytes,
/// then the bytes themselves.
pub open spec fn byte_dump(data: Seq<u8>) -> Seq<u8> {
    u64_le_bytes(data.len() as u64) + data
}

/// The dump of a word sequence: its length as eight little-endian bytes,
/// then each word as four little-endian bytes.
pub open spec fn word_dump(data: Seq<u32>) -> Seq<u8> {
    u64_le_bytes(data.len() as u64) + le_bytes_of_words(data)
}

/// Relies on `bincode::serialize` (bincode 1.3, default options): a byte
/// vector is written as its length in eight fixed-width little-endian
/// bytes followed by the raw bytes. Serialising into a growable vector
/// cannot fail — no size limit is configured and the writer is infallible.
#[verifier::external_body]
fn bincode_bytes(data: &Vec<u8>) -> (r: Vec<u8>)
    ensures
        r@ == byte_dump(data@),
{
    bincode::serialize(data).unwrap_or_default()
}

/// Relies on `bincode::serialize` (bincode 1.3, default options): a vector
/// of 32-bit values is written as its length in eight fixed-width
/// little-endian bytes followed by four little-endian bytes per element, so
/// a dump of raw float bit patterns is byte-identical to a dump of the
/// floats themselves. Serialising into a growable vector cannot fail.
#[verifier::external_body]
fn bincode_words(data: &Vec<u32>) -> (r: Vec<u8>)
    ensures
        r@ == word_dump(data@),
{
    bincode::serialize(data).unwrap_or_default()
}

/// The voxel dump: the volume's current bytes, length-prefixed.
pub fn voxel_dump(engine: &FractalComputeEngine) -> (r: Vec<u8>)
    requires
        engine.wf(),
    ensures
        r@ == byte_dump(engine.device.contents(engine.volume.storage)),
{
    let v: Vec<u8> = engine.save_voxels();
    bincode_bytes(&v)
}

/// The debug dump: the per-pixel 32-bit values, length-prefixed.
pub fn debug_dump(engine: &FractalComputeEngine) -> (r: Vec<u8>)
    requires
        engine.wf(),
    ensures
        r@ == word_dump(le_words_of_bytes(engine.device.contents(engine.frame.debug))),
{
    let v: Vec<u32> = engine.save_debug();
    bincode_words(&v)
}

} // verus!
