//! Camera configuration codec.
//!
//! The ray-march kernel reads one flat array of 18 single-precision values:
//! eye (3), view-plane centre (3), view-plane right (3), view-plane down
//! (3), light (3), voxel size (3, all equal to the edge length). Every
//! camera component arrives in normalised voxel space, where the volume
//! spans the unit cube, and is multiplied by the edge length so that the
//! kernel works in absolute voxel coordinates. This slot order is the wire
//! contract with the kernel and must never change.
//!
//! Float components are carried as raw bit patterns; the scaling is the
//! verified integer multiply of `fbits`.

use vstd::prelude::*;

use vstd::arithmetic::div_mod::lemma_fundamental_div_mod_converse;

use crate::fbits::is_finite_bits;
use crate::fbits::spec_scale;
use crate::fbits::scale_component;

verus! {

/// A three-component float vector, each component a raw single-precision
/// bit pattern.
#[derive(Clone, Copy, Debug, PartialEq, Eq, Structural)]
pub struct Vec3Bits {
    pub x: u32,
    pub y: u32,
    pub z: u32,
}

/// A camera and lighting description in normalised voxel space: the volume
/// spans the unit cube, so a coordinate of one half points at its middle.
#[derive(Clone, Copy, Debug, PartialEq, Eq, Structural)]
pub struct CameraDescription {
    /// Position of the eye.
    pub eye: Vec3Bits,
    /// Point the eye looks at, centre of the view plane.
    pub view_plane_center: Vec3Bits,
    /// Half-extent of the view plane to the right.
    pub view_plane_right: Vec3Bits,
    /// Half-extent of the view plane downwards.
    pub view_plane_down: Vec3Bits,
    /// Direction of the light.
    pub light: Vec3Bits,
}

/// Every component of the description is a finite float: no infinity, no
/// NaN.
pub open spec fn camera_finite(cam: CameraDescription) -> bool {
    &&& is_finite_bits(cam.eye.x)
    &&& is_finite_bits(cam.eye.y)
    &&& is_finite_bits(cam.eye.z)
    &&& is_finite_bits(cam.view_plane_center.x)
    &&& is_finite_bits(cam.view_plane_center.y)
    &&& is_finite_bits(cam.view_plane_center.z)
    &&& is_finite_bits(cam.view_plane_right.x)
    &&& is_finite_bits(cam.view_plane_right.y)
    &&& is_finite_bits(cam.view_plane_right.z)
    &&& is_finite_bits(cam.view_plane_down.x)
    &&& is_finite_bits(cam.view_plane_down.y)
    &&& is_finite_bits(cam.view_plane_down.z)
    &&& is_finite_bits(cam.light.x)
    &&& is_finite_bits(cam.light.y)
    &&& is_finite_bits(cam.light.z)
}

/// The float bit pattern of the integer edge length: scaling one by it.
pub open spec fn edge_len_bits(l: u32) -> u32 {
    spec_scale(0x3F80_0000, l)
}

/// The encoded configuration: eighteen slots in the kernel's fixed order.
pub open spec fn spec_encode(cam: CameraDescription, l: u32) -> Seq<u32> {
    seq![
        spec_scale(cam.eye.x, l),
        spec_scale(cam.eye.y, l),
        spec_scale(cam.eye.z, l),
        spec_scale(cam.view_plane_center.x, l),
        spec_scale(cam.view_plane_center.y, l),
        spec_scale(cam.view_plane_center.z, l),
        spec_scale(cam.view_plane_right.x, l),
        spec_scale(cam.view_plane_right.y, l),
        spec_scale(cam.view_plane_right.z, l),
        spec_scale(cam.view_plane_down.x, l),
        spec_scale(cam.view_plane_down.y, l),
        spec_scale(cam.view_plane_down.z, l),
        spec_scale(cam.light.x, l),
        spec_scale(cam.light.y, l),
        spec_scale(cam.light.z, l),
        edge_len_bits(l),
        edge_len_bits(l),
        edge_len_bits(l),
    ]
}

/// Encode a camera description for the given edge length. Pure and
/// deterministic: the result is a function of the two arguments alone.
pub fn encode(cam: &CameraDescription, edge_length: u32) -> (r: Vec<u32>)
    requires
        edge_length >= 1,
    ensures
        r@ == spec_encode(*cam, edge_length),
        r@.len() == 18,
{
    let mut r: Vec<u32> = Vec::new();
    r.push(scale_component(cam.eye.x, edge_length));
    r.push(scale_component(cam.eye.y, edge_length));
    r.push(scale_component(cam.eye.z, edge_length));
    r.push(scale_component(cam.view_plane_center.x, edge_length));
    r.push(scale_component(cam.view_plane_center.y, edge_length));
    r.push(scale_component(cam.view_plane_center.z, edge_length));
    r.push(scale_component(cam.view_plane_right.x, edge_length));
    r.push(scale_component(cam.view_plane_right.y, edge_length));
    r.push(scale_component(cam.view_plane_right.z, edge_length));
    r.push(scale_component(cam.view_plane_down.x, edge_length));
    r.push(scale_component(cam.view_plane_down.y, edge_length));
    r.push(scale_component(cam.view_plane_down.z, edge_length));
    r.push(scale_component(cam.light.x, edge_length));
    r.push(scale_component(cam.light.y, edge_length));
    r.push(scale_component(cam.light.z, edge_length));
    let edge_bits: u32 = scale_component(0x3F80_0000, edge_length);
    r.push(edge_bits);
    r.push(edge_bits);
    r.push(edge_bits);
    proof {
        assert(r@ =~= spec_encode(*cam, edge_length));
    }
    r
}

/// Byte `k` (0 = least significant) of a 32-bit word.
pub open spec fn word_byte(w: u32, k: int) -> u8 {
    if k == 0 {
        (w & 0xFF) as u8
    } else if k == 1 {
        ((w >> 8) & 0xFF) as u8
    } else if k == 2 {
        ((w >> 16) & 0xFF) as u8
    } else {
        ((w >> 24) & 0xFF) as u8
    }
}

/// The little-endian byte image of a word sequence: four bytes per word,
/// least significant first.
pub open spec fn le_bytes_of_words(ws: Seq<u32>) -> Seq<u8> {
    Seq::new(ws.len() * 4, |i: int| word_byte(ws[i / 4], i % 4))
}

/// The word sequence read back from a little-endian byte image.
pub open spec fn le_words_of_bytes(bs: Seq<u8>) -> Seq<u32> {
    Seq::new(
        bs.len() / 4,
        |i: int| (bs[4 * i] as nat + bs[4 * i + 1] as nat * 0x100 + bs[4 * i + 2] as nat * 0x1_0000
            + bs[4 * i + 3] as nat * 0x100_0000) as u32,
    )
}

/// Serialise words to little-endian bytes, four per word.
pub fn words_to_le_bytes(ws: &Vec<u32>) -> (out: Vec<u8>)
    ensures
        out@ == le_bytes_of_words(ws@),
        out@.len() == ws@.len() * 4,
{
    let mut out: Vec<u8> = Vec::new();
    let mut i: usize = 0;
    while i < ws.len()
        invariant
            i <= ws@.len(),
            out@.len() == i * 4,
            forall|j: int| 0 <= j < i * 4 ==> out@[j] == le_bytes_of_words(ws@)[j],
        decreases ws@.len() - i,
    {
        let w: u32 = ws[i];
        out.push((w & 0xFF) as u8);
        out.push(((w >> 8) & 0xFF) as u8);
        out.push(((w >> 16) & 0xFF) as u8);
        out.push(((w >> 24) & 0xFF) as u8);
        proof {
            lemma_fundamental_div_mod_converse(4 * i + 0, 4, i as int, 0);
            lemma_fundamental_div_mod_converse(4 * i + 1, 4, i as int, 1);
            lemma_fundamental_div_mod_converse(4 * i + 2, 4, i as int, 2);
            lemma_fundamental_div_mod_converse(4 * i + 3, 4, i as int, 3);
        }
        i += 1;
    }
    proof {
        assert(out@ =~= le_bytes_of_words(ws@));
    }
    out
}

/// Read words back from little-endian bytes; the byte count must be a
/// multiple of four.
pub fn bytes_to_le_words(bs: &Vec<u8>) -> (out: Vec<u32>)
    requires
        bs@.len() % 4 == 0,
    ensures
        out@ == le_words_of_bytes(bs@),
        out@.len() == bs@.len() / 4,
{
    let mut out: Vec<u32> = Vec::new();
    let mut i: usize = 0;
    let len: usize = bs.len();
    let n: usize = len / 4;
    proof {
        assert(n * 4 == bs@.len()) by {
            vstd::arithmetic::div_mod::lemma_fundamental_div_mod(bs@.len() as int, 4);
        };
    }
    while i < n
        invariant
            i <= n,
            len == bs@.len(),
            n * 4 == bs@.len(),
            n == bs@.len() / 4,
            out@.len() == i,
            forall|j: int| 0 <= j < i ==> out@[j] == le_words_of_bytes(bs@)[j],
        decreases n - i,
    {
        proof {
            assert(4 * i + 3 < bs@.len()) by (nonlinear_arith)
                requires
                    i < n,
                    n * 4 == bs@.len(),
            ;
        }
        let b0: u32 = bs[4 * i] as u32;
        let b1: u32 = bs[4 * i + 1] as u32;
        let b2: u32 = bs[4 * i + 2] as u32;
        let b3: u32 = bs[4 * i + 3] as u32;
        let w: u32 = b0 + b1 * 0x100 + b2 * 0x1_0000 + b3 * 0x100_0000;
        out.push(w);
        i += 1;
    }
    proof {
        assert(out@ =~= le_words_of_bytes(bs@));
    }
    out
}

} // verus!
