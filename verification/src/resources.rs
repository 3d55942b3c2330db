//! Device-resident resources with resize-on-demand.
//!
//! `VolumeResource` owns the voxel grid buffer, `FrameResource` the colour
//! and debug buffers of the output image. Both follow the same protocol:
//! asking for the current size is a no-op that keeps the same storage;
//! asking for a different size allocates first and only then releases the
//! old buffer, so a failed allocation leaves the resource valid and
//! untouched at its old size.

use vstd::prelude::*;

use vstd::arithmetic::div_mod::lemma_fundamental_div_mod;
use vstd::arithmetic::mul::lemma_mul_inequality;

use crate::device::BufferId;
use crate::device::DeviceContext;
use crate::device::zero_bytes;
use crate::error::EngineError;

verus! {

/// The number of voxels, and bytes, of a cubic volume with edge `n`.
pub open spec fn cube(n: nat) -> nat {
    n * n * n
}

/// The byte size of one image plane: four bytes per pixel. The colour
/// buffer holds four colour channels, the debug buffer one 32-bit value.
pub open spec fn frame_bytes(w: nat, h: nat) -> nat {
    w * h * 4
}

/// Whether a volume of edge `n` can be allocated under the per-allocation
/// capacity `cap`. The edge must also fit the 32-bit camera scaling and the
/// byte count must fit the host word.
pub open spec fn volume_fits(n: nat, cap: nat) -> bool {
    &&& 1 <= n <= u32::MAX
    &&& cube(n) <= cap
    &&& cube(n) <= usize::MAX
}

/// Whether an image of `w` by `h` pixels can be allocated under the
/// per-allocation capacity `cap`.
pub open spec fn frame_fits(w: nat, h: nat, cap: nat) -> bool {
    &&& 1 <= w
    &&& 1 <= h
    &&& frame_bytes(w, h) <= cap
    &&& frame_bytes(w, h) <= usize::MAX
}

/// Multiply two host words, reporting overflow instead of wrapping.
pub fn checked_mul_usize(a: usize, b: usize) -> (r: Option<usize>)
    ensures
        match r {
            Some(p) => p == a * b,
            None => a * b > usize::MAX,
        },
{
    if b == 0 {
        return Some(0);
    }
    let q: usize = usize::MAX / b;
    proof {
        lemma_fundamental_div_mod(usize::MAX as int, b as int);
        if a <= q {
            lemma_mul_inequality(a as int, q as int, b as int);
        } else {
            assert(a * b > usize::MAX) by (nonlinear_arith)
                requires
                    a >= q + 1,
                    b >= 1,
                    usize::MAX == b * q + ((usize::MAX as int) % (b as int)),
                    ((usize::MAX as int) % (b as int)) < b,
            ;
        }
    }
    if a <= q {
        Some(a * b)
    } else {
        None
    }
}

/// The byte size of a volume with edge `n`, or `None` when it exceeds the
/// host word.
pub fn checked_cube(n: usize) -> (r: Option<usize>)
    ensures
        match r {
            Some(b) => b == cube(n as nat),
            None => cube(n as nat) > usize::MAX,
        },
{
    let sq: usize = match checked_mul_usize(n, n) {
        Some(v) => v,
        None => {
            proof {
                assert(cube(n as nat) > usize::MAX) by (nonlinear_arith)
                    requires
                        n * n > usize::MAX,
                ;
            }
            return None;
        },
    };
    match checked_mul_usize(sq, n) {
        Some(v) => {
            proof {
                assert(v == cube(n as nat)) by (nonlinear_arith)
                    requires
                        sq == n * n,
                        v == sq * n,
                ;
            }
            Some(v)
        },
        None => {
            proof {
                assert(cube(n as nat) > usize::MAX) by (nonlinear_arith)
                    requires
                        sq == n * n,
                        sq * n > usize::MAX,
                ;
            }
            None
        },
    }
}

/// The byte size of one `w` by `h` image plane, or `None` when it exceeds
/// the host word.
pub fn checked_frame_bytes(w: usize, h: usize) -> (r: Option<usize>)
    ensures
        match r {
            Some(b) => b == frame_bytes(w as nat, h as nat),
            None => frame_bytes(w as nat, h as nat) > usize::MAX,
        },
{
    let px: usize = match checked_mul_usize(w, h) {
        Some(v) => v,
        None => {
            proof {
                assert(frame_bytes(w as nat, h as nat) > usize::MAX) by (nonlinear_arith)
                    requires
                        w * h > usize::MAX,
                ;
            }
            return None;
        },
    };
    match checked_mul_usize(px, 4) {
        Some(v) => {
            proof {
                assert(v == frame_bytes(w as nat, h as nat)) by (nonlinear_arith)
                    requires
                        px == w * h,
                        v == px * 4,
                ;
            }
            Some(v)
        },
        None => {
            proof {
                assert(frame_bytes(w as nat, h as nat) > usize::MAX) by (nonlinear_arith)
                    requires
                        px == w * h,
                        px * 4 > usize::MAX,
                ;
            }
            None
        },
    }
}

/// The voxel grid buffer and its current edge length.
pub struct VolumeResource {
    pub edge_length: usize,
    pub storage: BufferId,
}

impl VolumeResource {
    /// The storage is live on the device and exactly `edge_length` cubed
    /// bytes large.
    pub open spec fn wf(self, dev: DeviceContext) -> bool {
        &&& 1 <= self.edge_length <= u32::MAX
        &&& dev.live(self.storage)
        &&& dev.size(self.storage) == cube(self.edge_length as nat)
    }

    /// What `ensure_capacity` does, stated relationally so that laws can
    /// compose calls. Asking for the current edge length changes nothing
    /// and reports `Ok(false)`. A different edge length that fits yields a
    /// fresh zeroed buffer, releases the old one, and reports `Ok(true)`.
    /// Anything else fails with `AllocationFailed` and changes nothing.
    pub open spec fn ensure_capacity_post(
        pre_dev: DeviceContext,
        pre: Self,
        post_dev: DeviceContext,
        post: Self,
        n: usize,
        r: Result<bool, EngineError>,
    ) -> bool {
        &&& post_dev.cap() == pre_dev.cap()
        &&& if n == pre.edge_length {
            &&& r == Ok::<bool, EngineError>(false)
            &&& post == pre
            &&& post_dev == pre_dev
        } else if volume_fits(n as nat, pre_dev.cap() as nat) {
            &&& r == Ok::<bool, EngineError>(true)
            &&& post.edge_length == n
            &&& post.storage == pre_dev.slots().len()
            &&& post_dev.slots() == pre_dev.slots().push(
                Some(zero_bytes(cube(n as nat))),
            ).update(pre.storage as int, None)
        } else {
            &&& r == Err::<bool, EngineError>(EngineError::AllocationFailed)
            &&& post == pre
            &&& post_dev == pre_dev
        }
    }

    /// Make the storage hold exactly `n` cubed bytes, reallocating only
    /// when the edge length actually changes. Returns whether the buffer
    /// identity changed; on failure the resource keeps its old size and
    /// storage.
    pub fn ensure_capacity(&mut self, dev: &mut DeviceContext, n: usize) -> (r: Result<
        bool,
        EngineError,
    >)
        requires
            old(self).wf(*old(dev)),
        ensures
            Self::ensure_capacity_post(*old(dev), *old(self), *final(dev), *final(self), n, r),
            final(self).wf(*final(dev)),
    {
        if n == self.edge_length {
            return Ok(false);
        }
        if n == 0 || n > 0xFFFF_FFFFusize {
            return Err(EngineError::AllocationFailed);
        }
        let bytes: usize = match checked_cube(n) {
            Some(v) => v,
            None => {
                return Err(EngineError::AllocationFailed);
            },
        };
        proof {
            assert(bytes >= 1) by (nonlinear_arith)
                requires
                    1 <= n,
                    bytes == n * n * n,
            ;
        }
        match dev.allocate(bytes) {
            Ok(id) => {
                dev.free(self.storage);
                self.storage = id;
                self.edge_length = n;
                Ok(true)
            },
            Err(e) => Err(e),
        }
    }
}

/// The colour and debug buffers of the output image, always resized
/// together.
pub struct FrameResource {
    pub width: usize,
    pub height: usize,
    pub color: BufferId,
    pub debug: BufferId,
}

impl FrameResource {
    /// Both buffers are live, distinct, and exactly one image plane large.
    pub open spec fn wf(self, dev: DeviceContext) -> bool {
        &&& 1 <= self.width
        &&& 1 <= self.height
        &&& dev.live(self.color)
        &&& dev.live(self.debug)
        &&& self.color != self.debug
        &&& dev.size(self.color) == frame_bytes(self.width as nat, self.height as nat)
        &&& dev.size(self.debug) == frame_bytes(self.width as nat, self.height as nat)
    }

    /// What `ensure_capacity` does: the frame counterpart of the volume
    /// contract, producing two fresh co-sized buffers on an actual resize.
    pub open spec fn ensure_capacity_post(
        pre_dev: DeviceContext,
        pre: Self,
        post_dev: DeviceContext,
        post: Self,
        w: usize,
        h: usize,
        r: Result<bool, EngineError>,
    ) -> bool {
        &&& post_dev.cap() == pre_dev.cap()
        &&& if w == pre.width && h == pre.height {
            &&& r == Ok::<bool, EngineError>(false)
            &&& post == pre
            &&& post_dev == pre_dev
        } else if frame_fits(w as nat, h as nat, pre_dev.cap() as nat) {
            &&& r == Ok::<bool, EngineError>(true)
            &&& post.width == w
            &&& post.height == h
            &&& post.color == pre_dev.slots().len()
            &&& post.debug == pre_dev.slots().len() + 1
            &&& post_dev.slots() == pre_dev.slots().push(
                Some(zero_bytes(frame_bytes(w as nat, h as nat))),
            ).push(Some(zero_bytes(frame_bytes(w as nat, h as nat)))).update(
                pre.color as int,
                None,
            ).update(pre.debug as int, None)
        } else {
            &&& r == Err::<bool, EngineError>(EngineError::AllocationFailed)
            &&& post == pre
            &&& post_dev == pre_dev
        }
    }

    /// Make both buffers hold exactly one `w` by `h` plane, reallocating
    /// only when the size actually changes. Returns whether the buffer
    /// identities changed; on failure the resource keeps its old size and
    /// storage.
    pub fn ensure_capacity(&mut self, dev: &mut DeviceContext, w: usize, h: usize) -> (r: Result<
        bool,
        EngineError,
    >)
        requires
            old(self).wf(*old(dev)),
        ensures
            Self::ensure_capacity_post(*old(dev), *old(self), *final(dev), *final(self), w, h, r),
            final(self).wf(*final(dev)),
    {
        if w == self.width && h == self.height {
            return Ok(false);
        }
        if w == 0 || h == 0 {
            return Err(EngineError::AllocationFailed);
        }
        let bytes: usize = match checked_frame_bytes(w, h) {
            Some(v) => v,
            None => {
                return Err(EngineError::AllocationFailed);
            },
        };
        proof {
            assert(bytes >= 1) by (nonlinear_arith)
                requires
                    1 <= w,
                    1 <= h,
                    bytes == w * h * 4,
            ;
        }
        let color_id: BufferId = match dev.allocate(bytes) {
            Ok(id) => id,
            Err(e) => {
                return Err(e);
            },
        };
        let debug_id: BufferId = match dev.allocate(bytes) {
            Ok(id) => id,
            Err(_) => {
                proof {
                    // the first allocation of the same size succeeded, so
                    // the second cannot be refused
                    assert(false);
                }
                return Err(EngineError::AllocationFailed);
            },
        };
        dev.free(self.color);
        dev.free(self.debug);
        self.color = color_id;
        self.debug = debug_id;
        self.width = w;
        self.height = h;
        Ok(true)
    }
}

} // verus!
