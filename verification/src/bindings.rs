//! Kernel argument bindings and dispatch.
//!
//! Each kernel keeps a named-argument table; an argument is either unbound
//! or bound to a device buffer by identifier. A buffer that was released by
//! a resize leaves its binding *stale*: the identifier no longer names live
//! memory. Dispatching with an unbound or stale argument, or with a buffer
//! of the wrong size for the dispatch domain, is rejected with
//! `KernelDispatchFailed` before anything runs — the model's rendering of
//! what would be undefined behaviour on a real device.
//!
//! The kernels themselves are opaque external programs; a dispatch claims
//! nothing about what they write into their target buffers.

use vstd::prelude::*;

use crate::device::BufferId;
use crate::device::DeviceContext;
use crate::error::EngineError;
use crate::resources::checked_cube;
use crate::resources::checked_frame_bytes;
use crate::resources::cube;
use crate::resources::frame_bytes;

verus! {

/// Named arguments of the voxel-fill kernel.
#[derive(Clone, Copy, Debug, PartialEq, Eq)]
pub struct FillBindings {
    /// The voxel volume the kernel writes, read-write.
    pub voxels: Option<BufferId>,
    /// The shape parameter, a float scalar given as its bit pattern.
    pub power_bits: Option<u32>,
}

/// Named arguments of the ray-march kernel.
#[derive(Clone, Copy, Debug, PartialEq, Eq)]
pub struct RenderBindings {
    /// The voxel volume the kernel reads.
    pub voxels: Option<BufferId>,
    /// The colour buffer it writes, four bytes per pixel.
    pub image: Option<BufferId>,
    /// The encoded camera configuration, 18 words of four bytes.
    pub config: Option<BufferId>,
    /// The per-pixel debug buffer it writes, one word per pixel.
    pub debug: Option<BufferId>,
}

/// The byte size of the encoded camera configuration: 18 words.
pub open spec fn config_bytes() -> nat {
    72
}

/// Every argument of a fill dispatch over an `edge` cubed domain is bound
/// to a live buffer of the right size.
pub open spec fn fill_bindings_valid(b: FillBindings, dev: DeviceContext, edge: nat) -> bool {
    &&& b.voxels matches Some(id) && dev.live(id) && dev.size(id) == cube(edge)
    &&& b.power_bits is Some
}

/// Every argument of a render dispatch over a `w` by `h` domain is bound to
/// a live buffer of the right size.
pub open spec fn render_bindings_valid(b: RenderBindings, dev: DeviceContext, w: nat, h: nat) -> bool {
    &&& b.voxels matches Some(id) && dev.live(id)
    &&& b.image matches Some(id) && dev.live(id) && dev.size(id) == frame_bytes(w, h)
    &&& b.config matches Some(id) && dev.live(id) && dev.size(id) == config_bytes()
    &&& b.debug matches Some(id) && dev.live(id) && dev.size(id) == frame_bytes(w, h)
}

/// Dispatch the voxel-fill kernel over an `edge_length` cubed domain. The
/// dispatch succeeds exactly when every named argument is bound and live
/// and the volume matches the domain; it never touches the device's
/// allocation structure, and what the kernel writes into the voxel buffer
/// is left unspecified.
pub fn dispatch_fill(dev: &mut DeviceContext, b: &FillBindings, edge_length: usize) -> (r: Result<
    (),
    EngineError,
>)
    ensures
        r is Ok <==> fill_bindings_valid(*b, *old(dev), edge_length as nat),
        r is Err ==> r == Err::<(), EngineError>(EngineError::KernelDispatchFailed),
        final(dev).cap() == old(dev).cap(),
        final(dev).slots().len() == old(dev).slots().len(),
        forall|i: BufferId| final(dev).live(i) == old(dev).live(i),
        forall|i: BufferId|
            old(dev).live(i) ==> #[trigger] final(dev).size(i) == old(dev).size(i),
        forall|i: BufferId|
            old(dev).live(i) && b.voxels != Some(i) ==> #[trigger] final(dev).contents(i) == old(
                dev,
            ).contents(i),
{
    let vox_ok: bool = match b.voxels {
        Some(id) => {
            if dev.is_live(id) {
                let sz: usize = dev.buffer_size(id);
                match checked_cube(edge_length) {
                    Some(bytes) => sz == bytes,
                    None => false,
                }
            } else {
                false
            }
        },
        None => false,
    };
    if vox_ok && b.power_bits.is_some() {
        Ok(())
    } else {
        Err(EngineError::KernelDispatchFailed)
    }
}

/// Dispatch the ray-march kernel over a `w` by `h` domain. The dispatch
/// succeeds exactly when every named argument is bound and live and the
/// image, config and debug buffers match the domain; it never touches the
/// device's allocation structure, and what the kernel writes into the
/// colour and debug buffers is left unspecified.
pub fn dispatch_render(dev: &mut DeviceContext, b: &RenderBindings, w: usize, h: usize) -> (r:
    Result<(), EngineError>)
    ensures
        r is Ok <==> render_bindings_valid(*b, *old(dev), w as nat, h as nat),
        r is Err ==> r == Err::<(), EngineError>(EngineError::KernelDispatchFailed),
        final(dev).cap() == old(dev).cap(),
        final(dev).slots().len() == old(dev).slots().len(),
        forall|i: BufferId| final(dev).live(i) == old(dev).live(i),
        forall|i: BufferId|
            old(dev).live(i) ==> #[trigger] final(dev).size(i) == old(dev).size(i),
        forall|i: BufferId|
            old(dev).live(i) && b.image != Some(i) && b.debug != Some(i)
                ==> #[trigger] final(dev).contents(i) == old(dev).contents(i),
{
    let plane_opt: Option<usize> = checked_frame_bytes(w, h);
    let vox_ok: bool = match b.voxels {
        Some(id) => dev.is_live(id),
        None => false,
    };
    let image_ok: bool = match b.image {
        Some(id) => {
            if dev.is_live(id) {
                let sz: usize = dev.buffer_size(id);
                match plane_opt {
                    Some(p) => sz == p,
                    None => false,
                }
            } else {
                false
            }
        },
        None => false,
    };
    let config_ok: bool = match b.config {
        Some(id) => dev.is_live(id) && dev.buffer_size(id) == 72,
        None => false,
    };
    let debug_ok: bool = match b.debug {
        Some(id) => {
            if dev.is_live(id) {
                let sz: usize = dev.buffer_size(id);
                match plane_opt {
                    Some(p) => sz == p,
                    None => false,
                }
            } else {
                false
            }
        },
        None => false,
    };
    if vox_ok && image_ok && config_ok && debug_ok {
        Ok(())
    } else {
        Err(EngineError::KernelDispatchFailed)
    }
}

} // verus!
