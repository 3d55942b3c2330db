//! The compute engine: owns the device context, the volume and frame
//! resources and the camera codec, enforces the resize/rebind protocol, and
//! exposes the operations callers use.
//!
//! The protocol it maintains: whenever a resize replaces a buffer, every
//! kernel argument naming the old buffer is rebound to the new one before
//! the next dispatch, so no dispatch ever sees a stale binding. The
//! contracts below make that a theorem: `fill_volume` and `render` can fail
//! only for allocation or caller-precondition reasons, never with
//! `KernelDispatchFailed` or `ReadbackFailed`.

use vstd::prelude::*;

use vstd::arithmetic::div_mod::lemma_div_by_multiple;
use vstd::arithmetic::div_mod::lemma_mod_multiples_basic;

use crate::bindings::FillBindings;
use crate::bindings::RenderBindings;
use crate::bindings::config_bytes;
use crate::bindings::dispatch_fill;
use crate::bindings::dispatch_render;
use crate::codec::CameraDescription;
use crate::codec::encode;
use crate::codec::le_bytes_of_words;
use crate::codec::le_words_of_bytes;
use crate::codec::bytes_to_le_words;
use crate::codec::spec_encode;
use crate::codec::words_to_le_bytes;
use crate::device::BufferId;
use crate::device::DeviceContext;
use crate::device::zero_bytes;
use crate::error::EngineError;
use crate::resources::FrameResource;
use crate::resources::VolumeResource;
use crate::resources::checked_frame_bytes;
use crate::resources::cube;
use crate::resources::frame_bytes;
use crate::resources::frame_fits;
use crate::resources::volume_fits;

verus! {

/// The engine. One engine exclusively owns one device context and the
/// resources living on it; nothing here is shared.
pub struct FractalComputeEngine {
    pub device: DeviceContext,
    pub volume: VolumeResource,
    pub frame: FrameResource,
    /// The persistent buffer the encoded camera configuration is uploaded
    /// into before each render dispatch.
    pub config: BufferId,
    /// Argument table of the voxel-fill kernel.
    pub fill_binding: FillBindings,
    /// Argument table of the ray-march kernel.
    pub render_binding: RenderBindings,
}

impl FractalComputeEngine {
    /// Both resources and the configuration buffer are live, correctly
    /// sized, and pairwise distinct. Bindings may be stale between calls;
    /// the operations rebind before every dispatch.
    pub open spec fn wf(self) -> bool {
        &&& self.volume.wf(self.device)
        &&& self.frame.wf(self.device)
        &&& self.device.live(self.config)
        &&& self.device.size(self.config) == config_bytes()
        &&& self.volume.storage != self.frame.color
        &&& self.volume.storage != self.frame.debug
        &&& self.volume.storage != self.config
        &&& self.frame.color != self.config
        &&& self.frame.debug != self.config
    }

    /// Build an engine that takes exclusive ownership of the given device
    /// context, holding dummy minimal resources: a volume of edge four and
    /// a four-by-four image, all zero-filled, with nothing bound yet.
    /// Construction fails exactly when the device's capacity limit cannot
    /// hold the 72-byte camera configuration, the largest initial
    /// allocation.
    pub fn new(device: DeviceContext) -> (r: Result<FractalComputeEngine, EngineError>)
        ensures
            if device.cap() >= 72 {
                &&& r matches Ok(eng)
                &&& eng.wf()
                &&& eng.volume.edge_length == 4
                &&& eng.frame.width == 4
                &&& eng.frame.height == 4
                &&& eng.device.cap() == device.cap()
                &&& eng.device.alloc_count() == device.alloc_count() + 4
                &&& eng.fill_binding == (FillBindings { voxels: None, power_bits: None })
                &&& eng.render_binding == (RenderBindings {
                    voxels: None,
                    image: None,
                    config: None,
                    debug: None,
                })
                &&& eng.device.contents(eng.volume.storage) == zero_bytes(64)
                &&& eng.device.contents(eng.frame.color) == zero_bytes(64)
                &&& eng.device.contents(eng.frame.debug) == zero_bytes(64)
                &&& eng.device.contents(eng.config) == zero_bytes(72)
            } else {
                r == Err::<FractalComputeEngine, EngineError>(EngineError::AllocationFailed)
            },
    {
        let mut device = device;
        let vox: BufferId = match device.allocate(64) {
            Ok(id) => id,
            Err(e) => {
                return Err(e);
            },
        };
        let color: BufferId = match device.allocate(64) {
            Ok(id) => id,
            Err(e) => {
                return Err(e);
            },
        };
        let debug: BufferId = match device.allocate(64) {
            Ok(id) => id,
            Err(e) => {
                return Err(e);
            },
        };
        let config: BufferId = match device.allocate(72) {
            Ok(id) => id,
            Err(e) => {
                return Err(e);
            },
        };
        Ok(
            FractalComputeEngine {
                device,
                volume: VolumeResource { edge_length: 4, storage: vox },
                frame: FrameResource { width: 4, height: 4, color, debug },
                config,
                fill_binding: FillBindings { voxels: None, power_bits: None },
                render_binding: RenderBindings {
                    voxels: None,
                    image: None,
                    config: None,
                    debug: None,
                },
            },
        )
    }

    /// What `fill_volume` does. It succeeds exactly when the volume already
    /// has the requested edge length or a volume of that edge fits the
    /// device; on failure nothing changes. On success the volume has the
    /// requested edge, the frame and the configuration buffer are untouched
    /// (resizing one resource never reallocates another), the fill kernel
    /// has its arguments bound to the current storage, and a reallocation
    /// happens only when the edge length actually changes. What the fill
    /// kernel writes into the voxel buffer is left unspecified.
    pub open spec fn fill_post(
        pre: Self,
        post: Self,
        n: usize,
        power_bits: u32,
        r: Result<(), EngineError>,
    ) -> bool {
        let same = n == pre.volume.edge_length;
        let fits = volume_fits(n as nat, pre.device.cap() as nat);
        if same || fits {
            &&& r == Ok::<(), EngineError>(())
            &&& post.volume.edge_length == n
            &&& post.frame == pre.frame
            &&& post.config == pre.config
            &&& post.device.cap() == pre.device.cap()
            &&& post.device.contents(pre.frame.color) == pre.device.contents(pre.frame.color)
            &&& post.device.contents(pre.frame.debug) == pre.device.contents(pre.frame.debug)
            &&& post.device.contents(pre.config) == pre.device.contents(pre.config)
            &&& post.fill_binding == (FillBindings {
                voxels: Some(post.volume.storage),
                power_bits: Some(power_bits),
            })
            &&& if same {
                &&& post.volume.storage == pre.volume.storage
                &&& post.device.alloc_count() == pre.device.alloc_count()
                &&& post.render_binding == pre.render_binding
            } else {
                &&& post.volume.storage == pre.device.alloc_count()
                &&& post.device.alloc_count() == pre.device.alloc_count() + 1
                &&& !post.device.live(pre.volume.storage)
                &&& post.render_binding == (RenderBindings {
                    voxels: None,
                    image: pre.render_binding.image,
                    config: pre.render_binding.config,
                    debug: pre.render_binding.debug,
                })
            }
        } else {
            &&& r == Err::<(), EngineError>(EngineError::AllocationFailed)
            &&& post == pre
        }
    }

    /// Resize the volume on demand, rebind, and dispatch the fill kernel
    /// over an `edge_length` cubed domain, one work item per voxel. A call
    /// that fails never leaves a partially updated engine, and no call can
    /// fail with `KernelDispatchFailed`: the protocol rebinds every
    /// argument the resize made stale before dispatching.
    pub fn fill_volume(&mut self, edge_length: usize, power_bits: u32) -> (r: Result<
        (),
        EngineError,
    >)
        requires
            old(self).wf(),
        ensures
            Self::fill_post(*old(self), *final(self), edge_length, power_bits, r),
            final(self).wf(),
    {
        let changed: bool = match self.volume.ensure_capacity(&mut self.device, edge_length) {
            Ok(c) => c,
            Err(e) => {
                return Err(e);
            },
        };
        if changed {
            // the old storage is gone: both kernels' voxel arguments are
            // stale until rebound
            self.fill_binding.voxels = None;
            self.render_binding.voxels = None;
        }
        self.fill_binding.voxels = Some(self.volume.storage);
        self.fill_binding.power_bits = Some(power_bits);
        match dispatch_fill(&mut self.device, &self.fill_binding, self.volume.edge_length) {
            Ok(u) => Ok(u),
            Err(_) => {
                proof {
                    // every argument was just rebound to live storage
                    assert(false);
                }
                Err(EngineError::KernelDispatchFailed)
            },
        }
    }

    /// What `render` does. An output buffer shorter than `w * h * 4` fails
    /// the precondition check before anything is allocated or dispatched
    /// and leaves the buffer untouched. Otherwise the call succeeds exactly
    /// when the frame already has the requested size or such a frame fits
    /// the device. On success: the frame has the requested size, the volume
    /// is untouched (its storage, its contents, and no reallocation), the
    /// configuration buffer holds the camera encoded for the *current* edge
    /// length, every render-kernel argument is bound to current storage,
    /// and the output buffer's first `w * h * 4` bytes hold the colour
    /// buffer's contents with the rest kept. On any failure the output
    /// buffer and the engine are unchanged — readback is all or nothing.
    pub open spec fn render_post(
        pre: Self,
        post: Self,
        out0: Seq<u8>,
        out1: Seq<u8>,
        w: usize,
        h: usize,
        cam: CameraDescription,
        r: Result<(), EngineError>,
    ) -> bool {
        let need = frame_bytes(w as nat, h as nat);
        let same = w == pre.frame.width && h == pre.frame.height;
        let fits = frame_fits(w as nat, h as nat, pre.device.cap() as nat);
        if out0.len() < need {
            &&& r == Err::<(), EngineError>(EngineError::PreconditionFailed)
            &&& post == pre
            &&& out1 == out0
        } else if same || fits {
            &&& r == Ok::<(), EngineError>(())
            &&& post.frame.width == w
            &&& post.frame.height == h
            &&& post.volume == pre.volume
            &&& post.config == pre.config
            &&& post.device.cap() == pre.device.cap()
            &&& post.device.contents(pre.volume.storage) == pre.device.contents(
                pre.volume.storage,
            )
            &&& post.device.contents(pre.config) == le_bytes_of_words(
                spec_encode(cam, pre.volume.edge_length as u32),
            )
            &&& post.render_binding == (RenderBindings {
                voxels: Some(post.volume.storage),
                image: Some(post.frame.color),
                config: Some(post.config),
                debug: Some(post.frame.debug),
            })
            &&& post.fill_binding == pre.fill_binding
            &&& out1 == post.device.contents(post.frame.color) + out0.skip(need as int)
            &&& if same {
                &&& post.frame == pre.frame
                &&& post.device.alloc_count() == pre.device.alloc_count()
            } else {
                &&& post.frame.color == pre.device.alloc_count()
                &&& post.frame.debug == pre.device.alloc_count() + 1
                &&& post.device.alloc_count() == pre.device.alloc_count() + 2
                &&& !post.device.live(pre.frame.color)
                &&& !post.device.live(pre.frame.debug)
            }
        } else {
            &&& r == Err::<(), EngineError>(EngineError::AllocationFailed)
            &&& post == pre
            &&& out1 == out0
        }
    }

    /// Resize the frame on demand, upload the camera configuration encoded
    /// for the current edge length, rebind every render-kernel argument,
    /// dispatch over a `width` by `height` domain, and copy the colour
    /// buffer into the caller's output buffer. Rendering before any fill is
    /// permitted and reads the zero-initialised volume. No call can fail
    /// with `KernelDispatchFailed` or `ReadbackFailed`.
    pub fn render(
        &mut self,
        out: &mut Vec<u8>,
        width: usize,
        height: usize,
        camera: &CameraDescription,
    ) -> (r: Result<(), EngineError>)
        requires
            old(self).wf(),
        ensures
            Self::render_post(
                *old(self),
                *final(self),
                old(out)@,
                final(out)@,
                width,
                height,
                *camera,
                r,
            ),
            final(self).wf(),
    {
        let out_len: usize = out.len();
        let need: usize = match checked_frame_bytes(width, height) {
            Some(b) => b,
            None => {
                // more bytes than the host can address: no buffer suffices
                return Err(EngineError::PreconditionFailed);
            },
        };
        if out_len < need {
            return Err(EngineError::PreconditionFailed);
        }
        let changed: bool = match self.frame.ensure_capacity(&mut self.device, width, height) {
            Ok(c) => c,
            Err(e) => {
                return Err(e);
            },
        };
        if changed {
            // the old image buffers are gone: those bindings are stale
            self.render_binding.image = None;
            self.render_binding.debug = None;
        }
        proof {
            assert(self.frame.width == width && self.frame.height == height);
            assert(self.volume == old(self).volume);
            assert(self.device.live(self.volume.storage));
            assert(self.device.live(self.config));
            assert(self.device.size(self.config) == config_bytes());
            assert(self.device.size(self.frame.color) == frame_bytes(
                width as nat,
                height as nat,
            ));
            assert(self.device.size(self.frame.debug) == frame_bytes(
                width as nat,
                height as nat,
            ));
            assert(self.frame.color != self.config && self.frame.debug != self.config);
            assert(self.volume.storage != self.frame.color && self.volume.storage
                != self.frame.debug);
            assert(self.device.contents(self.volume.storage) == old(self).device.contents(
                old(self).volume.storage,
            ));
            assert(self.device.contents(self.config) == old(self).device.contents(
                old(self).config,
            ));
        }
        // encode the camera for the current edge length and upload it
        let words: Vec<u32> = encode(camera, self.volume.edge_length as u32);
        let bytes: Vec<u8> = words_to_le_bytes(&words);
        self.device.write_buffer(self.config, &bytes);
        proof {
            assert(self.device.contents(self.config) == le_bytes_of_words(
                spec_encode(*camera, old(self).volume.edge_length as u32),
            ));
            assert(self.device.live(self.frame.color) && self.device.size(self.frame.color)
                == frame_bytes(width as nat, height as nat));
            assert(self.device.live(self.frame.debug) && self.device.size(self.frame.debug)
                == frame_bytes(width as nat, height as nat));
            assert(self.device.live(self.volume.storage) && self.device.contents(
                self.volume.storage,
            ) == old(self).device.contents(old(self).volume.storage));
        }
        self.render_binding.voxels = Some(self.volume.storage);
        self.render_binding.image = Some(self.frame.color);
        self.render_binding.config = Some(self.config);
        self.render_binding.debug = Some(self.frame.debug);
        match dispatch_render(&mut self.device, &self.render_binding, width, height) {
            Ok(_) => {},
            Err(_) => {
                proof {
                    // every argument was just rebound to live storage
                    assert(false);
                }
                return Err(EngineError::KernelDispatchFailed);
            },
        }
        proof {
            assert(self.device.live(self.frame.color));
            assert(self.device.size(self.frame.color) == frame_bytes(
                width as nat,
                height as nat,
            ));
            assert(self.device.contents(self.volume.storage) == old(self).device.contents(
                old(self).volume.storage,
            ));
            assert(self.device.contents(self.config) == le_bytes_of_words(
                spec_encode(*camera, old(self).volume.edge_length as u32),
            ));
        }
        let img: Vec<u8> = match self.device.read_buffer(self.frame.color) {
            Ok(v) => v,
            Err(_) => {
                proof {
                    // the colour buffer is live: readback cannot fail
                    assert(false);
                }
                return Err(EngineError::ReadbackFailed);
            },
        };
        proof {
            assert(img@.len() == need);
        }
        copy_into_prefix(out, &img);
        Ok(())
    }

    /// Copy the voxel volume back to the host: `edge_length` cubed bytes,
    /// row-major, x fastest. Pure readback, no dispatch.
    pub fn save_voxels(&self) -> (v: Vec<u8>)
        requires
            self.wf(),
        ensures
            v@ == self.device.contents(self.volume.storage),
            v@.len() == cube(self.volume.edge_length as nat),
    {
        match self.device.read_buffer(self.volume.storage) {
            Ok(v) => v,
            Err(_) => {
                proof {
                    // the volume storage is live: readback cannot fail
                    assert(false);
                }
                Vec::new()
            },
        }
    }

    /// Copy the per-pixel debug buffer back to the host, one 32-bit value
    /// per pixel. Pure readback, no dispatch.
    pub fn save_debug(&self) -> (v: Vec<u32>)
        requires
            self.wf(),
        ensures
            v@ == le_words_of_bytes(self.device.contents(self.frame.debug)),
            v@.len() == self.frame.width * self.frame.height,
    {
        let bytes: Vec<u8> = match self.device.read_buffer(self.frame.debug) {
            Ok(v) => v,
            Err(_) => {
                proof {
                    // the debug buffer is live: readback cannot fail
                    assert(false);
                }
                Vec::new()
            },
        };
        proof {
            let px = self.frame.width as nat * self.frame.height as nat;
            lemma_mod_multiples_basic(px as int, 4);
            lemma_div_by_multiple(px as int, 4);
            assert(bytes@.len() == px * 4);
        }
        bytes_to_le_words(&bytes)
    }

    /// The current volume edge length, in voxels.
    pub fn edge_length(&self) -> (n: usize)
        ensures
            n == self.volume.edge_length,
    {
        self.volume.edge_length
    }

    /// The current image width, in pixels.
    pub fn image_width(&self) -> (n: usize)
        ensures
            n == self.frame.width,
    {
        self.frame.width
    }

    /// The current image height, in pixels.
    pub fn image_height(&self) -> (n: usize)
        ensures
            n == self.frame.height,
    {
        self.frame.height
    }

    /// How many device allocations this engine has ever made.
    pub fn allocation_count(&self) -> (n: usize)
        ensures
            n == self.device.alloc_count(),
    {
        self.device.allocation_count()
    }

    /// The identifier of the current voxel storage.
    pub fn volume_buffer(&self) -> (id: BufferId)
        ensures
            id == self.volume.storage,
    {
        self.volume.storage
    }

    /// The identifier of the current colour buffer.
    pub fn color_buffer(&self) -> (id: BufferId)
        ensures
            id == self.frame.color,
    {
        self.frame.color
    }

    /// The identifier of the current debug buffer.
    pub fn debug_buffer(&self) -> (id: BufferId)
        ensures
            id == self.frame.debug,
    {
        self.frame.debug
    }

    /// The identifier of the configuration buffer.
    pub fn config_buffer(&self) -> (id: BufferId)
        ensures
            id == self.config,
    {
        self.config
    }
}

/// Copy `src` over the first `src.len()` bytes of `out`, leaving the rest
/// of `out` as it was.
fn copy_into_prefix(out: &mut Vec<u8>, src: &Vec<u8>)
    requires
        old(out)@.len() >= src@.len(),
    ensures
        final(out)@ == src@ + old(out)@.skip(src@.len() as int),
{
    let mut i: usize = 0;
    while i < src.len()
        invariant
            i <= src@.len(),
            out@.len() == old(out)@.len(),
            old(out)@.len() >= src@.len(),
            forall|j: int| 0 <= j < i ==> out@[j] == src@[j],
            forall|j: int| i <= j < out@.len() ==> out@[j] == old(out)@[j],
        decreases src@.len() - i,
    {
        let b: u8 = src[i];
        out.set(i, b);
        i += 1;
    }
    proof {
        assert(out@ =~= src@ + old(out)@.skip(src@.len() as int));
    }
}

} // verus!
