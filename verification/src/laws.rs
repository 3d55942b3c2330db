//! The engine's laws: properties that relate several operations, proved
//! once and for all over the relational contracts of `resources`, `engine`
//! and `codec`.

use vstd::prelude::*;

use crate::codec::CameraDescription;
use crate::codec::camera_finite;
use crate::codec::edge_len_bits;
use crate::codec::spec_encode;
use crate::device::DeviceContext;
use crate::engine::FractalComputeEngine;
use crate::error::EngineError;
use crate::fbits::lemma_scale_one;
use crate::fbits::spec_scale;
use crate::resources::FrameResource;
use crate::resources::VolumeResource;

verus! {

/// Resize idempotence, volume: after `ensure_capacity(n)` succeeded, a
/// second call with the same `n` allocates nothing, frees nothing, and
/// yields the same storage handle.
pub proof fn lemma_volume_resize_idempotent(
    d0: DeviceContext,
    v0: VolumeResource,
    d1: DeviceContext,
    v1: VolumeResource,
    d2: DeviceContext,
    v2: VolumeResource,
    n: usize,
    r1: Result<bool, EngineError>,
    r2: Result<bool, EngineError>,
)
    requires
        VolumeResource::ensure_capacity_post(d0, v0, d1, v1, n, r1),
        VolumeResource::ensure_capacity_post(d1, v1, d2, v2, n, r2),
        r1 is Ok,
    ensures
        r2 == Ok::<bool, EngineError>(false),
        v2 == v1,
        d2 == d1,
{
}

/// Resize idempotence, frame: after `ensure_capacity(w, h)` succeeded, a
/// second call with the same size allocates nothing, frees nothing, and
/// yields the same storage handles.
pub proof fn lemma_frame_resize_idempotent(
    d0: DeviceContext,
    f0: FrameResource,
    d1: DeviceContext,
    f1: FrameResource,
    d2: DeviceContext,
    f2: FrameResource,
    w: usize,
    h: usize,
    r1: Result<bool, EngineError>,
    r2: Result<bool, EngineError>,
)
    requires
        FrameResource::ensure_capacity_post(d0, f0, d1, f1, w, h, r1),
        FrameResource::ensure_capacity_post(d1, f1, d2, f2, w, h, r2),
        r1 is Ok,
    ensures
        r2 == Ok::<bool, EngineError>(false),
        f2 == f1,
        d2 == d1,
{
}

/// Resize idempotence through the engine: a second `fill_volume` at the
/// same edge length reuses the same storage and allocates nothing.
pub proof fn lemma_fill_idempotent(
    e0: FractalComputeEngine,
    e1: FractalComputeEngine,
    e2: FractalComputeEngine,
    n: usize,
    p1: u32,
    p2: u32,
    r1: Result<(), EngineError>,
    r2: Result<(), EngineError>,
)
    requires
        FractalComputeEngine::fill_post(e0, e1, n, p1, r1),
        FractalComputeEngine::fill_post(e1, e2, n, p2, r2),
        r1 is Ok,
    ensures
        r2 is Ok,
        e2.volume.storage == e1.volume.storage,
        e2.device.alloc_count() == e1.device.alloc_count(),
{
}

/// Rebind completeness: whatever fills happened before — at equal or
/// different edge lengths, resized or not — a render never fails through a
/// stale binding. Its only failures are the caller's output buffer being
/// too small or an allocation being refused.
pub proof fn lemma_rebind_complete(
    e0: FractalComputeEngine,
    e1: FractalComputeEngine,
    e2: FractalComputeEngine,
    e3: FractalComputeEngine,
    n1: usize,
    n2: usize,
    p: u32,
    out0: Seq<u8>,
    out1: Seq<u8>,
    w: usize,
    h: usize,
    cam: CameraDescription,
    r1: Result<(), EngineError>,
    r2: Result<(), EngineError>,
    r3: Result<(), EngineError>,
)
    requires
        FractalComputeEngine::fill_post(e0, e1, n1, p, r1),
        FractalComputeEngine::fill_post(e1, e2, n2, p, r2),
        FractalComputeEngine::render_post(e2, e3, out0, out1, w, h, cam, r3),
    ensures
        r3 != Err::<(), EngineError>(EngineError::KernelDispatchFailed),
        r3 != Err::<(), EngineError>(EngineError::ReadbackFailed),
{
}

/// Camera encoding determinism: the encoding is a function of the
/// description and the edge length alone, so equal inputs give identical
/// output.
pub proof fn lemma_encode_deterministic(
    cam1: CameraDescription,
    cam2: CameraDescription,
    l1: u32,
    l2: u32,
)
    requires
        cam1 == cam2,
        l1 == l2,
    ensures
        spec_encode(cam1, l1) == spec_encode(cam2, l2),
{
}

/// At edge length one the scaling is the identity on every finite
/// component: the first fifteen slots of the encoding are the camera's own
/// bit patterns, and the voxel-size slots hold the float one.
pub proof fn lemma_encode_unit_edge(cam: CameraDescription)
    requires
        camera_finite(cam),
    ensures
        spec_encode(cam, 1) == seq![
            cam.eye.x,
            cam.eye.y,
            cam.eye.z,
            cam.view_plane_center.x,
            cam.view_plane_center.y,
            cam.view_plane_center.z,
            cam.view_plane_right.x,
            cam.view_plane_right.y,
            cam.view_plane_right.z,
            cam.view_plane_down.x,
            cam.view_plane_down.y,
            cam.view_plane_down.z,
            cam.light.x,
            cam.light.y,
            cam.light.z,
            0x3F80_0000u32,
            0x3F80_0000u32,
            0x3F80_0000u32,
        ],
{
    lemma_scale_one(cam.eye.x);
    lemma_scale_one(cam.eye.y);
    lemma_scale_one(cam.eye.z);
    lemma_scale_one(cam.view_plane_center.x);
    lemma_scale_one(cam.view_plane_center.y);
    lemma_scale_one(cam.view_plane_center.z);
    lemma_scale_one(cam.view_plane_right.x);
    lemma_scale_one(cam.view_plane_right.y);
    lemma_scale_one(cam.view_plane_right.z);
    lemma_scale_one(cam.view_plane_down.x);
    lemma_scale_one(cam.view_plane_down.y);
    lemma_scale_one(cam.view_plane_down.z);
    lemma_scale_one(cam.light.x);
    lemma_scale_one(cam.light.y);
    lemma_scale_one(cam.light.z);
    assert(((0x3F80_0000u32 >> 23) & 0xFF) != 255) by (bit_vector);
    lemma_scale_one(0x3F80_0000u32);
    assert(edge_len_bits(1) == 0x3F80_0000u32);
    assert(spec_encode(cam, 1) =~= seq![
        cam.eye.x,
        cam.eye.y,
        cam.eye.z,
        cam.view_plane_center.x,
        cam.view_plane_center.y,
        cam.view_plane_center.z,
        cam.view_plane_right.x,
        cam.view_plane_right.y,
        cam.view_plane_right.z,
        cam.view_plane_down.x,
        cam.view_plane_down.y,
        cam.view_plane_down.z,
        cam.light.x,
        cam.light.y,
        cam.light.z,
        0x3F80_0000u32,
        0x3F80_0000u32,
        0x3F80_0000u32,
    ]);
}

/// The scaling law: every camera slot of the encoding at edge length `l`
/// is the single-precision product of the same slot at edge length one and
/// `l` — encoding at edge one is the identity on finite components, and
/// every other edge length scales those very bit patterns.
pub proof fn lemma_encode_scaling_law(cam: CameraDescription, l: u32)
    requires
        camera_finite(cam),
    ensures
        spec_encode(cam, l)[0] == spec_scale(spec_encode(cam, 1)[0], l),
        spec_encode(cam, l)[1] == spec_scale(spec_encode(cam, 1)[1], l),
        spec_encode(cam, l)[2] == spec_scale(spec_encode(cam, 1)[2], l),
        spec_encode(cam, l)[3] == spec_scale(spec_encode(cam, 1)[3], l),
        spec_encode(cam, l)[4] == spec_scale(spec_encode(cam, 1)[4], l),
        spec_encode(cam, l)[5] == spec_scale(spec_encode(cam, 1)[5], l),
        spec_encode(cam, l)[6] == spec_scale(spec_encode(cam, 1)[6], l),
        spec_encode(cam, l)[7] == spec_scale(spec_encode(cam, 1)[7], l),
        spec_encode(cam, l)[8] == spec_scale(spec_encode(cam, 1)[8], l),
        spec_encode(cam, l)[9] == spec_scale(spec_encode(cam, 1)[9], l),
        spec_encode(cam, l)[10] == spec_scale(spec_encode(cam, 1)[10], l),
        spec_encode(cam, l)[11] == spec_scale(spec_encode(cam, 1)[11], l),
        spec_encode(cam, l)[12] == spec_scale(spec_encode(cam, 1)[12], l),
        spec_encode(cam, l)[13] == spec_scale(spec_encode(cam, 1)[13], l),
        spec_encode(cam, l)[14] == spec_scale(spec_encode(cam, 1)[14], l),
{
    lemma_encode_unit_edge(cam);
}

/// Independent resizing, one direction: filling the volume never touches
/// the frame — not its size, not its storage handles, not its contents.
pub proof fn lemma_fill_leaves_frame(
    pre: FractalComputeEngine,
    post: FractalComputeEngine,
    n: usize,
    p: u32,
    r: Result<(), EngineError>,
)
    requires
        FractalComputeEngine::fill_post(pre, post, n, p, r),
    ensures
        post.frame == pre.frame,
        post.device.contents(pre.frame.color) == pre.device.contents(pre.frame.color),
        post.device.contents(pre.frame.debug) == pre.device.contents(pre.frame.debug),
{
}

/// Independent resizing, the other direction: rendering never touches the
/// volume — not its edge length, not its storage handle, not its contents.
pub proof fn lemma_render_leaves_volume(
    pre: FractalComputeEngine,
    post: FractalComputeEngine,
    out0: Seq<u8>,
    out1: Seq<u8>,
    w: usize,
    h: usize,
    cam: CameraDescription,
    r: Result<(), EngineError>,
)
    requires
        FractalComputeEngine::render_post(pre, post, out0, out1, w, h, cam, r),
    ensures
        post.volume == pre.volume,
        post.device.contents(pre.volume.storage) == pre.device.contents(pre.volume.storage),
{
}

/// Error isolation: a fill whose allocation is refused leaves the engine
/// exactly as it was, and a following fill at the old edge length succeeds
/// without reallocating.
pub proof fn lemma_error_isolation(
    e0: FractalComputeEngine,
    e1: FractalComputeEngine,
    e2: FractalComputeEngine,
    n_bad: usize,
    p: u32,
    r1: Result<(), EngineError>,
    r2: Result<(), EngineError>,
)
    requires
        FractalComputeEngine::fill_post(e0, e1, n_bad, p, r1),
        r1 is Err,
        FractalComputeEngine::fill_post(e1, e2, e0.volume.edge_length, p, r2),
    ensures
        e1 == e0,
        r1 == Err::<(), EngineError>(EngineError::AllocationFailed),
        r2 is Ok,
        e2.volume.storage == e0.volume.storage,
        e2.device.alloc_count() == e0.device.alloc_count(),
{
}

} // verus!
