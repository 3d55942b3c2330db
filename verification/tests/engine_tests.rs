use bulbcore::bindings::FillBindings;
use bulbcore::bindings::RenderBindings;
use bulbcore::bindings::dispatch_fill;
use bulbcore::bindings::dispatch_render;
use bulbcore::codec::CameraDescription;
use bulbcore::codec::Vec3Bits;
use bulbcore::device::DeviceContext;
use bulbcore::engine::FractalComputeEngine;
use bulbcore::error::EngineError;

fn v3(x: f32, y: f32, z: f32) -> Vec3Bits {
    Vec3Bits { x: x.to_bits(), y: y.to_bits(), z: z.to_bits() }
}

fn camera() -> CameraDescription {
    CameraDescription {
        eye: v3(0.5, 0.5, -3.0),
        view_plane_center: v3(0.5, 0.5, -2.0),
        view_plane_right: v3(1.0, 0.0, 0.0),
        view_plane_down: v3(0.0, 1.0, 0.0),
        light: v3(0.3, -0.5, -0.5),
    }
}

fn engine() -> FractalComputeEngine {
    FractalComputeEngine::new(DeviceContext::new(1 << 24)).expect("engine")
}

#[test]
fn new_engine_has_dummy_sizes() {
    let e = engine();
    assert_eq!(e.edge_length(), 4);
    assert_eq!(e.image_width(), 4);
    assert_eq!(e.image_height(), 4);
    assert_eq!(e.allocation_count(), 4);
}

#[test]
fn new_engine_fails_below_config_size() {
    assert!(matches!(
        FractalComputeEngine::new(DeviceContext::new(71)),
        Err(EngineError::AllocationFailed)
    ));
    assert!(FractalComputeEngine::new(DeviceContext::new(72)).is_ok());
}

#[test]
fn resize_idempotent_performs_no_reallocation() {
    let mut e = engine();
    e.fill_volume(8, 8.0f32.to_bits()).expect("first fill");
    let count = e.allocation_count();
    let storage = e.volume_buffer();
    e.fill_volume(8, 8.0f32.to_bits()).expect("second fill");
    assert_eq!(e.allocation_count(), count);
    assert_eq!(e.volume_buffer(), storage);
}

#[test]
fn resize_changes_buffer_identity() {
    let mut e = engine();
    let storage = e.volume_buffer();
    e.fill_volume(8, 8.0f32.to_bits()).expect("fill");
    assert_ne!(e.volume_buffer(), storage);
}

#[test]
fn rebind_after_resizes_renders_without_dispatch_error() {
    let mut e = engine();
    e.fill_volume(8, 8.0f32.to_bits()).expect("fill at 8");
    e.fill_volume(16, 8.0f32.to_bits()).expect("fill at 16");
    let mut out = vec![0u8; 8 * 8 * 4];
    let r = e.render(&mut out, 8, 8, &camera());
    assert!(r.is_ok(), "render after resizes must not see stale bindings");
}

#[test]
fn render_before_any_fill_reads_zero_volume() {
    let mut e = engine();
    let mut out = vec![0xAAu8; 4 * 4 * 4];
    e.render(&mut out, 4, 4, &camera()).expect("render");
    assert!(out.iter().all(|&b| b == 0));
}

#[test]
fn output_buffer_too_small_fails_before_any_work() {
    let mut e = engine();
    let count = e.allocation_count();
    let mut out = vec![7u8; 10];
    let r = e.render(&mut out, 4, 4, &camera());
    assert_eq!(r, Err(EngineError::PreconditionFailed));
    assert!(out.iter().all(|&b| b == 7), "output must be untouched");
    assert_eq!(e.allocation_count(), count, "nothing may be allocated");
    assert_eq!(e.image_width(), 4);
    assert_eq!(e.image_height(), 4);
}

#[test]
fn output_buffer_longer_keeps_its_tail() {
    let mut e = engine();
    let mut out = vec![9u8; 4 * 4 * 4 + 5];
    e.render(&mut out, 4, 4, &camera()).expect("render");
    assert!(out[..64].iter().all(|&b| b == 0));
    assert!(out[64..].iter().all(|&b| b == 9));
}

#[test]
fn frame_resize_leaves_volume_alone() {
    let mut e = engine();
    e.fill_volume(8, 8.0f32.to_bits()).expect("fill");
    let storage = e.volume_buffer();
    let count = e.allocation_count();
    let mut out = vec![0u8; 16 * 16 * 4];
    e.render(&mut out, 16, 16, &camera()).expect("render");
    assert_eq!(e.volume_buffer(), storage, "volume must not be reallocated");
    assert_eq!(e.allocation_count(), count + 2, "only colour and debug");
    assert_eq!(e.image_width(), 16);
    assert_eq!(e.image_height(), 16);
}

#[test]
fn volume_resize_leaves_frame_alone() {
    let mut e = engine();
    let mut out = vec![0u8; 16 * 16 * 4];
    e.render(&mut out, 16, 16, &camera()).expect("render");
    let color = e.color_buffer();
    let debug = e.debug_buffer();
    let count = e.allocation_count();
    e.fill_volume(32, 8.0f32.to_bits()).expect("fill");
    assert_eq!(e.color_buffer(), color, "frame must not be reallocated");
    assert_eq!(e.debug_buffer(), debug);
    assert_eq!(e.allocation_count(), count + 1, "only the volume");
}

#[test]
fn allocation_failure_leaves_old_state_usable() {
    let mut e = FractalComputeEngine::new(DeviceContext::new(4096)).expect("engine");
    e.fill_volume(8, 8.0f32.to_bits()).expect("fill at 8");
    let storage = e.volume_buffer();
    let count = e.allocation_count();
    let voxels_before = e.save_voxels();

    // 100 cubed exceeds the 4096-byte capacity limit
    let r = e.fill_volume(100, 8.0f32.to_bits());
    assert_eq!(r, Err(EngineError::AllocationFailed));
    assert_eq!(e.edge_length(), 8, "edge length must be unchanged");
    assert_eq!(e.volume_buffer(), storage, "storage must be unchanged");
    assert_eq!(e.allocation_count(), count);
    assert_eq!(e.save_voxels(), voxels_before, "contents must be unchanged");

    // the engine still works at the old size, without reallocating
    e.fill_volume(8, 8.0f32.to_bits()).expect("fill at old size");
    assert_eq!(e.allocation_count(), count);
}

#[test]
fn zero_edge_is_an_allocation_failure() {
    let mut e = engine();
    let r = e.fill_volume(0, 8.0f32.to_bits());
    assert_eq!(r, Err(EngineError::AllocationFailed));
    assert_eq!(e.edge_length(), 4);
}

#[test]
fn zero_width_render_is_an_allocation_failure() {
    let mut e = engine();
    let mut out = vec![0u8; 64];
    let r = e.render(&mut out, 0, 4, &camera());
    assert_eq!(r, Err(EngineError::AllocationFailed));
    assert_eq!(e.image_width(), 4);
}

#[test]
fn save_voxels_returns_whole_volume() {
    let mut e = engine();
    e.fill_volume(8, 8.0f32.to_bits()).expect("fill");
    let v = e.save_voxels();
    assert_eq!(v.len(), 8 * 8 * 8);
    assert!(v.iter().all(|&b| b == 0));
}

#[test]
fn save_debug_returns_one_word_per_pixel() {
    let mut e = engine();
    let mut out = vec![0u8; 8 * 4 * 4];
    e.render(&mut out, 8, 4, &camera()).expect("render");
    let d = e.save_debug();
    assert_eq!(d.len(), 8 * 4);
    assert!(d.iter().all(|&w| w == 0));
}

#[test]
fn dispatch_rejects_stale_binding() {
    let mut dev = DeviceContext::new(4096);
    let id = dev.allocate(8).expect("allocate");
    dev.free(id);
    let b = FillBindings { voxels: Some(id), power_bits: Some(8.0f32.to_bits()) };
    let r = dispatch_fill(&mut dev, &b, 2);
    assert_eq!(r, Err(EngineError::KernelDispatchFailed));
}

#[test]
fn dispatch_rejects_unbound_argument() {
    let mut dev = DeviceContext::new(4096);
    let vox = dev.allocate(8).expect("allocate");
    let b = FillBindings { voxels: Some(vox), power_bits: None };
    assert_eq!(dispatch_fill(&mut dev, &b, 2), Err(EngineError::KernelDispatchFailed));

    let rb = RenderBindings { voxels: Some(vox), image: None, config: None, debug: None };
    assert_eq!(dispatch_render(&mut dev, &rb, 2, 2), Err(EngineError::KernelDispatchFailed));
}

#[test]
fn dispatch_rejects_wrong_size() {
    let mut dev = DeviceContext::new(4096);
    let vox = dev.allocate(9).expect("allocate");
    let b = FillBindings { voxels: Some(vox), power_bits: Some(0) };
    // a 2-cubed domain needs 8 bytes, not 9
    assert_eq!(dispatch_fill(&mut dev, &b, 2), Err(EngineError::KernelDispatchFailed));
}

#[test]
fn readback_of_freed_buffer_fails() {
    let mut dev = DeviceContext::new(4096);
    let id = dev.allocate(8).expect("allocate");
    dev.free(id);
    assert_eq!(dev.read_buffer(id), Err(EngineError::ReadbackFailed));
    assert_eq!(dev.read_buffer(1000), Err(EngineError::ReadbackFailed));
}

#[test]
fn zero_byte_allocation_fails() {
    let mut dev = DeviceContext::new(4096);
    assert_eq!(dev.allocate(0), Err(EngineError::AllocationFailed));
    assert_eq!(dev.allocate(4097), Err(EngineError::AllocationFailed));
    assert_eq!(dev.allocation_count(), 0);
}
