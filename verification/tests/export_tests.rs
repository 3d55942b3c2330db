use bulbcore::codec::CameraDescription;
use bulbcore::codec::Vec3Bits;
use bulbcore::device::DeviceContext;
use bulbcore::engine::FractalComputeEngine;
use bulbcore::exporter::debug_dump;
use bulbcore::exporter::voxel_dump;

fn v3(x: f32, y: f32, z: f32) -> Vec3Bits {
    Vec3Bits { x: x.to_bits(), y: y.to_bits(), z: z.to_bits() }
}

fn camera() -> CameraDescription {
    CameraDescription {
        eye: v3(0.5, 0.5, -2.0),
        view_plane_center: v3(0.5, 0.5, -0.75),
        view_plane_right: v3(0.3, 0.0, 0.0),
        view_plane_down: v3(0.0, 0.3, 0.0),
        light: v3(0.3, -0.5, -0.5),
    }
}

#[test]
fn voxel_dump_is_length_prefixed() {
    let mut e = FractalComputeEngine::new(DeviceContext::new(1 << 20)).expect("engine");
    e.fill_volume(8, 8.0f32.to_bits()).expect("fill");
    let dump = voxel_dump(&e);
    assert_eq!(dump.len(), 8 + 512);
    // 512 as a 64-bit little-endian count
    assert_eq!(&dump[..8], &[0x00, 0x02, 0, 0, 0, 0, 0, 0]);
    assert!(dump[8..].iter().all(|&b| b == 0));
}

#[test]
fn voxel_dump_matches_bincode() {
    let mut e = FractalComputeEngine::new(DeviceContext::new(1 << 20)).expect("engine");
    e.fill_volume(6, 8.0f32.to_bits()).expect("fill");
    let raw = e.save_voxels();
    let dump = voxel_dump(&e);
    let direct = bincode::serialize(&raw).expect("serialize");
    assert_eq!(dump, direct);
    assert_ne!(dump, raw, "the dump must carry the length prefix");
}

#[test]
fn debug_dump_matches_bincode_of_floats() {
    let mut e = FractalComputeEngine::new(DeviceContext::new(1 << 20)).expect("engine");
    let mut out = vec![0u8; 4 * 4 * 4];
    e.render(&mut out, 4, 4, &camera()).expect("render");
    let dump = debug_dump(&e);
    // the device-resident debug values, read back as floats
    let floats: Vec<f32> = e.save_debug().iter().map(|&w| f32::from_bits(w)).collect();
    let direct = bincode::serialize(&floats).expect("serialize");
    assert_eq!(dump, direct, "word dump and float dump must be byte-identical");
    assert_eq!(dump.len(), 8 + 16 * 4);
}
