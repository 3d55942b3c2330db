use bulbcore::codec::CameraDescription;
use bulbcore::codec::Vec3Bits;
use bulbcore::codec::bytes_to_le_words;
use bulbcore::codec::encode;
use bulbcore::codec::words_to_le_bytes;
use bulbcore::fbits::scale_component;

fn v3(x: f32, y: f32, z: f32) -> Vec3Bits {
    Vec3Bits { x: x.to_bits(), y: y.to_bits(), z: z.to_bits() }
}

fn example_camera() -> CameraDescription {
    CameraDescription {
        eye: v3(0.5, 0.5, -3.0),
        view_plane_center: v3(0.5, 0.5, -2.0),
        view_plane_right: v3(1.0, 0.0, 0.0),
        view_plane_down: v3(0.0, 1.0, 0.0),
        light: v3(0.3, -0.5, -0.5),
    }
}

#[test]
fn encoding_is_deterministic() {
    let cam = example_camera();
    let a = encode(&cam, 384);
    let b = encode(&cam, 384);
    assert_eq!(a, b);
    assert_eq!(a.len(), 18);
}

#[test]
fn round_trip_example_at_edge_four() {
    let cam = example_camera();
    let got = encode(&cam, 4);
    let expected: Vec<u32> = [
        2.0f32, 2.0, -12.0, // eye
        2.0, 2.0, -8.0, // view-plane centre
        4.0, 0.0, 0.0, // view-plane right
        0.0, 4.0, 0.0, // view-plane down
        1.2, -2.0, -2.0, // light
        4.0, 4.0, 4.0, // voxel size
    ]
    .iter()
    .map(|f| f.to_bits())
    .collect();
    assert_eq!(got, expected);
}

#[test]
fn scaling_matches_hardware_float_multiply() {
    let components: [f32; 14] = [
        0.0, -0.0, 1.0, 0.5, 0.3, -2.75, 123.456, -0.1, 3.0e38, -3.0e38, 1.0e-40, -1.0e-40,
        1.9e-44, 7.5,
    ];
    let edges: [u32; 8] = [1, 2, 3, 4, 7, 255, 384, 2_642_245];
    for &c in components.iter() {
        for &l in edges.iter() {
            let got = scale_component(c.to_bits(), l);
            let want = (c * l as f32).to_bits();
            assert_eq!(got, want, "component {c} at edge {l}");
        }
    }
}

#[test]
fn scaling_overflows_to_infinity() {
    let got = scale_component(3.0e38f32.to_bits(), 1000);
    assert_eq!(got, f32::INFINITY.to_bits());
    let got_neg = scale_component((-3.0e38f32).to_bits(), 1000);
    assert_eq!(got_neg, f32::NEG_INFINITY.to_bits());
}

#[test]
fn scaling_keeps_infinities_and_quiets_nan() {
    assert_eq!(scale_component(f32::INFINITY.to_bits(), 7), f32::INFINITY.to_bits());
    assert_eq!(
        scale_component(f32::NEG_INFINITY.to_bits(), 7),
        f32::NEG_INFINITY.to_bits()
    );
    let nan = scale_component(f32::NAN.to_bits(), 7);
    assert!(f32::from_bits(nan).is_nan());
}

#[test]
fn scaling_by_one_is_identity() {
    for &c in [0.0f32, -0.0, 0.3, -123.456, 3.0e38, 1.0e-40].iter() {
        assert_eq!(scale_component(c.to_bits(), 1), c.to_bits());
    }
}

#[test]
fn encoding_scales_every_component_by_the_edge_length() {
    let cam = example_camera();
    let l: u32 = 384;
    let got = encode(&cam, l);
    let parts: [f32; 15] = [
        0.5, 0.5, -3.0, 0.5, 0.5, -2.0, 1.0, 0.0, 0.0, 0.0, 1.0, 0.0, 0.3, -0.5, -0.5,
    ];
    for (i, &c) in parts.iter().enumerate() {
        assert_eq!(got[i], (c * l as f32).to_bits(), "slot {i}");
    }
    for i in 15..18 {
        assert_eq!(got[i], (l as f32).to_bits(), "voxel-size slot {i}");
    }
}

#[test]
fn words_serialise_little_endian() {
    let words = vec![0x0403_0201u32, 0xAABB_CCDDu32];
    let bytes = words_to_le_bytes(&words);
    assert_eq!(bytes, vec![0x01, 0x02, 0x03, 0x04, 0xDD, 0xCC, 0xBB, 0xAA]);
    let back = bytes_to_le_words(&bytes);
    assert_eq!(back, words);
}

#[test]
fn empty_word_sequence_serialises_to_nothing() {
    let bytes = words_to_le_bytes(&Vec::new());
    assert!(bytes.is_empty());
    assert!(bytes_to_le_words(&Vec::new()).is_empty());
}
