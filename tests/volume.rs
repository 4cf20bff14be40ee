use noise::{NoiseFn, SuperSimplex};
use voxel_core::volume::{
    check_upload, encode, lattice_count, occupancy, voxel_coordinate, ChannelMode, DensityField,
    VolumeConfig, VolumeError, VoxelCoordinate, WrapMode, MAX_EDGE,
};

fn config(edge: u32, scale: f64, seed: u32, channels: ChannelMode) -> VolumeConfig {
    VolumeConfig {
        edge,
        scale_bits: scale.to_bits(),
        seed,
        channels,
        wrap: WrapMode::ClampToEdge,
    }
}

fn sample(config: &VolumeConfig) -> DensityField {
    let noise = SuperSimplex::new(config.seed);
    let s = f64::from_bits(config.scale_bits);
    let samples: Vec<u64> = config
        .sample_points()
        .unwrap()
        .iter()
        .map(|p| {
            noise
                .get([p.x as f64 / s, p.y as f64 / s, p.z as f64 / s])
                .to_bits()
        })
        .collect();
    DensityField::from_samples(config.edge, samples).unwrap()
}

fn check_sizes(edge: u32) {
    let cfg = config(edge, 50.0, 5, ChannelMode::Single8);
    let field = sample(&cfg);
    let n = edge as usize;
    assert_eq!(field.samples().len(), n * n * n);
    let again = DensityField::from_samples(edge, field.samples().clone()).unwrap();
    let single = encode(field, ChannelMode::Single8);
    assert_eq!(single.bytes().len(), n * n * n);
    assert!(single.bytes().iter().all(|&b| b == 0 || b == 255));
    let quad = encode(again, ChannelMode::Quad8);
    assert_eq!(quad.bytes().len(), n * n * n * 4);
    assert!(quad.bytes().iter().all(|&b| b == 0 || b == 255));
}

#[test]
fn sizes_edge_1() {
    check_sizes(1);
}

#[test]
fn sizes_edge_2() {
    check_sizes(2);
}

#[test]
fn sizes_edge_20() {
    check_sizes(20);
}

#[test]
fn sizes_edge_100() {
    check_sizes(100);
}

#[test]
fn occupancy_thresholds_above_zero() {
    assert_eq!(occupancy(0.5f64.to_bits()), 255);
    assert_eq!(occupancy(1.0e-300f64.to_bits()), 255);
    assert_eq!(occupancy(1u64), 255); // smallest subnormal
    assert_eq!(occupancy(f64::INFINITY.to_bits()), 255);
    assert_eq!(occupancy(f64::MAX.to_bits()), 255);
    assert_eq!(occupancy(0.0f64.to_bits()), 0);
    assert_eq!(occupancy((-0.0f64).to_bits()), 0);
    assert_eq!(occupancy((-0.5f64).to_bits()), 0);
    assert_eq!(occupancy(f64::NEG_INFINITY.to_bits()), 0);
    assert_eq!(occupancy(f64::NAN.to_bits()), 0);
    assert_eq!(occupancy(0x7FF8_0000_0000_0001), 0);
}

#[test]
fn coordinates_vary_x_fastest() {
    let c = |x, y, z| VoxelCoordinate { x, y, z };
    assert_eq!(voxel_coordinate(0, 3), c(0, 0, 0));
    assert_eq!(voxel_coordinate(1, 3), c(1, 0, 0));
    assert_eq!(voxel_coordinate(3, 3), c(0, 1, 0));
    assert_eq!(voxel_coordinate(9, 3), c(0, 0, 1));
    assert_eq!(voxel_coordinate(14, 3), c(2, 1, 1));
    assert_eq!(voxel_coordinate(26, 3), c(2, 2, 2));
    assert_eq!(voxel_coordinate(27, 3), c(0, 0, 0));
    assert_eq!(voxel_coordinate(123_456, 100), c(56, 34, 12));
}

#[test]
fn sample_points_list_the_lattice_in_order() {
    let points = config(2, 1.0, 0, ChannelMode::Single8).sample_points().unwrap();
    let expected: Vec<(u32, u32, u32)> = vec![
        (0, 0, 0),
        (1, 0, 0),
        (0, 1, 0),
        (1, 1, 0),
        (0, 0, 1),
        (1, 0, 1),
        (0, 1, 1),
        (1, 1, 1),
    ];
    let got: Vec<(u32, u32, u32)> = points.iter().map(|p| (p.x, p.y, p.z)).collect();
    assert_eq!(got, expected);
    assert_eq!(lattice_count(7), 343);
}

#[test]
fn configuration_errors() {
    let ok = config(4, 50.0, 1, ChannelMode::Quad8);
    assert_eq!(ok.validate(), Ok(()));
    assert_eq!(config(MAX_EDGE, 1.0, 0, ChannelMode::Quad8).validate(), Ok(()));
    assert_eq!(config(0, 50.0, 1, ChannelMode::Single8).validate(), Err(VolumeError::ZeroEdge));
    assert_eq!(config(0, 0.0, 1, ChannelMode::Single8).validate(), Err(VolumeError::ZeroEdge));
    assert_eq!(
        config(MAX_EDGE + 1, 50.0, 1, ChannelMode::Single8).validate(),
        Err(VolumeError::EdgeTooLarge)
    );
    for bad in [0.0, -0.0, -2.0, f64::INFINITY, f64::NAN, f64::NEG_INFINITY] {
        assert_eq!(
            config(4, bad, 1, ChannelMode::Single8).validate(),
            Err(VolumeError::NonPositiveScale)
        );
        assert_eq!(
            config(4, bad, 1, ChannelMode::Single8).sample_points(),
            Err(VolumeError::NonPositiveScale)
        );
    }
    assert_eq!(
        config(0, 1.0, 1, ChannelMode::Single8).sample_points(),
        Err(VolumeError::ZeroEdge)
    );
}

#[test]
fn field_needs_one_sample_per_point() {
    assert!(matches!(
        DensityField::from_samples(2, vec![0; 7]),
        Err(VolumeError::SampleCountMismatch)
    ));
    assert!(matches!(DensityField::from_samples(0, vec![]), Err(VolumeError::ZeroEdge)));
    assert!(matches!(
        DensityField::from_samples(MAX_EDGE + 1, vec![]),
        Err(VolumeError::EdgeTooLarge)
    ));
    let f = DensityField::from_samples(2, vec![0; 8]).unwrap();
    assert_eq!(f.edge(), 2);
}

#[test]
fn encode_replicates_each_occupancy_byte() {
    let pos = 0.25f64.to_bits();
    let neg = (-0.25f64).to_bits();
    let samples = vec![pos, neg, neg, pos, 0, pos, f64::NAN.to_bits(), pos];
    let single = encode(DensityField::from_samples(2, samples.clone()).unwrap(), ChannelMode::Single8);
    assert_eq!(single.bytes(), &vec![255, 0, 0, 255, 0, 255, 0, 255]);
    let quad = encode(DensityField::from_samples(2, samples).unwrap(), ChannelMode::Quad8);
    let expected: Vec<u8> = [255u8, 0, 0, 255, 0, 255, 0, 255]
        .iter()
        .flat_map(|&b| [b, b, b, b])
        .collect();
    assert_eq!(quad.into_bytes(), expected);
}

#[test]
fn identical_configuration_gives_identical_bytes() {
    let cfg = config(20, 50.0, 5, ChannelMode::Quad8);
    let a = encode(sample(&cfg), cfg.channels).into_bytes();
    let b = encode(sample(&cfg), cfg.channels).into_bytes();
    assert_eq!(a, b);
}

#[test]
fn different_seeds_give_different_fields() {
    for (s1, s2) in [(0, 1), (2, 3), (4, 5), (6, 7), (8, 9), (10, 11), (100, 200), (12345, 54321)] {
        let a = encode(sample(&config(20, 5.0, s1, ChannelMode::Single8)), ChannelMode::Single8);
        let b = encode(sample(&config(20, 5.0, s2, ChannelMode::Single8)), ChannelMode::Single8);
        assert_ne!(a.bytes(), b.bytes(), "seeds {} and {}", s1, s2);
    }
}

#[test]
fn layout_pitches_and_slices() {
    let cfg = config(5, 2.0, 9, ChannelMode::Quad8);
    let field = sample(&cfg);
    let samples = field.samples().clone();
    let enc = encode(field, ChannelMode::Quad8);
    let n = 5usize;
    assert_eq!(enc.bytes_per_row(), 20);
    assert_eq!(enc.bytes().len(), enc.bytes_per_row() as usize * n * n);
    let layout = enc.layout();
    assert_eq!((layout.width, layout.height, layout.depth), (5, 5, 5));
    assert_eq!(layout.rows_per_image, 5);
    assert_eq!(layout.bytes_per_row, 20);
    assert_eq!(check_upload(enc.bytes().len(), &layout), Ok(()));
    for z in 0..5u32 {
        let (start, end) = enc.slice_range(z);
        assert_eq!((start, end), (z as usize * 100, (z as usize + 1) * 100));
        for (j, &b) in enc.bytes()[start..end].iter().enumerate() {
            let voxel = (start + j) / 4;
            assert_eq!(voxel_coordinate(voxel as u32, 5).z, z);
            assert_eq!(b, occupancy(samples[voxel]));
        }
    }
}

#[test]
fn mismatched_upload_layout_is_refused() {
    let enc = encode(DensityField::from_samples(3, vec![0; 27]).unwrap(), ChannelMode::Quad8);
    let good = enc.layout();
    assert_eq!(check_upload(108, &good), Ok(()));
    assert_eq!(check_upload(107, &good), Err(VolumeError::LayoutMismatch));
    let mut wrong_pitch = good;
    wrong_pitch.bytes_per_row = 3;
    assert_eq!(check_upload(108, &wrong_pitch), Err(VolumeError::LayoutMismatch));
    let mut wrong_rows = good;
    wrong_rows.rows_per_image = 2;
    assert_eq!(check_upload(108, &wrong_rows), Err(VolumeError::LayoutMismatch));
    let mut wrong_mode = good;
    wrong_mode.mode = ChannelMode::Single8;
    assert_eq!(check_upload(108, &wrong_mode), Err(VolumeError::LayoutMismatch));
    let mut huge = good;
    huge.width = u32::MAX;
    huge.height = u32::MAX;
    huge.depth = u32::MAX;
    huge.rows_per_image = u32::MAX;
    assert_eq!(check_upload(108, &huge), Err(VolumeError::LayoutMismatch));
}

#[test]
fn single_voxel_golden_value() {
    let cfg = config(1, 1.0, 0, ChannelMode::Single8);
    let enc = encode(sample(&cfg), ChannelMode::Single8);
    assert_eq!(enc.into_bytes(), vec![0]);
}
