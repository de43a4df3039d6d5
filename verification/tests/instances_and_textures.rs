use render_core::error::RenderError;
use render_core::fixed::{div_trunc, FP_ONE};
use render_core::instance::{identity_rotation, Instance, InstanceStore, Quaternion};
use render_core::texture::{
    default_sampler, AddressMode, FilterMode, TextureResource,
};

#[test]
fn truncating_division_rounds_toward_zero() {
    assert_eq!(div_trunc(7, 2), 3);
    assert_eq!(div_trunc(-7, 2), -3);
    assert_eq!(div_trunc(6, 3), 2);
    assert_eq!(div_trunc(0, 5), 0);
}

#[test]
fn identity_instance_raw_is_the_identity_matrix() {
    let instance = Instance::new([0, 0, 0], identity_rotation());
    let raw = instance.to_raw();
    for r in 0..4 {
        for c in 0..4 {
            let expected = if r == c { FP_ONE } else { 0 };
            assert_eq!(raw.model[r][c], expected);
        }
    }
}

#[test]
fn translation_lands_in_the_last_column() {
    let instance = Instance::new([250_000, -750_000, 3_000_000], identity_rotation());
    let raw = instance.to_raw();
    assert_eq!(raw.model[0][3], 250_000);
    assert_eq!(raw.model[1][3], -750_000);
    assert_eq!(raw.model[2][3], 3_000_000);
    assert_eq!(raw.model[3], [0, 0, 0, FP_ONE]);
}

#[test]
fn half_turn_about_z_negates_x_and_y_axes() {
    let rotation = Quaternion { x: 0, y: 0, z: FP_ONE, w: 0 };
    let raw = Instance::new([0, 0, 0], rotation).to_raw();
    assert_eq!(raw.model[0][0], -FP_ONE);
    assert_eq!(raw.model[1][1], -FP_ONE);
    assert_eq!(raw.model[2][2], FP_ONE);
    assert_eq!(raw.model[0][1], 0);
    assert_eq!(raw.model[1][0], 0);
    assert_eq!(raw.model[3][3], FP_ONE);
}

#[test]
fn quarter_turn_about_z_swaps_x_and_y_axes() {
    // sin(45 deg) and cos(45 deg) in millionths
    let c = 707_107i64;
    let rotation = Quaternion { x: 0, y: 0, z: c, w: c };
    let raw = Instance::new([0, 0, 0], rotation).to_raw();
    // 2 * 707107^2 = 1_000_000_618_898; scaled down and truncated
    assert_eq!(raw.model[0][0], 0);
    assert_eq!(raw.model[0][1], -FP_ONE);
    assert_eq!(raw.model[1][0], FP_ONE);
    assert_eq!(raw.model[1][1], 0);
    assert_eq!(raw.model[2][2], FP_ONE);
}

#[test]
fn instance_store_rebuilds_every_raw_form() {
    let mut store = InstanceStore::new();
    assert_eq!(store.len(), 0);

    let list = vec![
        Instance::new([0, 0, 0], identity_rotation()),
        Instance::new([1, 2, 3], Quaternion { x: 0, y: 0, z: FP_ONE, w: 0 }),
    ];
    store.set_instances(list.clone());
    assert_eq!(store.len(), 2);
    let raws = store.buffer();
    assert_eq!(raws.len(), 2);
    assert_eq!(raws[0], list[0].to_raw());
    assert_eq!(raws[1], list[1].to_raw());

    store.set_instances(Vec::new());
    assert_eq!(store.len(), 0);
    assert_eq!(store.buffer().len(), 0);
}

#[test]
fn texture_with_mismatched_byte_length_is_rejected() {
    let err = TextureResource::from_pixels(vec![0u8; 15], 2, 2).unwrap_err();
    assert_eq!(err, RenderError::InvalidImageData);

    let err = TextureResource::from_pixels(vec![0u8; 17], 2, 2).unwrap_err();
    assert_eq!(err, RenderError::InvalidImageData);

    let err = TextureResource::from_pixels(Vec::new(), 1, 1).unwrap_err();
    assert_eq!(err, RenderError::InvalidImageData);
}

#[test]
fn texture_with_exact_byte_length_is_built() {
    let texture = TextureResource::from_pixels(vec![7u8; 16], 2, 2).unwrap();
    assert_eq!(texture.width, 2);
    assert_eq!(texture.height, 2);
    assert_eq!(texture.pixels.len(), 16);
    assert_eq!(texture.bytes_per_row(), 8);
    assert_eq!(texture.rows_per_image(), 2);
    assert_eq!(texture.mip_level_count(), 1);
    assert_eq!(texture.depth_or_array_layers(), 1);
}

#[test]
fn zero_area_texture_accepts_only_an_empty_buffer() {
    let texture = TextureResource::from_pixels(Vec::new(), 4, 0).unwrap();
    assert_eq!(texture.pixels.len(), 0);
    let err = TextureResource::from_pixels(vec![0u8; 4], 4, 0).unwrap_err();
    assert_eq!(err, RenderError::InvalidImageData);
}

#[test]
fn padding_is_identity_when_rows_are_already_aligned() {
    let pixels: Vec<u8> = (0u8..16).collect();
    let texture = TextureResource::from_pixels(pixels.clone(), 2, 2).unwrap();
    assert_eq!(texture.padded_pixels(1), pixels);
    assert_eq!(texture.padded_pixels(4), pixels);
    assert_eq!(texture.padded_pixels(8), pixels);
}

#[test]
fn padding_extends_each_row_with_zeroes() {
    let pixels: Vec<u8> = vec![1, 2, 3, 4, 5, 6, 7, 8];
    let texture = TextureResource::from_pixels(pixels, 1, 2).unwrap();
    let padded = texture.padded_pixels(8);
    assert_eq!(
        padded,
        vec![1, 2, 3, 4, 0, 0, 0, 0, 5, 6, 7, 8, 0, 0, 0, 0]
    );
}

#[test]
fn padding_rounds_up_to_the_gpu_row_alignment() {
    let pixels: Vec<u8> = (0u8..24).collect();
    let texture = TextureResource::from_pixels(pixels, 3, 2).unwrap();
    let padded = texture.padded_pixels(256);
    assert_eq!(padded.len(), 512);
    assert_eq!(&padded[0..12], &(0u8..12).collect::<Vec<u8>>()[..]);
    assert!(padded[12..256].iter().all(|b| *b == 0));
    assert_eq!(&padded[256..268], &(12u8..24).collect::<Vec<u8>>()[..]);
    assert!(padded[268..].iter().all(|b| *b == 0));
}

#[test]
fn sampler_default_is_clamped_linear_mag_nearest_min() {
    let s = default_sampler();
    assert_eq!(s.address_mode_u, AddressMode::ClampToEdge);
    assert_eq!(s.address_mode_v, AddressMode::ClampToEdge);
    assert_eq!(s.address_mode_w, AddressMode::ClampToEdge);
    assert_eq!(s.mag_filter, FilterMode::Linear);
    assert_eq!(s.min_filter, FilterMode::Nearest);
    assert_eq!(s.mipmap_filter, FilterMode::Nearest);
}
