use voxel_renderer::{VoxelColors, PALETTE_BUFFER_SIZE};

#[test]
fn all_color_is_deterministic() {
    let a = VoxelColors::all_color();
    let b = VoxelColors::all_color();
    assert_eq!(a.colors(), b.colors());
    assert_eq!(a.to_bytes(), b.to_bytes());
}

#[test]
fn all_color_decodes_two_bit_channels() {
    let p = VoxelColors::all_color();
    let c = p.colors();
    assert_eq!(c[0], [0, 0, 0, 0]);
    assert_eq!(c[255], [255, 255, 255, 255]);
    assert_eq!(c[0b1100_0100], [0, 85, 0, 255]);
    assert_eq!(c[0b0001_1011], [255, 170, 85, 0]);
    for i in 0..256usize {
        for ch in 0..4 {
            assert_eq!(c[i][ch] as usize, (i >> (2 * ch) & 3) * 85);
        }
    }
}

#[test]
fn palette_bytes_follow_entry_order() {
    let p = VoxelColors::all_color();
    let bytes = p.to_bytes();
    assert_eq!(bytes.len() as u64, PALETTE_BUFFER_SIZE);
    assert_eq!(&bytes[4 * 27..4 * 28], &[255, 170, 85, 0]);
    for i in 0..256 {
        assert_eq!(&bytes[4 * i..4 * i + 4], &p.colors()[i]);
    }
}
