use voxel_renderer::{uvec3, BufferError, Voxel, VoxelBuffer, HEADER_SIZE};

#[test]
fn header_holds_the_dimension_padded_to_sixteen_bytes() {
    let b = VoxelBuffer::new(uvec3(64, 64, 64));
    assert_eq!(b.header(), vec![64, 0, 0, 0, 64, 0, 0, 0, 64, 0, 0, 0, 0, 0, 0, 0]);
    let b = VoxelBuffer::new(uvec3(0x0102_0304, 2, 0x00ff_0000));
    assert_eq!(b.header(), vec![4, 3, 2, 1, 2, 0, 0, 0, 0, 0, 255, 0, 0, 0, 0, 0]);
    assert_eq!(b.dimension(), uvec3(0x0102_0304, 2, 0x00ff_0000));
}

#[test]
fn size_is_header_then_one_byte_per_cell() {
    assert_eq!(VoxelBuffer::new(uvec3(64, 64, 64)).size(), 64 * 64 * 64 + 16);
    assert_eq!(VoxelBuffer::new(uvec3(3, 4, 5)).size(), 76);
    assert_eq!(HEADER_SIZE, 16);
}

#[test]
fn update_with_matching_dimension_fills_the_buffer_exactly() {
    let d = uvec3(3, 4, 5);
    let b = VoxelBuffer::new(d);
    let mut v = Voxel::new(d);
    *v.get_mut(uvec3(2, 3, 4)).unwrap() = 9;
    let (offset, bytes) = b.update(&v).unwrap();
    assert_eq!(offset, 16);
    assert_eq!(bytes.len(), 60);
    assert_eq!(bytes[59], 9);
    assert_eq!(offset + bytes.len() as u64, b.size());
}

#[test]
fn update_with_mismatched_dimension_is_rejected() {
    let b = VoxelBuffer::new(uvec3(4, 4, 4));
    let v = Voxel::new(uvec3(4, 4, 2));
    assert_eq!(
        b.update(&v),
        Err(BufferError::DimensionMismatch { buffer: uvec3(4, 4, 4), voxel: uvec3(4, 4, 2) })
    );
    let w = Voxel::new(uvec3(8, 8, 8));
    assert!(b.update(&w).is_err());
}
