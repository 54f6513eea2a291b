use voxel_renderer::grid::cell_count_of;
use voxel_renderer::{uvec3, UVec3, Voxel};

fn all_positions(d: UVec3) -> Vec<UVec3> {
    let mut out = Vec::new();
    for z in 0..d.z {
        for y in 0..d.y {
            for x in 0..d.x {
                out.push(uvec3(x, y, z));
            }
        }
    }
    out
}

#[test]
fn new_grid_reads_zero_everywhere() {
    for d in [uvec3(1, 1, 1), uvec3(3, 5, 2), uvec3(4, 4, 4), uvec3(7, 1, 3)] {
        let v = Voxel::new(d);
        assert_eq!(v.len(), (d.x * d.y * d.z) as usize);
        assert_eq!(v.dimension(), d);
        for p in all_positions(d) {
            assert_eq!(v.get(p), Some(&0));
        }
        assert!(v.as_bytes().iter().all(|b| *b == 0));
    }
}

#[test]
fn grid_with_a_zero_extent_is_empty() {
    let v = Voxel::new(uvec3(0, 5, 5));
    assert_eq!(v.len(), 0);
    assert_eq!(v.get(uvec3(0, 0, 0)), None);
}

#[test]
fn extents_are_reported() {
    let v = Voxel::new(uvec3(2, 3, 4));
    assert_eq!((v.width(), v.height(), v.length()), (2, 3, 4));
}

#[test]
fn get_index_is_x_fastest() {
    let d = uvec3(4, 4, 4);
    assert_eq!(Voxel::get_index(d, uvec3(0, 0, 0)), Some(0));
    assert_eq!(Voxel::get_index(d, uvec3(1, 2, 3)), Some(1 + 2 * 4 + 3 * 16));
    assert_eq!(Voxel::get_index(uvec3(3, 5, 2), uvec3(2, 4, 1)), Some(2 + 4 * 3 + 15));
}

#[test]
fn get_index_then_get_position_round_trips() {
    let d = uvec3(3, 4, 5);
    for p in all_positions(d) {
        let i = Voxel::get_index(d, p).unwrap();
        assert!(i < 60);
        assert_eq!(Voxel::get_position(d, i), Some(p));
    }
    for i in 0..60usize {
        let p = Voxel::get_position(d, i).unwrap();
        assert_eq!(Voxel::get_index(d, p), Some(i));
    }
}

#[test]
fn out_of_range_coordinates_are_not_found() {
    let d = uvec3(3, 4, 5);
    assert_eq!(Voxel::get_index(d, uvec3(3, 0, 0)), None);
    assert_eq!(Voxel::get_index(d, uvec3(0, 4, 0)), None);
    assert_eq!(Voxel::get_index(d, uvec3(0, 0, 5)), None);
    assert_eq!(Voxel::get_index(d, uvec3(u32::MAX, u32::MAX, u32::MAX)), None);
    assert_eq!(Voxel::get_position(d, 60), None);
    assert_eq!(Voxel::get_position(d, usize::MAX), None);
}

#[test]
fn for_each_mut_visits_each_position_once() {
    let d = uvec3(3, 4, 5);
    let mut v = Voxel::new(d);
    let mut seen: Vec<UVec3> = Vec::new();
    v.for_each_mut(|old, p| {
        seen.push(p);
        old + (p.x + 10 * p.y + 100 * p.z) as u8
    });
    assert_eq!(seen.len(), 60);
    assert_eq!(seen, all_positions(d));
    let mut sorted: Vec<(u32, u32, u32)> = seen.iter().map(|p| (p.x, p.y, p.z)).collect();
    sorted.sort();
    sorted.dedup();
    assert_eq!(sorted.len(), 60);
    for p in all_positions(d) {
        assert_eq!(v.get(p), Some(&((p.x + 10 * p.y + 100 * p.z) as u8)));
    }
}

#[test]
fn for_each_mut_passes_the_old_value() {
    let mut v = Voxel::new(uvec3(2, 2, 2));
    *v.get_mut(uvec3(1, 1, 1)).unwrap() = 5;
    v.for_each_mut(|old, _| old * 2 + 1);
    assert_eq!(v.get(uvec3(1, 1, 1)), Some(&11));
    assert_eq!(v.get(uvec3(0, 1, 1)), Some(&1));
}

#[test]
fn set_one_cell_leaves_the_others_zero() {
    let d = uvec3(4, 4, 4);
    let mut v = Voxel::new(d);
    *v.get_mut(uvec3(1, 2, 3)).unwrap() = 200;
    assert_eq!(v.get(uvec3(1, 2, 3)), Some(&200));
    let mut zeros = 0;
    for p in all_positions(d) {
        if p != uvec3(1, 2, 3) {
            assert_eq!(v.get(p), Some(&0));
            zeros += 1;
        }
    }
    assert_eq!(zeros, 63);
}

#[test]
fn out_of_bounds_access_is_none() {
    let mut v = Voxel::new(uvec3(2, 2, 2));
    assert_eq!(v.get(uvec3(2, 0, 0)), None);
    assert!(v.get_mut(uvec3(0, 0, 2)).is_none());
    assert!(v.as_bytes().iter().all(|b| *b == 0));
}

#[test]
fn cell_count_of_reports_overflow() {
    assert_eq!(cell_count_of(uvec3(64, 64, 64)), Some(262_144));
    assert_eq!(cell_count_of(uvec3(0, u32::MAX, u32::MAX)), Some(0));
    assert_eq!(cell_count_of(uvec3(u32::MAX, u32::MAX, 1)), Some(u32::MAX as u64 * u32::MAX as u64));
    assert_eq!(cell_count_of(uvec3(u32::MAX, u32::MAX, u32::MAX)), None);
}
