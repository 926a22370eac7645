use scene_core::instance::{Instance, Rotation, ORIGIN_TILT};
use scene_core::units::Vec3;

#[test]
fn grid_of_ten_has_a_hundred_instances() {
    let grid = Instance::build_grid(10, 3000);
    assert_eq!(grid.len(), 100);
}

#[test]
fn grid_is_row_major_and_centred() {
    let grid = Instance::build_grid(10, 3000);
    assert_eq!(grid[0].position, Vec3 { x: -15_000, y: 0, z: -15_000 });
    assert_eq!(grid[1].position, Vec3 { x: -12_000, y: 0, z: -15_000 });
    assert_eq!(grid[10].position, Vec3 { x: -15_000, y: 0, z: -12_000 });
    assert_eq!(grid[99].position, Vec3 { x: 12_000, y: 0, z: 12_000 });
    for row in 0..10usize {
        for col in 0..10usize {
            let instance = grid[row * 10 + col];
            assert_eq!(instance.position.x, 3000 * (col as i64 - 5));
            assert_eq!(instance.position.y, 0);
            assert_eq!(instance.position.z, 3000 * (row as i64 - 5));
        }
    }
}

#[test]
fn only_the_origin_instance_is_tilted() {
    let grid = Instance::build_grid(10, 3000);
    for (index, instance) in grid.iter().enumerate() {
        if index == 55 {
            assert_eq!(instance.position, Vec3 { x: 0, y: 0, z: 0 });
            assert_eq!(instance.rotation, Rotation::TiltZ);
        } else {
            assert_ne!(instance.position, Vec3 { x: 0, y: 0, z: 0 });
            assert_eq!(instance.rotation, Rotation::Identity);
        }
    }
}

#[test]
fn origin_instance_is_nearest_to_the_origin() {
    for n in 1..8u32 {
        let grid = Instance::build_grid(n, 250);
        let nearest = grid
            .iter()
            .min_by_key(|i| i.position.x * i.position.x + i.position.z * i.position.z)
            .unwrap();
        assert_eq!(nearest.position, Vec3 { x: 0, y: 0, z: 0 });
        assert_eq!(nearest.rotation, Rotation::TiltZ);
        let middle = (n / 2 * n + n / 2) as usize;
        assert_eq!(grid[middle], *nearest);
    }
}

#[test]
fn odd_grid_puts_its_middle_on_the_origin() {
    let grid = Instance::build_grid(3, 1000);
    let xs: Vec<i64> = grid.iter().map(|i| i.position.x).collect();
    let zs: Vec<i64> = grid.iter().map(|i| i.position.z).collect();
    assert_eq!(xs, vec![-1000, 0, 1000, -1000, 0, 1000, -1000, 0, 1000]);
    assert_eq!(zs, vec![-1000, -1000, -1000, 0, 0, 0, 1000, 1000, 1000]);
    assert_eq!(grid[4].rotation, Rotation::TiltZ);
}

#[test]
fn building_twice_gives_the_same_grid() {
    let first = Instance::build_grid(10, 3000);
    let second = Instance::build_grid(10, 3000);
    assert_eq!(first, second);
}

#[test]
fn empty_grid_has_no_instances() {
    assert_eq!(Instance::build_grid(0, 3000), Vec::<Instance>::new());
}

#[test]
fn zero_spacing_stacks_every_instance_on_the_origin() {
    let grid = Instance::build_grid(4, 0);
    assert_eq!(grid.len(), 16);
    for instance in grid {
        assert_eq!(instance.position, Vec3 { x: 0, y: 0, z: 0 });
        assert_eq!(instance.rotation, Rotation::TiltZ);
    }
}

#[test]
fn negative_spacing_mirrors_the_grid() {
    let grid = Instance::build_grid(2, -500);
    assert_eq!(grid[0].position, Vec3 { x: 500, y: 0, z: 500 });
    assert_eq!(grid[3].position, Vec3 { x: 0, y: 0, z: 0 });
    assert_eq!(grid[3].rotation, Rotation::TiltZ);
}

#[test]
fn extreme_spacing_does_not_overflow() {
    let grid = Instance::build_grid(2, i32::MIN);
    assert_eq!(grid[0].position, Vec3 { x: 2_147_483_648, y: 0, z: 2_147_483_648 });
    let grid = Instance::build_grid(3, i32::MAX);
    assert_eq!(grid[8].position, Vec3 { x: 2_147_483_647, y: 0, z: 2_147_483_647 });
}

#[test]
fn instance_at_a_position_picks_its_rotation() {
    assert_eq!(Instance::at(Vec3 { x: 0, y: 0, z: 0 }).rotation, Rotation::TiltZ);
    assert_eq!(Instance::at(Vec3 { x: 0, y: 1, z: 0 }).rotation, Rotation::Identity);
    assert_eq!(Instance::at(Vec3 { x: -1, y: 0, z: 0 }).rotation, Rotation::Identity);
    assert_eq!(Instance::at(Vec3 { x: 0, y: 0, z: 7 }).position, Vec3 { x: 0, y: 0, z: 7 });
}

#[test]
fn origin_tilt_is_one_degree() {
    assert_eq!(ORIGIN_TILT, scene_core::units::DEGREE);
}
