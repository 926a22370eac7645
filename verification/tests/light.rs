use scene_core::light::{LightUniform, STEP_DEGREES};
use scene_core::units::{Color, Vec3};

#[test]
fn new_light_is_white_and_at_its_start() {
    let light = LightUniform::new();
    assert_eq!(light.start, Vec3 { x: 2000, y: 2000, z: 2000 });
    assert_eq!(light.color, Color { r: 1000, g: 1000, b: 1000, a: 1000 });
    assert_eq!(light.phase, 0);
}

#[test]
fn advance_moves_one_degree() {
    let mut light = LightUniform::new();
    light.advance(STEP_DEGREES);
    assert_eq!(light.phase, 1);
    assert_eq!(light.start, Vec3 { x: 2000, y: 2000, z: 2000 });
    assert_eq!(light.color, Color { r: 1000, g: 1000, b: 1000, a: 1000 });
}

#[test]
fn advance_wraps_at_a_full_turn() {
    let mut light = LightUniform::new();
    light.phase = 359;
    light.advance(1);
    assert_eq!(light.phase, 0);
    light.advance(725);
    assert_eq!(light.phase, 5);
}

#[test]
fn advance_takes_the_largest_step() {
    let mut light = LightUniform::new();
    light.phase = 359;
    light.advance(u32::MAX);
    // u32::MAX is 4294967295, which leaves 255 when divided by 360.
    assert_eq!(light.phase, 254);
}

#[test]
fn three_hundred_sixty_steps_close_the_orbit() {
    let start = LightUniform::new();
    let mut light = start;
    for step in 1..=360u32 {
        light.advance(1);
        assert_eq!(light.phase, step % 360);
    }
    assert_eq!(light, start);
}

#[test]
fn any_step_closes_the_orbit_after_360_advances() {
    for step in [0u32, 1, 7, 90, 359, 360, 1000] {
        let mut light = LightUniform::new();
        light.phase = 123;
        for _ in 0..360 {
            light.advance(step);
        }
        assert_eq!(light.phase, 123);
    }
}
