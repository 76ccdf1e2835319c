use arcade_jump::horizontal::{from_speed_and_range, from_speed_range_and_ratio};
use arcade_jump::jump::JumpTrajectory;
use arcade_jump::nofailure::impulse_from_time_and_gravity;
use arcade_jump::solve::{
    from_height_and_gravity, from_height_and_impulse, from_height_and_time,
    from_impulse_and_gravity, from_time_and_gravity, from_time_and_impulse,
    impulse_from_height_and_gravity, time_from_height_and_gravity,
};

#[test]
fn solve_test_from_h_t() {
    let (impulse, gravity) = from_height_and_time(20.0, 10.0);
    assert_eq!(impulse, 4.0);
    assert_eq!(gravity, -0.4);

    let (impulse, gravity) = from_height_and_time((20.0) as f32, (10.0) as f32);
    assert_eq!(impulse, 4.0);
    assert_eq!(gravity, -0.4);
}

#[test]
fn solve_test_from_h_v() {
    let (time, gravity) = from_height_and_impulse(20.0, 10.0);
    assert_eq!(time, 4.0);
    assert_eq!(gravity, -2.5);

    let (time, gravity) = from_height_and_impulse((20.0) as f32, (10.0) as f32);
    assert_eq!(time, 4.0);
    assert_eq!(gravity, -2.5);
}

#[test]
fn solve_test_from_h_g() {
    let (time, impulse) = from_height_and_gravity::<f32, f32>(20.0, 10.0);
    assert_eq!(time, 2.0);
    assert_eq!(impulse, 20.0);

    let (time, impulse) = from_height_and_gravity::<f32, f64>((20.0) as f32, (10.0) as f32);
    assert_eq!(time, 2.0);
    assert_eq!(impulse, 20.0);
}

#[test]
fn solve_test_from_t_v() {
    let (height, gravity) = from_time_and_impulse(10.0, 20.0);
    assert_eq!(height, 100.0);
    assert_eq!(gravity, -2.0);

    let (height, gravity) = from_time_and_impulse((10.0) as f32, (20.0) as f32);
    assert_eq!(height, 100.0);
    assert_eq!(gravity, -2.0);
}

#[test]
fn solve_test_from_t_g() {
    let (height, impulse) = from_time_and_gravity(10.0, -1.0);
    assert_eq!(height, 50.0);
    assert_eq!(impulse, 10.0);

    let (height, impulse) = from_time_and_gravity((10.0) as f32, (-1.0) as f32);
    assert_eq!(height, 50.0);
    assert_eq!(impulse, 10.0);
}

#[test]
fn solve_test_from_v_g() {
    let (height, time) = from_impulse_and_gravity(10.0, -1.0);
    assert_eq!(height, 50.0);
    assert_eq!(time, 10.0);

    let (height, time) = from_impulse_and_gravity((10.0) as f32, (-1.0) as f32);
    assert_eq!(height, 50.0);
    assert_eq!(time, 10.0);
}

#[test]
fn impulse_test_from_h_g() {
    assert_eq!(impulse_from_height_and_gravity::<i32, f32>(20, -1), 6);
}

#[test]
fn impulse_test_from_t_g() {
    assert_eq!(impulse_from_time_and_gravity(10.0, -1.0), 10.0);
}

#[test]
fn time_test_from_h_g() {
    assert_eq!(time_from_height_and_gravity::<i32, f32>(20, -1), 6);
    assert_eq!(time_from_height_and_gravity::<i32, f32>(20, 0), 0);
}

#[test]
fn test_from_s_d() {
    assert_eq!(from_speed_and_range(1.0, 20.0), 10.0);
    assert_eq!(from_speed_and_range(0, 20), 0);
}

#[test]
fn test_from_s_d_r() {
    assert_eq!(from_speed_range_and_ratio(1.0, 25.0, 0.6), (15.0, 10.0));
    assert_eq!(from_speed_range_and_ratio::<i32, f64>(0, 25, 0.6), (0, 0));
}

#[test]
fn test_trajectory() {
    let jump = JumpTrajectory::new(20.0f64, 20.0, 10.0, 0.6f64, 10.0);

    assert_eq!(jump.get_impulse().floor(), 33.0);
    assert_eq!(jump.get_gravity(true, true).floor(), -28.0); // hold + ascend
    assert_eq!(jump.get_gravity(true, false).floor(), -63.0); // hold + descend
    assert_eq!(jump.get_gravity(false, true).floor(), -56.0); // small + ascend
    assert_eq!(jump.get_gravity(false, false).floor(), -63.0); // small + descend

    let jump = JumpTrajectory::new::<f64>(20, 20, 10, 0.6, 10);

    assert_eq!(jump.get_impulse(), 33);
    assert_eq!(jump.get_gravity(true, true), -27); // hold + ascend
    assert_eq!(jump.get_gravity(true, false), -62); // hold + descend
    assert_eq!(jump.get_gravity(false, true), -55); // small + ascend
    assert_eq!(jump.get_gravity(false, false), -62); // small + descend
}

#[test]
fn solve_null_divisor_gives_zero() {
    assert_eq!(from_height_and_time(20, 0), (0, 0));
    assert_eq!(from_impulse_and_gravity(10, 0), (0, 0));
    assert_eq!(from_height_and_impulse(0, 10), (0, 0));
    assert_eq!(from_time_and_impulse(0, 20), (0, 0));
}

#[test]
fn solve_integer_values() {
    assert_eq!(from_height_and_time(20, 10), (4, 0));
    assert_eq!(from_time_and_gravity(10, -1), (50, 10));
    assert_eq!(from_impulse_and_gravity(10, -1), (50, 10));
}
