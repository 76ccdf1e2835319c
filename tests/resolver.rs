use arcade_jump::error::{Error, ErrorTime};
use arcade_jump::nofailure;
use arcade_jump::resolver::{
    gravity_from_height_and_impulse, gravity_from_height_and_time, gravity_from_time_and_impulse,
    height_from_impulse_and_gravity, height_from_time_and_gravity, height_from_time_and_impulse,
    impulse_from_height_and_gravity, impulse_from_height_and_time, impulse_from_time_and_gravity,
    time_from_height_and_gravity, time_from_height_and_impulse, time_from_impulse_and_gravity,
    time_from_speed_and_range, time_from_speed_and_range_with_ratio,
};
use arcade_jump::trajectory::Trajectory;

#[test]
fn resolver_test_jump_parameter() {
    const HEIGHT: f32 = 20.0;
    const TIME: f32 = 10.0;

    let impulse = impulse_from_height_and_time::<f32>(HEIGHT, TIME).unwrap();
    let gravity: f32 = gravity_from_height_and_time(HEIGHT, TIME).unwrap();
    let time2: f32 = time_from_height_and_gravity(20.0, gravity).unwrap();

    assert_eq!(impulse, 4.0);
    assert_eq!(gravity, -0.4);
    assert_eq!(time2, 10.0);
}

#[test]
fn scenario_height_time_to_impulse_gravity_32() {
    assert_eq!(impulse_from_height_and_time(20.0f32, 10.0), Ok(4.0));
    assert_eq!(gravity_from_height_and_time(20.0f32, 10.0), Ok(-0.4));
}

#[test]
fn scenario_height_impulse_to_gravity() {
    assert_eq!(gravity_from_height_and_impulse(10.0f32, 4.0), Ok(-0.8));
    assert_eq!(gravity_from_height_and_impulse(20.0f32, 8.0), Ok(-1.6));
}

#[test]
fn scenario_height_time_to_impulse_gravity_64() {
    assert_eq!(impulse_from_height_and_time(20.0f64, 10.0), Ok(4.0));
    assert_eq!(gravity_from_height_and_time(20.0f64, 10.0), Ok(-0.4));
}

#[test]
fn scenario_height_gravity_to_time_impulse() {
    let t = time_from_height_and_gravity(50.0f32, -1.0).unwrap();
    let v = impulse_from_height_and_gravity(50.0f32, -1.0).unwrap();
    assert!((t - 10.0).abs() < 1e-5);
    assert!((v - 10.0).abs() < 1e-5);
}

#[test]
fn scenario_impulse_gravity_to_height_time() {
    assert_eq!(height_from_impulse_and_gravity(10.0f32, -1.0), Ok(50.0));
    assert_eq!(time_from_impulse_and_gravity(10.0f32, -1.0), Ok(10.0));
}

#[test]
fn degenerate_inputs_report_the_null_parameter() {
    assert_eq!(impulse_from_height_and_time(20.0f32, 0.0), Err(Error::Time));
    assert_eq!(impulse_from_height_and_time(0.0f32, 0.0), Err(Error::Time));
    assert_eq!(time_from_height_and_gravity(20.0f32, 0.0), Err(Error::Gravity));
    assert_eq!(gravity_from_height_and_impulse(0.0f32, 4.0), Err(Error::Height));
    assert_eq!(height_from_impulse_and_gravity(10.0f32, 0.0), Err(Error::Gravity));
    assert_eq!(time_from_height_and_impulse(10.0f64, 0.0), Err(Error::Impulse));
    assert_eq!(time_from_impulse_and_gravity(10.0f64, 0.0), Err(Error::Gravity));
    assert_eq!(gravity_from_height_and_time(10.0f64, 0.0), Err(Error::Time));
    assert_eq!(gravity_from_time_and_impulse(0.0f64, 3.0), Err(Error::Time));
    assert_eq!(impulse_from_height_and_time(20i32, 0), Err(Error::Time));
}

#[test]
fn square_roots_take_the_magnitude() {
    let t = time_from_height_and_gravity(20.0f64, 10.0).unwrap();
    assert_eq!(t, 2.0);
    let t = time_from_height_and_gravity(-20.0f64, -10.0).unwrap();
    assert_eq!(t, 2.0);
    let v = impulse_from_height_and_gravity(20.0f64, -10.0).unwrap();
    assert_eq!(v, 20.0);
    let v = impulse_from_height_and_gravity(-20.0f64, -10.0).unwrap();
    assert_eq!(v, 20.0);
    assert!(!impulse_from_height_and_gravity(3.0f32, -7.0).unwrap().is_nan());
    assert!(time_from_height_and_gravity(-3.0f32, 7.0).unwrap() >= 0.0);
}

#[test]
fn identities_without_division_never_fail() {
    assert_eq!(height_from_time_and_impulse(10.0f64, 20.0), Ok(100.0));
    assert_eq!(height_from_time_and_gravity(10.0f64, -1.0), Ok(50.0));
    assert_eq!(impulse_from_time_and_gravity(10.0f64, -1.0), Ok(10.0));
    assert_eq!(nofailure::height_from_time_and_impulse(0.0f32, 5.0), 0.0);
    assert_eq!(nofailure::height_from_time_and_gravity(2i32, -3), 6);
    assert_eq!(nofailure::impulse_from_height_and_gravity(50.0f64, -1.0), 10.0);
}

#[test]
fn integer_identities_are_exact() {
    assert_eq!(impulse_from_height_and_time(20i32, 10), Ok(4));
    assert_eq!(time_from_height_and_impulse(20i64, 10), Ok(4));
    assert_eq!(gravity_from_time_and_impulse(10i32, 20), Ok(-2));
    assert_eq!(height_from_impulse_and_gravity(20i32, -1), Ok(200));
}

#[test]
fn horizontal_helpers() {
    assert_eq!(time_from_speed_and_range(1.0f64, 20.0), Ok(10.0));
    assert_eq!(time_from_speed_and_range(0.0f64, 20.0), Err(ErrorTime::Speed));
    assert_eq!(time_from_speed_and_range_with_ratio(1.0f64, 25.0, 0.6), Ok((15.0, 10.0)));
    assert_eq!(time_from_speed_and_range_with_ratio(0.0f64, 25.0, 0.6), Err(ErrorTime::Speed));
}

#[test]
fn horizontal_error_widens_to_time() {
    assert_eq!(Error::from(ErrorTime::Speed), Error::Time);
    assert_eq!(Error::from(ErrorTime::Range), Error::Time);
    assert_eq!(Error::from(ErrorTime::Time), Error::Time);
}

#[test]
fn round_trip_height_time() {
    let v = impulse_from_height_and_time(20.0f64, 10.0).unwrap();
    let g = gravity_from_height_and_time(20.0f64, 10.0).unwrap();
    let h = height_from_impulse_and_gravity(v, g).unwrap();
    let t = time_from_impulse_and_gravity(v, g).unwrap();
    assert!((h - 20.0).abs() < 1e-12);
    assert!((t - 10.0).abs() < 1e-12);
}

#[test]
fn trajectories_agree_whatever_the_pair() {
    let all = [
        Trajectory::from_height_and_time(20.0f64, 10.0).unwrap(),
        Trajectory::from_height_and_impulse(20.0f64, 4.0).unwrap(),
        Trajectory::from_height_and_gravity(20.0f64, -0.4).unwrap(),
        Trajectory::from_time_and_impulse(10.0f64, 4.0).unwrap(),
        Trajectory::from_time_and_gravity(10.0f64, -0.4).unwrap(),
        Trajectory::from_impulse_and_gravity(4.0f64, -0.4).unwrap(),
    ];
    for j in all.iter() {
        assert!((j.height() - 20.0).abs() < 1e-9);
        assert!((j.time() - 10.0).abs() < 1e-9);
        assert!((j.impulse() - 4.0).abs() < 1e-9);
        assert!((j.gravity() + 0.4).abs() < 1e-9);
        assert!((j.impulse() - 2.0 * j.height() / j.time()).abs() < 1e-9);
        assert!((j.gravity() + j.impulse() / j.time()).abs() < 1e-9);
    }
}

#[test]
fn trajectory_errors() {
    assert_eq!(Trajectory::from_height_and_time(20.0f64, 0.0).err(), Some(Error::Time));
    assert_eq!(Trajectory::from_height_and_impulse(20.0f64, 0.0).err(), Some(Error::Impulse));
    assert_eq!(Trajectory::from_height_and_impulse(0.0f64, 4.0).err(), Some(Error::Height));
    assert_eq!(Trajectory::from_height_and_gravity(20.0f64, 0.0).err(), Some(Error::Gravity));
    assert_eq!(Trajectory::from_time_and_impulse(0.0f64, 4.0).err(), Some(Error::Time));
    assert_eq!(Trajectory::from_impulse_and_gravity(4.0f64, 0.0).err(), Some(Error::Gravity));
}
