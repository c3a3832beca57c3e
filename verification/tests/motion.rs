use arm_interface::kinematics::Vec3i;
use arm_interface::motion::circle::CircleMotion;
use arm_interface::motion::linear::LinearMotion;
use arm_interface::motion::Motion;

#[test]
fn linear_motion_duration_and_midpoint() {
    // One meter at half a meter per second: two seconds.
    let motion = LinearMotion::new(
        Vec3i { x: 0, y: 0, z: 0 },
        Vec3i { x: 1_000_000, y: 0, z: 0 },
        500_000,
    );
    assert_eq!(motion.duration_us, 2_000_000);
    // Halfway through the curve stands at half a meter.
    assert_eq!(motion.interpolate(1_000_000), Some(Vec3i { x: 500_000, y: 0, z: 0 }));
    // The curve completes at two seconds.
    assert_eq!(motion.interpolate(2_000_000), None);
}

#[test]
fn linear_motion_starts_at_the_original_position() {
    let motion = LinearMotion::new(
        Vec3i { x: 100, y: -200, z: 300 },
        Vec3i { x: 1_100, y: 800, z: -700 },
        1_000,
    );
    assert_eq!(motion.interpolate(0), Some(Vec3i { x: 100, y: -200, z: 300 }));
}

#[test]
fn linear_motion_moves_toward_the_target_on_every_axis() {
    let motion = LinearMotion::new(
        Vec3i { x: 0, y: 1_000_000, z: 0 },
        Vec3i { x: 0, y: 0, z: 0 },
        500_000,
    );
    assert_eq!(motion.duration_us, 2_000_000);
    assert_eq!(motion.interpolate(1_000_000), Some(Vec3i { x: 0, y: 500_000, z: 0 }));
}

#[test]
fn zero_length_linear_motion_is_complete_at_once() {
    let p = Vec3i { x: 5, y: 5, z: 5 };
    let motion = LinearMotion::new(p, p, 1_000);
    assert_eq!(motion.duration_us, 0);
    assert_eq!(motion.interpolate(0), None);
}

#[test]
fn circle_motion_yields_no_samples() {
    let motion = CircleMotion {
        center_position: Vec3i { x: 0, y: 0, z: 0 },
        pitch: 0,
        yaw: 0,
        radius: 100_000,
        angular_velocity: 1_000,
        laps: 2,
    };
    assert_eq!(motion.interpolate(0), None);
    assert_eq!(motion.interpolate(1_000_000), None);
}
