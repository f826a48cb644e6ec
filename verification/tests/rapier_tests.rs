use neural_control::rapier_physics::{
    axis_locks, body_kind_from_code, body_plan, collider_shape_kind, AxisLocks, BodyKind, ColliderShapeKind,
};

#[test]
fn body_codes() {
    assert_eq!(body_kind_from_code(0), Some(BodyKind::Dynamic));
    assert_eq!(body_kind_from_code(1), Some(BodyKind::Fixed));
    assert_eq!(body_kind_from_code(2), Some(BodyKind::KinematicPositionBased));
    assert_eq!(body_kind_from_code(3), Some(BodyKind::KinematicVelocityBased));
    assert_eq!(body_kind_from_code(4), None);
    assert_eq!(body_kind_from_code(255), None);
}

#[test]
fn locks_follow_non_zero_flags() {
    let l = axis_locks([1, 0, 7], [0, 255, 0]);
    assert_eq!(
        l,
        AxisLocks {
            translation_x: true,
            translation_y: false,
            translation_z: true,
            rotation_x: false,
            rotation_y: true,
            rotation_z: false,
        }
    );
}

#[test]
fn body_plan_reads_all_codes() {
    let p = body_plan(1, 2, [0, 0, 0], [1, 1, 1]).unwrap();
    assert_eq!(p.kind, BodyKind::Fixed);
    assert!(p.ccd);
    assert!(!p.locks.translation_x && p.locks.rotation_z);
    let p = body_plan(0, 0, [0, 0, 0], [0, 0, 0]).unwrap();
    assert!(!p.ccd);
    assert_eq!(p.kind, BodyKind::Dynamic);
    assert!(body_plan(9, 1, [1, 1, 1], [1, 1, 1]).is_none());
}

#[test]
fn collider_codes() {
    assert_eq!(collider_shape_kind(0), Some(ColliderShapeKind::Ball));
    assert_eq!(collider_shape_kind(1), Some(ColliderShapeKind::Capsule));
    assert_eq!(collider_shape_kind(2), Some(ColliderShapeKind::Cuboid));
    assert_eq!(collider_shape_kind(3), None);
}
