//! Decisions that turn a physics description exported from a 3D editor into
//! a rigid body and a collider.
//!
//! The editor cannot export enumerations, so a body's kind, its axis locks,
//! its continuous collision detection and a collider's shape travel as small
//! integers. These functions read them; building the physics components, and
//! everything measured in floats, is left to the caller.

use vstd::prelude::*;

verus! {

/// Code of a dynamic body.
pub const BODY_DYNAMIC: u8 = 0;
/// Code of a fixed (static) body.
pub const BODY_FIXED: u8 = 1;
/// Code of a body moved by setting its position.
pub const BODY_KINEMATIC_POSITION: u8 = 2;
/// Code of a body moved by setting its velocity.
pub const BODY_KINEMATIC_VELOCITY: u8 = 3;

/// How a rigid body moves.
#[derive(Debug, Clone, Copy, PartialEq, Eq, Structural)]
pub enum BodyKind {
    Dynamic,
    Fixed,
    KinematicPositionBased,
    KinematicVelocityBased,
}

/// Which translations and rotations of a body are locked.
#[derive(Debug, Clone, Copy, PartialEq, Eq, Structural)]
pub struct AxisLocks {
    pub translation_x: bool,
    pub translation_y: bool,
    pub translation_z: bool,
    pub rotation_x: bool,
    pub rotation_y: bool,
    pub rotation_z: bool,
}

/// Everything about a rigid body that its description decides by codes.
#[derive(Debug, Clone, Copy, PartialEq, Eq, Structural)]
pub struct BodyPlan {
    pub kind: BodyKind,
    pub locks: AxisLocks,
    /// Continuous collision detection.
    pub ccd: bool,
}

/// The body kind a code names, if any.
pub open spec fn spec_body_kind(code: u8) -> Option<BodyKind> {
    if code == BODY_DYNAMIC {
        Some(BodyKind::Dynamic)
    } else if code == BODY_FIXED {
        Some(BodyKind::Fixed)
    } else if code == BODY_KINEMATIC_POSITION {
        Some(BodyKind::KinematicPositionBased)
    } else if code == BODY_KINEMATIC_VELOCITY {
        Some(BodyKind::KinematicVelocityBased)
    } else {
        None
    }
}

/// The body kind a code names; `None` for a code above 3.
pub fn body_kind_from_code(code: u8) -> (res: Option<BodyKind>)
    ensures
        res == spec_body_kind(code),
        res is None <==> code > 3,
        code == 0 ==> res == Some(BodyKind::Dynamic),
        code == 1 ==> res == Some(BodyKind::Fixed),
        code == 2 ==> res == Some(BodyKind::KinematicPositionBased),
        code == 3 ==> res == Some(BodyKind::KinematicVelocityBased),
{
    match code {
        BODY_DYNAMIC => Some(BodyKind::Dynamic),
        BODY_FIXED => Some(BodyKind::Fixed),
        BODY_KINEMATIC_POSITION => Some(BodyKind::KinematicPositionBased),
        BODY_KINEMATIC_VELOCITY => Some(BodyKind::KinematicVelocityBased),
        _ => None,
    }
}

/// The locks that lock flags ask for: an axis is locked when its flag is
/// not zero.
pub fn axis_locks(lock_translation: [u8; 3], lock_rotation: [u8; 3]) -> (res: AxisLocks)
    ensures
        res.translation_x == (lock_translation@[0] != 0),
        res.translation_y == (lock_translation@[1] != 0),
        res.translation_z == (lock_translation@[2] != 0),
        res.rotation_x == (lock_rotation@[0] != 0),
        res.rotation_y == (lock_rotation@[1] != 0),
        res.rotation_z == (lock_rotation@[2] != 0),
{
    AxisLocks {
        translation_x: lock_translation[0] != 0,
        translation_y: lock_translation[1] != 0,
        translation_z: lock_translation[2] != 0,
        rotation_x: lock_rotation[0] != 0,
        rotation_y: lock_rotation[1] != 0,
        rotation_z: lock_rotation[2] != 0,
    }
}

/// The plan for a rigid body from the codes of its description: its kind,
/// its axis locks, and whether continuous collision detection is on (any
/// non-zero flag). `None` when the body status names no kind.
pub fn body_plan(body_status: u8, ccd_enable: u8, lock_translation: [u8; 3], lock_rotation: [u8; 3]) -> (res: Option<BodyPlan>)
    ensures
        res is None <==> spec_body_kind(body_status) is None,
        res is None <==> body_status > 3,
        body_status == 0 ==> (res matches Some(p) && p.kind == BodyKind::Dynamic),
        body_status == 1 ==> (res matches Some(p) && p.kind == BodyKind::Fixed),
        body_status == 2 ==> (res matches Some(p) && p.kind == BodyKind::KinematicPositionBased),
        body_status == 3 ==> (res matches Some(p) && p.kind == BodyKind::KinematicVelocityBased),
        res matches Some(p) ==> {
            &&& Some(p.kind) == spec_body_kind(body_status)
            &&& p.ccd == (ccd_enable > 0)
            &&& p.locks.translation_x == (lock_translation@[0] != 0)
            &&& p.locks.translation_y == (lock_translation@[1] != 0)
            &&& p.locks.translation_z == (lock_translation@[2] != 0)
            &&& p.locks.rotation_x == (lock_rotation@[0] != 0)
            &&& p.locks.rotation_y == (lock_rotation@[1] != 0)
            &&& p.locks.rotation_z == (lock_rotation@[2] != 0)
        },
{
    match body_kind_from_code(body_status) {
        Some(kind) => Some(BodyPlan { kind, locks: axis_locks(lock_translation, lock_rotation), ccd: ccd_enable > 0 }),
        None => None,
    }
}

/// Code of a sphere collider.
pub const SHAPE_BALL: u8 = 0;
/// Code of a capsule collider.
pub const SHAPE_CAPSULE: u8 = 1;
/// Code of a box collider.
pub const SHAPE_CUBOID: u8 = 2;

/// The shape of a collider. Its size comes from the mesh it wraps: a ball
/// reaches the farthest half extent, a capsule stands along the vertical half
/// extent, a box takes all three.
#[derive(Debug, Clone, Copy, PartialEq, Eq, Structural)]
pub enum ColliderShapeKind {
    Ball,
    Capsule,
    Cuboid,
}

/// The collider shape a code names; `None` for a code above 2.
pub fn collider_shape_kind(code: u8) -> (res: Option<ColliderShapeKind>)
    ensures
        code == SHAPE_BALL ==> res == Some(ColliderShapeKind::Ball),
        code == SHAPE_CAPSULE ==> res == Some(ColliderShapeKind::Capsule),
        code == SHAPE_CUBOID ==> res == Some(ColliderShapeKind::Cuboid),
        res is None <==> code > 2,
{
    match code {
        SHAPE_BALL => Some(ColliderShapeKind::Ball),
        SHAPE_CAPSULE => Some(ColliderShapeKind::Capsule),
        SHAPE_CUBOID => Some(ColliderShapeKind::Cuboid),
        _ => None,
    }
}

} // verus!
