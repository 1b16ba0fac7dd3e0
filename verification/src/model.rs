//! The records the bridge keeps per entity, and the values that cross its
//! public surface: errors, body kinds, query filters, collision events.

use vstd::prelude::*;
use crate::handle::{ColliderHandle, RigidBodyHandle};
use crate::math::Vec3;
use crate::shape::Shape;

verus! {

/// Why a bridge call was refused. Every member is recoverable: a refused
/// call leaves the simulation unchanged.
#[derive(Clone, Copy, PartialEq, Eq, Structural, Debug)]
pub enum PhysicsError {
    /// The call addressed a removed or unknown handle.
    InvalidHandle,
    /// A shape constructor was called without its required payload.
    MissingArgument,
    /// Reserved: a shape mutator aimed at a collider of another shape kind
    /// returns silently without effect instead of raising this.
    UnsupportedShapeForOperation,
}

/// How a rigid body is driven by the engine.
#[derive(Clone, Copy, PartialEq, Eq, Structural, Debug)]
pub enum RigidBodyKind {
    Fixed,
    Dynamic,
    KinematicPositionBased,
    KinematicVelocityBased,
}

/// The body kind a numeric code selects; unrecognized codes fall back to a
/// fixed body.
pub open spec fn kind_from_code_spec(code: int) -> RigidBodyKind {
    if code == 1 {
        RigidBodyKind::Dynamic
    } else if code == 2 {
        RigidBodyKind::KinematicPositionBased
    } else if code == 3 {
        RigidBodyKind::KinematicVelocityBased
    } else {
        RigidBodyKind::Fixed
    }
}

impl RigidBodyKind {
    pub fn from_code(code: i64) -> (r: RigidBodyKind)
        ensures
            r == kind_from_code_spec(code as int),
    {
        if code == 1 {
            RigidBodyKind::Dynamic
        } else if code == 2 {
            RigidBodyKind::KinematicPositionBased
        } else if code == 3 {
            RigidBodyKind::KinematicVelocityBased
        } else {
            RigidBodyKind::Fixed
        }
    }
}

/// What the bridge records for one rigid body.
#[derive(Clone, Copy, PartialEq, Eq, Structural, Debug)]
pub struct RigidBody {
    pub kind: RigidBodyKind,
    pub position: Vec3,
    pub rotation: Vec3,
    pub user_data: u128,
}

/// What the bridge records for one collider.
#[derive(Clone, PartialEq, Debug)]
#[verifier::ext_equal]
pub struct Collider {
    pub shape: Shape,
    pub position: Vec3,
    pub rotation: Vec3,
    pub sensor: bool,
    pub parent: Option<RigidBodyHandle>,
    pub user_data: u128,
    /// Every collider is created with collision events enabled, so it
    /// takes part in the per-step event stream.
    pub collision_events: bool,
}

/// Per-call exclusion rules applied uniformly to every spatial query.
#[derive(Clone, Copy, PartialEq, Debug)]
pub struct QueryFilter {
    pub exclude_rigid: Option<RigidBodyHandle>,
    pub exclude_collider: Option<ColliderHandle>,
    pub exclude_sensors: bool,
}

impl QueryFilter {
    /// The filter a query starts from: nothing excluded.
    pub open spec fn none_spec() -> QueryFilter {
        QueryFilter { exclude_rigid: None, exclude_collider: None, exclude_sensors: false }
    }

    /// Assembles a filter from the two optional exclusions a query call
    /// carries.
    pub fn new(
        exclude_rigid: Option<RigidBodyHandle>,
        exclude_collider: Option<ColliderHandle>,
    ) -> (r: QueryFilter)
        ensures
            r == (QueryFilter { exclude_rigid, exclude_collider, exclude_sensors: false }),
    {
        QueryFilter { exclude_rigid, exclude_collider, exclude_sensors: false }
    }
}

/// One collision-pair transition captured during the most recent step.
#[derive(Clone, Copy, PartialEq, Eq, Structural, Debug)]
pub struct CollisionEvent {
    pub handle_a: ColliderHandle,
    pub handle_b: ColliderHandle,
    pub flag: u32,
    pub start: bool,
}

impl ColliderHandle {
    /// The handle a placeholder event carries; it never addresses a slot.
    pub closed spec fn sentinel_spec() -> ColliderHandle {
        ColliderHandle { index: usize::MAX, generation: u64::MAX }
    }

    pub fn sentinel() -> (r: ColliderHandle)
        ensures
            r == ColliderHandle::sentinel_spec(),
    {
        ColliderHandle { index: usize::MAX, generation: u64::MAX }
    }
}

impl Default for CollisionEvent {
    /// A placeholder event: sentinel handles, no flags, not a start.
    fn default() -> (r: CollisionEvent)
        ensures
            r.handle_a == ColliderHandle::sentinel_spec(),
            r.handle_b == ColliderHandle::sentinel_spec(),
            r.flag == 0u32,
            !r.start,
    {
        CollisionEvent {
            handle_a: ColliderHandle::sentinel(),
            handle_b: ColliderHandle::sentinel(),
            flag: 0,
            start: false,
        }
    }
}

/// A ray for a cast: an origin and a direction.
#[derive(Clone, Copy, PartialEq, Eq, Structural, Debug)]
pub struct Ray {
    pub position: Vec3,
    pub direction: Vec3,
}

/// A ray-cast hit: the collider struck first and the time of impact along
/// the ray.
#[derive(Clone, Copy, PartialEq, Debug)]
pub struct RayHit {
    pub collider: ColliderHandle,
    pub time_of_impact: i64,
}

/// A ray-cast hit together with the impact normal.
#[derive(Clone, Copy, PartialEq, Debug)]
pub struct RayHitNormal {
    pub collider: ColliderHandle,
    pub time_of_impact: i64,
    pub normal: Vec3,
}

/// What one character-controller move resolved to.
#[derive(Clone, Copy, PartialEq, Debug)]
pub struct MovementResult {
    pub displacement: Vec3,
    pub grounded: bool,
    pub sliding_down_slope: bool,
}

/// A pose the engine reports for a rigid body after a step.
#[derive(Clone, Copy, PartialEq, Debug)]
pub struct BodyPose {
    pub handle: RigidBodyHandle,
    pub position: Vec3,
    pub rotation: Vec3,
}

/// A pose the engine reports for a collider after a step.
#[derive(Clone, Copy, PartialEq, Debug)]
pub struct ColliderPose {
    pub handle: ColliderHandle,
    pub position: Vec3,
    pub rotation: Vec3,
}

/// Everything the engine reports from one step: the collision events its
/// callbacks captured and the poses it integrated.
pub struct StepOutcome {
    pub events: Vec<CollisionEvent>,
    pub body_poses: Vec<BodyPose>,
    pub collider_poses: Vec<ColliderPose>,
}

} // verus!
