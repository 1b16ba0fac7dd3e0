//! The simulation bridge: handle tables, the collision-event buffer, and
//! every decision the bridge makes between the scripting surface and the
//! engine.
//!
//! The engine itself (integration, broad/narrow phase, sweeps) is an opaque
//! collaborator driven by the host around this library; the bridge records
//! what the script created, validates every handle, and owns the event
//! buffer the engine fills during a step.

use vstd::prelude::*;
use crate::handle::{ColliderHandle, RigidBodyHandle, Table};
use crate::math::Vec3;
use crate::model::{
    BodyPose, Collider, ColliderPose, CollisionEvent, PhysicsError, QueryFilter, RayHit,
    RayHitNormal, RigidBody, RigidBodyKind, StepOutcome, kind_from_code_spec,
};
use crate::shape::{Shape, ShapeParam, ShapeV, group_triangles, triangles_of};

verus! {

/// What a shape mutation decided to do, computed before any state is
/// touched so a refused call provably changes nothing.
enum ShapeSetAction {
    Nothing,
    SetBall(i64),
    SetCuboid(Vec3),
    Refuse,
}

/// One simulation instance: the two handle tables and the event buffer.
/// Handles are scoped to the instance that created them.
pub struct Simulation {
    pub(crate) rigid: Table<RigidBody>,
    pub(crate) collider: Table<Collider>,
    pub(crate) events: Vec<CollisionEvent>,
}

impl Simulation {
    /// Both handle tables are well formed.
    pub closed spec fn wf(self) -> bool {
        &&& self.rigid.wf()
        &&& self.collider.wf()
    }

    /// Whether `h` addresses a live rigid body.
    pub closed spec fn rb_valid(self, h: RigidBodyHandle) -> bool {
        self.rigid.valid(h.index as int, h.generation as int)
    }

    /// The rigid body `h` addresses.
    pub closed spec fn rb_at(self, h: RigidBodyHandle) -> RigidBody {
        self.rigid.at(h.index as int, h.generation as int)
    }

    /// Whether `h` addresses a live collider.
    pub closed spec fn co_valid(self, h: ColliderHandle) -> bool {
        self.collider.valid(h.index as int, h.generation as int)
    }

    /// The collider `h` addresses.
    pub closed spec fn co_at(self, h: ColliderHandle) -> Collider {
        self.collider.at(h.index as int, h.generation as int)
    }

    /// The events captured by the most recent step.
    pub closed spec fn events_seq(self) -> Seq<CollisionEvent> {
        self.events@
    }
}

/// No rigid body was created, removed or altered.
pub open spec fn bodies_unchanged(pre: Simulation, post: Simulation) -> bool {
    &&& forall|h: RigidBodyHandle| #[trigger] post.rb_valid(h) == pre.rb_valid(h)
    &&& forall|h: RigidBodyHandle| pre.rb_valid(h) ==> #[trigger] post.rb_at(h) == pre.rb_at(h)
}

/// No rigid body other than `h` was created, removed or altered.
pub open spec fn bodies_unchanged_except(
    pre: Simulation,
    post: Simulation,
    h: RigidBodyHandle,
) -> bool {
    &&& forall|h2: RigidBodyHandle| h2 != h ==> #[trigger] post.rb_valid(h2) == pre.rb_valid(h2)
    &&& forall|h2: RigidBodyHandle|
        pre.rb_valid(h2) && h2 != h ==> #[trigger] post.rb_at(h2) == pre.rb_at(h2)
}

/// No collider was created, removed or altered.
pub open spec fn colliders_unchanged(pre: Simulation, post: Simulation) -> bool {
    &&& forall|h: ColliderHandle| #[trigger] post.co_valid(h) == pre.co_valid(h)
    &&& forall|h: ColliderHandle| pre.co_valid(h) ==> #[trigger] post.co_at(h) == pre.co_at(h)
}

/// No collider other than `h` was created, removed or altered.
pub open spec fn colliders_unchanged_except(
    pre: Simulation,
    post: Simulation,
    h: ColliderHandle,
) -> bool {
    &&& forall|h2: ColliderHandle| h2 != h ==> #[trigger] post.co_valid(h2) == pre.co_valid(h2)
    &&& forall|h2: ColliderHandle|
        pre.co_valid(h2) && h2 != h ==> #[trigger] post.co_at(h2) == pre.co_at(h2)
}

/// The event buffer was not touched.
pub open spec fn events_unchanged(pre: Simulation, post: Simulation) -> bool {
    post.events_seq() == pre.events_seq()
}

/// A collider as it stands after the rigid body `h` was removed without
/// cascading: detached where it was attached to `h`, untouched otherwise.
pub open spec fn detached_from(c: Collider, h: RigidBodyHandle) -> Collider {
    Collider { parent: if c.parent == Some(h) { None } else { c.parent }, ..c }
}

/// Whether a collider creation names a parent that is not live.
pub open spec fn parent_missing(s: Simulation, parent: Option<RigidBodyHandle>) -> bool {
    parent matches Some(p) && !s.rb_valid(p)
}

/// Whether a collider creation omits the payload its shape kind requires:
/// half-extents for a cuboid, points and indices for a mesh, points for a
/// convex hull.
pub open spec fn solid_body_missing_payload(
    kind: int,
    half_extents: Option<Vec3>,
    points: Option<Vec<Vec3>>,
    indices: Option<Vec<u32>>,
) -> bool {
    if kind == 0 {
        half_extents is None
    } else if kind == 1 {
        points is None || indices is None
    } else {
        points is None
    }
}

/// The shape a collider creation builds from its payload.
pub open spec fn solid_body_shape_spec(
    kind: int,
    half_extents: Option<Vec3>,
    points: Option<Vec<Vec3>>,
    indices: Option<Vec<u32>>,
) -> ShapeV
    recommends
        !solid_body_missing_payload(kind, half_extents, points, indices),
{
    if kind == 0 {
        ShapeV::Cuboid { half_extents: half_extents->Some_0 }
    } else if kind == 1 {
        ShapeV::Mesh {
            points: points->Some_0@,
            triangles: triangles_of(indices->Some_0@),
        }
    } else {
        ShapeV::ConvexHull { points: points->Some_0@ }
    }
}

impl Simulation {
    /// Creates an empty simulation: no bodies, no colliders, no events.
    pub fn new() -> (r: Simulation)
        ensures
            r.wf(),
            forall|h: RigidBodyHandle| !(#[trigger] r.rb_valid(h)),
            forall|h: ColliderHandle| !(#[trigger] r.co_valid(h)),
            r.events_seq() == Seq::<CollisionEvent>::empty(),
    {
        Simulation { rigid: Table::new(), collider: Table::new(), events: Vec::new() }
    }

    /// Creates a rigid body of the kind `kind` selects; an unrecognized
    /// code creates a fixed body. Never fails.
    pub fn rigid_body(&mut self, kind: i64) -> (h: RigidBodyHandle)
        requires
            old(self).wf(),
        ensures
            final(self).wf(),
            final(self).rb_valid(h),
            !old(self).rb_valid(h),
            final(self).rb_at(h) == (RigidBody {
                kind: kind_from_code_spec(kind as int),
                position: Vec3::zero_spec(),
                rotation: Vec3::zero_spec(),
                user_data: 0u128,
            }),
            bodies_unchanged_except(*old(self), *final(self), h),
            colliders_unchanged(*old(self), *final(self)),
            events_unchanged(*old(self), *final(self)),
    {
        let body = RigidBody {
            kind: RigidBodyKind::from_code(kind),
            position: Vec3::zero(),
            rotation: Vec3::zero(),
            user_data: 0,
        };
        let (index, generation) = self.rigid.insert(body);
        RigidBodyHandle { index, generation }
    }

    /// Whether a rigid-body handle is live.
    pub fn rigid_body_is_live(&self, h: RigidBodyHandle) -> (r: bool)
        ensures
            r == self.rb_valid(h),
    {
        self.rigid.contains(h.index, h.generation)
    }

    /// Whether a collider handle is live.
    pub fn collider_is_live(&self, h: ColliderHandle) -> (r: bool)
        ensures
            r == self.co_valid(h),
    {
        self.collider.contains(h.index, h.generation)
    }

    /// What a rigid-body position read returns.
    pub open spec fn rb_position_result(self, h: RigidBodyHandle) -> Result<Vec3, PhysicsError> {
        if self.rb_valid(h) {
            Ok(self.rb_at(h).position)
        } else {
            Err(PhysicsError::InvalidHandle)
        }
    }

    pub fn get_rigid_body_position(&self, h: RigidBodyHandle) -> (r: Result<Vec3, PhysicsError>)
        ensures
            r == self.rb_position_result(h),
    {
        match self.rigid.get(h.index, h.generation) {
            Some(b) => Ok(b.position),
            None => Err(PhysicsError::InvalidHandle),
        }
    }

    /// Sets the position of a rigid body; the engine-side wake-up of the
    /// body is the host's concern.
    pub fn set_rigid_body_position(&mut self, h: RigidBodyHandle, position: Vec3) -> (r: Result<
        (),
        PhysicsError,
    >)
        requires
            old(self).wf(),
        ensures
            final(self).wf(),
            r is Ok <==> old(self).rb_valid(h),
            !old(self).rb_valid(h) ==> r == Err::<(), PhysicsError>(PhysicsError::InvalidHandle)
                && *final(self) == *old(self),
            old(self).rb_valid(h) ==> {
                &&& final(self).rb_valid(h)
                &&& final(self).rb_at(h) == (RigidBody { position, ..old(self).rb_at(h) })
                &&& bodies_unchanged_except(*old(self), *final(self), h)
                &&& colliders_unchanged(*old(self), *final(self))
                &&& events_unchanged(*old(self), *final(self))
            },
    {
        if self.rigid.contains(h.index, h.generation) {
            let b = self.rigid.borrow_mut(h.index, h.generation);
            b.position = position;
            Ok(())
        } else {
            Err(PhysicsError::InvalidHandle)
        }
    }

    /// What a rigid-body rotation read returns.
    pub open spec fn rb_rotation_result(self, h: RigidBodyHandle) -> Result<Vec3, PhysicsError> {
        if self.rb_valid(h) {
            Ok(self.rb_at(h).rotation)
        } else {
            Err(PhysicsError::InvalidHandle)
        }
    }

    pub fn get_rigid_body_rotation(&self, h: RigidBodyHandle) -> (r: Result<Vec3, PhysicsError>)
        ensures
            r == self.rb_rotation_result(h),
    {
        match self.rigid.get(h.index, h.generation) {
            Some(b) => Ok(b.rotation),
            None => Err(PhysicsError::InvalidHandle),
        }
    }

    /// Sets the rotation of a rigid body, given as a rotation vector (axis
    /// scaled by angle); the engine-side wake-up is the host's concern.
    pub fn set_rigid_body_rotation(&mut self, h: RigidBodyHandle, rotation: Vec3) -> (r: Result<
        (),
        PhysicsError,
    >)
        requires
            old(self).wf(),
        ensures
            final(self).wf(),
            r is Ok <==> old(self).rb_valid(h),
            !old(self).rb_valid(h) ==> r == Err::<(), PhysicsError>(PhysicsError::InvalidHandle)
                && *final(self) == *old(self),
            old(self).rb_valid(h) ==> {
                &&& final(self).rb_valid(h)
                &&& final(self).rb_at(h) == (RigidBody { rotation, ..old(self).rb_at(h) })
                &&& bodies_unchanged_except(*old(self), *final(self), h)
                &&& colliders_unchanged(*old(self), *final(self))
                &&& events_unchanged(*old(self), *final(self))
            },
    {
        if self.rigid.contains(h.index, h.generation) {
            let b = self.rigid.borrow_mut(h.index, h.generation);
            b.rotation = rotation;
            Ok(())
        } else {
            Err(PhysicsError::InvalidHandle)
        }
    }

    /// What a rigid-body user-data read returns.
    pub open spec fn rb_user_data_result(self, h: RigidBodyHandle) -> Result<u128, PhysicsError> {
        if self.rb_valid(h) {
            Ok(self.rb_at(h).user_data)
        } else {
            Err(PhysicsError::InvalidHandle)
        }
    }

    pub fn get_rigid_body_user_data(&self, h: RigidBodyHandle) -> (r: Result<u128, PhysicsError>)
        ensures
            r == self.rb_user_data_result(h),
    {
        match self.rigid.get(h.index, h.generation) {
            Some(b) => Ok(b.user_data),
            None => Err(PhysicsError::InvalidHandle),
        }
    }

    /// Sets the opaque 128-bit tag of a rigid body; the tag has no meaning
    /// to the bridge.
    pub fn set_rigid_body_user_data(&mut self, h: RigidBodyHandle, user_data: u128) -> (r: Result<
        (),
        PhysicsError,
    >)
        requires
            old(self).wf(),
        ensures
            final(self).wf(),
            r is Ok <==> old(self).rb_valid(h),
            !old(self).rb_valid(h) ==> r == Err::<(), PhysicsError>(PhysicsError::InvalidHandle)
                && *final(self) == *old(self),
            old(self).rb_valid(h) ==> {
                &&& final(self).rb_valid(h)
                &&& final(self).rb_at(h) == (RigidBody { user_data, ..old(self).rb_at(h) })
                &&& bodies_unchanged_except(*old(self), *final(self), h)
                &&& colliders_unchanged(*old(self), *final(self))
                &&& events_unchanged(*old(self), *final(self))
            },
    {
        if self.rigid.contains(h.index, h.generation) {
            let b = self.rigid.borrow_mut(h.index, h.generation);
            b.user_data = user_data;
            Ok(())
        } else {
            Err(PhysicsError::InvalidHandle)
        }
    }

    /// What a collider position read returns.
    pub open spec fn co_position_result(self, h: ColliderHandle) -> Result<Vec3, PhysicsError> {
        if self.co_valid(h) {
            Ok(self.co_at(h).position)
        } else {
            Err(PhysicsError::InvalidHandle)
        }
    }

    pub fn get_solid_body_position(&self, h: ColliderHandle) -> (r: Result<Vec3, PhysicsError>)
        ensures
            r == self.co_position_result(h),
    {
        match self.collider.get(h.index, h.generation) {
            Some(c) => Ok(c.position),
            None => Err(PhysicsError::InvalidHandle),
        }
    }

    /// Sets the position of a collider, both in the world and relative to
    /// its parent where it has one.
    pub fn set_solid_body_position(&mut self, h: ColliderHandle, position: Vec3) -> (r: Result<
        (),
        PhysicsError,
    >)
        requires
            old(self).wf(),
        ensures
            final(self).wf(),
            r is Ok <==> old(self).co_valid(h),
            !old(self).co_valid(h) ==> r == Err::<(), PhysicsError>(PhysicsError::InvalidHandle)
                && *final(self) == *old(self),
            old(self).co_valid(h) ==> {
                &&& final(self).co_valid(h)
                &&& final(self).co_at(h) == (Collider { position, ..old(self).co_at(h) })
                &&& colliders_unchanged_except(*old(self), *final(self), h)
                &&& bodies_unchanged(*old(self), *final(self))
                &&& events_unchanged(*old(self), *final(self))
            },
    {
        if self.collider.contains(h.index, h.generation) {
            let c = self.collider.borrow_mut(h.index, h.generation);
            c.position = position;
            Ok(())
        } else {
            Err(PhysicsError::InvalidHandle)
        }
    }

    /// What a collider rotation read returns.
    pub open spec fn co_rotation_result(self, h: ColliderHandle) -> Result<Vec3, PhysicsError> {
        if self.co_valid(h) {
            Ok(self.co_at(h).rotation)
        } else {
            Err(PhysicsError::InvalidHandle)
        }
    }

    pub fn get_solid_body_rotation(&self, h: ColliderHandle) -> (r: Result<Vec3, PhysicsError>)
        ensures
            r == self.co_rotation_result(h),
    {
        match self.collider.get(h.index, h.generation) {
            Some(c) => Ok(c.rotation),
            None => Err(PhysicsError::InvalidHandle),
        }
    }

    /// Sets the rotation of a collider, given as a rotation vector.
    pub fn set_solid_body_rotation(&mut self, h: ColliderHandle, rotation: Vec3) -> (r: Result<
        (),
        PhysicsError,
    >)
        requires
            old(self).wf(),
        ensures
            final(self).wf(),
            r is Ok <==> old(self).co_valid(h),
            !old(self).co_valid(h) ==> r == Err::<(), PhysicsError>(PhysicsError::InvalidHandle)
                && *final(self) == *old(self),
            old(self).co_valid(h) ==> {
                &&& final(self).co_valid(h)
                &&& final(self).co_at(h) == (Collider { rotation, ..old(self).co_at(h) })
                &&& colliders_unchanged_except(*old(self), *final(self), h)
                &&& bodies_unchanged(*old(self), *final(self))
                &&& events_unchanged(*old(self), *final(self))
            },
    {
        if self.collider.contains(h.index, h.generation) {
            let c = self.collider.borrow_mut(h.index, h.generation);
            c.rotation = rotation;
            Ok(())
        } else {
            Err(PhysicsError::InvalidHandle)
        }
    }

    /// What a collider sensor read returns.
    pub open spec fn co_sensor_result(self, h: ColliderHandle) -> Result<bool, PhysicsError> {
        if self.co_valid(h) {
            Ok(self.co_at(h).sensor)
        } else {
            Err(PhysicsError::InvalidHandle)
        }
    }

    pub fn get_solid_body_sensor(&self, h: ColliderHandle) -> (r: Result<bool, PhysicsError>)
        ensures
            r == self.co_sensor_result(h),
    {
        match self.collider.get(h.index, h.generation) {
            Some(c) => Ok(c.sensor),
            None => Err(PhysicsError::InvalidHandle),
        }
    }

    /// Marks a collider as a sensor (events only, no contact response) or
    /// as a solid collider.
    pub fn set_solid_body_sensor(&mut self, h: ColliderHandle, sensor: bool) -> (r: Result<
        (),
        PhysicsError,
    >)
        requires
            old(self).wf(),
        ensures
            final(self).wf(),
            r is Ok <==> old(self).co_valid(h),
            !old(self).co_valid(h) ==> r == Err::<(), PhysicsError>(PhysicsError::InvalidHandle)
                && *final(self) == *old(self),
            old(self).co_valid(h) ==> {
                &&& final(self).co_valid(h)
                &&& final(self).co_at(h) == (Collider { sensor, ..old(self).co_at(h) })
                &&& colliders_unchanged_except(*old(self), *final(self), h)
                &&& bodies_unchanged(*old(self), *final(self))
                &&& events_unchanged(*old(self), *final(self))
            },
    {
        if self.collider.contains(h.index, h.generation) {
            let c = self.collider.borrow_mut(h.index, h.generation);
            c.sensor = sensor;
            Ok(())
        } else {
            Err(PhysicsError::InvalidHandle)
        }
    }

    /// What a collider user-data read returns.
    pub open spec fn co_user_data_result(self, h: ColliderHandle) -> Result<u128, PhysicsError> {
        if self.co_valid(h) {
            Ok(self.co_at(h).user_data)
        } else {
            Err(PhysicsError::InvalidHandle)
        }
    }

    pub fn get_solid_body_user_data(&self, h: ColliderHandle) -> (r: Result<u128, PhysicsError>)
        ensures
            r == self.co_user_data_result(h),
    {
        match self.collider.get(h.index, h.generation) {
            Some(c) => Ok(c.user_data),
            None => Err(PhysicsError::InvalidHandle),
        }
    }

    /// Sets the opaque 128-bit tag of a collider.
    pub fn set_solid_body_user_data(&mut self, h: ColliderHandle, user_data: u128) -> (r: Result<
        (),
        PhysicsError,
    >)
        requires
            old(self).wf(),
        ensures
            final(self).wf(),
            r is Ok <==> old(self).co_valid(h),
            !old(self).co_valid(h) ==> r == Err::<(), PhysicsError>(PhysicsError::InvalidHandle)
                && *final(self) == *old(self),
            old(self).co_valid(h) ==> {
                &&& final(self).co_valid(h)
                &&& final(self).co_at(h) == (Collider { user_data, ..old(self).co_at(h) })
                &&& colliders_unchanged_except(*old(self), *final(self), h)
                &&& bodies_unchanged(*old(self), *final(self))
                &&& events_unchanged(*old(self), *final(self))
            },
    {
        if self.collider.contains(h.index, h.generation) {
            let c = self.collider.borrow_mut(h.index, h.generation);
            c.user_data = user_data;
            Ok(())
        } else {
            Err(PhysicsError::InvalidHandle)
        }
    }

    /// What a collider parent read returns.
    pub open spec fn co_parent_result(self, h: ColliderHandle) -> Result<
        Option<RigidBodyHandle>,
        PhysicsError,
    > {
        if self.co_valid(h) {
            Ok(self.co_at(h).parent)
        } else {
            Err(PhysicsError::InvalidHandle)
        }
    }

    /// The rigid body a collider is attached to, if any; a collider created
    /// without a parent belongs to the world.
    pub fn get_solid_body_parent(&self, h: ColliderHandle) -> (r: Result<
        Option<RigidBodyHandle>,
        PhysicsError,
    >)
        ensures
            r == self.co_parent_result(h),
    {
        match self.collider.get(h.index, h.generation) {
            Some(c) => Ok(c.parent),
            None => Err(PhysicsError::InvalidHandle),
        }
    }

    /// Stores a new collider: collision events on by default, sensor off,
    /// zero pose, no tag, attached to `parent` where one is given.
    fn insert_collider(&mut self, parent: Option<RigidBodyHandle>, shape: Shape) -> (r: Result<
        ColliderHandle,
        PhysicsError,
    >)
        requires
            old(self).wf(),
        ensures
            final(self).wf(),
            parent_missing(*old(self), parent) ==> r == Err::<ColliderHandle, PhysicsError>(
                PhysicsError::InvalidHandle,
            ) && *final(self) == *old(self),
            !parent_missing(*old(self), parent) ==> (r matches Ok(c) && !old(self).co_valid(c)
                && final(self).co_valid(c) && final(self).co_at(c) == (Collider {
                shape,
                position: Vec3::zero_spec(),
                rotation: Vec3::zero_spec(),
                sensor: false,
                parent,
                user_data: 0u128,
                collision_events: true,
            }) && colliders_unchanged_except(*old(self), *final(self), c) && bodies_unchanged(
                *old(self),
                *final(self),
            ) && events_unchanged(*old(self), *final(self))),
    {
        if let Some(p) = parent {
            if !self.rigid.contains(p.index, p.generation) {
                return Err(PhysicsError::InvalidHandle);
            }
        }
        let c = Collider {
            shape,
            position: Vec3::zero(),
            rotation: Vec3::zero(),
            sensor: false,
            parent,
            user_data: 0,
            collision_events: true,
        };
        let (index, generation) = self.collider.insert(c);
        Ok(ColliderHandle { index, generation })
    }

    /// Creates a collider from a shape kind and its payload and attaches it
    /// to `parent` where one is given. A missing payload is refused; the
    /// shape kinds are cuboid (0), triangle mesh (1) and convex hull
    /// (anything else), the mesh indices grouped into triples with any
    /// remainder dropped.
    pub fn solid_body(
        &mut self,
        parent: Option<RigidBodyHandle>,
        kind: i64,
        half_extents: Option<Vec3>,
        points: Option<Vec<Vec3>>,
        indices: Option<Vec<u32>>,
    ) -> (r: Result<ColliderHandle, PhysicsError>)
        requires
            old(self).wf(),
        ensures
            final(self).wf(),
            solid_body_missing_payload(kind as int, half_extents, points, indices) ==> r == Err::<
                ColliderHandle,
                PhysicsError,
            >(PhysicsError::MissingArgument) && *final(self) == *old(self),
            !solid_body_missing_payload(kind as int, half_extents, points, indices)
                && parent_missing(*old(self), parent) ==> r == Err::<ColliderHandle, PhysicsError>(
                PhysicsError::InvalidHandle,
            ) && *final(self) == *old(self),
            !solid_body_missing_payload(kind as int, half_extents, points, indices)
                && !parent_missing(*old(self), parent) ==> (r matches Ok(c) && !old(self).co_valid(
                c,
            ) && final(self).co_valid(c) && final(self).co_at(c).shape@ == solid_body_shape_spec(
                kind as int,
                half_extents,
                points,
                indices,
            ) && final(self).co_at(c).position == Vec3::zero_spec() && final(self).co_at(c).rotation
                == Vec3::zero_spec() && !final(self).co_at(c).sensor && final(self).co_at(c).parent
                == parent && final(self).co_at(c).user_data == 0u128 && final(self).co_at(
                c,
            ).collision_events && colliders_unchanged_except(*old(self), *final(self), c)
                && bodies_unchanged(*old(self), *final(self)) && events_unchanged(
                *old(self),
                *final(self),
            )),
    {
        if kind == 0 {
            match half_extents {
                Some(he) => self.insert_collider(parent, Shape::Cuboid { half_extents: he }),
                None => Err(PhysicsError::MissingArgument),
            }
        } else if kind == 1 {
            match (points, indices) {
                (Some(p), Some(idx)) => {
                    let triangles = group_triangles(&idx);
                    self.insert_collider(parent, Shape::Mesh { points: p, triangles })
                },
                _ => Err(PhysicsError::MissingArgument),
            }
        } else {
            match points {
                Some(p) => self.insert_collider(parent, Shape::ConvexHull { points: p }),
                None => Err(PhysicsError::MissingArgument),
            }
        }
    }

    /// Removes a collider; a stale or unknown handle is silently ignored.
    /// Waking the parent body is the host's engine-side concern.
    pub fn collider_remove(&mut self, h: ColliderHandle)
        requires
            old(self).wf(),
        ensures
            final(self).wf(),
            !final(self).co_valid(h),
            !old(self).co_valid(h) ==> *final(self) == *old(self),
            colliders_unchanged_except(*old(self), *final(self), h),
            bodies_unchanged(*old(self), *final(self)),
            events_unchanged(*old(self), *final(self)),
    {
        if self.collider.contains(h.index, h.generation) {
            self.collider.remove(h.index, h.generation);
        }
    }

    /// Removes a rigid body; a stale or unknown handle is silently
    /// ignored. With `remove_colliders` every collider attached to the
    /// body goes with it; without it they stay and are detached from the
    /// removed body. Evicting joints attached to the body is the engine's
    /// own cleanup.
    pub fn rigid_body_remove(&mut self, h: RigidBodyHandle, remove_colliders: bool)
        requires
            old(self).wf(),
        ensures
            final(self).wf(),
            !final(self).rb_valid(h),
            !old(self).rb_valid(h) ==> *final(self) == *old(self),
            bodies_unchanged_except(*old(self), *final(self), h),
            events_unchanged(*old(self), *final(self)),
            old(self).rb_valid(h) && remove_colliders ==> forall|c: ColliderHandle|
                #[trigger] final(self).co_valid(c) == (old(self).co_valid(c) && old(self).co_at(
                    c,
                ).parent != Some(h)),
            old(self).rb_valid(h) && remove_colliders ==> forall|c: ColliderHandle|
                old(self).co_valid(c) && old(self).co_at(c).parent != Some(h)
                    ==> #[trigger] final(self).co_at(c) == old(self).co_at(c),
            old(self).rb_valid(h) && !remove_colliders ==> forall|c: ColliderHandle|
                #[trigger] final(self).co_valid(c) == old(self).co_valid(c),
            old(self).rb_valid(h) && !remove_colliders ==> forall|c: ColliderHandle|
                old(self).co_valid(c) ==> #[trigger] final(self).co_at(c) == detached_from(
                    old(self).co_at(c),
                    h,
                ),
    {
        if !self.rigid.contains(h.index, h.generation) {
            return ;
        }
        self.rigid.remove(h.index, h.generation);
        let ghost mid = *self;
        let n: usize = self.collider.slot_count();
        let mut i: usize = 0;
        while i < n
            invariant
                self.wf(),
                n == self.collider.slots@.len(),
                i <= n,
                self.rigid == mid.rigid,
                self.events == mid.events,
                forall|c: ColliderHandle|
                    c.index >= i ==> #[trigger] self.co_valid(c) == mid.co_valid(c),
                forall|c: ColliderHandle|
                    c.index >= i && mid.co_valid(c) ==> #[trigger] self.co_at(c) == mid.co_at(c),
                remove_colliders ==> forall|c: ColliderHandle|
                    c.index < i ==> #[trigger] self.co_valid(c) == (mid.co_valid(c) && mid.co_at(
                        c,
                    ).parent != Some(h)),
                remove_colliders ==> forall|c: ColliderHandle|
                    c.index < i && mid.co_valid(c) && mid.co_at(c).parent != Some(h)
                        ==> #[trigger] self.co_at(c) == mid.co_at(c),
                !remove_colliders ==> forall|c: ColliderHandle|
                    c.index < i ==> #[trigger] self.co_valid(c) == mid.co_valid(c),
                !remove_colliders ==> forall|c: ColliderHandle|
                    c.index < i && mid.co_valid(c) ==> #[trigger] self.co_at(c) == detached_from(
                        mid.co_at(c),
                        h,
                    ),
            decreases n - i,
        {
            let ghost pre = *self;
            match self.collider.generation_if_live(i) {
                Some(g) => {
                    let is_child: bool = match self.collider.get(i, g) {
                        Some(c) => match c.parent {
                            Some(p) => p.index == h.index && p.generation == h.generation,
                            None => false,
                        },
                        None => false,
                    };
                    proof {
                        let ch = ColliderHandle { index: i, generation: g };
                        assert(pre.co_valid(ch));
                        assert(mid.co_valid(ch));
                        assert(pre.co_at(ch) == mid.co_at(ch));
                        assert(is_child == (mid.co_at(ch).parent == Some(h)));
                    }
                    if is_child {
                        if remove_colliders {
                            self.collider.remove(i, g);
                        } else {
                            let cm = self.collider.borrow_mut(i, g);
                            cm.parent = None;
                        }
                    }
                    proof {
                        let ch = ColliderHandle { index: i, generation: g };
                        assert forall|c: ColliderHandle| c.index != i implies #[trigger]
                            self.co_valid(c) == pre.co_valid(c) by {
                            assert(!(c.index == i && c.generation == g));
                        }
                        assert forall|c: ColliderHandle|
                            c.index != i && pre.co_valid(c) implies #[trigger] self.co_at(c)
                            == pre.co_at(c) by {
                            assert(!(c.index == i && c.generation == g));
                        }
                        assert forall|c: ColliderHandle|
                            c.index == i && mid.co_valid(c) implies c == ch by {
                            assert(pre.co_valid(c) == mid.co_valid(c));
                            assert(pre.co_valid(c));
                            assert(c.generation == g);
                        }
                        if is_child && remove_colliders {
                            assert(!self.co_valid(ch));
                        } else if is_child {
                            assert(self.co_valid(ch));
                            assert(self.co_at(ch) == (Collider { parent: None, ..mid.co_at(ch) }));
                            assert(self.co_at(ch) == detached_from(mid.co_at(ch), h));
                        } else {
                            assert(self.co_valid(ch) && self.co_at(ch) == mid.co_at(ch));
                            assert(detached_from(mid.co_at(ch), h) == mid.co_at(ch));
                        }
                        if !remove_colliders {
                            assert forall|c: ColliderHandle|
                                c.index < i + 1 && mid.co_valid(c) implies #[trigger] self.co_at(c)
                                == detached_from(mid.co_at(c), h) by {
                                if c.index == i {
                                    assert(c == ch);
                                } else {
                                    assert(c.index < i);
                                    assert(pre.co_valid(c));
                                    assert(self.co_at(c) == pre.co_at(c));
                                    assert(pre.co_at(c) == detached_from(mid.co_at(c), h));
                                }
                            }
                        }
                    }
                },
                None => {
                    proof {
                        assert forall|c: ColliderHandle|
                            c.index == i implies !(#[trigger] self.co_valid(c))
                                && !mid.co_valid(c) by {
                            assert(pre.co_valid(c) == mid.co_valid(c));
                        }
                        if !remove_colliders {
                            assert forall|c: ColliderHandle|
                                c.index < i + 1 && mid.co_valid(c) implies #[trigger] self.co_at(c)
                                == detached_from(mid.co_at(c), h) by {
                                if c.index == i {
                                    assert(!self.co_valid(c));
                                }
                                assert(c.index < i);
                            }
                        }
                    }
                },
            }
            i = i + 1;
        }
    }

    /// What a shape read returns: a ball's radius or a cuboid's
    /// half-extents. The surface treats any other shape kind like an
    /// unknown handle.
    pub open spec fn shape_result(self, h: ColliderHandle) -> Result<ShapeParam, PhysicsError> {
        if !self.co_valid(h) {
            Err(PhysicsError::InvalidHandle)
        } else {
            match self.co_at(h).shape@ {
                ShapeV::Ball { radius } => Ok(ShapeParam::Scalar(radius as i64)),
                ShapeV::Cuboid { half_extents } => Ok(ShapeParam::Vector(half_extents)),
                _ => Err(PhysicsError::InvalidHandle),
            }
        }
    }

    pub fn get_solid_body_shape(&self, h: ColliderHandle) -> (r: Result<ShapeParam, PhysicsError>)
        ensures
            r == self.shape_result(h),
    {
        match self.collider.get(h.index, h.generation) {
            Some(c) => match &c.shape {
                Shape::Ball { radius } => Ok(ShapeParam::Scalar(*radius)),
                Shape::Cuboid { half_extents } => Ok(ShapeParam::Vector(*half_extents)),
                _ => Err(PhysicsError::InvalidHandle),
            },
            None => Err(PhysicsError::InvalidHandle),
        }
    }

    /// The shape a mutation leaves behind, or the error it raises: a ball
    /// takes a scalar radius (no payload is silently accepted), a cuboid
    /// requires a vector of half-extents, and any other shape kind
    /// silently keeps its shape whatever the payload.
    pub open spec fn shape_set_outcome(cur: ShapeV, param: Option<ShapeParam>) -> Result<
        ShapeV,
        PhysicsError,
    > {
        match cur {
            ShapeV::Ball { radius } => match param {
                None => Ok(cur),
                Some(ShapeParam::Scalar(v)) => Ok(ShapeV::Ball { radius: v as int }),
                Some(ShapeParam::Vector(_)) => Err(PhysicsError::MissingArgument),
            },
            ShapeV::Cuboid { half_extents } => match param {
                Some(ShapeParam::Vector(v)) => Ok(ShapeV::Cuboid { half_extents: v }),
                _ => Err(PhysicsError::MissingArgument),
            },
            _ => Ok(cur),
        }
    }

    /// Mutates a collider's shape in the shape-specific way; a refused or
    /// inapplicable call leaves the simulation unchanged.
    pub fn set_solid_body_shape(&mut self, h: ColliderHandle, param: Option<ShapeParam>) -> (r:
        Result<(), PhysicsError>)
        requires
            old(self).wf(),
        ensures
            final(self).wf(),
            !old(self).co_valid(h) ==> r == Err::<(), PhysicsError>(PhysicsError::InvalidHandle)
                && *final(self) == *old(self),
            old(self).co_valid(h) ==> match Simulation::shape_set_outcome(
                old(self).co_at(h).shape@,
                param,
            ) {
                Ok(ns) => r is Ok && final(self).co_valid(h) && final(self).co_at(h).shape@ == ns
                    && final(self).co_at(h).position == old(self).co_at(h).position
                    && final(self).co_at(h).rotation == old(self).co_at(h).rotation
                    && final(self).co_at(h).sensor == old(self).co_at(h).sensor
                    && final(self).co_at(h).parent == old(self).co_at(h).parent
                    && final(self).co_at(h).user_data == old(self).co_at(h).user_data
                    && final(self).co_at(h).collision_events == old(self).co_at(h).collision_events
                    && colliders_unchanged_except(*old(self), *final(self), h) && bodies_unchanged(
                    *old(self),
                    *final(self),
                ) && events_unchanged(*old(self), *final(self)),
                Err(e) => r == Err::<(), PhysicsError>(e) && *final(self) == *old(self),
            },
    {
        let action = match self.collider.get(h.index, h.generation) {
            None => {
                return Err(PhysicsError::InvalidHandle);
            },
            Some(c) => match (&c.shape, param) {
                (Shape::Ball { .. }, None) => ShapeSetAction::Nothing,
                (Shape::Ball { .. }, Some(ShapeParam::Scalar(v))) => ShapeSetAction::SetBall(v),
                (Shape::Ball { .. }, Some(ShapeParam::Vector(_))) => ShapeSetAction::Refuse,
                (Shape::Cuboid { .. }, Some(ShapeParam::Vector(v))) => ShapeSetAction::SetCuboid(
                    v,
                ),
                (Shape::Cuboid { .. }, _) => ShapeSetAction::Refuse,
                _ => ShapeSetAction::Nothing,
            },
        };
        match action {
            ShapeSetAction::Nothing => Ok(()),
            ShapeSetAction::Refuse => Err(PhysicsError::MissingArgument),
            ShapeSetAction::SetBall(v) => {
                let cm = self.collider.borrow_mut(h.index, h.generation);
                cm.shape = Shape::Ball { radius: v };
                Ok(())
            },
            ShapeSetAction::SetCuboid(v) => {
                let cm = self.collider.borrow_mut(h.index, h.generation);
                cm.shape = Shape::Cuboid { half_extents: v };
                Ok(())
            },
        }
    }

    /// Whether a collider passes a query filter: it must be live, must
    /// not be the excluded collider, must not hang from the excluded
    /// rigid body, and must not be a sensor where sensors are excluded.
    /// A removed handle named by the filter simply never matches; it is
    /// not an error.
    pub open spec fn filter_matches(self, f: QueryFilter, c: ColliderHandle) -> bool {
        &&& self.co_valid(c)
        &&& (f.exclude_collider matches Some(ex) ==> c != ex)
        &&& (f.exclude_rigid matches Some(ex) ==> self.co_at(c).parent != Some(ex))
        &&& (f.exclude_sensors ==> !self.co_at(c).sensor)
    }

    /// The one filtering rule every spatial query applies per candidate.
    pub fn filter_allows(&self, f: &QueryFilter, c: ColliderHandle) -> (r: bool)
        ensures
            r == self.filter_matches(*f, c),
    {
        match self.collider.get(c.index, c.generation) {
            None => false,
            Some(col) => {
                let excluded_collider: bool = match f.exclude_collider {
                    Some(ex) => c == ex,
                    None => false,
                };
                let excluded_rigid: bool = match (f.exclude_rigid, col.parent) {
                    (Some(ex), Some(p)) => p == ex,
                    _ => false,
                };
                let excluded_sensor: bool = f.exclude_sensors && col.sensor;
                !excluded_collider && !excluded_rigid && !excluded_sensor
            },
        }
    }

    /// Whether the bridge accepts an engine-reported ray hit: the engine
    /// must have honored the range and the filter.
    pub open spec fn ray_hit_accepted(
        self,
        range: int,
        f: QueryFilter,
        hit: Option<RayHit>,
    ) -> bool {
        hit matches Some(rh) && self.filter_matches(f, rh.collider) && 0 <= rh.time_of_impact
            <= range
    }

    /// The first collider hit along a ray, from the engine's traversal of
    /// its acceleration structure; the host casts the ray (honoring the
    /// ray itself and the solidity rule) and hands the hit in, and the
    /// bridge keeps it only if it honors the range and the filter. No hit
    /// is a plain `None`, never an error. Ties between equally near
    /// colliders fall to the engine's traversal order.
    pub fn cast_ray(&self, range: i64, f: &QueryFilter, hit: Option<RayHit>) -> (r: Option<RayHit>)
        ensures
            r == (if self.ray_hit_accepted(range as int, *f, hit) {
                hit
            } else {
                None::<RayHit>
            }),
    {
        match hit {
            Some(rh) => {
                if self.filter_allows(f, rh.collider) && 0 <= rh.time_of_impact
                    && rh.time_of_impact <= range {
                    Some(rh)
                } else {
                    None
                }
            },
            None => None,
        }
    }

    /// Whether the bridge accepts an engine-reported ray hit with its
    /// impact normal.
    pub open spec fn ray_hit_normal_accepted(
        self,
        range: int,
        f: QueryFilter,
        hit: Option<RayHitNormal>,
    ) -> bool {
        hit matches Some(rh) && self.filter_matches(f, rh.collider) && 0 <= rh.time_of_impact
            <= range
    }

    /// As `cast_ray`, also carrying the impact normal through.
    pub fn cast_ray_normal(&self, range: i64, f: &QueryFilter, hit: Option<RayHitNormal>) -> (r:
        Option<RayHitNormal>)
        ensures
            r == (if self.ray_hit_normal_accepted(range as int, *f, hit) {
                hit
            } else {
                None::<RayHitNormal>
            }),
    {
        match hit {
            Some(rh) => {
                if self.filter_allows(f, rh.collider) && 0 <= rh.time_of_impact
                    && rh.time_of_impact <= range {
                    Some(rh)
                } else {
                    None
                }
            },
            None => None,
        }
    }

    /// The filter a shape-intersection test really applies: whatever the
    /// caller passed, sensors are excluded.
    pub open spec fn intersect_filter(f: QueryFilter) -> QueryFilter {
        QueryFilter { exclude_sensors: true, ..f }
    }

    /// The first live collider the engine's broad phase found overlapping
    /// the queried cuboid; which overlapping collider comes first is the
    /// engine's enumeration order, and the bridge imposes none. Sensors
    /// never match this query.
    pub fn test_intersect_cuboid(&self, f: &QueryFilter, candidate: Option<ColliderHandle>) -> (r:
        Option<ColliderHandle>)
        ensures
            r == (if candidate matches Some(c) && self.filter_matches(
                Simulation::intersect_filter(*f),
                c,
            ) {
                candidate
            } else {
                None::<ColliderHandle>
            }),
    {
        match candidate {
            Some(c) => {
                let forced = QueryFilter {
                    exclude_rigid: f.exclude_rigid,
                    exclude_collider: f.exclude_collider,
                    exclude_sensors: true,
                };
                if self.filter_allows(&forced, c) {
                    Some(c)
                } else {
                    None
                }
            },
            None => None,
        }
    }
}

/// The last pose the engine reported for `h` among the first `n` of its
/// rigid-body pose reports.
pub open spec fn last_body_pose(updates: Seq<BodyPose>, n: int, h: RigidBodyHandle) -> Option<
    BodyPose,
>
    decreases n,
{
    if n <= 0 {
        None
    } else if updates[n - 1].handle == h {
        Some(updates[n - 1])
    } else {
        last_body_pose(updates, n - 1, h)
    }
}

/// A rigid body after the engine's pose reports are applied: the last
/// report for its handle wins; an unreported body keeps its pose.
pub open spec fn body_after_poses(
    b: RigidBody,
    updates: Seq<BodyPose>,
    n: int,
    h: RigidBodyHandle,
) -> RigidBody {
    match last_body_pose(updates, n, h) {
        Some(u) => RigidBody { position: u.position, rotation: u.rotation, ..b },
        None => b,
    }
}

/// The last pose the engine reported for `h` among the first `n` of its
/// collider pose reports.
pub open spec fn last_collider_pose(updates: Seq<ColliderPose>, n: int, h: ColliderHandle) -> Option<
    ColliderPose,
>
    decreases n,
{
    if n <= 0 {
        None
    } else if updates[n - 1].handle == h {
        Some(updates[n - 1])
    } else {
        last_collider_pose(updates, n - 1, h)
    }
}

/// A collider after the engine's pose reports are applied.
pub open spec fn collider_after_poses(
    c: Collider,
    updates: Seq<ColliderPose>,
    n: int,
    h: ColliderHandle,
) -> Collider {
    match last_collider_pose(updates, n, h) {
        Some(u) => Collider { position: u.position, rotation: u.rotation, ..c },
        None => c,
    }
}

impl Simulation {
    /// Advances the bridge's bookkeeping around one engine step: the
    /// event buffer is cleared and then holds exactly this step's events,
    /// the poses the engine integrated are recorded (its last report per
    /// handle wins; a stale handle in a report is ignored), and the
    /// step's events are returned — an empty list when nothing collided,
    /// never the previous step's.
    pub fn step(&mut self, outcome: StepOutcome) -> (r: Vec<CollisionEvent>)
        requires
            old(self).wf(),
        ensures
            final(self).wf(),
            r@ == outcome.events@,
            final(self).events_seq() == outcome.events@,
            forall|h: RigidBodyHandle| #[trigger] final(self).rb_valid(h) == old(self).rb_valid(h),
            forall|h: RigidBodyHandle|
                old(self).rb_valid(h) ==> #[trigger] final(self).rb_at(h) == body_after_poses(
                    old(self).rb_at(h),
                    outcome.body_poses@,
                    outcome.body_poses@.len() as int,
                    h,
                ),
            forall|h: ColliderHandle| #[trigger] final(self).co_valid(h) == old(self).co_valid(h),
            forall|h: ColliderHandle|
                old(self).co_valid(h) ==> #[trigger] final(self).co_at(h) == collider_after_poses(
                    old(self).co_at(h),
                    outcome.collider_poses@,
                    outcome.collider_poses@.len() as int,
                    h,
                ),
    {
        let StepOutcome { events, body_poses, collider_poses } = outcome;
        let mut returned: Vec<CollisionEvent> = Vec::new();
        let mut k: usize = 0;
        while k < events.len()
            invariant
                k <= events@.len(),
                returned@.len() == k,
                forall|m: int| 0 <= m < k ==> #[trigger] returned@[m] == events@[m],
            decreases events@.len() - k,
        {
            returned.push(events[k]);
            k = k + 1;
        }
        proof {
            assert(returned@ =~= events@);
        }
        let mut j: usize = 0;
        while j < body_poses.len()
            invariant
                self.wf(),
                j <= body_poses@.len(),
                self.collider == old(self).collider,
                self.events == old(self).events,
                forall|h: RigidBodyHandle| #[trigger] self.rb_valid(h) == old(self).rb_valid(h),
                forall|h: RigidBodyHandle|
                    old(self).rb_valid(h) ==> #[trigger] self.rb_at(h) == body_after_poses(
                        old(self).rb_at(h),
                        body_poses@,
                        j as int,
                        h,
                    ),
            decreases body_poses@.len() - j,
        {
            let ghost prev = *self;
            let u = body_poses[j];
            if self.rigid.contains(u.handle.index, u.handle.generation) {
                let b = self.rigid.borrow_mut(u.handle.index, u.handle.generation);
                b.position = u.position;
                b.rotation = u.rotation;
            }
            proof {
                assert forall|h: RigidBodyHandle| #[trigger]
                    self.rb_valid(h) == prev.rb_valid(h) by {}
                assert forall|h: RigidBodyHandle| old(self).rb_valid(h) implies #[trigger] self
                    .rb_at(h) == body_after_poses(
                    old(self).rb_at(h),
                    body_poses@,
                    j + 1,
                    h,
                ) by {
                    assert(prev.rb_valid(h));
                    if h == u.handle {
                        assert(self.rb_at(h) == (RigidBody {
                            position: u.position,
                            rotation: u.rotation,
                            ..prev.rb_at(h)
                        }));
                    } else {
                        assert(!(h.index == u.handle.index && h.generation
                            == u.handle.generation));
                        assert(self.rb_at(h) == prev.rb_at(h));
                    }
                }
            }
            j = j + 1;
        }
        let mut j2: usize = 0;
        while j2 < collider_poses.len()
            invariant
                self.wf(),
                j2 <= collider_poses@.len(),
                self.events == old(self).events,
                forall|h: RigidBodyHandle| #[trigger] self.rb_valid(h) == old(self).rb_valid(h),
                forall|h: RigidBodyHandle|
                    old(self).rb_valid(h) ==> #[trigger] self.rb_at(h) == body_after_poses(
                        old(self).rb_at(h),
                        body_poses@,
                        body_poses@.len() as int,
                        h,
                    ),
                forall|h: ColliderHandle| #[trigger] self.co_valid(h) == old(self).co_valid(h),
                forall|h: ColliderHandle|
                    old(self).co_valid(h) ==> #[trigger] self.co_at(h) == collider_after_poses(
                        old(self).co_at(h),
                        collider_poses@,
                        j2 as int,
                        h,
                    ),
            decreases collider_poses@.len() - j2,
        {
            let ghost prev = *self;
            let u = collider_poses[j2];
            if self.collider.contains(u.handle.index, u.handle.generation) {
                let c = self.collider.borrow_mut(u.handle.index, u.handle.generation);
                c.position = u.position;
                c.rotation = u.rotation;
            }
            proof {
                assert(self.rigid == prev.rigid);
                assert forall|h: RigidBodyHandle| #[trigger]
                    self.rb_valid(h) == prev.rb_valid(h) by {}
                assert forall|h: RigidBodyHandle| prev.rb_valid(h) implies #[trigger] self.rb_at(h)
                    == prev.rb_at(h) by {}
                assert forall|h: ColliderHandle| #[trigger]
                    self.co_valid(h) == prev.co_valid(h) by {}
                assert forall|h: ColliderHandle| old(self).co_valid(h) implies #[trigger] self
                    .co_at(h) == collider_after_poses(
                    old(self).co_at(h),
                    collider_poses@,
                    j2 + 1,
                    h,
                ) by {
                    assert(prev.co_valid(h));
                    if h == u.handle {
                        assert(self.co_at(h) == (Collider {
                            position: u.position,
                            rotation: u.rotation,
                            ..prev.co_at(h)
                        }));
                    } else {
                        assert(!(h.index == u.handle.index && h.generation
                            == u.handle.generation));
                        assert(self.co_at(h) == prev.co_at(h));
                    }
                }
            }
            j2 = j2 + 1;
        }
        let ghost done = *self;
        self.events = events;
        proof {
            assert(self.rigid == done.rigid);
            assert(self.collider == done.collider);
            assert forall|h: RigidBodyHandle| #[trigger]
                self.rb_valid(h) == done.rb_valid(h) by {}
            assert forall|h: RigidBodyHandle| done.rb_valid(h) implies #[trigger] self.rb_at(h)
                == done.rb_at(h) by {}
            assert forall|h: ColliderHandle| #[trigger] self.co_valid(h) == done.co_valid(h) by {}
            assert forall|h: ColliderHandle| done.co_valid(h) implies #[trigger] self.co_at(h)
                == done.co_at(h) by {}
        }
        returned
    }
}

/// Law: a step returns and retains exactly its own events, so two steps
/// in a row that report no collisions return an empty event list both
/// times — nothing leaks from one step into the next.
pub proof fn lemma_step_no_stale_events(
    s0: Simulation,
    s1: Simulation,
    s2: Simulation,
    first: StepOutcome,
    second: StepOutcome,
    r1: Seq<CollisionEvent>,
    r2: Seq<CollisionEvent>,
)
    requires
        r1 == first.events@,
        s1.events_seq() == first.events@,
        r2 == second.events@,
        s2.events_seq() == second.events@,
        first.events@.len() == 0,
        second.events@.len() == 0,
    ensures
        r1.len() == 0,
        r2.len() == 0,
        s2.events_seq().len() == 0,
{
}

/// Law: setting a rigid body's position and reading it back yields
/// exactly the position that was set, on any live handle.
pub proof fn lemma_set_get_rigid_body_position(
    pre: Simulation,
    post: Simulation,
    h: RigidBodyHandle,
    p: Vec3,
)
    requires
        pre.rb_valid(h),
        post.rb_valid(h),
        post.rb_at(h) == (RigidBody { position: p, ..pre.rb_at(h) }),
    ensures
        post.rb_position_result(h) == Ok::<Vec3, PhysicsError>(p),
{
}

/// Law: after a rigid body is removed with the cascade flag, every getter
/// on a collider that was attached to it answers `InvalidHandle`.
pub proof fn lemma_cascade_remove_invalidates_colliders(
    pre: Simulation,
    post: Simulation,
    h: RigidBodyHandle,
    c: ColliderHandle,
)
    requires
        pre.rb_valid(h),
        pre.co_valid(c),
        pre.co_at(c).parent == Some(h),
        forall|c2: ColliderHandle|
            #[trigger] post.co_valid(c2) == (pre.co_valid(c2) && pre.co_at(c2).parent != Some(h)),
    ensures
        !post.co_valid(c),
        post.co_position_result(c) == Err::<Vec3, PhysicsError>(PhysicsError::InvalidHandle),
        post.co_rotation_result(c) == Err::<Vec3, PhysicsError>(PhysicsError::InvalidHandle),
        post.co_sensor_result(c) == Err::<bool, PhysicsError>(PhysicsError::InvalidHandle),
        post.co_user_data_result(c) == Err::<u128, PhysicsError>(PhysicsError::InvalidHandle),
        post.co_parent_result(c) == Err::<Option<RigidBodyHandle>, PhysicsError>(
            PhysicsError::InvalidHandle,
        ),
        post.shape_result(c) == Err::<ShapeParam, PhysicsError>(PhysicsError::InvalidHandle),
{
}

} // verus!
