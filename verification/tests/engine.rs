//! Scenarios run against the real engine: the engine performs the ray
//! casts, intersection tests and character sweeps, and the bridge's
//! verified marshaling and filtering run on what it reports.

use alicia_physics::character::character_controller;
use alicia_physics::handle::ColliderHandle;
use alicia_physics::math::Vec3;
use alicia_physics::model::{QueryFilter, RayHit, RayHitNormal};
use alicia_physics::sim::Simulation;

use rapier3d::control::KinematicCharacterController;
use rapier3d::dynamics::{
    CCDSolver, ImpulseJointSet, IntegrationParameters, IslandManager, MultibodyJointSet,
    RigidBodyBuilder, RigidBodySet, SoftBodySet,
};
use rapier3d::geometry::{BroadPhaseBvh, ColliderBuilder, ColliderSet, Cuboid, NarrowPhase, Ray};
use rapier3d::math::{Pose, Vector};
use rapier3d::pipeline::{PhysicsPipeline, QueryFilter as EngineFilter};
use rapier3d::parry::query::intersection_test;

const SCALE: f32 = 65536.0;

struct EngineWorld {
    pipeline: PhysicsPipeline,
    params: IntegrationParameters,
    islands: IslandManager,
    broad: BroadPhaseBvh,
    narrow: NarrowPhase,
    bodies: RigidBodySet,
    colliders: ColliderSet,
    impulse_joints: ImpulseJointSet,
    multibody_joints: MultibodyJointSet,
    soft_bodies: SoftBodySet,
    ccd: CCDSolver,
}

impl EngineWorld {
    fn new() -> EngineWorld {
        EngineWorld {
            pipeline: PhysicsPipeline::new(),
            params: IntegrationParameters::default(),
            islands: IslandManager::new(),
            broad: BroadPhaseBvh::new(),
            narrow: NarrowPhase::new(),
            bodies: RigidBodySet::new(),
            colliders: ColliderSet::new(),
            impulse_joints: ImpulseJointSet::new(),
            multibody_joints: MultibodyJointSet::new(),
            soft_bodies: SoftBodySet::new(),
            ccd: CCDSolver::new(),
        }
    }

    fn step(&mut self) {
        self.pipeline.step(
            Vector::new(0.0, -9.81, 0.0),
            &self.params,
            &mut self.islands,
            &mut self.broad,
            &mut self.narrow,
            &mut self.bodies,
            &mut self.colliders,
            &mut self.impulse_joints,
            &mut self.multibody_joints,
            &mut self.soft_bodies,
            &mut self.ccd,
            &(),
            &(),
        );
    }
}

fn fixed_of(v: f32) -> i64 {
    (v * SCALE) as i64
}

#[test]
fn ray_hits_a_unit_cuboid_at_four_units_with_an_up_z_normal() {
    let mut world = EngineWorld::new();
    let body = world.bodies.insert(RigidBodyBuilder::fixed());
    let engine_collider = world.colliders.insert_with_parent(
        ColliderBuilder::cuboid(1.0, 1.0, 1.0),
        body,
        &mut world.bodies,
    );
    world.step();

    let mut sim = Simulation::new();
    let bridge_body = sim.rigid_body(0);
    let bridge_collider = sim
        .solid_body(Some(bridge_body), 0, Some(Vec3::new(65536, 65536, 65536)), None, None)
        .unwrap();

    let queries = world.broad.as_query_pipeline(
        world.narrow.query_dispatcher(),
        &world.bodies,
        &world.colliders,
        EngineFilter::default(),
    );
    let ray = Ray::new(Vector::new(0.0, 0.0, 5.0), Vector::new(0.0, 0.0, -1.0));

    let (hit_collider, toi) = queries.cast_ray(&ray, 100.0, true).unwrap();
    assert_eq!(hit_collider, engine_collider);
    assert_eq!(toi, 4.0);

    let (hit_collider, detail) = queries.cast_ray_and_get_normal(&ray, 100.0, true).unwrap();
    assert_eq!(hit_collider, engine_collider);
    assert_eq!(detail.time_of_impact, 4.0);
    assert_eq!(detail.normal, Vector::new(0.0, 0.0, 1.0));

    // the bridge accepts the engine's hit and hands it on in fixed point
    let filter = QueryFilter::new(None, None);
    let hit = RayHit { collider: bridge_collider, time_of_impact: fixed_of(toi) };
    let accepted = sim.cast_ray(fixed_of(100.0), &filter, Some(hit)).unwrap();
    assert_eq!(accepted.time_of_impact, 4 * 65536);

    let hit = RayHitNormal {
        collider: bridge_collider,
        time_of_impact: fixed_of(detail.time_of_impact),
        normal: Vec3::new(
            fixed_of(detail.normal.x),
            fixed_of(detail.normal.y),
            fixed_of(detail.normal.z),
        ),
    };
    let accepted = sim.cast_ray_normal(fixed_of(100.0), &filter, Some(hit)).unwrap();
    assert_eq!(accepted.normal, Vec3::new(0, 0, 65536));
}

#[test]
fn cuboid_intersection_is_false_apart_and_true_at_the_same_pose() {
    let shape_a = Cuboid::new(Vector::new(1.0, 1.0, 1.0));
    let shape_b = Cuboid::new(Vector::new(1.0, 1.0, 1.0));
    let origin = Pose::new(Vector::new(0.0, 0.0, 0.0), Vector::new(0.0, 0.0, 0.0));
    let apart = Pose::new(Vector::new(5.0, 0.0, 0.0), Vector::new(0.0, 0.0, 0.0));

    assert!(!intersection_test(&origin, &shape_a, &apart, &shape_b).unwrap().intersecting);
    assert!(intersection_test(&origin, &shape_a, &origin, &shape_b).unwrap().intersecting);

    // the bridge reports whichever live collider the engine enumerated
    let mut sim = Simulation::new();
    let c = sim.solid_body(None, 0, Some(Vec3::new(65536, 65536, 65536)), None, None).unwrap();
    let filter = QueryFilter::new(None, None);
    let found: Option<ColliderHandle> = Some(c);
    assert_eq!(sim.test_intersect_cuboid(&filter, found), Some(c));
    assert_eq!(sim.test_intersect_cuboid(&filter, None), None);
}

fn bridge_controller_to_engine(
    config: &alicia_physics::character::CharacterController,
) -> KinematicCharacterController {
    KinematicCharacterController {
        up: Vector::new(
            config.up.x as f32 / SCALE,
            config.up.y as f32 / SCALE,
            config.up.z as f32 / SCALE,
        )
        .normalize(),
        max_slope_climb_angle: config.max_slope_climb_angle as f32 / SCALE,
        min_slope_slide_angle: config.min_slope_slide_angle as f32 / SCALE,
        autostep: None,
        snap_to_ground: None,
        ..KinematicCharacterController::default()
    }
}

#[test]
fn a_standing_character_is_grounded_and_does_not_move() {
    let mut world = EngineWorld::new();
    let floor = world.bodies.insert(RigidBodyBuilder::fixed());
    world.colliders.insert_with_parent(
        ColliderBuilder::cuboid(10.0, 0.5, 10.0),
        floor,
        &mut world.bodies,
    );
    let mover = world
        .bodies
        .insert(RigidBodyBuilder::kinematic_position_based().translation(Vector::new(
            0.0, 1.005, 0.0,
        )));
    let mover_collider = world.colliders.insert_with_parent(
        ColliderBuilder::cuboid(0.5, 0.5, 0.5),
        mover,
        &mut world.bodies,
    );
    world.step();

    // the bridge fixes the configuration, the filter and the scaled
    // displacement for the sweep
    let mut sim = Simulation::new();
    let b = sim.rigid_body(2);
    let c = sim.solid_body(Some(b), 0, Some(Vec3::new(32768, 32768, 32768)), None, None).unwrap();
    let config = character_controller();
    let request = sim.character_controller_move(65536, &config, c, Vec3::zero()).unwrap();
    assert_eq!(request.desired, Vec3::zero());
    assert_eq!(request.filter.exclude_collider, Some(c));
    assert!(request.filter.exclude_sensors);

    let controller = bridge_controller_to_engine(&request.config);
    let engine_filter = EngineFilter::default().exclude_collider(mover_collider).exclude_sensors();
    let queries = world.broad.as_query_pipeline(
        world.narrow.query_dispatcher(),
        &world.bodies,
        &world.colliders,
        engine_filter,
    );
    let shape = Cuboid::new(Vector::new(0.5, 0.5, 0.5));
    let pose = Pose::new(Vector::new(0.0, 1.005, 0.0), Vector::new(0.0, 0.0, 0.0));
    let movement = controller.move_shape(
        1.0 / 60.0,
        &queries,
        &shape,
        &pose,
        Vector::new(
            request.desired.x as f32 / SCALE,
            request.desired.y as f32 / SCALE,
            request.desired.z as f32 / SCALE,
        ),
        |_| {},
    );
    assert!(movement.grounded);
    assert!(movement.translation.length() < 1e-3);
}

fn slope_world(angle: f32) -> (EngineWorld, Pose) {
    let mut world = EngineWorld::new();
    let ramp = world.bodies.insert(RigidBodyBuilder::fixed().translation(Vector::new(
        0.0,
        -10.0 * angle.cos(),
        10.0 * angle.sin(),
    )));
    let mut ramp_builder = ColliderBuilder::cuboid(10.0, 10.0, 10.0);
    ramp_builder = ramp_builder.rotation(Vector::new(-angle, 0.0, 0.0));
    world.colliders.insert_with_parent(ramp_builder, ramp, &mut world.bodies);
    world.step();
    // the character rests just above the inclined surface at the origin
    let lift = 0.505;
    let pose = Pose::new(
        Vector::new(0.0, lift * angle.cos(), -lift * angle.sin()),
        Vector::new(0.0, 0.0, 0.0),
    );
    (world, pose)
}

fn climb(world: &EngineWorld, pose: Pose, desired: Vector) -> Vector {
    let config = character_controller();
    let controller = bridge_controller_to_engine(&config);
    let queries = world.broad.as_query_pipeline(
        world.narrow.query_dispatcher(),
        &world.bodies,
        &world.colliders,
        EngineFilter::default().exclude_sensors(),
    );
    let shape = Cuboid::new(Vector::new(0.5, 0.5, 0.5));
    let movement = controller.move_shape(1.0 / 60.0, &queries, &shape, &pose, desired, |_| {});
    movement.translation
}

#[test]
fn a_slope_over_the_climb_limit_blocks_uphill_movement() {
    let steep = 60.0f32.to_radians();
    let (world, pose) = slope_world(steep);
    let moved = climb(&world, pose, Vector::new(0.0, 0.0, 1.0));
    // no progress along the uphill direction
    assert!(moved.z.abs() < 0.05, "unexpected climb: {:?}", moved);
}

#[test]
fn a_slope_under_the_climb_limit_permits_the_displacement() {
    let shallow = 30.0f32.to_radians();
    let (world, pose) = slope_world(shallow);
    let moved = climb(&world, pose, Vector::new(0.0, 0.0, 1.0));
    assert!(moved.z > 0.4, "did not climb: {:?}", moved);
    assert!(moved.y > 0.1, "did not rise: {:?}", moved);
}
