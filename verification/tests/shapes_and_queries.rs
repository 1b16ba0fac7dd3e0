use alicia_physics::handle::ColliderHandle;
use alicia_physics::math::Vec3;
use alicia_physics::model::{PhysicsError, QueryFilter, RayHit, RayHitNormal};
use alicia_physics::shape::ShapeParam;
use alicia_physics::sim::Simulation;

fn cuboid(sim: &mut Simulation) -> ColliderHandle {
    sim.solid_body(None, 0, Some(Vec3::new(65536, 65536, 65536)), None, None).unwrap()
}

#[test]
fn solid_body_without_payload_is_missing_argument() {
    let mut sim = Simulation::new();
    assert_eq!(sim.solid_body(None, 0, None, None, None), Err(PhysicsError::MissingArgument));
    assert_eq!(
        sim.solid_body(None, 1, None, Some(vec![Vec3::zero()]), None),
        Err(PhysicsError::MissingArgument)
    );
    assert_eq!(sim.solid_body(None, 1, None, None, Some(vec![0, 1, 2])),
        Err(PhysicsError::MissingArgument));
    assert_eq!(sim.solid_body(None, 7, None, None, None), Err(PhysicsError::MissingArgument));
}

#[test]
fn shape_read_returns_the_cuboid_half_extents() {
    let mut sim = Simulation::new();
    let c = sim.solid_body(None, 0, Some(Vec3::new(65536, 131072, 196608)), None, None).unwrap();
    assert_eq!(
        sim.get_solid_body_shape(c),
        Ok(ShapeParam::Vector(Vec3::new(65536, 131072, 196608)))
    );
}

#[test]
fn shape_read_on_a_mesh_reports_invalid_handle() {
    let mut sim = Simulation::new();
    let points = vec![Vec3::zero(), Vec3::new(65536, 0, 0), Vec3::new(0, 65536, 0)];
    let c = sim.solid_body(None, 1, None, Some(points), Some(vec![0, 1, 2])).unwrap();
    assert_eq!(sim.get_solid_body_shape(c), Err(PhysicsError::InvalidHandle));
}

#[test]
fn mesh_indices_group_into_triangles_and_drop_the_remainder() {
    let mut sim = Simulation::new();
    let points = vec![
        Vec3::zero(),
        Vec3::new(65536, 0, 0),
        Vec3::new(0, 65536, 0),
        Vec3::new(0, 0, 65536),
    ];
    // eight indices: two triangles, a remainder of two dropped
    let c = sim.solid_body(None, 1, None, Some(points), Some(vec![0, 1, 2, 1, 2, 3, 3, 0]));
    assert!(c.is_ok());
}

#[test]
fn cuboid_shape_mutation_replaces_the_half_extents() {
    let mut sim = Simulation::new();
    let c = cuboid(&mut sim);
    let wider = Vec3::new(4 * 65536, 65536, 65536);
    assert!(sim.set_solid_body_shape(c, Some(ShapeParam::Vector(wider))).is_ok());
    assert_eq!(sim.get_solid_body_shape(c), Ok(ShapeParam::Vector(wider)));
}

#[test]
fn cuboid_shape_mutation_without_payload_is_missing_argument() {
    let mut sim = Simulation::new();
    let c = cuboid(&mut sim);
    assert_eq!(sim.set_solid_body_shape(c, None), Err(PhysicsError::MissingArgument));
    assert_eq!(
        sim.set_solid_body_shape(c, Some(ShapeParam::Scalar(65536))),
        Err(PhysicsError::MissingArgument)
    );
}

#[test]
fn mesh_shape_mutation_is_a_silent_no_op() {
    let mut sim = Simulation::new();
    let points = vec![Vec3::zero(), Vec3::new(65536, 0, 0), Vec3::new(0, 65536, 0)];
    let c = sim.solid_body(None, 1, None, Some(points), Some(vec![0, 1, 2])).unwrap();
    assert_eq!(sim.set_solid_body_shape(c, Some(ShapeParam::Vector(Vec3::zero()))), Ok(()));
    assert_eq!(sim.set_solid_body_shape(c, None), Ok(()));
}

#[test]
fn filter_excludes_collider_rigid_parent_and_sensors() {
    let mut sim = Simulation::new();
    let body = sim.rigid_body(1);
    let child =
        sim.solid_body(Some(body), 0, Some(Vec3::new(65536, 65536, 65536)), None, None).unwrap();
    let loose = cuboid(&mut sim);
    let sensor = cuboid(&mut sim);
    sim.set_solid_body_sensor(sensor, true).unwrap();

    let open = QueryFilter::new(None, None);
    assert!(sim.filter_allows(&open, child));
    assert!(sim.filter_allows(&open, loose));
    assert!(sim.filter_allows(&open, sensor));

    let no_body = QueryFilter::new(Some(body), None);
    assert!(!sim.filter_allows(&no_body, child));
    assert!(sim.filter_allows(&no_body, loose));

    let no_loose = QueryFilter::new(None, Some(loose));
    assert!(!sim.filter_allows(&no_loose, loose));
    assert!(sim.filter_allows(&no_loose, child));

    let mut no_sensors = QueryFilter::new(None, None);
    no_sensors.exclude_sensors = true;
    assert!(!sim.filter_allows(&no_sensors, sensor));
    assert!(sim.filter_allows(&no_sensors, loose));
}

#[test]
fn filter_with_a_removed_handle_simply_never_matches() {
    let mut sim = Simulation::new();
    let doomed = cuboid(&mut sim);
    let kept = cuboid(&mut sim);
    sim.collider_remove(doomed);
    let f = QueryFilter::new(None, Some(doomed));
    assert!(sim.filter_allows(&f, kept));
    assert!(!sim.filter_allows(&f, doomed));
}

#[test]
fn cast_ray_keeps_a_hit_that_honors_range_and_filter() {
    let mut sim = Simulation::new();
    let c = cuboid(&mut sim);
    let f = QueryFilter::new(None, None);
    let hit = RayHit { collider: c, time_of_impact: 4 * 65536 };
    assert_eq!(sim.cast_ray(10 * 65536, &f, Some(hit)), Some(hit));
    // out of range
    assert_eq!(sim.cast_ray(3 * 65536, &f, Some(hit)), None);
    // filtered out
    let excluding = QueryFilter::new(None, Some(c));
    assert_eq!(sim.cast_ray(10 * 65536, &excluding, Some(hit)), None);
    // a miss is a plain miss
    assert_eq!(sim.cast_ray(10 * 65536, &f, None), None);
}

#[test]
fn cast_ray_drops_a_hit_on_a_removed_collider() {
    let mut sim = Simulation::new();
    let c = cuboid(&mut sim);
    let hit = RayHit { collider: c, time_of_impact: 65536 };
    sim.collider_remove(c);
    let f = QueryFilter::new(None, None);
    assert_eq!(sim.cast_ray(10 * 65536, &f, Some(hit)), None);
}

#[test]
fn cast_ray_normal_carries_the_normal_through() {
    let mut sim = Simulation::new();
    let c = cuboid(&mut sim);
    let f = QueryFilter::new(None, None);
    let hit = RayHitNormal {
        collider: c,
        time_of_impact: 4 * 65536,
        normal: Vec3::new(0, 0, 65536),
    };
    assert_eq!(sim.cast_ray_normal(5 * 65536, &f, Some(hit)), Some(hit));
    assert_eq!(sim.cast_ray_normal(2 * 65536, &f, Some(hit)), None);
}

#[test]
fn intersect_query_always_excludes_sensors() {
    let mut sim = Simulation::new();
    let sensor = cuboid(&mut sim);
    sim.set_solid_body_sensor(sensor, true).unwrap();
    let solid = cuboid(&mut sim);
    let open = QueryFilter::new(None, None);
    assert_eq!(sim.test_intersect_cuboid(&open, Some(solid)), Some(solid));
    assert_eq!(sim.test_intersect_cuboid(&open, Some(sensor)), None);
    assert_eq!(sim.test_intersect_cuboid(&open, None), None);
}
