use alicia_physics::handle::ColliderHandle;
use alicia_physics::math::Vec3;
use alicia_physics::model::{BodyPose, ColliderPose, CollisionEvent, StepOutcome};
use alicia_physics::sim::Simulation;

fn empty_outcome() -> StepOutcome {
    StepOutcome { events: Vec::new(), body_poses: Vec::new(), collider_poses: Vec::new() }
}

#[test]
fn two_quiet_steps_return_empty_event_lists() {
    let mut sim = Simulation::new();
    let _ = sim.rigid_body(1);
    let first = sim.step(empty_outcome());
    let second = sim.step(empty_outcome());
    assert!(first.is_empty());
    assert!(second.is_empty());
}

#[test]
fn a_step_returns_its_own_events_and_clears_the_previous() {
    let mut sim = Simulation::new();
    let a = sim.solid_body(None, 0, Some(Vec3::new(65536, 65536, 65536)), None, None).unwrap();
    let b = sim.solid_body(None, 0, Some(Vec3::new(65536, 65536, 65536)), None, None).unwrap();
    let started = CollisionEvent { handle_a: a, handle_b: b, flag: 0, start: true };
    let stopped = CollisionEvent { handle_a: a, handle_b: b, flag: 0, start: false };

    let noisy = StepOutcome {
        events: vec![started, stopped],
        body_poses: Vec::new(),
        collider_poses: Vec::new(),
    };
    let r1 = sim.step(noisy);
    assert_eq!(r1, vec![started, stopped]);

    // the next step starts from a cleared buffer
    let r2 = sim.step(empty_outcome());
    assert!(r2.is_empty());
}

#[test]
fn a_step_records_the_poses_the_engine_reports() {
    let mut sim = Simulation::new();
    let body = sim.rigid_body(1);
    let coll = sim.solid_body(None, 0, Some(Vec3::new(65536, 65536, 65536)), None, None).unwrap();
    let outcome = StepOutcome {
        events: Vec::new(),
        body_poses: vec![
            BodyPose { handle: body, position: Vec3::new(0, 65536, 0), rotation: Vec3::zero() },
            // the engine's last report wins
            BodyPose { handle: body, position: Vec3::new(0, 32768, 0), rotation: Vec3::zero() },
        ],
        collider_poses: vec![ColliderPose {
            handle: coll,
            position: Vec3::new(65536, 0, 0),
            rotation: Vec3::new(0, 16384, 0),
        }],
    };
    let _ = sim.step(outcome);
    assert_eq!(sim.get_rigid_body_position(body), Ok(Vec3::new(0, 32768, 0)));
    assert_eq!(sim.get_solid_body_position(coll), Ok(Vec3::new(65536, 0, 0)));
    assert_eq!(sim.get_solid_body_rotation(coll), Ok(Vec3::new(0, 16384, 0)));
}

#[test]
fn a_pose_report_for_a_stale_handle_is_ignored() {
    let mut sim = Simulation::new();
    let gone = sim.rigid_body(1);
    sim.rigid_body_remove(gone, true);
    let kept = sim.rigid_body(2);
    let outcome = StepOutcome {
        events: Vec::new(),
        body_poses: vec![BodyPose {
            handle: gone,
            position: Vec3::new(9 * 65536, 0, 0),
            rotation: Vec3::zero(),
        }],
        collider_poses: Vec::new(),
    };
    let _ = sim.step(outcome);
    assert!(sim.get_rigid_body_position(gone).is_err());
    assert_eq!(sim.get_rigid_body_position(kept), Ok(Vec3::zero()));
}

#[test]
fn default_collision_event_is_an_inert_placeholder() {
    let e = CollisionEvent::default();
    assert_eq!(e.handle_a, ColliderHandle::sentinel());
    assert_eq!(e.handle_b, ColliderHandle::sentinel());
    assert_eq!(e.flag, 0);
    assert!(!e.start);
}
