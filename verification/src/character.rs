//! The kinematic character controller's configuration, and the bridge's
//! share of one `move`: the configuration is a plain value the caller
//! threads through copy-modify-return setters, and the move fixes the
//! query filter and the pre-scaled displacement before the engine sweeps
//! the shape through the scene.

use vstd::prelude::*;
use crate::handle::ColliderHandle;
use crate::math::{SCALE, Vec3, fx_mul_fits, fx_mul_spec, fx_scale_vec};
use crate::model::{PhysicsError, QueryFilter};
use crate::sim::Simulation;

verus! {

/// Both slope limits of a fresh controller: one eighth of a turn, in
/// fixed-point radians, rounded down.
pub const DEFAULT_SLOPE_ANGLE: i64 = 51471;

/// A length, absolute in world units or relative to the moving shape's
/// size.
#[derive(Clone, Copy, PartialEq, Eq, Structural, Debug)]
pub enum CharacterLength {
    Absolute(i64),
    Relative(i64),
}

/// The auto-step rule: a blocking ledge lower than `max_height` and wider
/// than `min_width` is climbed as a vertical step; dynamic obstacles
/// count as steppable only when `include_dynamic_bodies` is set.
#[derive(Clone, Copy, PartialEq, Eq, Structural, Debug)]
pub struct CharacterAutostep {
    pub max_height: CharacterLength,
    pub min_width: CharacterLength,
    pub include_dynamic_bodies: bool,
}

/// A character controller's configuration: a value, not a handle. Every
/// setter returns the updated copy; nothing is mutated in place, so the
/// caller threads the value itself.
#[derive(Clone, Copy, PartialEq, Debug)]
pub struct CharacterController {
    /// The controller's up direction; the engine normalizes it when the
    /// move is performed.
    pub up: Vec3,
    /// Contacts shallower than this angle (fixed-point radians) do not
    /// make the character slide.
    pub min_slope_slide_angle: i64,
    /// Contacts steeper than this angle (fixed-point radians) cannot be
    /// climbed.
    pub max_slope_climb_angle: i64,
    pub autostep: Option<CharacterAutostep>,
    pub snap_to_ground: Option<CharacterLength>,
}

/// A fresh controller: up is +Y, both slope limits at their default, no
/// auto-step, no ground snap.
pub fn character_controller() -> (r: CharacterController)
    ensures
        r == (CharacterController {
            up: (Vec3 { x: 0, y: SCALE, z: 0 }),
            min_slope_slide_angle: DEFAULT_SLOPE_ANGLE,
            max_slope_climb_angle: DEFAULT_SLOPE_ANGLE,
            autostep: None,
            snap_to_ground: None,
        }),
{
    CharacterController {
        up: Vec3 { x: 0, y: SCALE, z: 0 },
        min_slope_slide_angle: DEFAULT_SLOPE_ANGLE,
        max_slope_climb_angle: DEFAULT_SLOPE_ANGLE,
        autostep: None,
        snap_to_ground: None,
    }
}

/// Returns the configuration with its up vector replaced.
pub fn set_character_controller_up_vector(character: CharacterController, up: Vec3) -> (r:
    CharacterController)
    ensures
        r == (CharacterController { up, ..character }),
{
    CharacterController { up, ..character }
}

/// Returns the configuration with both slope limits replaced.
pub fn set_character_controller_slope(
    character: CharacterController,
    slope_min: i64,
    slope_max: i64,
) -> (r: CharacterController)
    ensures
        r == (CharacterController {
            min_slope_slide_angle: slope_min,
            max_slope_climb_angle: slope_max,
            ..character
        }),
{
    CharacterController {
        min_slope_slide_angle: slope_min,
        max_slope_climb_angle: slope_max,
        ..character
    }
}

/// The auto-step rule a pair of codes selects: code 0 for either length
/// disables auto-stepping; code 1 reads the length as absolute, any
/// other code as relative.
pub open spec fn autostep_from_codes(
    kind_height: int,
    kind_width: int,
    height: i64,
    width: i64,
    include_dynamic: bool,
) -> Option<CharacterAutostep> {
    if kind_height == 0 || kind_width == 0 {
        None
    } else {
        Some(
            CharacterAutostep {
                max_height: if kind_height == 1 {
                    CharacterLength::Absolute(height)
                } else {
                    CharacterLength::Relative(height)
                },
                min_width: if kind_width == 1 {
                    CharacterLength::Absolute(width)
                } else {
                    CharacterLength::Relative(width)
                },
                include_dynamic_bodies: include_dynamic,
            },
        )
    }
}

/// Returns the configuration with its auto-step rule replaced by what
/// the codes select.
pub fn set_character_auto_step(
    character: CharacterController,
    kind_height: i64,
    kind_width: i64,
    height: i64,
    width: i64,
    include_dynamic: bool,
) -> (r: CharacterController)
    ensures
        r == (CharacterController {
            autostep: autostep_from_codes(
                kind_height as int,
                kind_width as int,
                height,
                width,
                include_dynamic,
            ),
            ..character
        }),
{
    if kind_height == 0 || kind_width == 0 {
        CharacterController { autostep: None, ..character }
    } else {
        let max_height = if kind_height == 1 {
            CharacterLength::Absolute(height)
        } else {
            CharacterLength::Relative(height)
        };
        let min_width = if kind_width == 1 {
            CharacterLength::Absolute(width)
        } else {
            CharacterLength::Relative(width)
        };
        CharacterController {
            autostep: Some(
                CharacterAutostep { max_height, min_width, include_dynamic_bodies: include_dynamic },
            ),
            ..character
        }
    }
}

/// The ground-snap rule a code selects: 1 absolute, 2 relative, anything
/// else disables snapping.
pub open spec fn snap_from_code(kind: int, value: i64) -> Option<CharacterLength> {
    if kind == 1 {
        Some(CharacterLength::Absolute(value))
    } else if kind == 2 {
        Some(CharacterLength::Relative(value))
    } else {
        None
    }
}

/// Returns the configuration with its ground-snap rule replaced by what
/// the code selects.
pub fn set_character_snap_ground(character: CharacterController, kind: i64, value: i64) -> (r:
    CharacterController)
    ensures
        r == (CharacterController { snap_to_ground: snap_from_code(kind as int, value), ..character }),
{
    let snap = if kind == 1 {
        Some(CharacterLength::Absolute(value))
    } else if kind == 2 {
        Some(CharacterLength::Relative(value))
    } else {
        None
    };
    CharacterController { snap_to_ground: snap, ..character }
}

/// What the bridge fixes for one character move before the engine sweeps
/// the collider's shape: the configuration to sweep under, the filter
/// (the moving collider itself and every sensor excluded), and the
/// desired displacement pre-scaled by the time step.
#[derive(Clone, Copy, PartialEq, Debug)]
pub struct CharacterMove {
    pub config: CharacterController,
    pub filter: QueryFilter,
    pub desired: Vec3,
}

impl Simulation {
    /// Prepares one character-controller move: validates the moving
    /// collider, excludes it and all sensors from the sweep, and scales
    /// the desired displacement by the time step. A zero displacement
    /// still yields a full move request, so the engine resolves ground
    /// and slope contact for a standing character.
    pub fn character_controller_move(
        &self,
        step: i64,
        character: &CharacterController,
        collider: ColliderHandle,
        translation: Vec3,
    ) -> (r: Result<CharacterMove, PhysicsError>)
        requires
            fx_mul_fits(translation.x as int, step as int),
            fx_mul_fits(translation.y as int, step as int),
            fx_mul_fits(translation.z as int, step as int),
        ensures
            r is Ok <==> self.co_valid(collider),
            !self.co_valid(collider) ==> r == Err::<CharacterMove, PhysicsError>(
                PhysicsError::InvalidHandle,
            ),
            self.co_valid(collider) ==> (r matches Ok(m) && m.config == *character && m.filter
                == (QueryFilter {
                exclude_rigid: None,
                exclude_collider: Some(collider),
                exclude_sensors: true,
            }) && m.desired.x == fx_mul_spec(translation.x as int, step as int) && m.desired.y
                == fx_mul_spec(translation.y as int, step as int) && m.desired.z == fx_mul_spec(
                translation.z as int,
                step as int,
            )),
    {
        if self.collider_is_live(collider) {
            Ok(
                CharacterMove {
                    config: *character,
                    filter: QueryFilter {
                        exclude_rigid: None,
                        exclude_collider: Some(collider),
                        exclude_sensors: true,
                    },
                    desired: fx_scale_vec(translation, step),
                },
            )
        } else {
            Err(PhysicsError::InvalidHandle)
        }
    }
}

} // verus!
