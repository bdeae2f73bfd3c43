//! The values that the registry stores and hands out.

use vstd::prelude::*;
use crate::geometry::{Scalar, Vector3};

verus! {

/// Bit pattern of the distance, 300 units, up to which a player's copy of an
/// object is drawn.
pub const DRAW_DISTANCE_BITS: u32 = 0x4396_0000;

/// A placed object. The model is fixed when the object is created; position
/// and rotation can be replaced later.
#[derive(Clone, Copy, Debug, PartialEq, Eq, Structural)]
pub struct DynamicObject {
    pub model_id: i32,
    pub position: Vector3,
    pub rotation: Vector3,
}

impl DynamicObject {
    /// The object of the given model at the given place.
    pub open spec fn placed(
        model_id: i32,
        x: Scalar,
        y: Scalar,
        z: Scalar,
        rx: Scalar,
        ry: Scalar,
        rz: Scalar,
    ) -> DynamicObject {
        DynamicObject {
            model_id,
            position: Vector3::new(x, y, z),
            rotation: Vector3::new(rx, ry, rz),
        }
    }

    /// This object moved to `position`.
    pub open spec fn moved_to(self, position: Vector3) -> DynamicObject {
        DynamicObject { position, ..self }
    }

    /// This object turned to `rotation`.
    pub open spec fn turned_to(self, rotation: Vector3) -> DynamicObject {
        DynamicObject { rotation, ..self }
    }
}

/// One entry of the registry: an identity and the object stored under it.
#[derive(Clone, Copy, Debug, PartialEq, Eq, Structural)]
pub struct ObjectRecord {
    pub id: u32,
    pub object: DynamicObject,
}

/// What the host is asked to do when an object is shown to one player:
/// create that player's copy of the object.
#[derive(Clone, Copy, Debug, PartialEq, Eq, Structural)]
pub struct PlayerObjectRequest {
    pub player_id: i32,
    pub model_id: i32,
    pub position: Vector3,
    pub rotation: Vector3,
    pub draw_distance: Scalar,
}

impl PlayerObjectRequest {
    /// The request that shows `object` to `player_id`.
    pub open spec fn showing(player_id: i32, object: DynamicObject) -> PlayerObjectRequest {
        PlayerObjectRequest {
            player_id,
            model_id: object.model_id,
            position: object.position,
            rotation: object.rotation,
            draw_distance: Scalar { bits: DRAW_DISTANCE_BITS },
        }
    }
}

} // verus!
