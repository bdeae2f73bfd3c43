//! The registry as a mathematical value, and what each operation makes of it.
//!
//! Every contract of [`crate::editor::ObjectEditor`] is stated over an
//! [`EditorState`]: the operation's result is read off the state before the
//! call, and the state after the call is one of the functions below applied
//! to it.

use vstd::prelude::*;
use crate::geometry::Vector3;
use crate::object::{DynamicObject, ObjectRecord, PlayerObjectRequest};
use crate::records::{distinct_ids, records_to_map};

verus! {

/// What a registry holds: the objects by identity, and the identity that the
/// next created object will get.
pub struct EditorState {
    pub objects: Map<u32, DynamicObject>,
    pub next_id: u32,
}

impl EditorState {
    /// The registry at start: no object, and 1 as the first identity.
    pub open spec fn initial() -> EditorState {
        EditorState { objects: Map::empty(), next_id: 1 }
    }

    /// An identity is left to hand out.
    pub open spec fn can_create(self) -> bool {
        self.next_id < u32::MAX
    }

    /// The state after `object` was created: it stands under the identity
    /// that was next, and the following identity is next.
    pub open spec fn created(self, object: DynamicObject) -> EditorState
        recommends
            self.can_create(),
    {
        EditorState {
            objects: self.objects.insert(self.next_id, object),
            next_id: (self.next_id + 1) as u32,
        }
    }

    /// The object under `id`, if there is one.
    pub open spec fn lookup(self, id: u32) -> Option<DynamicObject> {
        if self.objects.contains_key(id) {
            Some(self.objects[id])
        } else {
            None
        }
    }

    /// The position of the object under `id`, if there is one.
    pub open spec fn position_of(self, id: u32) -> Option<Vector3> {
        match self.lookup(id) {
            Some(object) => Some(object.position),
            None => None,
        }
    }

    /// The rotation of the object under `id`, if there is one.
    pub open spec fn rotation_of(self, id: u32) -> Option<Vector3> {
        match self.lookup(id) {
            Some(object) => Some(object.rotation),
            None => None,
        }
    }

    /// The request that shows the object under `id` to `player_id`, if there
    /// is such an object.
    pub open spec fn edit_request(self, player_id: i32, id: u32) -> Option<PlayerObjectRequest> {
        match self.lookup(id) {
            Some(object) => Some(PlayerObjectRequest::showing(player_id, object)),
            None => None,
        }
    }

    /// The state after the object under `id` was moved to `position`;
    /// unchanged where there is no such object.
    pub open spec fn moved(self, id: u32, position: Vector3) -> EditorState {
        match self.lookup(id) {
            Some(object) => EditorState {
                objects: self.objects.insert(id, object.moved_to(position)),
                ..self
            },
            None => self,
        }
    }

    /// The state after the object under `id` was turned to `rotation`;
    /// unchanged where there is no such object.
    pub open spec fn turned(self, id: u32, rotation: Vector3) -> EditorState {
        match self.lookup(id) {
            Some(object) => EditorState {
                objects: self.objects.insert(id, object.turned_to(rotation)),
                ..self
            },
            None => self,
        }
    }

    /// The state after the object under `id` was deleted. The next identity
    /// stays: a deleted identity is not handed out again.
    pub open spec fn deleted(self, id: u32) -> EditorState {
        EditorState { objects: self.objects.remove(id), ..self }
    }

    /// `records` lists this registry: every object once, under its identity,
    /// and nothing else. The order is left open.
    pub open spec fn listed_by(self, records: Seq<ObjectRecord>) -> bool {
        &&& distinct_ids(records)
        &&& records_to_map(records) == self.objects
    }

    /// The state after an import. Records that were read and understood
    /// replace every object; where nothing usable was read, the state stays.
    /// The next identity is not touched either way.
    pub open spec fn imported(self, parsed: Option<Seq<ObjectRecord>>) -> EditorState {
        match parsed {
            Some(records) => EditorState { objects: records_to_map(records), ..self },
            None => self,
        }
    }
}

} // verus!
