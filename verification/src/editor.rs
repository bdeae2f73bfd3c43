//! The registry itself.

use std::collections::HashMap;
use vstd::prelude::*;
use vstd::std_specs::iter::IteratorSpec;
use crate::geometry::{Scalar, Vector3};
use crate::identity::IdentityCounter;
use crate::model::EditorState;
use crate::object::{DynamicObject, ObjectRecord, PlayerObjectRequest, DRAW_DISTANCE_BITS};
use crate::records::{lemma_records_to_map_of_listing, parsed_records, records_to_map};

verus! {

broadcast use vstd::std_specs::hash::group_hash_axioms;

/// The registry of placed objects.
///
/// Reading takes `&self` and changing takes `&mut self`, so whoever shares
/// one registry among threads has to give readers shared and writers
/// exclusive access; an identity is handed out and its object stored within
/// one exclusive access.
pub struct ObjectEditor {
    objects: HashMap<u32, DynamicObject>,
    counter: IdentityCounter,
}

impl View for ObjectEditor {
    type V = EditorState;

    closed spec fn view(&self) -> EditorState {
        EditorState { objects: self.objects@, next_id: self.counter@ }
    }
}

impl ObjectEditor {
    /// An empty registry whose first identity is 1.
    pub fn new() -> (editor: ObjectEditor)
        ensures
            editor@ == EditorState::initial(),
    {
        ObjectEditor { objects: HashMap::new(), counter: IdentityCounter::new() }
    }

    /// The identity that the next created object will get.
    pub fn next_id(&self) -> (id: u32)
        ensures
            id == self@.next_id,
            id >= 1,
    {
        self.counter.peek()
    }

    /// Stores a new object and returns its identity: the next one, which is
    /// then used up for good. An object that an import left under that
    /// identity is replaced.
    pub fn create_dynamic_object(
        &mut self,
        model_id: i32,
        x: Scalar,
        y: Scalar,
        z: Scalar,
        rx: Scalar,
        ry: Scalar,
        rz: Scalar,
    ) -> (id: u32)
        requires
            old(self)@.can_create(),
        ensures
            id == old(self)@.next_id,
            id >= 1,
            final(self)@ == old(self)@.created(DynamicObject::placed(model_id, x, y, z, rx, ry, rz)),
    {
        let object = DynamicObject {
            model_id,
            position: Vector3 { x, y, z },
            rotation: Vector3 { x: rx, y: ry, z: rz },
        };
        let id: u32 = self.counter.issue();
        self.objects.insert(id, object);
        id
    }

    /// Looks up the object under `object_id` for showing it to `player_id`.
    ///
    /// Returns the request that the host is to carry out, or `None` where
    /// there is no such object. The registry is only read.
    pub fn edit_dynamic_object(
        &self,
        player_id: i32,
        object_id: u32,
    ) -> (request: Option<PlayerObjectRequest>)
        ensures
            request == self@.edit_request(player_id, object_id),
    {
        match self.objects.get(&object_id) {
            Some(object) => Some(
                PlayerObjectRequest {
                    player_id,
                    model_id: object.model_id,
                    position: object.position,
                    rotation: object.rotation,
                    draw_distance: Scalar { bits: DRAW_DISTANCE_BITS },
                },
            ),
            None => None,
        }
    }

    /// Reads the position of the object under `object_id` into `x`, `y` and
    /// `z`. Returns whether there is such an object; where there is none,
    /// the three are left as they were.
    pub fn get_dynamic_object_pos(
        &self,
        object_id: u32,
        x: &mut Scalar,
        y: &mut Scalar,
        z: &mut Scalar,
    ) -> (found: bool)
        ensures
            found == self@.objects.contains_key(object_id),
            found ==> self@.position_of(object_id) == Some(
                Vector3::new(*final(x), *final(y), *final(z)),
            ),
            !found ==> *final(x) == *old(x) && *final(y) == *old(y) && *final(z) == *old(z),
    {
        match self.objects.get(&object_id) {
            Some(object) => {
                *x = object.position.x;
                *y = object.position.y;
                *z = object.position.z;
                true
            },
            None => false,
        }
    }

    /// Replaces the position of the object under `object_id`. Returns
    /// whether there is such an object; where there is none, nothing
    /// changes and no object comes into being.
    pub fn set_dynamic_object_pos(
        &mut self,
        object_id: u32,
        x: Scalar,
        y: Scalar,
        z: Scalar,
    ) -> (found: bool)
        ensures
            found == old(self)@.objects.contains_key(object_id),
            final(self)@ == old(self)@.moved(object_id, Vector3::new(x, y, z)),
    {
        let current = match self.objects.get(&object_id) {
            Some(object) => Some(*object),
            None => None,
        };
        match current {
            Some(object) => {
                let moved = DynamicObject { position: Vector3 { x, y, z }, ..object };
                self.objects.insert(object_id, moved);
                true
            },
            None => false,
        }
    }

    /// Reads the rotation of the object under `object_id` into `rx`, `ry`
    /// and `rz`. Returns whether there is such an object; where there is
    /// none, the three are left as they were.
    pub fn get_dynamic_object_rot(
        &self,
        object_id: u32,
        rx: &mut Scalar,
        ry: &mut Scalar,
        rz: &mut Scalar,
    ) -> (found: bool)
        ensures
            found == self@.objects.contains_key(object_id),
            found ==> self@.rotation_of(object_id) == Some(
                Vector3::new(*final(rx), *final(ry), *final(rz)),
            ),
            !found ==> *final(rx) == *old(rx) && *final(ry) == *old(ry) && *final(rz) == *old(rz),
    {
        match self.objects.get(&object_id) {
            Some(object) => {
                *rx = object.rotation.x;
                *ry = object.rotation.y;
                *rz = object.rotation.z;
                true
            },
            None => false,
        }
    }

    /// Replaces the rotation of the object under `object_id`. Returns
    /// whether there is such an object; where there is none, nothing
    /// changes and no object comes into being.
    pub fn set_dynamic_object_rot(
        &mut self,
        object_id: u32,
        rx: Scalar,
        ry: Scalar,
        rz: Scalar,
    ) -> (found: bool)
        ensures
            found == old(self)@.objects.contains_key(object_id),
            final(self)@ == old(self)@.turned(object_id, Vector3::new(rx, ry, rz)),
    {
        let current = match self.objects.get(&object_id) {
            Some(object) => Some(*object),
            None => None,
        };
        match current {
            Some(object) => {
                let turned = DynamicObject { rotation: Vector3 { x: rx, y: ry, z: rz }, ..object };
                self.objects.insert(object_id, turned);
                true
            },
            None => false,
        }
    }

    /// Removes the object under `object_id`. Returns whether there was one.
    /// Its identity is not handed out again.
    pub fn delete_dynamic_object(&mut self, object_id: u32) -> (removed: bool)
        ensures
            removed == old(self)@.objects.contains_key(object_id),
            final(self)@ == old(self)@.deleted(object_id),
    {
        self.objects.remove(&object_id).is_some()
    }

    /// Lists the whole registry for saving: one record for each object,
    /// under its identity, in no particular order. The registry is only
    /// read.
    pub fn export_map_data(&self) -> (records: Vec<ObjectRecord>)
        ensures
            self@.listed_by(records@),
            records@.len() == self@.objects.len(),
    {
        let mut records: Vec<ObjectRecord> = Vec::new();
        let ghost entries = self.objects.iter().remaining();
        for entry in it: self.objects.iter()
            invariant
                it.seq() == entries,
                records@.len() == it.index(),
                forall|i: int|
                    0 <= i < records@.len() ==> (#[trigger] records@[i]).id == *it.seq()[i].0
                        && records@[i].object == *it.seq()[i].1,
        {
            let (id, object) = entry;
            records.push(ObjectRecord { id: *id, object: *object });
        }
        proof {
            let objects = self.objects@;
            assert forall|i: int, j: int| 0 <= i < j < records@.len() implies (#[trigger] records@[i]).id
                != (#[trigger] records@[j]).id by {
                if records@[i].id == records@[j].id {
                    assert(objects[*entries[i].0] == *entries[i].1);
                    assert(objects[*entries[j].0] == *entries[j].1);
                    assert(entries[i] == entries[j]);
                }
            }
            assert forall|i: int| 0 <= i < records@.len() implies objects.contains_key(
                (#[trigger] records@[i]).id,
            ) && objects[records@[i].id] == records@[i].object by {
                assert(objects.contains_key(*entries[i].0));
                assert(objects[*entries[i].0] == *entries[i].1);
            }
            assert forall|id: u32| #[trigger] objects.contains_key(id) implies exists|i: int|
                0 <= i < records@.len() && (#[trigger] records@[i]).id == id by {
                let i = entries.index_of((&id, &objects[id]));
                assert(entries.contains((&id, &objects[id])));
                assert(records@[i].id == id);
            }
            lemma_records_to_map_of_listing(objects, records@);
        }
        records
    }

    /// Takes over what an import read. `Some(records)` replaces every object
    /// by the records' (of two records with one identity the later counts)
    /// and returns true; `None`, for a file that could not be read or
    /// understood, changes nothing and returns false. The next identity
    /// stays as it is in both cases.
    pub fn import_map_data(&mut self, parsed: Option<Vec<ObjectRecord>>) -> (replaced: bool)
        ensures
            replaced == parsed.is_some(),
            final(self)@ == old(self)@.imported(parsed_records(parsed)),
    {
        match parsed {
            Some(records) => {
                let mut objects: HashMap<u32, DynamicObject> = HashMap::new();
                let mut i: usize = 0;
                while i < records.len()
                    invariant
                        i <= records.len(),
                        objects@ == records_to_map(records@.take(i as int)),
                    decreases records.len() - i,
                {
                    let record = records[i];
                    objects.insert(record.id, record.object);
                    i = i + 1;
                    proof {
                        let read = records@.take(i as int);
                        assert(read.drop_last() == records@.take(i - 1));
                        assert(read.last() == record);
                    }
                }
                assert(records@.take(i as int) == records@);
                self.objects = objects;
                true
            },
            None => false,
        }
    }
}

impl Default for ObjectEditor {
    /// An empty registry whose first identity is 1.
    fn default() -> (editor: ObjectEditor)
        ensures
            editor@ == EditorState::initial(),
    {
        ObjectEditor::new()
    }
}

} // verus!
