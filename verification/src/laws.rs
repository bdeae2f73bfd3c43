//! What holds between the operations of a registry.
//!
//! Each law is stated over [`EditorState`], in the terms in which the
//! contracts of [`crate::editor::ObjectEditor`] say what a call returns and
//! what state it leaves.

use vstd::prelude::*;
use crate::geometry::{Scalar, Vector3};
use crate::model::EditorState;
use crate::object::{DynamicObject, ObjectRecord};
use crate::records::{lemma_records_to_map_len, lemma_records_to_map_value};

verus! {

/// A freshly created object is found under the identity it was given, with
/// exactly the position and the rotation it was created with.
pub proof fn lemma_created_is_found(
    state: EditorState,
    model_id: i32,
    x: Scalar,
    y: Scalar,
    z: Scalar,
    rx: Scalar,
    ry: Scalar,
    rz: Scalar,
)
    ensures
        state.created(DynamicObject::placed(model_id, x, y, z, rx, ry, rz)).position_of(
            state.next_id,
        ) == Some(Vector3::new(x, y, z)),
        state.created(DynamicObject::placed(model_id, x, y, z, rx, ry, rz)).rotation_of(
            state.next_id,
        ) == Some(Vector3::new(rx, ry, rz)),
{
}

/// Creating an object leaves every other object as it was.
pub proof fn lemma_created_keeps_others(state: EditorState, object: DynamicObject, other: u32)
    requires
        other != state.next_id,
    ensures
        state.created(object).lookup(other) == state.lookup(other),
{
}

/// After an object was moved, its position is the new one, not the old one;
/// its model and its rotation are what they were.
pub proof fn lemma_moved_is_read_back(state: EditorState, id: u32, position: Vector3)
    requires
        state.objects.contains_key(id),
    ensures
        state.moved(id, position).position_of(id) == Some(position),
        state.moved(id, position).rotation_of(id) == state.rotation_of(id),
        state.moved(id, position).objects[id].model_id == state.objects[id].model_id,
{
}

/// After an object was turned, its rotation is the new one, not the old one;
/// its model and its position are what they were.
pub proof fn lemma_turned_is_read_back(state: EditorState, id: u32, rotation: Vector3)
    requires
        state.objects.contains_key(id),
    ensures
        state.turned(id, rotation).rotation_of(id) == Some(rotation),
        state.turned(id, rotation).position_of(id) == state.position_of(id),
        state.turned(id, rotation).objects[id].model_id == state.objects[id].model_id,
{
}

/// Moving or turning what is not there changes nothing: no object comes into
/// being.
pub proof fn lemma_absent_is_not_changed(
    state: EditorState,
    id: u32,
    position: Vector3,
    rotation: Vector3,
)
    requires
        !state.objects.contains_key(id),
    ensures
        state.moved(id, position) == state,
        state.turned(id, rotation) == state,
        state.deleted(id) == state,
{
    assert(state.objects.remove(id) =~= state.objects);
}

/// A deleted object is no longer found, and every other object is as it was.
pub proof fn lemma_deleted_is_gone(state: EditorState, id: u32, other: u32)
    requires
        other != id,
    ensures
        state.deleted(id).lookup(id) is None,
        state.deleted(id).position_of(id) is None,
        state.deleted(id).rotation_of(id) is None,
        state.deleted(id).lookup(other) == state.lookup(other),
{
}

/// What was listed from one registry and imported into another, or into the
/// same one later, gives the objects of the first as they were when listed:
/// the same identities with the same model, position and rotation, bit for
/// bit. The next identity of the importing registry stays.
pub proof fn lemma_import_restores_export(
    exported: EditorState,
    records: Seq<ObjectRecord>,
    importing: EditorState,
)
    requires
        exported.listed_by(records),
    ensures
        importing.imported(Some(records)).objects == exported.objects,
        importing.imported(Some(records)).next_id == importing.next_id,
        exported.imported(Some(records)) == exported,
        records.len() == exported.objects.len(),
{
    lemma_records_to_map_len(records);
}

/// Where the records of an import repeat an identity, the last record with
/// that identity is the one found afterwards.
pub proof fn lemma_import_takes_last_record(
    state: EditorState,
    records: Seq<ObjectRecord>,
    i: int,
)
    requires
        0 <= i < records.len(),
        forall|j: int| i < j < records.len() ==> (#[trigger] records[j]).id != records[i].id,
    ensures
        state.imported(Some(records)).lookup(records[i].id) == Some(records[i].object),
{
    lemma_records_to_map_value(records, i);
}

/// An import that read nothing usable leaves the registry as it was.
pub proof fn lemma_failed_import_changes_nothing(state: EditorState)
    ensures
        state.imported(None) == state,
{
}

} // verus!
