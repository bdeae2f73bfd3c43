//! Runs of operations, and the identities that they hand out.
//!
//! A registry lives as long as its owner, and over that life the identities
//! it hands out are 1, 2, 3, ... with no gap and no repeat, whatever was
//! moved, deleted or imported in between. This module says so of every run.

use vstd::prelude::*;
use crate::geometry::Vector3;
use crate::model::EditorState;
use crate::object::{DynamicObject, ObjectRecord};

verus! {

/// One change to a registry.
pub enum Operation {
    Create { object: DynamicObject },
    Move { id: u32, position: Vector3 },
    Turn { id: u32, rotation: Vector3 },
    Delete { id: u32 },
    Import { parsed: Option<Seq<ObjectRecord>> },
}

impl EditorState {
    /// The state after one operation.
    pub open spec fn after(self, operation: Operation) -> EditorState {
        match operation {
            Operation::Create { object } => self.created(object),
            Operation::Move { id, position } => self.moved(id, position),
            Operation::Turn { id, rotation } => self.turned(id, rotation),
            Operation::Delete { id } => self.deleted(id),
            Operation::Import { parsed } => self.imported(parsed),
        }
    }

    /// The state after a run of operations, the first of them first.
    pub open spec fn after_all(self, run: Seq<Operation>) -> EditorState
        decreases run.len(),
    {
        if run.len() == 0 {
            self
        } else {
            self.after_all(run.drop_last()).after(run.last())
        }
    }
}

/// How many objects a run creates.
pub open spec fn creations(run: Seq<Operation>) -> nat
    decreases run.len(),
{
    if run.len() == 0 {
        0
    } else if run.last() is Create {
        creations(run.drop_last()) + 1
    } else {
        creations(run.drop_last())
    }
}

/// The identities that the creations of a run hand out, in their order, when
/// the run starts in `start`.
pub open spec fn issued(start: EditorState, run: Seq<Operation>) -> Seq<u32>
    decreases run.len(),
{
    if run.len() == 0 {
        Seq::empty()
    } else if run.last() is Create {
        issued(start, run.drop_last()).push(start.after_all(run.drop_last()).next_id)
    } else {
        issued(start, run.drop_last())
    }
}

/// Over any run, each creation gets the identity that follows the one
/// before it: the identities count up from the first, one by one. So they
/// rise strictly and none comes twice, although the run may delete objects
/// and import others in between. The run has to stay within the identities
/// that 32 bits can hold.
pub proof fn lemma_identities_count_up(start: EditorState, run: Seq<Operation>)
    requires
        start.next_id + creations(run) <= u32::MAX,
    ensures
        start.after_all(run).next_id == start.next_id + creations(run),
        issued(start, run).len() == creations(run),
        forall|k: int|
            0 <= k < creations(run) ==> #[trigger] issued(start, run)[k] == start.next_id + k,
    decreases run.len(),
{
    if run.len() > 0 {
        lemma_identities_count_up(start, run.drop_last());
    }
}

/// In the life of a registry that started empty, the creations get the
/// identities 1, 2, 3, ...: the first gets 1, each is larger than the one
/// before, and no two are the same.
pub proof fn lemma_identities_from_one(run: Seq<Operation>)
    requires
        creations(run) < u32::MAX,
    ensures
        issued(EditorState::initial(), run).len() == creations(run),
        forall|k: int|
            0 <= k < creations(run) ==> #[trigger] issued(EditorState::initial(), run)[k] == k + 1,
        forall|j: int, k: int|
            0 <= j < k < creations(run) ==> issued(EditorState::initial(), run)[j] < issued(
                EditorState::initial(),
                run,
            )[k],
{
    lemma_identities_count_up(EditorState::initial(), run);
}

} // verus!
