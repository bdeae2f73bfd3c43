//! Lists of records: the form in which a whole registry is handed out for
//! saving and taken back in after loading.

use vstd::prelude::*;
use crate::object::{DynamicObject, ObjectRecord};

verus! {

/// The map that a list of records stands for. Where two records carry the
/// same identity, the later one counts.
pub open spec fn records_to_map(records: Seq<ObjectRecord>) -> Map<u32, DynamicObject>
    decreases records.len(),
{
    if records.len() == 0 {
        Map::empty()
    } else {
        records_to_map(records.drop_last()).insert(records.last().id, records.last().object)
    }
}

/// What an import read, as a mathematical value.
pub open spec fn parsed_records(parsed: Option<Vec<ObjectRecord>>) -> Option<Seq<ObjectRecord>> {
    match parsed {
        Some(records) => Some(records@),
        None => None,
    }
}

/// No two records of the list carry the same identity.
pub open spec fn distinct_ids(records: Seq<ObjectRecord>) -> bool {
    forall|i: int, j: int|
        0 <= i < j < records.len() ==> (#[trigger] records[i]).id != (#[trigger] records[j]).id
}

/// An identity is in the map of a list exactly if a record carries it.
pub proof fn lemma_records_to_map_dom(records: Seq<ObjectRecord>, id: u32)
    ensures
        records_to_map(records).contains_key(id) <==> exists|i: int|
            0 <= i < records.len() && (#[trigger] records[i]).id == id,
    decreases records.len(),
{
    if records.len() > 0 {
        let front = records.drop_last();
        lemma_records_to_map_dom(front, id);
        if records_to_map(records).contains_key(id) {
            if records.last().id == id {
                assert(records[records.len() - 1].id == id);
            } else {
                let i = choose|i: int| 0 <= i < front.len() && (#[trigger] front[i]).id == id;
                assert(records[i].id == id);
            }
        }
        if exists|i: int| 0 <= i < records.len() && (#[trigger] records[i]).id == id {
            let i = choose|i: int| 0 <= i < records.len() && (#[trigger] records[i]).id == id;
            if i < records.len() - 1 {
                assert(front[i].id == id);
            }
        }
    }
}

/// The map of a list gives each identity the object of the last record that
/// carries it.
pub proof fn lemma_records_to_map_value(records: Seq<ObjectRecord>, i: int)
    requires
        0 <= i < records.len(),
        forall|j: int| i < j < records.len() ==> (#[trigger] records[j]).id != records[i].id,
    ensures
        records_to_map(records).contains_key(records[i].id),
        records_to_map(records)[records[i].id] == records[i].object,
    decreases records.len(),
{
    if i < records.len() - 1 {
        let front = records.drop_last();
        assert(records[records.len() - 1].id != records[i].id);
        assert forall|j: int| i < j < front.len() implies (#[trigger] front[j]).id
            != front[i].id by {
            assert(records[j].id != records[i].id);
        }
        lemma_records_to_map_value(front, i);
    }
}

/// A list that holds nothing but entries of `objects`, and each identity of
/// `objects` at least once, has `objects` as its map.
pub proof fn lemma_records_to_map_of_listing(
    objects: Map<u32, DynamicObject>,
    records: Seq<ObjectRecord>,
)
    requires
        forall|i: int|
            0 <= i < records.len() ==> objects.contains_key((#[trigger] records[i]).id)
                && objects[records[i].id] == records[i].object,
        forall|id: u32| #[trigger]
            objects.contains_key(id) ==> exists|i: int|
                0 <= i < records.len() && (#[trigger] records[i]).id == id,
    ensures
        records_to_map(records) == objects,
{
    let listed = records_to_map(records);
    assert forall|id: u32| listed.contains_key(id) <==> objects.contains_key(id) by {
        lemma_records_to_map_dom(records, id);
        if listed.contains_key(id) {
            let i = choose|i: int| 0 <= i < records.len() && (#[trigger] records[i]).id == id;
            assert(objects.contains_key(records[i].id));
        }
    }
    assert forall|id: u32| listed.contains_key(id) implies listed[id] == objects[id] by {
        lemma_records_to_map_source(records, id);
        let i = choose|i: int|
            0 <= i < records.len() && (#[trigger] records[i]).id == id && listed[id]
                == records[i].object;
        assert(objects[records[i].id] == records[i].object);
    }
    assert(listed =~= objects);
}

/// The object that the map of a list holds under an identity is that of a
/// record with this identity.
pub proof fn lemma_records_to_map_source(records: Seq<ObjectRecord>, id: u32)
    requires
        records_to_map(records).contains_key(id),
    ensures
        exists|i: int|
            0 <= i < records.len() && (#[trigger] records[i]).id == id && records_to_map(
                records,
            )[id] == records[i].object,
    decreases records.len(),
{
    if records.len() > 0 {
        if records.last().id == id {
            let i = records.len() - 1;
            assert(records[i].id == id && records_to_map(records)[id] == records[i].object);
        } else {
            let front = records.drop_last();
            lemma_records_to_map_source(front, id);
            let i = choose|i: int|
                0 <= i < front.len() && (#[trigger] front[i]).id == id && records_to_map(front)[id]
                    == front[i].object;
            assert(records[i].id == id && records_to_map(records)[id] == records[i].object);
        }
    }
}

/// A list without repeated identities has as many records as its map has
/// entries.
pub proof fn lemma_records_to_map_len(records: Seq<ObjectRecord>)
    requires
        distinct_ids(records),
    ensures
        records_to_map(records).dom().finite(),
        records_to_map(records).len() == records.len(),
    decreases records.len(),
{
    if records.len() > 0 {
        let front = records.drop_last();
        assert(distinct_ids(front)) by {
            assert forall|i: int, j: int| 0 <= i < j < front.len() implies (#[trigger] front[i]).id
                != (#[trigger] front[j]).id by {
                assert(records[i].id != records[j].id);
            }
        }
        lemma_records_to_map_len(front);
        lemma_records_to_map_dom(front, records.last().id);
        if records_to_map(front).contains_key(records.last().id) {
            let i = choose|i: int|
                0 <= i < front.len() && (#[trigger] front[i]).id == records.last().id;
            assert(records[i].id != records[records.len() - 1].id);
        }
    }
}

} // verus!
