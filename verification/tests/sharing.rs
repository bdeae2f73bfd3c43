use object_editor::{ObjectEditor, Scalar};
use std::sync::RwLock;

fn nought() -> Scalar {
    Scalar::from_bits(0)
}

#[test]
fn reads_need_only_shared_access() {
    let shared = RwLock::new(ObjectEditor::new());
    let id = shared.write().unwrap().create_dynamic_object(
        19300,
        nought(),
        nought(),
        nought(),
        nought(),
        nought(),
        nought(),
    );
    // Two readers hold the registry at once, and each of the reading
    // operations works through either of them.
    let first = shared.read().unwrap();
    let second = shared.read().unwrap();
    let (mut x, mut y, mut z) = (nought(), nought(), nought());
    assert!(first.get_dynamic_object_pos(id, &mut x, &mut y, &mut z));
    assert!(second.get_dynamic_object_rot(id, &mut x, &mut y, &mut z));
    assert!(first.edit_dynamic_object(3, id).is_some());
    assert_eq!(second.export_map_data().len(), 1);
    assert_eq!(first.next_id(), second.next_id());
}

#[test]
fn creates_through_a_lock_get_distinct_identities() {
    let shared = RwLock::new(ObjectEditor::new());
    let mut ids = Vec::new();
    for caller in 0..100 {
        let mut editor = shared.write().unwrap();
        ids.push(editor.create_dynamic_object(
            caller,
            nought(),
            nought(),
            nought(),
            nought(),
            nought(),
            nought(),
        ));
    }
    let expected: Vec<u32> = (1..=100).collect();
    assert_eq!(ids, expected);
    assert_eq!(shared.read().unwrap().export_map_data().len(), 100);
}
