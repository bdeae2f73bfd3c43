use object_editor::{ObjectEditor, PlayerObjectRequest, Scalar, Vector3, DRAW_DISTANCE_BITS};

fn sc(value: f32) -> Scalar {
    Scalar::from_bits(value.to_bits())
}

fn position(editor: &ObjectEditor, id: u32) -> Option<(f32, f32, f32)> {
    let (mut x, mut y, mut z) = (sc(-1.0), sc(-1.0), sc(-1.0));
    if editor.get_dynamic_object_pos(id, &mut x, &mut y, &mut z) {
        Some((f32::from_bits(x.to_bits()), f32::from_bits(y.to_bits()), f32::from_bits(z.to_bits())))
    } else {
        None
    }
}

fn rotation(editor: &ObjectEditor, id: u32) -> Option<(f32, f32, f32)> {
    let (mut x, mut y, mut z) = (sc(-1.0), sc(-1.0), sc(-1.0));
    if editor.get_dynamic_object_rot(id, &mut x, &mut y, &mut z) {
        Some((f32::from_bits(x.to_bits()), f32::from_bits(y.to_bits()), f32::from_bits(z.to_bits())))
    } else {
        None
    }
}

#[test]
fn scalar_keeps_its_bits() {
    assert_eq!(Scalar::from_bits(0x4120_0000).to_bits(), 0x4120_0000);
    assert_eq!(sc(10.0).to_bits(), 0x4120_0000);
    assert_eq!(sc(-0.0).to_bits(), 0x8000_0000);
    assert_ne!(sc(-0.0), sc(0.0));
    assert_eq!(Scalar::from_bits(0x7fc0_0001), Scalar::from_bits(0x7fc0_0001));
}

#[test]
fn vector_new_sets_the_components_in_order() {
    let v = Vector3::new(sc(1.0), sc(2.0), sc(3.0));
    assert_eq!(v.x, sc(1.0));
    assert_eq!(v.y, sc(2.0));
    assert_eq!(v.z, sc(3.0));
}

#[test]
fn draw_distance_is_three_hundred() {
    assert_eq!(DRAW_DISTANCE_BITS, 300.0f32.to_bits());
}

#[test]
fn created_object_is_read_back_exactly() {
    let mut editor = ObjectEditor::new();
    let id = editor.create_dynamic_object(
        19300,
        sc(1.5),
        sc(-2.25),
        sc(3.0e30),
        sc(90.0),
        sc(-180.0),
        sc(0.125),
    );
    assert_eq!(position(&editor, id), Some((1.5, -2.25, 3.0e30)));
    assert_eq!(rotation(&editor, id), Some((90.0, -180.0, 0.125)));
}

#[test]
fn created_object_keeps_bits_that_are_no_number() {
    let mut editor = ObjectEditor::new();
    let nan = Scalar::from_bits(0x7fc0_1234);
    let inf = sc(f32::INFINITY);
    let negative_zero = sc(-0.0);
    let id = editor.create_dynamic_object(0, nan, inf, negative_zero, negative_zero, nan, inf);
    let (mut x, mut y, mut z) = (sc(0.0), sc(0.0), sc(0.0));
    assert!(editor.get_dynamic_object_pos(id, &mut x, &mut y, &mut z));
    assert_eq!((x.to_bits(), y.to_bits(), z.to_bits()), (0x7fc0_1234, 0x7f80_0000, 0x8000_0000));
    assert!(editor.get_dynamic_object_rot(id, &mut x, &mut y, &mut z));
    assert_eq!((x.to_bits(), y.to_bits(), z.to_bits()), (0x8000_0000, 0x7fc0_1234, 0x7f80_0000));
}

#[test]
fn get_on_missing_identity_leaves_the_outputs() {
    let mut editor = ObjectEditor::new();
    editor.create_dynamic_object(1, sc(5.0), sc(6.0), sc(7.0), sc(8.0), sc(9.0), sc(10.0));
    let (mut x, mut y, mut z) = (sc(11.0), sc(12.0), sc(13.0));
    assert!(!editor.get_dynamic_object_pos(2, &mut x, &mut y, &mut z));
    assert_eq!((x, y, z), (sc(11.0), sc(12.0), sc(13.0)));
    assert!(!editor.get_dynamic_object_rot(0, &mut x, &mut y, &mut z));
    assert_eq!((x, y, z), (sc(11.0), sc(12.0), sc(13.0)));
}

#[test]
fn set_position_then_get_gives_the_new_value() {
    let mut editor = ObjectEditor::new();
    let id = editor.create_dynamic_object(19300, sc(0.0), sc(0.0), sc(3.0), sc(1.0), sc(2.0), sc(3.0));
    assert!(editor.set_dynamic_object_pos(id, sc(10.0), sc(20.0), sc(30.0)));
    assert_eq!(position(&editor, id), Some((10.0, 20.0, 30.0)));
    assert_eq!(rotation(&editor, id), Some((1.0, 2.0, 3.0)));
    assert_eq!(editor.edit_dynamic_object(0, id).unwrap().model_id, 19300);
}

#[test]
fn set_rotation_then_get_gives_the_new_value() {
    let mut editor = ObjectEditor::new();
    let id = editor.create_dynamic_object(19300, sc(0.0), sc(0.0), sc(3.0), sc(1.0), sc(2.0), sc(3.0));
    assert!(editor.set_dynamic_object_rot(id, sc(45.0), sc(-45.0), sc(720.0)));
    assert_eq!(rotation(&editor, id), Some((45.0, -45.0, 720.0)));
    assert_eq!(position(&editor, id), Some((0.0, 0.0, 3.0)));
    assert_eq!(editor.edit_dynamic_object(0, id).unwrap().model_id, 19300);
}

#[test]
fn set_touches_only_the_named_object() {
    let mut editor = ObjectEditor::new();
    let a = editor.create_dynamic_object(1, sc(1.0), sc(1.0), sc(1.0), sc(1.0), sc(1.0), sc(1.0));
    let b = editor.create_dynamic_object(2, sc(2.0), sc(2.0), sc(2.0), sc(2.0), sc(2.0), sc(2.0));
    assert!(editor.set_dynamic_object_pos(a, sc(9.0), sc(9.0), sc(9.0)));
    assert!(editor.set_dynamic_object_rot(a, sc(8.0), sc(8.0), sc(8.0)));
    assert_eq!(position(&editor, b), Some((2.0, 2.0, 2.0)));
    assert_eq!(rotation(&editor, b), Some((2.0, 2.0, 2.0)));
}

#[test]
fn set_on_missing_identity_creates_nothing() {
    let mut editor = ObjectEditor::new();
    assert!(!editor.set_dynamic_object_pos(1, sc(1.0), sc(2.0), sc(3.0)));
    assert!(!editor.set_dynamic_object_rot(1, sc(1.0), sc(2.0), sc(3.0)));
    assert_eq!(position(&editor, 1), None);
    assert!(editor.export_map_data().is_empty());
}

#[test]
fn delete_removes_the_object_once() {
    let mut editor = ObjectEditor::new();
    let id = editor.create_dynamic_object(3, sc(1.0), sc(2.0), sc(3.0), sc(0.0), sc(0.0), sc(0.0));
    let kept = editor.create_dynamic_object(4, sc(4.0), sc(5.0), sc(6.0), sc(0.0), sc(0.0), sc(0.0));
    assert!(editor.delete_dynamic_object(id));
    assert_eq!(position(&editor, id), None);
    assert_eq!(rotation(&editor, id), None);
    assert!(editor.edit_dynamic_object(1, id).is_none());
    assert!(!editor.delete_dynamic_object(id));
    assert_eq!(position(&editor, kept), Some((4.0, 5.0, 6.0)));
}

#[test]
fn delete_on_missing_identity_is_false() {
    let mut editor = ObjectEditor::new();
    assert!(!editor.delete_dynamic_object(1));
    assert!(!editor.delete_dynamic_object(0));
    assert!(!editor.delete_dynamic_object(u32::MAX));
}

#[test]
fn edit_names_the_object_as_it_stands() {
    let mut editor = ObjectEditor::new();
    let id = editor.create_dynamic_object(19300, sc(0.0), sc(0.0), sc(3.0), sc(0.0), sc(90.0), sc(0.0));
    assert!(editor.set_dynamic_object_pos(id, sc(10.0), sc(20.0), sc(30.0)));
    let request = editor.edit_dynamic_object(17, id);
    assert_eq!(
        request,
        Some(PlayerObjectRequest {
            player_id: 17,
            model_id: 19300,
            position: Vector3::new(sc(10.0), sc(20.0), sc(30.0)),
            rotation: Vector3::new(sc(0.0), sc(90.0), sc(0.0)),
            draw_distance: sc(300.0),
        })
    );
}

#[test]
fn edit_on_missing_identity_is_none() {
    let mut editor = ObjectEditor::new();
    assert_eq!(editor.edit_dynamic_object(17, 1), None);
    let id = editor.create_dynamic_object(1, sc(0.0), sc(0.0), sc(0.0), sc(0.0), sc(0.0), sc(0.0));
    assert_eq!(editor.edit_dynamic_object(17, id + 1), None);
    assert!(editor.delete_dynamic_object(id));
    assert_eq!(editor.edit_dynamic_object(17, id), None);
}

#[test]
fn edit_changes_nothing() {
    let mut editor = ObjectEditor::new();
    let id = editor.create_dynamic_object(5, sc(1.0), sc(2.0), sc(3.0), sc(4.0), sc(5.0), sc(6.0));
    let before = editor.export_map_data();
    assert!(editor.edit_dynamic_object(1, id).is_some());
    assert!(editor.edit_dynamic_object(2, id).is_some());
    assert_eq!(editor.export_map_data(), before);
    assert_eq!(editor.next_id(), 2);
}
