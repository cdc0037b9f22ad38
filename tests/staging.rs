use builder::staging::{FieldValue, SlotLayout, Staging};

fn layout(v: &[(&str, bool)]) -> Vec<SlotLayout> {
    v.iter().map(|(n, o)| SlotLayout { name: n.to_string(), optional: *o }).collect()
}

fn command_layout() -> Vec<SlotLayout> {
    layout(&[("executable", false), ("args", false), ("env", false), ("current_dir", true)])
}

#[test]
fn new_staging_is_all_absent() {
    let s: Staging<u32> = Staging::new(4);
    assert_eq!(s.slots, vec![None, None, None, None]);
}

#[test]
fn second_set_replaces_first() {
    let l = command_layout();
    let mut s: Staging<&str> = Staging::new(4);
    s.set(0, "a");
    s.set(0, "cargo");
    s.set(1, "build");
    s.set(2, "");
    let r = s.build(&l).unwrap();
    assert_eq!(r[0], FieldValue::Required("cargo"));
}

#[test]
fn missing_required_fails_with_name() {
    let l = command_layout();
    let mut s: Staging<&str> = Staging::new(4);
    s.set(0, "cargo");
    s.set(1, "build");
    s.set(3, "..");
    assert_eq!(s.build(&l).unwrap_err(), "env field missing");
}

#[test]
fn first_missing_in_declaration_order() {
    let l = command_layout();
    let mut s: Staging<u8> = Staging::new(4);
    s.set(2, 7);
    assert_eq!(s.build(&l).unwrap_err(), "executable field missing");
}

#[test]
fn all_required_set_succeeds() {
    let l = command_layout();
    let mut s: Staging<u8> = Staging::new(4);
    s.set(0, 1).set(1, 2).set(2, 3);
    assert_eq!(
        s.build(&l).unwrap(),
        vec![
            FieldValue::Required(1),
            FieldValue::Required(2),
            FieldValue::Required(3),
            FieldValue::Optional(None)
        ]
    );
    s.set(3, 4);
    assert_eq!(s.build(&l).unwrap()[3], FieldValue::Optional(Some(4)));
}

#[test]
fn only_optional_fields_always_build() {
    let l = layout(&[("a", true), ("b", true)]);
    let s: Staging<u8> = Staging::new(2);
    assert_eq!(
        s.build(&l).unwrap(),
        vec![FieldValue::Optional(None), FieldValue::Optional(None)]
    );
}

#[test]
fn empty_record_builds() {
    let l = layout(&[]);
    let s: Staging<u8> = Staging::new(0);
    assert!(s.build(&l).unwrap().is_empty());
}
