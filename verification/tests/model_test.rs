use struct_as_array::model::RecordValue;

#[test]
fn as_array_gives_references_in_declaration_order() {
    let t = RecordValue { fields: vec![0, 1, 2] };
    assert_eq!(t.as_array(), [&0, &1, &2]);
    // The record is borrowed, not consumed: it stays usable.
    assert_eq!(t.as_array(), [&0, &1, &2]);
    assert_eq!(t.fields, vec![0, 1, 2]);
}

#[test]
fn to_array_gives_owned_values_in_declaration_order() {
    let t = RecordValue { fields: vec![0, 1, 2] };
    assert_eq!(t.to_array(), [0, 1, 2]);
}

#[test]
fn as_array_of_single_field_record() {
    let t = RecordValue { fields: vec![7u64] };
    assert_eq!(t.as_array(), [&7u64]);
    assert_eq!(t.to_array(), [7u64]);
}

#[test]
fn as_array_visits_each_field_exactly_once() {
    let t = RecordValue { fields: vec![10, 20, 30, 40] };
    let mut seen = Vec::new();
    for v in t.as_array() {
        seen.push(*v);
    }
    assert_eq!(seen, vec![10, 20, 30, 40]);
}

#[test]
fn round_trip_as_array_matches_to_array() {
    let a = RecordValue { fields: vec![3, 1, 4, 1, 5] };
    let b = RecordValue { fields: vec![3, 1, 4, 1, 5] };
    let derefed: Vec<i32> = a.as_array().into_iter().copied().collect();
    assert_eq!(derefed, b.to_array());
}

#[test]
fn as_array_works_on_string_fields() {
    let t = RecordValue { fields: vec![String::from("x"), String::from("y")] };
    assert_eq!(t.as_array(), [&String::from("x"), &String::from("y")]);
    assert_eq!(t.to_array(), [String::from("x"), String::from("y")]);
}
