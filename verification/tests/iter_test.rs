use struct_as_array::model::RecordValue;

#[test]
fn iter_test() {
    let t = RecordValue { fields: vec![0, 1, 2] };

    for i in t.as_array() {
        println!("{}", i);
    }

    assert_eq!(t.as_array(), [&0, &1, &2]);
}
