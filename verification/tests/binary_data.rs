use nexrad::model::binary_data::{summarize_bytes, BinaryData};

#[test]
fn summary_of_abc_has_known_digest() {
    let s = summarize_bytes(b"abc");
    assert_eq!(s.len, 3);
    assert_eq!(s.sha256, "ba7816bf8f01cfea414140de5dae2223b00361a396177a9cb410ff61f20015ad");
    assert_eq!(s.head, b"abc".to_vec());
    assert!(s.tail.is_empty());
}

#[test]
fn summary_keeps_head_and_tail() {
    let data = BinaryData::new((0u8..10).collect::<Vec<u8>>());
    let s = data.summary();
    assert_eq!(s.len, 10);
    assert_eq!(s.head, vec![0, 1, 2, 3]);
    assert_eq!(s.tail, vec![6, 7, 8, 9]);
    assert_eq!(s.sha256.len(), 64);
    assert_eq!(data.0.len(), 10);
}

#[test]
fn summary_of_empty_data() {
    let s = summarize_bytes(&[]);
    assert_eq!(s.len, 0);
    assert_eq!(s.sha256, "e3b0c44298fc1c149afbf4c8996fb92427ae41e4649b934ca495991b7852b855");
    assert!(s.head.is_empty());
}

#[test]
fn binary_data_changes_in_place_through_deref_mut() {
    let mut data = BinaryData::new(vec![1u8, 2, 3]);
    data.push(4);
    data[0] = 9;
    assert_eq!(data.0, vec![9u8, 2, 3, 4]);
    assert_eq!(data.len(), 4);
}
