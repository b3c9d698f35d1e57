use response_getter::data::{Data, DataRequest, ImmutableDataType, NameType, NAME_TYPE_LEN};

#[test]
fn name_is_its_bytes() {
    let mut id = [0u8; 64];
    for (i, byte) in id.iter_mut().enumerate() {
        *byte = i as u8;
    }
    let name = NameType::new(id);
    assert_eq!(name.get_id(), id);
    assert_eq!(name.0, id);
    assert_eq!(NAME_TYPE_LEN, 64);
}

#[test]
fn names_are_equal_when_all_bytes_are() {
    assert!(NameType::new([3; 64]) == NameType::new([3; 64]));
    assert!(NameType::new([3; 64]) != NameType::new([4; 64]));
    let mut first = [3u8; 64];
    first[0] = 0;
    assert!(NameType::new([3; 64]) != NameType::new(first));
    let mut last = [3u8; 64];
    last[63] = 0;
    assert!(NameType::new([3; 64]) != NameType::new(last));
}

#[test]
fn request_name_is_the_name_it_carries() {
    let name = NameType::new([0xab; 64]);
    assert_eq!(DataRequest::StructuredData(name, 42).name(), name);
    assert_eq!(DataRequest::ImmutableData(name, ImmutableDataType::Normal).name(), name);
    assert_eq!(DataRequest::ImmutableData(name, ImmutableDataType::Backup).name(), name);
    assert_eq!(DataRequest::PlainData(name).name(), name);
}

#[test]
fn only_immutable_data_is_cacheable() {
    let name = NameType::new([1; 64]);
    assert!(DataRequest::ImmutableData(name, ImmutableDataType::Normal).is_cacheable());
    assert!(DataRequest::ImmutableData(name, ImmutableDataType::Backup).is_cacheable());
    assert!(DataRequest::ImmutableData(name, ImmutableDataType::Sacrificial).is_cacheable());
    assert!(!DataRequest::StructuredData(name, 0).is_cacheable());
    assert!(!DataRequest::PlainData(name).is_cacheable());
}

#[test]
fn data_keeps_its_bytes_and_clones_equal() {
    let data = Data::new(vec![1, 2, 3]);
    assert_eq!(data.value(), &vec![1, 2, 3]);
    let copy = data.clone();
    assert_eq!(copy, data);
    assert_eq!(copy.value(), &vec![1, 2, 3]);
    assert_ne!(Data::new(vec![1, 2]), data);
}
