use bitvortex::data_bucket::{DataBlob, DataBucket, DataBucketBlob, F32Bits, F64Bits, Link, LinkType, MetaData};

fn plain_meta(name: &str, len: usize) -> MetaData {
    MetaData {
        name: name.to_string(),
        description: None,
        units: None,
        unitary_dimensions: vec![1],
        dimensions: vec![len],
        links: Vec::new(),
    }
}

fn make_int_blob() -> DataBlob<i8> {
    let meta = plain_meta("Test data", 10);
    let data: Vec<i8> = (0..10).collect();
    DataBlob::new(data, meta)
}

#[test]
fn test_int_data_blob() {
    let blob = make_int_blob();
    for (idx, val) in std::iter::zip(0..10, blob.get_data().iter()) {
        assert_eq!(idx, *val, "Failure to get data from blob");
    }
}

#[test]
fn test_double_data_blob() {
    let meta = plain_meta("Test data", 10);
    let data: Vec<i8> = (0..10).collect();
    let data: Vec<F64Bits> = data
        .into_iter()
        .map(|x| F64Bits { bits: (f64::from(x) / 10.0_f64).to_bits() })
        .collect();
    let blob = DataBlob::new(data, meta);
    for (idx, val) in std::iter::zip(0..10, blob.get_data().iter()) {
        assert_eq!(
            (idx as f64 / 10.0).to_bits(),
            val.bits,
            "Failure to get data from blob"
        );
    }
}

#[test]
fn test_add_data_bucket() {
    let mut bucket = DataBucket::new();
    bucket.add_blob(DataBucketBlob::Int8(make_int_blob()));
    let blob = bucket.get_blob(&"Test data".to_string());
    let blob = match blob.unwrap() {
        DataBucketBlob::Int8(ref b) => b,
        _ => panic!("Could not match blob"),
    };
    for (idx, val) in std::iter::zip(0..10, blob.get_data().iter()) {
        assert_eq!(idx, *val, "Failure to retreive data from bucket");
    }
}

#[test]
fn test_pop_data_bucket() {
    let mut bucket = DataBucket::new();
    bucket.add_blob(DataBucketBlob::Int8(make_int_blob()));
    let blob = bucket.pop_blob("Test data".to_string());
    assert!(!blob.is_none(), "Popped back None from data bucket");
    let blob = blob.unwrap();
    let blob = match blob {
        DataBucketBlob::Int8(b) => b,
        _ => panic!("Could not match blob"),
    };
    for (idx, val) in std::iter::zip(0..10, blob.get_data().iter()) {
        assert_eq!(idx, *val, "Failure to pop data from bucket");
    }
}

#[test]
fn register_fresh_name_then_lookup() {
    let mut bucket = DataBucket::new();
    let rejected = bucket.add_blob(DataBucketBlob::Int8(make_int_blob()));
    assert!(rejected.is_none());
    let found = bucket.get_blob(&"Test data".to_string());
    let found = found.expect("blob registered under a fresh name must be found");
    assert_eq!(found.get_meta_data().name, "Test data");
    assert!(matches!(found, DataBucketBlob::Int8(_)));
}

#[test]
fn register_duplicate_name_is_rejected() {
    let mut bucket = DataBucket::new();
    assert!(bucket.add_blob(DataBucketBlob::Int8(make_int_blob())).is_none());

    let other = DataBlob::new(vec![true, false], plain_meta("Test data", 2));
    let rejected = bucket.add_blob(DataBucketBlob::Bool(other));
    let rejected = rejected.expect("second blob under the same name must come back");
    match rejected {
        DataBucketBlob::Bool(b) => {
            assert_eq!(*b.get_data(), vec![true, false]);
            assert_eq!(b.get_meta_data().name, "Test data");
        }
        _ => panic!("the rejected blob must come back unchanged"),
    }

    let kept = bucket.get_blob(&"Test data".to_string()).unwrap();
    match kept {
        DataBucketBlob::Int8(b) => {
            assert_eq!(*b.get_data(), (0..10).collect::<Vec<i8>>());
        }
        _ => panic!("the existing entry must be untouched"),
    }
}

#[test]
fn pop_returns_registered_blob_and_clears_name() {
    let mut bucket = DataBucket::new();
    assert!(bucket.add_blob(DataBucketBlob::Int8(make_int_blob())).is_none());
    let popped = bucket.pop_blob("Test data".to_string());
    match popped.expect("pop of a present name must return the blob") {
        DataBucketBlob::Int8(b) => {
            assert_eq!(*b.get_data(), (0..10).collect::<Vec<i8>>());
            assert_eq!(b.get_meta_data().name, "Test data");
            assert_eq!(b.get_meta_data().dimensions, vec![10]);
        }
        _ => panic!("popped blob must keep its variant"),
    }
    assert!(bucket.get_blob(&"Test data".to_string()).is_none());
}

#[test]
fn absent_name_lookup_and_pop_return_nothing() {
    let mut bucket = DataBucket::new();
    assert!(bucket.add_blob(DataBucketBlob::Int8(make_int_blob())).is_none());
    assert!(bucket.get_blob(&"no such name".to_string()).is_none());
    assert!(bucket.pop_blob("no such name".to_string()).is_none());
    // no side effects: the registered blob is still there
    assert!(bucket.get_blob(&"Test data".to_string()).is_some());
}

#[test]
fn blob_round_trip_every_element_kind() {
    let b = DataBlob::new(vec![true, false], plain_meta("bools", 2));
    assert_eq!(*b.get_data(), vec![true, false]);
    let b = DataBlob::new(vec!['a', 'z'], plain_meta("chars", 2));
    assert_eq!(*b.get_data(), vec!['a', 'z']);
    let b = DataBlob::new(vec![-1i8, 2], plain_meta("i8s", 2));
    assert_eq!(*b.get_data(), vec![-1i8, 2]);
    let b = DataBlob::new(vec![1u8, 2], plain_meta("u8s", 2));
    assert_eq!(*b.get_data(), vec![1u8, 2]);
    let b = DataBlob::new(vec![-3i16, 4], plain_meta("i16s", 2));
    assert_eq!(*b.get_data(), vec![-3i16, 4]);
    let b = DataBlob::new(vec![3u16, 4], plain_meta("u16s", 2));
    assert_eq!(*b.get_data(), vec![3u16, 4]);
    let b = DataBlob::new(vec![-5i32, 6], plain_meta("i32s", 2));
    assert_eq!(*b.get_data(), vec![-5i32, 6]);
    let b = DataBlob::new(vec![5u32, 6], plain_meta("u32s", 2));
    assert_eq!(*b.get_data(), vec![5u32, 6]);
    let b = DataBlob::new(vec![-7i64, 8], plain_meta("i64s", 2));
    assert_eq!(*b.get_data(), vec![-7i64, 8]);
    let b = DataBlob::new(vec![7u64, 8], plain_meta("u64s", 2));
    assert_eq!(*b.get_data(), vec![7u64, 8]);
    let b = DataBlob::new(vec![-9i128, 10], plain_meta("i128s", 2));
    assert_eq!(*b.get_data(), vec![-9i128, 10]);
    let b = DataBlob::new(vec![9u128, 10], plain_meta("u128s", 2));
    assert_eq!(*b.get_data(), vec![9u128, 10]);
    let b = DataBlob::new(vec![-11isize, 12], plain_meta("isizes", 2));
    assert_eq!(*b.get_data(), vec![-11isize, 12]);
    let b = DataBlob::new(vec![11usize, 12], plain_meta("usizes", 2));
    assert_eq!(*b.get_data(), vec![11usize, 12]);
    let b = DataBlob::new(
        vec![F32Bits { bits: 1.5f32.to_bits() }],
        plain_meta("f32s", 1),
    );
    assert_eq!(f32::from_bits(b.get_data()[0].bits), 1.5f32);
    let b = DataBlob::new(
        vec![F64Bits { bits: 2.5f64.to_bits() }],
        plain_meta("f64s", 1),
    );
    assert_eq!(f64::from_bits(b.get_data()[0].bits), 2.5f64);
    let b = DataBlob::new(
        vec!["one".to_string(), "two".to_string()],
        plain_meta("strs", 2),
    );
    assert_eq!(*b.get_data(), vec!["one".to_string(), "two".to_string()]);
}

#[test]
fn mutable_accessors_update_blob() {
    let mut blob = make_int_blob();
    blob.get_mut_data().push(10);
    assert_eq!(*blob.get_data(), (0..11).collect::<Vec<i8>>());
    blob.get_mut_meta_data().dimensions = vec![11];
    assert_eq!(blob.get_meta_data().dimensions, vec![11]);
    assert_eq!(blob.get_meta_data().name, "Test data");
}

#[test]
fn bucket_blob_metadata_dispatch() {
    let mut wrapped = DataBucketBlob::Int8(make_int_blob());
    assert_eq!(wrapped.get_meta_data().name, "Test data");
    wrapped.get_mut_meta_data().units = Some("counts".to_string());
    assert_eq!(wrapped.get_meta_data().units, Some("counts".to_string()));
    match wrapped {
        DataBucketBlob::Int8(b) => assert_eq!(*b.get_data(), (0..10).collect::<Vec<i8>>()),
        _ => panic!("the variant must not change"),
    }
}

#[test]
fn links_describe_relationships() {
    let mut meta = plain_meta("summary", 1);
    meta.links.push(Link {
        nature: LinkType::Reduced,
        linker: "summary".to_string(),
        linkee: "raw".to_string(),
    });
    let blob = DataBlob::new(vec![55u64], meta);
    let link = &blob.get_meta_data().links[0];
    assert!(matches!(link.nature, LinkType::Reduced));
    assert_eq!(link.linker, "summary");
    assert_eq!(link.linkee, "raw");
}

#[test]
fn scenario_bucket_lifecycle() {
    let mut bucket = DataBucket::new();
    let blob = make_int_blob();
    assert!(bucket.add_blob(DataBucketBlob::Int8(blob)).is_none());

    let found = bucket.get_blob(&"Test data".to_string()).unwrap();
    match found {
        DataBucketBlob::Int8(b) => {
            assert_eq!(*b.get_data(), vec![0, 1, 2, 3, 4, 5, 6, 7, 8, 9]);
        }
        _ => panic!("Could not match blob"),
    }

    let other = DataBlob::new(vec![99u8], plain_meta("Test data", 1));
    let rejected = bucket.add_blob(DataBucketBlob::U8(other));
    assert!(rejected.is_some(), "a second blob under the same name must fail");
    match bucket.get_blob(&"Test data".to_string()).unwrap() {
        DataBucketBlob::Int8(b) => {
            assert_eq!(*b.get_data(), vec![0, 1, 2, 3, 4, 5, 6, 7, 8, 9]);
        }
        _ => panic!("the original entry must remain retrievable unchanged"),
    }

    match bucket.pop_blob("Test data".to_string()).unwrap() {
        DataBucketBlob::Int8(b) => {
            assert_eq!(*b.get_data(), vec![0, 1, 2, 3, 4, 5, 6, 7, 8, 9]);
        }
        _ => panic!("Could not match blob"),
    }
    assert!(bucket.get_blob(&"Test data".to_string()).is_none());
    assert!(bucket.pop_blob("Test data".to_string()).is_none());
}
