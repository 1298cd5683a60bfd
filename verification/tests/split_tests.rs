use datasets::ConfigError;
use datasets::split::split;
use datasets::tensor::ImageTensor;
use datasets::tensor::normalize;

#[test]
fn split_five_records_three_one_one() {
    // Five records of two bytes: four in the train source, one in the
    // test source. The 3/1/1 carve yields consecutive slices in order.
    let train: Vec<u8> = vec![0, 1, 2, 3, 4, 5, 6, 7];
    let test: Vec<u8> = vec![8, 9];
    let (trn, val, tst) = split(&train, &test, 3, 1, 1, 2).unwrap();
    assert_eq!(trn, vec![0, 1, 2, 3, 4, 5]);
    assert_eq!(val, vec![6, 7]);
    assert_eq!(tst, vec![8, 9]);
}

#[test]
fn split_zero_validation_yields_empty_partition() {
    let train: Vec<u8> = vec![1, 2, 3];
    let test: Vec<u8> = vec![4];
    let (trn, val, tst) = split(&train, &test, 3, 0, 1, 1).unwrap();
    assert_eq!(trn, vec![1, 2, 3]);
    assert!(val.is_empty());
    assert_eq!(tst, vec![4]);
}

#[test]
fn split_discards_remainder() {
    let train: Vec<u8> = vec![1, 2, 3, 4, 5];
    let test: Vec<u8> = vec![6, 7];
    let (trn, val, tst) = split(&train, &test, 1, 1, 1, 1).unwrap();
    assert_eq!(trn, vec![1]);
    assert_eq!(val, vec![2]);
    assert_eq!(tst, vec![3]);
}

#[test]
fn split_crossing_source_boundary() {
    let train: Vec<u8> = vec![1, 2, 3];
    let test: Vec<u8> = vec![4, 5, 6];
    let (trn, val, tst) = split(&train, &test, 2, 2, 2, 1).unwrap();
    assert_eq!(trn, vec![1, 2]);
    assert_eq!(val, vec![3, 4]);
    assert_eq!(tst, vec![5, 6]);
}

#[test]
fn split_rejects_lengths_exceeding_available() {
    let train: Vec<u8> = vec![1, 2];
    let test: Vec<u8> = vec![3];
    let err = split(&train, &test, 3, 0, 1, 1).unwrap_err();
    assert_eq!(err, ConfigError::LengthExceedsAvailable);
}

#[test]
fn normalize_keeps_input_bytes_intact() {
    let t = ImageTensor { data: vec![0, 1, 128, 255], count: 1, channels: 1, rows: 2, cols: 2 };
    let before = t.data.clone();
    let n = normalize(&t);
    // The normalized copy carries the same byte representation, and the
    // input tensor's original bytes are untouched.
    assert_eq!(n.data, before);
    assert_eq!(t.data, before);
    assert_eq!((n.count, n.channels, n.rows, n.cols), (1, 1, 2, 2));
}
