use datasets::FormatError;
use datasets::flat::decode;

fn record(label: u8, fill: u8, psize: usize) -> Vec<u8> {
    let mut r = vec![label];
    r.extend(std::iter::repeat(fill).take(psize));
    r
}

#[test]
fn flat_decode_two_records() {
    // channels=1, rows=2, cols=2: stride 5.
    let mut src = record(3, 7, 4);
    src.extend(record(9, 8, 4));
    let (t, labels) = decode(&src, 2, 1, 2, 2).unwrap();
    assert_eq!(labels, vec![3, 9]);
    assert_eq!(t.count, 2);
    assert_eq!(t.channels, 1);
    assert_eq!(t.rows, 2);
    assert_eq!(t.cols, 2);
    assert_eq!(t.data, vec![7, 7, 7, 7, 8, 8, 8, 8]);
}

#[test]
fn flat_decode_channel_major_payload() {
    // One record, 2 channels of 1x2: payload kept in file order.
    let src = vec![1u8, 10, 11, 20, 21];
    let (t, labels) = decode(&src, 1, 2, 1, 2).unwrap();
    assert_eq!(labels, vec![1]);
    assert_eq!(t.data, vec![10, 11, 20, 21]);
}

#[test]
fn flat_decode_rejects_label_ten() {
    let mut src = record(0, 1, 4);
    src.extend(record(10, 2, 4));
    let err = decode(&src, 2, 1, 2, 2).unwrap_err();
    assert_eq!(err, FormatError::InvalidLabel);
}

#[test]
fn flat_decode_truncated() {
    let src = record(0, 1, 4);
    let err = decode(&src, 2, 1, 2, 2).unwrap_err();
    assert_eq!(err, FormatError::TruncatedData);
}

#[test]
fn flat_decode_empty_source_zero_records() {
    let src: Vec<u8> = Vec::new();
    let (t, labels) = decode(&src, 0, 1, 2, 2).unwrap();
    assert!(labels.is_empty());
    assert!(t.data.is_empty());
    assert_eq!(t.count, 0);
}

#[test]
fn flat_decode_ignores_trailing_bytes() {
    let mut src = record(2, 5, 4);
    src.extend(vec![99u8, 99]);
    let (t, labels) = decode(&src, 1, 1, 2, 2).unwrap();
    assert_eq!(labels, vec![2]);
    assert_eq!(t.data, vec![5, 5, 5, 5]);
}
