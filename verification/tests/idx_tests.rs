use datasets::FormatError;
use datasets::idx::decode_images;
use datasets::idx::decode_labels;
use datasets::idx::encode_images;
use datasets::idx::encode_labels;

fn push_be(v: &mut Vec<u8>, x: u32) {
    v.push((x >> 24) as u8);
    v.push((x >> 16) as u8);
    v.push((x >> 8) as u8);
    v.push(x as u8);
}

fn image_file(magic: u32, count: u32, rows: u32, cols: u32, body: &[u8]) -> Vec<u8> {
    let mut f: Vec<u8> = Vec::new();
    push_be(&mut f, magic);
    push_be(&mut f, count);
    push_be(&mut f, rows);
    push_be(&mut f, cols);
    f.extend_from_slice(body);
    f
}

#[test]
fn decode_images_two_zero_records() {
    let body = vec![0u8; 2 * 28 * 28];
    let file = image_file(0x0000_0803, 2, 28, 28, &body);
    let t = decode_images(&file, 2).unwrap();
    assert_eq!(t.count, 2);
    assert_eq!(t.channels, 1);
    assert_eq!(t.rows, 28);
    assert_eq!(t.cols, 28);
    assert_eq!(t.data.len(), 2 * 28 * 28);
    assert!(t.data.iter().all(|&b| b == 0));
}

#[test]
fn decode_images_truncated_when_count_exceeds_body() {
    let body = vec![0u8; 2 * 28 * 28];
    let file = image_file(0x0000_0803, 3, 28, 28, &body);
    assert_eq!(decode_images(&file, 3).unwrap_err(), FormatError::TruncatedData);
}

#[test]
fn decode_images_bad_magic() {
    let body = vec![0u8; 2 * 28 * 28];
    let file = image_file(0x0000_0804, 2, 28, 28, &body);
    assert_eq!(decode_images(&file, 2).unwrap_err(), FormatError::BadMagic);
}

#[test]
fn decode_images_bad_magic_reported_before_bad_count() {
    // Wrong magic and wrong count together: the magic mismatch wins, so
    // later header fields were never consulted.
    let body = vec![0u8; 28 * 28];
    let file = image_file(0x0000_0804, 9, 28, 28, &body);
    assert_eq!(decode_images(&file, 1).unwrap_err(), FormatError::BadMagic);
}

#[test]
fn decode_images_bad_length() {
    let body = vec![0u8; 2 * 28 * 28];
    let file = image_file(0x0000_0803, 5, 28, 28, &body);
    assert_eq!(decode_images(&file, 2).unwrap_err(), FormatError::BadLength);
}

#[test]
fn decode_images_bad_geometry() {
    let body = vec![0u8; 2 * 29 * 28];
    let file = image_file(0x0000_0803, 2, 29, 28, &body);
    assert_eq!(decode_images(&file, 2).unwrap_err(), FormatError::BadGeometry);
    let file2 = image_file(0x0000_0803, 2, 28, 27, &body);
    assert_eq!(decode_images(&file2, 2).unwrap_err(), FormatError::BadGeometry);
}

#[test]
fn decode_images_short_header() {
    let file = vec![0u8, 0, 8];
    assert_eq!(decode_images(&file, 0).unwrap_err(), FormatError::TruncatedData);
}

#[test]
fn decode_images_preserves_byte_order() {
    let body: Vec<u8> = (0..28 * 28).map(|i| (i % 251) as u8).collect();
    let file = image_file(0x0000_0803, 1, 28, 28, &body);
    let t = decode_images(&file, 1).unwrap();
    assert_eq!(t.data, body);
}

#[test]
fn image_round_trip_through_encoder() {
    let pixels: Vec<u8> = (0..2 * 28 * 28).map(|i| (i % 256) as u8).collect();
    let file = encode_images(&pixels, 2);
    assert_eq!(file.len(), 16 + pixels.len());
    let t = decode_images(&file, 2).unwrap();
    assert_eq!(t.data, pixels);
}

#[test]
fn label_round_trip_through_encoder() {
    let labels: Vec<u8> = vec![0, 9, 3, 7, 1];
    let file = encode_labels(&labels, 5);
    assert_eq!(file.len(), 8 + labels.len());
    let got = decode_labels(&file, 5).unwrap();
    assert_eq!(got, labels);
}

#[test]
fn decode_labels_rejects_label_ten() {
    let labels: Vec<u8> = vec![0, 10, 3];
    let file = encode_labels(&labels, 3);
    assert_eq!(decode_labels(&file, 3), Err(FormatError::InvalidLabel));
}

#[test]
fn decode_labels_bad_magic() {
    let mut file: Vec<u8> = Vec::new();
    push_be(&mut file, 0x0000_0802);
    push_be(&mut file, 1);
    file.push(4);
    assert_eq!(decode_labels(&file, 1), Err(FormatError::BadMagic));
}

#[test]
fn decode_labels_bad_length() {
    let labels: Vec<u8> = vec![1, 2];
    let file = encode_labels(&labels, 2);
    assert_eq!(decode_labels(&file, 3), Err(FormatError::BadLength));
}

#[test]
fn decode_labels_truncated_body() {
    let mut file: Vec<u8> = Vec::new();
    push_be(&mut file, 0x0000_0801);
    push_be(&mut file, 4);
    file.push(1);
    file.push(2);
    assert_eq!(decode_labels(&file, 4), Err(FormatError::TruncatedData));
}
