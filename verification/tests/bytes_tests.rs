use datasets::bytes::push_be_u32;
use datasets::bytes::read_be_u32;
use datasets::bytes::take_range;
use datasets::tensor::ImageTensor;

#[test]
fn concat_preserves_order() {
    let sources = vec![vec![1u8, 2], vec![], vec![3u8], vec![4u8, 5, 6]];
    assert_eq!(datasets::bytes::concat(&sources), vec![1, 2, 3, 4, 5, 6]);
}

#[test]
fn concat_of_nothing_is_empty() {
    let sources: Vec<Vec<u8>> = Vec::new();
    assert!(datasets::bytes::concat(&sources).is_empty());
}

#[test]
fn big_endian_read_back() {
    let mut v: Vec<u8> = vec![0xFF];
    push_be_u32(&mut v, 0x0000_0803);
    push_be_u32(&mut v, 60000);
    assert_eq!(v[1..5], [0x00, 0x00, 0x08, 0x03]);
    assert_eq!(read_be_u32(&v, 1), 0x0000_0803);
    assert_eq!(read_be_u32(&v, 5), 60000);
}

#[test]
fn take_range_copies_subslice() {
    let v: Vec<u8> = vec![9, 8, 7, 6, 5];
    assert_eq!(take_range(&v, 1, 4), vec![8, 7, 6]);
    assert_eq!(take_range(&v, 2, 2), Vec::<u8>::new());
}

#[test]
fn into_flat_is_a_pure_reshape() {
    let t = ImageTensor {
        data: (0..12).collect(),
        count: 2,
        channels: 1,
        rows: 2,
        cols: 3,
    };
    let f = t.into_flat();
    assert_eq!(f.count, 2);
    assert_eq!(f.width, 6);
    assert_eq!(f.data, (0..12).collect::<Vec<u8>>());
}
