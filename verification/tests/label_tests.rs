use datasets::FormatError;
use datasets::label::one_hot;

#[test]
fn one_hot_rows_sum_to_one_with_one_at_label() {
    let labels: Vec<u8> = vec![3, 0, 9, 5];
    let m = one_hot(&labels, 10).unwrap();
    assert_eq!(m.count, 4);
    assert_eq!(m.classes, 10);
    assert_eq!(m.data.len(), 40);
    for (i, &l) in labels.iter().enumerate() {
        let row = &m.data[i * 10..(i + 1) * 10];
        let sum: u32 = row.iter().map(|&b| b as u32).sum();
        assert_eq!(sum, 1);
        assert_eq!(row[l as usize], 1);
        for (j, &cell) in row.iter().enumerate() {
            if j != l as usize {
                assert_eq!(cell, 0);
            }
        }
    }
}

#[test]
fn one_hot_exact_matrix() {
    let labels: Vec<u8> = vec![1, 2];
    let m = one_hot(&labels, 3).unwrap();
    assert_eq!(m.data, vec![0, 1, 0, 0, 0, 1]);
}

#[test]
fn one_hot_rejects_out_of_range_label() {
    let labels: Vec<u8> = vec![0, 10, 2];
    assert_eq!(one_hot(&labels, 10).unwrap_err(), FormatError::InvalidLabel);
}

#[test]
fn one_hot_rejects_label_equal_to_class_count() {
    let labels: Vec<u8> = vec![3];
    assert_eq!(one_hot(&labels, 3).unwrap_err(), FormatError::InvalidLabel);
}

#[test]
fn one_hot_empty_labels() {
    let labels: Vec<u8> = Vec::new();
    let m = one_hot(&labels, 10).unwrap();
    assert_eq!(m.count, 0);
    assert!(m.data.is_empty());
}
