use datasets::Error;
use datasets::FormatError;
use datasets::cifar::Cifar10;
use datasets::cifar_builder::buffer2data;
use datasets::cifar_builder::get_dataset;

fn record(label: u8, fill: u8) -> Vec<u8> {
    let mut r = vec![label];
    r.extend(std::iter::repeat(fill).take(3072));
    r
}

#[test]
fn cifar_build_small_counts() {
    let shard1 = record(3, 11);
    let shard2 = record(7, 22);
    let test_shard = record(9, 33);
    let cfg = Cifar10::default().num_records_train(2).num_records_test(1);
    let (ti, tl, si, sl) = cfg
        .build(&vec![shard1, shard2], &vec![test_shard])
        .unwrap();
    assert_eq!(ti.shape(), (2, 3, 32, 32));
    let bytes = ti.as_bytes();
    assert_eq!(bytes.len(), 2 * 3072);
    assert!(bytes[..3072].iter().all(|&b| b == 11));
    assert!(bytes[3072..].iter().all(|&b| b == 22));
    assert_eq!(tl.shape(), (2, 10));
    let mut expected = vec![0u8; 20];
    expected[3] = 1;
    expected[10 + 7] = 1;
    assert_eq!(tl.as_bytes(), &expected[..]);
    assert_eq!(si.shape(), (1, 3, 32, 32));
    assert!(si.as_bytes().iter().all(|&b| b == 33));
    assert_eq!(sl.shape(), (1, 10));
    let mut expected_t = vec![0u8; 10];
    expected_t[9] = 1;
    assert_eq!(sl.as_bytes(), &expected_t[..]);
}

#[test]
fn cifar_build_raw_labels() {
    let cfg = Cifar10::default()
        .num_records_train(1)
        .num_records_test(1)
        .encode_one_hot(false);
    let (_, tl, _, sl) = cfg
        .build(&vec![record(4, 1)], &vec![record(6, 2)])
        .unwrap();
    assert_eq!(tl.shape(), (1, 1));
    assert_eq!(tl.as_bytes(), &[4][..]);
    assert_eq!(sl.shape(), (1, 1));
    assert_eq!(sl.as_bytes(), &[6][..]);
}

#[test]
fn cifar_build_rejects_label_above_nine() {
    let cfg = Cifar10::default().num_records_train(1).num_records_test(1);
    let err = cfg
        .build(&vec![record(10, 1)], &vec![record(0, 2)])
        .unwrap_err();
    assert_eq!(err, Error::Format(FormatError::InvalidLabel));
}

#[test]
fn cifar_build_truncated_test_shard() {
    let cfg = Cifar10::default().num_records_train(1).num_records_test(1);
    let err = cfg
        .build(&vec![record(1, 1)], &vec![vec![0u8; 100]])
        .unwrap_err();
    assert_eq!(err, Error::Format(FormatError::TruncatedData));
}

#[test]
fn cifar_build_zero_records_yields_empty_arrays() {
    let cfg = Cifar10::default().num_records_train(0).num_records_test(0);
    let (ti, tl, si, sl) = cfg.build(&vec![], &vec![]).unwrap();
    assert_eq!(ti.shape(), (0, 3, 32, 32));
    assert!(ti.as_bytes().is_empty());
    assert_eq!(tl.shape(), (0, 10));
    assert!(tl.as_bytes().is_empty());
    assert_eq!(si.shape(), (0, 3, 32, 32));
    assert_eq!(sl.shape(), (0, 10));
}

#[test]
fn cifar_builder_setters() {
    let paths = vec!["a.bin", "b.bin"];
    let cfg = Cifar10::default()
        .base_path("elsewhere/")
        .encode_one_hot(false)
        .training_bin_paths(paths.clone())
        .testing_bin_paths(vec!["t.bin"])
        .num_records_train(8)
        .num_records_test(4);
    assert_eq!(cfg.base_path, "elsewhere/");
    assert!(!cfg.encode_one_hot);
    assert_eq!(cfg.training_bin_paths, paths);
    assert_eq!(cfg.testing_bin_paths, vec!["t.bin"]);
    assert_eq!(cfg.num_records_train, 8);
    assert_eq!(cfg.num_records_test, 4);
}

#[test]
fn cifar_default_configuration() {
    let cfg = Cifar10::default();
    assert_eq!(cfg.base_path, "data/cifar-10-batches-bin/");
    assert!(cfg.encode_one_hot);
    assert!(!cfg.show_images);
    assert_eq!(
        cfg.training_bin_paths,
        vec![
            "data_batch_1.bin",
            "data_batch_2.bin",
            "data_batch_3.bin",
            "data_batch_4.bin",
            "data_batch_5.bin"
        ]
    );
    assert_eq!(cfg.testing_bin_paths, vec!["test_batch.bin"]);
    assert_eq!(cfg.num_records_train, 50000);
    assert_eq!(cfg.num_records_test, 10000);
}

#[test]
fn buffer2data_two_records() {
    let mut buf = record(2, 5);
    buf.extend(record(0, 6));
    let (t, m) = buffer2data(&buf, 2).unwrap();
    assert_eq!((t.count, t.channels, t.rows, t.cols), (2, 3, 32, 32));
    assert!(t.data[..3072].iter().all(|&b| b == 5));
    assert!(t.data[3072..].iter().all(|&b| b == 6));
    assert_eq!((m.count, m.classes), (2, 10));
    assert_eq!(&m.data[0..10], &[0, 0, 1, 0, 0, 0, 0, 0, 0, 0]);
    assert_eq!(&m.data[10..20], &[1, 0, 0, 0, 0, 0, 0, 0, 0, 0]);
}

#[test]
fn get_dataset_full_size() {
    let mut trn = vec![0u8; 50000 * 3073];
    // Give each record a label equal to its index modulo the class count.
    for i in 0..50000 {
        trn[i * 3073] = (i % 10) as u8;
    }
    let tst = vec![0u8; 10000 * 3073];
    let d = get_dataset(&trn, &tst, true).unwrap();
    assert!(d.normalized);
    assert_eq!(d.trn_img.data.len(), 50000 * 3072);
    assert_eq!(d.tst_img.data.len(), 10000 * 3072);
    assert_eq!((d.trn_lbl.count, d.trn_lbl.classes), (50000, 10));
    assert_eq!(&d.trn_lbl.data[10..20], &[0, 1, 0, 0, 0, 0, 0, 0, 0, 0]);
    assert_eq!(&d.tst_lbl.data[0..10], &[1, 0, 0, 0, 0, 0, 0, 0, 0, 0]);
}
