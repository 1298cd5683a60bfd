//! Builder-style configuration of the ten-class small-image decode: the
//! shard file names, expected record counts and label encoding can be
//! overridden before building, and the build hands back dense arrays.

use crate::arrays::ImageArray;
use crate::arrays::LabelArray;
use crate::arrays::image_array_dim;
use crate::arrays::image_array_elems;
use crate::arrays::label_array_dim;
use crate::arrays::label_array_elems;
use crate::arrays::to_array2;
use crate::arrays::to_array4;
use crate::bytes::concat;
use crate::bytes::concat_of;
use crate::error::Error;
use crate::flat::decode;
use crate::flat::lemma_flat_labels_in_range;
use crate::flat::spec_flat_decode;
use crate::label::CLASSES;
use crate::label::one_hot;
use crate::label::one_hot_seq;
use vstd::prelude::*;

verus! {

/// Configuration of one ten-class small-image decode. The defaults match
/// the family's published layout; every field can be overridden
/// builder-style before `build`.
#[derive(Debug)]
pub struct Cifar10<'a> {
    /// Directory holding the shard files.
    pub base_path: &'a str,
    /// Diagnostic flag kept for configuration compatibility; the decode
    /// itself never displays anything.
    pub show_images: bool,
    /// Encode labels one-hot; otherwise keep raw class ids, one per row.
    pub encode_one_hot: bool,
    /// Shard file names whose concatenation forms the train set.
    pub training_bin_paths: Vec<&'a str>,
    /// Shard file names whose concatenation forms the test set.
    pub testing_bin_paths: Vec<&'a str>,
    /// Records the train shards hold together.
    pub num_records_train: usize,
    /// Records the test shards hold together.
    pub num_records_test: usize,
}

/// `a` represents the label vector `raw` of `n` records in the selected
/// encoding: one-hot rows of `CLASSES` entries, or raw ids one per row.
pub open spec fn label_array_rep(a: LabelArray, raw: Seq<u8>, n: usize, enc_one_hot: bool) -> bool {
    if enc_one_hot {
        &&& label_array_elems(a) == one_hot_seq(raw, CLASSES as int)
        &&& label_array_dim(a) == seq![n, CLASSES]
    } else {
        &&& label_array_elems(a) == raw
        &&& label_array_dim(a) == seq![n, 1usize]
    }
}

/// The complete contract of `Cifar10::build` over the concatenated shard
/// bytes: the train decode's failure, then the test decode's failure,
/// else the four arrays pinned to the decoded bytes.
pub open spec fn build_post<'a>(
    cfg: Cifar10<'a>,
    trn: Seq<u8>,
    tst: Seq<u8>,
    r: Result<(ImageArray, LabelArray, ImageArray, LabelArray), Error>,
) -> bool {
    let dt = spec_flat_decode(trn, cfg.num_records_train as int, 3072);
    let ds = spec_flat_decode(tst, cfg.num_records_test as int, 3072);
    if dt is Err {
        r == Err::<(ImageArray, LabelArray, ImageArray, LabelArray), Error>(
            Error::Format(dt->Err_0),
        )
    } else if ds is Err {
        r == Err::<(ImageArray, LabelArray, ImageArray, LabelArray), Error>(
            Error::Format(ds->Err_0),
        )
    } else {
        &&& r is Ok
        &&& image_array_elems(r->Ok_0.0) == dt->Ok_0.0
        &&& image_array_dim(r->Ok_0.0) == seq![cfg.num_records_train, 3usize, 32usize, 32usize]
        &&& label_array_rep(r->Ok_0.1, dt->Ok_0.1, cfg.num_records_train, cfg.encode_one_hot)
        &&& image_array_elems(r->Ok_0.2) == ds->Ok_0.0
        &&& image_array_dim(r->Ok_0.2) == seq![cfg.num_records_test, 3usize, 32usize, 32usize]
        &&& label_array_rep(r->Ok_0.3, ds->Ok_0.1, cfg.num_records_test, cfg.encode_one_hot)
    }
}

impl<'a> Cifar10<'a> {
    /// The published layout of the ten-class family: five train shards,
    /// one test shard, 50000/10000 records, one-hot labels.
    pub fn default() -> (r: Self)
        ensures
            r.base_path@ == "data/cifar-10-batches-bin/"@,
            r.show_images == false,
            r.encode_one_hot == true,
            r.training_bin_paths@.len() == 5,
            r.training_bin_paths@[0]@ == "data_batch_1.bin"@,
            r.training_bin_paths@[1]@ == "data_batch_2.bin"@,
            r.training_bin_paths@[2]@ == "data_batch_3.bin"@,
            r.training_bin_paths@[3]@ == "data_batch_4.bin"@,
            r.training_bin_paths@[4]@ == "data_batch_5.bin"@,
            r.testing_bin_paths@.len() == 1,
            r.testing_bin_paths@[0]@ == "test_batch.bin"@,
            r.num_records_train == 50000,
            r.num_records_test == 10000,
    {
        let mut training_bin_paths: Vec<&'a str> = Vec::new();
        training_bin_paths.push("data_batch_1.bin");
        training_bin_paths.push("data_batch_2.bin");
        training_bin_paths.push("data_batch_3.bin");
        training_bin_paths.push("data_batch_4.bin");
        training_bin_paths.push("data_batch_5.bin");
        let mut testing_bin_paths: Vec<&'a str> = Vec::new();
        testing_bin_paths.push("test_batch.bin");
        Cifar10 {
            base_path: "data/cifar-10-batches-bin/",
            show_images: false,
            encode_one_hot: true,
            training_bin_paths,
            testing_bin_paths,
            num_records_train: 50000,
            num_records_test: 10000,
        }
    }

    /// Replace the shard directory.
    pub fn base_path(self, base_path: &'a str) -> (r: Self)
        ensures
            r.base_path == base_path,
            r.show_images == self.show_images,
            r.encode_one_hot == self.encode_one_hot,
            r.training_bin_paths == self.training_bin_paths,
            r.testing_bin_paths == self.testing_bin_paths,
            r.num_records_train == self.num_records_train,
            r.num_records_test == self.num_records_test,
    {
        Cifar10 { base_path, ..self }
    }

    /// Select the label encoding.
    pub fn encode_one_hot(self, encode_one_hot: bool) -> (r: Self)
        ensures
            r.encode_one_hot == encode_one_hot,
            r.base_path == self.base_path,
            r.show_images == self.show_images,
            r.training_bin_paths == self.training_bin_paths,
            r.testing_bin_paths == self.testing_bin_paths,
            r.num_records_train == self.num_records_train,
            r.num_records_test == self.num_records_test,
    {
        Cifar10 { encode_one_hot, ..self }
    }

    /// Replace the train shard file names.
    pub fn training_bin_paths(self, training_bin_paths: Vec<&'a str>) -> (r: Self)
        ensures
            r.training_bin_paths == training_bin_paths,
            r.base_path == self.base_path,
            r.show_images == self.show_images,
            r.encode_one_hot == self.encode_one_hot,
            r.testing_bin_paths == self.testing_bin_paths,
            r.num_records_train == self.num_records_train,
            r.num_records_test == self.num_records_test,
    {
        Cifar10 { training_bin_paths, ..self }
    }

    /// Replace the test shard file names.
    pub fn testing_bin_paths(self, testing_bin_paths: Vec<&'a str>) -> (r: Self)
        ensures
            r.testing_bin_paths == testing_bin_paths,
            r.base_path == self.base_path,
            r.show_images == self.show_images,
            r.encode_one_hot == self.encode_one_hot,
            r.training_bin_paths == self.training_bin_paths,
            r.num_records_train == self.num_records_train,
            r.num_records_test == self.num_records_test,
    {
        Cifar10 { testing_bin_paths, ..self }
    }

    /// Replace the expected train record count.
    pub fn num_records_train(self, num_records_train: usize) -> (r: Self)
        ensures
            r.num_records_train == num_records_train,
            r.base_path == self.base_path,
            r.show_images == self.show_images,
            r.encode_one_hot == self.encode_one_hot,
            r.training_bin_paths == self.training_bin_paths,
            r.testing_bin_paths == self.testing_bin_paths,
            r.num_records_test == self.num_records_test,
    {
        Cifar10 { num_records_train, ..self }
    }

    /// Replace the expected test record count.
    pub fn num_records_test(self, num_records_test: usize) -> (r: Self)
        ensures
            r.num_records_test == num_records_test,
            r.base_path == self.base_path,
            r.show_images == self.show_images,
            r.encode_one_hot == self.encode_one_hot,
            r.training_bin_paths == self.training_bin_paths,
            r.testing_bin_paths == self.testing_bin_paths,
            r.num_records_train == self.num_records_train,
    {
        Cifar10 { num_records_test, ..self }
    }

    /// Decode the configured record counts from the given shard contents
    /// — handed in in the same order as the configured shard names, train
    /// then test — into `(train images, train labels, test images, test
    /// labels)` arrays.
    pub fn build(self, train_shards: &Vec<Vec<u8>>, test_shards: &Vec<Vec<u8>>) -> (r: Result<
        (ImageArray, LabelArray, ImageArray, LabelArray),
        Error,
    >)
        requires
            concat_of(train_shards@.map_values(|v: Vec<u8>| v@)).len() <= usize::MAX,
            concat_of(test_shards@.map_values(|v: Vec<u8>| v@)).len() <= usize::MAX,
            self.num_records_train * 3072 <= isize::MAX,
            self.num_records_test * 3072 <= isize::MAX,
        ensures
            build_post(
                self,
                concat_of(train_shards@.map_values(|v: Vec<u8>| v@)),
                concat_of(test_shards@.map_values(|v: Vec<u8>| v@)),
                r,
            ),
    {
        let trn_buffer = concat(train_shards);
        let tst_buffer = concat(test_shards);
        let (trn_t, trn_raw) = match decode(&trn_buffer, self.num_records_train, 3, 32, 32) {
            Ok(p) => p,
            Err(e) => {
                return Err(Error::Format(e));
            },
        };
        let (tst_t, tst_raw) = match decode(&tst_buffer, self.num_records_test, 3, 32, 32) {
            Ok(p) => p,
            Err(e) => {
                return Err(Error::Format(e));
            },
        };
        proof {
            lemma_flat_labels_in_range(trn_buffer@, self.num_records_train as int, 3072);
            lemma_flat_labels_in_range(tst_buffer@, self.num_records_test as int, 3072);
            assert(trn_raw@.len() * 10 <= usize::MAX);
            assert(tst_raw@.len() * 10 <= usize::MAX);
        }
        let trn_lbl_arr: LabelArray;
        let tst_lbl_arr: LabelArray;
        if self.encode_one_hot {
            let m_t = match one_hot(&trn_raw, CLASSES) {
                Ok(m) => m,
                Err(e) => {
                    return Err(Error::Format(e));
                },
            };
            let m_s = match one_hot(&tst_raw, CLASSES) {
                Ok(m) => m,
                Err(e) => {
                    return Err(Error::Format(e));
                },
            };
            trn_lbl_arr = to_array2(self.num_records_train, CLASSES, m_t.data);
            tst_lbl_arr = to_array2(self.num_records_test, CLASSES, m_s.data);
        } else {
            trn_lbl_arr = to_array2(self.num_records_train, 1, trn_raw);
            tst_lbl_arr = to_array2(self.num_records_test, 1, tst_raw);
        }
        let trn_img_arr = to_array4(self.num_records_train, 3, 32, 32, trn_t.data);
        let tst_img_arr = to_array4(self.num_records_test, 3, 32, 32, tst_t.data);
        Ok((trn_img_arr, trn_lbl_arr, tst_img_arr, tst_lbl_arr))
    }
}

} // verus!
