//! Assembly of the flat-record small-image classification datasets: the
//! concatenated shard bytes decode as fixed records of one label byte and
//! a 3×32×32 pixel payload, and the labels come back one-hot encoded.

use crate::error::Error;
use crate::flat::decode;
use crate::flat::lemma_flat_labels_in_range;
use crate::flat::spec_flat_decode;
use crate::label::CLASSES;
use crate::label::LabelMatrix;
use crate::label::one_hot;
use crate::label::one_hot_seq;
use crate::tensor::ImageTensor;
use vstd::prelude::*;

verus! {

/// Channels per record of the small-image formats.
pub const CHANNELS: usize = 3;

/// Rows per channel of the small-image formats.
pub const ROWS: usize = 32;

/// Columns per row of the small-image formats.
pub const COLS: usize = 32;

/// Records in the train shards of the small-image families.
pub const NUM_RECORDS_TRAIN: usize = 50000;

/// Records in the test shard of the small-image families.
pub const NUM_RECORDS_TEST: usize = 10000;

/// Pixel payload bytes of one record.
pub open spec fn record_pixels() -> int {
    CHANNELS * ROWS * COLS
}

/// The complete contract of the record decoder: the expected outcome of
/// decoding `num_records` flat records, the labels one-hot encoded.
pub open spec fn buffer2data_post(
    buffer: Seq<u8>,
    num_records: int,
    r: Result<(ImageTensor, LabelMatrix), Error>,
) -> bool {
    let d = spec_flat_decode(buffer, num_records, record_pixels());
    if d is Err {
        r == Err::<(ImageTensor, LabelMatrix), Error>(Error::Format(d->Err_0))
    } else {
        &&& r is Ok
        &&& r->Ok_0.0.data@ == d->Ok_0.0
        &&& r->Ok_0.0.count == num_records
        &&& r->Ok_0.0.channels == CHANNELS
        &&& r->Ok_0.0.rows == ROWS
        &&& r->Ok_0.0.cols == COLS
        &&& r->Ok_0.0.wf()
        &&& r->Ok_0.1.data@ == one_hot_seq(d->Ok_0.1, CLASSES as int)
        &&& r->Ok_0.1.count == num_records
        &&& r->Ok_0.1.classes == CLASSES
        &&& r->Ok_0.1.wf()
    }
}

/// Decode `num_records` flat records from `buffer` into a
/// `[num_records, 3, 32, 32]` tensor and a one-hot label matrix.
///
/// A label byte at or above the class count fails the whole decode with
/// `FormatError::InvalidLabel` — it signals file corruption, never a new
/// class — and a buffer shorter than `num_records` whole records fails
/// with `FormatError::TruncatedData`.
pub fn buffer2data(buffer: &Vec<u8>, num_records: usize) -> (r: Result<
    (ImageTensor, LabelMatrix),
    Error,
>)
    ensures
        buffer2data_post(buffer@, num_records as int, r),
{
    let blen = buffer.len();
    let (tensor, lbls) = match decode(buffer, num_records, CHANNELS, ROWS, COLS) {
        Ok(p) => p,
        Err(e) => {
            return Err(Error::Format(e));
        },
    };
    proof {
        assert(record_pixels() == 3072);
        lemma_flat_labels_in_range(buffer@, num_records as int, record_pixels());
        assert(num_records * 3073 <= blen);
        assert(lbls@.len() * 10 <= usize::MAX);
    }
    let m = match one_hot(&lbls, CLASSES) {
        Ok(m) => m,
        Err(e) => {
            return Err(Error::Format(e));
        },
    };
    Ok((tensor, m))
}

/// The byte-domain form of a decoded small-image dataset: train and test
/// tensors with their one-hot label matrices. When `normalized` is set,
/// each stored pixel byte `b` stands for the rescaled intensity `b / 256`
/// in the half-open unit interval; the bytes themselves are kept exact.
#[derive(Debug)]
pub struct CifarData {
    /// Train images, `[50000, 3, 32, 32]`.
    pub trn_img: ImageTensor,
    /// Train labels, one-hot `[50000, 10]`.
    pub trn_lbl: LabelMatrix,
    /// Test images, `[10000, 3, 32, 32]`.
    pub tst_img: ImageTensor,
    /// Test labels, one-hot `[10000, 10]`.
    pub tst_lbl: LabelMatrix,
    /// Whether pixel bytes are to be read rescaled by 1/256.
    pub normalized: bool,
}

/// The complete contract of the small-image assembler.
pub open spec fn dataset_post(
    trn: Seq<u8>,
    tst: Seq<u8>,
    normalized: bool,
    r: Result<CifarData, Error>,
) -> bool {
    let dt = spec_flat_decode(trn, NUM_RECORDS_TRAIN as int, record_pixels());
    let ds = spec_flat_decode(tst, NUM_RECORDS_TEST as int, record_pixels());
    if dt is Err {
        r == Err::<CifarData, Error>(Error::Format(dt->Err_0))
    } else if ds is Err {
        r == Err::<CifarData, Error>(Error::Format(ds->Err_0))
    } else {
        &&& r is Ok
        &&& r->Ok_0.trn_img.data@ == dt->Ok_0.0
        &&& r->Ok_0.trn_lbl.data@ == one_hot_seq(dt->Ok_0.1, CLASSES as int)
        &&& r->Ok_0.tst_img.data@ == ds->Ok_0.0
        &&& r->Ok_0.tst_lbl.data@ == one_hot_seq(ds->Ok_0.1, CLASSES as int)
        &&& r->Ok_0.trn_img.count == NUM_RECORDS_TRAIN
        &&& r->Ok_0.tst_img.count == NUM_RECORDS_TEST
        &&& r->Ok_0.trn_img.channels == CHANNELS
        &&& r->Ok_0.trn_img.rows == ROWS
        &&& r->Ok_0.trn_img.cols == COLS
        &&& r->Ok_0.trn_img.wf()
        &&& r->Ok_0.tst_img.channels == CHANNELS
        &&& r->Ok_0.tst_img.rows == ROWS
        &&& r->Ok_0.tst_img.cols == COLS
        &&& r->Ok_0.tst_img.wf()
        &&& r->Ok_0.trn_lbl.count == NUM_RECORDS_TRAIN
        &&& r->Ok_0.trn_lbl.classes == CLASSES
        &&& r->Ok_0.trn_lbl.wf()
        &&& r->Ok_0.tst_lbl.count == NUM_RECORDS_TEST
        &&& r->Ok_0.tst_lbl.classes == CLASSES
        &&& r->Ok_0.tst_lbl.wf()
        &&& r->Ok_0.normalized == normalized
    }
}

/// Assemble a small-image dataset from its concatenated train shards and
/// its test shard: 50000 train and 10000 test records of 3×32×32 pixels,
/// labels one-hot. The train failure, if any, is reported before the
/// test failure.
pub fn get_dataset(trn_buffer: &Vec<u8>, tst_buffer: &Vec<u8>, normalized: bool) -> (r: Result<
    CifarData,
    Error,
>)
    ensures
        dataset_post(trn_buffer@, tst_buffer@, normalized, r),
{
    let (trn_img, trn_lbl) = match buffer2data(trn_buffer, NUM_RECORDS_TRAIN) {
        Ok(p) => p,
        Err(e) => {
            return Err(e);
        },
    };
    let (tst_img, tst_lbl) = match buffer2data(tst_buffer, NUM_RECORDS_TEST) {
        Ok(p) => p,
        Err(e) => {
            return Err(e);
        },
    };
    Ok(CifarData { trn_img, trn_lbl, tst_img, tst_lbl, normalized })
}

} // verus!
