//! Assembly of the IDX-based digit and fashion image datasets: decode the
//! four source files, concatenate train and test, re-split into the
//! configured train/validation/test partitions, and encode the labels.

use crate::download::DownloadPlan;
use crate::download::mnist_plan;
use crate::error::ConfigError;
use crate::error::Error;
use crate::error::FormatError;
use crate::header::spec_validate;
use crate::idx::COLS;
use crate::idx::LBL_MAGIC_NUMBER;
use crate::idx::ROWS;
use crate::idx::lemma_invalid_label_rejected;
use crate::idx::decode_images;
use crate::idx::decode_labels;
use crate::idx::lemma_decoded_labels_in_range;
use crate::idx::spec_decode_images;
use crate::idx::spec_decode_labels;
use crate::label::CLASSES;
use crate::label::Labels;
use crate::label::labels_encode;
use crate::label::one_hot;
use crate::split::split;
use crate::tensor::ImageTensor;
use vstd::prelude::*;

verus! {

/// Records in the train shard of the digit and fashion families.
pub const TRN_LEN: u32 = 60000;

/// Records in the test shard of the digit and fashion families.
pub const TST_LEN: u32 = 10000;

/// Bytes of one image record: the fixed 28×28 geometry.
pub open spec fn img_record_size() -> int {
    ROWS * COLS
}

/// Per-call configuration of the digit-style assembler: the record counts
/// the source headers must declare, the partition sizes carved from their
/// concatenation, and the label encoding.
#[derive(Debug)]
pub struct MnistConfig {
    /// Record count the train files' headers must declare.
    pub trn_len: u32,
    /// Record count the test files' headers must declare.
    pub tst_len: u32,
    /// Records in the train partition.
    pub train_len: usize,
    /// Records in the validation partition; zero yields an empty
    /// partition, never an absent one.
    pub val_len: usize,
    /// Records in the test partition.
    pub test_len: usize,
    /// Encode labels one-hot; otherwise keep raw class ids.
    pub one_hot: bool,
}

/// The assembled dataset: image tensor and labels for each of the train,
/// validation and test partitions. Immutable once returned.
#[derive(Debug)]
pub struct Bundle {
    /// Train images.
    pub trn_img: ImageTensor,
    /// Train labels.
    pub trn_lbl: Labels,
    /// Validation images.
    pub val_img: ImageTensor,
    /// Validation labels.
    pub val_lbl: Labels,
    /// Test images.
    pub tst_img: ImageTensor,
    /// Test labels.
    pub tst_lbl: Labels,
}

/// `t` is the `[n, 28, 28]` tensor holding records `lo .. lo + n` of the
/// concatenated pixel stream.
pub open spec fn tensor_slice(t: ImageTensor, pix: Seq<u8>, lo: int, n: int) -> bool {
    &&& t.count == n
    &&& t.channels == 1
    &&& t.rows == ROWS
    &&& t.cols == COLS
    &&& t.wf()
    &&& t.data@ == pix.subrange(lo * img_record_size(), (lo + n) * img_record_size())
}

/// The partitions of `b` carve `pix` and `lab` — the concatenated decoded
/// train+test pixels and labels — into consecutive slices of the
/// configured sizes, labels encoded as configured.
pub open spec fn bundle_parts(b: Bundle, pix: Seq<u8>, lab: Seq<u8>, cfg: MnistConfig) -> bool {
    let t = cfg.train_len as int;
    let v = cfg.val_len as int;
    let s = cfg.test_len as int;
    &&& tensor_slice(b.trn_img, pix, 0, t)
    &&& tensor_slice(b.val_img, pix, t, v)
    &&& tensor_slice(b.tst_img, pix, t + v, s)
    &&& labels_encode(b.trn_lbl, lab.subrange(0, t), cfg.one_hot)
    &&& labels_encode(b.val_lbl, lab.subrange(t, t + v), cfg.one_hot)
    &&& labels_encode(b.tst_lbl, lab.subrange(t + v, t + v + s), cfg.one_hot)
}

/// The complete contract of the digit-style assembler: either the first
/// structural failure of the four sources in decode order, or the
/// partition-size failure, or the fully pinned-down bundle.
pub open spec fn assemble_post(
    cfg: MnistConfig,
    ti: Seq<u8>,
    tl: Seq<u8>,
    si: Seq<u8>,
    sl: Seq<u8>,
    r: Result<Bundle, Error>,
) -> bool {
    if spec_decode_images(ti, cfg.trn_len) is Err {
        r == Err::<Bundle, Error>(Error::Format(spec_decode_images(ti, cfg.trn_len)->Err_0))
    } else if spec_decode_labels(tl, cfg.trn_len) is Err {
        r == Err::<Bundle, Error>(Error::Format(spec_decode_labels(tl, cfg.trn_len)->Err_0))
    } else if spec_decode_images(si, cfg.tst_len) is Err {
        r == Err::<Bundle, Error>(Error::Format(spec_decode_images(si, cfg.tst_len)->Err_0))
    } else if spec_decode_labels(sl, cfg.tst_len) is Err {
        r == Err::<Bundle, Error>(Error::Format(spec_decode_labels(sl, cfg.tst_len)->Err_0))
    } else {
        let pix = spec_decode_images(ti, cfg.trn_len)->Ok_0 + spec_decode_images(
            si,
            cfg.tst_len,
        )->Ok_0;
        let lab = spec_decode_labels(tl, cfg.trn_len)->Ok_0 + spec_decode_labels(
            sl,
            cfg.tst_len,
        )->Ok_0;
        let total = cfg.train_len + cfg.val_len + cfg.test_len;
        if total * img_record_size() > pix.len() {
            r == Err::<Bundle, Error>(Error::Config(ConfigError::LengthExceedsAvailable))
        } else {
            &&& r is Ok
            &&& bundle_parts(r->Ok_0, pix, lab, cfg)
        }
    }
}

/// Law: when the train-label source carries a well-formed header and
/// enough bytes but holds any label at or above the class count, and the
/// train images decode, the whole assembly fails with
/// `FormatError::InvalidLabel` — no bundle is ever produced from an
/// out-of-range label.
pub proof fn lemma_assemble_rejects_invalid_label(
    cfg: MnistConfig,
    ti: Seq<u8>,
    tl: Seq<u8>,
    si: Seq<u8>,
    sl: Seq<u8>,
    r: Result<Bundle, Error>,
)
    requires
        assemble_post(cfg, ti, tl, si, sl, r),
        spec_decode_images(ti, cfg.trn_len) is Ok,
        spec_validate(tl, LBL_MAGIC_NUMBER, cfg.trn_len, None) is Ok,
        tl.len() - 8 >= cfg.trn_len,
        exists|i: int| 8 <= i < 8 + cfg.trn_len && tl[i] >= CLASSES,
    ensures
        r == Err::<Bundle, Error>(Error::Format(FormatError::InvalidLabel)),
{
    lemma_invalid_label_rejected(tl, cfg.trn_len);
}

/// The fixed configuration of the digit and fashion families: 60000 train
/// and 10000 test records, no validation carve-out, one-hot labels.
pub open spec fn default_mnist_config() -> MnistConfig {
    MnistConfig {
        trn_len: TRN_LEN,
        tst_len: TST_LEN,
        train_len: 60000,
        val_len: 0,
        test_len: 10000,
        one_hot: true,
    }
}

/// Decoder-and-assembler for the digit-style IDX datasets. Stateless; the
/// byte sequences of the four source files are handed in per call.
#[derive(Debug)]
pub struct Helper {}

impl Helper {
    /// Decode an IDX label file. See `idx::decode_labels`.
    pub fn labels(bytes: &Vec<u8>, expected_length: u32) -> (r: Result<
        Vec<u8>,
        crate::error::FormatError,
    >)
        ensures
            (match r {
                Ok(v) => spec_decode_labels(bytes@, expected_length) == Ok::<
                    Seq<u8>,
                    crate::error::FormatError,
                >(v@),
                Err(e) => spec_decode_labels(bytes@, expected_length) == Err::<
                    Seq<u8>,
                    crate::error::FormatError,
                >(e),
            }),
    {
        decode_labels(bytes, expected_length)
    }

    /// Decode an IDX image file into its raw pixel bytes. See
    /// `idx::decode_images`.
    pub fn images(bytes: &Vec<u8>, expected_length: u32) -> (r: Result<
        Vec<u8>,
        crate::error::FormatError,
    >)
        ensures
            (match r {
                Ok(v) => spec_decode_images(bytes@, expected_length) == Ok::<
                    Seq<u8>,
                    crate::error::FormatError,
                >(v@),
                Err(e) => spec_decode_images(bytes@, expected_length) == Err::<
                    Seq<u8>,
                    crate::error::FormatError,
                >(e),
            }),
    {
        match decode_images(bytes, expected_length) {
            Ok(t) => Ok(t.data),
            Err(e) => Err(e),
        }
    }

    /// Assemble a digit-style dataset from the bytes of its four source
    /// files under the fixed family configuration: 60000 train records,
    /// 10000 test records, an empty validation partition and one-hot
    /// labels.
    pub fn new(
        trn_img_bytes: &Vec<u8>,
        trn_lbl_bytes: &Vec<u8>,
        tst_img_bytes: &Vec<u8>,
        tst_lbl_bytes: &Vec<u8>,
    ) -> (r: Result<Bundle, Error>)
        ensures
            assemble_post(
                default_mnist_config(),
                trn_img_bytes@,
                trn_lbl_bytes@,
                tst_img_bytes@,
                tst_lbl_bytes@,
                r,
            ),
    {
        let cfg = MnistConfig {
            trn_len: TRN_LEN,
            tst_len: TST_LEN,
            train_len: 60000,
            val_len: 0,
            test_len: 10000,
            one_hot: true,
        };
        assemble(&cfg, trn_img_bytes, trn_lbl_bytes, tst_img_bytes, tst_lbl_bytes)
    }
}

/// Assemble a digit-style dataset: decode the four IDX sources, validate
/// their headers against the configured counts and the fixed 28×28
/// geometry, concatenate train and test, carve the configured partitions
/// in order, and encode the labels.
pub fn assemble(
    cfg: &MnistConfig,
    trn_img_bytes: &Vec<u8>,
    trn_lbl_bytes: &Vec<u8>,
    tst_img_bytes: &Vec<u8>,
    tst_lbl_bytes: &Vec<u8>,
) -> (r: Result<Bundle, Error>)
    requires
        cfg.train_len + cfg.val_len + cfg.test_len <= usize::MAX,
        (cfg.train_len + cfg.val_len + cfg.test_len) * (ROWS * COLS) <= usize::MAX,
    ensures
        assemble_post(*cfg, trn_img_bytes@, trn_lbl_bytes@, tst_img_bytes@, tst_lbl_bytes@, r),
{
    let trn_t = match decode_images(trn_img_bytes, cfg.trn_len) {
        Ok(t) => t,
        Err(e) => {
            return Err(Error::Format(e));
        },
    };
    let trn_l = match decode_labels(trn_lbl_bytes, cfg.trn_len) {
        Ok(v) => v,
        Err(e) => {
            return Err(Error::Format(e));
        },
    };
    let tst_t = match decode_images(tst_img_bytes, cfg.tst_len) {
        Ok(t) => t,
        Err(e) => {
            return Err(Error::Format(e));
        },
    };
    let tst_l = match decode_labels(tst_lbl_bytes, cfg.tst_len) {
        Ok(v) => v,
        Err(e) => {
            return Err(Error::Format(e));
        },
    };
    let ghost pix = trn_t.data@ + tst_t.data@;
    let ghost lab = trn_l@ + tst_l@;
    proof {
        lemma_decoded_labels_in_range(trn_lbl_bytes@, cfg.trn_len);
        lemma_decoded_labels_in_range(tst_lbl_bytes@, cfg.tst_len);
        assert forall|i: int| 0 <= i < lab.len() implies lab[i] < CLASSES by {
            if i < trn_l@.len() {
                assert(lab[i] == trn_l@[i]);
            } else {
                assert(lab[i] == tst_l@[i - trn_l@.len()]);
            }
        }
    }
    proof {
        assert(trn_t.data@.len() == cfg.trn_len * 784);
        assert(tst_t.data@.len() == cfg.tst_len * 784);
        assert(lab.len() == cfg.trn_len + cfg.tst_len);
    }
    let record_size = ROWS * COLS;
    let (pi_t, pi_v, pi_s) = match split(
        &trn_t.data,
        &tst_t.data,
        cfg.train_len,
        cfg.val_len,
        cfg.test_len,
        record_size,
    ) {
        Ok(parts) => parts,
        Err(e) => {
            return Err(Error::Config(e));
        },
    };
    let (la_t, la_v, la_s) = match split(
        &trn_l,
        &tst_l,
        cfg.train_len,
        cfg.val_len,
        cfg.test_len,
        1,
    ) {
        Ok(parts) => parts,
        Err(e) => {
            return Err(Error::Config(e));
        },
    };
    let ghost t = cfg.train_len as int;
    let ghost v = cfg.val_len as int;
    let ghost s = cfg.test_len as int;
    proof {
        assert(la_t@ == lab.subrange(0, t) && la_v@ == lab.subrange(t, t + v) && la_s@
            == lab.subrange(t + v, t + v + s));
        assert((cfg.train_len + cfg.val_len + cfg.test_len) * (ROWS * COLS) <= usize::MAX);
        assert((cfg.train_len + cfg.val_len + cfg.test_len) * 784 <= usize::MAX);
        assert(la_t@.len() * 10 <= usize::MAX);
        assert(la_v@.len() * 10 <= usize::MAX);
        assert(la_s@.len() * 10 <= usize::MAX);
        assert forall|i: int| 0 <= i < la_t@.len() implies la_t@[i] < CLASSES by {
            assert(la_t@[i] == lab[i]);
        }
        assert forall|i: int| 0 <= i < la_v@.len() implies la_v@[i] < CLASSES by {
            assert(la_v@[i] == lab[t + i]);
        }
        assert forall|i: int| 0 <= i < la_s@.len() implies la_s@[i] < CLASSES by {
            assert(la_s@[i] == lab[t + v + i]);
        }
    }
    let trn_lbl: Labels;
    let val_lbl: Labels;
    let tst_lbl: Labels;
    if cfg.one_hot {
        let m_t = match one_hot(&la_t, CLASSES) {
            Ok(m) => m,
            Err(e) => {
                return Err(Error::Format(e));
            },
        };
        let m_v = match one_hot(&la_v, CLASSES) {
            Ok(m) => m,
            Err(e) => {
                return Err(Error::Format(e));
            },
        };
        let m_s = match one_hot(&la_s, CLASSES) {
            Ok(m) => m,
            Err(e) => {
                return Err(Error::Format(e));
            },
        };
        trn_lbl = Labels::OneHot(m_t);
        val_lbl = Labels::OneHot(m_v);
        tst_lbl = Labels::OneHot(m_s);
    } else {
        trn_lbl = Labels::Raw(la_t);
        val_lbl = Labels::Raw(la_v);
        tst_lbl = Labels::Raw(la_s);
    }
    let trn_img = ImageTensor {
        data: pi_t,
        count: cfg.train_len,
        channels: 1,
        rows: ROWS,
        cols: COLS,
    };
    let val_img = ImageTensor { data: pi_v, count: cfg.val_len, channels: 1, rows: ROWS, cols: COLS };
    let tst_img = ImageTensor {
        data: pi_s,
        count: cfg.test_len,
        channels: 1,
        rows: ROWS,
        cols: COLS,
    };
    let b = Bundle { trn_img, trn_lbl, val_img, val_lbl, tst_img, tst_lbl };
    proof {
        assert(pi_s@.len() == s * 784);
        assert(b.trn_img.data@.len() == cfg.train_len * 1 * 28 * 28);
        assert(b.val_img.data@.len() == cfg.val_len * 1 * 28 * 28);
        assert(b.tst_img.data@.len() == cfg.test_len * 1 * 28 * 28);
        assert(tensor_slice(b.trn_img, pix, 0, t));
        assert(tensor_slice(b.val_img, pix, t, v));
        assert(tensor_slice(b.tst_img, pix, t + v, s));
        assert(labels_encode(b.trn_lbl, lab.subrange(0, t), cfg.one_hot));
        assert(labels_encode(b.val_lbl, lab.subrange(t, t + v), cfg.one_hot));
        assert(labels_encode(b.tst_lbl, lab.subrange(t + v, t + v + s), cfg.one_hot));
    }
    Ok(b)
}

/// The digit-image dataset family, under its fixed on-disk layout.
#[derive(Debug)]
pub struct Mnist {}

impl Mnist {
    /// The acquisition plan for the digit family's four archives.
    pub fn download_and_extract() -> (r: DownloadPlan)
        ensures
            r.dest_dir@ == "data/mnist"@,
            r.archives@.len() == 4,
            forall|i: int|
                0 <= i < 4 ==> (#[trigger] r.archives@[i]).base_url@
                    == "http://yann.lecun.com/exdb/mnist"@,
            r.archives@[0].archive@ == "train-images-idx3-ubyte.gz"@,
            r.archives@[1].archive@ == "train-labels-idx1-ubyte.gz"@,
            r.archives@[2].archive@ == "t10k-images-idx3-ubyte.gz"@,
            r.archives@[3].archive@ == "t10k-labels-idx1-ubyte.gz"@,
    {
        mnist_plan(false)
    }
}

/// The fashion-image dataset family, under its fixed on-disk layout.
#[derive(Debug)]
pub struct MnistFashion {}

impl MnistFashion {
    /// The acquisition plan for the fashion family's four archives.
    pub fn download_and_extract() -> (r: DownloadPlan)
        ensures
            r.dest_dir@ == "data/mnist_fashion"@,
            r.archives@.len() == 4,
            forall|i: int|
                0 <= i < 4 ==> (#[trigger] r.archives@[i]).base_url@
                    == "http://fashion-mnist.s3-website.eu-central-1.amazonaws.com"@,
            r.archives@[0].archive@ == "train-images-idx3-ubyte.gz"@,
            r.archives@[1].archive@ == "train-labels-idx1-ubyte.gz"@,
            r.archives@[2].archive@ == "t10k-images-idx3-ubyte.gz"@,
            r.archives@[3].archive@ == "t10k-labels-idx1-ubyte.gz"@,
    {
        mnist_plan(true)
    }
}

} // verus!
