//! One-hot label encoding: integer class labels become rows with a single 1
//! at the label's index. The class-range check here is the same invariant
//! the decoders enforce; both paths must reject any label at or above the
//! class count.

use crate::error::FormatError;
use vstd::prelude::*;

verus! {

/// Number of classes shared by all the dataset families handled here.
pub const CLASSES: usize = 10;

/// A `[count, classes]` matrix of one-hot rows, stored row-major.
#[derive(Debug)]
pub struct LabelMatrix {
    /// Flattened rows; row `i` occupies `data[i * classes .. (i+1) * classes]`.
    pub data: Vec<u8>,
    /// Number of rows (records).
    pub count: usize,
    /// Row width: the number of classes.
    pub classes: usize,
}

impl LabelMatrix {
    /// The data buffer holds exactly one byte per declared cell.
    pub open spec fn wf(&self) -> bool {
        self.data@.len() == self.count * self.classes
    }
}

/// Decoded labels in either caller-selectable form: raw class ids, or
/// one-hot rows.
#[derive(Debug)]
pub enum Labels {
    /// One class id per record, each below the class count.
    Raw(Vec<u8>),
    /// One one-hot row per record.
    OneHot(LabelMatrix),
}

/// `l` encodes the raw label vector `raw` in the selected form: the raw
/// bytes themselves, or their one-hot matrix.
pub open spec fn labels_encode(l: Labels, raw: Seq<u8>, enc_one_hot: bool) -> bool {
    match l {
        Labels::Raw(v) => !enc_one_hot && v@ == raw,
        Labels::OneHot(m) => {
            &&& enc_one_hot
            &&& m.count == raw.len()
            &&& m.classes == CLASSES
            &&& m.data@ == one_hot_seq(raw, CLASSES as int)
            &&& m.wf()
        },
    }
}

/// The one-hot row for `label`: 1 at index `label`, 0 elsewhere.
pub open spec fn one_hot_row(label: u8, classes: int) -> Seq<u8>
    recommends
        classes >= 0,
{
    Seq::new(classes as nat, |j: int| if j == label { 1u8 } else { 0u8 })
}

/// The row-major one-hot matrix for a label vector.
pub open spec fn one_hot_seq(labels: Seq<u8>, classes: int) -> Seq<u8>
    decreases labels.len(),
{
    if labels.len() == 0 {
        Seq::empty()
    } else {
        one_hot_seq(labels.drop_last(), classes) + one_hot_row(labels.last(), classes)
    }
}

/// The one-hot matrix has one row of `classes` bytes per label.
pub proof fn lemma_one_hot_seq_len(labels: Seq<u8>, classes: int)
    requires
        classes >= 0,
    ensures
        one_hot_seq(labels, classes).len() == labels.len() * classes,
    decreases labels.len(),
{
    if labels.len() > 0 {
        lemma_one_hot_seq_len(labels.drop_last(), classes);
        assert((labels.len() - 1) * classes + classes == labels.len() * classes)
            by (nonlinear_arith);
    }
}

/// Cell `[i, j]` of the one-hot matrix is 1 exactly when `j` is label `i`.
pub proof fn lemma_one_hot_seq_index(labels: Seq<u8>, classes: int, i: int, j: int)
    requires
        classes > 0,
        0 <= i < labels.len(),
        0 <= j < classes,
    ensures
        one_hot_seq(labels, classes)[i * classes + j] == (if labels[i] == j {
            1u8
        } else {
            0u8
        }),
    decreases labels.len(),
{
    lemma_one_hot_seq_len(labels.drop_last(), classes);
    if i == labels.len() - 1 {
        assert(i * classes + j - (labels.len() - 1) * classes == j);
    } else {
        vstd::arithmetic::mul::lemma_mul_inequality(i + 1, labels.len() - 1, classes);
        assert(i * classes + classes == (i + 1) * classes) by (nonlinear_arith);
        lemma_one_hot_seq_index(labels.drop_last(), classes, i, j);
    }
}

/// Sum of a byte sequence, as an unbounded integer.
pub open spec fn seq_sum(s: Seq<u8>) -> int
    decreases s.len(),
{
    if s.len() == 0 {
        0
    } else {
        seq_sum(s.drop_last()) + s.last()
    }
}

/// Sum of the first `k` entries of a one-hot row: 1 once `k` passes the
/// label's index, 0 before.
proof fn lemma_one_hot_row_partial_sum(label: u8, classes: int, k: int)
    requires
        0 <= k <= classes,
        label < classes,
    ensures
        seq_sum(one_hot_row(label, classes).subrange(0, k)) == if label < k {
            1int
        } else {
            0int
        },
    decreases k,
{
    let row = one_hot_row(label, classes);
    if k == 0 {
        assert(row.subrange(0, 0) =~= Seq::<u8>::empty());
    } else {
        lemma_one_hot_row_partial_sum(label, classes, k - 1);
        assert(row.subrange(0, k).drop_last() =~= row.subrange(0, k - 1));
        assert(row.subrange(0, k).last() == row[k - 1]);
    }
}

/// A one-hot row for an in-range label sums to exactly 1.
pub proof fn lemma_one_hot_row_sum(label: u8, classes: int)
    requires
        label < classes,
    ensures
        seq_sum(one_hot_row(label, classes)) == 1,
{
    lemma_one_hot_row_partial_sum(label, classes, classes);
    assert(one_hot_row(label, classes).subrange(0, classes) =~= one_hot_row(label, classes));
}

/// Row `i` of the one-hot matrix is the one-hot row of label `i`.
pub proof fn lemma_one_hot_seq_row(labels: Seq<u8>, classes: int, i: int)
    requires
        classes > 0,
        0 <= i < labels.len(),
    ensures
        one_hot_seq(labels, classes).subrange(i * classes, (i + 1) * classes) == one_hot_row(
            labels[i],
            classes,
        ),
{
    lemma_one_hot_seq_len(labels, classes);
    vstd::arithmetic::mul::lemma_mul_inequality(i + 1, labels.len() as int, classes);
    assert(i * classes + classes == (i + 1) * classes) by (nonlinear_arith);
    vstd::arithmetic::mul::lemma_mul_nonnegative(i, classes);
    assert forall|j: int| 0 <= j < classes implies one_hot_seq(labels, classes).subrange(
        i * classes,
        (i + 1) * classes,
    )[j] == one_hot_row(labels[i], classes)[j] by {
        lemma_one_hot_seq_index(labels, classes, i, j);
    }
    assert(one_hot_seq(labels, classes).subrange(i * classes, (i + 1) * classes) =~= one_hot_row(
        labels[i],
        classes,
    ));
}

/// Law: for a label vector whose entries are all in range, every row of the
/// one-hot matrix sums to exactly 1, and the single 1 sits at the row's
/// label index.
pub proof fn lemma_one_hot_rows(labels: Seq<u8>, classes: int)
    requires
        classes > 0,
        forall|i: int| 0 <= i < labels.len() ==> labels[i] < classes,
    ensures
        forall|i: int|
            0 <= i < labels.len() ==> #[trigger] seq_sum(
                one_hot_seq(labels, classes).subrange(i * classes, (i + 1) * classes),
            ) == 1,
        forall|i: int, j: int|
            0 <= i < labels.len() && 0 <= j < classes ==> #[trigger] one_hot_seq(
                labels,
                classes,
            ).subrange(i * classes, (i + 1) * classes)[j] == (if labels[i] == j {
                1u8
            } else {
                0u8
            }),
{
    assert forall|i: int| 0 <= i < labels.len() implies #[trigger] seq_sum(
        one_hot_seq(labels, classes).subrange(i * classes, (i + 1) * classes),
    ) == 1 by {
        lemma_one_hot_seq_row(labels, classes, i);
        lemma_one_hot_row_sum(labels[i], classes);
    }
    assert forall|i: int, j: int| 0 <= i < labels.len() && 0 <= j < classes implies #[trigger]
    one_hot_seq(labels, classes).subrange(i * classes, (i + 1) * classes)[j] == (if labels[i] == j {
        1u8
    } else {
        0u8
    }) by {
        lemma_one_hot_seq_row(labels, classes, i);
    }
}

/// Encode each label as a one-hot row of width `num_classes`.
///
/// Returns the `[N, num_classes]` matrix when every label is in range, and
/// `FormatError::InvalidLabel` exactly when some label is at or above
/// `num_classes` — an out-of-range label signals file corruption, never a
/// new class.
pub fn one_hot(labels: &Vec<u8>, num_classes: usize) -> (r: Result<LabelMatrix, FormatError>)
    requires
        labels@.len() * num_classes <= usize::MAX,
    ensures
        r is Ok <==> (forall|i: int| 0 <= i < labels@.len() ==> labels@[i] < num_classes),
        r matches Ok(m) ==> {
            &&& m.count == labels@.len()
            &&& m.classes == num_classes
            &&& m.data@ == one_hot_seq(labels@, num_classes as int)
            &&& m.wf()
        },
        r matches Err(e) ==> e == FormatError::InvalidLabel,
{
    let mut data: Vec<u8> = Vec::new();
    let mut i: usize = 0;
    proof {
        assert(labels@.subrange(0, 0) =~= Seq::<u8>::empty());
    }
    while i < labels.len()
        invariant
            i <= labels@.len(),
            labels@.len() * num_classes <= usize::MAX,
            data@ == one_hot_seq(labels@.subrange(0, i as int), num_classes as int),
            forall|k: int| 0 <= k < i ==> labels@[k] < num_classes,
        decreases labels@.len() - i,
    {
        let label = labels[i];
        if (label as usize) >= num_classes {
            return Err(FormatError::InvalidLabel);
        }
        proof {
            lemma_one_hot_seq_len(labels@.subrange(0, i as int), num_classes as int);
            vstd::arithmetic::mul::lemma_mul_inequality(
                i + 1,
                labels@.len() as int,
                num_classes as int,
            );
            assert(i * num_classes + num_classes == (i + 1) * num_classes) by (nonlinear_arith);
        }
        let ghost row = one_hot_row(label, num_classes as int);
        let mut j: usize = 0;
        proof {
            assert(data@ + row.subrange(0, 0) =~= data@);
        }
        let ghost data_before = data@;
        while j < num_classes
            invariant
                j <= num_classes,
                row == one_hot_row(label, num_classes as int),
                data@ == data_before + row.subrange(0, j as int),
                data_before.len() + num_classes <= usize::MAX,
            decreases num_classes - j,
        {
            let cell: u8 = if label as usize == j {
                1
            } else {
                0
            };
            data.push(cell);
            proof {
                assert(row[j as int] == cell);
                assert(data@ =~= data_before + row.subrange(0, j + 1));
            }
            j = j + 1;
        }
        proof {
            assert(row.subrange(0, num_classes as int) =~= row);
            assert(labels@.subrange(0, i + 1).drop_last() =~= labels@.subrange(0, i as int));
            assert(labels@.subrange(0, i + 1).last() == label);
        }
        i = i + 1;
    }
    proof {
        assert(labels@.subrange(0, labels@.len() as int) =~= labels@);
        lemma_one_hot_seq_len(labels@, num_classes as int);
    }
    Ok(LabelMatrix { data, count: labels.len(), classes: num_classes })
}

} // verus!
