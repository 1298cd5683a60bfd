//! The flat fixed-record format: no file header at all, just a
//! concatenation of records of `1 + channels * rows * cols` bytes each —
//! one label byte, then the pixel payload in channel-major order. Decoding
//! is a single linear pass with the destination allocated up front.

use crate::bytes::lemma_records_fit;
use crate::bytes::take_range;
use crate::error::FormatError;
use crate::label::CLASSES;
use crate::tensor::ImageTensor;
use vstd::arithmetic::mul::lemma_mul_inequality;
use vstd::prelude::*;

verus! {

/// The label byte of record `i` in a flat-record source with the given
/// record stride.
pub open spec fn flat_label_at(bytes: Seq<u8>, stride: int, i: int) -> u8 {
    bytes[i * stride]
}

/// The label bytes of the first `count` records.
pub open spec fn flat_labels(bytes: Seq<u8>, count: int, stride: int) -> Seq<u8> {
    Seq::new(count as nat, |i: int| flat_label_at(bytes, stride, i))
}

/// The pixel payloads of the first `count` records, concatenated in record
/// order; `psize` is the payload size, one less than the stride.
pub open spec fn flat_pixels(bytes: Seq<u8>, count: int, psize: int) -> Seq<u8>
    decreases count,
{
    if count <= 0 {
        Seq::empty()
    } else {
        flat_pixels(bytes, count - 1, psize) + bytes.subrange(
            (count - 1) * (psize + 1) + 1,
            (count - 1) * (psize + 1) + 1 + psize,
        )
    }
}

/// Expected outcome of decoding `count` flat records with payload size
/// `psize`: the concatenated pixel payloads and the label vector, or the
/// first failure — too few bytes, or a label byte at or above the class
/// count.
pub open spec fn spec_flat_decode(bytes: Seq<u8>, count: int, psize: int) -> Result<
    (Seq<u8>, Seq<u8>),
    FormatError,
> {
    let stride = psize + 1;
    if bytes.len() < count * stride {
        Err(FormatError::TruncatedData)
    } else if exists|i: int| 0 <= i < count && #[trigger] flat_label_at(bytes, stride, i)
        >= CLASSES {
        Err(FormatError::InvalidLabel)
    } else {
        Ok((flat_pixels(bytes, count, psize), flat_labels(bytes, count, stride)))
    }
}

/// The concatenated payloads of `count` records hold `count * psize` bytes.
pub proof fn lemma_flat_pixels_len(bytes: Seq<u8>, count: int, psize: int)
    requires
        psize >= 0,
        count >= 0,
        count * (psize + 1) <= bytes.len(),
    ensures
        flat_pixels(bytes, count, psize).len() == count * psize,
    decreases count,
{
    if count > 0 {
        assert((count - 1) * (psize + 1) <= count * (psize + 1)) by (nonlinear_arith)
            requires
                count >= 1,
                psize >= 0,
        ;
        lemma_flat_pixels_len(bytes, count - 1, psize);
        vstd::arithmetic::mul::lemma_mul_nonnegative(count - 1, psize + 1);
        assert((count - 1) * (psize + 1) + 1 + psize == count * (psize + 1)) by (nonlinear_arith);
        let s = (count - 1) * (psize + 1) + 1;
        assert(0 <= s <= s + psize <= bytes.len());
        assert(bytes.subrange(s, s + psize).len() == psize);
        assert(flat_pixels(bytes, count, psize).len() == flat_pixels(bytes, count - 1, psize).len()
            + psize);
        assert((count - 1) * psize + psize == count * psize) by (nonlinear_arith);
        assert(flat_pixels(bytes, count, psize).len() == count * psize);
    } else {
        assert(count * psize == 0) by (nonlinear_arith)
            requires
                count == 0,
        ;
        assert(flat_pixels(bytes, count, psize).len() == count * psize);
    }
}

/// Law: a flat-record source long enough for its record count but holding
/// any label byte at or above the class count decodes to
/// `FormatError::InvalidLabel`, never to output.
pub proof fn lemma_invalid_label_rejected(bytes: Seq<u8>, count: int, psize: int)
    requires
        bytes.len() >= count * (psize + 1),
        exists|i: int| 0 <= i < count && #[trigger] flat_label_at(bytes, psize + 1, i) >= CLASSES,
    ensures
        spec_flat_decode(bytes, count, psize) == Err::<(Seq<u8>, Seq<u8>), FormatError>(
            FormatError::InvalidLabel,
        ),
{
}

/// Every label byte a successful decode hands out lies below the class
/// count.
pub proof fn lemma_flat_labels_in_range(bytes: Seq<u8>, count: int, psize: int)
    requires
        count >= 0,
        spec_flat_decode(bytes, count, psize) is Ok,
    ensures
        forall|i: int|
            0 <= i < spec_flat_decode(bytes, count, psize)->Ok_0.1.len()
                ==> #[trigger] spec_flat_decode(bytes, count, psize)->Ok_0.1[i] < CLASSES,
{
    let lbls = spec_flat_decode(bytes, count, psize)->Ok_0.1;
    assert(!(exists|j: int|
        0 <= j < count && #[trigger] flat_label_at(bytes, psize + 1, j) >= CLASSES));
    assert(lbls == flat_labels(bytes, count, psize + 1));
    assert(lbls.len() == count as nat);
    assert forall|i: int| 0 <= i < lbls.len() implies #[trigger] lbls[i] < CLASSES by {
        assert(0 <= i < count);
        assert(lbls[i] == flat_label_at(bytes, psize + 1, i));
    }
}

/// Decode a flat-record source into a `[count, channels, rows, cols]`
/// tensor and a label vector.
///
/// Each record's label byte must lie below the class count — a label at or
/// above it signals file corruption, never a new class — and the source
/// must hold at least `count` whole records.
pub fn decode(
    bytes: &Vec<u8>,
    num_records: usize,
    channels: usize,
    rows: usize,
    cols: usize,
) -> (r: Result<(ImageTensor, Vec<u8>), FormatError>)
    requires
        channels * rows <= usize::MAX,
        channels * rows * cols < usize::MAX,
    ensures
        (match r {
            Ok((t, lbls)) => {
                &&& spec_flat_decode(
                    bytes@,
                    num_records as int,
                    (channels * rows * cols) as int,
                ) == Ok::<(Seq<u8>, Seq<u8>), FormatError>((t.data@, lbls@))
                &&& t.count == num_records
                &&& t.channels == channels
                &&& t.rows == rows
                &&& t.cols == cols
                &&& t.wf()
                &&& lbls@.len() == num_records
            },
            Err(e) => spec_flat_decode(bytes@, num_records as int, (channels * rows * cols) as int)
                == Err::<(Seq<u8>, Seq<u8>), FormatError>(e),
        }),
{
    let psize = channels * rows * cols;
    let stride = psize + 1;
    let capacity = bytes.len() / stride;
    proof {
        lemma_records_fit(bytes@.len() as int, num_records as int, stride as int);
    }
    if num_records > capacity {
        return Err(FormatError::TruncatedData);
    }
    proof {
        lemma_mul_inequality(psize as int, stride as int, num_records as int);
    }
    let mut data: Vec<u8> = Vec::with_capacity(num_records * psize);
    let mut labels: Vec<u8> = Vec::with_capacity(num_records);
    let mut rec: usize = 0;
    proof {
        assert(labels@ =~= flat_labels(bytes@, 0, stride as int));
    }
    while rec < num_records
        invariant
            rec <= num_records,
            psize == channels * rows * cols,
            stride == psize + 1,
            num_records * stride <= bytes@.len(),
            bytes@.len() <= usize::MAX,
            data@ == flat_pixels(bytes@, rec as int, psize as int),
            labels@ == flat_labels(bytes@, rec as int, stride as int),
            forall|k: int|
                0 <= k < rec ==> #[trigger] flat_label_at(bytes@, stride as int, k) < CLASSES,
        decreases num_records - rec,
    {
        proof {
            lemma_mul_inequality(rec as int + 1, num_records as int, stride as int);
            assert(rec * stride + stride == (rec + 1) * stride) by (nonlinear_arith);
            vstd::arithmetic::mul::lemma_mul_nonnegative(rec as int, stride as int);
        }
        let base = rec * stride;
        let label = bytes[base];
        if label >= CLASSES as u8 {
            proof {
                assert(flat_label_at(bytes@, stride as int, rec as int) >= CLASSES);
            }
            return Err(FormatError::InvalidLabel);
        }
        labels.push(label);
        let mut part = take_range(bytes, base + 1, base + 1 + psize);
        data.append(&mut part);
        proof {
            assert(labels@ =~= flat_labels(bytes@, rec + 1, stride as int));
        }
        rec = rec + 1;
    }
    proof {
        lemma_flat_pixels_len(bytes@, num_records as int, psize as int);
        assert(num_records * channels * rows * cols == num_records * (channels * rows * cols))
            by (nonlinear_arith);
    }
    Ok((ImageTensor { data, count: num_records, channels, rows, cols }, labels))
}

} // verus!
