//! The IDX format: a big-endian header (magic number, record count and,
//! for images, row and column counts) followed by raw bytes. After the
//! header, image decoding is a pure reshape: the tensor's flattened byte
//! order is exactly the file's post-header byte order.

use crate::bytes::be_bytes_of;
use crate::bytes::be_u32_at;
use crate::bytes::lemma_be_bytes_roundtrip;
use crate::bytes::push_be_u32;
use crate::bytes::take_range;
use crate::error::FormatError;
use crate::header::spec_validate;
use crate::header::validate;
use crate::label::CLASSES;
use crate::tensor::ImageTensor;
use vstd::arithmetic::div_mod::lemma_fundamental_div_mod;
use vstd::arithmetic::mul::lemma_mul_inequality;
use vstd::prelude::*;

verus! {

/// Magic number opening an IDX image file.
pub const IMG_MAGIC_NUMBER: u32 = 0x0000_0803;

/// Magic number opening an IDX label file.
pub const LBL_MAGIC_NUMBER: u32 = 0x0000_0801;

/// Fixed row count of the digit and fashion image formats.
pub const ROWS: usize = 28;

/// Fixed column count of the digit and fashion image formats.
pub const COLS: usize = 28;

/// Expected outcome of decoding an IDX image file: the `count * 28 * 28`
/// pixel bytes following a valid 16-byte header, in file order.
pub open spec fn spec_decode_images(bytes: Seq<u8>, expected_length: u32) -> Result<
    Seq<u8>,
    FormatError,
> {
    match spec_validate(
        bytes,
        IMG_MAGIC_NUMBER,
        expected_length,
        Some((ROWS as u32, COLS as u32)),
    ) {
        Err(e) => Err(e),
        Ok(consumed) => {
            if bytes.len() - 16 < expected_length * (ROWS * COLS) {
                Err(FormatError::TruncatedData)
            } else {
                Ok(bytes.subrange(16, 16 + expected_length * (ROWS * COLS)))
            }
        },
    }
}

/// Expected outcome of decoding an IDX label file: the `count` label bytes
/// following a valid 8-byte header, every one below the class count.
pub open spec fn spec_decode_labels(bytes: Seq<u8>, expected_length: u32) -> Result<
    Seq<u8>,
    FormatError,
> {
    match spec_validate(bytes, LBL_MAGIC_NUMBER, expected_length, None) {
        Err(e) => Err(e),
        Ok(consumed) => {
            if bytes.len() - 8 < expected_length {
                Err(FormatError::TruncatedData)
            } else if exists|i: int| 8 <= i < 8 + expected_length && bytes[i] >= CLASSES {
                Err(FormatError::InvalidLabel)
            } else {
                Ok(bytes.subrange(8, 8 + expected_length))
            }
        },
    }
}

/// Decode an IDX image file into a `[count, 28, 28]` tensor.
///
/// The header must carry the image magic number, the caller-expected
/// record count and the fixed 28×28 geometry; after it, exactly the next
/// `count * 28 * 28` bytes become the tensor, in file order — a pure
/// reshape with no padding and no interleaving.
pub fn decode_images(bytes: &Vec<u8>, expected_length: u32) -> (r: Result<
    ImageTensor,
    FormatError,
>)
    ensures
        (match r {
            Ok(t) => {
                &&& spec_decode_images(bytes@, expected_length) == Ok::<Seq<u8>, FormatError>(
                    t.data@,
                )
                &&& t.count == expected_length
                &&& t.channels == 1
                &&& t.rows == ROWS
                &&& t.cols == COLS
                &&& t.wf()
            },
            Err(e) => spec_decode_images(bytes@, expected_length) == Err::<Seq<u8>, FormatError>(
                e,
            ),
        }),
{
    let consumed = match validate(
        bytes,
        IMG_MAGIC_NUMBER,
        expected_length,
        Some((ROWS as u32, COLS as u32)),
    ) {
        Ok(c) => c,
        Err(e) => {
            return Err(e);
        },
    };
    let remaining = bytes.len() - 16;
    let per: usize = ROWS * COLS;
    let count = expected_length as usize;
    proof {
        lemma_fundamental_div_mod(remaining as int, per as int);
        if count > remaining / per {
            lemma_mul_inequality(remaining as int / per as int + 1, count as int, per as int);
        } else {
            lemma_mul_inequality(count as int, remaining as int / per as int, per as int);
        }
    }
    if count > remaining / per {
        return Err(FormatError::TruncatedData);
    }
    let need = count * per;
    let data = take_range(bytes, 16, 16 + need);
    proof {
        assert(count * 1 * (ROWS as int) * (COLS as int) == count * ((ROWS as int) * (
        COLS as int))) by (nonlinear_arith);
    }
    Ok(ImageTensor { data, count, channels: 1, rows: ROWS, cols: COLS })
}

/// Decode an IDX label file into a vector of `count` class ids.
///
/// The header must carry the label magic number and the caller-expected
/// record count; the next `count` bytes are the labels, each of which must
/// lie below the class count — a label at or above it signals file
/// corruption, never a new class.
pub fn decode_labels(bytes: &Vec<u8>, expected_length: u32) -> (r: Result<Vec<u8>, FormatError>)
    ensures
        (match r {
            Ok(v) => spec_decode_labels(bytes@, expected_length) == Ok::<Seq<u8>, FormatError>(v@),
            Err(e) => spec_decode_labels(bytes@, expected_length) == Err::<Seq<u8>, FormatError>(
                e,
            ),
        }),
{
    let consumed = match validate(bytes, LBL_MAGIC_NUMBER, expected_length, None) {
        Ok(c) => c,
        Err(e) => {
            return Err(e);
        },
    };
    let remaining = bytes.len() - 8;
    let count = expected_length as usize;
    if count > remaining {
        return Err(FormatError::TruncatedData);
    }
    let mut i: usize = 0;
    while i < count
        invariant
            i <= count,
            count == expected_length,
            count + 8 <= bytes@.len(),
            count + 8 <= usize::MAX,
            spec_validate(bytes@, LBL_MAGIC_NUMBER, expected_length, None) == Ok::<
                int,
                FormatError,
            >(8),
            forall|k: int| 8 <= k < 8 + i ==> bytes@[k] < CLASSES,
        decreases count - i,
    {
        if bytes[8 + i] >= CLASSES as u8 {
            proof {
                let w = 8 + i as int;
                assert(8 <= w < 8 + expected_length && bytes@[w] >= CLASSES);
            }
            return Err(FormatError::InvalidLabel);
        }
        i = i + 1;
    }
    let data = take_range(bytes, 8, 8 + count);
    Ok(data)
}

/// Law: an IDX label source whose header and size are right but which
/// holds any label byte at or above the class count decodes to
/// `FormatError::InvalidLabel`, never to output.
pub proof fn lemma_invalid_label_rejected(bytes: Seq<u8>, expected_length: u32)
    requires
        spec_validate(bytes, LBL_MAGIC_NUMBER, expected_length, None) is Ok,
        bytes.len() - 8 >= expected_length,
        exists|i: int| 8 <= i < 8 + expected_length && bytes[i] >= CLASSES,
    ensures
        spec_decode_labels(bytes, expected_length) == Err::<Seq<u8>, FormatError>(
            FormatError::InvalidLabel,
        ),
{
}

/// Every label byte a successful decode hands out lies below the class
/// count.
pub proof fn lemma_decoded_labels_in_range(bytes: Seq<u8>, expected_length: u32)
    requires
        spec_decode_labels(bytes, expected_length) is Ok,
    ensures
        forall|i: int|
            0 <= i < spec_decode_labels(bytes, expected_length)->Ok_0.len()
                ==> #[trigger] spec_decode_labels(bytes, expected_length)->Ok_0[i] < CLASSES,
{
    let v = spec_decode_labels(bytes, expected_length)->Ok_0;
    assert forall|i: int| 0 <= i < v.len() implies #[trigger] v[i] < CLASSES by {
        assert(v[i] == bytes[8 + i]);
    }
}

/// The byte sequence of a synthetic IDX image file: a 16-byte header
/// declaring `count` records of 28×28, then the pixel bytes as given.
pub open spec fn spec_encode_images(pixels: Seq<u8>, count: u32) -> Seq<u8> {
    be_bytes_of(IMG_MAGIC_NUMBER) + be_bytes_of(count) + be_bytes_of(ROWS as u32) + be_bytes_of(
        COLS as u32,
    ) + pixels
}

/// The byte sequence of a synthetic IDX label file: an 8-byte header
/// declaring `count` records, then the label bytes as given.
pub open spec fn spec_encode_labels(labels: Seq<u8>, count: u32) -> Seq<u8> {
    be_bytes_of(LBL_MAGIC_NUMBER) + be_bytes_of(count) + labels
}

/// Law: decoding a synthetic IDX image file recovers exactly the pixel
/// bytes it was built around — for every pixel sequence of the declared
/// size, the tensor's flattened byte order is the file's post-header byte
/// order.
pub proof fn lemma_image_round_trip(pixels: Seq<u8>, count: u32)
    requires
        pixels.len() == count * (ROWS * COLS),
    ensures
        spec_decode_images(spec_encode_images(pixels, count), count) == Ok::<Seq<u8>, FormatError>(
            pixels,
        ),
{
    let f = spec_encode_images(pixels, count);
    lemma_be_bytes_roundtrip(IMG_MAGIC_NUMBER);
    lemma_be_bytes_roundtrip(count);
    lemma_be_bytes_roundtrip(ROWS as u32);
    lemma_be_bytes_roundtrip(COLS as u32);
    assert(be_u32_at(f, 0) == IMG_MAGIC_NUMBER && be_u32_at(f, 4) == count && be_u32_at(f, 8)
        == ROWS && be_u32_at(f, 12) == COLS);
    assert(f.subrange(16, 16 + count * (ROWS * COLS)) =~= pixels);
}

/// Law: decoding a synthetic IDX label file recovers exactly the label
/// bytes it was built around, whenever every label lies below the class
/// count.
pub proof fn lemma_label_round_trip(labels: Seq<u8>, count: u32)
    requires
        labels.len() == count,
        forall|i: int| 0 <= i < labels.len() ==> labels[i] < CLASSES,
    ensures
        spec_decode_labels(spec_encode_labels(labels, count), count) == Ok::<Seq<u8>, FormatError>(
            labels,
        ),
{
    let f = spec_encode_labels(labels, count);
    lemma_be_bytes_roundtrip(LBL_MAGIC_NUMBER);
    lemma_be_bytes_roundtrip(count);
    assert(be_u32_at(f, 0) == LBL_MAGIC_NUMBER && be_u32_at(f, 4) == count);
    assert forall|i: int| 8 <= i < 8 + count implies f[i] < CLASSES by {
        assert(f[i] == labels[i - 8]);
    }
    assert(f.subrange(8, 8 + count) =~= labels);
}

/// Build a synthetic IDX image file around the given pixel bytes.
///
/// Decoding the result recovers exactly the pixels handed in: together
/// with `decode_images`' contract this is the image round trip, for every
/// pixel sequence of the declared size.
pub fn encode_images(pixels: &Vec<u8>, count: u32) -> (r: Vec<u8>)
    requires
        pixels@.len() == count * (ROWS * COLS),
    ensures
        r@ == spec_encode_images(pixels@, count),
        spec_decode_images(r@, count) == Ok::<Seq<u8>, FormatError>(pixels@),
{
    let mut r: Vec<u8> = Vec::new();
    push_be_u32(&mut r, IMG_MAGIC_NUMBER);
    push_be_u32(&mut r, count);
    push_be_u32(&mut r, ROWS as u32);
    push_be_u32(&mut r, COLS as u32);
    let mut body = take_range(pixels, 0, pixels.len());
    r.append(&mut body);
    proof {
        assert(r@ =~= spec_encode_images(pixels@, count));
        lemma_image_round_trip(pixels@, count);
    }
    r
}

/// Build a synthetic IDX label file around the given label bytes.
///
/// When every label is in range, decoding the result recovers exactly the
/// labels handed in: together with `decode_labels`' contract this is the
/// label round trip.
pub fn encode_labels(labels: &Vec<u8>, count: u32) -> (r: Vec<u8>)
    requires
        labels@.len() == count,
    ensures
        r@ == spec_encode_labels(labels@, count),
        (forall|i: int| 0 <= i < labels@.len() ==> labels@[i] < CLASSES) ==> spec_decode_labels(
            r@,
            count,
        ) == Ok::<Seq<u8>, FormatError>(labels@),
{
    let mut r: Vec<u8> = Vec::new();
    push_be_u32(&mut r, LBL_MAGIC_NUMBER);
    push_be_u32(&mut r, count);
    let mut body = take_range(labels, 0, labels.len());
    r.append(&mut body);
    proof {
        assert(r@ =~= spec_encode_labels(labels@, count));
        if forall|i: int| 0 <= i < labels@.len() ==> labels@[i] < CLASSES {
            lemma_label_round_trip(labels@, count);
        }
    }
    r
}

} // verus!
