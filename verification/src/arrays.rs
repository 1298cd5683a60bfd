//! Trusted bridge to the `ndarray` crate. The assemblers hand their
//! decoded bytes to `ndarray` for the final dense-array form; the names
//! below say what such an array holds, and every wrapper's contract ties
//! the array back to the exact bytes the verified decoders produced.
//!
//! Both array types are always in standard (row-major, c-order) layout:
//! their only constructors build them that way.

use vstd::prelude::*;

verus! {

/// A dense four-axis byte array of the `ndarray` crate, in the shape
/// `[records, channels, rows, cols]` and standard layout.
#[verifier::external_body]
#[derive(Debug)]
pub struct ImageArray {
    inner: ndarray::Array4<u8>,
}

/// A dense two-axis byte array of the `ndarray` crate, holding one label
/// row per record, in standard layout.
#[verifier::external_body]
#[derive(Debug)]
pub struct LabelArray {
    inner: ndarray::Array2<u8>,
}

/// The elements `a` holds, flattened in row-major order.
pub uninterp spec fn image_array_elems(a: ImageArray) -> Seq<u8>;

/// The four axis lengths of `a`.
pub uninterp spec fn image_array_dim(a: ImageArray) -> Seq<usize>;

/// The elements `a` holds, flattened in row-major order.
pub uninterp spec fn label_array_elems(a: LabelArray) -> Seq<u8>;

/// The two axis lengths of `a`.
pub uninterp spec fn label_array_dim(a: LabelArray) -> Seq<usize>;

/// Relies on `ndarray::Array4::from_shape_vec` with a contiguous c-order
/// shape: the array adopts the vector's elements in row-major order. The
/// call succeeds when the vector's length matches the shape and the
/// product of the non-zero axis lengths fits an `isize` — ndarray checks
/// that product even when another axis is zero, so the bound is required
/// of the last three axes on their own.
#[verifier::external_body]
pub(crate) fn to_array4(n: usize, c: usize, r: usize, k: usize, data: Vec<u8>) -> (a: ImageArray)
    requires
        data@.len() == n * c * r * k,
        c > 0,
        r > 0,
        k > 0,
        c * r * k <= isize::MAX,
        n * c * r * k <= isize::MAX,
    ensures
        image_array_elems(a) == data@,
        image_array_dim(a) == seq![n, c, r, k],
{
    ImageArray { inner: ndarray::Array4::from_shape_vec((n, c, r, k), data).unwrap() }
}

/// Relies on `ndarray::Array2::from_shape_vec` with a contiguous c-order
/// shape: the array adopts the vector's elements in row-major order. The
/// call succeeds when the vector's length matches the shape and the
/// product of the non-zero axis lengths fits an `isize` — ndarray checks
/// that product even when the row count is zero, so the bound is required
/// of the row width on its own.
#[verifier::external_body]
pub(crate) fn to_array2(rows: usize, cols: usize, data: Vec<u8>) -> (a: LabelArray)
    requires
        data@.len() == rows * cols,
        cols > 0,
        cols <= isize::MAX,
        rows * cols <= isize::MAX,
    ensures
        label_array_elems(a) == data@,
        label_array_dim(a) == seq![rows, cols],
{
    LabelArray { inner: ndarray::Array2::from_shape_vec((rows, cols), data).unwrap() }
}

impl ImageArray {
    /// Relies on `ndarray::ArrayBase::shape`: the axis lengths, in order.
    #[verifier::external_body]
    pub fn shape(&self) -> (r: (usize, usize, usize, usize))
        ensures
            image_array_dim(*self) == seq![r.0, r.1, r.2, r.3],
    {
        let s = self.inner.shape();
        (s[0], s[1], s[2], s[3])
    }

    /// Relies on `ndarray::ArrayBase::as_slice`: a standard-layout array's
    /// elements in logical order. Every `ImageArray` is built by
    /// `to_array4` in standard layout, so the slice exists.
    #[verifier::external_body]
    pub fn as_bytes(&self) -> (r: &[u8])
        ensures
            r@ == image_array_elems(*self),
    {
        self.inner.as_slice().unwrap()
    }
}

impl LabelArray {
    /// Relies on `ndarray::ArrayBase::shape`: the axis lengths, in order.
    #[verifier::external_body]
    pub fn shape(&self) -> (r: (usize, usize))
        ensures
            label_array_dim(*self) == seq![r.0, r.1],
    {
        let s = self.inner.shape();
        (s[0], s[1])
    }

    /// Relies on `ndarray::ArrayBase::as_slice`: a standard-layout array's
    /// elements in logical order. Every `LabelArray` is built by
    /// `to_array2` in standard layout, so the slice exists.
    #[verifier::external_body]
    pub fn as_bytes(&self) -> (r: &[u8])
        ensures
            r@ == label_array_elems(*self),
    {
        self.inner.as_slice().unwrap()
    }
}

} // verus!
