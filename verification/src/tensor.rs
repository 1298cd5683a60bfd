//! Dense image tensors over raw intensity bytes, their flattened 2-D form,
//! and the normalized representation produced by the intensity rescale.

use crate::bytes::take_range;
use vstd::prelude::*;

verus! {

/// A dense array of shape `[count, channels, rows, cols]` holding raw
/// intensity bytes in row-major order. Single-channel formats use
/// `channels == 1`.
#[derive(Debug)]
pub struct ImageTensor {
    /// Flattened pixel bytes, row-major: record, then channel, then row,
    /// then column.
    pub data: Vec<u8>,
    /// Number of image records.
    pub count: usize,
    /// Channels per record.
    pub channels: usize,
    /// Rows per channel.
    pub rows: usize,
    /// Columns per row.
    pub cols: usize,
}

impl ImageTensor {
    /// The data buffer holds exactly one byte per declared cell.
    pub open spec fn wf(&self) -> bool {
        self.data@.len() == self.count * self.channels * self.rows * self.cols
    }

    /// Bytes of one record, `channels * rows * cols` of them.
    pub open spec fn record_size(&self) -> int {
        self.channels * self.rows * self.cols
    }

    /// Reshape into a `[count, channels * rows * cols]` matrix. A pure
    /// reshape: the flattened byte order is unchanged.
    pub fn into_flat(self) -> (r: FlatMatrix)
        requires
            self.wf(),
            self.channels * self.rows <= usize::MAX,
            self.channels * self.rows * self.cols <= usize::MAX,
        ensures
            r.data@ == self.data@,
            r.count == self.count,
            r.width == self.record_size(),
            r.wf(),
    {
        let width = self.channels * self.rows * self.cols;
        proof {
            vstd::arithmetic::mul::lemma_mul_is_associative(
                self.count as int,
                (self.channels * self.rows) as int,
                self.cols as int,
            );
            vstd::arithmetic::mul::lemma_mul_is_associative(
                self.count as int,
                self.channels as int,
                self.rows as int,
            );
        }
        FlatMatrix { data: self.data, count: self.count, width }
    }
}

/// A `[count, width]` matrix of raw bytes: the flattened form of an image
/// tensor, used by consumers that want a 2-D feature matrix.
#[derive(Debug)]
pub struct FlatMatrix {
    /// Flattened bytes, row-major.
    pub data: Vec<u8>,
    /// Number of rows (records).
    pub count: usize,
    /// Bytes per row.
    pub width: usize,
}

impl FlatMatrix {
    /// The data buffer holds exactly one byte per declared cell.
    pub open spec fn wf(&self) -> bool {
        self.data@.len() == self.count * self.width
    }
}

/// An image tensor after the elementwise intensity rescale `x' = x / 256`.
///
/// Each stored byte `b` stands for the value `b / 256`, which lies in the
/// half-open unit interval `[0, 1)`. The byte representation is kept exact;
/// converting to a machine float is left to unverified consumers.
#[derive(Debug)]
pub struct NormalizedTensor {
    /// Flattened pixel bytes; byte `b` denotes the intensity `b / 256`.
    pub data: Vec<u8>,
    /// Number of image records.
    pub count: usize,
    /// Channels per record.
    pub channels: usize,
    /// Rows per channel.
    pub rows: usize,
    /// Columns per row.
    pub cols: usize,
}

impl NormalizedTensor {
    /// The data buffer holds exactly one byte per declared cell.
    pub open spec fn wf(&self) -> bool {
        self.data@.len() == self.count * self.channels * self.rows * self.cols
    }
}

/// Rescale every intensity into the half-open unit interval: cell `k` of
/// the result denotes `t.data[k] / 256`.
///
/// Pure and total: the input tensor is borrowed immutably and keeps its
/// original byte values; the result carries the same bytes under the
/// rescaled reading.
pub fn normalize(t: &ImageTensor) -> (r: NormalizedTensor)
    ensures
        r.data@ == t.data@,
        r.count == t.count,
        r.channels == t.channels,
        r.rows == t.rows,
        r.cols == t.cols,
{
    let data = take_range(&t.data, 0, t.data.len());
    proof {
        assert(data@ =~= t.data@);
    }
    NormalizedTensor { data, count: t.count, channels: t.channels, rows: t.rows, cols: t.cols }
}

} // verus!
