//! The digit-image dataset family under its default on-disk layout.
//! Decoding itself lives in `mnist_builder`; this module carries the
//! family's acquisition plan.

use crate::download::ArchiveKind;
use crate::download::DownloadPlan;
use crate::download::mnist_plan;
use vstd::prelude::*;

verus! {

/// The acquisition plan for the digit family: its four gzip-compressed
/// IDX files, fetched into `data/mnist`.
pub fn download_and_extract() -> (r: DownloadPlan)
    ensures
        r.dest_dir@ == "data/mnist"@,
        r.archives@.len() == 4,
        forall|i: int|
            0 <= i < 4 ==> (#[trigger] r.archives@[i]).base_url@
                == "http://yann.lecun.com/exdb/mnist"@,
        forall|i: int| 0 <= i < 4 ==> (#[trigger] r.archives@[i]).kind == ArchiveKind::GzipFile,
        r.archives@[0].archive@ == "train-images-idx3-ubyte.gz"@,
        r.archives@[1].archive@ == "train-labels-idx1-ubyte.gz"@,
        r.archives@[2].archive@ == "t10k-images-idx3-ubyte.gz"@,
        r.archives@[3].archive@ == "t10k-labels-idx1-ubyte.gz"@,
{
    mnist_plan(false)
}

} // verus!
