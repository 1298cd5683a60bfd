//! The fashion-image dataset family under its default on-disk layout.
//! It shares the digit family's IDX layout and archive names; only the
//! locations differ.

use crate::download::ArchiveKind;
use crate::download::DownloadPlan;
use crate::download::mnist_plan;
use vstd::prelude::*;

verus! {

/// The acquisition plan for the fashion family: its four gzip-compressed
/// IDX files, fetched into `data/mnist_fashion`.
pub fn download_and_extract() -> (r: DownloadPlan)
    ensures
        r.dest_dir@ == "data/mnist_fashion"@,
        r.archives@.len() == 4,
        forall|i: int|
            0 <= i < 4 ==> (#[trigger] r.archives@[i]).base_url@
                == "http://fashion-mnist.s3-website.eu-central-1.amazonaws.com"@,
        forall|i: int| 0 <= i < 4 ==> (#[trigger] r.archives@[i]).kind == ArchiveKind::GzipFile,
        r.archives@[0].archive@ == "train-images-idx3-ubyte.gz"@,
        r.archives@[1].archive@ == "train-labels-idx1-ubyte.gz"@,
        r.archives@[2].archive@ == "t10k-images-idx3-ubyte.gz"@,
        r.archives@[3].archive@ == "t10k-labels-idx1-ubyte.gz"@,
{
    mnist_plan(true)
}

} // verus!
