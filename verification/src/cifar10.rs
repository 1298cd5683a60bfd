//! The ten-class small-image dataset family under its default on-disk
//! layout. Decoding lives in `cifar_builder`; this module carries the
//! family's acquisition plan.

use crate::download::ArchiveKind;
use crate::download::DownloadPlan;
use crate::download::cifar_plan;
use vstd::prelude::*;

verus! {

/// The acquisition plan for the ten-class family: one gzip-compressed
/// tar archive, fetched into `data/cifar-10-batches-bin/`.
pub fn download_and_extract() -> (r: DownloadPlan)
    ensures
        r.dest_dir@ == "data/cifar-10-batches-bin/"@,
        r.archives@.len() == 1,
        r.archives@[0].base_url@ == "https://www.cs.toronto.edu/~kriz"@,
        r.archives@[0].archive@ == "cifar-10-binary.tar.gz"@,
        r.archives@[0].kind == ArchiveKind::TarGz,
{
    cifar_plan(false)
}

} // verus!
