//! The larger, hundred-class small-image dataset family under its
//! default on-disk layout. It shares the ten-class family's record
//! layout; only its locations differ.

use crate::download::ArchiveKind;
use crate::download::DownloadPlan;
use crate::download::cifar_plan;
use vstd::prelude::*;

verus! {

/// The acquisition plan for the hundred-class family: one
/// gzip-compressed tar archive, fetched into `data/cifar-100-binary/`.
pub fn download_and_extract() -> (r: DownloadPlan)
    ensures
        r.dest_dir@ == "data/cifar-100-binary/"@,
        r.archives@.len() == 1,
        r.archives@[0].base_url@ == "https://www.cs.toronto.edu/~kriz"@,
        r.archives@[0].archive@ == "cifar-100-binary.tar.gz"@,
        r.archives@[0].kind == ArchiveKind::TarGz,
{
    cifar_plan(true)
}

} // verus!
