//! Acquisition plans: which remote archives each dataset family needs,
//! where they come from, and how they unpack. The decode pipeline never
//! touches the network; an unverified runner executes a plan — fetching
//! each archive into the destination directory if absent and unpacking it
//! there — before the decoders read the resulting files.

use vstd::prelude::*;

verus! {

/// How an archive unpacks once fetched.
#[derive(Clone, Copy, Debug, PartialEq, Eq, Structural)]
pub enum ArchiveKind {
    /// A single gzip-compressed file; decompressing it yields one data
    /// file of the same name without its `.gz` suffix.
    GzipFile,
    /// A gzip-compressed tar archive holding the data files.
    TarGz,
}

/// One remote archive: fetched from `base_url`/`archive` and unpacked
/// according to its kind.
#[derive(Debug)]
pub struct RemoteArchive {
    /// Base URL the archive is fetched from.
    pub base_url: &'static str,
    /// File name of the archive, appended to the base URL.
    pub archive: &'static str,
    /// How the fetched file unpacks.
    pub kind: ArchiveKind,
}

/// Everything a runner needs to make a dataset family's files available
/// on disk: the directory they belong in and the archives that fill it.
#[derive(Debug)]
pub struct DownloadPlan {
    /// Directory the archives are fetched into and unpacked under.
    pub dest_dir: &'static str,
    /// The archives to fetch, in order.
    pub archives: Vec<RemoteArchive>,
}

/// The four gzip-compressed IDX files of a digit-style dataset.
///
/// The fashion variant differs only in its base locations; the archive
/// names are shared between the two families.
pub fn mnist_plan(fashion: bool) -> (r: DownloadPlan)
    ensures
        r.dest_dir@ == (if fashion {
            "data/mnist_fashion"@
        } else {
            "data/mnist"@
        }),
        r.archives@.len() == 4,
        forall|i: int|
            0 <= i < 4 ==> (#[trigger] r.archives@[i]).base_url@ == (if fashion {
                "http://fashion-mnist.s3-website.eu-central-1.amazonaws.com"@
            } else {
                "http://yann.lecun.com/exdb/mnist"@
            }),
        forall|i: int| 0 <= i < 4 ==> (#[trigger] r.archives@[i]).kind == ArchiveKind::GzipFile,
        r.archives@[0].archive@ == "train-images-idx3-ubyte.gz"@,
        r.archives@[1].archive@ == "train-labels-idx1-ubyte.gz"@,
        r.archives@[2].archive@ == "t10k-images-idx3-ubyte.gz"@,
        r.archives@[3].archive@ == "t10k-labels-idx1-ubyte.gz"@,
{
    let base_url: &'static str = if fashion {
        "http://fashion-mnist.s3-website.eu-central-1.amazonaws.com"
    } else {
        "http://yann.lecun.com/exdb/mnist"
    };
    let dest_dir: &'static str = if fashion {
        "data/mnist_fashion"
    } else {
        "data/mnist"
    };
    let mut archives: Vec<RemoteArchive> = Vec::new();
    archives.push(
        RemoteArchive {
            base_url,
            archive: "train-images-idx3-ubyte.gz",
            kind: ArchiveKind::GzipFile,
        },
    );
    archives.push(
        RemoteArchive {
            base_url,
            archive: "train-labels-idx1-ubyte.gz",
            kind: ArchiveKind::GzipFile,
        },
    );
    archives.push(
        RemoteArchive {
            base_url,
            archive: "t10k-images-idx3-ubyte.gz",
            kind: ArchiveKind::GzipFile,
        },
    );
    archives.push(
        RemoteArchive {
            base_url,
            archive: "t10k-labels-idx1-ubyte.gz",
            kind: ArchiveKind::GzipFile,
        },
    );
    DownloadPlan { dest_dir, archives }
}

/// The single gzip-compressed tar archive of a small-image classification
/// dataset: the ten-class set, or the larger hundred-class set.
pub fn cifar_plan(use_large_dataset: bool) -> (r: DownloadPlan)
    ensures
        r.dest_dir@ == (if use_large_dataset {
            "data/cifar-100-binary/"@
        } else {
            "data/cifar-10-batches-bin/"@
        }),
        r.archives@.len() == 1,
        r.archives@[0].base_url@ == "https://www.cs.toronto.edu/~kriz"@,
        r.archives@[0].archive@ == (if use_large_dataset {
            "cifar-100-binary.tar.gz"@
        } else {
            "cifar-10-binary.tar.gz"@
        }),
        r.archives@[0].kind == ArchiveKind::TarGz,
{
    let dest_dir: &'static str = if use_large_dataset {
        "data/cifar-100-binary/"
    } else {
        "data/cifar-10-batches-bin/"
    };
    let archive: &'static str = if use_large_dataset {
        "cifar-100-binary.tar.gz"
    } else {
        "cifar-10-binary.tar.gz"
    };
    let mut archives: Vec<RemoteArchive> = Vec::new();
    archives.push(
        RemoteArchive { base_url: "https://www.cs.toronto.edu/~kriz", archive, kind: ArchiveKind::TarGz },
    );
    DownloadPlan { dest_dir, archives }
}

} // verus!
