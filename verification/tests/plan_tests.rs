use datasets::cifar10;
use datasets::cifar100;
use datasets::download::ArchiveKind;
use datasets::mnist;
use datasets::mnist_builder::Mnist;
use datasets::mnist_builder::MnistFashion;
use datasets::mnist_fashion;

#[test]
fn mnist_plan_names_the_four_archives() {
    let plan = mnist::download_and_extract();
    assert_eq!(plan.dest_dir, "data/mnist");
    let names: Vec<&str> = plan.archives.iter().map(|a| a.archive).collect();
    assert_eq!(
        names,
        vec![
            "train-images-idx3-ubyte.gz",
            "train-labels-idx1-ubyte.gz",
            "t10k-images-idx3-ubyte.gz",
            "t10k-labels-idx1-ubyte.gz"
        ]
    );
    for a in plan.archives.iter() {
        assert_eq!(a.base_url, "http://yann.lecun.com/exdb/mnist");
        assert_eq!(a.kind, ArchiveKind::GzipFile);
    }
}

#[test]
fn fashion_plan_uses_its_own_locations() {
    let plan = mnist_fashion::download_and_extract();
    assert_eq!(plan.dest_dir, "data/mnist_fashion");
    assert_eq!(plan.archives.len(), 4);
    for a in plan.archives.iter() {
        assert_eq!(
            a.base_url,
            "http://fashion-mnist.s3-website.eu-central-1.amazonaws.com"
        );
    }
}

#[test]
fn family_methods_match_module_plans() {
    let a = Mnist::download_and_extract();
    assert_eq!(a.dest_dir, "data/mnist");
    assert_eq!(a.archives.len(), 4);
    let b = MnistFashion::download_and_extract();
    assert_eq!(b.dest_dir, "data/mnist_fashion");
    assert_eq!(b.archives.len(), 4);
}

#[test]
fn cifar_plans_name_their_archive() {
    let p10 = cifar10::download_and_extract();
    assert_eq!(p10.dest_dir, "data/cifar-10-batches-bin/");
    assert_eq!(p10.archives.len(), 1);
    assert_eq!(p10.archives[0].archive, "cifar-10-binary.tar.gz");
    assert_eq!(p10.archives[0].base_url, "https://www.cs.toronto.edu/~kriz");
    assert_eq!(p10.archives[0].kind, ArchiveKind::TarGz);
    let p100 = cifar100::download_and_extract();
    assert_eq!(p100.dest_dir, "data/cifar-100-binary/");
    assert_eq!(p100.archives[0].archive, "cifar-100-binary.tar.gz");
}
