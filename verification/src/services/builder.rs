//! What the build runs: a release `cargo build` per target, and the Windows
//! bundle when the Windows platform is configured.
use vstd::prelude::*;

use crate::services::build_manifest::PlatformManifest;
use crate::text::{join_seq, join_strings, owned, string_views};

verus! {

/// `--package` and the package, for each package.
pub open spec fn package_args(packages: Seq<Seq<char>>) -> Seq<Seq<char>>
    decreases packages.len(),
{
    if packages.len() == 0 {
        Seq::empty()
    } else {
        package_args(packages.drop_last()) + seq!["--package"@, packages.last()]
    }
}

/// `--features` and the features separated by spaces, when there are any.
pub open spec fn feature_args(features: Seq<Seq<char>>) -> Seq<Seq<char>> {
    if features.len() == 0 {
        Seq::empty()
    } else {
        seq!["--features"@, join_seq(features, " "@)]
    }
}

/// The arguments of `cargo` that build `target` in release mode with the
/// given packages and features.
pub open spec fn cargo_build_args_spec(target: Seq<char>, packages: Seq<Seq<char>>, features: Seq<Seq<char>>) -> Seq<Seq<char>> {
    seq!["build"@, "--release"@, "--target"@, target] + package_args(packages) + feature_args(features)
}

/// The arguments of `cargo` that build `target` in release mode with the
/// given packages and features.
pub fn cargo_build_args(target: &str, packages: &Vec<String>, features: &Vec<String>) -> (r: Vec<String>)
    ensures
        string_views(r@) == cargo_build_args_spec(target@, string_views(packages@), string_views(features@)),
{
    let mut args: Vec<String> = Vec::new();
    args.push(owned("build"));
    args.push(owned("--release"));
    args.push(owned("--target"));
    args.push(owned(target));
    let ghost head = string_views(args@);
    assert(head =~= seq!["build"@, "--release"@, "--target"@, target@]);
    let mut i: usize = 0;
    while i < packages.len()
        invariant
            i <= packages@.len(),
            string_views(args@) == head + package_args(string_views(packages@).take(i as int)),
        decreases packages@.len() - i,
    {
        let ghost before = string_views(args@);
        args.push(owned("--package"));
        args.push(packages[i].clone());
        assert(string_views(packages@).take(i + 1).drop_last() =~= string_views(packages@).take(i as int));
        assert(string_views(args@) =~= before + seq!["--package"@, packages@[i as int]@]);
        i = i + 1;
    }
    assert(string_views(packages@).take(i as int) =~= string_views(packages@));
    if features.len() > 0 {
        let ghost before = string_views(args@);
        args.push(owned("--features"));
        args.push(join_strings(features.as_slice(), " "));
        assert(string_views(args@) =~= before + feature_args(string_views(features@)));
    } else {
        assert(feature_args(string_views(features@)) =~= Seq::<Seq<char>>::empty());
        assert(string_views(args@) =~= string_views(args@) + feature_args(string_views(features@)));
    }
    args
}

/// Whether one of the platforms is Windows, which the build then bundles.
pub fn has_windows_platform(platforms: &Vec<PlatformManifest>) -> (r: bool)
    ensures
        r == exists|i: int| 0 <= i < platforms@.len() && #[trigger] platforms@[i].platform@ == "windows"@,
{
    let mut i: usize = 0;
    while i < platforms.len()
        invariant
            i <= platforms@.len(),
            forall|j: int| 0 <= j < i ==> #[trigger] platforms@[j].platform@ != "windows"@,
        decreases platforms@.len() - i,
    {
        if crate::text::str_eq(platforms[i].platform.as_str(), "windows") {
            return true;
        }
        i = i + 1;
    }
    false
}

} // verus!
