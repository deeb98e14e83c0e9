//! The decisions of the Windows bundle: which platform it bundles, where
//! each target's setup project and executables go, how `cargo` builds them,
//! and the configuration the setup program embeds.
use vstd::prelude::*;

use crate::services::build_manifest::{BuildManifest, PlatformManifest};
use crate::services::build_variable::{variable_name_spec, BuildVariable};
use crate::services::icons::IconMapping;
use crate::services::payload_file::PayloadFile;
use crate::text::{concat2, owned, path_join, path_join_spec, replace_all, replace_str, string_views};

verus! {

/// Why the Windows bundle cannot be made.
#[derive(Debug, Clone, Copy, PartialEq, Eq, Structural)]
pub enum BundleError {
    /// No platform of the build is Windows.
    WindowsNotConfigured,
    /// A target's payload is empty.
    NoFiles,
    /// The built target is not in the platform's manifest.
    UnknownTarget,
}

impl BundleError {
    /// The message for the error.
    pub fn to_string(&self) -> (r: String)
        ensures
            r@ == match self {
                BundleError::WindowsNotConfigured => "windows platform is not configured"@,
                BundleError::NoFiles => "windows bundle has no files to package"@,
                BundleError::UnknownTarget => "failed to find target manifest"@,
            },
    {
        match self {
            BundleError::WindowsNotConfigured => owned("windows platform is not configured"),
            BundleError::NoFiles => owned("windows bundle has no files to package"),
            BundleError::UnknownTarget => owned("failed to find target manifest"),
        }
    }
}

/// The first platform named `windows`.
pub open spec fn first_windows(platforms: Seq<PlatformManifest>, n: int) -> Option<int>
    decreases n,
{
    if n <= 0 {
        None
    } else {
        match first_windows(platforms, n - 1) {
            Some(i) => Some(i),
            None => if platforms[n - 1].platform@ == "windows"@ {
                Some(n - 1)
            } else {
                None
            },
        }
    }
}

/// The place of the Windows platform among the build's platforms: the first
/// one named `windows`; an error when there is none.
pub fn windows_platform(manifest: &BuildManifest) -> (r: Result<usize, BundleError>)
    ensures
        match r {
            Ok(i) => first_windows(manifest.platforms@, manifest.platforms@.len() as int) == Some(i as int),
            Err(e) => first_windows(manifest.platforms@, manifest.platforms@.len() as int) is None && e
                == BundleError::WindowsNotConfigured,
        },
{
    let mut i: usize = 0;
    while i < manifest.platforms.len()
        invariant
            i <= manifest.platforms@.len(),
            first_windows(manifest.platforms@, i as int) is None,
        decreases manifest.platforms@.len() - i,
    {
        if crate::text::str_eq(manifest.platforms[i].platform.as_str(), "windows") {
            assert(first_windows(manifest.platforms@, i + 1) == Some(i as int));
            proof {
                lemma_first_windows_stays(manifest.platforms@, i + 1, manifest.platforms@.len() as int);
            }
            return Ok(i);
        }
        i = i + 1;
    }
    Err(BundleError::WindowsNotConfigured)
}

proof fn lemma_first_windows_stays(platforms: Seq<PlatformManifest>, m: int, n: int)
    requires
        0 <= m <= n,
        first_windows(platforms, m) is Some,
    ensures
        first_windows(platforms, n) == first_windows(platforms, m),
    decreases n - m,
{
    if n > m {
        lemma_first_windows_stays(platforms, m, n - 1);
    }
}

/// The directories and output of a target's bundle: the output directory
/// `build_dir/platform/target`, the setup project `setup-src` in it, and the
/// setup program `setup.exe` in it.
pub open spec fn bundle_paths_spec(build_dir: Seq<char>, platform: Seq<char>, target: Seq<char>) -> (Seq<char>, Seq<char>, Seq<char>) {
    let output_dir = path_join_spec(path_join_spec(build_dir, platform), target);
    (output_dir, path_join_spec(output_dir, "setup-src"@), path_join_spec(output_dir, "setup.exe"@))
}

/// The directories and output of a target's bundle.
pub fn bundle_paths(build_dir: &str, platform: &str, target: &str) -> (r: (String, String, String))
    ensures
        (r.0@, r.1@, r.2@) == bundle_paths_spec(build_dir@, platform@, target@),
{
    let platform_dir = path_join(build_dir, platform);
    let output_dir = path_join(platform_dir.as_str(), target);
    let setup_source = path_join(output_dir.as_str(), "setup-src");
    let setup_output = path_join(output_dir.as_str(), "setup.exe");
    (output_dir, setup_source, setup_output)
}

/// The arguments of `cargo` that build binary `bin` of the setup project for
/// `target` in release mode.
pub fn binary_build_args(target: &str, bin: &str) -> (r: Vec<String>)
    ensures
        string_views(r@) == seq!["build"@, "--release"@, "--target"@, target@, "--bin"@, bin@],
{
    let mut args: Vec<String> = Vec::new();
    args.push(owned("build"));
    args.push(owned("--release"));
    args.push(owned("--target"));
    args.push(owned(target));
    args.push(owned("--bin"));
    args.push(owned(bin));
    assert(string_views(args@) =~= seq!["build"@, "--release"@, "--target"@, target@, "--bin"@, bin@]);
    args
}

/// Where a release build of the setup project puts executable `name` for
/// `target`: `target/<target>/release/<name>.exe` in the project.
pub open spec fn release_exe_path_spec(target: Seq<char>, setup_source_dir: Seq<char>, name: Seq<char>) -> Seq<char> {
    path_join_spec(
        path_join_spec(path_join_spec(path_join_spec(setup_source_dir, "target"@), target), "release"@),
        name + ".exe"@,
    )
}

/// Where a release build of the setup project puts executable `name`.
pub fn release_exe_path(target: &str, setup_source_dir: &str, name: &str) -> (r: String)
    ensures
        r@ == release_exe_path_spec(target@, setup_source_dir@, name@),
{
    let a = path_join(setup_source_dir, "target");
    let b = path_join(a.as_str(), target);
    let c = path_join(b.as_str(), "release");
    let file = concat2(name, ".exe");
    path_join(c.as_str(), file.as_str())
}

/// Where a built executable is copied: the output path itself when it has an
/// extension, else `<name>.exe` inside it.
pub fn copy_destination(output_file: &str, output_has_extension: bool, name: &str) -> (r: String)
    ensures
        r@ == if output_has_extension { output_file@ } else { path_join_spec(output_file@, name@ + ".exe"@) },
{
    if output_has_extension {
        owned(output_file)
    } else {
        let file = concat2(name, ".exe");
        path_join(output_file, file.as_str())
    }
}

/// The setup project's `Cargo.toml` from its template: the workspace marker
/// becomes `[workspace]`, and the installer core dependency points inside the
/// project.
pub open spec fn setup_cargo_toml_spec(template: Seq<char>) -> Seq<char> {
    replace_all(
        replace_all(template, "# crapapp_template_generated_workspace!()"@, "[workspace]"@),
        "windows-installer-core = { path = \"../windows-installer-core\" }"@,
        "windows-installer-core = { path = \"windows-installer-core\" }"@,
    )
}

/// The setup project's `Cargo.toml` from its template.
pub fn setup_cargo_toml(template: &str) -> (r: String)
    ensures
        r@ == setup_cargo_toml_spec(template@),
{
    let marker = "# crapapp_template_generated_workspace!()";
    let dependency = "windows-installer-core = { path = \"../windows-installer-core\" }";
    proof {
        reveal_strlit("# crapapp_template_generated_workspace!()");
        reveal_strlit("windows-installer-core = { path = \"../windows-installer-core\" }");
    }
    let with_workspace = replace_str(template, marker, "[workspace]");
    replace_str(with_workspace.as_str(), dependency, "windows-installer-core = { path = \"windows-installer-core\" }")
}

/// The place of `target` among the platform's targets.
pub fn find_target(platform: &PlatformManifest, target: &str) -> (r: Result<usize, BundleError>)
    ensures
        match r {
            Ok(i) => i < platform.targets@.len() && platform.targets@[i as int].target@ == target@ && forall|j: int|
                0 <= j < i ==> #[trigger] platform.targets@[j].target@ != target@,
            Err(e) => e == BundleError::UnknownTarget && forall|j: int|
                0 <= j < platform.targets@.len() ==> #[trigger] platform.targets@[j].target@ != target@,
        },
{
    let mut i: usize = 0;
    while i < platform.targets.len()
        invariant
            i <= platform.targets@.len(),
            forall|j: int| 0 <= j < i ==> #[trigger] platform.targets@[j].target@ != target@,
        decreases platform.targets@.len() - i,
    {
        if crate::text::str_eq(platform.targets[i].target.as_str(), target) {
            return Ok(i);
        }
        i = i + 1;
    }
    Err(BundleError::UnknownTarget)
}

/// A payload file as the setup program embeds it.
#[derive(Debug)]
pub struct SetupPayloadFile {
    pub source: String,
    pub destination: String,
    pub executable: bool,
}

/// What the setup program embeds: the application, its publisher, the
/// variables it resolves, the uninstaller, the payload and the icons.
#[derive(Debug)]
pub struct SetupInstallerConfig {
    pub app_name: String,
    pub app_version: String,
    pub publisher: Option<String>,
    pub variables: Vec<String>,
    pub uninstaller_source: String,
    pub payload: Vec<SetupPayloadFile>,
    pub icons: Vec<IconMapping>,
}

impl SetupInstallerConfig {
    /// The setup configuration of a target. `canonical_sources` holds, for
    /// each payload file in order, its source as an absolute path; the
    /// uninstaller's source is empty when there is none yet.
    pub fn new(
        app_name: &str,
        app_version: &str,
        publisher: Option<&str>,
        icons: &Vec<IconMapping>,
        variables: &Vec<BuildVariable>,
        uninstaller_source: Option<&str>,
        files: &Vec<PayloadFile>,
        canonical_sources: &Vec<String>,
    ) -> (r: Self)
        requires
            canonical_sources@.len() == files@.len(),
        ensures
            r.app_name@ == app_name@,
            r.app_version@ == app_version@,
            r.publisher is Some <==> publisher is Some,
            publisher matches Some(p) ==> r.publisher.unwrap()@ == p@,
            string_views(r.variables@) == variables@.map_values(|v: BuildVariable| variable_name_spec(v)),
            r.uninstaller_source@ == match uninstaller_source {
                Some(s) => s@,
                None => Seq::<char>::empty(),
            },
            r.payload@.len() == files@.len(),
            forall|i: int|
                0 <= i < files@.len() ==> (#[trigger] r.payload@[i]).source@ == canonical_sources@[i]@
                    && r.payload@[i].destination@ == files@[i].destination@ && r.payload@[i].executable
                    == files@[i].executable,
            r.icons@.len() == icons@.len(),
            forall|i: int|
                0 <= i < icons@.len() ==> (#[trigger] r.icons@[i]).binary@ == icons@[i].binary@ && r.icons@[i].source@
                    == icons@[i].source@,
    {
        let mut names: Vec<String> = Vec::new();
        let mut i: usize = 0;
        while i < variables.len()
            invariant
                i <= variables@.len(),
                string_views(names@) == variables@.take(i as int).map_values(|v: BuildVariable| variable_name_spec(v)),
            decreases variables@.len() - i,
        {
            let ghost before = names@;
            names.push(owned(variables[i].name()));
            assert(string_views(names@) =~= string_views(before).push(variable_name_spec(variables@[i as int])));
            assert(variables@.take(i + 1).map_values(|v: BuildVariable| variable_name_spec(v)) =~= variables@.take(
                i as int,
            ).map_values(|v: BuildVariable| variable_name_spec(v)).push(variable_name_spec(variables@[i as int])));
            i = i + 1;
        }
        assert(variables@.take(i as int) =~= variables@);
        let mut payload: Vec<SetupPayloadFile> = Vec::new();
        let mut k: usize = 0;
        while k < files.len()
            invariant
                k <= files@.len(),
                canonical_sources@.len() == files@.len(),
                payload@.len() == k,
                forall|j: int|
                    0 <= j < k ==> (#[trigger] payload@[j]).source@ == canonical_sources@[j]@ && payload@[j].destination@
                        == files@[j].destination@ && payload@[j].executable == files@[j].executable,
            decreases files@.len() - k,
        {
            payload.push(
                SetupPayloadFile {
                    source: owned(canonical_sources[k].as_str()),
                    destination: owned(files[k].destination.as_str()),
                    executable: files[k].executable,
                },
            );
            k = k + 1;
        }
        let mut copied: Vec<IconMapping> = Vec::new();
        let mut m: usize = 0;
        while m < icons.len()
            invariant
                m <= icons@.len(),
                copied@.len() == m,
                forall|j: int|
                    0 <= j < m ==> (#[trigger] copied@[j]).binary@ == icons@[j].binary@ && copied@[j].source@
                        == icons@[j].source@,
            decreases icons@.len() - m,
        {
            copied.push(IconMapping { binary: owned(icons[m].binary.as_str()), source: owned(icons[m].source.as_str()) });
            m = m + 1;
        }
        SetupInstallerConfig {
            app_name: owned(app_name),
            app_version: owned(app_version),
            publisher: match publisher {
                Some(p) => Some(owned(p)),
                None => None,
            },
            variables: names,
            uninstaller_source: match uninstaller_source {
                Some(s) => owned(s),
                None => String::new(),
            },
            payload,
            icons: copied,
        }
    }
}

/// A target's payload must hold at least one file.
pub fn check_payload(files: &Vec<PayloadFile>) -> (r: Result<(), BundleError>)
    ensures
        r is Ok <==> files@.len() > 0,
        r matches Err(e) ==> e == BundleError::NoFiles,
{
    if files.len() == 0 {
        Err(BundleError::NoFiles)
    } else {
        Ok(())
    }
}

} // verus!
