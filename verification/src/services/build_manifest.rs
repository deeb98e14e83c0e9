//! The build manifest: the package's name and version, the build settings,
//! and for each platform its variables, icons and target payloads.
use vstd::prelude::*;

use crate::services::build_config_manifest::BuildConfigManifest;
use crate::services::cargo_package::CargoPackage;
use crate::services::icons::{check_icons, first_failing_icon, icon_failure_message, IconError};
use crate::services::manifest_file::{
    install_path_sources, linux_triple, macos_triple, platform_kind, platform_kinds, windows_triple, BuildConfig,
    CrapManifest, FileMapping, LinuxPlatform, LinuxTarget, MacosPlatform, MacosTarget, PlatformConfig, WindowsPlatform,
    WindowsTarget,
};
use crate::services::payload_file::{all_mapping_files, first_missing, files_view, payload_files, PayloadError, PayloadSource};
use crate::target_manifest::binary_files;
use crate::services::build_variable::{
    file_names, get_platform_variables, value_names, variable_name_spec, variables_outcome, BuildVariable,
    VariableError,
};
use crate::services::icons::IconMapping;
use crate::services::payload_file::PayloadFile;
use crate::services::target_manifest::{shortcut_view, Shortcut, TargetManifest};
use crate::text::{join_seq, join_strings, opt_str_view, opt_string_view, push_str, string_views, strs_view};

verus! {

/// What the build produces: the package, its build settings and platforms.
#[derive(Debug)]
pub struct BuildManifest {
    pub app_name: String,
    pub version: String,
    pub build: BuildConfigManifest,
    pub platforms: Vec<PlatformManifest>,
}

/// One platform of the build: its name, the variables it needs, the icons
/// of its binaries and its targets.
#[derive(Debug)]
pub struct PlatformManifest {
    pub platform: String,
    pub variables: Vec<BuildVariable>,
    pub icons: Vec<IconMapping>,
    pub targets: Vec<TargetManifest>,
}

/// How the build manifest is shown.
#[derive(Clone, Copy, Debug, PartialEq, Eq, Structural)]
pub enum BuildManifestFormatter {
    Text,
    Json,
}

impl PlatformManifest {
    /// A platform with the variables that its variable sources and payload
    /// files reference; an error for an unsupported variable.
    pub fn new(
        platform: &str,
        variable_sources: &[&str],
        files: &[PayloadFile],
        icons: Vec<IconMapping>,
        targets: Vec<TargetManifest>,
    ) -> (r: Result<Self, VariableError>)
        ensures
            match variables_outcome(value_names(strs_view(variable_sources@)) + file_names(files@)) {
                Ok(vs) => r matches Ok(m) && m.platform@ == platform@ && m.variables@ == vs && m.icons@ == icons@
                    && m.targets@ == targets@,
                Err(n) => r matches Err(VariableError::Unsupported(x)) && x@ == n,
            },
    {
        match get_platform_variables(variable_sources, files) {
            Ok(variables) => Ok(PlatformManifest { platform: platform.to_string(), variables, icons, targets }),
            Err(e) => Err(e),
        }
    }
}

/// The line of a payload file: `x` for an executable, `-` otherwise, then
/// source and destination.
pub open spec fn file_line(f: PayloadFile) -> Seq<char> {
    "      ["@ + (if f.executable { "x"@ } else { "-"@ }) + "] "@ + f.source@ + " -> "@ + f.destination@ + "\n"@
}

/// The lines of payload files.
pub open spec fn file_lines(fs: Seq<PayloadFile>) -> Seq<char>
    decreases fs.len(),
{
    if fs.len() == 0 {
        Seq::empty()
    } else {
        file_lines(fs.drop_last()) + file_line(fs.last())
    }
}

/// The lines of targets: each triple, then its payload files.
pub open spec fn target_lines(ts: Seq<TargetManifest>) -> Seq<char>
    decreases ts.len(),
{
    if ts.len() == 0 {
        Seq::empty()
    } else {
        target_lines(ts.drop_last()) + "    "@ + ts.last().target@ + "\n"@ + file_lines(ts.last().files@)
    }
}

/// The lines of icons: binary and icon source.
pub open spec fn icon_lines(icons: Seq<IconMapping>) -> Seq<char>
    decreases icons.len(),
{
    if icons.len() == 0 {
        Seq::empty()
    } else {
        icon_lines(icons.drop_last()) + "    icon: "@ + icons.last().binary@ + " -> "@ + icons.last().source@ + "\n"@
    }
}

/// The line of a platform's variables, none when it has none.
pub open spec fn variables_line(vs: Seq<BuildVariable>) -> Seq<char> {
    if vs.len() == 0 {
        Seq::empty()
    } else {
        "    variables: "@ + join_seq(vs.map_values(|v: BuildVariable| variable_name_spec(v)), ", "@) + "\n"@
    }
}

/// The lines of a platform: its name, variables, icons and targets.
pub open spec fn platform_lines(p: PlatformManifest) -> Seq<char> {
    "  "@ + p.platform@ + "\n"@ + variables_line(p.variables@) + icon_lines(p.icons@) + target_lines(p.targets@)
}

/// The lines of platforms.
pub open spec fn platforms_lines(ps: Seq<PlatformManifest>) -> Seq<char>
    decreases ps.len(),
{
    if ps.len() == 0 {
        Seq::empty()
    } else {
        platforms_lines(ps.drop_last()) + platform_lines(ps.last())
    }
}

/// A `label: a, b` line, none for an empty list.
pub open spec fn joined_line(label: Seq<char>, items: Seq<String>) -> Seq<char> {
    if items.len() == 0 {
        Seq::empty()
    } else {
        label + ": "@ + join_seq(string_views(items), ", "@) + "\n"@
    }
}

/// The build manifest as text: app, version, publisher, packages and
/// features, then the platforms.
pub open spec fn manifest_text(m: BuildManifest) -> Seq<char> {
    "app: "@ + m.app_name@ + "\n"@ + "version: "@ + m.version@ + "\n"@ + (match m.build.publisher {
        Some(p) => "publisher: "@ + p@ + "\n"@,
        None => Seq::empty(),
    }) + joined_line("packages"@, m.build.packages@) + joined_line("features"@, m.build.features@) + "platforms:\n"@
        + platforms_lines(m.platforms@)
}

fn push_file_lines(out: &mut String, files: &Vec<PayloadFile>)
    ensures
        final(out)@ == old(out)@ + file_lines(files@),
{
    let ghost start = out@;
    let mut i: usize = 0;
    while i < files.len()
        invariant
            i <= files@.len(),
            out@ == start + file_lines(files@.take(i as int)),
        decreases files@.len() - i,
    {
        let f = &files[i];
        push_str(out, "      [");
        push_str(out, if f.executable { "x" } else { "-" });
        push_str(out, "] ");
        push_str(out, f.source.as_str());
        push_str(out, " -> ");
        push_str(out, f.destination.as_str());
        push_str(out, "\n");
        assert(files@.take(i + 1).drop_last() =~= files@.take(i as int));
        assert(out@ =~= start + file_lines(files@.take(i + 1)));
        i = i + 1;
    }
    assert(files@.take(i as int) =~= files@);
}

fn push_target_lines(out: &mut String, targets: &Vec<TargetManifest>)
    ensures
        final(out)@ == old(out)@ + target_lines(targets@),
{
    let ghost start = out@;
    let mut i: usize = 0;
    while i < targets.len()
        invariant
            i <= targets@.len(),
            out@ == start + target_lines(targets@.take(i as int)),
        decreases targets@.len() - i,
    {
        push_str(out, "    ");
        push_str(out, targets[i].target.as_str());
        push_str(out, "\n");
        push_file_lines(out, &targets[i].files);
        assert(targets@.take(i + 1).drop_last() =~= targets@.take(i as int));
        assert(out@ =~= start + target_lines(targets@.take(i + 1)));
        i = i + 1;
    }
    assert(targets@.take(i as int) =~= targets@);
}

fn push_icon_lines(out: &mut String, icons: &Vec<IconMapping>)
    ensures
        final(out)@ == old(out)@ + icon_lines(icons@),
{
    let ghost start = out@;
    let mut i: usize = 0;
    while i < icons.len()
        invariant
            i <= icons@.len(),
            out@ == start + icon_lines(icons@.take(i as int)),
        decreases icons@.len() - i,
    {
        push_str(out, "    icon: ");
        push_str(out, icons[i].binary.as_str());
        push_str(out, " -> ");
        push_str(out, icons[i].source.as_str());
        push_str(out, "\n");
        assert(icons@.take(i + 1).drop_last() =~= icons@.take(i as int));
        assert(out@ =~= start + icon_lines(icons@.take(i + 1)));
        i = i + 1;
    }
    assert(icons@.take(i as int) =~= icons@);
}

fn push_variables_line(out: &mut String, variables: &Vec<BuildVariable>)
    ensures
        final(out)@ == old(out)@ + variables_line(variables@),
{
    if variables.len() == 0 {
        assert(old(out)@ + variables_line(variables@) =~= old(out)@);
        return;
    }
    let mut names: Vec<String> = Vec::new();
    let mut i: usize = 0;
    while i < variables.len()
        invariant
            i <= variables@.len(),
            string_views(names@) == variables@.take(i as int).map_values(|v: BuildVariable| variable_name_spec(v)),
        decreases variables@.len() - i,
    {
        let ghost before = names@;
        names.push(variables[i].name().to_string());
        assert(string_views(names@) =~= string_views(before).push(variable_name_spec(variables@[i as int])));
        assert(variables@.take(i + 1).map_values(|v: BuildVariable| variable_name_spec(v)) =~= variables@.take(
            i as int,
        ).map_values(|v: BuildVariable| variable_name_spec(v)).push(variable_name_spec(variables@[i as int])));
        i = i + 1;
    }
    assert(variables@.take(i as int) =~= variables@);
    let ghost start = out@;
    push_str(out, "    variables: ");
    push_str(out, join_strings(names.as_slice(), ", ").as_str());
    push_str(out, "\n");
    assert(out@ =~= start + variables_line(variables@));
}

fn push_joined_line(out: &mut String, label: &str, items: &Vec<String>)
    ensures
        final(out)@ == old(out)@ + joined_line(label@, items@),
{
    if items.len() == 0 {
        assert(old(out)@ + joined_line(label@, items@) =~= old(out)@);
        return;
    }
    let ghost start = out@;
    push_str(out, label);
    push_str(out, ": ");
    push_str(out, join_strings(items.as_slice(), ", ").as_str());
    push_str(out, "\n");
    assert(out@ =~= start + joined_line(label@, items@));
}

impl PlatformManifest {
    fn push_lines(&self, out: &mut String)
        ensures
            final(out)@ == old(out)@ + platform_lines(*self),
    {
        let ghost start = out@;
        push_str(out, "  ");
        push_str(out, self.platform.as_str());
        push_str(out, "\n");
        push_variables_line(out, &self.variables);
        push_icon_lines(out, &self.icons);
        push_target_lines(out, &self.targets);
        assert(out@ =~= start + platform_lines(*self));
    }
}

impl BuildManifest {
    /// The build manifest as text: app, version, publisher, packages and
    /// features, then each platform with its variables, icons, targets and
    /// payload files.
    pub fn display_text(&self) -> (r: String)
        ensures
            r@ == manifest_text(*self),
    {
        let mut output = String::new();
        push_str(&mut output, "app: ");
        push_str(&mut output, self.app_name.as_str());
        push_str(&mut output, "\n");
        push_str(&mut output, "version: ");
        push_str(&mut output, self.version.as_str());
        push_str(&mut output, "\n");
        if let Some(publisher) = &self.build.publisher {
            push_str(&mut output, "publisher: ");
            push_str(&mut output, publisher.as_str());
            push_str(&mut output, "\n");
        }
        let ghost head = output@;
        push_joined_line(&mut output, "packages", &self.build.packages);
        push_joined_line(&mut output, "features", &self.build.features);
        push_str(&mut output, "platforms:\n");
        let ghost body = output@;
        let mut i: usize = 0;
        while i < self.platforms.len()
            invariant
                i <= self.platforms@.len(),
                output@ == body + platforms_lines(self.platforms@.take(i as int)),
            decreases self.platforms@.len() - i,
        {
            self.platforms[i].push_lines(&mut output);
            assert(self.platforms@.take(i + 1).drop_last() =~= self.platforms@.take(i as int));
            i = i + 1;
        }
        assert(self.platforms@.take(i as int) =~= self.platforms@);
        assert(output@ =~= manifest_text(*self));
        output
    }
}

/// What a platform section of the manifest gives the build: its name, file
/// mappings, install path, bin directory, variable sources, icons and target
/// triples.
pub struct PlatformSection {
    pub name: Seq<char>,
    pub files: Seq<FileMapping>,
    pub install_path: Option<Seq<char>>,
    pub bin_dir: Seq<char>,
    pub variable_sources: Seq<Seq<char>>,
    pub icons: Seq<IconMapping>,
    pub targets: Seq<Seq<char>>,
}

/// The Windows section as the build reads it.
pub open spec fn windows_section(w: WindowsPlatform) -> PlatformSection {
    PlatformSection {
        name: "windows"@,
        files: w.files@,
        install_path: opt_string_view(w.install_path),
        bin_dir: match w.bin_dir {
            Some(d) => d@,
            None => Seq::empty(),
        },
        variable_sources: install_path_sources(w.install_path),
        icons: w.icons@,
        targets: w.targets@.map_values(|t: WindowsTarget| windows_triple(t)),
    }
}

/// The macOS section as the build reads it.
pub open spec fn macos_section(m: MacosPlatform) -> PlatformSection {
    PlatformSection {
        name: "macos"@,
        files: m.files@,
        install_path: None,
        bin_dir: "bin"@,
        variable_sources: Seq::empty(),
        icons: Seq::empty(),
        targets: m.targets@.map_values(|t: MacosTarget| macos_triple(t)),
    }
}

/// The Linux section as the build reads it.
pub open spec fn linux_section(l: LinuxPlatform) -> PlatformSection {
    PlatformSection {
        name: "linux"@,
        files: l.files@,
        install_path: None,
        bin_dir: "bin"@,
        variable_sources: Seq::empty(),
        icons: Seq::empty(),
        targets: l.targets@.map_values(|t: LinuxTarget| linux_triple(t)),
    }
}

/// A configured platform as the build reads it.
pub open spec fn section_of(p: PlatformConfig) -> PlatformSection {
    match p {
        PlatformConfig::Windows(w) => windows_section(*w),
        PlatformConfig::Macos(m) => macos_section(*m),
        PlatformConfig::Linux(l) => linux_section(*l),
    }
}

/// The manifest's platforms as the build reads them: Windows, macOS, then
/// Linux, each when present.
pub open spec fn manifest_sections(m: CrapManifest) -> Seq<PlatformSection> {
    (match m.windows {
        Some(w) => seq![windows_section(w)],
        None => Seq::empty(),
    }) + (match m.macos {
        Some(x) => seq![macos_section(x)],
        None => Seq::empty(),
    }) + (match m.linux {
        Some(l) => seq![linux_section(l)],
        None => Seq::empty(),
    })
}

proof fn lemma_sections(m: CrapManifest, configs: Seq<PlatformConfig>)
    requires
        configs.map_values(|p: PlatformConfig| platform_kind(p)) == platform_kinds(m),
        forall|i: int| 0 <= i < configs.len() ==> match #[trigger] configs[i] {
            PlatformConfig::Windows(w) => m.windows == Some(*w),
            PlatformConfig::Macos(x) => m.macos == Some(*x),
            PlatformConfig::Linux(l) => m.linux == Some(*l),
        },
    ensures
        configs.map_values(|p: PlatformConfig| section_of(p)) == manifest_sections(m),
{
    let kinds = configs.map_values(|p: PlatformConfig| platform_kind(p));
    let sections = configs.map_values(|p: PlatformConfig| section_of(p));
    assert(kinds.len() == configs.len());
    assert forall|i: int| 0 <= i < configs.len() implies #[trigger] sections[i] == manifest_sections(m)[i] by {
        assert(kinds[i] == platform_kind(configs[i]));
        match configs[i] {
            PlatformConfig::Windows(w) => {},
            PlatformConfig::Macos(x) => {},
            PlatformConfig::Linux(l) => {},
        }
    }
    assert(sections =~= manifest_sections(m));
}

/// The variable names that payload files (as values) reference.
pub open spec fn view_file_names(files: Seq<(Seq<char>, Seq<char>, bool)>) -> Seq<Seq<char>>
    decreases files.len(),
{
    if files.len() == 0 {
        Seq::empty()
    } else {
        view_file_names(files.drop_last()) + crate::services::build_variable::variables_spec(files.last().0)
            + crate::services::build_variable::variables_spec(files.last().1)
    }
}

proof fn lemma_view_file_names(files: Seq<PayloadFile>)
    ensures
        file_names(files) == view_file_names(files_view(files)),
    decreases files.len(),
{
    if files.len() > 0 {
        lemma_view_file_names(files.drop_last());
        assert(files_view(files.drop_last()) =~= files_view(files).drop_last());
    }
}

/// No shortcuts: a platform section declares none for its targets.
pub open spec fn no_shortcuts() -> Seq<(Seq<char>, Seq<char>, Option<Seq<char>>)> {
    Seq::empty()
}

/// A built target as values: its triple, payload files and shortcuts.
pub open spec fn target_view(t: TargetManifest) -> (Seq<char>, Seq<(Seq<char>, Seq<char>, bool)>, Seq<(Seq<char>, Seq<char>, Option<Seq<char>>)>) {
    (t.target@, files_view(t.files@), t.shortcuts@.map_values(|x: Shortcut| shortcut_view(x)))
}

/// A built platform as values: its name, variables, icons and targets with
/// their payload files and shortcuts.
pub open spec fn platform_view(p: PlatformManifest) -> (
    Seq<char>,
    Seq<BuildVariable>,
    Seq<(Seq<char>, Seq<char>)>,
    Seq<(Seq<char>, Seq<(Seq<char>, Seq<char>, bool)>, Seq<(Seq<char>, Seq<char>, Option<Seq<char>>)>)>,
) {
    (
        p.platform@,
        p.variables@,
        p.icons@.map_values(|i: IconMapping| (i.binary@, i.source@)),
        p.targets@.map_values(|t: TargetManifest| target_view(t)),
    )
}

/// What the build makes of a platform section, with the sources found for
/// its file mappings and the package's binaries: the message of the first
/// failure (a missing source, icons where they are not supported or for an
/// unknown binary, an unsupported variable), else the platform.
pub open spec fn platform_outcome(s: PlatformSection, srcs: Seq<PayloadSource>, binaries: Seq<String>, icon_files: Seq<Option<String>>) -> Result<
    (Seq<char>, Seq<BuildVariable>, Seq<(Seq<char>, Seq<char>)>, Seq<(Seq<char>, Seq<(Seq<char>, Seq<char>, bool)>, Seq<(Seq<char>, Seq<char>, Option<Seq<char>>)>)>),
    Seq<char>,
> {
    match first_missing(srcs) {
        Some(i) => Err("payload source "@ + s.files[i].source@ + " does not exist"@),
        None => {
            let files = all_mapping_files(s.files, srcs, s.install_path);
            if s.name != "windows"@ && s.icons.len() > 0 {
                Err(s.name + " icons are not supported"@)
            } else {
                match first_failing_icon(s.icons, binaries, icon_files) {
                    Some(i) => Err(icon_failure_message(s.icons[i], binaries, icon_files[i])),
                    None => match variables_outcome(value_names(s.variable_sources) + view_file_names(files)) {
                        Err(n) => Err("Variable "@ + n + " is not supported"@),
                        Ok(vs) => Ok(
                            (
                                s.name,
                                vs,
                                s.icons.map_values(|i: IconMapping| (i.binary@, i.source@)),
                                s.targets.map_values(
                                    |t: Seq<char>| (t, binary_files(t, binaries, s.install_path, s.bin_dir) + files, no_shortcuts()),
                                ),
                            ),
                        ),
                    },
                }
            }
        },
    }
}

/// What the build makes of the first `n` platforms: the first failure's
/// message, else each platform in order.
pub open spec fn platforms_outcome(
    sections: Seq<PlatformSection>,
    sources: Seq<Seq<PayloadSource>>,
    binaries: Seq<String>,
    icon_files: Seq<Seq<Option<String>>>,
    n: int,
) -> Result<
    Seq<(Seq<char>, Seq<BuildVariable>, Seq<(Seq<char>, Seq<char>)>, Seq<(Seq<char>, Seq<(Seq<char>, Seq<char>, bool)>, Seq<(Seq<char>, Seq<char>, Option<Seq<char>>)>)>)>,
    Seq<char>,
>
    decreases n,
{
    if n <= 0 {
        Ok(Seq::empty())
    } else {
        match platforms_outcome(sections, sources, binaries, icon_files, n - 1) {
            Err(e) => Err(e),
            Ok(ps) => match platform_outcome(sections[n - 1], sources[n - 1], binaries, icon_files[n - 1]) {
                Err(e) => Err(e),
                Ok(p) => Ok(ps.push(p)),
            },
        }
    }
}

/// Why the build manifest cannot be made.
#[derive(Debug)]
pub enum BuildManifestError {
    Payload(PayloadError),
    Icon(IconError),
    Variable(VariableError),
}

impl BuildManifestError {
    /// The error's message.
    pub open spec fn message_spec(&self) -> Seq<char> {
        match self {
            BuildManifestError::Payload(e) => e.message_spec(),
            BuildManifestError::Icon(e) => e.message_spec(),
            BuildManifestError::Variable(VariableError::Unsupported(n)) => "Variable "@ + n@ + " is not supported"@,
        }
    }

    /// The error's message.
    pub fn to_string(&self) -> (r: String)
        ensures
            r@ == self.message_spec(),
    {
        match self {
            BuildManifestError::Payload(e) => e.to_string(),
            BuildManifestError::Icon(e) => e.to_string(),
            BuildManifestError::Variable(e) => e.to_string(),
        }
    }
}

/// The build settings of the manifest, as `BuildConfigManifest` reads them.
pub open spec fn build_matches(b: BuildConfigManifest, config: Option<BuildConfig>) -> bool {
    match config {
        None => b.publisher is None && b.packages@.len() == 0 && b.features@.len() == 0,
        Some(c) => opt_string_view(b.publisher) == opt_string_view(c.publisher) && string_views(b.packages@)
            == string_views(c.packages@) && string_views(b.features@) == string_views(c.features@),
    }
}

fn copy_icons(icons: &[IconMapping]) -> (r: Vec<IconMapping>)
    ensures
        r@.map_values(|i: IconMapping| (i.binary@, i.source@)) == icons@.map_values(|i: IconMapping| (i.binary@, i.source@)),
{
    let mut out: Vec<IconMapping> = Vec::new();
    let mut k: usize = 0;
    while k < icons.len()
        invariant
            k <= icons@.len(),
            out@.map_values(|i: IconMapping| (i.binary@, i.source@)) == icons@.take(k as int).map_values(
                |i: IconMapping| (i.binary@, i.source@),
            ),
        decreases icons@.len() - k,
    {
        out.push(IconMapping { binary: icons[k].binary.clone(), source: icons[k].source.clone() });
        assert(icons@.take(k + 1).map_values(|i: IconMapping| (i.binary@, i.source@)) =~= icons@.take(k as int).map_values(
            |i: IconMapping| (i.binary@, i.source@),
        ).push((icons@[k as int].binary@, icons@[k as int].source@)));
        assert(out@.map_values(|i: IconMapping| (i.binary@, i.source@)) =~= icons@.take(k + 1).map_values(
            |i: IconMapping| (i.binary@, i.source@),
        ));
        k = k + 1;
    }
    assert(icons@.take(k as int) =~= icons@);
    out
}

/// What the check of each icon's source file found, platform by platform.
pub open spec fn icon_views(v: Seq<Vec<Option<String>>>) -> Seq<Seq<Option<String>>> {
    v.map_values(|x: Vec<Option<String>>| x@)
}

/// What was found for each file mapping, platform by platform.
pub open spec fn source_views(v: Seq<Vec<PayloadSource>>) -> Seq<Seq<PayloadSource>> {
    v.map_values(|x: Vec<PayloadSource>| x@)
}

fn platform_step(p: &PlatformConfig, sources: &Vec<PayloadSource>, binaries: &Vec<String>, icon_files: &Vec<Option<String>>) -> (r: Result<
    PlatformManifest,
    BuildManifestError,
>)
    requires
        sources@.len() == section_of(*p).files.len(),
        icon_files@.len() == section_of(*p).icons.len(),
    ensures
        match platform_outcome(section_of(*p), sources@, binaries@, icon_files@) {
            Ok(plan) => r matches Ok(m) && platform_view(m) == plan,
            Err(msg) => r matches Err(e) && e.message_spec() == msg,
        },
{
    let ghost sec = section_of(*p);
    let files = match payload_files(p.files(), sources.as_slice(), p.install_path()) {
        Ok(f) => f,
        Err(e) => {
            return Err(BuildManifestError::Payload(e));
        },
    };
    match check_icons(p.name(), p.icons(), binaries.as_slice(), icon_files.as_slice()) {
        Ok(()) => {},
        Err(e) => {
            return Err(BuildManifestError::Icon(e));
        },
    }
    let triples = p.targets();
    let install = p.install_path();
    let bin_dir = p.bin_dir();
    let mut targets: Vec<TargetManifest> = Vec::new();
    let mut k: usize = 0;
    while k < triples.len()
        invariant
            k <= triples@.len(),
            strs_view(triples@) == sec.targets,
            opt_str_view(install) == sec.install_path,
            bin_dir@ == sec.bin_dir,
            sec == section_of(*p),
            targets@.map_values(|t: TargetManifest| target_view(t)) == sec.targets.take(k as int).map_values(
                |t: Seq<char>| (t, binary_files(t, binaries@, sec.install_path, sec.bin_dir) + files_view(files@), no_shortcuts()),
            ),
        decreases triples@.len() - k,
    {
        let none: Vec<crate::manifest_file::ShortcutMapping> = Vec::new();
        let t = triples[k];
        let built = TargetManifest::new(t, binaries.as_slice(), install, bin_dir, files.as_slice(), none.as_slice());
        let target = match built {
            Ok(m) => m,
            Err(_) => {
                assert(false);
                return Err(BuildManifestError::Icon(IconError::UnsupportedPlatform(String::new())));
            },
        };
        assert(target.shortcuts@.map_values(|x: Shortcut| shortcut_view(x)) =~= no_shortcuts());
        let ghost before = targets@;
        targets.push(target);
        assert(sec.targets[k as int] == t@);
        assert(sec.targets.take(k + 1).map_values(
            |t: Seq<char>| (t, binary_files(t, binaries@, sec.install_path, sec.bin_dir) + files_view(files@), no_shortcuts()),
        ) =~= sec.targets.take(k as int).map_values(
            |t: Seq<char>| (t, binary_files(t, binaries@, sec.install_path, sec.bin_dir) + files_view(files@), no_shortcuts()),
        ).push((t@, binary_files(t@, binaries@, sec.install_path, sec.bin_dir) + files_view(files@), no_shortcuts())));
        assert(targets@.map_values(|t: TargetManifest| target_view(t)) =~= before.map_values(
            |t: TargetManifest| target_view(t),
        ).push((t@, binary_files(t@, binaries@, sec.install_path, sec.bin_dir) + files_view(files@), no_shortcuts())));
        k = k + 1;
    }
    assert(sec.targets.take(k as int) =~= sec.targets);
    let sources_of = p.variable_sources();
    proof {
        lemma_view_file_names(files@);
    }
    let icons = copy_icons(p.icons());
    match PlatformManifest::new(p.name(), sources_of.as_slice(), files.as_slice(), icons, targets) {
        Ok(m) => Ok(m),
        Err(e) => Err(BuildManifestError::Variable(e)),
    }
}

impl BuildManifest {
    /// The build manifest of a manifest, for a package and, for each platform
    /// in order, what each of its file mappings' sources was found to be:
    /// the package's name and version, the build settings, and each platform
    /// with its variables, icons and targets; the first failure otherwise.
    pub fn from_parts(
        manifest: &CrapManifest,
        package: &CargoPackage,
        sources: &Vec<Vec<PayloadSource>>,
        icon_files: &Vec<Vec<Option<String>>>,
    ) -> (r: Result<Self, BuildManifestError>)
        requires
            sources@.len() == manifest_sections(*manifest).len(),
            forall|k: int|
                0 <= k < sources@.len() ==> (#[trigger] sources@[k])@.len() == manifest_sections(*manifest)[k].files.len(),
            icon_files@.len() == manifest_sections(*manifest).len(),
            forall|k: int|
                0 <= k < icon_files@.len() ==> (#[trigger] icon_files@[k])@.len() == manifest_sections(*manifest)[k].icons.len(),
        ensures
            match platforms_outcome(
                manifest_sections(*manifest),
                source_views(sources@),
                package.binaries@,
                icon_views(icon_files@),
                sources@.len() as int,
            ) {
                Ok(plans) => r matches Ok(m) && m.app_name@ == package.name@ && m.version@ == package.version@
                    && build_matches(m.build, manifest.build) && m.platforms@.map_values(|p: PlatformManifest| platform_view(p))
                    == plans,
                Err(msg) => r matches Err(e) && e.message_spec() == msg,
            },
    {
        let configs = manifest.platforms();
        let ghost sections = manifest_sections(*manifest);
        let ghost srcs = source_views(sources@);
        let ghost icons = icon_views(icon_files@);
        proof {
            lemma_sections(*manifest, configs@);
        }
        let mut platforms: Vec<PlatformManifest> = Vec::new();
        let mut k: usize = 0;
        while k < configs.len()
            invariant
                k <= configs@.len(),
                configs@.len() == sections.len() == sources@.len(),
                configs@.map_values(|p: PlatformConfig| section_of(p)) == sections,
                sections == manifest_sections(*manifest),
                srcs == source_views(sources@),
                forall|j: int| 0 <= j < sources@.len() ==> (#[trigger] sources@[j])@.len() == sections[j].files.len(),
                icons == icon_views(icon_files@),
                icon_files@.len() == sections.len(),
                forall|j: int| 0 <= j < icon_files@.len() ==> (#[trigger] icon_files@[j])@.len() == sections[j].icons.len(),
                platforms_outcome(sections, srcs, package.binaries@, icons, k as int) matches Ok(ps) && platforms@.map_values(
                    |p: PlatformManifest| platform_view(p),
                ) == ps,
            decreases configs@.len() - k,
        {
            assert(section_of(configs@[k as int]) == sections[k as int]);
            assert(srcs[k as int] == sources@[k as int]@);
            assert(icons[k as int] == icon_files@[k as int]@);
            let step = platform_step(&configs[k], &sources[k], &package.binaries, &icon_files[k]);
            match step {
                Ok(m) => {
                    let ghost before = platforms@;
                    platforms.push(m);
                    assert(platforms@.map_values(|p: PlatformManifest| platform_view(p)) =~= before.map_values(
                        |p: PlatformManifest| platform_view(p),
                    ).push(platform_view(m)));
                },
                Err(e) => {
                    proof {
                        lemma_failed_step(sections, srcs, package.binaries@, icons, k as int, sources@.len() as int, e.message_spec());
                    }
                    return Err(e);
                },
            }
            k = k + 1;
        }
        Ok(BuildManifest {
            app_name: package.name.clone(),
            version: package.version.clone(),
            build: BuildConfigManifest::from_crap_manifest(manifest),
            platforms,
        })
    }
}

proof fn lemma_failed_step(
    sections: Seq<PlatformSection>,
    sources: Seq<Seq<PayloadSource>>,
    binaries: Seq<String>,
    icon_files: Seq<Seq<Option<String>>>,
    k: int,
    n: int,
    msg: Seq<char>,
)
    requires
        0 <= k < n,
        platforms_outcome(sections, sources, binaries, icon_files, k) is Ok,
        platform_outcome(sections[k], sources[k], binaries, icon_files[k]) == Err::<
            (Seq<char>, Seq<BuildVariable>, Seq<(Seq<char>, Seq<char>)>, Seq<(Seq<char>, Seq<(Seq<char>, Seq<char>, bool)>, Seq<(Seq<char>, Seq<char>, Option<Seq<char>>)>)>),
            Seq<char>,
        >(msg),
    ensures
        platforms_outcome(sections, sources, binaries, icon_files, n) == Err::<
            Seq<(Seq<char>, Seq<BuildVariable>, Seq<(Seq<char>, Seq<char>)>, Seq<(Seq<char>, Seq<(Seq<char>, Seq<char>, bool)>, Seq<(Seq<char>, Seq<char>, Option<Seq<char>>)>)>)>,
            Seq<char>,
        >(msg),
{
    lemma_outcome_stays_failed(sections, sources, binaries, icon_files, k + 1, n);
}

proof fn lemma_outcome_stays_failed(
    sections: Seq<PlatformSection>,
    sources: Seq<Seq<PayloadSource>>,
    binaries: Seq<String>,
    icon_files: Seq<Seq<Option<String>>>,
    m: int,
    n: int,
)
    requires
        0 <= m <= n,
        platforms_outcome(sections, sources, binaries, icon_files, m) is Err,
    ensures
        platforms_outcome(sections, sources, binaries, icon_files, n) == platforms_outcome(sections, sources, binaries, icon_files, m),
    decreases n - m,
{
    if n > m {
        lemma_outcome_stays_failed(sections, sources, binaries, icon_files, m, n - 1);
    }
}

} // verus!
