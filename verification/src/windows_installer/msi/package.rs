//! Planning a whole MSI package from an installer configuration: what
//! `build` computes before the database is written.
use vstd::prelude::*;

use crate::text::{concat2, owned, split_seq, string_views};
use crate::windows_installer::config::InstallerConfig;
use crate::windows_installer::msi::builder::{associated_dirs_prefix, associated_prefix, collect_associated_directories,
    error_matches, files_prefix, icons, icons_prefix, icons_view, msi_files, package_files_view, path_updates,
    path_updates_prefix, product_icons_spec, shortcut_components_view, shortcuts, shortcuts_prefix, IconStream,
    PackageFile};
use crate::windows_installer::msi::identity::{braced_guid, cabinet_stream_name, cabinet_stream_name_spec,
    display_name, display_name_spec, manufacturer, manufacturer_spec, msi_page_count, msi_page_count_spec,
    msi_platform, msi_platform_spec, package_code, package_code_name, uuid_v5_url};
use crate::windows_installer::msi::paths::{DirectoryIds, MsiError};
use crate::windows_installer::msi::plan::{package_tables, package_tables_spec, tables_view, TableRows};

verus! {

/// The summary information stream of the package.
#[derive(Debug)]
pub struct SummaryInfo {
    pub subject: String,
    pub author: String,
    pub comments: String,
    pub keywords: Vec<String>,
    pub arch: String,
    pub language: u16,
    pub page_count: i32,
    pub word_count: i32,
    pub doc_security: i32,
    pub creating_application: String,
    pub uuid: [u8; 16],
}

/// Everything the package database is written from: the summary, the
/// tables, the files that go into the cabinet, the icon streams and the
/// cabinet's stream name.
#[derive(Debug)]
pub struct PackagePlan {
    pub summary: SummaryInfo,
    pub tables: Vec<TableRows>,
    pub files: Vec<PackageFile>,
    pub icons: Vec<IconStream>,
    pub cabinet_stream: String,
}

/// The summary of a package: its product as subject, its manufacturer as
/// author, US English, the architecture and page count of its target, and
/// the package code.
pub open spec fn summary_matches(s: SummaryInfo, plan: InstallerConfig) -> bool {
    &&& s.subject@ == display_name_spec(plan)
    &&& s.author@ == manufacturer_spec(plan)
    &&& s.comments@ == display_name_spec(plan) + " installer package"@
    &&& string_views(s.keywords@) == seq!["Installer"@, "MSI"@, "Database"@]
    &&& s.arch@ == msi_platform_spec(plan.bundle_target@)
    &&& s.language == 1033
    &&& s.page_count == msi_page_count_spec(plan.bundle_target@)
    &&& s.word_count == 10
    &&& s.doc_security == 0
    &&& s.creating_application@ == "cargo-crapapp"@
    &&& s.uuid@ == uuid_v5_url(package_code_name(plan))
}

/// A package is built for its target's architecture, the text of the target
/// before its first `-`: `x86_64` gives an `x64` package, `aarch64` an
/// `Arm64` package, and any other architecture an `Intel` one.
pub proof fn lemma_summary_architecture(s: SummaryInfo, plan: InstallerConfig, arch: Seq<char>, rest: Seq<char>)
    requires
        summary_matches(s, plan),
        forall|i: int| 0 <= i < arch.len() ==> arch[i] != '-',
        plan.bundle_target@ == arch + seq!['-'] + rest,
    ensures
        arch == "x86_64"@ ==> s.arch@ == "x64"@,
        arch == "aarch64"@ ==> s.arch@ == "Arm64"@,
        arch != "x86_64"@ && arch != "aarch64"@ ==> s.arch@ == "Intel"@,
{
    crate::text::lemma_split_at_sep(arch, '-', rest);
    crate::text::lemma_split_without_sep(arch, '-');
    crate::text::lemma_split_seq_nonempty(rest, '-');
    assert(split_seq(plan.bundle_target@, '-')[0] == arch);
    reveal_strlit("x86_64");
    reveal_strlit("aarch64");
    assert("x86_64"@ != "aarch64"@) by {
        assert("x86_64"@.len() != "aarch64"@.len());
    }
}

/// A target without a `-` names no architecture, and its package is an
/// `Intel` one.
pub proof fn lemma_summary_architecture_unnamed(s: SummaryInfo, plan: InstallerConfig)
    requires
        summary_matches(s, plan),
        forall|i: int| 0 <= i < plan.bundle_target@.len() ==> plan.bundle_target@[i] != '-',
    ensures
        s.arch@ == "Intel"@,
{
    crate::text::lemma_split_without_sep(plan.bundle_target@, '-');
}

/// The summary information of a package.
pub fn summary_info(plan: &InstallerConfig) -> (r: SummaryInfo)
    ensures
        summary_matches(r, *plan),
{
    let d = display_name(plan);
    let keywords = vec![owned("Installer"), owned("MSI"), owned("Database")];
    assert(string_views(keywords@) =~= seq!["Installer"@, "MSI"@, "Database"@]);
    SummaryInfo {
        subject: owned(d),
        author: owned(manufacturer(plan)),
        comments: concat2(d, " installer package"),
        keywords,
        arch: owned(msi_platform(plan.bundle_target.as_str())),
        language: 1033,
        page_count: msi_page_count(plan.bundle_target.as_str()),
        word_count: 10,
        doc_security: 0,
        creating_application: owned("cargo-crapapp"),
        uuid: package_code(plan),
    }
}

/// What planning a package yields: no payload is an error; then the
/// package files, the associated directories, the shortcuts, the icons and
/// the table rows, each stage failing with its first error.
pub open spec fn plan_outcome(plan: InstallerConfig, sizes: Seq<u64>, display_icon_source: Option<Seq<char>>, p: PackagePlan) -> bool {
    match files_prefix(plan.payload@, sizes, plan.payload@.len(), Seq::empty()) {
        Err(_) => false,
        Ok((files, e1)) => match associated_prefix(plan.associated_files@, plan.associated_files@.len(), e1) {
            Err(_) => false,
            Ok(e2) => match shortcuts_prefix(plan, files, plan.shortcuts@.len()) {
                Err(_) => false,
                Ok(sc) => match icons_prefix(product_icons_spec(plan, files, display_icon_source), sc, files, sc.len()) {
                    Err(_) => false,
                    Ok(ic) => match associated_dirs_prefix(plan.associated_files@, plan.associated_files@.len(), e2) {
                        Err(_) => false,
                        Ok(dirs) => {
                            &&& summary_matches(p.summary, plan)
                            &&& package_files_view(p.files@) == files
                            &&& icons_view(p.icons@) == ic
                            &&& p.cabinet_stream@ == cabinet_stream_name_spec(plan.app_name@)
                            &&& tables_view(p.tables@) == package_tables_spec(plan, cabinet_stream_name_spec(plan.app_name@),
                                files, e2, sc, ic, plan.eulas@, path_updates_prefix(files, files.len()), dirs)
                        },
                    },
                },
            },
        },
    }
}

/// The first error of planning, when there is one.
pub open spec fn plan_error(plan: InstallerConfig, sizes: Seq<u64>, display_icon_source: Option<Seq<char>>, e: MsiError) -> bool {
    if plan.payload@.len() == 0 {
        e is NoPayload
    } else {
        match files_prefix(plan.payload@, sizes, plan.payload@.len(), Seq::empty()) {
            Err(x) => error_matches(e, x),
            Ok((files, e1)) => match associated_prefix(plan.associated_files@, plan.associated_files@.len(), e1) {
                Err(x) => error_matches(e, x),
                Ok(e2) => match shortcuts_prefix(plan, files, plan.shortcuts@.len()) {
                    Err(x) => error_matches(e, x),
                    Ok(sc) => match icons_prefix(product_icons_spec(plan, files, display_icon_source), sc, files, sc.len()) {
                        Err(x) => error_matches(e, x),
                        Ok(ic) => match associated_dirs_prefix(plan.associated_files@, plan.associated_files@.len(), e2) {
                            Err(x) => error_matches(e, x),
                            Ok(_) => false,
                        },
                    },
                },
            },
        }
    }
}

/// The plan of a package: `sizes` holds the size in bytes of each payload
/// source, `display_icon_source` the product icon's own file, if any.
pub fn plan_package(plan: &InstallerConfig, sizes: &[u64], display_icon_source: Option<&str>) -> (r: Result<PackagePlan, MsiError>)
    requires
        sizes@.len() == plan.payload@.len(),
        plan.payload@.len() < i32::MAX,
        plan.eulas@.len() < usize::MAX,
        plan.associated_files@.len() < usize::MAX,
    ensures
        match r {
            Ok(p) => plan.payload@.len() > 0 && plan_outcome(*plan, sizes@, match display_icon_source {
                Some(s) => Some(s@),
                None => None,
            }, p),
            Err(e) => plan_error(*plan, sizes@, match display_icon_source {
                Some(s) => Some(s@),
                None => None,
            }, e),
        },
{
    if plan.payload.len() == 0 {
        return Err(MsiError::NoPayload);
    }
    let summary = summary_info(plan);
    let mut directory_ids = DirectoryIds::new();
    let files = match msi_files(plan, &mut directory_ids, sizes) {
        Ok(f) => f,
        Err(e) => return Err(e),
    };
    match collect_associated_directories(plan, &mut directory_ids) {
        Ok(()) => {},
        Err(e) => return Err(e),
    }
    let shortcut_rows = match shortcuts(plan, &files) {
        Ok(s) => s,
        Err(e) => return Err(e),
    };
    let icon_streams = match icons(plan, &files, &shortcut_rows, display_icon_source) {
        Ok(i) => i,
        Err(e) => return Err(e),
    };
    let updates = path_updates(&files);
    proof {
        crate::windows_installer::msi::builder::lemma_files_prefix_len(plan.payload@, sizes@, plan.payload@.len(), Seq::empty());
        crate::windows_installer::msi::builder::lemma_path_updates_len(package_files_view(files@), files@.len());
    }
    let cabinet_stream = cabinet_stream_name(plan.app_name.as_str());
    let tables = match package_tables(plan, cabinet_stream.as_str(), &files, &directory_ids, &shortcut_rows, &icon_streams, plan.eulas.as_slice(), &updates) {
        Ok(t) => t,
        Err(e) => return Err(e),
    };
    Ok(PackagePlan { summary, tables, files, icons: icon_streams, cabinet_stream })
}

} // verus!
