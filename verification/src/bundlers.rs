//! The kinds of bundle each platform can produce, and the stable names by
//! which the command line and the manifest write them.
use vstd::prelude::*;

verus! {

/// Windows bundles.
#[derive(Clone, Copy, Debug, PartialEq, Eq, Structural)]
pub enum WindowsBundlerKind {
    Cli,
    Gui,
    Msi,
}

/// Windows installer front ends.
#[derive(Clone, Copy, Debug, PartialEq, Eq, Structural)]
pub enum WindowsInstallerKind {
    Cli,
    Gui,
}

/// Linux bundles.
#[derive(Clone, Copy, Debug, PartialEq, Eq, Structural)]
pub enum LinuxBundlerKind {
    Deb,
    Rpm,
    Aur,
}

/// macOS bundles.
#[derive(Clone, Copy, Debug, PartialEq, Eq, Structural)]
pub enum MacosInstallerKind {
    App,
    Pkg,
    Dmg,
}

pub open spec fn windows_bundler_name(k: WindowsBundlerKind) -> Seq<char> {
    match k {
        WindowsBundlerKind::Cli => "cli"@,
        WindowsBundlerKind::Gui => "gui"@,
        WindowsBundlerKind::Msi => "msi"@,
    }
}

pub open spec fn linux_bundler_name(k: LinuxBundlerKind) -> Seq<char> {
    match k {
        LinuxBundlerKind::Deb => "deb"@,
        LinuxBundlerKind::Rpm => "rpm"@,
        LinuxBundlerKind::Aur => "aur"@,
    }
}

pub open spec fn macos_installer_name(k: MacosInstallerKind) -> Seq<char> {
    match k {
        MacosInstallerKind::App => "app"@,
        MacosInstallerKind::Pkg => "pkg"@,
        MacosInstallerKind::Dmg => "dmg"@,
    }
}

impl WindowsBundlerKind {
    /// The bundle's name, also the directory its output lands in.
    pub fn to_string(&self) -> (r: String)
        ensures
            r@ == windows_bundler_name(*self),
    {
        match self {
            WindowsBundlerKind::Cli => "cli".to_string(),
            WindowsBundlerKind::Gui => "gui".to_string(),
            WindowsBundlerKind::Msi => "msi".to_string(),
        }
    }
}

impl LinuxBundlerKind {
    /// The bundle's name, also the directory its output lands in.
    pub fn to_string(&self) -> (r: String)
        ensures
            r@ == linux_bundler_name(*self),
    {
        match self {
            LinuxBundlerKind::Deb => "deb".to_string(),
            LinuxBundlerKind::Rpm => "rpm".to_string(),
            LinuxBundlerKind::Aur => "aur".to_string(),
        }
    }
}

impl MacosInstallerKind {
    /// The bundle's name, also the directory its output lands in.
    pub fn to_string(&self) -> (r: String)
        ensures
            r@ == macos_installer_name(*self),
    {
        match self {
            MacosInstallerKind::App => "app".to_string(),
            MacosInstallerKind::Pkg => "pkg".to_string(),
            MacosInstallerKind::Dmg => "dmg".to_string(),
        }
    }
}

/// `s` with every element after its first occurrence removed; the first
/// occurrences keep their order.
pub open spec fn dedup_seq<T>(s: Seq<T>) -> Seq<T>
    decreases s.len(),
{
    if s.len() == 0 {
        s
    } else {
        let d = dedup_seq(s.drop_last());
        if d.contains(s.last()) { d } else { d.push(s.last()) }
    }
}

/// The requested kinds, or `default` alone when none is requested, without
/// repeats, in order of first request.
pub open spec fn requested_kinds<T>(requested: Seq<T>, default: T) -> Seq<T> {
    if requested.len() == 0 { seq![default] } else { dedup_seq(requested) }
}

/// Deduplication keeps exactly the elements of its input, each once.
pub proof fn lemma_dedup_seq<T>(s: Seq<T>)
    ensures
        dedup_seq(s).no_duplicates(),
        forall|x: T| dedup_seq(s).contains(x) <==> s.contains(x),
        dedup_seq(s).len() <= s.len(),
    decreases s.len(),
{
    if s.len() > 0 {
        lemma_dedup_seq(s.drop_last());
        let d = dedup_seq(s.drop_last());
        assert forall|x: T| dedup_seq(s).contains(x) <==> s.contains(x) by {
            if s.contains(x) {
                let i = choose|i: int| 0 <= i < s.len() && s[i] == x;
                if i < s.len() - 1 {
                    assert(s.drop_last()[i] == x);
                }
            }
            if s.drop_last().contains(x) {
                let i = choose|i: int| 0 <= i < s.drop_last().len() && s.drop_last()[i] == x;
                assert(s[i] == x);
            }
            if x == s.last() {
                assert(s[s.len() - 1] == x);
            }
            if d.contains(x) {
                let j = choose|j: int| 0 <= j < d.len() && d[j] == x;
                assert(d.push(s.last())[j] == x);
            }
            if !d.contains(s.last()) && x == s.last() {
                assert(d.push(s.last())[d.len() as int] == x);
            }
            if !d.contains(s.last()) && d.push(s.last()).contains(x) && x != s.last() {
                let i = choose|i: int| 0 <= i < d.push(s.last()).len() && d.push(s.last())[i] == x;
                assert(d[i] == x);
            }
        }
    }
}

/// Deduplicating twice is deduplicating once.
pub proof fn lemma_dedup_seq_idempotent<T>(s: Seq<T>)
    ensures
        dedup_seq(dedup_seq(s)) == dedup_seq(s),
{
    lemma_dedup_seq(s);
    lemma_dedup_of_distinct(dedup_seq(s));
}

/// A sequence without repeats is its own deduplication.
pub proof fn lemma_dedup_of_distinct<T>(s: Seq<T>)
    requires
        s.no_duplicates(),
    ensures
        dedup_seq(s) == s,
    decreases s.len(),
{
    if s.len() > 0 {
        assert(s.drop_last().no_duplicates());
        lemma_dedup_of_distinct(s.drop_last());
        assert(!s.drop_last().contains(s.last()));
        assert(s.drop_last().push(s.last()) == s);
    }
}

} // verus!
