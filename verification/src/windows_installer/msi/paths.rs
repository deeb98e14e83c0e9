//! Install-relative paths and the MSI directory identifiers they are given.
//!
//! Payload destinations are `/`-separated. A relative path is kept as its
//! list of segments, with empty and `.` segments dropped.
use vstd::prelude::*;

use crate::text::{
    concat2, concat3, has_prefix, numbered, decimal, owned, replace_all, replace_str,
    split_char, split_seq, starts_with, str_eq,
};

verus! {

/// Why a part of the package could not be planned.
#[derive(Debug)]
pub enum MsiError {
    NoPayload,
    UnsupportedVariables { destination: String },
    ParentComponent { destination: String },
    InstallRoot { destination: String },
    AssociatedRoot { path: String },
    UndeclaredDirectory { path: String, root: String },
    FileTooLarge { source: String },
    ShortcutTargetMissing { name: String, target: String },
    ShortcutIconMissing { icon: String },
    IconNotBacked { icon: String },
    NoCleanupComponent,
    TooManyDirectories,
    MissingSource { destination: String },
}

impl MsiError {
    pub open spec fn message_spec(&self) -> Seq<char> {
        match self {
            MsiError::NoPayload => "msi package has no files to package"@,
            MsiError::UnsupportedVariables { destination } => "MSI payload destination "@
                + destination@ + " contains unsupported variables"@,
            MsiError::ParentComponent { destination } => "MSI payload destination "@
                + destination@ + " must not contain parent or prefix components"@,
            MsiError::InstallRoot { destination } => "MSI payload destination "@ + destination@
                + " must not resolve to install root"@,
            MsiError::AssociatedRoot { path } => "MSI associated file path "@ + path@
                + " must start with $INSTALLPATH or $HOMEPATH"@,
            MsiError::UndeclaredDirectory { path, root } => "MSI directory "@ + path@
                + " under "@ + root@ + " was not declared"@,
            MsiError::FileTooLarge { source } => "MSI payload file "@ + source@
                + " is too large"@,
            MsiError::ShortcutTargetMissing { name, target } => "MSI shortcut "@ + name@
                + " target "@ + target@ + " is not in payload"@,
            MsiError::ShortcutIconMissing { icon } => "MSI shortcut icon "@ + icon@
                + " is not in payload"@,
            MsiError::IconNotBacked { icon } => "MSI shortcut icon "@ + icon@
                + " is not backed by a payload file"@,
            MsiError::NoCleanupComponent => "MSI has no component to own registry cleanup"@,
            MsiError::TooManyDirectories => "MSI directory identifiers are exhausted"@,
            MsiError::MissingSource { destination } => "payload source is missing for "@ + destination@,
        }
    }

    /// The message reported for this error.
    pub fn message(&self) -> (r: String)
        ensures
            r@ == self.message_spec(),
    {
        match self {
            MsiError::NoPayload => owned("msi package has no files to package"),
            MsiError::UnsupportedVariables { destination } => concat3(
                "MSI payload destination ",
                destination.as_str(),
                " contains unsupported variables",
            ),
            MsiError::ParentComponent { destination } => concat3(
                "MSI payload destination ",
                destination.as_str(),
                " must not contain parent or prefix components",
            ),
            MsiError::InstallRoot { destination } => concat3(
                "MSI payload destination ",
                destination.as_str(),
                " must not resolve to install root",
            ),
            MsiError::AssociatedRoot { path } => concat3(
                "MSI associated file path ",
                path.as_str(),
                " must start with $INSTALLPATH or $HOMEPATH",
            ),
            MsiError::UndeclaredDirectory { path, root } => {
                let mut s = concat3("MSI directory ", path.as_str(), " under ");
                crate::text::push_str(&mut s, root.as_str());
                crate::text::push_str(&mut s, " was not declared");
                s
            },
            MsiError::FileTooLarge { source } => concat3(
                "MSI payload file ",
                source.as_str(),
                " is too large",
            ),
            MsiError::ShortcutTargetMissing { name, target } => {
                let mut s = concat3("MSI shortcut ", name.as_str(), " target ");
                crate::text::push_str(&mut s, target.as_str());
                crate::text::push_str(&mut s, " is not in payload");
                s
            },
            MsiError::ShortcutIconMissing { icon } => concat3(
                "MSI shortcut icon ",
                icon.as_str(),
                " is not in payload",
            ),
            MsiError::IconNotBacked { icon } => concat3(
                "MSI shortcut icon ",
                icon.as_str(),
                " is not backed by a payload file",
            ),
            MsiError::NoCleanupComponent => owned("MSI has no component to own registry cleanup"),
            MsiError::TooManyDirectories => owned("MSI directory identifiers are exhausted"),
            MsiError::MissingSource { destination } => concat2("payload source is missing for ", destination.as_str()),
        }
    }
}

/// The view of a list of strings.
pub open spec fn strings_view(v: Seq<String>) -> Seq<Seq<char>> {
    v.map_values(|s: String| s@)
}

/// The segments that a path keeps: empty and `.` segments are dropped.
pub open spec fn kept_segments(parts: Seq<Seq<char>>) -> Seq<Seq<char>>
    decreases parts.len(),
{
    if parts.len() == 0 {
        Seq::empty()
    } else {
        let init = kept_segments(parts.drop_last());
        if parts.last().len() == 0 || parts.last() == "."@ {
            init
        } else {
            init.push(parts.last())
        }
    }
}

/// `destination` with `$INSTALLPATH` and `%INSTALLPATH%` removed.
pub open spec fn without_install_path(destination: Seq<char>) -> Seq<char> {
    replace_all(replace_all(destination, "$INSTALLPATH"@, Seq::empty()), "%INSTALLPATH%"@, Seq::empty())
}

/// Whether `c` occurs in `s`.
pub open spec fn has_char(s: Seq<char>, c: char) -> bool {
    exists|i: int| 0 <= i < s.len() && s[i] == c
}

/// The path of a payload destination relative to the installation folder,
/// or why it has none.
pub open spec fn install_relative_spec(destination: Seq<char>) -> Result<Seq<Seq<char>>, MsiError> {
    let d = without_install_path(destination);
    let parts = split_seq(d, '/');
    if has_char(d, '$') || has_char(d, '%') {
        Err(MsiError::UnsupportedVariables { destination: arbitrary() })
    } else if parts.contains(".."@) {
        Err(MsiError::ParentComponent { destination: arbitrary() })
    } else if kept_segments(parts).len() == 0 {
        Err(MsiError::InstallRoot { destination: arbitrary() })
    } else {
        Ok(kept_segments(parts))
    }
}

/// The error variant of `r` matches that of `expected`, carrying `text`.
pub open spec fn same_error(r: MsiError, expected: MsiError, text: Seq<char>) -> bool {
    match expected {
        MsiError::UnsupportedVariables { .. } => r matches MsiError::UnsupportedVariables { destination } && destination@ == text,
        MsiError::ParentComponent { .. } => r matches MsiError::ParentComponent { destination } && destination@ == text,
        MsiError::InstallRoot { .. } => r matches MsiError::InstallRoot { destination } && destination@ == text,
        _ => false,
    }
}

/// The result of `install_relative_path` agrees with `install_relative_spec`.
pub open spec fn relative_result_matches(r: Result<Vec<String>, MsiError>, destination: Seq<char>) -> bool {
    match install_relative_spec(destination) {
        Ok(segments) => r matches Ok(v) && strings_view(v@) == segments,
        Err(expected) => r matches Err(e) && same_error(e, expected, without_install_path(destination)),
    }
}

fn has_char_exec(s: &str, c: char) -> (r: bool)
    ensures
        r == has_char(s@, c),
{
    let n = s.unicode_len();
    let mut i: usize = 0;
    while i < n
        invariant
            n == s@.len(),
            i <= n,
            forall|k: int| 0 <= k < i ==> s@[k] != c,
        decreases n - i,
    {
        if s.get_char(i) == c {
            return true;
        }
        i = i + 1;
    }
    false
}

/// The install-relative path of a payload destination.
pub fn install_relative_path(destination: &str) -> (r: Result<Vec<String>, MsiError>)
    ensures
        relative_result_matches(r, destination@),
{
    proof {
        reveal_strlit("");
        reveal_strlit("$INSTALLPATH");
        reveal_strlit("%INSTALLPATH%");
        assert(""@ == Seq::<char>::empty());
    }
    let d1 = replace_str(destination, "$INSTALLPATH", "");
    let d = replace_str(d1.as_str(), "%INSTALLPATH%", "");
    if has_char_exec(d.as_str(), '$') || has_char_exec(d.as_str(), '%') {
        return Err(MsiError::UnsupportedVariables { destination: d });
    }
    let parts = split_char(d.as_str(), '/');
    let ghost sp = split_seq(d@, '/');
    let mut kept: Vec<String> = Vec::new();
    let mut i: usize = 0;
    while i < parts.len()
        invariant
            !has_char(d@, '$'),
            !has_char(d@, '%'),
            d@ == without_install_path(destination@),
            sp == split_seq(d@, '/'),
            parts@.len() == sp.len(),
            forall|k: int| 0 <= k < parts@.len() ==> #[trigger] parts@[k]@ == sp[k],
            i <= parts@.len(),
            forall|k: int| 0 <= k < i ==> sp[k] != ".."@,
            strings_view(kept@) == kept_segments(sp.take(i as int)),
        decreases parts@.len() - i,
    {
        let part = parts[i].as_str();
        assert(sp.take(i + 1).drop_last() == sp.take(i as int));
        if str_eq(part, "..") {
            assert(sp[i as int] == ".."@);
            assert(sp.contains(".."@));
            return Err(MsiError::ParentComponent { destination: d });
        }
        if part.unicode_len() != 0 && !str_eq(part, ".") {
            kept.push(owned(part));
            assert(strings_view(kept@) == strings_view(kept@).drop_last().push(part@));
        }
        i = i + 1;
    }
    assert(sp.take(sp.len() as int) == sp);
    assert(!sp.contains(".."@));
    if kept.len() == 0 {
        return Err(MsiError::InstallRoot { destination: d });
    }
    Ok(kept)
}

/// The MSI directory that anchors an associated path, and the path below it.
#[derive(Debug)]
pub struct AssociatedPath {
    pub root: String,
    pub relative: Vec<String>,
}

/// Which root an associated path starts from and the text after that root.
pub open spec fn associated_root_spec(path: Seq<char>) -> Option<(Seq<char>, Seq<char>)> {
    if starts_with(path, "$INSTALLPATH"@) {
        Some(("INSTALLFOLDER"@, path.skip(12)))
    } else if starts_with(path, "$HOMEPATH/Documents"@) {
        Some(("PersonalFolder"@, path.skip(19)))
    } else if starts_with(path, "$HOMEPATH"@) {
        Some(("UserProfileFolder"@, path.skip(9)))
    } else {
        None
    }
}

/// The result of `associated_path` agrees with `associated_root_spec` and
/// `install_relative_spec`.
pub open spec fn associated_result_matches(r: Result<AssociatedPath, MsiError>, path: Seq<char>) -> bool {
    match associated_root_spec(path) {
        None => r matches Err(e) && e matches MsiError::AssociatedRoot { path: p } && p@ == path,
        Some((root, rest)) => match install_relative_spec(rest) {
            Ok(segments) => r matches Ok(a) && a.root@ == root && strings_view(a.relative@)
                == segments,
            Err(expected) => r matches Err(e) && same_error(e, expected, without_install_path(rest)),
        },
    }
}

fn rest_after(path: &str, n: usize) -> (r: String)
    requires
        n <= path@.len(),
    ensures
        r@ == path@.skip(n as int),
{
    let len = path.unicode_len();
    let rest = path.substring_char(n, len);
    assert(path@.subrange(n as int, len as int) == path@.skip(n as int));
    owned(rest)
}

/// The root and install-relative path of an associated file or directory.
pub fn associated_path(path: &str) -> (r: Result<AssociatedPath, MsiError>)
    ensures
        associated_result_matches(r, path@),
{
    proof {
        reveal_strlit("$INSTALLPATH");
        reveal_strlit("$HOMEPATH/Documents");
        reveal_strlit("$HOMEPATH");
    }
    let (root, rest) = if has_prefix(path, "$INSTALLPATH") {
        ("INSTALLFOLDER", rest_after(path, 12))
    } else if has_prefix(path, "$HOMEPATH/Documents") {
        ("PersonalFolder", rest_after(path, 19))
    } else if has_prefix(path, "$HOMEPATH") {
        ("UserProfileFolder", rest_after(path, 9))
    } else {
        return Err(MsiError::AssociatedRoot { path: owned(path) });
    };
    match install_relative_path(rest.as_str()) {
        Ok(relative) => Ok(AssociatedPath { root: owned(root), relative }),
        Err(e) => Err(e),
    }
}

/// One declared directory: its root, its path below the root and its id.
#[derive(Debug)]
pub struct DirEntry {
    pub root: String,
    pub path: Vec<String>,
    pub id: String,
}

pub open spec fn entry_view(e: DirEntry) -> (Seq<char>, Seq<Seq<char>>, Seq<char>) {
    (e.root@, strings_view(e.path@), e.id@)
}

/// Directory identifiers, numbered `Dir1`, `Dir2`, ... in the order in
/// which directories are first declared.
#[derive(Debug)]
pub struct DirectoryIds {
    pub next: usize,
    pub entries: Vec<DirEntry>,
}

pub open spec fn entries_view(entries: Seq<DirEntry>) -> Seq<(Seq<char>, Seq<Seq<char>>, Seq<char>)> {
    entries.map_values(|e: DirEntry| entry_view(e))
}

/// The id declared for `(root, path)`, if any.
pub open spec fn lookup_id(
    entries: Seq<(Seq<char>, Seq<Seq<char>>, Seq<char>)>,
    root: Seq<char>,
    path: Seq<Seq<char>>,
) -> Option<Seq<char>>
    decreases entries.len(),
{
    if entries.len() == 0 {
        None
    } else if entries[0].0 == root && entries[0].1 == path {
        Some(entries[0].2)
    } else {
        lookup_id(entries.drop_first(), root, path)
    }
}

/// The entries after declaring every prefix of `path` from length `k` on
/// that is not yet declared, shortest first.
pub open spec fn declare_prefixes(
    entries: Seq<(Seq<char>, Seq<Seq<char>>, Seq<char>)>,
    root: Seq<char>,
    path: Seq<Seq<char>>,
    k: nat,
) -> Seq<(Seq<char>, Seq<Seq<char>>, Seq<char>)>
    decreases path.len() + 1 - k,
{
    if k > path.len() {
        entries
    } else {
        let prefix = path.take(k as int);
        if lookup_id(entries, root, prefix) is Some {
            declare_prefixes(entries, root, path, k + 1)
        } else {
            declare_prefixes(
                entries.push((root, prefix, "Dir"@ + decimal((entries.len() + 1) as nat))),
                root,
                path,
                k + 1,
            )
        }
    }
}

/// Whether `e` holds the first `len` segments of `path`.
fn segments_match(e: &Vec<String>, path: &Vec<String>, len: usize) -> (r: bool)
    requires
        len <= path@.len(),
    ensures
        r == (strings_view(e@) == strings_view(path@).take(len as int)),
{
    if e.len() != len {
        assert(strings_view(e@).len() == e@.len());
        assert(strings_view(path@).take(len as int).len() == len);
        return false;
    }
    let mut j: usize = 0;
    while j < len
        invariant
            j <= len,
            e@.len() == len,
            len <= path@.len(),
            forall|t: int| 0 <= t < j ==> e@[t]@ == path@[t]@,
        decreases len - j,
    {
        if !str_eq(e[j].as_str(), path[j].as_str()) {
            assert(strings_view(e@)[j as int] != strings_view(path@).take(len as int)[j as int]);
            return false;
        }
        j = j + 1;
    }
    assert(strings_view(e@) =~= strings_view(path@).take(len as int));
    true
}

proof fn lemma_lookup_push(
    entries: Seq<(Seq<char>, Seq<Seq<char>>, Seq<char>)>,
    e: (Seq<char>, Seq<Seq<char>>, Seq<char>),
    root: Seq<char>,
    path: Seq<Seq<char>>,
)
    ensures
        lookup_id(entries.push(e), root, path) == (if lookup_id(entries, root, path) is Some {
            lookup_id(entries, root, path)
        } else if e.0 == root && e.1 == path {
            Some(e.2)
        } else {
            None
        }),
    decreases entries.len(),
{
    if entries.len() == 0 {
        assert(entries.push(e).drop_first() =~= Seq::<(Seq<char>, Seq<Seq<char>>, Seq<char>)>::empty());
    } else {
        assert(entries.push(e)[0] == entries[0]);
        assert(entries.push(e).drop_first() == entries.drop_first().push(e));
        lemma_lookup_push(entries.drop_first(), e, root, path);
    }
}

impl DirectoryIds {
    pub open spec fn view_entries(&self) -> Seq<(Seq<char>, Seq<Seq<char>>, Seq<char>)> {
        entries_view(self.entries@)
    }

    pub open spec fn wf(&self) -> bool {
        self.next as nat == self.entries@.len()
    }

    pub fn new() -> (r: Self)
        ensures
            r.wf(),
            r.view_entries() == Seq::<(Seq<char>, Seq<Seq<char>>, Seq<char>)>::empty(),
    {
        let r = DirectoryIds { next: 0, entries: Vec::new() };
        assert(r.view_entries() =~= Seq::<(Seq<char>, Seq<Seq<char>>, Seq<char>)>::empty());
        r
    }

    fn find(&self, root: &str, path: &Vec<String>, len: usize) -> (r: Option<usize>)
        requires
            len <= path@.len(),
        ensures
            match lookup_id(self.view_entries(), root@, strings_view(path@).take(len as int)) {
                Some(id) => r matches Some(i) && i < self.entries@.len() && self.entries@[i as int].id@ == id,
                None => r is None,
            },
    {
        let ghost target = strings_view(path@).take(len as int);
        let mut i: usize = 0;
        assert(self.view_entries().skip(0) == self.view_entries());
        while i < self.entries.len()
            invariant
                len <= path@.len(),
                target == strings_view(path@).take(len as int),
                i <= self.entries@.len(),
                lookup_id(self.view_entries(), root@, target) == lookup_id(self.view_entries().skip(i as int), root@, target),
            decreases self.entries@.len() - i,
        {
            let e = &self.entries[i];
            let ghost rest = self.view_entries().skip(i as int);
            assert(rest[0] == entry_view(self.entries@[i as int]));
            let same = str_eq(e.root.as_str(), root) && segments_match(&e.path, path, len);
            if same {
                return Some(i);
            }
            assert(rest.drop_first() == self.view_entries().skip(i + 1));
            i = i + 1;
        }
        None
    }

    /// The id of `(root, path)`: `root` itself for the empty path, else the
    /// id of the path, declaring it and any undeclared ancestor first.
    pub fn id_for(&mut self, root: &str, path: &Vec<String>) -> (r: Result<String, MsiError>)
        requires
            old(self).wf(),
        ensures
            final(self).wf(),
            r is Err ==> r matches Err(MsiError::TooManyDirectories),
            r is Err <==> (path@.len() > 0 && old(self).next + path@.len() >= usize::MAX),
            r matches Ok(id) ==> {
                &&& path@.len() == 0 ==> id@ == root@ && final(self).view_entries() == old(self).view_entries()
                &&& path@.len() > 0 ==> {
                    &&& final(self).view_entries() == declare_prefixes(old(self).view_entries(), root@, strings_view(path@), 1)
                    &&& lookup_id(final(self).view_entries(), root@, strings_view(path@)) == Some(id@)
                }
            },
    {
        if path.len() == 0 {
            return Ok(owned(root));
        }
        if self.next >= usize::MAX - path.len() {
            return Err(MsiError::TooManyDirectories);
        }
        let ghost full = strings_view(path@);
        let ghost start = self.view_entries();
        let mut k: usize = 1;
        let mut last = String::new();
        while k <= path.len()
            invariant
                self.wf(),
                self.next < usize::MAX - path@.len() + k,
                path@.len() < usize::MAX,
                full == strings_view(path@),
                1 <= k <= path@.len() + 1,
                path@.len() > 0,
                declare_prefixes(start, root@, full, 1) == declare_prefixes(self.view_entries(), root@, full, k as nat),
                k > 1 ==> lookup_id(self.view_entries(), root@, full.take(k - 1)) == Some(last@),
            decreases path@.len() + 1 - k,
        {
            match self.find(root, path, k) {
                Some(i) => {
                    last = self.entries[i].id.clone();
                },
                None => {
                    self.next = self.next + 1;
                    let id = numbered("Dir", self.next);
                    let mut prefix: Vec<String> = Vec::new();
                    let mut t: usize = 0;
                    while t < k
                        invariant
                            t <= k <= path@.len(),
                            strings_view(prefix@) == strings_view(path@).take(t as int),
                        decreases k - t,
                    {
                        let segment = path[t].clone();
                        let ghost before = prefix@;
                        prefix.push(segment);
                        assert(prefix@ == before.push(segment));
                        assert(strings_view(prefix@) =~= strings_view(before).push(segment@));
                        t = t + 1;
                        assert(strings_view(prefix@) =~= strings_view(path@).take(t as int));
                    }
                    last = id.clone();
                    let ghost before = self.view_entries();
                    let entry = DirEntry { root: owned(root), path: prefix, id };
                    self.entries.push(entry);
                    proof {
                        assert(self.view_entries() == before.push(entry_view(entry)));
                        lemma_lookup_push(before, entry_view(entry), root@, full.take(k as int));
                    }
                },
            }
            k = k + 1;
        }
        assert(full.take(path@.len() as int) == full);
        Ok(last)
    }
}

} // verus!
