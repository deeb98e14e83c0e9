//! Payload files: what is copied where, and how destinations are placed
//! under the install path.
use vstd::prelude::*;

use crate::services::manifest_file::FileMapping;
use crate::text::{concat3, has_prefix, lemma_seq_lt_irreflexive, lemma_seq_lt_transitive, opt_str_view, owned, seq_lt, starts_with, str_lt, trim_end, trim_end_char};

verus! {

/// One file of a target's payload.
#[derive(Debug)]
pub struct PayloadFile {
    pub source: String,
    pub destination: String,
    pub executable: bool,
}

impl Clone for PayloadFile {
    fn clone(&self) -> (r: Self)
        ensures
            r.source@ == self.source@,
            r.destination@ == self.destination@,
            r.executable == self.executable,
    {
        PayloadFile {
            source: self.source.clone(),
            destination: self.destination.clone(),
            executable: self.executable,
        }
    }
}

impl PayloadFile {
    /// A payload file that is installed as an executable.
    pub fn executable(source: String, destination: String) -> (r: Self)
        ensures
            r.source == source,
            r.destination == destination,
            r.executable,
    {
        PayloadFile { source, destination, executable: true }
    }

    /// A payload file that is installed as plain data.
    pub fn data(source: String, destination: String) -> (r: Self)
        ensures
            r.source == source,
            r.destination == destination,
            !r.executable,
    {
        PayloadFile { source, destination, executable: false }
    }
}

/// `child` below `parent`: `parent` without its trailing slashes, a slash,
/// then `child`; just `child` when `parent` is empty.
pub open spec fn join_spec(parent: Seq<char>, child: Seq<char>) -> Seq<char> {
    if parent.len() == 0 {
        child
    } else {
        trim_end_char(parent, '/') + seq!['/'] + child
    }
}

/// A destination placed under the install path, unless it already starts with it.
pub open spec fn resolve_spec(install_path: Option<Seq<char>>, destination: Seq<char>) -> Seq<char> {
    match install_path {
        Some(p) => if starts_with(destination, p) { destination } else { join_spec(p, destination) },
        None => destination,
    }
}

/// Joins a payload path below a parent path with a `/`.
pub fn join_payload_path(parent: &str, child: &str) -> (r: String)
    ensures
        r@ == join_spec(parent@, child@),
{
    if parent.unicode_len() == 0 {
        owned(child)
    } else {
        let trimmed = trim_end(parent, '/');
        proof { reveal_strlit("/"); }
        concat3(trimmed.as_str(), "/", child)
    }
}

/// Places `destination` under `install_path` unless it already starts with it.
pub fn resolve_destination(install_path: Option<&str>, destination: &str) -> (r: String)
    ensures
        r@ == resolve_spec(opt_str_view(install_path), destination@),
{
    match install_path {
        Some(p) => {
            if !has_prefix(destination, p) {
                join_payload_path(p, destination)
            } else {
                owned(destination)
            }
        },
        None => owned(destination),
    }
}

/// The characters past the trimmed part of `s` are all `c`.
pub proof fn lemma_trim_end_shape(s: Seq<char>, c: char)
    ensures
        trim_end_char(s, c).len() <= s.len(),
        s.take(trim_end_char(s, c).len() as int) == trim_end_char(s, c),
        forall|i: int| trim_end_char(s, c).len() <= i < s.len() ==> s[i] == c,
    decreases s.len(),
{
    if s.len() > 0 && s.last() == c {
        lemma_trim_end_shape(s.drop_last(), c);
        let t = trim_end_char(s, c);
        assert(s.drop_last().take(t.len() as int) =~= s.take(t.len() as int));
        assert forall|i: int| t.len() <= i < s.len() implies s[i] == c by {
            if i < s.len() - 1 {
                assert(s.drop_last()[i] == s[i]);
            }
        }
    } else {
        assert(s.take(s.len() as int) == s);
    }
}

/// Placing a destination under an install path twice places it once: the
/// result of the first placement already starts with the install path
/// (for an install path that does not end in `//`).
pub proof fn lemma_resolve_destination_idempotent(install_path: Option<Seq<char>>, destination: Seq<char>)
    requires
        install_path matches Some(p) ==> !(p.len() >= 2 && p[p.len() - 1] == '/' && p[p.len() - 2] == '/'),
    ensures
        resolve_spec(install_path, resolve_spec(install_path, destination)) == resolve_spec(install_path, destination),
{
    if let Some(p) = install_path {
        if !starts_with(destination, p) {
            if p.len() == 0 {
                assert(destination.take(0) == p);
            } else {
                let t = trim_end_char(p, '/');
                lemma_trim_end_shape(p, '/');
                let r = t + seq!['/'] + destination;
                if t.len() == p.len() {
                    assert(p == t);
                    assert(r.take(p.len() as int) == p);
                } else {
                    assert(t.len() + 1 == p.len());
                    assert(p =~= t + seq!['/']);
                    assert(r.take(p.len() as int) =~= p);
                }
            }
        }
    }
}

/// A payload file as plain values: source, destination, executable flag.
pub open spec fn file_view(f: PayloadFile) -> (Seq<char>, Seq<char>, bool) {
    (f.source@, f.destination@, f.executable)
}

pub open spec fn files_view(s: Seq<PayloadFile>) -> Seq<(Seq<char>, Seq<char>, bool)> {
    s.map_values(|f: PayloadFile| file_view(f))
}

/// Where `x` goes in `t`: before the first entry whose source orders after
/// the source of `x`, so that entries with equal sources keep their order.
pub open spec fn insert_position(t: Seq<(Seq<char>, Seq<char>, bool)>, x: (Seq<char>, Seq<char>, bool), k: int) -> int
    decreases t.len() - k,
{
    if k < 0 || k >= t.len() {
        t.len() as int
    } else if seq_lt(x.0, t[k].0) {
        k
    } else {
        insert_position(t, x, k + 1)
    }
}

/// `s` sorted by source with a stable insertion sort.
pub open spec fn sorted_by_source(s: Seq<(Seq<char>, Seq<char>, bool)>) -> Seq<(Seq<char>, Seq<char>, bool)>
    decreases s.len(),
{
    if s.len() == 0 {
        s
    } else {
        let t = sorted_by_source(s.drop_last());
        t.insert(insert_position(t, s.last(), 0), s.last())
    }
}

pub open spec fn source_sorted(s: Seq<(Seq<char>, Seq<char>, bool)>) -> bool {
    forall|i: int, j: int| 0 <= i < j < s.len() ==> !seq_lt(#[trigger] s[j].0, #[trigger] s[i].0)
}

pub proof fn lemma_insert_position_bounds(t: Seq<(Seq<char>, Seq<char>, bool)>, x: (Seq<char>, Seq<char>, bool), k: int)
    requires
        0 <= k <= t.len(),
    ensures
        k <= insert_position(t, x, k) <= t.len(),
        forall|m: int| k <= m < insert_position(t, x, k) ==> !seq_lt(x.0, #[trigger] t[m].0),
        insert_position(t, x, k) < t.len() ==> seq_lt(x.0, t[insert_position(t, x, k)].0),
    decreases t.len() - k,
{
    if k < t.len() && !seq_lt(x.0, t[k].0) {
        lemma_insert_position_bounds(t, x, k + 1);
    }
}

/// The stable insertion sort by source yields its input's entries, sorted by
/// source.
pub proof fn lemma_sorted_by_source(s: Seq<(Seq<char>, Seq<char>, bool)>)
    ensures
        source_sorted(sorted_by_source(s)),
        sorted_by_source(s).to_multiset() == s.to_multiset(),
    decreases s.len(),
{
    broadcast use vstd::seq_lib::group_to_multiset_ensures;
    if s.len() > 0 {
        let t = sorted_by_source(s.drop_last());
        let x = s.last();
        lemma_sorted_by_source(s.drop_last());
        lemma_insert_position_bounds(t, x, 0);
        let p = insert_position(t, x, 0);
        let r = t.insert(p, x);
        vstd::seq_lib::to_multiset_insert(t, p, x);
        vstd::seq_lib::to_multiset_build(s.drop_last(), x);
        assert(s.drop_last().push(x) == s);
        assert forall|i: int, j: int| 0 <= i < j < r.len() implies !seq_lt(#[trigger] r[j].0, #[trigger] r[i].0) by {
            if j < p {
                assert(r[i] == t[i] && r[j] == t[j]);
            } else if j == p {
                assert(r[i] == t[i]);
            } else if i < p {
                assert(r[i] == t[i] && r[j] == t[j - 1]);
                assert(!seq_lt(t[j - 1].0, t[i].0));
            } else if i == p {
                assert(r[j] == t[j - 1]);
                assert(p < t.len());
                if seq_lt(t[j - 1].0, x.0) {
                    lemma_seq_lt_transitive(t[j - 1].0, x.0, t[p].0);
                    if j - 1 == p {
                        lemma_seq_lt_irreflexive(t[p].0);
                    } else {
                        assert(!seq_lt(t[j - 1].0, t[p].0));
                    }
                }
            } else {
                assert(r[i] == t[i - 1] && r[j] == t[j - 1]);
            }
        }
    }
}

fn find_insert_position(out: &Vec<PayloadFile>, x: &PayloadFile) -> (p: usize)
    ensures
        p as int == insert_position(files_view(out@), file_view(*x), 0),
        p <= out@.len(),
{
    proof { lemma_insert_position_bounds(files_view(out@), file_view(*x), 0); }
    let ghost t = files_view(out@);
    let mut k: usize = 0;
    while k < out.len() && !str_lt(x.source.as_str(), out[k].source.as_str())
        invariant
            t == files_view(out@),
            k <= out@.len(),
            insert_position(t, file_view(*x), k as int) == insert_position(t, file_view(*x), 0),
        decreases out@.len() - k,
    {
        k = k + 1;
    }
    k
}

/// `files` sorted by source, entries with equal sources in their given order.
pub fn sort_by_source(files: Vec<PayloadFile>) -> (r: Vec<PayloadFile>)
    ensures
        files_view(r@) == sorted_by_source(files_view(files@)),
{
    let ghost s = files_view(files@);
    let mut out: Vec<PayloadFile> = Vec::new();
    let mut rest = files;
    let mut i: usize = 0;
    let n = rest.len();
    assert(s.take(0) =~= Seq::<(Seq<char>, Seq<char>, bool)>::empty());
    while i < n
        invariant
            s == files_view(rest@),
            n == s.len(),
            i <= n,
            files_view(out@) == sorted_by_source(s.take(i as int)),
        decreases n - i,
    {
        let x = rest[i].clone();
        let p = find_insert_position(&out, &x);
        let ghost before = out@;
        out.insert(p, x);
        proof {
            assert(s.take(i + 1).drop_last() == s.take(i as int));
            assert(s.take(i + 1).last() == s[i as int]);
            assert(file_view(x) == s[i as int]);
            assert(files_view(out@) =~= files_view(before).insert(p as int, file_view(x)));
        }
        i = i + 1;
    }
    assert(s.take(n as int) == s);
    out
}

/// What a payload source is on disk: a file, a directory with the files
/// below it (each as its path and its `/`-separated path relative to the
/// directory), or nothing.
#[derive(Debug)]
pub enum PayloadSource {
    File,
    Directory(Vec<DirectoryFile>),
    Missing,
}

/// A file found below a payload directory.
#[derive(Debug)]
pub struct DirectoryFile {
    pub path: String,
    pub relative: String,
}

/// Why the payload could not be collected.
#[derive(Debug)]
pub enum PayloadError {
    /// A mapping's source exists neither as a file nor as a directory.
    MissingSource(String),
}

impl PayloadError {
    pub open spec fn message_spec(&self) -> Seq<char> {
        match self {
            PayloadError::MissingSource(path) => "payload source "@ + path@ + " does not exist"@,
        }
    }

    /// The error's message.
    pub fn to_string(&self) -> (r: String)
        ensures
            r@ == self.message_spec(),
    {
        match self {
            PayloadError::MissingSource(path) => concat3("payload source ", path.as_str(), " does not exist"),
        }
    }
}

/// The payload files of the files below one directory, before sorting.
pub open spec fn directory_entries(entries: Seq<DirectoryFile>, destination: Seq<char>, install_path: Option<Seq<char>>) -> Seq<(Seq<char>, Seq<char>, bool)> {
    entries.map_values(|e: DirectoryFile| (e.path@, resolve_spec(install_path, join_spec(destination, e.relative@)), false))
}

/// The payload files that one mapping yields.
pub open spec fn mapping_files(m: FileMapping, src: PayloadSource, install_path: Option<Seq<char>>) -> Seq<(Seq<char>, Seq<char>, bool)> {
    match src {
        PayloadSource::File => seq![(m.source@, resolve_spec(install_path, m.destination@), false)],
        PayloadSource::Directory(entries) => sorted_by_source(directory_entries(entries@, m.destination@, install_path)),
        PayloadSource::Missing => Seq::empty(),
    }
}

/// The payload files of all mappings, in mapping order, when no source is missing.
pub open spec fn all_mapping_files(ms: Seq<FileMapping>, srcs: Seq<PayloadSource>, install_path: Option<Seq<char>>) -> Seq<(Seq<char>, Seq<char>, bool)>
    decreases ms.len(),
{
    if ms.len() == 0 || srcs.len() == 0 {
        Seq::empty()
    } else {
        all_mapping_files(ms.drop_last(), srcs.drop_last(), install_path) + mapping_files(ms.last(), srcs.last(), install_path)
    }
}

/// The index of the first mapping whose source is missing, if any.
pub open spec fn first_missing(srcs: Seq<PayloadSource>) -> Option<int> {
    if exists|i: int| 0 <= i < srcs.len() && srcs[i] is Missing {
        Some(choose|i: int| 0 <= i < srcs.len() && srcs[i] is Missing && forall|k: int| 0 <= k < i ==> !(srcs[k] is Missing))
    } else {
        None
    }
}

/// The payload files of one directory mapping, sorted by source.
pub fn directory_payload_files(entries: &Vec<DirectoryFile>, destination: &str, install_path: Option<&str>) -> (r: Vec<PayloadFile>)
    ensures
        files_view(r@) == sorted_by_source(directory_entries(entries@, destination@, opt_str_view(install_path))),
{
    let mut files: Vec<PayloadFile> = Vec::new();
    let mut i: usize = 0;
    while i < entries.len()
        invariant
            i <= entries@.len(),
            files_view(files@) == directory_entries(entries@.take(i as int), destination@, opt_str_view(install_path)),
        decreases entries@.len() - i,
    {
        let joined = join_payload_path(destination, entries[i].relative.as_str());
        let dest = resolve_destination(install_path, joined.as_str());
        let ghost before = files@;
        files.push(PayloadFile::data(entries[i].path.clone(), dest));
        proof {
            assert(files_view(files@) =~= files_view(before).push(file_view(files@.last())));
            assert(directory_entries(entries@.take(i + 1), destination@, opt_str_view(install_path)) =~= directory_entries(
                entries@.take(i as int),
                destination@,
                opt_str_view(install_path),
            ).push(directory_entries(entries@, destination@, opt_str_view(install_path))[i as int]));
        }
        i = i + 1;
    }
    assert(entries@.take(i as int) == entries@);
    sort_by_source(files)
}

proof fn lemma_files_view_append(a: Seq<PayloadFile>, b: Seq<PayloadFile>)
    ensures
        files_view(a + b) == files_view(a) + files_view(b),
{
    assert(files_view(a + b) =~= files_view(a) + files_view(b));
}

/// The payload of a platform's file mappings: each file as data at its
/// resolved destination, each directory as the files below it sorted by
/// source; an error for the first mapping whose source is missing.
pub fn payload_files(files: &[FileMapping], sources: &[PayloadSource], install_path: Option<&str>) -> (r: Result<Vec<PayloadFile>, PayloadError>)
    requires
        files@.len() == sources@.len(),
    ensures
        match first_missing(sources@) {
            Some(i) => r matches Err(PayloadError::MissingSource(p)) && p@ == files@[i].source@,
            None => r matches Ok(v) && files_view(v@) == all_mapping_files(files@, sources@, opt_str_view(install_path)),
        },
{
    let mut out: Vec<PayloadFile> = Vec::new();
    let mut i: usize = 0;
    while i < files.len()
        invariant
            files@.len() == sources@.len(),
            i <= files@.len(),
            forall|k: int| 0 <= k < i ==> !(#[trigger] sources@[k] is Missing),
            files_view(out@) == all_mapping_files(files@.take(i as int), sources@.take(i as int), opt_str_view(install_path)),
        decreases files@.len() - i,
    {
        let ghost before = out@;
        match &sources[i] {
            PayloadSource::Missing => {
                proof {
                    assert(sources@[i as int] is Missing);
                    let j = choose|j: int| 0 <= j < sources@.len() && sources@[j] is Missing && forall|k: int| 0 <= k < j ==> !(sources@[k] is Missing);
                    if j < i {
                        assert(!(sources@[j] is Missing));
                    }
                    if j > i {
                        assert(!(sources@[i as int] is Missing));
                    }
                }
                return Err(PayloadError::MissingSource(files[i].source.clone()));
            },
            PayloadSource::File => {
                let dest = resolve_destination(install_path, files[i].destination.as_str());
                out.push(PayloadFile::data(files[i].source.clone(), dest));
                proof {
                    assert(files_view(out@) =~= files_view(before) + mapping_files(files@[i as int], sources@[i as int], opt_str_view(install_path)));
                }
            },
            PayloadSource::Directory(entries) => {
                let mut more = directory_payload_files(entries, files[i].destination.as_str(), install_path);
                proof { lemma_files_view_append(out@, more@); }
                out.append(&mut more);
            },
        }
        proof {
            assert(files@.take(i + 1).drop_last() == files@.take(i as int));
            assert(sources@.take(i + 1).drop_last() == sources@.take(i as int));
        }
        i = i + 1;
    }
    proof {
        assert(files@.take(i as int) == files@);
        assert(sources@.take(i as int) == sources@);
        assert(!(exists|k: int| 0 <= k < sources@.len() && sources@[k] is Missing));
    }
    Ok(out)
}

} // verus!
