//! MSI file and directory names: long names paired with 8.3 short names.
use vstd::prelude::*;

use crate::text::{
    alnum_only, chars_of, concat3, is_ascii_alnum, is_ascii_alnum_char, keep_alnum, owned,
    push_char, push_str, string_from_range, to_ascii_uppercase, upper_seq,
};

verus! {

/// Characters that cannot appear in a Windows file name.
pub open spec fn is_reserved_filename_char(c: char) -> bool {
    c == '/' || c == '\\' || c == ':' || c == '*' || c == '?' || c == '"' || c == '<' || c == '>'
        || c == '|'
}

pub open spec fn sanitize_char(c: char) -> char {
    if is_reserved_filename_char(c) {
        '-'
    } else {
        c
    }
}

/// `name` with every reserved character replaced by `-`.
pub open spec fn sanitize_spec(name: Seq<char>) -> Seq<char> {
    name.map_values(|c: char| sanitize_char(c))
}

pub open spec fn short_name_char(c: char) -> bool {
    is_ascii_alnum_char(c) || c == '_' || c == '$' || c == '~'
}

/// A name that is already a valid short name: one to eight characters, each
/// an ASCII letter or digit, `_`, `$` or `~`.
pub open spec fn is_short_filename_spec(name: Seq<char>) -> bool {
    0 < name.len() <= 8 && forall|i: int| 0 <= i < name.len() ==> short_name_char(#[trigger] name[i])
}

/// Up to `max_len` upper-cased ASCII letters and digits of `value`.
pub open spec fn short_part_spec(value: Seq<char>, max_len: nat) -> Seq<char> {
    let kept = alnum_only(value);
    upper_seq(if kept.len() <= max_len { kept } else { kept.take(max_len as int) })
}

/// Index of the last `c` in `s`, if any.
pub open spec fn last_index_of(s: Seq<char>, c: char) -> Option<int>
    decreases s.len(),
{
    if s.len() == 0 {
        None
    } else if s.last() == c {
        Some(s.len() - 1)
    } else {
        last_index_of(s.drop_last(), c)
    }
}

/// The parts of `s` before and after its last `c` (`str::rsplit_once`).
pub open spec fn rsplit_once_spec(s: Seq<char>, c: char) -> Option<(Seq<char>, Seq<char>)> {
    match last_index_of(s, c) {
        Some(i) => Some((s.take(i), s.skip(i + 1))),
        None => None,
    }
}

/// The 8.3 short name made from a long name: six characters of the stem,
/// `~1`, and up to three characters of the extension.
pub open spec fn short_filename_spec(name: Seq<char>) -> Seq<char> {
    let (stem, extension) = match rsplit_once_spec(name, '.') {
        Some(parts) => parts,
        None => (name, Seq::empty()),
    };
    let short_stem = short_part_spec(stem, 6);
    let base = (if short_stem.len() == 0 { "FILE"@ } else { short_stem }) + "~1"@;
    let short_extension = short_part_spec(extension, 3);
    if short_extension.len() == 0 {
        base
    } else {
        base + "."@ + short_extension
    }
}

/// An MSI file name: the sanitized name when it is already a short name,
/// else `SHORT~1.EXT|long name`.
pub open spec fn msi_filename_spec(name: Seq<char>) -> Seq<char> {
    let sanitized = sanitize_spec(name);
    if is_short_filename_spec(sanitized) {
        sanitized
    } else {
        short_filename_spec(sanitized) + "|"@ + sanitized
    }
}

/// The long part of an MSI file name: the text after its last `|`.
pub open spec fn long_name_spec(name: Seq<char>) -> Seq<char> {
    match rsplit_once_spec(name, '|') {
        Some((_, long_name)) => long_name,
        None => name,
    }
}

pub fn sanitize(name: &str) -> (r: String)
    ensures
        r@ == sanitize_spec(name@),
{
    let chars = chars_of(name);
    let mut out = String::new();
    let mut i: usize = 0;
    while i < chars.len()
        invariant
            chars@ == name@,
            i <= chars@.len(),
            out@ == sanitize_spec(name@.take(i as int)),
        decreases chars@.len() - i,
    {
        let c = chars[i];
        let mapped = if c == '/' || c == '\\' || c == ':' || c == '*' || c == '?' || c == '"' || c
            == '<' || c == '>' || c == '|' {
            '-'
        } else {
            c
        };
        push_char(&mut out, mapped);
        i = i + 1;
        assert(sanitize_spec(name@.take(i as int)) == sanitize_spec(name@.take(i - 1)).push(
            sanitize_char(c),
        ));
    }
    assert(name@.take(chars@.len() as int) == name@);
    out
}

pub fn is_short_filename(name: &str) -> (r: bool)
    ensures
        r == is_short_filename_spec(name@),
{
    let chars = chars_of(name);
    let n = chars.len();
    if n == 0 || n > 8 {
        return false;
    }
    let mut i: usize = 0;
    while i < n
        invariant
            chars@ == name@,
            n == chars@.len(),
            i <= n,
            forall|k: int| 0 <= k < i ==> short_name_char(#[trigger] name@[k]),
        decreases n - i,
    {
        let c = chars[i];
        if !(is_ascii_alnum(c) || c == '_' || c == '$' || c == '~') {
            return false;
        }
        i = i + 1;
    }
    true
}

pub fn short_part(value: &str, max_len: usize) -> (r: String)
    ensures
        r@ == short_part_spec(value@, max_len as nat),
{
    let kept = keep_alnum(value);
    let chars = chars_of(kept.as_str());
    let end = if chars.len() <= max_len { chars.len() } else { max_len };
    let taken = string_from_range(&chars, 0, end);
    assert(kept@.subrange(0, end as int) == (if kept@.len() <= max_len { kept@ } else { kept@.take(max_len as int) }));
    to_ascii_uppercase(taken.as_str())
}

pub proof fn lemma_last_index_in_bounds(s: Seq<char>, c: char)
    ensures
        last_index_of(s, c) matches Some(i) ==> 0 <= i < s.len() && s[i] == c,
    decreases s.len(),
{
    if s.len() > 0 && s.last() != c {
        lemma_last_index_in_bounds(s.drop_last(), c);
    }
}

proof fn lemma_no_last_index(s: Seq<char>, c: char)
    requires
        forall|i: int| 0 <= i < s.len() ==> s[i] != c,
    ensures
        last_index_of(s, c) is None,
    decreases s.len(),
{
    if s.len() > 0 {
        assert(s[s.len() - 1] != c);
        lemma_no_last_index(s.drop_last(), c);
    }
}

proof fn lemma_last_index_before(a: Seq<char>, b: Seq<char>, c: char)
    requires
        forall|i: int| 0 <= i < b.len() ==> b[i] != c,
    ensures
        last_index_of(a + seq![c] + b, c) == Some(a.len() as int),
    decreases b.len(),
{
    let s = a + seq![c] + b;
    if b.len() == 0 {
        assert(s.last() == c);
    } else {
        assert(s.last() == b.last());
        assert(b[b.len() - 1] != c);
        assert(s.drop_last() =~= a + seq![c] + b.drop_last());
        lemma_last_index_before(a, b.drop_last(), c);
    }
}

/// Reading the long name back from an MSI file name gives the name with its
/// reserved characters replaced; the file name is that name when it is a
/// short name, else its short name, `|` and that name.
pub proof fn lemma_msi_filename_round_trip(name: Seq<char>)
    ensures
        long_name_spec(msi_filename_spec(name)) == sanitize_spec(name),
        msi_filename_spec(name) == (if is_short_filename_spec(sanitize_spec(name)) {
            sanitize_spec(name)
        } else {
            short_filename_spec(sanitize_spec(name)) + "|"@ + sanitize_spec(name)
        }),
{
    reveal_strlit("|");
    let s = sanitize_spec(name);
    assert forall|i: int| 0 <= i < s.len() implies s[i] != '|' by {
        assert(s[i] == sanitize_char(name[i]));
    }
    if is_short_filename_spec(s) {
        lemma_no_last_index(s, '|');
    } else {
        let a = short_filename_spec(s);
        assert("|"@ =~= seq!['|']);
        lemma_last_index_before(a, s, '|');
        let m = a + seq!['|'] + s;
        assert(m.skip(a.len() as int + 1) =~= s);
    }
}

/// The index of the last `c` in `s`.
pub fn last_index(s: &Vec<char>, c: char) -> (r: Option<usize>)
    ensures
        match last_index_of(s@, c) {
            Some(i) => r == Some(i as usize),
            None => r is None,
        },
{
    let mut j = s.len();
    assert(s@.take(j as int) == s@);
    while j > 0
        invariant
            j <= s@.len(),
            last_index_of(s@, c) == last_index_of(s@.take(j as int), c),
        decreases j,
    {
        if s[j - 1] == c {
            return Some(j - 1);
        }
        assert(s@.take(j as int).drop_last() == s@.take(j - 1));
        j = j - 1;
    }
    None
}

pub fn short_filename(name: &str) -> (r: String)
    ensures
        r@ == short_filename_spec(name@),
{
    let chars = chars_of(name);
    let (stem, extension) = match last_index(&chars, '.') {
        Some(i) => {
            proof { lemma_last_index_in_bounds(name@, '.'); }
            assert(i < chars@.len());
            (string_from_range(&chars, 0, i), string_from_range(&chars, i + 1, chars.len()))
        },
        None => (owned(name), String::new()),
    };
    let mut short_stem = short_part(stem.as_str(), 6);
    if short_stem.as_str().unicode_len() == 0 {
        short_stem = owned("FILE");
    }
    push_str(&mut short_stem, "~1");
    let short_extension = short_part(extension.as_str(), 3);
    if short_extension.as_str().unicode_len() == 0 {
        short_stem
    } else {
        push_str(&mut short_stem, ".");
        push_str(&mut short_stem, short_extension.as_str());
        short_stem
    }
}

pub fn msi_filename(name: &str) -> (r: String)
    ensures
        r@ == msi_filename_spec(name@),
{
    let sanitized = sanitize(name);
    if is_short_filename(sanitized.as_str()) {
        return sanitized;
    }
    let short = short_filename(sanitized.as_str());
    concat3(short.as_str(), "|", sanitized.as_str())
}

/// The MSI `DefaultDir` of a directory named `name`.
pub fn default_dir(name: &str) -> (r: String)
    ensures
        r@ == msi_filename_spec(name@),
{
    msi_filename(name)
}

/// The long part of an MSI file name.
pub fn display_name_from_msi_filename(name: &str) -> (r: String)
    ensures
        r@ == long_name_spec(name@),
{
    let chars = chars_of(name);
    let n = chars.len();
    match last_index(&chars, '|') {
        Some(i) => {
            proof { lemma_last_index_in_bounds(chars@, '|'); }
            string_from_range(&chars, i + 1, n)
        },
        None => owned(name),
    }
}

} // verus!
