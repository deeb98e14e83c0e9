//! Paths and `PATH` entries of an installed application, as the
//! uninstaller resolves them.
use vstd::prelude::*;

use crate::path_model::{normalize, normalize_spec};
use crate::text::{ends_with, join_seq, join_strings, lower_char, path_join, path_join_spec, replace_all, replace_str,
    split_char, split_seq, starts_with, string_views, to_lower};

verus! {

/// A payload path as installed: `$INSTALLPATH` replaced by the install
/// folder, `$HOMEPATH` by the home folder when known, components
/// normalized, and placed below the install folder unless absolute.
pub open spec fn resolve_install_path_spec(value: Seq<char>, install_root: Seq<char>, home: Option<Seq<char>>) -> Seq<char> {
    let v = replace_all(value, "$INSTALLPATH"@, install_root);
    let v = match home {
        Some(h) => replace_all(v, "$HOMEPATH"@, h),
        None => v,
    };
    let p = normalize_spec(v);
    if p.len() > 0 && p[0] == '/' { p } else { path_join_spec(install_root, p) }
}

/// A payload value with `$INSTALLPATH` and `$HOMEPATH` (when known)
/// substituted and its components normalized.
pub open spec fn substituted_path(value: Seq<char>, install_root: Seq<char>, home: Option<Seq<char>>) -> Seq<char> {
    let v = replace_all(value, "$INSTALLPATH"@, install_root);
    normalize_spec(
        match home {
            Some(h) => replace_all(v, "$HOMEPATH"@, h),
            None => v,
        },
    )
}

/// An installed path is the substituted path itself when that is absolute;
/// otherwise it lies below the install folder: the install folder, a `/`
/// unless the folder is empty or already ends in one, then the substituted
/// path.
pub proof fn lemma_resolved_below_install_root(value: Seq<char>, install_root: Seq<char>, home: Option<Seq<char>>)
    ensures
        ({
            let p = substituted_path(value, install_root, home);
            let r = resolve_install_path_spec(value, install_root, home);
            &&& p.len() > 0 && p[0] == '/' ==> r == p
            &&& !(p.len() > 0 && p[0] == '/') ==> {
                &&& starts_with(r, install_root)
                &&& ends_with(r, p)
                &&& (install_root.len() == 0 || install_root.last() == '/') ==> r == install_root + p
                &&& !(install_root.len() == 0 || install_root.last() == '/') ==> r == install_root + seq!['/'] + p
            }
        }),
{
    let p = substituted_path(value, install_root, home);
    let r = resolve_install_path_spec(value, install_root, home);
    if !(p.len() > 0 && p[0] == '/') {
        if install_root.len() == 0 {
            assert(install_root + p =~= p);
        }
        let q = if install_root.len() == 0 || install_root.last() == '/' { install_root + p } else { install_root + seq!['/'] + p };
        assert(r == q);
        assert(q.take(install_root.len() as int) =~= install_root);
        assert(q.skip(q.len() - p.len()) =~= p);
    }
}

/// A payload path as installed; `home` is the user's home folder when known.
pub fn resolve_install_path(value: &str, install_root: &str, home: Option<&str>) -> (r: String)
    ensures
        r@ == resolve_install_path_spec(value@, install_root@, match home {
            Some(h) => Some(h@),
            None => None,
        }),
{
    proof {
        reveal_strlit("$INSTALLPATH");
        reveal_strlit("$HOMEPATH");
    }
    let v = replace_str(value, "$INSTALLPATH", install_root);
    let v = match home {
        Some(h) => replace_str(v.as_str(), "$HOMEPATH", h),
        None => v,
    };
    let p = normalize(v.as_str());
    if p.unicode_len() > 0 && p.as_str().get_char(0) == '/' {
        p
    } else {
        path_join(install_root, p.as_str())
    }
}

/// ASCII case-insensitive equality.
pub open spec fn eq_ignore_ascii_case_spec(a: Seq<char>, b: Seq<char>) -> bool {
    a.len() == b.len() && forall|i: int| 0 <= i < a.len() ==> lower_char(#[trigger] a[i]) == lower_char(b[i])
}

fn eq_ignore_ascii_case(a: &str, b: &str) -> (r: bool)
    ensures
        r == eq_ignore_ascii_case_spec(a@, b@),
{
    let n = a.unicode_len();
    if n != b.unicode_len() {
        return false;
    }
    let mut i: usize = 0;
    while i < n
        invariant
            n == a@.len(),
            n == b@.len(),
            i <= n,
            forall|k: int| 0 <= k < i ==> lower_char(#[trigger] a@[k]) == lower_char(b@[k]),
        decreases n - i,
    {
        if to_lower(a.get_char(i)) != to_lower(b.get_char(i)) {
            return false;
        }
        i = i + 1;
    }
    true
}

/// Whether a `PATH` part is kept: it is not empty and is none of the
/// removed entries, ignoring ASCII case.
pub open spec fn keep_part(part: Seq<char>, entries: Seq<Seq<char>>) -> bool {
    part.len() > 0 && !(exists|j: int| 0 <= j < entries.len() && eq_ignore_ascii_case_spec(part, #[trigger] entries[j]))
}

pub open spec fn kept_parts(parts: Seq<Seq<char>>, entries: Seq<Seq<char>>) -> Seq<Seq<char>>
    decreases parts.len(),
{
    if parts.len() == 0 {
        Seq::empty()
    } else if keep_part(parts.last(), entries) {
        kept_parts(parts.drop_last(), entries).push(parts.last())
    } else {
        kept_parts(parts.drop_last(), entries)
    }
}

/// A user `PATH` value without the given entries and without empty parts.
pub open spec fn without_path_entries_spec(current: Seq<char>, entries: Seq<Seq<char>>) -> Seq<char> {
    join_seq(kept_parts(split_seq(current, ';'), entries), ";"@)
}

/// The user `PATH` value without the installation's entries: what the
/// uninstaller writes back.
pub fn remove_user_path_entries(current_path: &str, entries: &[String]) -> (r: String)
    ensures
        r@ == without_path_entries_spec(current_path@, string_views(entries@)),
{
    let parts = split_char(current_path, ';');
    let ghost pv = split_seq(current_path@, ';');
    let ghost ev = string_views(entries@);
    let mut kept: Vec<String> = Vec::new();
    let mut i: usize = 0;
    while i < parts.len()
        invariant
            i <= parts@.len(),
            parts@.len() == pv.len(),
            forall|k: int| 0 <= k < parts@.len() ==> #[trigger] parts@[k]@ == pv[k],
            ev == string_views(entries@),
            string_views(kept@) == kept_parts(pv.take(i as int), ev),
        decreases parts@.len() - i,
    {
        let part = &parts[i];
        let mut matched = false;
        let mut j: usize = 0;
        while j < entries.len()
            invariant
                j <= entries@.len(),
                ev == string_views(entries@),
                matched == exists|t: int| 0 <= t < j && eq_ignore_ascii_case_spec(part@, #[trigger] ev[t]),
            decreases entries@.len() - j,
        {
            if eq_ignore_ascii_case(part.as_str(), entries[j].as_str()) {
                assert(eq_ignore_ascii_case_spec(part@, ev[j as int]));
                matched = true;
            }
            j = j + 1;
        }
        assert(pv.take(i + 1).drop_last() == pv.take(i as int));
        assert(pv.take(i + 1).last() == part@);
        if part.unicode_len() > 0 && !matched {
            let ghost before = kept@;
            kept.push(part.clone());
            assert(string_views(kept@) =~= string_views(before).push(part@));
        }
        i = i + 1;
    }
    assert(pv.take(i as int) == pv);
    join_strings(kept.as_slice(), ";")
}

} // verus!
