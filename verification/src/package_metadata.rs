//! Names derived from the package for distribution packages.
use vstd::prelude::*;

use crate::text::{chars_of, is_ascii_alnum, is_ascii_alnum_char, is_ascii_char, lower_char, owned, push_char, trim, trim_ws};

verus! {

/// The lower-case mapping of a character (`char::to_lowercase`): one to
/// three characters, from Unicode's tables.
pub uninterp spec fn char_lowercase(c: char) -> Seq<char>;

/// The lower-case mapping of one character: an ASCII character maps to its
/// ASCII lower case, any other to what Unicode's tables give.
pub open spec fn lower_mapping(c: char) -> Seq<char> {
    if is_ascii_char(c) { seq![lower_char(c)] } else { char_lowercase(c) }
}

/// The characters `char::to_lowercase` yields for `c`. Trusted: the contract
/// claims what std documents, that an ASCII character lower-cases to its
/// ASCII lower case; of any other character it names the result and says
/// nothing of Unicode's case tables behind it.
#[verifier::external_body]
fn lowercase_of(c: char) -> (r: Vec<char>)
    ensures
        r@ == (if is_ascii_char(c) { seq![lower_char(c)] } else { char_lowercase(c) }),
{
    c.to_lowercase().collect()
}

/// A character of a package name: ASCII letters, digits, `+`, `-` and `.`
/// are kept, anything else becomes `-`.
pub open spec fn package_char(c: char) -> char {
    if is_ascii_alnum_char(c) || c == '+' || c == '-' || c == '.' { c } else { '-' }
}

/// The lower-cased characters of `s`, one character's mapping after another.
pub open spec fn lowered(s: Seq<char>) -> Seq<char>
    decreases s.len(),
{
    if s.len() == 0 {
        Seq::empty()
    } else {
        lowered(s.drop_last()) + lower_mapping(s.last())
    }
}

/// Trims every leading and trailing `-` and `.`.
pub open spec fn trim_dashes_dots(s: Seq<char>) -> Seq<char>
    decreases s.len(),
{
    if s.len() > 0 && (s[0] == '-' || s[0] == '.') {
        trim_dashes_dots(s.drop_first())
    } else if s.len() > 0 && (s.last() == '-' || s.last() == '.') {
        trim_dashes_dots(s.drop_last())
    } else {
        s
    }
}

/// A distribution package name: the name lower-cased, each character not
/// allowed in package names a dash, without leading or trailing dashes and
/// dots; `app` when nothing is left.
pub open spec fn package_name_spec(name: Seq<char>) -> Seq<char> {
    let t = trim_dashes_dots(lowered(name).map_values(|c: char| package_char(c)));
    if t.len() == 0 { "app"@ } else { t }
}

/// A distribution package name for `name`.
pub fn package_name(name: &str) -> (r: String)
    ensures
        r@ == package_name_spec(name@),
{
    let n = name.unicode_len();
    let mut package: Vec<char> = Vec::new();
    let mut i: usize = 0;
    while i < n
        invariant
            n == name@.len(),
            i <= n,
            package@ == lowered(name@.take(i as int)).map_values(|c: char| package_char(c)),
        decreases n - i,
    {
        let lower = lowercase_of(name.get_char(i));
        let ghost before = package@;
        let mut k: usize = 0;
        while k < lower.len()
            invariant
                k <= lower@.len(),
                package@ == before + lower@.take(k as int).map_values(|c: char| package_char(c)),
            decreases lower@.len() - k,
        {
            let c = lower[k];
            let m = if is_ascii_alnum(c) || c == '+' || c == '-' || c == '.' { c } else { '-' };
            package.push(m);
            assert(lower@.take(k + 1).map_values(|c: char| package_char(c)) =~= lower@.take(k as int).map_values(|c: char| package_char(c)).push(package_char(c)));
            k = k + 1;
        }
        assert(lower@.take(k as int) == lower@);
        assert(name@.take(i + 1).drop_last() == name@.take(i as int));
        assert(lowered(name@.take(i + 1)) == lowered(name@.take(i as int)) + lower_mapping(name@[i as int]));
        assert(package@ =~= lowered(name@.take(i + 1)).map_values(|c: char| package_char(c)));
        i = i + 1;
    }
    assert(name@.take(n as int) == name@);
    let ghost full = package@;
    let mut start: usize = 0;
    let mut end: usize = package.len();
    assert(full.subrange(0, end as int) == full);
    while start < end && (package[start] == '-' || package[start] == '.')
        invariant
            full == package@,
            start <= end <= package@.len(),
            trim_dashes_dots(full) == trim_dashes_dots(full.subrange(start as int, end as int)),
        decreases end - start,
    {
        assert(full.subrange(start as int, end as int).drop_first() == full.subrange(start + 1, end as int));
        start = start + 1;
    }
    while start < end && (package[end - 1] == '-' || package[end - 1] == '.')
        invariant
            full == package@,
            start <= end <= package@.len(),
            trim_dashes_dots(full) == trim_dashes_dots(full.subrange(start as int, end as int)),
            start < end ==> !(full[start as int] == '-' || full[start as int] == '.'),
        decreases end - start,
    {
        assert(full.subrange(start as int, end as int).drop_last() == full.subrange(start as int, end - 1));
        end = end - 1;
    }
    let trimmed = crate::text::string_from_range(&package, start, end);
    if start == end {
        return owned("app");
    }
    trimmed
}

/// A character a package name may hold: an ASCII letter or digit, `+`, `-`
/// or `.`.
pub open spec fn package_name_char(c: char) -> bool {
    is_ascii_alnum_char(c) || c == '+' || c == '-' || c == '.'
}

/// Like `package_name_char`, with letters in lower case only.
pub open spec fn package_name_lower_char(c: char) -> bool {
    ('0' <= c && c <= '9') || ('a' <= c && c <= 'z') || c == '+' || c == '-' || c == '.'
}

pub open spec fn dash_or_dot(c: char) -> bool {
    c == '-' || c == '.'
}

proof fn lemma_trim_dashes_dots(s: Seq<char>)
    ensures
        exists|i: int, j: int| 0 <= i <= j <= s.len() && trim_dashes_dots(s) == s.subrange(i, j),
        trim_dashes_dots(s).len() > 0 ==> !dash_or_dot(trim_dashes_dots(s)[0]) && !dash_or_dot(
            trim_dashes_dots(s).last(),
        ),
    decreases s.len(),
{
    if s.len() > 0 && (s[0] == '-' || s[0] == '.') {
        let d = s.drop_first();
        lemma_trim_dashes_dots(d);
        let (i, j) = choose|i: int, j: int| 0 <= i <= j <= d.len() && trim_dashes_dots(d) == d.subrange(i, j);
        assert(d.subrange(i, j) == s.subrange(i + 1, j + 1));
    } else if s.len() > 0 && (s.last() == '-' || s.last() == '.') {
        let d = s.drop_last();
        lemma_trim_dashes_dots(d);
        let (i, j) = choose|i: int, j: int| 0 <= i <= j <= d.len() && trim_dashes_dots(d) == d.subrange(i, j);
        assert(d.subrange(i, j) == s.subrange(i, j));
    } else {
        assert(s.subrange(0, s.len() as int) == s);
    }
}

proof fn lemma_lowered_ascii(s: Seq<char>)
    requires
        forall|k: int| 0 <= k < s.len() ==> is_ascii_char(#[trigger] s[k]),
    ensures
        lowered(s) == s.map_values(|c: char| lower_char(c)),
    decreases s.len(),
{
    if s.len() > 0 {
        let d = s.drop_last();
        assert forall|k: int| 0 <= k < d.len() implies is_ascii_char(#[trigger] d[k]) by {
            assert(d[k] == s[k]);
        }
        lemma_lowered_ascii(d);
        assert(is_ascii_char(s[s.len() - 1]));
        assert(s.map_values(|c: char| lower_char(c)) =~= d.map_values(|c: char| lower_char(c)) + seq![lower_char(s.last())]);
    } else {
        assert(s.map_values(|c: char| lower_char(c)) =~= Seq::<char>::empty());
    }
}

/// The package name of any name is in normal form: not empty, made of ASCII
/// letters, digits, `+`, `-` and `.` alone, and neither starting nor ending
/// with `-` or `.`.
pub proof fn lemma_package_name_form(name: Seq<char>)
    ensures
        package_name_spec(name).len() > 0,
        forall|k: int| 0 <= k < package_name_spec(name).len() ==> package_name_char(#[trigger] package_name_spec(name)[k]),
        !dash_or_dot(package_name_spec(name)[0]),
        !dash_or_dot(package_name_spec(name).last()),
{
    reveal_strlit("app");
    let m = lowered(name).map_values(|c: char| package_char(c));
    lemma_trim_dashes_dots(m);
    let t = trim_dashes_dots(m);
    if t.len() > 0 {
        let (i, j) = choose|i: int, j: int| 0 <= i <= j <= m.len() && t == m.subrange(i, j);
        assert forall|k: int| 0 <= k < t.len() implies package_name_char(#[trigger] t[k]) by {
            assert(t[k] == m[i + k]);
        }
    } else {
        let r = package_name_spec(name);
        assert(r == "app"@);
        assert forall|k: int| 0 <= k < r.len() implies package_name_char(#[trigger] r[k]) by {}
    }
}

/// The package name of a name written in ASCII is in lower case, and it is
/// its own package name.
pub proof fn lemma_package_name_ascii(name: Seq<char>)
    requires
        forall|k: int| 0 <= k < name.len() ==> is_ascii_char(#[trigger] name[k]),
    ensures
        forall|k: int| 0 <= k < package_name_spec(name).len() ==> package_name_lower_char(#[trigger] package_name_spec(name)[k]),
        package_name_spec(package_name_spec(name)) == package_name_spec(name),
{
    reveal_strlit("app");
    lemma_package_name_form(name);
    lemma_lowered_ascii(name);
    let m = lowered(name).map_values(|c: char| package_char(c));
    assert forall|k: int| 0 <= k < m.len() implies package_name_lower_char(#[trigger] m[k]) by {
        assert(m[k] == package_char(lower_char(name[k])));
    }
    lemma_trim_dashes_dots(m);
    let t = trim_dashes_dots(m);
    let r = package_name_spec(name);
    if t.len() > 0 {
        let (i, j) = choose|i: int, j: int| 0 <= i <= j <= m.len() && t == m.subrange(i, j);
        assert forall|k: int| 0 <= k < t.len() implies package_name_lower_char(#[trigger] t[k]) by {
            assert(t[k] == m[i + k]);
        }
    } else {
        assert(r == "app"@);
        assert forall|k: int| 0 <= k < r.len() implies package_name_lower_char(#[trigger] r[k]) by {}
    }
    assert forall|k: int| 0 <= k < r.len() implies is_ascii_char(#[trigger] r[k]) by {
        assert(package_name_lower_char(r[k]));
    }
    lemma_lowered_ascii(r);
    let m2 = lowered(r).map_values(|c: char| package_char(c));
    assert forall|k: int| 0 <= k < r.len() implies #[trigger] m2[k] == r[k] by {
        assert(package_name_lower_char(r[k]));
    }
    assert(m2 =~= r);
    assert(trim_dashes_dots(r) == r);
}

/// The value of an optional setting, trimmed, when it is set and not blank.
pub open spec fn filled(value: Option<Seq<char>>) -> Option<Seq<char>> {
    match value {
        Some(v) => if trim_ws(v).len() > 0 {
            Some(trim_ws(v))
        } else {
            None
        },
        None => None,
    }
}

/// The view of an optional string.
pub open spec fn opt_view(value: Option<&str>) -> Option<Seq<char>> {
    match value {
        Some(v) => Some(v@),
        None => None,
    }
}

fn filled_value(value: Option<&str>) -> (r: Option<&str>)
    ensures
        opt_view(r) == filled(opt_view(value)),
{
    match value {
        Some(v) => {
            let t = trim(v);
            if t.unicode_len() > 0 {
                Some(t)
            } else {
                None
            }
        },
        None => None,
    }
}

/// The name shown for the package: the trimmed display name, else the
/// application name.
pub open spec fn display_name_spec(display_name: Option<Seq<char>>, app_name: Seq<char>) -> Seq<char> {
    match filled(display_name) {
        Some(d) => d,
        None => app_name,
    }
}

/// The name shown for the package.
pub fn display_name(shown: Option<&str>, app_name: &str) -> (r: String)
    ensures
        r@ == display_name_spec(opt_view(shown), app_name@),
{
    match filled_value(shown) {
        Some(d) => owned(d),
        None => owned(app_name),
    }
}

/// The publisher of the package: the trimmed publisher, else `unknown`.
pub fn publisher(configured: Option<&str>) -> (r: String)
    ensures
        r@ == match filled(opt_view(configured)) {
            Some(p) => p,
            None => "unknown"@,
        },
{
    match filled_value(configured) {
        Some(p) => owned(p),
        None => owned("unknown"),
    }
}

/// The description of the package: the trimmed description, else the name
/// shown for it.
pub fn description(text: Option<&str>, shown: Option<&str>, app_name: &str) -> (r: String)
    ensures
        r@ == match filled(opt_view(text)) {
            Some(d) => d,
            None => display_name_spec(opt_view(shown), app_name@),
        },
{
    match filled_value(text) {
        Some(d) => owned(d),
        None => self::display_name(shown, app_name),
    }
}

/// A character of an artifact's file name: `/`, `\` and `:` become `-`.
pub open spec fn artifact_char(c: char) -> char {
    if c == '/' || c == '\\' || c == ':' {
        '-'
    } else {
        c
    }
}

/// The file stem of the package's artifacts: the name shown for it, with
/// path separators and colons replaced.
pub fn artifact_file_stem(shown: Option<&str>, app_name: &str) -> (r: String)
    ensures
        r@ == display_name_spec(opt_view(shown), app_name@).map_values(|c: char| artifact_char(c)),
{
    let name = self::display_name(shown, app_name);
    let chars = chars_of(name.as_str());
    let mut out = String::new();
    let mut i: usize = 0;
    while i < chars.len()
        invariant
            i <= chars@.len(),
            chars@ == name@,
            out@ == name@.take(i as int).map_values(|c: char| artifact_char(c)),
        decreases chars@.len() - i,
    {
        let c = chars[i];
        push_char(&mut out, if c == '/' || c == '\\' || c == ':' { '-' } else { c });
        assert(name@.take(i + 1).map_values(|c: char| artifact_char(c)) =~= name@.take(i as int).map_values(
            |c: char| artifact_char(c),
        ).push(artifact_char(c)));
        i = i + 1;
    }
    assert(name@.take(i as int) =~= name@);
    out
}

} // verus!
