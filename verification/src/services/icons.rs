//! Icons that a platform attaches to its binaries: which platforms accept
//! them and which binaries they may name.
use vstd::prelude::*;

use crate::text::{chars_of, clone_strings, concat2, contains_string, has_string, join_seq, join_strings, push_str, str_eq,
    string_views};

verus! {

/// An icon for one binary of the package.
#[derive(Debug)]
pub struct IconMapping {
    pub binary: String,
    pub source: String,
}

impl Clone for IconMapping {
    fn clone(&self) -> (r: Self)
        ensures
            r.binary@ == self.binary@,
            r.source@ == self.source@,
    {
        IconMapping { binary: self.binary.clone(), source: self.source.clone() }
    }
}

/// Why an icon configuration was refused.
#[derive(Debug)]
pub enum IconError {
    /// Icons on a platform other than Windows.
    UnsupportedPlatform(String),
    /// An icon for a binary that the package does not build.
    UnknownBinary { binary: String, known: Vec<String> },
    /// An icon whose source is missing or unusable, with the message of the
    /// check made where the file is read.
    File(String),
}

impl IconError {
    pub open spec fn message_spec(&self) -> Seq<char> {
        match self {
            IconError::UnsupportedPlatform(platform) => platform@ + " icons are not supported"@,
            IconError::UnknownBinary { binary, known } => "windows icon references unknown binary "@
                + binary@ + ". Known binaries: "@ + join_seq(string_views(known@), ", "@),
            IconError::File(message) => message@,
        }
    }

    /// The error's message.
    pub fn to_string(&self) -> (r: String)
        ensures
            r@ == self.message_spec(),
    {
        match self {
            IconError::UnsupportedPlatform(platform) => concat2(platform.as_str(), " icons are not supported"),
            IconError::UnknownBinary { binary, known } => {
                let mut s = concat2("windows icon references unknown binary ", binary.as_str());
                push_str(&mut s, ". Known binaries: ");
                let names = join_strings(known.as_slice(), ", ");
                push_str(&mut s, names.as_str());
                s
            },
            IconError::File(message) => message.clone(),
        }
    }
}

/// Checks that an icon names one of the package's binaries.
pub fn validate_icon(icon: &IconMapping, binary_names: &[String]) -> (r: Result<(), IconError>)
    ensures
        has_string(binary_names@, icon.binary@) <==> r is Ok,
        r matches Err(e) ==> (e matches IconError::UnknownBinary { binary, known } && binary@
            == icon.binary@ && string_views(known@) == string_views(binary_names@)),
{
    if !contains_string(binary_names, icon.binary.as_str()) {
        let known = clone_strings(binary_names);
        return Err(IconError::UnknownBinary { binary: icon.binary.clone(), known });
    }
    Ok(())
}

/// The index of the first icon that names no binary of the package.
pub open spec fn first_unknown_icon(icons: Seq<IconMapping>, binary_names: Seq<String>) -> Option<int> {
    if exists|i: int| 0 <= i < icons.len() && !has_string(binary_names, #[trigger] icons[i].binary@) {
        Some(choose|i: int| 0 <= i < icons.len() && !has_string(binary_names, icons[i].binary@) && forall|k: int|
            0 <= k < i ==> has_string(binary_names, #[trigger] icons[k].binary@))
    } else {
        None
    }
}

/// Checks a platform's icons: only Windows accepts icons, and each icon must
/// name one of the package's binaries; the first failure is reported.
pub fn validate_icons(platform: &str, icons: &[IconMapping], binary_names: &[String]) -> (r: Result<(), IconError>)
    ensures
        platform@ != "windows"@ && icons@.len() > 0 ==> (r matches Err(IconError::UnsupportedPlatform(p)) && p@ == platform@),
        platform@ == "windows"@ || icons@.len() == 0 ==> match first_unknown_icon(icons@, binary_names@) {
            None => r is Ok,
            Some(i) => r matches Err(IconError::UnknownBinary { binary, known }) && binary@ == icons@[i].binary@
                && string_views(known@) == string_views(binary_names@),
        },
{
    if !str_eq(platform, "windows") && icons.len() > 0 {
        return Err(IconError::UnsupportedPlatform(platform.to_string()));
    }
    let mut i: usize = 0;
    while i < icons.len()
        invariant
            i <= icons@.len(),
            platform@ == "windows"@ || icons@.len() == 0,
            forall|k: int| 0 <= k < i ==> has_string(binary_names@, #[trigger] icons@[k].binary@),
        decreases icons@.len() - i,
    {
        let checked = validate_icon(&icons[i], binary_names);
        if checked.is_err() {
            proof {
                assert(!has_string(binary_names@, icons@[i as int].binary@));
                let j = choose|j: int| 0 <= j < icons@.len() && !has_string(binary_names@, icons@[j].binary@) && forall|k: int|
                    0 <= k < j ==> has_string(binary_names@, #[trigger] icons@[k].binary@);
                if j < i {
                    assert(has_string(binary_names@, icons@[j].binary@));
                }
                if j > i {
                    assert(has_string(binary_names@, icons@[i as int].binary@));
                }
            }
            return checked;
        }
        i = i + 1;
    }
    assert(!(exists|i: int| 0 <= i < icons@.len() && !has_string(binary_names@, #[trigger] icons@[i].binary@)));
    Ok(())
}

/// Whether an icon fails: it names no binary of the package, or the check
/// of its source file found a fault.
pub open spec fn icon_fails(icon: IconMapping, binary_names: Seq<String>, file: Option<String>) -> bool {
    !has_string(binary_names, icon.binary@) || file is Some
}

/// The index of the first icon that fails, given what the check of each
/// icon's source file found.
pub open spec fn first_failing_icon(icons: Seq<IconMapping>, binary_names: Seq<String>, files: Seq<Option<String>>) -> Option<int> {
    if exists|i: int| 0 <= i < icons.len() && #[trigger] icon_fails(icons[i], binary_names, files[i]) {
        Some(choose|i: int| 0 <= i < icons.len() && icon_fails(icons[i], binary_names, files[i]) && forall|k: int|
            0 <= k < i ==> !#[trigger] icon_fails(icons[k], binary_names, files[k]))
    } else {
        None
    }
}

/// Why an icon fails: the unknown binary first, else its file's fault.
pub open spec fn icon_failure_message(icon: IconMapping, binary_names: Seq<String>, file: Option<String>) -> Seq<char> {
    if !has_string(binary_names, icon.binary@) {
        "windows icon references unknown binary "@ + icon.binary@ + ". Known binaries: "@ + join_seq(
            string_views(binary_names),
            ", "@,
        )
    } else {
        match file {
            Some(m) => m@,
            None => Seq::empty(),
        }
    }
}

/// Checks a platform's icons, given what the check of each icon's source
/// file found (`None` when the file is fine): only Windows accepts icons;
/// each icon in turn must name one of the package's binaries and have a
/// usable source file; the first failure is reported.
pub fn check_icons(platform: &str, icons: &[IconMapping], binary_names: &[String], files: &[Option<String>]) -> (r: Result<
    (),
    IconError,
>)
    requires
        files@.len() == icons@.len(),
    ensures
        platform@ != "windows"@ && icons@.len() > 0 ==> (r matches Err(IconError::UnsupportedPlatform(p)) && p@ == platform@),
        platform@ == "windows"@ || icons@.len() == 0 ==> match first_failing_icon(icons@, binary_names@, files@) {
            None => r is Ok,
            Some(i) => r matches Err(e) && e.message_spec() == icon_failure_message(icons@[i], binary_names@, files@[i]),
        },
{
    if !str_eq(platform, "windows") && icons.len() > 0 {
        return Err(IconError::UnsupportedPlatform(platform.to_string()));
    }
    let mut i: usize = 0;
    while i < icons.len()
        invariant
            i <= icons@.len(),
            files@.len() == icons@.len(),
            platform@ == "windows"@ || icons@.len() == 0,
            forall|k: int| 0 <= k < i ==> !#[trigger] icon_fails(icons@[k], binary_names@, files@[k]),
        decreases icons@.len() - i,
    {
        let fails_here = if !contains_string(binary_names, icons[i].binary.as_str()) {
            true
        } else {
            files[i].is_some()
        };
        if fails_here {
            proof {
                assert(icon_fails(icons@[i as int], binary_names@, files@[i as int]));
                let j = choose|j: int| 0 <= j < icons@.len() && icon_fails(icons@[j], binary_names@, files@[j]) && forall|k: int|
                    0 <= k < j ==> !#[trigger] icon_fails(icons@[k], binary_names@, files@[k]);
                if j < i {
                    assert(!icon_fails(icons@[j], binary_names@, files@[j]));
                }
                if j > i {
                    assert(!icon_fails(icons@[i as int], binary_names@, files@[i as int]));
                }
            }
            let checked = validate_icon(&icons[i], binary_names);
            match checked {
                Err(e) => {
                    return Err(e);
                },
                Ok(()) => {
                    return match &files[i] {
                        Some(m) => Err(IconError::File(m.clone())),
                        None => Ok(()),
                    };
                },
            }
        }
        i = i + 1;
    }
    assert(!(exists|i: int| 0 <= i < icons@.len() && #[trigger] icon_fails(icons@[i], binary_names@, files@[i])));
    Ok(())
}

/// The first place at or after `from` where `needle` occurs in `s`.
pub open spec fn find_from(s: Seq<char>, needle: Seq<char>, from: int) -> Option<int>
    decreases s.len() + 1 - from,
{
    if from < 0 || from + needle.len() > s.len() {
        None
    } else if s.subrange(from, from + needle.len()) == needle {
        Some(from)
    } else {
        find_from(s, needle, from + 1)
    }
}

/// The value of attribute `name` in SVG text: the text between the quotes
/// (single or double) right after the first `name=`.
pub open spec fn svg_attribute_spec(contents: Seq<char>, name: Seq<char>) -> Option<Seq<char>> {
    match find_from(contents, name + "="@, 0) {
        None => None,
        Some(i) => {
            let start = i + name.len() + 1;
            if start >= contents.len() || (contents[start] != '"' && contents[start] != '\'') {
                None
            } else {
                match find_from(contents, seq![contents[start]], start + 1) {
                    None => None,
                    Some(end) => Some(contents.subrange(start + 1, end)),
                }
            }
        },
    }
}

fn find_chars(s: &Vec<char>, needle: &Vec<char>, from: usize) -> (r: Option<usize>)
    requires
        from <= s@.len(),
    ensures
        match find_from(s@, needle@, from as int) {
            Some(i) => r == Some(i as usize) && from <= i && i + needle@.len() <= s@.len(),
            None => r is None,
        },
    decreases s@.len() - from,
{
    if needle.len() > s.len() - from {
        return None;
    }
    let mut k: usize = 0;
    while k < needle.len()
        invariant
            from + needle@.len() <= s@.len(),
            s@.len() == s.len(),
            k <= needle@.len(),
            forall|j: int| 0 <= j < k ==> s@[from + j] == needle@[j],
        decreases needle@.len() - k,
    {
        if s[from + k] != needle[k] {
            assert(s@.subrange(from as int, from + needle@.len())[k as int] != needle@[k as int]);
            return find_chars(s, needle, from + 1);
        }
        k = k + 1;
    }
    assert(s@.subrange(from as int, from + needle@.len()) =~= needle@);
    Some(from)
}

/// The value of attribute `name` in SVG text: the text between the quotes
/// (single or double) right after the first `name=`.
pub fn svg_attribute(contents: &str, name: &str) -> (r: Option<String>)
    ensures
        match svg_attribute_spec(contents@, name@) {
            Some(v) => r matches Some(t) && t@ == v,
            None => r is None,
        },
{
    let chars = chars_of(contents);
    let mut pattern = chars_of(name);
    pattern.push('=');
    assert(pattern@ =~= name@ + "="@) by {
        reveal_strlit("=");
    }
    let found = find_chars(&chars, &pattern, 0);
    match found {
        None => None,
        Some(i) => {
            let start = i + name.unicode_len() + 1;
            if start >= chars.len() {
                return None;
            }
            let quote = chars[start];
            if quote != '"' && quote != '\'' {
                return None;
            }
            let mut q: Vec<char> = Vec::new();
            q.push(quote);
            assert(q@ =~= seq![contents@[start as int]]);
            match find_chars(&chars, &q, start + 1) {
                None => None,
                Some(end) => Some(crate::text::string_from_range(&chars, start + 1, end)),
            }
        },
    }
}

} // verus!
