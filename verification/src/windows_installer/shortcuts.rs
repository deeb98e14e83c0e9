//! Start Menu shortcut names.
use vstd::prelude::*;

use crate::text::{push_char, trim, trim_ws};

verus! {

/// A character of a shortcut name: characters Windows refuses in file
/// names become `_`.
pub open spec fn shortcut_char(c: char) -> char {
    if c == '\\' || c == '/' || c == ':' || c == '*' || c == '?' || c == '"' || c == '<' || c == '>' || c == '|' {
        '_'
    } else {
        c
    }
}

/// The file name of a shortcut: the trimmed name with refused characters
/// replaced; an error when nothing is left.
pub fn shortcut_name(value: &str) -> (r: Result<String, String>)
    ensures
        trim_ws(value@).len() == 0 <==> r is Err,
        r matches Ok(n) ==> n@ == trim_ws(value@).map_values(|c: char| shortcut_char(c)),
        r matches Err(e) ==> e@ == "shortcut name cannot be empty"@,
{
    let t = trim(value);
    let n = t.unicode_len();
    let mut name = String::new();
    let mut i: usize = 0;
    while i < n
        invariant
            n == t@.len(),
            i <= n,
            name@ == t@.take(i as int).map_values(|c: char| shortcut_char(c)),
        decreases n - i,
    {
        let c = t.get_char(i);
        let m = if c == '\\' || c == '/' || c == ':' || c == '*' || c == '?' || c == '"' || c == '<' || c == '>' || c == '|' {
            '_'
        } else {
            c
        };
        push_char(&mut name, m);
        assert(t@.take(i + 1).map_values(|c: char| shortcut_char(c)) =~= t@.take(i as int).map_values(|c: char| shortcut_char(c)).push(shortcut_char(c)));
        i = i + 1;
    }
    assert(t@.take(n as int) == t@);
    if n == 0 {
        return Err("shortcut name cannot be empty".to_string());
    }
    Ok(name)
}

} // verus!
