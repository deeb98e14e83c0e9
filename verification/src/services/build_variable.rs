//! Build variables: `$NAME` references in payload paths and install paths.
use vstd::prelude::*;

use crate::services::payload_file::PayloadFile;
use crate::text::{chars_of, concat3, is_ascii_alnum, is_ascii_alnum_char, is_ascii_alpha, is_ascii_alpha_char, str_eq, string_from_range, strs_view};

verus! {

/// A variable that a payload path may reference.
#[derive(Clone, Copy, Debug, PartialEq, Eq, Structural, PartialOrd, Ord, Hash)]
pub enum BuildVariable {
    InstallPath,
    HomePath,
}

/// The name by which a variable is written after `$`.
pub open spec fn variable_name_spec(v: BuildVariable) -> Seq<char> {
    match v {
        BuildVariable::InstallPath => "INSTALLPATH"@,
        BuildVariable::HomePath => "HOMEPATH"@,
    }
}

/// The variable that a name denotes, if any.
pub open spec fn parse_variable_spec(name: Seq<char>) -> Option<BuildVariable> {
    if name == "INSTALLPATH"@ {
        Some(BuildVariable::InstallPath)
    } else if name == "HOMEPATH"@ {
        Some(BuildVariable::HomePath)
    } else {
        None
    }
}

/// Why a set of variable references was refused.
#[derive(Debug)]
pub enum VariableError {
    /// A `$NAME` reference to a variable that is not supported.
    Unsupported(String),
}

impl VariableError {
    pub open spec fn message_spec(&self) -> Seq<char> {
        match self {
            VariableError::Unsupported(name) => "Variable "@ + name@ + " is not supported"@,
        }
    }

    /// The error's message, as the command line reports it.
    pub fn to_string(&self) -> (r: String)
        ensures
            r@ == self.message_spec(),
    {
        match self {
            VariableError::Unsupported(name) => concat3("Variable ", name.as_str(), " is not supported"),
        }
    }
}

impl BuildVariable {
    /// The name by which the variable is written after `$`.
    pub fn name(self) -> (r: &'static str)
        ensures
            r@ == variable_name_spec(self),
    {
        match self {
            BuildVariable::InstallPath => "INSTALLPATH",
            BuildVariable::HomePath => "HOMEPATH",
        }
    }

    /// The variable that `name` denotes; `None` for an unsupported name.
    pub fn parse(name: &str) -> (r: Option<BuildVariable>)
        ensures
            r == parse_variable_spec(name@),
    {
        proof {
            reveal_strlit("INSTALLPATH");
            reveal_strlit("HOMEPATH");
        }
        if str_eq(name, "INSTALLPATH") {
            Some(BuildVariable::InstallPath)
        } else if str_eq(name, "HOMEPATH") {
            Some(BuildVariable::HomePath)
        } else {
            None
        }
    }

    /// Variables whose value the installed system provides at run time.
    pub fn is_runtime_provided(self) -> (r: bool)
        ensures
            r == (self == BuildVariable::HomePath),
    {
        matches!(self, BuildVariable::HomePath)
    }
}

pub open spec fn ident_start(c: char) -> bool {
    c == '_' || is_ascii_alpha_char(c)
}

pub open spec fn ident_char(c: char) -> bool {
    c == '_' || is_ascii_alnum_char(c)
}

/// The end of the run of identifier characters of `s` that starts at `j`.
pub open spec fn ident_end(s: Seq<char>, j: int) -> int
    decreases s.len() - j,
{
    if 0 <= j < s.len() && ident_char(s[j]) {
        ident_end(s, j + 1)
    } else {
        j
    }
}

/// The names referenced as `$NAME` in `s` from position `i` on, in order: a
/// `$` followed by `_` or an ASCII letter starts a name, which runs over
/// `_` and ASCII letters and digits.
pub open spec fn variables_from(s: Seq<char>, i: int) -> Seq<Seq<char>>
    decreases s.len() - i,
{
    if i < 0 || i >= s.len() {
        Seq::empty()
    } else if s[i] == '$' && i + 1 < s.len() && ident_start(s[i + 1]) {
        proof { lemma_ident_end_bounds(s, i + 2); }
        let e = ident_end(s, i + 2);
        if e <= i {
            Seq::empty()
        } else {
            seq![s.subrange(i + 1, e)] + variables_from(s, e)
        }
    } else {
        variables_from(s, i + 1)
    }
}

pub open spec fn variables_spec(s: Seq<char>) -> Seq<Seq<char>> {
    variables_from(s, 0)
}

pub open spec fn strings_view(v: Seq<String>) -> Seq<Seq<char>> {
    v.map_values(|s: String| s@)
}

pub proof fn lemma_ident_end_bounds(s: Seq<char>, j: int)
    requires
        0 <= j <= s.len(),
    ensures
        j <= ident_end(s, j) <= s.len(),
    decreases s.len() - j,
{
    if j < s.len() && ident_char(s[j]) {
        lemma_ident_end_bounds(s, j + 1);
    }
}

fn scan_ident_end(v: &Vec<char>, j: usize) -> (e: usize)
    requires
        j <= v@.len(),
    ensures
        e as int == ident_end(v@, j as int),
{
    let n = v.len();
    let mut k = j;
    while k < n && (v[k] == '_' || is_ascii_alnum(v[k]))
        invariant
            n == v@.len(),
            j <= k <= n,
            ident_end(v@, k as int) == ident_end(v@, j as int),
        decreases n - k,
    {
        k = k + 1;
    }
    k
}

/// The names referenced as `$NAME` in `value`, in the order they occur.
pub fn variables_from_value(value: &str) -> (r: Vec<String>)
    ensures
        strings_view(r@) == variables_spec(value@),
{
    let v = chars_of(value);
    let n = v.len();
    let mut out: Vec<String> = Vec::new();
    let mut i: usize = 0;
    while i < n
        invariant
            v@ == value@,
            n == v@.len(),
            i <= n,
            variables_spec(value@) == strings_view(out@) + variables_from(value@, i as int),
        decreases n - i,
    {
        if v[i] == '$' && i + 1 < n && (v[i + 1] == '_' || is_ascii_alpha(v[i + 1])) {
            let e = scan_ident_end(&v, i + 2);
            proof { lemma_ident_end_bounds(v@, i + 2); }
            let name = string_from_range(&v, i + 1, e);
            let ghost old_out = out@;
            out.push(name);
            proof {
                assert(strings_view(out@) == strings_view(old_out).push(name@));
                assert(variables_from(value@, i as int) == seq![value@.subrange(i + 1, e as int)]
                    + variables_from(value@, e as int));
                assert(strings_view(out@) + variables_from(value@, e as int) == strings_view(old_out)
                    + variables_from(value@, i as int));
            }
            i = e;
        } else {
            i = i + 1;
        }
    }
    proof {
        assert(variables_from(value@, n as int) == Seq::<Seq<char>>::empty());
        assert(strings_view(out@) + Seq::<Seq<char>>::empty() == strings_view(out@));
    }
    out
}

/// What a list of referenced names yields: the first unsupported name as the
/// error; otherwise the variables that the build must supply, sorted and
/// without duplicates, which leaves out the ones the installed system provides.
pub open spec fn variables_outcome(names: Seq<Seq<char>>) -> Result<Seq<BuildVariable>, Seq<char>>
    decreases names.len(),
{
    if names.len() == 0 {
        Ok(Seq::empty())
    } else {
        match parse_variable_spec(names[0]) {
            None => Err(names[0]),
            Some(v) => match variables_outcome(names.drop_first()) {
                Err(e) => Err(e),
                Ok(rest) => Ok(if v == BuildVariable::InstallPath { seq![BuildVariable::InstallPath] } else { rest }),
            },
        }
    }
}

pub open spec fn outcome_after(found: bool, r: Result<Seq<BuildVariable>, Seq<char>>) -> Result<Seq<BuildVariable>, Seq<char>> {
    match r {
        Err(e) => Err(e),
        Ok(rest) => Ok(if found { seq![BuildVariable::InstallPath] } else { rest }),
    }
}

pub open spec fn outcome_matches(r: Result<Vec<BuildVariable>, VariableError>, expected: Result<Seq<BuildVariable>, Seq<char>>) -> bool {
    match (r, expected) {
        (Ok(v), Ok(e)) => v@ == e,
        (Err(VariableError::Unsupported(n)), Err(e)) => n@ == e,
        _ => false,
    }
}

/// The variables that `names` reference, or the first unsupported name.
pub fn collect_variables(names: &Vec<String>) -> (r: Result<Vec<BuildVariable>, VariableError>)
    ensures
        outcome_matches(r, variables_outcome(strings_view(names@))),
{
    let ghost all = strings_view(names@);
    let mut found = false;
    let mut i: usize = 0;
    assert(all.skip(0) == all);
    while i < names.len()
        invariant
            all == strings_view(names@),
            i <= names@.len(),
            variables_outcome(all) == outcome_after(found, variables_outcome(all.skip(i as int))),
        decreases names@.len() - i,
    {
        let name = &names[i];
        assert(all.skip(i as int)[0] == name@);
        assert(all.skip(i as int).drop_first() == all.skip(i + 1));
        match BuildVariable::parse(name.as_str()) {
            None => {
                return Err(VariableError::Unsupported(name.clone()));
            },
            Some(v) => {
                if v == BuildVariable::InstallPath {
                    found = true;
                }
            },
        }
        i = i + 1;
    }
    assert(all.skip(i as int).len() == 0);
    assert(variables_outcome(all.skip(i as int)) == Ok::<Seq<BuildVariable>, Seq<char>>(Seq::empty()));
    if found {
        let v = vec![BuildVariable::InstallPath];
        assert(v@ =~= seq![BuildVariable::InstallPath]);
        Ok(v)
    } else {
        let v: Vec<BuildVariable> = Vec::new();
        assert(v@ =~= Seq::<BuildVariable>::empty());
        Ok(v)
    }
}

/// The names referenced by the sources and destinations of `files`, file by
/// file, the source's before the destination's.
pub open spec fn file_names(files: Seq<PayloadFile>) -> Seq<Seq<char>>
    decreases files.len(),
{
    if files.len() == 0 {
        Seq::empty()
    } else {
        file_names(files.drop_last()) + variables_spec(files.last().source@) + variables_spec(
            files.last().destination@,
        )
    }
}

/// The names referenced by each of `values`, in order.
pub open spec fn value_names(values: Seq<Seq<char>>) -> Seq<Seq<char>>
    decreases values.len(),
{
    if values.len() == 0 {
        Seq::empty()
    } else {
        value_names(values.drop_last()) + variables_spec(values.last())
    }
}

proof fn lemma_strings_view_append(a: Seq<String>, b: Seq<String>)
    ensures
        strings_view(a + b) == strings_view(a) + strings_view(b),
{
    assert(strings_view(a + b) =~= strings_view(a) + strings_view(b));
}

fn append_names(out: &mut Vec<String>, more: Vec<String>)
    ensures
        strings_view(final(out)@) == strings_view(old(out)@) + strings_view(more@),
{
    let mut more = more;
    proof { lemma_strings_view_append(out@, more@); }
    out.append(&mut more);
}

fn names_of_files(files: &[PayloadFile]) -> (r: Vec<String>)
    ensures
        strings_view(r@) == file_names(files@),
{
    let mut out: Vec<String> = Vec::new();
    let mut i: usize = 0;
    while i < files.len()
        invariant
            i <= files@.len(),
            strings_view(out@) == file_names(files@.take(i as int)),
        decreases files@.len() - i,
    {
        append_names(&mut out, variables_from_value(files[i].source.as_str()));
        append_names(&mut out, variables_from_value(files[i].destination.as_str()));
        assert(files@.take(i + 1).drop_last() == files@.take(i as int));
        i = i + 1;
    }
    assert(files@.take(i as int) == files@);
    out
}

fn names_of_values(values: &[&str]) -> (r: Vec<String>)
    ensures
        strings_view(r@) == value_names(strs_view(values@)),
{
    let mut out: Vec<String> = Vec::new();
    let mut i: usize = 0;
    while i < values.len()
        invariant
            i <= values@.len(),
            strings_view(out@) == value_names(strs_view(values@.take(i as int))),
        decreases values@.len() - i,
    {
        append_names(&mut out, variables_from_value(values[i]));
        assert(strs_view(values@.take(i + 1)).drop_last() == strs_view(values@.take(i as int)));
        i = i + 1;
    }
    assert(values@.take(i as int) == values@);
    out
}

/// The variables referenced by `files`: an error for the first unsupported
/// name, else the variables the build must supply.
pub fn variables_from_files(files: &[PayloadFile]) -> (r: Result<Vec<BuildVariable>, VariableError>)
    ensures
        outcome_matches(r, variables_outcome(file_names(files@))),
{
    let names = names_of_files(files);
    collect_variables(&names)
}

/// The variables referenced by a platform's variable sources (its install
/// path and associated files) and by its payload files, sources first.
pub fn get_platform_variables(variable_sources: &[&str], files: &[PayloadFile]) -> (r: Result<Vec<BuildVariable>, VariableError>)
    ensures
        outcome_matches(r, variables_outcome(value_names(strs_view(variable_sources@)) + file_names(files@))),
{
    let mut names = names_of_values(variable_sources);
    append_names(&mut names, names_of_files(files));
    collect_variables(&names)
}

} // verus!
