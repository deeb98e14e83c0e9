//! The payload of one Rust target toolchain, with the single build variable
//! that payload paths may reference.
use vstd::prelude::*;

use crate::services::build_variable::{strings_view, variables_spec};
use crate::services::payload_file::{join_spec, resolve_spec};
use crate::target_manifest::binary_file_name_spec;
use crate::text::{concat2, concat3, has_substring, opt_str_view, owned, push_str, str_eq};

verus! {

/// What one toolchain installs.
#[derive(Debug)]
pub struct ToolchainManifest {
    pub toolchain: String,
    pub files: Vec<PayloadFile>,
}

/// The variable that toolchain payload paths may reference.
#[derive(Clone, Copy, Debug, PartialEq, Eq, Structural, PartialOrd, Ord)]
pub enum BuildVariable {
    InstallPath,
}

impl BuildVariable {
    /// The name by which the variable is written after `$`.
    pub fn name(self) -> (r: &'static str)
        ensures
            r@ == "INSTALLPATH"@,
    {
        match self {
            BuildVariable::InstallPath => "INSTALLPATH",
        }
    }

    /// The variable a name denotes, or an error naming the unknown variable.
    pub fn try_from(value: &str) -> (r: Result<BuildVariable, UnknownVariable>)
        ensures
            value@ == "INSTALLPATH"@ <==> r is Ok,
            r matches Err(e) ==> e.name@ == value@,
    {
        if str_eq(value, "INSTALLPATH") {
            Ok(BuildVariable::InstallPath)
        } else {
            Err(UnknownVariable { name: owned(value) })
        }
    }
}

/// A `$NAME` reference to a variable that toolchain payloads do not support.
#[derive(Debug)]
pub struct UnknownVariable {
    pub name: String,
}

impl UnknownVariable {
    /// The error's message.
    pub fn to_string(&self) -> (r: String)
        ensures
            r@ == "unknown build variable $"@ + self.name@,
    {
        concat2("unknown build variable $", self.name.as_str())
    }
}

/// One file of a toolchain's payload.
#[derive(Debug)]
pub struct PayloadFile {
    pub source: String,
    pub destination: String,
    pub executable: bool,
}

impl Clone for PayloadFile {
    fn clone(&self) -> (r: Self)
        ensures
            r.source@ == self.source@,
            r.destination@ == self.destination@,
            r.executable == self.executable,
    {
        PayloadFile { source: self.source.clone(), destination: self.destination.clone(), executable: self.executable }
    }
}

impl PayloadFile {
    /// A payload file installed as an executable.
    pub fn executable(source: String, destination: String) -> (r: Self)
        ensures
            r.source == source,
            r.destination == destination,
            r.executable,
    {
        PayloadFile { source, destination, executable: true }
    }

    /// A payload file installed as plain data.
    pub fn data(source: String, destination: String) -> (r: Self)
        ensures
            r.source == source,
            r.destination == destination,
            !r.executable,
    {
        PayloadFile { source, destination, executable: false }
    }
}

pub open spec fn file_view(f: PayloadFile) -> (Seq<char>, Seq<char>, bool) {
    (f.source@, f.destination@, f.executable)
}

pub open spec fn files_view(s: Seq<PayloadFile>) -> Seq<(Seq<char>, Seq<char>, bool)> {
    s.map_values(|f: PayloadFile| file_view(f))
}

/// The executable payload files of the binaries on a toolchain, in order.
pub open spec fn toolchain_binary_files(target: Seq<char>, names: Seq<String>, install: Option<Seq<char>>, bin_dir: Seq<char>) -> Seq<(Seq<char>, Seq<char>, bool)> {
    names.map_values(|b: String| (
        "target/"@ + target + "/release/"@ + binary_file_name_spec(target, b@),
        resolve_spec(install, join_spec(bin_dir, binary_file_name_spec(target, b@))),
        true,
    ))
}

fn binary_file_name(rust_target: &str, binary_name: &str) -> (r: String)
    ensures
        r@ == binary_file_name_spec(rust_target@, binary_name@),
{
    if has_substring(rust_target, "windows") {
        concat2(binary_name, ".exe")
    } else {
        owned(binary_name)
    }
}

fn join_payload_path(parent: &str, child: &str) -> (r: String)
    ensures
        r@ == join_spec(parent@, child@),
{
    crate::services::payload_file::join_payload_path(parent, child)
}

/// Places `destination` under `install_path` unless it already starts with it.
pub fn resolve_destination(install_path: Option<&str>, destination: &str) -> (r: String)
    ensures
        r@ == resolve_spec(opt_str_view(install_path), destination@),
{
    crate::services::payload_file::resolve_destination(install_path, destination)
}

/// The names referenced as `$NAME` in `value`, in the order they occur.
pub fn variables_from_value(value: &str) -> (r: Vec<String>)
    ensures
        strings_view(r@) == variables_spec(value@),
{
    crate::services::build_variable::variables_from_value(value)
}

impl ToolchainManifest {
    /// The payload of a toolchain: each binary as an executable at
    /// `target/<triple>/release/`, placed in `bin_dir` below the install
    /// path, then the extra files.
    pub fn new(
        rust_target: &str,
        binary_names: &[String],
        install_path: Option<&str>,
        bin_dir: &str,
        extra_files: &[PayloadFile],
    ) -> (r: Self)
        ensures
            r.toolchain@ == rust_target@,
            files_view(r.files@) == toolchain_binary_files(rust_target@, binary_names@, opt_str_view(install_path), bin_dir@)
                + files_view(extra_files@),
    {
        let ghost bins = toolchain_binary_files(rust_target@, binary_names@, opt_str_view(install_path), bin_dir@);
        let mut files: Vec<PayloadFile> = Vec::new();
        let mut i: usize = 0;
        while i < binary_names.len()
            invariant
                i <= binary_names@.len(),
                bins == toolchain_binary_files(rust_target@, binary_names@, opt_str_view(install_path), bin_dir@),
                files_view(files@) == bins.take(i as int),
            decreases binary_names@.len() - i,
        {
            let name = binary_file_name(rust_target, binary_names[i].as_str());
            let mut source = concat3("target/", rust_target, "/release/");
            push_str(&mut source, name.as_str());
            let joined = join_payload_path(bin_dir, name.as_str());
            let destination = resolve_destination(install_path, joined.as_str());
            let ghost before = files@;
            files.push(PayloadFile::executable(source, destination));
            proof {
                assert(files_view(files@) =~= files_view(before).push(bins[i as int]));
                assert(bins.take(i + 1) =~= bins.take(i as int).push(bins[i as int]));
            }
            i = i + 1;
        }
        assert(bins.take(i as int) == bins);
        let mut k: usize = 0;
        while k < extra_files.len()
            invariant
                k <= extra_files@.len(),
                files_view(files@) == bins + files_view(extra_files@.take(k as int)),
            decreases extra_files@.len() - k,
        {
            let ghost before = files@;
            files.push(extra_files[k].clone());
            proof {
                assert(files_view(files@) =~= files_view(before).push(file_view(extra_files@[k as int])));
                assert(files_view(extra_files@.take(k + 1)) =~= files_view(extra_files@.take(k as int)).push(file_view(extra_files@[k as int])));
            }
            k = k + 1;
        }
        assert(extra_files@.take(k as int) == extra_files@);
        ToolchainManifest { toolchain: owned(rust_target), files }
    }
}

/// The names referenced by the sources and destinations of `files`, file by
/// file, the source's before the destination's.
pub open spec fn toolchain_file_names(files: Seq<PayloadFile>) -> Seq<Seq<char>>
    decreases files.len(),
{
    if files.len() == 0 {
        Seq::empty()
    } else {
        toolchain_file_names(files.drop_last()) + variables_spec(files.last().source@) + variables_spec(files.last().destination@)
    }
}

/// The first name that is not `INSTALLPATH`, if any.
pub open spec fn first_unknown(names: Seq<Seq<char>>) -> Option<Seq<char>>
    decreases names.len(),
{
    if names.len() == 0 {
        None
    } else if names[0] != "INSTALLPATH"@ {
        Some(names[0])
    } else {
        first_unknown(names.drop_first())
    }
}

/// The variables referenced by `files`, sorted and without duplicates, or
/// an error for the first unknown name.
pub fn variables_from_files(files: &[PayloadFile]) -> (r: Result<Vec<BuildVariable>, UnknownVariable>)
    ensures
        match first_unknown(toolchain_file_names(files@)) {
            Some(n) => r matches Err(e) && e.name@ == n,
            None => r matches Ok(v) && v@ == if toolchain_file_names(files@).len() > 0 {
                seq![BuildVariable::InstallPath]
            } else {
                Seq::<BuildVariable>::empty()
            },
        },
{
    let mut names: Vec<String> = Vec::new();
    let mut i: usize = 0;
    while i < files.len()
        invariant
            i <= files@.len(),
            strings_view(names@) == toolchain_file_names(files@.take(i as int)),
        decreases files@.len() - i,
    {
        let mut a = variables_from_value(files[i].source.as_str());
        let mut b = variables_from_value(files[i].destination.as_str());
        let ghost (n0, a0, b0) = (names@, a@, b@);
        names.append(&mut a);
        names.append(&mut b);
        assert(strings_view(names@) =~= strings_view(n0) + strings_view(a0) + strings_view(b0));
        assert(files@.take(i + 1).drop_last() == files@.take(i as int));
        i = i + 1;
    }
    assert(files@.take(i as int) == files@);
    let ghost all = strings_view(names@);
    let mut j: usize = 0;
    assert(all.skip(0) == all);
    while j < names.len()
        invariant
            all == strings_view(names@),
            all == toolchain_file_names(files@),
            j <= names@.len(),
            first_unknown(all) == first_unknown(all.skip(j as int)),
        decreases names@.len() - j,
    {
        assert(all.skip(j as int)[0] == names@[j as int]@);
        assert(all.skip(j as int).drop_first() == all.skip(j + 1));
        match BuildVariable::try_from(names[j].as_str()) {
            Err(e) => {
                return Err(e);
            },
            Ok(_) => {},
        }
        j = j + 1;
    }
    assert(all.skip(j as int).len() == 0);
    if names.len() > 0 {
        let v = vec![BuildVariable::InstallPath];
        assert(v@ =~= seq![BuildVariable::InstallPath]);
        Ok(v)
    } else {
        let v: Vec<BuildVariable> = Vec::new();
        assert(v@ =~= Seq::<BuildVariable>::empty());
        Ok(v)
    }
}

} // verus!
