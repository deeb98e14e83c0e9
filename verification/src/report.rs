//! The text report of built platforms, as `inspect` prints it.
use vstd::prelude::*;

use crate::manifest_file::{eula_path_spec, eula_required_spec, AssociatedFile, AssociatedFileKind, EulaFile};
use crate::services::payload_file::PayloadFile;
use crate::text::{join_seq, join_strings, push_str, string_views};

verus! {

/// The lines of payload files: `[x]` for executables, `[-]` for data, then
/// source and destination.
pub open spec fn files_text(files: Seq<PayloadFile>) -> Seq<char>
    decreases files.len(),
{
    if files.len() == 0 {
        Seq::empty()
    } else {
        let f = files.last();
        files_text(files.drop_last()) + "      ["@ + (if f.executable { "x"@ } else { "-"@ }) + "] "@ + f.source@ + " -> "@
            + f.destination@ + "\n"@
    }
}

/// Appends the lines of payload files.
pub fn push_files(out: &mut String, files: &Vec<PayloadFile>)
    ensures
        final(out)@ == old(out)@ + files_text(files@),
{
    let ghost start = out@;
    let mut i: usize = 0;
    while i < files.len()
        invariant
            i <= files@.len(),
            out@ == start + files_text(files@.take(i as int)),
        decreases files@.len() - i,
    {
        let f = &files[i];
        push_str(out, "      [");
        push_str(out, if f.executable { "x" } else { "-" });
        push_str(out, "] ");
        push_str(out, f.source.as_str());
        push_str(out, " -> ");
        push_str(out, f.destination.as_str());
        push_str(out, "\n");
        assert(files@.take(i + 1).drop_last() == files@.take(i as int));
        assert(out@ =~= start + files_text(files@.take(i + 1)));
        i = i + 1;
    }
    assert(files@.take(i as int) == files@);
}

pub open spec fn kind_name(k: AssociatedFileKind) -> Seq<char> {
    match k {
        AssociatedFileKind::File => "File"@,
        AssociatedFileKind::Directory => "Directory"@,
    }
}

/// The lines of associated files: kind, path, and whether they are part
/// of the EULA report.
pub open spec fn associated_text(files: Seq<AssociatedFile>, with_report: bool) -> Seq<char>
    decreases files.len(),
{
    if files.len() == 0 {
        Seq::empty()
    } else {
        let f = files.last();
        associated_text(files.drop_last(), with_report) + "      "@ + kind_name(f.kind) + ": "@ + f.path@
            + (if with_report && f.eula_report { " (EULA report)"@ } else { Seq::empty() }) + "\n"@
    }
}

/// The associated files section, when there are associated files.
pub open spec fn associated_section(files: Seq<AssociatedFile>, with_report: bool) -> Seq<char> {
    if files.len() == 0 { Seq::empty() } else { "    associated files:\n"@ + associated_text(files, with_report) }
}

/// Appends the associated files section.
pub fn push_associated(out: &mut String, files: &Vec<AssociatedFile>, with_report: bool)
    ensures
        final(out)@ == old(out)@ + associated_section(files@, with_report),
{
    if files.len() == 0 {
        assert(out@ + Seq::<char>::empty() == out@);
        return;
    }
    let ghost start = out@;
    push_str(out, "    associated files:\n");
    let ghost head = out@;
    let mut i: usize = 0;
    while i < files.len()
        invariant
            i <= files@.len(),
            head == start + "    associated files:\n"@,
            out@ == head + associated_text(files@.take(i as int), with_report),
        decreases files@.len() - i,
    {
        let f = &files[i];
        push_str(out, "      ");
        push_str(out, match f.kind {
            AssociatedFileKind::File => "File",
            AssociatedFileKind::Directory => "Directory",
        });
        push_str(out, ": ");
        push_str(out, f.path.as_str());
        if with_report && f.eula_report {
            push_str(out, " (EULA report)");
        }
        push_str(out, "\n");
        assert(files@.take(i + 1).drop_last() == files@.take(i as int));
        assert(out@ =~= head + associated_text(files@.take(i + 1), with_report));
        i = i + 1;
    }
    assert(files@.take(i as int) == files@);
    assert(out@ =~= start + associated_section(files@, with_report));
}

/// The lines of licenses: path and whether it is required.
pub open spec fn eulas_text(eulas: Seq<EulaFile>) -> Seq<char>
    decreases eulas.len(),
{
    if eulas.len() == 0 {
        Seq::empty()
    } else {
        let e = eulas.last();
        eulas_text(eulas.drop_last()) + "      "@ + eula_path_spec(e) + " ("@ + (if eula_required_spec(e) {
            "required"@
        } else {
            "optional"@
        }) + ")\n"@
    }
}

/// The license section, when there are licenses.
pub open spec fn eulas_section(eulas: Seq<EulaFile>) -> Seq<char> {
    if eulas.len() == 0 { Seq::empty() } else { "    eulas:\n"@ + eulas_text(eulas) }
}

/// Appends the license section.
pub fn push_eulas(out: &mut String, eulas: &Vec<EulaFile>)
    ensures
        final(out)@ == old(out)@ + eulas_section(eulas@),
{
    if eulas.len() == 0 {
        assert(out@ + Seq::<char>::empty() == out@);
        return;
    }
    let ghost start = out@;
    push_str(out, "    eulas:\n");
    let ghost head = out@;
    let mut i: usize = 0;
    while i < eulas.len()
        invariant
            i <= eulas@.len(),
            head == start + "    eulas:\n"@,
            out@ == head + eulas_text(eulas@.take(i as int)),
        decreases eulas@.len() - i,
    {
        let e = &eulas[i];
        push_str(out, "      ");
        push_str(out, e.path());
        push_str(out, " (");
        push_str(out, if e.required() { "required" } else { "optional" });
        push_str(out, ")\n");
        assert(eulas@.take(i + 1).drop_last() == eulas@.take(i as int));
        assert(out@ =~= head + eulas_text(eulas@.take(i + 1)));
        i = i + 1;
    }
    assert(eulas@.take(i as int) == eulas@);
    assert(out@ =~= start + eulas_section(eulas@));
}

/// A labelled line listing names, when there are names.
pub open spec fn list_line(label: Seq<char>, names: Seq<Seq<char>>) -> Seq<char> {
    if names.len() == 0 { Seq::empty() } else { "    "@ + label + ": "@ + join_seq(names, ", "@) + "\n"@ }
}

/// Appends a labelled line listing names, when there are names.
pub fn push_list_line(out: &mut String, label: &str, names: &Vec<String>)
    ensures
        final(out)@ == old(out)@ + list_line(label@, string_views(names@)),
{
    if names.len() == 0 {
        assert(out@ + Seq::<char>::empty() == out@);
        return;
    }
    let ghost start = out@;
    push_str(out, "    ");
    push_str(out, label);
    push_str(out, ": ");
    let joined = join_strings(names.as_slice(), ", ");
    push_str(out, joined.as_str());
    push_str(out, "\n");
    assert(out@ =~= start + list_line(label@, string_views(names@)));
}

/// A labelled line with one value, when there is one.
pub open spec fn value_line(label: Seq<char>, value: Option<Seq<char>>) -> Seq<char> {
    match value {
        Some(v) => "    "@ + label + ": "@ + v + "\n"@,
        None => Seq::empty(),
    }
}

/// Appends a labelled line with one value, when there is one.
pub fn push_value_line(out: &mut String, label: &str, value: &Option<String>)
    ensures
        final(out)@ == old(out)@ + value_line(label@, match value {
            Some(v) => Some(v@),
            None => None,
        }),
{
    match value {
        Some(v) => {
            let ghost start = out@;
            push_str(out, "    ");
            push_str(out, label);
            push_str(out, ": ");
            push_str(out, v.as_str());
            push_str(out, "\n");
            assert(out@ =~= start + value_line(label@, Some(v@)));
        },
        None => {
            assert(out@ + Seq::<char>::empty() == out@);
        },
    }
}

} // verus!
