//! The uninstall registration of an installed application.
use vstd::prelude::*;

use crate::path_model::{components, components_spec};
use crate::text::{concat3, ends_with, is_ascii_alnum, is_ascii_alnum_char, lower_char, push_char, push_str, starts_with, string_views,
    to_lower, trim_both, trim_char};
use crate::windows_installer::config::InstallerConfig;

verus! {

/// A value written below the user's registry hive.
#[derive(Debug)]
pub struct RegistryEntry {
    pub key: String,
    pub name: &'static str,
    pub value: RegistryValue,
}

/// A registry value: a string or a 32-bit number.
#[derive(Debug)]
pub enum RegistryValue {
    String(String),
    U32(u32),
}

/// The characters of a list of components, one after another.
pub open spec fn flat_chars(cs: Seq<Seq<char>>) -> Seq<char>
    decreases cs.len(),
{
    if cs.len() == 0 {
        Seq::empty()
    } else {
        flat_chars(cs.drop_last()) + cs.last()
    }
}

/// One character of an install identity: ASCII letters and digits in
/// lower case, anything else a dash.
pub open spec fn identity_char(c: char) -> char {
    if is_ascii_alnum_char(c) { lower_char(c) } else { '-' }
}

/// The identity of an installation folder: the characters of its
/// components run together, each made an identity character, without
/// leading or trailing dashes.
pub open spec fn install_identity_spec(install_root: Seq<char>) -> Seq<char> {
    trim_char(flat_chars(components_spec(install_root)).map_values(|c: char| identity_char(c)), '-')
}

/// The identity of an installation folder.
pub fn install_identity(install_root: &str) -> (r: String)
    ensures
        r@ == install_identity_spec(install_root@),
{
    let cs = components(install_root);
    let ghost cv = string_views(cs@);
    let mut mapped = String::new();
    let mut i: usize = 0;
    while i < cs.len()
        invariant
            cv == string_views(cs@),
            i <= cs@.len(),
            mapped@ == flat_chars(cv.take(i as int)).map_values(|c: char| identity_char(c)),
        decreases cs@.len() - i,
    {
        let part = &cs[i];
        let n = part.unicode_len();
        let mut j: usize = 0;
        let ghost start = mapped@;
        while j < n
            invariant
                n == part@.len(),
                j <= n,
                mapped@ == start + part@.take(j as int).map_values(|c: char| identity_char(c)),
            decreases n - j,
        {
            let c = part.get_char(j);
            let m = if is_ascii_alnum(c) { to_lower(c) } else { '-' };
            push_char(&mut mapped, m);
            assert(part@.take(j + 1).map_values(|c: char| identity_char(c)) =~= part@.take(j as int).map_values(|c: char| identity_char(c)).push(identity_char(c)));
            j = j + 1;
        }
        assert(part@.take(n as int) == part@);
        assert(cv.take(i + 1).drop_last() == cv.take(i as int));
        assert(flat_chars(cv.take(i + 1)) == flat_chars(cv.take(i as int)) + part@);
        assert(mapped@ =~= flat_chars(cv.take(i + 1)).map_values(|c: char| identity_char(c)));
        i = i + 1;
    }
    assert(cv.take(i as int) == cv);
    trim_both(mapped.as_str(), '-')
}

/// The uninstall key of an installation: the application name and the
/// identity of its folder.
pub open spec fn uninstall_key_spec(app_name: Seq<char>, install_root: Seq<char>) -> Seq<char> {
    "Software\\Microsoft\\Windows\\CurrentVersion\\Uninstall\\"@ + app_name + "-"@ + install_identity_spec(install_root)
}

/// The uninstall key names both the application and the folder it is
/// installed in: it is the fixed uninstall path, the application name, `-`
/// and then the folder's identity; the same application installed in two
/// folders gets the same key exactly when the folders' identities agree.
pub proof fn lemma_uninstall_key_names_folder(app_name: Seq<char>, root: Seq<char>, other_root: Seq<char>)
    ensures
        starts_with(
            uninstall_key_spec(app_name, root),
            "Software\\Microsoft\\Windows\\CurrentVersion\\Uninstall\\"@ + app_name + "-"@,
        ),
        ends_with(uninstall_key_spec(app_name, root), install_identity_spec(root)),
        uninstall_key_spec(app_name, root).len() == "Software\\Microsoft\\Windows\\CurrentVersion\\Uninstall\\"@.len()
            + app_name.len() + 1 + install_identity_spec(root).len(),
        uninstall_key_spec(app_name, root) == uninstall_key_spec(app_name, other_root) <==> install_identity_spec(root)
            == install_identity_spec(other_root),
{
    reveal_strlit("-");
    let head = "Software\\Microsoft\\Windows\\CurrentVersion\\Uninstall\\"@ + app_name + "-"@;
    let k1 = uninstall_key_spec(app_name, root);
    let k2 = uninstall_key_spec(app_name, other_root);
    let i1 = install_identity_spec(root);
    let i2 = install_identity_spec(other_root);
    assert(k1 == head + i1);
    assert(k2 == head + i2);
    assert(k1.take(head.len() as int) =~= head);
    assert(k1.skip(k1.len() - i1.len()) =~= i1);
    if k1 == k2 {
        assert(i1 =~= k1.skip(head.len() as int));
        assert(i2 =~= k2.skip(head.len() as int));
    }
}

/// The uninstall key of an installation.
pub fn uninstall_registry_key(config: &InstallerConfig, install_root: &str) -> (r: String)
    ensures
        r@ == uninstall_key_spec(config.app_name@, install_root@),
{
    let identity = install_identity(install_root);
    let mut key = concat3("Software\\Microsoft\\Windows\\CurrentVersion\\Uninstall\\", config.app_name.as_str(), "-");
    push_str(&mut key, identity.as_str());
    key
}

} // verus!
