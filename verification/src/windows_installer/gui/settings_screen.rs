//! The settings screen: where to install and what to do besides.
use vstd::prelude::*;

use crate::path_model::{lemma_file_name_join, lemma_file_name_of_empty, lemma_parent_of_join, lemma_trim_file_name,
    lemma_trim_whole, normal_component, normalize, normalize_spec, parent, parent_spec};
use crate::text::{file_name, file_name_spec, owned, path_join, path_join_spec, split_seq, str_eq};
use crate::windows_installer::config::{install_app_name_spec, publisher_name_spec, requires_variable,
    InstallerConfig, PayloadEntry};

verus! {

/// The choices of the settings screen.
#[derive(Debug)]
pub struct Settings {
    pub install_path: String,
    pub install_path_modifiable: bool,
    pub add_to_path: bool,
    pub has_associated_files: bool,
    pub remove_associated_files: bool,
    pub accepted_eulas: Vec<bool>,
}

/// The application name used without a configuration.
pub const DEV_APP_NAME: &'static str = "windows-installer";

/// Whether a path's last component is `segment`.
pub open spec fn path_ends_with_spec(path: Seq<char>, segment: Seq<char>) -> bool {
    file_name_spec(path) == Some(segment)
}

/// Whether a path ends in the publisher's folder and then the application's.
pub open spec fn has_install_suffix_spec(path: Seq<char>, app: Seq<char>, publisher: Option<Seq<char>>) -> bool {
    path_ends_with_spec(path, app) && match publisher {
        Some(p) => match parent_spec(path) {
            Some(q) => path_ends_with_spec(q, p),
            None => false,
        },
        None => false,
    }
}

pub open spec fn app_name_of(config: Option<InstallerConfig>) -> Seq<char> {
    match config {
        Some(c) => install_app_name_spec(c.app_name@),
        None => "windows-installer"@,
    }
}

pub open spec fn publisher_of(config: Option<InstallerConfig>) -> Option<Seq<char>> {
    match config {
        Some(c) => publisher_name_spec(c.publisher),
        None => None,
    }
}

/// The install path for a chosen folder: the folder itself when it already
/// ends in the publisher's and application's folders (or the application's
/// without a publisher); the application's folder below it when it ends in
/// the publisher's; else the publisher's and application's folders below it.
pub open spec fn selected_install_path_spec(selected: Seq<char>, app: Seq<char>, publisher: Option<Seq<char>>) -> Seq<char> {
    if has_install_suffix_spec(selected, app, publisher) || (publisher is None && path_ends_with_spec(selected, app)) {
        selected
    } else if publisher matches Some(p) && path_ends_with_spec(selected, p) {
        path_join_spec(selected, app)
    } else {
        match publisher {
            Some(p) => path_join_spec(path_join_spec(selected, p), app),
            None => path_join_spec(selected, app),
        }
    }
}

/// The folder a folder dialog opens in: above the publisher's and
/// application's folders, above the application's, or the path itself.
pub open spec fn browse_directory_spec(install_path: Seq<char>, app: Seq<char>, publisher: Option<Seq<char>>) -> Option<Seq<char>> {
    if install_path.len() == 0 {
        None
    } else if has_install_suffix_spec(install_path, app, publisher) {
        match parent_spec(install_path) {
            Some(q) => parent_spec(q),
            None => None,
        }
    } else if path_ends_with_spec(install_path, app) {
        parent_spec(install_path)
    } else {
        Some(install_path)
    }
}

/// The install path below a base folder: the publisher's folder, when there
/// is a publisher, then the application's.
pub open spec fn install_path_below(base: Seq<char>, app: Seq<char>, publisher: Option<Seq<char>>) -> Seq<char> {
    match publisher {
        Some(p) => base + "/"@ + p + "/"@ + app,
        None => base + "/"@ + app,
    }
}

/// The install path chosen for any folder ends in the publisher's folder and
/// then the application's (the application's alone without a publisher); it
/// is the folder itself when that already ends so; and choosing it again
/// changes nothing.
pub proof fn lemma_selected_install_path(sel: Seq<char>, app: Seq<char>, publisher: Option<Seq<char>>)
    requires
        normal_component(app),
        publisher matches Some(p) ==> normal_component(p),
    ensures
        match publisher {
            Some(_) => has_install_suffix_spec(selected_install_path_spec(sel, app, publisher), app, publisher),
            None => path_ends_with_spec(selected_install_path_spec(sel, app, publisher), app),
        },
        has_install_suffix_spec(sel, app, publisher) || (publisher is None && path_ends_with_spec(sel, app))
            ==> selected_install_path_spec(sel, app, publisher) == sel,
        selected_install_path_spec(selected_install_path_spec(sel, app, publisher), app, publisher)
            == selected_install_path_spec(sel, app, publisher),
{
    lemma_file_name_of_empty();
    if has_install_suffix_spec(sel, app, publisher) || (publisher is None && path_ends_with_spec(sel, app)) {
    } else if publisher matches Some(p) && path_ends_with_spec(sel, p) {
        lemma_file_name_join(sel, app);
        lemma_parent_of_join(sel, app);
        lemma_trim_file_name(sel);
    } else {
        match publisher {
            Some(p) => {
                let x = path_join_spec(sel, p);
                lemma_file_name_join(sel, p);
                lemma_file_name_join(x, app);
                lemma_parent_of_join(x, app);
                lemma_trim_file_name(x);
            },
            None => {
                lemma_file_name_join(sel, app);
            },
        }
    }
}

/// Browsing from an install path made of a base folder, the publisher's
/// folder and the application's offers the base folder, and choosing that
/// folder gives the install path back.
pub proof fn lemma_browse_then_select(base: Seq<char>, app: Seq<char>, publisher: Option<Seq<char>>)
    requires
        normal_component(app),
        publisher matches Some(p) ==> normal_component(p),
        base.len() > 0,
        base.last() != '/',
        base == "."@ || split_seq(base, '/').last() != "."@,
        file_name_spec(base) != Some(app),
        publisher matches Some(p) ==> file_name_spec(base) != Some(p),
    ensures
        browse_directory_spec(install_path_below(base, app, publisher), app, publisher) == Some(base),
        selected_install_path_spec(base, app, publisher) == install_path_below(base, app, publisher),
{
    reveal_strlit("/");
    assert("/"@ =~= seq!['/']);
    lemma_trim_whole(base);
    assert(app[0] != '/');
    match publisher {
        Some(p) => {
            assert(p[0] != '/');
            let x1 = path_join_spec(base, p);
            assert(x1 == base + seq!['/'] + p);
            let install = path_join_spec(x1, app);
            assert(x1.last() == p.last());
            assert(install =~= install_path_below(base, app, publisher));
            lemma_file_name_join(base, p);
            lemma_file_name_join(x1, app);
            lemma_parent_of_join(x1, app);
            lemma_parent_of_join(base, p);
            lemma_trim_whole(x1);
        },
        None => {
            let install = path_join_spec(base, app);
            assert(install =~= install_path_below(base, app, publisher));
            lemma_file_name_join(base, app);
            lemma_parent_of_join(base, app);
        },
    }
}


fn path_ends_with(path: &str, segment: &str) -> (r: bool)
    ensures
        r == path_ends_with_spec(path@, segment@),
{
    match file_name(path) {
        Some(n) => str_eq(n.as_str(), segment),
        None => false,
    }
}

fn path_has_install_suffix(path: &str, app: &str, publisher: Option<&str>) -> (r: bool)
    ensures
        r == has_install_suffix_spec(path@, app@, match publisher {
            Some(p) => Some(p@),
            None => None,
        }),
{
    if !path_ends_with(path, app) {
        return false;
    }
    match publisher {
        Some(p) => match parent(path) {
            Some(q) => path_ends_with(q.as_str(), p),
            None => false,
        },
        None => false,
    }
}

fn install_app_name(config: Option<&InstallerConfig>) -> (r: &str)
    ensures
        r@ == app_name_of(match config {
            Some(c) => Some(*c),
            None => None,
        }),
{
    match config {
        Some(c) => c.install_app_name(),
        None => DEV_APP_NAME,
    }
}

fn publisher(config: Option<&InstallerConfig>) -> (r: Option<&str>)
    ensures
        match r {
            Some(p) => publisher_of(match config {
                Some(c) => Some(*c),
                None => None,
            }) == Some(p@),
            None => publisher_of(match config {
                Some(c) => Some(*c),
                None => None,
            }) is None,
        },
{
    match config {
        Some(c) => c.publisher_name(),
        None => None,
    }
}

/// The first executable payload entry, else the first entry.
pub open spec fn launch_entry(payload: Seq<PayloadEntry>) -> Option<PayloadEntry> {
    if exists|i: int| 0 <= i < payload.len() && (#[trigger] payload[i]).executable {
        Some(payload[choose|i: int| 0 <= i < payload.len() && payload[i].executable && forall|k: int| 0 <= k < i ==> !(#[trigger] payload[k]).executable])
    } else if payload.len() > 0 {
        Some(payload[0])
    } else {
        None
    }
}

/// The initial settings: below the home folder (`home`, else `C:/Users` on
/// Windows and `/Users` elsewhere), the publisher's and application's
/// folders when the path may be chosen, else the folder of the payload's
/// launch entry.
pub open spec fn from_config_spec(config: Option<InstallerConfig>, home: Seq<char>, s: Settings) -> bool {
    match config {
        None => {
            &&& s.install_path@ == path_join_spec(home, "windows-installer"@)
            &&& s.install_path_modifiable
            &&& s.add_to_path
            &&& !s.has_associated_files
            &&& !s.remove_associated_files
            &&& s.accepted_eulas@.len() == 0
        },
        Some(c) => {
            let app = install_app_name_spec(c.app_name@);
            let default = match publisher_name_spec(c.publisher) {
                Some(p) => path_join_spec(path_join_spec(home, p), app),
                None => path_join_spec(home, app),
            };
            let modifiable = requires_variable(c.required_variables@, "INSTALLPATH"@);
            let launched = match launch_entry(c.payload@) {
                Some(e) => match parent_spec(normalize_spec(e.destination@)) {
                    Some(p) => if p.len() > 0 { Some(p) } else { None },
                    None => None,
                },
                None => None,
            };
            &&& s.install_path@ == if modifiable { default } else {
                match launched {
                    Some(p) => p,
                    None => default,
                }
            }
            &&& s.install_path_modifiable == modifiable
            &&& s.add_to_path == (requires_variable(c.required_variables@, "ADD_TO_PATH"@) || exists|i: int| 0 <= i < c.payload@.len() && (#[trigger] c.payload@[i]).executable)
            &&& s.has_associated_files == (c.associated_files@.len() > 0)
            &&& !s.remove_associated_files
            &&& s.accepted_eulas@ == Seq::new(c.eulas@.len(), |i: int| false)
        },
    }
}

fn launch_entry_index(payload: &Vec<PayloadEntry>) -> (r: Option<usize>)
    ensures
        match launch_entry(payload@) {
            Some(e) => r matches Some(i) && i < payload@.len() && payload@[i as int] == e,
            None => r is None,
        },
{
    let mut i: usize = 0;
    while i < payload.len()
        invariant
            i <= payload@.len(),
            forall|k: int| 0 <= k < i ==> !(#[trigger] payload@[k]).executable,
        decreases payload@.len() - i,
    {
        if payload[i].executable {
            proof {
                let j = choose|j: int| 0 <= j < payload@.len() && payload@[j].executable && forall|k: int| 0 <= k < j ==> !(#[trigger] payload@[k]).executable;
                if j < i {
                    assert(!payload@[j].executable);
                }
                if j > i {
                    assert(!payload@[i as int].executable);
                }
            }
            return Some(i);
        }
        i = i + 1;
    }
    if payload.len() > 0 {
        Some(0)
    } else {
        None
    }
}

impl Settings {
    /// Records whether license `index` is accepted; an index past the
    /// licenses changes nothing.
    pub fn set_eula_accepted(&mut self, index: usize, accepted: bool)
        ensures
            final(self).accepted_eulas@ == if index < old(self).accepted_eulas@.len() {
                old(self).accepted_eulas@.update(index as int, accepted)
            } else {
                old(self).accepted_eulas@
            },
            final(self).install_path == old(self).install_path,
            final(self).install_path_modifiable == old(self).install_path_modifiable,
            final(self).add_to_path == old(self).add_to_path,
            final(self).has_associated_files == old(self).has_associated_files,
            final(self).remove_associated_files == old(self).remove_associated_files,
    {
        if index < self.accepted_eulas.len() {
            self.accepted_eulas.set(index, accepted);
        }
    }

    /// The initial settings for a configuration; `home` is the user's home
    /// folder when known, `windows` whether this runs on Windows.
    pub fn from_config(config: Option<&InstallerConfig>, home: Option<&str>, windows: bool) -> (r: Self)
        ensures
            from_config_spec(match config {
                Some(c) => Some(*c),
                None => None,
            }, match home {
                Some(h) => h@,
                None => if windows { "C:/Users"@ } else { "/Users"@ },
            }, r),
    {
        let base = match home {
            Some(h) => h,
            None => if windows { "C:/Users" } else { "/Users" },
        };
        match config {
            None => Settings {
                install_path: path_join(base, DEV_APP_NAME),
                install_path_modifiable: true,
                add_to_path: true,
                has_associated_files: false,
                remove_associated_files: false,
                accepted_eulas: Vec::new(),
            },
            Some(c) => {
                let app = c.install_app_name();
                let default = match c.publisher_name() {
                    Some(p) => {
                        let with_publisher = path_join(base, p);
                        path_join(with_publisher.as_str(), app)
                    },
                    None => path_join(base, app),
                };
                let modifiable = c.allows_install_path_selection();
                let install_path = if modifiable {
                    default
                } else {
                    match launch_entry_index(&c.payload) {
                        Some(i) => {
                            let normalized = normalize(c.payload[i].destination.as_str());
                            match parent(normalized.as_str()) {
                                Some(p) => if p.unicode_len() > 0 { p } else { default },
                                None => default,
                            }
                        },
                        None => default,
                    }
                };
                let mut add_to_path = crate::windows_installer::config::contains_name(&c.required_variables, "ADD_TO_PATH");
                let mut i: usize = 0;
                while i < c.payload.len()
                    invariant
                        i <= c.payload@.len(),
                        add_to_path == (requires_variable(c.required_variables@, "ADD_TO_PATH"@) || exists|k: int| 0 <= k < i && (#[trigger] c.payload@[k]).executable),
                    decreases c.payload@.len() - i,
                {
                    if c.payload[i].executable {
                        add_to_path = true;
                    }
                    i = i + 1;
                }
                let mut accepted: Vec<bool> = Vec::new();
                let mut j: usize = 0;
                while j < c.eulas.len()
                    invariant
                        j <= c.eulas@.len(),
                        accepted@ == Seq::new(j as nat, |i: int| false),
                    decreases c.eulas@.len() - j,
                {
                    accepted.push(false);
                    assert(accepted@ =~= Seq::new((j + 1) as nat, |i: int| false));
                    j = j + 1;
                }
                Settings {
                    install_path,
                    install_path_modifiable: modifiable,
                    add_to_path,
                    has_associated_files: c.associated_files.len() > 0,
                    remove_associated_files: false,
                    accepted_eulas: accepted,
                }
            },
        }
    }

    /// The install path for a folder chosen in the folder dialog.
    pub fn selected_install_path(&self, selected_path: &str, config: Option<&InstallerConfig>) -> (r: String)
        ensures
            r@ == selected_install_path_spec(selected_path@, app_name_of(match config {
                Some(c) => Some(*c),
                None => None,
            }), publisher_of(match config {
                Some(c) => Some(*c),
                None => None,
            })),
    {
        let app = install_app_name(config);
        let publisher = publisher(config);
        if path_has_install_suffix(selected_path, app, publisher) || (publisher.is_none() && path_ends_with(selected_path, app)) {
            owned(selected_path)
        } else if publisher.is_some() && path_ends_with(selected_path, publisher.unwrap()) {
            path_join(selected_path, app)
        } else {
            match publisher {
                Some(p) => {
                    let with_publisher = path_join(selected_path, p);
                    path_join(with_publisher.as_str(), app)
                },
                None => path_join(selected_path, app),
            }
        }
    }

    /// The folder the folder dialog opens in, if any.
    pub fn browse_directory(&self, config: Option<&InstallerConfig>) -> (r: Option<String>)
        ensures
            match browse_directory_spec(self.install_path@, app_name_of(match config {
                Some(c) => Some(*c),
                None => None,
            }), publisher_of(match config {
                Some(c) => Some(*c),
                None => None,
            })) {
                Some(p) => r matches Some(v) && v@ == p,
                None => r is None,
            },
    {
        if self.install_path.unicode_len() == 0 {
            return None;
        }
        let path = self.install_path.as_str();
        let app = install_app_name(config);
        let publisher = publisher(config);
        if path_has_install_suffix(path, app, publisher) {
            match parent(path) {
                Some(q) => parent(q.as_str()),
                None => None,
            }
        } else if path_ends_with(path, app) {
            parent(path)
        } else {
            Some(owned(path))
        }
    }
}

} // verus!
