//! The installer configuration that a Windows package is authored from.
use vstd::prelude::*;

use crate::text::{concat2, owned, str_eq, trim, trim_ws};

verus! {

pub const UNINSTALLER_EXE: &'static str = "uninstall.exe";

pub const ADD_TO_PATH_VARIABLE: &'static str = "ADD_TO_PATH";

/// One file of the installed payload.
#[derive(Debug)]
pub struct PayloadEntry {
    pub source: Option<String>,
    pub destination: String,
    pub executable: bool,
    pub offset: usize,
    pub len: usize,
    pub bytes: Vec<u8>,
}

/// What `PayloadEntry::source` reports when an entry has no source path.
pub open spec fn missing_source_message(destination: Seq<char>) -> Seq<char> {
    "payload source is missing for "@ + destination
}

impl PayloadEntry {
    /// An entry with a source path and an empty byte range.
    pub fn new(source: String, destination: String, executable: bool) -> (r: Self)
        ensures
            r.source == Some(source),
            r.destination == destination,
            r.executable == executable,
            r.offset == 0,
            r.len == 0,
            r.bytes@ == Seq::<u8>::empty(),
    {
        PayloadEntry { source: Some(source), destination, executable, offset: 0, len: 0, bytes: Vec::new() }
    }

    /// The source path of the entry, or an error naming its destination.
    pub fn source(&self) -> (r: Result<&str, String>)
        ensures
            match self.source {
                Some(s) => r matches Ok(t) && t@ == s@,
                None => r matches Err(e) && e@ == missing_source_message(self.destination@),
            },
    {
        match &self.source {
            Some(s) => Ok(s.as_str()),
            None => {
                proof { reveal_strlit("payload source is missing for "); }
                Err(concat2("payload source is missing for ", self.destination.as_str()))
            },
        }
    }

    /// The entry with its byte range in the embedded payload set to `offset..offset + len`.
    pub fn with_range(self, offset: usize, len: usize) -> (r: Self)
        ensures
            r.offset == offset,
            r.len == len,
            r.source == self.source,
            r.destination == self.destination,
            r.executable == self.executable,
            r.bytes == self.bytes,
    {
        let mut entry = self;
        entry.offset = offset;
        entry.len = len;
        entry
    }
}

#[derive(Clone, Copy, Debug, PartialEq, Eq, Structural)]
pub enum AssociatedFileKind {
    File,
    Directory,
}

/// A file or directory that the application creates at run time and that
/// the package knows about.
#[derive(Debug)]
pub struct AssociatedFile {
    pub path: String,
    pub kind: AssociatedFileKind,
    pub eula_report: bool,
}

/// A Start Menu shortcut to an installed file.
#[derive(Debug)]
pub struct Shortcut {
    pub target: String,
    pub name: String,
    pub directory: Option<String>,
    pub icon: Option<String>,
}

/// A license agreement shown before installation.
#[derive(Debug)]
pub struct Eula {
    pub name: String,
    pub text: String,
    pub required: bool,
}

impl Clone for AssociatedFile {
    fn clone(&self) -> (r: Self)
        ensures
            r == *self,
    {
        AssociatedFile { path: self.path.clone(), kind: self.kind, eula_report: self.eula_report }
    }
}

impl Clone for Shortcut {
    fn clone(&self) -> (r: Self)
        ensures
            r == *self,
    {
        Shortcut {
            target: self.target.clone(),
            name: self.name.clone(),
            directory: self.directory.clone(),
            icon: self.icon.clone(),
        }
    }
}

impl Clone for Eula {
    fn clone(&self) -> (r: Self)
        ensures
            r == *self,
    {
        Eula { name: self.name.clone(), text: self.text.clone(), required: self.required }
    }
}

/// A square RGBA image shown as the application's icon.
#[derive(Debug)]
pub struct DisplayIcon {
    pub width: u32,
    pub height: u32,
    pub rgba: Vec<u8>,
}

#[derive(Debug)]
pub struct InstallerConfig {
    pub app_name: String,
    pub app_version: String,
    pub display_name: Option<String>,
    pub publisher: Option<String>,
    pub bundled_at: String,
    pub bundle_target: String,
    pub required_variables: Vec<String>,
    pub uninstaller_source: String,
    pub uninstaller_bytes: Vec<u8>,
    pub payload: Vec<PayloadEntry>,
    pub path_entries: Vec<String>,
    pub display_icon: Option<String>,
    pub display_icon_rgba: Option<DisplayIcon>,
    pub associated_files: Vec<AssociatedFile>,
    pub shortcuts: Vec<Shortcut>,
    pub eulas: Vec<Eula>,
}

impl Default for InstallerConfig {
    fn default() -> (r: Self)
        ensures
            r.app_name@ == "template-app"@,
            r.app_version@ == "0.0.0"@,
            r.display_name is None,
            r.publisher is None,
            r.bundled_at@ == Seq::<char>::empty(),
            r.bundle_target@ == Seq::<char>::empty(),
            r.required_variables@.len() == 0,
            r.uninstaller_source@ == Seq::<char>::empty(),
            r.uninstaller_bytes@.len() == 0,
            r.payload@.len() == 0,
            r.path_entries@.len() == 0,
            r.display_icon is None,
            r.display_icon_rgba is None,
            r.associated_files@.len() == 0,
            r.shortcuts@.len() == 0,
            r.eulas@.len() == 0,
    {
        InstallerConfig {
            app_name: owned("template-app"),
            app_version: owned("0.0.0"),
            display_name: None,
            publisher: None,
            bundled_at: String::new(),
            bundle_target: String::new(),
            required_variables: Vec::new(),
            uninstaller_source: String::new(),
            uninstaller_bytes: Vec::new(),
            payload: Vec::new(),
            path_entries: Vec::new(),
            display_icon: None,
            display_icon_rgba: None,
            associated_files: Vec::new(),
            shortcuts: Vec::new(),
            eulas: Vec::new(),
        }
    }
}

/// The application name used for install folders: the trimmed `app_name`,
/// or `windows-installer` when that is empty.
pub open spec fn install_app_name_spec(app_name: Seq<char>) -> Seq<char> {
    if trim_ws(app_name).len() == 0 {
        "windows-installer"@
    } else {
        trim_ws(app_name)
    }
}

/// The trimmed publisher, when there is one that is not blank.
pub open spec fn publisher_name_spec(publisher: Option<String>) -> Option<Seq<char>> {
    match publisher {
        Some(p) => if trim_ws(p@).len() == 0 {
            None
        } else {
            Some(trim_ws(p@))
        },
        None => None,
    }
}

/// Whether some required variable is exactly `name`.
pub open spec fn requires_variable(variables: Seq<String>, name: Seq<char>) -> bool {
    exists|i: int| 0 <= i < variables.len() && #[trigger] variables[i]@ == name
}

/// Whether `name` is one of `names`.
pub fn contains_name(names: &Vec<String>, name: &str) -> (r: bool)
    ensures
        r == requires_variable(names@, name@),
{
    let mut i: usize = 0;
    while i < names.len()
        invariant
            i <= names@.len(),
            forall|k: int| 0 <= k < i ==> #[trigger] names@[k]@ != name@,
        decreases names@.len() - i,
    {
        if str_eq(names[i].as_str(), name) {
            return true;
        }
        i = i + 1;
    }
    false
}

/// Why embedding the payload bytes into a configuration failed.
#[derive(Debug)]
pub enum EmbedError {
    OffsetOverflow { destination: String },
    OutOfRange { destination: String },
}

impl EmbedError {
    pub open spec fn message_spec(&self) -> Seq<char> {
        match self {
            EmbedError::OffsetOverflow { destination } => "payload offset overflow for "@ + destination@,
            EmbedError::OutOfRange { destination } => "payload bytes out of range for "@ + destination@,
        }
    }

    /// The message that the installer shows for this error.
    pub fn message(&self) -> (r: String)
        ensures
            r@ == self.message_spec(),
    {
        match self {
            EmbedError::OffsetOverflow { destination } => concat2(
                "payload offset overflow for ",
                destination.as_str(),
            ),
            EmbedError::OutOfRange { destination } => concat2(
                "payload bytes out of range for ",
                destination.as_str(),
            ),
        }
    }
}

/// The entry's byte range lies inside a payload of `payload_len` bytes.
pub open spec fn entry_in_range(entry: PayloadEntry, payload_len: nat) -> bool {
    entry.offset + entry.len <= payload_len
}

/// The index of the first entry whose range overflows or leaves the payload.
pub open spec fn first_bad_entry(entries: Seq<PayloadEntry>, payload_len: nat, i: int) -> bool {
    0 <= i < entries.len() && !entry_in_range(entries[i], payload_len) && forall|k: int|
        0 <= k < i ==> entry_in_range(#[trigger] entries[k], payload_len)
}

impl InstallerConfig {
    /// The application name used for install folders.
    pub fn install_app_name(&self) -> (r: &str)
        ensures
            r@ == install_app_name_spec(self.app_name@),
    {
        let app_name = trim(self.app_name.as_str());
        if app_name.unicode_len() == 0 {
            "windows-installer"
        } else {
            app_name
        }
    }

    /// The publisher, trimmed, when it is not blank.
    pub fn publisher_name(&self) -> (r: Option<&str>)
        ensures
            match publisher_name_spec(self.publisher) {
                Some(p) => r matches Some(s) && s@ == p,
                None => r is None,
            },
    {
        match &self.publisher {
            Some(publisher) => {
                let publisher = trim(publisher.as_str());
                if publisher.unicode_len() == 0 {
                    None
                } else {
                    Some(publisher)
                }
            },
            None => None,
        }
    }

    /// Whether the user may choose the installation folder: the payload
    /// refers to `$INSTALLPATH`.
    pub fn allows_install_path_selection(&self) -> (r: bool)
        ensures
            r == requires_variable(self.required_variables@, "INSTALLPATH"@),
    {
        contains_name(&self.required_variables, "INSTALLPATH")
    }

    /// Attaches the embedded payload and uninstaller bytes: each entry takes
    /// the bytes `payload[offset..offset + len]`.
    pub fn embed(self, payload: &[u8], uninstaller: &[u8]) -> (r: Result<Self, EmbedError>)
        ensures
            match r {
                Ok(c) => {
                    &&& forall|k: int| 0 <= k < self.payload@.len() ==> entry_in_range(#[trigger] self.payload@[k], payload@.len())
                    &&& c.payload@.len() == self.payload@.len()
                    &&& forall|k: int| 0 <= k < c.payload@.len() ==> {
                        &&& (#[trigger] c.payload@[k]).bytes@ == payload@.subrange(
                            self.payload@[k].offset as int,
                            self.payload@[k].offset + self.payload@[k].len,
                        )
                        &&& c.payload@[k].destination == self.payload@[k].destination
                        &&& c.payload@[k].source == self.payload@[k].source
                        &&& c.payload@[k].executable == self.payload@[k].executable
                        &&& c.payload@[k].offset == self.payload@[k].offset
                        &&& c.payload@[k].len == self.payload@[k].len
                    }
                    &&& c.uninstaller_bytes@ == uninstaller@
                    &&& c.app_name == self.app_name
                    &&& c.app_version == self.app_version
                },
                Err(e) => exists|i: int| #![trigger first_bad_entry(self.payload@, payload@.len(), i)] {
                    &&& first_bad_entry(self.payload@, payload@.len(), i)
                    &&& e matches EmbedError::OffsetOverflow { destination } ==> {
                        &&& self.payload@[i].offset + self.payload@[i].len > usize::MAX
                        &&& destination == self.payload@[i].destination
                    }
                    &&& e matches EmbedError::OutOfRange { destination } ==> {
                        &&& self.payload@[i].offset + self.payload@[i].len <= usize::MAX
                        &&& destination == self.payload@[i].destination
                    }
                },
            },
    {
        let mut config = self;
        let ghost original = config.payload@;
        let mut entries: Vec<PayloadEntry> = Vec::new();
        let n = config.payload.len();
        let mut remaining = config.payload;
        config.payload = Vec::new();
        assert(remaining@ == original.skip(0));
        let plen = payload.len();
        let mut i: usize = 0;
        while i < n
            invariant
                plen == payload@.len(),
                original == self.payload@,
                n == original.len(),
                i <= n,
                remaining@ == original.skip(i as int),
                entries@.len() == i,
                forall|k: int| 0 <= k < i ==> entry_in_range(#[trigger] original[k], payload@.len()),
                forall|k: int| 0 <= k < i ==> {
                    &&& (#[trigger] entries@[k]).bytes@ == payload@.subrange(
                        original[k].offset as int,
                        original[k].offset + original[k].len,
                    )
                    &&& entries@[k].destination == original[k].destination
                    &&& entries@[k].source == original[k].source
                    &&& entries@[k].executable == original[k].executable
                    &&& entries@[k].offset == original[k].offset
                    &&& entries@[k].len == original[k].len
                },
            decreases n - i,
        {
            let mut entry = remaining.remove(0);
            assert(entry == original[i as int]);
            let end = match entry.offset.checked_add(entry.len) {
                Some(end) => end,
                None => {
                    assert(first_bad_entry(original, payload@.len(), i as int));
                    return Err(EmbedError::OffsetOverflow { destination: entry.destination });
                },
            };
            if end > plen {
                assert(first_bad_entry(original, payload@.len(), i as int));
                return Err(EmbedError::OutOfRange { destination: entry.destination });
            }
            entry.bytes = vstd::slice::slice_to_vec(vstd::slice::slice_subrange(payload, entry.offset, end));
            entries.push(entry);
            i = i + 1;
        }
        config.payload = entries;
        config.uninstaller_bytes = vstd::slice::slice_to_vec(uninstaller);
        Ok(config)
    }
}

} // verus!
