//! The installer window's configuration.
use vstd::prelude::*;

use crate::text::{concat2, owned, trim, trim_ws};
use crate::windows_installer::config::InstallerConfig;

verus! {

/// Whether the window installs or uninstalls.
#[derive(Clone, Copy, Debug, PartialEq, Eq, Structural)]
pub enum EntryPoint {
    Installer,
    Uninstaller,
}

/// The window title and the configuration it shows.
#[derive(Debug)]
pub struct UiConfig {
    pub title: String,
    pub config: Option<InstallerConfig>,
}

/// The product name in the window: the trimmed display name, else the
/// trimmed application name, else `windows-installer`.
pub open spec fn window_name_spec(config: InstallerConfig) -> Seq<char> {
    match config.display_name {
        Some(d) if trim_ws(d@).len() > 0 => trim_ws(d@),
        _ => if trim_ws(config.app_name@).len() > 0 { trim_ws(config.app_name@) } else { "windows-installer"@ },
    }
}

/// The product name in the window.
pub fn display_name(config: &InstallerConfig) -> (r: &str)
    ensures
        r@ == window_name_spec(*config),
{
    if let Some(d) = &config.display_name {
        let t = trim(d.as_str());
        if t.unicode_len() > 0 {
            return t;
        }
    }
    let app = trim(config.app_name.as_str());
    if app.unicode_len() > 0 {
        app
    } else {
        "windows-installer"
    }
}

impl UiConfig {
    /// The window configuration for an embedded configuration, `None` when
    /// nothing is embedded: titled `<name> installer` or `<name> uninstaller`,
    /// or `windows-installer` without a configuration.
    pub fn from_embedded(entrypoint: EntryPoint, config: Option<InstallerConfig>) -> (r: Self)
        ensures
            r.config == config,
            r.title@ == match config {
                None => "windows-installer"@,
                Some(c) => window_name_spec(c) + match entrypoint {
                    EntryPoint::Installer => " installer"@,
                    EntryPoint::Uninstaller => " uninstaller"@,
                },
            },
    {
        match config {
            None => UiConfig { title: owned("windows-installer"), config: None },
            Some(c) => {
                let name = display_name(&c);
                let title = match entrypoint {
                    EntryPoint::Installer => concat2(name, " installer"),
                    EntryPoint::Uninstaller => concat2(name, " uninstaller"),
                };
                UiConfig { title, config: Some(c) }
            },
        }
    }

    /// The configuration the window shows.
    pub fn installer_config(&self) -> (r: &Option<InstallerConfig>)
        ensures
            *r == self.config,
    {
        &self.config
    }
}

} // verus!
