//! How the installer moves between its screens: what the user may choose,
//! which screen follows which, and the title above them.
use vstd::prelude::*;

use crate::text::{concat2, push_str, trim, trim_ws};
use crate::windows_installer::config::InstallerConfig;
use crate::windows_installer::gui::app::{display_name, window_name_spec};

verus! {

/// What the installer does.
#[derive(Debug, Clone, Copy, PartialEq, Eq, Structural)]
pub enum Process {
    Installation,
    Reinstallation,
    Uninstallation,
}

/// A screen of the installer.
#[derive(Debug)]
pub enum Screen {
    /// The choice of what to do.
    Action,
    /// The license agreement with this number.
    Eula(usize),
    /// The installation settings.
    Settings,
    /// The uninstallation settings.
    UninstallSettings,
    /// The running process.
    Process(Process),
    /// The end, with its message.
    Exit(String),
}

/// Whether the user may choose `process`: reinstalling or uninstalling when
/// the application is installed, installing when it is not.
pub open spec fn process_available_spec(process: Process, installed: bool) -> bool {
    if installed {
        process == Process::Reinstallation || process == Process::Uninstallation
    } else {
        process == Process::Installation
    }
}

/// Whether the user may choose `process`.
pub fn process_available(process: Process, installed: bool) -> (r: bool)
    ensures
        r == process_available_spec(process, installed),
{
    match (installed, process) {
        (true, Process::Reinstallation) => true,
        (true, Process::Uninstallation) => true,
        (false, Process::Installation) => true,
        _ => false,
    }
}

/// A screen that the installer can show: a license number names one of the
/// licenses.
pub open spec fn screen_ok(screen: Screen, eula_count: nat) -> bool {
    match screen {
        Screen::Eula(i) => i < eula_count,
        _ => true,
    }
}

/// The screen after `screen`: from the choice, the first license or the
/// settings; from a license, the next license or the settings; from the
/// settings, the process; from the process, the end with `detail`.
pub open spec fn next_screen_spec(screen: Screen, process: Process, eula_count: nat, detail: String) -> Screen {
    match screen {
        Screen::Action => match process {
            Process::Uninstallation => Screen::UninstallSettings,
            _ => if eula_count > 0 {
                Screen::Eula(0)
            } else {
                Screen::Settings
            },
        },
        Screen::Eula(i) => if i + 1 < eula_count {
            Screen::Eula((i + 1) as usize)
        } else {
            Screen::Settings
        },
        Screen::Settings => Screen::Process(process),
        Screen::UninstallSettings => Screen::Process(process),
        Screen::Process(_) => Screen::Exit(detail),
        Screen::Exit(m) => Screen::Exit(m),
    }
}

/// Where the installer is: the screen, the chosen process, whether the
/// application is installed, the screens to go back to, and how many
/// licenses the user must accept.
#[derive(Debug)]
pub struct Flow {
    pub screen: Screen,
    pub process: Process,
    pub installed: bool,
    pub stack: Vec<Screen>,
    pub eula_count: usize,
}

impl Flow {
    /// Every screen, shown or to go back to, is one the installer can show.
    pub open spec fn wf(&self) -> bool {
        &&& screen_ok(self.screen, self.eula_count as nat)
        &&& forall|i: int| 0 <= i < self.stack@.len() ==> #[trigger] screen_ok(self.stack@[i], self.eula_count as nat)
    }

    /// The start: the choice of what to do, reinstalling when the
    /// application is installed and installing otherwise.
    pub fn new(installed: bool, eula_count: usize) -> (r: Self)
        ensures
            r.wf(),
            r.screen is Action,
            r.process == (if installed { Process::Reinstallation } else { Process::Installation }),
            r.installed == installed,
            r.stack@.len() == 0,
            r.eula_count == eula_count,
    {
        Flow {
            screen: Screen::Action,
            process: if installed { Process::Reinstallation } else { Process::Installation },
            installed,
            stack: Vec::new(),
            eula_count,
        }
    }

    /// The number of licenses in a configuration: none without one.
    pub fn eula_count_of(config: Option<&InstallerConfig>) -> (r: usize)
        ensures
            r == match config {
                Some(c) => c.eulas@.len(),
                None => 0,
            },
    {
        match config {
            Some(c) => c.eulas.len(),
            None => 0,
        }
    }

    /// Whether there are licenses to accept.
    pub fn has_eulas(&self) -> (r: bool)
        ensures
            r == (self.eula_count > 0),
    {
        self.eula_count > 0
    }

    /// Chooses `process` when it is available, else changes nothing.
    pub fn select_process(&mut self, process: Process)
        ensures
            final(self).process == (if process_available_spec(process, old(self).installed) {
                process
            } else {
                old(self).process
            }),
            final(self).screen == old(self).screen,
            final(self).installed == old(self).installed,
            final(self).stack@ == old(self).stack@,
            final(self).eula_count == old(self).eula_count,
    {
        if process_available(process, self.installed) {
            self.process = process;
        }
    }

    /// Goes on from the current screen, remembering `current` to go back to;
    /// `detail` is the message of the end screen after the process. Gives
    /// the process to start when the next screen runs it.
    pub fn next_screen(&mut self, current: Screen, detail: String) -> (r: Option<Process>)
        requires
            old(self).wf(),
            screen_ok(current, old(self).eula_count as nat),
            !(old(self).screen is Exit),
        ensures
            final(self).wf(),
            final(self).screen == next_screen_spec(old(self).screen, old(self).process, old(self).eula_count as nat, detail),
            final(self).stack@ == old(self).stack@.push(current),
            final(self).process == old(self).process,
            final(self).installed == old(self).installed,
            final(self).eula_count == old(self).eula_count,
            r == match final(self).screen {
                Screen::Process(p) => Some(p),
                _ => None,
            },
    {
        self.stack.push(current);
        let next = match &self.screen {
            Screen::Action => match self.process {
                Process::Uninstallation => Screen::UninstallSettings,
                _ => if self.eula_count > 0 {
                    Screen::Eula(0)
                } else {
                    Screen::Settings
                },
            },
            Screen::Eula(index) => {
                let next_index = *index + 1;
                if next_index < self.eula_count {
                    Screen::Eula(next_index)
                } else {
                    Screen::Settings
                }
            },
            Screen::Settings => Screen::Process(self.process),
            Screen::UninstallSettings => Screen::Process(self.process),
            Screen::Process(_) => Screen::Exit(detail),
            Screen::Exit(_) => Screen::Action,
        };
        self.screen = next;
        match &self.screen {
            Screen::Process(p) => Some(*p),
            _ => None,
        }
    }

    /// Ends the installer with the cancellation message.
    pub fn cancel(&mut self)
        requires
            old(self).wf(),
        ensures
            final(self).wf(),
            final(self).screen matches Screen::Exit(m) && m@ == "Installation has been canceled."@,
            final(self).stack@ == old(self).stack@,
            final(self).process == old(self).process,
            final(self).installed == old(self).installed,
            final(self).eula_count == old(self).eula_count,
    {
        self.screen = Screen::Exit(String::from_str("Installation has been canceled."));
    }

    /// Goes back to the last remembered screen.
    pub fn prev_screen(&mut self)
        requires
            old(self).wf(),
            old(self).stack@.len() > 0,
        ensures
            final(self).wf(),
            final(self).screen == old(self).stack@.last(),
            final(self).stack@ == old(self).stack@.drop_last(),
            final(self).process == old(self).process,
            final(self).installed == old(self).installed,
            final(self).eula_count == old(self).eula_count,
    {
        let ghost n = self.stack@.len();
        let last = self.stack.pop().unwrap();
        assert(screen_ok(old(self).stack@[n - 1], self.eula_count as nat));
        self.screen = last;
    }
}

/// Going on from the settings screens starts exactly the process the user
/// chose, whichever it is; and every process screen the flow reaches runs
/// that chosen process.
pub proof fn lemma_next_runs_chosen_process(screen: Screen, process: Process, eula_count: nat, detail: String)
    ensures
        next_screen_spec(Screen::Settings, process, eula_count, detail) == Screen::Process(process),
        next_screen_spec(Screen::UninstallSettings, process, eula_count, detail) == Screen::Process(process),
        next_screen_spec(screen, process, eula_count, detail) matches Screen::Process(p) ==> p == process,
{
}

/// Going back right after going on returns to the screen that was left, with
/// the same screens to go back to as before.
pub proof fn lemma_back_undoes_next(before: Flow, current: Screen, after: Flow, back: Flow)
    requires
        after.stack@ == before.stack@.push(current),
        back.screen == after.stack@.last(),
        back.stack@ == after.stack@.drop_last(),
    ensures
        back.screen == current,
        back.stack@ == before.stack@,
{
    assert(before.stack@.push(current).drop_last() =~= before.stack@);
}

/// The title above the screens: the action, then the product name and its
/// trimmed version when there is one; `windows-installer` without a
/// configuration.
pub open spec fn header_title_spec(action: Seq<char>, config: Option<InstallerConfig>) -> Seq<char> {
    match config {
        None => action + " windows-installer"@,
        Some(c) => action + " "@ + window_name_spec(c) + (if trim_ws(c.app_version@).len() == 0 {
            Seq::empty()
        } else {
            " "@ + trim_ws(c.app_version@)
        }),
    }
}

/// The title above the screens, for the label of the chosen action.
pub fn header_title(action: &str, config: Option<&InstallerConfig>) -> (r: String)
    ensures
        r@ == header_title_spec(
            action@,
            match config {
                Some(c) => Some(*c),
                None => None,
            },
        ),
{
    match config {
        None => concat2(action, " windows-installer"),
        Some(c) => {
            let mut title = concat2(action, " ");
            push_str(&mut title, display_name(c));
            let version = trim(c.app_version.as_str());
            if version.unicode_len() > 0 {
                push_str(&mut title, " ");
                push_str(&mut title, version);
            }
            title
        },
    }
}

} // verus!
