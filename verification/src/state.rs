//! The session state and the transitions that need no key to be told apart:
//! moving the selection, switching the panel, taking in a fresh listing.

use vstd::prelude::*;
use crate::client::RcloneClient;
use crate::error::LazyFileError;
use crate::modal::{ConfirmModal, CreateRemoteModal};
use crate::types::{as_navigation, navigation_items, FileItem, NavigationItem};

verus! {

/// The panel that has the input focus.
#[derive(Debug, Clone, Copy, PartialEq, Eq, Structural)]
pub enum Panel {
    /// Remote list on the left.
    Remotes,
    /// Files list on the right.
    Files,
}

impl Panel {
    /// The other panel.
    pub open spec fn other(self) -> Panel {
        match self {
            Panel::Remotes => Panel::Files,
            Panel::Files => Panel::Remotes,
        }
    }
}

/// Switching the panel twice gives the panel back.
pub proof fn lemma_switch_twice(panel: Panel)
    ensures
        panel.other().other() == panel,
{
}

/// Switching the panel of a session twice leads back to the session.
pub proof fn lemma_switch_panel_twice(before: App, between: App, after: App)
    requires
        between == (App { focused_panel: before.focused_panel.other(), ..before }),
        after == (App { focused_panel: between.focused_panel.other(), ..between }),
    ensures
        after == before,
{
}

/// The selection one step further down a list of `len` entries: it stops at
/// the last entry, and does not move in an empty list.
pub open spec fn step_down(selected: usize, len: usize) -> usize {
    if selected + 1 < len {
        (selected + 1) as usize
    } else {
        selected
    }
}

/// The selection one step further up: it stops at the first entry.
pub open spec fn step_up(selected: usize) -> usize {
    if selected > 0 {
        (selected - 1) as usize
    } else {
        selected
    }
}

/// A step down never leads past the last entry of the list, and a step up
/// never below the first: a selection inside a list stays inside it,
/// whichever way it steps, and a step down that moves at all ends inside.
pub proof fn lemma_steps_stay_inside(selected: usize, len: usize)
    ensures
        step_up(selected) <= selected <= step_down(selected, len),
        step_down(selected, len) == selected || step_down(selected, len) <= len - 1,
        selected < len ==> step_down(selected, len) <= len - 1 && step_up(selected) <= len - 1,
        selected == 0 ==> step_up(selected) == 0,
{
}

/// The session state: what is listed, selected, focused and open.
#[derive(Debug)]
pub struct App {
    /// The protocol client of the daemon.
    pub client: RcloneClient,
    /// List of configured remotes.
    pub remotes: Vec<String>,
    /// Currently selected remote.
    pub current_remote: Option<String>,
    /// Current path within the remote.
    pub current_path: String,
    /// Files and directories in current path.
    pub files: Vec<NavigationItem>,
    /// Selected index in remotes list.
    pub remotes_selected: usize,
    /// Selected index in files list.
    pub files_selected: usize,
    /// Currently focused panel.
    pub focused_panel: Panel,
    /// Whether the app should continue running.
    pub running: bool,
    /// Modal for creating/editing remotes.
    pub create_remote_modal: Option<CreateRemoteModal>,
    /// Confirmation modal for delete operations.
    pub confirm_modal: Option<ConfirmModal>,
    /// Remote name being deleted (used for confirmation).
    pub pending_delete_remote: Option<String>,
}

impl App {
    /// The state is well formed: each selection lies inside its list unless
    /// the list is empty; while no remote is current the path is the root and
    /// no files are listed; at most one modal is open; and a remote awaits
    /// deletion exactly while the confirmation is open.
    pub open spec fn wf(self) -> bool {
        &&& self.remotes@.len() > 0 ==> self.remotes_selected < self.remotes@.len()
        &&& self.files@.len() > 0 ==> self.files_selected < self.files@.len()
        &&& self.current_remote is None ==> self.current_path@.len() == 0 && self.files@.len() == 0
        &&& !(self.confirm_modal is Some && self.create_remote_modal is Some)
        &&& self.confirm_modal is Some <==> self.pending_delete_remote is Some
    }

    /// `after` lists, selects and focuses what `self` does, and runs if
    /// `self` runs: it differs at most in the modals and the remote that
    /// awaits deletion.
    pub open spec fn same_browsing(self, after: App) -> bool {
        &&& after.client == self.client
        &&& after.remotes == self.remotes
        &&& after.current_remote == self.current_remote
        &&& after.current_path == self.current_path
        &&& after.files == self.files
        &&& after.remotes_selected == self.remotes_selected
        &&& after.files_selected == self.files_selected
        &&& after.focused_panel == self.focused_panel
        &&& after.running == self.running
    }

    /// `after` has the modals of `self`, and the same remote awaits deletion.
    pub open spec fn same_modals(self, after: App) -> bool {
        &&& after.create_remote_modal == self.create_remote_modal
        &&& after.confirm_modal == self.confirm_modal
        &&& after.pending_delete_remote == self.pending_delete_remote
    }

    /// `after` is `self` with the selection of the focused panel one step
    /// further down, or up where `down` is false.
    pub open spec fn moved(self, down: bool, after: App) -> bool {
        match self.focused_panel {
            Panel::Remotes => after == (App {
                remotes_selected: if down {
                    step_down(self.remotes_selected, self.remotes.len())
                } else {
                    step_up(self.remotes_selected)
                },
                ..self
            }),
            Panel::Files => after == (App {
                files_selected: if down {
                    step_down(self.files_selected, self.files.len())
                } else {
                    step_up(self.files_selected)
                },
                ..self
            }),
        }
    }

    /// The state at startup: nothing listed, nothing open, the focus on the
    /// remotes, running.
    pub fn new(client: RcloneClient) -> (r: Self)
        ensures
            r.client == client,
            r.remotes@.len() == 0,
            r.current_remote is None,
            r.current_path@ == Seq::<char>::empty(),
            r.files@.len() == 0,
            r.remotes_selected == 0,
            r.files_selected == 0,
            r.focused_panel == Panel::Remotes,
            r.running,
            r.create_remote_modal is None,
            r.confirm_modal is None,
            r.pending_delete_remote is None,
            r.wf(),
    {
        App {
            client,
            remotes: Vec::new(),
            current_remote: None,
            current_path: String::new(),
            files: Vec::new(),
            remotes_selected: 0,
            files_selected: 0,
            focused_panel: Panel::Remotes,
            running: true,
            create_remote_modal: None,
            confirm_modal: None,
            pending_delete_remote: None,
        }
    }

    /// Takes in the outcome of a listing of the remotes. A list replaces the
    /// remotes and puts the selection on the first; a failure is handed on
    /// and changes nothing.
    pub fn load_remotes(&mut self, listed: Result<Vec<String>, LazyFileError>) -> (r: Result<
        (),
        LazyFileError,
    >)
        ensures
            match listed {
                Ok(remotes) => r is Ok && *final(self) == (App {
                    remotes,
                    remotes_selected: 0,
                    ..*old(self)
                }),
                Err(e) => r == Err::<(), LazyFileError>(e) && *final(self) == *old(self),
            },
            old(self).wf() ==> final(self).wf(),
    {
        match listed {
            Ok(remotes) => {
                self.remotes = remotes;
                self.remotes_selected = 0;
                Ok(())
            },
            Err(e) => Err(e),
        }
    }

    /// Takes in the outcome of a listing of the files at the current remote
    /// and path. A list replaces the entries, in its order, and puts the
    /// selection on the first; a failure is handed on and changes nothing.
    pub fn load_files(&mut self, listed: Result<Vec<FileItem>, LazyFileError>) -> (r: Result<
        (),
        LazyFileError,
    >)
        ensures
            match listed {
                Ok(items) => {
                    &&& r is Ok
                    &&& final(self).files@ == as_navigation(items@)
                    &&& final(self).files_selected == 0
                    &&& *final(self) == (App {
                        files: final(self).files,
                        files_selected: 0,
                        ..*old(self)
                    })
                },
                Err(e) => r == Err::<(), LazyFileError>(e) && *final(self) == *old(self),
            },
            old(self).wf() && (old(self).current_remote is Some || listed is Err)
                ==> final(self).wf(),
    {
        match listed {
            Ok(items) => {
                self.files = navigation_items(items);
                self.files_selected = 0;
                Ok(())
            },
            Err(e) => Err(e),
        }
    }

    /// Moves the selection of the focused panel one entry down. It stops at
    /// the last entry.
    pub fn navigate_down(&mut self)
        ensures
            old(self).moved(true, *final(self)),
            old(self).wf() ==> final(self).wf(),
            old(self).remotes_selected < old(self).remotes@.len()
                ==> final(self).remotes_selected <= old(self).remotes@.len() - 1,
            old(self).files_selected < old(self).files@.len()
                ==> final(self).files_selected <= old(self).files@.len() - 1,
            final(self).remotes_selected == old(self).remotes_selected
                || final(self).remotes_selected <= old(self).remotes@.len() - 1,
            final(self).files_selected == old(self).files_selected
                || final(self).files_selected <= old(self).files@.len() - 1,
    {
        match self.focused_panel {
            Panel::Remotes => {
                if self.remotes.len() > 0 && self.remotes_selected < self.remotes.len() - 1 {
                    self.remotes_selected += 1;
                }
            },
            Panel::Files => {
                if self.files.len() > 0 && self.files_selected < self.files.len() - 1 {
                    self.files_selected += 1;
                }
            },
        }
    }

    /// Moves the selection of the focused panel one entry up. It stops at the
    /// first entry.
    pub fn navigate_up(&mut self)
        ensures
            old(self).moved(false, *final(self)),
            old(self).wf() ==> final(self).wf(),
            final(self).remotes_selected <= old(self).remotes_selected,
            final(self).files_selected <= old(self).files_selected,
    {
        match self.focused_panel {
            Panel::Remotes => {
                if self.remotes_selected > 0 {
                    self.remotes_selected -= 1;
                }
            },
            Panel::Files => {
                if self.files_selected > 0 {
                    self.files_selected -= 1;
                }
            },
        }
    }

    /// Moves the focus to the other panel.
    pub fn switch_panel(&mut self)
        ensures
            *final(self) == (App { focused_panel: old(self).focused_panel.other(), ..*old(self) }),
            old(self).wf() ==> final(self).wf(),
    {
        self.focused_panel = match self.focused_panel {
            Panel::Remotes => Panel::Files,
            Panel::Files => Panel::Remotes,
        };
    }
}

} // verus!
