//! The input dispatcher. A key leads to one transition of the session state.
//! A transition that needs the daemon names the call as an `Intent`; the
//! caller makes the round trip and hands the reply to `complete`, which
//! finishes the transition or, on failure, leaves the state as it was.

use vstd::prelude::*;
use vstd::string::*;
use crate::client::{command_result, files_listed, remotes_listed, HttpOutcome, HttpRequest};
use crate::error::LazyFileError;
use crate::modal::{ConfirmChoice, ConfirmModal, CreateRemoteModal, CreateRemoteMode};
use crate::state::{App, Panel};
use crate::text::{child_of, child_path, join, parent_of, parent_path};
use crate::types::{as_navigation, FileItem, ListFilesResponse, Parameters};

verus! {

/// One key press.
#[derive(Debug, Clone, Copy, PartialEq, Eq, Structural)]
pub enum Key {
    /// A printable character.
    Char(char),
    Enter,
    Esc,
    Tab,
    /// Tab with Shift.
    BackTab,
    Backspace,
    Up,
    Down,
    Left,
    Right,
    /// Any other key.
    Other,
}

/// The call to the daemon that a transition waits for.
#[derive(Debug, Clone)]
pub enum Intent {
    /// No call.
    Nothing,
    /// List the files at the root of `remote`, to enter it.
    OpenRemote { remote: String },
    /// List the files of `remote` at `path`, to move there.
    OpenPath { remote: String, path: String },
    /// Delete the remote `name`.
    DeleteRemote { name: String },
    /// Create the remote `name`.
    CreateRemote { name: String, remote_type: String, parameters: Parameters },
    /// Give the remote `name` new parameters.
    UpdateRemote { name: String, parameters: Parameters },
    /// List the configured remotes.
    ListRemotes,
}

/// What a call to the daemon gave.
#[derive(Debug)]
pub enum Reply {
    /// The outcome of a listing of remotes.
    Remotes(Result<Vec<String>, LazyFileError>),
    /// The outcome of a listing of files.
    Files(Result<Vec<FileItem>, LazyFileError>),
    /// The outcome of a creation, an update or a deletion.
    Done(Result<(), LazyFileError>),
}

/// The parameters that a form with the path `path` submits: the path under
/// the key `path`, and nothing where the path is empty.
pub open spec fn path_parameters(path: Seq<char>) -> Map<Seq<char>, Seq<char>> {
    if path.len() == 0 {
        Map::empty()
    } else {
        Map::<Seq<char>, Seq<char>>::empty().insert("path"@, path)
    }
}

/// The create key: `after` is `before` with a blank form open in Create mode.
pub open spec fn create_opened(before: App, after: App) -> bool {
    &&& after == (App { create_remote_modal: after.create_remote_modal, ..before })
    &&& match after.create_remote_modal {
        Some(form) => form.blank(CreateRemoteMode::Create),
        None => false,
    }
}

/// The edit key: with a remote selected, `after` is `before` with a form open
/// in Edit mode that holds the remote's name; with none, nothing changes.
pub open spec fn edit_opened(before: App, after: App) -> bool {
    if before.remotes_selected < before.remotes@.len() {
        &&& after == (App { create_remote_modal: after.create_remote_modal, ..before })
        &&& match after.create_remote_modal {
            Some(form) => {
                &&& form.mode == CreateRemoteMode::Edit
                &&& form.name == before.remotes@[before.remotes_selected as int]
                &&& form.remote_type@ == "local"@
                &&& form.path@ == Seq::<char>::empty()
                &&& form.focus_field == crate::modal::RemoteField::Name
                &&& form.error is None
            },
            None => false,
        }
    } else {
        after == before
    }
}

/// The delete key: with a remote selected, `after` is `before` with that
/// remote awaiting deletion and a confirmation open on No; with none, nothing
/// changes.
pub open spec fn delete_asked(before: App, after: App) -> bool {
    if before.remotes_selected < before.remotes@.len() {
        let target = before.remotes@[before.remotes_selected as int];
        &&& after == (App {
            confirm_modal: after.confirm_modal,
            pending_delete_remote: Some(target),
            ..before
        })
        &&& match after.confirm_modal {
            Some(modal) => {
                &&& modal.title@ == "Delete Remote"@
                &&& modal.message@ == "Delete '"@ + target@ + "'?"@
                &&& modal.selected == ConfirmChoice::No
            },
            None => false,
        }
    } else {
        after == before
    }
}

/// `intent` asks for the files of `remote` at a path that reads `path`.
pub open spec fn asks_path(intent: Intent, remote: String, path: Seq<char>) -> bool {
    match intent {
        Intent::OpenPath { remote: r, path: p } => r == remote && p@ == path,
        _ => false,
    }
}

/// `after` is `before` moved to the path `path` without a listing: what
/// happens where no remote is current.
pub open spec fn moved_unlisted(before: App, path: Seq<char>, after: App) -> bool {
    &&& after == (App { current_path: after.current_path, files_selected: 0, ..before })
    &&& after.current_path@ == path
}

/// Enter while browsing. On the remotes it asks to enter the selected
/// remote. On the files it asks for the listing of the selected directory;
/// a file, or no selection, does nothing. The state changes only when the
/// listing has come.
pub open spec fn enter_step(before: App, after: App, intent: Intent) -> bool {
    match before.focused_panel {
        Panel::Remotes => {
            &&& after == before
            &&& if before.remotes_selected < before.remotes@.len() {
                intent == (Intent::OpenRemote {
                    remote: before.remotes@[before.remotes_selected as int],
                })
            } else {
                intent is Nothing
            }
        },
        Panel::Files => {
            if before.files_selected < before.files@.len()
                && before.files@[before.files_selected as int].item().is_dir {
                let name = before.files@[before.files_selected as int].item().name@;
                let path = child_path(before.current_path@, name);
                match before.current_remote {
                    Some(remote) => after == before && asks_path(intent, remote, path),
                    None => moved_unlisted(before, path, after) && intent is Nothing,
                }
            } else {
                after == before && intent is Nothing
            }
        },
    }
}

/// Backspace while browsing. On the files, below the root, it asks for the
/// listing of the parent; at the root it leaves the remote: no remote is
/// current, no files are listed, the focus is on the remotes. On the remotes
/// it does nothing.
pub open spec fn back_step(before: App, after: App, intent: Intent) -> bool {
    match before.focused_panel {
        Panel::Remotes => after == before && intent is Nothing,
        Panel::Files => {
            if before.current_path@.len() > 0 {
                let path = parent_path(before.current_path@);
                match before.current_remote {
                    Some(remote) => after == before && asks_path(intent, remote, path),
                    None => moved_unlisted(before, path, after) && intent is Nothing,
                }
            } else {
                &&& intent is Nothing
                &&& after == (App {
                    current_remote: None,
                    focused_panel: Panel::Remotes,
                    files: after.files,
                    ..before
                })
                &&& after.files@.len() == 0
            }
        },
    }
}

/// A key while no modal is open.
pub open spec fn browse_step(before: App, key: Key, after: App, intent: Intent) -> bool {
    let on_remotes = before.focused_panel == Panel::Remotes;
    if key == Key::Char('q') {
        after == (App { running: false, ..before }) && intent is Nothing
    } else if key == Key::Char('a') && on_remotes {
        create_opened(before, after) && intent is Nothing
    } else if key == Key::Char('d') && on_remotes {
        delete_asked(before, after) && intent is Nothing
    } else if key == Key::Char('e') && on_remotes {
        edit_opened(before, after) && intent is Nothing
    } else if key == Key::Char('j') || key == Key::Down {
        before.moved(true, after) && intent is Nothing
    } else if key == Key::Char('k') || key == Key::Up {
        before.moved(false, after) && intent is Nothing
    } else if key == Key::Tab {
        after == (App { focused_panel: before.focused_panel.other(), ..before }) && intent is Nothing
    } else if key == Key::Enter {
        enter_step(before, after, intent)
    } else if key == Key::Backspace {
        back_step(before, after, intent)
    } else {
        after == before && intent is Nothing
    }
}

/// `after` is `before` with the confirmation's choice at `choice`.
pub open spec fn chosen(before: App, choice: ConfirmChoice, after: App) -> bool {
    match before.confirm_modal {
        Some(modal) => after == (App {
            confirm_modal: Some(ConfirmModal { selected: choice, ..modal }),
            ..before
        }),
        None => false,
    }
}

/// `after` is `before` with the confirmation closed and no remote awaiting
/// deletion.
pub open spec fn confirm_closed(before: App, after: App) -> bool {
    after == (App { confirm_modal: None, pending_delete_remote: None, ..before })
}

/// A key while the confirmation is open. Escape closes it. Tab, Left and
/// Right move the choice to the other answer; `y` and `n` set it. Enter
/// closes it, and asks for the deletion where the choice is Yes and a remote
/// awaits it. However it closes, no remote awaits deletion afterwards.
pub open spec fn confirm_step(before: App, key: Key, after: App, intent: Intent) -> bool
    recommends
        before.confirm_modal is Some,
{
    let modal = before.confirm_modal->Some_0;
    if key == Key::Esc {
        confirm_closed(before, after) && intent is Nothing
    } else if key == Key::Tab || key == Key::Left || key == Key::Right {
        chosen(before, modal.selected.toggled(), after) && intent is Nothing
    } else if key == Key::Char('y') {
        chosen(before, ConfirmChoice::Yes, after) && intent is Nothing
    } else if key == Key::Char('n') {
        chosen(before, ConfirmChoice::No, after) && intent is Nothing
    } else if key == Key::Enter {
        &&& confirm_closed(before, after)
        &&& match before.pending_delete_remote {
            Some(name) if modal.selected == ConfirmChoice::Yes => intent == (Intent::DeleteRemote {
                name,
            }),
            _ => intent is Nothing,
        }
    } else {
        after == before && intent is Nothing
    }
}

/// `after` is `before` with the form replaced by one that `changed` accepts.
pub open spec fn form_changed(
    before: App,
    after: App,
    changed: spec_fn(CreateRemoteModal) -> bool,
) -> bool {
    &&& after == (App { create_remote_modal: after.create_remote_modal, ..before })
    &&& match after.create_remote_modal {
        Some(form) => changed(form),
        None => false,
    }
}

/// `intent` submits the form `form`: a creation or an update, by the form's
/// mode, of the remote the form names, with the form's path as the only
/// parameter, if it is not empty.
pub open spec fn submits(form: CreateRemoteModal, intent: Intent) -> bool {
    match form.mode {
        CreateRemoteMode::Create => match intent {
            Intent::CreateRemote { name, remote_type, parameters } => {
                &&& name == form.name
                &&& remote_type == form.remote_type
                &&& parameters@ == path_parameters(form.path@)
            },
            _ => false,
        },
        CreateRemoteMode::Edit => match intent {
            Intent::UpdateRemote { name, parameters } => {
                &&& name == form.name
                &&& parameters@ == path_parameters(form.path@)
            },
            _ => false,
        },
    }
}

/// Enter in the form. Without a name or without a type the form stays open
/// with its fields as they were and a message, and nothing is asked of the
/// daemon. Else the form is submitted; it stays as it is until the reply.
pub open spec fn submit_step(before: App, after: App, intent: Intent) -> bool
    recommends
        before.create_remote_modal is Some,
{
    let form = before.create_remote_modal->Some_0;
    if form.valid() {
        after == before && submits(form, intent)
    } else {
        &&& intent is Nothing
        &&& form_changed(
            before,
            after,
            |f: CreateRemoteModal|
                form.same_fields(f) && f.error is Some && f.error->Some_0@
                    == "Name and Type are required"@,
        )
    }
}

/// A key while the form is open. Escape closes it. Tab and Shift-Tab move
/// the focus through the fields. A character is appended to the focused
/// field and Backspace removes its last character; both clear the message.
/// Enter submits.
pub open spec fn form_step(before: App, key: Key, after: App, intent: Intent) -> bool
    recommends
        before.create_remote_modal is Some,
{
    let form = before.create_remote_modal->Some_0;
    match key {
        Key::Esc => after == (App { create_remote_modal: None, ..before }) && intent is Nothing,
        Key::Tab => {
            &&& intent is Nothing
            &&& after == (App { create_remote_modal: Some(form.focus_next()), ..before })
        },
        Key::BackTab => {
            &&& intent is Nothing
            &&& after == (App { create_remote_modal: Some(form.focus_prev()), ..before })
        },
        Key::Char(c) => {
            &&& intent is Nothing
            &&& form_changed(
                before,
                after,
                |f: CreateRemoteModal|
                    form.edited_to(form.focused_text().push(c), f) && f.error is None,
            )
        },
        Key::Backspace => {
            &&& intent is Nothing
            &&& form_changed(
                before,
                after,
                |f: CreateRemoteModal|
                    form.edited_to(
                        if form.focused_text().len() > 0 {
                            form.focused_text().drop_last()
                        } else {
                            form.focused_text()
                        },
                        f,
                    ) && f.error is None,
            )
        },
        Key::Enter => submit_step(before, after, intent),
        _ => after == before && intent is Nothing,
    }
}

/// The transition that `key` makes from `before`: to `after`, asking
/// `intent` of the daemon. An open modal takes every key: the confirmation
/// first, then the form; the panels see a key only while none is open.
pub open spec fn key_step(before: App, key: Key, after: App, intent: Intent) -> bool {
    if before.confirm_modal is Some {
        confirm_step(before, key, after, intent)
    } else if before.create_remote_modal is Some {
        form_step(before, key, after, intent)
    } else {
        browse_step(before, key, after, intent)
    }
}

/// The message of the error that answers a reply of the wrong kind.
pub open spec fn wrong_reply() -> Seq<char> {
    "Reply does not answer the request"@
}

/// `after` is `before` and `r` the error for a reply of the wrong kind.
pub open spec fn refused(before: App, after: App, r: Result<Intent, LazyFileError>) -> bool {
    &&& after == before
    &&& match r {
        Err(LazyFileError::Other(m)) => m@ == wrong_reply(),
        _ => false,
    }
}

/// `after` is `before` and `r` hands the failure `e` on.
pub open spec fn failed(
    before: App,
    e: LazyFileError,
    after: App,
    r: Result<Intent, LazyFileError>,
) -> bool {
    after == before && r == Err::<Intent, LazyFileError>(e)
}

/// The end of a submission of the form. One that worked closes the form and
/// asks for the remotes. One that failed keeps the form open with its fields
/// as they were and shows the failure in it; nothing is handed on.
pub open spec fn submission_completed(
    before: App,
    reply: Reply,
    after: App,
    r: Result<Intent, LazyFileError>,
) -> bool {
    match reply {
        Reply::Done(Ok(_)) => {
            &&& after == (App { create_remote_modal: None, ..before })
            &&& r == Ok::<Intent, LazyFileError>(Intent::ListRemotes)
        },
        Reply::Done(Err(e)) => {
            &&& r == Ok::<Intent, LazyFileError>(Intent::Nothing)
            &&& match before.create_remote_modal {
                Some(form) => form_changed(
                    before,
                    after,
                    |f: CreateRemoteModal|
                        form.same_fields(f) && f.error is Some && f.error->Some_0@ == "Error: "@
                            + e.shown(),
                ),
                None => after == before,
            }
        },
        _ => refused(before, after, r),
    }
}

/// The end of a transition that asked `intent` and got `reply`: the state
/// `after`, and in `r` the call to make next or the failure to show.
/// A listing that came is taken in, together with the remote and the path
/// it was made for, so that the files shown are always those of the remote
/// and path shown. A failed listing or deletion changes nothing and is
/// handed on. A creation or update that worked closes the form and asks for
/// the remotes; one that failed keeps the form with its fields and shows the
/// failure in it. A deletion that worked asks for the remotes.
pub open spec fn completed(
    before: App,
    intent: Intent,
    reply: Reply,
    after: App,
    r: Result<Intent, LazyFileError>,
) -> bool {
    match intent {
        Intent::Nothing => after == before && r == Ok::<Intent, LazyFileError>(Intent::Nothing),
        Intent::OpenRemote { remote } => match reply {
            Reply::Files(Ok(items)) => {
                &&& r == Ok::<Intent, LazyFileError>(Intent::Nothing)
                &&& after == (App {
                    current_remote: Some(remote),
                    current_path: after.current_path,
                    files: after.files,
                    files_selected: 0,
                    focused_panel: Panel::Files,
                    ..before
                })
                &&& after.current_path@ == Seq::<char>::empty()
                &&& after.files@ == as_navigation(items@)
            },
            Reply::Files(Err(e)) => failed(before, e, after, r),
            _ => refused(before, after, r),
        },
        Intent::OpenPath { remote, path } => match reply {
            Reply::Files(Ok(items)) => {
                &&& r == Ok::<Intent, LazyFileError>(Intent::Nothing)
                &&& after == (App {
                    current_remote: Some(remote),
                    current_path: path,
                    files: after.files,
                    files_selected: 0,
                    ..before
                })
                &&& after.files@ == as_navigation(items@)
            },
            Reply::Files(Err(e)) => failed(before, e, after, r),
            _ => refused(before, after, r),
        },
        Intent::DeleteRemote { name } => match reply {
            Reply::Done(Ok(_)) => after == before && r == Ok::<Intent, LazyFileError>(
                Intent::ListRemotes,
            ),
            Reply::Done(Err(e)) => failed(before, e, after, r),
            _ => refused(before, after, r),
        },
        Intent::CreateRemote { .. } | Intent::UpdateRemote { .. } => submission_completed(
            before,
            reply,
            after,
            r,
        ),
        Intent::ListRemotes => match reply {
            Reply::Remotes(Ok(remotes)) => {
                &&& r == Ok::<Intent, LazyFileError>(Intent::Nothing)
                &&& after == (App { remotes, remotes_selected: 0, ..before })
            },
            Reply::Remotes(Err(e)) => failed(before, e, after, r),
            _ => refused(before, after, r),
        },
    }
}

/// `request` is the request that `intent` sends through the client of `app`;
/// `None` where it asks nothing.
pub open spec fn requested(app: App, intent: Intent, request: Option<HttpRequest>) -> bool {
    match intent {
        Intent::Nothing => request is None,
        Intent::OpenRemote { remote } => request is Some && app.client.lists_files(
            remote@,
            Seq::<char>::empty(),
            request->Some_0,
        ),
        Intent::OpenPath { remote, path } => request is Some && app.client.lists_files(
            remote@,
            path@,
            request->Some_0,
        ),
        Intent::DeleteRemote { name } => request is Some && app.client.deletes(
            name@,
            request->Some_0,
        ),
        Intent::CreateRemote { name, remote_type, parameters } => request is Some
            && app.client.creates(name@, remote_type@, parameters.entries@, request->Some_0),
        Intent::UpdateRemote { name, parameters } => request is Some && app.client.updates(
            name@,
            parameters.entries@,
            request->Some_0,
        ),
        Intent::ListRemotes => request is Some && app.client.lists_remotes(request->Some_0),
    }
}

/// `reply` is what the round trip's `outcome` means as the answer to
/// `intent`; `decoded` is the body read as a file listing.
pub open spec fn interpreted(
    intent: Intent,
    outcome: HttpOutcome,
    decoded: Option<ListFilesResponse>,
    reply: Reply,
) -> bool {
    match intent {
        Intent::Nothing => reply == Reply::Done(Ok(())),
        Intent::OpenRemote { .. } | Intent::OpenPath { .. } => match reply {
            Reply::Files(r) => files_listed(outcome, decoded, r),
            _ => false,
        },
        Intent::DeleteRemote { .. } => match reply {
            Reply::Done(r) => command_result("Failed to delete remote: "@, outcome, r),
            _ => false,
        },
        Intent::CreateRemote { .. } => match reply {
            Reply::Done(r) => command_result("Failed to create remote: "@, outcome, r),
            _ => false,
        },
        Intent::UpdateRemote { .. } => match reply {
            Reply::Done(r) => command_result("Failed to update remote: "@, outcome, r),
            _ => false,
        },
        Intent::ListRemotes => match reply {
            Reply::Remotes(r) => remotes_listed(outcome, r),
            _ => false,
        },
    }
}

/// Handles keyboard input events.
pub struct Handler;

impl Handler {
    /// Makes the transition of `key`. The result names the call to the
    /// daemon that the transition waits for.
    pub fn handle_key(app: &mut App, key: Key) -> (intent: Intent)
        ensures
            key_step(*old(app), key, *final(app), intent),
            old(app).wf() ==> final(app).wf(),
    {
        if app.confirm_modal.is_some() {
            return Self::handle_confirm_key(app, key);
        }
        if app.create_remote_modal.is_some() {
            return Self::handle_modal_key(app, key);
        }
        let on_remotes = match app.focused_panel {
            Panel::Remotes => true,
            Panel::Files => false,
        };
        match key {
            Key::Char(c) => {
                if c == 'q' {
                    app.running = false;
                } else if c == 'a' && on_remotes {
                    app.create_remote_modal = Some(CreateRemoteModal::new(CreateRemoteMode::Create));
                } else if c == 'd' && on_remotes {
                    Self::handle_delete_remote(app);
                } else if c == 'e' && on_remotes {
                    Self::handle_edit_remote(app);
                } else if c == 'j' {
                    app.navigate_down();
                } else if c == 'k' {
                    app.navigate_up();
                }
                Intent::Nothing
            },
            Key::Down => {
                app.navigate_down();
                Intent::Nothing
            },
            Key::Up => {
                app.navigate_up();
                Intent::Nothing
            },
            Key::Tab => {
                app.switch_panel();
                Intent::Nothing
            },
            Key::Enter => Self::handle_enter(app),
            Key::Backspace => Self::handle_backspace(app),
            _ => Intent::Nothing,
        }
    }

    /// A key while the form is open.
    fn handle_modal_key(app: &mut App, key: Key) -> (intent: Intent)
        requires
            old(app).create_remote_modal is Some,
            old(app).confirm_modal is None,
        ensures
            form_step(*old(app), key, *final(app), intent),
            old(app).wf() ==> final(app).wf(),
    {
        match key {
            Key::Esc => {
                app.create_remote_modal = None;
                Intent::Nothing
            },
            Key::Tab => {
                let mut form = app.create_remote_modal.take().unwrap();
                form.next_field();
                app.create_remote_modal = Some(form);
                Intent::Nothing
            },
            Key::BackTab => {
                let mut form = app.create_remote_modal.take().unwrap();
                form.prev_field();
                app.create_remote_modal = Some(form);
                Intent::Nothing
            },
            Key::Char(c) => {
                let mut form = app.create_remote_modal.take().unwrap();
                form.input_char(c);
                form.error = None;
                app.create_remote_modal = Some(form);
                Intent::Nothing
            },
            Key::Backspace => {
                let mut form = app.create_remote_modal.take().unwrap();
                form.backspace();
                form.error = None;
                app.create_remote_modal = Some(form);
                Intent::Nothing
            },
            Key::Enter => Self::handle_modal_submit(app),
            _ => Intent::Nothing,
        }
    }

    /// Enter in the form: checks it, and submits it if it is complete.
    fn handle_modal_submit(app: &mut App) -> (intent: Intent)
        requires
            old(app).create_remote_modal is Some,
            old(app).confirm_modal is None,
        ensures
            submit_step(*old(app), *final(app), intent),
            old(app).wf() ==> final(app).wf(),
    {
        let mut form = app.create_remote_modal.take().unwrap();
        if !form.is_valid() {
            form.error = Some("Name and Type are required".to_owned());
            app.create_remote_modal = Some(form);
            return Intent::Nothing;
        }
        let mut parameters = Parameters::new();
        if !form.path.as_str().is_empty() {
            parameters.insert("path".to_owned(), form.path.clone());
        }
        let name = form.name.clone();
        let intent = match form.mode {
            CreateRemoteMode::Create => Intent::CreateRemote {
                name,
                remote_type: form.remote_type.clone(),
                parameters,
            },
            CreateRemoteMode::Edit => Intent::UpdateRemote { name, parameters },
        };
        app.create_remote_modal = Some(form);
        intent
    }

    /// The delete key: opens the confirmation for the selected remote.
    fn handle_delete_remote(app: &mut App)
        requires
            old(app).confirm_modal is None,
            old(app).create_remote_modal is None,
        ensures
            delete_asked(*old(app), *final(app)),
            old(app).wf() ==> final(app).wf(),
    {
        if app.remotes_selected < app.remotes.len() {
            let remote = app.remotes[app.remotes_selected].clone();
            let mut message = join("Delete '", remote.as_str());
            message.append("'?");
            app.confirm_modal = Some(ConfirmModal::new("Delete Remote", message.as_str()));
            app.pending_delete_remote = Some(remote);
        }
    }

    /// A key while the confirmation is open.
    fn handle_confirm_key(app: &mut App, key: Key) -> (intent: Intent)
        requires
            old(app).confirm_modal is Some,
        ensures
            confirm_step(*old(app), key, *final(app), intent),
            old(app).wf() ==> final(app).wf(),
    {
        match key {
            Key::Esc => {
                app.confirm_modal = None;
                app.pending_delete_remote = None;
                Intent::Nothing
            },
            Key::Tab | Key::Right | Key::Left => {
                let mut modal = app.confirm_modal.take().unwrap();
                modal.toggle();
                app.confirm_modal = Some(modal);
                Intent::Nothing
            },
            Key::Char(c) => {
                if c == 'y' || c == 'n' {
                    let mut modal = app.confirm_modal.take().unwrap();
                    let confirmed = c == 'y';
                    if confirmed != modal.is_confirmed() {
                        modal.toggle();
                    }
                    app.confirm_modal = Some(modal);
                }
                Intent::Nothing
            },
            Key::Enter => {
                let modal = app.confirm_modal.take().unwrap();
                let target = app.pending_delete_remote.take();
                if modal.is_confirmed() {
                    match target {
                        Some(name) => Intent::DeleteRemote { name },
                        None => Intent::Nothing,
                    }
                } else {
                    Intent::Nothing
                }
            },
            _ => Intent::Nothing,
        }
    }

    /// The edit key: opens the form for the selected remote.
    fn handle_edit_remote(app: &mut App)
        requires
            old(app).confirm_modal is None,
            old(app).create_remote_modal is None,
        ensures
            edit_opened(*old(app), *final(app)),
            old(app).wf() ==> final(app).wf(),
    {
        if app.remotes_selected < app.remotes.len() {
            let remote = app.remotes[app.remotes_selected].clone();
            let form = CreateRemoteModal::new(CreateRemoteMode::Edit).with_name(remote).with_type(
                "local".to_owned(),
            );
            app.create_remote_modal = Some(form);
        }
    }

    /// Enter while browsing: asks to enter the selected remote or directory.
    fn handle_enter(app: &mut App) -> (intent: Intent)
        ensures
            enter_step(*old(app), *final(app), intent),
            old(app).wf() ==> final(app).wf(),
    {
        match app.focused_panel {
            Panel::Remotes => {
                if app.remotes_selected < app.remotes.len() {
                    Intent::OpenRemote { remote: app.remotes[app.remotes_selected].clone() }
                } else {
                    Intent::Nothing
                }
            },
            Panel::Files => {
                if app.files_selected < app.files.len() && app.files[app.files_selected].is_dir() {
                    let path = child_of(
                        app.current_path.as_str(),
                        app.files[app.files_selected].name(),
                    );
                    Self::move_to(app, path)
                } else {
                    Intent::Nothing
                }
            },
        }
    }

    /// Asks for the listing of the current remote at `path`; where no remote
    /// is current, moves there without one.
    fn move_to(app: &mut App, path: String) -> (intent: Intent)
        ensures
            match old(app).current_remote {
                Some(remote) => *final(app) == *old(app) && asks_path(intent, remote, path@),
                None => moved_unlisted(*old(app), path@, *final(app)) && intent is Nothing,
            },
            old(app).wf() && old(app).current_remote is Some ==> final(app).wf(),
    {
        match &app.current_remote {
            Some(remote) => Intent::OpenPath { remote: remote.clone(), path },
            None => {
                app.current_path = path;
                app.files_selected = 0;
                Intent::Nothing
            },
        }
    }

    /// Backspace while browsing: asks for the parent directory, or goes back
    /// to the remotes.
    fn handle_backspace(app: &mut App) -> (intent: Intent)
        ensures
            back_step(*old(app), *final(app), intent),
            old(app).wf() ==> final(app).wf(),
    {
        match app.focused_panel {
            Panel::Files => {
                if !app.current_path.as_str().is_empty() {
                    let path = parent_of(app.current_path.as_str());
                    Self::move_to(app, path)
                } else {
                    app.current_remote = None;
                    app.focused_panel = Panel::Remotes;
                    app.files.clear();
                    Intent::Nothing
                }
            },
            Panel::Remotes => Intent::Nothing,
        }
    }

    /// The request to send for `intent`; `None` where it asks nothing.
    pub fn request(app: &App, intent: &Intent) -> (r: Option<HttpRequest>)
        ensures
            requested(*app, *intent, r),
    {
        proof {
            reveal_strlit("");
            assert(""@ =~= Seq::<char>::empty());
        }
        match intent {
            Intent::Nothing => None,
            Intent::OpenRemote { remote } => Some(app.client.list_files_request(remote.as_str(), "")),
            Intent::OpenPath { remote, path } => Some(
                app.client.list_files_request(remote.as_str(), path.as_str()),
            ),
            Intent::DeleteRemote { name } => Some(app.client.delete_remote_request(name.as_str())),
            Intent::CreateRemote { name, remote_type, parameters } => Some(
                app.client.create_remote_request(
                    name.as_str(),
                    remote_type.as_str(),
                    parameters.duplicate(),
                ),
            ),
            Intent::UpdateRemote { name, parameters } => Some(
                app.client.update_remote_request(name.as_str(), parameters.duplicate()),
            ),
            Intent::ListRemotes => Some(app.client.list_remotes_request()),
        }
    }

    /// Reads the outcome of the round trip made for `intent`. `decoded` is
    /// the body read as a file listing, `None` where it is not of that shape;
    /// only the intents that list files look at it.
    pub fn interpret(
        app: &App,
        intent: &Intent,
        outcome: HttpOutcome,
        decoded: Option<ListFilesResponse>,
    ) -> (reply: Reply)
        ensures
            interpreted(*intent, outcome, decoded, reply),
    {
        match intent {
            Intent::Nothing => Reply::Done(Ok(())),
            Intent::OpenRemote { .. } => Reply::Files(app.client.list_files(outcome, decoded)),
            Intent::OpenPath { .. } => Reply::Files(app.client.list_files(outcome, decoded)),
            Intent::DeleteRemote { .. } => Reply::Done(app.client.delete_remote(outcome)),
            Intent::CreateRemote { .. } => Reply::Done(app.client.create_remote(outcome)),
            Intent::UpdateRemote { .. } => Reply::Done(app.client.update_remote(outcome)),
            Intent::ListRemotes => Reply::Remotes(app.client.list_remotes(outcome)),
        }
    }

    /// Finishes the transition that asked `intent`, with the reply that
    /// came. The result is the call to make next, or the failure to show; a
    /// failure leaves the listings, selections, remote and path as they were.
    pub fn complete(app: &mut App, intent: Intent, reply: Reply) -> (r: Result<
        Intent,
        LazyFileError,
    >)
        ensures
            completed(*old(app), intent, reply, *final(app), r),
            old(app).wf() ==> final(app).wf(),
    {
        match intent {
            Intent::Nothing => Ok(Intent::Nothing),
            Intent::OpenRemote { remote } => match reply {
                Reply::Files(Ok(items)) => {
                    app.current_remote = Some(remote);
                    app.current_path = String::new();
                    let _ = app.load_files(Ok(items));
                    app.focused_panel = Panel::Files;
                    Ok(Intent::Nothing)
                },
                Reply::Files(Err(e)) => Err(e),
                _ => Self::refuse(),
            },
            Intent::OpenPath { remote, path } => match reply {
                Reply::Files(Ok(items)) => {
                    app.current_remote = Some(remote);
                    app.current_path = path;
                    let _ = app.load_files(Ok(items));
                    Ok(Intent::Nothing)
                },
                Reply::Files(Err(e)) => Err(e),
                _ => Self::refuse(),
            },
            Intent::DeleteRemote { name } => match reply {
                Reply::Done(Ok(_)) => Ok(Intent::ListRemotes),
                Reply::Done(Err(e)) => Err(e),
                _ => Self::refuse(),
            },
            Intent::CreateRemote { .. } => Self::submitted(app, reply),
            Intent::UpdateRemote { .. } => Self::submitted(app, reply),
            Intent::ListRemotes => match reply {
                Reply::Remotes(listed) => match app.load_remotes(listed) {
                    Ok(_) => Ok(Intent::Nothing),
                    Err(e) => Err(e),
                },
                _ => Self::refuse(),
            },
        }
    }

    /// The error for a reply of the wrong kind.
    fn refuse() -> (r: Result<Intent, LazyFileError>)
        ensures
            match r {
                Err(LazyFileError::Other(m)) => m@ == wrong_reply(),
                _ => false,
            },
    {
        Err(LazyFileError::Other("Reply does not answer the request".to_owned()))
    }

    /// The end of a submission of the form.
    fn submitted(app: &mut App, reply: Reply) -> (r: Result<Intent, LazyFileError>)
        ensures
            submission_completed(*old(app), reply, *final(app), r),
            old(app).wf() ==> final(app).wf(),
    {
        match reply {
            Reply::Done(Ok(_)) => {
                app.create_remote_modal = None;
                Ok(Intent::ListRemotes)
            },
            Reply::Done(Err(e)) => {
                match app.create_remote_modal.take() {
                    Some(form) => {
                        let mut form = form;
                        let shown = e.describe();
                        form.error = Some(join("Error: ", shown.as_str()));
                        app.create_remote_modal = Some(form);
                    },
                    None => {},
                }
                Ok(Intent::Nothing)
            },
            _ => Self::refuse(),
        }
    }
}

/// A key that opens a modal, followed by Escape, leads back to the state
/// before the key, and neither of the two asks anything of the daemon.
pub proof fn lemma_open_then_escape(
    before: App,
    key: Key,
    opened: App,
    first: Intent,
    after: App,
    second: Intent,
)
    requires
        before.wf(),
        before.confirm_modal is None,
        before.create_remote_modal is None,
        key_step(before, key, opened, first),
        opened.confirm_modal is Some || opened.create_remote_modal is Some,
        key_step(opened, Key::Esc, after, second),
    ensures
        after == before,
        after.pending_delete_remote is None,
        first is Nothing,
        second is Nothing,
{
}

/// In the confirmation, the key of the answer that is already chosen changes
/// nothing: `y` on Yes, `n` on No.
pub proof fn lemma_answer_again(before: App, key: Key, after: App, intent: Intent)
    requires
        before.confirm_modal is Some,
        key == Key::Char('y') && before.confirm_modal->Some_0.selected == ConfirmChoice::Yes || key
            == Key::Char('n') && before.confirm_modal->Some_0.selected == ConfirmChoice::No,
        key_step(before, key, after, intent),
    ensures
        after == before,
        intent is Nothing,
{
}

/// In the confirmation, two presses of a key that toggles the choice lead
/// back to the state before them.
pub proof fn lemma_toggle_twice(before: App, between: App, after: App, first: Intent, second: Intent)
    requires
        before.confirm_modal is Some,
        key_step(before, Key::Tab, between, first),
        key_step(between, Key::Tab, after, second),
    ensures
        after == before,
{
}

/// Submitting a form without a name asks nothing of the daemon and leaves
/// the form open, with a message and with every field as it was.
pub proof fn lemma_empty_name_rejected(before: App, after: App, intent: Intent)
    requires
        before.confirm_modal is None,
        before.create_remote_modal is Some,
        before.create_remote_modal->Some_0.name@.len() == 0,
        key_step(before, Key::Enter, after, intent),
    ensures
        intent is Nothing,
        before.same_browsing(after),
        after.create_remote_modal is Some,
        before.create_remote_modal->Some_0.same_fields(after.create_remote_modal->Some_0),
        after.create_remote_modal->Some_0.error is Some,
{
}

/// While a modal is open no key reaches the panels: the listings, the
/// selections, the focus, the remote and the path stay as they are, and the
/// session keeps running.
pub proof fn lemma_modal_takes_every_key(before: App, key: Key, after: App, intent: Intent)
    requires
        before.confirm_modal is Some || before.create_remote_modal is Some,
        key_step(before, key, after, intent),
    ensures
        before.same_browsing(after),
{
}

/// The session stops running only by the quit key, pressed while no modal is
/// open.
pub proof fn lemma_quit_only_by_key(before: App, key: Key, after: App, intent: Intent)
    requires
        before.running,
        !after.running,
        key_step(before, key, after, intent),
    ensures
        key == Key::Char('q'),
        before.confirm_modal is None,
        before.create_remote_modal is None,
{
}

/// No key changes what is listed or which remote and path are current,
/// except Backspace at the root of the files, which leaves the remote: a
/// listing enters the state only with the reply that brought it.
pub proof fn lemma_keys_list_nothing(before: App, key: Key, after: App, intent: Intent)
    requires
        before.wf(),
        key_step(before, key, after, intent),
    ensures
        after.remotes == before.remotes,
        ({
            &&& after.files == before.files
            &&& after.current_path == before.current_path
            &&& after.current_remote == before.current_remote
        }) || ({
            &&& key == Key::Backspace
            &&& before.focused_panel == Panel::Files
            &&& before.current_path@.len() == 0
            &&& after.current_remote is None
            &&& after.files@.len() == 0
        }),
{
}

/// A call that failed leaves the listings, the selections, the focus, the
/// remote and the path as they were before the transition.
pub proof fn lemma_failure_keeps_browsing(
    before: App,
    intent: Intent,
    reply: Reply,
    after: App,
    r: Result<Intent, LazyFileError>,
)
    requires
        completed(before, intent, reply, after, r),
        match reply {
            Reply::Remotes(listed) => listed is Err,
            Reply::Files(listed) => listed is Err,
            Reply::Done(done) => done is Err,
        },
    ensures
        before.same_browsing(after),
        after.confirm_modal == before.confirm_modal,
        after.pending_delete_remote == before.pending_delete_remote,
        after.create_remote_modal is Some <==> before.create_remote_modal is Some,
{
}

/// A transition makes at most two calls: a call that worked is followed by
/// nothing, or, after a deletion, a creation or an update, by one listing of
/// the remotes, which is followed by nothing.
pub proof fn lemma_calls_end(
    before: App,
    intent: Intent,
    reply: Reply,
    after: App,
    r: Result<Intent, LazyFileError>,
)
    requires
        completed(before, intent, reply, after, r),
        r is Ok,
    ensures
        r->Ok_0 is Nothing || r->Ok_0 is ListRemotes,
        r->Ok_0 is ListRemotes ==> intent is DeleteRemote || intent is CreateRemote
            || intent is UpdateRemote,
{
}

/// Entering the directory `name` from `path` leads to `path/name`, and to
/// `/name` from the root; from there the parent is `path` again, as long as
/// `name` holds no `/`.
pub proof fn lemma_parent_of_child(path: Seq<char>, name: Seq<char>)
    requires
        forall|i: int| 0 <= i < name.len() ==> name[i] != '/',
    ensures
        child_path(Seq::<char>::empty(), name) == "/"@ + name,
        parent_path(child_path(path, name)) == path,
{
    reveal_strlit("/");
    let joined = child_path(path, name);
    assert(Seq::<char>::empty() + "/"@ =~= "/"@);
    assert(joined[path.len() as int] == '/');
    assert forall|j: int| path.len() < j < joined.len() implies joined[j] != '/' by {
        assert(joined[j] == name[j - path.len() - 1]);
    }
    crate::text::lemma_last_slash_found(joined, path.len() as int);
    assert(joined.subrange(0, path.len() as int) =~= path);
}

} // verus!
