use lazyfile::client::{HttpOutcome, RcloneClient, RequestBody};
use lazyfile::error::LazyFileError;
use lazyfile::handler::{Handler, Intent, Key, Reply};
use lazyfile::modal::{ConfirmChoice, ConfirmModal, CreateRemoteMode, RemoteField};
use lazyfile::state::{App, Panel};
use lazyfile::types::{FileItem, ListFilesResponse, NavigationItem};

fn session() -> App {
    let mut app = App::new(RcloneClient::new("localhost", 5572));
    app.remotes = vec!["gdrive".to_string(), "s3".to_string()];
    app
}

fn entry(name: &str, is_dir: bool) -> NavigationItem {
    NavigationItem::File(file(name, is_dir))
}

fn file(name: &str, is_dir: bool) -> FileItem {
    FileItem { name: name.to_string(), size: 0, mod_time: "".to_string(), is_dir }
}

fn browsing(path: &str, files: Vec<NavigationItem>) -> App {
    let mut app = session();
    app.current_remote = Some("gdrive".to_string());
    app.current_path = path.to_string();
    app.files = files;
    app.focused_panel = Panel::Files;
    app
}

fn press(app: &mut App, keys: &[Key]) {
    for key in keys {
        let intent = Handler::handle_key(app, *key);
        assert!(matches!(intent, Intent::Nothing));
    }
}

fn type_text(app: &mut App, text: &str) {
    for c in text.chars() {
        let intent = Handler::handle_key(app, Key::Char(c));
        assert!(matches!(intent, Intent::Nothing));
    }
}

#[test]
fn down_stops_at_the_last_remote() {
    let mut app = session();
    assert_eq!(app.remotes_selected, 0);
    press(&mut app, &[Key::Down]);
    assert_eq!(app.remotes_selected, 1);
    press(&mut app, &[Key::Down]);
    assert_eq!(app.remotes_selected, 1);
    press(&mut app, &[Key::Char('k')]);
    assert_eq!(app.remotes_selected, 0);
    press(&mut app, &[Key::Up]);
    assert_eq!(app.remotes_selected, 0);
    press(&mut app, &[Key::Char('j')]);
    assert_eq!(app.remotes_selected, 1);
}

#[test]
fn backspace_below_the_root_asks_for_the_parent() {
    let mut app = browsing("/a/b", vec![entry("x", false)]);
    let intent = Handler::handle_key(&mut app, Key::Backspace);
    match &intent {
        Intent::OpenPath { remote, path } => {
            assert_eq!(remote, "gdrive");
            assert_eq!(path, "/a");
        }
        _ => panic!("the parent's listing is asked for"),
    }
    let request = Handler::request(&app, &intent).unwrap();
    assert_eq!(request.url, "http://localhost:5572/operations/list");
    match request.body {
        RequestBody::ListFiles { fs, remote } => {
            assert_eq!(fs, "gdrive:/a");
            assert_eq!(remote, "");
        }
        _ => panic!("a listing carries the file system"),
    }
    let next = Handler::complete(&mut app, intent, Reply::Files(Ok(vec![file("b", true)])));
    assert!(matches!(next, Ok(Intent::Nothing)));
    assert_eq!(app.current_path, "/a");
    assert_eq!(app.files.len(), 1);
    assert_eq!(app.files[0].name(), "b");
    assert_eq!(app.files_selected, 0);
    assert_eq!(app.focused_panel, Panel::Files);
}

#[test]
fn backspace_at_the_root_leaves_the_remote() {
    let mut app = browsing("", vec![entry("x", false), entry("y", true)]);
    let intent = Handler::handle_key(&mut app, Key::Backspace);
    assert!(matches!(intent, Intent::Nothing));
    assert!(app.current_remote.is_none());
    assert!(app.files.is_empty());
    assert_eq!(app.focused_panel, Panel::Remotes);
    assert_eq!(app.current_path, "");
}

#[test]
fn backspace_on_the_remotes_does_nothing() {
    let mut app = session();
    app.current_remote = Some("gdrive".to_string());
    app.current_path = "/a".to_string();
    let intent = Handler::handle_key(&mut app, Key::Backspace);
    assert!(matches!(intent, Intent::Nothing));
    assert_eq!(app.current_path, "/a");
    assert_eq!(app.current_remote.as_deref(), Some("gdrive"));
    assert_eq!(app.focused_panel, Panel::Remotes);
}

#[test]
fn enter_on_no_closes_the_confirmation_without_a_call() {
    let mut app = session();
    app.confirm_modal = Some(ConfirmModal::new("Delete Remote", "Delete 'myremote'?"));
    app.pending_delete_remote = Some("myremote".to_string());
    let intent = Handler::handle_key(&mut app, Key::Enter);
    assert!(matches!(intent, Intent::Nothing));
    assert!(Handler::request(&app, &intent).is_none());
    assert!(app.confirm_modal.is_none());
    assert!(app.pending_delete_remote.is_none());
}

#[test]
fn entering_directories_extends_the_path() {
    let mut app = browsing("", vec![entry("readme", false), entry("docs", true)]);
    app.files_selected = 1;
    let intent = Handler::handle_key(&mut app, Key::Enter);
    match &intent {
        Intent::OpenPath { remote, path } => {
            assert_eq!(remote, "gdrive");
            assert_eq!(path, "/docs");
        }
        _ => panic!("the directory's listing is asked for"),
    }
    assert_eq!(app.current_path, "");
    let next = Handler::complete(&mut app, intent, Reply::Files(Ok(vec![file("reports", true)])));
    assert!(matches!(next, Ok(Intent::Nothing)));
    assert_eq!(app.current_path, "/docs");
    assert_eq!(app.files_selected, 0);

    let intent = Handler::handle_key(&mut app, Key::Enter);
    match &intent {
        Intent::OpenPath { path, .. } => assert_eq!(path, "/docs/reports"),
        _ => panic!("the directory's listing is asked for"),
    }
    let next = Handler::complete(&mut app, intent, Reply::Files(Ok(Vec::new())));
    assert!(matches!(next, Ok(Intent::Nothing)));
    assert_eq!(app.current_path, "/docs/reports");
    assert!(app.files.is_empty());
}

#[test]
fn enter_on_a_file_does_nothing() {
    let mut app = browsing("/a", vec![entry("readme", false), entry("docs", true)]);
    let intent = Handler::handle_key(&mut app, Key::Enter);
    assert!(matches!(intent, Intent::Nothing));
    assert_eq!(app.current_path, "/a");
    assert_eq!(app.files.len(), 2);
    let mut empty = browsing("/a", Vec::new());
    assert!(matches!(Handler::handle_key(&mut empty, Key::Enter), Intent::Nothing));
}

#[test]
fn enter_on_a_remote_opens_it_when_the_listing_comes() {
    let mut app = session();
    app.remotes_selected = 1;
    app.current_path = "/stale".to_string();
    let intent = Handler::handle_key(&mut app, Key::Enter);
    match &intent {
        Intent::OpenRemote { remote } => assert_eq!(remote, "s3"),
        _ => panic!("the remote's root is asked for"),
    }
    assert!(app.current_remote.is_none());
    assert_eq!(app.focused_panel, Panel::Remotes);
    let request = Handler::request(&app, &intent).unwrap();
    match request.body {
        RequestBody::ListFiles { fs, .. } => assert_eq!(fs, "s3:"),
        _ => panic!("a listing carries the file system"),
    }
    let next = Handler::complete(
        &mut app,
        intent,
        Reply::Files(Ok(vec![file("a", false), file("b", true)])),
    );
    assert!(matches!(next, Ok(Intent::Nothing)));
    assert_eq!(app.current_remote.as_deref(), Some("s3"));
    assert_eq!(app.current_path, "");
    assert_eq!(app.files.len(), 2);
    assert_eq!(app.files[1].name(), "b");
    assert_eq!(app.files_selected, 0);
    assert_eq!(app.focused_panel, Panel::Files);
    assert_eq!(app.remotes_selected, 1);
}

#[test]
fn a_failed_listing_leaves_the_state_as_it_was() {
    let mut app = session();
    let intent = Handler::handle_key(&mut app, Key::Enter);
    let r = Handler::complete(
        &mut app,
        intent,
        Reply::Files(Err(LazyFileError::Http("connection refused".to_string()))),
    );
    match r {
        Err(LazyFileError::Http(m)) => assert_eq!(m, "connection refused"),
        _ => panic!("the failure is handed on"),
    }
    assert!(app.current_remote.is_none());
    assert_eq!(app.focused_panel, Panel::Remotes);
    assert!(app.running);

    let mut app = browsing("/a", vec![entry("docs", true), entry("x", false)]);
    app.files_selected = 0;
    let intent = Handler::handle_key(&mut app, Key::Enter);
    let r = Handler::complete(
        &mut app,
        intent,
        Reply::Files(Err(LazyFileError::RcloneApi("Failed to list files: 500".to_string()))),
    );
    assert!(r.is_err());
    assert_eq!(app.current_path, "/a");
    assert_eq!(app.files.len(), 2);
    assert_eq!(app.files[0].name(), "docs");
    assert_eq!(app.current_remote.as_deref(), Some("gdrive"));
}

#[test]
fn quit_stops_the_session() {
    let mut app = session();
    press(&mut app, &[Key::Char('q')]);
    assert!(!app.running);
}

#[test]
fn tab_switches_the_panel_and_back() {
    let mut app = session();
    press(&mut app, &[Key::Tab]);
    assert_eq!(app.focused_panel, Panel::Files);
    press(&mut app, &[Key::Tab]);
    assert_eq!(app.focused_panel, Panel::Remotes);
}

#[test]
fn other_keys_do_nothing_while_browsing() {
    let mut app = session();
    press(&mut app, &[Key::Other, Key::Esc, Key::Left, Key::Right, Key::BackTab, Key::Char('z')]);
    assert_eq!(app.remotes_selected, 0);
    assert_eq!(app.focused_panel, Panel::Remotes);
    assert!(app.running);
    assert!(app.create_remote_modal.is_none());
    assert!(app.confirm_modal.is_none());
}

#[test]
fn modal_keys_need_the_remotes_panel() {
    let mut app = session();
    app.focused_panel = Panel::Files;
    press(&mut app, &[Key::Char('a'), Key::Char('d'), Key::Char('e')]);
    assert!(app.create_remote_modal.is_none());
    assert!(app.confirm_modal.is_none());
    assert!(app.pending_delete_remote.is_none());
}

#[test]
fn create_key_opens_a_blank_form() {
    let mut app = session();
    press(&mut app, &[Key::Char('a')]);
    let form = app.create_remote_modal.as_ref().unwrap();
    assert_eq!(form.mode, CreateRemoteMode::Create);
    assert_eq!(form.name, "");
    assert_eq!(form.remote_type, "local");
    assert_eq!(form.path, "");
    assert_eq!(form.focus_field, RemoteField::Name);
    assert!(form.error.is_none());
}

#[test]
fn edit_key_opens_the_form_for_the_selected_remote() {
    let mut app = session();
    app.remotes_selected = 1;
    press(&mut app, &[Key::Char('e')]);
    let form = app.create_remote_modal.as_ref().unwrap();
    assert_eq!(form.mode, CreateRemoteMode::Edit);
    assert_eq!(form.name, "s3");
    assert_eq!(form.remote_type, "local");
    assert_eq!(form.path, "");
    assert!(form.error.is_none());
}

#[test]
fn edit_and_delete_keys_need_a_remote() {
    let mut app = App::new(RcloneClient::new("localhost", 5572));
    press(&mut app, &[Key::Char('e'), Key::Char('d')]);
    assert!(app.create_remote_modal.is_none());
    assert!(app.confirm_modal.is_none());
    assert!(app.pending_delete_remote.is_none());
}

#[test]
fn delete_key_asks_for_confirmation_on_no() {
    let mut app = session();
    press(&mut app, &[Key::Char('d')]);
    let modal = app.confirm_modal.as_ref().unwrap();
    assert_eq!(modal.title, "Delete Remote");
    assert_eq!(modal.message, "Delete 'gdrive'?");
    assert_eq!(modal.selected, ConfirmChoice::No);
    assert_eq!(app.pending_delete_remote.as_deref(), Some("gdrive"));
}

#[test]
fn escape_after_opening_restores_the_state() {
    for key in [Key::Char('a'), Key::Char('d'), Key::Char('e')] {
        let mut app = session();
        app.remotes_selected = 1;
        press(&mut app, &[key]);
        assert!(app.confirm_modal.is_some() || app.create_remote_modal.is_some());
        press(&mut app, &[Key::Esc]);
        assert!(app.confirm_modal.is_none());
        assert!(app.create_remote_modal.is_none());
        assert!(app.pending_delete_remote.is_none());
        assert_eq!(app.remotes, vec!["gdrive".to_string(), "s3".to_string()]);
        assert_eq!(app.remotes_selected, 1);
        assert_eq!(app.focused_panel, Panel::Remotes);
        assert!(app.running);
    }
}

#[test]
fn confirmation_keys_move_the_choice() {
    let mut app = session();
    press(&mut app, &[Key::Char('d')]);
    let choice = |app: &App| app.confirm_modal.as_ref().unwrap().selected;
    press(&mut app, &[Key::Tab]);
    assert_eq!(choice(&app), ConfirmChoice::Yes);
    press(&mut app, &[Key::Left]);
    assert_eq!(choice(&app), ConfirmChoice::No);
    press(&mut app, &[Key::Right]);
    assert_eq!(choice(&app), ConfirmChoice::Yes);
    press(&mut app, &[Key::Char('y')]);
    assert_eq!(choice(&app), ConfirmChoice::Yes);
    press(&mut app, &[Key::Char('n')]);
    assert_eq!(choice(&app), ConfirmChoice::No);
    press(&mut app, &[Key::Char('n')]);
    assert_eq!(choice(&app), ConfirmChoice::No);
    press(&mut app, &[Key::Char('y')]);
    assert_eq!(choice(&app), ConfirmChoice::Yes);
    assert_eq!(app.confirm_modal.as_ref().unwrap().message, "Delete 'gdrive'?");
    assert_eq!(app.pending_delete_remote.as_deref(), Some("gdrive"));
}

#[test]
fn an_open_modal_takes_the_panel_keys() {
    let mut app = session();
    press(&mut app, &[Key::Char('d')]);
    press(&mut app, &[Key::Char('q'), Key::Down, Key::Char('j'), Key::Backspace, Key::Char('a')]);
    assert!(app.running);
    assert_eq!(app.remotes_selected, 0);
    assert_eq!(app.focused_panel, Panel::Remotes);
    assert!(app.create_remote_modal.is_none());
    assert!(app.confirm_modal.is_some());

    let mut app = session();
    press(&mut app, &[Key::Char('a'), Key::Char('q'), Key::Char('j'), Key::Down, Key::Up]);
    assert!(app.running);
    assert_eq!(app.remotes_selected, 0);
    assert_eq!(app.create_remote_modal.as_ref().unwrap().name, "qj");
}

#[test]
fn confirmed_deletion_deletes_and_refreshes() {
    let mut app = session();
    app.remotes_selected = 1;
    press(&mut app, &[Key::Char('d'), Key::Char('y')]);
    let intent = Handler::handle_key(&mut app, Key::Enter);
    match &intent {
        Intent::DeleteRemote { name } => assert_eq!(name, "s3"),
        _ => panic!("the deletion is asked for"),
    }
    assert!(app.confirm_modal.is_none());
    assert!(app.pending_delete_remote.is_none());
    let request = Handler::request(&app, &intent).unwrap();
    assert_eq!(request.url, "http://localhost:5572/config/delete");
    match request.body {
        RequestBody::Delete(body) => assert_eq!(body.name, "s3"),
        _ => panic!("a deletion carries the name"),
    }
    let outcome = HttpOutcome::Response { code: 200, status: "200 OK".to_string(), body: "{}".to_string() };
    let reply = Handler::interpret(&app, &intent, outcome, None);
    let next = Handler::complete(&mut app, intent, reply).unwrap();
    assert!(matches!(next, Intent::ListRemotes));
    let request = Handler::request(&app, &next).unwrap();
    assert_eq!(request.url, "http://localhost:5572/config/listremotes");
    let outcome = HttpOutcome::Response {
        code: 200,
        status: "200 OK".to_string(),
        body: "{\"remotes\":[\"gdrive\"]}".to_string(),
    };
    let reply = Handler::interpret(&app, &next, outcome, None);
    let last = Handler::complete(&mut app, next, reply).unwrap();
    assert!(matches!(last, Intent::Nothing));
    assert_eq!(app.remotes, vec!["gdrive".to_string()]);
    assert_eq!(app.remotes_selected, 0);
}

#[test]
fn a_failed_deletion_is_handed_on_with_the_modal_closed() {
    let mut app = session();
    press(&mut app, &[Key::Char('d'), Key::Tab]);
    let intent = Handler::handle_key(&mut app, Key::Enter);
    let outcome = HttpOutcome::Response {
        code: 500,
        status: "500 Internal Server Error".to_string(),
        body: "in use".to_string(),
    };
    let reply = Handler::interpret(&app, &intent, outcome, None);
    match Handler::complete(&mut app, intent, reply) {
        Err(LazyFileError::RcloneApi(m)) => assert_eq!(m, "Failed to delete remote: in use"),
        _ => panic!("the failure is handed on"),
    }
    assert!(app.confirm_modal.is_none());
    assert!(app.pending_delete_remote.is_none());
    assert_eq!(app.remotes, vec!["gdrive".to_string(), "s3".to_string()]);
    assert!(app.running);
}

#[test]
fn form_keys_edit_the_focused_field() {
    let mut app = session();
    press(&mut app, &[Key::Char('a')]);
    type_text(&mut app, "mine");
    press(&mut app, &[Key::Backspace, Key::Tab, Key::Backspace, Key::Tab]);
    type_text(&mut app, "/d");
    press(&mut app, &[Key::BackTab, Key::BackTab, Key::BackTab]);
    let form = app.create_remote_modal.as_ref().unwrap();
    assert_eq!(form.name, "min");
    assert_eq!(form.remote_type, "loca");
    assert_eq!(form.path, "/d");
    assert_eq!(form.focus_field, RemoteField::Path);
}

#[test]
fn submitting_without_a_name_is_refused_in_the_form() {
    let mut app = session();
    press(&mut app, &[Key::Char('a'), Key::Tab, Key::Tab]);
    type_text(&mut app, "/data");
    let intent = Handler::handle_key(&mut app, Key::Enter);
    assert!(matches!(intent, Intent::Nothing));
    assert!(Handler::request(&app, &intent).is_none());
    let form = app.create_remote_modal.as_ref().unwrap();
    assert_eq!(form.error.as_deref(), Some("Name and Type are required"));
    assert_eq!(form.name, "");
    assert_eq!(form.remote_type, "local");
    assert_eq!(form.path, "/data");
    assert_eq!(form.focus_field, RemoteField::Path);
    assert_eq!(form.mode, CreateRemoteMode::Create);
}

#[test]
fn submitting_without_a_type_is_refused_in_the_form() {
    let mut app = session();
    press(&mut app, &[Key::Char('a')]);
    type_text(&mut app, "mine");
    press(&mut app, &[Key::Tab]);
    for _ in 0..5 {
        press(&mut app, &[Key::Backspace]);
    }
    let intent = Handler::handle_key(&mut app, Key::Enter);
    assert!(matches!(intent, Intent::Nothing));
    let form = app.create_remote_modal.as_ref().unwrap();
    assert_eq!(form.error.as_deref(), Some("Name and Type are required"));
    assert_eq!(form.name, "mine");
    assert_eq!(form.remote_type, "");
}

#[test]
fn typing_clears_the_message() {
    let mut app = session();
    press(&mut app, &[Key::Char('a'), Key::Enter]);
    assert!(app.create_remote_modal.as_ref().unwrap().error.is_some());
    press(&mut app, &[Key::Char('x')]);
    assert!(app.create_remote_modal.as_ref().unwrap().error.is_none());
    press(&mut app, &[Key::Backspace, Key::Enter]);
    assert!(app.create_remote_modal.as_ref().unwrap().error.is_some());
    press(&mut app, &[Key::Backspace]);
    assert!(app.create_remote_modal.as_ref().unwrap().error.is_none());
}

#[test]
fn a_complete_form_creates_the_remote_and_refreshes() {
    let mut app = session();
    press(&mut app, &[Key::Char('a')]);
    type_text(&mut app, "mine");
    press(&mut app, &[Key::Tab, Key::Tab]);
    type_text(&mut app, "/data");
    let intent = Handler::handle_key(&mut app, Key::Enter);
    match &intent {
        Intent::CreateRemote { name, remote_type, parameters } => {
            assert_eq!(name, "mine");
            assert_eq!(remote_type, "local");
            assert_eq!(parameters.get("path").unwrap(), "/data");
            assert_eq!(parameters.entries.len(), 1);
        }
        _ => panic!("the creation is asked for"),
    }
    assert!(app.create_remote_modal.is_some());
    let request = Handler::request(&app, &intent).unwrap();
    assert_eq!(request.url, "http://localhost:5572/config/create");
    match request.body {
        RequestBody::Create(body) => {
            assert_eq!(body.name, "mine");
            assert_eq!(body.remote_type, "local");
            assert_eq!(body.parameters.get("path").unwrap(), "/data");
        }
        _ => panic!("a creation carries the request"),
    }
    let next = Handler::complete(&mut app, intent, Reply::Done(Ok(()))).unwrap();
    assert!(matches!(next, Intent::ListRemotes));
    assert!(app.create_remote_modal.is_none());
    let listed = vec!["gdrive".to_string(), "mine".to_string(), "s3".to_string()];
    let last = Handler::complete(&mut app, next, Reply::Remotes(Ok(listed.clone()))).unwrap();
    assert!(matches!(last, Intent::Nothing));
    assert_eq!(app.remotes, listed);
}

#[test]
fn a_form_without_path_submits_no_parameters() {
    let mut app = session();
    press(&mut app, &[Key::Char('e')]);
    let intent = Handler::handle_key(&mut app, Key::Enter);
    match &intent {
        Intent::UpdateRemote { name, parameters } => {
            assert_eq!(name, "gdrive");
            assert!(parameters.is_empty());
        }
        _ => panic!("the update is asked for"),
    }
    let request = Handler::request(&app, &intent).unwrap();
    assert_eq!(request.url, "http://localhost:5572/config/update");
    match request.body {
        RequestBody::Update(body) => {
            assert_eq!(body.name, "gdrive");
            assert!(body.parameters.is_empty());
        }
        _ => panic!("an update carries the request"),
    }
}

#[test]
fn a_failed_submission_is_shown_in_the_form() {
    let mut app = session();
    press(&mut app, &[Key::Char('a')]);
    type_text(&mut app, "mine");
    press(&mut app, &[Key::Tab]);
    let intent = Handler::handle_key(&mut app, Key::Enter);
    let outcome = HttpOutcome::Response {
        code: 500,
        status: "500 Internal Server Error".to_string(),
        body: "boom".to_string(),
    };
    let reply = Handler::interpret(&app, &intent, outcome, None);
    let next = Handler::complete(&mut app, intent, reply).unwrap();
    assert!(matches!(next, Intent::Nothing));
    let form = app.create_remote_modal.as_ref().unwrap();
    assert_eq!(
        form.error.as_deref(),
        Some("Error: Rclone API error: Failed to create remote: boom")
    );
    assert_eq!(form.name, "mine");
    assert_eq!(form.remote_type, "local");
    assert_eq!(form.path, "");
    assert_eq!(form.focus_field, RemoteField::Type);
    assert_eq!(app.remotes, vec!["gdrive".to_string(), "s3".to_string()]);
}

#[test]
fn a_failed_refresh_changes_nothing() {
    let mut app = session();
    app.remotes_selected = 1;
    let r = Handler::complete(
        &mut app,
        Intent::ListRemotes,
        Reply::Remotes(Err(LazyFileError::Http("down".to_string()))),
    );
    assert!(matches!(r, Err(LazyFileError::Http(_))));
    assert_eq!(app.remotes, vec!["gdrive".to_string(), "s3".to_string()]);
    assert_eq!(app.remotes_selected, 1);
}

#[test]
fn a_reply_of_the_wrong_kind_is_refused() {
    let mut app = session();
    let r = Handler::complete(&mut app, Intent::ListRemotes, Reply::Done(Ok(())));
    match r {
        Err(LazyFileError::Other(m)) => assert_eq!(m, "Reply does not answer the request"),
        _ => panic!("a reply of the wrong kind is an error"),
    }
    let r = Handler::complete(
        &mut app,
        Intent::OpenRemote { remote: "s3".to_string() },
        Reply::Remotes(Ok(Vec::new())),
    );
    assert!(matches!(r, Err(LazyFileError::Other(_))));
    assert!(app.current_remote.is_none());
    assert_eq!(app.remotes.len(), 2);
    let r = Handler::complete(
        &mut app,
        Intent::DeleteRemote { name: "s3".to_string() },
        Reply::Files(Ok(Vec::new())),
    );
    assert!(matches!(r, Err(LazyFileError::Other(_))));
}

#[test]
fn a_listing_brings_its_remote_and_path() {
    let mut app = session();
    let intent = Intent::OpenPath { remote: "s3".to_string(), path: "/x".to_string() };
    let next = Handler::complete(&mut app, intent, Reply::Files(Ok(vec![file("y", false)])));
    assert!(matches!(next, Ok(Intent::Nothing)));
    assert_eq!(app.current_remote.as_deref(), Some("s3"));
    assert_eq!(app.current_path, "/x");
    assert_eq!(app.files.len(), 1);
    assert_eq!(app.focused_panel, Panel::Remotes);
}

#[test]
fn nothing_asks_nothing() {
    let mut app = session();
    assert!(Handler::request(&app, &Intent::Nothing).is_none());
    let reply = Handler::interpret(&app, &Intent::Nothing, HttpOutcome::Failed("x".to_string()), None);
    assert!(matches!(reply, Reply::Done(Ok(()))));
    let r = Handler::complete(&mut app, Intent::Nothing, Reply::Done(Ok(())));
    assert!(matches!(r, Ok(Intent::Nothing)));
}

#[test]
fn interpret_reads_a_file_listing() {
    let app = browsing("/a", Vec::new());
    let intent = Intent::OpenPath { remote: "gdrive".to_string(), path: "/a/b".to_string() };
    let outcome = HttpOutcome::Response {
        code: 200,
        status: "200 OK".to_string(),
        body: "{\"list\":[{\"Name\":\"x\",\"Size\":1,\"ModTime\":\"t\",\"IsDir\":false}]}".to_string(),
    };
    let decoded = Some(ListFilesResponse { list: Some(vec![file("x", false)]) });
    match Handler::interpret(&app, &intent, outcome, decoded) {
        Reply::Files(Ok(items)) => {
            assert_eq!(items.len(), 1);
            assert_eq!(items[0].name, "x");
        }
        _ => panic!("a listing is read as files"),
    }
    let outcome = HttpOutcome::Response {
        code: 200,
        status: "200 OK".to_string(),
        body: "<html>".to_string(),
    };
    match Handler::interpret(&app, &intent, outcome, None) {
        Reply::Files(Err(LazyFileError::Json(_))) => {}
        _ => panic!("a body that is no JSON is a JSON error"),
    }
}

#[test]
fn without_a_remote_the_path_moves_unlisted() {
    let mut app = session();
    app.focused_panel = Panel::Files;
    app.current_path = "/a/b".to_string();
    app.files = vec![entry("x", false), entry("docs", true)];
    app.files_selected = 1;
    let intent = Handler::handle_key(&mut app, Key::Backspace);
    assert!(matches!(intent, Intent::Nothing));
    assert_eq!(app.current_path, "/a");
    assert_eq!(app.files_selected, 0);
    assert_eq!(app.files.len(), 2);
    app.files_selected = 1;
    let intent = Handler::handle_key(&mut app, Key::Enter);
    assert!(matches!(intent, Intent::Nothing));
    assert_eq!(app.current_path, "/a/docs");
    assert_eq!(app.files_selected, 0);
}
