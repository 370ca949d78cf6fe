use lazyfile::display::{
    field_line, file_label, form_footer, form_title, help_line, inset, modal_area, status_line,
    Area,
};
use lazyfile::modal::{CreateRemoteModal, CreateRemoteMode};
use lazyfile::types::{FileItem, NavigationItem};

fn entry(name: &str, is_dir: bool) -> NavigationItem {
    NavigationItem::File(FileItem {
        name: name.to_string(),
        size: 0,
        mod_time: "".to_string(),
        is_dir,
    })
}

#[test]
fn status_line_shows_remote_path_and_connection() {
    assert_eq!(status_line(Some("gdrive"), "/docs", true), "  gdrive:/docs | Connected  ");
    assert_eq!(status_line(Some("gdrive"), "", true), "  gdrive: | Connected  ");
    assert_eq!(status_line(None, "", true), "  Select a remote | Connected  ");
    assert_eq!(status_line(None, "/x", false), "  Select a remote | Disconnected  ");
}

#[test]
fn file_label_brackets_directories() {
    assert_eq!(file_label(&entry("docs", true)), "[docs]");
    assert_eq!(file_label(&entry("a.txt", false)), "a.txt");
    assert_eq!(file_label(&entry("", true)), "[]");
}

#[test]
fn field_line_cuts_long_values() {
    assert_eq!(field_line("Name", "mine"), "Name: mine");
    assert_eq!(field_line("Path", ""), "Path: ");
    let thirty = "012345678901234567890123456789";
    assert_eq!(field_line("Path", thirty), format!("Path: {}", thirty));
    let longer = "0123456789012345678901234567890";
    assert_eq!(field_line("Path", longer), "Path: 012345678901234567890123456...");
}

#[test]
fn form_texts() {
    assert_eq!(form_title(CreateRemoteMode::Create), " Create Remote ");
    assert_eq!(form_title(CreateRemoteMode::Edit), " Edit Remote ");
    let mut form = CreateRemoteModal::new(CreateRemoteMode::Create);
    assert_eq!(form_footer(&form), "Tab: Next | Enter: Save | Esc: Cancel");
    form.error = Some("Name and Type are required".to_string());
    assert_eq!(form_footer(&form), "Name and Type are required");
    assert!(help_line().starts_with("j/k: Navigate"));
    assert!(help_line().ends_with("q: Quit"));
}

#[test]
fn modal_area_is_centred() {
    let screen = Area { x: 0, y: 0, width: 80, height: 24 };
    assert_eq!(modal_area(screen, 45, 9), Area { x: 17, y: 7, width: 45, height: 9 });
    assert_eq!(modal_area(screen, 50, 13), Area { x: 15, y: 5, width: 50, height: 13 });
    let shifted = Area { x: 10, y: 5, width: 81, height: 30 };
    assert_eq!(modal_area(shifted, 50, 13), Area { x: 25, y: 13, width: 50, height: 13 });
}

#[test]
fn modal_area_in_a_small_area() {
    let narrow = Area { x: 0, y: 0, width: 20, height: 5 };
    assert_eq!(modal_area(narrow, 45, 9), Area { x: 2, y: 0, width: 16, height: 9 });
    let tiny = Area { x: 3, y: 4, width: 3, height: 0 };
    assert_eq!(modal_area(tiny, 45, 9), Area { x: 4, y: 4, width: 0, height: 9 });
}

#[test]
fn inset_moves_one_cell_in() {
    let area = Area { x: 17, y: 7, width: 45, height: 9 };
    assert_eq!(inset(area), Area { x: 18, y: 8, width: 43, height: 7 });
    let thin = Area { x: 0, y: 0, width: 1, height: 2 };
    assert_eq!(inset(thin), Area { x: 1, y: 1, width: 0, height: 0 });
}
