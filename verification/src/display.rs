//! What the screen shows of a session, as texts and rectangles: the part of
//! drawing that is computed before anything is drawn.

use vstd::prelude::*;
use vstd::string::*;
use crate::modal::{CreateRemoteModal, CreateRemoteMode};
use crate::text::join;
use crate::types::NavigationItem;

verus! {

/// The line of key bindings shown above the panels.
pub open spec fn help_text() -> Seq<char> {
    "j/k: Navigate | a: Add | e: Edit | d: Delete | Enter: Open | Backspace: Back | Tab: Panel | q: Quit"@
}

/// The line of key bindings shown above the panels.
pub fn help_line() -> (r: &'static str)
    ensures
        r@ == help_text(),
{
    "j/k: Navigate | a: Add | e: Edit | d: Delete | Enter: Open | Backspace: Back | Tab: Panel | q: Quit"
}

/// Where the session is: `remote:path`, or an invitation while no remote is
/// current.
pub open spec fn location(remote: Option<&str>, path: Seq<char>) -> Seq<char> {
    match remote {
        Some(r) => r@ + ":"@ + path,
        None => "Select a remote"@,
    }
}

/// The text of the status line: the location, a bar, and whether the daemon
/// is connected, with two blanks on either side.
pub open spec fn status_text(remote: Option<&str>, path: Seq<char>, connected: bool) -> Seq<char> {
    "  "@ + location(remote, path) + " | "@ + (if connected {
        "Connected"@
    } else {
        "Disconnected"@
    }) + "  "@
}

/// The text of the status line.
pub fn status_line(remote: Option<&str>, path: &str, connected: bool) -> (r: String)
    ensures
        r@ == status_text(remote, path@, connected),
{
    let mut line = "  ".to_owned();
    match remote {
        Some(r) => {
            line.append(r);
            line.append(":");
            line.append(path);
            assert(line@ == "  "@ + (r@ + ":"@ + path@));
        },
        None => {
            line.append("Select a remote");
        },
    }
    line.append(" | ");
    if connected {
        line.append("Connected");
    } else {
        line.append("Disconnected");
    }
    line.append("  ");
    line
}

/// How an entry is listed: a directory's name in square brackets, a file's
/// name as it is.
pub open spec fn label_text(item: NavigationItem) -> Seq<char> {
    if item.item().is_dir {
        "["@ + item.item().name@ + "]"@
    } else {
        item.item().name@
    }
}

/// How an entry is listed.
pub fn file_label(item: &NavigationItem) -> (r: String)
    ensures
        r@ == label_text(*item),
{
    if item.is_dir() {
        let mut label = join("[", item.name());
        label.append("]");
        label
    } else {
        item.name().to_owned()
    }
}

/// A field's value as the form shows it: a value of more than 30 characters
/// is cut to its first 27, followed by three dots.
pub open spec fn shortened(value: Seq<char>) -> Seq<char> {
    if value.len() > 30 {
        value.subrange(0, 27) + "..."@
    } else {
        value
    }
}

/// The line of a field of the form: label, colon, blank, value.
pub open spec fn field_text(label: Seq<char>, value: Seq<char>) -> Seq<char> {
    label + ": "@ + shortened(value)
}

/// The line of a field of the form.
pub fn field_line(label: &str, value: &str) -> (r: String)
    ensures
        r@ == field_text(label@, value@),
{
    let mut line = join(label, ": ");
    if value.unicode_len() > 30 {
        line.append(value.substring_char(0, 27));
        line.append("...");
        assert(line@ == label@ + ": "@ + (value@.subrange(0, 27) + "..."@));
    } else {
        line.append(value);
    }
    line
}

/// The title of the form.
pub fn form_title(mode: CreateRemoteMode) -> (r: &'static str)
    ensures
        r@ == match mode {
            CreateRemoteMode::Create => " Create Remote "@,
            CreateRemoteMode::Edit => " Edit Remote "@,
        },
{
    match mode {
        CreateRemoteMode::Create => " Create Remote ",
        CreateRemoteMode::Edit => " Edit Remote ",
    }
}

/// The last line of the form: its message, or the key bindings where it has
/// none.
pub fn form_footer(form: &CreateRemoteModal) -> (r: String)
    ensures
        r@ == match form.error {
            Some(message) => message@,
            None => "Tab: Next | Enter: Save | Esc: Cancel"@,
        },
{
    match &form.error {
        Some(message) => message.clone(),
        None => "Tab: Next | Enter: Save | Esc: Cancel".to_owned(),
    }
}

/// A rectangle of the screen, in cells: the left upper corner and the size.
#[derive(Debug, Clone, Copy, PartialEq, Eq, Structural)]
pub struct Area {
    pub x: u16,
    pub y: u16,
    pub width: u16,
    pub height: u16,
}

impl Area {
    /// The rectangle lies within the coordinates that a screen can have.
    pub open spec fn on_screen(self) -> bool {
        self.x + self.width <= u16::MAX && self.y + self.height <= u16::MAX
    }
}

/// `a` less `b`, and 0 where `b` is the larger.
pub open spec fn less(a: int, b: int) -> int {
    if a >= b {
        a - b
    } else {
        0
    }
}

/// The rectangle of a modal over `area`: `height` cells high, as wide as
/// `max_width` or as `area` less two cells on either side allows, and
/// centred in `area`. Where `area` is lower than `height`, it starts at the
/// top of `area`.
pub fn modal_area(area: Area, max_width: u16, height: u16) -> (r: Area)
    requires
        area.on_screen(),
    ensures
        r.width == if max_width <= less(area.width as int, 4) {
            max_width as int
        } else {
            less(area.width as int, 4)
        },
        r.height == height,
        r.x == area.x + (area.width - r.width) / 2,
        r.y == area.y + less(area.height as int, height as int) / 2,
        r.x - area.x <= area.x + area.width - (r.x + r.width) <= r.x - area.x + 1,
{
    let room = if area.width >= 4 {
        area.width - 4
    } else {
        0
    };
    let width = if max_width <= room {
        max_width
    } else {
        room
    };
    let over = if area.height >= height {
        area.height - height
    } else {
        0
    };
    Area { x: (area.width - width) / 2 + area.x, y: over / 2 + area.y, width, height }
}

/// The rectangle inside the border of `area`: one cell in from every side.
pub fn inset(area: Area) -> (r: Area)
    requires
        area.x < u16::MAX,
        area.y < u16::MAX,
    ensures
        r.x == area.x + 1,
        r.y == area.y + 1,
        r.width == less(area.width as int, 2),
        r.height == less(area.height as int, 2),
{
    Area {
        x: area.x + 1,
        y: area.y + 1,
        width: if area.width >= 2 {
            area.width - 2
        } else {
            0
        },
        height: if area.height >= 2 {
            area.height - 2
        } else {
            0
        },
    }
}

} // verus!
