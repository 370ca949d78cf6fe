//! The two blocking overlays: the confirmation of a deletion, and the form
//! that creates or edits a remote.

use vstd::prelude::*;

verus! {

/// The answer that a confirmation currently shows as chosen.
#[derive(Debug, Clone, Copy, PartialEq, Eq, Structural)]
pub enum ConfirmChoice {
    Yes,
    No,
}

impl ConfirmChoice {
    /// The other answer.
    pub open spec fn toggled(self) -> ConfirmChoice {
        match self {
            ConfirmChoice::Yes => ConfirmChoice::No,
            ConfirmChoice::No => ConfirmChoice::Yes,
        }
    }
}

/// A question with the answers Yes and No.
#[derive(Debug, Clone)]
pub struct ConfirmModal {
    pub title: String,
    pub message: String,
    pub selected: ConfirmChoice,
}

impl ConfirmModal {
    /// The confirmation with the choice at the other answer.
    pub open spec fn toggled(self) -> ConfirmModal {
        ConfirmModal { selected: self.selected.toggled(), ..self }
    }

    /// A confirmation with the given title and message. It starts on No, so
    /// that nothing is destroyed without an explicit step to Yes.
    pub fn new(title: &str, message: &str) -> (r: Self)
        ensures
            r.title@ == title@,
            r.message@ == message@,
            r.selected == ConfirmChoice::No,
    {
        ConfirmModal {
            title: title.to_owned(),
            message: message.to_owned(),
            selected: ConfirmChoice::No,
        }
    }

    /// Moves the choice to the other answer.
    pub fn toggle(&mut self)
        ensures
            *final(self) == old(self).toggled(),
    {
        self.selected = match self.selected {
            ConfirmChoice::Yes => ConfirmChoice::No,
            ConfirmChoice::No => ConfirmChoice::Yes,
        };
    }

    /// Whether Yes is chosen.
    pub fn is_confirmed(&self) -> (r: bool)
        ensures
            r == (self.selected == ConfirmChoice::Yes),
    {
        match self.selected {
            ConfirmChoice::Yes => true,
            ConfirmChoice::No => false,
        }
    }
}

/// Toggling twice gives back what was there: the choice, and the
/// confirmation as a whole.
pub proof fn lemma_toggle_involutive(modal: ConfirmModal)
    ensures
        modal.selected.toggled().toggled() == modal.selected,
        modal.toggled().toggled() == modal,
{
}

/// What the form is for.
#[derive(Debug, Clone, Copy, PartialEq, Eq, Structural)]
pub enum CreateRemoteMode {
    /// Creating a new remote
    Create,
    /// Editing an existing remote
    Edit,
}

/// The field of the form that takes the input.
#[derive(Debug, Clone, Copy, PartialEq, Eq, Structural)]
pub enum RemoteField {
    Name,
    Type,
    Path,
}

impl RemoteField {
    /// The field after this one in the cycle Name, Type, Path, Name.
    pub open spec fn next(self) -> RemoteField {
        match self {
            RemoteField::Name => RemoteField::Type,
            RemoteField::Type => RemoteField::Path,
            RemoteField::Path => RemoteField::Name,
        }
    }

    /// The field before this one in the cycle Name, Type, Path, Name.
    pub open spec fn prev(self) -> RemoteField {
        match self {
            RemoteField::Name => RemoteField::Path,
            RemoteField::Type => RemoteField::Name,
            RemoteField::Path => RemoteField::Type,
        }
    }
}

/// Three steps forward through the fields lead back to the start.
pub proof fn lemma_next_field_cycle(field: RemoteField)
    ensures
        field.next().next().next() == field,
{
}

/// A step back undoes a step forward, and a step forward a step back.
pub proof fn lemma_prev_inverts_next(field: RemoteField)
    ensures
        field.next().prev() == field,
        field.prev().next() == field,
{
}

/// In the form, three steps forward lead back to the form as it was, and a
/// step back undoes a step forward, and a step forward a step back.
pub proof fn lemma_focus_cycle(form: CreateRemoteModal)
    ensures
        form.focus_next().focus_next().focus_next() == form,
        form.focus_next().focus_prev() == form,
        form.focus_prev().focus_next() == form,
{
}

/// The form that creates or edits a remote.
#[derive(Debug, Clone)]
pub struct CreateRemoteModal {
    pub mode: CreateRemoteMode,
    pub name: String,
    pub remote_type: String,
    pub path: String,
    pub focus_field: RemoteField,
    /// A message shown in place of the help text.
    pub error: Option<String>,
}

impl CreateRemoteModal {
    /// The form with the focus on the next field.
    pub open spec fn focus_next(self) -> CreateRemoteModal {
        CreateRemoteModal { focus_field: self.focus_field.next(), ..self }
    }

    /// The form with the focus on the field before.
    pub open spec fn focus_prev(self) -> CreateRemoteModal {
        CreateRemoteModal { focus_field: self.focus_field.prev(), ..self }
    }

    /// The text of the focused field.
    pub open spec fn focused_text(self) -> Seq<char> {
        match self.focus_field {
            RemoteField::Name => self.name@,
            RemoteField::Type => self.remote_type@,
            RemoteField::Path => self.path@,
        }
    }

    /// `after` is `self` with the text `text` in the focused field and
    /// everything but that field and the error message as it was.
    pub open spec fn edited_to(self, text: Seq<char>, after: CreateRemoteModal) -> bool {
        &&& after.mode == self.mode
        &&& after.focus_field == self.focus_field
        &&& after.focused_text() == text
        &&& self.focus_field != RemoteField::Name ==> after.name == self.name
        &&& self.focus_field != RemoteField::Type ==> after.remote_type == self.remote_type
        &&& self.focus_field != RemoteField::Path ==> after.path == self.path
    }

    /// `after` holds what `self` holds in mode, the three texts and the focus.
    pub open spec fn same_fields(self, after: CreateRemoteModal) -> bool {
        &&& after.mode == self.mode
        &&& after.name == self.name
        &&& after.remote_type == self.remote_type
        &&& after.path == self.path
        &&& after.focus_field == self.focus_field
    }

    /// The form is as it is when opened for `mode`: no name, no path, the
    /// type `local`, the focus on the name, no message.
    pub open spec fn blank(self, mode: CreateRemoteMode) -> bool {
        &&& self.mode == mode
        &&& self.name@ == Seq::<char>::empty()
        &&& self.remote_type@ == "local"@
        &&& self.path@ == Seq::<char>::empty()
        &&& self.focus_field == RemoteField::Name
        &&& self.error is None
    }

    /// Whether the form may be submitted: name and type are both filled in.
    pub open spec fn valid(self) -> bool {
        self.name@.len() > 0 && self.remote_type@.len() > 0
    }

    /// An empty form: no name, no path, the type `local`, the focus on the name.
    pub fn new(mode: CreateRemoteMode) -> (r: Self)
        ensures
            r.blank(mode),
    {
        CreateRemoteModal {
            mode,
            name: String::new(),
            remote_type: "local".to_owned(),
            path: String::new(),
            focus_field: RemoteField::Name,
            error: None,
        }
    }

    /// The form with `name` as its name.
    pub fn with_name(self, name: String) -> (r: Self)
        ensures
            r == (CreateRemoteModal { name, ..self }),
    {
        let mut r = self;
        r.name = name;
        r
    }

    /// The form with `remote_type` as its type.
    pub fn with_type(self, remote_type: String) -> (r: Self)
        ensures
            r == (CreateRemoteModal { remote_type, ..self }),
    {
        let mut r = self;
        r.remote_type = remote_type;
        r
    }

    /// Moves the focus to the next field.
    pub fn next_field(&mut self)
        ensures
            *final(self) == old(self).focus_next(),
    {
        self.focus_field = match self.focus_field {
            RemoteField::Name => RemoteField::Type,
            RemoteField::Type => RemoteField::Path,
            RemoteField::Path => RemoteField::Name,
        };
    }

    /// Moves the focus to the field before.
    pub fn prev_field(&mut self)
        ensures
            *final(self) == old(self).focus_prev(),
    {
        self.focus_field = match self.focus_field {
            RemoteField::Name => RemoteField::Path,
            RemoteField::Type => RemoteField::Name,
            RemoteField::Path => RemoteField::Type,
        };
    }

    /// Appends `c` to the text of the focused field.
    pub fn input_char(&mut self, c: char)
        ensures
            old(self).edited_to(old(self).focused_text().push(c), *final(self)),
            final(self).error == old(self).error,
    {
        match self.focus_field {
            RemoteField::Name => self.name.push(c),
            RemoteField::Type => self.remote_type.push(c),
            RemoteField::Path => self.path.push(c),
        }
    }

    /// Removes the last character of the focused field's text; an empty text
    /// stays empty.
    pub fn backspace(&mut self)
        ensures
            old(self).edited_to(
                if old(self).focused_text().len() > 0 {
                    old(self).focused_text().drop_last()
                } else {
                    old(self).focused_text()
                },
                *final(self),
            ),
            final(self).error == old(self).error,
    {
        match self.focus_field {
            RemoteField::Name => {
                self.name.pop();
            },
            RemoteField::Type => {
                self.remote_type.pop();
            },
            RemoteField::Path => {
                self.path.pop();
            },
        }
    }

    /// Whether the form may be submitted: name and type are both filled in.
    pub fn is_valid(&self) -> (r: bool)
        ensures
            r == self.valid(),
    {
        !self.name.as_str().is_empty() && !self.remote_type.as_str().is_empty()
    }
}

} // verus!
