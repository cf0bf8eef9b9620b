//! The modal overlays. A tagged union holds at most one open overlay
//! by construction, which is what rules out two modals being active at
//! once.

use vstd::prelude::*;
use crate::headers::RequestHeader;
use crate::keys::Key;
use crate::method::METHOD_COUNT;
use crate::text::{apply_edit, edit_text};

verus! {

/// Which of the three form fields currently receives input.
#[derive(Copy, Clone, Debug, PartialEq, Eq, Structural)]
pub enum EditingField {
    Key,
    Value,
    PreviousValue,
}

/// The field after `f` in the fixed cycle key, value, previous value.
pub open spec fn next_field_spec(f: EditingField) -> EditingField {
    match f {
        EditingField::Key => EditingField::Value,
        EditingField::Value => EditingField::PreviousValue,
        EditingField::PreviousValue => EditingField::Key,
    }
}

/// The field before `f` in that cycle.
pub open spec fn prev_field_spec(f: EditingField) -> EditingField {
    match f {
        EditingField::Key => EditingField::PreviousValue,
        EditingField::Value => EditingField::Key,
        EditingField::PreviousValue => EditingField::Value,
    }
}

/// The three-field scratch area used while adding or editing a
/// header, plus the field that currently receives input.
pub struct FormBuffer {
    pub key: String,
    pub value: String,
    pub previous_value: String,
    pub active: EditingField,
}

/// The mathematical content of a form buffer.
pub ghost struct FormModel {
    pub key: Seq<char>,
    pub value: Seq<char>,
    pub previous_value: Seq<char>,
    pub active: EditingField,
}

impl View for FormBuffer {
    type V = FormModel;

    open spec fn view(&self) -> FormModel {
        FormModel {
            key: self.key@,
            value: self.value@,
            previous_value: self.previous_value@,
            active: self.active,
        }
    }
}

impl FormModel {
    /// The form after one editing key lands in the active field.
    pub open spec fn edited(self, key: Key) -> FormModel {
        match self.active {
            EditingField::Key => FormModel { key: edit_text(self.key, key), ..self },
            EditingField::Value => FormModel { value: edit_text(self.value, key), ..self },
            EditingField::PreviousValue => FormModel {
                previous_value: edit_text(self.previous_value, key),
                ..self
            },
        }
    }
}

impl FormBuffer {
    /// Three empty fields, input going to the key field.
    pub fn empty() -> (r: FormBuffer)
        ensures
            r@.key == Seq::<char>::empty(),
            r@.value == Seq::<char>::empty(),
            r@.previous_value == Seq::<char>::empty(),
            r@.active == EditingField::Key,
    {
        FormBuffer {
            key: String::new(),
            value: String::new(),
            previous_value: String::new(),
            active: EditingField::Key,
        }
    }

    /// A form pre-populated from an existing header, input going to
    /// the key field.
    pub fn from_header(h: &RequestHeader) -> (r: FormBuffer)
        ensures
            r@.key == h@.key,
            r@.value == h@.value,
            r@.previous_value == h@.previous_value,
            r@.active == EditingField::Key,
    {
        FormBuffer {
            key: h.key.clone(),
            value: h.value.clone(),
            previous_value: h.previous_value.clone(),
            active: EditingField::Key,
        }
    }

    /// Moves input to the next field, cyclically.
    pub fn next_field(&mut self)
        ensures
            final(self)@ == (FormModel { active: next_field_spec(old(self)@.active), ..old(self)@ }),
    {
        self.active = match self.active {
            EditingField::Key => EditingField::Value,
            EditingField::Value => EditingField::PreviousValue,
            EditingField::PreviousValue => EditingField::Key,
        };
    }

    /// Moves input to the previous field, cyclically.
    pub fn prev_field(&mut self)
        ensures
            final(self)@ == (FormModel { active: prev_field_spec(old(self)@.active), ..old(self)@ }),
    {
        self.active = match self.active {
            EditingField::Key => EditingField::PreviousValue,
            EditingField::Value => EditingField::Key,
            EditingField::PreviousValue => EditingField::Value,
        };
    }

    /// Applies one editing key to the active field.
    pub fn edit_active(&mut self, key: Key)
        ensures
            final(self)@ == old(self)@.edited(key),
    {
        match self.active {
            EditingField::Key => apply_edit(&mut self.key, key),
            EditingField::Value => apply_edit(&mut self.value, key),
            EditingField::PreviousValue => apply_edit(&mut self.previous_value, key),
        }
    }

}

/// The single open overlay, or `Closed`. Exactly one variant holds at
/// a time, so two overlays can never be open at once.
pub enum OverlayState {
    /// No overlay: keys go to the active panel.
    Closed,
    /// The add-header form.
    AddHeaderForm(FormBuffer),
    /// The edit-header form, pre-populated from the selected header.
    EditHeaderForm(FormBuffer),
    /// The body editor and its in-progress text.
    BodyEditor(String),
    /// The delete confirmation for the selected header.
    DeleteConfirm,
    /// The method picker and its highlighted position.
    MethodPicker(usize),
    /// The URL entry field and its in-progress text.
    UrlEntry(String),
}

/// The mathematical content of the overlay state.
pub ghost enum OverlayModel {
    Closed,
    AddHeaderForm(FormModel),
    EditHeaderForm(FormModel),
    BodyEditor(Seq<char>),
    DeleteConfirm,
    MethodPicker(int),
    UrlEntry(Seq<char>),
}

impl View for OverlayState {
    type V = OverlayModel;

    open spec fn view(&self) -> OverlayModel {
        match self {
            OverlayState::Closed => OverlayModel::Closed,
            OverlayState::AddHeaderForm(f) => OverlayModel::AddHeaderForm(f@),
            OverlayState::EditHeaderForm(f) => OverlayModel::EditHeaderForm(f@),
            OverlayState::BodyEditor(t) => OverlayModel::BodyEditor(t@),
            OverlayState::DeleteConfirm => OverlayModel::DeleteConfirm,
            OverlayState::MethodPicker(i) => OverlayModel::MethodPicker(*i as int),
            OverlayState::UrlEntry(t) => OverlayModel::UrlEntry(t@),
        }
    }
}

impl OverlayModel {
    /// Whether an overlay is open at all.
    pub open spec fn is_open(self) -> bool {
        !(self is Closed)
    }

    /// Whether the open overlay takes literal text input, so that even
    /// the quit key must be treated as a typed character.
    pub open spec fn is_text_entry(self) -> bool {
        self is AddHeaderForm || self is EditHeaderForm || self is BodyEditor || self is UrlEntry
    }

    /// A picker position is always one of the offered methods.
    pub open spec fn wf(self) -> bool {
        match self {
            OverlayModel::MethodPicker(i) => 0 <= i < METHOD_COUNT,
            _ => true,
        }
    }
}

impl OverlayState {
    /// Whether the open overlay takes literal text input.
    pub fn is_text_entry(&self) -> (r: bool)
        ensures
            r == self@.is_text_entry(),
    {
        matches!(
            self,
            OverlayState::AddHeaderForm(_) | OverlayState::EditHeaderForm(_)
                | OverlayState::BodyEditor(_) | OverlayState::UrlEntry(_)
        )
    }
}

/// At most one modal is active at any instant: of the five modal
/// surfaces, no two can be open in the same overlay state, because
/// the state is a single tagged union.
pub proof fn lemma_overlay_exclusive(o: OverlayModel)
    ensures
        (if o is AddHeaderForm {
            1int
        } else {
            0int
        }) + (if o is EditHeaderForm {
            1int
        } else {
            0int
        }) + (if o is BodyEditor {
            1int
        } else {
            0int
        }) + (if o is DeleteConfirm {
            1int
        } else {
            0int
        }) + (if o is MethodPicker {
            1int
        } else {
            0int
        }) <= 1,
{
}

} // verus!
