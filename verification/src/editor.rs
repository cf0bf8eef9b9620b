//! The request editor panel: the header list, the per-tab body store,
//! and the editor-owned overlays (add/edit header, delete
//! confirmation, body editor), composed into one input-handling state
//! machine.

use vstd::prelude::*;
use crate::body::{BodyContentStore, StoreModel};
use crate::cycle::{cycle_next, cycle_prev};
use crate::headers::{HeaderList, HeaderListModel, HeaderModel, RequestHeader};
use crate::keys::Key;
use crate::overlay::{
    EditingField, FormBuffer, FormModel, next_field_spec, prev_field_spec, OverlayModel,
    OverlayState,
};
use crate::tabs::{next_tab_spec, prev_tab_spec, RequestHeaders};
use crate::text::edit_text;

verus! {

/// The request editor's own state: headers, body store, which of the
/// two views is showing, the active body tab, and the body text
/// currently loaded for display.
pub struct RequestEditorController {
    pub headers: HeaderList,
    pub store: BodyContentStore,
    pub show_body: bool,
    pub active_tab: RequestHeaders,
    pub loaded: String,
}

/// The mathematical content of the request editor.
pub ghost struct EditorModel {
    pub headers: HeaderListModel,
    pub store: StoreModel,
    pub show_body: bool,
    pub active_tab: RequestHeaders,
    pub loaded: Seq<char>,
}

impl View for RequestEditorController {
    type V = EditorModel;

    open spec fn view(&self) -> EditorModel {
        EditorModel {
            headers: self.headers@,
            store: self.store@,
            show_body: self.show_body,
            active_tab: self.active_tab,
            loaded: self.loaded@,
        }
    }
}

/// Editor state and overlay fit together: the selection invariant
/// holds, the overlay is well formed, and the overlays that act on
/// the selected header are only ever open while a header exists to
/// act on.
pub open spec fn editor_wf(e: EditorModel, o: OverlayModel) -> bool {
    &&& e.headers.wf()
    &&& o.wf()
    &&& (o is EditHeaderForm || o is DeleteConfirm) ==> e.headers.entries.len() > 0
}

/// An empty form with input on the key field.
pub open spec fn empty_form() -> FormModel {
    FormModel {
        key: Seq::empty(),
        value: Seq::empty(),
        previous_value: Seq::empty(),
        active: EditingField::Key,
    }
}

/// A form pre-populated from a header, input on the key field.
pub open spec fn form_of_header(h: HeaderModel) -> FormModel {
    FormModel {
        key: h.key,
        value: h.value,
        previous_value: h.previous_value,
        active: EditingField::Key,
    }
}

/// The header a form commits: its three texts.
pub open spec fn form_header(f: FormModel) -> HeaderModel {
    HeaderModel { key: f.key, value: f.value, previous_value: f.previous_value }
}

/// A form key that neither commits nor cancels: tab and arrow keys
/// move between the fields, anything else edits the active field.
pub open spec fn form_nav(f: FormModel, key: Key) -> FormModel {
    match key {
        Key::Tab | Key::Down => FormModel { active: next_field_spec(f.active), ..f },
        Key::BackTab | Key::Up => FormModel { active: prev_field_spec(f.active), ..f },
        _ => f.edited(key),
    }
}

/// The selection after a cyclic move, leaving an empty list alone.
pub open spec fn moved_selection(h: HeaderListModel, forward: bool) -> HeaderListModel {
    if h.entries.len() == 0 {
        h
    } else if forward {
        HeaderListModel { selected: cycle_next(h.selected, h.entries.len() as int), ..h }
    } else {
        HeaderListModel { selected: cycle_prev(h.selected, h.entries.len() as int), ..h }
    }
}

/// One key inside the add-header form. Enter walks down the fields
/// and, from the last field, commits: the new header is appended, the
/// selection moves to it, and the overlay closes. Escape discards the
/// form; everything else navigates or edits it.
pub open spec fn add_form_step(e: EditorModel, f: FormModel, key: Key) -> (EditorModel,
    OverlayModel) {
    match key {
        Key::Esc => (e, OverlayModel::Closed),
        Key::Enter => if f.active is PreviousValue {
            let entries = e.headers.entries.push(form_header(f));
            (
                EditorModel {
                    headers: HeaderListModel {
                        entries,
                        selected: entries.len() as int - 1,
                    },
                    ..e
                },
                OverlayModel::Closed,
            )
        } else {
            (e, OverlayModel::AddHeaderForm(FormModel { active: next_field_spec(f.active), ..f }))
        },
        _ => (e, OverlayModel::AddHeaderForm(form_nav(f, key))),
    }
}

/// One key inside the edit-header form. Enter from the last field
/// commits over the selected header and closes the overlay; the
/// selection stays put.
pub open spec fn edit_form_step(e: EditorModel, f: FormModel, key: Key) -> (EditorModel,
    OverlayModel) {
    match key {
        Key::Esc => (e, OverlayModel::Closed),
        Key::Enter => if f.active is PreviousValue {
            (
                EditorModel {
                    headers: HeaderListModel {
                        entries: e.headers.entries.update(e.headers.selected, form_header(f)),
                        ..e.headers
                    },
                    ..e
                },
                OverlayModel::Closed,
            )
        } else {
            (e, OverlayModel::EditHeaderForm(FormModel { active: next_field_spec(f.active), ..f }))
        },
        _ => (e, OverlayModel::EditHeaderForm(form_nav(f, key))),
    }
}

/// One key inside the body editor. Enter commits the buffer for the
/// active tab, closes the editor, advances to the next tab and clears
/// the displayed text; Escape discards the buffer and reloads the
/// last committed content; everything else edits the buffer.
pub open spec fn body_editor_step(e: EditorModel, buf: Seq<char>, key: Key) -> (EditorModel,
    OverlayModel) {
    match key {
        Key::Enter => (
            EditorModel {
                store: e.store.committed(e.active_tab, buf),
                active_tab: next_tab_spec(e.active_tab),
                loaded: Seq::empty(),
                ..e
            },
            OverlayModel::Closed,
        ),
        Key::Esc => (
            EditorModel { loaded: e.store.loaded(e.active_tab), ..e },
            OverlayModel::Closed,
        ),
        _ => (e, OverlayModel::BodyEditor(edit_text(buf, key))),
    }
}

/// One key inside the delete confirmation. Enter deletes the selected
/// header, clamping the selection so it stays valid; Escape backs
/// out; either way the overlay closes. Other keys do nothing.
pub open spec fn delete_confirm_step(e: EditorModel, key: Key) -> (EditorModel, OverlayModel) {
    match key {
        Key::Enter => (
            EditorModel {
                headers: HeaderListModel {
                    entries: e.headers.entries.remove(e.headers.selected),
                    selected: e.headers.clamped_after_delete(e.headers.selected),
                },
                ..e
            },
            OverlayModel::Closed,
        ),
        Key::Esc => (e, OverlayModel::Closed),
        _ => (e, OverlayModel::DeleteConfirm),
    }
}

/// One key in the header-list view with no overlay open.
pub open spec fn list_view_step(e: EditorModel, key: Key) -> (EditorModel, OverlayModel) {
    match key {
        Key::Char('a') | Key::Char('A') => (e, OverlayModel::AddHeaderForm(empty_form())),
        Key::Enter => if e.headers.entries.len() > 0 {
            (e, OverlayModel::EditHeaderForm(form_of_header(e.headers.entries[e.headers.selected])))
        } else {
            (e, OverlayModel::Closed)
        },
        Key::Char('d') | Key::Char('D') => if e.headers.entries.len() > 0 {
            (e, OverlayModel::DeleteConfirm)
        } else {
            (e, OverlayModel::Closed)
        },
        Key::Up | Key::Left => (
            EditorModel { headers: moved_selection(e.headers, false), ..e },
            OverlayModel::Closed,
        ),
        Key::Down | Key::Right => (
            EditorModel { headers: moved_selection(e.headers, true), ..e },
            OverlayModel::Closed,
        ),
        Key::Char('[') => (EditorModel { show_body: false, ..e }, OverlayModel::Closed),
        Key::Char(']') => (
            EditorModel { show_body: true, loaded: e.store.loaded(e.active_tab), ..e },
            OverlayModel::Closed,
        ),
        _ => (e, OverlayModel::Closed),
    }
}

/// One key in the body view with no overlay open. Left and right
/// cycle the active tab and immediately load its content; Enter opens
/// the body editor over the displayed text, except on the never-
/// editable `NoBody` tab.
pub open spec fn body_view_step(e: EditorModel, key: Key) -> (EditorModel, OverlayModel) {
    match key {
        Key::Left => ({
            let tab = prev_tab_spec(e.active_tab);
            (
                EditorModel { active_tab: tab, loaded: e.store.loaded(tab), ..e },
                OverlayModel::Closed,
            )
        }),
        Key::Right => ({
            let tab = next_tab_spec(e.active_tab);
            (
                EditorModel { active_tab: tab, loaded: e.store.loaded(tab), ..e },
                OverlayModel::Closed,
            )
        }),
        Key::Enter => if e.active_tab != RequestHeaders::NoBody {
            (e, OverlayModel::BodyEditor(e.loaded))
        } else {
            (e, OverlayModel::Closed)
        },
        Key::Char('[') => (EditorModel { show_body: false, ..e }, OverlayModel::Closed),
        Key::Char(']') => (
            EditorModel { show_body: true, loaded: e.store.loaded(e.active_tab), ..e },
            OverlayModel::Closed,
        ),
        Key::Up => (
            EditorModel { headers: moved_selection(e.headers, false), ..e },
            OverlayModel::Closed,
        ),
        Key::Down => (
            EditorModel { headers: moved_selection(e.headers, true), ..e },
            OverlayModel::Closed,
        ),
        _ => (e, OverlayModel::Closed),
    }
}

/// One key to the request editor panel: routed to the open overlay if
/// there is one, otherwise to the showing view. Overlays the editor
/// does not own are left exactly as they are.
pub open spec fn editor_step(e: EditorModel, o: OverlayModel, key: Key) -> (EditorModel,
    OverlayModel) {
    match o {
        OverlayModel::Closed => if e.show_body {
            body_view_step(e, key)
        } else {
            list_view_step(e, key)
        },
        OverlayModel::AddHeaderForm(f) => add_form_step(e, f, key),
        OverlayModel::EditHeaderForm(f) => edit_form_step(e, f, key),
        OverlayModel::BodyEditor(buf) => body_editor_step(e, buf, key),
        OverlayModel::DeleteConfirm => delete_confirm_step(e, key),
        OverlayModel::MethodPicker(_) => (e, o),
        OverlayModel::UrlEntry(_) => (e, o),
    }
}

/// The editor step preserves well-formedness.
pub proof fn lemma_editor_step_wf(e: EditorModel, o: OverlayModel, key: Key)
    requires
        editor_wf(e, o),
    ensures
        editor_wf(editor_step(e, o, key).0, editor_step(e, o, key).1),
{
}

/// The body store changes only when the body editor commits: under
/// every other key — in particular all tab switching — the store
/// after an editor step is the store before it.
pub proof fn lemma_store_changes_only_on_commit(e: EditorModel, o: OverlayModel, key: Key)
    ensures
        !(o is BodyEditor && key == Key::Enter) ==> editor_step(e, o, key).0.store == e.store,
{
}

/// Committed body text round-trips through tab switching: committing
/// a buffer from the body editor stores it for the tab that was
/// active, any amount of tab switching in the body view leaves the
/// store untouched, and loading that tab afterwards returns exactly
/// the committed text.
pub proof fn lemma_body_commit_round_trip(e: EditorModel, buf: Seq<char>, key: Key)
    requires
        e.active_tab != RequestHeaders::NoBody,
    ensures
        body_editor_step(e, buf, Key::Enter).0.store.loaded(e.active_tab) == buf,
        body_view_step(e, key).0.store == e.store,
        body_view_step(e, key).0.store.loaded(e.active_tab) == e.store.loaded(e.active_tab),
{
}

/// The header-list selection after `n` cyclic forward moves.
pub open spec fn iter_moved_selection(h: HeaderListModel, n: nat) -> HeaderListModel
    decreases n,
{
    if n == 0 {
        h
    } else {
        moved_selection(iter_moved_selection(h, (n - 1) as nat), true)
    }
}

/// Repeated selection moves only ever move the selection, along the
/// same cyclic track that `iter_next` walks.
proof fn lemma_iter_moved_selection(h: HeaderListModel, n: nat)
    requires
        h.wf(),
        h.entries.len() > 0,
    ensures
        iter_moved_selection(h, n).entries == h.entries,
        iter_moved_selection(h, n).selected == crate::cycle::iter_next(
            h.selected,
            h.entries.len() as int,
            n,
        ),
    decreases n,
{
    if n > 0 {
        lemma_iter_moved_selection(h, (n - 1) as nat);
    }
}

/// Cyclic selection navigation is a round trip: moving the selection
/// forward as many times as the list is long returns it to where it
/// started, and never reorders the list.
pub proof fn lemma_selection_cycle_identity(h: HeaderListModel)
    requires
        h.wf(),
        h.entries.len() > 0,
    ensures
        iter_moved_selection(h, h.entries.len() as nat) == h,
{
    lemma_iter_moved_selection(h, h.entries.len() as nat);
    crate::cycle::lemma_cycle_identity(h.selected, h.entries.len() as int);
}

/// The editor state at startup: the two headers every request begins
/// with, the body view showing, the first tab active, nothing loaded
/// and nothing stored.
pub open spec fn initial_editor(e: EditorModel) -> bool {
    &&& e.headers.entries.len() == 2
    &&& e.headers.entries[0].key == "Content-Type"@
    &&& e.headers.entries[0].value == "application/json"@
    &&& e.headers.entries[0].previous_value == Seq::<char>::empty()
    &&& e.headers.entries[1].key == "Authorization"@
    &&& e.headers.entries[1].value == "Bearer token"@
    &&& e.headers.entries[1].previous_value == Seq::<char>::empty()
    &&& e.headers.selected == 0
    &&& forall|tab: RequestHeaders| e.store.stored(tab) is None
    &&& e.show_body == true
    &&& e.active_tab == RequestHeaders::NoBody
    &&& e.loaded.len() == 0
}

impl RequestEditorController {
    /// The editor at startup, as `initial_editor` describes it.
    pub fn new() -> (r: RequestEditorController)
        ensures
            initial_editor(r@),
            r@.headers.wf(),
    {
        let mut headers = HeaderList::new();
        headers.add(
            RequestHeader::new(
                "Content-Type".to_owned(),
                "application/json".to_owned(),
                String::new(),
            ),
        );
        headers.add(
            RequestHeader::new(
                "Authorization".to_owned(),
                "Bearer token".to_owned(),
                String::new(),
            ),
        );
        RequestEditorController {
            headers,
            store: BodyContentStore::new(),
            show_body: true,
            active_tab: RequestHeaders::NoBody,
            loaded: String::new(),
        }
    }

    /// Applies one key to the editor panel, mutating the editor and
    /// the overlay exactly as `editor_step` says.
    pub fn handle_key(&mut self, overlay: &mut OverlayState, key: Key)
        requires
            editor_wf(old(self)@, old(overlay)@),
        ensures
            final(self)@ == editor_step(old(self)@, old(overlay)@, key).0,
            final(overlay)@ == editor_step(old(self)@, old(overlay)@, key).1,
            editor_wf(final(self)@, final(overlay)@),
    {
        let mut o = OverlayState::Closed;
        core::mem::swap(&mut o, overlay);
        match o {
            OverlayState::Closed => {
                if self.show_body {
                    self.body_view_key(overlay, key);
                } else {
                    self.list_view_key(overlay, key);
                }
            },
            OverlayState::AddHeaderForm(f) => self.add_form_key(overlay, f, key),
            OverlayState::EditHeaderForm(f) => self.edit_form_key(overlay, f, key),
            OverlayState::BodyEditor(buf) => self.body_editor_key(overlay, buf, key),
            OverlayState::DeleteConfirm => self.delete_confirm_key(overlay, key),
            OverlayState::MethodPicker(i) => {
                *overlay = OverlayState::MethodPicker(i);
            },
            OverlayState::UrlEntry(t) => {
                *overlay = OverlayState::UrlEntry(t);
            },
        }
    }

    /// One key in the header-list view; `overlay` starts out closed.
    fn list_view_key(&mut self, overlay: &mut OverlayState, key: Key)
        requires
            old(self)@.headers.wf(),
            old(overlay)@ is Closed,
            old(self)@.show_body == false,
        ensures
            final(self)@ == list_view_step(old(self)@, key).0,
            final(overlay)@ == list_view_step(old(self)@, key).1,
    {
        match key {
            Key::Char('a') | Key::Char('A') => {
                *overlay = OverlayState::AddHeaderForm(FormBuffer::empty());
            },
            Key::Enter => {
                if self.headers.len() > 0 {
                    let idx = self.headers.selected();
                    let form = FormBuffer::from_header(self.headers.get(idx));
                    *overlay = OverlayState::EditHeaderForm(form);
                }
            },
            Key::Char('d') | Key::Char('D') => {
                if self.headers.len() > 0 {
                    *overlay = OverlayState::DeleteConfirm;
                }
            },
            Key::Up | Key::Left => {
                let _ = self.headers.move_selection(false);
            },
            Key::Down | Key::Right => {
                let _ = self.headers.move_selection(true);
            },
            Key::Char('[') => {
                self.show_body = false;
            },
            Key::Char(']') => {
                self.show_body = true;
                self.loaded = self.store.load(self.active_tab);
            },
            _ => {},
        }
    }

    /// One key in the body view; `overlay` starts out closed.
    fn body_view_key(&mut self, overlay: &mut OverlayState, key: Key)
        requires
            old(self)@.headers.wf(),
            old(overlay)@ is Closed,
            old(self)@.show_body == true,
        ensures
            final(self)@ == body_view_step(old(self)@, key).0,
            final(overlay)@ == body_view_step(old(self)@, key).1,
    {
        match key {
            Key::Left => {
                self.active_tab = self.active_tab.prev_tab();
                self.loaded = self.store.load(self.active_tab);
            },
            Key::Right => {
                self.active_tab = self.active_tab.next_tab();
                self.loaded = self.store.load(self.active_tab);
            },
            Key::Enter => {
                if !matches!(self.active_tab, RequestHeaders::NoBody) {
                    let buf = self.loaded.clone();
                    *overlay = OverlayState::BodyEditor(buf);
                }
            },
            Key::Char('[') => {
                self.show_body = false;
            },
            Key::Char(']') => {
                self.show_body = true;
                self.loaded = self.store.load(self.active_tab);
            },
            Key::Up => {
                let _ = self.headers.move_selection(false);
            },
            Key::Down => {
                let _ = self.headers.move_selection(true);
            },
            _ => {},
        }
    }

    /// One key inside the add-header form; `overlay` starts out
    /// closed and receives the form back unless the key closed it.
    fn add_form_key(&mut self, overlay: &mut OverlayState, form: FormBuffer, key: Key)
        requires
            old(self)@.headers.wf(),
            old(overlay)@ is Closed,
        ensures
            final(self)@ == add_form_step(old(self)@, form@, key).0,
            final(overlay)@ == add_form_step(old(self)@, form@, key).1,
    {
        let mut form = form;
        match key {
            Key::Esc => {},
            Key::Enter => {
                if matches!(form.active, EditingField::PreviousValue) {
                    let entry = RequestHeader::new(form.key, form.value, form.previous_value);
                    self.headers.add(entry);
                    let last = self.headers.len() - 1;
                    self.headers.select(last);
                } else {
                    form.next_field();
                    *overlay = OverlayState::AddHeaderForm(form);
                }
            },
            Key::Tab | Key::Down => {
                form.next_field();
                *overlay = OverlayState::AddHeaderForm(form);
            },
            Key::BackTab | Key::Up => {
                form.prev_field();
                *overlay = OverlayState::AddHeaderForm(form);
            },
            _ => {
                form.edit_active(key);
                *overlay = OverlayState::AddHeaderForm(form);
            },
        }
    }

    /// One key inside the edit-header form.
    fn edit_form_key(&mut self, overlay: &mut OverlayState, form: FormBuffer, key: Key)
        requires
            old(self)@.headers.wf(),
            old(self)@.headers.entries.len() > 0,
            old(overlay)@ is Closed,
        ensures
            final(self)@ == edit_form_step(old(self)@, form@, key).0,
            final(overlay)@ == edit_form_step(old(self)@, form@, key).1,
    {
        let mut form = form;
        match key {
            Key::Esc => {},
            Key::Enter => {
                if matches!(form.active, EditingField::PreviousValue) {
                    let entry = RequestHeader::new(form.key, form.value, form.previous_value);
                    let idx = self.headers.selected();
                    let _ = self.headers.edit(idx, entry);
                } else {
                    form.next_field();
                    *overlay = OverlayState::EditHeaderForm(form);
                }
            },
            Key::Tab | Key::Down => {
                form.next_field();
                *overlay = OverlayState::EditHeaderForm(form);
            },
            Key::BackTab | Key::Up => {
                form.prev_field();
                *overlay = OverlayState::EditHeaderForm(form);
            },
            _ => {
                form.edit_active(key);
                *overlay = OverlayState::EditHeaderForm(form);
            },
        }
    }

    /// One key inside the body editor.
    fn body_editor_key(&mut self, overlay: &mut OverlayState, buf: String, key: Key)
        requires
            old(overlay)@ is Closed,
        ensures
            final(self)@ == body_editor_step(old(self)@, buf@, key).0,
            final(overlay)@ == body_editor_step(old(self)@, buf@, key).1,
    {
        let mut buf = buf;
        match key {
            Key::Enter => {
                self.store.commit(self.active_tab, buf);
                self.active_tab = self.active_tab.next_tab();
                self.loaded = String::new();
            },
            Key::Esc => {
                self.loaded = self.store.load(self.active_tab);
            },
            _ => {
                crate::text::apply_edit(&mut buf, key);
                *overlay = OverlayState::BodyEditor(buf);
            },
        }
    }

    /// One key inside the delete confirmation.
    fn delete_confirm_key(&mut self, overlay: &mut OverlayState, key: Key)
        requires
            old(self)@.headers.wf(),
            old(self)@.headers.entries.len() > 0,
            old(overlay)@ is Closed,
        ensures
            final(self)@ == delete_confirm_step(old(self)@, key).0,
            final(overlay)@ == delete_confirm_step(old(self)@, key).1,
    {
        match key {
            Key::Enter => {
                let idx = self.headers.selected();
                let _ = self.headers.delete(idx);
            },
            Key::Esc => {},
            _ => {
                *overlay = OverlayState::DeleteConfirm;
            },
        }
    }
}

} // verus!
