//! The top-level focus controller: which panel owns keyboard input,
//! how the overlays capture it, and the handful of global keys
//! (panel cycling, history, send, quit).
//!
//! Everything the application cannot do from pure state — the network
//! call, fetching the persisted history, launching an external editor
//! — is reported back as an `AppEffect` for the surrounding event
//! loop to perform.

use vstd::prelude::*;
use crate::cycle::{cycle_next, cycle_prev, next_index, prev_index};
use crate::editor::{editor_step, editor_wf, initial_editor, EditorModel, RequestEditorController};
use crate::history_view::{history_step, HistoryComponent, HistoryModel};
use crate::keys::Key;
use crate::method::{method_seq, HttpMethod, METHOD_COUNT};
use crate::output::{output_step, OutputComponent, OutputModel};
use crate::overlay::{OverlayModel, OverlayState};
use crate::text::{apply_edit, edit_text};

verus! {

/// The panel that currently owns keyboard input.
#[derive(Copy, Clone, Debug, PartialEq, Eq, Structural)]
pub enum ActiveBlock {
    Method,
    Input,
    Request,
    Message,
    History,
}

/// What the event loop must do after a key has been applied, beyond
/// the state change itself.
#[derive(Copy, Clone, Debug, PartialEq, Eq, Structural)]
pub enum AppEffect {
    /// Nothing beyond the state change.
    Handled,
    /// Leave the application loop.
    Quit,
    /// Fetch the persisted history and place its text into the
    /// history panel, which has just been given focus.
    FetchHistory,
    /// Dispatch the current method, URL, headers and body, record the
    /// attempt in the history, and place the outcome into the
    /// response panel.
    SendRequest,
    /// Open the response text in an external editor.
    OpenEditor,
}

/// The whole application state.
pub struct AppState {
    pub active_block: ActiveBlock,
    pub overlay: OverlayState,
    pub method: HttpMethod,
    pub url: String,
    pub request_component: RequestEditorController,
    pub message_component: OutputComponent,
    pub history_component: HistoryComponent,
}

/// The mathematical content of the application state.
pub ghost struct AppModel {
    pub active_block: ActiveBlock,
    pub overlay: OverlayModel,
    pub method: HttpMethod,
    pub url: Seq<char>,
    pub editor: EditorModel,
    pub output: OutputModel,
    pub history: HistoryModel,
}

impl View for AppState {
    type V = AppModel;

    open spec fn view(&self) -> AppModel {
        AppModel {
            active_block: self.active_block,
            overlay: self.overlay@,
            method: self.method,
            url: self.url@,
            editor: self.request_component@,
            output: self.message_component@,
            history: self.history_component@,
        }
    }
}

/// The application invariant: the editor and overlay fit together,
/// and each overlay can only be open while the panel it belongs to
/// has focus — so at most one overlay is ever open, by construction.
pub open spec fn app_wf(m: AppModel) -> bool {
    &&& editor_wf(m.editor, m.overlay)
    &&& (m.overlay is MethodPicker ==> m.active_block == ActiveBlock::Method)
    &&& (m.overlay is UrlEntry ==> m.active_block == ActiveBlock::Input)
    &&& ((m.overlay is AddHeaderForm || m.overlay is EditHeaderForm || m.overlay is BodyEditor
        || m.overlay is DeleteConfirm) ==> m.active_block == ActiveBlock::Request)
}

/// The fixed panel cycle: method, URL, request editor, response, and
/// around again. The history panel sits outside the cycle.
pub open spec fn cycle_block(b: ActiveBlock, forward: bool) -> ActiveBlock {
    match b {
        ActiveBlock::Method => if forward {
            ActiveBlock::Input
        } else {
            ActiveBlock::Message
        },
        ActiveBlock::Input => if forward {
            ActiveBlock::Request
        } else {
            ActiveBlock::Method
        },
        ActiveBlock::Request => if forward {
            ActiveBlock::Message
        } else {
            ActiveBlock::Input
        },
        ActiveBlock::Message => if forward {
            ActiveBlock::Method
        } else {
            ActiveBlock::Request
        },
        ActiveBlock::History => ActiveBlock::History,
    }
}

/// One key inside the method picker: up and down move the highlight
/// cyclically over the seven methods, Enter commits the highlighted
/// one as current, Escape closes without committing.
pub open spec fn picker_step(m: AppModel, i: int, key: Key) -> AppModel {
    match key {
        Key::Enter => AppModel {
            method: method_seq()[i],
            overlay: OverlayModel::Closed,
            ..m
        },
        Key::Up | Key::Char('j') | Key::Char('J') => AppModel {
            overlay: OverlayModel::MethodPicker(cycle_prev(i, METHOD_COUNT as int)),
            ..m
        },
        Key::Down | Key::Char('k') | Key::Char('K') => AppModel {
            overlay: OverlayModel::MethodPicker(cycle_next(i, METHOD_COUNT as int)),
            ..m
        },
        Key::Esc => AppModel { overlay: OverlayModel::Closed, ..m },
        _ => m,
    }
}

/// One key inside the URL entry: Enter commits the edited text back
/// to the URL and closes, Escape discards the edit, anything else
/// edits the buffer.
pub open spec fn url_entry_step(m: AppModel, t: Seq<char>, key: Key) -> AppModel {
    match key {
        Key::Enter => AppModel { url: t, overlay: OverlayModel::Closed, ..m },
        Key::Esc => AppModel { overlay: OverlayModel::Closed, ..m },
        _ => AppModel { overlay: OverlayModel::UrlEntry(edit_text(t, key)), ..m },
    }
}

/// A key that no global rule claimed, delegated to the focused panel.
pub open spec fn panel_step(m: AppModel, key: Key) -> (AppModel, AppEffect) {
    match m.active_block {
        ActiveBlock::Method => (m, AppEffect::Handled),
        ActiveBlock::Input => (m, AppEffect::Handled),
        ActiveBlock::Request => ({
            let r = editor_step(m.editor, m.overlay, key);
            (AppModel { editor: r.0, overlay: r.1, ..m }, AppEffect::Handled)
        }),
        ActiveBlock::Message => (
            AppModel { output: output_step(m.output, key), ..m },
            if key == Key::Char('e') {
                AppEffect::OpenEditor
            } else {
                AppEffect::Handled
            },
        ),
        ActiveBlock::History => (
            AppModel { history: history_step(m.history, key), ..m },
            AppEffect::Handled,
        ),
    }
}

/// One key while no overlay is open: the global keys first — panel
/// cycling, the history, send and quit keys, and the keys that open
/// the method picker and the URL entry — then the focused panel.
pub open spec fn closed_step(m: AppModel, key: Key) -> (AppModel, AppEffect) {
    match key {
        Key::Tab => (
            AppModel { active_block: cycle_block(m.active_block, true), ..m },
            AppEffect::Handled,
        ),
        Key::BackTab => (
            AppModel { active_block: cycle_block(m.active_block, false), ..m },
            AppEffect::Handled,
        ),
        Key::Char('H') => if m.active_block != ActiveBlock::History {
            (AppModel { active_block: ActiveBlock::History, ..m }, AppEffect::FetchHistory)
        } else {
            panel_step(m, key)
        },
        Key::Esc => if m.active_block == ActiveBlock::History {
            (AppModel { active_block: ActiveBlock::Method, ..m }, AppEffect::Handled)
        } else {
            panel_step(m, key)
        },
        Key::Char('g') => if m.active_block == ActiveBlock::Input {
            (m, AppEffect::SendRequest)
        } else {
            panel_step(m, key)
        },
        Key::Enter => if m.active_block == ActiveBlock::Method {
            (AppModel { overlay: OverlayModel::MethodPicker(0), ..m }, AppEffect::Handled)
        } else if m.active_block == ActiveBlock::Input {
            (AppModel { overlay: OverlayModel::UrlEntry(m.url), ..m }, AppEffect::Handled)
        } else {
            panel_step(m, key)
        },
        Key::Char('e') => if m.active_block == ActiveBlock::Input {
            (AppModel { overlay: OverlayModel::UrlEntry(m.url), ..m }, AppEffect::Handled)
        } else {
            panel_step(m, key)
        },
        _ => panel_step(m, key),
    }
}

/// One key to the whole application. The quit key quits unless the
/// open overlay takes literal text, in which case it is typed; an
/// open overlay otherwise owns the key outright; with no overlay the
/// global keys apply and the rest goes to the focused panel.
pub open spec fn app_step(m: AppModel, key: Key) -> (AppModel, AppEffect) {
    if key == Key::Char('q') && !m.overlay.is_text_entry() {
        (m, AppEffect::Quit)
    } else {
        match m.overlay {
            OverlayModel::Closed => closed_step(m, key),
            OverlayModel::MethodPicker(i) => (picker_step(m, i, key), AppEffect::Handled),
            OverlayModel::UrlEntry(t) => (url_entry_step(m, t, key), AppEffect::Handled),
            _ => ({
                let r = editor_step(m.editor, m.overlay, key);
                (AppModel { editor: r.0, overlay: r.1, ..m }, AppEffect::Handled)
            }),
        }
    }
}

/// Every step preserves the application invariant.
pub proof fn lemma_app_step_wf(m: AppModel, key: Key)
    requires
        app_wf(m),
    ensures
        app_wf(app_step(m, key).0),
{
    crate::editor::lemma_editor_step_wf(m.editor, m.overlay, key);
}

/// Opening an overlay and immediately cancelling it with Escape is
/// idempotent on the data: whatever key opened an overlay out of the
/// closed state, pressing Escape right after leaves the header list
/// and the body content store exactly as they were before the
/// overlay opened — and the focused panel is back to taking keys.
pub proof fn lemma_overlay_cancel_restores(m: AppModel, key: Key)
    requires
        app_wf(m),
        m.overlay is Closed,
        app_step(m, key).0.overlay.is_open(),
    ensures
        ({
            let opened = app_step(m, key).0;
            let cancelled = app_step(opened, Key::Esc).0;
            &&& cancelled.overlay is Closed
            &&& cancelled.editor.headers == m.editor.headers
            &&& cancelled.editor.store == m.editor.store
            &&& cancelled.url == m.url
            &&& cancelled.method == m.method
        }),
{
}

/// While any overlay is open, panel cycling is suppressed: a Tab
/// press never moves the focus away from the panel under the
/// overlay. The same holds for reverse cycling.
pub proof fn lemma_cycling_suppressed_while_overlay_open(m: AppModel, key: Key)
    requires
        m.overlay.is_open(),
        key == Key::Tab || key == Key::BackTab,
    ensures
        app_step(m, key).0.active_block == m.active_block,
{
}

impl AppState {
    /// The application at startup: focus on the method panel, no
    /// overlay, GET, an empty URL, the editor's initial headers, and
    /// empty response and history panels.
    pub fn new() -> (r: AppState)
        ensures
            r@.active_block == ActiveBlock::Method,
            r@.overlay is Closed,
            r@.method == HttpMethod::GET,
            r@.url.len() == 0,
            initial_editor(r@.editor),
            r@.output.message.len() == 0,
            r@.output.scroll_x == 0,
            r@.output.scroll_y == 0,
            r@.history.history.len() == 0,
            r@.history.scroll_x == 0,
            r@.history.scroll_y == 0,
            app_wf(r@),
    {
        AppState {
            active_block: ActiveBlock::Method,
            overlay: OverlayState::Closed,
            method: HttpMethod::GET,
            url: String::new(),
            request_component: RequestEditorController::new(),
            message_component: OutputComponent::new(),
            history_component: HistoryComponent::new_with_history(String::new()),
        }
    }

    /// Applies one key press to the whole application and reports
    /// what the event loop must do next.
    pub fn handle_key_event(&mut self, key: Key) -> (eff: AppEffect)
        requires
            app_wf(old(self)@),
        ensures
            final(self)@ == app_step(old(self)@, key).0,
            eff == app_step(old(self)@, key).1,
            app_wf(final(self)@),
    {
        if matches!(key, Key::Char('q')) && !self.overlay.is_text_entry() {
            return AppEffect::Quit;
        }
        let mut o = OverlayState::Closed;
        core::mem::swap(&mut o, &mut self.overlay);
        match o {
            OverlayState::Closed => self.closed_key(key),
            OverlayState::MethodPicker(i) => {
                self.picker_key(i, key);
                AppEffect::Handled
            },
            OverlayState::UrlEntry(t) => {
                self.url_entry_key(t, key);
                AppEffect::Handled
            },
            other => {
                self.overlay = other;
                self.request_component.handle_key(&mut self.overlay, key);
                AppEffect::Handled
            },
        }
    }

    /// One key inside the method picker; the overlay has been taken
    /// out and starts closed.
    fn picker_key(&mut self, i: usize, key: Key)
        requires
            i < METHOD_COUNT,
            old(self)@.overlay is Closed,
        ensures
            final(self)@ == picker_step(
                AppModel { overlay: OverlayModel::MethodPicker(i as int), ..old(self)@ },
                i as int,
                key,
            ),
    {
        match key {
            Key::Enter => {
                self.method = HttpMethod::method_at(i);
            },
            Key::Up | Key::Char('j') | Key::Char('J') => {
                self.overlay = OverlayState::MethodPicker(prev_index(i, METHOD_COUNT));
            },
            Key::Down | Key::Char('k') | Key::Char('K') => {
                self.overlay = OverlayState::MethodPicker(next_index(i, METHOD_COUNT));
            },
            Key::Esc => {},
            _ => {
                self.overlay = OverlayState::MethodPicker(i);
            },
        }
    }

    /// One key inside the URL entry; the overlay has been taken out
    /// and starts closed.
    fn url_entry_key(&mut self, t: String, key: Key)
        requires
            old(self)@.overlay is Closed,
        ensures
            final(self)@ == url_entry_step(
                AppModel { overlay: OverlayModel::UrlEntry(t@), ..old(self)@ },
                t@,
                key,
            ),
    {
        let mut t = t;
        match key {
            Key::Enter => {
                self.url = t;
            },
            Key::Esc => {},
            _ => {
                apply_edit(&mut t, key);
                self.overlay = OverlayState::UrlEntry(t);
            },
        }
    }

    /// One key while no overlay is open.
    fn closed_key(&mut self, key: Key) -> (eff: AppEffect)
        requires
            app_wf(old(self)@),
            old(self)@.overlay is Closed,
        ensures
            final(self)@ == closed_step(old(self)@, key).0,
            eff == closed_step(old(self)@, key).1,
    {
        match key {
            Key::Tab => {
                self.active_block = self.cycled_block(true);
                AppEffect::Handled
            },
            Key::BackTab => {
                self.active_block = self.cycled_block(false);
                AppEffect::Handled
            },
            Key::Char('H') => {
                if !matches!(self.active_block, ActiveBlock::History) {
                    self.active_block = ActiveBlock::History;
                    AppEffect::FetchHistory
                } else {
                    self.panel_key(key)
                }
            },
            Key::Esc => {
                if matches!(self.active_block, ActiveBlock::History) {
                    self.active_block = ActiveBlock::Method;
                    AppEffect::Handled
                } else {
                    self.panel_key(key)
                }
            },
            Key::Char('g') => {
                if matches!(self.active_block, ActiveBlock::Input) {
                    AppEffect::SendRequest
                } else {
                    self.panel_key(key)
                }
            },
            Key::Enter => {
                if matches!(self.active_block, ActiveBlock::Method) {
                    self.overlay = OverlayState::MethodPicker(0);
                    AppEffect::Handled
                } else if matches!(self.active_block, ActiveBlock::Input) {
                    self.overlay = OverlayState::UrlEntry(self.url.clone());
                    AppEffect::Handled
                } else {
                    self.panel_key(key)
                }
            },
            Key::Char('e') => {
                if matches!(self.active_block, ActiveBlock::Input) {
                    self.overlay = OverlayState::UrlEntry(self.url.clone());
                    AppEffect::Handled
                } else {
                    self.panel_key(key)
                }
            },
            _ => self.panel_key(key),
        }
    }

    /// A key delegated to the focused panel.
    fn panel_key(&mut self, key: Key) -> (eff: AppEffect)
        requires
            app_wf(old(self)@),
            old(self)@.overlay is Closed,
        ensures
            final(self)@ == panel_step(old(self)@, key).0,
            eff == panel_step(old(self)@, key).1,
    {
        match self.active_block {
            ActiveBlock::Method => AppEffect::Handled,
            ActiveBlock::Input => AppEffect::Handled,
            ActiveBlock::Request => {
                self.request_component.handle_key(&mut self.overlay, key);
                AppEffect::Handled
            },
            ActiveBlock::Message => {
                let open_editor = self.message_component.keybinds(key);
                if open_editor {
                    AppEffect::OpenEditor
                } else {
                    AppEffect::Handled
                }
            },
            ActiveBlock::History => {
                self.history_component.keybinds(key);
                AppEffect::Handled
            },
        }
    }

    /// The panel after one cycling step.
    fn cycled_block(&self, forward: bool) -> (r: ActiveBlock)
        ensures
            r == cycle_block(self@.active_block, forward),
    {
        match self.active_block {
            ActiveBlock::Method => if forward {
                ActiveBlock::Input
            } else {
                ActiveBlock::Message
            },
            ActiveBlock::Input => if forward {
                ActiveBlock::Request
            } else {
                ActiveBlock::Method
            },
            ActiveBlock::Request => if forward {
                ActiveBlock::Message
            } else {
                ActiveBlock::Input
            },
            ActiveBlock::Message => if forward {
                ActiveBlock::Method
            } else {
                ActiveBlock::Request
            },
            ActiveBlock::History => ActiveBlock::History,
        }
    }
}

} // verus!
