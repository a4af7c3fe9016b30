use vstd::prelude::*;

use crate::crypto::decrypted_name;
use crate::crypto::decrypted_name_model;
use crate::crypto::encrypted_name;
use crate::crypto::encrypted_name_model;
use crate::crypto::has_enc_suffix;
use crate::errors::ExplorerError;
use crate::errors::StatusMessage;
use crate::pane::EntryKind;
use crate::pane::EntryModel;
use crate::pane::PaneModel;
use crate::pane::SelectModel;
use crate::pane::SelectRequest;
use crate::paths::file_name_model;
use crate::paths::file_name_of;
use crate::state::descend_model;
use crate::state::move_selection_model;
use crate::state::preview_request_model;
use crate::state::CryptoOp;
use crate::state::DescendAction;
use crate::state::ExplorerState;
use crate::state::PreviewModel;
use crate::state::PreviewRequest;
use crate::state::StateModel;
use crate::view::begin_create_model;
use crate::view::begin_edit_model;
use crate::view::copy_chars;
use crate::view::input_pop_model;
use crate::view::input_push_model;
use crate::view::leave_content_model;
use crate::view::reset_to_list_model;
use crate::view::scroll_down_model;
use crate::view::ViewMode;
use crate::view::ViewModel;
use crate::view::ViewState;

verus! {

/// A discrete input, as the terminal reports it. What each one means
/// depends on the current view mode.
#[derive(Clone, Copy, PartialEq, Eq, Structural, Debug)]
pub enum Key {
    Char(char),
    Backspace,
    Enter,
    Esc,
    Delete,
    Tab,
    Up,
    Down,
    Left,
    Right,
}

/// One background crypto operation: which way it runs, what it reads, and
/// where it writes. Ephemeral: created on dispatch, gone on completion.
pub struct CryptoTask {
    pub operation: CryptoOp,
    pub source: Vec<u8>,
    pub target: Vec<u8>,
}

/// Model of a crypto task.
#[verifier::ext_equal]
pub ghost struct CryptoTaskModel {
    pub operation: CryptoOp,
    pub source: Seq<u8>,
    pub target: Seq<u8>,
}

impl View for CryptoTask {
    type V = CryptoTaskModel;

    open spec fn view(&self) -> CryptoTaskModel {
        CryptoTaskModel { operation: self.operation, source: self.source@, target: self.target@ }
    }
}

/// What the run loop must do after a dispatch, beyond the state mutation
/// the dispatch already applied: nothing, quit, fetch something from the
/// filesystem, or hand a task to the background.
pub enum Action {
    Nothing,
    Quit,
    CycleTheme,
    /// Fetch the preview or content the moved selection calls for.
    Preview(PreviewRequest),
    /// Enter this directory, selecting its first entry.
    NavigateInto { path: Vec<u8> },
    /// Load this file's content into the state.
    LoadFile { path: Vec<u8> },
    /// Enter the parent directory, re-selecting the directory we left.
    NavigateUp { path: Vec<u8>, select: SelectRequest },
    /// Remove this entry from the filesystem, then re-enter the working
    /// directory selecting the given index.
    DeleteEntry { path: Vec<u8>, refresh_select: usize },
    /// Create an entry with this name in the working directory, then
    /// re-enter it.
    CreateEntry { name: Vec<char>, refresh_select: SelectRequest },
    /// Rename this entry, then re-enter the working directory.
    RenameEntry { from: Vec<u8>, new_name: Vec<char>, refresh_select: SelectRequest },
    /// Seed the rename buffer with the selected entry's file name.
    SeedRename { seed: Vec<u8> },
    /// Run this crypto task off the loop; its target path is now claimed.
    Spawn(CryptoTask),
}

/// Model of an action.
#[verifier::ext_equal]
pub ghost enum ActionModel {
    Nothing,
    Quit,
    CycleTheme,
    Preview(PreviewModel),
    NavigateInto { path: Seq<u8> },
    LoadFile { path: Seq<u8> },
    NavigateUp { path: Seq<u8>, select: SelectModel },
    DeleteEntry { path: Seq<u8>, refresh_select: int },
    CreateEntry { name: Seq<char>, refresh_select: SelectModel },
    RenameEntry { from: Seq<u8>, new_name: Seq<char>, refresh_select: SelectModel },
    SeedRename { seed: Seq<u8> },
    Spawn(CryptoTaskModel),
}

impl View for Action {
    type V = ActionModel;

    open spec fn view(&self) -> ActionModel {
        match self {
            Action::Nothing => ActionModel::Nothing,
            Action::Quit => ActionModel::Quit,
            Action::CycleTheme => ActionModel::CycleTheme,
            Action::Preview(r) => ActionModel::Preview(r@),
            Action::NavigateInto { path } => ActionModel::NavigateInto { path: path@ },
            Action::LoadFile { path } => ActionModel::LoadFile { path: path@ },
            Action::NavigateUp { path, select } => ActionModel::NavigateUp {
                path: path@,
                select: select@,
            },
            Action::DeleteEntry { path, refresh_select } => ActionModel::DeleteEntry {
                path: path@,
                refresh_select: *refresh_select as int,
            },
            Action::CreateEntry { name, refresh_select } => ActionModel::CreateEntry {
                name: name@,
                refresh_select: refresh_select@,
            },
            Action::RenameEntry { from, new_name, refresh_select } => ActionModel::RenameEntry {
                from: from@,
                new_name: new_name@,
                refresh_select: refresh_select@,
            },
            Action::SeedRename { seed } => ActionModel::SeedRename { seed: seed@ },
            Action::Spawn(t) => ActionModel::Spawn(t@),
        }
    }
}

/// Everything one dispatch decides: the next interaction state, the next
/// explorer state, and the action the run loop owes.
#[verifier::ext_equal]
pub ghost struct DispatchOutcome {
    pub view: ViewModel,
    pub state: StateModel,
    pub action: ActionModel,
}

pub open spec fn outcome(v: ViewModel, s: StateModel, a: ActionModel) -> DispatchOutcome {
    DispatchOutcome { view: v, state: s, action: a }
}

/// The entry the selection rests on, when there is one in range.
pub open spec fn selected_of(p: PaneModel) -> Option<EntryModel> {
    match p.selected {
        Some(i) => if 0 <= i < p.entries.len() {
            Some(p.entries[i])
        } else {
            None
        },
        None => None,
    }
}

/// Text-entry handling, shared by Create and Edit: characters and
/// backspace edit the buffer, Escape discards, Enter commits the buffer as
/// a create or a rename and returns to the listing either way, success or
/// not.
pub open spec fn edit_dispatch_model(v: ViewModel, s: StateModel, key: Key) -> DispatchOutcome {
    match key {
        Key::Char(c) => outcome(
            ViewModel { input: input_push_model(v.input, c), ..v },
            s,
            ActionModel::Nothing,
        ),
        Key::Backspace => outcome(
            ViewModel { input: input_pop_model(v.input), ..v },
            s,
            ActionModel::Nothing,
        ),
        Key::Esc => outcome(reset_to_list_model(v), s, ActionModel::Nothing),
        Key::Enter => {
            let refresh = match s.current.selected {
                Some(i) => SelectModel::At(i),
                None => SelectModel::First,
            };
            if v.mode == ViewMode::Create {
                outcome(
                    reset_to_list_model(v),
                    s,
                    ActionModel::CreateEntry { name: v.input.name, refresh_select: refresh },
                )
            } else {
                match selected_of(s.current) {
                    Some(e) => outcome(
                        reset_to_list_model(v),
                        s,
                        ActionModel::RenameEntry {
                            from: e.path,
                            new_name: v.input.name,
                            refresh_select: refresh,
                        },
                    ),
                    None => outcome(reset_to_list_model(v), s, ActionModel::Nothing),
                }
            }
        },
        _ => outcome(v, s, ActionModel::Nothing),
    }
}

/// The encrypt command: only a file can be encrypted, its target name is
/// the source with the encrypted suffix, and a target already in flight is
/// turned away rather than raced.
pub open spec fn encrypt_dispatch_model(s: StateModel) -> (StateModel, ActionModel) {
    match selected_of(s.current) {
        None => (s, ActionModel::Nothing),
        Some(e) => if e.kind == EntryKind::File {
            let target = encrypted_name_model(e.path);
            if s.in_flight.contains(target) {
                (StateModel { status: Some(StatusMessage::OperationPending), ..s },
                ActionModel::Nothing)
            } else {
                (StateModel { in_flight: s.in_flight.push(target), ..s },
                ActionModel::Spawn(
                    CryptoTaskModel { operation: CryptoOp::Encrypt, source: e.path, target },
                ))
            }
        } else {
            (StateModel { last_error: Some(ExplorerError::WrongEntryType), ..s },
            ActionModel::Nothing)
        },
    }
}

/// The decrypt command: only a file whose name carries the encrypted
/// suffix can be decrypted, its target is the name with the suffix
/// stripped, and an in-flight target is turned away.
pub open spec fn decrypt_dispatch_model(s: StateModel) -> (StateModel, ActionModel) {
    match selected_of(s.current) {
        None => (s, ActionModel::Nothing),
        Some(e) => if e.kind == EntryKind::File && has_enc_suffix(e.path) {
            let target = decrypted_name_model(e.path);
            if s.in_flight.contains(target) {
                (StateModel { status: Some(StatusMessage::OperationPending), ..s },
                ActionModel::Nothing)
            } else {
                (StateModel { in_flight: s.in_flight.push(target), ..s },
                ActionModel::Spawn(
                    CryptoTaskModel { operation: CryptoOp::Decrypt, source: e.path, target },
                ))
            }
        } else {
            (StateModel { last_error: Some(ExplorerError::WrongEntryType), ..s },
            ActionModel::Nothing)
        },
    }
}

/// Navigation over the listing: quit, new, rename, encrypt, decrypt,
/// theme, delete, the content toggle, selection moves, and entering or
/// leaving directories.
pub open spec fn list_dispatch_model(v: ViewModel, s: StateModel, key: Key) -> DispatchOutcome {
    match key {
        Key::Char(c) => if c == 'q' || c == 'Q' {
            outcome(v, s, ActionModel::Quit)
        } else if c == 'n' || c == 'N' {
            outcome(begin_create_model(v), s, ActionModel::Nothing)
        } else if c == 'r' || c == 'R' {
            match selected_of(s.current) {
                Some(e) => outcome(
                    begin_edit_model(v),
                    s,
                    ActionModel::SeedRename { seed: file_name_model(e.path) },
                ),
                None => outcome(v, s, ActionModel::Nothing),
            }
        } else if c == 'e' || c == 'E' {
            let r = encrypt_dispatch_model(s);
            outcome(v, r.0, r.1)
        } else if c == 'd' || c == 'D' {
            let r = decrypt_dispatch_model(s);
            outcome(v, r.0, r.1)
        } else if c == 'c' || c == 'C' {
            outcome(v, s, ActionModel::CycleTheme)
        } else {
            outcome(v, s, ActionModel::Nothing)
        },
        Key::Delete => match s.current.selected {
            Some(i) => if 0 <= i < s.current.entries.len() {
                outcome(
                    v,
                    s,
                    ActionModel::DeleteEntry {
                        path: s.current.entries[i].path,
                        refresh_select: if i > 0 {
                            i - 1
                        } else {
                            0
                        },
                    },
                )
            } else {
                outcome(v, s, ActionModel::Nothing)
            },
            None => outcome(v, s, ActionModel::Nothing),
        },
        Key::Tab => match selected_of(s.current) {
            Some(e) => if e.kind == EntryKind::File {
                outcome(ViewModel { mode: ViewMode::ContentView, ..v }, s, ActionModel::Nothing)
            } else {
                outcome(v, s, ActionModel::Nothing)
            },
            None => outcome(v, s, ActionModel::Nothing),
        },
        Key::Down => {
            let s2 = move_selection_model(s, 1);
            outcome(v, s2, ActionModel::Preview(preview_request_model(s2.current)))
        },
        Key::Up => {
            let s2 = move_selection_model(s, -1);
            outcome(v, s2, ActionModel::Preview(preview_request_model(s2.current)))
        },
        Key::Right => match descend_model(s.current) {
            crate::state::DescendModel::EnterDirectory(p) => outcome(
                v,
                s,
                ActionModel::NavigateInto { path: p },
            ),
            crate::state::DescendModel::LoadFile(p) => outcome(
                v,
                s,
                ActionModel::LoadFile { path: p },
            ),
            crate::state::DescendModel::Nothing => outcome(v, s, ActionModel::Nothing),
        },
        Key::Left => match s.parent {
            Some(pp) => outcome(
                v,
                s,
                ActionModel::NavigateUp { path: pp, select: SelectModel::ByPath(s.cwd) },
            ),
            None => outcome(v, s, ActionModel::Nothing),
        },
        _ => outcome(v, s, ActionModel::Nothing),
    }
}

/// Scrolling over the content: the arrows move the offsets within their
/// clamps, the toggle returns to the listing, quit and the theme cycle
/// stay available.
pub open spec fn content_dispatch_model(v: ViewModel, s: StateModel, key: Key) -> DispatchOutcome {
    match key {
        Key::Char(c) => if c == 'q' || c == 'Q' {
            outcome(v, s, ActionModel::Quit)
        } else if c == 'c' || c == 'C' {
            outcome(v, s, ActionModel::CycleTheme)
        } else {
            outcome(v, s, ActionModel::Nothing)
        },
        Key::Tab => outcome(leave_content_model(v), s, ActionModel::Nothing),
        Key::Down => outcome(
            ViewModel { scroll_y: scroll_down_model(v.scroll_y, s.line_count), ..v },
            s,
            ActionModel::Nothing,
        ),
        Key::Up => outcome(
            ViewModel {
                scroll_y: if v.scroll_y > 0 {
                    (v.scroll_y - 1) as u16
                } else {
                    0
                },
                ..v
            },
            s,
            ActionModel::Nothing,
        ),
        Key::Right => outcome(
            ViewModel {
                scroll_x: if v.scroll_x < u16::MAX {
                    (v.scroll_x + 1) as u16
                } else {
                    u16::MAX
                },
                ..v
            },
            s,
            ActionModel::Nothing,
        ),
        Key::Left => outcome(
            ViewModel {
                scroll_x: if v.scroll_x > 0 {
                    (v.scroll_x - 1) as u16
                } else {
                    0
                },
                ..v
            },
            s,
            ActionModel::Nothing,
        ),
        _ => outcome(v, s, ActionModel::Nothing),
    }
}

/// The whole dispatcher: a pure mapping from the current mode and one
/// input to the next interaction state, the next explorer state, and the
/// action the run loop owes.
pub open spec fn dispatch_model(v: ViewModel, s: StateModel, key: Key) -> DispatchOutcome {
    match v.mode {
        ViewMode::Create => edit_dispatch_model(v, s, key),
        ViewMode::Edit => edit_dispatch_model(v, s, key),
        ViewMode::ListView => list_dispatch_model(v, s, key),
        ViewMode::ContentView => content_dispatch_model(v, s, key),
    }
}

/// Apply one input to the interaction and explorer state and say what the
/// run loop must do next. Exactly the pure mapping `dispatch_model`.
pub fn dispatch(view: &mut ViewState, state: &mut ExplorerState, key: Key) -> (act: Action)
    requires
        old(state).wf(),
    ensures
        final(view)@ == dispatch_model(old(view)@, old(state)@, key).view,
        final(state)@ == dispatch_model(old(view)@, old(state)@, key).state,
        act@ == dispatch_model(old(view)@, old(state)@, key).action,
        final(state).wf(),
{
    let in_edit = view.mode == ViewMode::Create || view.mode == ViewMode::Edit;
    if in_edit {
        dispatch_edit(view, state, key)
    } else if view.mode == ViewMode::ListView {
        dispatch_list(view, state, key)
    } else {
        dispatch_content(view, state, key)
    }
}

fn dispatch_edit(view: &mut ViewState, state: &mut ExplorerState, key: Key) -> (act: Action)
    requires
        old(state).wf(),
        old(view)@.mode == ViewMode::Create || old(view)@.mode == ViewMode::Edit,
    ensures
        final(view)@ == edit_dispatch_model(old(view)@, old(state)@, key).view,
        final(state)@ == edit_dispatch_model(old(view)@, old(state)@, key).state,
        act@ == edit_dispatch_model(old(view)@, old(state)@, key).action,
        final(state).wf(),
{
    match key {
        Key::Char(c) => {
            view.push_char(c);
            Action::Nothing
        },
        Key::Backspace => {
            view.pop_char();
            Action::Nothing
        },
        Key::Esc => {
            view.reset_to_list();
            Action::Nothing
        },
        Key::Enter => {
            let refresh = match state.current_pane.selected {
                Some(i) => SelectRequest::At(i),
                None => SelectRequest::First,
            };
            let name = copy_chars(&view.input.name);
            let was_create = view.mode == ViewMode::Create;
            view.reset_to_list();
            if was_create {
                Action::CreateEntry { name, refresh_select: refresh }
            } else {
                let sel = match state.current_pane.selected_entry() {
                    Some(e) => Some(e.duplicate()),
                    None => None,
                };
                match sel {
                    Some(e) => Action::RenameEntry {
                        from: e.path,
                        new_name: name,
                        refresh_select: refresh,
                    },
                    None => Action::Nothing,
                }
            }
        },
        _ => Action::Nothing,
    }
}

fn dispatch_list(view: &mut ViewState, state: &mut ExplorerState, key: Key) -> (act: Action)
    requires
        old(state).wf(),
    ensures
        final(view)@ == list_dispatch_model(old(view)@, old(state)@, key).view,
        final(state)@ == list_dispatch_model(old(view)@, old(state)@, key).state,
        act@ == list_dispatch_model(old(view)@, old(state)@, key).action,
        final(state).wf(),
{
    match key {
        Key::Char(c) => {
            if c == 'q' || c == 'Q' {
                Action::Quit
            } else if c == 'n' || c == 'N' {
                view.begin_create();
                Action::Nothing
            } else if c == 'r' || c == 'R' {
                let sel = match state.current_pane.selected_entry() {
                    Some(e) => Some(e.duplicate()),
                    None => None,
                };
                match sel {
                    Some(e) => {
                        view.begin_edit();
                        Action::SeedRename { seed: file_name_of(&e.path) }
                    },
                    None => Action::Nothing,
                }
            } else if c == 'e' || c == 'E' {
                dispatch_encrypt(state)
            } else if c == 'd' || c == 'D' {
                dispatch_decrypt(state)
            } else if c == 'c' || c == 'C' {
                Action::CycleTheme
            } else {
                Action::Nothing
            }
        },
        Key::Delete => {
            let sel = match state.current_pane.selected_entry() {
                Some(e) => Some(e.duplicate()),
                None => None,
            };
            match sel {
                Some(e) => {
                    let i = match state.current_pane.selected {
                        Some(i) => i,
                        None => 0,
                    };
                    Action::DeleteEntry {
                        path: e.path,
                        refresh_select: if i > 0 {
                            i - 1
                        } else {
                            0
                        },
                    }
                },
                None => Action::Nothing,
            }
        },
        Key::Tab => {
            let sel = match state.current_pane.selected_entry() {
                Some(e) => Some(e.duplicate()),
                None => None,
            };
            match sel {
                Some(e) => {
                    if e.kind == EntryKind::File {
                        view.enter_content();
                    }
                    Action::Nothing
                },
                None => Action::Nothing,
            }
        },
        Key::Down => {
            let req = state.move_selection(1);
            Action::Preview(req)
        },
        Key::Up => {
            let req = state.move_selection(-1);
            Action::Preview(req)
        },
        Key::Right => {
            match state.descend_target() {
                DescendAction::EnterDirectory(p) => Action::NavigateInto { path: p },
                DescendAction::LoadFile(p) => Action::LoadFile { path: p },
                DescendAction::Nothing => Action::Nothing,
            }
        },
        Key::Left => {
            match state.ascend_target() {
                Some((path, select)) => Action::NavigateUp { path, select },
                None => Action::Nothing,
            }
        },
        _ => Action::Nothing,
    }
}

fn dispatch_encrypt(state: &mut ExplorerState) -> (act: Action)
    requires
        old(state).wf(),
    ensures
        final(state)@ == encrypt_dispatch_model(old(state)@).0,
        act@ == encrypt_dispatch_model(old(state)@).1,
        final(state).wf(),
{
    let sel = match state.current_pane.selected_entry() {
        Some(e) => Some(e.duplicate()),
        None => None,
    };
    match sel {
        None => Action::Nothing,
        Some(e) => {
            if e.kind == EntryKind::File {
                let target = encrypted_name(&e.path);
                if state.try_claim(&target) {
                    Action::Spawn(
                        CryptoTask { operation: CryptoOp::Encrypt, source: e.path, target },
                    )
                } else {
                    state.set_status(StatusMessage::OperationPending);
                    Action::Nothing
                }
            } else {
                state.record_error(ExplorerError::WrongEntryType);
                Action::Nothing
            }
        },
    }
}

fn dispatch_decrypt(state: &mut ExplorerState) -> (act: Action)
    requires
        old(state).wf(),
    ensures
        final(state)@ == decrypt_dispatch_model(old(state)@).0,
        act@ == decrypt_dispatch_model(old(state)@).1,
        final(state).wf(),
{
    let sel = match state.current_pane.selected_entry() {
        Some(e) => Some(e.duplicate()),
        None => None,
    };
    match sel {
        None => Action::Nothing,
        Some(e) => {
            if e.kind == EntryKind::File {
                match decrypted_name(&e.path) {
                    Some(target) => {
                        if state.try_claim(&target) {
                            Action::Spawn(
                                CryptoTask { operation: CryptoOp::Decrypt, source: e.path, target },
                            )
                        } else {
                            state.set_status(StatusMessage::OperationPending);
                            Action::Nothing
                        }
                    },
                    None => {
                        state.record_error(ExplorerError::WrongEntryType);
                        Action::Nothing
                    },
                }
            } else {
                state.record_error(ExplorerError::WrongEntryType);
                Action::Nothing
            }
        },
    }
}

fn dispatch_content(view: &mut ViewState, state: &mut ExplorerState, key: Key) -> (act: Action)
    requires
        old(state).wf(),
        old(view)@.mode == ViewMode::ContentView,
    ensures
        final(view)@ == content_dispatch_model(old(view)@, old(state)@, key).view,
        final(state)@ == content_dispatch_model(old(view)@, old(state)@, key).state,
        act@ == content_dispatch_model(old(view)@, old(state)@, key).action,
        final(state).wf(),
{
    match key {
        Key::Char(c) => {
            if c == 'q' || c == 'Q' {
                Action::Quit
            } else if c == 'c' || c == 'C' {
                Action::CycleTheme
            } else {
                Action::Nothing
            }
        },
        Key::Tab => {
            view.leave_content();
            Action::Nothing
        },
        Key::Down => {
            view.scroll_down(state.line_count);
            Action::Nothing
        },
        Key::Up => {
            view.scroll_up();
            Action::Nothing
        },
        Key::Right => {
            view.scroll_right();
            Action::Nothing
        },
        Key::Left => {
            view.scroll_left();
            Action::Nothing
        },
        _ => Action::Nothing,
    }
}

} // verus!
