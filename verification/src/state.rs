use vstd::prelude::*;

use crate::errors::ExplorerError;
use crate::errors::StatusMessage;
use crate::meta::count_lines;
use crate::meta::line_count_model;
use crate::meta::permission_model;
use crate::meta::permission_string;
use crate::pane::copy_bytes;
use crate::pane::dirs_first_model;
use crate::pane::models;
use crate::pane::opt_index;
use crate::pane::pane_model;
use crate::pane::Entry;
use crate::pane::EntryKind;
use crate::pane::Pane;
use crate::pane::PaneModel;
use crate::pane::SelectModel;
use crate::pane::SelectRequest;
use crate::paths::parent_model;
use crate::paths::parent_of;

verus! {

/// The follow-up work a navigation step asks of its caller: fill the
/// preview pane from the selected directory, or load the selected file's
/// content and permission, or nothing at all.
pub enum PreviewRequest {
    Nothing,
    Directory(Vec<u8>),
    FileContent(Vec<u8>),
}

/// Model of a preview request.
pub ghost enum PreviewModel {
    Nothing,
    Directory(Seq<u8>),
    FileContent(Seq<u8>),
}

impl View for PreviewRequest {
    type V = PreviewModel;

    open spec fn view(&self) -> PreviewModel {
        match self {
            PreviewRequest::Nothing => PreviewModel::Nothing,
            PreviewRequest::Directory(p) => PreviewModel::Directory(p@),
            PreviewRequest::FileContent(p) => PreviewModel::FileContent(p@),
        }
    }
}

/// The preview a pane's selection calls for: its directory listing for a
/// selected directory, its content for a selected file, nothing otherwise.
pub open spec fn preview_request_model(p: PaneModel) -> PreviewModel {
    match p.selected {
        Some(i) => if 0 <= i < p.entries.len() {
            match p.entries[i].kind {
                EntryKind::Directory => PreviewModel::Directory(p.entries[i].path),
                EntryKind::File => PreviewModel::FileContent(p.entries[i].path),
                _ => PreviewModel::Nothing,
            }
        } else {
            PreviewModel::Nothing
        },
        None => PreviewModel::Nothing,
    }
}

/// What descending into the selection means: entering a selected
/// directory, loading a selected file's content, or nothing.
pub enum DescendAction {
    Nothing,
    EnterDirectory(Vec<u8>),
    LoadFile(Vec<u8>),
}

/// Model of a descend action.
pub ghost enum DescendModel {
    Nothing,
    EnterDirectory(Seq<u8>),
    LoadFile(Seq<u8>),
}

impl View for DescendAction {
    type V = DescendModel;

    open spec fn view(&self) -> DescendModel {
        match self {
            DescendAction::Nothing => DescendModel::Nothing,
            DescendAction::EnterDirectory(p) => DescendModel::EnterDirectory(p@),
            DescendAction::LoadFile(p) => DescendModel::LoadFile(p@),
        }
    }
}

pub open spec fn descend_model(p: PaneModel) -> DescendModel {
    match p.selected {
        Some(i) => if 0 <= i < p.entries.len() {
            match p.entries[i].kind {
                EntryKind::Directory => DescendModel::EnterDirectory(p.entries[i].path),
                EntryKind::File => DescendModel::LoadFile(p.entries[i].path),
                _ => DescendModel::Nothing,
            }
        } else {
            DescendModel::Nothing
        },
        None => DescendModel::Nothing,
    }
}

/// Which way a finished background crypto task ran.
#[derive(Clone, Copy, PartialEq, Eq, Structural, Debug)]
pub enum CryptoOp {
    Encrypt,
    Decrypt,
}

pub open spec fn opt_bytes(o: Option<Vec<u8>>) -> Option<Seq<u8>> {
    match o {
        Some(v) => Some(v@),
        None => None,
    }
}

pub open spec fn byte_seqs(s: Seq<Vec<u8>>) -> Seq<Seq<u8>> {
    s.map_values(|v: Vec<u8>| v@)
}

pub open spec fn no_dups(s: Seq<Seq<u8>>) -> bool {
    forall|i: int, j: int| 0 <= i < j < s.len() ==> s[i] != s[j]
}

/// Model of the whole explorer state.
#[verifier::ext_equal]
pub ghost struct StateModel {
    pub cwd: Seq<u8>,
    pub parent: Option<Seq<u8>>,
    pub current: PaneModel,
    pub parent_pane: PaneModel,
    pub preview: PaneModel,
    pub content: Option<Seq<u8>>,
    pub line_count: nat,
    pub permission: Seq<u8>,
    pub last_error: Option<ExplorerError>,
    pub status: Option<StatusMessage>,
    pub in_flight: Seq<Seq<u8>>,
}

/// The single shared model of where the user is and what they are looking
/// at. Exactly one instance exists per run; the run loop and finished
/// background tasks mutate it only under mutual exclusion, so every reader
/// sees a complete, self-consistent snapshot.
pub struct ExplorerState {
    /// The canonical current working directory.
    pub cwd: Vec<u8>,
    /// Its parent directory, when it has one.
    pub parent: Option<Vec<u8>>,
    /// The listing of `cwd`, with the user's selection.
    pub current_pane: Pane,
    /// The listing of the parent, with `cwd`'s own position selected.
    pub parent_pane: Pane,
    /// The peek into the selected sub-directory.
    pub preview_pane: Pane,
    /// The selected file's bytes, once loaded.
    pub content: Option<Vec<u8>>,
    /// How many lines `content` holds; bounds content scrolling.
    pub line_count: usize,
    /// The selected entry's permission string.
    pub permission: Vec<u8>,
    /// The most recent error, cleared by the next navigation.
    pub last_error: Option<ExplorerError>,
    /// The most recent background-task notice.
    pub status_message: Option<StatusMessage>,
    /// Target paths with a crypto task still in flight; a second request
    /// against one of them is rejected rather than raced.
    pub in_flight: Vec<Vec<u8>>,
}

impl View for ExplorerState {
    type V = StateModel;

    open spec fn view(&self) -> StateModel {
        StateModel {
            cwd: self.cwd@,
            parent: opt_bytes(self.parent),
            current: self.current_pane@,
            parent_pane: self.parent_pane@,
            preview: self.preview_pane@,
            content: opt_bytes(self.content),
            line_count: self.line_count as nat,
            permission: self.permission@,
            last_error: self.last_error,
            status: self.status_message,
            in_flight: byte_seqs(self.in_flight@),
        }
    }
}

/// The state an `enter` produces: everything about the new directory is
/// rebuilt from the listings, the selection is resolved as requested, the
/// last error is cleared, and the rest is carried over.
pub open spec fn enter_model(
    s: StateModel,
    cwd: Seq<u8>,
    listing: Seq<crate::pane::EntryModel>,
    parent_listing: Seq<crate::pane::EntryModel>,
    want: SelectModel,
) -> StateModel {
    StateModel {
        cwd: cwd,
        parent: parent_model(cwd),
        current: pane_model(listing, want),
        parent_pane: pane_model(parent_listing, SelectModel::ByPath(cwd)),
        last_error: None,
        ..s
    }
}

pub open spec fn clamp_to(v: int, hi: int) -> int {
    if v < 0 {
        0
    } else if v > hi {
        hi
    } else {
        v
    }
}

/// The state a selection move produces: the index saturates at both ends
/// of the pane, nothing wraps around, and the last error is cleared.
pub open spec fn move_selection_model(s: StateModel, delta: int) -> StateModel {
    let sel = match s.current.selected {
        Some(i) => Some(clamp_to(i + delta, s.current.entries.len() - 1)),
        None => None,
    };
    StateModel {
        current: PaneModel { entries: s.current.entries, selected: sel },
        last_error: None,
        ..s
    }
}

/// The in-flight registry after one claim on `target` is released.
pub open spec fn release_model(in_flight: Seq<Seq<u8>>, target: Seq<u8>) -> Seq<Seq<u8>> {
    match in_flight.index_of_first(target) {
        Some(i) => in_flight.remove(i),
        None => in_flight,
    }
}

/// The state a finished crypto task leaves: its claim on the target is
/// released, and either a completion notice or a crypto failure is posted.
pub open spec fn complete_crypto_model(
    s: StateModel,
    target: Seq<u8>,
    op: CryptoOp,
    succeeded: bool,
) -> StateModel {
    StateModel {
        in_flight: release_model(s.in_flight, target),
        status: if succeeded {
            match op {
                CryptoOp::Encrypt => Some(StatusMessage::EncryptionCompleted),
                CryptoOp::Decrypt => Some(StatusMessage::DecryptionCompleted),
            }
        } else {
            s.status
        },
        last_error: if succeeded {
            s.last_error
        } else {
            Some(ExplorerError::CryptoFailure)
        },
        ..s
    }
}

/// The state the explorer starts from, before the first `enter`.
pub open spec fn initial_model() -> StateModel {
    StateModel {
        cwd: Seq::empty(),
        parent: None,
        current: PaneModel { entries: Seq::empty(), selected: None },
        parent_pane: PaneModel { entries: Seq::empty(), selected: None },
        preview: PaneModel { entries: Seq::empty(), selected: None },
        content: None,
        line_count: 0,
        permission: Seq::empty(),
        last_error: None,
        status: None,
        in_flight: Seq::empty(),
    }
}

/// Navigation round trip: after entering a directory, ascending to its
/// parent and descending again lands back in that directory with the same
/// pane and the same selected entry, as long as the listings are unchanged
/// between the calls.
pub proof fn lemma_ascend_descend_round_trip(
    s0: StateModel,
    d: Seq<u8>,
    pp: Seq<u8>,
    listing: Seq<crate::pane::EntryModel>,
    parent_listing: Seq<crate::pane::EntryModel>,
    grandparent_listing: Seq<crate::pane::EntryModel>,
)
    requires
        parent_model(d) == Some(pp),
        forall|k: int|
            0 <= k < dirs_first_model(parent_listing).len() && dirs_first_model(
                parent_listing,
            )[k].path == d ==> dirs_first_model(parent_listing)[k].kind == EntryKind::Directory,
        exists|k: int|
            0 <= k < dirs_first_model(parent_listing).len() && dirs_first_model(
                parent_listing,
            )[k].path == d,
    ensures
        ({
            let s1 = enter_model(s0, d, listing, parent_listing, SelectModel::First);
            let s2 = enter_model(
                s1,
                pp,
                parent_listing,
                grandparent_listing,
                SelectModel::ByPath(s1.cwd),
            );
            let s3 = enter_model(s2, d, listing, parent_listing, SelectModel::First);
            &&& s1.parent == Some(pp)
            &&& descend_model(s2.current) == DescendModel::EnterDirectory(d)
            &&& s3.cwd == d
            &&& s3.current == s1.current
        }),
{
    let pl = dirs_first_model(parent_listing);
    let ps = crate::pane::path_seq(pl);
    let k = choose|k: int| 0 <= k < pl.len() && pl[k].path == d;
    assert(ps[k] == d);
    assert(ps.contains(d)) by {
        assert(ps[k] == d);
    }
    ps.index_of_first_ensures(d);
    match ps.index_of_first(d) {
        Some(idx) => {
            assert(pl[idx].path == d);
            assert(pl[idx].kind == EntryKind::Directory);
        },
        None => {
            assert(false);
        },
    }
}

/// Deleting the selected entry of a pane of `n` entries refreshes from the
/// shrunken listing into a pane of `n - 1` entries with the selection on
/// the previous index, and an emptied directory is left with no selection.
pub proof fn lemma_delete_refresh(
    s: StateModel,
    cwd: Seq<u8>,
    listing_after: Seq<crate::pane::EntryModel>,
    parent_listing: Seq<crate::pane::EntryModel>,
    i: int,
    n: int,
)
    requires
        0 <= i < n,
        listing_after.len() == n - 1,
    ensures
        ({
            let want = SelectModel::At(
                if i > 0 {
                    i - 1
                } else {
                    0
                },
            );
            let s2 = enter_model(s, cwd, listing_after, parent_listing, want);
            &&& s2.current.entries.len() == n - 1
            &&& (n == 1 ==> s2.current.selected is None)
            &&& (n > 1 ==> s2.current.selected == Some(
                if i > 0 {
                    i - 1
                } else {
                    0
                },
            ))
        }),
{
    crate::pane::lemma_dirs_first_len(listing_after);
}

/// Entering a directory is idempotent: with unchanged listings the panes
/// it builds depend only on the disk contents and the requested selection,
/// never on the state it found, so a second call produces identical panes.
pub proof fn lemma_enter_idempotent(
    s1: StateModel,
    s2: StateModel,
    cwd: Seq<u8>,
    listing: Seq<crate::pane::EntryModel>,
    parent_listing: Seq<crate::pane::EntryModel>,
    want: SelectModel,
)
    ensures
        ({
            let a = enter_model(s1, cwd, listing, parent_listing, want);
            let b = enter_model(s2, cwd, listing, parent_listing, want);
            &&& a.cwd == b.cwd
            &&& a.parent == b.parent
            &&& a.current == b.current
            &&& a.parent_pane == b.parent_pane
        }),
{
}

/// Selection boundaries: one step down at the last index is a no-op, one
/// step up at the first index is a no-op; nothing wraps around.
pub proof fn lemma_move_selection_boundary(s: StateModel)
    ensures
        (s.current.selected matches Some(i) && i == s.current.entries.len() - 1)
            ==> move_selection_model(s, 1).current.selected == s.current.selected,
        s.current.selected == Some(0int) ==> move_selection_model(s, -1).current.selected == Some(
            0int,
        ),
{
}

/// The preview follow-up a pane's current selection calls for.
pub fn preview_request_of(p: &Pane) -> (r: PreviewRequest)
    requires
        p.wf(),
    ensures
        r@ == preview_request_model(p@),
{
    match p.selected_entry() {
        None => PreviewRequest::Nothing,
        Some(e) => match e.kind {
            EntryKind::Directory => PreviewRequest::Directory(copy_bytes(&e.path)),
            EntryKind::File => PreviewRequest::FileContent(copy_bytes(&e.path)),
            _ => PreviewRequest::Nothing,
        },
    }
}

impl ExplorerState {
    /// The state invariant: every pane's selection is in range, and no
    /// target path is claimed twice.
    pub open spec fn wf(&self) -> bool {
        &&& self.current_pane.wf()
        &&& self.parent_pane.wf()
        &&& self.preview_pane.wf()
        &&& no_dups(byte_seqs(self.in_flight@))
    }

    /// A fresh state with nothing listed, loaded, pending or failed.
    pub fn new() -> (r: ExplorerState)
        ensures
            r@ == initial_model(),
            r.wf(),
    {
        let r = ExplorerState {
            cwd: Vec::new(),
            parent: None,
            current_pane: Pane::empty(),
            parent_pane: Pane::empty(),
            preview_pane: Pane::empty(),
            content: None,
            line_count: 0,
            permission: Vec::new(),
            last_error: None,
            status_message: None,
            in_flight: Vec::new(),
        };
        proof {
            assert(byte_seqs(r.in_flight@) =~= Seq::<Seq<u8>>::empty());
            assert(r@ =~= initial_model());
        }
        r
    }

    /// Move into a directory: rebuild both panes from the listings the
    /// caller read off the disk, resolve the selection, clear the last
    /// error, and say which preview should be fetched next.
    ///
    /// `cwd` must already be canonical; the parent pane highlights where
    /// `cwd` sits in its parent's listing.
    pub fn enter(
        &mut self,
        cwd: Vec<u8>,
        listing: Vec<Entry>,
        parent_listing: Vec<Entry>,
        want: SelectRequest,
    ) -> (req: PreviewRequest)
        requires
            old(self).wf(),
        ensures
            final(self)@ == enter_model(
                old(self)@,
                cwd@,
                models(listing@),
                models(parent_listing@),
                want@,
            ),
            final(self).wf(),
            req@ == preview_request_model(final(self)@.current),
    {
        let ghost cwd0 = cwd@;
        let ghost listing0 = models(listing@);
        let ghost parent_listing0 = models(parent_listing@);
        let cwd_copy = copy_bytes(&cwd);
        let pane = Pane::build(listing, &want);
        let req = preview_request_of(&pane);
        let parent_pane = Pane::build(parent_listing, &SelectRequest::ByPath(cwd_copy));
        self.parent = parent_of(&cwd);
        self.cwd = cwd;
        self.current_pane = pane;
        self.parent_pane = parent_pane;
        self.last_error = None;
        proof {
            assert(self@ =~= enter_model(old(self)@, cwd0, listing0, parent_listing0, want@));
        }
        req
    }

    /// Move the selection by `delta`, saturating at both ends of the pane,
    /// and say which preview the new selection calls for. Clears the last
    /// error, as every navigation does.
    pub fn move_selection(&mut self, delta: isize) -> (req: PreviewRequest)
        requires
            old(self).wf(),
        ensures
            final(self)@ == move_selection_model(old(self)@, delta as int),
            final(self).wf(),
            req@ == preview_request_model(final(self)@.current),
    {
        self.last_error = None;
        let req = match self.current_pane.selected {
            None => PreviewRequest::Nothing,
            Some(i) => {
                let len = self.current_pane.entries.len();
                let new_i: usize = if delta >= 0 {
                    let d = delta as usize;
                    if d > len - 1 - i {
                        len - 1
                    } else {
                        i + d
                    }
                } else {
                    let d: usize = if delta == isize::MIN {
                        (isize::MAX as usize) + 1
                    } else {
                        (-delta) as usize
                    };
                    if d > i {
                        0
                    } else {
                        i - d
                    }
                };
                self.current_pane.selected = Some(new_i);
                preview_request_of(&self.current_pane)
            },
        };
        proof {
            assert(self@ =~= move_selection_model(old(self)@, delta as int));
        }
        req
    }

    /// What descending into the current selection means.
    pub fn descend_target(&self) -> (r: DescendAction)
        requires
            self.wf(),
        ensures
            r@ == descend_model(self@.current),
    {
        match self.current_pane.selected_entry() {
            None => DescendAction::Nothing,
            Some(e) => match e.kind {
                EntryKind::Directory => DescendAction::EnterDirectory(copy_bytes(&e.path)),
                EntryKind::File => DescendAction::LoadFile(copy_bytes(&e.path)),
                _ => DescendAction::Nothing,
            },
        }
    }

    /// Where ascending leads: the parent directory, selecting the entry
    /// the user came from rather than the first one.
    pub fn ascend_target(&self) -> (r: Option<(Vec<u8>, SelectRequest)>)
        ensures
            match r {
                Some(t) => self@.parent matches Some(pp) && t.0@ == pp && t.1@
                    == SelectModel::ByPath(self@.cwd),
                None => self@.parent is None,
            },
    {
        match &self.parent {
            Some(p) => Some((copy_bytes(p), SelectRequest::ByPath(copy_bytes(&self.cwd)))),
            None => None,
        }
    }

    /// Fill the preview pane from a sub-directory listing. The preview
    /// carries no selection of its own.
    pub fn set_preview_dir(&mut self, listing: Vec<Entry>)
        requires
            old(self).wf(),
        ensures
            final(self)@ == (StateModel {
                preview: PaneModel { entries: dirs_first_model(models(listing@)), selected: None },
                ..old(self)@
            }),
            final(self).wf(),
    {
        let ghost listing0 = models(listing@);
        let entries = crate::pane::dirs_first(listing);
        self.preview_pane = Pane { entries, selected: None };
        proof {
            assert(self@ =~= (StateModel {
                preview: PaneModel { entries: dirs_first_model(listing0), selected: None },
                ..old(self)@
            }));
        }
    }

    /// Store a loaded file's bytes and recount its lines.
    pub fn set_content(&mut self, bytes: Vec<u8>)
        requires
            old(self).wf(),
        ensures
            final(self)@ == (StateModel {
                content: Some(bytes@),
                line_count: line_count_model(bytes@),
                ..old(self)@
            }),
            final(self).wf(),
    {
        self.line_count = count_lines(&bytes);
        self.content = Some(bytes);
    }

    /// Record the selected entry's permission string.
    pub fn set_permission(&mut self, kind: EntryKind, mode: u32)
        requires
            old(self).wf(),
        ensures
            final(self)@ == (StateModel { permission: permission_model(kind, mode), ..old(self)@ }),
            final(self).wf(),
    {
        self.permission = permission_string(kind, mode);
    }

    /// Record a recoverable error for the next frame to show.
    pub fn record_error(&mut self, e: ExplorerError)
        requires
            old(self).wf(),
        ensures
            final(self)@ == (StateModel { last_error: Some(e), ..old(self)@ }),
            final(self).wf(),
    {
        self.last_error = Some(e);
    }

    /// Post a status notice for the next frame to show.
    pub fn set_status(&mut self, msg: StatusMessage)
        requires
            old(self).wf(),
        ensures
            final(self)@ == (StateModel { status: Some(msg), ..old(self)@ }),
            final(self).wf(),
    {
        self.status_message = Some(msg);
    }

    /// The index of the claim on this target path, if one is held.
    fn find_claim(&self, target: &Vec<u8>) -> (r: Option<usize>)
        ensures
            opt_index(r) == byte_seqs(self.in_flight@).index_of_first(target@),
    {
        let ghost claims = byte_seqs(self.in_flight@);
        let mut i: usize = 0;
        while i < self.in_flight.len()
            invariant
                i <= self.in_flight@.len(),
                claims == byte_seqs(self.in_flight@),
                claims.len() == self.in_flight@.len(),
                forall|j: int| 0 <= j < i ==> claims[j] != target@,
            decreases self.in_flight@.len() - i,
        {
            proof {
                assert(claims[i as int] == self.in_flight@[i as int]@);
            }
            if crate::pane::bytes_eq(&self.in_flight[i], target) {
                proof {
                    assert(claims.contains(target@)) by {
                        assert(claims[i as int] == target@);
                    }
                    claims.index_of_first_ensures(target@);
                    match claims.index_of_first(target@) {
                        Some(idx) => {
                            if idx < i as int {
                                assert(claims[idx] == target@);
                                assert(false);
                            }
                            if idx > i as int {
                                assert(claims[i as int] != target@);
                                assert(false);
                            }
                        },
                        None => {
                            assert(false);
                        },
                    }
                }
                return Some(i);
            }
            i = i + 1;
        }
        proof {
            if claims.contains(target@) {
                let witness = choose|j: int| 0 <= j < claims.len() && claims[j] == target@;
                assert(claims[witness] != target@);
            }
            claims.index_of_first_ensures(target@);
        }
        None
    }

    /// Whether a crypto task already has this target path claimed.
    pub fn claim_held(&self, target: &Vec<u8>) -> (r: bool)
        ensures
            r == self@.in_flight.contains(target@),
    {
        proof {
            byte_seqs(self.in_flight@).index_of_first_ensures(target@);
        }
        match self.find_claim(target) {
            Some(_) => true,
            None => false,
        }
    }

    /// Claim a target path for a crypto task. Fails, changing nothing,
    /// when the path already has a task in flight: two tasks must never
    /// race on one output file.
    pub fn try_claim(&mut self, target: &Vec<u8>) -> (r: bool)
        requires
            old(self).wf(),
        ensures
            r == !old(self)@.in_flight.contains(target@),
            r ==> final(self)@ == (StateModel {
                in_flight: old(self)@.in_flight.push(target@),
                ..old(self)@
            }),
            !r ==> final(self)@ == old(self)@,
            final(self).wf(),
    {
        if self.claim_held(target) {
            proof {
                assert(self@ =~= old(self)@);
            }
            false
        } else {
            self.in_flight.push(copy_bytes(target));
            proof {
                assert(byte_seqs(self.in_flight@) =~= byte_seqs(
                    old(self).in_flight@,
                ).push(target@));
                assert(self@ =~= (StateModel {
                    in_flight: old(self)@.in_flight.push(target@),
                    ..old(self)@
                }));
            }
            true
        }
    }

    /// Release the claim a finished task held on its target path.
    pub fn release_claim(&mut self, target: &Vec<u8>)
        requires
            old(self).wf(),
        ensures
            final(self)@ == (StateModel {
                in_flight: release_model(old(self)@.in_flight, target@),
                ..old(self)@
            }),
            final(self).wf(),
    {
        let ghost claims = byte_seqs(self.in_flight@);
        match self.find_claim(target) {
            Some(i) => {
                proof {
                    claims.index_of_first_ensures(target@);
                }
                self.in_flight.remove(i);
                proof {
                    assert(byte_seqs(self.in_flight@) =~= claims.remove(i as int));
                    assert(self@ =~= (StateModel {
                        in_flight: release_model(old(self)@.in_flight, target@),
                        ..old(self)@
                    }));
                    let n = claims.remove(i as int);
                    assert forall|a: int, b: int| 0 <= a < b < n.len() implies n[a] != n[b] by {
                        if a < i as int {
                            assert(n[a] == claims[a]);
                        } else {
                            assert(n[a] == claims[a + 1]);
                        }
                        if b < i as int {
                            assert(n[b] == claims[b]);
                        } else {
                            assert(n[b] == claims[b + 1]);
                        }
                    }
                }
            },
            None => {
                proof {
                    assert(self@ =~= (StateModel {
                        in_flight: release_model(old(self)@.in_flight, target@),
                        ..old(self)@
                    }));
                }
            },
        }
    }

    /// Absorb a finished background crypto task: release its claim and
    /// post the completion notice or the failure. The caller refreshes the
    /// panes from the live filesystem afterwards, whatever the order the
    /// tasks finished in.
    pub fn complete_crypto(&mut self, target: &Vec<u8>, op: CryptoOp, succeeded: bool)
        requires
            old(self).wf(),
        ensures
            final(self)@ == complete_crypto_model(old(self)@, target@, op, succeeded),
            final(self).wf(),
    {
        self.release_claim(target);
        if succeeded {
            match op {
                CryptoOp::Encrypt => {
                    self.status_message = Some(StatusMessage::EncryptionCompleted);
                },
                CryptoOp::Decrypt => {
                    self.status_message = Some(StatusMessage::DecryptionCompleted);
                },
            }
        } else {
            self.last_error = Some(ExplorerError::CryptoFailure);
        }
        proof {
            assert(self@ =~= complete_crypto_model(old(self)@, target@, op, succeeded));
        }
    }
}

} // verus!
