use vstd::prelude::*;

verus! {

/// What kind of filesystem object an entry names.
#[derive(Clone, Copy, PartialEq, Eq, Structural, Debug)]
pub enum EntryKind {
    Directory,
    File,
    Symlink,
    Other,
}

/// Mathematical model of an entry: its full path as a byte string, and its kind.
#[verifier::ext_equal]
pub ghost struct EntryModel {
    pub path: Seq<u8>,
    pub kind: EntryKind,
}

/// One row of a pane: an entry's full path, as the directory listing reported
/// it, together with its kind. Entries are immutable once produced; a pane is
/// replaced wholesale on every refresh.
pub struct Entry {
    pub path: Vec<u8>,
    pub kind: EntryKind,
}

impl View for Entry {
    type V = EntryModel;

    open spec fn view(&self) -> EntryModel {
        EntryModel { path: self.path@, kind: self.kind }
    }
}

/// An exact copy of a byte string.
pub fn copy_bytes(v: &Vec<u8>) -> (r: Vec<u8>)
    ensures
        r@ == v@,
{
    let mut out: Vec<u8> = Vec::new();
    let mut i: usize = 0;
    while i < v.len()
        invariant
            i <= v.len(),
            out@ =~= v@.take(i as int),
        decreases v.len() - i,
    {
        out.push(v[i]);
        i = i + 1;
    }
    proof {
        assert(v@.take(v@.len() as int) =~= v@);
    }
    out
}

/// Whether two byte strings hold the same bytes.
pub fn bytes_eq(a: &Vec<u8>, b: &Vec<u8>) -> (r: bool)
    ensures
        r == (a@ == b@),
{
    if a.len() != b.len() {
        return false;
    }
    let mut i: usize = 0;
    while i < a.len()
        invariant
            i <= a.len(),
            a@.len() == b@.len(),
            forall|j: int| 0 <= j < i ==> a@[j] == b@[j],
        decreases a.len() - i,
    {
        if a[i] != b[i] {
            return false;
        }
        i = i + 1;
    }
    proof {
        assert(a@ =~= b@);
    }
    true
}

impl Entry {
    /// An exact copy of the entry.
    pub fn duplicate(&self) -> (r: Entry)
        ensures
            r@ == self@,
    {
        Entry { path: copy_bytes(&self.path), kind: self.kind }
    }
}

/// The models of a sequence of entries.
pub open spec fn models(s: Seq<Entry>) -> Seq<EntryModel> {
    s.map_values(|e: Entry| e@)
}

/// The paths of a sequence of entry models.
pub open spec fn path_seq(es: Seq<EntryModel>) -> Seq<Seq<u8>> {
    es.map_values(|e: EntryModel| e.path)
}

pub open spec fn is_directory(e: EntryModel) -> bool {
    e.kind == EntryKind::Directory
}

/// The listing order of a pane: directories first, then everything else,
/// each group in the order the listing reported it.
pub open spec fn dirs_first_model(raw: Seq<EntryModel>) -> Seq<EntryModel> {
    raw.filter(|e: EntryModel| is_directory(e)) + raw.filter(|e: EntryModel| !is_directory(e))
}

/// A pane keeps every entry of its raw listing: putting directories first
/// reorders the entries and loses none of them.
pub proof fn lemma_dirs_first_len(raw: Seq<EntryModel>)
    ensures
        dirs_first_model(raw).len() == raw.len(),
    decreases raw.len(),
{
    reveal(Seq::filter);
    if raw.len() != 0 {
        lemma_dirs_first_len(raw.drop_last());
    }
}

/// One step of `filter` along a growing prefix.
pub proof fn lemma_filter_take_step<A>(s: Seq<A>, p: spec_fn(A) -> bool, i: int)
    requires
        0 <= i < s.len(),
    ensures
        s.take(i + 1).filter(p) == if p(s[i]) {
            s.take(i).filter(p).push(s[i])
        } else {
            s.take(i).filter(p)
        },
{
    reveal(Seq::filter);
    assert(s.take(i + 1).drop_last() =~= s.take(i));
    assert(s.take(i + 1).last() == s[i]);
}

/// Partition a raw listing: directories first, then the rest, keeping the
/// listing order inside each group.
pub fn dirs_first(raw: Vec<Entry>) -> (r: Vec<Entry>)
    ensures
        models(r@) == dirs_first_model(models(raw@)),
{
    let ghost m = models(raw@);
    let mut dirs: Vec<Entry> = Vec::new();
    let mut files: Vec<Entry> = Vec::new();
    let mut i: usize = 0;
    while i < raw.len()
        invariant
            i <= raw.len(),
            m == models(raw@),
            m.len() == raw@.len(),
            models(dirs@) =~= m.take(i as int).filter(|e: EntryModel| is_directory(e)),
            models(files@) =~= m.take(i as int).filter(|e: EntryModel| !is_directory(e)),
        decreases raw.len() - i,
    {
        let e = raw[i].duplicate();
        proof {
            assert(m[i as int] == raw@[i as int]@);
            lemma_filter_take_step(m, |e: EntryModel| is_directory(e), i as int);
            lemma_filter_take_step(m, |e: EntryModel| !is_directory(e), i as int);
        }
        if e.kind == EntryKind::Directory {
            proof {
                assert(models(dirs@.push(e)) =~= models(dirs@).push(e@));
            }
            dirs.push(e);
        } else {
            proof {
                assert(models(files@.push(e)) =~= models(files@).push(e@));
            }
            files.push(e);
        }
        i = i + 1;
    }
    proof {
        assert(m.take(raw@.len() as int) =~= m);
    }
    let mut out = dirs;
    out.append(&mut files);
    proof {
        assert(models(out@) =~= dirs_first_model(m));
    }
    out
}

/// How the caller asks a freshly built pane to place its selection.
pub enum SelectRequest {
    /// Select the first entry (the default).
    First,
    /// Select this index, clamped to the last valid index if the pane shrank.
    At(usize),
    /// Select the entry with this path, or the first entry if it is gone.
    ByPath(Vec<u8>),
}

/// Model of a selection request.
pub ghost enum SelectModel {
    First,
    At(int),
    ByPath(Seq<u8>),
}

impl View for SelectRequest {
    type V = SelectModel;

    open spec fn view(&self) -> SelectModel {
        match self {
            SelectRequest::First => SelectModel::First,
            SelectRequest::At(i) => SelectModel::At(*i as int),
            SelectRequest::ByPath(p) => SelectModel::ByPath(p@),
        }
    }
}

/// The selection a request resolves to in a pane with these entries:
/// `None` exactly when the pane is empty, otherwise an index clamped into
/// range, with a missing requested path falling back to the first entry.
pub open spec fn resolve_select_model(entries: Seq<EntryModel>, want: SelectModel) -> Option<int> {
    if entries.len() == 0 {
        None
    } else {
        Some(
            match want {
                SelectModel::First => 0int,
                SelectModel::At(i) => if i < entries.len() {
                    i
                } else {
                    entries.len() - 1
                },
                SelectModel::ByPath(p) => match path_seq(entries).index_of_first(p) {
                    Some(i) => i,
                    None => 0int,
                },
            },
        )
    }
}

/// Model of a pane: its entries in display order and the selected index.
#[verifier::ext_equal]
pub ghost struct PaneModel {
    pub entries: Seq<EntryModel>,
    pub selected: Option<int>,
}

pub open spec fn opt_index(o: Option<usize>) -> Option<int> {
    match o {
        Some(i) => Some(i as int),
        None => None,
    }
}

/// An ordered, selectable list of directory entries shown in one screen
/// region.
pub struct Pane {
    pub entries: Vec<Entry>,
    pub selected: Option<usize>,
}

impl View for Pane {
    type V = PaneModel;

    open spec fn view(&self) -> PaneModel {
        PaneModel { entries: models(self.entries@), selected: opt_index(self.selected) }
    }
}

/// The pane a raw listing and a selection request build.
pub open spec fn pane_model(raw: Seq<EntryModel>, want: SelectModel) -> PaneModel {
    let entries = dirs_first_model(raw);
    PaneModel { entries, selected: resolve_select_model(entries, want) }
}

impl Pane {
    /// The pane invariant: the selected index, when present, is in range.
    pub open spec fn wf(&self) -> bool {
        match self.selected {
            Some(i) => (i as int) < self.entries@.len(),
            None => true,
        }
    }

    /// A pane with no entries and no selection.
    pub fn empty() -> (p: Pane)
        ensures
            p@.entries.len() == 0,
            p@.selected is None,
            p.wf(),
    {
        let p = Pane { entries: Vec::new(), selected: None };
        proof {
            assert(models(p.entries@) =~= Seq::<EntryModel>::empty());
        }
        p
    }

    /// Build a pane from a raw listing: directories first, then the
    /// selection resolved as requested.
    pub fn build(raw: Vec<Entry>, want: &SelectRequest) -> (p: Pane)
        ensures
            p@ == pane_model(models(raw@), want@),
            p.wf(),
    {
        let entries = dirs_first(raw);
        let selected = resolve_select(&entries, want);
        Pane { entries, selected }
    }

    /// The selected entry, when there is one.
    pub fn selected_entry(&self) -> (r: Option<&Entry>)
        requires
            self.wf(),
        ensures
            match r {
                Some(e) => self@.selected matches Some(i) && 0 <= i < self@.entries.len()
                    && self@.entries[i] == e@,
                None => self@.selected is None,
            },
    {
        match self.selected {
            Some(i) => Some(&self.entries[i]),
            None => None,
        }
    }
}

/// Resolve a selection request against entries already in display order.
fn resolve_select(entries: &Vec<Entry>, want: &SelectRequest) -> (r: Option<usize>)
    ensures
        opt_index(r) == resolve_select_model(models(entries@), want@),
        match r {
            Some(i) => i < entries@.len(),
            None => entries@.len() == 0,
        },
{
    if entries.len() == 0 {
        return None;
    }
    match want {
        SelectRequest::First => Some(0),
        SelectRequest::At(i) => {
            if *i < entries.len() {
                Some(*i)
            } else {
                Some(entries.len() - 1)
            }
        },
        SelectRequest::ByPath(p) => {
            proof {
                path_seq(models(entries@)).index_of_first_ensures(p@);
            }
            let found = find_first_path(entries, p);
            match found {
                Some(i) => Some(i),
                None => Some(0),
            }
        },
    }
}

/// The first index whose entry has this path, if any.
fn find_first_path(entries: &Vec<Entry>, p: &Vec<u8>) -> (r: Option<usize>)
    ensures
        opt_index(r) == path_seq(models(entries@)).index_of_first(p@),
{
    let ghost paths = path_seq(models(entries@));
    proof {
        assert(paths.len() == entries@.len());
        paths.index_of_first_ensures(p@);
    }
    let mut i: usize = 0;
    while i < entries.len()
        invariant
            i <= entries.len(),
            paths == path_seq(models(entries@)),
            paths.len() == entries@.len(),
            forall|j: int| 0 <= j < i ==> paths[j] != p@,
        decreases entries.len() - i,
    {
        proof {
            assert(paths[i as int] == entries@[i as int].path@);
        }
        if bytes_eq(&entries[i].path, p) {
            proof {
                assert(paths[i as int] == p@);
                assert(paths.contains(p@)) by {
                    assert(paths[i as int] == p@);
                }
                paths.index_of_first_ensures(p@);
                match paths.index_of_first(p@) {
                    Some(idx) => {
                        if idx < i as int {
                            assert(paths[idx] == p@);
                            assert(false);
                        }
                        if idx > i as int {
                            assert(paths[i as int] != p@);
                            assert(false);
                        }
                    },
                    None => {
                        assert(false);
                    },
                }
            }
            return Some(i);
        }
        i = i + 1;
    }
    proof {
        if paths.contains(p@) {
            let witness = choose|j: int| 0 <= j < paths.len() && paths[j] == p@;
            assert(paths[witness] != p@);
        }
    }
    None
}

} // verus!
