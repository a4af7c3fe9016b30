use filescout::errors::ExplorerError;
use filescout::errors::StatusMessage;
use filescout::pane::Entry;
use filescout::pane::EntryKind;
use filescout::pane::SelectRequest;
use filescout::state::CryptoOp;
use filescout::state::DescendAction;
use filescout::state::ExplorerState;
use filescout::state::PreviewRequest;

fn dir(path: &str) -> Entry {
    Entry { path: path.as_bytes().to_vec(), kind: EntryKind::Directory }
}

fn file(path: &str) -> Entry {
    Entry { path: path.as_bytes().to_vec(), kind: EntryKind::File }
}

fn d_listing() -> Vec<Entry> {
    vec![dir("/d/sub"), file("/d/a.txt")]
}

fn root_listing() -> Vec<Entry> {
    vec![dir("/d")]
}

#[test]
fn enter_selects_first_and_previews_directory() {
    // Scenario: /d holds [sub/, a.txt]; entering selects sub/ at index 0
    // and asks for its listing as the preview.
    let mut st = ExplorerState::new();
    let req = st.enter(b"/d".to_vec(), d_listing(), root_listing(), SelectRequest::First);
    assert_eq!(st.cwd, b"/d".to_vec());
    assert_eq!(st.parent, Some(b"/".to_vec()));
    assert_eq!(st.current_pane.selected, Some(0));
    assert_eq!(st.current_pane.entries[0].path, b"/d/sub".to_vec());
    match req {
        PreviewRequest::Directory(p) => assert_eq!(p, b"/d/sub".to_vec()),
        _ => panic!("expected a directory preview"),
    }
    st.set_preview_dir(vec![file("/d/sub/inner.txt")]);
    assert_eq!(st.preview_pane.entries.len(), 1);
    assert_eq!(st.preview_pane.entries[0].path, b"/d/sub/inner.txt".to_vec());
}

#[test]
fn enter_clears_last_error() {
    let mut st = ExplorerState::new();
    st.record_error(ExplorerError::NotFound);
    assert_eq!(st.last_error, Some(ExplorerError::NotFound));
    st.enter(b"/d".to_vec(), d_listing(), root_listing(), SelectRequest::First);
    assert_eq!(st.last_error, None);
}

#[test]
fn enter_twice_gives_identical_panes() {
    let mut a = ExplorerState::new();
    a.enter(b"/d".to_vec(), d_listing(), root_listing(), SelectRequest::At(1));
    let first: Vec<Vec<u8>> = a.current_pane.entries.iter().map(|e| e.path.clone()).collect();
    let first_sel = a.current_pane.selected;
    a.enter(b"/d".to_vec(), d_listing(), root_listing(), SelectRequest::At(1));
    let second: Vec<Vec<u8>> = a.current_pane.entries.iter().map(|e| e.path.clone()).collect();
    assert_eq!(first, second);
    assert_eq!(first_sel, a.current_pane.selected);
}

#[test]
fn ascend_then_descend_restores_directory_and_selection() {
    let mut st = ExplorerState::new();
    st.enter(b"/d/sub".to_vec(), Vec::new(), d_listing(), SelectRequest::First);
    assert_eq!(st.cwd, b"/d/sub".to_vec());

    // Ascend: back to /d, re-selecting sub, the directory we came from.
    let (parent, select) = st.ascend_target().unwrap();
    assert_eq!(parent, b"/d".to_vec());
    st.enter(parent, d_listing(), root_listing(), select);
    assert_eq!(st.cwd, b"/d".to_vec());
    assert_eq!(st.current_pane.selected, Some(0));
    assert_eq!(st.current_pane.entries[0].path, b"/d/sub".to_vec());

    // Descend: the selection is sub, so we land where we started.
    match st.descend_target() {
        DescendAction::EnterDirectory(p) => {
            assert_eq!(p, b"/d/sub".to_vec());
            st.enter(p, Vec::new(), d_listing(), SelectRequest::First);
        },
        _ => panic!("expected to descend into a directory"),
    }
    assert_eq!(st.cwd, b"/d/sub".to_vec());
}

#[test]
fn descend_on_file_loads_content_only() {
    let mut st = ExplorerState::new();
    st.enter(b"/d".to_vec(), d_listing(), root_listing(), SelectRequest::At(1));
    match st.descend_target() {
        DescendAction::LoadFile(p) => assert_eq!(p, b"/d/a.txt".to_vec()),
        _ => panic!("expected to load the file"),
    }
    st.set_content(b"one\ntwo".to_vec());
    assert_eq!(st.content, Some(b"one\ntwo".to_vec()));
    assert_eq!(st.line_count, 2);
}

#[test]
fn ascend_from_root_goes_nowhere() {
    let mut st = ExplorerState::new();
    st.enter(b"/".to_vec(), root_listing(), Vec::new(), SelectRequest::First);
    assert_eq!(st.parent, None);
    assert!(st.ascend_target().is_none());
}

#[test]
fn move_selection_saturates_at_both_ends() {
    let mut st = ExplorerState::new();
    st.enter(b"/d".to_vec(), d_listing(), root_listing(), SelectRequest::First);
    // At index 0, one step up is a no-op.
    st.move_selection(-1);
    assert_eq!(st.current_pane.selected, Some(0));
    // Down to the last index.
    st.move_selection(1);
    assert_eq!(st.current_pane.selected, Some(1));
    // At the last index, one step down is a no-op: no wraparound.
    st.move_selection(1);
    assert_eq!(st.current_pane.selected, Some(1));
    st.move_selection(-1);
    assert_eq!(st.current_pane.selected, Some(0));
}

#[test]
fn move_selection_requests_content_for_files() {
    let mut st = ExplorerState::new();
    st.enter(b"/d".to_vec(), d_listing(), root_listing(), SelectRequest::First);
    match st.move_selection(1) {
        PreviewRequest::FileContent(p) => assert_eq!(p, b"/d/a.txt".to_vec()),
        _ => panic!("expected a content request"),
    }
}

#[test]
fn move_selection_on_empty_pane_is_a_no_op() {
    let mut st = ExplorerState::new();
    st.enter(b"/d".to_vec(), Vec::new(), root_listing(), SelectRequest::First);
    assert_eq!(st.current_pane.selected, None);
    match st.move_selection(1) {
        PreviewRequest::Nothing => {},
        _ => panic!("expected nothing"),
    }
    assert_eq!(st.current_pane.selected, None);
}

#[test]
fn delete_refresh_moves_selection_to_previous_index() {
    // A pane of three entries; deleting index 1 refreshes to two entries
    // with index 0 selected.
    let mut st = ExplorerState::new();
    let three = vec![file("/d/a"), file("/d/b"), file("/d/c")];
    st.enter(b"/d".to_vec(), three, root_listing(), SelectRequest::At(1));
    assert_eq!(st.current_pane.selected, Some(1));
    let after = vec![file("/d/a"), file("/d/c")];
    st.enter(b"/d".to_vec(), after, root_listing(), SelectRequest::At(0));
    assert_eq!(st.current_pane.entries.len(), 2);
    assert_eq!(st.current_pane.selected, Some(0));
}

#[test]
fn delete_last_entry_leaves_empty_pane() {
    let mut st = ExplorerState::new();
    st.enter(b"/d".to_vec(), vec![file("/d/a")], root_listing(), SelectRequest::First);
    st.enter(b"/d".to_vec(), Vec::new(), root_listing(), SelectRequest::At(0));
    assert_eq!(st.current_pane.entries.len(), 0);
    assert_eq!(st.current_pane.selected, None);
}

#[test]
fn claims_are_exclusive_until_released() {
    let mut st = ExplorerState::new();
    let target = b"/d/a.txt.enc".to_vec();
    assert!(st.try_claim(&target));
    assert!(!st.try_claim(&target));
    assert!(st.claim_held(&target));
    st.release_claim(&target);
    assert!(!st.claim_held(&target));
    assert!(st.try_claim(&target));
}

#[test]
fn completed_encryption_posts_status_and_releases_claim() {
    let mut st = ExplorerState::new();
    let target = b"/d/a.txt.enc".to_vec();
    assert!(st.try_claim(&target));
    st.complete_crypto(&target, CryptoOp::Encrypt, true);
    assert_eq!(st.status_message, Some(StatusMessage::EncryptionCompleted));
    assert_eq!(st.last_error, None);
    assert!(!st.claim_held(&target));
}

#[test]
fn failed_decryption_posts_crypto_failure() {
    let mut st = ExplorerState::new();
    let target = b"/d/a.txt".to_vec();
    assert!(st.try_claim(&target));
    st.complete_crypto(&target, CryptoOp::Decrypt, false);
    assert_eq!(st.last_error, Some(ExplorerError::CryptoFailure));
    assert!(!st.claim_held(&target));
}

#[test]
fn each_error_variant_is_shown_until_navigation() {
    let mut st = ExplorerState::new();
    for e in [
        ExplorerError::NotFound,
        ExplorerError::PermissionDenied,
        ExplorerError::WrongEntryType,
        ExplorerError::CryptoFailure,
        ExplorerError::RefreshSignalFailure,
    ] {
        st.record_error(e);
        assert_eq!(st.last_error, Some(e));
    }
    st.move_selection(1);
    assert_eq!(st.last_error, None);
}

#[test]
fn permission_of_selected_file_is_recorded() {
    let mut st = ExplorerState::new();
    st.set_permission(EntryKind::File, 0o644);
    assert_eq!(st.permission, b"-rw-r--r--".to_vec());
}
