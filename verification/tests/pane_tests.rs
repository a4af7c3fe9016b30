use filescout::meta::count_lines;
use filescout::meta::format_permissions;
use filescout::meta::permission_string;
use filescout::pane::dirs_first;
use filescout::pane::Entry;
use filescout::pane::EntryKind;
use filescout::pane::Pane;
use filescout::pane::SelectRequest;
use filescout::paths::file_name_of;
use filescout::paths::join_path;
use filescout::paths::parent_of;

fn dir(path: &str) -> Entry {
    Entry { path: path.as_bytes().to_vec(), kind: EntryKind::Directory }
}

fn file(path: &str) -> Entry {
    Entry { path: path.as_bytes().to_vec(), kind: EntryKind::File }
}

fn paths(p: &Pane) -> Vec<Vec<u8>> {
    p.entries.iter().map(|e| e.path.clone()).collect()
}

#[test]
fn dirs_come_first_in_listing_order() {
    let raw = vec![
        file("/d/a.txt"),
        dir("/d/sub"),
        file("/d/b.txt"),
        dir("/d/tub"),
    ];
    let sorted = dirs_first(raw);
    let got: Vec<Vec<u8>> = sorted.iter().map(|e| e.path.clone()).collect();
    assert_eq!(
        got,
        vec![
            b"/d/sub".to_vec(),
            b"/d/tub".to_vec(),
            b"/d/a.txt".to_vec(),
            b"/d/b.txt".to_vec(),
        ]
    );
}

#[test]
fn build_selects_first_by_default() {
    let p = Pane::build(vec![file("/d/a.txt"), dir("/d/sub")], &SelectRequest::First);
    assert_eq!(p.selected, Some(0));
    // The directory was moved ahead of the file.
    assert_eq!(paths(&p)[0], b"/d/sub".to_vec());
}

#[test]
fn build_of_empty_listing_has_no_selection() {
    let p = Pane::build(Vec::new(), &SelectRequest::At(3));
    assert_eq!(p.selected, None);
    assert!(p.entries.is_empty());
}

#[test]
fn build_clamps_index_into_range() {
    let p = Pane::build(vec![file("/d/a"), file("/d/b")], &SelectRequest::At(9));
    assert_eq!(p.selected, Some(1));
}

#[test]
fn build_finds_requested_path() {
    let p = Pane::build(
        vec![file("/d/a"), dir("/d/sub"), file("/d/b")],
        &SelectRequest::ByPath(b"/d/b".to_vec()),
    );
    // After sorting: [sub, a, b]; b sits at index 2.
    assert_eq!(p.selected, Some(2));
}

#[test]
fn build_falls_back_to_first_when_path_gone() {
    let p = Pane::build(
        vec![file("/d/a"), file("/d/b")],
        &SelectRequest::ByPath(b"/d/gone".to_vec()),
    );
    assert_eq!(p.selected, Some(0));
}

#[test]
fn permission_bits_render_exactly() {
    // 0o754: rwx r-x r--
    assert_eq!(format_permissions(0o754), b"rwxr-xr--".to_vec());
    assert_eq!(format_permissions(0), b"---------".to_vec());
    assert_eq!(format_permissions(0o777), b"rwxrwxrwx".to_vec());
}

#[test]
fn permission_string_marks_entry_kind() {
    assert_eq!(
        permission_string(EntryKind::Directory, 0o755),
        b"drwxr-xr-x".to_vec()
    );
    assert_eq!(
        permission_string(EntryKind::Symlink, 0o777),
        b"lrwxrwxrwx".to_vec()
    );
    assert_eq!(permission_string(EntryKind::File, 0o644), b"-rw-r--r--".to_vec());
}

#[test]
fn line_count_matches_text_viewers() {
    assert_eq!(count_lines(&Vec::new()), 0);
    assert_eq!(count_lines(&b"a".to_vec()), 1);
    assert_eq!(count_lines(&b"a\n".to_vec()), 1);
    assert_eq!(count_lines(&b"a\nb".to_vec()), 2);
    assert_eq!(count_lines(&b"a\nb\n\n".to_vec()), 3);
    assert_eq!(count_lines(&b"\n".to_vec()), 1);
}

#[test]
fn parent_of_walks_up_canonical_paths() {
    assert_eq!(parent_of(&b"/d/sub".to_vec()), Some(b"/d".to_vec()));
    assert_eq!(parent_of(&b"/d".to_vec()), Some(b"/".to_vec()));
    assert_eq!(parent_of(&b"/".to_vec()), None);
    assert_eq!(parent_of(&b"plain".to_vec()), None);
}

#[test]
fn file_name_takes_last_component() {
    assert_eq!(file_name_of(&b"/d/sub/a.txt".to_vec()), b"a.txt".to_vec());
    assert_eq!(file_name_of(&b"plain".to_vec()), b"plain".to_vec());
}

#[test]
fn join_path_inserts_one_slash() {
    assert_eq!(
        join_path(&b"/d".to_vec(), &b"notes.md".to_vec()),
        b"/d/notes.md".to_vec()
    );
}
