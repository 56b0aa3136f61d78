use reader_store::history::{
    add_pdf_to_history, finish_add, read_pdf_history, set_pdf_history, HistoryError, PdfHistory,
    PdfHistoryData, PdfHistoryItem, HISTORY_CAP,
};
use reader_store::store::{IoError, Loaded, ReadFailure, SaveStage};

fn entry(path: &str, open_time: u64) -> PdfHistoryItem {
    PdfHistoryItem {
        id: format!("id-{}", open_time),
        name: format!("name-{}", open_time),
        path: path.to_string(),
        open_time,
        total_pages: None,
    }
}

fn paths(history: &PdfHistory) -> Vec<String> {
    history.items.iter().map(|e| e.path.clone()).collect()
}

fn numbered(count: u64) -> PdfHistory {
    let mut history = PdfHistory::default();
    for n in 0..count {
        add_pdf_to_history(&mut history, entry(&format!("/doc-{}.pdf", n), n));
    }
    history
}

#[test]
fn reopening_moves_the_entry_to_the_front() {
    let mut history = PdfHistory { items: Vec::new() };
    add_pdf_to_history(&mut history, entry("/a.pdf", 100));
    add_pdf_to_history(&mut history, entry("/b.pdf", 200));
    add_pdf_to_history(&mut history, entry("/a.pdf", 300));
    assert_eq!(paths(&history), vec!["/a.pdf", "/b.pdf"]);
    assert_eq!(history.items.len(), 2);
    assert_eq!(history.items[0].open_time, 300);
    assert_eq!(history.items[0].id, "id-300");
    assert_eq!(history.items[1].open_time, 200);
}

#[test]
fn first_open_gives_a_list_of_one() {
    let mut history = PdfHistory::default();
    let opened = PdfHistoryItem {
        id: "1".to_string(),
        name: "Paper".to_string(),
        path: "/papers/one.pdf".to_string(),
        open_time: 1_700_000_000_000,
        total_pages: Some(12),
    };
    add_pdf_to_history(&mut history, opened.clone());
    assert_eq!(history.items, vec![opened]);
}

#[test]
fn default_history_is_empty() {
    assert!(PdfHistory::default().items.is_empty());
    assert!(PdfHistoryData::default().items.is_empty());
}

#[test]
fn no_path_occurs_twice_after_many_opens() {
    let mut history = PdfHistory::default();
    let opened = ["/a", "/b", "/a", "/c", "/b", "/b", "/a", "/d", "/c"];
    for (n, path) in opened.iter().enumerate() {
        add_pdf_to_history(&mut history, entry(path, n as u64));
        assert_eq!(history.items[0].path, *path);
        assert_eq!(history.items[0].open_time, n as u64);
        let mut seen = paths(&history);
        seen.sort();
        seen.dedup();
        assert_eq!(seen.len(), history.items.len());
    }
    assert_eq!(paths(&history), vec!["/c", "/d", "/a", "/b"]);
}

#[test]
fn fifty_paths_fit() {
    let history = numbered(50);
    assert_eq!(history.items.len(), 50);
    assert_eq!(history.items[0].path, "/doc-49.pdf");
    assert_eq!(history.items[49].path, "/doc-0.pdf");
}

#[test]
fn the_fifty_first_path_evicts_the_oldest() {
    let mut history = numbered(50);
    let before = paths(&history);
    add_pdf_to_history(&mut history, entry("/doc-50.pdf", 50));
    assert_eq!(history.items.len(), HISTORY_CAP);
    assert_eq!(history.items.len(), 50);
    assert_eq!(history.items[0].path, "/doc-50.pdf");
    assert_eq!(history.items[49].path, "/doc-1.pdf");
    assert!(!paths(&history).contains(&"/doc-0.pdf".to_string()));
    assert_eq!(paths(&history)[1..], before[..49]);
}

#[test]
fn length_never_exceeds_the_cap() {
    let mut history = PdfHistory::default();
    for n in 0..120u64 {
        add_pdf_to_history(&mut history, entry(&format!("/doc-{}.pdf", n % 70), n));
        assert!(history.items.len() <= 50);
    }
    assert_eq!(history.items.len(), 50);
}

#[test]
fn reopening_in_a_full_list_keeps_its_length() {
    let mut history = numbered(50);
    add_pdf_to_history(&mut history, entry("/doc-0.pdf", 999));
    assert_eq!(history.items.len(), 50);
    assert_eq!(history.items[0].path, "/doc-0.pdf");
    assert_eq!(history.items[0].open_time, 999);
    assert_eq!(history.items[1].path, "/doc-49.pdf");
    assert_eq!(history.items[49].path, "/doc-1.pdf");
}

#[test]
fn reopening_the_front_entry_replaces_it() {
    let mut history = numbered(3);
    add_pdf_to_history(&mut history, entry("/doc-2.pdf", 77));
    assert_eq!(paths(&history), vec!["/doc-2.pdf", "/doc-1.pdf", "/doc-0.pdf"]);
    assert_eq!(history.items[0].open_time, 77);
}

#[test]
fn only_the_first_of_two_equal_paths_is_dropped() {
    let mut history = PdfHistory {
        items: vec![entry("/x", 1), entry("/dup", 2), entry("/y", 3), entry("/dup", 4)],
    };
    add_pdf_to_history(&mut history, entry("/dup", 5));
    assert_eq!(paths(&history), vec!["/dup", "/x", "/y", "/dup"]);
    let times: Vec<u64> = history.items.iter().map(|e| e.open_time).collect();
    assert_eq!(times, vec![5, 1, 3, 4]);
}

#[test]
fn an_overlong_list_is_cut_to_the_cap() {
    let mut history = PdfHistory {
        items: (0..80u64).map(|n| entry(&format!("/bulk-{}", n), n)).collect(),
    };
    add_pdf_to_history(&mut history, entry("/new", 1000));
    assert_eq!(history.items.len(), 50);
    assert_eq!(history.items[0].path, "/new");
    assert_eq!(history.items[1].path, "/bulk-0");
    assert_eq!(history.items[49].path, "/bulk-48");
}

#[test]
fn paths_differ_by_case_and_by_separator() {
    let mut history = PdfHistory::default();
    add_pdf_to_history(&mut history, entry("/A.pdf", 1));
    add_pdf_to_history(&mut history, entry("/a.pdf", 2));
    add_pdf_to_history(&mut history, entry("/a.pdf/", 3));
    assert_eq!(history.items.len(), 3);
}

#[test]
fn a_stored_history_is_loaded_as_it_is() {
    let stored = PdfHistory { items: vec![entry("/a", 1), entry("/a", 2)] };
    let loaded = read_pdf_history(Ok(stored.clone()));
    assert_eq!(loaded, Loaded::Stored(stored.clone()));
    assert!(!loaded.must_persist());
    assert_eq!(loaded.value(), stored);
}

#[test]
fn a_missing_history_is_empty_and_written() {
    let loaded = read_pdf_history(Err(ReadFailure::Missing));
    assert_eq!(loaded, Loaded::Fallback(PdfHistory { items: vec![] }, ReadFailure::Missing));
    assert!(loaded.must_persist());
    assert!(loaded.value().items.is_empty());
}

#[test]
fn a_malformed_history_is_empty_and_left_alone() {
    let reason = ReadFailure::Parse("expected value at line 1 column 1".to_string());
    let loaded = read_pdf_history(Err(reason.clone()));
    assert_eq!(loaded, Loaded::Fallback(PdfHistory::default(), reason));
    assert!(!loaded.must_persist());
}

#[test]
fn history_errors_name_the_operation() {
    let denied = IoError { stage: SaveStage::CreateFile, cause: "Permission denied (os error 13)".to_string() };
    assert_eq!(set_pdf_history(Ok(())), Ok(()));
    assert_eq!(finish_add(Ok(())), Ok(()));
    let written = set_pdf_history(Err(denied.clone()));
    assert_eq!(written, Err(HistoryError::Write(denied.clone())));
    assert_eq!(
        written.unwrap_err().message(),
        "Failed to write PDF history: Permission denied (os error 13)"
    );
    let recorded = finish_add(Err(denied.clone()));
    assert_eq!(recorded, Err(HistoryError::Record(denied)));
    assert_eq!(
        recorded.unwrap_err().message(),
        "Failed to save history: Permission denied (os error 13)"
    );
}
