use research_master::utils::history::{HistoryEntry, HistoryEntryType, HistoryService};

#[test]
fn test_history_entry_struct_field_access() {
    let entry = HistoryEntry {
        entry_type: HistoryEntryType::Download,
        timestamp: 1_700_000_000,
        query: "paper-id".to_string(),
        source: Some("semantic".to_string()),
        title: Some("Accessible Fields".to_string()),
        details: Some("/papers/accessible-fields.pdf".to_string()),
    };

    assert_eq!(entry.entry_type, HistoryEntryType::Download);
    assert_eq!(entry.timestamp, 1_700_000_000);
    assert_eq!(entry.query, "paper-id");
    assert_eq!(entry.source.as_deref(), Some("semantic"));
    assert_eq!(entry.title.as_deref(), Some("Accessible Fields"));
    assert_eq!(
        entry.details.as_deref(),
        Some("/papers/accessible-fields.pdf")
    );
}

#[test]
fn test_default_implementation_matches_new() {
    let default_service = HistoryService::default();
    let new_service = HistoryService::new();

    assert_eq!(default_service.path(), new_service.path());
    assert_eq!(
        std::path::Path::new(default_service.path()).file_name().unwrap(),
        "history.jsonl"
    );
}

fn service() -> HistoryService {
    HistoryService::with_path("/tmp/history-test/history.jsonl")
}

#[test]
fn history_entries_carry_their_details() {
    let s = service();
    let search = s.add_search("deep learning", Some("arxiv"), 10);
    assert_eq!(search.entry_type, HistoryEntryType::Search);
    assert_eq!(search.timestamp, 10);
    assert_eq!(search.query, "deep learning");
    assert_eq!(search.source.as_deref(), Some("arxiv"));
    assert_eq!(search.title, None);
    assert_eq!(search.details, None);

    let download = s.add_download("2301.1", "arxiv", Some("Title"), Some("/tmp/a.pdf"), 11);
    assert_eq!(download.entry_type, HistoryEntryType::Download);
    assert_eq!(download.source.as_deref(), Some("arxiv"));
    assert_eq!(download.title.as_deref(), Some("Title"));
    assert_eq!(download.details.as_deref(), Some("/tmp/a.pdf"));

    let view = s.add_view("2301.1", "arxiv", None, 12);
    assert_eq!(view.entry_type, HistoryEntryType::View);
    assert_eq!(view.title, None);
    assert_eq!(view.details, None);
}

#[test]
fn history_reads_newest_first_within_limit() {
    let s = service();
    let lines = vec![
        Some(s.add_search("one", None, 1)),
        None,
        Some(s.add_search("two", None, 2)),
        Some(s.add_view("three", "arxiv", None, 3)),
        Some(s.add_search("four", None, 4)),
        Some(s.add_search("five", None, 5)),
    ];
    let recent = s.recent_entries(&lines, 2);
    let queries: Vec<&str> = recent.iter().map(|e| e.query.as_str()).collect();
    assert_eq!(queries, vec!["three", "two"]);
    let all = s.recent_entries(&lines, 10);
    let queries: Vec<&str> = all.iter().map(|e| e.query.as_str()).collect();
    assert_eq!(queries, vec!["five", "four", "three", "two", "one"]);
    assert!(s.recent_entries(&Vec::new(), 10).is_empty());
}

#[test]
fn history_filter_by_type_partitions() {
    let s = service();
    let entries = vec![
        s.add_search("a", None, 1),
        s.add_download("b", "arxiv", None, None, 2),
        s.add_view("c", "arxiv", None, 3),
        s.add_search("d", None, 4),
    ];
    let searches = s.filter_entries(&entries, HistoryEntryType::Search);
    let downloads = s.filter_entries(&entries, HistoryEntryType::Download);
    let views = s.filter_entries(&entries, HistoryEntryType::View);
    assert_eq!(searches.len() + downloads.len() + views.len(), entries.len());
    assert_eq!(searches.iter().map(|e| e.query.as_str()).collect::<Vec<_>>(), vec!["a", "d"]);
    let again = s.filter_entries(&searches, HistoryEntryType::Search);
    assert_eq!(again.len(), searches.len());
}

#[test]
fn history_paths_join_components() {
    let s = HistoryService::in_config_dir(Some("/home/u/.config"));
    assert_eq!(s.path(), "/home/u/.config/research-master/history.jsonl");
    let t = HistoryService::in_config_dir(Some("/home/u/.config/"));
    assert_eq!(t.path(), "/home/u/.config/research-master/history.jsonl");
    assert_eq!(service().path(), "/tmp/history-test/history.jsonl");
}

fn file_lines(entries: Vec<HistoryEntry>) -> Vec<Option<HistoryEntry>> {
    entries.into_iter().map(Some).collect()
}

#[test]
fn test_read_entries_limit_parameter() {
    let service = service();
    let lines = file_lines(vec![
        service.add_search("first", None, 1),
        service.add_search("second", None, 2),
        service.add_search("third", None, 3),
        service.add_search("fourth", None, 4),
    ]);

    let entries = service.recent_entries(&lines, 2);
    let queries: Vec<&str> = entries.iter().map(|entry| entry.query.as_str()).collect();

    assert_eq!(entries.len(), 2);
    assert_eq!(queries, vec!["fourth", "third"]);
}

#[test]
fn test_filter_entries_by_type() {
    let service = service();
    let lines = file_lines(vec![
        service.add_search("neural networks", Some("arxiv"), 1),
        service.add_download("2301.00002", "arxiv", Some("Download"), None, 2),
        service.add_view("2301.00003", "arxiv", Some("View"), 3),
    ]);

    let entries = service.recent_entries(&lines, 10);
    let searches = service.filter_entries(&entries, HistoryEntryType::Search);
    let downloads = service.filter_entries(&entries, HistoryEntryType::Download);
    let views = service.filter_entries(&entries, HistoryEntryType::View);

    assert_eq!(searches.len(), 1);
    assert_eq!(searches[0].query, "neural networks");
    assert_eq!(downloads.len(), 1);
    assert_eq!(downloads[0].query, "2301.00002");
    assert_eq!(views.len(), 1);
    assert_eq!(views[0].query, "2301.00003");
}

#[test]
fn test_multiple_entries_are_returned_newest_first() {
    let service = service();
    let lines = file_lines(vec![
        service.add_search("oldest", None, 1),
        service.add_download("middle", "arxiv", Some("Middle"), Some("/tmp/middle.pdf"), 2),
        service.add_view("newest", "pubmed", Some("Newest"), 3),
    ]);

    let entries = service.recent_entries(&lines, 10);
    let queries: Vec<&str> = entries.iter().map(|entry| entry.query.as_str()).collect();
    let types: Vec<HistoryEntryType> = entries
        .iter()
        .map(|entry| entry.entry_type.clone())
        .collect();

    assert_eq!(queries, vec!["newest", "middle", "oldest"]);
    assert_eq!(
        types,
        vec![
            HistoryEntryType::View,
            HistoryEntryType::Download,
            HistoryEntryType::Search,
        ]
    );
}
