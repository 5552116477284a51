use idig::{
    search_records, BasicQuery, File, FileQuery, FileRepository, MemoryIndex, SearchError,
    SearchParams, SearchService,
};

fn row(id: &str, domain: &str, path: &str, flags: i32, blob: &[u8]) -> File {
    File::from_index_row(id, domain.to_owned(), path.to_owned(), flags, blob.to_vec()).unwrap()
}

fn test_index() -> MemoryIndex {
    MemoryIndex::new(vec![
        row("356a192b7913b04c54574d18c28d46e6395428ab", "com.apple.news", "Documents/news.txt", 1, b"news content"),
        row("da4b9237bacccdf19c0760cab7aec4a8359010b0", "com.apple.photos", "Pictures/photo.jpg", 2, b"photo content"),
        row("77de68daecd823babbb58edb1c8e14d7106e83bb", "com.example.app", "Documents/example.txt", 3, b"example content"),
    ])
}

#[test]
fn test_search_domain_exact() {
    let repo = test_index();
    let results = repo.search(FileQuery::domain_exact("com.apple.news")).unwrap();

    assert_eq!(results.len(), 1);
    assert_eq!(results[0].domain().value(), "com.apple.news");
    assert_eq!(results[0].relative_path().value(), "Documents/news.txt");
}

#[test]
fn test_search_domain_contains() {
    let repo = test_index();
    let results = repo.search(FileQuery::domain_contains("apple")).unwrap();

    assert_eq!(results.len(), 2);
    let domains: Vec<&str> = results.iter().map(|f| f.domain().value()).collect();
    assert!(domains.contains(&"com.apple.news"));
    assert!(domains.contains(&"com.apple.photos"));
}

#[test]
fn test_search_path_exact() {
    let repo = test_index();
    let results = repo.search(FileQuery::path_exact("Documents/news.txt")).unwrap();

    assert_eq!(results.len(), 1);
    assert_eq!(results[0].relative_path().value(), "Documents/news.txt");
    assert_eq!(results[0].domain().value(), "com.apple.news");
}

#[test]
fn test_search_path_contains() {
    let repo = test_index();
    let results = repo.search(FileQuery::path_contains("Documents")).unwrap();

    assert_eq!(results.len(), 2);
    let paths: Vec<&str> = results.iter().map(|f| f.relative_path().value()).collect();
    assert!(paths.contains(&"Documents/news.txt"));
    assert!(paths.contains(&"Documents/example.txt"));
}

#[test]
fn test_search_any_of() {
    let repo = test_index();
    let query = FileQuery::any_of(vec![
        BasicQuery::DomainExact("com.apple.news".to_owned()),
        BasicQuery::PathContains("Pictures".to_owned()),
    ]);
    let results = repo.search(query).unwrap();

    assert_eq!(results.len(), 2);
    let file_ids: Vec<&str> = results.iter().map(|f| f.id().value()).collect();
    assert!(file_ids.contains(&"356a192b7913b04c54574d18c28d46e6395428ab"));
    assert!(file_ids.contains(&"da4b9237bacccdf19c0760cab7aec4a8359010b0"));
}

#[test]
fn test_search_no_results() {
    let repo = test_index();
    let results = repo.search(FileQuery::domain_exact("com.nonexistent.app")).unwrap();
    assert_eq!(results.len(), 0);
}

#[test]
fn test_search_empty_any_of() {
    let repo = test_index();
    let results = repo.search(FileQuery::any_of(vec![])).unwrap();
    assert_eq!(results.len(), 3);
}

#[test]
fn empty_all_of_matches_every_record() {
    let repo = test_index();
    let results = repo.search(FileQuery::all_of(vec![])).unwrap();
    assert_eq!(results.len(), 3);
}

#[test]
fn test_search_with_empty_relative_paths() {
    let repo = MemoryIndex::new(vec![
        row("356a192b7913b04c54574d18c28d46e6395428ab", "com.apple.news", "Documents/news.txt", 1, b"news content"),
        row("da4b9237bacccdf19c0760cab7aec4a8359010b0", "AppDomain-com.apple.photos", "", 2, b"photo content"),
    ]);
    let results = repo.search(FileQuery::domain_contains("apple")).unwrap();

    assert_eq!(results.len(), 2);
    let empty_path_file = results
        .iter()
        .find(|f| f.domain().value() == "AppDomain-com.apple.photos")
        .expect("Should find the file with an empty path");
    assert_eq!(empty_path_file.relative_path().value(), "");
}

#[test]
fn test_search_exact_domain_with_empty_path() {
    let repo = MemoryIndex::new(vec![row(
        "da4b9237bacccdf19c0760cab7aec4a8359010b0",
        "AppDomain-com.apple.photos",
        "",
        2,
        b"photo content",
    )]);
    let results = repo.search(FileQuery::domain_exact("AppDomain-com.apple.photos")).unwrap();

    assert_eq!(results.len(), 1);
    assert_eq!(results[0].domain().value(), "AppDomain-com.apple.photos");
    assert_eq!(results[0].relative_path().value(), "");
}

#[test]
fn test_search_path_exact_empty() {
    let repo = MemoryIndex::new(vec![row(
        "da4b9237bacccdf19c0760cab7aec4a8359010b0",
        "AppDomain-com.apple.photos",
        "",
        2,
        b"photo content",
    )]);
    let results = repo.search(FileQuery::path_exact("")).unwrap();

    assert_eq!(results.len(), 1);
    assert_eq!(results[0].domain().value(), "AppDomain-com.apple.photos");
    assert_eq!(results[0].relative_path().value(), "");
}

#[test]
fn test_search_sorting_order() {
    let repo = MemoryIndex::new(vec![
        row("356a192b7913b04c54574d18c28d46e6395428ab", "com.example.app", "Documents/file2.txt", 1, b"content"),
        row("da4b9237bacccdf19c0760cab7aec4a8359010b0", "com.apple.photos", "Pictures/photo.jpg", 2, b"content"),
        row("77de68daecd823babbb58edb1c8e14d7106e83bb", "com.apple.photos", "Documents/file1.txt", 3, b"content"),
        row("629e88b8f2b2f0c8b6f8c8f2b2f0c8b6f8c8f2b2", "com.apple.news", "", 4, b"content"),
    ]);
    let results = repo.search(FileQuery::domain_contains("com")).unwrap();

    assert_eq!(results.len(), 4);
    assert_eq!(results[0].domain().value(), "com.apple.news");
    assert_eq!(results[0].relative_path().value(), "");
    assert_eq!(results[1].domain().value(), "com.apple.photos");
    assert_eq!(results[1].relative_path().value(), "Documents/file1.txt");
    assert_eq!(results[2].domain().value(), "com.apple.photos");
    assert_eq!(results[2].relative_path().value(), "Pictures/photo.jpg");
    assert_eq!(results[3].domain().value(), "com.example.app");
    assert_eq!(results[3].relative_path().value(), "Documents/file2.txt");
}

#[test]
fn search_is_case_sensitive() {
    let repo = test_index();
    assert!(repo.search(FileQuery::domain_contains("APPLE")).unwrap().is_empty());
    assert!(repo.search(FileQuery::domain_exact("COM.APPLE.NEWS")).unwrap().is_empty());
    assert!(repo.search(FileQuery::path_contains("documents")).unwrap().is_empty());
}

#[test]
fn search_twice_gives_identical_output() {
    let records = vec![
        row("bb00000000000000000000000000000000000000", "b", "x", 0, b""),
        row("aa00000000000000000000000000000000000000", "b", "x", 0, b""),
        row("cc00000000000000000000000000000000000000", "a", "y", 0, b""),
        row("cc00000000000000000000000000000000000000", "a", "x", 5, b"z"),
    ];
    let query = FileQuery::any_of(vec![]);
    let first = search_records(&records, &query);
    let second = search_records(&records, &query);
    assert_eq!(first, second);
    let order: Vec<(&str, &str, &str)> = first
        .iter()
        .map(|f| (f.domain().value(), f.relative_path().value(), f.id().value()))
        .collect();
    assert_eq!(
        order,
        vec![
            ("a", "x", "cc00000000000000000000000000000000000000"),
            ("a", "y", "cc00000000000000000000000000000000000000"),
            ("b", "x", "aa00000000000000000000000000000000000000"),
            ("b", "x", "bb00000000000000000000000000000000000000"),
        ]
    );
}

fn scenario_index() -> MemoryIndex {
    let aa = format!("aa{}", "0".repeat(38));
    let bb = format!("bb{}", "0".repeat(38));
    MemoryIndex::new(vec![
        row(&aa, "app.photos", "Pictures/a.jpg", 1, b""),
        row(&bb, "app.notes", "Notes/b.txt", 1, b""),
    ])
}

#[test]
fn scenario_owner_contains_photo() {
    let results = scenario_index().search(FileQuery::domain_contains("photo")).unwrap();
    assert_eq!(results.len(), 1);
    assert_eq!(results[0].relative_path().value(), "Pictures/a.jpg");
}

#[test]
fn scenario_all_of_owner_and_path() {
    let query = FileQuery::all_of(vec![
        BasicQuery::DomainContains("app".to_owned()),
        BasicQuery::PathContains("Notes".to_owned()),
    ]);
    let results = scenario_index().search(query).unwrap();
    assert_eq!(results.len(), 1);
    assert_eq!(results[0].domain().value(), "app.notes");
}

#[test]
fn scenario_empty_any_of_returns_both_in_order() {
    let results = scenario_index().search(FileQuery::any_of(vec![])).unwrap();
    let owners: Vec<&str> = results.iter().map(|f| f.domain().value()).collect();
    assert_eq!(owners, vec!["app.notes", "app.photos"]);
}

#[test]
fn search_service_builds_and_runs_the_query() {
    let service = SearchService::new();
    let index = test_index();
    let params = SearchParams::new(None, Some("apple".to_owned()), None, Some("Pictures".to_owned()), false);
    let results = service.search(&index, params.clone()).unwrap();
    assert_eq!(service.search(&index, params).unwrap(), results);
    assert_eq!(results.len(), 1);
    assert_eq!(results[0].domain().value(), "com.apple.photos");
    let none = SearchParams::new(None, None, None, None, true);
    assert_eq!(service.search(&index, none.clone()), Err(SearchError::NoCondition));
    assert_eq!(SearchService::default().search(&index, none), Err(SearchError::NoCondition));
}

#[test]
fn search_error_texts() {
    assert_eq!(
        SearchError::NoCondition.to_string(),
        "At least one search condition must be specified"
    );
    let e = SearchError::IndexAccess(idig::IndexError { message: "locked".to_owned() });
    assert_eq!(e.to_string(), "Failed to search for files: locked");
}
