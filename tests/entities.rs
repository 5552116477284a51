use idig::{Domain, File, FileFlags, FileId, RelativePath, RowError};

fn parts() -> (FileId, Domain, RelativePath, FileFlags, Vec<u8>) {
    let id = FileId::new("a1b2c3d4e5f6789012345678901234567890abcd").unwrap();
    let domain = Domain::new("AppDomain-com.apple.news".to_owned()).unwrap();
    let relative_path = RelativePath::new("Documents/test.txt".to_owned()).unwrap();
    let flags = FileFlags::regular_file();
    let metadata = b"test metadata".to_vec();
    (id, domain, relative_path, flags, metadata)
}

#[test]
fn test_file_entity_creation() {
    let (id, domain, relative_path, flags, metadata) = parts();

    let file = File::new(
        id.clone(),
        domain.clone(),
        relative_path.clone(),
        flags.clone(),
        metadata.clone(),
    );

    assert_eq!(file.id(), &id);
    assert_eq!(file.domain(), &domain);
    assert_eq!(file.relative_path(), &relative_path);
    assert_eq!(file.flags(), &flags);
    assert_eq!(file.metadata(), &metadata);
}

#[test]
fn test_file_entity_reconstruct() {
    let (id, domain, relative_path, flags, metadata) = parts();

    let file = File::reconstruct(
        id.clone(),
        domain.clone(),
        relative_path.clone(),
        flags.clone(),
        metadata.clone(),
    );

    assert_eq!(file.id(), &id);
    assert_eq!(file.domain(), &domain);
    assert_eq!(file.relative_path(), &relative_path);
    assert_eq!(file.flags(), &flags);
    assert_eq!(file.metadata(), &metadata);
}

#[test]
fn test_file_entity_update_flags() {
    let (id, domain, relative_path, flags, metadata) = parts();

    let mut file = File::new(id, domain, relative_path, flags, metadata);

    let new_flags = FileFlags::directory();
    file.update_flags(new_flags.clone());

    assert_eq!(file.flags(), &new_flags);
    assert!(file.has_flag(FileFlags::directory()));
    assert!(!file.has_flag(FileFlags::regular_file()));
}

#[test]
fn test_file_entity_update_metadata() {
    let (id, domain, relative_path, flags, metadata) = parts();

    let mut file = File::new(id, domain, relative_path, flags, metadata);

    let new_metadata = b"updated metadata".to_vec();
    file.update_metadata(new_metadata.clone());

    assert_eq!(file.metadata(), &new_metadata);
}

#[test]
fn file_from_index_row_validates_each_field() {
    let file = File::from_index_row(
        "DA39A3EE5E6B4B0D3255BFEF95601890AFD80709",
        "com.apple.news".to_owned(),
        String::new(),
        1 | 2048,
        b"blob".to_vec(),
    )
    .unwrap();
    assert_eq!(file.id().value(), "da39a3ee5e6b4b0d3255bfef95601890afd80709");
    assert_eq!(file.relative_path().value(), "");
    assert_eq!(file.flags().bits(), 1);

    let bad_id = File::from_index_row("xyz", "d".to_owned(), String::new(), 0, vec![]);
    assert!(matches!(bad_id, Err(RowError::InvalidFileId(_))));
    let bad_domain = File::from_index_row(
        "da39a3ee5e6b4b0d3255bfef95601890afd80709",
        String::new(),
        String::new(),
        0,
        vec![],
    );
    assert!(matches!(bad_domain, Err(RowError::InvalidDomain(_))));
    let bad_path = File::from_index_row(
        "da39a3ee5e6b4b0d3255bfef95601890afd80709",
        "d".to_owned(),
        "/etc".to_owned(),
        0,
        vec![],
    );
    assert!(matches!(bad_path, Err(RowError::InvalidRelativePath(_))));
    assert!(bad_path.unwrap_err().to_string().starts_with("Invalid RelativePath: "));
}

#[test]
fn row_error_texts_name_the_field() {
    let bad_id = File::from_index_row("", "d".to_owned(), String::new(), 0, vec![]);
    assert_eq!(bad_id.unwrap_err().to_string(), "Invalid FileId: FileId cannot be empty");
    let bad_domain = File::from_index_row(
        "da39a3ee5e6b4b0d3255bfef95601890afd80709",
        "a".repeat(256),
        String::new(),
        0,
        vec![],
    );
    assert_eq!(
        bad_domain.unwrap_err().to_string(),
        "Invalid Domain: Domain cannot be longer than 255 characters"
    );
}
