use idig::{Domain, FileId, FileIdError, MetadataId, MetadataIdError, RelativePath};

#[test]
fn test_domain_creation() {
    let domain = Domain::new("com.example.app".to_owned()).unwrap();
    assert_eq!(domain.value(), "com.example.app");
}

#[test]
fn test_domain_empty() {
    let empty_domain = String::new();
    assert!(Domain::new(empty_domain).is_err());
}

#[test]
fn test_domain_too_long() {
    let long_domain = "a".repeat(256);
    assert!(Domain::new(long_domain).is_err());
}

#[test]
fn test_domain_max_length() {
    let max_domain = "a".repeat(255);
    assert!(Domain::new(max_domain).is_ok());
}

#[test]
fn domain_length_counts_characters() {
    let wide = "é".repeat(255);
    assert!(Domain::new(wide).is_ok());
    assert!(Domain::new("é".repeat(256)).is_err());
}

#[test]
fn test_file_id_creation() {
    let valid_sha1 = "a1b2c3d4e5f6789012345678901234567890abcd";
    let file_id = FileId::new(valid_sha1).unwrap();
    assert_eq!(file_id.value(), "a1b2c3d4e5f6789012345678901234567890abcd");
}

#[test]
fn test_file_id_invalid_length() {
    let invalid_sha1 = "short";
    assert!(FileId::new(invalid_sha1).is_err());
}

#[test]
fn test_file_id_invalid_characters() {
    let invalid_sha1 = "g1b2c3d4e5f6789012345678901234567890abcd"; // 'g' is not hex
    assert!(FileId::new(invalid_sha1).is_err());
}

#[test]
fn test_file_id_empty() {
    let empty_id = "";
    assert!(FileId::new(empty_id).is_err());
}

#[test]
fn test_file_id_case_normalization() {
    let uppercase_sha1 = "A1B2C3D4E5F6789012345678901234567890ABCD";
    let file_id = FileId::new(uppercase_sha1).unwrap();
    assert_eq!(file_id.value(), "a1b2c3d4e5f6789012345678901234567890abcd");
}

#[test]
fn file_id_errors_name_the_broken_rule() {
    assert_eq!(FileId::new("").unwrap_err(), FileIdError::Empty);
    assert_eq!(FileId::new("abc").unwrap_err(), FileIdError::WrongLength);
    assert_eq!(
        FileId::new("z1b2c3d4e5f6789012345678901234567890abcd").unwrap_err(),
        FileIdError::NotHex
    );
    assert!(FileIdError::NotHex.to_string().contains("hexadecimal"));
}

#[test]
fn file_id_prefix_is_first_two_characters() {
    let id = FileId::new("AB39a3ee5e6b4b0d3255bfef95601890afd80709").unwrap();
    assert_eq!(id.prefix(), "ab");
    assert_eq!(id.to_string(), "ab39a3ee5e6b4b0d3255bfef95601890afd80709");
}

#[test]
fn test_metadata_id_creation() {
    let valid_id = "a1b2c3d4e5f67890123456789";
    let metadata_id = MetadataId::new(valid_id).unwrap();

    assert_eq!(metadata_id.value(), "a1b2c3d4e5f67890123456789");
}

#[test]
fn test_metadata_id_invalid_length() {
    let invalid_length = "short";

    assert!(MetadataId::new(invalid_length).is_err());
}

#[test]
fn test_metadata_id_invalid_characters() {
    let invalid_chars = "_1b2c3d4e5f67890123456789"; // '_' is not allowed
    assert!(MetadataId::new(invalid_chars).is_err());
}

#[test]
fn test_metadata_id_empty() {
    let empty_id = "";

    assert!(MetadataId::new(empty_id).is_err());
}

#[test]
fn test_metadata_id_case_normalization() {
    let uppercase_id = "A1B2C3D4E5F67890123456789";
    let metadata_id = MetadataId::new(uppercase_id).unwrap();

    assert_eq!(metadata_id.value(), "a1b2c3d4e5f67890123456789");
}

#[test]
fn metadata_id_accepts_hyphens_and_reports_errors() {
    let id = MetadataId::new("00008030-001A2B3C4D5E6F70").unwrap();
    assert_eq!(id.value(), "00008030-001a2b3c4d5e6f70");
    assert_eq!(
        MetadataId::new("a1b2c3d4e5f6789012345678").unwrap_err(),
        MetadataIdError::WrongLength
    );
    assert_eq!(
        MetadataId::new("a1b2c3d4e5f6789012345678 ").unwrap_err(),
        MetadataIdError::InvalidCharacter
    );
}

#[test]
fn test_relative_path_creation() {
    let path = RelativePath::new("Documents/file.txt".to_owned()).unwrap();
    assert_eq!(path.value(), "Documents/file.txt");
}

#[test]
fn test_relative_path_absolute_path_rejected() {
    let absolute_path = "/absolute/path".to_owned();
    assert!(RelativePath::new(absolute_path).is_err());
}

#[test]
fn test_relative_path_windows_absolute_rejected() {
    let windows_absolute = "\\absolute\\path".to_owned();
    assert!(RelativePath::new(windows_absolute).is_err());
}

#[test]
fn test_relative_path_empty() {
    let empty_path = String::new();
    let path = RelativePath::new(empty_path).unwrap();
    assert_eq!(path.value(), "");
}

#[test]
fn metadata_id_length_is_counted_in_bytes() {
    // 23 ASCII characters and one two-byte letter: 24 characters, 25 bytes.
    let id = format!("{}é", "a".repeat(23));
    assert_eq!(MetadataId::new(&id).unwrap().value(), id);
    // 25 characters, 26 bytes.
    let long = format!("{}é", "a".repeat(24));
    assert_eq!(MetadataId::new(&long).unwrap_err(), MetadataIdError::WrongLength);
}

#[test]
fn error_texts_of_value_objects() {
    assert_eq!(FileIdError::Empty.to_string(), "FileId cannot be empty");
    assert_eq!(
        Domain::new(String::new()).unwrap_err().to_string(),
        "Domain cannot be empty"
    );
    assert_eq!(
        RelativePath::new("/x".to_owned()).unwrap_err().to_string(),
        "RelativePath cannot be an absolute path"
    );
    assert_eq!(
        MetadataIdError::WrongLength.to_string(),
        "MetadataId must be 25 characters long"
    );
}
