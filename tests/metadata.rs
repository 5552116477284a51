use chrono::{DateTime, Utc};
use idig::{BackupInfo, BackupInfoError, BackupTime};

fn info(id: &str, device: &str, product: &str, date: &str) -> BackupInfo {
    BackupInfo {
        unique_identifier: id.to_owned(),
        device_name: device.to_owned(),
        product_name: product.to_owned(),
        last_backup_date: date.to_owned(),
    }
}

#[test]
fn test_to_domain_success() {
    let backup_info = info("a1b2c3d4e5f67890123456789", "iPhone 15 Pro", "iPhone16,1", "2024-01-15T10:30:00Z");

    let metadata = backup_info.to_domain().unwrap();

    assert_eq!(metadata.id().value(), "a1b2c3d4e5f67890123456789");
    assert_eq!(metadata.device_name(), "iPhone 15 Pro");
    assert_eq!(metadata.product_name(), "iPhone16,1");

    let expected_date: DateTime<Utc> = "2024-01-15T10:30:00Z".parse().unwrap();
    assert_eq!(metadata.last_backup_date().seconds, expected_date.timestamp());
    assert_eq!(metadata.last_backup_date().nanoseconds, expected_date.timestamp_subsec_nanos());
}

#[test]
fn test_to_domain_propagates_metadata_id_error() {
    let backup_info = info("invalid", "iPhone 15 Pro", "iPhone16,1", "2024-01-15T10:30:00Z");

    let result = backup_info.to_domain();
    assert!(result.is_err());

    if let Err(error) = result {
        let error_message = error.to_string();
        assert!(error_message.contains("Invalid FileId"));
    }
}

#[test]
fn test_to_domain_propagates_date_parse_error() {
    let backup_info = info("a1b2c3d4e5f67890123456789", "iPhone 15 Pro", "iPhone16,1", "not-a-date");

    let result = backup_info.to_domain();
    assert!(result.is_err());

    if let Err(error) = result {
        let error_message = error.to_string();
        assert!(
            error_message.contains("input contains invalid characters")
                || error_message.contains("premature end of input")
        );
    }
}

#[test]
fn test_to_domain_with_valid_date_formats() {
    let test_cases = vec![
        ("2024-01-15T10:30:00Z", "UTC format"),
        ("2024-01-15T10:30:00.000Z", "UTC with milliseconds"),
        ("2024-01-15T10:30:00+00:00", "UTC with offset"),
        ("2024-01-15T10:30:00+09:00", "JST timezone"),
    ];

    for (date_str, description) in test_cases {
        let backup_info = info("a1b2c3d4e5f67890123456789", "Test Device", "TestProduct", date_str);

        let metadata = backup_info
            .to_domain()
            .unwrap_or_else(|e| panic!("Failed to parse {description}: {}", e.to_string()));

        assert_eq!(metadata.device_name(), "Test Device");
    }
}

#[test]
fn test_to_domain_preserves_all_string_fields() {
    let backup_info = info(
        "a1b2c3d4e5f67890123456789",
        "My iPhone's Name with Spaces & Symbols!",
        "iPhone16,1-Beta",
        "2024-01-15T10:30:00Z",
    );

    let metadata = backup_info.to_domain().unwrap();

    assert_eq!(metadata.device_name(), "My iPhone's Name with Spaces & Symbols!");
    assert_eq!(metadata.product_name(), "iPhone16,1-Beta");
}

#[test]
fn backup_time_is_converted_to_utc() {
    let utc = BackupTime::parse("2024-01-15T10:30:00Z").unwrap();
    let jst = BackupTime::parse("2024-01-15T19:30:00+09:00").unwrap();
    assert_eq!(utc, jst);
    assert_eq!(utc.seconds, 1_705_314_600);
    assert_eq!(BackupTime::parse("2024-01-15T10:30:00.250Z").unwrap().nanoseconds, 250_000_000);
}

#[test]
fn invalid_date_keeps_parser_message() {
    let result = info("a1b2c3d4e5f67890123456789", "d", "p", "yesterday").to_domain();
    assert!(matches!(result, Err(BackupInfoError::InvalidDate(ref m)) if !m.is_empty()));
}

#[test]
fn backup_info_error_texts() {
    let result = info("short", "d", "p", "2024-01-15T10:30:00Z").to_domain();
    assert_eq!(
        result.unwrap_err().to_string(),
        "Invalid FileId: MetadataId must be 25 characters long"
    );
}
