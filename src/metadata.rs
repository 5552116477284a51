//! Descriptors of backups: which device a backup is of, and when it was made.

use vstd::prelude::*;
use crate::metadata_id::{metadata_id_result, MetadataId, MetadataIdError};

verus! {

/// The instant that chrono reads from `s` as a `DateTime<Utc>`: seconds since
/// the Unix epoch and nanoseconds within the second; `None` when it rejects `s`.
pub uninterp spec fn utc_instant(s: Seq<char>) -> Option<(int, int)>;

/// Relies on chrono's `FromStr` for `DateTime<Utc>` (relaxed RFC 3339, then
/// converted to UTC), with `DateTime::timestamp` and
/// `DateTime::timestamp_subsec_nanos`: whether `s` is accepted, and the
/// instant, depend on the text alone. On rejection the parse error's message
/// is returned.
#[verifier::external_body]
fn parse_utc_instant(s: &str) -> (r: Result<(i64, u32), String>)
    ensures
        match r {
            Ok((secs, nanos)) => utc_instant(s@) == Some((secs as int, nanos as int)),
            Err(_) => utc_instant(s@) is None,
        },
{
    match s.parse::<chrono::DateTime<chrono::Utc>>() {
        Ok(t) => Ok((t.timestamp(), t.timestamp_subsec_nanos())),
        Err(e) => Err(e.to_string()),
    }
}

/// An instant in UTC.
#[derive(Debug, Clone, Copy, PartialEq, Eq, Structural)]
pub struct BackupTime {
    /// Whole seconds since 1970-01-01T00:00:00Z.
    pub seconds: i64,
    /// Nanoseconds within the second.
    pub nanoseconds: u32,
}

impl BackupTime {
    /// Reads an RFC 3339 date and time, converting it to UTC.
    pub fn parse(s: &str) -> (r: Result<BackupTime, String>)
        ensures
            match utc_instant(s@) {
                Some((secs, nanos)) => r matches Ok(t) && t.seconds == secs && t.nanoseconds
                    == nanos,
                None => r is Err,
            },
    {
        match parse_utc_instant(s) {
            Ok((seconds, nanoseconds)) => Ok(BackupTime { seconds, nanoseconds }),
            Err(m) => Err(m),
        }
    }
}

/// The mathematical content of a [`Metadata`].
pub struct MetadataView {
    pub id: Seq<char>,
    pub device_name: Seq<char>,
    pub product_name: Seq<char>,
    pub last_backup_date: BackupTime,
}

/// What is known of one backup.
#[derive(Debug, Clone, PartialEq, Eq)]
pub struct Metadata {
    id: MetadataId,
    device_name: String,
    product_name: String,
    last_backup_date: BackupTime,
}

impl View for Metadata {
    type V = MetadataView;

    closed spec fn view(&self) -> MetadataView {
        MetadataView {
            id: self.id@,
            device_name: self.device_name@,
            product_name: self.product_name@,
            last_backup_date: self.last_backup_date,
        }
    }
}

impl Metadata {
    pub fn new(
        id: MetadataId,
        device_name: String,
        product_name: String,
        last_backup_date: BackupTime,
    ) -> (r: Metadata)
        ensures
            r@ == (MetadataView {
                id: id@,
                device_name: device_name@,
                product_name: product_name@,
                last_backup_date,
            }),
    {
        Metadata { id, device_name, product_name, last_backup_date }
    }

    pub fn id(&self) -> (r: &MetadataId)
        ensures
            r@ == self@.id,
    {
        &self.id
    }

    pub fn device_name(&self) -> (r: &str)
        ensures
            r@ == self@.device_name,
    {
        self.device_name.as_str()
    }

    pub fn product_name(&self) -> (r: &str)
        ensures
            r@ == self@.product_name,
    {
        self.product_name.as_str()
    }

    pub fn last_backup_date(&self) -> (r: &BackupTime)
        ensures
            *r == self@.last_backup_date,
    {
        &self.last_backup_date
    }
}

/// Why a backup descriptor could not be read.
#[derive(Debug, Clone, PartialEq, Eq)]
pub enum BackupInfoError {
    /// The unique identifier is not a backup identifier.
    InvalidId(MetadataIdError),
    /// The last backup date is not an RFC 3339 date, with the parser's message.
    InvalidDate(String),
}

impl BackupInfoError {
    /// The text that describes the error: the identifier's problem, or the
    /// date parser's message.
    pub open spec fn message(self) -> Seq<char> {
        match self {
            BackupInfoError::InvalidId(e) => "Invalid FileId: "@ + e.message(),
            BackupInfoError::InvalidDate(m) => m@,
        }
    }

    /// A human-readable description of the error.
    pub fn to_string(&self) -> (r: String)
        ensures
            r@ == self.message(),
    {
        match self {
            BackupInfoError::InvalidId(e) => {
                let mut s = "Invalid FileId: ".to_string();
                s.append(e.to_string().as_str());
                s
            },
            BackupInfoError::InvalidDate(m) => m.clone(),
        }
    }
}

/// The fields of a backup's descriptor file, as text.
#[derive(Debug, Clone, PartialEq, Eq)]
pub struct BackupInfo {
    pub unique_identifier: String,
    pub device_name: String,
    pub product_name: String,
    pub last_backup_date: String,
}

impl BackupInfo {
    /// Validates the identifier and reads the date.
    pub fn to_domain(self) -> (r: Result<Metadata, BackupInfoError>)
        ensures
            match metadata_id_result(self.unique_identifier@) {
                Err(e) => r == Err::<Metadata, BackupInfoError>(BackupInfoError::InvalidId(e)),
                Ok(id) => match utc_instant(self.last_backup_date@) {
                    None => r matches Err(BackupInfoError::InvalidDate(_)),
                    Some((secs, nanos)) => r matches Ok(m) && m@ == (MetadataView {
                        id,
                        device_name: self.device_name@,
                        product_name: self.product_name@,
                        last_backup_date: BackupTime {
                            seconds: secs as i64,
                            nanoseconds: nanos as u32,
                        },
                    }),
                },
            },
    {
        let id = match MetadataId::new(self.unique_identifier.as_str()) {
            Ok(id) => id,
            Err(e) => return Err(BackupInfoError::InvalidId(e)),
        };
        let date = match BackupTime::parse(self.last_backup_date.as_str()) {
            Ok(t) => t,
            Err(m) => return Err(BackupInfoError::InvalidDate(m)),
        };
        Ok(Metadata::new(id, self.device_name, self.product_name, date))
    }
}

} // verus!
