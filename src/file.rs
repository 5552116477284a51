//! The record of one file in the index.

use vstd::prelude::*;
use crate::domain::{domain_result, Domain, DomainError};
use crate::file_flags::{has_bits, FileFlags, ALL_BITS};
use crate::file_id::{file_id_result, FileId, FileIdError};
use crate::relative_path::{path_result, RelativePath, RelativePathError};

verus! {

/// The mathematical content of a [`File`].
pub struct FileView {
    /// Content identifier.
    pub id: Seq<char>,
    /// Owner identifier.
    pub owner: Seq<char>,
    /// Logical path.
    pub path: Seq<char>,
    /// Attribute bits.
    pub flags: i32,
    /// Raw metadata blob.
    pub metadata: Seq<u8>,
}

/// One file of the index: where its bytes are stored, who owns it, where it
/// lives in the backup, its attributes and its raw metadata.
#[derive(Debug, PartialEq, Eq)]
pub struct File {
    id: FileId,
    domain: Domain,
    relative_path: RelativePath,
    flags: FileFlags,
    metadata: Vec<u8>,
}

impl View for File {
    type V = FileView;

    closed spec fn view(&self) -> FileView {
        FileView {
            id: self.id@,
            owner: self.domain@,
            path: self.relative_path@,
            flags: self.flags@,
            metadata: self.metadata@,
        }
    }
}

/// Why a row of the index could not be read as a file record.
#[derive(Debug, Clone, Copy, PartialEq, Eq, Structural)]
pub enum RowError {
    InvalidFileId(FileIdError),
    InvalidDomain(DomainError),
    InvalidRelativePath(RelativePathError),
}

impl RowError {
    /// The text that describes the error: which field was invalid, and why.
    pub open spec fn message(self) -> Seq<char> {
        match self {
            RowError::InvalidFileId(e) => "Invalid FileId: "@ + e.message(),
            RowError::InvalidDomain(e) => "Invalid Domain: "@ + e.message(),
            RowError::InvalidRelativePath(e) => "Invalid RelativePath: "@ + e.message(),
        }
    }

    /// A human-readable description of the error.
    pub fn to_string(&self) -> (r: String)
        ensures
            r@ == self.message(),
    {
        match self {
            RowError::InvalidFileId(e) => {
                let mut s = "Invalid FileId: ".to_string();
                s.append(e.to_string().as_str());
                s
            },
            RowError::InvalidDomain(e) => {
                let mut s = "Invalid Domain: ".to_string();
                s.append(e.to_string().as_str());
                s
            },
            RowError::InvalidRelativePath(e) => {
                let mut s = "Invalid RelativePath: ".to_string();
                s.append(e.to_string().as_str());
                s
            },
        }
    }
}

impl File {
    /// A new record from its parts.
    pub fn new(
        id: FileId,
        domain: Domain,
        relative_path: RelativePath,
        flags: FileFlags,
        metadata: Vec<u8>,
    ) -> (r: File)
        ensures
            r@ == (FileView {
                id: id@,
                owner: domain@,
                path: relative_path@,
                flags: flags@,
                metadata: metadata@,
            }),
    {
        File { id, domain, relative_path, flags, metadata }
    }

    /// A record restored from stored parts that were already validated.
    pub fn reconstruct(
        id: FileId,
        domain: Domain,
        relative_path: RelativePath,
        flags: FileFlags,
        metadata: Vec<u8>,
    ) -> (r: File)
        ensures
            r@ == (FileView {
                id: id@,
                owner: domain@,
                path: relative_path@,
                flags: flags@,
                metadata: metadata@,
            }),
    {
        File { id, domain, relative_path, flags, metadata }
    }

    /// Reads one stored row of the index: each text is validated as its value
    /// type and the flags keep their named bits.
    pub fn from_index_row(
        file_id: &str,
        domain: String,
        relative_path: String,
        flags: i32,
        file: Vec<u8>,
    ) -> (r: Result<File, RowError>)
        ensures
            match (file_id_result(file_id@), domain_result(domain@), path_result(relative_path@)) {
                (Ok(i), Ok(d), Ok(p)) => r matches Ok(f) && f@ == (FileView {
                    id: i,
                    owner: d,
                    path: p,
                    flags: flags & ALL_BITS,
                    metadata: file@,
                }),
                (Err(e), _, _) => r == Err::<File, RowError>(RowError::InvalidFileId(e)),
                (Ok(_), Err(e), _) => r == Err::<File, RowError>(RowError::InvalidDomain(e)),
                (Ok(_), Ok(_), Err(e)) => r == Err::<File, RowError>(
                    RowError::InvalidRelativePath(e),
                ),
            },
    {
        let id = match FileId::new(file_id) {
            Ok(i) => i,
            Err(e) => return Err(RowError::InvalidFileId(e)),
        };
        let domain = match Domain::new(domain) {
            Ok(d) => d,
            Err(e) => return Err(RowError::InvalidDomain(e)),
        };
        let relative_path = match RelativePath::new(relative_path) {
            Ok(p) => p,
            Err(e) => return Err(RowError::InvalidRelativePath(e)),
        };
        let flags = FileFlags::from_bits_truncate(flags);
        Ok(File::reconstruct(id, domain, relative_path, flags, file))
    }

    pub fn id(&self) -> (r: &FileId)
        ensures
            r@ == self@.id,
    {
        &self.id
    }

    pub fn domain(&self) -> (r: &Domain)
        ensures
            r@ == self@.owner,
    {
        &self.domain
    }

    pub fn relative_path(&self) -> (r: &RelativePath)
        ensures
            r@ == self@.path,
    {
        &self.relative_path
    }

    pub fn flags(&self) -> (r: &FileFlags)
        ensures
            r@ == self@.flags,
    {
        &self.flags
    }

    pub fn metadata(&self) -> (r: &[u8])
        ensures
            r@ == self@.metadata,
    {
        self.metadata.as_slice()
    }

    /// Replaces the attribute flags.
    pub fn update_flags(&mut self, new_flags: FileFlags)
        ensures
            final(self)@ == (FileView { flags: new_flags@, ..old(self)@ }),
    {
        self.flags = new_flags;
    }

    /// Replaces the raw metadata.
    pub fn update_metadata(&mut self, new_metadata: Vec<u8>)
        ensures
            final(self)@ == (FileView { metadata: new_metadata@, ..old(self)@ }),
    {
        self.metadata = new_metadata;
    }

    /// True when every flag of `flag` is set on this file.
    pub fn has_flag(&self, flag: FileFlags) -> (r: bool)
        ensures
            r == has_bits(self@.flags, flag@),
    {
        self.flags.contains(flag)
    }
}

impl Clone for File {
    fn clone(&self) -> (r: File)
        ensures
            r@ == self@,
    {
        File {
            id: self.id.clone(),
            domain: self.domain.clone(),
            relative_path: self.relative_path.clone(),
            flags: self.flags,
            metadata: self.metadata.clone(),
        }
    }
}

} // verus!
