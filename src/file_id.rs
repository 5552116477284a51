//! The content identifier of an indexed file: a 40-digit hexadecimal hash.

use vstd::prelude::*;
use crate::text::{all_hex, chars_of, hex_digit, hex_lower, is_hex_digit, string_from_chars, to_hex_lower};

verus! {

/// Number of characters of a content identifier.
pub const FILE_ID_LEN: usize = 40;

/// A stored content identifier: 40 lower-case hexadecimal digits.
pub open spec fn is_file_id(s: Seq<char>) -> bool {
    &&& s.len() == FILE_ID_LEN
    &&& forall|i: int| 0 <= i < s.len() ==> is_hex_digit(#[trigger] s[i]) && hex_lower(s[i]) == s[i]
}

/// The case-normalised form of an identifier text.
pub open spec fn lower_hex_text(s: Seq<char>) -> Seq<char> {
    s.map_values(|c: char| hex_lower(c))
}

/// The outcome of validating `s` as a content identifier: the stored text, or
/// the first rule it breaks.
pub open spec fn file_id_result(s: Seq<char>) -> Result<Seq<char>, FileIdError> {
    if s.len() == 0 {
        Err(FileIdError::Empty)
    } else if s.len() != FILE_ID_LEN {
        Err(FileIdError::WrongLength)
    } else if !all_hex(s) {
        Err(FileIdError::NotHex)
    } else {
        Ok(lower_hex_text(s))
    }
}

/// Why a text is not a content identifier.
#[derive(Debug, Clone, Copy, PartialEq, Eq, Structural)]
pub enum FileIdError {
    Empty,
    WrongLength,
    NotHex,
}

impl FileIdError {
    /// The text that describes the error.
    pub open spec fn message(self) -> Seq<char> {
        match self {
            FileIdError::Empty => "FileId cannot be empty"@,
            FileIdError::WrongLength => "FileId must be 40 characters long (SHA1 hash)"@,
            FileIdError::NotHex => "FileId must contain only hexadecimal characters"@,
        }
    }

    /// A human-readable description of the error.
    pub fn to_string(&self) -> (r: String)
        ensures
            r@ == self.message(),
    {
        match self {
            FileIdError::Empty => "FileId cannot be empty".to_string(),
            FileIdError::WrongLength => "FileId must be 40 characters long (SHA1 hash)".to_string(),
            FileIdError::NotHex => "FileId must contain only hexadecimal characters".to_string(),
        }
    }
}

/// Content identifier of a file: where its bytes live in the blob store.
#[derive(Debug, PartialEq, Eq, Hash)]
pub struct FileId {
    value: String,
}

impl View for FileId {
    type V = Seq<char>;

    closed spec fn view(&self) -> Seq<char> {
        self.value@
    }
}

impl FileId {
    #[verifier::type_invariant]
    spec fn well_formed(self) -> bool {
        is_file_id(self.value@)
    }

    /// Validates `id` and stores it in lower case.
    pub fn new(id: &str) -> (r: Result<FileId, FileIdError>)
        ensures
            match file_id_result(id@) {
                Ok(v) => r matches Ok(f) && f@ == v,
                Err(e) => r == Err::<FileId, FileIdError>(e),
            },
    {
        let n = id.unicode_len();
        if n == 0 {
            return Err(FileIdError::Empty);
        }
        if n != FILE_ID_LEN {
            return Err(FileIdError::WrongLength);
        }
        let cs = chars_of(id);
        let mut lower: Vec<char> = Vec::new();
        let mut i: usize = 0;
        while i < cs.len()
            invariant
                cs@ == id@,
                id@.len() == FILE_ID_LEN,
                i <= cs.len(),
                lower@ == lower_hex_text(cs@.take(i as int)),
                all_hex(cs@.take(i as int)),
            decreases cs.len() - i,
        {
            if !hex_digit(cs[i]) {
                assert(!is_hex_digit(id@[i as int]));
                return Err(FileIdError::NotHex);
            }
            lower.push(to_hex_lower(cs[i]));
            i = i + 1;
            assert(lower@ =~= lower_hex_text(cs@.take(i as int)));
            assert(all_hex(cs@.take(i as int)));
        }
        assert(cs@.take(cs.len() as int) =~= cs@);
        let value = string_from_chars(&lower);
        Ok(FileId { value })
    }

    /// The identifier as text.
    pub fn value(&self) -> (r: &str)
        ensures
            r@ == self@,
            is_file_id(r@),
    {
        proof {
            use_type_invariant(self);
        }
        self.value.as_str()
    }

    /// The first two characters: the fan-out directory of the blob.
    pub fn prefix(&self) -> (r: String)
        ensures
            r@ == self@.take(2),
            r@.len() == 2,
    {
        proof {
            use_type_invariant(self);
        }
        let s = self.value.as_str().substring_char(0, 2);
        s.to_string()
    }

    /// The identifier as an owned string.
    pub fn to_string(&self) -> (r: String)
        ensures
            r@ == self@,
    {
        self.value.clone()
    }
}

impl Clone for FileId {
    fn clone(&self) -> (r: FileId)
        ensures
            r@ == self@,
    {
        proof {
            use_type_invariant(self);
        }
        FileId { value: self.value.clone() }
    }
}

} // verus!
