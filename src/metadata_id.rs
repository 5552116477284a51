//! The unique identifier of a backup.

use vstd::prelude::*;
use crate::text::chars_of;
use vstd::utf8::encode_utf8;

verus! {

/// Length of a backup identifier in UTF-8 bytes.
pub const METADATA_ID_LEN: usize = 25;

/// What `char::is_alphanumeric` answers for `c`.
pub uninterp spec fn alphanumeric(c: char) -> bool;

/// What `str::to_lowercase` returns for `s`.
pub uninterp spec fn lowercase_of(s: Seq<char>) -> Seq<char>;

/// Relies on `char::is_alphanumeric`: the answer depends on the character alone.
#[verifier::external_body]
fn is_alphanumeric(c: char) -> (r: bool)
    ensures
        r == alphanumeric(c),
{
    c.is_alphanumeric()
}

/// Relies on `str::to_lowercase`: the result depends on the text alone.
#[verifier::external_body]
fn to_lowercase(s: &str) -> (r: String)
    ensures
        r@ == lowercase_of(s@),
{
    s.to_lowercase()
}

/// A character allowed in a backup identifier.
pub open spec fn is_id_char(c: char) -> bool {
    alphanumeric(c) || c == '-'
}

pub open spec fn all_id_chars(s: Seq<char>) -> bool {
    forall|i: int| 0 <= i < s.len() ==> #[trigger] is_id_char(s[i])
}

/// The outcome of validating `s` as a backup identifier: the stored text, or
/// the first rule it breaks.
pub open spec fn metadata_id_result(s: Seq<char>) -> Result<Seq<char>, MetadataIdError> {
    if s.len() == 0 {
        Err(MetadataIdError::Empty)
    } else if encode_utf8(s).len() != METADATA_ID_LEN {
        Err(MetadataIdError::WrongLength)
    } else if !all_id_chars(s) {
        Err(MetadataIdError::InvalidCharacter)
    } else {
        Ok(lowercase_of(s))
    }
}

/// Why a text is not a backup identifier.
#[derive(Debug, Clone, Copy, PartialEq, Eq, Structural)]
pub enum MetadataIdError {
    Empty,
    WrongLength,
    InvalidCharacter,
}

impl MetadataIdError {
    /// The text that describes the error.
    pub open spec fn message(self) -> Seq<char> {
        match self {
            MetadataIdError::Empty => "MetadataId cannot be empty"@,
            MetadataIdError::WrongLength => "MetadataId must be 25 characters long"@,
            MetadataIdError::InvalidCharacter => "MetadataId must contain only alphanumeric characters or the hyphen"@,
        }
    }

    /// A human-readable description of the error.
    pub fn to_string(&self) -> (r: String)
        ensures
            r@ == self.message(),
    {
        match self {
            MetadataIdError::Empty => "MetadataId cannot be empty".to_string(),
            MetadataIdError::WrongLength => "MetadataId must be 25 characters long".to_string(),
            MetadataIdError::InvalidCharacter => "MetadataId must contain only alphanumeric characters or the hyphen".to_string(),
        }
    }
}

/// Identifier of a backup: 25 bytes of letters, digits or hyphens, stored in
/// lower case.
#[derive(Debug, Clone, PartialEq, Eq, Hash)]
pub struct MetadataId {
    value: String,
}

impl View for MetadataId {
    type V = Seq<char>;

    closed spec fn view(&self) -> Seq<char> {
        self.value@
    }
}

impl MetadataId {
    /// Validates `id` and stores its lower-case form.
    pub fn new(id: &str) -> (r: Result<MetadataId, MetadataIdError>)
        ensures
            match metadata_id_result(id@) {
                Ok(v) => r matches Ok(m) && m@ == v,
                Err(e) => r == Err::<MetadataId, MetadataIdError>(e),
            },
    {
        if id.is_empty() {
            return Err(MetadataIdError::Empty);
        }
        if id.as_bytes().len() != METADATA_ID_LEN {
            return Err(MetadataIdError::WrongLength);
        }
        let cs = chars_of(id);
        let mut i: usize = 0;
        while i < cs.len()
            invariant
                cs@ == id@,
                encode_utf8(id@).len() == METADATA_ID_LEN,
                i <= cs.len(),
                forall|j: int| 0 <= j < i ==> #[trigger] is_id_char(cs@[j]),
            decreases cs.len() - i,
        {
            if !(is_alphanumeric(cs[i]) || cs[i] == '-') {
                assert(!is_id_char(id@[i as int]));
                return Err(MetadataIdError::InvalidCharacter);
            }
            i = i + 1;
        }
        assert(all_id_chars(id@));
        Ok(MetadataId { value: to_lowercase(id) })
    }

    /// The identifier as text.
    pub fn value(&self) -> (r: &str)
        ensures
            r@ == self@,
    {
        self.value.as_str()
    }

    /// The identifier as an owned string.
    pub fn to_string(&self) -> (r: String)
        ensures
            r@ == self@,
    {
        self.value.clone()
    }
}

} // verus!
