//! The owner of an indexed file: the application or subsystem it belongs to.

use vstd::prelude::*;

verus! {

/// Longest owner identifier, in characters.
pub const MAX_DOMAIN_LEN: usize = 255;

/// The outcome of validating `s` as an owner identifier.
pub open spec fn domain_result(s: Seq<char>) -> Result<Seq<char>, DomainError> {
    if s.len() == 0 {
        Err(DomainError::Empty)
    } else if s.len() > MAX_DOMAIN_LEN {
        Err(DomainError::TooLong)
    } else {
        Ok(s)
    }
}

/// Why a text is not an owner identifier.
#[derive(Debug, Clone, Copy, PartialEq, Eq, Structural)]
pub enum DomainError {
    Empty,
    TooLong,
}

impl DomainError {
    /// The text that describes the error.
    pub open spec fn message(self) -> Seq<char> {
        match self {
            DomainError::Empty => "Domain cannot be empty"@,
            DomainError::TooLong => "Domain cannot be longer than 255 characters"@,
        }
    }

    /// A human-readable description of the error.
    pub fn to_string(&self) -> (r: String)
        ensures
            r@ == self.message(),
    {
        match self {
            DomainError::Empty => "Domain cannot be empty".to_string(),
            DomainError::TooLong => "Domain cannot be longer than 255 characters".to_string(),
        }
    }
}

/// Owner identifier: a non-empty text of at most 255 characters.
#[derive(Debug, PartialEq, Eq)]
pub struct Domain {
    value: String,
}

impl View for Domain {
    type V = Seq<char>;

    closed spec fn view(&self) -> Seq<char> {
        self.value@
    }
}

impl Domain {
    #[verifier::type_invariant]
    spec fn well_formed(self) -> bool {
        0 < self.value@.len() <= MAX_DOMAIN_LEN
    }

    /// Validates `domain` and keeps it unchanged.
    pub fn new(domain: String) -> (r: Result<Domain, DomainError>)
        ensures
            match domain_result(domain@) {
                Ok(v) => r matches Ok(d) && d@ == v,
                Err(e) => r == Err::<Domain, DomainError>(e),
            },
    {
        let n = domain.as_str().unicode_len();
        if n == 0 {
            return Err(DomainError::Empty);
        }
        if n > MAX_DOMAIN_LEN {
            return Err(DomainError::TooLong);
        }
        Ok(Domain { value: domain })
    }

    /// The identifier as text.
    pub fn value(&self) -> (r: &str)
        ensures
            r@ == self@,
            0 < r@.len() <= MAX_DOMAIN_LEN,
    {
        proof {
            use_type_invariant(self);
        }
        self.value.as_str()
    }

    /// The identifier as an owned string.
    pub fn to_string(&self) -> (r: String)
        ensures
            r@ == self@,
    {
        self.value.clone()
    }
}

impl Clone for Domain {
    fn clone(&self) -> (r: Domain)
        ensures
            r@ == self@,
    {
        proof {
            use_type_invariant(self);
        }
        Domain { value: self.value.clone() }
    }
}

} // verus!
