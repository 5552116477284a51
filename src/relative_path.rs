//! The logical path of an indexed file, relative to the backup's root.

use vstd::prelude::*;

verus! {

/// True when `s` begins with a path-root marker (`/` or `\`).
pub open spec fn starts_at_root(s: Seq<char>) -> bool {
    s.len() > 0 && (s[0] == '/' || s[0] == '\\')
}

/// The outcome of validating `s` as a relative path.
pub open spec fn path_result(s: Seq<char>) -> Result<Seq<char>, RelativePathError> {
    if starts_at_root(s) {
        Err(RelativePathError::Absolute)
    } else {
        Ok(s)
    }
}

/// Why a text is not a relative path.
#[derive(Debug, Clone, Copy, PartialEq, Eq, Structural)]
pub enum RelativePathError {
    Absolute,
}

impl RelativePathError {
    /// The text that describes the error.
    pub open spec fn message(self) -> Seq<char> {
        match self {
            RelativePathError::Absolute => "RelativePath cannot be an absolute path"@,
        }
    }

    /// A human-readable description of the error.
    pub fn to_string(&self) -> (r: String)
        ensures
            r@ == self.message(),
    {
        match self {
            RelativePathError::Absolute => "RelativePath cannot be an absolute path".to_string(),
        }
    }
}

/// A logical path that does not begin at a root; the empty path names the
/// backup's logical root.
#[derive(Debug, PartialEq, Eq)]
pub struct RelativePath {
    value: String,
}

impl View for RelativePath {
    type V = Seq<char>;

    closed spec fn view(&self) -> Seq<char> {
        self.value@
    }
}

impl RelativePath {
    #[verifier::type_invariant]
    spec fn well_formed(self) -> bool {
        !starts_at_root(self.value@)
    }

    /// Accepts `path` unless it begins at a root.
    pub fn new(path: String) -> (r: Result<RelativePath, RelativePathError>)
        ensures
            match path_result(path@) {
                Ok(v) => r matches Ok(p) && p@ == v,
                Err(e) => r == Err::<RelativePath, RelativePathError>(e),
            },
    {
        let n = path.as_str().unicode_len();
        if n > 0 {
            let c = path.as_str().get_char(0);
            if c == '/' || c == '\\' {
                return Err(RelativePathError::Absolute);
            }
        }
        Ok(RelativePath { value: path })
    }

    /// The path as text.
    pub fn value(&self) -> (r: &str)
        ensures
            r@ == self@,
            !starts_at_root(r@),
    {
        proof {
            use_type_invariant(self);
        }
        self.value.as_str()
    }

    /// The path as an owned string.
    pub fn to_string(&self) -> (r: String)
        ensures
            r@ == self@,
    {
        self.value.clone()
    }
}

impl Clone for RelativePath {
    fn clone(&self) -> (r: RelativePath)
        ensures
            r@ == self@,
    {
        proof {
            use_type_invariant(self);
        }
        RelativePath { value: self.value.clone() }
    }
}

} // verus!
