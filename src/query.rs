//! What to search for: predicates over a record's owner and logical path.

use vstd::prelude::*;
use crate::file::{File, FileView};
use crate::text::chars_of;

verus! {

/// True when `needle` occurs in `hay` as a contiguous run; the empty text
/// occurs in every text.
pub open spec fn is_substring(needle: Seq<char>, hay: Seq<char>) -> bool {
    exists|i: int|
        0 <= i && i + needle.len() <= hay.len() && #[trigger] hay.subrange(i, i + needle.len())
            == needle
}

/// A single condition on one field.
#[derive(Debug, Clone, PartialEq, Eq)]
pub enum BasicQuery {
    /// The owner equals the text.
    DomainExact(String),
    /// The owner contains the text.
    DomainContains(String),
    /// The logical path equals the text.
    PathExact(String),
    /// The logical path contains the text.
    PathContains(String),
}

/// A combination of single conditions.
#[derive(Debug, Clone, PartialEq, Eq)]
pub enum CompositeQuery {
    /// At least one condition holds; the empty list matches every record.
    AnyOf(Vec<BasicQuery>),
    /// Every condition holds; the empty list matches every record.
    AllOf(Vec<BasicQuery>),
}

/// A search: one single condition or one combination.
#[derive(Debug, Clone, PartialEq, Eq)]
pub enum FileQuery {
    Basic(BasicQuery),
    Composite(CompositeQuery),
}

/// Whether record `f` meets condition `q`. Comparisons are case-sensitive.
pub open spec fn basic_matches(q: BasicQuery, f: FileView) -> bool {
    match q {
        BasicQuery::DomainExact(v) => f.owner == v@,
        BasicQuery::DomainContains(v) => is_substring(v@, f.owner),
        BasicQuery::PathExact(v) => f.path == v@,
        BasicQuery::PathContains(v) => is_substring(v@, f.path),
    }
}

/// Every condition of `qs` holds for `f`.
pub open spec fn all_match(qs: Seq<BasicQuery>, f: FileView) -> bool {
    forall|i: int| 0 <= i < qs.len() ==> #[trigger] basic_matches(qs[i], f)
}

/// Some condition of `qs` holds for `f`.
pub open spec fn some_match(qs: Seq<BasicQuery>, f: FileView) -> bool {
    exists|i: int| 0 <= i < qs.len() && #[trigger] basic_matches(qs[i], f)
}

pub open spec fn composite_matches(q: CompositeQuery, f: FileView) -> bool {
    match q {
        CompositeQuery::AnyOf(qs) => qs@.len() == 0 || some_match(qs@, f),
        CompositeQuery::AllOf(qs) => all_match(qs@, f),
    }
}

/// Whether record `f` is selected by query `q`.
pub open spec fn query_matches(q: FileQuery, f: FileView) -> bool {
    match q {
        FileQuery::Basic(b) => basic_matches(b, f),
        FileQuery::Composite(c) => composite_matches(c, f),
    }
}

/// True when `n` occurs in `h` starting at position `i`.
fn occurs_at(h: &Vec<char>, n: &Vec<char>, i: usize) -> (r: bool)
    requires
        i + n@.len() <= h@.len(),
    ensures
        r == (h@.subrange(i as int, i + n@.len()) == n@),
{
    let hl = h.len();
    let mut j: usize = 0;
    while j < n.len()
        invariant
            hl == h@.len(),
            i + n@.len() <= h@.len(),
            j <= n@.len(),
            forall|m: int| 0 <= m < j ==> h@[i + m] == n@[m],
        decreases n@.len() - j,
    {
        if h[i + j] != n[j] {
            assert(h@.subrange(i as int, i + n@.len())[j as int] != n@[j as int]);
            return false;
        }
        j = j + 1;
    }
    assert(h@.subrange(i as int, i + n@.len()) =~= n@);
    true
}

/// True when `needle` occurs in `hay`.
pub fn contains_text(hay: &str, needle: &str) -> (r: bool)
    ensures
        r == is_substring(needle@, hay@),
{
    let h = chars_of(hay);
    let n = chars_of(needle);
    if n.len() > h.len() {
        return false;
    }
    let last = h.len() - n.len();
    let mut i: usize = 0;
    loop
        invariant
            h@ == hay@,
            n@ == needle@,
            n@.len() <= h@.len(),
            last == h@.len() - n@.len(),
            i <= last,
            forall|k: int| 0 <= k < i ==> #[trigger] h@.subrange(k, k + n@.len()) != n@,
        decreases last - i,
    {
        if occurs_at(&h, &n, i) {
            return true;
        }
        if i == last {
            return false;
        }
        i = i + 1;
    }
}

impl BasicQuery {
    /// Whether `file` meets this condition.
    pub fn matches(&self, file: &File) -> (r: bool)
        ensures
            r == basic_matches(*self, file@),
    {
        match self {
            BasicQuery::DomainExact(v) => crate::order::compare_text(file.domain().value(), v.as_str()) == 0,
            BasicQuery::DomainContains(v) => contains_text(file.domain().value(), v.as_str()),
            BasicQuery::PathExact(v) => crate::order::compare_text(file.relative_path().value(), v.as_str()) == 0,
            BasicQuery::PathContains(v) => contains_text(file.relative_path().value(), v.as_str()),
        }
    }
}

impl CompositeQuery {
    /// Whether `file` meets this combination.
    pub fn matches(&self, file: &File) -> (r: bool)
        ensures
            r == composite_matches(*self, file@),
    {
        match self {
            CompositeQuery::AnyOf(qs) => {
                if qs.len() == 0 {
                    return true;
                }
                let mut i: usize = 0;
                while i < qs.len()
                    invariant
                        *self == CompositeQuery::AnyOf(*qs),
                        i <= qs@.len(),
                        forall|k: int| 0 <= k < i ==> !#[trigger] basic_matches(qs@[k], file@),
                    decreases qs@.len() - i,
                {
                    if qs[i].matches(file) {
                        assert(basic_matches(qs@[i as int], file@));
                        return true;
                    }
                    i = i + 1;
                }
                false
            },
            CompositeQuery::AllOf(qs) => {
                let mut i: usize = 0;
                while i < qs.len()
                    invariant
                        *self == CompositeQuery::AllOf(*qs),
                        i <= qs@.len(),
                        forall|k: int| 0 <= k < i ==> #[trigger] basic_matches(qs@[k], file@),
                    decreases qs@.len() - i,
                {
                    if !qs[i].matches(file) {
                        assert(!basic_matches(qs@[i as int], file@));
                        return false;
                    }
                    i = i + 1;
                }
                true
            },
        }
    }
}

impl FileQuery {
    /// Whether `file` is selected by this query.
    pub fn matches(&self, file: &File) -> (r: bool)
        ensures
            r == query_matches(*self, file@),
    {
        match self {
            FileQuery::Basic(b) => b.matches(file),
            FileQuery::Composite(c) => c.matches(file),
        }
    }

    /// Owner equals `domain`.
    pub fn domain_exact(domain: &str) -> (r: FileQuery)
        ensures
            r matches FileQuery::Basic(BasicQuery::DomainExact(v)) && v@ == domain@,
    {
        FileQuery::Basic(BasicQuery::DomainExact(domain.to_string()))
    }

    /// Owner contains `domain`.
    pub fn domain_contains(domain: &str) -> (r: FileQuery)
        ensures
            r matches FileQuery::Basic(BasicQuery::DomainContains(v)) && v@ == domain@,
    {
        FileQuery::Basic(BasicQuery::DomainContains(domain.to_string()))
    }

    /// Logical path equals `path`.
    pub fn path_exact(path: &str) -> (r: FileQuery)
        ensures
            r matches FileQuery::Basic(BasicQuery::PathExact(v)) && v@ == path@,
    {
        FileQuery::Basic(BasicQuery::PathExact(path.to_string()))
    }

    /// Logical path contains `path`.
    pub fn path_contains(path: &str) -> (r: FileQuery)
        ensures
            r matches FileQuery::Basic(BasicQuery::PathContains(v)) && v@ == path@,
    {
        FileQuery::Basic(BasicQuery::PathContains(path.to_string()))
    }

    /// Matches records meeting at least one of `queries`.
    pub fn any_of(queries: Vec<BasicQuery>) -> (r: FileQuery)
        ensures
            r == FileQuery::Composite(CompositeQuery::AnyOf(queries)),
    {
        FileQuery::Composite(CompositeQuery::AnyOf(queries))
    }

    /// Matches records meeting every one of `queries`.
    pub fn all_of(queries: Vec<BasicQuery>) -> (r: FileQuery)
        ensures
            r == FileQuery::Composite(CompositeQuery::AllOf(queries)),
    {
        FileQuery::Composite(CompositeQuery::AllOf(queries))
    }
}

} // verus!
