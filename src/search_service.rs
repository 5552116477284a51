//! Turning flat search filters into a query, and running it.

use vstd::prelude::*;
use crate::file::File;
use crate::query::{BasicQuery, CompositeQuery, FileQuery};
use crate::search::{is_search_result, views, FileRepository, IndexError};

verus! {

/// The flat filters of a search, as a user gives them.
#[derive(Debug, Clone, PartialEq, Eq)]
pub struct SearchParams {
    pub domain_exact: Option<String>,
    pub domain_contains: Option<String>,
    pub path_exact: Option<String>,
    pub path_contains: Option<String>,
    /// Combine several conditions with "any of" instead of "all of".
    pub use_or: bool,
}

/// Why a search could not be made.
#[derive(Debug, Clone, PartialEq, Eq)]
pub enum SearchError {
    /// No filter was given.
    NoCondition,
    /// The index could not be searched.
    IndexAccess(IndexError),
}

impl SearchError {
    /// The text that describes the error.
    pub open spec fn message(self) -> Seq<char> {
        match self {
            SearchError::NoCondition => "At least one search condition must be specified"@,
            SearchError::IndexAccess(e) => "Failed to search for files: "@ + e.message@,
        }
    }

    /// A human-readable description of the error.
    pub fn to_string(&self) -> (r: String)
        ensures
            r@ == self.message(),
    {
        match self {
            SearchError::NoCondition => "At least one search condition must be specified".to_string(),
            SearchError::IndexAccess(e) => {
                let mut s = "Failed to search for files: ".to_string();
                s.append(e.message.as_str());
                s
            },
        }
    }
}

/// The condition that a present filter stands for, as a one-element
/// sequence; nothing when the filter is absent.
pub open spec fn condition_of(v: Option<String>, make: spec_fn(String) -> BasicQuery) -> Seq<
    BasicQuery,
> {
    match v {
        Some(s) => seq![make(s)],
        None => Seq::empty(),
    }
}

/// The conditions of the present filters, in the fixed order owner-exact,
/// owner-contains, path-exact, path-contains. An empty text is present.
pub open spec fn conditions(p: SearchParams) -> Seq<BasicQuery> {
    condition_of(p.domain_exact, |s: String| BasicQuery::DomainExact(s)) + condition_of(
        p.domain_contains,
        |s: String| BasicQuery::DomainContains(s),
    ) + condition_of(p.path_exact, |s: String| BasicQuery::PathExact(s)) + condition_of(
        p.path_contains,
        |s: String| BasicQuery::PathContains(s),
    )
}

/// `q` is the query that the filters `p` ask for: the single condition
/// itself, or all conditions combined by "any of" (when `use_or`) or "all of".
pub open spec fn built_query(p: SearchParams, q: FileQuery) -> bool {
    let c = conditions(p);
    if c.len() == 1 {
        q == FileQuery::Basic(c[0])
    } else if p.use_or {
        q matches FileQuery::Composite(CompositeQuery::AnyOf(v)) && v@ == c
    } else {
        q matches FileQuery::Composite(CompositeQuery::AllOf(v)) && v@ == c
    }
}

/// How many of the four filters of `p` are present.
pub open spec fn present_count(p: SearchParams) -> nat {
    (if p.domain_exact is Some { 1nat } else { 0nat }) + (if p.domain_contains is Some {
        1nat
    } else {
        0nat
    }) + (if p.path_exact is Some { 1nat } else { 0nat }) + (if p.path_contains is Some {
        1nat
    } else {
        0nat
    })
}

/// A built query is a single condition when exactly one filter is present
/// and a combination when two or more are; with no filter present no query
/// is built.
pub proof fn lemma_query_shape(p: SearchParams, q: FileQuery)
    ensures
        conditions(p).len() == present_count(p),
        built_query(p, q) && present_count(p) == 1 ==> q is Basic,
        built_query(p, q) && present_count(p) >= 2 ==> q is Composite,
{
}

fn push_condition(conds: &mut Vec<BasicQuery>, q: BasicQuery)
    ensures
        final(conds)@ == old(conds)@ + seq![q],
{
    conds.push(q);
    assert(final(conds)@ =~= old(conds)@ + seq![q]);
}

impl SearchParams {
    pub fn new(
        domain_exact: Option<String>,
        domain_contains: Option<String>,
        path_exact: Option<String>,
        path_contains: Option<String>,
        use_or: bool,
    ) -> (r: SearchParams)
        ensures
            r == (SearchParams { domain_exact, domain_contains, path_exact, path_contains, use_or }),
    {
        SearchParams { domain_exact, domain_contains, path_exact, path_contains, use_or }
    }

    /// The query these filters ask for; an error when no filter is present.
    pub fn build_query(self) -> (r: Result<FileQuery, SearchError>)
        ensures
            conditions(self).len() == 0 <==> r == Err::<FileQuery, SearchError>(
                SearchError::NoCondition,
            ),
            r matches Ok(q) ==> built_query(self, q),
            r is Ok || r == Err::<FileQuery, SearchError>(SearchError::NoCondition),
    {
        let ghost p = self;
        let mut conds: Vec<BasicQuery> = Vec::new();
        let ghost c0 = condition_of(p.domain_exact, |s: String| BasicQuery::DomainExact(s));
        let ghost c1 = condition_of(p.domain_contains, |s: String| BasicQuery::DomainContains(s));
        let ghost c2 = condition_of(p.path_exact, |s: String| BasicQuery::PathExact(s));
        let ghost c3 = condition_of(p.path_contains, |s: String| BasicQuery::PathContains(s));
        if let Some(v) = self.domain_exact {
            push_condition(&mut conds, BasicQuery::DomainExact(v));
        }
        assert(conds@ =~= c0);
        if let Some(v) = self.domain_contains {
            push_condition(&mut conds, BasicQuery::DomainContains(v));
        }
        assert(conds@ =~= c0 + c1);
        if let Some(v) = self.path_exact {
            push_condition(&mut conds, BasicQuery::PathExact(v));
        }
        assert(conds@ =~= c0 + c1 + c2);
        if let Some(v) = self.path_contains {
            push_condition(&mut conds, BasicQuery::PathContains(v));
        }
        assert(conds@ =~= conditions(p));
        if conds.len() == 0 {
            return Err(SearchError::NoCondition);
        }
        if conds.len() == 1 {
            let q = conds.pop().unwrap();
            return Ok(FileQuery::Basic(q));
        }
        if self.use_or {
            Ok(FileQuery::any_of(conds))
        } else {
            Ok(FileQuery::all_of(conds))
        }
    }
}

/// Runs searches described by flat filters.
#[derive(Debug)]
pub struct SearchService;

impl SearchService {
    pub fn new() -> (r: SearchService) {
        SearchService
    }

    /// Builds the query of `params` and asks `file_repo` for its records.
    pub fn search<R: FileRepository>(&self, file_repo: &R, params: SearchParams) -> (r: Result<
        Vec<File>,
        SearchError,
    >)
        ensures
            conditions(params).len() == 0 <==> r == Err::<Vec<File>, SearchError>(
                SearchError::NoCondition,
            ),
            r matches Ok(files) ==> exists|q: FileQuery|
                built_query(params, q) && is_search_result(views(files@), file_repo.contents(), q),
            conditions(params).len() != 0 && r is Err ==> r->Err_0 is IndexAccess,
    {
        let query = match params.build_query() {
            Ok(q) => q,
            Err(e) => return Err(e),
        };
        match file_repo.search(query) {
            Ok(files) => Ok(files),
            Err(e) => Err(SearchError::IndexAccess(e)),
        }
    }
}

impl Default for SearchService {
    fn default() -> (r: SearchService) {
        SearchService::new()
    }
}

} // verus!
