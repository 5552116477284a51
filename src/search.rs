//! Index search: selecting the records that a query matches, in search order.

use vstd::prelude::*;
use vstd::relations::{sorted_by, total_ordering};
use vstd::seq_lib::{group_to_multiset_ensures, lemma_sorted_unique, to_multiset_insert};
use crate::file::{File, FileView};
use crate::order::{
    lemma_record_le_owner_path, lemma_search_order_total, owner_path_le, record_le,
    record_le_exec, search_order,
};
use crate::query::{query_matches, FileQuery};

verus! {

/// The views of a sequence of records.
pub open spec fn views(s: Seq<File>) -> Seq<FileView> {
    s.map_values(|f: File| f@)
}

/// The records of `index` that `q` matches, in index order.
pub open spec fn selected(index: Seq<FileView>, q: FileQuery) -> Seq<FileView> {
    index.filter(|f: FileView| query_matches(q, f))
}

/// `r` holds exactly the records of `index` that `q` matches, each as often
/// as in the index, sorted in the search order.
pub open spec fn is_search_result(r: Seq<FileView>, index: Seq<FileView>, q: FileQuery) -> bool {
    &&& sorted_by(r, search_order())
    &&& r.to_multiset() == selected(index, q).to_multiset()
}

/// Why an index could not be searched.
#[derive(Debug, Clone, PartialEq, Eq)]
pub struct IndexError {
    /// What the storage reported.
    pub message: String,
}

/// A source of file records that can evaluate a query.
pub trait FileRepository {
    /// The records the repository holds.
    spec fn contents(&self) -> Seq<FileView>;

    /// The records that `query` matches, in search order; an error when the
    /// storage cannot be read.
    fn search(&self, query: FileQuery) -> (r: Result<Vec<File>, IndexError>)
        ensures
            r matches Ok(files) ==> is_search_result(views(files@), self.contents(), query),
    ;
}

/// An index held in memory: every record, in storage order.
#[derive(Debug)]
pub struct MemoryIndex {
    records: Vec<File>,
}

impl View for MemoryIndex {
    type V = Seq<FileView>;

    closed spec fn view(&self) -> Seq<FileView> {
        views(self.records@)
    }
}

impl MemoryIndex {
    /// An index holding `records`.
    pub fn new(records: Vec<File>) -> (r: MemoryIndex)
        ensures
            r@ == views(records@),
    {
        MemoryIndex { records }
    }

    /// Every record, in storage order.
    pub fn records(&self) -> (r: &Vec<File>)
        ensures
            views(r@) == self@,
    {
        &self.records
    }

    /// The records that `query` matches, sorted in search order.
    pub fn search_query(&self, query: &FileQuery) -> (r: Vec<File>)
        ensures
            is_search_result(views(r@), self@, *query),
    {
        search_records(&self.records, query)
    }
}

impl FileRepository for MemoryIndex {
    closed spec fn contents(&self) -> Seq<FileView> {
        self@
    }

    /// Never fails: the records are in memory.
    fn search(&self, query: FileQuery) -> (r: Result<Vec<File>, IndexError>)
        ensures
            r matches Ok(files) && is_search_result(views(files@), self@, query),
    {
        Ok(self.search_query(&query))
    }
}

/// Inserts `f` into the sorted vector `out`, keeping it sorted.
fn insert_sorted(out: &mut Vec<File>, f: File)
    requires
        sorted_by(views(old(out)@), search_order()),
    ensures
        sorted_by(views(final(out)@), search_order()),
        views(final(out)@).to_multiset() == views(old(out)@).to_multiset().insert(f@),
{
    proof {
        lemma_search_order_total();
    }
    let ghost le = search_order();
    let ghost v = views(out@);
    let mut lo: usize = 0;
    let mut hi: usize = out.len();
    while lo < hi
        invariant
            v == views(out@),
            le == search_order(),
            total_ordering(le),
            sorted_by(v, le),
            lo <= hi <= out@.len(),
            forall|j: int| 0 <= j < lo ==> #[trigger] record_le(v[j], f@),
            forall|j: int| hi <= j < v.len() ==> !#[trigger] record_le(v[j], f@),
        decreases hi - lo,
    {
        let mid = lo + (hi - lo) / 2;
        if record_le_exec(&out[mid], &f) {
            assert forall|j: int| 0 <= j < mid + 1 implies #[trigger] record_le(v[j], f@) by {
                if j < mid {
                    assert(le(v[j], v[mid as int]));
                    assert(le(v[mid as int], f@));
                }
            }
            lo = mid + 1;
        } else {
            assert forall|j: int| mid <= j < v.len() implies !#[trigger] record_le(v[j], f@) by {
                if j > mid {
                    assert(le(v[mid as int], v[j]));
                    if le(v[j], f@) {
                        assert(le(v[mid as int], f@));
                    }
                }
            }
            hi = mid;
        }
    }
    let ghost pos = lo as int;
    out.insert(lo, f);
    proof {
        let w = views(out@);
        assert(w =~= v.insert(pos, f@));
        to_multiset_insert(v, pos, f@);
        assert forall|a: int, b: int| 0 <= a < b < w.len() implies #[trigger] le(w[a], w[b]) by {
            if b < pos {
                assert(le(v[a], v[b]));
            } else if a > pos {
                assert(le(v[a - 1], v[b - 1]));
            } else if a == pos {
                assert(!record_le(v[b - 1], f@));
                assert(le(f@, v[b - 1]) || le(v[b - 1], f@));
                assert(le(f@, v[b - 1]));
            } else if b == pos {
                assert(record_le(v[a], f@));
            } else {
                assert(le(v[a], v[b - 1]));
            }
        }
    }
}

/// The records of `records` that `query` matches, sorted in search order.
pub fn search_records(records: &Vec<File>, query: &FileQuery) -> (r: Vec<File>)
    ensures
        is_search_result(views(r@), views(records@), *query),
{
    let ghost q = *query;
    let ghost pred = |f: FileView| query_matches(q, f);
    let mut out: Vec<File> = Vec::new();
    let mut i: usize = 0;
    proof {
        assert(views(records@).take(0) =~= Seq::<FileView>::empty());
        assert(views(out@) =~= Seq::<FileView>::empty());
        reveal(Seq::filter);
    }
    while i < records.len()
        invariant
            q == *query,
            pred == (|f: FileView| query_matches(q, f)),
            i <= records@.len(),
            sorted_by(views(out@), search_order()),
            views(out@).to_multiset() == views(records@).take(i as int).filter(pred).to_multiset(),
        decreases records@.len() - i,
    {
        let ghost before = views(records@).take(i as int);
        let ghost fv = records@[i as int]@;
        assert(views(records@).take(i + 1) =~= before.push(fv));
        proof {
            before.lemma_filter_push(fv, pred);
        }
        if query.matches(&records[i]) {
            let f = records[i].clone();
            insert_sorted(&mut out, f);
            proof {
                broadcast use group_to_multiset_ensures;

                assert(before.filter(pred).push(fv).to_multiset() =~= before.filter(
                    pred,
                ).to_multiset().insert(fv));
            }
        }
        i = i + 1;
    }
    assert(views(records@).take(records@.len() as int) =~= views(records@));
    out
}

/// A search result of an empty conjunction or disjunction is the whole index.
proof fn lemma_filter_all<A>(s: Seq<A>, pred: spec_fn(A) -> bool)
    requires
        forall|x: A| #[trigger] pred(x),
    ensures
        s.filter(pred) == s,
    decreases s.len(),
{
    reveal(Seq::filter);
    if s.len() > 0 {
        lemma_filter_all(s.drop_last(), pred);
        assert(s.drop_last().push(s.last()) =~= s);
    }
}

/// An empty "any of" and an empty "all of" both select every record of the
/// index: the empty disjunction filters nothing out, like the empty
/// conjunction.
pub proof fn lemma_empty_combinations_select_all(
    index: Seq<FileView>,
    any: FileQuery,
    all: FileQuery,
)
    requires
        any matches FileQuery::Composite(crate::query::CompositeQuery::AnyOf(v)) && v@.len() == 0,
        all matches FileQuery::Composite(crate::query::CompositeQuery::AllOf(v)) && v@.len() == 0,
    ensures
        selected(index, any) == index,
        selected(index, all) == index,
{
    lemma_filter_all(index, |f: FileView| query_matches(any, f));
    lemma_filter_all(index, |f: FileView| query_matches(all, f));
}

/// A search result is ordered by owner, then by logical path, and it is
/// determined by the index and the query alone: two searches of the same
/// index with the same query give the same sequence.
pub proof fn lemma_search_result_ordered_and_unique(
    index: Seq<FileView>,
    q: FileQuery,
    r1: Seq<FileView>,
    r2: Seq<FileView>,
)
    requires
        is_search_result(r1, index, q),
        is_search_result(r2, index, q),
    ensures
        r1 == r2,
        forall|i: int, j: int| 0 <= i < j < r1.len() ==> owner_path_le(#[trigger] r1[i], #[trigger] r1[j]),
{
    lemma_search_order_total();
    lemma_sorted_unique(r1, r2, search_order());
    assert forall|i: int, j: int| 0 <= i < j < r1.len() implies owner_path_le(
        #[trigger] r1[i],
        #[trigger] r1[j],
    ) by {
        assert(search_order()(r1[i], r1[j]));
        lemma_record_le_owner_path(r1[i], r1[j]);
    }
}

} // verus!
