//! The order in which index search returns records: by owner, then logical
//! path, with the remaining fields breaking ties so that the order is total.

use vstd::prelude::*;
use vstd::relations::total_ordering;
use crate::file::{File, FileView};
use crate::text::chars_of;

verus! {

/// Strict lexicographic order on sequences, over a strict order `lt` on items;
/// a proper prefix comes first.
pub open spec fn lex_lt<A>(a: Seq<A>, b: Seq<A>, lt: spec_fn(A, A) -> bool) -> bool
    decreases a.len(),
{
    if a.len() == 0 {
        b.len() > 0
    } else if b.len() == 0 {
        false
    } else if a[0] == b[0] {
        lex_lt(a.drop_first(), b.drop_first(), lt)
    } else {
        lt(a[0], b[0])
    }
}

/// `lt` is irreflexive, transitive and relates any two distinct items.
pub open spec fn strict_total<A>(lt: spec_fn(A, A) -> bool) -> bool {
    &&& forall|x: A| !#[trigger] lt(x, x)
    &&& forall|x: A, y: A, z: A| #[trigger] lt(x, y) && #[trigger] lt(y, z) ==> lt(x, z)
    &&& forall|x: A, y: A| x != y ==> #[trigger] lt(x, y) || #[trigger] lt(y, x)
}

pub open spec fn char_lt() -> spec_fn(char, char) -> bool {
    |x: char, y: char| x < y
}

pub open spec fn byte_lt() -> spec_fn(u8, u8) -> bool {
    |x: u8, y: u8| x < y
}

/// Ordinary lexicographic order of texts, by code point; the empty text is first.
pub open spec fn text_lt(a: Seq<char>, b: Seq<char>) -> bool {
    lex_lt(a, b, char_lt())
}

pub open spec fn bytes_lt(a: Seq<u8>, b: Seq<u8>) -> bool {
    lex_lt(a, b, byte_lt())
}

/// Strict search order: owner, then logical path, then identifier, flags and
/// metadata.
pub open spec fn record_lt(x: FileView, y: FileView) -> bool {
    ||| text_lt(x.owner, y.owner)
    ||| x.owner == y.owner && text_lt(x.path, y.path)
    ||| x.owner == y.owner && x.path == y.path && text_lt(x.id, y.id)
    ||| x.owner == y.owner && x.path == y.path && x.id == y.id && x.flags < y.flags
    ||| x.owner == y.owner && x.path == y.path && x.id == y.id && x.flags == y.flags
        && bytes_lt(x.metadata, y.metadata)
}

pub open spec fn record_le(x: FileView, y: FileView) -> bool {
    x == y || record_lt(x, y)
}

/// The search order as a relation.
pub open spec fn search_order() -> spec_fn(FileView, FileView) -> bool {
    |x: FileView, y: FileView| record_le(x, y)
}

/// The owner and path of `x` come no later than those of `y`.
pub open spec fn owner_path_le(x: FileView, y: FileView) -> bool {
    text_lt(x.owner, y.owner) || (x.owner == y.owner && (text_lt(x.path, y.path)
        || x.path == y.path))
}

pub proof fn lemma_lex_irreflexive<A>(a: Seq<A>, lt: spec_fn(A, A) -> bool)
    requires
        strict_total(lt),
    ensures
        !lex_lt(a, a, lt),
    decreases a.len(),
{
    if a.len() > 0 {
        lemma_lex_irreflexive(a.drop_first(), lt);
    }
}

pub proof fn lemma_lex_asymmetric<A>(a: Seq<A>, b: Seq<A>, lt: spec_fn(A, A) -> bool)
    requires
        strict_total(lt),
        lex_lt(a, b, lt),
    ensures
        !lex_lt(b, a, lt),
    decreases a.len(),
{
    if a.len() > 0 && b.len() > 0 {
        if a[0] == b[0] {
            lemma_lex_asymmetric(a.drop_first(), b.drop_first(), lt);
        } else {
            if lt(b[0], a[0]) {
                assert(lt(a[0], a[0]));
            }
        }
    }
}

pub proof fn lemma_lex_transitive<A>(a: Seq<A>, b: Seq<A>, c: Seq<A>, lt: spec_fn(A, A) -> bool)
    requires
        strict_total(lt),
        lex_lt(a, b, lt),
        lex_lt(b, c, lt),
    ensures
        lex_lt(a, c, lt),
    decreases a.len(),
{
    if a.len() > 0 {
        if a[0] == b[0] && b[0] == c[0] {
            lemma_lex_transitive(a.drop_first(), b.drop_first(), c.drop_first(), lt);
        }
    }
}

pub proof fn lemma_lex_total<A>(a: Seq<A>, b: Seq<A>, lt: spec_fn(A, A) -> bool)
    requires
        strict_total(lt),
        a != b,
    ensures
        lex_lt(a, b, lt) || lex_lt(b, a, lt),
    decreases a.len(),
{
    if a.len() == 0 {
        assert(b.len() > 0) by {
            if b.len() == 0 {
                assert(a =~= b);
            }
        }
    } else if b.len() > 0 && a[0] == b[0] {
        if a.drop_first() == b.drop_first() {
            assert(a.drop_first().len() == b.drop_first().len());
            assert(a.len() == b.len());
            assert(a =~= b) by {
                assert forall|i: int| 0 <= i < a.len() implies a[i] == b[i] by {
                    if i > 0 {
                        assert(a[i] == a.drop_first()[i - 1]);
                        assert(b[i] == b.drop_first()[i - 1]);
                    }
                }
            }
        }
        lemma_lex_total(a.drop_first(), b.drop_first(), lt);
    }
}

pub proof fn lemma_char_lt_strict_total()
    ensures
        strict_total(char_lt()),
{
}

pub proof fn lemma_byte_lt_strict_total()
    ensures
        strict_total(byte_lt()),
{
}

/// The search order is a total order on record views.
pub proof fn lemma_search_order_total()
    ensures
        total_ordering(search_order()),
{
    lemma_char_lt_strict_total();
    lemma_byte_lt_strict_total();
    let le = search_order();
    assert forall|x: FileView, y: FileView| #[trigger] le(x, y) && #[trigger] le(y, x) implies x
        == y by {
        if x != y {
            lemma_record_lt_asymmetric(x, y);
        }
    }
    assert forall|x: FileView, y: FileView, z: FileView| #[trigger] le(x, y) && #[trigger] le(
        y,
        z,
    ) implies le(x, z) by {
        if x != y && y != z {
            lemma_record_lt_transitive(x, y, z);
        }
    }
    assert forall|x: FileView, y: FileView| #[trigger] le(x, y) || #[trigger] le(y, x) by {
        if x != y {
            lemma_record_lt_total(x, y);
        }
    }
}

pub proof fn lemma_record_lt_asymmetric(x: FileView, y: FileView)
    requires
        record_lt(x, y),
    ensures
        !record_lt(y, x),
{
    lemma_char_lt_strict_total();
    lemma_byte_lt_strict_total();
    lemma_lex_irreflexive(x.owner, char_lt());
    lemma_lex_irreflexive(x.path, char_lt());
    lemma_lex_irreflexive(x.id, char_lt());
    lemma_lex_irreflexive(x.metadata, byte_lt());
    if text_lt(x.owner, y.owner) {
        lemma_lex_asymmetric(x.owner, y.owner, char_lt());
    }
    if text_lt(x.path, y.path) {
        lemma_lex_asymmetric(x.path, y.path, char_lt());
    }
    if text_lt(x.id, y.id) {
        lemma_lex_asymmetric(x.id, y.id, char_lt());
    }
    if bytes_lt(x.metadata, y.metadata) {
        lemma_lex_asymmetric(x.metadata, y.metadata, byte_lt());
    }
}

pub proof fn lemma_record_lt_transitive(x: FileView, y: FileView, z: FileView)
    requires
        record_lt(x, y),
        record_lt(y, z),
    ensures
        record_lt(x, z),
{
    lemma_char_lt_strict_total();
    lemma_byte_lt_strict_total();
    if text_lt(x.owner, y.owner) && text_lt(y.owner, z.owner) {
        lemma_lex_transitive(x.owner, y.owner, z.owner, char_lt());
    }
    if text_lt(x.path, y.path) && text_lt(y.path, z.path) {
        lemma_lex_transitive(x.path, y.path, z.path, char_lt());
    }
    if text_lt(x.id, y.id) && text_lt(y.id, z.id) {
        lemma_lex_transitive(x.id, y.id, z.id, char_lt());
    }
    if bytes_lt(x.metadata, y.metadata) && bytes_lt(y.metadata, z.metadata) {
        lemma_lex_transitive(x.metadata, y.metadata, z.metadata, byte_lt());
    }
}

pub proof fn lemma_record_lt_total(x: FileView, y: FileView)
    requires
        x != y,
    ensures
        record_lt(x, y) || record_lt(y, x),
{
    lemma_char_lt_strict_total();
    lemma_byte_lt_strict_total();
    if x.owner != y.owner {
        lemma_lex_total(x.owner, y.owner, char_lt());
    } else if x.path != y.path {
        lemma_lex_total(x.path, y.path, char_lt());
    } else if x.id != y.id {
        lemma_lex_total(x.id, y.id, char_lt());
    } else if x.flags == y.flags {
        lemma_lex_total(x.metadata, y.metadata, byte_lt());
    }
}

/// A record that comes no later in the search order also comes no later by
/// owner and path.
pub proof fn lemma_record_le_owner_path(x: FileView, y: FileView)
    requires
        record_le(x, y),
    ensures
        owner_path_le(x, y),
{
}

/// Compares two texts: negative, zero or positive as `a` comes before, equals
/// or comes after `b`.
pub fn compare_text(a: &str, b: &str) -> (r: i8)
    ensures
        r < 0 <==> text_lt(a@, b@),
        r == 0 <==> a@ == b@,
        r > 0 <==> text_lt(b@, a@),
{
    let x = chars_of(a);
    let y = chars_of(b);
    proof {
        lemma_char_lt_strict_total();
    }
    let mut i: usize = 0;
    assert(x@.skip(0) =~= x@);
    assert(y@.skip(0) =~= y@);
    while i < x.len() && i < y.len() && x[i] == y[i]
        invariant
            x@ == a@,
            y@ == b@,
            i <= x.len(),
            i <= y.len(),
            x@.take(i as int) == y@.take(i as int),
            text_lt(a@, b@) == text_lt(x@.skip(i as int), y@.skip(i as int)),
            text_lt(b@, a@) == text_lt(y@.skip(i as int), x@.skip(i as int)),
        decreases x.len() - i,
    {
        assert(x@.skip(i as int).drop_first() =~= x@.skip(i + 1));
        assert(y@.skip(i as int).drop_first() =~= y@.skip(i + 1));
        i = i + 1;
        assert(x@.take(i as int) =~= x@.take(i - 1).push(x@[i - 1]));
        assert(y@.take(i as int) =~= y@.take(i - 1).push(y@[i - 1]));
    }
    let ghost xs = x@.skip(i as int);
    let ghost ys = y@.skip(i as int);
    if i == x.len() && i == y.len() {
        assert(x@ =~= x@.take(i as int));
        assert(y@ =~= y@.take(i as int));
        proof {
            lemma_lex_irreflexive(x@, char_lt());
        }
        0
    } else if i == x.len() {
        assert(x@ =~= x@.take(i as int));
        assert(x@ != y@) by {
            assert(x@.len() != y@.len());
        }
        assert(xs.len() == 0 && ys.len() > 0);
        -1
    } else if i == y.len() {
        assert(y@ =~= y@.take(i as int));
        assert(x@.len() != y@.len());
        assert(ys.len() == 0 && xs.len() > 0);
        1
    } else if x[i] < y[i] {
        assert(xs[0] == x@[i as int] && ys[0] == y@[i as int]);
        assert(x@[i as int] != y@[i as int]);
        -1
    } else {
        assert(xs[0] == x@[i as int] && ys[0] == y@[i as int]);
        assert(x@[i as int] != y@[i as int]);
        1
    }
}

/// Compares two byte strings lexicographically, as [`compare_text`] does.
pub fn compare_bytes(x: &[u8], y: &[u8]) -> (r: i8)
    ensures
        r < 0 <==> bytes_lt(x@, y@),
        r == 0 <==> x@ == y@,
        r > 0 <==> bytes_lt(y@, x@),
{
    proof {
        lemma_byte_lt_strict_total();
    }
    let mut i: usize = 0;
    assert(x@.skip(0) =~= x@);
    assert(y@.skip(0) =~= y@);
    while i < x.len() && i < y.len() && x[i] == y[i]
        invariant
            i <= x@.len(),
            i <= y@.len(),
            x@.take(i as int) == y@.take(i as int),
            bytes_lt(x@, y@) == bytes_lt(x@.skip(i as int), y@.skip(i as int)),
            bytes_lt(y@, x@) == bytes_lt(y@.skip(i as int), x@.skip(i as int)),
        decreases x@.len() - i,
    {
        assert(x@.skip(i as int).drop_first() =~= x@.skip(i + 1));
        assert(y@.skip(i as int).drop_first() =~= y@.skip(i + 1));
        i = i + 1;
        assert(x@.take(i as int) =~= x@.take(i - 1).push(x@[i - 1]));
        assert(y@.take(i as int) =~= y@.take(i - 1).push(y@[i - 1]));
    }
    let ghost xs = x@.skip(i as int);
    let ghost ys = y@.skip(i as int);
    if i == x.len() && i == y.len() {
        assert(x@ =~= x@.take(i as int));
        assert(y@ =~= y@.take(i as int));
        proof {
            lemma_lex_irreflexive(x@, byte_lt());
        }
        0
    } else if i == x.len() {
        assert(x@ =~= x@.take(i as int));
        assert(x@ != y@) by {
            assert(x@.len() != y@.len());
        }
        assert(xs.len() == 0 && ys.len() > 0);
        -1
    } else if i == y.len() {
        assert(y@ =~= y@.take(i as int));
        assert(x@.len() != y@.len());
        assert(ys.len() == 0 && xs.len() > 0);
        1
    } else if x[i] < y[i] {
        assert(xs[0] == x@[i as int] && ys[0] == y@[i as int]);
        -1
    } else {
        assert(xs[0] == x@[i as int] && ys[0] == y@[i as int]);
        1
    }
}

/// True when `a` comes no later than `b` in the search order.
pub fn record_le_exec(a: &File, b: &File) -> (r: bool)
    ensures
        r == record_le(a@, b@),
{
    proof {
        lemma_char_lt_strict_total();
        lemma_byte_lt_strict_total();
        lemma_lex_irreflexive(a@.owner, char_lt());
        lemma_lex_irreflexive(a@.path, char_lt());
        lemma_lex_irreflexive(a@.id, char_lt());
        lemma_lex_irreflexive(a@.metadata, byte_lt());
    }
    let c = compare_text(a.domain().value(), b.domain().value());
    if c != 0 {
        return c < 0;
    }
    let c = compare_text(a.relative_path().value(), b.relative_path().value());
    if c != 0 {
        return c < 0;
    }
    let c = compare_text(a.id().value(), b.id().value());
    if c != 0 {
        return c < 0;
    }
    let fa = a.flags().bits();
    let fb = b.flags().bits();
    if fa != fb {
        return fa < fb;
    }
    let c = compare_bytes(a.metadata(), b.metadata());
    if c != 0 {
        return c < 0;
    }
    assert(a@ == b@);
    true
}

} // verus!
