//! Character-level text primitives: equality, lexicographic order, sorting
//! and joining, all specified over `Seq<char>` views.

use vstd::prelude::*;
use vstd::relations::{sorted_by, total_ordering};
use vstd::seq_lib::lemma_sorted_unique;
use vstd::string::{StrSliceExecFns, StringExecFns};
use vstd::utf8::char_u32_cast;

verus! {

/// Exact equality of two string slices, decided character by character.
pub fn str_eq(a: &str, b: &str) -> (r: bool)
    ensures
        r == (a@ == b@),
{
    let alen = a.unicode_len();
    let blen = b.unicode_len();
    if alen != blen {
        return false;
    }
    let mut i: usize = 0;
    while i < alen
        invariant
            i <= alen,
            alen == a@.len(),
            alen == blen,
            blen == b@.len(),
            forall|j: int| 0 <= j < i ==> a@[j] == b@[j],
        decreases alen - i,
    {
        if a.get_char(i) != b.get_char(i) {
            return false;
        }
        i += 1;
    }
    proof {
        assert(a@ =~= b@);
    }
    true
}

/// Lexicographic order on character sequences, comparing Unicode scalar
/// values position by position.
pub open spec fn lex_le(a: Seq<char>, b: Seq<char>) -> bool
    decreases a.len(),
{
    if a.len() == 0 {
        true
    } else if b.len() == 0 {
        false
    } else if a[0] == b[0] {
        lex_le(a.drop_first(), b.drop_first())
    } else {
        (a[0] as u32) < (b[0] as u32)
    }
}

/// The order `lex_le` as a binary relation value.
pub open spec fn lex_fn() -> spec_fn(Seq<char>, Seq<char>) -> bool {
    |a: Seq<char>, b: Seq<char>| lex_le(a, b)
}

/// Any two character sequences are comparable under `lex_le`.
pub proof fn lemma_lex_le_connected(a: Seq<char>, b: Seq<char>)
    ensures
        lex_le(a, b) || lex_le(b, a),
    decreases a.len(),
{
    if a.len() == 0 || b.len() == 0 {
    } else if a[0] == b[0] {
        lemma_lex_le_connected(a.drop_first(), b.drop_first());
    } else {
        assert((a[0] as u32) != (b[0] as u32)) by {
            char_u32_cast(a[0], a[0] as u32);
            char_u32_cast(b[0], b[0] as u32);
        }
    }
}

/// `lex_le` in both directions forces equality.
pub proof fn lemma_lex_le_antisymmetric(a: Seq<char>, b: Seq<char>)
    requires
        lex_le(a, b),
        lex_le(b, a),
    ensures
        a == b,
    decreases a.len(),
{
    if a.len() == 0 {
        assert(b.len() == 0);
        assert(a =~= b);
    } else {
        assert(b.len() > 0);
        assert(a[0] == b[0]) by {
            char_u32_cast(a[0], a[0] as u32);
            char_u32_cast(b[0], b[0] as u32);
        }
        lemma_lex_le_antisymmetric(a.drop_first(), b.drop_first());
        assert(a.drop_first().len() == a.len() - 1);
        assert(b.drop_first().len() == b.len() - 1);
        assert(a.len() == b.len());
        assert forall|i: int| 0 <= i < a.len() implies a[i] == b[i] by {
            if i > 0 {
                assert(a[i] == a.drop_first()[i - 1]);
                assert(b[i] == b.drop_first()[i - 1]);
            }
        }
        assert(a =~= b);
    }
}

/// `lex_le` is transitive.
pub proof fn lemma_lex_le_transitive(a: Seq<char>, b: Seq<char>, c: Seq<char>)
    requires
        lex_le(a, b),
        lex_le(b, c),
    ensures
        lex_le(a, c),
    decreases a.len(),
{
    if a.len() == 0 || b.len() == 0 || c.len() == 0 {
    } else if a[0] == b[0] && b[0] == c[0] {
        lemma_lex_le_transitive(a.drop_first(), b.drop_first(), c.drop_first());
    }
}

/// `lex_le` is a total ordering in the sense of `vstd::relations`.
pub proof fn lemma_lex_total_ordering()
    ensures
        total_ordering(lex_fn()),
{
    assert forall|a: Seq<char>, b: Seq<char>| #[trigger] lex_fn()(a, b) || lex_fn()(
        b,
        a,
    ) by {
        lemma_lex_le_connected(a, b);
    }
    assert forall|a: Seq<char>, b: Seq<char>| #[trigger] lex_fn()(a, b) && lex_fn()(b, a)
        implies a == b by {
        lemma_lex_le_antisymmetric(a, b);
    }
    assert forall|a: Seq<char>, b: Seq<char>, c: Seq<char>|
        #[trigger] lex_fn()(a, b) && #[trigger] lex_fn()(b, c) implies lex_fn()(a, c) by {
        lemma_lex_le_transitive(a, b, c);
    }
}

/// Decides `lex_le` on two string slices.
pub fn str_lex_le(a: &str, b: &str) -> (r: bool)
    ensures
        r == lex_le(a@, b@),
{
    let alen = a.unicode_len();
    let blen = b.unicode_len();
    let mut i: usize = 0;
    proof {
        assert(a@.skip(0) =~= a@);
        assert(b@.skip(0) =~= b@);
    }
    loop
        invariant
            i <= alen,
            i <= blen,
            alen == a@.len(),
            blen == b@.len(),
            lex_le(a@, b@) == lex_le(a@.skip(i as int), b@.skip(i as int)),
        decreases alen - i,
    {
        if i >= alen {
            return true;
        }
        if i >= blen {
            proof {
                assert(a@.skip(i as int).len() > 0);
                assert(b@.skip(i as int).len() == 0);
            }
            return false;
        }
        let ca = a.get_char(i);
        let cb = b.get_char(i);
        proof {
            assert(a@.skip(i as int)[0] == a@[i as int]);
            assert(b@.skip(i as int)[0] == b@[i as int]);
        }
        if ca != cb {
            return (ca as u32) < (cb as u32);
        }
        proof {
            assert(a@.skip(i as int).drop_first() =~= a@.skip(i + 1));
            assert(b@.skip(i as int).drop_first() =~= b@.skip(i + 1));
        }
        i += 1;
    }
}

/// The views of a sequence of strings.
pub open spec fn views(s: Seq<String>) -> Seq<Seq<char>> {
    s.map_values(|x: String| x@)
}

/// An index of a minimal element of a non-empty string vector under `lex_le`.
fn min_index(v: &Vec<String>) -> (r: usize)
    requires
        v@.len() > 0,
    ensures
        r < v@.len(),
        forall|j: int| 0 <= j < v@.len() ==> lex_le(v@[r as int]@, v@[j]@),
{
    let mut m: usize = 0;
    let mut k: usize = 1;
    proof {
        lemma_lex_le_connected(v@[0]@, v@[0]@);
    }
    while k < v.len()
        invariant
            m < k,
            k <= v@.len(),
            forall|j: int| 0 <= j < k ==> lex_le(v@[m as int]@, v@[j]@),
        decreases v@.len() - k,
    {
        if str_lex_le(v[k].as_str(), v[m].as_str()) {
            proof {
                assert forall|j: int| 0 <= j < k + 1 implies lex_le(v@[k as int]@, v@[j]@) by {
                    if j < k {
                        lemma_lex_le_transitive(v@[k as int]@, v@[m as int]@, v@[j]@);
                    } else {
                        lemma_lex_le_connected(v@[k as int]@, v@[k as int]@);
                    }
                }
            }
            m = k;
        } else {
            proof {
                lemma_lex_le_connected(v@[k as int]@, v@[m as int]@);
            }
        }
        k += 1;
    }
    m
}

/// Sorts strings into lexicographic order, keeping the multiset of values.
pub fn sort_strings(v: Vec<String>) -> (r: Vec<String>)
    ensures
        sorted_by(views(r@), lex_fn()),
        views(r@).to_multiset() == views(v@).to_multiset(),
{
    let ghost m0 = views(v@).to_multiset();
    let mut rest = v;
    let mut out: Vec<String> = Vec::new();
    proof {
        broadcast use vstd::multiset::group_multiset_axioms;
        broadcast use vstd::seq_lib::group_to_multiset_ensures;

        assert(views(out@) =~= Seq::<Seq<char>>::empty());
        assert forall|e: Seq<char>| views(out@).to_multiset().count(e) == 0 by {
            assert(!views(out@).contains(e));
        }
        assert(views(out@).to_multiset().add(views(rest@).to_multiset()) =~= m0);
    }
    while rest.len() > 0
        invariant
            views(out@).to_multiset().add(views(rest@).to_multiset()) == m0,
            sorted_by(views(out@), lex_fn()),
            forall|i: int, j: int|
                0 <= i < out@.len() && 0 <= j < rest@.len() ==> lex_le(out@[i]@, rest@[j]@),
        decreases rest@.len(),
    {
        let ghost out0 = out@;
        let ghost rest0 = rest@;
        let m = min_index(&rest);
        let x = rest.remove(m);
        out.push(x);
        proof {
            broadcast use vstd::multiset::group_multiset_axioms;
            broadcast use vstd::seq_lib::group_to_multiset_ensures;

            assert(views(rest@) =~= views(rest0).remove(m as int));
            assert(views(out@) =~= views(out0).push(rest0[m as int]@));
            let e = views(rest0)[m as int];
            assert(views(rest0).to_multiset().count(e) > 0) by {
                assert(views(rest0).contains(e));
            }
            assert(views(out@).to_multiset().add(views(rest@).to_multiset()) =~= views(
                out0,
            ).to_multiset().add(views(rest0).to_multiset()));
            assert forall|i: int, j: int|
                0 <= i < out@.len() && 0 <= j < rest@.len() implies lex_le(
                out@[i]@,
                rest@[j]@,
            ) by {
                if i < out0.len() {
                    if j < m {
                        assert(rest@[j] == rest0[j]);
                    } else {
                        assert(rest@[j] == rest0[j + 1]);
                    }
                } else {
                    assert(out@[i]@ == rest0[m as int]@);
                    if j < m {
                        assert(rest@[j] == rest0[j]);
                    } else {
                        assert(rest@[j] == rest0[j + 1]);
                    }
                }
            }
            assert(sorted_by(views(out@), lex_fn())) by {
                assert forall|i: int, j: int| 0 <= i < j < views(out@).len() implies lex_fn()(
                    views(out@)[i],
                    views(out@)[j],
                ) by {
                    if j < out0.len() {
                        assert(lex_fn()(views(out0)[i], views(out0)[j]));
                    } else {
                        assert(lex_le(out0[i]@, rest0[m as int]@));
                    }
                }
            }
        }
    }
    proof {
        broadcast use vstd::multiset::group_multiset_axioms;
        broadcast use vstd::seq_lib::group_to_multiset_ensures;

        assert(views(rest@) =~= Seq::<Seq<char>>::empty());
        assert forall|e: Seq<char>| views(rest@).to_multiset().count(e) == 0 by {
            assert(!views(rest@).contains(e));
        }
        assert(views(out@).to_multiset().add(views(rest@).to_multiset()) =~= views(
            out@,
        ).to_multiset());
    }
    out
}

/// Lines joined with a newline between each pair, in order.
pub open spec fn spec_join_lines(lines: Seq<Seq<char>>) -> Seq<char>
    decreases lines.len(),
{
    if lines.len() == 0 {
        Seq::empty()
    } else if lines.len() == 1 {
        lines[0]
    } else {
        spec_join_lines(lines.drop_last()) + "\n"@ + lines.last()
    }
}

/// Joins strings with newline separators.
pub fn join_lines(v: &Vec<String>) -> (r: String)
    ensures
        r@ == spec_join_lines(views(v@)),
{
    let mut out = String::new();
    let mut i: usize = 0;
    proof {
        assert(views(v@).take(0) =~= Seq::<Seq<char>>::empty());
    }
    while i < v.len()
        invariant
            i <= v@.len(),
            out@ == spec_join_lines(views(v@).take(i as int)),
        decreases v@.len() - i,
    {
        let ghost pre = views(v@).take(i as int);
        if i > 0 {
            out.append("\n");
        }
        out.append(v[i].as_str());
        i += 1;
        proof {
            let cur = views(v@).take(i as int);
            assert(cur.drop_last() =~= pre);
            assert(cur.last() == v@[i - 1]@);
            if i == 1 {
                assert(out@ =~= spec_join_lines(cur));
            } else {
                assert(out@ =~= spec_join_lines(cur));
            }
        }
    }
    proof {
        assert(views(v@).take(v@.len() as int) =~= views(v@));
    }
    out
}

} // verus!
