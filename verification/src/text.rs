//! Small string utilities the provisioning logic needs: prefix tests,
//! substring containment, and joining a list of names with a separator.

use vstd::prelude::*;

verus! {

/// `p` is a prefix of `s`.
pub open spec fn starts_with(s: Seq<char>, p: Seq<char>) -> bool {
    p.len() <= s.len() && s.subrange(0, p.len() as int) == p
}

/// `p` is a suffix of `s`.
pub open spec fn ends_with(s: Seq<char>, p: Seq<char>) -> bool {
    p.len() <= s.len() && s.subrange(s.len() - p.len(), s.len() as int) == p
}

/// `x` occurs contiguously somewhere inside `hay`.
pub open spec fn contains_seq(hay: Seq<char>, x: Seq<char>) -> bool {
    exists|i: int|
        0 <= i && i + x.len() <= hay.len() && #[trigger] hay.subrange(i, i + x.len()) == x
}

/// The items joined left to right, with `sep` between neighbours.
pub open spec fn join_with(items: Seq<Seq<char>>, sep: Seq<char>) -> Seq<char>
    decreases items.len(),
{
    if items.len() == 0 {
        Seq::empty()
    } else if items.len() == 1 {
        items[0]
    } else {
        join_with(items.drop_last(), sep) + sep + items.last()
    }
}

/// Whether `s` begins with `p`, decided character by character.
pub fn str_starts_with(s: &str, p: &str) -> (r: bool)
    ensures
        r == starts_with(s@, p@),
{
    let n: usize = p.unicode_len();
    let m: usize = s.unicode_len();
    if n > m {
        return false;
    }
    let mut i: usize = 0;
    while i < n
        invariant
            i <= n <= m,
            n == p@.len(),
            m == s@.len(),
            forall|j: int| 0 <= j < i ==> s@[j] == p@[j],
        decreases n - i,
    {
        if s.get_char(i) != p.get_char(i) {
            proof {
                assert(s@.subrange(0, n as int)[i as int] == s@[i as int]);
            }
            return false;
        }
        i += 1;
    }
    proof {
        assert(s@.subrange(0, n as int) =~= p@);
    }
    true
}

/// Whether two strings hold the same characters.
pub fn str_equal(a: &str, b: &str) -> (r: bool)
    ensures
        r == (a@ == b@),
{
    let n: usize = a.unicode_len();
    let m: usize = b.unicode_len();
    if n != m {
        return false;
    }
    let mut i: usize = 0;
    while i < n
        invariant
            i <= n,
            n == a@.len(),
            n == b@.len(),
            forall|j: int| 0 <= j < i ==> a@[j] == b@[j],
        decreases n - i,
    {
        if a.get_char(i) != b.get_char(i) {
            return false;
        }
        i += 1;
    }
    proof {
        assert(a@ =~= b@);
    }
    true
}

/// The items of `items` joined with `sep`, built left to right.
pub fn join_strings(items: &Vec<String>, sep: &str) -> (r: String)
    ensures
        r@ == join_with(items.deep_view(), sep@),
{
    let ghost dv: Seq<Seq<char>> = items.deep_view();
    let mut r: String = String::new();
    let mut i: usize = 0;
    while i < items.len()
        invariant
            i <= items.len(),
            dv == items.deep_view(),
            dv.len() == items@.len(),
            forall|j: int| 0 <= j < dv.len() ==> dv[j] == items@[j]@,
            r@ == join_with(dv.take(i as int), sep@),
        decreases items.len() - i,
    {
        if i > 0 {
            r.append(sep);
        }
        r.append(items[i].as_str());
        proof {
            let prefix = dv.take(i as int);
            let extended = dv.take(i as int + 1);
            assert(extended.drop_last() =~= prefix);
            assert(extended.last() == dv[i as int]);
            if i == 0 {
                assert(r@ =~= join_with(extended, sep@));
            }
        }
        i += 1;
    }
    proof {
        assert(dv.take(items@.len() as int) =~= dv);
    }
    r
}

/// Anything contained in `a` is contained in `a + b`.
pub proof fn lemma_contains_append_left(a: Seq<char>, b: Seq<char>, x: Seq<char>)
    requires
        contains_seq(a, x),
    ensures
        contains_seq(a + b, x),
{
    let i = choose|i: int|
        0 <= i && i + x.len() <= a.len() && #[trigger] a.subrange(i, i + x.len()) == x;
    assert((a + b).subrange(i, i + x.len()) =~= a.subrange(i, i + x.len()));
}

/// Anything contained in `b` is contained in `a + b`.
pub proof fn lemma_contains_append_right(a: Seq<char>, b: Seq<char>, x: Seq<char>)
    requires
        contains_seq(b, x),
    ensures
        contains_seq(a + b, x),
{
    let i = choose|i: int|
        0 <= i && i + x.len() <= b.len() && #[trigger] b.subrange(i, i + x.len()) == x;
    let j = a.len() + i;
    assert((a + b).subrange(j, j + x.len()) =~= b.subrange(i, i + x.len()));
}

/// Every sequence contains itself.
pub proof fn lemma_contains_self(x: Seq<char>)
    ensures
        contains_seq(x, x),
{
    assert(x.subrange(0, 0 + x.len() as int) =~= x);
}

/// A joined list contains each of its items.
pub proof fn lemma_join_contains(items: Seq<Seq<char>>, sep: Seq<char>, k: int)
    requires
        0 <= k < items.len(),
    ensures
        contains_seq(join_with(items, sep), items[k]),
    decreases items.len(),
{
    if items.len() == 1 {
        lemma_contains_self(items[0]);
    } else if k == items.len() - 1 {
        lemma_contains_self(items.last());
        lemma_contains_append_right(
            join_with(items.drop_last(), sep) + sep,
            items.last(),
            items.last(),
        );
    } else {
        lemma_join_contains(items.drop_last(), sep, k);
        assert(items.drop_last()[k] == items[k]);
        lemma_contains_append_left(join_with(items.drop_last(), sep), sep, items[k]);
        lemma_contains_append_left(
            join_with(items.drop_last(), sep) + sep,
            items.last(),
            items[k],
        );
    }
}

} // verus!
