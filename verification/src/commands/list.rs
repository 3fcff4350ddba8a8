//! `pow ls`: the installed PHP versions in order, marking the active one.
use vstd::prelude::*;
use vstd::seq_lib::lemma_multiset_commutative;
use vstd::string::*;

use crate::text::str_eq;

verus! {

/// Lexicographic order on strings, character by character (the order of
/// `String`, whose UTF-8 bytes order the same way as their characters).
pub open spec fn lex_le(a: Seq<char>, b: Seq<char>) -> bool
    decreases a.len(),
{
    if a.len() == 0 {
        true
    } else if b.len() == 0 {
        false
    } else if a[0] != b[0] {
        a[0] < b[0]
    } else {
        lex_le(a.drop_first(), b.drop_first())
    }
}

/// Whether `s` is in lexicographic order.
pub open spec fn sorted_lex(s: Seq<Seq<char>>) -> bool {
    forall|i: int, j: int| 0 <= i < j < s.len() ==> lex_le(#[trigger] s[i], #[trigger] s[j])
}

/// Any two strings are ordered one way or the other.
pub proof fn lemma_lex_total(a: Seq<char>, b: Seq<char>)
    ensures
        lex_le(a, b) || lex_le(b, a),
    decreases a.len(),
{
    if a.len() > 0 && b.len() > 0 {
        if a[0] == b[0] {
            lemma_lex_total(a.drop_first(), b.drop_first());
        }
    }
}

/// The order is transitive.
pub proof fn lemma_lex_transitive(a: Seq<char>, b: Seq<char>, c: Seq<char>)
    requires
        lex_le(a, b),
        lex_le(b, c),
    ensures
        lex_le(a, c),
    decreases a.len(),
{
    if a.len() > 0 && b.len() > 0 && c.len() > 0 && a[0] == b[0] && b[0] == c[0] {
        lemma_lex_transitive(a.drop_first(), b.drop_first(), c.drop_first());
    }
}

/// The order is antisymmetric: it leaves no choice in a sorted arrangement.
pub proof fn lemma_lex_antisymmetric(a: Seq<char>, b: Seq<char>)
    requires
        lex_le(a, b),
        lex_le(b, a),
    ensures
        a == b,
    decreases a.len(),
{
    if a.len() > 0 && b.len() > 0 {
        lemma_lex_antisymmetric(a.drop_first(), b.drop_first());
        assert(a =~= seq![a[0]] + a.drop_first());
        assert(b =~= seq![b[0]] + b.drop_first());
    }
}

/// Whether `a` comes no later than `b` in lexicographic order.
pub fn lex_le_str(a: &str, b: &str) -> (r: bool)
    ensures
        r == lex_le(a@, b@),
{
    let n = a.unicode_len();
    let m = b.unicode_len();
    let mut i: usize = 0;
    assert(a@.subrange(0, n as int) =~= a@);
    assert(b@.subrange(0, m as int) =~= b@);
    while i < n && i < m
        invariant
            i <= n,
            i <= m,
            n == a@.len(),
            m == b@.len(),
            lex_le(a@, b@) == lex_le(a@.subrange(i as int, n as int), b@.subrange(i as int, m as int)),
        decreases n - i,
    {
        let ca = a.get_char(i);
        let cb = b.get_char(i);
        let ghost sa = a@.subrange(i as int, n as int);
        let ghost sb = b@.subrange(i as int, m as int);
        assert(sa[0] == ca && sb[0] == cb);
        if ca != cb {
            return ca < cb;
        }
        assert(sa.drop_first() =~= a@.subrange(i + 1, n as int));
        assert(sb.drop_first() =~= b@.subrange(i + 1, m as int));
        i += 1;
    }
    i == n
}

/// An installed version as `pow ls` shows it.
#[derive(Debug, Clone, PartialEq, Eq)]
pub struct ListEntry {
    pub version: String,
    /// Whether this is the active version.
    pub active: bool,
}

/// The versions of a listing.
pub open spec fn versions_of(entries: Seq<ListEntry>) -> Seq<Seq<char>> {
    Seq::new(entries.len(), |i: int| entries[i].version@)
}

/// Inserting into a sorted sequence where everything before stays before
/// and everything after stays after keeps it sorted and adds one element.
proof fn lemma_sorted_insert(s: Seq<Seq<char>>, p: int, x: Seq<char>)
    requires
        sorted_lex(s),
        0 <= p <= s.len(),
        forall|i: int| 0 <= i < p ==> lex_le(#[trigger] s[i], x),
        p < s.len() ==> lex_le(x, s[p]),
    ensures
        sorted_lex(s.insert(p, x)),
        s.insert(p, x).to_multiset() =~= s.to_multiset().insert(x),
{
    let t = s.insert(p, x);
    s.insert_ensures(p, x);
    assert forall|i: int, j: int| 0 <= i < j < t.len() implies lex_le(#[trigger] t[i], #[trigger] t[j]) by {
        if j < p {
            assert(t[i] == s[i] && t[j] == s[j]);
        } else if j == p {
            assert(t[i] == s[i]);
        } else if i < p {
            assert(t[j] == s[j - 1]);
            assert(lex_le(s[i], x));
            assert(lex_le(x, s[p]));
            if j - 1 > p {
                lemma_lex_transitive(x, s[p], s[j - 1]);
            }
            lemma_lex_transitive(s[i], x, s[j - 1]);
        } else if i == p {
            assert(t[j] == s[j - 1]);
            if j - 1 > p {
                lemma_lex_transitive(x, s[p], s[j - 1]);
            }
        } else {
            assert(t[i] == s[i - 1] && t[j] == s[j - 1]);
        }
    }
    let front = s.subrange(0, p);
    let back = s.subrange(p, s.len() as int);
    assert(s =~= front + back);
    assert(t =~= front.push(x) + back);
    lemma_multiset_commutative(front, back);
    lemma_multiset_commutative(front.push(x), back);
    front.to_multiset_ensures();
}

/// `pow ls`: the installed versions (in any order) sorted lexicographically,
/// each marked when it is the active version.
pub fn run(installed: &Vec<String>, active: &str) -> (r: Vec<ListEntry>)
    ensures
        r@.len() == installed@.len(),
        sorted_lex(versions_of(r@)),
        versions_of(r@).to_multiset() == installed.deep_view().to_multiset(),
        forall|i: int| 0 <= i < r@.len() ==> #[trigger] r@[i].active == (r@[i].version@ == active@),
{
    let mut sorted: Vec<String> = Vec::new();
    let mut k: usize = 0;
    assert(sorted.deep_view() =~= installed.deep_view().subrange(0, 0));
    while k < installed.len()
        invariant
            k <= installed@.len(),
            sorted@.len() == k,
            sorted_lex(sorted.deep_view()),
            sorted.deep_view().to_multiset() == installed.deep_view().subrange(0, k as int).to_multiset(),
        decreases installed@.len() - k,
    {
        let x = &installed[k];
        let mut p: usize = 0;
        while p < sorted.len() && lex_le_str(sorted[p].as_str(), x.as_str())
            invariant
                p <= sorted@.len(),
                forall|i: int| 0 <= i < p ==> lex_le(#[trigger] sorted.deep_view()[i], x@),
            decreases sorted@.len() - p,
        {
            p += 1;
        }
        let ghost before = sorted.deep_view();
        proof {
            if p < sorted@.len() {
                lemma_lex_total(x@, before[p as int]);
            }
            lemma_sorted_insert(before, p as int, x@);
        }
        sorted.insert(p, x.clone());
        assert(sorted.deep_view() =~= before.insert(p as int, x@));
        proof {
            let all = installed.deep_view();
            assert(all.subrange(0, k + 1) =~= all.subrange(0, k as int).push(all[k as int]));
            all.subrange(0, k as int).to_multiset_ensures();
        }
        k += 1;
    }
    assert(installed.deep_view().subrange(0, installed@.len() as int) =~= installed.deep_view());
    let mut r: Vec<ListEntry> = Vec::new();
    let mut i: usize = 0;
    while i < sorted.len()
        invariant
            i <= sorted@.len(),
            r@.len() == i,
            forall|j: int| 0 <= j < i ==> #[trigger] r@[j].version@ == sorted.deep_view()[j],
            forall|j: int| 0 <= j < i ==> #[trigger] r@[j].active == (r@[j].version@ == active@),
        decreases sorted@.len() - i,
    {
        let v = sorted[i].clone();
        let is_active = str_eq(v.as_str(), active);
        r.push(ListEntry { version: v, active: is_active });
        i += 1;
    }
    assert(versions_of(r@) =~= sorted.deep_view());
    r
}

/// Two sorted arrangements of the same strings are the same sequence.
pub proof fn lemma_sorted_arrangement_unique(a: Seq<Seq<char>>, b: Seq<Seq<char>>)
    requires
        sorted_lex(a),
        sorted_lex(b),
        a.to_multiset() == b.to_multiset(),
    ensures
        a == b,
    decreases a.len(),
{
    a.to_multiset_ensures();
    b.to_multiset_ensures();
    if a.len() == 0 {
        assert(b.len() == 0);
        assert(a =~= b);
    } else {
        assert(b.len() == a.len());
        assert(a.to_multiset().count(a[0]) > 0);
        assert(b.contains(a[0]));
        let j = choose|j: int| 0 <= j < b.len() && b[j] == a[0];
        assert(b.to_multiset().count(b[0]) > 0);
        assert(a.contains(b[0]));
        let i = choose|i: int| 0 <= i < a.len() && a[i] == b[0];
        if j > 0 {
            assert(lex_le(b[0], b[j]));
        }
        if i > 0 {
            assert(lex_le(a[0], a[i]));
        }
        lemma_lex_total(a[0], a[0]);
        lemma_lex_antisymmetric(a[0], b[0]);
        let a1 = a.drop_first();
        let b1 = b.drop_first();
        assert(a.remove(0) =~= a1);
        assert(b.remove(0) =~= b1);
        assert(a1.to_multiset() =~= b1.to_multiset());
        assert(sorted_lex(a1)) by {
            assert forall|x: int, y: int| 0 <= x < y < a1.len() implies lex_le(
                #[trigger] a1[x],
                #[trigger] a1[y],
            ) by {
                assert(a1[x] == a[x + 1] && a1[y] == a[y + 1]);
            }
        }
        assert(sorted_lex(b1)) by {
            assert forall|x: int, y: int| 0 <= x < y < b1.len() implies lex_le(
                #[trigger] b1[x],
                #[trigger] b1[y],
            ) by {
                assert(b1[x] == b[x + 1] && b1[y] == b[y + 1]);
            }
        }
        lemma_sorted_arrangement_unique(a1, b1);
        assert(a =~= b) by {
            assert forall|k: int| 0 <= k < a.len() implies a[k] == b[k] by {
                if k > 0 {
                    assert(a[k] == a1[k - 1] && b[k] == b1[k - 1]);
                }
            }
        }
    }
}

/// The listing depends only on which versions are installed: two listings
/// of the same installed versions, found in any two orders, are equal.
pub proof fn lemma_listing_order_independent(
    found1: Seq<Seq<char>>,
    found2: Seq<Seq<char>>,
    listed1: Seq<Seq<char>>,
    listed2: Seq<Seq<char>>,
)
    requires
        found1.to_multiset() == found2.to_multiset(),
        sorted_lex(listed1),
        listed1.to_multiset() == found1.to_multiset(),
        sorted_lex(listed2),
        listed2.to_multiset() == found2.to_multiset(),
    ensures
        listed1 == listed2,
{
    lemma_sorted_arrangement_unique(listed1, listed2);
}

} // verus!
