//! The order of texts, character by character, and sorting by it.
//!
//! This is the order of strings in Rust: byte by byte over UTF-8, which is
//! code point by code point.

use crate::text::{chars_of, texts};
use vstd::prelude::*;

verus! {

/// `a` comes before `b` or equals it, looking from index `i` on.
pub open spec fn lex_le_from(a: Seq<char>, b: Seq<char>, i: int) -> bool
    decreases a.len() - i,
{
    if i < 0 || i >= a.len() {
        true
    } else if i >= b.len() {
        false
    } else if a[i] != b[i] {
        (a[i] as u32) < (b[i] as u32)
    } else {
        lex_le_from(a, b, i + 1)
    }
}

/// `a` comes before `b` or equals it.
pub open spec fn lex_le(a: Seq<char>, b: Seq<char>) -> bool {
    lex_le_from(a, b, 0)
}

/// Each text comes before the next or equals it.
pub open spec fn ordered(s: Seq<Seq<char>>) -> bool {
    forall|i: int, j: int| 0 <= i < j < s.len() ==> lex_le(#[trigger] s[i], #[trigger] s[j])
}

/// Where `x` goes into the ordered list `s`: after the last text that
/// comes before it or equals it.
pub open spec fn insert_place(s: Seq<Seq<char>>, x: Seq<char>) -> int
    decreases s.len(),
{
    if s.len() == 0 {
        0
    } else if lex_le(s.last(), x) {
        s.len() as int
    } else {
        insert_place(s.drop_last(), x)
    }
}

/// The texts of `s` in order.
pub open spec fn sorted_texts(s: Seq<Seq<char>>) -> Seq<Seq<char>>
    decreases s.len(),
{
    if s.len() == 0 {
        s
    } else {
        let rest = sorted_texts(s.drop_last());
        rest.insert(insert_place(rest, s.last()), s.last())
    }
}

/// Of two texts, one comes before the other or equals it.
pub proof fn lemma_lex_total(a: Seq<char>, b: Seq<char>, i: int)
    requires
        0 <= i,
    ensures
        lex_le_from(a, b, i) || lex_le_from(b, a, i),
    decreases a.len() - i,
{
    if i < a.len() && i < b.len() {
        if a[i] == b[i] {
            lemma_lex_total(a, b, i + 1);
        } else {
            vstd::utf8::char_u32_cast(a[i], a[i] as u32);
            vstd::utf8::char_u32_cast(b[i], b[i] as u32);
        }
    }
}

/// The order is transitive.
pub proof fn lemma_lex_transitive(a: Seq<char>, b: Seq<char>, c: Seq<char>, i: int)
    requires
        0 <= i,
        lex_le_from(a, b, i),
        lex_le_from(b, c, i),
    ensures
        lex_le_from(a, c, i),
    decreases a.len() - i,
{
    if i < a.len() {
        if a[i] == b[i] && b[i] == c[i] {
            lemma_lex_transitive(a, b, c, i + 1);
        }
    }
}

/// Two texts of which each comes before the other or equals it are equal.
pub proof fn lemma_lex_antisymmetric(a: Seq<char>, b: Seq<char>, i: int)
    requires
        0 <= i <= a.len(),
        i <= b.len(),
        forall|j: int| 0 <= j < i ==> a[j] == b[j],
        lex_le_from(a, b, i),
        lex_le_from(b, a, i),
    ensures
        a == b,
    decreases a.len() - i,
{
    if i >= a.len() {
        assert(a =~= b);
    } else if a[i] == b[i] {
        lemma_lex_antisymmetric(a, b, i + 1);
    }
}

/// The place where a text goes is within the list, nothing from there on
/// comes before the text or equals it, and what stands just before does.
pub proof fn lemma_insert_place(s: Seq<Seq<char>>, x: Seq<char>)
    ensures
        0 <= insert_place(s, x) <= s.len(),
        forall|j: int| insert_place(s, x) <= j < s.len() ==> !lex_le(#[trigger] s[j], x),
        insert_place(s, x) > 0 ==> lex_le(s[insert_place(s, x) - 1], x),
    decreases s.len(),
{
    if s.len() > 0 && !lex_le(s.last(), x) {
        let rest = s.drop_last();
        lemma_insert_place(rest, x);
        assert forall|j: int| insert_place(s, x) <= j < s.len() implies !lex_le(
            #[trigger] s[j],
            x,
        ) by {
            if j < rest.len() {
                assert(s[j] == rest[j]);
            }
        }
    }
}

/// A place with these properties is the place where the text goes.
pub proof fn lemma_insert_place_unique(s: Seq<Seq<char>>, x: Seq<char>, k: int)
    requires
        0 <= k <= s.len(),
        forall|j: int| k <= j < s.len() ==> !lex_le(#[trigger] s[j], x),
        k > 0 ==> lex_le(s[k - 1], x),
    ensures
        insert_place(s, x) == k,
    decreases s.len(),
{
    if s.len() > 0 {
        if k == s.len() {
        } else {
            assert(!lex_le(s[s.len() - 1], x));
            lemma_insert_place_unique(s.drop_last(), x, k);
        }
    }
}

/// Putting a text at its place into an ordered list leaves the list ordered.
pub proof fn lemma_insert_keeps_order(s: Seq<Seq<char>>, x: Seq<char>)
    requires
        ordered(s),
    ensures
        ordered(s.insert(insert_place(s, x), x)),
{
    lemma_insert_place(s, x);
    let k = insert_place(s, x);
    let r = s.insert(k, x);
    assert forall|i: int, j: int| 0 <= i < j < r.len() implies lex_le(
        #[trigger] r[i],
        #[trigger] r[j],
    ) by {
        if j == k {
            assert(r[i] == s[i]);
            if i < k - 1 {
                assert(lex_le(s[i], s[k - 1]));
                lemma_lex_transitive(s[i], s[k - 1], x, 0);
            }
        } else if i == k {
            assert(r[j] == s[j - 1]);
            assert(!lex_le(s[j - 1], x));
            lemma_lex_total(x, s[j - 1], 0);
        } else {
            let si = if i < k {
                i
            } else {
                i - 1
            };
            let sj = if j < k {
                j
            } else {
                j - 1
            };
            assert(r[i] == s[si] && r[j] == s[sj]);
            assert(lex_le(s[si], s[sj]));
        }
    }
}

/// Sorted texts are in order: each comes before the next or equals it.
pub proof fn law_sorted_is_ordered(s: Seq<Seq<char>>)
    ensures
        ordered(sorted_texts(s)),
        sorted_texts(s).len() == s.len(),
    decreases s.len(),
{
    if s.len() > 0 {
        law_sorted_is_ordered(s.drop_last());
        lemma_insert_place(sorted_texts(s.drop_last()), s.last());
        lemma_insert_keeps_order(sorted_texts(s.drop_last()), s.last());
    }
}

/// Sorting neither adds nor drops a text: each text is among the sorted
/// ones as often as it was given.
pub proof fn law_sorted_is_permutation(s: Seq<Seq<char>>)
    ensures
        sorted_texts(s).to_multiset() == s.to_multiset(),
    decreases s.len(),
{
    broadcast use vstd::seq_lib::group_to_multiset_ensures;

    if s.len() > 0 {
        let rest = sorted_texts(s.drop_last());
        let x = s.last();
        law_sorted_is_permutation(s.drop_last());
        lemma_insert_place(rest, x);
        let k = insert_place(rest, x);
        let r = rest.insert(k, x);
        assert(r.remove(k) =~= rest);
        assert(r[k] == x);
        assert(r.remove(k).to_multiset() =~= r.to_multiset().remove(x));
        assert(r.to_multiset().count(x) > 0) by {
            assert(r.contains(x));
        }
        assert(r.to_multiset() =~= rest.to_multiset().insert(x));
        assert(s =~= s.drop_last().push(x));
        assert(s.to_multiset() =~= s.drop_last().to_multiset().insert(x));
    } else {
        assert(sorted_texts(s) =~= s);
    }
}

/// Tests whether `a` comes before `b` or equals it.
pub fn text_le(a: &Vec<char>, b: &Vec<char>) -> (r: bool)
    ensures
        r == lex_le(a@, b@),
{
    let mut i: usize = 0;
    while i < a.len()
        invariant
            i <= a.len(),
            lex_le(a@, b@) == lex_le_from(a@, b@, i as int),
        decreases a.len() - i,
    {
        if i >= b.len() {
            return false;
        }
        if a[i] != b[i] {
            return (a[i] as u32) < (b[i] as u32);
        }
        i += 1;
    }
    true
}

/// Sorts strings.
pub fn sort_strings(items: Vec<String>) -> (r: Vec<String>)
    ensures
        texts(r@) == sorted_texts(texts(items@)),
{
    let ghost all = texts(items@);
    let mut out: Vec<String> = Vec::new();
    let mut i: usize = 0;
    proof {
        assert(all.take(0) =~= Seq::<Seq<char>>::empty());
    }
    while i < items.len()
        invariant
            i <= items.len(),
            all == texts(items@),
            texts(out@) == sorted_texts(all.take(i as int)),
        decreases items.len() - i,
    {
        let item = items[i].clone();
        let x = chars_of(item.as_str());
        let mut k: usize = out.len();
        while k > 0 && !text_le(&chars_of(out[k - 1].as_str()), &x)
            invariant
                k <= out.len(),
                x@ == item@,
                forall|j: int| k <= j < out@.len() ==> !lex_le(#[trigger] texts(out@)[j], item@),
            decreases k,
        {
            k -= 1;
        }
        proof {
            let rest = texts(out@);
            assert(k > 0 ==> lex_le(rest[k - 1], item@));
            lemma_insert_place_unique(rest, item@, k as int);
            let more = all.take(i + 1);
            assert(more.drop_last() =~= all.take(i as int));
            assert(more.last() == item@);
            assert(texts(out@.insert(k as int, item)) =~= rest.insert(k as int, item@));
        }
        out.insert(k, item);
        i += 1;
    }
    proof {
        assert(all.take(all.len() as int) =~= all);
    }
    out
}

/// The texts by which a list of pairs is ordered.
pub open spec fn keys(s: Seq<(Seq<char>, u64)>) -> Seq<Seq<char>> {
    s.map_values(|p: (Seq<char>, u64)| p.0)
}

/// The values of a list of pairs of a string and a number.
pub open spec fn pairs_view(v: Seq<(String, u64)>) -> Seq<(Seq<char>, u64)> {
    v.map_values(|p: (String, u64)| (p.0@, p.1))
}

/// The pairs of `s` in the order of their texts; pairs of one text stay
/// in the order in which they were given.
pub open spec fn sorted_pairs(s: Seq<(Seq<char>, u64)>) -> Seq<(Seq<char>, u64)>
    decreases s.len(),
{
    if s.len() == 0 {
        s
    } else {
        let rest = sorted_pairs(s.drop_last());
        rest.insert(insert_place(keys(rest), s.last().0), s.last())
    }
}

/// Sorted pairs are in the order of their texts, and sorting neither adds
/// nor drops a pair.
pub proof fn law_sorted_pairs(s: Seq<(Seq<char>, u64)>)
    ensures
        keys(sorted_pairs(s)) == sorted_texts(keys(s)),
        ordered(keys(sorted_pairs(s))),
        sorted_pairs(s).len() == s.len(),
        sorted_pairs(s).to_multiset() == s.to_multiset(),
    decreases s.len(),
{
    broadcast use vstd::seq_lib::group_to_multiset_ensures;

    law_sorted_is_ordered(keys(s));
    if s.len() > 0 {
        let rest = sorted_pairs(s.drop_last());
        let x = s.last();
        law_sorted_pairs(s.drop_last());
        assert(keys(s.drop_last()) =~= keys(s).drop_last());
        assert(keys(s).last() == x.0);
        lemma_insert_place(keys(rest), x.0);
        let k = insert_place(keys(rest), x.0);
        let r = rest.insert(k, x);
        assert(keys(r) =~= keys(rest).insert(k, x.0));
        assert(r.remove(k) =~= rest);
        assert(r[k] == x);
        assert(r.remove(k).to_multiset() =~= r.to_multiset().remove(x));
        assert(r.to_multiset().count(x) > 0) by {
            assert(r.contains(x));
        }
        assert(r.to_multiset() =~= rest.to_multiset().insert(x));
        assert(s =~= s.drop_last().push(x));
        assert(s.to_multiset() =~= s.drop_last().to_multiset().insert(x));
    } else {
        assert(keys(s) =~= Seq::<Seq<char>>::empty());
        assert(keys(sorted_pairs(s)) =~= sorted_texts(keys(s)));
    }
}

/// Sorts pairs by their strings.
pub fn sort_pairs(items: Vec<(String, u64)>) -> (r: Vec<(String, u64)>)
    ensures
        pairs_view(r@) == sorted_pairs(pairs_view(items@)),
{
    let ghost all = pairs_view(items@);
    let mut out: Vec<(String, u64)> = Vec::new();
    let mut i: usize = 0;
    proof {
        assert(all.take(0) =~= Seq::<(Seq<char>, u64)>::empty());
        assert(pairs_view(out@) =~= Seq::<(Seq<char>, u64)>::empty());
    }
    while i < items.len()
        invariant
            i <= items.len(),
            all == pairs_view(items@),
            pairs_view(out@) == sorted_pairs(all.take(i as int)),
        decreases items.len() - i,
    {
        let item = (items[i].0.clone(), items[i].1);
        let x = chars_of(item.0.as_str());
        let mut k: usize = out.len();
        while k > 0 && !text_le(&chars_of(out[k - 1].0.as_str()), &x)
            invariant
                k <= out.len(),
                x@ == item.0@,
                forall|j: int|
                    k <= j < out@.len() ==> !lex_le(
                        #[trigger] keys(pairs_view(out@))[j],
                        item.0@,
                    ),
            decreases k,
        {
            k -= 1;
        }
        proof {
            let rest = pairs_view(out@);
            assert(keys(rest).len() == out@.len());
            assert(k > 0 ==> lex_le(keys(rest)[k - 1], item.0@));
            lemma_insert_place_unique(keys(rest), item.0@, k as int);
            let more = all.take(i + 1);
            assert(more.drop_last() =~= all.take(i as int));
            assert(more.last() == (item.0@, item.1));
            assert(pairs_view(out@.insert(k as int, item)) =~= rest.insert(
                k as int,
                (item.0@, item.1),
            ));
        }
        out.insert(k, item);
        i += 1;
    }
    proof {
        assert(all.take(all.len() as int) =~= all);
    }
    out
}

/// The least of the first `n` texts that satisfy `wanted`; of equal
/// texts, the one given first.
pub open spec fn least_of(names: Seq<Seq<char>>, wanted: spec_fn(Seq<char>) -> bool, n: int) -> Option<
    Seq<char>,
>
    decreases n,
{
    if n <= 0 || n > names.len() {
        None
    } else {
        let rest = least_of(names, wanted, n - 1);
        let x = names[n - 1];
        if !wanted(x) {
            rest
        } else {
            match rest {
                Some(best) => if lex_le(best, x) {
                    Some(best)
                } else {
                    Some(x)
                },
                None => Some(x),
            }
        }
    }
}

/// The least text is one of the wanted texts, it comes before every wanted
/// text or equals it, and there is none exactly where no text is wanted.
pub proof fn law_least_of(names: Seq<Seq<char>>, wanted: spec_fn(Seq<char>) -> bool, n: int)
    requires
        0 <= n <= names.len(),
    ensures
        match least_of(names, wanted, n) {
            Some(best) => {
                &&& wanted(best)
                &&& exists|i: int| 0 <= i < n && names[i] == best
                &&& forall|j: int| 0 <= j < n && wanted(#[trigger] names[j]) ==> lex_le(best, names[j])
            },
            None => forall|j: int| 0 <= j < n ==> !wanted(#[trigger] names[j]),
        },
    decreases n,
{
    if n > 0 {
        law_least_of(names, wanted, n - 1);
        let rest = least_of(names, wanted, n - 1);
        let x = names[n - 1];
        if wanted(x) {
            match rest {
                Some(best) => {
                    if lex_le(best, x) {
                        let i = choose|i: int| 0 <= i < n - 1 && names[i] == best;
                        assert(0 <= i < n && names[i] == best);
                    } else {
                        lemma_lex_total(best, x, 0);
                        assert(names[n - 1] == x);
                        assert forall|j: int| 0 <= j < n && wanted(#[trigger] names[j]) implies lex_le(
                            x,
                            names[j],
                        ) by {
                            if j < n - 1 {
                                lemma_lex_transitive(x, best, names[j], 0);
                            } else {
                                lemma_lex_total(x, x, 0);
                            }
                        }
                    }
                },
                None => {
                    assert(names[n - 1] == x);
                    lemma_lex_total(x, x, 0);
                },
            }
        } else if rest is Some {
            let i = choose|i: int| 0 <= i < n - 1 && names[i] == rest->0;
            assert(0 <= i < n && names[i] == rest->0);
        }
    }
}

} // verus!
