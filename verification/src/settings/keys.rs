//! Which providers have a key configured, listed in order.
use vstd::prelude::*;
use vstd::string::*;
use crate::text::{is_white_space, white_space};
use crate::str_map::{StrMap, entries_view, is_first_entry, lemma_prefix_view_step, lemma_take_full};
use crate::text::strings_view;

verus! {

broadcast use vstd::string::group_string_axioms;

/// Whether a text is empty or white space only: what is left after std's
/// `trim` is empty.
pub open spec fn is_blank(s: Seq<char>) -> bool {
    forall|i: int| 0 <= i < s.len() ==> is_white_space(#[trigger] s[i])
}

/// Whether a text is empty or white space only.
pub fn is_blank_text(s: &str) -> (r: bool)
    ensures
        r == is_blank(s@),
{
    for c in it: s.chars()
        invariant
            it.seq() == s@,
            forall|j: int| 0 <= j < it.index() ==> is_white_space(#[trigger] s@[j]),
    {
        proof {
            assert(s@[it.index() as int] == c);
        }
        if !white_space(c) {
            return false;
        }
    }
    true
}

/// The order of std's `String` comparison: character by character by code
/// point (for UTF-8 the same as byte by byte), a proper prefix first.
pub open spec fn text_lt(a: Seq<char>, b: Seq<char>) -> bool
    decreases a.len(),
{
    if a.len() == 0 {
        b.len() > 0
    } else if b.len() == 0 {
        false
    } else if (a[0] as int) < (b[0] as int) {
        true
    } else if a[0] == b[0] {
        text_lt(a.drop_first(), b.drop_first())
    } else {
        false
    }
}

/// No text comes before itself.
pub proof fn lemma_text_lt_irreflexive(a: Seq<char>)
    ensures
        !text_lt(a, a),
    decreases a.len(),
{
    if a.len() > 0 {
        lemma_text_lt_irreflexive(a.drop_first());
    }
}

/// Of two different texts, one comes before the other.
pub proof fn lemma_text_lt_total(a: Seq<char>, b: Seq<char>)
    ensures
        a == b || text_lt(a, b) || text_lt(b, a),
    decreases a.len(),
{
    if a.len() > 0 && b.len() > 0 && a[0] == b[0] {
        lemma_text_lt_total(a.drop_first(), b.drop_first());
        if a.drop_first() == b.drop_first() {
            assert(a =~= seq![a[0]] + a.drop_first());
            assert(b =~= seq![b[0]] + b.drop_first());
        }
    } else if a.len() == 0 && b.len() == 0 {
        assert(a =~= b);
    } else if a.len() > 0 && b.len() > 0 {
        assert((a[0] as int) != (b[0] as int));
    }
}

/// The order is transitive.
pub proof fn lemma_text_lt_transitive(a: Seq<char>, b: Seq<char>, c: Seq<char>)
    requires
        text_lt(a, b),
        text_lt(b, c),
    ensures
        text_lt(a, c),
    decreases a.len(),
{
    if a.len() > 0 && b.len() > 0 && c.len() > 0 && a[0] == b[0] && b[0] == c[0] {
        lemma_text_lt_transitive(a.drop_first(), b.drop_first(), c.drop_first());
    }
}

/// Whether `a` comes before `b` in std's order of strings.
pub fn text_less(a: &str, b: &str) -> (r: bool)
    ensures
        r == text_lt(a@, b@),
{
    let la = a.unicode_len();
    let lb = b.unicode_len();
    let mut i: usize = 0;
    proof {
        assert(a@.skip(0) =~= a@);
        assert(b@.skip(0) =~= b@);
    }
    while i < la && i < lb
        invariant
            la == a@.len(),
            lb == b@.len(),
            i <= la,
            i <= lb,
            text_lt(a@, b@) == text_lt(a@.skip(i as int), b@.skip(i as int)),
        decreases la - i,
    {
        let ca = a.get_char(i);
        let cb = b.get_char(i);
        proof {
            assert(a@.skip(i as int)[0] == ca);
            assert(b@.skip(i as int)[0] == cb);
        }
        if ca != cb {
            return (ca as u32) < (cb as u32);
        }
        proof {
            assert(a@.skip(i as int).drop_first() =~= a@.skip(i + 1));
            assert(b@.skip(i as int).drop_first() =~= b@.skip(i + 1));
        }
        i = i + 1;
    }
    i == la && i < lb
}

/// Whether every text comes before each later one: sorted, with no repeats.
pub open spec fn sorted_strictly(s: Seq<Seq<char>>) -> bool {
    forall|i: int, j: int| 0 <= i < j < s.len() ==> text_lt(#[trigger] s[i], #[trigger] s[j])
}

/// The providers whose stored value is not blank.
pub open spec fn configured_ids(m: Map<Seq<char>, Seq<char>>) -> Set<Seq<char>> {
    Set::new(|k: Seq<char>| m.contains_key(k) && !is_blank(m[k]))
}

/// Where a text goes among sorted texts: after every one that comes before it.
fn insertion_point(r: &Vec<String>, key: &str) -> (p: usize)
    requires
        sorted_strictly(strings_view(r@)),
    ensures
        p <= r@.len(),
        forall|q: int| 0 <= q < p ==> text_lt(#[trigger] r@[q]@, key@),
        forall|q: int| p <= q < r@.len() ==> !text_lt(#[trigger] r@[q]@, key@),
{
    let n = r.len();
    let ghost rv = strings_view(r@);
    let mut p: usize = 0;
    while p < n
        invariant
            n == r@.len(),
            rv == strings_view(r@),
            sorted_strictly(rv),
            p <= n,
            forall|q: int| 0 <= q < p ==> text_lt(#[trigger] r@[q]@, key@),
        decreases n - p,
    {
        if !text_less(r[p].as_str(), key) {
            proof {
                assert forall|q: int| p <= q < r@.len() implies !text_lt(#[trigger] r@[q]@, key@) by {
                    if q > p {
                        assert(rv[p as int] == r@[p as int]@);
                        assert(rv[q] == r@[q]@);
                        assert(text_lt(rv[p as int], rv[q]));
                        if text_lt(r@[q]@, key@) {
                            lemma_text_lt_transitive(r@[p as int]@, r@[q]@, key@);
                        }
                    }
                }
            }
            return p;
        }
        p = p + 1;
    }
    p
}

/// The providers that have a value configured (one that is not blank), in
/// std's order of strings, each once.
pub fn configured_provider_ids(values: &StrMap<String>) -> (r: Vec<String>)
    ensures
        sorted_strictly(strings_view(r@)),
        forall|k: Seq<char>| strings_view(r@).contains(k) <==> #[trigger] configured_ids(values@).contains(k),
{
    let mut r: Vec<String> = Vec::new();
    let n = values.entries.len();
    let ghost es = values.entries@;
    proof {
        assert(es.take(0) =~= Seq::<(String, String)>::empty());
        assert(entries_view(es.take(0)) =~= Map::<Seq<char>, Seq<char>>::empty());
    }
    for i in 0..n
        invariant
            n == es.len(),
            es == values.entries@,
            sorted_strictly(strings_view(r@)),
            forall|k: Seq<char>| #[trigger] strings_view(r@).contains(k) <==> configured_ids(entries_view(es.take(i as int))).contains(k),
    {
        let ghost before = strings_view(r@);
        let ghost m0 = entries_view(es.take(i as int));
        proof {
            lemma_prefix_view_step(es, i as int);
        }
        let key = values.entries[i].0.as_str();
        let first = match values.find(key) {
            Some(j) => j == i,
            None => false,
        };
        proof {
            if first {
                assert(is_first_entry(es, i as int));
            } else {
                assert(!is_first_entry(es, i as int));
            }
        }
        if first && !is_blank_text(values.entries[i].1.as_str()) {
            let p = insertion_point(&r, key);
            proof {
                assert(!m0.contains_key(key@));
                assert(!before.contains(key@)) by {
                    if before.contains(key@) {
                        assert(configured_ids(m0).contains(key@));
                    }
                }
                assert forall|q: int| p <= q < before.len() implies text_lt(key@, #[trigger] before[q]) by {
                    assert(before[q] == r@[q]@);
                    assert(!text_lt(r@[q]@, key@));
                    lemma_text_lt_total(key@, before[q]);
                    if before[q] == key@ {
                        assert(before.contains(key@));
                    }
                }
                assert forall|q: int| 0 <= q < p implies text_lt(#[trigger] before[q], key@) by {
                    assert(before[q] == r@[q]@);
                }
            }
            r.insert(p, crate::text::owned(key));
            proof {
                let after = strings_view(r@);
                assert(after =~= before.insert(p as int, key@));
                assert forall|a: int, b: int| 0 <= a < b < after.len() implies text_lt(
                    #[trigger] after[a],
                    #[trigger] after[b],
                ) by {
                    if b < p {
                        assert(after[a] == before[a] && after[b] == before[b]);
                    } else if b == p {
                        assert(after[a] == before[a]);
                    } else if a < p {
                        assert(after[a] == before[a] && after[b] == before[b - 1]);
                        lemma_text_lt_transitive(before[a], key@, before[b - 1]);
                    } else if a == p {
                        assert(after[b] == before[b - 1]);
                    } else {
                        assert(after[a] == before[a - 1] && after[b] == before[b - 1]);
                    }
                }
                assert forall|k: Seq<char>| #[trigger] after.contains(k) <==> configured_ids(
                    entries_view(es.take(i + 1)),
                ).contains(k) by {
                    if after.contains(k) {
                        let w = choose|w: int| 0 <= w < after.len() && after[w] == k;
                        if w < p {
                            assert(before[w] == k);
                        } else if w > p {
                            assert(before[w - 1] == k);
                        }
                    }
                    if before.contains(k) {
                        let w = choose|w: int| 0 <= w < before.len() && before[w] == k;
                        if w < p {
                            assert(after[w] == k);
                        } else {
                            assert(after[w + 1] == k);
                        }
                    }
                    if k == key@ {
                        assert(after[p as int] == k);
                    }
                }
            }
        } else {
            proof {
                assert forall|k: Seq<char>| #[trigger] strings_view(r@).contains(k) <==> configured_ids(
                    entries_view(es.take(i + 1)),
                ).contains(k) by {
                    if first {
                        assert(configured_ids(entries_view(es.take(i + 1))).contains(k) <==> configured_ids(m0).contains(k));
                    }
                }
            }
        }
    }
    proof {
        lemma_take_full(es);
    }
    r
}

} // verus!
