//! The set of paths that a discovery gathers: kept in lexicographic order,
//! each path once.

use crate::text::{
    chars_of, is_before, lemma_lex_irreflexive, lemma_lex_total, lemma_lex_transitive,
    lemma_texts_one_more, lex_less, string_from, texts,
};
use vstd::prelude::*;

verus! {

/// Each text comes before all that follow it: the texts are in order, and
/// none occurs twice.
pub open spec fn strictly_sorted(s: Seq<Seq<char>>) -> bool {
    forall|i: int, j: int| 0 <= i < j < s.len() ==> lex_less(#[trigger] s[i], #[trigger] s[j])
}

/// A sequence of vectors as a sequence of sequences.
pub open spec fn rows(items: Seq<Vec<char>>) -> Seq<Seq<char>> {
    Seq::new(items.len(), |i: int| items[i]@)
}

/// Paths in lexicographic order, each once.
pub struct PathSet {
    items: Vec<Vec<char>>,
}

impl View for PathSet {
    type V = Seq<Seq<char>>;

    closed spec fn view(&self) -> Seq<Seq<char>> {
        rows(self.items@)
    }
}

/// Two sequences in strict order that hold the same texts are the same
/// sequence: the order of a set of paths is determined by the paths.
pub proof fn lemma_sorted_unique(a: Seq<Seq<char>>, b: Seq<Seq<char>>)
    requires
        strictly_sorted(a),
        strictly_sorted(b),
        a.to_set() == b.to_set(),
    ensures
        a == b,
    decreases a.len(),
{
    if a.len() == 0 {
        if b.len() > 0 {
            assert(b.to_set().contains(b[0]));
            assert(a.to_set().contains(b[0]));
        }
        assert(a =~= b);
    } else if b.len() == 0 {
        assert(a.to_set().contains(a[0]));
        assert(b.to_set().contains(a[0]));
    } else {
        // The first of each is the least of the common set.
        assert(a.to_set().contains(a[0]));
        assert(b.to_set().contains(a[0]));
        assert(b.to_set().contains(b[0]));
        assert(a.to_set().contains(b[0]));
        let ia = choose|i: int| 0 <= i < a.len() && a[i] == b[0];
        let ib = choose|i: int| 0 <= i < b.len() && b[i] == a[0];
        lemma_lex_total(a[0], b[0]);
        if ia > 0 {
            assert(lex_less(a[0], a[ia]));
        }
        if ib > 0 {
            assert(lex_less(b[0], b[ib]));
        }
        lemma_lex_irreflexive(a[0]);
        assert(a[0] == b[0]);
        let ra = a.drop_first();
        let rb = b.drop_first();
        assert(strictly_sorted(ra)) by {
            assert forall|i: int, j: int| 0 <= i < j < ra.len() implies lex_less(
                #[trigger] ra[i],
                #[trigger] ra[j],
            ) by {
                assert(lex_less(a[i + 1], a[j + 1]));
            }
        }
        assert(strictly_sorted(rb)) by {
            assert forall|i: int, j: int| 0 <= i < j < rb.len() implies lex_less(
                #[trigger] rb[i],
                #[trigger] rb[j],
            ) by {
                assert(lex_less(b[i + 1], b[j + 1]));
            }
        }
        assert(ra.to_set() =~= rb.to_set()) by {
            assert forall|x: Seq<char>| ra.to_set().contains(x) implies rb.to_set().contains(
                x,
            ) by {
                let i = choose|i: int| 0 <= i < ra.len() && ra[i] == x;
                assert(a[i + 1] == x);
                assert(lex_less(a[0], a[i + 1]));
                assert(a.to_set().contains(x));
                assert(b.to_set().contains(x));
                let j = choose|j: int| 0 <= j < b.len() && b[j] == x;
                if j == 0 {
                    lemma_lex_irreflexive(x);
                }
                assert(rb[j - 1] == x);
            }
            assert forall|x: Seq<char>| rb.to_set().contains(x) implies ra.to_set().contains(
                x,
            ) by {
                let i = choose|i: int| 0 <= i < rb.len() && rb[i] == x;
                assert(b[i + 1] == x);
                assert(lex_less(b[0], b[i + 1]));
                assert(b.to_set().contains(x));
                assert(a.to_set().contains(x));
                let j = choose|j: int| 0 <= j < a.len() && a[j] == x;
                if j == 0 {
                    lemma_lex_irreflexive(x);
                }
                assert(ra[j - 1] == x);
            }
        }
        lemma_sorted_unique(ra, rb);
        assert(a =~= seq![a[0]] + ra);
        assert(b =~= seq![b[0]] + rb);
    }
}

impl PathSet {
    #[verifier::type_invariant]
    spec fn in_order(self) -> bool {
        strictly_sorted(rows(self.items@))
    }

    /// The set without any path.
    pub fn new() -> (set: Self)
        ensures
            set@ == Seq::<Seq<char>>::empty(),
    {
        let set = PathSet { items: Vec::new() };
        assert(set@ =~= Seq::<Seq<char>>::empty());
        set
    }

    /// How many paths the set holds.
    pub fn len(&self) -> (n: usize)
        ensures
            n == self@.len(),
    {
        self.items.len()
    }

    /// Adds `path` to the set; a path that it holds already is not added
    /// again.
    pub fn insert(&mut self, path: &str)
        ensures
            final(self)@.to_set() == old(self)@.to_set().insert(path@),
            strictly_sorted(final(self)@),
            old(self)@.contains(path@) ==> final(self)@ == old(self)@,
    {
        proof {
            use_type_invariant(&*self);
        }
        let key = chars_of(path);
        let ghost before = rows(self.items@);
        let mut at: usize = 0;
        while at < self.items.len() && is_before(&self.items[at], &key)
            invariant
                at <= self.items.len(),
                rows(self.items@) == before,
                key@ == path@,
                strictly_sorted(before),
                forall|k: int| 0 <= k < at ==> lex_less(#[trigger] before[k], key@),
            decreases self.items.len() - at,
        {
            at += 1;
        }
        if at < self.items.len() && !is_before(&key, &self.items[at]) {
            proof {
                lemma_lex_total(key@, before[at as int]);
                assert(before.to_set().contains(key@));
                assert(before.to_set().insert(key@) =~= before.to_set());
            }
            return ;
        }
        let mut items: Vec<Vec<char>> = Vec::new();
        assert(strictly_sorted(rows(items@)));
        std::mem::swap(&mut self.items, &mut items);
        items.insert(at, key);
        proof {
            let after = rows(items@);
            assert(after =~= before.insert(at as int, key@));
            assert forall|i: int, j: int| 0 <= i < j < after.len() implies lex_less(
                #[trigger] after[i],
                #[trigger] after[j],
            ) by {
                if j == at {
                    assert(after[i] == before[i]);
                } else if i == at {
                    assert(after[j] == before[j - 1]);
                    if j - 1 > at {
                        lemma_lex_transitive(key@, before[at as int], before[j - 1]);
                    }
                } else {
                    let bi = if i < at {
                        i
                    } else {
                        i - 1
                    };
                    let bj = if j < at {
                        j
                    } else {
                        j - 1
                    };
                    assert(after[i] == before[bi]);
                    assert(after[j] == before[bj]);
                }
            }
            assert(after.to_set() =~= before.to_set().insert(key@)) by {
                assert forall|x: Seq<char>| after.to_set().contains(x) implies before.to_set().insert(
                    key@,
                ).contains(x) by {
                    let i = choose|i: int| 0 <= i < after.len() && after[i] == x;
                    if i < at {
                        assert(before[i] == x);
                    } else if i > at {
                        assert(before[i - 1] == x);
                    }
                }
                assert forall|x: Seq<char>|
                    before.to_set().insert(key@).contains(x) implies after.to_set().contains(x) by {
                    if x == key@ {
                        assert(after[at as int] == x);
                    } else {
                        let i = choose|i: int| 0 <= i < before.len() && before[i] == x;
                        if i < at {
                            assert(after[i] == x);
                        } else {
                            assert(after[i + 1] == x);
                        }
                    }
                }
            }
            if before.contains(key@) {
                let i = choose|i: int| 0 <= i < before.len() && before[i] == key@;
                lemma_lex_irreflexive(key@);
                if i > at {
                    lemma_lex_transitive(key@, before[at as int], before[i]);
                }
            }
        }
        std::mem::swap(&mut self.items, &mut items);
    }

    /// The paths of the set, in order.
    pub fn into_vec(self) -> (paths: Vec<String>)
        ensures
            texts(paths@) == self@,
            strictly_sorted(texts(paths@)),
    {
        proof {
            use_type_invariant(&self);
        }
        let mut paths: Vec<String> = Vec::new();
        let mut i: usize = 0;
        while i < self.items.len()
            invariant
                i <= self.items.len(),
                paths@.len() == i,
                texts(paths@) == rows(self.items@).take(i as int),
            decreases self.items.len() - i,
        {
            let ghost before = paths@;
            let path = string_from(&self.items[i]);
            paths.push(path);
            proof {
                lemma_texts_one_more(before, path, rows(self.items@), i as int);
            }
            i += 1;
        }
        assert(rows(self.items@).take(self.items.len() as int) =~= rows(self.items@));
        paths
    }
}

} // verus!
