use vstd::prelude::*;

use crate::text::to_chars;

verus! {

/// Whether `a` comes before `b` or equals it: compared character by character (by code
/// point), a prefix coming first.
pub open spec fn name_le(a: Seq<char>, b: Seq<char>) -> bool
    decreases a.len(),
{
    if a.len() == 0 {
        true
    } else if b.len() == 0 {
        false
    } else if a[0] != b[0] {
        (a[0] as int) < (b[0] as int)
    } else {
        name_le(a.drop_first(), b.drop_first())
    }
}

/// Any two names are ordered one way or the other.
pub proof fn lemma_name_le_total(a: Seq<char>, b: Seq<char>)
    ensures
        name_le(a, b) || name_le(b, a),
    decreases a.len(),
{
    if a.len() > 0 && b.len() > 0 && a[0] == b[0] {
        lemma_name_le_total(a.drop_first(), b.drop_first());
    }
    if a.len() > 0 && b.len() > 0 && a[0] != b[0] {
        assert((a[0] as int) != (b[0] as int));
    }
}

/// The order on names is transitive.
pub proof fn lemma_name_le_transitive(a: Seq<char>, b: Seq<char>, c: Seq<char>)
    requires
        name_le(a, b),
        name_le(b, c),
    ensures
        name_le(a, c),
    decreases a.len(),
{
    if a.len() > 0 && b.len() > 0 && c.len() > 0 && a[0] == b[0] && b[0] == c[0] {
        lemma_name_le_transitive(a.drop_first(), b.drop_first(), c.drop_first());
    }
}

/// Comparing from a common prefix of length `i` on decides as comparing the whole names.
proof fn lemma_name_le_skip(a: Seq<char>, b: Seq<char>, i: int)
    requires
        0 <= i <= a.len(),
        i <= b.len(),
        a.take(i) == b.take(i),
    ensures
        name_le(a, b) == name_le(a.skip(i), b.skip(i)),
    decreases i,
{
    if i > 0 {
        assert(a[0] == a.take(i)[0]);
        assert(b[0] == b.take(i)[0]);
        assert(a.drop_first().take(i - 1) =~= a.take(i).drop_first());
        assert(b.drop_first().take(i - 1) =~= b.take(i).drop_first());
        lemma_name_le_skip(a.drop_first(), b.drop_first(), i - 1);
        assert(a.drop_first().skip(i - 1) =~= a.skip(i));
        assert(b.drop_first().skip(i - 1) =~= b.skip(i));
    } else {
        assert(a.skip(0) =~= a);
        assert(b.skip(0) =~= b);
    }
}

/// Whether `a` comes before `b` or equals it (see `name_le`).
pub fn name_le_exec(a: &str, b: &str) -> (res: bool)
    ensures
        res == name_le(a@, b@),
{
    let x = to_chars(a);
    let y = to_chars(b);
    let mut i: usize = 0;
    while i < x.len() && i < y.len()
        invariant
            i <= x.len(),
            i <= y.len(),
            x@ == a@,
            y@ == b@,
            x@.take(i as int) == y@.take(i as int),
        decreases x.len() - i,
    {
        if x[i] != y[i] {
            proof {
                lemma_name_le_skip(x@, y@, i as int);
                assert(x@.skip(i as int)[0] == x@[i as int]);
                assert(y@.skip(i as int)[0] == y@[i as int]);
            }
            return x[i] < y[i];
        }
        assert(x@.take(i + 1) =~= x@.take(i as int).push(x@[i as int]));
        assert(y@.take(i + 1) =~= y@.take(i as int).push(y@[i as int]));
        i = i + 1;
    }
    proof {
        lemma_name_le_skip(x@, y@, i as int);
    }
    x.len() <= y.len()
}

/// The names of `v`, in order.
pub open spec fn names_of(v: Seq<(String, u128)>) -> Seq<Seq<char>> {
    v.map_values(|p: (String, u128)| p.0@)
}

/// Whether the names are in order.
pub open spec fn sorted_names(v: Seq<Seq<char>>) -> bool {
    forall|i: int, j: int| 0 <= i < j < v.len() ==> name_le(#[trigger] v[i], #[trigger] v[j])
}

/// The keys of `v`, in order.
pub open spec fn keys_in(v: Seq<(String, u128)>) -> Seq<u128> {
    v.map_values(|p: (String, u128)| p.1)
}

/// `v` ordered by name; the pairs are those of `v`, each once where they were once.
pub fn sort_by_name(v: Vec<(String, u128)>) -> (res: Vec<(String, u128)>)
    ensures
        sorted_names(names_of(res@)),
        res@.len() == v@.len(),
        keys_in(v@).no_duplicates() ==> keys_in(res@).no_duplicates(),
        keys_in(res@).to_set() == keys_in(v@).to_set(),
        forall|i: int| 0 <= i < res@.len() ==> exists|j: int| 0 <= j < v@.len() && (#[trigger] res@[i]).1 == v@[j].1 && res@[i].0@ == v@[j].0@,
{
    let ghost orig = v@;
    let mut rest = v;
    let mut res: Vec<(String, u128)> = Vec::new();
    while rest.len() > 0
        invariant
            res@.len() + rest@.len() == orig.len(),
            rest@ == orig.skip(res@.len() as int),
            sorted_names(names_of(res@)),
            keys_in(orig).no_duplicates() ==> keys_in(res@).no_duplicates(),
            keys_in(res@).to_set() == keys_in(orig.take(res@.len() as int)).to_set(),
            forall|i: int| 0 <= i < res@.len() ==> exists|j: int| 0 <= j < orig.len() && (#[trigger] res@[i]).1 == orig[j].1 && res@[i].0@ == orig[j].0@,
        decreases rest.len(),
    {
        let ghost n = res@.len() as int;
        let x = rest.remove(0);
        assert(x == orig[n]);
        let mut pos: usize = 0;
        while pos < res.len() && name_le_exec(res[pos].0.as_str(), x.0.as_str())
            invariant
                pos <= res@.len(),
                forall|i: int| 0 <= i < pos ==> name_le(#[trigger] names_of(res@)[i], x.0@),
            decreases res.len() - pos,
        {
            pos = pos + 1;
        }
        let ghost before = res@;
        res.insert(pos, x);
        assert(res@ == before.insert(pos as int, x));
        proof {
            let bn = names_of(before);
            let rn = names_of(res@);
            assert(rn =~= bn.insert(pos as int, x.0@));
            if pos < before.len() {
                assert(!name_le(bn[pos as int], x.0@));
                lemma_name_le_total(bn[pos as int], x.0@);
            }
            assert forall|i: int, j: int| 0 <= i < j < rn.len() implies name_le(#[trigger] rn[i], #[trigger] rn[j]) by {
                if i < pos && j == pos {
                } else if i < pos && j > pos {
                    assert(rn[j] == bn[j - 1]);
                } else if i == pos && j > pos {
                    assert(rn[j] == bn[j - 1]);
                    if j - 1 > pos {
                        lemma_name_le_transitive(x.0@, bn[pos as int], bn[j - 1]);
                    }
                } else if i > pos {
                    assert(rn[i] == bn[i - 1]);
                    assert(rn[j] == bn[j - 1]);
                }
            }
            let bk = keys_in(before);
            let rk = keys_in(res@);
            assert(rk =~= bk.insert(pos as int, x.1));
            assert(orig.take(n + 1) =~= orig.take(n).push(x));
            assert(keys_in(orig.take(n + 1)) =~= keys_in(orig.take(n)).push(x.1));
            assert(rk.to_set() =~= bk.to_set().insert(x.1)) by {
                assert forall|k: u128| rk.to_set().contains(k) <==> bk.to_set().insert(x.1).contains(k) by {
                    if rk.contains(k) {
                        let j = choose|j: int| 0 <= j < rk.len() && rk[j] == k;
                        if j < pos {
                            assert(bk[j] == k);
                        } else if j > pos {
                            assert(bk[j - 1] == k);
                        }
                    }
                    if bk.contains(k) {
                        let j = choose|j: int| 0 <= j < bk.len() && bk[j] == k;
                        if j < pos {
                            assert(rk[j] == k);
                        } else {
                            assert(rk[j + 1] == k);
                        }
                    }
                    if k == x.1 {
                        assert(rk[pos as int] == k);
                    }
                }
            }
            keys_in(orig.take(n)).lemma_push_to_set_commute(x.1);
            if keys_in(orig).no_duplicates() {
                assert(!bk.contains(x.1)) by {
                    if bk.contains(x.1) {
                        assert(bk.to_set().contains(x.1));
                        assert(keys_in(orig.take(n)).to_set().contains(x.1));
                        let j = choose|j: int| 0 <= j < n && keys_in(orig.take(n))[j] == x.1;
                        assert(keys_in(orig)[j] == keys_in(orig)[n]);
                    }
                }
                assert forall|a: int, b: int| 0 <= a < b < rk.len() implies rk[a] != rk[b] by {
                    if a < pos && b < pos {
                        assert(rk[a] == bk[a] && rk[b] == bk[b]);
                    } else if a < pos && b == pos {
                        assert(rk[a] == bk[a]);
                    } else if a < pos && b > pos {
                        assert(rk[a] == bk[a] && rk[b] == bk[b - 1]);
                    } else if a == pos {
                        assert(rk[b] == bk[b - 1]);
                    } else {
                        assert(rk[a] == bk[a - 1] && rk[b] == bk[b - 1]);
                    }
                }
            }
            assert forall|i: int| 0 <= i < res@.len() implies exists|j: int| 0 <= j < orig.len() && (#[trigger] res@[i]).1 == orig[j].1 && res@[i].0@ == orig[j].0@ by {
                if i < pos {
                    assert(res@[i] == before[i]);
                } else if i > pos {
                    assert(res@[i] == before[i - 1]);
                } else {
                    assert(res@[i] == orig[n]);
                }
            }
            assert(rest@ =~= orig.skip(res@.len() as int));
        }
    }
    assert(orig.take(orig.len() as int) =~= orig);
    res
}

} // verus!
