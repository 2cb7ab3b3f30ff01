use vstd::prelude::*;

verus! {

/// How often `x` occurs in `s`.
pub open spec fn count_of(s: Seq<Seq<char>>, x: Seq<char>) -> nat
    decreases s.len(),
{
    if s.len() == 0 {
        0
    } else {
        count_of(s.drop_last(), x) + (if s.last() == x {
            1nat
        } else {
            0nat
        })
    }
}

/// The labels of `ranked`, as text.
pub open spec fn label_texts(ranked: Seq<String>) -> Seq<Seq<char>> {
    ranked.map_values(|s: String| s@)
}

/// The labels that vote: the first `k` of the ranking, or all of it when
/// it is shorter.
pub open spec fn voters(k: usize, ranked: Seq<String>) -> Seq<Seq<char>> {
    label_texts(ranked).take(if k < ranked.len() {
        k as int
    } else {
        ranked.len() as int
    })
}

/// How many of the first `m` labels equal the label at `i`.
fn count_among(ranked: &Vec<String>, m: usize, i: usize) -> (c: usize)
    requires
        i < m <= ranked@.len(),
    ensures
        c == count_of(label_texts(ranked@).take(m as int), ranked@[i as int]@),
{
    let ghost l = label_texts(ranked@);
    let mut c: usize = 0;
    let mut j: usize = 0;
    while j < m
        invariant
            j <= m <= ranked@.len(),
            i < m,
            l == label_texts(ranked@),
            c <= j,
            c == count_of(l.take(j as int), ranked@[i as int]@),
        decreases m - j,
    {
        assert(l.take(j + 1).drop_last() =~= l.take(j as int));
        if ranked[j] == ranked[i] {
            c = c + 1;
        }
        j = j + 1;
    }
    c
}

/// The label that most of the `k` nearest neighbours carry, `ranked` being
/// the neighbours' labels from nearest to farthest. Where several labels
/// share the highest count, the result is one of them.
pub fn nearest_majority_label(k: usize, ranked: &Vec<String>) -> (r: String)
    requires
        k > 0,
        ranked@.len() > 0,
    ensures
        voters(k, ranked@).contains(r@),
        forall|j: int|
            0 <= j < voters(k, ranked@).len() ==> count_of(voters(k, ranked@), #[trigger] voters(k, ranked@)[j])
                <= count_of(voters(k, ranked@), r@),
{
    let m: usize = if k < ranked.len() {
        k
    } else {
        ranked.len()
    };
    let ghost v = voters(k, ranked@);
    assert(v == label_texts(ranked@).take(m as int));
    let mut best: usize = 0;
    let mut best_count = count_among(ranked, m, 0);
    let mut i: usize = 1;
    while i < m
        invariant
            1 <= i <= m,
            m <= ranked@.len(),
            v == label_texts(ranked@).take(m as int),
            v.len() == m,
            best < m,
            best_count == count_of(v, v[best as int]),
            forall|j: int| 0 <= j < i ==> count_of(v, #[trigger] v[j]) <= best_count,
        decreases m - i,
    {
        let c = count_among(ranked, m, i);
        if c > best_count {
            best = i;
            best_count = c;
        }
        i = i + 1;
    }
    let r = ranked[best].clone();
    assert(v[best as int] == r@);
    r
}

} // verus!
