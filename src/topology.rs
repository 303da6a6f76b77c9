use vstd::prelude::*;

verus! {

/// The canonical form of an undirected edge: smaller endpoint first.
pub open spec fn canon(e: (u32, u32)) -> (u32, u32) {
    if e.0 <= e.1 {
        e
    } else {
        (e.1, e.0)
    }
}

pub open spec fn is_canonical(e: (u32, u32)) -> bool {
    e.0 <= e.1
}

/// `e` is the canonical form of some edge of `s`.
pub open spec fn names_edge(s: Seq<(u32, u32)>, e: (u32, u32)) -> bool {
    exists|i: int| 0 <= i < s.len() && canon(#[trigger] s[i]) == e
}

/// Filtering keeps exactly the elements that satisfy the predicate, and
/// keeps a sequence free of repetitions.
pub proof fn lemma_filter_distinct<A>(s: Seq<A>, p: spec_fn(A) -> bool)
    requires
        s.no_duplicates(),
    ensures
        s.filter(p).no_duplicates(),
        forall|x: A| #[trigger] s.filter(p).contains(x) <==> s.contains(x) && p(x),
    decreases s.len(),
{
    broadcast use Seq::lemma_filter_contains_rev, Seq::lemma_filter_pred;

    reveal(Seq::filter);
    if s.len() > 0 {
        let t = s.drop_last();
        assert(t.no_duplicates());
        lemma_filter_distinct(t, p);
        assert(s == t.push(s.last()));
        assert(!t.contains(s.last()));
        if p(s.last()) {
            let f = t.filter(p);
            let g = s.filter(p);
            assert(g == f.push(s.last()));
            assert(!f.contains(s.last()));
            assert forall|i: int, j: int|
                0 <= i < g.len() && 0 <= j < g.len() && i != j implies g[i] != g[j] by {
                if i == f.len() {
                    assert(f.contains(g[j]));
                } else if j == f.len() {
                    assert(f.contains(g[i]));
                }
            }
        }
        assert forall|x: A| s.filter(p).contains(x) <==> s.contains(x) && p(x) by {
            if s.contains(x) && p(x) {
                let k = choose|k: int| 0 <= k < s.len() && s[k] == x;
                s.lemma_filter_contains(p, k);
            }
        }
    }
}

/// Orders the endpoints of an edge so that equal pairs compare equal.
pub fn canonical_edge(a: u32, b: u32) -> (r: (u32, u32))
    ensures
        r == canon((a, b)),
{
    if a <= b {
        (a, b)
    } else {
        (b, a)
    }
}

/// Whether `x` occurs in `v`.
pub fn contains_id(v: &Vec<u32>, x: u32) -> (r: bool)
    ensures
        r == v@.contains(x),
{
    let mut i: usize = 0;
    while i < v.len()
        invariant
            0 <= i <= v.len(),
            forall|j: int| 0 <= j < i ==> v@[j] != x,
        decreases v.len() - i,
    {
        if v[i] == x {
            return true;
        }
        i += 1;
    }
    false
}

/// Whether `e` occurs in `v` (as written, not up to order).
pub fn contains_edge(v: &Vec<(u32, u32)>, e: (u32, u32)) -> (r: bool)
    ensures
        r == v@.contains(e),
{
    let mut i: usize = 0;
    while i < v.len()
        invariant
            0 <= i <= v.len(),
            forall|j: int| 0 <= j < i ==> v@[j] != e,
        decreases v.len() - i,
    {
        if v[i].0 == e.0 && v[i].1 == e.1 {
            return true;
        }
        i += 1;
    }
    false
}

/// The ids of `a` that do not occur in `b`, in the order of `a`.
pub fn ids_missing_from(a: &Vec<u32>, b: &Vec<u32>) -> (r: Vec<u32>)
    ensures
        r@ == a@.filter(|x: u32| !b@.contains(x)),
{
    let mut r: Vec<u32> = Vec::new();
    let mut i: usize = 0;
    while i < a.len()
        invariant
            0 <= i <= a.len(),
            r@ == a@.take(i as int).filter(|x| !b@.contains(x)),
        decreases a.len() - i,
    {
        assert(a@.take(i + 1) =~= a@.take(i as int).push(a@[i as int]));
        proof {
            a@.take(i as int).lemma_filter_push(a@[i as int], |x| !b@.contains(x));
        }
        if !contains_id(b, a[i]) {
            r.push(a[i]);
        }
        i += 1;
    }
    assert(a@.take(a.len() as int) =~= a@);
    r
}

/// The edges of `a` that do not occur in `b`, in the order of `a`.
pub fn edges_missing_from(a: &Vec<(u32, u32)>, b: &Vec<(u32, u32)>) -> (r: Vec<(u32, u32)>)
    ensures
        r@ == a@.filter(|e: (u32, u32)| !b@.contains(e)),
{
    let mut r: Vec<(u32, u32)> = Vec::new();
    let mut i: usize = 0;
    while i < a.len()
        invariant
            0 <= i <= a.len(),
            r@ == a@.take(i as int).filter(|x| !b@.contains(x)),
        decreases a.len() - i,
    {
        assert(a@.take(i + 1) =~= a@.take(i as int).push(a@[i as int]));
        proof {
            a@.take(i as int).lemma_filter_push(a@[i as int], |x| !b@.contains(x));
        }
        if !contains_edge(b, a[i]) {
            r.push(a[i]);
        }
        i += 1;
    }
    assert(a@.take(a.len() as int) =~= a@);
    r
}

/// The ids of `v` with repetitions removed, first occurrence kept.
fn distinct_ids(v: &Vec<u32>) -> (r: Vec<u32>)
    ensures
        r@.no_duplicates(),
        forall|x: u32| r@.contains(x) <==> v@.contains(x),
{
    let mut r: Vec<u32> = Vec::new();
    let mut i: usize = 0;
    while i < v.len()
        invariant
            0 <= i <= v.len(),
            r@.no_duplicates(),
            forall|j: int| 0 <= j < i ==> r@.contains(#[trigger] v@[j]),
            forall|k: int| 0 <= k < r.len() ==> v@.contains(#[trigger] r@[k]),
        decreases v.len() - i,
    {
        let x = v[i];
        if !contains_id(&r, x) {
            let ghost before = r@;
            r.push(x);
            assert(r@[r.len() - 1] == x);
            assert forall|j: int| 0 <= j < i implies r@.contains(#[trigger] v@[j]) by {
                let k = choose|k: int| 0 <= k < before.len() && before[k] == v@[j];
                assert(r@[k] == v@[j]);
            }
        }
        assert(r@.contains(x));
        i += 1;
    }
    r
}

/// The canonical forms of the edges of `v`, each once, in order of first
/// occurrence.
fn distinct_canonical_edges(v: &Vec<(u32, u32)>) -> (r: Vec<(u32, u32)>)
    ensures
        r@.no_duplicates(),
        forall|k: int| 0 <= k < r.len() ==> is_canonical(#[trigger] r@[k]),
        forall|e: (u32, u32)| r@.contains(e) <==> names_edge(v@, e),
{
    let mut r: Vec<(u32, u32)> = Vec::new();
    let mut i: usize = 0;
    while i < v.len()
        invariant
            0 <= i <= v.len(),
            r@.no_duplicates(),
            forall|j: int| 0 <= j < i ==> r@.contains(canon(#[trigger] v@[j])),
            forall|k: int| 0 <= k < r.len() ==> names_edge(v@, #[trigger] r@[k]),
            forall|k: int| 0 <= k < r.len() ==> is_canonical(#[trigger] r@[k]),
        decreases v.len() - i,
    {
        let c = canonical_edge(v[i].0, v[i].1);
        assert(canon(v@[i as int]) == c);
        if !contains_edge(&r, c) {
            let ghost before = r@;
            r.push(c);
            assert(r@[r.len() - 1] == c);
            assert forall|j: int| 0 <= j < i implies r@.contains(canon(#[trigger] v@[j])) by {
                let k = choose|k: int| 0 <= k < before.len() && before[k] == canon(v@[j]);
                assert(r@[k] == canon(v@[j]));
            }
        }
        assert(r@.contains(c));
        i += 1;
    }
    proof {
        assert forall|e: (u32, u32)| names_edge(v@, e) implies r@.contains(e) by {
            let j = choose|j: int| 0 <= j < v.len() && canon(#[trigger] v@[j]) == e;
            assert(r@.contains(canon(v@[j])));
        }
    }
    r
}

/// One poll of the simulation's topology: the live planet ids and the
/// undirected edges between planets, each stored once in canonical form.
pub struct GalaxySnapshot {
    pub edges: Vec<(u32, u32)>,
    pub planet_ids: Vec<u32>,
}

impl GalaxySnapshot {
    /// Ids and edges are stored without repetition, edges canonically.
    pub open spec fn wf(&self) -> bool {
        &&& self.planet_ids@.no_duplicates()
        &&& self.edges@.no_duplicates()
        &&& forall|k: int| 0 <= k < self.edges.len() ==> is_canonical(#[trigger] self.edges@[k])
    }

    pub open spec fn has_planet(&self, id: u32) -> bool {
        self.planet_ids@.contains(id)
    }

    /// The snapshot holds the planets `ids` and the edges named by `edges`.
    pub open spec fn reports(&self, edges: Seq<(u32, u32)>, ids: Seq<u32>) -> bool {
        &&& forall|x: u32| #[trigger] self.has_planet(x) <==> ids.contains(x)
        &&& forall|e: (u32, u32)| #[trigger] self.has_edge(e) <==> names_edge(edges, e)
    }

    pub open spec fn has_edge(&self, e: (u32, u32)) -> bool {
        self.edges@.contains(e)
    }

    /// The snapshot of a galaxy with no planets, as after a reset.
    pub fn empty() -> (r: Self)
        ensures
            r.wf(),
            r.planet_ids@.len() == 0,
            r.edges@.len() == 0,
    {
        GalaxySnapshot { edges: Vec::new(), planet_ids: Vec::new() }
    }

    /// Builds a snapshot from the planets and edges reported by the
    /// simulation: repeated ids are kept once, and an edge given in both
    /// orders is kept once, in canonical form.
    pub fn new(edges: Vec<(u32, u32)>, planet_ids: Vec<u32>) -> (r: Self)
        ensures
            r.wf(),
            forall|x: u32| r.has_planet(x) <==> planet_ids@.contains(x),
            forall|e: (u32, u32)| r.has_edge(e) <==> names_edge(edges@, e),
            r.reports(edges@, planet_ids@),
    {
        let ids = distinct_ids(&planet_ids);
        let es = distinct_canonical_edges(&edges);
        GalaxySnapshot { edges: es, planet_ids: ids }
    }

    /// Builds a snapshot from a topology query: planets are numbered
    /// `0 .. planet_num`.
    pub fn from_topology(edges: Vec<(u32, u32)>, planet_num: usize) -> (r: Self)
        requires
            planet_num <= u32::MAX as usize + 1,
        ensures
            r.wf(),
            r.planet_ids@.len() == planet_num,
            forall|k: int| 0 <= k < planet_num ==> r.planet_ids@[k] == k,
            forall|x: u32| r.has_planet(x) <==> x < planet_num,
            forall|e: (u32, u32)| r.has_edge(e) <==> names_edge(edges@, e),
    {
        let mut ids: Vec<u32> = Vec::new();
        let mut i: usize = 0;
        while i < planet_num
            invariant
                0 <= i <= planet_num,
                planet_num <= u32::MAX as usize + 1,
                ids@.len() == i,
                forall|k: int| 0 <= k < i ==> ids@[k] == k,
            decreases planet_num - i,
        {
            ids.push(i as u32);
            i += 1;
        }
        proof {
            assert forall|x: u32| ids@.contains(x) <==> x < planet_num by {
                if x < planet_num {
                    assert(ids@[x as int] == x);
                }
            }
        }
        let es = distinct_canonical_edges(&edges);
        GalaxySnapshot { edges: es, planet_ids: ids }
    }

    /// The number of live planets.
    pub fn planet_num(&self) -> (r: usize)
        ensures
            r == self.planet_ids@.len(),
    {
        self.planet_ids.len()
    }
}

} // verus!
