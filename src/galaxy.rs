use vstd::prelude::*;

use crate::star::Star;

verus! {

/// An integer position; positions are ordered by `x`, then by `y`.
#[derive(Debug, PartialEq, Eq, Structural, Hash, Copy, Clone, PartialOrd, Ord)]
pub struct Position {
    pub x: i32,
    pub y: i32,
}

/// Strict lexicographic order on positions.
pub open spec fn pos_lt(a: Position, b: Position) -> bool {
    a.x < b.x || (a.x == b.x && a.y < b.y)
}

/// Keys strictly increasing: hence no key appears twice.
pub open spec fn sorted_keys(s: Seq<(Position, Star)>) -> bool {
    forall|i: int, j: int| 0 <= i < j < s.len() ==> pos_lt(#[trigger] s[i].0, #[trigger] s[j].0)
}

pub open spec fn has_key(s: Seq<(Position, Star)>, p: Position) -> bool {
    exists|i: int| 0 <= i < s.len() && s[i].0 == p
}

/// The mapping that a list of entries with distinct keys describes.
pub open spec fn map_of(s: Seq<(Position, Star)>) -> Map<Position, Star> {
    Map::new(
        |p: Position| has_key(s, p),
        |p: Position| s[choose|i: int| 0 <= i < s.len() && s[i].0 == p].1,
    )
}

proof fn lemma_map_of_at(s: Seq<(Position, Star)>, i: int)
    requires
        sorted_keys(s),
        0 <= i < s.len(),
    ensures
        map_of(s).contains_key(s[i].0),
        map_of(s)[s[i].0] == s[i].1,
{
    let p = s[i].0;
    assert(has_key(s, p));
    let k = choose|k: int| 0 <= k < s.len() && s[k].0 == p;
    if k < i {
        assert(pos_lt(s[k].0, s[i].0));
    } else if i < k {
        assert(pos_lt(s[i].0, s[k].0));
    }
}

proof fn lemma_map_of_update(s: Seq<(Position, Star)>, i: int, star: Star)
    requires
        sorted_keys(s),
        0 <= i < s.len(),
    ensures
        sorted_keys(s.update(i, (s[i].0, star))),
        map_of(s.update(i, (s[i].0, star))) == map_of(s).insert(s[i].0, star),
{
    let p = s[i].0;
    let t = s.update(i, (p, star));
    assert(sorted_keys(t)) by {
        assert forall|a: int, b: int| 0 <= a < b < t.len() implies pos_lt(
            #[trigger] t[a].0,
            #[trigger] t[b].0,
        ) by {
            assert(pos_lt(s[a].0, s[b].0));
        }
    }
    assert forall|q: Position| #[trigger] has_key(t, q) == (has_key(s, q) || q == p) by {
        if has_key(t, q) {
            let k = choose|k: int| 0 <= k < t.len() && t[k].0 == q;
            assert(s[k].0 == q);
        }
        if has_key(s, q) {
            let k = choose|k: int| 0 <= k < s.len() && s[k].0 == q;
            assert(t[k].0 == q);
        }
        if q == p {
            assert(t[i].0 == q);
        }
    }
    assert forall|q: Position| #[trigger] map_of(t).contains_key(q) implies map_of(t)[q] == map_of(
        s,
    ).insert(p, star)[q] by {
        let k = choose|k: int| 0 <= k < t.len() && t[k].0 == q;
        lemma_map_of_at(t, k);
        if k != i {
            lemma_map_of_at(s, k);
        }
    }
    assert(map_of(t) =~= map_of(s).insert(p, star));
}

proof fn lemma_map_of_insert(s: Seq<(Position, Star)>, i: int, p: Position, star: Star)
    requires
        sorted_keys(s),
        0 <= i <= s.len(),
        forall|k: int| 0 <= k < i ==> pos_lt(#[trigger] s[k].0, p),
        i < s.len() ==> pos_lt(p, s[i].0),
    ensures
        sorted_keys(s.insert(i, (p, star))),
        map_of(s.insert(i, (p, star))) == map_of(s).insert(p, star),
{
    let t = s.insert(i, (p, star));
    assert forall|k: int| i <= k < s.len() implies pos_lt(p, #[trigger] s[k].0) by {
        if k > i {
            assert(pos_lt(s[i].0, s[k].0));
        }
    }
    assert(sorted_keys(t)) by {
        assert forall|a: int, b: int| 0 <= a < b < t.len() implies pos_lt(
            #[trigger] t[a].0,
            #[trigger] t[b].0,
        ) by {
            if b < i {
                assert(pos_lt(s[a].0, s[b].0));
            } else if b == i {
                assert(pos_lt(s[a].0, p));
            } else if a < i {
                assert(pos_lt(s[a].0, p));
                assert(pos_lt(p, s[b - 1].0));
            } else if a == i {
                assert(pos_lt(p, s[b - 1].0));
            } else {
                assert(pos_lt(s[a - 1].0, s[b - 1].0));
            }
        }
    }
    assert forall|q: Position| #[trigger] has_key(t, q) == (has_key(s, q) || q == p) by {
        if has_key(t, q) {
            let k = choose|k: int| 0 <= k < t.len() && t[k].0 == q;
            if k < i {
                assert(s[k].0 == q);
            } else if k > i {
                assert(s[k - 1].0 == q);
            }
        }
        if has_key(s, q) {
            let k = choose|k: int| 0 <= k < s.len() && s[k].0 == q;
            if k < i {
                assert(t[k].0 == q);
            } else {
                assert(t[k + 1].0 == q);
            }
        }
        if q == p {
            assert(t[i].0 == q);
        }
    }
    assert forall|q: Position| #[trigger] map_of(t).contains_key(q) implies map_of(t)[q] == map_of(
        s,
    ).insert(p, star)[q] by {
        let k = choose|k: int| 0 <= k < t.len() && t[k].0 == q;
        lemma_map_of_at(t, k);
        if k < i {
            lemma_map_of_at(s, k);
        } else if k > i {
            lemma_map_of_at(s, k - 1);
        }
    }
    assert(map_of(t) =~= map_of(s).insert(p, star));
}

/// Executable form of `pos_lt`.
pub fn position_less(a: Position, b: Position) -> (r: bool)
    ensures
        r == pos_lt(a, b),
{
    a.x < b.x || (a.x == b.x && a.y < b.y)
}

/// A generated galaxy: stars keyed by position, kept in ascending position
/// order, at most one star per position.
pub struct Galaxy {
    stars: Vec<(Position, Star)>,
}

impl View for Galaxy {
    type V = Map<Position, Star>;

    open spec fn view(&self) -> Map<Position, Star> {
        map_of(self.entries())
    }
}

impl Galaxy {
    /// The entries in iteration order.
    pub closed spec fn entries(&self) -> Seq<(Position, Star)> {
        self.stars@
    }

    pub open spec fn wf(&self) -> bool {
        sorted_keys(self.entries())
    }

    /// A galaxy without stars.
    pub fn new() -> (r: Galaxy)
        ensures
            r.wf(),
            r.entries().len() == 0,
            r@ == Map::<Position, Star>::empty(),
    {
        let r = Galaxy { stars: Vec::new() };
        assert(r@ =~= Map::<Position, Star>::empty());
        r
    }

    /// Puts `star` at `position`; a star already there is replaced.
    pub fn insert(&mut self, position: Position, star: Star)
        requires
            old(self).wf(),
        ensures
            final(self).wf(),
            final(self)@ == old(self)@.insert(position, star),
    {
        let n = self.stars.len();
        let mut i: usize = 0;
        while i < n && position_less(self.stars[i].0, position)
            invariant
                n == self.stars.len(),
                self.stars@ == old(self).stars@,
                i <= n,
                sorted_keys(self.stars@),
                forall|k: int| 0 <= k < i ==> pos_lt(#[trigger] self.stars@[k].0, position),
            decreases n - i,
        {
            i = i + 1;
        }
        if i < n && self.stars[i].0 == position {
            proof {
                lemma_map_of_update(self.stars@, i as int, star);
            }
            self.stars.set(i, (position, star));
        } else {
            proof {
                lemma_map_of_insert(self.stars@, i as int, position, star);
            }
            self.stars.insert(i, (position, star));
        }
    }

    /// Number of stars.
    pub fn len(&self) -> (r: usize)
        requires
            self.wf(),
        ensures
            r == self.entries().len(),
            r == self@.len(),
    {
        proof {
            lemma_len(self.entries());
        }
        self.stars.len()
    }

    /// The entries in ascending position order.
    pub fn stars(&self) -> (r: &Vec<(Position, Star)>)
        ensures
            r@ == self.entries(),
    {
        &self.stars
    }

    /// The star at `position`, if there is one.
    pub fn get(&self, position: Position) -> (r: Option<Star>)
        requires
            self.wf(),
        ensures
            r == (if self@.contains_key(position) {
                Some(self@[position])
            } else {
                None
            }),
    {
        let n = self.stars.len();
        let mut i: usize = 0;
        while i < n
            invariant
                n == self.stars.len(),
                i <= n,
                self.wf(),
                forall|k: int| 0 <= k < i ==> #[trigger] self.stars@[k].0 != position,
            decreases n - i,
        {
            if self.stars[i].0 == position {
                proof {
                    lemma_map_of_at(self.stars@, i as int);
                }
                return Some(self.stars[i].1);
            }
            i = i + 1;
        }
        None
    }
}

proof fn lemma_len(s: Seq<(Position, Star)>)
    requires
        sorted_keys(s),
    ensures
        map_of(s).len() == s.len(),
    decreases s.len(),
{
    if s.len() == 0 {
        assert(map_of(s) =~= Map::<Position, Star>::empty());
    } else {
        let t = s.drop_last();
        assert(sorted_keys(t)) by {
            assert forall|a: int, b: int| 0 <= a < b < t.len() implies pos_lt(
                #[trigger] t[a].0,
                #[trigger] t[b].0,
            ) by {
                assert(pos_lt(s[a].0, s[b].0));
            }
        }
        lemma_len(t);
        let p = s.last().0;
        assert forall|k: int| 0 <= k < t.len() implies pos_lt(#[trigger] t[k].0, p) by {
            assert(pos_lt(s[k].0, s[s.len() - 1].0));
        }
        lemma_map_of_insert(t, t.len() as int, p, s.last().1);
        assert(t.insert(t.len() as int, (p, s.last().1)) =~= s);
        assert(!map_of(t).contains_key(p)) by {
            if has_key(t, p) {
                let k = choose|k: int| 0 <= k < t.len() && t[k].0 == p;
                assert(pos_lt(s[k].0, s[s.len() - 1].0));
            }
        }
        assert(map_of(t).dom().finite()) by {
            lemma_dom_finite(t);
        }
    }
}

proof fn lemma_dom_finite(s: Seq<(Position, Star)>)
    ensures
        map_of(s).dom().finite(),
{
    let keys = Set::new(|i: int| 0 <= i < s.len()).map(|i: int| s[i].0);
    assert(Set::new(|i: int| 0 <= i < s.len()) =~= vstd::set_lib::set_int_range(0, s.len() as int));
    vstd::set_lib::lemma_int_range(0, s.len() as int);
    Set::new(|i: int| 0 <= i < s.len()).lemma_map_finite(|i: int| s[i].0);
    assert(map_of(s).dom() =~= keys) by {
        assert forall|q: Position| map_of(s).dom().contains(q) implies keys.contains(q) by {
            let k = choose|k: int| 0 <= k < s.len() && s[k].0 == q;
            assert(Set::new(|i: int| 0 <= i < s.len()).contains(k));
        }
    }
}

proof fn lemma_same_map_same_seq(a: Seq<(Position, Star)>, b: Seq<(Position, Star)>)
    requires
        sorted_keys(a),
        sorted_keys(b),
        map_of(a) == map_of(b),
    ensures
        a == b,
{
    assert forall|i: int| 0 <= i < a.len() && 0 <= i < b.len() implies a[i] == b[i] by {
        lemma_same_prefix(a, b, i);
    }
    lemma_no_extra(a, b);
    lemma_no_extra(b, a);
    assert(a =~= b);
}

proof fn lemma_same_prefix(a: Seq<(Position, Star)>, b: Seq<(Position, Star)>, i: int)
    requires
        sorted_keys(a),
        sorted_keys(b),
        map_of(a) == map_of(b),
        0 <= i < a.len(),
        0 <= i < b.len(),
    ensures
        forall|k: int| 0 <= k <= i ==> a[k] == b[k],
    decreases i,
{
    if i > 0 {
        lemma_same_prefix(a, b, i - 1);
    }
    lemma_map_of_at(a, i);
    lemma_map_of_at(b, i);
    let pa = a[i].0;
    let pb = b[i].0;
    // where a's i-th key sits in b, and b's i-th key in a
    let j = choose|j: int| 0 <= j < b.len() && b[j].0 == pa;
    let k = choose|k: int| 0 <= k < a.len() && a[k].0 == pb;
    if j < i {
        assert(a[j] == b[j]);
        assert(pos_lt(a[j].0, a[i].0));
    } else if j > i {
        assert(pos_lt(pb, pa));
        if k < i {
            assert(a[k] == b[k]);
            assert(pos_lt(b[k].0, b[i].0));
        } else if k > i {
            assert(pos_lt(pa, a[k].0));
        }
    }
    lemma_map_of_at(b, j);
    assert(a[i] == b[i]);
}

proof fn lemma_no_extra(a: Seq<(Position, Star)>, b: Seq<(Position, Star)>)
    requires
        sorted_keys(a),
        sorted_keys(b),
        map_of(a) == map_of(b),
    ensures
        b.len() <= a.len(),
{
    if a.len() < b.len() {
        let n = a.len() as int;
        lemma_map_of_at(b, n);
        let k = choose|k: int| 0 <= k < a.len() && a[k].0 == b[n].0;
        lemma_same_prefix(a, b, k);
        assert(pos_lt(b[k].0, b[n].0));
    }
}

/// Two galaxies holding the same stars at the same positions list them in
/// the same order.
pub proof fn lemma_same_stars_same_order(a: &Galaxy, b: &Galaxy)
    requires
        a.wf(),
        b.wf(),
        a@ == b@,
    ensures
        a.entries() == b.entries(),
{
    lemma_same_map_same_seq(a.entries(), b.entries());
}

/// Two stars put at one position leave one entry there: the later star.
pub proof fn lemma_collision_keeps_later(
    stars: Map<Position, Star>,
    position: Position,
    first: Star,
    second: Star,
)
    ensures
        stars.insert(position, first).insert(position, second) == stars.insert(position, second),
        stars.insert(position, first).insert(position, second)[position] == second,
        stars.insert(position, first).insert(position, second).dom() == stars.dom().insert(
            position,
        ),
{
    assert(stars.insert(position, first).insert(position, second) =~= stars.insert(
        position,
        second,
    ));
}

} // verus!
