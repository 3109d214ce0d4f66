//! Integer plane geometry: positions, directions and exact squared distances.
//!
//! Distances are reported squared so that they stay exact in integers; a
//! threshold `t` on the true distance is met exactly when the squared
//! distance is below `t * t`.
use vstd::prelude::*;

verus! {

/// A point of the plane, in whole distance units. `y` grows downwards, as on
/// a screen.
#[derive(Clone, Copy, Debug, PartialEq, Eq, Structural)]
pub struct Pos {
    pub x: i32,
    pub y: i32,
}

/// Anything that stands at a point of the plane.
pub trait Position {
    spec fn spec_pos(&self) -> Pos;

    fn get_pos(&self) -> (r: Pos)
        ensures
            r == self.spec_pos(),
    ;
}

/// Squared Euclidean distance between two points.
pub open spec fn dist_sq(a: Pos, b: Pos) -> int {
    (a.x - b.x) * (a.x - b.x) + (a.y - b.y) * (a.y - b.y)
}

/// Whether the true distance between `a` and `b` is strictly below `t`.
pub open spec fn within(a: Pos, b: Pos, t: int) -> bool {
    dist_sq(a, b) < t * t
}

/// Computes the squared Euclidean distance between two points.
pub fn distance_sq(a: Pos, b: Pos) -> (r: u128)
    ensures
        r == dist_sq(a, b),
{
    let dx: i128 = a.x as i128 - b.x as i128;
    let dy: i128 = a.y as i128 - b.y as i128;
    assert(0 <= dx * dx <= 0x1_0000_0000_0000_0000) by (nonlinear_arith)
        requires -0x1_0000_0000 <= dx <= 0x1_0000_0000;
    assert(0 <= dy * dy <= 0x1_0000_0000_0000_0000) by (nonlinear_arith)
        requires -0x1_0000_0000 <= dy <= 0x1_0000_0000;
    (dx * dx + dy * dy) as u128
}

/// Whether `i` is the index of a point of `s` nearest to `p`, the first one
/// in the order of `s` where several are equally near.
pub open spec fn is_nearest<T: Position>(s: Seq<T>, p: Pos, i: int) -> bool {
    &&& 0 <= i < s.len()
    &&& forall|j: int|
        0 <= j < s.len() ==> dist_sq(s[i].spec_pos(), p) <= dist_sq(#[trigger] s[j].spec_pos(), p)
    &&& forall|j: int| 0 <= j < i ==> dist_sq(s[i].spec_pos(), p) < dist_sq(#[trigger] s[j].spec_pos(), p)
}

/// There is at most one nearest index, ties being broken towards the first.
pub proof fn lemma_nearest_unique<T: Position>(s: Seq<T>, p: Pos, i: int, j: int)
    requires
        is_nearest(s, p, i),
        is_nearest(s, p, j),
    ensures
        i == j,
{
    if i < j {
        assert(dist_sq(s[j].spec_pos(), p) < dist_sq(s[i].spec_pos(), p));
    } else if j < i {
        assert(dist_sq(s[i].spec_pos(), p) < dist_sq(s[j].spec_pos(), p));
    }
}

/// A non-empty sequence of points has a nearest one to any point.
pub proof fn lemma_nearest_exists<T: Position>(s: Seq<T>, p: Pos)
    requires
        s.len() > 0,
    ensures
        exists|i: int| is_nearest(s, p, i),
    decreases s.len(),
{
    if s.len() == 1 {
        assert(is_nearest(s, p, 0));
    } else {
        let t = s.drop_last();
        lemma_nearest_exists(t, p);
        let k = choose|k: int| is_nearest(t, p, k);
        assert(forall|j: int| 0 <= j < t.len() ==> #[trigger] t[j] == s[j]);
        let last = s.len() - 1;
        assert forall|j: int| 0 <= j < last implies dist_sq(s[k].spec_pos(), p) <= dist_sq(
            #[trigger] s[j].spec_pos(),
            p,
        ) && (j < k ==> dist_sq(s[k].spec_pos(), p) < dist_sq(s[j].spec_pos(), p)) by {
            assert(t[j] == s[j]);
            assert(t[k] == s[k]);
        }
        if dist_sq(s[last].spec_pos(), p) < dist_sq(s[k].spec_pos(), p) {
            assert(is_nearest(s, p, last));
        } else {
            assert(is_nearest(s, p, k));
        }
    }
}

/// Scans `v` once and returns the index of the point nearest to `p`, with
/// its squared distance; the first such point wins a tie.
pub fn nearest_of<T: Position>(v: &Vec<T>, p: Pos) -> (r: (usize, u128))
    requires
        v.len() > 0,
    ensures
        is_nearest(v@, p, r.0 as int),
        r.1 == dist_sq(v@[r.0 as int].spec_pos(), p),
{
    let mut index: usize = 0;
    let mut shortest: u128 = distance_sq(v[0].get_pos(), p);
    let mut i: usize = 1;
    while i < v.len()
        invariant
            1 <= i <= v.len(),
            is_nearest(v@.subrange(0, i as int), p, index as int),
            shortest == dist_sq(v@[index as int].spec_pos(), p),
        decreases v.len() - i,
    {
        let d: u128 = distance_sq(v[i].get_pos(), p);
        let ghost prev = v@.subrange(0, i as int);
        let ghost next = v@.subrange(0, i + 1);
        assert(forall|j: int| 0 <= j < i ==> #[trigger] next[j] == prev[j]);
        if d < shortest {
            shortest = d;
            index = i;
        }
        i += 1;
    }
    assert(v@.subrange(0, v.len() as int) =~= v@);
    (index, shortest)
}

} // verus!
