//! The item index: collectible items, each at a point and worth a score.
//! Every item keeps its own slot for good; consuming it empties the slot, so
//! no index ever comes to name another item.
use vstd::prelude::*;

use crate::geometry::{dist_sq, distance_sq, within, Pos, Position};

verus! {

/// Distance below which the player reaches an item.
pub const PICKUP_THRESHOLD: u64 = 8;

/// A collectible item.
#[derive(Clone, Copy, Debug, PartialEq, Eq, Structural)]
pub struct Dot {
    pub pos: Pos,
    pub score: u32,
}

impl Position for Dot {
    open spec fn spec_pos(&self) -> Pos {
        self.pos
    }

    fn get_pos(&self) -> (r: Pos) {
        self.pos
    }
}

/// Whether no item occurs twice in `s`.
pub open spec fn distinct(s: Seq<Dot>) -> bool {
    forall|i: int, j: int| 0 <= i < j < s.len() ==> s[i] != s[j]
}

/// Squared distance from the item in slot `i` to `p`; nothing for an empty
/// slot.
pub open spec fn slot_dist(s: Seq<Option<Dot>>, p: Pos, i: int) -> int {
    match s[i] {
        Some(d) => dist_sq(d.pos, p),
        None => 0,
    }
}

/// Whether slot `i` holds an item nearest to `p` among the items still
/// there, the first such slot where several are equally near.
pub open spec fn is_nearest_item(s: Seq<Option<Dot>>, p: Pos, i: int) -> bool {
    &&& 0 <= i < s.len()
    &&& s[i] is Some
    &&& forall|j: int|
        0 <= j < s.len() && #[trigger] s[j] is Some ==> slot_dist(s, p, i) <= slot_dist(s, p, j)
    &&& forall|j: int| 0 <= j < i && #[trigger] s[j] is Some ==> slot_dist(s, p, i) < slot_dist(s, p, j)
}

/// How many slots still hold an item.
pub open spec fn full_count(s: Seq<Option<Dot>>) -> nat
    decreases s.len(),
{
    if s.len() == 0 {
        0
    } else {
        full_count(s.drop_last()) + if s.last() is Some {
            1nat
        } else {
            0nat
        }
    }
}

/// The slot that a consumption at `p` with threshold `t` empties: that of
/// the nearest item, when it lies strictly within `t`.
pub open spec fn consumed_slot(s: Seq<Option<Dot>>, p: Pos, t: int) -> Option<int> {
    if exists|i: int| is_nearest_item(s, p, i) {
        let i = choose|i: int| is_nearest_item(s, p, i);
        if within(s[i]->0.pos, p, t) {
            Some(i)
        } else {
            None
        }
    } else {
        None
    }
}

/// Why a list of items cannot be made into an item index.
#[derive(Clone, Copy, Debug, PartialEq, Eq, Structural)]
pub enum ItemError {
    /// The same item, at the same point with the same score, occurs twice.
    Duplicate,
}

/// One slot per item created, in order of creation; a consumed item leaves
/// its slot empty.
pub struct DotMap {
    pub dots: Vec<Option<Dot>>,
}

/// There is at most one nearest item.
pub proof fn lemma_nearest_item_unique(s: Seq<Option<Dot>>, p: Pos, i: int, j: int)
    requires
        is_nearest_item(s, p, i),
        is_nearest_item(s, p, j),
    ensures
        i == j,
{
    if i < j {
        assert(s[i] is Some);
    } else if j < i {
        assert(s[j] is Some);
    }
}

proof fn lemma_full_count_bound(s: Seq<Option<Dot>>)
    ensures
        full_count(s) <= s.len(),
    decreases s.len(),
{
    if s.len() > 0 {
        lemma_full_count_bound(s.drop_last());
    }
}

proof fn lemma_full_count_take(s: Seq<Option<Dot>>, k: int)
    requires
        0 <= k < s.len(),
        s[k] is Some,
    ensures
        full_count(s.update(k, None)) + 1 == full_count(s),
    decreases s.len(),
{
    let r = s.update(k, None);
    if k == s.len() - 1 {
        assert(r.drop_last() =~= s.drop_last());
    } else {
        assert(r.drop_last() =~= s.drop_last().update(k, None));
        lemma_full_count_take(s.drop_last(), k);
    }
}

impl DotMap {
    /// Builds an item index with one full slot per item, refusing a list in
    /// which an item occurs twice.
    pub fn new(dots: Vec<Dot>) -> (r: Result<DotMap, ItemError>)
        ensures
            r is Ok <==> distinct(dots@),
            r == Err::<DotMap, ItemError>(ItemError::Duplicate) <==> !distinct(dots@),
            r matches Ok(m) ==> m.dots.len() == dots.len() && forall|i: int|
                0 <= i < dots.len() ==> #[trigger] m.dots@[i] == Some(dots@[i]),
    {
        let len: usize = dots.len();
        let mut slots: Vec<Option<Dot>> = Vec::new();
        let mut j: usize = 0;
        while j < len
            invariant
                len == dots.len(),
                0 <= j <= len,
                forall|a: int, b: int| 0 <= a < b < j ==> dots@[a] != dots@[b],
                slots.len() == j,
                forall|a: int| 0 <= a < j ==> #[trigger] slots@[a] == Some(dots@[a]),
            decreases len - j,
        {
            let mut i: usize = 0;
            while i < j
                invariant
                    len == dots.len(),
                    0 <= i <= j < len,
                    forall|a: int| 0 <= a < i ==> dots@[a] != dots@[j as int],
                decreases j - i,
            {
                if dots[i] == dots[j] {
                    return Err(ItemError::Duplicate);
                }
                i += 1;
            }
            slots.push(Some(dots[j]));
            j += 1;
        }
        Ok(DotMap { dots: slots })
    }

    /// How many items are left.
    pub fn len(&self) -> (r: usize)
        ensures
            r == full_count(self.dots@),
    {
        let mut count: usize = 0;
        let mut i: usize = 0;
        while i < self.dots.len()
            invariant
                0 <= i <= self.dots.len(),
                count == full_count(self.dots@.subrange(0, i as int)),
            decreases self.dots.len() - i,
        {
            proof {
                let s = self.dots@.subrange(0, i + 1);
                assert(s.drop_last() =~= self.dots@.subrange(0, i as int));
                lemma_full_count_bound(self.dots@.subrange(0, i as int));
            }
            if self.dots[i].is_some() {
                count += 1;
            }
            i += 1;
        }
        assert(self.dots@.subrange(0, i as int) =~= self.dots@);
        count
    }

    /// The slot of the item nearest to `pos` and its squared distance, the
    /// first of equally near items; none when no item is left.
    pub fn get_nearest_node(&self, pos: Pos) -> (r: Option<(usize, u128)>)
        ensures
            r is None <==> forall|j: int| 0 <= j < self.dots.len() ==> #[trigger] self.dots@[j] is None,
            r matches Some((i, d)) ==> is_nearest_item(self.dots@, pos, i as int) && d
                == slot_dist(self.dots@, pos, i as int),
    {
        let s = &self.dots;
        let mut best: Option<(usize, u128)> = None;
        let mut i: usize = 0;
        while i < s.len()
            invariant
                0 <= i <= s.len(),
                best is None <==> forall|j: int| 0 <= j < i ==> #[trigger] s@[j] is None,
                best matches Some((k, d)) ==> {
                    &&& k < i
                    &&& s@[k as int] is Some
                    &&& d == slot_dist(s@, pos, k as int)
                    &&& forall|j: int|
                        0 <= j < i && #[trigger] s@[j] is Some ==> slot_dist(s@, pos, k as int)
                            <= slot_dist(s@, pos, j)
                    &&& forall|j: int|
                        0 <= j < k && #[trigger] s@[j] is Some ==> slot_dist(s@, pos, k as int)
                            < slot_dist(s@, pos, j)
                },
            decreases s.len() - i,
        {
            if let Some(dot) = &s[i] {
                let d: u128 = distance_sq(dot.pos, pos);
                match best {
                    None => {
                        best = Some((i, d));
                    },
                    Some((_k, bd)) => {
                        if d < bd {
                            best = Some((i, d));
                        }
                    },
                }
            }
            i += 1;
        }
        best
    }

    /// Takes the item nearest to `pos` when it lies strictly within
    /// `threshold`: its slot becomes empty, every other slot stays as it
    /// was, and its score is returned. Otherwise nothing changes and none is
    /// returned.
    pub fn consume_nearest(&mut self, pos: Pos, threshold: u64) -> (r: Option<u32>)
        ensures
            match consumed_slot(old(self).dots@, pos, threshold as int) {
                Some(k) => r == Some(old(self).dots@[k]->0.score) && final(self).dots@ == old(
                    self,
                ).dots@.update(k, None),
                None => r is None && final(self).dots@ == old(self).dots@,
            },
    {
        match self.get_nearest_node(pos) {
            None => {
                assert(forall|i: int| !is_nearest_item(self.dots@, pos, i));
                None
            },
            Some((i, d)) => {
                proof {
                    assert forall|j: int| is_nearest_item(self.dots@, pos, j) implies j == i by {
                        lemma_nearest_item_unique(self.dots@, pos, i as int, j);
                    }
                }
                let t: u128 = threshold as u128;
                assert(t * t <= 0xFFFF_FFFF_FFFF_FFFE_0000_0000_0000_0001) by (nonlinear_arith)
                    requires
                        t <= 0xFFFF_FFFF_FFFF_FFFF,
                ;
                if d < t * t {
                    let dot: Option<Dot> = self.dots[i];
                    self.dots.set(i, None);
                    match dot {
                        Some(x) => Some(x.score),
                        None => None,
                    }
                } else {
                    None
                }
            },
        }
    }
}

/// A consumption takes exactly one item: the slot it empties held an item,
/// every other slot is kept, and the count of items left drops by one.
pub proof fn lemma_consumption_takes_one(s: Seq<Option<Dot>>, p: Pos, t: int)
    requires
        consumed_slot(s, p, t) is Some,
    ensures
        ({
            let k = consumed_slot(s, p, t)->0;
            &&& 0 <= k < s.len()
            &&& s[k] is Some
            &&& s.update(k, None)[k] is None
            &&& forall|j: int| 0 <= j < s.len() && j != k ==> #[trigger] s.update(k, None)[j] == s[j]
            &&& full_count(s.update(k, None)) + 1 == full_count(s)
        }),
{
    let k = consumed_slot(s, p, t)->0;
    lemma_full_count_take(s, k);
}

/// A consumed item is gone for good: an empty slot is never chosen by a
/// consumption, at any point and with any threshold, and stays empty after
/// it.
pub proof fn lemma_empty_slot_stays_empty(s: Seq<Option<Dot>>, k: int, p: Pos, t: int)
    requires
        0 <= k < s.len(),
        s[k] is None,
    ensures
        consumed_slot(s, p, t) != Some(k),
        consumed_slot(s, p, t) matches Some(j) ==> s.update(j, None)[k] is None,
{
}

} // verus!
