//! Actors: things that move through the plane along the navigation graph.
use vstd::prelude::*;

use crate::geometry::{
    dist_sq, is_nearest, lemma_nearest_exists, lemma_nearest_unique, within, Pos, Position,
};
use crate::map::{Node, NodeMap};

verus! {

/// A facing direction; `Stop` stands still.
#[derive(Clone, Copy, Debug, PartialEq, Eq, Structural)]
pub enum Direction {
    Up,
    Down,
    Left,
    Right,
    Stop,
}

/// Distance below which an actor counts as standing on a node.
pub const SNAP_THRESHOLD: u64 = 3;

/// One step's displacement along each axis when facing `d`.
pub open spec fn dir_vec(d: Direction) -> (int, int) {
    match d {
        Direction::Up => (0, -1),
        Direction::Down => (0, 1),
        Direction::Left => (-1, 0),
        Direction::Right => (1, 0),
        Direction::Stop => (0, 0),
    }
}

/// A coordinate held to the range of `i32`.
pub open spec fn clamp_coord(v: int) -> i32 {
    if v < i32::MIN {
        i32::MIN
    } else if v > i32::MAX {
        i32::MAX
    } else {
        v as i32
    }
}

/// Where one tick at `speed` facing `d` takes `p`; a coordinate stops at the
/// edge of the `i32` range.
pub open spec fn advance(p: Pos, d: Direction, speed: u32) -> Pos {
    Pos {
        x: clamp_coord(p.x + dir_vec(d).0 * speed),
        y: clamp_coord(p.y + dir_vec(d).1 * speed),
    }
}

/// The node that an actor at `p` is associated with: the nearest node, when
/// it lies strictly within the snap threshold.
pub open spec fn snap_node(nodes: Seq<Node>, p: Pos) -> Option<usize> {
    if exists|i: int| is_nearest(nodes, p, i) {
        let i = choose|i: int| is_nearest(nodes, p, i);
        if within(nodes[i].pos, p, SNAP_THRESHOLD as int) {
            Some(i as usize)
        } else {
            None
        }
    } else {
        None
    }
}

/// The snap boundary is strict: an actor is associated with a node exactly
/// when some node lies strictly within the snap threshold, so one at exactly
/// the threshold from every node is unassociated, and one that comes any
/// nearer to a node than that is associated, with a node that near.
pub proof fn lemma_snap_boundary(nodes: Seq<Node>, p: Pos)
    requires
        0 < nodes.len() <= usize::MAX,
    ensures
        snap_node(nodes, p) is Some <==> exists|j: int|
            0 <= j < nodes.len() && within(#[trigger] nodes[j].pos, p, SNAP_THRESHOLD as int),
        (forall|j: int| 0 <= j < nodes.len() ==> dist_sq(#[trigger] nodes[j].pos, p) >= 9)
            ==> snap_node(nodes, p) is None,
        snap_node(nodes, p) matches Some(i) ==> i < nodes.len() && within(
            nodes[i as int].pos,
            p,
            SNAP_THRESHOLD as int,
        ),
{
    lemma_nearest_exists(nodes, p);
    let i = choose|i: int| is_nearest(nodes, p, i);
    if exists|j: int|
        0 <= j < nodes.len() && within(#[trigger] nodes[j].pos, p, SNAP_THRESHOLD as int) {
        let j = choose|j: int|
            0 <= j < nodes.len() && within(#[trigger] nodes[j].pos, p, SNAP_THRESHOLD as int);
        assert(dist_sq(nodes[i].spec_pos(), p) <= dist_sq(nodes[j].spec_pos(), p));
    }
    assert(is_nearest(nodes, p, i));
}

/// A granted request to face `d` sets the direction that the next tick moves
/// along; a refused one leaves the actor, and so its next tick, as they were.
pub proof fn lemma_direction_then_motion(e: Entity, nodes: Seq<Node>, d: Direction)
    ensures
        e.accepts(nodes, d) ==> e.directed(nodes, d).direction == d && e.directed(
            nodes,
            d,
        ).moved().pos == advance(e.pos, d, e.speed),
        !e.accepts(nodes, d) ==> e.directed(nodes, d) == e && e.directed(nodes, d).moved()
            == e.moved(),
{
}

/// A thing that moves through the plane: where it is, where it faces, how
/// far it goes per tick, and the graph node it stands on, if any.
#[derive(Clone, Copy, Debug, PartialEq, Eq, Structural)]
pub struct Entity {
    pub pos: Pos,
    pub direction: Direction,
    pub speed: u32,
    pub node: Option<usize>,
}

impl Entity {
    /// This actor after one tick's motion.
    pub open spec fn moved(self) -> Entity {
        Entity { pos: advance(self.pos, self.direction, self.speed), ..self }
    }

    /// This actor with its association recomputed against `nodes`.
    pub open spec fn resynced(self, nodes: Seq<Node>) -> Entity {
        Entity { node: snap_node(nodes, self.pos), ..self }
    }

    /// This actor after a whole tick: motion, then resync.
    pub open spec fn stepped(self, nodes: Seq<Node>) -> Entity {
        self.moved().resynced(nodes)
    }

    /// Whether a request to face `d` is granted: the actor stands on a node
    /// of the graph that has a passage in direction `d`.
    pub open spec fn accepts(self, nodes: Seq<Node>, d: Direction) -> bool {
        match self.node {
            Some(n) => n < nodes.len() && nodes[n as int].spec_neighbor(d) is Some,
            None => false,
        }
    }

    /// This actor after a request to face `d`.
    pub open spec fn directed(self, nodes: Seq<Node>, d: Direction) -> Entity {
        if self.accepts(nodes, d) {
            Entity { direction: d, ..self }
        } else {
            self
        }
    }

    /// Associates this actor with node `node`.
    pub fn change_node(&mut self, node: usize)
        ensures
            *final(self) == (Entity { node: Some(node), ..*old(self) }),
    {
        self.node = Some(node);
    }

    /// Moves this actor one tick's worth along its direction.
    pub fn update_pos(&mut self)
        ensures
            *final(self) == old(self).moved(),
    {
        let s: i64 = self.speed as i64;
        let (dx, dy): (i64, i64) = match self.direction {
            Direction::Up => (0, -s),
            Direction::Down => (0, s),
            Direction::Left => (-s, 0),
            Direction::Right => (s, 0),
            Direction::Stop => (0, 0),
        };
        assert(dx == dir_vec(self.direction).0 * self.speed && dy == dir_vec(self.direction).1
            * self.speed);
        let x: i32 = shift(self.pos.x, dx);
        let y: i32 = shift(self.pos.y, dy);
        self.pos = Pos { x, y };
        assert(self.pos == advance(old(self).pos, old(self).direction, old(self).speed));
    }

    /// Recomputes the node this actor stands on from where it is now.
    /// Returns whether the association changed.
    pub fn resync(&mut self, map: &NodeMap) -> (changed: bool)
        requires
            map.wf(),
        ensures
            *final(self) == old(self).resynced(map.nodes@),
            changed == (final(self).node != old(self).node),
    {
        let (i, d) = map.get_nearest_node(self.pos);
        proof {
            assert forall|j: int| is_nearest(map.nodes@, old(self).pos, j) implies j == i by {
                lemma_nearest_unique(map.nodes@, old(self).pos, i as int, j);
            }
        }
        let old_node = self.node;
        let t: u128 = SNAP_THRESHOLD as u128;
        if d < t * t {
            self.node = Some(i);
        } else {
            self.node = None;
        }
        !opt_eq(old_node, self.node)
    }

    /// Asks this actor to face `d`. Granted only while it stands on a node
    /// with a passage that way; otherwise nothing changes.
    pub fn change_direction(&mut self, map: &NodeMap, d: Direction) -> (r: bool)
        ensures
            r == old(self).accepts(map.nodes@, d),
            *final(self) == old(self).directed(map.nodes@, d),
            r ==> final(self).direction == d,
            !r ==> *final(self) == *old(self),
    {
        match self.node {
            Some(n) => {
                if n < map.nodes.len() && map.neighbor(n, d).is_some() {
                    self.direction = d;
                    true
                } else {
                    false
                }
            },
            None => false,
        }
    }

    /// One tick of this actor: motion, then resync against `map`. Returns
    /// whether the association changed.
    pub fn tick(&mut self, map: &NodeMap) -> (changed: bool)
        requires
            map.wf(),
        ensures
            *final(self) == old(self).stepped(map.nodes@),
            changed == (final(self).node != old(self).node),
    {
        self.update_pos();
        self.resync(map)
    }
}

fn opt_eq(a: Option<usize>, b: Option<usize>) -> (r: bool)
    ensures
        r == (a == b),
{
    match (a, b) {
        (Some(x), Some(y)) => x == y,
        (None, None) => true,
        _ => false,
    }
}

/// `c + delta`, held to the range of `i32`.
fn shift(c: i32, delta: i64) -> (r: i32)
    requires
        -0x1_0000_0000 <= delta <= 0x1_0000_0000,
    ensures
        r == clamp_coord(c + delta),
{
    let v: i64 = c as i64 + delta;
    if v < i32::MIN as i64 {
        i32::MIN
    } else if v > i32::MAX as i64 {
        i32::MAX
    } else {
        v as i32
    }
}

} // verus!
