//! The navigation graph: a fixed, ordered table of nodes, each at a point of
//! the plane and with a passage to a neighbour node in some directions.
use vstd::prelude::*;

use crate::entity::Direction;
use crate::geometry::{dist_sq, distance_sq, is_nearest, nearest_of, Pos, Position};

verus! {

/// A vertex of the navigation graph. A neighbour is given by its index in
/// the graph; `None` means there is no passage that way.
#[derive(Clone, Copy, Debug, PartialEq, Eq, Structural)]
pub struct Node {
    pub pos: Pos,
    pub up: Option<usize>,
    pub down: Option<usize>,
    pub left: Option<usize>,
    pub right: Option<usize>,
}

impl Node {
    /// The neighbour reached from this node going `d`; none going nowhere.
    pub open spec fn spec_neighbor(self, d: Direction) -> Option<usize> {
        match d {
            Direction::Up => self.up,
            Direction::Down => self.down,
            Direction::Left => self.left,
            Direction::Right => self.right,
            Direction::Stop => None,
        }
    }

    pub fn neighbor(&self, d: Direction) -> (r: Option<usize>)
        ensures
            r == self.spec_neighbor(d),
    {
        match d {
            Direction::Up => self.up,
            Direction::Down => self.down,
            Direction::Left => self.left,
            Direction::Right => self.right,
            Direction::Stop => None,
        }
    }
}

impl Position for Node {
    open spec fn spec_pos(&self) -> Pos {
        self.pos
    }

    fn get_pos(&self) -> (r: Pos) {
        self.pos
    }
}

/// An ordered collection of nodes; indices never change.
pub struct NodeMap {
    pub nodes: Vec<Node>,
}

/// Why a table of nodes cannot be made into a navigation graph.
#[derive(Clone, Copy, Debug, PartialEq, Eq, Structural)]
pub enum GraphError {
    /// There are no nodes.
    Empty,
    /// A node names a neighbour index that is not in the table.
    DanglingLink,
}

impl NodeMap {
    /// Squared Euclidean distance from node `node` to `pos`.
    pub fn calc_distance(&self, node: usize, pos: Pos) -> (r: u128)
        requires
            node < self.nodes.len(),
        ensures
            r == dist_sq(self.nodes@[node as int].spec_pos(), pos),
    {
        distance_sq(self.nodes[node].get_pos(), pos)
    }

    /// The node nearest to `pos` and its squared distance; of equally near
    /// nodes, the one that comes first. There must be at least one node.
    pub fn get_nearest_node(&self, pos: Pos) -> (r: (usize, u128))
        requires
            self.nodes.len() > 0,
        ensures
            is_nearest(self.nodes@, pos, r.0 as int),
            r.1 == dist_sq(self.nodes@[r.0 as int].spec_pos(), pos),
    {
        nearest_of(&self.nodes, pos)
    }
}

/// Whether every neighbour named in `nodes` is an index of `nodes`.
pub open spec fn links_in_range(nodes: Seq<Node>) -> bool {
    forall|i: int, d: Direction|
        0 <= i < nodes.len() ==> link_ok(#[trigger] nodes[i].spec_neighbor(d), nodes.len())
}

/// Whether a passage, if there is one, leads to an index below `len`.
pub open spec fn link_ok(link: Option<usize>, len: nat) -> bool {
    match link {
        Some(k) => k < len,
        None => true,
    }
}

/// Whether `n` names only neighbours below `len`.
pub open spec fn node_links_below(n: Node, len: nat) -> bool {
    forall|d: Direction| link_ok(#[trigger] n.spec_neighbor(d), len)
}

fn link_below(link: Option<usize>, len: usize) -> (r: bool)
    ensures
        r == link_ok(link, len as nat),
{
    match link {
        Some(k) => k < len,
        None => true,
    }
}

impl NodeMap {
    /// A navigation graph is well formed when it has a node and every
    /// passage leads to a node of it.
    pub open spec fn wf(&self) -> bool {
        self.nodes.len() > 0 && links_in_range(self.nodes@)
    }

    /// Builds a navigation graph from a table of nodes, refusing an empty
    /// table and one with a passage to a node it does not hold.
    pub fn new(nodes: Vec<Node>) -> (r: Result<NodeMap, GraphError>)
        ensures
            nodes.len() == 0 <==> r == Err::<NodeMap, GraphError>(GraphError::Empty),
            r == Err::<NodeMap, GraphError>(GraphError::DanglingLink) <==> (nodes.len() > 0
                && !links_in_range(nodes@)),
            r is Ok <==> (nodes.len() > 0 && links_in_range(nodes@)),
            r matches Ok(m) ==> m.nodes@ == nodes@ && m.wf(),
    {
        let len: usize = nodes.len();
        if len == 0 {
            return Err(GraphError::Empty);
        }
        let mut i: usize = 0;
        while i < len
            invariant
                len == nodes.len(),
                0 <= i <= len,
                forall|j: int| 0 <= j < i ==> node_links_below(#[trigger] nodes@[j], len as nat),
            decreases len - i,
        {
            let n: Node = nodes[i];
            if !(link_below(n.up, len) && link_below(n.down, len) && link_below(n.left, len)
                && link_below(n.right, len)) {
                assert(!node_links_below(nodes@[i as int], len as nat)) by {
                    if !link_ok(n.up, len as nat) {
                        assert(!link_ok(n.spec_neighbor(Direction::Up), len as nat));
                    } else if !link_ok(n.down, len as nat) {
                        assert(!link_ok(n.spec_neighbor(Direction::Down), len as nat));
                    } else if !link_ok(n.left, len as nat) {
                        assert(!link_ok(n.spec_neighbor(Direction::Left), len as nat));
                    } else {
                        assert(!link_ok(n.spec_neighbor(Direction::Right), len as nat));
                    }
                };
                assert(!links_in_range(nodes@));
                return Err(GraphError::DanglingLink);
            }
            assert(node_links_below(n, len as nat)) by {
                assert forall|d: Direction| link_ok(#[trigger] n.spec_neighbor(d), len as nat) by {
                    match d {
                        Direction::Up => {},
                        Direction::Down => {},
                        Direction::Left => {},
                        Direction::Right => {},
                        Direction::Stop => {},
                    }
                }
            };
            i += 1;
        }
        Ok(NodeMap { nodes })
    }

    /// The neighbour of node `node` in direction `d`, if there is a passage.
    pub fn neighbor(&self, node: usize, d: Direction) -> (r: Option<usize>)
        requires
            node < self.nodes.len(),
        ensures
            r == self.nodes@[node as int].spec_neighbor(d),
            self.wf() ==> (r matches Some(k) ==> k < self.nodes.len()),
    {
        self.nodes[node].neighbor(d)
    }
}

} // verus!
