//! One simulation tick over the whole game state: a direction request for
//! the player, motion and resync of every actor, and the player's
//! consumption of items with the score it brings.
use vstd::prelude::*;

use crate::dots::{consumed_slot, DotMap, PICKUP_THRESHOLD};
use crate::entity::{advance, Direction, Entity};
use crate::map::{Node, NodeMap};

verus! {

/// The score counters: the player's, the best so far, and a second
/// player's.
#[derive(Clone, Copy, Debug, PartialEq, Eq, Structural)]
pub struct Score {
    pub one_up: u32,
    pub high: u32,
    pub two_up: u32,
}

/// `a + b`, held at `u32::MAX`.
pub open spec fn sat_add(a: u32, b: u32) -> u32 {
    if a + b > u32::MAX {
        u32::MAX
    } else {
        (a + b) as u32
    }
}

/// The counters after the player gains `gained`: the player's score grows
/// by it, and the best score follows the player's when that passes it.
pub open spec fn scored(s: Score, gained: Option<u32>) -> Score {
    let one_up = match gained {
        Some(g) => sat_add(s.one_up, g),
        None => s.one_up,
    };
    Score { one_up, high: if one_up > s.high { one_up } else { s.high }, two_up: s.two_up }
}

/// The actors after the player's direction request, if any.
pub open spec fn after_request(
    entities: Seq<Entity>,
    player: int,
    nodes: Seq<Node>,
    request: Option<Direction>,
) -> Seq<Entity> {
    match request {
        Some(d) => entities.update(player, entities[player].directed(nodes, d)),
        None => entities,
    }
}

/// A direction request takes effect before the same tick's motion: when it
/// is granted the player moves along the new direction at once, and when it
/// is refused the tick runs as if no request had been made.
pub proof fn lemma_request_before_motion(
    entities: Seq<Entity>,
    player: int,
    nodes: Seq<Node>,
    d: Direction,
)
    requires
        0 <= player < entities.len(),
    ensures
        ({
            let e = entities[player];
            let after = after_request(entities, player, nodes, Some(d))[player].stepped(nodes);
            &&& e.accepts(nodes, d) ==> after.direction == d && after.pos == advance(
                e.pos,
                d,
                e.speed,
            )
            &&& !e.accepts(nodes, d) ==> after_request(entities, player, nodes, Some(d))
                =~= entities
        }),
{
}

/// The state that one tick works on.
pub struct App {
    pub map: NodeMap,
    pub entities: Vec<Entity>,
    pub player: usize,
    pub dots: DotMap,
    pub score: Score,
}

impl App {
    /// The graph is well formed, and the player is one of the actors.
    pub open spec fn wf(&self) -> bool {
        &&& self.map.wf()
        &&& self.player < self.entities.len()
    }

    pub fn new(map: NodeMap, entities: Vec<Entity>, player: usize, dots: DotMap) -> (r:
        App)
        requires
            map.wf(),
            player < entities.len(),
        ensures
            r.wf(),
            r.map.nodes@ == map.nodes@,
            r.entities@ == entities@,
            r.player == player,
            r.dots.dots@ == dots.dots@,
            r.score == (Score { one_up: 0, high: 0, two_up: 0 }),
    {
        App { map, entities, player, dots, score: Score { one_up: 0, high: 0, two_up: 0 } }
    }

    /// Adds `gained` to the player's score and raises the best score to it.
    pub fn add_score(&mut self, gained: Option<u32>)
        ensures
            final(self).score == scored(old(self).score, gained),
            final(self).map == old(self).map,
            final(self).entities == old(self).entities,
            final(self).player == old(self).player,
            final(self).dots == old(self).dots,
    {
        if let Some(g) = gained {
            self.score.one_up = self.score.one_up.saturating_add(g);
        }
        if self.score.one_up > self.score.high {
            self.score.high = self.score.one_up;
        }
    }

    /// Asks the player to face `d`; returns whether the request was granted.
    /// Only the player's direction can change.
    pub fn entities_update(&mut self, d: Direction) -> (r: bool)
        requires
            old(self).wf(),
        ensures
            final(self).wf(),
            r == old(self).entities@[old(self).player as int].accepts(old(self).map.nodes@, d),
            final(self).entities@ == after_request(
                old(self).entities@,
                old(self).player as int,
                old(self).map.nodes@,
                Some(d),
            ),
            final(self).map == old(self).map,
            final(self).player == old(self).player,
            final(self).dots == old(self).dots,
            final(self).score == old(self).score,
    {
        let mut p: Entity = self.entities[self.player];
        let r = p.change_direction(&self.map, d);
        self.entities.set(self.player, p);
        r
    }

    /// Runs one tick: applies the player's direction request, if any, moves
    /// and resyncs every actor, lets the player consume the nearest item
    /// within reach, and adds its score. Returns the score gained.
    pub fn update(&mut self, request: Option<Direction>) -> (gained: Option<u32>)
        requires
            old(self).wf(),
        ensures
            final(self).wf(),
            final(self).map.nodes@ == old(self).map.nodes@,
            final(self).player == old(self).player,
            final(self).entities.len() == old(self).entities.len(),
            forall|i: int|
                0 <= i < old(self).entities.len() ==> #[trigger] final(self).entities@[i]
                    == after_request(
                    old(self).entities@,
                    old(self).player as int,
                    old(self).map.nodes@,
                    request,
                )[i].stepped(old(self).map.nodes@),
            match consumed_slot(
                old(self).dots.dots@,
                final(self).entities@[old(self).player as int].pos,
                PICKUP_THRESHOLD as int,
            ) {
                Some(k) => gained == Some(old(self).dots.dots@[k]->0.score)
                    && final(self).dots.dots@ == old(self).dots.dots@.update(k, None),
                None => gained is None && final(self).dots.dots@ == old(self).dots.dots@,
            },
            final(self).score == scored(old(self).score, gained),
    {
        if let Some(d) = request {
            self.entities_update(d);
        }
        let ghost directed = self.entities@;
        assert(directed == after_request(
            old(self).entities@,
            old(self).player as int,
            old(self).map.nodes@,
            request,
        ));
        let mut i: usize = 0;
        while i < self.entities.len()
            invariant
                self.map == old(self).map,
                self.dots == old(self).dots,
                self.player == old(self).player,
                self.score == old(self).score,
                self.map.wf(),
                self.entities.len() == directed.len(),
                0 <= i <= self.entities.len(),
                forall|j: int|
                    0 <= j < i ==> #[trigger] self.entities@[j] == directed[j].stepped(
                        self.map.nodes@,
                    ),
                forall|j: int| i <= j < directed.len() ==> #[trigger] self.entities@[j] == directed[j],
            decreases self.entities.len() - i,
        {
            let mut e: Entity = self.entities[i];
            e.tick(&self.map);
            self.entities.set(i, e);
            i += 1;
        }
        let pos = self.entities[self.player].pos;
        let gained = self.dots.consume_nearest(pos, PICKUP_THRESHOLD);
        self.add_score(gained);
        gained
    }
}

} // verus!
