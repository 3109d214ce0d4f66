use pacman::app::{App, Score};
use pacman::dots::{Dot, DotMap, ItemError, PICKUP_THRESHOLD};
use pacman::entity::{Direction, Entity, SNAP_THRESHOLD};
use pacman::geometry::{distance_sq, Pos, Position};
use pacman::map::{GraphError, Node, NodeMap};

fn pos(x: i32, y: i32) -> Pos {
    Pos { x, y }
}

fn node(x: i32, y: i32) -> Node {
    Node { pos: pos(x, y), up: None, down: None, left: None, right: None }
}

fn actor(x: i32, y: i32, direction: Direction, node: Option<usize>) -> Entity {
    Entity { pos: pos(x, y), direction, speed: 1, node }
}

fn two_nodes(east: bool) -> NodeMap {
    let mut a = node(0, 0);
    let mut b = node(10, 0);
    if east {
        a.right = Some(1);
        b.left = Some(0);
    }
    NodeMap::new(vec![a, b]).unwrap()
}

#[test]
fn distance_is_squared_euclidean() {
    assert_eq!(distance_sq(pos(0, 0), pos(3, 4)), 25);
    assert_eq!(distance_sq(pos(-2, 5), pos(1, 1)), 25);
    assert_eq!(
        distance_sq(pos(i32::MIN, i32::MIN), pos(i32::MAX, i32::MAX)),
        2 * (u32::MAX as u128) * (u32::MAX as u128)
    );
}

#[test]
fn calc_distance_reads_node() {
    let m = NodeMap::new(vec![node(1, 1), node(4, 5)]).unwrap();
    assert_eq!(m.calc_distance(1, pos(1, 1)), 25);
    assert_eq!(m.nodes[1].get_pos(), pos(4, 5));
}

#[test]
fn nearest_node_is_minimum() {
    let m = NodeMap::new(vec![node(0, 0), node(10, 0), node(20, 20)]).unwrap();
    assert_eq!(m.get_nearest_node(pos(9, 1)), (1, 2));
    assert_eq!(m.get_nearest_node(pos(18, 25)), (2, 29));
    assert_eq!(m.get_nearest_node(pos(-3, 0)), (0, 9));
}

#[test]
fn nearest_node_tie_goes_to_first() {
    let m = NodeMap::new(vec![node(0, 0), node(10, 0), node(5, 0)]).unwrap();
    assert_eq!(m.get_nearest_node(pos(5, 5)), (2, 25));
    let m = NodeMap::new(vec![node(0, 0), node(10, 0)]).unwrap();
    assert_eq!(m.get_nearest_node(pos(5, 0)), (0, 25));
    assert_eq!(m.get_nearest_node(pos(5, 3)), (0, 34));
}

#[test]
fn graph_construction_errors() {
    assert!(matches!(NodeMap::new(vec![]), Err(GraphError::Empty)));
    let mut a = node(0, 0);
    a.up = Some(2);
    assert!(matches!(NodeMap::new(vec![a, node(1, 1)]), Err(GraphError::DanglingLink)));
    a.up = None;
    a.left = Some(usize::MAX);
    assert!(matches!(NodeMap::new(vec![node(1, 1), a]), Err(GraphError::DanglingLink)));
    a.left = None;
    a.up = Some(1);
    let m = NodeMap::new(vec![a, node(1, 1)]).unwrap();
    assert_eq!(m.neighbor(0, Direction::Up), Some(1));
    assert_eq!(m.neighbor(0, Direction::Down), None);
    assert_eq!(m.neighbor(0, Direction::Stop), None);
}

#[test]
fn request_without_passage_is_refused() {
    let m = two_nodes(false);
    let mut e = actor(0, 0, Direction::Stop, Some(0));
    let before = e;
    assert!(!e.change_direction(&m, Direction::Right));
    assert_eq!(e, before);
    e.tick(&m);
    assert_eq!(e.pos, pos(0, 0));
    assert_eq!(e.node, Some(0));
}

#[test]
fn request_with_passage_is_granted() {
    let m = two_nodes(true);
    let mut e = actor(0, 0, Direction::Stop, Some(0));
    assert!(e.change_direction(&m, Direction::Right));
    assert_eq!(e.direction, Direction::Right);
    assert!(!e.tick(&m));
    assert_eq!(e.pos, pos(1, 0));
    assert_eq!(e.node, Some(0));
}

#[test]
fn unassociated_actor_keeps_direction() {
    let m = two_nodes(true);
    let mut e = actor(5, 0, Direction::Left, None);
    assert!(!e.change_direction(&m, Direction::Right));
    assert_eq!(e.direction, Direction::Left);
    let mut stop = actor(0, 0, Direction::Right, Some(0));
    assert!(!stop.change_direction(&m, Direction::Stop));
    assert_eq!(stop.direction, Direction::Right);
}

#[test]
fn snap_threshold_is_strict() {
    let m = NodeMap::new(vec![node(0, 0), node(10, 0)]).unwrap();
    assert_eq!(SNAP_THRESHOLD, 3);
    let mut e = actor(3, 0, Direction::Stop, Some(0));
    assert!(e.resync(&m));
    assert_eq!(e.node, None);
    let mut e = actor(7, 0, Direction::Stop, None);
    e.resync(&m);
    assert_eq!(e.node, None);
    let mut e = actor(2, 2, Direction::Stop, None);
    assert!(e.resync(&m));
    assert_eq!(e.node, Some(0));
    let mut e = actor(8, 0, Direction::Stop, Some(0));
    assert!(e.resync(&m));
    assert_eq!(e.node, Some(1));
}

#[test]
fn motion_follows_direction() {
    let mut e = Entity { pos: pos(10, 10), direction: Direction::Up, speed: 4, node: None };
    e.update_pos();
    assert_eq!(e.pos, pos(10, 6));
    e.direction = Direction::Left;
    e.update_pos();
    assert_eq!(e.pos, pos(6, 6));
    e.direction = Direction::Down;
    e.update_pos();
    assert_eq!(e.pos, pos(6, 10));
    e.direction = Direction::Stop;
    e.update_pos();
    assert_eq!(e.pos, pos(6, 10));
    let mut edge = Entity { pos: pos(i32::MAX - 1, 0), direction: Direction::Right, speed: 5, node: None };
    edge.update_pos();
    assert_eq!(edge.pos, pos(i32::MAX, 0));
    edge.change_node(1);
    assert_eq!(edge.node, Some(1));
}

#[test]
fn item_index_refuses_duplicates() {
    let d = Dot { pos: pos(1, 1), score: 10 };
    assert!(matches!(DotMap::new(vec![d, Dot { pos: pos(2, 2), score: 10 }, d]), Err(ItemError::Duplicate)));
    assert_eq!(DotMap::new(vec![d]).unwrap().len(), 1);
}

#[test]
fn nearest_item_on_empty_index() {
    let m = DotMap::new(vec![]).unwrap();
    assert_eq!(m.get_nearest_node(pos(0, 0)), None);
    let mut m = m;
    assert_eq!(m.consume_nearest(pos(0, 0), PICKUP_THRESHOLD), None);
}

#[test]
fn consume_item_in_reach() {
    let mut m = DotMap::new(vec![Dot { pos: pos(5, 5), score: 10 }]).unwrap();
    assert_eq!(PICKUP_THRESHOLD, 8);
    assert_eq!(m.consume_nearest(pos(5, 5), PICKUP_THRESHOLD), Some(10));
    assert_eq!(m.len(), 0);
}

#[test]
fn item_out_of_reach_stays() {
    let mut m = DotMap::new(vec![Dot { pos: pos(5, 5), score: 10 }]).unwrap();
    assert_eq!(m.consume_nearest(pos(20, 20), PICKUP_THRESHOLD), None);
    assert_eq!(m.len(), 1);
    assert_eq!(m.consume_nearest(pos(13, 5), PICKUP_THRESHOLD), None);
    assert_eq!(m.consume_nearest(pos(12, 5), PICKUP_THRESHOLD), Some(10));
}

#[test]
fn consumed_item_never_returns() {
    let mut m = DotMap::new(vec![
        Dot { pos: pos(0, 0), score: 1 },
        Dot { pos: pos(4, 0), score: 50 },
        Dot { pos: pos(30, 0), score: 7 },
    ])
    .unwrap();
    assert_eq!(m.consume_nearest(pos(4, 0), PICKUP_THRESHOLD), Some(50));
    assert_eq!(m.len(), 2);
    assert_eq!(m.consume_nearest(pos(4, 0), PICKUP_THRESHOLD), Some(1));
    assert_eq!(m.len(), 1);
    assert_eq!(m.consume_nearest(pos(4, 0), PICKUP_THRESHOLD), None);
    assert_eq!(m.len(), 1);
    assert_eq!(m.dots, vec![None, None, Some(Dot { pos: pos(30, 0), score: 7 })]);
}

#[test]
fn consumption_keeps_other_slots() {
    let a = Dot { pos: pos(0, 0), score: 1 };
    let b = Dot { pos: pos(40, 0), score: 2 };
    let mut m = DotMap::new(vec![a, b]).unwrap();
    assert_eq!(m.consume_nearest(pos(1, 0), PICKUP_THRESHOLD), Some(1));
    assert_eq!(m.dots, vec![None, Some(b)]);
    assert_eq!(m.get_nearest_node(pos(0, 0)), Some((1, 1600)));
    assert_eq!(m.consume_nearest(pos(0, 0), PICKUP_THRESHOLD), None);
    assert_eq!(m.consume_nearest(pos(39, 0), PICKUP_THRESHOLD), Some(2));
    assert_eq!(m.dots, vec![None, None]);
    assert_eq!(m.get_nearest_node(pos(0, 0)), None);
    assert_eq!(m.len(), 0);
}

fn game(east: bool, dot_at: Pos) -> App {
    App::new(
        two_nodes(east),
        vec![actor(0, 0, Direction::Stop, Some(0)), actor(10, 0, Direction::Left, Some(1))],
        0,
        DotMap::new(vec![Dot { pos: dot_at, score: 10 }]).unwrap(),
    )
}

#[test]
fn tick_refused_request_keeps_player_still() {
    let mut g = game(false, pos(20, 20));
    assert_eq!(g.update(Some(Direction::Right)), None);
    assert_eq!(g.entities[0].pos, pos(0, 0));
    assert_eq!(g.entities[0].direction, Direction::Stop);
    assert_eq!(g.entities[1].pos, pos(9, 0));
    assert_eq!(g.entities[1].node, Some(1));
}

#[test]
fn tick_granted_request_moves_player() {
    let mut g = game(true, pos(20, 20));
    assert_eq!(g.update(Some(Direction::Right)), None);
    assert_eq!(g.entities[0].pos, pos(1, 0));
    assert_eq!(g.entities[0].node, Some(0));
    assert_eq!(g.dots.len(), 1);
}

#[test]
fn tick_consumes_and_scores() {
    let mut g = game(true, pos(5, 5));
    g.entities[0].pos = pos(5, 5);
    assert_eq!(g.update(None), Some(10));
    assert_eq!(g.dots.len(), 0);
    assert_eq!(g.score, Score { one_up: 10, high: 10, two_up: 0 });
    assert_eq!(g.update(None), None);
    assert_eq!(g.score.one_up, 10);
}

#[test]
fn tick_out_of_reach_scores_nothing() {
    let mut g = game(true, pos(5, 5));
    g.entities[0].pos = pos(20, 20);
    assert_eq!(g.update(None), None);
    assert_eq!(g.dots.len(), 1);
    assert_eq!(g.score, Score { one_up: 0, high: 0, two_up: 0 });
}

#[test]
fn only_player_consumes() {
    let mut g = game(true, pos(10, 0));
    g.player = 0;
    assert_eq!(g.update(None), None);
    assert_eq!(g.dots.len(), 1);
}

#[test]
fn score_saturates_and_high_follows() {
    let mut g = game(true, pos(5, 5));
    g.score = Score { one_up: u32::MAX - 3, high: 100, two_up: 4 };
    g.add_score(Some(10));
    assert_eq!(g.score, Score { one_up: u32::MAX, high: u32::MAX, two_up: 4 });
    g.score = Score { one_up: 5, high: 100, two_up: 0 };
    g.add_score(Some(10));
    assert_eq!(g.score, Score { one_up: 15, high: 100, two_up: 0 });
}

#[test]
fn entities_update_only_turns_player() {
    let mut g = game(true, pos(20, 20));
    assert!(g.entities_update(Direction::Right));
    assert_eq!(g.entities[0].direction, Direction::Right);
    assert_eq!(g.entities[1].direction, Direction::Left);
    assert!(!g.entities_update(Direction::Up));
    assert_eq!(g.entities[0].direction, Direction::Right);
}
