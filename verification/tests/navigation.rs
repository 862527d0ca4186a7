use maze_nav::gameplay::{pacman_input_system, pacman_node_based_movement_system, Score};
use maze_nav::geometry::{Position, UNIT};
use maze_nav::nav::movement_distance;
use maze_nav::node::{MapNode, NodeGroup, PacManDirection};
use maze_nav::pacman::{Pacman, PACMAN_RADIUS, PACMAN_SPEED};

/// Two nodes A(0,0) and B(16,0) (world units), linked Right/Left.
fn two_node_graph() -> NodeGroup {
    let mut a = MapNode::new(0, 0);
    let mut b = MapNode::new(16 * UNIT, 0);
    a.right = Some(1);
    b.left = Some(0);
    let mut ng = NodeGroup::new();
    ng.node_list.push((0, 0));
    ng.node_list.push((1, 0));
    ng.nodes.push(a);
    ng.nodes.push(b);
    ng
}

/// A(0,0) -Right-> B(16,0) -Down-> C(16,-16), with the reverse edges.
fn corner_graph() -> NodeGroup {
    let mut a = MapNode::new(0, 0);
    let mut b = MapNode::new(16 * UNIT, 0);
    let mut c = MapNode::new(16 * UNIT, -16 * UNIT);
    a.right = Some(1);
    b.left = Some(0);
    b.down = Some(2);
    c.up = Some(1);
    let mut ng = NodeGroup::new();
    ng.node_list.push((0, 0));
    ng.node_list.push((1, 0));
    ng.node_list.push((1, 1));
    ng.nodes.push(a);
    ng.nodes.push(b);
    ng.nodes.push(c);
    ng
}

#[test]
fn score_defaults_to_zero() {
    assert_eq!(Score::default().0, 0);
}

#[test]
fn pacman_new_is_idle_at_standard_speed() {
    let p = Pacman::new(Position { x: 3, y: 4 }, 7, None);
    assert_eq!(p.radius, PACMAN_RADIUS);
    assert_eq!(p.nav.speed, PACMAN_SPEED);
    assert_eq!(p.nav.node_direction, PacManDirection::Stop);
    assert_eq!(p.nav.current_node, 7);
    assert_eq!(p.nav.target_node, None);
    assert_eq!(p.nav.node_position, Position { x: 3, y: 4 });
    assert!(!p.nav.is_reversing);
}

#[test]
fn find_spawn_node_takes_first_node_or_origin() {
    let ng = two_node_graph();
    assert_eq!(Pacman::find_spawn_node(&ng), Position { x: 0, y: 0 });
    let empty = NodeGroup::new();
    assert_eq!(Pacman::find_spawn_node(&empty), Position { x: 0, y: 0 });
}

#[test]
fn valid_direction_requires_an_edge_and_motion() {
    let ng = two_node_graph();
    let p = Pacman::new(Position { x: 0, y: 0 }, 0, None);
    assert!(p.valid_direction(PacManDirection::Right, &ng));
    assert!(!p.valid_direction(PacManDirection::Left, &ng));
    assert!(!p.valid_direction(PacManDirection::Up, &ng));
    assert!(!p.valid_direction(PacManDirection::Stop, &ng));
}

#[test]
fn get_new_target_falls_back_to_current() {
    let ng = two_node_graph();
    let p = Pacman::new(Position { x: 0, y: 0 }, 0, None);
    assert_eq!(p.get_new_target(PacManDirection::Right, &ng), 1);
    assert_eq!(p.get_new_target(PacManDirection::Up, &ng), 0);
}

#[test]
fn setting_an_edgeless_direction_stops_the_agent() {
    let ng = two_node_graph();
    let mut p = Pacman::new(Position { x: 0, y: 0 }, 0, None);
    p.set_direction_and_target(PacManDirection::Up, &ng, false);
    assert_eq!(p.nav.node_direction, PacManDirection::Stop);
    assert_eq!(p.nav.target_node, None);
}

#[test]
fn overshot_only_at_or_past_the_edge_length() {
    let ng = two_node_graph();
    let mut p = Pacman::new(Position { x: 0, y: 0 }, 0, None);
    p.set_direction_and_target(PacManDirection::Right, &ng, false);
    assert!(!p.overshot_target(&Position { x: 8 * UNIT, y: 0 }, &ng));
    assert!(p.overshot_target(&Position { x: 16 * UNIT, y: 0 }, &ng));
    assert!(p.overshot_target(&Position { x: 20 * UNIT, y: 0 }, &ng));
    // The test is a squared-displacement comparison from the current node.
    assert!(p.overshot_target(&Position { x: 0, y: 16 * UNIT }, &ng));
}

#[test]
fn overshot_is_false_without_a_target() {
    let ng = two_node_graph();
    let p = Pacman::new(Position { x: 0, y: 0 }, 0, None);
    assert!(!p.overshot_target(&Position { x: 40 * UNIT, y: 0 }, &ng));
}

#[test]
fn movement_distance_is_speed_times_time() {
    assert_eq!(movement_distance(16 * UNIT, 1_000_000), 16 * UNIT);
    assert_eq!(movement_distance(100 * UNIT, 16667), 100 * UNIT * 16667 / 1_000_000);
    assert_eq!(movement_distance(102400, 16667), 1706);
}

#[test]
fn zero_or_negative_elapsed_time_moves_nothing() {
    assert_eq!(movement_distance(16 * UNIT, 0), 0);
    assert_eq!(movement_distance(16 * UNIT, -250_000), 0);
}

#[test]
fn intent_right_then_one_second_tick_arrives_exactly() {
    // Scenario: A(0,0), B(16,0); speed 16 units/s, dt = 1 s.
    let ng = two_node_graph();
    let mut p = Pacman::new(Position { x: 0, y: 0 }, 0, None);
    p.nav.speed = 16 * UNIT;
    let mut position = Position { x: 0, y: 0 };
    pacman_input_system(&mut p, &ng, Some(PacManDirection::Right));
    assert_eq!(p.nav.node_direction, PacManDirection::Right);
    assert_eq!(p.nav.target_node, Some(1));
    pacman_node_based_movement_system(&mut p, &mut position, &ng, 1_000_000);
    // Overshoot fired and the position snapped exactly onto B.
    assert_eq!(position, Position { x: 16 * UNIT, y: 0 });
    assert_eq!(p.nav.current_node, 1);
    assert_eq!(p.nav.node_position, Position { x: 16 * UNIT, y: 0 });
}

#[test]
fn mid_tick_reversal_swaps_current_and_target_at_once() {
    // Scenario: moving A -> B; the opposite intent reverses immediately.
    let ng = two_node_graph();
    let mut p = Pacman::new(Position { x: 0, y: 0 }, 0, None);
    pacman_input_system(&mut p, &ng, Some(PacManDirection::Right));
    assert_eq!(p.nav.current_node, 0);
    assert_eq!(p.nav.target_node, Some(1));
    pacman_input_system(&mut p, &ng, Some(PacManDirection::Left));
    assert_eq!(p.nav.current_node, 1);
    assert_eq!(p.nav.target_node, Some(0));
    assert_eq!(p.nav.node_direction, PacManDirection::Left);
    assert_eq!(p.nav.queued_direction, None);
}

#[test]
fn partial_tick_then_arrival_snaps_bit_for_bit() {
    let ng = two_node_graph();
    let mut p = Pacman::new(Position { x: 0, y: 0 }, 0, None);
    p.nav.speed = 16 * UNIT;
    let mut position = Position { x: 0, y: 0 };
    pacman_input_system(&mut p, &ng, Some(PacManDirection::Right));
    // 0.7 s: moves 11.2 units, no overshoot.
    pacman_node_based_movement_system(&mut p, &mut position, &ng, 700_000);
    assert_eq!(position, Position { x: 16 * UNIT * 700_000 / 1_000_000, y: 0 });
    assert_eq!(p.nav.current_node, 0);
    // 0.5 s more: passes B at 19.2 units and snaps to exactly 16.
    pacman_node_based_movement_system(&mut p, &mut position, &ng, 500_000);
    assert_eq!(position, Position { x: 16 * UNIT, y: 0 });
    assert_eq!(p.nav.current_node, 1);
}

#[test]
fn sideways_intent_is_queued_not_applied() {
    let ng = two_node_graph();
    let mut p = Pacman::new(Position { x: 0, y: 0 }, 0, None);
    pacman_input_system(&mut p, &ng, Some(PacManDirection::Right));
    pacman_input_system(&mut p, &ng, Some(PacManDirection::Up));
    assert_eq!(p.nav.node_direction, PacManDirection::Right);
    assert_eq!(p.nav.target_node, Some(1));
    assert_eq!(p.nav.queued_direction, Some(PacManDirection::Up));
}

#[test]
fn queued_direction_applies_at_arrival() {
    let ng = corner_graph();
    let mut p = Pacman::new(Position { x: 0, y: 0 }, 0, None);
    p.nav.speed = 16 * UNIT;
    let mut position = Position { x: 0, y: 0 };
    pacman_input_system(&mut p, &ng, Some(PacManDirection::Right));
    pacman_input_system(&mut p, &ng, Some(PacManDirection::Down));
    assert_eq!(p.nav.queued_direction, Some(PacManDirection::Down));
    pacman_node_based_movement_system(&mut p, &mut position, &ng, 1_000_000);
    // Arrived at B; the queued turn toward C applied and cleared.
    assert_eq!(p.nav.current_node, 1);
    assert_eq!(p.nav.node_direction, PacManDirection::Down);
    assert_eq!(p.nav.target_node, Some(2));
    assert_eq!(p.nav.queued_direction, None);
}

#[test]
fn invalid_queued_direction_stays_queued_and_heading_stops_at_dead_end() {
    let ng = two_node_graph();
    let mut p = Pacman::new(Position { x: 0, y: 0 }, 0, None);
    p.nav.speed = 16 * UNIT;
    let mut position = Position { x: 0, y: 0 };
    pacman_input_system(&mut p, &ng, Some(PacManDirection::Right));
    pacman_input_system(&mut p, &ng, Some(PacManDirection::Up));
    pacman_node_based_movement_system(&mut p, &mut position, &ng, 1_000_000);
    // B has no upward or rightward edge: the queue holds, the agent stops.
    assert_eq!(p.nav.current_node, 1);
    assert_eq!(p.nav.node_direction, PacManDirection::Stop);
    assert_eq!(p.nav.target_node, None);
    assert_eq!(p.nav.queued_direction, Some(PacManDirection::Up));
}

#[test]
fn no_intent_keeps_momentum() {
    let ng = two_node_graph();
    let mut p = Pacman::new(Position { x: 0, y: 0 }, 0, None);
    pacman_input_system(&mut p, &ng, Some(PacManDirection::Right));
    pacman_input_system(&mut p, &ng, None);
    assert_eq!(p.nav.node_direction, PacManDirection::Right);
    assert_eq!(p.nav.target_node, Some(1));
}

#[test]
fn stopped_agent_ignores_time() {
    let ng = two_node_graph();
    let mut p = Pacman::new(Position { x: 0, y: 0 }, 0, None);
    let mut position = Position { x: 0, y: 0 };
    pacman_node_based_movement_system(&mut p, &mut position, &ng, 1_000_000);
    assert_eq!(position, Position { x: 0, y: 0 });
    assert_eq!(p.nav.node_direction, PacManDirection::Stop);
    assert_eq!(p.nav.current_node, 0);
}
