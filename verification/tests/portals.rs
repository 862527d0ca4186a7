use maze_nav::geometry::{Position, BOTTOM_BOUND, LEFT_BOUND, RIGHT_BOUND, TOP_BOUND};
use maze_nav::node::{
    assign_neighbors, find_opposite_portal, find_portal_exit, identify_portal_nodes,
    maze_to_nodes, MapNode, Maze, NodeGroup,
};
use maze_nav::pacman::Pacman;

/// One row of the real grid whose ends sit exactly on the left and right
/// boundary columns (columns 0 and 27).
fn boundary_row_graph() -> NodeGroup {
    let mut row = String::from("+");
    for _ in 0..26 {
        row.push_str(" .");
    }
    row.push_str(" +");
    let maze = Maze::read_map(&vec![row.into_bytes()]);
    let mut ng = NodeGroup::new();
    maze_to_nodes(&mut ng, &maze);
    assign_neighbors(&maze, &mut ng);
    identify_portal_nodes(&mut ng);
    ng
}

#[test]
fn boundary_nodes_are_marked_as_portals() {
    let ng = boundary_row_graph();
    assert_eq!(ng.nodes.len(), 2);
    assert_eq!(ng.nodes[0].position.x, LEFT_BOUND);
    assert_eq!(ng.nodes[1].position.x, RIGHT_BOUND);
    assert!(ng.nodes[0].is_portal);
    assert!(ng.nodes[1].is_portal);
}

#[test]
fn interior_nodes_are_not_portals() {
    let maze = Maze::read_map(&vec![b"X".to_vec(), b"X + . +".to_vec()]);
    let mut ng = NodeGroup::new();
    maze_to_nodes(&mut ng, &maze);
    assign_neighbors(&maze, &mut ng);
    identify_portal_nodes(&mut ng);
    assert_eq!(ng.nodes.len(), 2);
    assert!(!ng.nodes[0].is_portal);
    assert!(!ng.nodes[1].is_portal);
}

#[test]
fn mirror_of_left_boundary_is_right_boundary_same_height() {
    let node = MapNode::new(LEFT_BOUND, 5120);
    assert_eq!(
        find_opposite_portal(&node),
        Some(Position { x: RIGHT_BOUND, y: 5120 })
    );
}

#[test]
fn mirror_of_top_boundary_is_bottom_boundary_same_column() {
    let node = MapNode::new(2048, TOP_BOUND);
    assert_eq!(
        find_opposite_portal(&node),
        Some(Position { x: 2048, y: BOTTOM_BOUND })
    );
}

#[test]
fn mirror_of_interior_position_is_none() {
    let node = MapNode::new(0, 0);
    assert_eq!(find_opposite_portal(&node), None);
}

#[test]
fn portal_mirror_round_trip_restores_the_position() {
    let left = MapNode::new(LEFT_BOUND, 7 * 1024);
    let once = find_opposite_portal(&left).unwrap();
    let back = find_opposite_portal(&MapNode::new(once.x, once.y)).unwrap();
    assert_eq!(once, Position { x: RIGHT_BOUND, y: 7 * 1024 });
    assert_eq!(back, Position { x: LEFT_BOUND, y: 7 * 1024 });
    assert_eq!(back.y, left.position.y);
    assert_eq!(back, left.position);
}

#[test]
fn portal_exits_pair_the_two_boundary_nodes() {
    let ng = boundary_row_graph();
    assert_eq!(find_portal_exit(&ng, 0), Some(1));
    assert_eq!(find_portal_exit(&ng, 1), Some(0));
}

#[test]
fn non_portal_node_has_no_exit() {
    let maze = Maze::read_map(&vec![b"X".to_vec(), b"X + . +".to_vec()]);
    let mut ng = NodeGroup::new();
    maze_to_nodes(&mut ng, &maze);
    identify_portal_nodes(&mut ng);
    assert_eq!(find_portal_exit(&ng, 0), None);
}

#[test]
fn arrival_at_a_portal_teleports_within_the_same_call() {
    let ng = boundary_row_graph();
    // Moving left toward the left-boundary node, about to arrive.
    let mut pacman = Pacman::new(ng.nodes[1].position, 1, None);
    pacman.nav.node_direction = maze_nav::node::PacManDirection::Left;
    pacman.nav.target_node = Some(0);
    let mut position = ng.nodes[0].position;
    pacman.nav.resolve_arrival(&mut position, &ng);
    // Position and current node are the right-boundary mirror's, exactly.
    assert_eq!(position, ng.nodes[1].position);
    assert_eq!(pacman.nav.current_node, 1);
    assert_eq!(pacman.nav.node_position, ng.nodes[1].position);
}
