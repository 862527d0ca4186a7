use maze_nav::geometry::{grid_to_world, TILE_SIZE, X_OFFSET, Y_OFFSET};
use maze_nav::node::{
    assign_neighbors, find_next_node, maze_to_nodes, Maze, NodeGroup, PacManDirection,
};

fn lines(rows: &[&str]) -> Vec<Vec<u8>> {
    rows.iter().map(|r| r.as_bytes().to_vec()).collect()
}

fn build(rows: &[&str]) -> (Maze, NodeGroup) {
    let maze = Maze::read_map(&lines(rows));
    let mut ng = NodeGroup::new();
    maze_to_nodes(&mut ng, &maze);
    assign_neighbors(&maze, &mut ng);
    (maze, ng)
}

#[test]
fn grid_to_world_uses_tile_size_and_offsets() {
    let origin = grid_to_world(0, 0);
    assert_eq!(origin.x, X_OFFSET);
    assert_eq!(origin.y, Y_OFFSET);
    let p = grid_to_world(1, 2);
    assert_eq!(p.x, X_OFFSET + TILE_SIZE);
    assert_eq!(p.y, Y_OFFSET - 2 * TILE_SIZE);
}

#[test]
fn node_and_power_cells_spawn_nodes_row_major() {
    let (_, ng) = build(&["+ . +", ". X .", "P . +"]);
    assert_eq!(ng.nodes.len(), 4);
    assert_eq!(ng.node_list, vec![(0, 0), (2, 0), (0, 2), (2, 2)]);
    assert_eq!(ng.nodes[0].position, grid_to_world(0, 0));
    assert_eq!(ng.nodes[3].position, grid_to_world(2, 2));
}

#[test]
fn empty_grid_spawns_no_nodes() {
    let (_, ng) = build(&[]);
    assert_eq!(ng.nodes.len(), 0);
    assert_eq!(ng.lookup(0, 0), None);
}

#[test]
fn lookup_finds_registered_cells_only() {
    let (_, ng) = build(&["+ . +"]);
    assert_eq!(ng.lookup(0, 0), Some(0));
    assert_eq!(ng.lookup(2, 0), Some(1));
    assert_eq!(ng.lookup(1, 0), None);
    assert_eq!(ng.lookup(0, 1), None);
}

#[test]
fn corridors_collapse_into_single_edges() {
    let (_, ng) = build(&["+ . . . +"]);
    assert_eq!(ng.nodes.len(), 2);
    assert_eq!(ng.nodes[0].right, Some(1));
    assert_eq!(ng.nodes[1].left, Some(0));
    assert_eq!(ng.nodes[0].left, None);
    assert_eq!(ng.nodes[0].up, None);
    assert_eq!(ng.nodes[0].down, None);
}

#[test]
fn empty_cells_block_the_scan() {
    let (_, ng) = build(&["+ . X . +"]);
    assert_eq!(ng.nodes.len(), 2);
    assert_eq!(ng.nodes[0].right, None);
    assert_eq!(ng.nodes[1].left, None);
}

#[test]
fn neighbors_link_across_both_axes() {
    let (_, ng) = build(&["+ . +", ". X .", "+ . +"]);
    assert_eq!(ng.nodes[0].right, Some(1));
    assert_eq!(ng.nodes[0].down, Some(2));
    assert_eq!(ng.nodes[0].left, None);
    assert_eq!(ng.nodes[0].up, None);
    assert_eq!(ng.nodes[3].up, Some(1));
    assert_eq!(ng.nodes[3].left, Some(2));
}

#[test]
fn find_next_node_scans_one_direction() {
    let (maze, ng) = build(&["+ . +"]);
    assert_eq!(find_next_node(0, 0, 1, 0, &maze, &ng), Some(1));
    assert_eq!(find_next_node(2, 0, -1, 0, &maze, &ng), Some(0));
    assert_eq!(find_next_node(0, 0, 0, 1, &maze, &ng), None);
    assert_eq!(find_next_node(0, 0, -1, 0, &maze, &ng), None);
}

#[test]
fn neighbor_is_strictly_farther_never_the_node_itself() {
    let (_, ng) = build(&["+ . +", ". X .", "+ . +"]);
    for (i, node) in ng.nodes.iter().enumerate() {
        for (d, j) in [
            (PacManDirection::Up, node.up),
            (PacManDirection::Down, node.down),
            (PacManDirection::Left, node.left),
            (PacManDirection::Right, node.right),
        ] {
            if let Some(j) = j {
                assert_ne!(j, i);
                let here = node.position;
                let there = ng.nodes[j].position;
                match d {
                    PacManDirection::Up => {
                        assert!(there.y > here.y);
                        assert_eq!(there.x, here.x);
                    }
                    PacManDirection::Down => {
                        assert!(there.y < here.y);
                        assert_eq!(there.x, here.x);
                    }
                    PacManDirection::Left => {
                        assert!(there.x < here.x);
                        assert_eq!(there.y, here.y);
                    }
                    PacManDirection::Right => {
                        assert!(there.x > here.x);
                        assert_eq!(there.y, here.y);
                    }
                    PacManDirection::Stop => unreachable!(),
                }
            }
        }
    }
}

#[test]
fn asymmetric_scans_are_preserved() {
    // The left node sees the right node through the corridor, but the scan
    // back stops at the empty cell on the lower row: edges need not pair up.
    let (_, ng) = build(&["+ . +", "+ X ."]);
    assert_eq!(ng.nodes[0].right, Some(1));
    assert_eq!(ng.nodes[2].right, None);
}
