use cgol::{
    alive_cells, bound_check, empty_world, get_neighbor_count, next_cell_state, next_state,
    WorldType, WORLD_SIZE,
};

fn block() -> WorldType {
    let mut world = empty_world();
    world[1][1] = true;
    world[1][2] = true;
    world[2][1] = true;
    world[2][2] = true;
    world
}

#[test]
fn rule_table_for_every_count() {
    for c in 0u32..=8 {
        assert_eq!(next_cell_state(true, c), c == 2 || c == 3, "alive, {c}");
        assert_eq!(next_cell_state(false, c), c == 3, "dead, {c}");
    }
}

#[test]
fn block_is_stable_over_many_generations() {
    let expected = block();
    let mut world = block();
    for _ in 0..10 {
        next_state(&mut world);
        assert_eq!(world, expected);
    }
}

#[test]
fn blinker_is_computed_from_one_snapshot() {
    let mut world = empty_world();
    world[5][4] = true;
    world[5][5] = true;
    world[5][6] = true;
    next_state(&mut world);
    let mut expected = empty_world();
    expected[4][5] = true;
    expected[5][5] = true;
    expected[6][5] = true;
    assert_eq!(world, expected);
    next_state(&mut world);
    let mut back = empty_world();
    back[5][4] = true;
    back[5][5] = true;
    back[5][6] = true;
    assert_eq!(world, back);
}

#[test]
fn lone_corner_cell_counts_and_dies() {
    let mut world = empty_world();
    world[0][0] = true;
    assert_eq!(get_neighbor_count(world, 0, 0), 0);
    assert_eq!(get_neighbor_count(world, 1, 0), 1);
    assert_eq!(get_neighbor_count(world, 1, 1), 1);
    next_state(&mut world);
    assert_eq!(world, empty_world());
}

#[test]
fn full_corner_has_three_neighbours() {
    let world: WorldType = [[true; WORLD_SIZE]; WORLD_SIZE];
    assert_eq!(get_neighbor_count(world, 0, 0), 3);
    assert_eq!(get_neighbor_count(world, 31, 31), 3);
    assert_eq!(get_neighbor_count(world, 0, 10), 5);
    assert_eq!(get_neighbor_count(world, 10, 10), 8);
}

#[test]
fn full_world_keeps_only_its_corners() {
    let mut world: WorldType = [[true; WORLD_SIZE]; WORLD_SIZE];
    next_state(&mut world);
    assert!(world[0][0] && world[0][31] && world[31][0] && world[31][31]);
    assert!(!world[0][1] && !world[1][0] && !world[10][10]);
}

#[test]
fn empty_world_stays_empty() {
    let mut world = empty_world();
    next_state(&mut world);
    assert_eq!(world, [[false; WORLD_SIZE]; WORLD_SIZE]);
    assert!(alive_cells(&world).is_empty());
}

#[test]
fn bound_check_edges() {
    assert!(bound_check(0, 0, 32));
    assert!(bound_check(31, 31, 32));
    assert!(!bound_check(32, 0, 32));
    assert!(!bound_check(0, 32, 32));
    assert!(!bound_check(-1, 0, 32));
    assert!(!bound_check(0, -1, 32));
    assert!(!bound_check(0, 0, 0));
}

#[test]
fn alive_cells_row_by_row() {
    let mut world = empty_world();
    world[3][7] = true;
    world[0][5] = true;
    world[3][2] = true;
    world[31][31] = true;
    assert_eq!(alive_cells(&world), vec![(5, 0), (2, 3), (7, 3), (31, 31)]);
}
