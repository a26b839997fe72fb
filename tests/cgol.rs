use cgol::{get_neighbor_count, next_cell_state, next_state, WorldType, WORLD_SIZE};

fn test_world() -> WorldType {
    let mut world: WorldType = [[false; WORLD_SIZE]; WORLD_SIZE];
    world[1][1] = true;
    world[1][2] = true;
    world[2][1] = true;
    world[2][2] = true;
    return world;
}

#[test]
fn test_next_state() {
    let mut world = test_world();
    let expected: WorldType = world.clone();
    next_state(&mut world);
    assert_eq!(world, expected);
}

#[test]
fn test_get_neighbor_count() {
    let world = test_world();
    assert_eq!(get_neighbor_count(world, 0, 0), 1);
    assert_eq!(get_neighbor_count(world, 1, 1), 3);
    assert_eq!(get_neighbor_count(world, 2, 1), 3);
    assert_eq!(get_neighbor_count(world, 1, 2), 3);
    assert_eq!(get_neighbor_count(world, 2, 2), 3);
    assert_eq!(get_neighbor_count(world, 2, 3), 2);
    assert_eq!(get_neighbor_count(world, 1, 3), 2);
}

#[test]
fn test_next_cell_state() {
    assert_eq!(next_cell_state(true, 0), false);
    assert_eq!(next_cell_state(true, 1), false);
    assert_eq!(next_cell_state(true, 2), true);
    assert_eq!(next_cell_state(true, 3), true);
    assert_eq!(next_cell_state(true, 4), false);
    assert_eq!(next_cell_state(false, 3), true);
    assert_eq!(next_cell_state(false, 1), false);
}
