//! Conway's Game of Life on a bounded square world, with the session logic
//! (pause, speed, editing, reset) that drives it.
pub mod session;
pub mod world;

pub use world::{
    alive_cells, bound_check, empty_world, get_neighbor_count, next_cell_state, next_state,
    WorldType, WORLD_SIZE,
};
pub use session::{
    cell_from_pixel, cell_origin, Command, Session, CELL_SIZE, DEFAULT_STEP_INTERVAL,
};
