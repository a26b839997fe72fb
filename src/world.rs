use vstd::prelude::*;

verus! {

/// Side length of the square world, in cells.
pub const WORLD_SIZE: usize = 32;

/// The world: `world[y][x]` is true when the cell in row `y`, column `x` is alive.
pub type WorldType = [[bool; WORLD_SIZE]; WORLD_SIZE];

/// Whether `(x, y)` names a cell of the world.
pub open spec fn in_bounds(x: int, y: int) -> bool {
    0 <= x < WORLD_SIZE && 0 <= y < WORLD_SIZE
}

/// The state of the cell at column `x`, row `y`.
pub open spec fn cell(w: WorldType, x: int, y: int) -> bool {
    w@[y]@[x]
}

/// A position counts as a living neighbour when it lies in the world and its cell is alive;
/// positions outside the world never count.
pub open spec fn alive_at(w: WorldType, x: int, y: int) -> bool {
    in_bounds(x, y) && cell(w, x, y)
}

/// One for a living neighbour, zero otherwise.
pub open spec fn count_of(b: bool) -> int {
    if b {
        1
    } else {
        0
    }
}

/// The number of living cells among the eight cells around `(x, y)`.
pub open spec fn neighbor_count(w: WorldType, x: int, y: int) -> int {
    count_of(alive_at(w, x - 1, y - 1)) + count_of(alive_at(w, x, y - 1)) + count_of(
        alive_at(w, x + 1, y - 1),
    ) + count_of(alive_at(w, x - 1, y)) + count_of(alive_at(w, x + 1, y)) + count_of(
        alive_at(w, x - 1, y + 1),
    ) + count_of(alive_at(w, x, y + 1)) + count_of(alive_at(w, x + 1, y + 1))
}

/// The life rule on one cell.
pub open spec fn spec_next_cell_state(alive: bool, n: int) -> bool {
    if alive {
        n == 2 || n == 3
    } else {
        n == 3
    }
}

/// The state of cell `(x, y)` in the generation after `w`, read from `w` alone.
pub open spec fn next_cell(w: WorldType, x: int, y: int) -> bool {
    spec_next_cell_state(cell(w, x, y), neighbor_count(w, x, y))
}

/// `n` is the generation that follows `w`: every cell is computed from `w`.
pub open spec fn is_next_generation(w: WorldType, n: WorldType) -> bool {
    forall|x: int, y: int| #[trigger] in_bounds(x, y) ==> cell(n, x, y) == next_cell(w, x, y)
}

/// No cell of `w` is alive.
pub open spec fn all_dead(w: WorldType) -> bool {
    forall|x: int, y: int| #[trigger] in_bounds(x, y) ==> !cell(w, x, y)
}

/// The `i`-th of the eight offsets around a cell, row above first.
pub open spec fn offset(i: int) -> (int, int) {
    if i == 0 {
        (-1, -1)
    } else if i == 1 {
        (0, -1)
    } else if i == 2 {
        (1, -1)
    } else if i == 3 {
        (-1, 0)
    } else if i == 4 {
        (1, 0)
    } else if i == 5 {
        (-1, 1)
    } else if i == 6 {
        (0, 1)
    } else {
        (1, 1)
    }
}

/// Living neighbours of `(x, y)` among the first `k` offsets.
pub open spec fn count_upto(w: WorldType, x: int, y: int, k: int) -> int
    decreases k,
{
    if k <= 0 {
        0
    } else {
        count_upto(w, x, y, k - 1) + count_of(
            alive_at(w, x + offset(k - 1).0, y + offset(k - 1).1),
        )
    }
}

proof fn lemma_count_upto_all(w: WorldType, x: int, y: int)
    ensures
        count_upto(w, x, y, 8) == neighbor_count(w, x, y),
        forall|k: int| 0 <= k <= 8 ==> 0 <= #[trigger] count_upto(w, x, y, k) <= k,
{
    reveal_with_fuel(count_upto, 9);
}

/// The life rule: a living cell stays alive with two or three living neighbours;
/// a dead cell comes alive with exactly three. Every other count leaves it dead.
pub fn next_cell_state(current_state: bool, number_of_alive_neighbours: u32) -> (r: bool)
    ensures
        r == spec_next_cell_state(current_state, number_of_alive_neighbours as int),
{
    if current_state {
        number_of_alive_neighbours == 2 || number_of_alive_neighbours == 3
    } else {
        number_of_alive_neighbours == 3
    }
}

/// Whether `(x, y)` lies in a square of side `length` anchored at the origin.
pub fn bound_check(x: i32, y: i32, length: usize) -> (r: bool)
    ensures
        r == (0 <= x < length && 0 <= y < length),
{
    0 <= x && (x as usize) < length && 0 <= y && (y as usize) < length
}

fn neighbor_offset(i: usize) -> (r: (i32, i32))
    requires
        i < 8,
    ensures
        r.0 as int == offset(i as int).0,
        r.1 as int == offset(i as int).1,
{
    if i == 0 {
        (-1, -1)
    } else if i == 1 {
        (0, -1)
    } else if i == 2 {
        (1, -1)
    } else if i == 3 {
        (-1, 0)
    } else if i == 4 {
        (1, 0)
    } else if i == 5 {
        (-1, 1)
    } else if i == 6 {
        (0, 1)
    } else {
        (1, 1)
    }
}

/// Counts the living cells among the eight cells around `(x, y)`; positions
/// outside the world count as dead.
pub fn get_neighbor_count(world: WorldType, x: i32, y: i32) -> (r: u32)
    requires
        in_bounds(x as int, y as int),
    ensures
        r as int == neighbor_count(world, x as int, y as int),
        r <= 8,
{
    proof {
        lemma_count_upto_all(world, x as int, y as int);
    }
    let mut count: u32 = 0;
    let mut i: usize = 0;
    while i < 8
        invariant
            i <= 8,
            in_bounds(x as int, y as int),
            count as int == count_upto(world, x as int, y as int, i as int),
            forall|k: int| 0 <= k <= 8 ==> 0 <= #[trigger] count_upto(world, x as int, y as int, k) <= k,
        decreases 8 - i,
    {
        let (dx, dy) = neighbor_offset(i);
        let nx: i32 = x + dx;
        let ny: i32 = y + dy;
        if bound_check(nx, ny, WORLD_SIZE) {
            if world[ny as usize][nx as usize] {
                count = count + 1;
            }
        }
        i = i + 1;
    }
    count
}

/// A world with every cell dead.
pub fn empty_world() -> (r: WorldType)
    ensures
        all_dead(r),
{
    [[false; WORLD_SIZE]; WORLD_SIZE]
}

/// Advances the world by one generation. Every new cell is computed from the
/// world as it stood before the call, never from cells already updated.
pub fn next_state(world: &mut WorldType)
    ensures
        is_next_generation(*old(world), *final(world)),
{
    let snapshot: WorldType = *world;
    let mut new_world: WorldType = *world;
    let mut y: usize = 0;
    while y < WORLD_SIZE
        invariant
            y <= WORLD_SIZE,
            forall|cx: int, cy: int|
                #![trigger cell(new_world, cx, cy)]
                in_bounds(cx, cy) && cy < y ==> cell(new_world, cx, cy) == next_cell(snapshot, cx, cy),
        decreases WORLD_SIZE - y,
    {
        let mut x: usize = 0;
        while x < WORLD_SIZE
            invariant
                x <= WORLD_SIZE,
                y < WORLD_SIZE,
                forall|cx: int, cy: int|
                    #![trigger cell(new_world, cx, cy)]
                    in_bounds(cx, cy) && (cy < y || (cy == y && cx < x)) ==> cell(new_world, cx, cy)
                        == next_cell(snapshot, cx, cy),
            decreases WORLD_SIZE - x,
        {
            let n: u32 = get_neighbor_count(snapshot, x as i32, y as i32);
            let ghost prev = new_world;
            new_world[y][x] = next_cell_state(snapshot[y][x], n);
            assert forall|cx: int, cy: int|
                in_bounds(cx, cy) && !(cx == x && cy == y) implies #[trigger] cell(new_world, cx, cy)
                == cell(prev, cx, cy) by {
                if cy != y {
                    assert(new_world@[cy] == prev@[cy]);
                }
            }
            x = x + 1;
        }
        y = y + 1;
    }
    *world = new_world;
}

/// A corner cell has only three positions around it inside the world, so at most
/// three living neighbours, whatever the world holds.
pub proof fn lemma_corner_neighbor_count(w: WorldType)
    ensures
        neighbor_count(w, 0, 0) <= 3,
{
}

/// A living cell at the corner whose three neighbours are dead has no living neighbour,
/// and so is dead in the next generation.
pub proof fn lemma_lone_corner_cell_dies(w: WorldType, n: WorldType)
    requires
        is_next_generation(w, n),
        !cell(w, 1, 0),
        !cell(w, 0, 1),
        !cell(w, 1, 1),
    ensures
        neighbor_count(w, 0, 0) == 0,
        !cell(n, 0, 0),
{
    assert(in_bounds(0, 0));
}

/// The living cells of the world as `(x, y)` pairs, in row-major order.
pub open spec fn alive_cells_upto(w: WorldType, k: int) -> Seq<(usize, usize)>
    decreases k,
{
    if k <= 0 {
        Seq::empty()
    } else {
        let prev = alive_cells_upto(w, k - 1);
        let x = (k - 1) % (WORLD_SIZE as int);
        let y = (k - 1) / (WORLD_SIZE as int);
        if cell(w, x, y) {
            prev.push((x as usize, y as usize))
        } else {
            prev
        }
    }
}

/// Lists the living cells as `(x, y)` pairs, row by row, each row from left to right.
pub fn alive_cells(world: &WorldType) -> (r: Vec<(usize, usize)>)
    ensures
        r@ == alive_cells_upto(*world, (WORLD_SIZE * WORLD_SIZE) as int),
{
    let mut r: Vec<(usize, usize)> = Vec::new();
    let mut y: usize = 0;
    while y < WORLD_SIZE
        invariant
            y <= WORLD_SIZE,
            r@ == alive_cells_upto(*world, (y * WORLD_SIZE) as int),
        decreases WORLD_SIZE - y,
    {
        let mut x: usize = 0;
        while x < WORLD_SIZE
            invariant
                x <= WORLD_SIZE,
                y < WORLD_SIZE,
                r@ == alive_cells_upto(*world, (y * WORLD_SIZE + x) as int),
            decreases WORLD_SIZE - x,
        {
            let k: usize = y * WORLD_SIZE + x;
            assert(((k + 1 - 1) as int) % (WORLD_SIZE as int) == x as int && ((k + 1 - 1) as int)
                / (WORLD_SIZE as int) == y as int);
            if world[y][x] {
                r.push((x, y));
            }
            x = x + 1;
        }
        y = y + 1;
    }
    r
}

} // verus!
