use vstd::prelude::*;

use crate::world::{
    all_dead, cell, empty_world, in_bounds, is_next_generation, next_state, WorldType,
    WORLD_SIZE,
};

verus! {

/// Width and height of one cell on screen, in pixels.
pub const CELL_SIZE: u32 = 25;

/// Ticks between two generations when a session starts or is reset.
pub const DEFAULT_STEP_INTERVAL: u64 = 3;

/// What the user can ask of a running session.
#[derive(Clone, Copy, Debug, PartialEq, Eq)]
pub enum Command {
    /// Advance one generation, paused or not.
    SingleStep,
    /// Pause a running session, or resume a paused one.
    TogglePause,
    /// One tick more between generations.
    IncreaseSpeed,
    /// One tick less between generations, never below one.
    DecreaseSpeed,
    /// Back to an empty world and the initial clock.
    Reset,
    /// Set the cell under the pixel `(x, y)` to `alive`.
    Paint { x: i32, y: i32, alive: bool },
}

/// The counter after `n`: one more, wrapping to zero past the largest value.
pub open spec fn successor(n: u64) -> u64 {
    if n == u64::MAX {
        0
    } else {
        (n + 1) as u64
    }
}

/// The step interval after "increase speed": one tick more between generations, saturating.
pub open spec fn increased(v: u64) -> u64 {
    if v < u64::MAX {
        (v + 1) as u64
    } else {
        v
    }
}

/// The step interval after "decrease speed": one tick less, but never below one.
pub open spec fn decreased(v: u64) -> u64 {
    if v > 1 {
        (v - 1) as u64
    } else {
        1
    }
}

/// The step interval after `n` "decrease speed" commands in a row.
pub open spec fn decreased_times(v: u64, n: nat) -> u64
    decreases n,
{
    if n == 0 {
        v
    } else {
        decreased(decreased_times(v, (n - 1) as nat))
    }
}

/// However many "decrease speed" commands come in a row, the step interval stays at
/// least one: it falls by one per command until it reaches one, and stays there.
pub proof fn lemma_decrease_speed_floor(v: u64, n: nat)
    requires
        v >= 1,
    ensures
        decreased_times(v, n) >= 1,
        decreased_times(v, n) as int == if v as int - n as int >= 1 {
            v as int - n as int
        } else {
            1
        },
    decreases n,
{
    if n > 0 {
        lemma_decrease_speed_floor(v, (n - 1) as nat);
    }
}

/// The cell under pixel `(px, py)`, if that pixel lies on the world.
pub open spec fn spec_cell_from_pixel(px: int, py: int) -> Option<(usize, usize)> {
    if 0 <= px && 0 <= py && px / (CELL_SIZE as int) < WORLD_SIZE && py / (CELL_SIZE as int)
        < WORLD_SIZE {
        Some(((px / (CELL_SIZE as int)) as usize, (py / (CELL_SIZE as int)) as usize))
    } else {
        None
    }
}

/// Maps a pixel of the window to the cell under it; pixels off the world give `None`.
pub fn cell_from_pixel(px: i32, py: i32) -> (r: Option<(usize, usize)>)
    ensures
        r == spec_cell_from_pixel(px as int, py as int),
{
    if px < 0 || py < 0 {
        return None;
    }
    let cx: i32 = px / (CELL_SIZE as i32);
    let cy: i32 = py / (CELL_SIZE as i32);
    if (cx as usize) < WORLD_SIZE && (cy as usize) < WORLD_SIZE {
        Some((cx as usize, cy as usize))
    } else {
        None
    }
}

/// The top-left pixel of the square that shows cell `(x, y)`.
pub fn cell_origin(x: usize, y: usize) -> (r: (i32, i32))
    requires
        in_bounds(x as int, y as int),
    ensures
        r.0 as int == x as int * CELL_SIZE as int,
        r.1 as int == y as int * CELL_SIZE as int,
{
    ((x as i32) * (CELL_SIZE as i32), (y as i32) * (CELL_SIZE as i32))
}

/// One simulation session: the world and the clock that drives it.
pub struct Session {
    pub world: WorldType,
    pub paused: bool,
    /// Ticks between two generations while running; larger is slower.
    pub step_interval: u64,
    /// Ticks seen since the start or the last reset.
    pub tick_counter: u64,
    /// Generations computed since the start or the last reset.
    pub generation_count: u64,
}

impl Session {
    /// The step interval is never zero.
    pub open spec fn wf(&self) -> bool {
        self.step_interval >= 1
    }

    /// The state of a fresh session: empty world, running, default speed, counters at zero.
    pub open spec fn is_initial(&self) -> bool {
        &&& all_dead(self.world)
        &&& self.tick_counter == 0
        &&& self.step_interval == DEFAULT_STEP_INTERVAL
        &&& !self.paused
        &&& self.generation_count == 0
    }

    /// The clock of `self` equals that of `o`.
    pub open spec fn same_clock(&self, o: &Session) -> bool {
        &&& self.paused == o.paused
        &&& self.step_interval == o.step_interval
        &&& self.tick_counter == o.tick_counter
        &&& self.generation_count == o.generation_count
    }

    /// `n` is `self` after one generation was computed and counted.
    pub open spec fn single_stepped(&self, n: &Session) -> bool {
        &&& is_next_generation(self.world, n.world)
        &&& n.generation_count == successor(self.generation_count)
        &&& n.paused == self.paused
        &&& n.step_interval == self.step_interval
        &&& n.tick_counter == self.tick_counter
    }

    /// `n` is `self` with only its step interval replaced by `v`.
    pub open spec fn with_interval(&self, n: &Session, v: u64) -> bool {
        &&& n.world == self.world
        &&& n.step_interval == v
        &&& n.paused == self.paused
        &&& n.tick_counter == self.tick_counter
        &&& n.generation_count == self.generation_count
    }

    /// `n` is `self` with the pause flag flipped.
    pub open spec fn pause_toggled(&self, n: &Session) -> bool {
        &&& n.world == self.world
        &&& n.paused == !self.paused
        &&& n.step_interval == self.step_interval
        &&& n.tick_counter == self.tick_counter
        &&& n.generation_count == self.generation_count
    }

    /// `n` is `self` after painting the pixel `(px, py)` with `alive`: the cell under it,
    /// if any, is set, every other cell and the clock are kept.
    pub open spec fn painted(&self, n: &Session, px: int, py: int, alive: bool) -> bool {
        &&& n.same_clock(self)
        &&& match spec_cell_from_pixel(px, py) {
            Some(c) => forall|x: int, y: int| #[trigger]
                in_bounds(x, y) ==> cell(n.world, x, y) == if x == c.0 && y == c.1 {
                    alive
                } else {
                    cell(self.world, x, y)
                },
            None => n.world == self.world,
        }
    }

    /// A fresh session.
    pub fn new() -> (r: Session)
        ensures
            r.wf(),
            r.is_initial(),
    {
        Session {
            world: empty_world(),
            paused: false,
            step_interval: DEFAULT_STEP_INTERVAL,
            tick_counter: 0,
            generation_count: 0,
        }
    }

    /// Returns the world and the clock to their initial values, whatever came before.
    pub fn reset(&mut self)
        ensures
            final(self).wf(),
            final(self).is_initial(),
    {
        self.world = empty_world();
        self.tick_counter = 0;
        self.step_interval = DEFAULT_STEP_INTERVAL;
        self.paused = false;
        self.generation_count = 0;
    }

    /// Advances one generation and counts it, paused or not.
    pub fn single_step(&mut self)
        requires
            old(self).wf(),
        ensures
            final(self).wf(),
            old(self).single_stepped(final(self)),
    {
        next_state(&mut self.world);
        self.generation_count = if self.generation_count == u64::MAX {
            0
        } else {
            self.generation_count + 1
        };
    }

    /// Pauses a running session or resumes a paused one.
    pub fn toggle_pause(&mut self)
        requires
            old(self).wf(),
        ensures
            final(self).wf(),
            old(self).pause_toggled(final(self)),
    {
        self.paused = !self.paused;
    }

    /// "Increase speed": one tick more between generations.
    pub fn increase_speed(&mut self)
        requires
            old(self).wf(),
        ensures
            final(self).wf(),
            old(self).with_interval(final(self), increased(old(self).step_interval)),
    {
        if self.step_interval < u64::MAX {
            self.step_interval = self.step_interval + 1;
        }
    }

    /// "Decrease speed": one tick less between generations; an interval of one stays one.
    pub fn decrease_speed(&mut self)
        requires
            old(self).wf(),
        ensures
            final(self).wf(),
            old(self).with_interval(final(self), decreased(old(self).step_interval)),
    {
        if self.step_interval != 1 {
            self.step_interval = self.step_interval - 1;
        }
    }

    /// Sets the cell under pixel `(px, py)` to `alive`; a pixel off the world changes nothing.
    /// Returns whether a cell was written.
    pub fn paint(&mut self, px: i32, py: i32, alive: bool) -> (r: bool)
        requires
            old(self).wf(),
        ensures
            final(self).wf(),
            r == spec_cell_from_pixel(px as int, py as int).is_some(),
            old(self).painted(final(self), px as int, py as int, alive),
    {
        match cell_from_pixel(px, py) {
            Some((cx, cy)) => {
                let ghost prev = self.world;
                self.world[cy][cx] = alive;
                assert forall|x: int, y: int| #[trigger] in_bounds(x, y) implies cell(self.world, x, y)
                    == if x == cx && y == cy {
                    alive
                } else {
                    cell(prev, x, y)
                } by {
                    if y != cy {
                        assert(self.world@[y] == prev@[y]);
                    }
                }
                true
            },
            None => false,
        }
    }

    /// Whether the tick about to happen advances a generation: the session runs and the
    /// tick counter is a multiple of the step interval.
    pub open spec fn advances(&self) -> bool {
        !self.paused && self.tick_counter % self.step_interval == 0
    }

    /// One tick of the clock: advances a generation when the session runs and the tick
    /// counter is a multiple of the step interval, then counts the tick whether or not a
    /// generation was advanced. Returns whether one was.
    pub fn tick(&mut self) -> (r: bool)
        requires
            old(self).wf(),
        ensures
            final(self).wf(),
            r == old(self).advances(),
            final(self).tick_counter == successor(old(self).tick_counter),
            final(self).paused == old(self).paused,
            final(self).step_interval == old(self).step_interval,
            r ==> is_next_generation(old(self).world, final(self).world),
            r ==> final(self).generation_count == successor(old(self).generation_count),
            !r ==> final(self).world == old(self).world,
            !r ==> final(self).generation_count == old(self).generation_count,
    {
        let advance: bool = !self.paused && self.tick_counter % self.step_interval == 0;
        if advance {
            self.single_step();
        }
        self.tick_counter = if self.tick_counter == u64::MAX {
            0
        } else {
            self.tick_counter + 1
        };
        advance
    }

    /// Carries out one command. Returns false only for a paint off the world, which
    /// changes nothing.
    pub fn handle(&mut self, command: Command) -> (r: bool)
        requires
            old(self).wf(),
        ensures
            final(self).wf(),
            match command {
                Command::SingleStep => r && old(self).single_stepped(final(self)),
                Command::TogglePause => r && old(self).pause_toggled(final(self)),
                Command::IncreaseSpeed => r && old(self).with_interval(
                    final(self),
                    increased(old(self).step_interval),
                ),
                Command::DecreaseSpeed => r && old(self).with_interval(
                    final(self),
                    decreased(old(self).step_interval),
                ),
                Command::Reset => r && final(self).is_initial(),
                Command::Paint { x, y, alive } => r == spec_cell_from_pixel(
                    x as int,
                    y as int,
                ).is_some() && old(self).painted(final(self), x as int, y as int, alive),
            },
    {
        match command {
            Command::SingleStep => {
                self.single_step();
                true
            },
            Command::TogglePause => {
                self.toggle_pause();
                true
            },
            Command::IncreaseSpeed => {
                self.increase_speed();
                true
            },
            Command::DecreaseSpeed => {
                self.decrease_speed();
                true
            },
            Command::Reset => {
                self.reset();
                true
            },
            Command::Paint { x, y, alive } => self.paint(x, y, alive),
        }
    }
}

} // verus!
