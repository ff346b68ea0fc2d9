use vstd::prelude::*;
use crate::block::{width_for_level, Block, WIDEST_BLOCK};
use crate::footprint::{lemma_common_is_intersection, Footprint};
use crate::grid::Grid;
use crate::oscillator::{Oscillator, SUBUNITS_PER_UNIT};
use crate::progress::{Outcome, Progress};
use crate::score::Score;
use crate::state::{playable, GameState, PlacedRow, Placement, Snapshot, Stage};

verus! {

/// One game: the lane, the progress, the block in play, its clock and the
/// tower.
///
/// The fields are private, and every function that makes or changes a game
/// leaves it in a state that a game can reach (`valid`), which is all that
/// the functions ask of the game they are given.
pub struct Game {
    grid: Grid,
    progress: Progress,
    block: Option<Block>,
    clock: Option<Oscillator>,
    tower: Vec<PlacedRow>,
}

impl View for Game {
    type V = GameState;

    closed spec fn view(&self) -> GameState {
        GameState {
            grid: self.grid,
            progress: self.progress,
            block: self.block,
            clock: self.clock,
            tower: self.tower@,
        }
    }
}

impl Game {
    /// Starts a game in `grid`, if a game can be played there.
    pub fn new(grid: Grid) -> (game: Option<Game>)
        ensures
            game is Some <==> playable(grid),
            game matches Some(g) ==> g@ == GameState::initial(grid) && g@.valid(),
    {
        if grid.columns > WIDEST_BLOCK && grid.rows >= 1 {
            Some(
                Game {
                    grid,
                    progress: Progress::start(),
                    block: None,
                    clock: None,
                    tower: Vec::new(),
                },
            )
        } else {
            None
        }
    }

    /// Starts a game in the standard lane.
    pub fn standard() -> (game: Game)
        ensures
            game@ == GameState::initial(Grid { columns: 7, rows: 15 }),
            game@.valid(),
    {
        Game {
            grid: Grid::standard(),
            progress: Progress::start(),
            block: None,
            clock: None,
            tower: Vec::new(),
        }
    }

    /// Tests whether every row of the tower lies inside the lane, is at least
    /// one column wide, and lies inside the row below it.
    fn tower_stands(&self) -> (ok: bool)
        ensures
            ok == self@.tower_stands(),
    {
        let mut i: usize = 0;
        while i < self.tower.len()
            invariant
                i <= self.tower.len(),
                forall|k: int|
                    0 <= k < i ==> {
                        &&& (#[trigger] self.tower@[k]).width >= 1
                        &&& self.tower@[k].within(self.grid.columns as int)
                    },
                forall|k: int| 0 < k < i ==> (#[trigger] self.tower@[k]).inside(self.tower@[k - 1]),
            decreases self.tower.len() - i,
        {
            let row: PlacedRow = self.tower[i];
            let end: u64 = row.left_column as u64 + row.width as u64;
            if row.width < 1 || end > self.grid.columns as u64 {
                assert(self@.tower[i as int] == row);
                return false;
            }
            if i > 0 {
                let below: PlacedRow = self.tower[i - 1];
                let below_end: u64 = below.left_column as u64 + below.width as u64;
                if row.left_column < below.left_column || end > below_end {
                    assert(self@.tower[i as int] == row && self@.tower[i - 1] == below);
                    return false;
                }
            }
            i = i + 1;
        }
        true
    }

    /// Tests whether the game is in a state that a game can reach. It is, in
    /// every game that this library has made and changed; the test is there
    /// for callers that want to see it.
    pub fn is_valid(&self) -> (ok: bool)
        ensures
            ok == self@.valid(),
    {
        let active: bool = match self.block {
            Some(block) => block.active,
            None => false,
        };
        let block_fits: bool = match self.block {
            Some(block) => block.fits(self.grid.columns),
            None => true,
        };
        let block_is_of_level: bool = match self.block {
            Some(block) => block.width == width_for_level(self.progress.level),
            None => false,
        };
        let clock_runs: bool = match self.clock {
            Some(clock) => clock.rate == self.progress.level as u64 + 3 && clock.phase
                < SUBUNITS_PER_UNIT,
            None => true,
        };
        let won: bool = self.progress.game_over && self.progress.level == self.grid.rows;
        let lane_ok: bool = self.grid.columns > WIDEST_BLOCK && self.grid.rows >= 1;
        let level_ok: bool = self.tower.len() == self.progress.level as usize
            && self.progress.level <= self.grid.rows
            && (self.progress.game_over || self.progress.level < self.grid.rows)
            && (!won || self.progress.spawn_new);
        let block_ok: bool = block_fits
            && (!active || (!self.progress.game_over && !self.progress.spawn_new
            && block_is_of_level))
            && (self.progress.spawn_new || self.block.is_some())
            && (self.progress.spawn_new || self.progress.game_over || active);
        let clock_ok: bool = self.clock.is_some() == active && clock_runs;
        lane_ok && level_ok && self.tower_stands() && block_ok && clock_ok
    }

    /// Creates the block that is due, if one is due and the game goes on, and
    /// returns whether it did.
    pub fn spawn(&mut self) -> (spawned: bool)
        requires
            old(self)@.valid(),
        ensures
            spawned == old(self)@.spawns(),
            final(self)@ == old(self)@.spawned(),
            final(self)@.valid(),
    {
        if self.progress.spawn_new && !self.progress.game_over {
            self.block = Some(Block::spawn(self.progress.level));
            self.clock = Some(Oscillator::start(self.progress.level));
            self.progress.spawn_new = false;
            true
        } else {
            false
        }
    }

    /// Moves the sliding block by one elapsed tick. Without a sliding block
    /// nothing changes.
    pub fn tick(&mut self)
        requires
            old(self)@.valid(),
        ensures
            final(self)@ == old(self)@.ticked(),
            final(self)@.valid(),
    {
        match self.block {
            Some(mut block) => {
                if block.active {
                    block.advance(self.grid.columns);
                    self.block = Some(block);
                }
            },
            None => {},
        }
    }

    /// Lets `elapsed` subunits of time go by: the clock of the sliding block
    /// goes on, and the block moves by one tick if the clock fires. Returns
    /// whether it fired. Without a sliding block nothing changes.
    pub fn wait(&mut self, elapsed: u32) -> (fired: bool)
        requires
            old(self)@.valid(),
        ensures
            fired == (old(self)@.clock matches Some(c) && c.fires(elapsed)),
            final(self)@ == old(self)@.waited(elapsed),
            final(self)@.valid(),
    {
        match self.clock {
            Some(mut clock) => {
                let fired: bool = clock.tick(elapsed);
                self.clock = Some(clock);
                if fired {
                    self.tick();
                }
                fired
            },
            None => false,
        }
    }

    /// What a frozen block is measured against: the whole lane for the first
    /// row, the row placed last for every other.
    pub fn reference(&self) -> (footprint: Footprint)
        requires
            self@.valid(),
        ensures
            footprint == self@.reference(),
    {
        if self.progress.level == 0 {
            self.grid.lane()
        } else {
            self.tower[self.tower.len() - 1]
        }
    }

    /// Hears a freeze signal: the sliding block stops, and what it shares with
    /// the row below (with the whole lane, for the first row) becomes the next
    /// row; if it shares nothing, the game is lost. Returns what happened.
    /// Without a sliding block nothing changes.
    pub fn freeze(&mut self) -> (placement: Placement)
        requires
            old(self)@.valid(),
        ensures
            placement == old(self)@.placement(),
            final(self)@ == old(self)@.frozen(),
            final(self)@.valid(),
    {
        let mut block: Block = match self.block {
            Some(block) => block,
            None => {
                return Placement::Ignored;
            },
        };
        if !block.active {
            return Placement::Ignored;
        }
        let reference: Footprint = self.reference();
        let shared: Option<Footprint> = block.footprint().overlap(&reference);
        proof {
            lemma_common_is_intersection(block.cells(), reference);
        }
        block.freeze();
        self.block = Some(block);
        self.clock = None;
        match shared {
            Some(row) => {
                self.tower.push(row);
                self.progress.level = self.progress.level + 1;
                self.progress.spawn_new = true;
                self.progress.game_over = self.progress.level >= self.grid.rows;
                Placement::Placed(row)
            },
            None => {
                self.progress.game_over = true;
                Placement::Eliminated
            },
        }
    }

    /// Starts the game anew in the same lane, whatever state it is in.
    pub fn reset(&mut self)
        requires
            old(self)@.valid(),
        ensures
            final(self)@ == GameState::initial(old(self)@.grid),
            final(self)@.valid(),
    {
        self.progress = Progress::start();
        self.block = None;
        self.clock = None;
        self.tower.clear();
    }

    /// Plays one frame: a block that is due appears, `elapsed` subunits of
    /// time go by, then the freeze signal and last the reset are heard, each
    /// if it was given. Returns what there is to show afterwards.
    pub fn step(&mut self, elapsed: u32, freeze: bool, reset: bool) -> (snapshot: Snapshot)
        requires
            old(self)@.valid(),
        ensures
            final(self)@ == old(self)@.stepped(elapsed, freeze, reset),
            final(self)@.valid(),
            snapshot == final(self)@.shown(),
    {
        self.spawn();
        self.wait(elapsed);
        if freeze {
            self.freeze();
        }
        if reset {
            self.reset();
        }
        self.snapshot()
    }

    /// What there is to show of the game as it stands.
    pub fn snapshot(&self) -> (snapshot: Snapshot)
        ensures
            snapshot == self@.shown(),
    {
        Snapshot {
            progress: self.progress,
            outcome: self.progress.outcome(self.grid.rows),
            block: self.block,
        }
    }

    /// The lane.
    pub fn grid(&self) -> (grid: Grid)
        ensures
            grid == self@.grid,
    {
        self.grid
    }

    /// Where the game stands.
    pub fn progress(&self) -> (progress: Progress)
        ensures
            progress == self@.progress,
    {
        self.progress
    }

    /// How many rows have been placed.
    pub fn level(&self) -> (level: u32)
        ensures
            level == self@.progress.level,
    {
        self.progress.level
    }

    /// Whether the game has ended.
    pub fn game_over(&self) -> (over: bool)
        ensures
            over == self@.progress.game_over,
    {
        self.progress.game_over
    }

    /// How the game stands: running, won or lost.
    pub fn outcome(&self) -> (outcome: Outcome)
        ensures
            outcome == self@.outcome(),
    {
        self.progress.outcome(self.grid.rows)
    }

    /// Where the game is in its course.
    pub fn stage(&self) -> (stage: Stage)
        ensures
            stage == self@.stage(),
    {
        match self.outcome() {
            Outcome::Won => Stage::Won,
            Outcome::Lost => Stage::Lost,
            Outcome::Running => if self.progress.spawn_new {
                Stage::Spawning
            } else {
                Stage::Active
            },
        }
    }

    /// What the score line shows.
    pub fn score(&self) -> (score: Score)
        ensures
            score == self@.progress.score_in(self@.grid.rows),
    {
        self.progress.score(self.grid.rows)
    }

    /// The block that is sliding, or the one that was frozen last.
    pub fn block(&self) -> (block: Option<Block>)
        ensures
            block == self@.block,
    {
        self.block
    }

    /// The rows placed so far, from the bottom up.
    pub fn tower(&self) -> (rows: &Vec<PlacedRow>)
        ensures
            rows@ == self@.tower,
    {
        &self.tower
    }

    /// The row placed last, if any has been placed.
    pub fn top_row(&self) -> (row: Option<PlacedRow>)
        ensures
            row == (if self@.tower.len() == 0 {
                None
            } else {
                Some(self@.tower.last())
            }),
    {
        let placed: usize = self.tower.len();
        if placed == 0 {
            None
        } else {
            Some(self.tower[placed - 1])
        }
    }
}

} // verus!
