use vstd::prelude::*;
use crate::block::{width_at, Block, WIDEST_BLOCK};
use crate::footprint::Footprint;
use crate::grid::Grid;
use crate::oscillator::Oscillator;
use crate::progress::{Outcome, Progress};

verus! {

/// A footprint that has been accepted onto the tower.
pub type PlacedRow = Footprint;

/// What the renderer and the score line read after a frame.
#[derive(Clone, Copy, Debug, PartialEq, Eq)]
pub struct Snapshot {
    pub progress: Progress,
    pub outcome: Outcome,
    pub block: Option<Block>,
}

/// Where a game is in its course.
#[derive(Clone, Copy, Debug, PartialEq, Eq, Structural)]
pub enum Stage {
    /// A fresh block is due: at the start, and after each row that is placed.
    Spawning,
    /// A block is sliding and waits for the freeze signal.
    Active,
    /// The game has ended with a full tower.
    Won,
    /// The game has ended with a lost block.
    Lost,
}

/// What a freeze signal did.
#[derive(Clone, Copy, Debug, PartialEq, Eq, Structural)]
pub enum Placement {
    /// No block was active: nothing happened.
    Ignored,
    /// The block shared columns with what lies below; they became this row.
    Placed(PlacedRow),
    /// The block shared no column with the row below and was lost.
    Eliminated,
}

/// The whole state of a game, as mathematics: the model that the game's
/// operations are stated over.
pub struct GameState {
    pub grid: Grid,
    pub progress: Progress,
    /// The block that is sliding, or the one that was frozen last.
    pub block: Option<Block>,
    /// The clock of the sliding block.
    pub clock: Option<Oscillator>,
    /// The rows placed so far, from the bottom up.
    pub tower: Seq<PlacedRow>,
}

/// A game can be played in a lane that is wider than the widest block, so that
/// every block has room to move, and that has at least one row.
pub open spec fn playable(grid: Grid) -> bool {
    grid.columns > WIDEST_BLOCK && grid.rows >= 1
}

impl GameState {
    /// The state in which every game starts, and to which a reset returns.
    pub open spec fn initial(grid: Grid) -> GameState {
        GameState {
            grid,
            progress: Progress::initial(),
            block: None,
            clock: None,
            tower: Seq::empty(),
        }
    }

    /// Whether a block is sliding.
    pub open spec fn has_active_block(self) -> bool {
        self.block matches Some(b) && b.active
    }

    /// How the game stands.
    pub open spec fn outcome(self) -> Outcome {
        self.progress.outcome_in(self.grid.rows)
    }

    /// Where the game is in its course.
    pub open spec fn stage(self) -> Stage {
        match self.outcome() {
            Outcome::Won => Stage::Won,
            Outcome::Lost => Stage::Lost,
            Outcome::Running => if self.progress.spawn_new {
                Stage::Spawning
            } else {
                Stage::Active
            },
        }
    }

    /// What a frozen block is measured against: the whole lane for the first
    /// row, the row placed last for every other.
    pub open spec fn reference(self) -> Footprint {
        if self.progress.level == 0 {
            self.grid.lane_footprint()
        } else {
            self.tower.last()
        }
    }

    /// Every row of the tower lies inside the lane, is at least one column
    /// wide, and lies inside the row below it.
    pub open spec fn tower_stands(self) -> bool {
        &&& forall|i: int|
            0 <= i < self.tower.len() ==> {
                &&& (#[trigger] self.tower[i]).width >= 1
                &&& self.tower[i].within(self.grid.columns as int)
            }
        &&& forall|i: int|
            0 < i < self.tower.len() ==> (#[trigger] self.tower[i]).inside(self.tower[i - 1])
    }

    /// What holds of every state that a game can reach.
    pub open spec fn valid(self) -> bool {
        &&& playable(self.grid)
        &&& self.tower.len() == self.progress.level
        &&& self.progress.level <= self.grid.rows
        &&& !self.progress.game_over ==> self.progress.level < self.grid.rows
        &&& self.outcome() == Outcome::Won ==> self.progress.spawn_new
        &&& self.tower_stands()
        &&& self.block matches Some(b) ==> b.valid_in(self.grid.columns)
        &&& self.has_active_block() ==> {
            &&& !self.progress.game_over
            &&& !self.progress.spawn_new
            &&& self.block.unwrap().width == width_at(self.progress.level as nat)
        }
        &&& !self.progress.spawn_new ==> self.block is Some
        &&& !self.progress.spawn_new && !self.progress.game_over ==> self.has_active_block()
        &&& self.clock is Some <==> self.has_active_block()
        &&& self.clock matches Some(c) ==> c.valid_at(self.progress.level as nat)
    }

    /// Whether a fresh block is created now: one is due and the game goes on.
    pub open spec fn spawns(self) -> bool {
        self.progress.spawn_new && !self.progress.game_over
    }

    /// The state after the factory has had its turn. Where a block is due and
    /// the game goes on, the block of this level appears at the left edge,
    /// heading right, with a fresh clock; nothing changes otherwise.
    pub open spec fn spawned(self) -> GameState {
        if self.spawns() {
            GameState {
                progress: Progress { spawn_new: false, ..self.progress },
                block: Some(Block::fresh(self.progress.level as nat)),
                clock: Some(Oscillator::fresh(self.progress.level as nat)),
                ..self
            }
        } else {
            self
        }
    }

    /// The state after one elapsed tick: a sliding block moves; nothing changes
    /// otherwise.
    pub open spec fn ticked(self) -> GameState {
        match self.block {
            Some(b) if b.active => GameState { block: Some(b.moved(self.grid.columns)), ..self },
            _ => self,
        }
    }

    /// The state after `elapsed` subunits of time have gone by: the clock of a
    /// sliding block goes on, and the block moves if the clock fires.
    pub open spec fn waited(self, elapsed: u32) -> GameState {
        match self.clock {
            Some(c) => {
                let later = GameState { clock: Some(c.after(elapsed)), ..self };
                if c.fires(elapsed) {
                    later.ticked()
                } else {
                    later
                }
            },
            None => self,
        }
    }

    /// What a freeze signal does in this state.
    pub open spec fn placement(self) -> Placement {
        match self.block {
            Some(b) if b.active => match b.cells().common(self.reference()) {
                Some(row) => Placement::Placed(row),
                None => Placement::Eliminated,
            },
            _ => Placement::Ignored,
        }
    }

    /// The state after a freeze signal. A sliding block stops and loses its
    /// clock. If it shares no column with what it is measured against, the
    /// game is over and nothing else changes. Otherwise the shared columns
    /// become the next row, a fresh block is due, the level goes up by one,
    /// and the game is over once the level has reached the lane's rows.
    /// Without a sliding block nothing changes.
    pub open spec fn frozen(self) -> GameState {
        match self.block {
            Some(b) if b.active => {
                let stopped = GameState { block: Some(b.frozen()), clock: None, ..self };
                match b.cells().common(self.reference()) {
                    Some(row) => GameState {
                        progress: Progress {
                            level: (self.progress.level + 1) as u32,
                            spawn_new: true,
                            game_over: self.progress.level + 1 >= self.grid.rows,
                        },
                        tower: self.tower.push(row),
                        ..stopped
                    },
                    None => GameState {
                        progress: Progress { game_over: true, ..self.progress },
                        ..stopped
                    },
                }
            },
            _ => self,
        }
    }

    /// What there is to show of this state.
    pub open spec fn shown(self) -> Snapshot {
        Snapshot { progress: self.progress, outcome: self.outcome(), block: self.block }
    }

    /// The state after a reset: the initial state of the same lane.
    pub open spec fn restarted(self) -> GameState {
        GameState::initial(self.grid)
    }

    /// The state after one frame: first a block that is due appears, then time
    /// goes by and the block may move, then the freeze signal is heard, and
    /// last the reset.
    pub open spec fn stepped(self, elapsed: u32, freeze: bool, reset: bool) -> GameState {
        let moved = self.spawned().waited(elapsed);
        let placed = if freeze {
            moved.frozen()
        } else {
            moved
        };
        if reset {
            placed.restarted()
        } else {
            placed
        }
    }
}

} // verus!
