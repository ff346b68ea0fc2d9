use vstd::prelude::*;
use crate::score::Score;

verus! {

/// Where the game stands. Plain data.
#[derive(Clone, Copy, Debug, PartialEq, Eq, Structural)]
pub struct Progress {
    /// How many rows have been placed; also the row that is being attempted.
    pub level: u32,
    /// A fresh block is due before the next tick.
    pub spawn_new: bool,
    /// The game has ended, won or lost.
    pub game_over: bool,
}

/// How a game stands or ended.
#[derive(Clone, Copy, Debug, PartialEq, Eq, Structural)]
pub enum Outcome {
    /// The game goes on.
    Running,
    /// The tower has reached its full height.
    Won,
    /// A block found nothing below it to rest on.
    Lost,
}

impl Progress {
    /// Where every game starts: nothing placed, a block due, not over.
    pub open spec fn initial() -> Progress {
        Progress { level: 0, spawn_new: true, game_over: false }
    }

    /// How the game stands in a lane of `rows` rows. A game that is over was
    /// won if the tower is `rows` high, and lost otherwise.
    pub open spec fn outcome_in(self, rows: u32) -> Outcome {
        if !self.game_over {
            Outcome::Running
        } else if self.level == rows {
            Outcome::Won
        } else {
            Outcome::Lost
        }
    }

    /// What the score line shows in a lane of `rows` rows.
    pub open spec fn score_in(self, rows: u32) -> Score {
        match self.outcome_in(rows) {
            Outcome::Running => Score::Rows(self.level),
            Outcome::Won => Score::Won(self.level),
            Outcome::Lost => Score::GameOver,
        }
    }

    /// The progress of a game that has not begun.
    pub fn start() -> (progress: Progress)
        ensures
            progress == Progress::initial(),
    {
        Progress { level: 0, spawn_new: true, game_over: false }
    }

    /// Tells how the game stands in a lane of `rows` rows.
    pub fn outcome(&self, rows: u32) -> (outcome: Outcome)
        ensures
            outcome == self.outcome_in(rows),
    {
        if !self.game_over {
            Outcome::Running
        } else if self.level == rows {
            Outcome::Won
        } else {
            Outcome::Lost
        }
    }

    /// Tells what the score line shows in a lane of `rows` rows.
    pub fn score(&self, rows: u32) -> (score: Score)
        ensures
            score == self.score_in(rows),
    {
        match self.outcome(rows) {
            Outcome::Running => Score::Rows(self.level),
            Outcome::Won => Score::Won(self.level),
            Outcome::Lost => Score::GameOver,
        }
    }
}

} // verus!
