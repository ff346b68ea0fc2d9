use vstd::prelude::*;
use crate::block::{width_at, Block, Direction, WIDEST_BLOCK};
use crate::footprint::lemma_common_is_intersection;
use crate::grid::Grid;
use crate::oscillator::{periods_per_unit, Oscillator, SUBUNITS_PER_UNIT};
use crate::progress::{Outcome, Progress};
use crate::state::{playable, GameState, Placement, Stage};

verus! {

/// A later level never offers a wider block than an earlier one, and every
/// block is between one column and `WIDEST_BLOCK` columns wide.
pub proof fn law_width_never_grows(earlier: nat, later: nat)
    requires
        earlier <= later,
    ensures
        width_at(later) <= width_at(earlier),
        1 <= width_at(later),
        width_at(earlier) <= WIDEST_BLOCK,
{
}

/// The clock of a later level has more periods in a time unit than that of an
/// earlier one, so its period is strictly shorter; and no level has fewer than
/// three, so no period is longer than a third of a time unit.
pub proof fn law_period_shrinks(earlier: nat, later: nat)
    requires
        earlier < later,
    ensures
        periods_per_unit(earlier) < periods_per_unit(later),
        periods_per_unit(earlier) >= 3,
{
}

/// A fresh clock of `level` fires exactly when the time it is told of is at
/// least `1 / (level + 3)` of a time unit: when `level + 3` times that time
/// makes a whole time unit or more.
pub proof fn law_fresh_clock_fires_after_one_period(level: u32, elapsed: u32)
    ensures
        Oscillator::fresh(level as nat).fires(elapsed) <==> elapsed * (level + 3)
            >= SUBUNITS_PER_UNIT,
{
}

/// A clock that has not fired carries over all the time it was told of; one
/// that has fired carries over what went by beyond whole periods, which is
/// less than one period.
pub proof fn law_clock_keeps_time(clock: Oscillator, elapsed: u32)
    ensures
        !clock.fires(elapsed) ==> clock.after(elapsed).phase == clock.due(elapsed),
        clock.after(elapsed).phase < SUBUNITS_PER_UNIT,
        clock.after(elapsed).rate == clock.rate,
        (clock.due(elapsed) - clock.after(elapsed).phase) % (SUBUNITS_PER_UNIT as int) == 0,
{
    let due = clock.due(elapsed);
    assert(clock.phase >= 0 && elapsed * clock.rate >= 0) by (nonlinear_arith)
        requires
            clock.phase >= 0,
            elapsed >= 0,
            clock.rate >= 0,
    ;
    assert(due == (SUBUNITS_PER_UNIT as int) * (due / (SUBUNITS_PER_UNIT as int)) + due % (
    SUBUNITS_PER_UNIT as int));
    assert(due < 0x1_0000_0000_0000_0000 * 0x1_0000_0000) by (nonlinear_arith)
        requires
            due == clock.phase + elapsed * clock.rate,
            clock.phase < 0x1_0000_0000_0000_0000,
            0 <= elapsed < 0x1_0000_0000,
            0 <= clock.rate < 0x1_0000_0000_0000_0000,
    ;
}

/// A sliding block with room to move stays inside the lane when it steps. It
/// steps left from the right edge, right from the left edge, and as it was
/// heading anywhere else; and it moves by exactly one column that way.
pub proof fn law_movement_stays_in_lane(block: Block, columns: u32)
    requires
        block.active,
        block.movable_in(columns),
    ensures
        block.moved(columns).movable_in(columns),
        0 <= block.moved(columns).left_column <= columns - block.width,
        block.moved(columns).width == block.width,
        block.moved(columns).active,
        block.left_column == columns - block.width ==> block.moved(columns).direction
            == Direction::Left,
        block.left_column == 0 ==> block.moved(columns).direction == Direction::Right,
        0 < block.left_column < columns - block.width ==> block.moved(columns).direction
            == block.direction,
        block.moved(columns).left_column == block.left_column + block.moved(
            columns,
        ).direction.delta(),
{
}

/// A block that lies inside the lane shares all its columns with it: measured
/// against the whole lane, its own footprint is what remains.
pub proof fn law_lane_keeps_the_whole_block(block: Block, grid: Grid)
    requires
        block.width >= 1,
        block.cells().within(grid.columns as int),
    ensures
        block.cells().common(grid.lane_footprint()) == Some(block.cells()),
{
}

/// On the first level a freeze always places the sliding block's own
/// footprint.
pub proof fn law_first_freeze_places_the_block(state: GameState)
    requires
        state.valid(),
        state.has_active_block(),
        state.progress.level == 0,
    ensures
        state.placement() == Placement::Placed(state.block.unwrap().cells()),
        state.frozen().tower == seq![state.block.unwrap().cells()],
        state.frozen().progress.level == 1,
        state.frozen().progress.spawn_new,
{
    law_lane_keeps_the_whole_block(state.block.unwrap(), state.grid);
    assert(state.tower =~= Seq::empty());
    assert(state.tower.push(state.block.unwrap().cells()) =~= seq![state.block.unwrap().cells()]);
}

/// On every later level a freeze places the columns that the sliding block
/// shares with the row placed last, and the level goes up by one; where they
/// share none, the game is over, no row is added and the level stays.
pub proof fn law_freeze_places_the_intersection(state: GameState)
    requires
        state.valid(),
        state.has_active_block(),
        state.progress.level >= 1,
    ensures
        state.placement() is Eliminated <==> state.block.unwrap().cells()@.disjoint(
            state.tower.last()@,
        ),
        state.placement() !is Ignored,
        state.placement() matches Placement::Placed(row) ==> {
            &&& row@ == state.block.unwrap().cells()@.intersect(state.tower.last()@)
            &&& row.width >= 1
            &&& state.frozen().tower == state.tower.push(row)
            &&& state.frozen().progress.level == state.progress.level + 1
            &&& state.frozen().progress.spawn_new
        },
        state.placement() is Eliminated ==> {
            &&& state.frozen().progress.game_over
            &&& state.frozen().outcome() == Outcome::Lost
            &&& state.frozen().tower == state.tower
            &&& state.frozen().progress.level == state.progress.level
        },
{
    lemma_common_is_intersection(state.block.unwrap().cells(), state.tower.last());
}

/// A freeze that places the last row of the lane ends the game as won; one
/// that places any earlier row lets it go on.
pub proof fn law_full_tower_wins(state: GameState)
    requires
        state.valid(),
        state.has_active_block(),
        state.placement() is Placed,
    ensures
        state.frozen().progress.level == state.grid.rows ==> state.frozen().progress.game_over
            && state.frozen().outcome() == Outcome::Won,
        state.frozen().progress.level != state.grid.rows ==> !state.frozen().progress.game_over
            && state.frozen().outcome() == Outcome::Running,
{
}

/// A reset leads from any state to the initial one of the same lane: nothing
/// placed, a block due, the game not over, no block and no row left.
pub proof fn law_reset_restores_the_start(state: GameState, elapsed: u32, freeze: bool)
    ensures
        state.restarted() == GameState::initial(state.grid),
        state.stepped(elapsed, freeze, true) == GameState::initial(state.grid),
        state.restarted().progress == (Progress { level: 0, spawn_new: true, game_over: false }),
        state.restarted().tower.len() == 0,
        state.restarted().block is None,
        state.restarted().clock is None,
        playable(state.grid) ==> state.restarted().valid(),
{
}

/// The course of a game. A block is sliding exactly in the stage `Active`.
/// From `Spawning` the factory leads to `Active`, where time may go by; a
/// freeze leads from `Active` to `Spawning`, `Won` or `Lost`, and does nothing
/// in any other stage. In `Won` and `Lost` nothing happens any more, whatever
/// time goes by and whatever is frozen: only a reset leads on, to `Spawning`.
pub proof fn law_stages_follow_each_other(state: GameState, elapsed: u32, freeze: bool)
    requires
        state.valid(),
    ensures
        state.stage() == Stage::Active <==> state.has_active_block(),
        state.stage() == Stage::Spawning ==> state.spawned().stage() == Stage::Active,
        state.stage() != Stage::Spawning ==> state.spawned() == state,
        state.stage() == Stage::Active ==> state.waited(elapsed).stage() == Stage::Active,
        state.stage() != Stage::Active ==> state.waited(elapsed) == state && state.frozen()
            == state,
        state.stage() == Stage::Active ==> state.frozen().stage() != Stage::Active,
        state.stage() == Stage::Won || state.stage() == Stage::Lost ==> state.stepped(
            elapsed,
            freeze,
            false,
        ) == state,
        state.restarted().stage() == Stage::Spawning,
{
}

/// The tower is as high as the level says, never higher than the lane, and
/// no row is wider than the row below it.
pub proof fn law_tower_narrows_upwards(state: GameState, lower: int, upper: int)
    requires
        state.valid(),
        0 <= lower <= upper < state.tower.len(),
    ensures
        state.tower.len() == state.progress.level,
        state.progress.level <= state.grid.rows,
        state.tower[upper].inside(state.tower[lower]),
        1 <= state.tower[upper].width <= state.tower[lower].width,
        state.tower[lower].within(state.grid.columns as int),
    decreases upper - lower,
{
    if lower < upper {
        law_tower_narrows_upwards(state, lower, upper - 1);
        assert(state.tower[upper].inside(state.tower[upper - 1]));
    }
}

/// Every operation leads from a state that a game can reach to another one.
pub proof fn law_operations_keep_states_valid(
    state: GameState,
    elapsed: u32,
    freeze: bool,
    reset: bool,
)
    requires
        state.valid(),
    ensures
        state.spawned().valid(),
        state.ticked().valid(),
        state.waited(elapsed).valid(),
        state.frozen().valid(),
        state.restarted().valid(),
        state.stepped(elapsed, freeze, reset).valid(),
{
    lemma_spawn_keeps_valid(state);
    lemma_wait_keeps_valid(state, elapsed);
    lemma_freeze_keeps_valid(state);
    let moved = state.spawned().waited(elapsed);
    lemma_wait_keeps_valid(state.spawned(), elapsed);
    lemma_freeze_keeps_valid(moved);
}

proof fn lemma_spawn_keeps_valid(state: GameState)
    requires
        state.valid(),
    ensures
        state.spawned().valid(),
{
}

proof fn lemma_wait_keeps_valid(state: GameState, elapsed: u32)
    requires
        state.valid(),
    ensures
        state.ticked().valid(),
        state.waited(elapsed).valid(),
{
    if let Some(c) = state.clock {
        law_clock_keeps_time(c, elapsed);
    }
}

proof fn lemma_freeze_keeps_valid(state: GameState)
    requires
        state.valid(),
    ensures
        state.frozen().valid(),
{
    if state.has_active_block() {
        lemma_common_is_intersection(state.block.unwrap().cells(), state.reference());
    }
}

} // verus!
