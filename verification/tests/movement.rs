use stacker::{width_for_level, Block, Direction, Footprint, Game, Oscillator, Placement, Stage};

#[test]
fn width_steps_down_with_the_level() {
    let widths: Vec<u32> = (0..12u32).map(width_for_level).collect();
    assert_eq!(widths, vec![3, 3, 3, 2, 2, 2, 2, 2, 1, 1, 1, 1]);
    assert_eq!(width_for_level(14), 1);
    assert_eq!(width_for_level(u32::MAX), 1);
    for level in 0..40u32 {
        assert!(width_for_level(level + 1) <= width_for_level(level));
    }
}

#[test]
fn spawned_block_starts_at_the_left_heading_right() {
    for (level, width) in [(0u32, 3u32), (2, 3), (3, 2), (7, 2), (8, 1), (14, 1)] {
        assert_eq!(
            Block::spawn(level),
            Block { width, left_column: 0, direction: Direction::Right, active: true }
        );
    }
}

#[test]
fn block_bounces_between_the_edges() {
    let mut block = Block::spawn(0);
    let mut seen: Vec<(u32, i32)> = Vec::new();
    for _ in 0..10 {
        block.advance(7);
        assert!(block.can_move(7));
        seen.push((block.left_column, block.direction.offset()));
    }
    assert_eq!(
        seen,
        vec![(1, 1), (2, 1), (3, 1), (4, 1), (3, -1), (2, -1), (1, -1), (0, -1), (1, 1), (2, 1)]
    );
}

#[test]
fn narrow_block_reaches_the_last_column() {
    let mut block = Block::spawn(8);
    let mut rightmost: u32 = 0;
    for _ in 0..30 {
        block.advance(7);
        assert!(block.left_column <= 6);
        rightmost = rightmost.max(block.left_column);
    }
    assert_eq!(rightmost, 6);
}

#[test]
fn block_with_one_free_column_swings_between_two_places() {
    let mut block = Block::spawn(0);
    let mut seen: Vec<u32> = Vec::new();
    for _ in 0..5 {
        block.advance(4);
        seen.push(block.left_column);
    }
    assert_eq!(seen, vec![1, 0, 1, 0, 1]);
}

#[test]
fn frozen_block_does_not_move() {
    let mut block = Block::spawn(3);
    block.advance(7);
    block.freeze();
    assert_eq!(
        block,
        Block { width: 2, left_column: 1, direction: Direction::Stopped, active: false }
    );
    block.advance(7);
    assert_eq!(block.left_column, 1);
    assert_eq!(block.direction.offset(), 0);
    assert!(block.fits(7));
}

#[test]
fn fits_tells_valid_blocks_from_others() {
    let good = Block { width: 3, left_column: 4, direction: Direction::Left, active: true };
    assert!(good.fits(7));
    assert!(good.can_move(7));
    assert!(!good.fits(6));
    let whole = Block { width: 7, left_column: 0, direction: Direction::Right, active: true };
    assert!(whole.fits(7));
    assert!(!whole.can_move(7));
    let empty = Block { width: 0, left_column: 0, direction: Direction::Right, active: true };
    assert!(!empty.fits(7));
    let idle = Block { width: 1, left_column: 0, direction: Direction::Stopped, active: true };
    assert!(!idle.fits(7));
    let drifting = Block { width: 1, left_column: 0, direction: Direction::Left, active: false };
    assert!(!drifting.fits(7));
    let far = Block { width: u32::MAX, left_column: u32::MAX, direction: Direction::Stopped, active: false };
    assert!(!far.fits(u32::MAX));
    assert_eq!(good.footprint(), Footprint { left_column: 4, width: 3 });
}

#[test]
fn overlap_is_the_intersection() {
    let a = Footprint::new(2, 3);
    assert_eq!(a.overlap(&a), Some(a));
    assert_eq!(a.overlap(&Footprint::new(0, 7)), Some(a));
    assert_eq!(Footprint::new(0, 7).overlap(&a), Some(a));
    assert_eq!(a.overlap(&Footprint::new(0, 3)), Some(Footprint::new(2, 1)));
    assert_eq!(a.overlap(&Footprint::new(4, 9)), Some(Footprint::new(4, 1)));
    assert_eq!(a.overlap(&Footprint::new(5, 2)), None);
    assert_eq!(a.overlap(&Footprint::new(0, 2)), None);
    assert_eq!(a.overlap(&Footprint::new(3, 0)), None);
    assert_eq!(Footprint::new(3, 0).overlap(&a), None);
    let wide = Footprint::new(u32::MAX, u32::MAX);
    assert_eq!(wide.overlap(&wide), Some(wide));
    assert_eq!(wide.overlap(&Footprint::new(0, u32::MAX)), None);
    assert_eq!(
        Footprint::new(1, u32::MAX).overlap(&Footprint::new(0, u32::MAX)),
        Some(Footprint::new(1, u32::MAX - 1))
    );
}

#[test]
fn clock_of_the_first_level_fires_every_third_of_a_unit() {
    let mut clock = Oscillator::start(0);
    assert_eq!(clock, Oscillator { rate: 3, phase: 0 });
    assert!(!clock.tick(333_333));
    assert_eq!(clock.phase, 999_999);
    assert!(clock.tick(1));
    assert_eq!(clock.phase, 2);
    assert!(!clock.tick(0));
    assert!(!clock.tick(333_332));
    assert_eq!(clock.phase, 999_998);
    assert!(clock.tick(333_335));
    assert_eq!(clock.phase, 3);
}

#[test]
fn clock_gets_faster_with_the_level() {
    for level in 0..20u32 {
        let mut clock = Oscillator::start(level);
        assert_eq!(clock.rate, u64::from(level) + 3);
        let period_rounded_up = (1_000_000 + clock.rate - 1) / clock.rate;
        let mut early = clock;
        assert!(!early.tick((period_rounded_up - 1) as u32));
        assert!(clock.tick(period_rounded_up as u32));
    }
    let mut seventh = Oscillator::start(7);
    assert!(seventh.tick(100_000));
    assert_eq!(seventh.phase, 0);
    let mut last = Oscillator::start(u32::MAX);
    assert_eq!(last.rate, 4_294_967_298);
    assert!(last.tick(u32::MAX));
    assert!(last.phase < 1_000_000);
}

#[test]
fn clock_fires_once_however_long_the_frame() {
    let mut clock = Oscillator::start(0);
    assert!(clock.tick(5_000_000));
    assert_eq!(clock.phase, 0);
    assert!(!clock.tick(1));
}

#[test]
fn waiting_moves_the_block_when_the_clock_fires() {
    let mut game = Game::standard();
    assert!(!game.wait(1_000_000));
    game.spawn();
    assert!(!game.wait(200_000));
    assert_eq!(game.block().unwrap().left_column, 0);
    assert!(game.wait(200_000));
    assert_eq!(game.block().unwrap().left_column, 1);
    assert!(!game.wait(200_000));
    assert!(game.wait(200_000));
    assert_eq!(game.block().unwrap().left_column, 2);
}

#[test]
fn frame_spawns_then_moves_then_freezes_then_resets() {
    let mut game = Game::standard();
    let first = game.step(400_000, false, false);
    assert_eq!(
        first.block,
        Some(Block { width: 3, left_column: 1, direction: Direction::Right, active: true })
    );
    assert_eq!(first.progress.level, 0);
    assert!(!first.progress.spawn_new);
    assert_eq!(game.stage(), Stage::Active);

    let second = game.step(400_000, true, false);
    assert_eq!(
        second.block,
        Some(Block { width: 3, left_column: 2, direction: Direction::Stopped, active: false })
    );
    assert_eq!(second.progress.level, 1);
    assert!(second.progress.spawn_new);
    assert_eq!(game.top_row(), Some(Footprint::new(2, 3)));

    let third = game.step(0, false, false);
    assert_eq!(third.block.unwrap().left_column, 0);
    assert!(third.block.unwrap().active);

    let fourth = game.step(0, true, true);
    assert_eq!(fourth.progress.level, 0);
    assert!(fourth.progress.spawn_new);
    assert!(!fourth.progress.game_over);
    assert_eq!(fourth.block, None);
    assert!(game.tower().is_empty());
    assert_eq!(game.freeze(), Placement::Ignored);
}
