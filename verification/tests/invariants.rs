use stacker::{Game, Grid, Placement, Stage};

#[test]
fn every_state_of_a_game_is_valid() {
    let mut game = Game::new(Grid::new(7, 15)).unwrap();
    assert!(game.is_valid());
    let mut frame: u32 = 0;
    while game.stage() != Stage::Won && game.stage() != Stage::Lost {
        frame += 1;
        let freeze = frame % 7 == 0;
        game.step(90_000 + frame * 1_000, freeze, false);
        assert!(game.is_valid());
        let block = game.block().unwrap();
        assert!(block.left_column + block.width <= 7);
        assert!(frame < 10_000);
    }
    game.step(1_000_000, true, false);
    assert!(game.is_valid());
    game.reset();
    assert!(game.is_valid());
    assert_eq!(game.stage(), Stage::Spawning);
}

#[test]
fn tower_narrows_upwards() {
    let mut game = Game::standard();
    let shifts: [u32; 5] = [0, 1, 0, 1, 0];
    for ticks in shifts {
        game.spawn();
        for _ in 0..ticks {
            game.tick();
        }
        if game.freeze() == Placement::Eliminated {
            break;
        }
    }
    let tower = game.tower();
    assert_eq!(tower.len() as u32, game.level());
    assert!(tower.len() >= 3);
    for pair in tower.windows(2) {
        assert!(pair[0].left_column <= pair[1].left_column);
        assert!(pair[1].left_column + pair[1].width <= pair[0].left_column + pair[0].width);
        assert!(pair[1].width >= 1);
    }
}

#[test]
fn stages_follow_each_other() {
    let mut game = Game::new(Grid::new(5, 2)).unwrap();
    assert_eq!(game.stage(), Stage::Spawning);
    assert!(game.spawn());
    assert_eq!(game.stage(), Stage::Active);
    assert!(!game.spawn());
    game.wait(400_000);
    assert_eq!(game.stage(), Stage::Active);
    game.freeze();
    assert_eq!(game.stage(), Stage::Spawning);
    game.spawn();
    game.freeze();
    assert_eq!(game.stage(), Stage::Won);
    game.reset();
    assert_eq!(game.stage(), Stage::Spawning);
}
