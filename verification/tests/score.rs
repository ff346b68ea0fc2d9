use stacker::score::push_decimal;
use stacker::{Game, Outcome, Progress, Score};

#[test]
fn score_line_counts_the_rows() {
    assert_eq!(Score::Rows(0).text(), "Score: 0");
    assert_eq!(Score::Rows(7).text(), "Score: 7");
    assert_eq!(Score::Rows(10).text(), "Score: 10");
    assert_eq!(Score::Rows(14).text(), "Score: 14");
    assert_eq!(Score::Rows(4_294_967_295).text(), "Score: 4294967295");
    assert_eq!(Score::Rows(1_000_000).text(), "Score: 1000000");
}

#[test]
fn score_line_tells_a_loss_from_a_win() {
    assert_eq!(Score::GameOver.text(), "Score: Game Over");
    assert_eq!(Score::Won(15).text(), "Score: 15 \u{2014} You Won");
    assert_eq!(Score::Won(1).text(), "Score: 1 \u{2014} You Won");
}

#[test]
fn decimal_is_written_after_what_is_there() {
    let mut text = String::from("n=");
    push_decimal(&mut text, 905);
    push_decimal(&mut text, 0);
    assert_eq!(text, "n=9050");
    for n in [0u32, 9, 10, 99, 100, 12345, u32::MAX] {
        let mut written = String::new();
        push_decimal(&mut written, n);
        assert_eq!(written, n.to_string());
    }
}

#[test]
fn outcome_follows_level_and_game_over() {
    let running = Progress { level: 15, spawn_new: false, game_over: false };
    assert_eq!(running.outcome(15), Outcome::Running);
    assert_eq!(running.score(15), Score::Rows(15));
    let won = Progress { level: 15, spawn_new: true, game_over: true };
    assert_eq!(won.outcome(15), Outcome::Won);
    assert_eq!(won.score(15), Score::Won(15));
    let lost = Progress { level: 14, spawn_new: false, game_over: true };
    assert_eq!(lost.outcome(15), Outcome::Lost);
    assert_eq!(lost.score(15), Score::GameOver);
    assert_eq!(Progress::start(), Progress { level: 0, spawn_new: true, game_over: false });
}

#[test]
fn score_of_a_game_in_play() {
    let mut game = Game::standard();
    assert_eq!(game.score(), Score::Rows(0));
    game.spawn();
    game.freeze();
    assert_eq!(game.score(), Score::Rows(1));
    assert_eq!(game.score().text(), "Score: 1");
}
