use pong::ball::ANGLE_LIMIT;
use pong::game::Game;
use pong::game::GameKey;
use pong::game::GameState;

fn playing_game() -> Game {
    let mut g = Game::new();
    g.start();
    g
}

#[test]
fn new_game_is_paused_with_standard_entities() {
    let g = Game::new();
    assert_eq!(g.state, GameState::Paused);
    assert_eq!(g.player1.number, 1);
    assert_eq!(g.player1.position_x, 25000);
    assert_eq!(g.player1.position_y, -3000);
    assert_eq!(g.player1.width, 500);
    assert_eq!(g.player1.height, 6000);
    assert_eq!(g.player1.score, 0);
    assert_eq!(g.player2.number, 2);
    assert_eq!(g.player2.position_x, -25000);
    assert_eq!(g.player2.score, 0);
    assert_eq!(g.menu.selected_item, 0);
    assert!(-ANGLE_LIMIT <= g.ball.angle && g.ball.angle < ANGLE_LIMIT);
}

#[test]
fn update_outside_play_mutates_nothing() {
    let mut g = Game::new();
    g.ball.position_x = 1234;
    g.ball.position_y = -777;
    g.player1.position_y = 4500;
    g.player1.score = 3;
    assert_eq!(g.state, GameState::Paused);
    g.update();
    assert_eq!(g.ball.position_x, 1234);
    assert_eq!(g.ball.position_y, -777);
    assert_eq!(g.ball.acceleration_x, 100);
    assert_eq!(g.ball.acceleration_y, 100);
    assert_eq!(g.player1.position_y, 4500);
    assert_eq!(g.player1.score, 3);
    assert_eq!(g.state, GameState::Paused);

    g.lose();
    assert_eq!(g.state, GameState::Lost);
    g.update();
    assert_eq!(g.ball.position_x, 1234);
    assert_eq!(g.player1.score, 3);
    assert_eq!(g.state, GameState::Lost);
}

#[test]
fn free_tick_advances_ball_by_its_speed() {
    // Ball at the origin with one world unit of speed per axis and nothing
    // to collide with: one tick moves it one world unit on each axis.
    let mut g = playing_game();
    g.ball.position_x = 0;
    g.ball.position_y = 0;
    assert_eq!(g.ball.acceleration_x, 100);
    assert_eq!(g.ball.acceleration_y, 100);
    g.update();
    assert_eq!(g.ball.position_x, 100);
    assert_eq!(g.ball.position_y, 100);
    assert_eq!(g.player1.score, 0);
    assert_eq!(g.player2.score, 0);
    assert_eq!(g.state, GameState::Playing);
    g.update();
    assert_eq!(g.ball.position_x, 200);
    assert_eq!(g.ball.position_y, 200);
}

#[test]
fn paddle_contact_reflects_grows_and_scores() {
    let mut g = playing_game();
    // Ball right in front of the right paddle (x 25000..25500, y
    // -3000..3000), overlapping its left edge from outside.
    g.ball.position_x = 24400;
    g.ball.position_y = 0;
    g.update();
    // Speed reversed and grown by 15 percent; the touched paddle scores.
    assert_eq!(g.ball.acceleration_x, -115);
    assert_eq!(g.ball.acceleration_y, 100);
    assert_eq!(g.player1.score, 1);
    assert_eq!(g.player2.score, 0);
    // Integration ran after the collision pass.
    assert_eq!(g.ball.position_x, 24400 - 115);
    assert_eq!(g.ball.position_y, 100);
    assert_eq!(g.state, GameState::Playing);
}

#[test]
fn top_wall_contact_reflects_y_once() {
    let mut g = playing_game();
    // Top wall spans x -28500..28500, y -18500..-18000. A ball overlapping
    // it matches both vertical touch predicates, yet the speed reverses
    // exactly once.
    g.ball.position_x = 0;
    g.ball.position_y = -18400;
    g.ball.acceleration_y = -100;
    g.update();
    assert_eq!(g.ball.acceleration_y, 115);
    assert_eq!(g.ball.acceleration_x, 100);
    assert_eq!(g.ball.position_y, -18400 + 115);
    assert_eq!(g.ball.position_x, 100);
    assert_eq!(g.player1.score, 0);
    assert_eq!(g.player2.score, 0);
}

#[test]
fn speed_clamp_holds_through_a_bounce() {
    let mut g = playing_game();
    // 455 * 115 / 100 == 523 would pass the clamp of 500, so a bounce only
    // reverses the speed.
    g.ball.position_x = 24400;
    g.ball.position_y = 0;
    g.ball.acceleration_x = 455;
    g.update();
    assert_eq!(g.ball.acceleration_x, -455);
}

#[test]
fn round_is_lost_past_the_right_paddle() {
    let mut g = playing_game();
    // Right paddle at x 25000 with width 500: a ball whose left edge lies
    // at 25600, past the paddle's right edge 25500, is out.
    g.ball.position_x = 25600;
    g.ball.position_y = 0;
    assert!(g.check_lose_game());
}

#[test]
fn round_is_lost_past_the_left_paddle() {
    let mut g = playing_game();
    // Left paddle's left edge at -25000: a ball whose right edge lies below
    // it is out...
    g.ball.position_x = -26100;
    g.ball.position_y = 0;
    assert!(g.check_lose_game());
    // ... while one whose right edge sits exactly on it is still in play.
    g.ball.position_x = -26000;
    assert!(!g.check_lose_game());
}

#[test]
fn lost_round_resets_and_play_goes_on() {
    let mut g = playing_game();
    g.ball.position_x = 25600;
    g.ball.position_y = 7777;
    g.player1.score = 4;
    g.player2.score = 9;
    g.player1.position_y = 12000;
    g.update();
    // The round reset centered the ball, then integration moved it one
    // speed step.
    assert_eq!(g.ball.position_x, -500 + 100);
    assert_eq!(g.ball.position_y, -500 + 100);
    assert_eq!(g.player1.score, 0);
    assert_eq!(g.player2.score, 0);
    assert_eq!(g.player1.position_x, 25000);
    assert_eq!(g.player1.position_y, -3000);
    assert_eq!(g.player2.position_x, -25000);
    assert_eq!(g.state, GameState::Playing);
}

#[test]
fn menu_selection_wraps_up_and_down() {
    let mut g = Game::new();
    assert_eq!(g.state, GameState::Paused);
    assert_eq!(g.menu.selected_item, 0);
    g.key_pressed(GameKey::Up);
    assert_eq!(g.menu.selected_item, 2);
    g.key_pressed(GameKey::Down);
    assert_eq!(g.menu.selected_item, 0);
    g.key_pressed(GameKey::Down);
    assert_eq!(g.menu.selected_item, 1);
    g.key_pressed(GameKey::Up);
    assert_eq!(g.menu.selected_item, 0);
}

#[test]
fn paddle_stops_at_the_band_bound() {
    let mut g = playing_game();
    g.player1.position_y = 17000;
    g.key_pressed(GameKey::Down);
    assert_eq!(g.player1.position_y, 17500);
    // At the bound the next press is rejected.
    g.key_pressed(GameKey::Down);
    assert_eq!(g.player1.position_y, 17500);

    g.player1.position_y = -17000;
    g.key_pressed(GameKey::Up);
    assert_eq!(g.player1.position_y, -17500);
    g.key_pressed(GameKey::Up);
    assert_eq!(g.player1.position_y, -17500);
}

#[test]
fn w_and_s_steer_the_left_paddle_only_while_playing() {
    let mut g = playing_game();
    assert_eq!(g.player2.position_y, -3000);
    g.key_pressed(GameKey::W);
    assert_eq!(g.player2.position_y, -3500);
    g.key_pressed(GameKey::S);
    g.key_pressed(GameKey::S);
    assert_eq!(g.player2.position_y, -2500);
    assert_eq!(g.player1.position_y, -3000);

    let mut paused = Game::new();
    paused.key_pressed(GameKey::W);
    paused.key_pressed(GameKey::S);
    assert_eq!(paused.player2.position_y, -3000);
}

#[test]
fn space_toggles_between_play_and_pause() {
    let mut g = Game::new();
    g.key_pressed(GameKey::Space);
    assert_eq!(g.state, GameState::Playing);
    assert!(-ANGLE_LIMIT <= g.ball.angle && g.ball.angle < ANGLE_LIMIT);
    g.key_pressed(GameKey::Space);
    assert_eq!(g.state, GameState::Paused);
}

#[test]
fn reset_key_forces_a_fresh_round_in_any_state() {
    let mut g = playing_game();
    g.player1.score = 7;
    g.ball.position_x = 9000;
    g.lose();
    g.key_pressed(GameKey::R);
    assert_eq!(g.state, GameState::Playing);
    assert_eq!(g.player1.score, 0);
    assert_eq!(g.ball.position_x, -500);
    assert_eq!(g.ball.position_y, -500);
}

#[test]
fn angle_key_redraws_the_angle_and_nothing_else() {
    let mut g = playing_game();
    g.ball.position_x = 3210;
    let score_before = g.player1.score;
    g.key_pressed(GameKey::K);
    assert!(-ANGLE_LIMIT <= g.ball.angle && g.ball.angle < ANGLE_LIMIT);
    assert_eq!(g.ball.position_x, 3210);
    assert_eq!(g.player1.score, score_before);
    assert_eq!(g.state, GameState::Playing);
}

#[test]
fn pause_is_a_no_op_outside_play() {
    let mut g = Game::new();
    g.lose();
    g.pause();
    assert_eq!(g.state, GameState::Lost);
    g.start();
    assert_eq!(g.state, GameState::Playing);
    g.pause();
    assert_eq!(g.state, GameState::Paused);
}
