use brick_physics::controls::ClickSpawns;
use brick_physics::objects::{classify_collision, Object};
use brick_physics::scoreboard::{decimal_string, ScoreColor};
use brick_physics::session::{GameState, Score};
use brick_physics::texture::{texture_path, Texture};

#[test]
fn fresh_session_is_zeroed() {
    let s = Score::new();
    assert_eq!(s.value, 0);
    assert_eq!(s.hammers_created, 0);
    assert_eq!(s.bricks_created, 0);
    assert_eq!(s.bricks_broken, 0);
    assert_eq!(s.high, 0);
    assert_eq!(s.state, GameState::NewGame);
    let d = Score::default();
    assert_eq!(d.state, GameState::NewGame);
    assert_eq!(d.value, 0);
}

#[test]
fn two_bricks_then_break_both_ends_game() {
    let mut s = Score::new();
    s.bricked();
    s.bricked();
    assert_eq!(s.bricks_created, 2);
    s.hammered();
    assert_eq!(s.value, 0);
    assert_eq!(s.hammers_created, 1);
    assert_eq!(s.state, GameState::Started);
    s.brick_broke();
    assert_eq!(s.value, 1);
    assert_eq!(s.bricks_broken, 1);
    assert_eq!(s.state, GameState::Started);
    s.brick_broke();
    assert_eq!(s.value, 2);
    assert_eq!(s.bricks_broken, 2);
    assert_eq!(s.state, GameState::GameOver);
}

#[test]
fn hammer_from_new_game_clamps_score() {
    let mut s = Score::new();
    s.hammered();
    assert_eq!(s.value, 0);
    assert_eq!(s.hammers_created, 1);
    assert_eq!(s.state, GameState::Started);
}

#[test]
fn hammer_lowers_positive_score() {
    let mut s = Score::new();
    s.value = 5;
    s.hammered();
    assert_eq!(s.value, 4);
}

#[test]
fn reset_from_game_over_banks_high_score() {
    let mut s = Score::new();
    s.bricked();
    s.bricked();
    s.hammered();
    s.brick_broke();
    s.brick_broke();
    assert_eq!(s.state, GameState::GameOver);
    assert_eq!(s.value, 2);
    assert_eq!(s.high, 0);
    s.reset();
    assert_eq!(s.high, 2);
    assert_eq!(s.value, 0);
    assert_eq!(s.hammers_created, 0);
    assert_eq!(s.bricks_created, 0);
    assert_eq!(s.bricks_broken, 0);
    assert_eq!(s.state, GameState::NewGame);
}

#[test]
fn reset_keeps_larger_high_score_and_is_idempotent() {
    let mut s = Score::new();
    s.high = 7;
    s.value = 3;
    s.state = GameState::Started;
    s.reset();
    assert_eq!(s.high, 7);
    assert_eq!(s.state, GameState::NewGame);
    s.reset();
    assert_eq!(s.high, 7);
    assert_eq!(s.state, GameState::NewGame);
    assert_eq!(s.value, 0);
}

#[test]
fn score_stays_non_negative_over_many_hammers() {
    let mut s = Score::new();
    for _ in 0..10 {
        s.hammered();
    }
    assert_eq!(s.value, 0);
    assert_eq!(s.hammers_created, 10);
}

#[test]
fn no_bricks_never_game_over() {
    let mut s = Score::new();
    s.hammered();
    s.hammered();
    s.reset();
    s.hammered();
    assert_ne!(s.state, GameState::GameOver);
    assert_eq!(s.bricks_created, 0);
}

#[test]
fn click_gating_rejects_brick_after_start() {
    let mut s = Score::new();
    let r = s.on_click(false, true, true);
    assert_eq!(r, ClickSpawns { hammer: false, brick: true });
    assert_eq!(s.bricks_created, 1);
    let r = s.on_click(true, false, true);
    assert_eq!(r, ClickSpawns { hammer: true, brick: false });
    assert_eq!(s.state, GameState::Started);
    let r = s.on_click(false, true, true);
    assert_eq!(r, ClickSpawns { hammer: false, brick: false });
    assert_eq!(s.bricks_created, 1);
}

#[test]
fn click_hammer_and_brick_same_frame_places_only_hammer() {
    let mut s = Score::new();
    let r = s.on_click(true, true, true);
    assert_eq!(r, ClickSpawns { hammer: true, brick: false });
    assert_eq!(s.bricks_created, 0);
    assert_eq!(s.hammers_created, 1);
}

#[test]
fn click_without_cursor_places_nothing() {
    let mut s = Score::new();
    let r = s.on_click(true, true, false);
    assert_eq!(r, ClickSpawns { hammer: false, brick: false });
    assert_eq!(s.state, GameState::NewGame);
}

#[test]
fn click_after_game_over_places_nothing() {
    let mut s = Score::new();
    s.on_click(false, true, true);
    s.on_click(true, false, true);
    s.brick_broke();
    assert_eq!(s.state, GameState::GameOver);
    let r = s.on_click(true, true, true);
    assert_eq!(r, ClickSpawns { hammer: false, brick: false });
    assert_eq!(s.hammers_created, 1);
    assert_eq!(s.value, 1);
}

#[test]
fn reset_key_handling() {
    let mut s = Score::new();
    s.value = 4;
    assert!(!s.on_reset(false));
    assert_eq!(s.value, 4);
    assert!(s.on_reset(true));
    assert_eq!(s.value, 0);
    assert_eq!(s.high, 4);
}

#[test]
fn only_bricks_break_in_collisions() {
    assert_eq!(classify_collision(Some(Object::Ground), Some(Object::Hammer)), (false, false));
    assert_eq!(classify_collision(Some(Object::Brick), Some(Object::Hammer)), (true, false));
    assert_eq!(classify_collision(Some(Object::Ground), Some(Object::Brick)), (false, true));
    assert_eq!(classify_collision(Some(Object::Brick), Some(Object::Brick)), (true, true));
    assert_eq!(classify_collision(None, Some(Object::Brick)), (false, true));
    assert_eq!(classify_collision(None, None), (false, false));
}

#[test]
fn collision_breaks_bricks_and_ends_game() {
    let mut s = Score::new();
    s.bricked();
    s.hammered();
    let r = s.on_collision_stopped(Some(Object::Hammer), Some(Object::Ground));
    assert_eq!(r, (false, false));
    assert_eq!(s.value, 0);
    let r = s.on_collision_stopped(Some(Object::Brick), Some(Object::Hammer));
    assert_eq!(r, (true, false));
    assert_eq!(s.value, 1);
    assert_eq!(s.bricks_broken, 1);
    assert_eq!(s.state, GameState::GameOver);
}

#[test]
fn decimal_text() {
    assert_eq!(decimal_string(0), "0");
    assert_eq!(decimal_string(7), "7");
    assert_eq!(decimal_string(42), "42");
    assert_eq!(decimal_string(1000), "1000");
    assert_eq!(decimal_string(u64::MAX), "18446744073709551615");
}

#[test]
fn scoreboard_lines() {
    let mut s = Score::new();
    assert_eq!(s.headline(), "Score: 0 (bricks: 0, hammers: 0)\n");
    assert_eq!(s.high_score_line(), "High Score: 0");
    assert_eq!(s.headline_color(), ScoreColor::Gray);
    s.bricked();
    s.bricked();
    s.hammered();
    assert_eq!(s.headline_color(), ScoreColor::Green);
    s.brick_broke();
    s.brick_broke();
    assert_eq!(s.headline(), "GG: 2 (bricks: 2, hammers: 1)\n");
    assert_eq!(s.headline_color(), ScoreColor::White);
    s.reset();
    assert_eq!(s.high_score_line(), "High Score: 2");
}

#[test]
fn texture_paths() {
    assert_eq!(texture_path(Texture::Brick), "brick.png");
    assert_eq!(texture_path(Texture::Hammer), "hammer.png");
}
