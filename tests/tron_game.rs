use game_demos::game_trait::{ExitGame, GameLogic, InitGame};
use game_demos::tron_game::{
    KeysDown, Player, TronWorld, VisionDirection, PLAYER_CIRCLE_RADIUS, SCREEN_HEIGHT,
    SCREEN_WIDTH,
};

fn keys(left: bool, right: bool, up: bool, down: bool) -> KeysDown {
    KeysDown { left, right, up, down }
}

fn in_window(p: &Player) -> bool {
    p.x() >= PLAYER_CIRCLE_RADIUS
        && p.x() <= SCREEN_WIDTH - PLAYER_CIRCLE_RADIUS
        && p.y() >= PLAYER_CIRCLE_RADIUS
        && p.y() <= SCREEN_HEIGHT - PLAYER_CIRCLE_RADIUS
}

#[test]
fn player_starts_at_window_centre() {
    let p = Player::new();
    assert_eq!((p.x(), p.y()), (400, 225));
    assert_eq!(p.vision_direction(), VisionDirection::Unknown);
    assert_eq!(p.vision_arc(), None);
}

#[test]
fn each_key_moves_one_step() {
    let mut p = Player::new();
    p.step(keys(true, false, false, false));
    assert_eq!((p.x(), p.y(), p.vision_direction()), (395, 225, VisionDirection::West));
    p.step(keys(false, true, false, false));
    assert_eq!((p.x(), p.y(), p.vision_direction()), (400, 225, VisionDirection::East));
    p.step(keys(false, false, true, false));
    assert_eq!((p.x(), p.y(), p.vision_direction()), (400, 220, VisionDirection::North));
    p.step(keys(false, false, false, true));
    assert_eq!((p.x(), p.y(), p.vision_direction()), (400, 225, VisionDirection::South));
}

#[test]
fn left_key_wins_over_the_others() {
    let mut p = Player::new();
    p.step(keys(true, true, true, true));
    assert_eq!((p.x(), p.y(), p.vision_direction()), (395, 225, VisionDirection::West));
}

#[test]
fn right_key_wins_over_up_and_down() {
    let mut p = Player::new();
    p.step(keys(false, true, true, true));
    assert_eq!((p.x(), p.y(), p.vision_direction()), (405, 225, VisionDirection::East));
}

#[test]
fn up_key_wins_over_down() {
    let mut p = Player::new();
    p.step(keys(false, false, true, true));
    assert_eq!((p.x(), p.y(), p.vision_direction()), (400, 220, VisionDirection::North));
}

#[test]
fn no_key_leaves_player_unchanged() {
    let mut p = Player::new();
    p.step(keys(false, true, false, false));
    p.step(KeysDown::none());
    assert_eq!((p.x(), p.y(), p.vision_direction()), (405, 225, VisionDirection::East));
}

#[test]
fn player_stops_at_each_edge() {
    let mut p = Player::new();
    for _ in 0..200 {
        p.step(keys(true, false, false, false));
    }
    assert_eq!(p.x(), 10);
    for _ in 0..200 {
        p.step(keys(false, true, false, false));
    }
    assert_eq!(p.x(), 790);
    for _ in 0..200 {
        p.step(keys(false, false, true, false));
    }
    assert_eq!(p.y(), 10);
    for _ in 0..200 {
        p.step(keys(false, false, false, true));
    }
    assert_eq!(p.y(), 440);
}

#[test]
fn player_stays_in_window_over_mixed_moves() {
    let mut p = Player::new();
    let mut seed: u32 = 12345;
    for _ in 0..5000 {
        seed = seed.wrapping_mul(1103515245).wrapping_add(12345);
        let bits = seed >> 16;
        p.step(keys(bits & 1 != 0, bits & 2 != 0, bits & 4 != 0, bits & 8 != 0));
        assert!(in_window(&p));
    }
}

#[test]
fn vision_follows_last_move() {
    let mut p = Player::new();
    p.step(keys(false, false, false, true));
    p.step(keys(false, true, false, false));
    p.step(KeysDown::none());
    p.step(KeysDown::none());
    assert_eq!(p.vision_direction(), VisionDirection::East);
    p.step(keys(false, false, true, false));
    assert_eq!(p.vision_direction(), VisionDirection::North);
}

#[test]
fn vision_arc_for_each_direction() {
    assert_eq!(VisionDirection::Unknown.vision_arc(), None);
    assert_eq!(VisionDirection::East.vision_arc(), Some((120, 60)));
    assert_eq!(VisionDirection::South.vision_arc(), Some((30, -30)));
    assert_eq!(VisionDirection::West.vision_arc(), Some((-120, -60)));
    assert_eq!(VisionDirection::North.vision_arc(), Some((150, 210)));
    let mut p = Player::new();
    p.step(keys(false, false, false, true));
    assert_eq!(p.vision_arc(), Some((30, -30)));
}

#[test]
fn tron_world_plays_held_keys() {
    let mut w = TronWorld::init_game();
    assert_eq!(w.keys, KeysDown::none());
    w.update_tick();
    assert_eq!((w.player.x(), w.player.y()), (400, 225));
    w.keys = keys(false, false, false, true);
    w.update_tick();
    w.update_tick();
    assert_eq!((w.player.x(), w.player.y()), (400, 235));
    assert_eq!(w.player.vision_direction(), VisionDirection::South);
}

#[test]
fn exit_hands_back_the_same_game() {
    let mut w = TronWorld::init_game();
    w.keys = keys(true, false, false, false);
    w.update_tick();
    let r = w.exit();
    assert_eq!((r.player.x(), r.player.y()), (395, 225));
}
