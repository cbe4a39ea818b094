use spritesheet_anim::animator::{AnimError, SpritesheetAnimator};
use spritesheet_anim::clock::AnimationClock;
use spritesheet_anim::direction::{requested_state, resolve_direction, stand_state_for, Facing, MoveIntent};
use spritesheet_anim::frame::{encode_frame, SpriteFrame};
use spritesheet_anim::sequence::{AnimationStyle, SpritesheetAnimation, DEFAULT_ANIMATION_FPS};
use spritesheet_anim::table::AnimationTable;

const PERIOD: u64 = 200_000_000;
const CELLS: usize = 15;

fn player_table() -> AnimationTable {
    let entries: Vec<(&str, Vec<i8>)> = vec![
        ("stand-down", vec![1]),
        ("stand-down-left", vec![4]),
        ("stand-left", vec![7]),
        ("stand-up-left", vec![10]),
        ("stand-up", vec![13]),
        ("stand-up-right", vec![-10]),
        ("stand-right", vec![-7]),
        ("stand-down-right", vec![-4]),
        ("move-down", vec![1, 2, 1, 3]),
        ("move-down-left", vec![4, 5, 4, 6]),
        ("move-left", vec![7, 8, 7, 9]),
        ("move-up-left", vec![10, 11, 10, 12]),
        ("move-up", vec![13, 14, 13, 15]),
        ("move-up-right", vec![-10, -11, -10, -12]),
        ("move-right", vec![-7, -8, -7, -9]),
        ("move-down-right", vec![-4, -5, -4, -6]),
    ];
    let mut table = AnimationTable::new();
    for (name, frames) in entries {
        table.insert(name.to_string(), SpritesheetAnimation::from_frames(frames));
    }
    table
}

fn player() -> SpritesheetAnimator {
    SpritesheetAnimator::new(player_table(), "move-down".to_string(), CELLS).unwrap()
}

fn sprite(index: usize, flip_x: bool) -> SpriteFrame {
    SpriteFrame { index, flip_x }
}

#[test]
fn negative_frame_is_mirrored() {
    assert_eq!(encode_frame(-7, CELLS), sprite(6, true));
    assert_eq!(encode_frame(4, CELLS), sprite(3, false));
}

#[test]
fn frame_index_wraps_round_the_sheet() {
    assert_eq!(encode_frame(20, CELLS), sprite(4, false));
    assert_eq!(encode_frame(-128, CELLS), sprite(7, true));
    assert_eq!(encode_frame(1, 1), sprite(0, false));
}

#[test]
fn from_frames_uses_defaults() {
    let a = SpritesheetAnimation::from_frames(vec![1, 2]);
    assert_eq!(a.fps, DEFAULT_ANIMATION_FPS);
    assert_eq!(a.fps, 5);
    assert_eq!(a.looping, AnimationStyle::Looping);
    assert_eq!(a.frames, vec![1, 2]);
}

#[test]
fn frame_validity() {
    assert!(SpritesheetAnimation::from_frames(vec![1, -2]).is_valid());
    assert!(!SpritesheetAnimation::from_frames(vec![1, 0]).is_valid());
    assert!(SpritesheetAnimation::from_frames(vec![]).is_valid());
}

#[test]
fn frame_after_looping_and_once() {
    let looping = SpritesheetAnimation::from_frames(vec![1, 2, 3, 4]);
    assert_eq!(looping.frame_after(1, 10), 3);
    assert_eq!(looping.frame_after(3, 1), 0);
    assert_eq!(looping.frame_after(0, 4), 0);
    let once = SpritesheetAnimation::new(vec![1, 2, 3, 4], 5, AnimationStyle::Once);
    assert_eq!(once.frame_after(0, 2), 2);
    assert_eq!(once.frame_after(0, 10), 3);
    assert_eq!(once.frame_after(3, u64::MAX), 3);
    let empty = SpritesheetAnimation::from_frames(vec![]);
    assert_eq!(empty.frame_after(0, 7), 0);
}

#[test]
fn table_insert_get_and_replace() {
    let mut t = AnimationTable::new();
    assert!(!t.contains(&"walk".to_string()));
    t.insert("walk".to_string(), SpritesheetAnimation::from_frames(vec![1, 2]));
    assert!(t.contains(&"walk".to_string()));
    assert_eq!(t.get(&"walk".to_string()).unwrap().frames, vec![1, 2]);
    t.insert("walk".to_string(), SpritesheetAnimation::from_frames(vec![3]));
    assert_eq!(t.get(&"walk".to_string()).unwrap().frames, vec![3]);
    assert!(t.get(&"run".to_string()).is_none());
}

#[test]
fn clock_period_from_fps() {
    assert_eq!(AnimationClock::from_fps(5).period_ns(), PERIOD);
    assert_eq!(AnimationClock::from_fps(3).period_ns(), 333_333_333);
    assert_eq!(AnimationClock::from_fps(u32::MAX).period_ns(), 1);
    assert_eq!(AnimationClock::from_fps(5).elapsed_ns(), 0);
}

#[test]
fn clock_counts_expiries_and_keeps_remainder() {
    let mut c = AnimationClock::from_fps(5);
    assert_eq!(c.tick(450_000_000), 2);
    assert_eq!(c.elapsed_ns(), 50_000_000);
    assert_eq!(c.tick(100_000_000), 0);
    assert_eq!(c.elapsed_ns(), 150_000_000);
    assert_eq!(c.tick(50_000_000), 1);
    assert_eq!(c.elapsed_ns(), 0);
}

#[test]
fn construction_shows_first_frame() {
    let a = player();
    assert_eq!(a.cur_state(), "move-down");
    assert_eq!(a.cur_frame_idx(), 0);
    assert_eq!(a.sprite_frame(), sprite(0, false));
    assert_eq!(a.period_ns(), PERIOD);
    assert_eq!(a.elapsed_ns(), 0);
}

#[test]
fn construction_fails_on_zero_fps() {
    let mut t = AnimationTable::new();
    t.insert("idle".to_string(), SpritesheetAnimation::new(vec![1], 0, AnimationStyle::Looping));
    let r = SpritesheetAnimator::new(t, "idle".to_string(), CELLS);
    assert_eq!(r.err(), Some(AnimError::InvalidFrameRate));
}

#[test]
fn construction_fails_on_unknown_start_state() {
    let r = SpritesheetAnimator::new(player_table(), "fly".to_string(), CELLS);
    assert_eq!(r.err(), Some(AnimError::InvalidStartState));
}

#[test]
fn looping_returns_to_first_frame_after_n_periods() {
    let mut a = player();
    let expected = [(1, sprite(1, false)), (2, sprite(0, false)), (3, sprite(2, false)), (0, sprite(0, false))];
    for (idx, shown) in expected {
        a.tick(PERIOD);
        assert_eq!(a.cur_frame_idx(), idx);
        assert_eq!(a.sprite_frame(), shown);
    }
}

#[test]
fn tick_below_period_does_not_advance() {
    let mut a = player();
    a.tick(PERIOD / 2);
    assert_eq!(a.cur_frame_idx(), 0);
    assert_eq!(a.elapsed_ns(), PERIOD / 2);
    a.tick(PERIOD / 2);
    assert_eq!(a.cur_frame_idx(), 1);
    assert_eq!(a.elapsed_ns(), 0);
}

#[test]
fn tick_advances_once_per_expiry() {
    let mut a = player();
    a.tick(3 * PERIOD + 10);
    assert_eq!(a.cur_frame_idx(), 3);
    assert_eq!(a.sprite_frame(), sprite(2, false));
    assert_eq!(a.elapsed_ns(), 10);
}

#[test]
fn once_freezes_at_last_frame() {
    let mut t = AnimationTable::new();
    t.insert("die".to_string(), SpritesheetAnimation::new(vec![1, 2, -3], 5, AnimationStyle::Once));
    let mut a = SpritesheetAnimator::new(t, "die".to_string(), CELLS).unwrap();
    a.tick(2 * PERIOD);
    assert_eq!(a.cur_frame_idx(), 2);
    assert_eq!(a.sprite_frame(), sprite(2, true));
    for _ in 0..5 {
        a.tick(PERIOD);
        assert_eq!(a.cur_frame_idx(), 2);
        assert_eq!(a.sprite_frame(), sprite(2, true));
    }
}

#[test]
fn empty_animation_tick_keeps_output() {
    let mut t = AnimationTable::new();
    t.insert("nothing".to_string(), SpritesheetAnimation::from_frames(vec![]));
    let mut a = SpritesheetAnimator::new(t, "nothing".to_string(), CELLS).unwrap();
    assert_eq!(a.sprite_frame(), sprite(0, false));
    a.tick(3 * PERIOD);
    assert_eq!(a.cur_frame_idx(), 0);
    assert_eq!(a.sprite_frame(), sprite(0, false));
}

#[test]
fn set_state_resets_frame_and_clock() {
    let mut a = player();
    a.tick(2 * PERIOD + 70);
    assert_eq!(a.cur_frame_idx(), 2);
    assert_eq!(a.set_state("move-right".to_string()), Ok(true));
    assert_eq!(a.cur_state(), "move-right");
    assert_eq!(a.cur_frame_idx(), 0);
    assert_eq!(a.elapsed_ns(), 0);
    assert_eq!(a.period_ns(), PERIOD);
    assert_eq!(a.sprite_frame(), sprite(6, true));
}

#[test]
fn set_state_to_same_state_still_resets() {
    let mut a = player();
    a.tick(PERIOD + 5);
    assert_eq!(a.set_state("move-down".to_string()), Ok(true));
    assert_eq!(a.cur_frame_idx(), 0);
    assert_eq!(a.elapsed_ns(), 0);
}

#[test]
fn set_state_unknown_changes_nothing() {
    let mut a = player();
    a.tick(PERIOD + 30);
    assert_eq!(a.set_state("nonexistent".to_string()), Ok(false));
    assert_eq!(a.cur_state(), "move-down");
    assert_eq!(a.cur_frame_idx(), 1);
    assert_eq!(a.elapsed_ns(), 30);
    assert_eq!(a.sprite_frame(), sprite(1, false));
}

#[test]
fn set_state_zero_fps_is_refused() {
    let mut t = player_table();
    t.insert("broken".to_string(), SpritesheetAnimation::new(vec![1], 0, AnimationStyle::Once));
    let mut a = SpritesheetAnimator::new(t, "move-down".to_string(), CELLS).unwrap();
    assert_eq!(a.set_state("broken".to_string()), Err(AnimError::InvalidFrameRate));
    assert_eq!(a.cur_state(), "move-down");
}

#[test]
fn resolver_priority() {
    let r = resolve_direction(true, true, false, false);
    assert_eq!(r, MoveIntent { facing: Some(Facing::UpLeft), dx: -71, dy: 71 });
    let cases = [
        ((true, false, false, true), Some(Facing::DownLeft), -71, -71),
        ((true, false, false, false), Some(Facing::Left), -100, 0),
        ((true, false, true, false), Some(Facing::Left), -100, 0),
        ((false, true, true, false), Some(Facing::UpRight), 71, 71),
        ((false, false, true, true), Some(Facing::DownRight), 71, -71),
        ((false, false, true, false), Some(Facing::Right), 100, 0),
        ((false, true, false, false), Some(Facing::Up), 0, 100),
        ((false, true, false, true), Some(Facing::Up), 0, 100),
        ((false, false, false, true), Some(Facing::Down), 0, -100),
        ((false, false, false, false), None, 0, 0),
    ];
    for ((l, u, r, d), facing, dx, dy) in cases {
        assert_eq!(resolve_direction(l, u, r, d), MoveIntent { facing, dx, dy });
    }
}

#[test]
fn move_state_names() {
    assert_eq!(Facing::UpLeft.move_state(), "move-up-left");
    assert_eq!(Facing::DownRight.move_state(), "move-down-right");
    assert_eq!(Facing::Down.move_state(), "move-down");
}

#[test]
fn stand_state_keeps_facing() {
    assert_eq!(stand_state_for(&"move-left".to_string()), Some("stand-left".to_string()));
    assert_eq!(stand_state_for(&"move-up-right".to_string()), Some("stand-up-right".to_string()));
    assert_eq!(stand_state_for(&"stand-left".to_string()), None);
    assert_eq!(stand_state_for(&"mov".to_string()), None);
}

#[test]
fn requested_state_decisions() {
    let cur = "move-left".to_string();
    assert_eq!(requested_state(&cur, None), Some("stand-left".to_string()));
    assert_eq!(requested_state(&cur, Some(Facing::Left)), None);
    assert_eq!(requested_state(&cur, Some(Facing::Up)), Some("move-up".to_string()));
    assert_eq!(requested_state(&"stand-left".to_string(), None), None);
}

#[test]
fn player_input_moves_then_stands() {
    let mut a = player();
    let r = a.player_input(true, false, false, false).unwrap();
    assert_eq!(r, MoveIntent { facing: Some(Facing::Left), dx: -100, dy: 0 });
    assert_eq!(a.cur_state(), "move-left");
    assert_eq!(a.sprite_frame(), sprite(6, false));
    a.tick(PERIOD);
    assert_eq!(a.cur_frame_idx(), 1);
    a.player_input(true, false, false, false).unwrap();
    assert_eq!(a.cur_frame_idx(), 1);
    let r = a.player_input(false, false, false, false).unwrap();
    assert_eq!(r, MoveIntent { facing: None, dx: 0, dy: 0 });
    assert_eq!(a.cur_state(), "stand-left");
    assert_eq!(a.sprite_frame(), sprite(6, false));
    a.player_input(false, false, false, false).unwrap();
    assert_eq!(a.cur_state(), "stand-left");
}
