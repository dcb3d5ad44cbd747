//! The queue generator, the microgame factory, and the top-level screen
//! flow around a run.

use microship::game::{
    init_game_state, update_game_state, ActiveState, FrameInput, GameEvents, GameState,
    MousePressState, TransState, Vec2i, WinLooseData,
};
use microship::microgames::{gen_microgame, gen_microgame_queue, gen_new_microgame, Microgames};

fn click(x: i32, y: i32) -> FrameInput {
    FrameInput {
        mouse_position: Vec2i { x, y },
        mouse_state: MousePressState::JustPressed,
    }
}

fn idle() -> FrameInput {
    FrameInput {
        mouse_position: Vec2i { x: 0, y: 0 },
        mouse_state: MousePressState::NotPressed,
    }
}

/// The queue always holds exactly sixteen ids, all from the valid id range.
#[test]
fn queue_sixteen_valid_ids() {
    for _ in 0..50 {
        let q = gen_microgame_queue();
        assert_eq!(q.len(), 16);
        for id in &q {
            assert!(*id < 8);
        }
    }
}

/// Each of the three shuffle segments (6, 6 and 4 ids) repeats no id within
/// itself.
#[test]
fn queue_segments_have_no_repeats() {
    for _ in 0..50 {
        let q = gen_microgame_queue();
        for (lo, hi) in [(0, 6), (6, 12), (12, 16)] {
            for i in lo..hi {
                for j in (i + 1)..hi {
                    assert_ne!(q[i], q[j], "repeat inside segment {lo}..{hi}");
                }
            }
        }
    }
}

/// Ids map to their microgame variants, with the always-win placeholder for
/// out-of-range ids.
#[test]
fn factory_maps_every_id() {
    assert!(matches!(gen_microgame(0), Microgames::Pipes(_)));
    assert!(matches!(gen_microgame(1), Microgames::Combo(_)));
    assert!(matches!(gen_microgame(2), Microgames::Course(_)));
    assert!(matches!(gen_microgame(3), Microgames::Sweep(_)));
    assert!(matches!(gen_microgame(4), Microgames::Asteroids(_)));
    assert!(matches!(gen_microgame(5), Microgames::Imposter(_)));
    assert!(matches!(gen_microgame(6), Microgames::Crank(_)));
    assert!(matches!(gen_microgame(7), Microgames::Swap(_)));
    assert!(matches!(gen_microgame(8), Microgames::AlwaysWin(_)));
    assert!(matches!(gen_microgame(200), Microgames::AlwaysWin(_)));
}

#[test]
fn fallback_factory_builds_asteroids() {
    assert!(matches!(gen_new_microgame(), Microgames::Asteroids(_)));
}

/// A fresh game sits on the main menu.
#[test]
fn game_starts_on_menu() {
    let state = init_game_state();
    assert!(matches!(state.active_state, ActiveState::MainMenu(_)));
}

/// Clicking the play button arms the menu's exit transition and, once its
/// doors have closed, gameplay starts with a fresh run.
#[test]
fn menu_click_starts_gameplay() {
    let mut state = init_game_state();

    // A click away from the button does nothing.
    update_game_state(&mut state, click(10, 10), 250).unwrap();
    assert!(matches!(state.active_state, ActiveState::MainMenu(_)));

    // The play button spans x 580..910, y 333..490.
    update_game_state(&mut state, click(700, 400), 250).unwrap();
    update_game_state(&mut state, idle(), 250).unwrap();
    let events = update_game_state(&mut state, idle(), 250).unwrap();
    assert!(events.contains(&GameEvents::StartGameplay));
    match &state.active_state {
        ActiveState::InGame(g) => {
            assert_eq!(g.lives, 3);
            assert_eq!(g.microgames_completed, 0);
            assert_eq!(g.game_queue.len(), 15);
        }
        other => panic!("expected gameplay, got {other:?}"),
    }
}

/// The win screen closes its doors, waits for a click, and returns to a
/// fresh main menu once its way-out transition ends.
#[test]
fn win_screen_click_returns_to_menu() {
    let mut state = GameState {
        active_state: ActiveState::WinScreen(WinLooseData {
            trans_state: TransState::TransIn(500),
        }),
    };
    // Doors finish closing.
    update_game_state(&mut state, idle(), 600).unwrap();
    update_game_state(&mut state, idle(), 600).unwrap();
    match &state.active_state {
        ActiveState::WinScreen(w) => assert_eq!(w.trans_state, TransState::Steady),
        other => panic!("expected the win screen, got {other:?}"),
    }
    // A click starts the way out; its expiry returns to the menu.
    update_game_state(&mut state, click(480, 300), 600).unwrap();
    update_game_state(&mut state, idle(), 600).unwrap();
    let events = update_game_state(&mut state, idle(), 600).unwrap();
    assert!(events.contains(&GameEvents::MainMenuReturn));
    assert!(matches!(state.active_state, ActiveState::MainMenu(_)));
}

/// The lose screen behaves the same way.
#[test]
fn lose_screen_click_returns_to_menu() {
    let mut state = GameState {
        active_state: ActiveState::LoseScreen(WinLooseData {
            trans_state: TransState::Steady,
        }),
    };
    update_game_state(&mut state, click(480, 300), 600).unwrap();
    update_game_state(&mut state, idle(), 600).unwrap();
    let events = update_game_state(&mut state, idle(), 600).unwrap();
    assert!(events.contains(&GameEvents::MainMenuReturn));
    assert!(matches!(state.active_state, ActiveState::MainMenu(_)));
}

/// The point-in-rectangle helper excludes the corners.
#[test]
fn vec2_in_range_is_strict() {
    let r = (Vec2i { x: 0, y: 0 }, Vec2i { x: 10, y: 10 });
    assert!(microship::game::vec2_in_range(&Vec2i { x: 5, y: 5 }, &r));
    assert!(!microship::game::vec2_in_range(&Vec2i { x: 0, y: 5 }, &r));
    assert!(!microship::game::vec2_in_range(&Vec2i { x: 10, y: 5 }, &r));
    assert!(!microship::game::vec2_in_range(&Vec2i { x: 5, y: 10 }, &r));
}

/// The pipes targets' puff timers start in their documented window; the
/// random source genuinely feeds them.
#[test]
fn pipes_fresh_timers_in_window() {
    macroquad::rand::srand(11);
    for _ in 0..20 {
        let d = microship::microgames::pipes::Data::default();
        for t in &d.targets {
            assert!((10..50).contains(&t.timer));
            assert!(!t.clicked);
        }
    }
}

/// The imposter slot is always one of the four figures, across many draws.
#[test]
fn imposter_slot_in_range() {
    let mut seen = [false; 4];
    for _ in 0..200 {
        let d = microship::microgames::imposter::Data::default();
        assert!(d.imposter_slot < 4);
        seen[d.imposter_slot as usize] = true;
    }
    // With two hundred draws every slot should have appeared.
    assert!(seen.iter().all(|s| *s));
}

/// The queue order really is randomized: across many generations at least
/// two queues differ (a do-nothing shuffle would make them all identical).
#[test]
fn queue_order_varies() {
    let first = gen_microgame_queue();
    let mut saw_different = false;
    for _ in 0..20 {
        if gen_microgame_queue() != first {
            saw_different = true;
            break;
        }
    }
    assert!(saw_different);
}
