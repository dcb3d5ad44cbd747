//! Scenario tests for the in-game orchestrator: whole runs driven frame by
//! frame through chosen queues.

use microship::game::{ActiveState, FrameInput, GameEvents, GameState, MousePressState, Vec2i};
use microship::gameplay::{self, InGameData, MicrogameState};
use microship::microgames::Microgames;

fn no_input() -> FrameInput {
    FrameInput {
        mouse_position: Vec2i { x: 0, y: 0 },
        mouse_state: MousePressState::NotPressed,
    }
}

fn ingame_state(queue: Vec<u8>) -> GameState {
    GameState {
        active_state: ActiveState::InGame(InGameData::with_queue(queue)),
    }
}

fn step_frames(state: &mut GameState, dt: u32, frames: usize) -> Vec<Vec<GameEvents>> {
    let mut log = Vec::new();
    for _ in 0..frames {
        let mut events: Vec<GameEvents> = Vec::new();
        let r = gameplay::update(state, no_input(), dt, &mut events);
        assert!(r.is_ok());
        log.push(events);
    }
    log
}

fn snapshot(state: &GameState) -> (u8, u8, MicrogameState) {
    match &state.active_state {
        ActiveState::InGame(g) => (g.microgames_completed, g.lives, g.microgame_state),
        _ => panic!("expected an in-game state"),
    }
}

/// Win 15 consecutive microgames with lives intact: GameWon is emitted
/// exactly once, on the transition-out expiry after the count reaches 15,
/// and never earlier.
#[test]
fn win_fifteen_consecutive() {
    // Id 8 maps to the always-win placeholder, so every microgame is won.
    let mut state = ingame_state(vec![8; 16]);
    let log = step_frames(&mut state, 10_000, 45);

    let mut won_frames = Vec::new();
    for (i, events) in log.iter().enumerate() {
        if events.contains(&GameEvents::GameWon) {
            won_frames.push(i);
        }
        assert!(!events.contains(&GameEvents::GameLost));
    }
    // Each microgame takes three expiring frames; the win fires on the
    // transition-out expiry of the fifteenth, the last frame driven.
    assert_eq!(won_frames, vec![44]);

    let (completed, lives, _) = snapshot(&state);
    assert_eq!(completed, 15);
    assert_eq!(lives, 3);
}

/// Lose three consecutive microgames from three lives: GameLost is emitted
/// exactly once, on the transition-out following the third loss, with
/// exactly three microgames completed.
#[test]
fn lose_three_consecutive() {
    // Id 1 is the combo microgame, which cannot be won without input.
    let mut state = ingame_state(vec![1; 16]);
    let log = step_frames(&mut state, 10_000, 9);

    let mut lost_frames = Vec::new();
    for (i, events) in log.iter().enumerate() {
        if events.contains(&GameEvents::GameLost) {
            lost_frames.push(i);
        }
        assert!(!events.contains(&GameEvents::GameWon));
    }
    assert_eq!(lost_frames, vec![8]);

    let (completed, lives, _) = snapshot(&state);
    assert_eq!(completed, 3);
    assert_eq!(lives, 0);
}

/// The play window shortens with the completion count: 5000 ms through the
/// fifth microgame, 4000 ms through the tenth, 3000 ms after that.
#[test]
fn hold_duration_ramps() {
    let mut state = ingame_state(vec![8; 16]);
    let mut observed = Vec::new();
    for _ in 0..45 {
        let mut events = Vec::new();
        gameplay::update(&mut state, no_input(), 10_000, &mut events).unwrap();
        let (completed, _, phase) = snapshot(&state);
        if let MicrogameState::InMicrogame(t) = phase {
            observed.push((completed, t));
        }
    }
    assert_eq!(observed.len(), 15);
    for (completed, t) in observed {
        let expected = if completed <= 4 {
            5000
        } else if completed <= 9 {
            4000
        } else {
            3000
        };
        assert_eq!(t, expected, "window for completion count {completed}");
    }
}

/// The phase cycle never skips a step and the timer runs down by exactly
/// the frame delta until it reaches zero; at most one phase change per
/// frame even under a huge delta.
#[test]
fn phase_cycle_never_skips() {
    let mut state = ingame_state(vec![8; 16]);
    let mut prev = snapshot(&state).2;
    assert_eq!(prev, MicrogameState::TransIn(500));
    for _ in 0..200 {
        let mut events = Vec::new();
        gameplay::update(&mut state, no_input(), 250, &mut events).unwrap();
        let cur = snapshot(&state).2;
        match (prev, cur) {
            (MicrogameState::TransIn(a), MicrogameState::TransIn(b)) => assert_eq!(b, a - 250),
            (MicrogameState::TransIn(a), MicrogameState::InMicrogame(_)) => assert!(a <= 250),
            (MicrogameState::InMicrogame(a), MicrogameState::InMicrogame(b)) => {
                assert_eq!(b, a - 250)
            }
            (MicrogameState::InMicrogame(a), MicrogameState::TransOut(_)) => assert!(a <= 250),
            (MicrogameState::TransOut(a), MicrogameState::TransOut(b)) => assert_eq!(b, a - 250),
            (MicrogameState::TransOut(a), MicrogameState::TransIn(_)) => assert!(a <= 250),
            (p, c) => panic!("phase skipped: {p:?} -> {c:?}"),
        }
        prev = cur;
    }
}

/// One giant frame delta still performs only one phase change.
#[test]
fn huge_delta_single_transition() {
    let mut state = ingame_state(vec![8; 16]);
    let mut events = Vec::new();
    gameplay::update(&mut state, no_input(), u32::MAX, &mut events).unwrap();
    let (completed, _, phase) = snapshot(&state);
    assert_eq!(completed, 0);
    assert_eq!(phase, MicrogameState::InMicrogame(5000));
}

/// Polling the orchestrator while the top level is on another screen is a
/// contract violation and reports the error without touching anything.
#[test]
fn update_on_wrong_screen_errors() {
    let mut state = microship::game::init_game_state();
    let mut events = Vec::new();
    let r = gameplay::update(&mut state, no_input(), 16, &mut events);
    assert_eq!(r, Err(()));
    assert!(events.is_empty());
    assert!(matches!(state.active_state, ActiveState::MainMenu(_)));
}

/// A fresh run starts with three lives, nothing completed, the doors
/// closing, and fifteen ids left in the queue.
#[test]
fn fresh_run_shape() {
    let g = InGameData::with_queue((0..16).map(|i| (i % 8) as u8).collect());
    assert_eq!(g.lives, 3);
    assert_eq!(g.microgames_completed, 0);
    assert_eq!(g.microgame_state, MicrogameState::TransIn(500));
    assert_eq!(g.game_queue.len(), 15);
}

/// A fresh random run always begins on a real microgame, never on the
/// always-win placeholder: the generated queue only holds real ids.
#[test]
fn random_run_starts_on_real_microgame() {
    for _ in 0..30 {
        let g = InGameData::default();
        assert!(!matches!(g.current_microgame, Microgames::AlwaysWin(_)));
        assert!(!matches!(g.current_microgame, Microgames::Dummy));
        for id in &g.game_queue {
            assert!(*id < 8);
        }
    }
}

/// A run driven through the top level: won runs land on the win screen.
#[test]
fn top_level_reaches_win_screen() {
    let mut state = ingame_state(vec![8; 16]);
    for _ in 0..45 {
        let r = microship::game::update_game_state(&mut state, no_input(), 10_000);
        assert!(r.is_ok());
    }
    assert!(matches!(state.active_state, ActiveState::WinScreen(_)));
}

/// A run driven through the top level: lost runs land on the lose screen.
#[test]
fn top_level_reaches_lose_screen() {
    let mut state = ingame_state(vec![1; 16]);
    for _ in 0..9 {
        let r = microship::game::update_game_state(&mut state, no_input(), 10_000);
        assert!(r.is_ok());
    }
    assert!(matches!(state.active_state, ActiveState::LoseScreen(_)));
}
