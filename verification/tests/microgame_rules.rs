//! Per-microgame behavior: win conditions, the ordered-press reset, and
//! draw idempotence.

use microship::game::{DrawCmd, FrameInput, MousePressState, TextureId, Vec2i};
use microship::microgames::{
    always_win, asteroids, combo, course, crank, draw_microgame, imposter, pipes, swap, sweep,
    Microgames,
};

fn click(x: i32, y: i32) -> FrameInput {
    FrameInput {
        mouse_position: Vec2i { x, y },
        mouse_state: MousePressState::JustPressed,
    }
}

fn hold(x: i32, y: i32) -> FrameInput {
    FrameInput {
        mouse_position: Vec2i { x, y },
        mouse_state: MousePressState::Pressed,
    }
}

fn idle() -> FrameInput {
    FrameInput {
        mouse_position: Vec2i { x: 0, y: 0 },
        mouse_state: MousePressState::NotPressed,
    }
}

/// The four combo buttons in queue order 0,1,2,3 so presses are easy to
/// script; the grid matches the factory's layout.
fn combo_in_order() -> combo::Data {
    let mut buttons = Vec::new();
    for bnum in 0..4i32 {
        buttons.push(combo::Button {
            range: (
                Vec2i { x: 340 + 160 * (bnum % 2), y: 150 + 160 * (bnum / 2) },
                Vec2i { x: 460 + 160 * (bnum % 2), y: 270 + 160 * (bnum / 2) },
            ),
            pressed: false,
            order: bnum as u8,
        });
    }
    combo::Data { buttons, button_on: 0 }
}

/// Centre of combo button `i`.
fn combo_center(i: i32) -> (i32, i32) {
    (400 + 160 * (i % 2), 210 + 160 * (i / 2))
}

#[test]
fn combo_in_order_wins() {
    let mut d = combo_in_order();
    for i in 0..4 {
        let (x, y) = combo_center(i);
        let won = combo::update(&mut d, click(x, y), 16);
        assert_eq!(won, i == 3);
    }
    assert_eq!(d.button_on, 4);
}

/// A press out of order resets all partial progress to the initial
/// unpressed state.
#[test]
fn combo_wrong_order_resets() {
    let mut d = combo_in_order();
    let (x0, y0) = combo_center(0);
    combo::update(&mut d, click(x0, y0), 16);
    assert_eq!(d.button_on, 1);
    assert!(d.buttons[0].pressed);

    // Button 2 requires two more presses first: pressing it wipes
    // everything.
    let (x2, y2) = combo_center(2);
    let won = combo::update(&mut d, click(x2, y2), 16);
    assert!(!won);
    assert_eq!(d.button_on, 0);
    for b in &d.buttons {
        assert!(!b.pressed);
    }
}

/// A held (not just-pressed) button is not a press.
#[test]
fn combo_held_button_does_nothing() {
    let mut d = combo_in_order();
    let (x0, y0) = combo_center(0);
    combo::update(&mut d, hold(x0, y0), 16);
    assert_eq!(d.button_on, 0);
    assert!(!d.buttons[0].pressed);
}

#[test]
fn course_reaches_target() {
    let mut d = course::Data { hovering_right: false, hovering_left: false, course: 1 };
    // The raise zone sits at x 100..350, y 100..270.
    let won = course::update(&mut d, click(200, 200), 16);
    assert!(won);
    assert_eq!(d.course, 2);
    // One more raise overshoots.
    let won = course::update(&mut d, click(200, 200), 16);
    assert!(!won);
    assert_eq!(d.course, 3);
}

#[test]
fn course_clamps_at_ends() {
    let mut d = course::Data { hovering_right: false, hovering_left: false, course: 4 };
    course::update(&mut d, click(200, 200), 16);
    assert_eq!(d.course, 4);
    // The lower zone sits at x 100..350, y 330..510.
    let mut d = course::Data { hovering_right: false, hovering_left: false, course: 0 };
    course::update(&mut d, click(200, 400), 16);
    assert_eq!(d.course, 0);
}

#[test]
fn course_default_never_starts_won() {
    for _ in 0..20 {
        let d = course::Data::default();
        assert_ne!(d.course, 2);
        assert!((0..=4).contains(&d.course));
    }
}

#[test]
fn imposter_select_right_figure() {
    let mut d = imposter::Data {
        imposter_slot: 2,
        imposter_hilighted: -1,
        imposter_selected: -1,
    };
    // Zone 2 spans x 550..700.
    let won = imposter::update(&mut d, click(625, 375), 16);
    assert!(won);
    assert_eq!(d.imposter_selected, 2);
    // Selecting a human afterwards loses the condition again.
    let won = imposter::update(&mut d, click(125, 375), 16);
    assert!(!won);
    assert_eq!(d.imposter_selected, 0);
}

#[test]
fn swap_sorting_wins() {
    let mut d = swap::Data { order: vec![2, 1, 0], selected: -1 };
    // Column centres: 175, 485, 795.
    let won = swap::update(&mut d, click(175, 365), 16);
    assert!(!won);
    assert_eq!(d.selected, 0);
    let won = swap::update(&mut d, click(795, 365), 16);
    assert!(won);
    assert_eq!(d.order, vec![0, 1, 2]);
    assert_eq!(d.selected, -1);
}

#[test]
fn swap_click_same_column_deselects() {
    let mut d = swap::Data { order: vec![0, 2, 1], selected: -1 };
    swap::update(&mut d, click(485, 365), 16);
    assert_eq!(d.selected, 1);
    swap::update(&mut d, click(485, 365), 16);
    assert_eq!(d.selected, -1);
    assert_eq!(d.order, vec![0, 2, 1]);
}

#[test]
fn pipes_patching_all_three_wins() {
    let mut d = pipes::Data::default();
    let won = pipes::update(&mut d, click(400, 200), 16);
    assert!(!won);
    let won = pipes::update(&mut d, click(200, 450), 16);
    assert!(!won);
    let won = pipes::update(&mut d, click(800, 400), 16);
    assert!(won);
    for t in &d.targets {
        assert!(t.clicked);
    }
}

#[test]
fn sweep_drag_advances_progress() {
    let mut d = sweep::Data::default();
    // The handle starts at x 20..120, y 420..590.
    sweep::update(&mut d, click(70, 500), 1000);
    assert!(d.is_dragging);
    assert_eq!(d.progress, 0);
    sweep::update(&mut d, hold(77, 500), 1000);
    // 7 pixels over the 700-pixel run is 10 thousandths.
    assert_eq!(d.progress, 10);

    // Keep dragging just ahead of the handle until the bar fills.
    for _ in 0..200 {
        if d.progress >= 1000 {
            break;
        }
        let lhb = 20 + 800 * d.progress / 1000;
        sweep::update(&mut d, hold(lhb + 60, 500), 1000);
    }
    assert_eq!(d.progress, 1000);
}

#[test]
fn sweep_release_stops_drag() {
    let mut d = sweep::Data::default();
    sweep::update(&mut d, click(70, 500), 1000);
    assert!(d.is_dragging);
    sweep::update(&mut d, idle(), 1000);
    assert!(!d.is_dragging);
    assert_eq!(d.progress, 0);
}

#[test]
fn asteroids_timed_shot_hits() {
    let mut d = asteroids::Data::default();
    d.asteroid_pos = asteroids::FixVec2 { x: 500_000, y: 300_000 };
    d.asteroid_vel = asteroids::FixVec2 { x: 0, y: 0 };
    // The line starts at 200 000 milli-pixels moving 500 per millisecond:
    // 200 ms later it sits exactly at the asteroid's height.
    let won = asteroids::update(&mut d, click(0, 0), 200);
    assert!(won);
    assert!(d.did_shoot && d.did_hit);
    assert_eq!(d.chunks_pos.len(), 6);
}

#[test]
fn asteroids_miss_wastes_the_shot() {
    let mut d = asteroids::Data::default();
    d.asteroid_pos = asteroids::FixVec2 { x: 500_000, y: 480_000 };
    d.asteroid_vel = asteroids::FixVec2 { x: 0, y: 0 };
    let won = asteroids::update(&mut d, click(0, 0), 200);
    assert!(!won);
    assert!(d.did_shoot && !d.did_hit);
    // A second click cannot fire again.
    let won = asteroids::update(&mut d, click(0, 0), 200);
    assert!(!won);
    assert!(!d.did_hit);
}

#[test]
fn crank_winding_wins() {
    let mut d = crank::Data::default();
    assert_eq!(d.angle, -1500);
    let h = crank::crank_handle_pos(d.angle);
    crank::update(&mut d, click(h.x, h.y), 100);
    assert!(d.is_draging);

    for _ in 0..50 {
        if d.angle >= -500 {
            break;
        }
        let h = crank::crank_handle_pos(d.angle);
        let won = crank::update(&mut d, hold(h.x + 60, h.y + 4), 100);
        if won {
            break;
        }
    }
    assert_eq!(d.angle, -500);
}

#[test]
fn crank_release_drops_grip() {
    let mut d = crank::Data::default();
    let h = crank::crank_handle_pos(d.angle);
    crank::update(&mut d, click(h.x, h.y), 100);
    assert!(d.is_draging);
    crank::update(&mut d, idle(), 100);
    assert!(!d.is_draging);
}

#[test]
fn always_win_is_won_untouched() {
    let mut d = always_win::Data {};
    assert!(always_win::update(&mut d, idle(), 16));
}

/// Drawing twice with no update in between produces identical output, for
/// every microgame variant.
#[test]
fn draw_twice_identical() {
    let games = vec![
        Microgames::AlwaysWin(always_win::Data {}),
        Microgames::Pipes(pipes::Data::default()),
        Microgames::Combo(combo::Data::default()),
        Microgames::Course(course::Data::default()),
        Microgames::Sweep(sweep::Data::default()),
        Microgames::Asteroids(asteroids::Data::default()),
        Microgames::Imposter(imposter::Data::default()),
        Microgames::Crank(crank::Data::default()),
        Microgames::Swap(swap::Data::default()),
    ];
    for g in games {
        let first = draw_microgame(&g);
        let second = draw_microgame(&g);
        assert_eq!(first, second);
    }
}

/// The course preview drawn always matches the current setting.
#[test]
fn course_draw_shows_setting() {
    let d = course::Data { hovering_right: false, hovering_left: false, course: 3 };
    let cmds = course::draw(&d);
    assert_eq!(
        cmds[2],
        DrawCmd::Texture { id: TextureId::CourseTemp(3), x: 411, y: 232 }
    );
}

/// Pressed combo buttons are drawn green (pressed), the rest red.
#[test]
fn combo_draw_reflects_presses() {
    let mut d = combo_in_order();
    let (x0, y0) = combo_center(0);
    combo::update(&mut d, click(x0, y0), 16);
    let cmds = combo::draw(&d);
    assert_eq!(
        cmds[2],
        DrawCmd::Texture {
            id: TextureId::ComboButton { pressed: true, order: 0 },
            x: 340,
            y: 150,
        }
    );
    assert_eq!(
        cmds[3],
        DrawCmd::Texture {
            id: TextureId::ComboButton { pressed: false, order: 1 },
            x: 500,
            y: 150,
        }
    );
}

/// The fixed-point arm geometry at both ends of the crank's arc, to the
/// pixel: the handle hangs up-right of the pivot and swings right as the
/// crank winds.
#[test]
fn crank_handle_exact_positions() {
    assert_eq!(crank::crank_handle_pos(-1500), Vec2i { x: 126, y: 322 });
    assert_eq!(crank::crank_handle_pos(-500), Vec2i { x: 432, y: 518 });
}
