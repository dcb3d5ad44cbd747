//! The main menu: a play button that arms the exit transition; when the
//! transition's doors have closed, the menu asks the top level to start
//! gameplay.

use vstd::prelude::*;
use crate::game::{
    tick, ActiveState, FrameInput, GameEvents, GameState, MousePressState, Vec2i, SCREEN_DOOR_MS,
};

verus! {

/// The menu's exit transition: idle until the play button is clicked, then
/// a closing-door countdown.
#[derive(Clone, Copy, PartialEq, Eq, Structural, Debug)]
pub enum TransState {
    Steady,
    Out(u32),
}

#[derive(Clone, Copy, PartialEq, Eq, Structural, Debug)]
pub struct MainMenuData {
    pub play_button_hover: bool,
    pub mouse_pos: Vec2i,
    pub t_state: TransState,
}

/// The play button's screen rectangle, corners excluded.
pub open spec fn over_play_button(p: Vec2i) -> bool {
    580 < p.x && p.x < 910 && 333 < p.y && p.y < 490
}

/// The menu before anything has happened.
pub open spec fn fresh_menu() -> MainMenuData {
    MainMenuData {
        play_button_hover: false,
        mouse_pos: Vec2i { x: 0, y: 0 },
        t_state: TransState::Steady,
    }
}

/// One frame of the menu: track the hover state, arm the exit transition on
/// a click over the button, and run the transition timer down.
pub open spec fn step(m: MainMenuData, input: FrameInput, dt: u32) -> MainMenuData {
    let hover = over_play_button(input.mouse_position);
    let armed = if input.mouse_state == MousePressState::JustPressed && hover && m.t_state
        == TransState::Steady {
        TransState::Out(SCREEN_DOOR_MS)
    } else {
        m.t_state
    };
    let run = match armed {
        TransState::Out(t) => TransState::Out(tick(t, dt)),
        TransState::Steady => TransState::Steady,
    };
    MainMenuData { play_button_hover: hover, mouse_pos: input.mouse_position, t_state: run }
}

/// The menu asks for gameplay exactly on the frame its exit transition's
/// timer has already reached zero.
pub open spec fn menu_emitted(m: MainMenuData, input: FrameInput, dt: u32) -> Seq<GameEvents> {
    let hover = over_play_button(input.mouse_position);
    let armed = if input.mouse_state == MousePressState::JustPressed && hover && m.t_state
        == TransState::Steady {
        TransState::Out(SCREEN_DOOR_MS)
    } else {
        m.t_state
    };
    match armed {
        TransState::Out(t) => if t == 0 {
            seq![GameEvents::StartGameplay]
        } else {
            Seq::empty()
        },
        TransState::Steady => Seq::empty(),
    }
}

impl Default for MainMenuData {
    fn default() -> (m: MainMenuData)
        ensures
            m == fresh_menu(),
    {
        MainMenuData {
            play_button_hover: false,
            mouse_pos: Vec2i { x: 0, y: 0 },
            t_state: TransState::Steady,
        }
    }
}

/// One frame of the main menu. Polling it while the top level is on any
/// other screen is a contract violation, reported as the error and changing
/// nothing.
pub fn update(
    game_data: &mut GameState,
    input: FrameInput,
    delta: u32,
    events: &mut Vec<GameEvents>,
) -> (r: Result<(), ()>)
    ensures
        match old(game_data).active_state {
            ActiveState::MainMenu(m) => {
                &&& r is Ok
                &&& final(game_data).active_state == ActiveState::MainMenu(
                    step(m, input, delta),
                )
                &&& final(events)@ == old(events)@ + menu_emitted(m, input, delta)
            },
            _ => {
                &&& r is Err
                &&& *final(game_data) == *old(game_data)
                &&& final(events)@ == old(events)@
            },
        },
{
    match &mut game_data.active_state {
        ActiveState::MainMenu(mm_data) => {
            mm_data.play_button_hover = 580 < input.mouse_position.x && input.mouse_position.x
                < 910 && 333 < input.mouse_position.y && input.mouse_position.y < 490;

            mm_data.mouse_pos = input.mouse_position;

            if input.mouse_state == MousePressState::JustPressed && mm_data.play_button_hover
                && mm_data.t_state == TransState::Steady {
                mm_data.t_state = TransState::Out(SCREEN_DOOR_MS);
            }

            mm_data.t_state = match mm_data.t_state {
                TransState::Out(t) => {
                    if t == 0 {
                        events.push(GameEvents::StartGameplay);
                    }
                    TransState::Out(
                        if t >= delta {
                            t - delta
                        } else {
                            0
                        },
                    )
                },
                TransState::Steady => TransState::Steady,
            };

            Ok(())
        },
        _ => Err(()),
    }
}

} // verus!
