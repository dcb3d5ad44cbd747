//! Shared frame-input types, the top-level screen state machine, and the
//! draw-command vocabulary that the renderer consumes.
//!
//! All timers are whole milliseconds and all screen coordinates are whole
//! pixels, so every rule here is exact integer arithmetic.

use vstd::prelude::*;

verus! {

/// Screen-space point in whole pixels.
#[derive(Clone, Copy, PartialEq, Eq, Structural, Debug)]
pub struct Vec2i {
    pub x: i32,
    pub y: i32,
}

/// True when `v` lies strictly inside the open rectangle `r` (corners
/// excluded), the hit test every microgame uses.
pub fn vec2_in_range(v: &Vec2i, r: &(Vec2i, Vec2i)) -> (b: bool)
    ensures
        b == (v.x > r.0.x && v.x < r.1.x && v.y > r.0.y && v.y < r.1.y),
{
    v.x > r.0.x && v.x < r.1.x && v.y > r.0.y && v.y < r.1.y
}

/// Press phase of the pointer button for one frame. `JustPressed` holds for
/// exactly the first frame after the transition from released to held.
#[derive(Clone, Copy, PartialEq, Eq, Structural, Debug)]
pub enum MousePressState {
    NotPressed,
    JustPressed,
    Pressed,
}

/// Immutable per-frame snapshot of the pointer device.
#[derive(Clone, Copy, PartialEq, Eq, Structural, Debug)]
pub struct FrameInput {
    pub mouse_position: Vec2i,
    pub mouse_state: MousePressState,
}

/// The input handed to a microgame while it is not interactive: position
/// zeroed and no press. A masked update must not change win-relevant state.
pub open spec fn masked_input() -> FrameInput {
    FrameInput {
        mouse_position: Vec2i { x: 0, y: 0 },
        mouse_state: MousePressState::NotPressed,
    }
}

/// Exec twin of [`masked_input`].
pub fn make_masked_input() -> (r: FrameInput)
    ensures
        r == masked_input(),
{
    FrameInput {
        mouse_position: Vec2i { x: 0, y: 0 },
        mouse_state: MousePressState::NotPressed,
    }
}

/// Frame-scoped events collected during update and applied immediately
/// afterwards to move the top-level state machine.
#[derive(Clone, Copy, PartialEq, Eq, Structural, Debug)]
pub enum GameEvents {
    StartGameplay,
    GameWon,
    GameLost,
    MainMenuReturn,
}

/// Duration of the door animation on the win/lose screens and of the main
/// menu's exit transition, in milliseconds.
pub const SCREEN_DOOR_MS: u32 = 500;

/// A frame timer after one frame: down by the frame delta, never below
/// zero.
pub open spec fn tick(t: u32, dt: u32) -> u32 {
    if t >= dt {
        (t - dt) as u32
    } else {
        0
    }
}

/// Door animation of the win and lose screens: closing in when the screen
/// appears, opening out after a click, then back to the menu. The terminal
/// screens are click-to-continue: they never return to the menu on their
/// own, only after the player clicks.
#[derive(Clone, Copy, PartialEq, Eq, Structural, Debug)]
pub enum TransState {
    Steady,
    TransIn(u32),
    TransOut(u32),
}

/// One frame of a terminal screen's transition: a click starts the way out;
/// a running timer counts down; an expired way out returns to the menu.
pub open spec fn trans_step(s: TransState, dt: u32, input: FrameInput) -> TransState {
    match s {
        TransState::Steady => if input.mouse_state == MousePressState::JustPressed {
            TransState::TransOut(SCREEN_DOOR_MS)
        } else {
            TransState::Steady
        },
        TransState::TransIn(t) => if t > 0 {
            TransState::TransIn(tick(t, dt))
        } else {
            TransState::Steady
        },
        TransState::TransOut(t) => if t > 0 {
            TransState::TransOut(tick(t, dt))
        } else {
            TransState::Steady
        },
    }
}

/// A terminal screen asks for the menu exactly on the frame its way-out
/// timer has already reached zero.
pub open spec fn trans_emitted(s: TransState, dt: u32) -> Seq<GameEvents> {
    match s {
        TransState::TransOut(t) => if t == 0 {
            seq![GameEvents::MainMenuReturn]
        } else {
            Seq::empty()
        },
        _ => Seq::empty(),
    }
}

impl TransState {
    pub fn update(self, deltatime: u32, events: &mut Vec<GameEvents>, input: &FrameInput) -> (r:
        TransState)
        ensures
            r == trans_step(self, deltatime, *input),
            final(events)@ == old(events)@ + trans_emitted(self, deltatime),
    {
        match self {
            TransState::Steady => {
                if input.mouse_state == MousePressState::JustPressed {
                    TransState::TransOut(SCREEN_DOOR_MS)
                } else {
                    TransState::Steady
                }
            },
            TransState::TransIn(time) => {
                if time > 0 {
                    TransState::TransIn(
                        if time >= deltatime {
                            time - deltatime
                        } else {
                            0
                        },
                    )
                } else {
                    TransState::Steady
                }
            },
            TransState::TransOut(time) => {
                if time > 0 {
                    TransState::TransOut(
                        if time >= deltatime {
                            time - deltatime
                        } else {
                            0
                        },
                    )
                } else {
                    events.push(GameEvents::MainMenuReturn);
                    TransState::Steady
                }
            },
        }
    }
}

/// A terminal screen's state: just its door animation.
#[derive(Clone, Copy, PartialEq, Eq, Structural, Debug)]
pub struct WinLooseData {
    pub trans_state: TransState,
}

/// The one active screen: menu, a run in progress, or a terminal screen.
#[derive(Clone, PartialEq, Eq, Debug)]
pub enum ActiveState {
    MainMenu(crate::main_menu::MainMenuData),
    InGame(crate::gameplay::InGameData),
    WinScreen(WinLooseData),
    LoseScreen(WinLooseData),
}

/// The whole game as the library sees it. The renderer's assets live with
/// the caller; the core only decides states and draw commands.
#[derive(Clone, PartialEq, Eq, Debug)]
pub struct GameState {
    pub active_state: ActiveState,
}

/// Whether one of this frame's events is `e`.
pub fn has_event(events: &Vec<GameEvents>, e: GameEvents) -> (b: bool)
    ensures
        b == events@.contains(e),
{
    let mut i: usize = 0;
    while i < events.len()
        invariant
            0 <= i <= events@.len(),
            forall|j: int| 0 <= j < i ==> events@[j] != e,
        decreases events@.len() - i,
    {
        if events[i] == e {
            return true;
        }
        i = i + 1;
    }
    false
}

/// A fresh game: on the main menu, nothing hovered, no transition running.
pub fn init_game_state() -> (s: GameState)
    ensures
        s.active_state == ActiveState::MainMenu(crate::main_menu::fresh_menu()),
{
    GameState { active_state: ActiveState::MainMenu(crate::main_menu::MainMenuData::default()) }
}

/// One frame of the top level, as a relation between the state before and
/// after: the active screen is updated in place, its events are collected,
/// and then at most one screen change is applied — gameplay starts on
/// `StartGameplay` with a fresh run, a won or lost run moves to its
/// terminal screen with the doors closing, and `MainMenuReturn` goes back
/// to a fresh menu.
pub open spec fn screen_step_ok(
    pre: GameState,
    input: FrameInput,
    dt: u32,
    post: GameState,
    evs: Seq<GameEvents>,
) -> bool {
    match pre.active_state {
        ActiveState::MainMenu(m) => {
            &&& evs == crate::main_menu::menu_emitted(m, input, dt)
            &&& if evs.contains(GameEvents::StartGameplay) {
                match post.active_state {
                    ActiveState::InGame(g) => {
                        &&& crate::gameplay::fresh_run(g)
                        &&& forall|i: int|
                            0 <= i < g.game_queue@.len() ==> (#[trigger] g.game_queue@[i]) < 8
                        &&& exists|id: u8|
                            id < 8 && #[trigger] crate::microgames::instance_of(
                                g.current_microgame,
                                id,
                            )
                    },
                    _ => false,
                }
            } else {
                post.active_state == ActiveState::MainMenu(crate::main_menu::step(m, input, dt))
            }
        },
        ActiveState::InGame(g) => {
            &&& evs == crate::gameplay::emitted_events(g, dt)
            &&& if evs.contains(GameEvents::GameWon) {
                post.active_state == ActiveState::WinScreen(
                    WinLooseData { trans_state: TransState::TransIn(SCREEN_DOOR_MS) },
                )
            } else if evs.contains(GameEvents::GameLost) {
                post.active_state == ActiveState::LoseScreen(
                    WinLooseData { trans_state: TransState::TransIn(SCREEN_DOOR_MS) },
                )
            } else {
                match post.active_state {
                    ActiveState::InGame(g2) => crate::gameplay::orch_step_ok(g, input, dt, g2),
                    _ => false,
                }
            }
        },
        ActiveState::WinScreen(w) => {
            &&& evs == trans_emitted(w.trans_state, dt)
            &&& if evs.contains(GameEvents::MainMenuReturn) {
                post.active_state == ActiveState::MainMenu(crate::main_menu::fresh_menu())
            } else {
                post.active_state == ActiveState::WinScreen(
                    WinLooseData { trans_state: trans_step(w.trans_state, dt, input) },
                )
            }
        },
        ActiveState::LoseScreen(w) => {
            &&& evs == trans_emitted(w.trans_state, dt)
            &&& if evs.contains(GameEvents::MainMenuReturn) {
                post.active_state == ActiveState::MainMenu(crate::main_menu::fresh_menu())
            } else {
                post.active_state == ActiveState::LoseScreen(
                    WinLooseData { trans_state: trans_step(w.trans_state, dt, input) },
                )
            }
        },
    }
}

/// One frame of the whole game: update the active screen, then apply the
/// events it produced, in the fixed order start-gameplay, game-won,
/// game-lost, menu-return. The events are returned so the caller can react
/// to them (the shell starts and stops the music on them). A run in progress
/// must be well-formed; the frame never fails, and whatever run it leaves
/// behind is well-formed again.
pub fn update_game_state(state: &mut GameState, input: FrameInput, deltatime: u32) -> (r: Result<
    Vec<GameEvents>,
    (),
>)
    requires
        old(state).active_state matches ActiveState::InGame(g) ==> crate::gameplay::wf(g),
    ensures
        r is Ok,
        match r {
            Ok(evs) => screen_step_ok(*old(state), input, deltatime, *final(state), evs@),
            Err(_) => false,
        },
        final(state).active_state matches ActiveState::InGame(g2) ==> crate::gameplay::wf(g2),
{
    let mut events: Vec<GameEvents> = Vec::new();

    let tag: u8 = match &state.active_state {
        ActiveState::MainMenu(_) => 0,
        ActiveState::InGame(_) => 1,
        ActiveState::WinScreen(_) => 2,
        ActiveState::LoseScreen(_) => 3,
    };

    if tag == 0 {
        let _ = crate::main_menu::update(state, input, deltatime, &mut events);
    } else if tag == 1 {
        let _ = crate::gameplay::update(state, input, deltatime, &mut events);
        proof {
            let g = old(state).active_state->InGame_0;
            crate::gameplay::lemma_terminal_events(g, deltatime);
        }
    } else {
        match &mut state.active_state {
            ActiveState::WinScreen(t) => {
                t.trans_state = t.trans_state.update(deltatime, &mut events, &input);
            },
            ActiveState::LoseScreen(t) => {
                t.trans_state = t.trans_state.update(deltatime, &mut events, &input);
            },
            _ => {},
        }
    }

    if has_event(&events, GameEvents::StartGameplay) {
        state.active_state = ActiveState::InGame(crate::gameplay::InGameData::default());
    }

    if has_event(&events, GameEvents::GameWon) {
        state.active_state = ActiveState::WinScreen(
            WinLooseData { trans_state: TransState::TransIn(SCREEN_DOOR_MS) },
        );
    }

    if has_event(&events, GameEvents::GameLost) {
        state.active_state = ActiveState::LoseScreen(
            WinLooseData { trans_state: TransState::TransIn(SCREEN_DOOR_MS) },
        );
    }

    if has_event(&events, GameEvents::MainMenuReturn) {
        state.active_state = ActiveState::MainMenu(crate::main_menu::MainMenuData::default());
    }

    proof {
        match old(state).active_state {
            ActiveState::InGame(g) => {
                if !events@.contains(GameEvents::GameWon) && !events@.contains(
                    GameEvents::GameLost,
                ) {
                    match &state.active_state {
                        ActiveState::InGame(g2) => {
                            assert(crate::gameplay::emitted_events(g, deltatime)
                                =~= Seq::<GameEvents>::empty());
                            crate::gameplay::lemma_wf_preserved(g, input, deltatime, *g2);
                        },
                        _ => {},
                    }
                }
            },
            _ => {},
        }
    }

    Ok(events)
}

/// Identifies a loaded texture. The renderer resolves each id to the asset
/// it was loaded under; the core only ever picks ids.
#[derive(Clone, Copy, PartialEq, Eq, Structural, Debug)]
pub enum TextureId {
    PipesBkgd,
    /// Patch over leak `n` (0, 1 or 2).
    PipesPatch(u8),
    ComboBkgd,
    /// Button showing digit `order + 1`; green when pressed, red otherwise.
    ComboButton { pressed: bool, order: u8 },
    CourseBkgd,
    /// Course preview for setting `n` (0 through 4).
    CourseTemp(u8),
    SwapBkgd,
    /// Can of height class `n` (0, 1 or 2).
    SwapCan(u8),
    ImposterBkgd,
    /// Line-up figure; bloody when selected, the imposter in its slot.
    ImposterFigure { selected: bool, imposter: bool },
    CrankBkgd,
    CrankDoor,
    CrankHandle,
    AsteroidsBkgd,
    AsteroidsLazerRed,
    AsteroidsLazerGreen,
    AsteroidsAsteroid,
    AsteroidsBeam,
    AsteroidsChunk,
    SweepBkgd,
    SweepHandle,
    /// Sweep progress frame (1, 2 or 3).
    SweepFrame(u8),
}

/// Flat colors the core asks the renderer for.
#[derive(Clone, Copy, PartialEq, Eq, Structural, Debug)]
pub enum ColorId {
    White,
    Black,
    Pink,
}

/// One renderer primitive; a draw pass is a sequence of these, applied in
/// order. Coordinates are whole pixels, rotations whole milliradians.
#[derive(Clone, Copy, PartialEq, Eq, Structural, Debug)]
pub enum DrawCmd {
    Clear(ColorId),
    Texture { id: TextureId, x: i32, y: i32 },
    TextureRotated { id: TextureId, x: i32, y: i32, rot_mrad: i32 },
    Rect { x: i32, y: i32, w: i32, h: i32, color: ColorId },
}

} // verus!
