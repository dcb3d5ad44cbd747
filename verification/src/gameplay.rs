//! The in-game orchestrator: a three-phase cycle (transition in, play,
//! transition out) that sequences microgames from a sixteen-id queue, tracks
//! lives and completion count, and decides when the run is won or lost.
//!
//! All timers are whole milliseconds. Each frame decrements the current
//! phase's timer by the frame delta (saturating at zero) and performs at
//! most one phase change, when the decremented timer has reached zero.

use vstd::prelude::*;
use crate::game::{ActiveState, FrameInput, GameEvents, GameState, masked_input, make_masked_input, tick};
use crate::microgames::{
    always_win, asteroids, combo, course, crank, game_step_ok, game_wf, game_won, gen_microgame,
    gen_microgame_queue, imposter, instance_of, pipes, swap, sweep, Microgames,
};

verus! {

/// Door-closing time when a run begins, in milliseconds.
pub const FIRST_TRANS_IN_MS: u32 = 500;

/// Door time between microgames, in milliseconds.
pub const TRANS_IN_MS: u32 = 750;

pub const TRANS_OUT_MS: u32 = 750;

/// A run is won when this many microgames have been completed with a life
/// to spare.
pub const WIN_COUNT: u8 = 15;

pub const START_LIVES: u8 = 3;

/// Phase of the orchestrator's cycle, with the milliseconds it has left.
#[derive(Clone, Copy, PartialEq, Eq, Structural, Debug)]
pub enum MicrogameState {
    TransOut(u32),
    TransIn(u32),
    InMicrogame(u32),
}

/// What the doors show while a finished microgame slides out.
#[derive(Clone, Copy, PartialEq, Eq, Structural, Debug)]
pub enum EndPlateState {
    NoPlate,
    WonMG(u8),
    LostMG(u8),
}

/// The orchestrator's whole state: one alive microgame, the phase cycle,
/// and the run's bookkeeping.
#[derive(Clone, PartialEq, Eq, Debug)]
pub struct InGameData {
    pub microgames_completed: u8,
    pub lives: u8,
    /// Scratch flag reserved for a polled verdict; the phase logic commits
    /// verdicts only at expiry, so this stays false throughout a run.
    pub current_microgame_win: bool,
    pub microgame_state: MicrogameState,
    pub current_microgame: Microgames,
    /// Remaining microgame ids, consumed from the back.
    pub game_queue: Vec<u8>,
    pub end_plate: EndPlateState,
}

impl MicrogameState {
    /// Whether the player is in the interactive phase; outside it the
    /// microgame is updated with masked input.
    pub fn is_in_microgame(&self) -> (b: bool)
        ensures
            b == (*self is InMicrogame),
    {
        match self {
            MicrogameState::InMicrogame(_) => true,
            _ => false,
        }
    }
}

/// Milliseconds left in the current phase.
pub open spec fn timer_of(s: MicrogameState) -> u32 {
    match s {
        MicrogameState::TransOut(t) => t,
        MicrogameState::TransIn(t) => t,
        MicrogameState::InMicrogame(t) => t,
    }
}

/// Whether this frame ends the current phase: the decremented timer has
/// reached zero.
pub open spec fn phase_expires(g: InGameData, dt: u32) -> bool {
    tick(timer_of(g.microgame_state), dt) == 0
}

/// The play window granted on entering the interactive phase: five seconds
/// for the first five microgames, four up to the tenth, three after that.
/// Difficulty ramps by shortening the window, not by changing mechanics.
pub open spec fn hold_duration(completed: u8) -> u32 {
    if completed > 9 {
        3000
    } else if completed > 4 {
        4000
    } else {
        5000
    }
}

/// Exec twin of [`hold_duration`], for callers that size the on-screen
/// time bar.
pub fn hold_duration_ms(completed: u8) -> (d: u32)
    ensures
        d == hold_duration(completed),
{
    if completed > 9 {
        3000
    } else if completed > 4 {
        4000
    } else {
        5000
    }
}

/// Well-formedness of an orchestrator state that is still being driven (no
/// terminal event has fired): lives and count in range, the alive microgame
/// well-formed, the queue holding exactly the ids not yet begun, and a
/// spent run (no lives, or all microgames completed) only ever observed in
/// the transition-out phase, whose expiry fires the terminal event.
pub open spec fn wf(g: InGameData) -> bool {
    &&& g.lives <= START_LIVES
    &&& g.microgames_completed <= WIN_COUNT
    &&& game_wf(g.current_microgame)
    &&& match g.microgame_state {
        MicrogameState::TransIn(t) => t <= TRANS_IN_MS && g.microgames_completed
            + g.game_queue@.len() == 15,
        MicrogameState::InMicrogame(t) => t <= 5000 && g.microgames_completed
            + g.game_queue@.len() == 15,
        MicrogameState::TransOut(t) => t <= TRANS_OUT_MS && g.microgames_completed
            + g.game_queue@.len() == 16 && g.microgames_completed >= 1,
    }
    &&& (g.lives == 0 ==> g.microgame_state is TransOut)
    &&& (g.microgames_completed == WIN_COUNT ==> g.microgame_state is TransOut)
}

/// The phase after this frame: the same phase with its timer run down, or,
/// when the timer reaches zero, the next phase of the cycle with its full
/// duration. At most one phase change happens per frame, however large the
/// delta.
pub open spec fn next_phase(g: InGameData, dt: u32) -> MicrogameState {
    let t = tick(timer_of(g.microgame_state), dt);
    match g.microgame_state {
        MicrogameState::TransIn(_) => if t != 0 {
            MicrogameState::TransIn(t)
        } else {
            MicrogameState::InMicrogame(hold_duration(g.microgames_completed))
        },
        MicrogameState::InMicrogame(_) => if t != 0 {
            MicrogameState::InMicrogame(t)
        } else {
            MicrogameState::TransOut(TRANS_OUT_MS)
        },
        MicrogameState::TransOut(_) => if t != 0 {
            MicrogameState::TransOut(t)
        } else {
            MicrogameState::TransIn(TRANS_IN_MS)
        },
    }
}

/// The events one orchestrator frame emits: nothing unless the
/// transition-out phase expires; then the run is won exactly when all
/// microgames are completed with a life left, and lost exactly when no
/// life is left.
pub open spec fn emitted_events(g: InGameData, dt: u32) -> Seq<GameEvents> {
    if g.microgame_state is TransOut && phase_expires(g, dt) {
        if g.microgames_completed == WIN_COUNT && g.lives > 0 {
            seq![GameEvents::GameWon]
        } else if g.lives == 0 {
            seq![GameEvents::GameLost]
        } else {
            Seq::empty()
        }
    } else {
        Seq::empty()
    }
}

/// One orchestrator frame, as a relation between the state before and
/// after (the microgame component is relational because fresh layouts and
/// some decorative timers are random):
/// - the microgame is updated every frame, with input masked outside the
///   interactive phase, and its win verdict re-evaluated;
/// - the verdict is committed only when the interactive phase expires:
///   the completion count always rises by one, a lost microgame costs a
///   life, and the end plate records the outcome;
/// - when the transition-out phase expires, the next id is popped from the
///   back of the queue and a fresh instance of that microgame replaces the
///   finished one.
pub open spec fn orch_step_ok(pre: InGameData, input: FrameInput, dt: u32, post: InGameData) -> bool {
    let filt = if pre.microgame_state is InMicrogame {
        input
    } else {
        masked_input()
    };
    let expires = phase_expires(pre, dt);
    let won = game_won(post.current_microgame);
    &&& post.microgame_state == next_phase(pre, dt)
    &&& post.current_microgame_win == pre.current_microgame_win
    &&& match pre.microgame_state {
        MicrogameState::TransIn(_) => {
            &&& game_step_ok(pre.current_microgame, filt, dt, post.current_microgame)
            &&& post.microgames_completed == pre.microgames_completed
            &&& post.lives == pre.lives
            &&& post.end_plate == pre.end_plate
            &&& post.game_queue@ == pre.game_queue@
        },
        MicrogameState::InMicrogame(_) => {
            &&& game_step_ok(pre.current_microgame, filt, dt, post.current_microgame)
            &&& post.game_queue@ == pre.game_queue@
            &&& if expires {
                &&& post.microgames_completed == pre.microgames_completed + 1
                &&& post.lives == (if won {
                    pre.lives as int
                } else {
                    pre.lives - 1
                })
                &&& post.end_plate == (if won {
                    EndPlateState::WonMG(1)
                } else {
                    EndPlateState::LostMG(1)
                })
            } else {
                &&& post.microgames_completed == pre.microgames_completed
                &&& post.lives == pre.lives
                &&& post.end_plate == pre.end_plate
            }
        },
        MicrogameState::TransOut(_) => {
            &&& post.microgames_completed == pre.microgames_completed
            &&& post.lives == pre.lives
            &&& post.end_plate == pre.end_plate
            &&& if expires {
                &&& pre.game_queue@.len() > 0
                &&& post.game_queue@ == pre.game_queue@.drop_last()
                &&& instance_of(post.current_microgame, pre.game_queue@.last())
                &&& game_wf(post.current_microgame)
            } else {
                &&& post.game_queue@ == pre.game_queue@
                &&& game_step_ok(pre.current_microgame, filt, dt, post.current_microgame)
            }
        },
    }
}

/// A run that has just begun: full lives, nothing completed, doors closing
/// on the first microgame, fifteen ids still queued.
pub open spec fn fresh_run(g: InGameData) -> bool {
    &&& wf(g)
    &&& g.lives == START_LIVES
    &&& g.microgames_completed == 0
    &&& !g.current_microgame_win
    &&& g.microgame_state == MicrogameState::TransIn(FIRST_TRANS_IN_MS)
    &&& g.end_plate == EndPlateState::NoPlate
    &&& g.game_queue@.len() == 15
    &&& exists|id: u8| instance_of(g.current_microgame, id)
}

impl InGameData {
    /// A run over a chosen queue of sixteen ids: the last id becomes the
    /// first microgame, the other fifteen wait in the queue.
    pub fn with_queue(queue: Vec<u8>) -> (g: InGameData)
        requires
            queue@.len() == 16,
        ensures
            fresh_run(g),
            g.game_queue@ == queue@.drop_last(),
            instance_of(g.current_microgame, queue@.last()),
    {
        let mut game_queue = queue;
        let first = game_queue.pop().unwrap();
        let current_microgame = gen_microgame(first);
        InGameData {
            end_plate: EndPlateState::NoPlate,
            microgames_completed: 0,
            lives: START_LIVES,
            current_microgame_win: false,
            microgame_state: MicrogameState::TransIn(FIRST_TRANS_IN_MS),
            current_microgame,
            game_queue,
        }
    }
}

impl Default for InGameData {
    /// A fresh run over a newly generated random queue: every id still
    /// queued, and the id the first microgame was built from, is a real
    /// microgame id (below 8), so a random run never begins on the
    /// always-win placeholder.
    fn default() -> (g: InGameData)
        ensures
            fresh_run(g),
            forall|i: int| 0 <= i < g.game_queue@.len() ==> (#[trigger] g.game_queue@[i]) < 8,
            exists|id: u8| id < 8 && #[trigger] instance_of(g.current_microgame, id),
    {
        let queue = gen_microgame_queue();
        let ghost full = queue@;
        let g = InGameData::with_queue(queue);
        proof {
            assert(full.last() == full[15]);
            assert(full[15] < 8);
            assert(instance_of(g.current_microgame, full.last()));
        }
        g
    }
}

/// One frame of the in-game orchestrator. Polling it while the top level is
/// on any other screen is a contract violation, reported as the error and
/// changing nothing.
pub fn update(
    game_data: &mut GameState,
    input: FrameInput,
    delta: u32,
    events: &mut Vec<GameEvents>,
) -> (r: Result<(), ()>)
    requires
        old(game_data).active_state matches ActiveState::InGame(g) ==> wf(g),
    ensures
        match old(game_data).active_state {
            ActiveState::InGame(g) => {
                &&& r is Ok
                &&& match final(game_data).active_state {
                    ActiveState::InGame(g2) => orch_step_ok(g, input, delta, g2),
                    _ => false,
                }
                &&& final(events)@ == old(events)@ + emitted_events(g, delta)
            },
            _ => {
                &&& r is Err
                &&& *final(game_data) == *old(game_data)
                &&& final(events)@ == old(events)@
            },
        },
{
    match &mut game_data.active_state {
        ActiveState::InGame(gs_data) => {
            let state_time: u32 = match &mut gs_data.microgame_state {
                MicrogameState::TransIn(t) => {
                    *t = if *t >= delta {
                        *t - delta
                    } else {
                        0
                    };
                    *t
                },
                MicrogameState::TransOut(t) => {
                    *t = if *t >= delta {
                        *t - delta
                    } else {
                        0
                    };
                    *t
                },
                MicrogameState::InMicrogame(t) => {
                    *t = if *t >= delta {
                        *t - delta
                    } else {
                        0
                    };
                    *t
                },
            };

            let filtered_input: FrameInput = if gs_data.microgame_state.is_in_microgame() {
                input
            } else {
                make_masked_input()
            };

            let microgame_won: bool = match &mut gs_data.current_microgame {
                Microgames::AlwaysWin(d) => always_win::update(d, filtered_input, delta),
                Microgames::Pipes(d) => pipes::update(d, filtered_input, delta),
                Microgames::Combo(d) => combo::update(d, filtered_input, delta),
                Microgames::Course(d) => course::update(d, filtered_input, delta),
                Microgames::Sweep(d) => sweep::update(d, filtered_input, delta),
                Microgames::Asteroids(d) => asteroids::update(d, filtered_input, delta),
                Microgames::Imposter(d) => imposter::update(d, filtered_input, delta),
                Microgames::Swap(d) => swap::update(d, filtered_input, delta),
                Microgames::Crank(d) => crank::update(d, filtered_input, delta),
                Microgames::Dummy => true,
            };

            if state_time == 0 {
                match gs_data.microgame_state {
                    MicrogameState::TransIn(_) => {
                        gs_data.microgame_state = MicrogameState::InMicrogame(
                            if gs_data.microgames_completed > 9 {
                                3000
                            } else if gs_data.microgames_completed > 4 {
                                4000
                            } else {
                                5000
                            },
                        );
                    },
                    MicrogameState::InMicrogame(_) => {
                        if !microgame_won {
                            gs_data.lives = gs_data.lives - 1;
                            gs_data.end_plate = EndPlateState::LostMG(1);
                        } else {
                            gs_data.end_plate = EndPlateState::WonMG(1);
                        }
                        gs_data.microgames_completed = gs_data.microgames_completed + 1;
                        gs_data.microgame_state = MicrogameState::TransOut(TRANS_OUT_MS);
                    },
                    MicrogameState::TransOut(_) => {
                        let next_id = gs_data.game_queue.pop().unwrap();
                        gs_data.current_microgame = gen_microgame(next_id);
                        if gs_data.microgames_completed == WIN_COUNT && gs_data.lives > 0 {
                            events.push(GameEvents::GameWon);
                        }
                        if gs_data.lives == 0 {
                            events.push(GameEvents::GameLost);
                        }
                        gs_data.microgame_state = MicrogameState::TransIn(TRANS_IN_MS);
                    },
                }
            }

            Ok(())
        },
        _ => Err(()),
    }
}

/// Phases never skip a step of the cycle and change at most once per frame:
/// the doors-closing phase is followed only by itself or play, play only by
/// itself or the doors opening, and the doors opening only by themselves or
/// the next closing. While a phase persists, its timer has gone down by
/// exactly the frame delta (stopping at zero), so a timer is never negative.
pub proof fn lemma_phase_cycle(pre: InGameData, input: FrameInput, dt: u32, post: InGameData)
    requires
        orch_step_ok(pre, input, dt, post),
    ensures
        pre.microgame_state is TransIn ==> (post.microgame_state is TransIn
            || post.microgame_state is InMicrogame),
        pre.microgame_state is InMicrogame ==> (post.microgame_state is InMicrogame
            || post.microgame_state is TransOut),
        pre.microgame_state is TransOut ==> (post.microgame_state is TransOut
            || post.microgame_state is TransIn),
        !phase_expires(pre, dt) ==> timer_of(post.microgame_state) == timer_of(
            pre.microgame_state,
        ) - dt,
        phase_expires(pre, dt) <==> timer_of(pre.microgame_state) <= dt,
{
}

/// The play window assigned on entering the interactive phase depends only
/// on how many microgames are completed: 5000 milliseconds through the
/// fifth, 4000 through the tenth, 3000 after that.
pub proof fn lemma_hold_duration(pre: InGameData, input: FrameInput, dt: u32, post: InGameData)
    requires
        orch_step_ok(pre, input, dt, post),
        pre.microgame_state is TransIn,
        phase_expires(pre, dt),
    ensures
        post.microgame_state == MicrogameState::InMicrogame(hold_duration(
            pre.microgames_completed,
        )),
        pre.microgames_completed <= 4 ==> post.microgame_state == MicrogameState::InMicrogame(
            5000,
        ),
        5 <= pre.microgames_completed <= 9 ==> post.microgame_state
            == MicrogameState::InMicrogame(4000),
        pre.microgames_completed >= 10 ==> post.microgame_state == MicrogameState::InMicrogame(
            3000,
        ),
{
}

/// The run's verdict fires only at a transition-out expiry: won exactly
/// when all microgames are completed with a life to spare, lost exactly
/// when no life is left — and never both, since winning needs a live run
/// and losing a dead one.
pub proof fn lemma_terminal_events(g: InGameData, dt: u32)
    ensures
        emitted_events(g, dt).contains(GameEvents::GameWon) <==> (g.microgame_state is TransOut
            && phase_expires(g, dt) && g.microgames_completed == WIN_COUNT && g.lives > 0),
        emitted_events(g, dt).contains(GameEvents::GameLost) <==> (g.microgame_state is TransOut
            && phase_expires(g, dt) && g.lives == 0),
        !(emitted_events(g, dt).contains(GameEvents::GameWon) && emitted_events(
            g,
            dt,
        ).contains(GameEvents::GameLost)),
        emitted_events(g, dt).contains(GameEvents::StartGameplay) == false,
        emitted_events(g, dt).contains(GameEvents::MainMenuReturn) == false,
{
    let evs = emitted_events(g, dt);
    if g.microgame_state is TransOut && phase_expires(g, dt) {
        if g.microgames_completed == WIN_COUNT && g.lives > 0 {
            assert(evs == seq![GameEvents::GameWon]);
            assert(evs.len() == 1 && evs[0] == GameEvents::GameWon);
            assert(evs.contains(GameEvents::GameWon));
            assert(forall|e: GameEvents| #[trigger] evs.contains(e) ==> e == evs[0]);
        } else if g.lives == 0 {
            assert(evs == seq![GameEvents::GameLost]);
            assert(evs.len() == 1 && evs[0] == GameEvents::GameLost);
            assert(evs.contains(GameEvents::GameLost));
            assert(forall|e: GameEvents| #[trigger] evs.contains(e) ==> e == evs[0]);
        }
    }
}

/// Driving a well-formed orchestrator one frame keeps it well-formed as
/// long as no terminal event fired; after one, the run is over and the top
/// level discards the state.
pub proof fn lemma_wf_preserved(pre: InGameData, input: FrameInput, dt: u32, post: InGameData)
    requires
        wf(pre),
        orch_step_ok(pre, input, dt, post),
        emitted_events(pre, dt) == Seq::<GameEvents>::empty(),
    ensures
        wf(post),
{
    if pre.microgame_state is TransOut && phase_expires(pre, dt) {
        assert(pre.lives > 0) by {
            if pre.lives == 0 {
                assert(emitted_events(pre, dt) == seq![GameEvents::GameLost]);
                assert(emitted_events(pre, dt).len() == 1);
            }
        }
        assert(pre.microgames_completed < WIN_COUNT) by {
            if pre.microgames_completed == WIN_COUNT {
                assert(emitted_events(pre, dt) == seq![GameEvents::GameWon]);
                assert(emitted_events(pre, dt).len() == 1);
            }
        }
    }
}

/// A run: consecutive orchestrator frames, each pair of neighbouring states
/// related by the step relation under that frame's input and delta.
pub open spec fn run_ok(states: Seq<InGameData>, inputs: Seq<FrameInput>, dts: Seq<u32>) -> bool {
    &&& states.len() == dts.len() + 1
    &&& inputs.len() == dts.len()
    &&& forall|i: int| 0 <= i < dts.len() ==> #[trigger] step_at(states, inputs, dts, i)
}

/// Frame `i` of a run satisfies the step relation.
pub open spec fn step_at(
    states: Seq<InGameData>,
    inputs: Seq<FrameInput>,
    dts: Seq<u32>,
    i: int,
) -> bool {
    orch_step_ok(states[i], inputs[i], dts[i], states[i + 1])
}

/// The interactive phase of frame `i` ends this frame, so the outcome
/// of its microgame is sampled.
pub open spec fn play_ends_at(states: Seq<InGameData>, dts: Seq<u32>, i: int) -> bool {
    states[i].microgame_state is InMicrogame && phase_expires(states[i], dts[i])
}

/// Frame `i` emits the won event.
pub open spec fn fires_won(states: Seq<InGameData>, dts: Seq<u32>, i: int) -> bool {
    emitted_events(states[i], dts[i]).contains(GameEvents::GameWon)
}

/// Frame `i` emits the lost event.
pub open spec fn fires_lost(states: Seq<InGameData>, dts: Seq<u32>, i: int) -> bool {
    emitted_events(states[i], dts[i]).contains(GameEvents::GameLost)
}

/// A run in which every committed verdict so far was a win, observed after
/// the won event has fired: all lives intact, the queue exhausted, and the
/// cycle at most one phase past the winning transition-out — from where no
/// further transition-out can ever expire again, since the queue is empty.
pub open spec fn won_out(g: InGameData) -> bool {
    &&& g.lives == START_LIVES
    &&& g.game_queue@.len() == 0
    &&& if g.microgame_state is TransOut {
        g.microgames_completed == 16
    } else {
        g.microgames_completed == WIN_COUNT
    }
}

/// A run in which every committed verdict so far was a loss, observed after
/// the lost event has fired: no lives, exactly three microgames completed,
/// and never in a transition-out phase again — the next interactive expiry
/// would need a life to take, so no continuation reaches one.
pub open spec fn lost_out(g: InGameData) -> bool {
    &&& g.lives == 0
    &&& g.microgames_completed == 3
    &&& !(g.microgame_state is TransOut)
}

/// One frame of an all-wins run: from a live well-formed state it either
/// stays live (no event) or fires the won event exactly at a transition-out
/// expiry with all microgames completed; from a finished state it stays
/// finished and silent. Lives are never touched.
proof fn lemma_winning_step(pre: InGameData, input: FrameInput, dt: u32, post: InGameData)
    requires
        orch_step_ok(pre, input, dt, post),
        (pre.microgame_state is InMicrogame && phase_expires(pre, dt)) ==> game_won(
            post.current_microgame,
        ),
        pre.lives == START_LIVES,
        wf(pre) || won_out(pre),
    ensures
        post.lives == START_LIVES,
        wf(pre) && !(pre.microgame_state is TransOut && phase_expires(pre, dt)
            && pre.microgames_completed == WIN_COUNT) ==> wf(post) && emitted_events(pre, dt)
            =~= Seq::<GameEvents>::empty(),
        wf(pre) && (pre.microgame_state is TransOut && phase_expires(pre, dt)
            && pre.microgames_completed == WIN_COUNT) ==> won_out(post) && emitted_events(pre, dt)
            =~= seq![GameEvents::GameWon],
        won_out(pre) ==> won_out(post) && emitted_events(pre, dt) =~= Seq::<GameEvents>::empty(),
        !emitted_events(pre, dt).contains(GameEvents::GameLost),
        !wf(post) || !won_out(post),
{
    lemma_terminal_events(pre, dt);
    if wf(pre) {
        if pre.microgame_state is TransOut && phase_expires(pre, dt)
            && pre.microgames_completed == WIN_COUNT {
            assert(pre.game_queue@.len() == 1);
            assert(won_out(post));
        } else {
            assert(emitted_events(pre, dt) =~= Seq::<GameEvents>::empty());
            lemma_wf_preserved(pre, input, dt, post);
        }
    } else {
        match pre.microgame_state {
            MicrogameState::TransIn(_) => {},
            MicrogameState::InMicrogame(_) => {},
            MicrogameState::TransOut(_) => {
                if phase_expires(pre, dt) {
                    // The relation demands a non-empty queue here, and a
                    // finished run has none: no such frame exists.
                    assert(pre.game_queue@.len() > 0);
                    assert(false);
                }
            },
        }
    }
}

/// One frame of an all-losses run, the mirror image: a live state keeps
/// lives plus completions at the starting three, or fires the lost event
/// exactly at a transition-out expiry with no life left; a finished state
/// stays finished and silent.
proof fn lemma_losing_step(pre: InGameData, input: FrameInput, dt: u32, post: InGameData)
    requires
        orch_step_ok(pre, input, dt, post),
        (pre.microgame_state is InMicrogame && phase_expires(pre, dt)) ==> !game_won(
            post.current_microgame,
        ),
        pre.lives + pre.microgames_completed == START_LIVES,
        (wf(pre) && pre.microgames_completed <= 3) || lost_out(pre),
    ensures
        post.lives + post.microgames_completed == START_LIVES,
        wf(pre) && pre.microgames_completed <= 3 && !(pre.microgame_state is TransOut
            && phase_expires(pre, dt) && pre.lives == 0) ==> wf(post)
            && post.microgames_completed <= 3 && emitted_events(pre, dt)
            =~= Seq::<GameEvents>::empty(),
        wf(pre) && (pre.microgame_state is TransOut && phase_expires(pre, dt) && pre.lives == 0)
            ==> lost_out(post) && emitted_events(pre, dt) =~= seq![GameEvents::GameLost],
        lost_out(pre) ==> lost_out(post) && emitted_events(pre, dt)
            =~= Seq::<GameEvents>::empty(),
        !emitted_events(pre, dt).contains(GameEvents::GameWon),
        !(wf(pre) && pre.microgames_completed <= 3) || !lost_out(pre),
        !(wf(post) && post.microgames_completed <= 3) || !lost_out(post),
{
    lemma_terminal_events(pre, dt);
    if wf(pre) && pre.microgames_completed <= 3 {
        assert(pre.microgames_completed < WIN_COUNT);
        if pre.microgame_state is TransOut && phase_expires(pre, dt) && pre.lives == 0 {
            assert(pre.microgames_completed == 3);
            assert(lost_out(post));
        } else {
            assert(emitted_events(pre, dt) =~= Seq::<GameEvents>::empty());
            lemma_wf_preserved(pre, input, dt, post);
        }
    } else {
        match pre.microgame_state {
            MicrogameState::TransIn(_) => {},
            MicrogameState::InMicrogame(_) => {
                if phase_expires(pre, dt) {
                    // The relation takes a life here, and a finished run
                    // has none: no such frame exists.
                    assert(post.lives == pre.lives - 1);
                    assert(false);
                }
            },
            MicrogameState::TransOut(_) => {},
        }
    }
}

/// No frame before `k` has emitted the won event.
pub open spec fn no_win_before(states: Seq<InGameData>, dts: Seq<u32>, k: int) -> bool {
    forall|i: int| 0 <= i < k ==> !#[trigger] fires_won(states, dts, i)
}

/// No frame before `k` has emitted the lost event.
pub open spec fn no_loss_before(states: Seq<InGameData>, dts: Seq<u32>, k: int) -> bool {
    forall|i: int| 0 <= i < k ==> !#[trigger] fires_lost(states, dts, i)
}

proof fn lemma_winning_run_inv(
    states: Seq<InGameData>,
    inputs: Seq<FrameInput>,
    dts: Seq<u32>,
    k: int,
)
    requires
        run_ok(states, inputs, dts),
        fresh_run(states[0]),
        forall|i: int|
            0 <= i < dts.len() && #[trigger] play_ends_at(states, dts, i) ==> game_won(
                states[i + 1].current_microgame,
            ),
        0 <= k < states.len(),
    ensures
        states[k].lives == START_LIVES,
        wf(states[k]) || won_out(states[k]),
        wf(states[k]) <==> no_win_before(states, dts, k),
    decreases k,
{
    if k == 0 {
        assert(no_win_before(states, dts, 0));
    } else {
        lemma_winning_run_inv(states, inputs, dts, k - 1);
        assert(step_at(states, inputs, dts, k - 1));
        assert(play_ends_at(states, dts, k - 1) ==> game_won(states[k].current_microgame));
        lemma_winning_step(states[k - 1], inputs[k - 1], dts[k - 1], states[k]);
        if wf(states[k - 1]) {
            if states[k - 1].microgame_state is TransOut && phase_expires(
                states[k - 1],
                dts[k - 1],
            ) && states[k - 1].microgames_completed == WIN_COUNT {
                assert(fires_won(states, dts, k - 1)) by {
                    let evs = emitted_events(states[k - 1], dts[k - 1]);
                    assert(evs.len() == 1 && evs[0] == GameEvents::GameWon);
                }
                assert(!no_win_before(states, dts, k));
                assert(!wf(states[k]));
            } else {
                assert(!fires_won(states, dts, k - 1));
                assert forall|i: int| 0 <= i < k implies !#[trigger] fires_won(
                    states,
                    dts,
                    i,
                ) by {}
                assert(no_win_before(states, dts, k));
            }
        } else {
            assert(!no_win_before(states, dts, k - 1));
            let i = choose|i: int| 0 <= i < k - 1 && #[trigger] fires_won(states, dts, i);
            assert(!no_win_before(states, dts, k));
            assert(!wf(states[k]));
        }
    }
}

proof fn lemma_losing_run_inv(
    states: Seq<InGameData>,
    inputs: Seq<FrameInput>,
    dts: Seq<u32>,
    k: int,
)
    requires
        run_ok(states, inputs, dts),
        fresh_run(states[0]),
        states[0].lives == START_LIVES,
        forall|i: int|
            0 <= i < dts.len() && #[trigger] play_ends_at(states, dts, i) ==> !game_won(
                states[i + 1].current_microgame,
            ),
        0 <= k < states.len(),
    ensures
        states[k].lives + states[k].microgames_completed == START_LIVES,
        (wf(states[k]) && states[k].microgames_completed <= 3) || lost_out(states[k]),
        (wf(states[k]) && states[k].microgames_completed <= 3) <==> no_loss_before(
            states,
            dts,
            k,
        ),
    decreases k,
{
    if k == 0 {
        assert(no_loss_before(states, dts, 0));
    } else {
        lemma_losing_run_inv(states, inputs, dts, k - 1);
        assert(step_at(states, inputs, dts, k - 1));
        assert(play_ends_at(states, dts, k - 1) ==> !game_won(states[k].current_microgame));
        lemma_losing_step(states[k - 1], inputs[k - 1], dts[k - 1], states[k]);
        if wf(states[k - 1]) && states[k - 1].microgames_completed <= 3 {
            if states[k - 1].microgame_state is TransOut && phase_expires(
                states[k - 1],
                dts[k - 1],
            ) && states[k - 1].lives == 0 {
                assert(fires_lost(states, dts, k - 1)) by {
                    let evs = emitted_events(states[k - 1], dts[k - 1]);
                    assert(evs.len() == 1 && evs[0] == GameEvents::GameLost);
                }
                assert(!no_loss_before(states, dts, k));
            } else {
                assert(!fires_lost(states, dts, k - 1));
                assert forall|i: int| 0 <= i < k implies !#[trigger] fires_lost(
                    states,
                    dts,
                    i,
                ) by {}
                assert(no_loss_before(states, dts, k));
            }
        } else {
            assert(!no_loss_before(states, dts, k - 1));
            let i = choose|i: int| 0 <= i < k - 1 && #[trigger] fires_lost(states, dts, i);
            assert(!no_loss_before(states, dts, k));
        }
    }
}

/// Winning-run law: along any run from a fresh start in which every
/// committed verdict is a win, no life is ever lost, the lost event never
/// fires, and the won event fires exactly at a transition-out expiry with
/// all fifteen microgames completed — never earlier, and at most once over
/// the whole run.
pub proof fn lemma_winning_run(states: Seq<InGameData>, inputs: Seq<FrameInput>, dts: Seq<u32>)
    requires
        run_ok(states, inputs, dts),
        fresh_run(states[0]),
        forall|i: int|
            0 <= i < dts.len() && #[trigger] play_ends_at(states, dts, i) ==> game_won(
                states[i + 1].current_microgame,
            ),
    ensures
        forall|k: int| 0 <= k < states.len() ==> (#[trigger] states[k]).lives == START_LIVES,
        forall|i: int| 0 <= i < dts.len() ==> !#[trigger] fires_lost(states, dts, i),
        forall|i: int|
            0 <= i < dts.len() ==> (#[trigger] fires_won(states, dts, i) <==> (
            states[i].microgame_state is TransOut && phase_expires(states[i], dts[i])
                && states[i].microgames_completed == WIN_COUNT)),
        forall|i: int, j: int|
            0 <= i < j < dts.len() && #[trigger] fires_won(states, dts, i) ==> !#[trigger] fires_won(
                states,
                dts,
                j,
            ),
{
    assert forall|k: int| 0 <= k < states.len() implies (#[trigger] states[k]).lives
        == START_LIVES by {
        lemma_winning_run_inv(states, inputs, dts, k);
    }
    assert forall|i: int| 0 <= i < dts.len() implies !#[trigger] fires_lost(states, dts, i) by {
        lemma_winning_run_inv(states, inputs, dts, i);
        lemma_terminal_events(states[i], dts[i]);
    }
    assert forall|i: int| 0 <= i < dts.len() implies (#[trigger] fires_won(states, dts, i) <==> (
    states[i].microgame_state is TransOut && phase_expires(states[i], dts[i])
        && states[i].microgames_completed == WIN_COUNT)) by {
        lemma_winning_run_inv(states, inputs, dts, i);
        lemma_terminal_events(states[i], dts[i]);
    }
    assert forall|i: int, j: int|
        0 <= i < j < dts.len() && #[trigger] fires_won(states, dts, i) implies !#[trigger] fires_won(
            states,
            dts,
            j,
        ) by {
        lemma_winning_run_inv(states, inputs, dts, j);
        lemma_terminal_events(states[j], dts[j]);
        assert(!no_win_before(states, dts, j));
        assert(won_out(states[j]));
    }
}

/// Losing-run law: along any run from a fresh start in which every
/// committed verdict is a loss, lives plus completions always equal the
/// starting three, the won event never fires, and the lost event fires
/// exactly at the transition-out expiry following the third loss (three
/// completed, no life left) — and at most once over the whole run.
pub proof fn lemma_losing_run(states: Seq<InGameData>, inputs: Seq<FrameInput>, dts: Seq<u32>)
    requires
        run_ok(states, inputs, dts),
        fresh_run(states[0]),
        forall|i: int|
            0 <= i < dts.len() && #[trigger] play_ends_at(states, dts, i) ==> !game_won(
                states[i + 1].current_microgame,
            ),
    ensures
        forall|k: int|
            0 <= k < states.len() ==> (#[trigger] states[k]).lives
                + states[k].microgames_completed == START_LIVES,
        forall|i: int| 0 <= i < dts.len() ==> !#[trigger] fires_won(states, dts, i),
        forall|i: int|
            0 <= i < dts.len() ==> (#[trigger] fires_lost(states, dts, i) <==> (
            states[i].microgame_state is TransOut && phase_expires(states[i], dts[i])
                && states[i].microgames_completed == 3 && states[i].lives == 0)),
        forall|i: int, j: int|
            0 <= i < j < dts.len() && #[trigger] fires_lost(states, dts, i)
                ==> !#[trigger] fires_lost(states, dts, j),
{
    assert forall|k: int| 0 <= k < states.len() implies (#[trigger] states[k]).lives
        + states[k].microgames_completed == START_LIVES by {
        lemma_losing_run_inv(states, inputs, dts, k);
    }
    assert forall|i: int| 0 <= i < dts.len() implies !#[trigger] fires_won(states, dts, i) by {
        lemma_losing_run_inv(states, inputs, dts, i);
        lemma_terminal_events(states[i], dts[i]);
    }
    assert forall|i: int| 0 <= i < dts.len() implies (#[trigger] fires_lost(states, dts, i)
        <==> (states[i].microgame_state is TransOut && phase_expires(states[i], dts[i])
        && states[i].microgames_completed == 3 && states[i].lives == 0)) by {
        lemma_losing_run_inv(states, inputs, dts, i);
        lemma_terminal_events(states[i], dts[i]);
    }
    assert forall|i: int, j: int|
        0 <= i < j < dts.len() && #[trigger] fires_lost(states, dts, i)
            implies !#[trigger] fires_lost(states, dts, j) by {
        lemma_losing_run_inv(states, inputs, dts, j);
        lemma_terminal_events(states[j], dts[j]);
        assert(!no_loss_before(states, dts, j));
        assert(lost_out(states[j]));
    }
}

} // verus!
