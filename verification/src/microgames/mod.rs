//! The microgame variants, the factory that builds a fresh instance from a
//! queue id, and the queue generator.

use vstd::prelude::*;
use crate::game::{DrawCmd, FrameInput};
use crate::rng::{lemma_shuffled, shuffle_u8};

pub mod always_win;
pub mod asteroids;
pub mod combo;
pub mod course;
pub mod crank;
pub mod imposter;
pub mod pipes;
pub mod swap;
pub mod sweep;

verus! {

/// Exactly one microgame instance is alive at a time inside the
/// orchestrator; each variant owns state meaningful only to itself.
#[derive(Clone, PartialEq, Eq, Debug)]
pub enum Microgames {
    Dummy,
    AlwaysWin(always_win::Data),
    Pipes(pipes::Data),
    Combo(combo::Data),
    Course(course::Data),
    Sweep(sweep::Data),
    Asteroids(asteroids::Data),
    Imposter(imposter::Data),
    Crank(crank::Data),
    Swap(swap::Data),
}

/// Structural invariant of whichever variant is alive.
pub open spec fn game_wf(g: Microgames) -> bool {
    match g {
        Microgames::Dummy => true,
        Microgames::AlwaysWin(_) => true,
        Microgames::Pipes(d) => pipes::wf(d),
        Microgames::Combo(d) => combo::wf(d),
        Microgames::Course(d) => course::wf(d),
        Microgames::Sweep(d) => sweep::wf(d),
        Microgames::Asteroids(d) => asteroids::wf(d),
        Microgames::Imposter(d) => imposter::wf(d),
        Microgames::Crank(d) => crank::wf(d),
        Microgames::Swap(d) => swap::wf(d),
    }
}

/// What the factory returns for a given queue id: the variant the id maps
/// to, freshly constructed. Ids at or past the number of real microgames
/// fall back to the always-win placeholder.
pub open spec fn instance_of(g: Microgames, id: u8) -> bool {
    match g {
        Microgames::Pipes(d) => id == 0 && pipes::fresh(d),
        Microgames::Combo(d) => id == 1 && combo::fresh(d),
        Microgames::Course(d) => id == 2 && course::fresh(d),
        Microgames::Sweep(d) => id == 3 && sweep::fresh(d),
        Microgames::Asteroids(d) => id == 4 && asteroids::fresh(d),
        Microgames::Imposter(d) => id == 5 && imposter::fresh(d),
        Microgames::Crank(d) => id == 6 && crank::fresh(d),
        Microgames::Swap(d) => id == 7 && swap::fresh(d),
        Microgames::AlwaysWin(_) => id >= 8,
        Microgames::Dummy => false,
    }
}

/// One frame of whichever microgame is alive: the variant never changes
/// between frames, and its state advances by its own step rule.
pub open spec fn game_step_ok(
    pre: Microgames,
    input: FrameInput,
    dt: u32,
    post: Microgames,
) -> bool {
    match pre {
        Microgames::Dummy => post == Microgames::Dummy,
        Microgames::AlwaysWin(a) => post == pre,
        Microgames::Pipes(a) => match post {
            Microgames::Pipes(b) => pipes::step_ok(a, input, dt, b),
            _ => false,
        },
        Microgames::Combo(a) => match post {
            Microgames::Combo(b) => combo::step_ok(a, input, b),
            _ => false,
        },
        Microgames::Course(a) => post == Microgames::Course(course::step(a, input)),
        Microgames::Sweep(a) => post == Microgames::Sweep(sweep::step(a, input, dt)),
        Microgames::Asteroids(a) => match post {
            Microgames::Asteroids(b) => asteroids::step_ok(a, input, dt, b),
            _ => false,
        },
        Microgames::Imposter(a) => post == Microgames::Imposter(imposter::step(a, input)),
        Microgames::Crank(a) => post == Microgames::Crank(crank::step(a, input, dt)),
        Microgames::Swap(a) => match post {
            Microgames::Swap(b) => swap::step_ok(a, input, b),
            _ => false,
        },
    }
}

/// The alive microgame's current win condition. The placeholder variants
/// count as won, so a queue id with no real microgame costs no life.
pub open spec fn game_won(g: Microgames) -> bool {
    match g {
        Microgames::Dummy => true,
        Microgames::AlwaysWin(d) => always_win::won(d),
        Microgames::Pipes(d) => pipes::won(d),
        Microgames::Combo(d) => combo::won(d),
        Microgames::Course(d) => course::won(d),
        Microgames::Sweep(d) => sweep::won(d),
        Microgames::Asteroids(d) => asteroids::won(d),
        Microgames::Imposter(d) => imposter::won(d),
        Microgames::Crank(d) => crank::won(d),
        Microgames::Swap(d) => swap::won(d),
    }
}

/// A fixed fresh microgame, used where no queue id is at hand.
pub fn gen_new_microgame() -> (g: Microgames)
    ensures
        instance_of(g, 4),
        game_wf(g),
{
    Microgames::Asteroids(asteroids::Data::default())
}

/// The factory: a fresh instance of the microgame the id maps to.
pub fn gen_microgame(game_id: u8) -> (g: Microgames)
    ensures
        instance_of(g, game_id),
        game_wf(g),
{
    match game_id {
        0 => Microgames::Pipes(pipes::Data::default()),
        1 => Microgames::Combo(combo::Data::default()),
        2 => Microgames::Course(course::Data::default()),
        3 => Microgames::Sweep(sweep::Data::default()),
        4 => Microgames::Asteroids(asteroids::Data::default()),
        5 => Microgames::Imposter(imposter::Data::default()),
        6 => Microgames::Crank(crank::Data::default()),
        7 => Microgames::Swap(swap::Data::default()),
        _ => Microgames::AlwaysWin(always_win::Data {}),
    }
}

/// Copy the first `n` ids of `ran` onto the end of `out`.
fn push_prefix(out: &mut Vec<u8>, ran: &Vec<u8>, n: usize)
    requires
        n <= ran@.len(),
    ensures
        final(out)@ == old(out)@ + ran@.subrange(0, n as int),
{
    let mut k: usize = 0;
    while k < n
        invariant
            0 <= k <= n <= ran@.len(),
            out@ == old(out)@ + ran@.subrange(0, k as int),
        decreases n - k,
    {
        out.push(ran[k]);
        proof {
            assert(out@ =~= old(out)@ + ran@.subrange(0, k + 1));
        }
        k = k + 1;
    }
}

/// One run's worth of microgame ids: sixteen ids drawn from three
/// independently shuffled passes over the full id range (the first six of
/// two shuffles, then the first four of a third), so coverage is spread
/// without forbidding repeats across the segment boundaries. Every id is a
/// real microgame id (below 8) and no id repeats within a segment.
pub fn gen_microgame_queue() -> (q: Vec<u8>)
    ensures
        q@.len() == 16,
        forall|i: int| 0 <= i < 16 ==> (#[trigger] q@[i]) < 8,
        q@.subrange(0, 6).no_duplicates(),
        q@.subrange(6, 12).no_duplicates(),
        q@.subrange(12, 16).no_duplicates(),
{
    let mut ran: Vec<u8> = Vec::new();
    let mut v: u8 = 0;
    while v < 8
        invariant
            0 <= v <= 8,
            ran@.len() == v,
            forall|i: int| 0 <= i < v ==> (#[trigger] ran@[i]) == i,
        decreases 8 - v,
    {
        ran.push(v);
        v = v + 1;
    }
    let ghost init = ran@;
    proof {
        assert(init.no_duplicates());
    }

    let mut out: Vec<u8> = Vec::new();

    shuffle_u8(&mut ran);
    proof {
        lemma_shuffled(init, ran@);
        assert forall|i: int| 0 <= i < 8 implies (#[trigger] ran@[i]) < 8 by {
            assert(ran@.contains(ran@[i]));
            assert(init.contains(ran@[i]));
        }
    }
    push_prefix(&mut out, &ran, 6);

    let ghost first = ran@;
    shuffle_u8(&mut ran);
    proof {
        lemma_shuffled(first, ran@);
        assert forall|i: int| 0 <= i < 8 implies (#[trigger] ran@[i]) < 8 by {
            assert(ran@.contains(ran@[i]));
            assert(first.contains(ran@[i]));
        }
    }
    push_prefix(&mut out, &ran, 6);

    let ghost second = ran@;
    shuffle_u8(&mut ran);
    proof {
        lemma_shuffled(second, ran@);
        assert forall|i: int| 0 <= i < 8 implies (#[trigger] ran@[i]) < 8 by {
            assert(ran@.contains(ran@[i]));
            assert(second.contains(ran@[i]));
        }
    }
    push_prefix(&mut out, &ran, 4);

    proof {
        assert(out@.subrange(0, 6).no_duplicates());
        assert(out@.subrange(6, 12).no_duplicates());
        assert(out@.subrange(12, 16).no_duplicates());
    }
    out
}

/// What each microgame asks the renderer to do, by variant.
pub open spec fn game_draw_cmds(g: Microgames) -> Seq<DrawCmd> {
    match g {
        Microgames::Dummy => Seq::empty(),
        Microgames::AlwaysWin(_) => Seq::empty(),
        Microgames::Pipes(d) => pipes::draw_cmds(d),
        Microgames::Combo(d) => combo::draw_cmds(d),
        Microgames::Course(d) => course::draw_cmds(d),
        Microgames::Sweep(d) => sweep::draw_cmds(d),
        Microgames::Asteroids(d) => asteroids::draw_cmds(d),
        Microgames::Imposter(d) => imposter::draw_cmds(d),
        Microgames::Crank(d) => crank::draw_cmds(d),
        Microgames::Swap(d) => swap::draw_cmds(d),
    }
}

/// Render pass of the alive microgame: purely a function of its state, with
/// no mutation, so drawing twice with no update in between yields identical
/// commands.
pub fn draw_microgame(game: &Microgames) -> (cmds: Vec<DrawCmd>)
    requires
        game_wf(*game),
    ensures
        cmds@ == game_draw_cmds(*game),
{
    match game {
        Microgames::Dummy => Vec::new(),
        Microgames::AlwaysWin(d) => always_win::draw(d),
        Microgames::Pipes(d) => pipes::draw(d),
        Microgames::Combo(d) => combo::draw(d),
        Microgames::Course(d) => course::draw(d),
        Microgames::Sweep(d) => sweep::draw(d),
        Microgames::Asteroids(d) => asteroids::draw(d),
        Microgames::Imposter(d) => imposter::draw(d),
        Microgames::Crank(d) => crank::draw(d),
        Microgames::Swap(d) => swap::draw(d),
    }
}

/// The masking contract: updating any well-formed microgame with the
/// masked input (position zeroed, no press) never changes its win verdict,
/// so the orchestrator can keep polling through the non-interactive phases.
pub proof fn lemma_masked_input_preserves_verdict(
    pre: Microgames,
    dt: u32,
    post: Microgames,
)
    requires
        game_wf(pre),
        game_step_ok(pre, crate::game::masked_input(), dt, post),
    ensures
        game_won(post) == game_won(pre),
{
    let masked = crate::game::masked_input();
    match pre {
        Microgames::Pipes(a) => {
            match post {
                Microgames::Pipes(b) => {
                    assert forall|i: int|
                        0 <= i < 3 implies (#[trigger] b.targets@[i]).clicked
                        == a.targets@[i].clicked by {
                        assert(pipes::target_step_ok(a.targets@[i], masked, dt, b.targets@[i]));
                    }
                    assert(b.targets@.len() == 3 && a.targets@.len() == 3);
                    if pipes::won(a) {
                        assert forall|i: int|
                            0 <= i < b.targets@.len() implies (
                        #[trigger] b.targets@[i]).clicked by {
                            assert(a.targets@[i].clicked);
                        }
                    } else {
                        let i = choose|i: int|
                            0 <= i < a.targets@.len() && !(#[trigger] a.targets@[i]).clicked;
                        assert(!b.targets@[i].clicked);
                    }
                    assert(pipes::won(b) == pipes::won(a));
                },
                _ => {},
            }
        },
        Microgames::Combo(a) => {
            match post {
                Microgames::Combo(b) => {
                    assert(combo::pressed_button(a, masked) == -1);
                    assert(b.buttons@ == a.buttons@);
                    assert forall|i: int| 0 <= i < a.buttons@.len() implies (
                    #[trigger] b.buttons@[i]).pressed == a.buttons@[i].pressed by {}
                    assert(combo::won(b) == combo::won(a));
                },
                _ => {},
            }
        },
        Microgames::Course(a) => {
            assert(course::step(a, masked).course == a.course);
        },
        Microgames::Sweep(a) => {
            assert(sweep::step(a, masked, dt).progress == a.progress);
        },
        Microgames::Asteroids(a) => {
            match post {
                Microgames::Asteroids(b) => {
                    assert(!asteroids::fires(a, masked));
                    assert(b.did_hit == a.did_hit);
                },
                _ => {},
            }
        },
        Microgames::Imposter(a) => {
            assert(imposter::step(a, masked).imposter_selected == a.imposter_selected);
        },
        Microgames::Crank(a) => {
            assert(crank::step(a, masked, dt).angle == a.angle);
        },
        Microgames::Swap(a) => {
            match post {
                Microgames::Swap(b) => {
                    assert(b.order@ == a.order@);
                    assert(swap::won(b) == swap::won(a));
                },
                _ => {},
            }
        },
        _ => {},
    }
}

/// Drawing is idempotent: two draw passes over the same microgame state
/// produce the same command sequence, since the commands are a function of
/// the state alone and drawing mutates nothing.
pub proof fn lemma_draw_idempotent(first: Seq<DrawCmd>, second: Seq<DrawCmd>, g: Microgames)
    requires
        first == game_draw_cmds(g),
        second == game_draw_cmds(g),
    ensures
        first == second,
{
}

} // verus!
