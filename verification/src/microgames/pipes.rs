//! The pipe-patching microgame: three leaking areas must each be clicked
//! once; the player wins when all three are patched. Each unpatched leak
//! keeps a short random timer that paces its decorative smoke.

use vstd::prelude::*;
use crate::game::{ColorId, DrawCmd, FrameInput, MousePressState, TextureId, Vec2i};
use crate::rng::gen_range_i64;

verus! {

#[derive(Clone, Copy, PartialEq, Eq, Debug)]
pub struct Target {
    /// Hit rectangle, corners excluded.
    pub range: (Vec2i, Vec2i),
    pub clicked: bool,
    /// Milliseconds until the leak next puffs; floored at -1 once expired.
    pub timer: i64,
}

#[derive(Clone, PartialEq, Eq, Debug)]
pub struct Data {
    pub targets: Vec<Target>,
}

/// The three leak rectangles.
pub open spec fn leak_rect(i: int) -> (Vec2i, Vec2i) {
    if i == 0 {
        (Vec2i { x: 276, y: 110 }, Vec2i { x: 602, y: 279 })
    } else if i == 1 {
        (Vec2i { x: 38, y: 366 }, Vec2i { x: 382, y: 546 })
    } else {
        (Vec2i { x: 664, y: 306 }, Vec2i { x: 933, y: 501 })
    }
}

/// Structural invariant: the three fixed leaks, timers in their small range.
pub open spec fn wf(d: Data) -> bool {
    &&& d.targets@.len() == 3
    &&& forall|i: int| 0 <= i < 3 ==> (#[trigger] d.targets@[i]).range == leak_rect(i)
    &&& forall|i: int| 0 <= i < 3 ==> -1 <= (#[trigger] d.targets@[i]).timer < 100
}

/// A freshly constructed instance: nothing patched, puff timers drawn from
/// 10 through 49 milliseconds.
pub open spec fn fresh(d: Data) -> bool {
    &&& wf(d)
    &&& forall|i: int| 0 <= i < 3 ==> !(#[trigger] d.targets@[i]).clicked
    &&& forall|i: int| 0 <= i < 3 ==> 10 <= (#[trigger] d.targets@[i]).timer < 50
}

pub open spec fn in_target(t: Target, p: Vec2i) -> bool {
    &&& p.x > t.range.0.x
    &&& p.x < t.range.1.x
    &&& p.y > t.range.0.y
    &&& p.y < t.range.1.y
}

/// One frame of one leak: a just-pressed click inside patches it; the puff
/// timer runs down and, while the leak is unpatched, is rewound to a random
/// 50 through 99 milliseconds whenever it expires.
pub open spec fn target_step_ok(pre: Target, input: FrameInput, dt: u32, post: Target) -> bool {
    let clicked = pre.clicked || (input.mouse_state == MousePressState::JustPressed && in_target(
        pre,
        input.mouse_position,
    ));
    let run_down = pre.timer - dt;
    &&& post.range == pre.range
    &&& post.clicked == clicked
    &&& if run_down <= 0 && !clicked {
        50 <= post.timer < 100
    } else if run_down < -1 {
        post.timer == -1
    } else {
        post.timer == run_down
    }
}

pub open spec fn step_ok(pre: Data, input: FrameInput, dt: u32, post: Data) -> bool {
    &&& post.targets@.len() == 3
    &&& forall|i: int|
        0 <= i < 3 ==> target_step_ok(pre.targets@[i], input, dt, #[trigger] post.targets@[i])
}

/// The win condition: every leak is patched. It depends only on the clicks,
/// never on the random puff timers.
pub open spec fn won(d: Data) -> bool {
    forall|i: int| 0 <= i < d.targets@.len() ==> (#[trigger] d.targets@[i]).clicked
}

/// The deterministic win verdict after one frame.
pub open spec fn won_after(pre: Data, input: FrameInput) -> bool {
    forall|i: int|
        0 <= i < 3 ==> (#[trigger] pre.targets@[i]).clicked || (input.mouse_state
            == MousePressState::JustPressed && in_target(pre.targets@[i], input.mouse_position))
}

impl Target {
    /// A fresh unpatched leak over `min`..`max` with a random first puff.
    pub fn new(min: Vec2i, max: Vec2i) -> (t: Target)
        ensures
            t.range == (min, max),
            !t.clicked,
            10 <= t.timer < 50,
    {
        let timer = gen_range_i64(10, 50);
        Target { range: (min, max), clicked: false, timer }
    }
}

impl Default for Data {
    fn default() -> (d: Data)
        ensures
            fresh(d),
    {
        let mut targets: Vec<Target> = Vec::new();
        targets.push(Target::new(Vec2i { x: 276, y: 110 }, Vec2i { x: 602, y: 279 }));
        targets.push(Target::new(Vec2i { x: 38, y: 366 }, Vec2i { x: 382, y: 546 }));
        targets.push(Target::new(Vec2i { x: 664, y: 306 }, Vec2i { x: 933, y: 501 }));
        Data { targets }
    }
}

pub fn update(data: &mut Data, input: FrameInput, delta: u32) -> (w: bool)
    requires
        wf(*old(data)),
    ensures
        step_ok(*old(data), input, delta, *final(data)),
        wf(*final(data)),
        w == won(*final(data)),
        w == won_after(*old(data), input),
{
    let mut i: usize = 0;
    while i < 3
        invariant
            0 <= i <= 3,
            data.targets@.len() == 3,
            forall|j: int|
                0 <= j < 3 ==> (#[trigger] data.targets@[j]).range == old(data).targets@[j].range,
            forall|j: int|
                0 <= j < i ==> target_step_ok(
                    old(data).targets@[j],
                    input,
                    delta,
                    #[trigger] data.targets@[j],
                ),
            forall|j: int| 0 <= j < i ==> -1 <= (#[trigger] data.targets@[j]).timer < 100,
            forall|j: int| i <= j < 3 ==> data.targets@[j] == old(data).targets@[j],
            wf(*old(data)),
        decreases 3 - i,
    {
        let t = data.targets[i];
        let hit = input.mouse_position.x > t.range.0.x && input.mouse_position.x < t.range.1.x
            && input.mouse_position.y > t.range.0.y && input.mouse_position.y < t.range.1.y;
        if hit && input.mouse_state == MousePressState::JustPressed {
            data.targets[i].clicked = true;
        }
        let clicked = data.targets[i].clicked;
        let run_down: i64 = t.timer - delta as i64;
        if run_down <= 0 && !clicked {
            let rewound = gen_range_i64(50, 100);
            data.targets[i].timer = rewound;
        } else if run_down < -1 {
            data.targets[i].timer = -1;
        } else {
            data.targets[i].timer = run_down;
        }
        i = i + 1;
    }

    let w = data.targets[0].clicked && data.targets[1].clicked && data.targets[2].clicked;
    proof {
        assert(step_ok(*old(data), input, delta, *data));
        assert(w == won(*data));
        assert(w == won_after(*old(data), input));
    }
    w
}

/// Background plus one patch texture over each leak already clicked.
pub open spec fn patch_cmd(i: int) -> DrawCmd {
    DrawCmd::Texture {
        id: TextureId::PipesPatch(i as u8),
        x: leak_rect(i).0.x,
        y: leak_rect(i).0.y,
    }
}

pub open spec fn draw_cmds(d: Data) -> Seq<DrawCmd> {
    seq![
        DrawCmd::Clear(ColorId::White),
        DrawCmd::Texture { id: TextureId::PipesBkgd, x: 0, y: 0 },
    ] + (if d.targets@[0].clicked {
        seq![patch_cmd(0)]
    } else {
        Seq::empty()
    }) + (if d.targets@[1].clicked {
        seq![patch_cmd(1)]
    } else {
        Seq::empty()
    }) + (if d.targets@[2].clicked {
        seq![patch_cmd(2)]
    } else {
        Seq::empty()
    })
}

pub fn draw(data: &Data) -> (cmds: Vec<DrawCmd>)
    requires
        wf(*data),
    ensures
        cmds@ == draw_cmds(*data),
{
    let mut cmds: Vec<DrawCmd> = Vec::new();
    cmds.push(DrawCmd::Clear(ColorId::White));
    cmds.push(DrawCmd::Texture { id: TextureId::PipesBkgd, x: 0, y: 0 });
    if data.targets[0].clicked {
        cmds.push(DrawCmd::Texture { id: TextureId::PipesPatch(0), x: 276, y: 110 });
    }
    if data.targets[1].clicked {
        cmds.push(DrawCmd::Texture { id: TextureId::PipesPatch(1), x: 38, y: 366 });
    }
    if data.targets[2].clicked {
        cmds.push(DrawCmd::Texture { id: TextureId::PipesPatch(2), x: 664, y: 306 });
    }
    proof {
        assert(cmds@ =~= draw_cmds(*data));
    }
    cmds
}

} // verus!
