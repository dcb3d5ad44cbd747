//! The course-correction microgame: two arrow zones raise or lower a setting
//! clamped to 0 through 4; the player wins while the setting sits at 2. The
//! starting setting is drawn from {0, 1, 3, 4}, so it never starts won.

use vstd::prelude::*;
use crate::game::{ColorId, DrawCmd, FrameInput, MousePressState, TextureId};
use crate::rng::shuffle_u8;

verus! {

#[derive(Clone, PartialEq, Eq, Structural, Debug)]
pub struct Data {
    pub hovering_right: bool,
    pub hovering_left: bool,
    /// Current setting, 0 through 4; 2 is the winning value.
    pub course: i8,
}

/// Structural invariant: the setting stays in range.
pub open spec fn wf(d: Data) -> bool {
    0 <= d.course <= 4
}

/// A freshly constructed instance: nothing hovered, and the setting is one
/// of the four off-target values.
pub open spec fn fresh(d: Data) -> bool {
    &&& !d.hovering_right
    &&& !d.hovering_left
    &&& (d.course == 0 || d.course == 1 || d.course == 3 || d.course == 4)
}

/// The upper arrow zone, which raises the setting.
pub open spec fn in_raise_zone(p: crate::game::Vec2i) -> bool {
    p.x > 100 && p.x < 350 && p.y > 100 && p.y < 270
}

/// The lower arrow zone, which lowers the setting.
pub open spec fn in_lower_zone(p: crate::game::Vec2i) -> bool {
    p.x > 100 && p.x < 350 && p.y > 330 && p.y < 510
}

pub open spec fn clamp_course(c: int) -> int {
    if c < 0 {
        0
    } else if c > 4 {
        4
    } else {
        c
    }
}

/// One frame of the course microgame as a function of the previous state
/// and the input.
pub open spec fn step(pre: Data, input: FrameInput) -> Data {
    let hr = in_raise_zone(input.mouse_position);
    let hl = in_lower_zone(input.mouse_position);
    let course = if input.mouse_state == MousePressState::JustPressed {
        if hr {
            clamp_course(pre.course + 1)
        } else if hl {
            clamp_course(pre.course - 1)
        } else {
            clamp_course(pre.course as int)
        }
    } else {
        pre.course as int
    };
    Data { hovering_right: hr, hovering_left: hl, course: course as i8 }
}

/// The win condition, re-evaluated every frame.
pub open spec fn won(d: Data) -> bool {
    d.course == 2
}

impl Default for Data {
    /// Randomized initial layout: the starting setting is drawn uniformly
    /// from {0, 1, 3, 4}.
    fn default() -> (d: Data)
        ensures
            fresh(d),
            wf(d),
    {
        let mut vals: Vec<u8> = Vec::new();
        vals.push(0);
        vals.push(1);
        vals.push(3);
        vals.push(4);
        let ghost init = vals@;
        shuffle_u8(&mut vals);
        proof {
            broadcast use vstd::seq_lib::group_to_multiset_ensures;

            assert(vals@.contains(vals@[0]));
            assert(vals@.to_multiset().count(vals@[0]) > 0);
            assert(init.to_multiset().count(vals@[0]) > 0);
            assert(init.contains(vals@[0]));
        }
        let course = vals[0];
        Data { hovering_left: false, hovering_right: false, course: course as i8 }
    }
}

pub fn update(data: &mut Data, input: FrameInput, delta: u32) -> (w: bool)
    requires
        wf(*old(data)),
    ensures
        *final(data) == step(*old(data), input),
        wf(*final(data)),
        w == won(*final(data)),
{
    data.hovering_right = input.mouse_position.x > 100 && input.mouse_position.x < 350
        && input.mouse_position.y > 100 && input.mouse_position.y < 270;
    data.hovering_left = input.mouse_position.x > 100 && input.mouse_position.x < 350
        && input.mouse_position.y > 330 && input.mouse_position.y < 510;

    if input.mouse_state == MousePressState::JustPressed {
        if data.hovering_right {
            data.course = data.course + 1;
        } else if data.hovering_left {
            data.course = data.course - 1;
        }
        if data.course < 0 {
            data.course = 0;
        } else if data.course > 4 {
            data.course = 4;
        }
    }

    data.course == 2
}

/// Background plus the preview image for the current setting. The output is
/// a function of the state alone, so drawing twice without an update in
/// between yields the same commands.
pub open spec fn draw_cmds(d: Data) -> Seq<DrawCmd> {
    seq![
        DrawCmd::Clear(ColorId::White),
        DrawCmd::Texture { id: TextureId::CourseBkgd, x: 0, y: 0 },
        DrawCmd::Texture { id: TextureId::CourseTemp(d.course as u8), x: 411, y: 232 },
    ]
}

pub fn draw(data: &Data) -> (cmds: Vec<DrawCmd>)
    requires
        wf(*data),
    ensures
        cmds@ == draw_cmds(*data),
{
    let mut cmds: Vec<DrawCmd> = Vec::new();
    cmds.push(DrawCmd::Clear(ColorId::White));
    cmds.push(DrawCmd::Texture { id: TextureId::CourseBkgd, x: 0, y: 0 });
    cmds.push(DrawCmd::Texture { id: TextureId::CourseTemp(data.course as u8), x: 411, y: 232 });
    proof {
        assert(cmds@ =~= draw_cmds(*data));
    }
    cmds
}

} // verus!
