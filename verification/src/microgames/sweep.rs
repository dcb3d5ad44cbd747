//! The sweeping microgame: the player drags a handle rightwards across the
//! screen; progress accumulates no faster than the full bar per second, and
//! the player wins once the handle reaches the far end.
//!
//! Progress is held in thousandths of the full bar, so one millisecond of
//! dragging advances it by at most one unit.

use vstd::prelude::*;
use crate::game::{DrawCmd, FrameInput, MousePressState, TextureId};

verus! {

#[derive(Clone, Copy, PartialEq, Eq, Structural, Debug)]
pub struct Data {
    /// Progress in thousandths of the full bar, 0 through 1000.
    pub progress: i32,
    pub is_dragging: bool,
    /// Pointer x position when the drag last advanced, in pixels.
    pub drag_pos: i32,
}

/// Structural invariant: progress stays inside the bar.
pub open spec fn wf(d: Data) -> bool {
    0 <= d.progress <= 1000
}

/// A freshly constructed instance: no progress, not dragging.
pub open spec fn fresh(d: Data) -> bool {
    d == (Data { progress: 0, is_dragging: false, drag_pos: 0 })
}

/// Left edge of the handle in pixels: it travels 800 pixels over the full
/// bar.
pub open spec fn handle_left(progress: int) -> int {
    20 + 800 * progress / 1000
}

pub open spec fn on_handle(d: Data, p: crate::game::Vec2i) -> bool {
    &&& p.x > handle_left(d.progress as int)
    &&& p.x < handle_left(d.progress as int) + 100
    &&& p.y > 420
    &&& p.y < 590
}

/// How far one frame's drag advances progress: the pointer's travel since
/// the last advance, scaled to thousandths of the 700-pixel usable run, and
/// never more than one unit per elapsed millisecond.
pub open spec fn drag_delta(mx: int, dpos: int, dt: int) -> int {
    let raw = (mx - dpos) * 1000 / 700;
    if raw < 0 {
        0
    } else if raw > dt {
        dt
    } else {
        raw
    }
}

pub open spec fn clamp_progress(p: int) -> int {
    if p < 0 {
        0
    } else if p > 1000 {
        1000
    } else {
        p
    }
}

/// One frame of the sweep microgame.
pub open spec fn step(pre: Data, input: FrameInput, dt: u32) -> Data {
    let on = on_handle(pre, input.mouse_position);
    let grabbed = on && input.mouse_state == MousePressState::JustPressed;
    let dpos1 = if grabbed {
        input.mouse_position.x as int
    } else {
        pre.drag_pos as int
    };
    let dragging = (grabbed || pre.is_dragging) && on && input.mouse_state
        != MousePressState::NotPressed;
    let delta = drag_delta(input.mouse_position.x as int, dpos1, dt as int);
    let progress = if dragging {
        clamp_progress(pre.progress + delta)
    } else {
        clamp_progress(pre.progress as int)
    };
    let dpos2 = if dragging {
        input.mouse_position.x as int
    } else {
        dpos1
    };
    Data { progress: progress as i32, is_dragging: dragging, drag_pos: dpos2 as i32 }
}

/// The win condition: the handle has reached the far end.
pub open spec fn won(d: Data) -> bool {
    d.progress >= 1000
}

impl Default for Data {
    fn default() -> (d: Data)
        ensures
            fresh(d),
            wf(d),
    {
        Data { progress: 0, is_dragging: false, drag_pos: 0 }
    }
}

pub fn update(data: &mut Data, input: FrameInput, delta: u32) -> (w: bool)
    requires
        wf(*old(data)),
    ensures
        *final(data) == step(*old(data), input, delta),
        wf(*final(data)),
        w == won(*final(data)),
{
    let left_handle_bound: i32 = 20 + 800 * data.progress / 1000;

    let mouse_on_handle = input.mouse_position.x > left_handle_bound
        && input.mouse_position.x < left_handle_bound + 100
        && input.mouse_position.y > 420 && input.mouse_position.y < 590;

    if mouse_on_handle && input.mouse_state == MousePressState::JustPressed {
        data.is_dragging = true;
        data.drag_pos = input.mouse_position.x;
    }

    if !mouse_on_handle || input.mouse_state == MousePressState::NotPressed {
        data.is_dragging = false;
    }

    let diff: i64 = input.mouse_position.x as i64 - data.drag_pos as i64;
    let raw: i64 = diff * 1000 / 700;
    let drag_step: i64 = if raw < 0 {
        0
    } else if raw > delta as i64 {
        delta as i64
    } else {
        raw
    };

    if data.is_dragging {
        let advanced: i64 = data.progress as i64 + drag_step;
        data.progress = if advanced > 1000 {
            1000
        } else {
            advanced as i32
        };
        data.drag_pos = input.mouse_position.x;
    }

    proof {
        assert(*data == step(*old(data), input, delta));
    }

    data.progress >= 1000
}

/// Background, the coarse progress frame, and the handle.
pub open spec fn frame_cmd(d: Data) -> DrawCmd {
    if d.progress >= 1000 {
        DrawCmd::Texture { id: TextureId::SweepFrame(3), x: 294, y: 24 }
    } else if d.progress >= 500 {
        DrawCmd::Texture { id: TextureId::SweepFrame(2), x: 335, y: 25 }
    } else {
        DrawCmd::Texture { id: TextureId::SweepFrame(1), x: 217, y: 21 }
    }
}

pub open spec fn draw_cmds(d: Data) -> Seq<DrawCmd> {
    seq![
        DrawCmd::Texture { id: TextureId::SweepBkgd, x: 0, y: 0 },
        frame_cmd(d),
        DrawCmd::Texture {
            id: TextureId::SweepHandle,
            x: handle_left(d.progress as int) as i32,
            y: 420,
        },
    ]
}

pub fn draw(data: &Data) -> (cmds: Vec<DrawCmd>)
    requires
        wf(*data),
    ensures
        cmds@ == draw_cmds(*data),
{
    let mut cmds: Vec<DrawCmd> = Vec::new();
    cmds.push(DrawCmd::Texture { id: TextureId::SweepBkgd, x: 0, y: 0 });
    if data.progress >= 1000 {
        cmds.push(DrawCmd::Texture { id: TextureId::SweepFrame(3), x: 294, y: 24 });
    } else if data.progress >= 500 {
        cmds.push(DrawCmd::Texture { id: TextureId::SweepFrame(2), x: 335, y: 25 });
    } else {
        cmds.push(DrawCmd::Texture { id: TextureId::SweepFrame(1), x: 217, y: 21 });
    }
    let left_handle_bound: i32 = 20 + 800 * data.progress / 1000;
    cmds.push(DrawCmd::Texture { id: TextureId::SweepHandle, x: left_handle_bound, y: 420 });
    proof {
        assert(cmds@ =~= draw_cmds(*data));
    }
    cmds
}

} // verus!
