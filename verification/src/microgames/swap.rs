//! The can-sorting microgame: three cans of distinct heights stand in three
//! columns; clicking selects a can, clicking another swaps the pair, and the
//! player wins while the heights are in ascending order.

use vstd::prelude::*;
use crate::game::{vec2_in_range, DrawCmd, FrameInput, MousePressState, TextureId, Vec2i};
use crate::rng::{lemma_shuffled, shuffle_u8};

verus! {

#[derive(Clone, PartialEq, Eq, Debug)]
pub struct Data {
    /// Height class (0, 1 or 2) of the can in each column.
    pub order: Vec<u8>,
    /// Column of the currently selected can, or -1.
    pub selected: i8,
}

/// Structural invariant: three columns holding the three height classes once
/// each, and a selection in range.
pub open spec fn wf(d: Data) -> bool {
    &&& d.order@.len() == 3
    &&& forall|i: int| 0 <= i < 3 ==> (#[trigger] d.order@[i]) < 3
    &&& d.order@.no_duplicates()
    &&& -1 <= d.selected < 3
}

/// A freshly constructed instance: well-formed with nothing selected.
pub open spec fn fresh(d: Data) -> bool {
    wf(d) && d.selected == -1
}

/// The click column `i` (0 through 2): a 290-wide column whose left edge
/// advances by 310 pixels per slot.
pub open spec fn in_column(i: int, p: Vec2i) -> bool {
    &&& p.x > 30 + 310 * i
    &&& p.x < 320 + 310 * i
    &&& p.y > 80
    &&& p.y < 650
}

/// Column under the pointer; the scan keeps the last (here: unique, since
/// the columns are disjoint) match, or -1.
pub open spec fn hovered_of(p: Vec2i) -> int {
    if in_column(2, p) {
        2
    } else if in_column(1, p) {
        1
    } else if in_column(0, p) {
        0
    } else {
        -1
    }
}

/// One frame of the swap microgame: a click toggles the selection off, swaps
/// the clicked can with a previous selection, or starts a selection.
pub open spec fn step_ok(pre: Data, input: FrameInput, post: Data) -> bool {
    let h = hovered_of(input.mouse_position);
    if h != -1 && input.mouse_state == MousePressState::JustPressed {
        if h == pre.selected {
            post.order@ == pre.order@ && post.selected == -1
        } else if pre.selected != -1 {
            &&& post.order@ == pre.order@.update(pre.selected as int, pre.order@[h]).update(
                h,
                pre.order@[pre.selected as int],
            )
            &&& post.selected == -1
        } else {
            post.order@ == pre.order@ && post.selected == h
        }
    } else {
        post.order@ == pre.order@ && post.selected == pre.selected
    }
}

/// The win condition: heights ascend left to right.
pub open spec fn won(d: Data) -> bool {
    d.order@[0] < d.order@[1] && d.order@[1] < d.order@[2]
}

impl Default for Data {
    /// Randomized initial layout: the three height classes in a random
    /// column order, nothing selected.
    fn default() -> (d: Data)
        ensures
            fresh(d),
    {
        let mut order: Vec<u8> = Vec::new();
        order.push(0);
        order.push(1);
        order.push(2);
        let ghost init = order@;
        shuffle_u8(&mut order);
        proof {
            lemma_shuffled(init, order@);
            assert(init.no_duplicates());
            assert forall|i: int| 0 <= i < 3 implies (#[trigger] order@[i]) < 3 by {
                assert(order@.contains(order@[i]));
                assert(init.contains(order@[i]));
            }
        }
        Data { order, selected: -1 }
    }
}

pub fn update(data: &mut Data, input: FrameInput, delta: u32) -> (w: bool)
    requires
        wf(*old(data)),
    ensures
        step_ok(*old(data), input, *final(data)),
        wf(*final(data)),
        w == won(*final(data)),
{
    let mut hovered: i8 = -1;
    let mut i: i32 = 0;
    while i < 3
        invariant
            0 <= i <= 3,
            wf(*data),
            *data == *old(data),
            hovered == -1 ==> forall|j: int| 0 <= j < i ==> !in_column(j, input.mouse_position),
            hovered != -1 ==> {
                &&& 0 <= hovered < i
                &&& in_column(hovered as int, input.mouse_position)
                &&& forall|j: int| hovered < j < i ==> !in_column(j, input.mouse_position)
            },
        decreases 3 - i,
    {
        let lo = Vec2i { x: 30 + 310 * i, y: 80 };
        let hi = Vec2i { x: 320 + 310 * i, y: 650 };
        if vec2_in_range(&input.mouse_position, &(lo, hi)) {
            hovered = i as i8;
        }
        i = i + 1;
    }
    proof {
        assert(hovered == hovered_of(input.mouse_position));
    }

    if hovered != -1 && input.mouse_state == MousePressState::JustPressed {
        if hovered == data.selected {
            data.selected = -1;
        } else if data.selected != -1 {
            let sel = data.selected as usize;
            let hov = hovered as usize;
            let at_sel = data.order[sel];
            let at_hov = data.order[hov];
            data.order[sel] = at_hov;
            data.order[hov] = at_sel;
            data.selected = -1;
            proof {
                let pre = old(data).order@;
                assert(data.order@ =~= pre.update(sel as int, pre[hov as int]).update(
                    hov as int,
                    pre[sel as int],
                ));
                assert forall|a: int, b: int|
                    0 <= a < 3 && 0 <= b < 3 && a != b implies data.order@[a]
                    != data.order@[b] by {}
            }
        } else {
            data.selected = hovered;
        }
    }
    proof {
        assert(step_ok(*old(data), input, *data));
    }

    data.order[0] < data.order[1] && data.order[1] < data.order[2]
}

/// Vertical offset of a can's top edge by height class: taller cans start
/// higher on the screen.
pub open spec fn can_offset(height: int) -> int {
    if height == 0 {
        233
    } else if height == 1 {
        152
    } else {
        80
    }
}

/// Background plus the three cans; the selected can is lifted 40 pixels.
pub open spec fn can_cmd(d: Data, i: int) -> DrawCmd {
    DrawCmd::Texture {
        id: TextureId::SwapCan(d.order@[i]),
        x: (30 + 310 * i) as i32,
        y: (can_offset(d.order@[i] as int) - if d.selected == i {
            40int
        } else {
            0int
        }) as i32,
    }
}

pub open spec fn draw_cmds(d: Data) -> Seq<DrawCmd> {
    seq![
        DrawCmd::Texture { id: TextureId::SwapBkgd, x: 0, y: 0 },
        can_cmd(d, 0),
        can_cmd(d, 1),
        can_cmd(d, 2),
    ]
}

pub fn draw(data: &Data) -> (cmds: Vec<DrawCmd>)
    requires
        wf(*data),
    ensures
        cmds@ == draw_cmds(*data),
{
    let mut cmds: Vec<DrawCmd> = Vec::new();
    cmds.push(DrawCmd::Texture { id: TextureId::SwapBkgd, x: 0, y: 0 });
    let mut i: i32 = 0;
    while i < 3
        invariant
            0 <= i <= 3,
            wf(*data),
            cmds@.len() == i + 1,
            cmds@[0] == (DrawCmd::Texture { id: TextureId::SwapBkgd, x: 0, y: 0 }),
            forall|j: int| 0 <= j < i ==> cmds@[j + 1] == can_cmd(*data, j),
        decreases 3 - i,
    {
        let height = data.order[i as usize];
        let base: i32 = if height == 0 {
            233
        } else if height == 1 {
            152
        } else {
            80
        };
        let y: i32 = base - if data.selected == i as i8 {
            40
        } else {
            0
        };
        cmds.push(DrawCmd::Texture { id: TextureId::SwapCan(height), x: 30 + 310 * i, y });
        i = i + 1;
    }
    proof {
        assert(cmds@ =~= draw_cmds(*data));
    }
    cmds
}

} // verus!
