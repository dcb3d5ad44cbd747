//! The imposter line-up microgame: four figures stand in fixed zones, one of
//! them (chosen at random) is the imposter, and the player wins while the
//! imposter is the selected figure.

use vstd::prelude::*;
use crate::game::{DrawCmd, FrameInput, MousePressState, TextureId, Vec2i};
use crate::rng::gen_range_i64;

verus! {

#[derive(Clone, PartialEq, Eq, Structural, Debug)]
pub struct Data {
    /// Which of the four figures is the imposter (0 through 3).
    pub imposter_slot: u8,
    /// Figure under the pointer this frame, or -1.
    pub imposter_hilighted: i8,
    /// Figure last clicked, or -1 before any click.
    pub imposter_selected: i8,
}

/// Structural invariant: all three indices stay in range.
pub open spec fn wf(d: Data) -> bool {
    &&& d.imposter_slot < 4
    &&& -1 <= d.imposter_hilighted < 4
    &&& -1 <= d.imposter_selected < 4
}

/// A freshly constructed instance: a valid imposter slot, nothing hovered,
/// nothing selected.
pub open spec fn fresh(d: Data) -> bool {
    &&& d.imposter_slot < 4
    &&& d.imposter_hilighted == -1
    &&& d.imposter_selected == -1
}

/// The selection zone of figure `i` (0 through 3): a 150-wide column
/// starting at x = 50 + 250 i, y from 100 to 650, corners excluded.
pub open spec fn in_zone(i: int, p: Vec2i) -> bool {
    &&& p.x > 50 + 250 * i
    &&& p.x < 200 + 250 * i
    &&& p.y > 100
    &&& p.y < 650
}

/// Figure under the pointer: the zones are disjoint, and the scan keeps the
/// last (here: unique) match, or -1 when none holds.
pub open spec fn hilighted_of(p: Vec2i) -> int {
    if in_zone(3, p) {
        3
    } else if in_zone(2, p) {
        2
    } else if in_zone(1, p) {
        1
    } else if in_zone(0, p) {
        0
    } else {
        -1
    }
}

/// One frame of the imposter microgame.
pub open spec fn step(pre: Data, input: FrameInput) -> Data {
    let h = hilighted_of(input.mouse_position);
    let sel = if input.mouse_state == MousePressState::JustPressed && h != -1 {
        h
    } else {
        pre.imposter_selected as int
    };
    Data {
        imposter_slot: pre.imposter_slot,
        imposter_hilighted: h as i8,
        imposter_selected: sel as i8,
    }
}

/// The win condition: the selected figure is the imposter.
pub open spec fn won(d: Data) -> bool {
    d.imposter_selected == d.imposter_slot as i8
}

impl Default for Data {
    /// Randomized initial layout: the imposter slot is drawn from 0..4.
    fn default() -> (d: Data)
        ensures
            fresh(d),
            wf(d),
    {
        let slot = gen_range_i64(0, 4);
        Data {
            imposter_slot: slot as u8,
            imposter_hilighted: -1,
            imposter_selected: -1,
        }
    }
}

pub fn update(data: &mut Data, input: FrameInput, delta: u32) -> (w: bool)
    requires
        wf(*old(data)),
    ensures
        *final(data) == step(*old(data), input),
        wf(*final(data)),
        w == won(*final(data)),
{
    let mut is_sel = false;
    let mut i: i32 = 0;
    while i < 4
        invariant
            0 <= i <= 4,
            wf(*data),
            data.imposter_slot == old(data).imposter_slot,
            data.imposter_selected == old(data).imposter_selected,
            is_sel <==> exists|j: int| 0 <= j < i && in_zone(j, input.mouse_position),
            is_sel ==> {
                &&& in_zone(data.imposter_hilighted as int, input.mouse_position)
                &&& 0 <= data.imposter_hilighted < i
                &&& forall|j: int|
                    data.imposter_hilighted < j < i ==> !in_zone(j, input.mouse_position)
            },
            !is_sel ==> data.imposter_hilighted == old(data).imposter_hilighted,
        decreases 4 - i,
    {
        let lo: i32 = 50 + 250 * i;
        let hi: i32 = 200 + 250 * i;
        let hit = input.mouse_position.x > lo && input.mouse_position.x < hi
            && input.mouse_position.y > 100 && input.mouse_position.y < 650;
        proof {
            assert(hit == in_zone(i as int, input.mouse_position));
        }
        if hit {
            is_sel = true;
            data.imposter_hilighted = i as i8;
        }
        i = i + 1;
    }
    if !is_sel {
        data.imposter_hilighted = -1;
    }

    if input.mouse_state == MousePressState::JustPressed && data.imposter_hilighted != -1 {
        data.imposter_selected = data.imposter_hilighted;
    }

    proof {
        assert(*data == step(*old(data), input));
    }

    data.imposter_selected == data.imposter_slot as i8
}

/// Background plus the four figures; the imposter's texture differs, and a
/// selected figure is shown bloodied.
pub open spec fn figure(d: Data, i: int) -> DrawCmd {
    DrawCmd::Texture {
        id: TextureId::ImposterFigure {
            selected: d.imposter_selected == i,
            imposter: d.imposter_slot == i,
        },
        x: (70 + 240 * i) as i32,
        y: 246,
    }
}

pub open spec fn draw_cmds(d: Data) -> Seq<DrawCmd> {
    seq![
        DrawCmd::Texture { id: TextureId::ImposterBkgd, x: 0, y: 0 },
        figure(d, 0),
        figure(d, 1),
        figure(d, 2),
        figure(d, 3),
    ]
}

pub fn draw(data: &Data) -> (cmds: Vec<DrawCmd>)
    ensures
        cmds@ == draw_cmds(*data),
{
    let mut cmds: Vec<DrawCmd> = Vec::new();
    cmds.push(DrawCmd::Texture { id: TextureId::ImposterBkgd, x: 0, y: 0 });
    let mut i: i32 = 0;
    while i < 4
        invariant
            0 <= i <= 4,
            cmds@.len() == i + 1,
            cmds@[0] == (DrawCmd::Texture { id: TextureId::ImposterBkgd, x: 0, y: 0 }),
            forall|j: int| 0 <= j < i ==> cmds@[j + 1] == figure(*data, j),
        decreases 4 - i,
    {
        cmds.push(DrawCmd::Texture {
            id: TextureId::ImposterFigure {
                selected: data.imposter_selected == i as i8,
                imposter: data.imposter_slot == i as u8,
            },
            x: 70 + 240 * i,
            y: 246,
        });
        i = i + 1;
    }
    proof {
        assert(cmds@ =~= draw_cmds(*data));
    }
    cmds
}

} // verus!
