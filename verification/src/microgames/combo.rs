//! The combination-lock microgame: four buttons on a 2x2 grid must be pressed
//! in a randomized order. A press out of order resets every button to its
//! initial unpressed state; the player wins once all four are pressed.

use vstd::prelude::*;
use crate::game::{ColorId, DrawCmd, FrameInput, MousePressState, TextureId, Vec2i};
use crate::rng::shuffle_u8;

verus! {

#[derive(Clone, Copy, PartialEq, Eq, Debug)]
pub struct Button {
    /// Hit rectangle, corners excluded.
    pub range: (Vec2i, Vec2i),
    pub pressed: bool,
    /// Position of this button in the required press order (0 through 3).
    pub order: u8,
}

#[derive(Clone, PartialEq, Eq, Debug)]
pub struct Data {
    pub buttons: Vec<Button>,
    /// How many presses of the required order have been made so far.
    pub button_on: u8,
}

/// The grid rectangle of button `i`: columns alternate, rows advance every
/// two buttons, each button 120 pixels square.
pub open spec fn button_rect(i: int) -> (Vec2i, Vec2i) {
    (
        Vec2i { x: (340 + 160 * (i % 2)) as i32, y: (150 + 160 * (i / 2)) as i32 },
        Vec2i { x: (460 + 160 * (i % 2)) as i32, y: (270 + 160 * (i / 2)) as i32 },
    )
}

/// Structural invariant: four buttons on the fixed grid, orders forming a
/// permutation of 0 through 3, and the progress counter in range.
pub open spec fn wf(d: Data) -> bool {
    &&& d.buttons@.len() == 4
    &&& forall|i: int| 0 <= i < 4 ==> (#[trigger] d.buttons@[i]).range == button_rect(i)
    &&& forall|i: int| 0 <= i < 4 ==> (#[trigger] d.buttons@[i]).order < 4
    &&& forall|i: int, j: int|
        0 <= i < 4 && 0 <= j < 4 && i != j ==> d.buttons@[i].order != d.buttons@[j].order
    &&& d.button_on <= 4
}

/// A freshly constructed instance: well-formed, no button pressed, progress
/// zero.
pub open spec fn fresh(d: Data) -> bool {
    &&& wf(d)
    &&& forall|i: int| 0 <= i < 4 ==> !(#[trigger] d.buttons@[i]).pressed
    &&& d.button_on == 0
}

pub open spec fn in_button(i: int, d: Data, p: Vec2i) -> bool {
    &&& p.x > d.buttons@[i].range.0.x
    &&& p.x < d.buttons@[i].range.1.x
    &&& p.y > d.buttons@[i].range.0.y
    &&& p.y < d.buttons@[i].range.1.y
}

/// The button a just-pressed click lands on: the scan takes the first (here:
/// unique, since the grid rectangles are disjoint) match, or -1.
pub open spec fn pressed_button(d: Data, input: FrameInput) -> int {
    if input.mouse_state != MousePressState::JustPressed {
        -1
    } else if in_button(0, d, input.mouse_position) {
        0
    } else if in_button(1, d, input.mouse_position) {
        1
    } else if in_button(2, d, input.mouse_position) {
        2
    } else if in_button(3, d, input.mouse_position) {
        3
    } else {
        -1
    }
}

/// One frame of the combo microgame: a click on an unpressed button either
/// advances the combination (when the button is next in order) or resets all
/// progress to the initial unpressed state.
pub open spec fn step_ok(pre: Data, input: FrameInput, post: Data) -> bool {
    let bp = pressed_button(pre, input);
    if bp != -1 && !pre.buttons@[bp].pressed {
        if pre.button_on == pre.buttons@[bp].order {
            &&& post.buttons@ == pre.buttons@.update(
                bp,
                Button { pressed: true, ..pre.buttons@[bp] },
            )
            &&& post.button_on == pre.button_on + 1
        } else {
            &&& post.buttons@ == pre.buttons@.map_values(
                |b: Button| Button { pressed: false, ..b },
            )
            &&& post.button_on == 0
        }
    } else {
        &&& post.buttons@ == pre.buttons@
        &&& post.button_on == pre.button_on
    }
}

/// The win condition: every button has been pressed.
pub open spec fn won(d: Data) -> bool {
    forall|i: int| 0 <= i < d.buttons@.len() ==> (#[trigger] d.buttons@[i]).pressed
}

impl Default for Data {
    /// Randomized initial layout: the grid is fixed and the required press
    /// order is a random permutation of 0 through 3.
    fn default() -> (d: Data)
        ensures
            fresh(d),
    {
        let mut b_order: Vec<u8> = Vec::new();
        b_order.push(0);
        b_order.push(1);
        b_order.push(2);
        b_order.push(3);
        let ghost init = b_order@;
        shuffle_u8(&mut b_order);
        proof {
            broadcast use vstd::seq_lib::group_to_multiset_ensures;

            crate::rng::lemma_shuffled(init, b_order@);
            assert forall|i: int| 0 <= i < 4 implies b_order@[i] < 4 by {
                assert(b_order@.contains(b_order@[i]));
                assert(init.contains(b_order@[i]));
            }
            assert(init.no_duplicates());
            assert forall|i: int, j: int|
                0 <= i < 4 && 0 <= j < 4 && i != j implies b_order@[i] != b_order@[j] by {
                assert(b_order@.no_duplicates());
            }
        }

        let mut buttons: Vec<Button> = Vec::new();
        let mut bnum: i32 = 0;
        while bnum < 4
            invariant
                0 <= bnum <= 4,
                b_order@.len() == 4,
                forall|i: int| 0 <= i < 4 ==> b_order@[i] < 4,
                forall|i: int, j: int|
                    0 <= i < 4 && 0 <= j < 4 && i != j ==> b_order@[i] != b_order@[j],
                buttons@.len() == bnum,
                forall|i: int| 0 <= i < bnum ==> (#[trigger] buttons@[i]).range == button_rect(i),
                forall|i: int| 0 <= i < bnum ==> (#[trigger] buttons@[i]).order == b_order@[i],
                forall|i: int| 0 <= i < bnum ==> !(#[trigger] buttons@[i]).pressed,
            decreases 4 - bnum,
        {
            buttons.push(Button {
                range: (
                    Vec2i { x: 340 + 160 * (bnum % 2), y: 150 + 160 * (bnum / 2) },
                    Vec2i { x: 460 + 160 * (bnum % 2), y: 270 + 160 * (bnum / 2) },
                ),
                pressed: false,
                order: b_order[bnum as usize],
            });
            bnum = bnum + 1;
        }

        Data { buttons, button_on: 0 }
    }
}

pub fn update(data: &mut Data, input: FrameInput, delta: u32) -> (w: bool)
    requires
        wf(*old(data)),
    ensures
        step_ok(*old(data), input, *final(data)),
        wf(*final(data)),
        w == won(*final(data)),
{
    let button_pressed: i8 = if input.mouse_state != MousePressState::JustPressed {
        -1
    } else {
        let mut b_pressed: i8 = -1;
        let mut i: usize = 0;
        while i < 4 && b_pressed == -1
            invariant
                0 <= i <= 4,
                wf(*data),
                input.mouse_state == MousePressState::JustPressed,
                b_pressed == -1 ==> forall|j: int|
                    0 <= j < i ==> !in_button(j, *data, input.mouse_position),
                b_pressed != -1 ==> {
                    &&& 0 <= b_pressed < 4
                    &&& in_button(b_pressed as int, *data, input.mouse_position)
                    &&& forall|j: int|
                        0 <= j < b_pressed ==> !in_button(j, *data, input.mouse_position)
                },
            decreases 4 - i,
        {
            let button = &data.buttons[i];
            if input.mouse_position.x > button.range.0.x
                && input.mouse_position.x < button.range.1.x
                && input.mouse_position.y > button.range.0.y
                && input.mouse_position.y < button.range.1.y {
                b_pressed = i as i8;
            }
            i = i + 1;
        }
        b_pressed
    };
    proof {
        assert(button_pressed == pressed_button(*data, input));
    }

    if button_pressed != -1 && !data.buttons[button_pressed as usize].pressed {
        let bp = button_pressed as usize;
        if data.button_on == data.buttons[bp].order {
            data.button_on = data.button_on + 1;
            data.buttons[bp].pressed = true;
            proof {
                assert(data.buttons@ =~= old(data).buttons@.update(
                    bp as int,
                    Button { pressed: true, ..old(data).buttons@[bp as int] },
                ));
            }
        } else {
            let mut i: usize = 0;
            while i < 4
                invariant
                    0 <= i <= 4,
                    data.buttons@.len() == 4,
                    data.button_on == old(data).button_on,
                    forall|j: int|
                        0 <= j < i ==> data.buttons@[j]
                            == (Button { pressed: false, ..old(data).buttons@[j] }),
                    forall|j: int| i <= j < 4 ==> data.buttons@[j] == old(data).buttons@[j],
                decreases 4 - i,
            {
                data.buttons[i].pressed = false;
                i = i + 1;
            }
            data.button_on = 0;
            proof {
                assert(data.buttons@ =~= old(data).buttons@.map_values(
                    |b: Button| Button { pressed: false, ..b },
                ));
            }
        }
    }
    proof {
        assert(step_ok(*old(data), input, *data));
    }

    let mut all = true;
    let mut i: usize = 0;
    while i < 4
        invariant
            0 <= i <= 4,
            data.buttons@.len() == 4,
            all == forall|j: int| 0 <= j < i ==> (#[trigger] data.buttons@[j]).pressed,
        decreases 4 - i,
    {
        if !data.buttons[i].pressed {
            all = false;
        }
        i = i + 1;
    }
    all
}

/// Background plus the four buttons; each button shows its one-based order
/// digit, green once pressed.
pub open spec fn button_cmd(d: Data, i: int) -> DrawCmd {
    DrawCmd::Texture {
        id: TextureId::ComboButton {
            pressed: d.buttons@[i].pressed,
            order: d.buttons@[i].order,
        },
        x: d.buttons@[i].range.0.x,
        y: d.buttons@[i].range.0.y,
    }
}

pub open spec fn draw_cmds(d: Data) -> Seq<DrawCmd> {
    seq![
        DrawCmd::Clear(ColorId::White),
        DrawCmd::Texture { id: TextureId::ComboBkgd, x: 0, y: 0 },
        button_cmd(d, 0),
        button_cmd(d, 1),
        button_cmd(d, 2),
        button_cmd(d, 3),
    ]
}

pub fn draw(data: &Data) -> (cmds: Vec<DrawCmd>)
    requires
        wf(*data),
    ensures
        cmds@ == draw_cmds(*data),
{
    let mut cmds: Vec<DrawCmd> = Vec::new();
    cmds.push(DrawCmd::Clear(ColorId::White));
    cmds.push(DrawCmd::Texture { id: TextureId::ComboBkgd, x: 0, y: 0 });
    let mut i: usize = 0;
    while i < 4
        invariant
            0 <= i <= 4,
            wf(*data),
            cmds@.len() == i + 2,
            cmds@[0] == DrawCmd::Clear(ColorId::White),
            cmds@[1] == (DrawCmd::Texture { id: TextureId::ComboBkgd, x: 0, y: 0 }),
            forall|j: int| 0 <= j < i ==> cmds@[j + 2] == button_cmd(*data, j),
        decreases 4 - i,
    {
        let b = &data.buttons[i];
        cmds.push(DrawCmd::Texture {
            id: TextureId::ComboButton { pressed: b.pressed, order: b.order },
            x: b.range.0.x,
            y: b.range.0.y,
        });
        i = i + 1;
    }
    proof {
        assert(cmds@ =~= draw_cmds(*data));
    }
    cmds
}

/// A press on an unpressed button out of the required order resets the
/// microgame's progress completely: every button is unpressed again and the
/// progress counter is zero, as in a freshly constructed instance.
pub proof fn lemma_wrong_order_resets(pre: Data, input: FrameInput, post: Data)
    requires
        wf(pre),
        step_ok(pre, input, post),
        pressed_button(pre, input) != -1,
        !pre.buttons@[pressed_button(pre, input)].pressed,
        pre.button_on != pre.buttons@[pressed_button(pre, input)].order,
    ensures
        fresh(post),
        !won(post),
{
    assert(post.buttons@.len() == 4);
    assert forall|i: int| 0 <= i < 4 implies !(#[trigger] post.buttons@[i]).pressed
        && post.buttons@[i].range == button_rect(i) && post.buttons@[i].order
        == pre.buttons@[i].order by {
        assert(post.buttons@[i] == (Button { pressed: false, ..pre.buttons@[i] }));
    }
    assert(!post.buttons@[0].pressed);
}

} // verus!
