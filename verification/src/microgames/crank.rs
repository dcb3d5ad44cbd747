//! The crank microgame: the player grabs a handle that swings on a fixed arm
//! and winds it from its rest angle up to the release angle, no faster than
//! one radian per second; the player wins once the crank is fully wound.
//!
//! Angles are whole milliradians. The handle position comes from the
//! library's own fixed-point sine (a rational approximation, exact enough
//! for hit tests), and the angular pull toward the pointer is measured with
//! a cross product and a small-angle quotient instead of an arc tangent.

use vstd::prelude::*;
use crate::game::{ColorId, DrawCmd, FrameInput, MousePressState, TextureId, Vec2i};

verus! {

/// Crank pivot in pixels.
pub const CRANK_CENTER_X: i32 = 100;

pub const CRANK_CENTER_Y: i32 = 700;

/// Arm length from pivot to the grab point, in pixels.
pub const CRANK_LENGTH: i64 = 380;

/// Rest angle and release angle of the crank, in milliradians.
pub const ANGLE_MIN: i32 = -1500;

pub const ANGLE_MAX: i32 = -500;

#[derive(Clone, Copy, PartialEq, Eq, Structural, Debug)]
pub struct Data {
    /// Crank angle in milliradians, between `ANGLE_MIN` and `ANGLE_MAX`.
    pub angle: i32,
    pub is_draging: bool,
}

/// Structural invariant: the angle stays on the crank's arc.
pub open spec fn wf(d: Data) -> bool {
    ANGLE_MIN <= d.angle <= ANGLE_MAX
}

/// A freshly constructed instance: fully unwound, not grabbed.
pub open spec fn fresh(d: Data) -> bool {
    d == (Data { angle: ANGLE_MIN, is_draging: false })
}

/// Sine in thousandths for an angle of `x` milliradians, `0 <= x <= 3142`:
/// the rational approximation 16 x (pi - x) / (5 pi^2 - 4 x (pi - x)),
/// with pi as 3142 milliradians. Always between 0 and 1000.
pub open spec fn sin_milli_spec(x: int) -> int {
    let p = x * (3142 - x);
    (16_000 * p) / (49_360_820 - 4 * p)
}

/// Cosine in thousandths for a crank angle `a` (milliradians, in
/// `ANGLE_MIN..=ANGLE_MAX`): the sine of the complementary angle.
pub open spec fn cos_milli_spec(a: int) -> int {
    sin_milli_spec(1571 + a)
}

/// Offset of a point `len` pixels from the pivot at crank angle `a`, in
/// pixels. The y part is negative: the crank arm points upward on screen.
pub open spec fn polar_offset(a: int, len: int) -> (int, int) {
    ((cos_milli_spec(a) * len) / 1000, -((sin_milli_spec(-a) * len) / 1000))
}

/// Centre of the grab handle in pixels.
pub open spec fn handle_pos_spec(a: int) -> (int, int) {
    (
        CRANK_CENTER_X + polar_offset(a, CRANK_LENGTH as int).0,
        CRANK_CENTER_Y + polar_offset(a, CRANK_LENGTH as int).1,
    )
}

pub open spec fn dist2(dx: int, dy: int) -> int {
    dx * dx + dy * dy
}

/// The angular pull of the pointer on the crank this frame, in
/// milliradians: zero when the pointer sits behind the crank, the full
/// frame budget `dt` when it is a quarter turn or more ahead, and otherwise
/// the small-angle quotient cross/dot, capped at `dt`. The crank only ever
/// winds forward, at most one milliradian per millisecond.
pub open spec fn pull_mrad(a: int, mx: int, my: int, dt: u32) -> int {
    let vx = polar_offset(a, CRANK_LENGTH as int).0;
    let vy = polar_offset(a, CRANK_LENGTH as int).1;
    let rx = mx - CRANK_CENTER_X;
    let ry = my - CRANK_CENTER_Y;
    let cross = vx * ry - vy * rx;
    let dot = vx * rx + vy * ry;
    if cross <= 0 {
        0
    } else if dot <= 0 {
        dt as int
    } else if (cross * 1000) / dot > dt {
        dt as int
    } else {
        (cross * 1000) / dot
    }
}

pub open spec fn clamp_angle(a: int) -> int {
    if a < ANGLE_MIN {
        ANGLE_MIN as int
    } else if a > ANGLE_MAX {
        ANGLE_MAX as int
    } else {
        a
    }
}

/// One frame of the crank microgame: the grab is dropped when the pointer
/// strays more than 80 pixels from the handle or the button is up, taken
/// when it clicks within 50 pixels, and while held the crank follows the
/// pointer's pull.
pub open spec fn step(pre: Data, input: FrameInput, dt: u32) -> Data {
    let h = handle_pos_spec(pre.angle as int);
    let dx = input.mouse_position.x - h.0;
    let dy = input.mouse_position.y - h.1;
    let drag1 = if dist2(dx, dy) > 6400 || input.mouse_state == MousePressState::NotPressed {
        false
    } else {
        pre.is_draging
    };
    let drag2 = if dist2(dx, dy) < 2500 && input.mouse_state == MousePressState::JustPressed {
        true
    } else {
        drag1
    };
    let pulled = if drag2 {
        pre.angle + pull_mrad(
            pre.angle as int,
            input.mouse_position.x as int,
            input.mouse_position.y as int,
            dt,
        )
    } else {
        pre.angle as int
    };
    Data { angle: clamp_angle(pulled) as i32, is_draging: drag2 }
}

/// The win condition: the crank is fully wound.
pub open spec fn won(d: Data) -> bool {
    d.angle >= ANGLE_MAX
}

impl Default for Data {
    fn default() -> (d: Data)
        ensures
            fresh(d),
            wf(d),
    {
        Data { angle: ANGLE_MIN, is_draging: false }
    }
}

/// Fixed-point sine: exec twin of [`sin_milli_spec`].
fn sin_milli(x: i64) -> (r: i64)
    requires
        0 <= x <= 3142,
    ensures
        r == sin_milli_spec(x as int),
        0 <= r <= 1000,
{
    proof {
        assert(0 <= x * (3142 - x) <= 2_468_041) by (nonlinear_arith)
            requires
                0 <= x <= 3142,
        {
            assert(0 <= (x - 1571) * (x - 1571));
        }
    }
    let p: i64 = x * (3142 - x);
    let num: i64 = 16_000 * p;
    let den: i64 = 49_360_820 - 4 * p;
    proof {
        let ni = num as int;
        let di = den as int;
        assert(ni / di <= 1000) by {
            assert(ni <= 1000 * di);
            vstd::arithmetic::div_mod::lemma_div_is_ordered(ni, 1000 * di, di);
            vstd::arithmetic::div_mod::lemma_div_multiples_vanish(1000, di);
        }
        assert(ni / di >= 0) by {
            vstd::arithmetic::div_mod::lemma_div_pos_is_pos(ni, di);
        }
    }
    let r = ((num as u64) / (den as u64)) as i64;
    proof {
        assert(r == sin_milli_spec(x as int));
    }
    r
}

/// Offset of a point `len` pixels out along the crank arm: exec twin of
/// [`polar_offset`].
fn polar_px(angle: i32, len: i64) -> (r: (i64, i64))
    requires
        ANGLE_MIN <= angle <= ANGLE_MAX,
        0 <= len <= 1000,
    ensures
        r.0 == polar_offset(angle as int, len as int).0,
        r.1 == polar_offset(angle as int, len as int).1,
        0 <= r.0 <= len,
        -len <= r.1 <= 0,
{
    let c = sin_milli(1571 + angle as i64);
    let s = sin_milli(-(angle as i64));
    proof {
        assert(0 <= c * len <= 1_000_000 && 0 <= s * len <= 1_000_000 && c * len <= len * 1000
            && s * len <= len * 1000) by (nonlinear_arith)
            requires
                0 <= c <= 1000,
                0 <= s <= 1000,
                0 <= len <= 1000,
        {}
    }
    let ox = ((c * len) as u64 / 1000) as i64;
    let oy = ((s * len) as u64 / 1000) as i64;
    proof {
        vstd::arithmetic::div_mod::lemma_div_is_ordered(c * len as int, len * 1000, 1000);
        vstd::arithmetic::div_mod::lemma_div_is_ordered(s * len as int, len * 1000, 1000);
        vstd::arithmetic::div_mod::lemma_div_multiples_vanish(len as int, 1000);
        vstd::arithmetic::div_mod::lemma_div_pos_is_pos(c * len as int, 1000);
        vstd::arithmetic::div_mod::lemma_div_pos_is_pos(s * len as int, 1000);
    }
    (ox, -oy)
}

/// Centre of the grab handle in pixels: exec twin of [`handle_pos_spec`].
pub fn crank_handle_pos(angle: i32) -> (p: Vec2i)
    requires
        ANGLE_MIN <= angle <= ANGLE_MAX,
    ensures
        p.x == handle_pos_spec(angle as int).0,
        p.y == handle_pos_spec(angle as int).1,
{
    let (ox, oy) = polar_px(angle, CRANK_LENGTH);
    Vec2i { x: CRANK_CENTER_X + ox as i32, y: CRANK_CENTER_Y + oy as i32 }
}

pub fn update(data: &mut Data, input: FrameInput, delta: u32) -> (w: bool)
    requires
        wf(*old(data)),
    ensures
        *final(data) == step(*old(data), input, delta),
        wf(*final(data)),
        w == won(*final(data)),
{
    let h = crank_handle_pos(data.angle);
    let dx: i64 = input.mouse_position.x as i64 - h.x as i64;
    let dy: i64 = input.mouse_position.y as i64 - h.y as i64;

    let far = exceeds_dist(dx, dy, 80);
    if far || input.mouse_state == MousePressState::NotPressed {
        data.is_draging = false;
    }
    let near = within_dist(dx, dy, 50);
    if near && input.mouse_state == MousePressState::JustPressed {
        data.is_draging = true;
    }

    if data.is_draging {
        let (vx, vy) = polar_px(data.angle, CRANK_LENGTH);
        let rx: i64 = input.mouse_position.x as i64 - CRANK_CENTER_X as i64;
        let ry: i64 = input.mouse_position.y as i64 - CRANK_CENTER_Y as i64;
        proof {
            assert(-400 <= vx <= 400 && -400 <= vy <= 400);
            assert(-3_000_000_000 <= rx <= 3_000_000_000 && -3_000_000_000 <= ry
                <= 3_000_000_000);
            assert({
                &&& -1_200_000_000_000 <= vx * ry <= 1_200_000_000_000
                &&& -1_200_000_000_000 <= vy * rx <= 1_200_000_000_000
                &&& -1_200_000_000_000 <= vx * rx <= 1_200_000_000_000
                &&& -1_200_000_000_000 <= vy * ry <= 1_200_000_000_000
            }) by (nonlinear_arith)
                requires
                    -400 <= vx <= 400,
                    -400 <= vy <= 400,
                    -3_000_000_000 <= rx <= 3_000_000_000,
                    -3_000_000_000 <= ry <= 3_000_000_000,
            {}
        }
        let cross: i64 = vx * ry - vy * rx;
        let dot: i64 = vx * rx + vy * ry;
        let pull: i64 = if cross <= 0 {
            0
        } else if dot <= 0 {
            delta as i64
        } else {
            let quot = ((cross * 1000) as u64 / dot as u64) as i64;
            proof {
                assert(((cross * 1000) as int) / (dot as int) >= 0) by (nonlinear_arith)
                    requires
                        cross > 0,
                        dot > 0,
                {}
            }
            if quot > delta as i64 {
                delta as i64
            } else {
                quot
            }
        };
        let pulled: i64 = data.angle as i64 + pull;
        data.angle = if pulled > ANGLE_MAX as i64 {
            ANGLE_MAX
        } else {
            pulled as i32
        };
    }

    proof {
        assert(*data == step(*old(data), input, delta));
    }

    data.angle >= ANGLE_MAX
}

/// True when the pointer is more than `r` pixels from the handle.
fn exceeds_dist(dx: i64, dy: i64, r: i64) -> (b: bool)
    requires
        -5_000_000_000 <= dx <= 5_000_000_000,
        -5_000_000_000 <= dy <= 5_000_000_000,
        0 < r <= 1000,
    ensures
        b == (dist2(dx as int, dy as int) > r * r),
{
    let adx: i64 = if dx < 0 {
        -dx
    } else {
        dx
    };
    let ady: i64 = if dy < 0 {
        -dy
    } else {
        dy
    };
    if adx > r || ady > r {
        proof {
            assert(dx * dx + dy * dy > r * r) by (nonlinear_arith)
                requires
                    dx > r || dx < -r || dy > r || dy < -r,
                    r > 0,
            {}
        }
        true
    } else {
        proof {
            assert(0 <= dx * dx <= 1_000_000 && 0 <= dy * dy <= 1_000_000 && 0 <= r * r
                <= 1_000_000) by (nonlinear_arith)
                requires
                    -1000 <= dx <= 1000,
                    -1000 <= dy <= 1000,
                    0 < r <= 1000,
            {}
        }
        dx * dx + dy * dy > r * r
    }
}

/// True when the pointer is less than `r` pixels from the handle.
fn within_dist(dx: i64, dy: i64, r: i64) -> (b: bool)
    requires
        -5_000_000_000 <= dx <= 5_000_000_000,
        -5_000_000_000 <= dy <= 5_000_000_000,
        0 < r <= 1000,
    ensures
        b == (dist2(dx as int, dy as int) < r * r),
{
    let adx: i64 = if dx < 0 {
        -dx
    } else {
        dx
    };
    let ady: i64 = if dy < 0 {
        -dy
    } else {
        dy
    };
    if adx > r || ady > r {
        proof {
            assert(!(dx * dx + dy * dy < r * r)) by (nonlinear_arith)
                requires
                    dx > r || dx < -r || dy > r || dy < -r,
                    r > 0,
            {}
        }
        false
    } else {
        proof {
            assert(0 <= dx * dx <= 1_000_000 && 0 <= dy * dy <= 1_000_000 && 0 <= r * r
                <= 1_000_000) by (nonlinear_arith)
                requires
                    -1000 <= dx <= 1000,
                    -1000 <= dy <= 1000,
                    0 < r <= 1000,
            {}
        }
        dx * dx + dy * dy < r * r
    }
}

/// Background behind a door that rises as the crank winds, and the handle
/// art rotated to the crank angle.
pub open spec fn draw_cmds(d: Data) -> Seq<DrawCmd> {
    let off = polar_offset(d.angle as int, 215);
    seq![
        DrawCmd::Clear(ColorId::Black),
        DrawCmd::Texture {
            id: TextureId::CrankDoor,
            x: 496,
            y: (164 - (200 * (d.angle - ANGLE_MIN)) / 1000) as i32,
        },
        DrawCmd::Texture { id: TextureId::CrankBkgd, x: 0, y: 0 },
        DrawCmd::TextureRotated {
            id: TextureId::CrankHandle,
            x: (off.0 + CRANK_CENTER_X - 200) as i32,
            y: (off.1 + CRANK_CENTER_Y - 72) as i32,
            rot_mrad: d.angle,
        },
    ]
}

pub fn draw(data: &Data) -> (cmds: Vec<DrawCmd>)
    requires
        wf(*data),
    ensures
        cmds@ == draw_cmds(*data),
{
    let mut cmds: Vec<DrawCmd> = Vec::new();
    cmds.push(DrawCmd::Clear(ColorId::Black));
    let wound: i64 = (data.angle - ANGLE_MIN) as i64;
    let door_y: i32 = 164 - (((200 * wound) as u64 / 1000) as i64) as i32;
    cmds.push(DrawCmd::Texture { id: TextureId::CrankDoor, x: 496, y: door_y });
    cmds.push(DrawCmd::Texture { id: TextureId::CrankBkgd, x: 0, y: 0 });
    let (ox, oy) = polar_px(data.angle, 215);
    cmds.push(DrawCmd::TextureRotated {
        id: TextureId::CrankHandle,
        x: (ox as i32) + CRANK_CENTER_X - 200,
        y: (oy as i32) + CRANK_CENTER_Y - 72,
        rot_mrad: data.angle,
    });
    proof {
        assert(cmds@ =~= draw_cmds(*data));
    }
    cmds
}

} // verus!
