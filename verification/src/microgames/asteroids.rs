//! The asteroid microgame: a targeting line sweeps up and down; one click
//! fires it, and the player wins if the line was within range of the drifting
//! asteroid when fired. Positions are held in milli-pixels and velocities in
//! milli-pixels per millisecond, so a frame integrates by one multiplication.

use vstd::prelude::*;
use crate::game::{ColorId, DrawCmd, FrameInput, MousePressState, TextureId};
use crate::rng::gen_range_i64;

verus! {

/// Positions are clamped to this many milli-pixels from the origin; far
/// enough off screen to be invisible, small enough that integration can
/// never overflow.
pub const POS_BOUND: i64 = 1_000_000_000;

/// A point or velocity in milli-pixel units.
#[derive(Clone, Copy, PartialEq, Eq, Structural, Debug)]
pub struct FixVec2 {
    pub x: i64,
    pub y: i64,
}

#[derive(Clone, PartialEq, Eq, Debug)]
pub struct Data {
    /// Asteroid centre in milli-pixels.
    pub asteroid_pos: FixVec2,
    /// Asteroid drift in milli-pixels per millisecond.
    pub asteroid_vel: FixVec2,
    /// Height of the targeting line in milli-pixels.
    pub lazer_pos: i64,
    /// Sweep speed in milli-pixels per millisecond; zero once fired.
    pub lazer_vel: i64,
    pub did_shoot: bool,
    pub did_hit: bool,
    /// Milliseconds of beam flash left; floored at -1 once expired.
    pub lazer_cooltime: i64,
    /// Debris centres, present only after a hit.
    pub chunks_pos: Vec<FixVec2>,
    pub chunks_vel: Vec<FixVec2>,
}

/// Structural invariant: every position within the play bound, every speed
/// within its sweep or drift limit, and debris only after a shot.
pub open spec fn wf(d: Data) -> bool {
    &&& -POS_BOUND <= d.asteroid_pos.x <= POS_BOUND
    &&& -POS_BOUND <= d.asteroid_pos.y <= POS_BOUND
    &&& -10 <= d.asteroid_vel.x <= 10
    &&& -10 <= d.asteroid_vel.y <= 10
    &&& 100_000 <= d.lazer_pos <= 540_000
    &&& -500 <= d.lazer_vel <= 500
    &&& -1 <= d.lazer_cooltime <= 250
    &&& d.chunks_pos@.len() == d.chunks_vel@.len()
    &&& d.chunks_pos@.len() <= 6
    &&& !d.did_shoot ==> d.chunks_pos@.len() == 0
    &&& forall|i: int|
        0 <= i < d.chunks_pos@.len() ==> {
            &&& -POS_BOUND - 50_000 <= (#[trigger] d.chunks_pos@[i]).x <= POS_BOUND + 50_000
            &&& -POS_BOUND - 50_000 <= d.chunks_pos@[i].y <= POS_BOUND + 50_000
        }
    &&& forall|i: int|
        0 <= i < d.chunks_vel@.len() ==> {
            &&& -50 <= (#[trigger] d.chunks_vel@[i]).x <= 50
            &&& -50 <= d.chunks_vel@[i].y <= 50
        }
}

/// A freshly constructed instance: asteroid somewhere on the field with a
/// slow random drift, the line sweeping at full speed, nothing fired.
pub open spec fn fresh(d: Data) -> bool {
    &&& 300_000 <= d.asteroid_pos.x < 850_000
    &&& 150_000 <= d.asteroid_pos.y < 490_000
    &&& -10 <= d.asteroid_vel.x < 10
    &&& -10 <= d.asteroid_vel.y < 10
    &&& d.lazer_pos == 200_000
    &&& d.lazer_vel == 500
    &&& !d.did_shoot
    &&& !d.did_hit
    &&& d.lazer_cooltime == 0
    &&& d.chunks_pos@.len() == 0
    &&& d.chunks_vel@.len() == 0
}

pub open spec fn clamp_pos(v: int) -> int {
    if v < -POS_BOUND {
        -POS_BOUND as int
    } else if v > POS_BOUND {
        POS_BOUND as int
    } else {
        v
    }
}

/// The targeting line after one frame's sweep: advance, then bounce off
/// either end of its 100 through 540 pixel run.
pub open spec fn lazer_after(pre: Data, dt: u32) -> (i64, i64) {
    let moved = pre.lazer_pos + pre.lazer_vel * dt;
    if moved > 540_000 {
        (540_000i64, (-pre.lazer_vel) as i64)
    } else if moved < 100_000 {
        (100_000i64, (-pre.lazer_vel) as i64)
    } else {
        (moved as i64, pre.lazer_vel)
    }
}

/// Whether this frame's click fires the shot.
pub open spec fn fires(pre: Data, input: FrameInput) -> bool {
    input.mouse_state == MousePressState::JustPressed && !pre.did_shoot
}

/// Whether a shot fired this frame hits: the line (after its sweep) is
/// within 150 pixels of the asteroid's height (after its drift).
pub open spec fn shot_hits(pre: Data, dt: u32) -> bool {
    let line = lazer_after(pre, dt).0 as int;
    let ay = clamp_pos(pre.asteroid_pos.y + pre.asteroid_vel.y * dt);
    -150_000 < line - ay < 150_000
}

/// The deterministic win verdict after one frame.
pub open spec fn won_after(pre: Data, input: FrameInput, dt: u32) -> bool {
    pre.did_hit || (fires(pre, input) && shot_hits(pre, dt))
}

pub open spec fn floor_expired(t: int) -> int {
    if t < -1 {
        -1
    } else {
        t
    }
}

/// One frame of the asteroid microgame. Everything is a function of the
/// previous state except the debris scatter, which is random; of it this
/// says only where it can lie and how fast it can move.
pub open spec fn step_ok(pre: Data, input: FrameInput, dt: u32, post: Data) -> bool {
    let hit_now = fires(pre, input) && shot_hits(pre, dt);
    &&& post.lazer_pos == lazer_after(pre, dt).0
    &&& post.lazer_vel == (if fires(pre, input) {
        0int
    } else {
        lazer_after(pre, dt).1 as int
    })
    &&& post.asteroid_pos.x == clamp_pos(pre.asteroid_pos.x + pre.asteroid_vel.x * dt)
    &&& post.asteroid_pos.y == clamp_pos(pre.asteroid_pos.y + pre.asteroid_vel.y * dt)
    &&& post.asteroid_vel == pre.asteroid_vel
    &&& post.did_shoot == (pre.did_shoot || fires(pre, input))
    &&& post.did_hit == won_after(pre, input, dt)
    &&& post.lazer_cooltime == (if fires(pre, input) {
        250int
    } else {
        floor_expired(pre.lazer_cooltime - dt)
    })
    &&& post.chunks_vel@.len() == post.chunks_pos@.len()
    &&& if hit_now {
        &&& post.chunks_pos@.len() == 6
        &&& forall|i: int|
            0 <= i < 6 ==> {
                &&& -POS_BOUND - 50_000 <= (#[trigger] post.chunks_pos@[i]).x <= POS_BOUND + 50_000
                &&& -POS_BOUND - 50_000 <= post.chunks_pos@[i].y <= POS_BOUND + 50_000
            }
        &&& forall|i: int|
            0 <= i < 6 ==> {
                &&& -50 <= (#[trigger] post.chunks_vel@[i]).x <= 50
                &&& -50 <= post.chunks_vel@[i].y <= 50
            }
    } else {
        &&& post.chunks_vel@ == pre.chunks_vel@
        &&& post.chunks_pos@.len() == pre.chunks_pos@.len()
        &&& forall|i: int|
            0 <= i < pre.chunks_pos@.len() ==> #[trigger] post.chunks_pos@[i] == (FixVec2 {
                x: clamp_pos(pre.chunks_pos@[i].x + pre.chunks_vel@[i].x * dt) as i64,
                y: clamp_pos(pre.chunks_pos@[i].y + pre.chunks_vel@[i].y * dt) as i64,
            })
    }
}

/// The win condition: the shot connected.
pub open spec fn won(d: Data) -> bool {
    d.did_hit
}

impl Default for Data {
    fn default() -> (d: Data)
        ensures
            fresh(d),
            wf(d),
    {
        let px = gen_range_i64(300_000, 850_000);
        let py = gen_range_i64(150_000, 490_000);
        let vx = gen_range_i64(-10, 10);
        let vy = gen_range_i64(-10, 10);
        Data {
            asteroid_pos: FixVec2 { x: px, y: py },
            asteroid_vel: FixVec2 { x: vx, y: vy },
            lazer_pos: 200_000,
            lazer_vel: 500,
            did_shoot: false,
            did_hit: false,
            lazer_cooltime: 0,
            chunks_pos: Vec::new(),
            chunks_vel: Vec::new(),
        }
    }
}

/// A bounded speed times a frame delta, with the overflow bound proved.
fn mul_speed_dt(v: i64, dt: i64) -> (r: i64)
    requires
        0 <= dt <= 0xFFFF_FFFFi64,
        -100_000 <= v <= 100_000,
    ensures
        r == v * dt,
        -430_000_000_000_000 <= r <= 430_000_000_000_000,
{
    proof {
        assert(-100_000 * 0xFFFF_FFFFi64 <= v * dt <= 100_000 * 0xFFFF_FFFFi64)
            by (nonlinear_arith)
            requires
                0 <= dt <= 0xFFFF_FFFFi64,
                -100_000 <= v <= 100_000,
        {}
    }
    v * dt
}

/// Clamp a freshly integrated coordinate back into the play bound.
fn clamp_coord(v: i64) -> (r: i64)
    requires
        -1_000_000_000_000_000 <= v <= 1_000_000_000_000_000,
    ensures
        r == clamp_pos(v as int),
{
    if v < -POS_BOUND {
        -POS_BOUND
    } else if v > POS_BOUND {
        POS_BOUND
    } else {
        v
    }
}

pub fn update(data: &mut Data, input: FrameInput, delta: u32) -> (w: bool)
    requires
        wf(*old(data)),
    ensures
        step_ok(*old(data), input, delta, *final(data)),
        wf(*final(data)),
        w == won(*final(data)),
        w == won_after(*old(data), input, delta),
{
    let dt = delta as i64;

    let moved: i64 = data.lazer_pos + mul_speed_dt(data.lazer_vel, dt);
    if moved > 540_000 {
        data.lazer_pos = 540_000;
        data.lazer_vel = -data.lazer_vel;
    } else if moved < 100_000 {
        data.lazer_pos = 100_000;
        data.lazer_vel = -data.lazer_vel;
    } else {
        data.lazer_pos = moved;
    }

    let ax = clamp_coord(data.asteroid_pos.x + mul_speed_dt(data.asteroid_vel.x, dt));
    let ay = clamp_coord(data.asteroid_pos.y + mul_speed_dt(data.asteroid_vel.y, dt));
    data.asteroid_pos = FixVec2 { x: ax, y: ay };

    if !(input.mouse_state == MousePressState::JustPressed && !data.did_shoot) {
        let run_down = data.lazer_cooltime - dt;
        data.lazer_cooltime = if run_down < -1 {
            -1
        } else {
            run_down
        };
    } else {
        data.did_shoot = true;
        data.lazer_vel = 0;
        data.lazer_cooltime = 250;

        let offset = data.lazer_pos - ay;
        if -150_000 < offset && offset < 150_000 {
            data.did_hit = true;
            let ghost at_fire = *data;
            let mut k: usize = 0;
            while k < 6
                invariant
                    0 <= k <= 6,
                    -POS_BOUND <= ax <= POS_BOUND,
                    -POS_BOUND <= ay <= POS_BOUND,
                    data.lazer_pos == at_fire.lazer_pos,
                    data.lazer_vel == at_fire.lazer_vel,
                    data.asteroid_pos == at_fire.asteroid_pos,
                    data.asteroid_vel == at_fire.asteroid_vel,
                    data.did_shoot == at_fire.did_shoot,
                    data.did_hit == at_fire.did_hit,
                    data.lazer_cooltime == at_fire.lazer_cooltime,
                    data.chunks_pos@.len() == k,
                    data.chunks_vel@.len() == k,
                    forall|i: int|
                        0 <= i < k ==> {
                            &&& -POS_BOUND - 50_000 <= (#[trigger] data.chunks_pos@[i]).x
                                <= POS_BOUND + 50_000
                            &&& -POS_BOUND - 50_000 <= data.chunks_pos@[i].y <= POS_BOUND + 50_000
                        },
                    forall|i: int|
                        0 <= i < k ==> {
                            &&& -50 <= (#[trigger] data.chunks_vel@[i]).x <= 50
                            &&& -50 <= data.chunks_vel@[i].y <= 50
                        },
                decreases 6 - k,
            {
                let ox = gen_range_i64(-50_000, 50_000);
                let oy = gen_range_i64(-50_000, 50_000);
                data.chunks_pos.push(FixVec2 { x: ax + ox, y: ay + oy });
                let cvx = gen_range_i64(-50, 50);
                let cvy = gen_range_i64(-50, 50);
                data.chunks_vel.push(FixVec2 { x: cvx, y: cvy });
                k = k + 1;
            }
        }
    }

    let ghost mid = *data;
    let ghost mid_chunks = data.chunks_pos@;
    let mut k: usize = 0;
    let n = data.chunks_pos.len();
    while k < n
        invariant
            0 <= k <= n,
            dt == delta as i64,
            n == mid_chunks.len(),
            data.lazer_pos == mid.lazer_pos,
            data.lazer_vel == mid.lazer_vel,
            data.asteroid_pos == mid.asteroid_pos,
            data.asteroid_vel == mid.asteroid_vel,
            data.did_shoot == mid.did_shoot,
            data.did_hit == mid.did_hit,
            data.lazer_cooltime == mid.lazer_cooltime,
            data.chunks_vel@ == mid.chunks_vel@,
            data.chunks_pos@.len() == n,
            data.chunks_vel@.len() == n,
            forall|i: int|
                0 <= i < n ==> {
                    &&& -50 <= (#[trigger] data.chunks_vel@[i]).x <= 50
                    &&& -50 <= data.chunks_vel@[i].y <= 50
                },
            forall|i: int|
                0 <= i < n ==> {
                    &&& -POS_BOUND - 50_000 <= (#[trigger] mid_chunks[i]).x <= POS_BOUND + 50_000
                    &&& -POS_BOUND - 50_000 <= mid_chunks[i].y <= POS_BOUND + 50_000
                },
            forall|i: int|
                0 <= i < k ==> #[trigger] data.chunks_pos@[i] == (FixVec2 {
                    x: clamp_pos(mid_chunks[i].x + data.chunks_vel@[i].x * delta) as i64,
                    y: clamp_pos(mid_chunks[i].y + data.chunks_vel@[i].y * delta) as i64,
                }),
            forall|i: int| k <= i < n ==> #[trigger] data.chunks_pos@[i] == mid_chunks[i],
        decreases n - k,
    {
        let cp = data.chunks_pos[k];
        let cv = data.chunks_vel[k];
        data.chunks_pos[k] = FixVec2 {
            x: clamp_coord(cp.x + mul_speed_dt(cv.x, dt)),
            y: clamp_coord(cp.y + mul_speed_dt(cv.y, dt)),
        };
        k = k + 1;
    }

    data.did_hit
}

/// Milli-pixels to whole pixels, truncated toward zero (how the renderer
/// quantizes).
pub open spec fn to_px(v: int) -> int {
    if v >= 0 {
        v / 1000
    } else {
        -((-v) / 1000)
    }
}

fn coord_to_px(v: i64) -> (r: i32)
    requires
        -2_000_000_000_000 <= v <= 2_000_000_000_000,
    ensures
        r == to_px(v as int),
{
    if v >= 0 {
        ((v as u64) / 1000) as i32
    } else {
        -((((-v) as u64) / 1000) as i32)
    }
}

pub open spec fn chunk_cmd(d: Data, i: int) -> DrawCmd {
    DrawCmd::TextureRotated {
        id: TextureId::AsteroidsChunk,
        x: (to_px(d.chunks_pos@[i].x as int) - 50) as i32,
        y: (to_px(d.chunks_pos@[i].y as int) - 50) as i32,
        rot_mrad: (1000 * i) as i32,
    }
}

/// Background, the sweep line while unfired, the asteroid while unhit, the
/// fired or sweeping line art, the beam flash, and any debris.
pub open spec fn draw_cmds(d: Data) -> Seq<DrawCmd> {
    seq![DrawCmd::Texture { id: TextureId::AsteroidsBkgd, x: 0, y: 0 }] + (if !d.did_shoot {
        seq![
            DrawCmd::Rect {
                x: 0,
                y: (to_px(d.lazer_pos as int) - 5) as i32,
                w: 1000,
                h: 10,
                color: ColorId::Pink,
            },
        ]
    } else {
        Seq::empty()
    }) + (if !d.did_hit {
        seq![
            DrawCmd::Texture {
                id: TextureId::AsteroidsAsteroid,
                x: (to_px(d.asteroid_pos.x as int) - 150) as i32,
                y: (to_px(d.asteroid_pos.y as int) - 150) as i32,
            },
        ]
    } else {
        Seq::empty()
    }) + seq![
        DrawCmd::Texture {
            id: if d.did_shoot {
                TextureId::AsteroidsLazerRed
            } else {
                TextureId::AsteroidsLazerGreen
            },
            x: 0,
            y: (to_px(d.lazer_pos as int) - 70) as i32,
        },
    ] + (if d.lazer_cooltime > 0 {
        seq![
            DrawCmd::Texture {
                id: TextureId::AsteroidsBeam,
                x: 105,
                y: (to_px(d.lazer_pos as int) - 30) as i32,
            },
        ]
    } else {
        Seq::empty()
    }) + Seq::new(d.chunks_pos@.len(), |i: int| chunk_cmd(d, i))
}

pub fn draw(data: &Data) -> (cmds: Vec<DrawCmd>)
    requires
        wf(*data),
    ensures
        cmds@ == draw_cmds(*data),
{
    let mut cmds: Vec<DrawCmd> = Vec::new();
    cmds.push(DrawCmd::Texture { id: TextureId::AsteroidsBkgd, x: 0, y: 0 });
    let lazer_px = coord_to_px(data.lazer_pos);
    if !data.did_shoot {
        cmds.push(DrawCmd::Rect { x: 0, y: lazer_px - 5, w: 1000, h: 10, color: ColorId::Pink });
    }
    if !data.did_hit {
        cmds.push(DrawCmd::Texture {
            id: TextureId::AsteroidsAsteroid,
            x: coord_to_px(data.asteroid_pos.x) - 150,
            y: coord_to_px(data.asteroid_pos.y) - 150,
        });
    }
    cmds.push(DrawCmd::Texture {
        id: if data.did_shoot {
            TextureId::AsteroidsLazerRed
        } else {
            TextureId::AsteroidsLazerGreen
        },
        x: 0,
        y: lazer_px - 70,
    });
    if data.lazer_cooltime > 0 {
        cmds.push(DrawCmd::Texture { id: TextureId::AsteroidsBeam, x: 105, y: lazer_px - 30 });
    }
    let ghost before_chunks = cmds@;
    let mut k: usize = 0;
    let n = data.chunks_pos.len();
    while k < n
        invariant
            0 <= k <= n,
            n == data.chunks_pos@.len() <= 6,
            wf(*data),
            cmds@ == before_chunks + Seq::new(k as nat, |i: int| chunk_cmd(*data, i)),
        decreases n - k,
    {
        let c = data.chunks_pos[k];
        cmds.push(DrawCmd::TextureRotated {
            id: TextureId::AsteroidsChunk,
            x: coord_to_px(c.x) - 50,
            y: coord_to_px(c.y) - 50,
            rot_mrad: 1000 * (k as i32),
        });
        proof {
            assert(cmds@ =~= before_chunks + Seq::new((k + 1) as nat, |i: int| chunk_cmd(*data, i)));
        }
        k = k + 1;
    }
    proof {
        assert(cmds@ =~= draw_cmds(*data));
    }
    cmds
}

} // verus!
