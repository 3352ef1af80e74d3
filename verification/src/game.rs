//! Game state, the hot-reload boundary, and the per-frame update.
//!
//! `Game` is the state that must survive module reloads; the host owns
//! its storage and hands it to whichever build of the logic is currently
//! active. `load` is that boundary's entry point: it runs the one-time
//! logical initialization exactly once over the process's life, guarded
//! by the persisted `initialized` flag, and tells the host which GPU
//! work the occasion calls for. `update_and_render` is the per-frame
//! step: it folds the frame's window events into the input tracker,
//! applies movement, tile collision and camera easing, and describes the
//! buffer updates and draw calls for the host to submit.

use vstd::prelude::*;

use crate::controls::{Controls, Key, KeyAction};
use crate::geom::{
    abs_spec, floor_div, floor_mod, gap_abs, lemma_towards_converges, min_spec, towards,
    towards_spec, Vec2, SUBPIXELS,
};
use crate::sprite::{SpriteData, FULL_TEXTURE_FRAME, SPRITE_RECORD_BYTES};

verus! {

/// Tile grid width, in tiles.
pub const TILE_COLS: usize = 10;

/// Tile grid height, in tiles.
pub const TILE_ROWS: usize = 10;

/// Tiles in the grid.
pub const TILE_COUNT: usize = 100;

/// Edge of one square tile, in pixels.
pub const TILE_SIZE_PX: i64 = 32;

/// Edge of one square tile, in subpixels.
pub const TILE_SUBPIXELS: i64 = 32 * 1000;

/// Player walking speed, in pixels per second.
pub const MOVE_SPEED_PPS: i64 = 100;

/// Camera easing rate: the fraction of the remaining gap covered per
/// second, times `CAM_RATE`.
pub const CAM_RATE: i64 = 10;

/// Largest frame delta the update accepts, in milliseconds.
pub const DT_LIMIT_MS: i64 = 1_000_000;

/// Saturation bound of walkable coordinates, in subpixels; about two
/// million pixels from the origin, far beyond any playable area.
pub const COORD_LIMIT: i64 = 0x8000_0000;

/// The collision probe sits this far right of the sprite origin.
pub const PROBE_OFFSET_X_SUB: i64 = 16 * 1000;

/// How far outside a wall the player is placed after a collision: one
/// pixel, so the next frame does not re-penetrate.
pub const WALL_PUSHBACK_SUB: i64 = 1000;

/// A coordinate a sprite may hold: the saturation bound plus the widest
/// collision pushback.
pub open spec fn spec_coord_ok(v: int) -> bool {
    -(COORD_LIMIT + TILE_SUBPIXELS + SUBPIXELS) <= v <= COORD_LIMIT + TILE_SUBPIXELS + SUBPIXELS
}

/// The options block the host persists beside the game state.
#[derive(Debug)]
pub struct Options {
    pub controls: Controls,
}

/// GPU object handles and uniform locations, re-derived on a fresh module
/// load and kept otherwise. Textures are registry handles, not pointers.
#[derive(Clone, Copy, Debug, PartialEq, Eq, Structural)]
pub struct GlData {
    pub vao: u32,
    pub square_vbo: u32,
    pub square_ebo: u32,
    pub shader_prog: u32,
    pub cam_pos_uniform: i32,
    pub scale_uniform: i32,
    pub sprite_size_uniform: i32,
    pub screen_size_uniform: i32,
    pub tex_uniform: i32,
    pub frames_uniform: i32,
    /// Registry handle of the origin-marker texture.
    pub zero_zero_tex: usize,
    pub zero_zero_vbo: u32,
    /// Registry handle of the tile sheet.
    pub tile_tex: usize,
    pub tile_vbo: u32,
    /// Registry handle of the player sheet.
    pub player_tex: usize,
    pub player_vbo: u32,
}

/// The logical game state that survives module reloads.
#[derive(Debug)]
pub struct Game {
    /// True once the one-time initialization ran; persisted, so a reload
    /// never repeats it.
    pub initialized: bool,
    pub debug_flag: i64,
    /// The origin marker sprite, drawn with the whole texture.
    pub zero_zero_sprite: SpriteData,
    /// World position of the tile grid's corner, in subpixels.
    pub tilemap_position: Vec2,
    /// Row-major tile ids, `TILE_COUNT` of them.
    pub tilemap: Vec<i32>,
    pub player_state: SpriteData,
    pub cam_pos: Vec2,
}

/// The tile ids that block movement.
pub open spec fn spec_tile_solid(id: i32) -> bool {
    id == 8 || id == 9
}

/// Whether a tile id blocks movement.
pub fn tile_solid(id: i32) -> (r: bool)
    ensures
        r == spec_tile_solid(id),
{
    id == 8 || id == 9
}

/// The initial tile grid: a solid border, a doorway row at the bottom,
/// floor inside with two decorations.
pub open spec fn spec_initial_tilemap() -> Seq<i32> {
    seq![
        9, 9, 9, 9, 9, 9, 9, 9, 9, 9,
        9, 2, 2, 2, 2, 2, 2, 2, 2, 9,
        9, 2, 2, 2, 2, 2, 2, 2, 2, 9,
        9, 2, 2, 2, 2, 2, 2, 2, 2, 9,
        9, 2, 11, 2, 2, 2, 2, 2, 2, 9,
        9, 2, 2, 2, 2, 2, 2, 2, 2, 9,
        9, 2, 2, 2, 2, 2, 2, 2, 2, 9,
        9, 2, 2, 2, 2, 2, 11, 2, 2, 9,
        9, 2, 2, 2, 2, 2, 2, 2, 2, 9,
        9, 8, 8, 8, 7, 8, 8, 8, 8, 9,
    ]
}

impl Game {
    /// Grid complete and every moving coordinate within its bound.
    pub open spec fn spec_wf(self) -> bool {
        &&& self.tilemap@.len() == TILE_COUNT
        &&& spec_coord_ok(self.player_state.x as int)
        &&& spec_coord_ok(self.player_state.y as int)
        &&& spec_coord_ok(self.cam_pos.x as int)
        &&& spec_coord_ok(self.cam_pos.y as int)
        &&& -COORD_LIMIT <= self.tilemap_position.x <= COORD_LIMIT
        &&& -COORD_LIMIT <= self.tilemap_position.y <= COORD_LIMIT
    }

    /// The state the one-time initialization establishes: camera at the
    /// origin, player at the spawn point facing right, the initial grid.
    pub open spec fn spec_initialized(self) -> bool {
        &&& self.initialized
        &&& self.debug_flag == 0
        &&& self.zero_zero_sprite == (SpriteData {
            x: 0,
            y: 0,
            frame: FULL_TEXTURE_FRAME,
            flipped: false,
        })
        &&& self.tilemap_position == (Vec2 { x: 20000, y: 128000 })
        &&& self.tilemap@ == spec_initial_tilemap()
        &&& self.player_state == (SpriteData { x: 256000, y: 256000, frame: 1, flipped: true })
        &&& self.cam_pos == (Vec2 { x: 0, y: 0 })
    }

    /// A zeroed state block, as the host allocates it at process start.
    pub fn new_zeroed() -> (g: Game)
        ensures
            !g.initialized,
            g.tilemap@.len() == 0,
    {
        Game {
            initialized: false,
            debug_flag: 0,
            zero_zero_sprite: SpriteData { x: 0, y: 0, frame: 0, flipped: false },
            tilemap_position: Vec2 { x: 0, y: 0 },
            tilemap: Vec::new(),
            player_state: SpriteData { x: 0, y: 0, frame: 0, flipped: false },
            cam_pos: Vec2 { x: 0, y: 0 },
        }
    }
}

/// What the host must do after a `load` call.
#[derive(Clone, Copy, Debug, PartialEq, Eq, Structural)]
pub struct LoadPlan {
    /// The one-time logical initialization ran in this call.
    pub performed_init: bool,
    /// Recreate every GPU object: buffers, textures, frame atlases. True
    /// exactly for a fresh module image; on a warm reload the existing
    /// handles stay valid, because the GPU context outlives the module.
    pub recreate_gl_objects: bool,
    /// Build the shader program anew. Always on: shader source is
    /// hot-editable.
    pub recompile_shaders: bool,
}

/// The hot-reload boundary's entry point. Runs the one-time logical
/// state construction if and only if the persisted `initialized` flag is
/// still clear — so it happens exactly once per process, however many
/// times the module is swapped — and leaves an already-initialized state
/// byte-for-byte alone. On a fresh module image the plan orders all GPU
/// objects rebuilt and the controls reset; on a warm reload it orders
/// only a shader recompile.
pub fn load(game: &mut Game, options: &mut Options, fresh_load: bool) -> (plan: LoadPlan)
    requires
        old(game).initialized ==> old(game).spec_wf(),
    ensures
        old(game).initialized ==> *final(game) == *old(game),
        !old(game).initialized ==> final(game).spec_initialized(),
        final(game).initialized,
        final(game).spec_wf(),
        fresh_load ==> final(options).controls == Controls::new_spec(),
        !fresh_load ==> *final(options) == *old(options),
        plan == (LoadPlan {
            performed_init: !old(game).initialized,
            recreate_gl_objects: fresh_load,
            recompile_shaders: true,
        }),
{
    let performed_init = !game.initialized;
    if !game.initialized {
        game.initialized = true;
        game.debug_flag = 0;
        game.zero_zero_sprite = SpriteData { x: 0, y: 0, frame: FULL_TEXTURE_FRAME, flipped: false };
        game.tilemap_position = Vec2 { x: 20000, y: 128000 };
        game.tilemap = vec![
            9, 9, 9, 9, 9, 9, 9, 9, 9, 9,
            9, 2, 2, 2, 2, 2, 2, 2, 2, 9,
            9, 2, 2, 2, 2, 2, 2, 2, 2, 9,
            9, 2, 2, 2, 2, 2, 2, 2, 2, 9,
            9, 2, 11, 2, 2, 2, 2, 2, 2, 9,
            9, 2, 2, 2, 2, 2, 2, 2, 2, 9,
            9, 2, 2, 2, 2, 2, 2, 2, 2, 9,
            9, 2, 2, 2, 2, 2, 11, 2, 2, 9,
            9, 2, 2, 2, 2, 2, 2, 2, 2, 9,
            9, 8, 8, 8, 7, 8, 8, 8, 8, 9,
        ];
        game.player_state = SpriteData { x: 256000, y: 256000, frame: 1, flipped: true };
        game.cam_pos = Vec2 { x: 0, y: 0 };
        proof {
            assert(game.tilemap@ =~= spec_initial_tilemap());
        }
    }
    if fresh_load {
        options.controls = Controls::new();
    }
    LoadPlan { performed_init, recreate_gl_objects: fresh_load, recompile_shaders: true }
}

/// The instance record of grid slot `i`: its world position and its tile
/// id as the frame index.
pub open spec fn spec_tile_record(g: Game, i: int) -> SpriteData {
    SpriteData {
        x: (g.tilemap_position.x + (i % (TILE_COLS as int)) * TILE_SUBPIXELS) as i64,
        y: (g.tilemap_position.y + (i / (TILE_COLS as int)) * TILE_SUBPIXELS) as i64,
        frame: g.tilemap@[i],
        flipped: false,
    }
}

/// The instance records of the whole tile grid, row-major, ready for the
/// host to upload into the tile instance buffer on a fresh load.
pub fn tile_sprite_records(game: &Game) -> (v: Vec<SpriteData>)
    requires
        game.spec_wf(),
    ensures
        v@.len() == TILE_COUNT,
        forall|i: int| 0 <= i < TILE_COUNT ==> v@[i] == spec_tile_record(*game, i),
{
    let mut v: Vec<SpriteData> = Vec::new();
    let mut i: usize = 0;
    while i < TILE_COUNT
        invariant
            0 <= i <= TILE_COUNT,
            game.spec_wf(),
            v@.len() == i,
            forall|j: int| 0 <= j < i ==> v@[j] == spec_tile_record(*game, j),
        decreases TILE_COUNT - i,
    {
        let col = i % TILE_COLS;
        let row = i / TILE_COLS;
        let record = SpriteData {
            x: game.tilemap_position.x + (col as i64) * TILE_SUBPIXELS,
            y: game.tilemap_position.y + (row as i64) * TILE_SUBPIXELS,
            frame: game.tilemap[i],
            flipped: false,
        };
        v.push(record);
        i = i + 1;
    }
    v
}

/// Mathematical sign: `-1`, `0` or `1`.
pub open spec fn spec_sign(v: int) -> int {
    if v > 0 {
        1
    } else if v < 0 {
        -1
    } else {
        0
    }
}

/// Clamp a coordinate to the saturation bound.
pub open spec fn spec_clamp_coord(v: int) -> int {
    if v < -COORD_LIMIT {
        -COORD_LIMIT as int
    } else if v > COORD_LIMIT {
        COORD_LIMIT as int
    } else {
        v
    }
}

/// Clamp a coordinate to the saturation bound.
pub fn clamp_coord(v: i64) -> (r: i64)
    ensures
        r == spec_clamp_coord(v as int),
{
    if v < -COORD_LIMIT {
        -COORD_LIMIT
    } else if v > COORD_LIMIT {
        COORD_LIMIT
    } else {
        v
    }
}

/// Distance walked in a frame, in subpixels: pixels per second times
/// milliseconds.
pub open spec fn spec_move_step(dt: int) -> int {
    MOVE_SPEED_PPS * dt
}

/// The tile column or row a coordinate falls in, relative to the grid's
/// corner.
pub open spec fn spec_tile_index(p: int, origin: int) -> int {
    (p - origin) / (TILE_SUBPIXELS as int)
}

/// The tile id under grid coordinates, `None` outside the grid. A probe
/// outside the grid blocks nothing.
pub open spec fn spec_tile_at(g: Game, tx: int, ty: int) -> Option<i32> {
    if 0 <= tx < TILE_COLS && 0 <= ty < TILE_ROWS {
        Some(g.tilemap@[ty * (TILE_COLS as int) + tx])
    } else {
        None
    }
}

/// Where a frame's directional input sends the player before collision,
/// and the walk pose: each held direction shifts its axis by the frame's
/// step (saturating at the world bound) and selects the sprite frame and
/// flip, the later directions in the order left, right, up, down winning.
pub open spec fn spec_walk_target(p: SpriteData, c: Controls, dt: int) -> SpriteData {
    let step = spec_move_step(dt);
    let p1 = if c.left.spec_down() {
        SpriteData { x: spec_clamp_coord(p.x - step) as i64, frame: 1, flipped: false, ..p }
    } else {
        p
    };
    let p2 = if c.right.spec_down() {
        SpriteData { x: spec_clamp_coord(p1.x + step) as i64, frame: 1, flipped: true, ..p1 }
    } else {
        p1
    };
    let p3 = if c.up.spec_down() {
        SpriteData { y: spec_clamp_coord(p2.y + step) as i64, frame: 2, flipped: false, ..p2 }
    } else {
        p2
    };
    if c.down.spec_down() {
        SpriteData { y: spec_clamp_coord(p3.y - step) as i64, frame: 0, flipped: false, ..p3 }
    } else {
        p3
    }
}

/// Resolve the walk target against the tile grid. The probe point, a
/// fixed offset right of the sprite origin, is looked up in the grid; on
/// a solid tile the position is pushed back out along each axis the
/// probe crossed a tile boundary on: by the fractional offset past the
/// wall, plus a one-pixel epsilon so the next frame starts outside.
pub open spec fn spec_resolve_collision(g: Game, target: SpriteData) -> SpriteData {
    let probe_x = target.x + PROBE_OFFSET_X_SUB;
    let probe_y = target.y as int;
    let tx = spec_tile_index(probe_x, g.tilemap_position.x as int);
    let ty = spec_tile_index(probe_y, g.tilemap_position.y as int);
    match spec_tile_at(g, tx, ty) {
        Some(id) => if spec_tile_solid(id) {
            let cx = spec_tile_index(
                g.player_state.x + PROBE_OFFSET_X_SUB,
                g.tilemap_position.x as int,
            );
            let cy = spec_tile_index(g.player_state.y as int, g.tilemap_position.y as int);
            let wx = spec_sign(tx - cx);
            let wy = spec_sign(ty - cy);
            let fx = (probe_x - g.tilemap_position.x) % (TILE_SUBPIXELS as int);
            let fy = (probe_y - g.tilemap_position.y) % (TILE_SUBPIXELS as int);
            let off_x = if wx == 1 {
                fx + WALL_PUSHBACK_SUB
            } else if wx == -1 {
                -(TILE_SUBPIXELS - fx) - WALL_PUSHBACK_SUB
            } else {
                0
            };
            let off_y = if wy == 1 {
                fy + WALL_PUSHBACK_SUB
            } else if wy == -1 {
                -(TILE_SUBPIXELS - fy) - WALL_PUSHBACK_SUB
            } else {
                0
            };
            SpriteData { x: (target.x - off_x) as i64, y: (target.y - off_y) as i64, ..target }
        } else {
            target
        },
        None => target,
    }
}

/// The player after a frame of walking and collision.
pub open spec fn spec_moved_player(g: Game, c: Controls, dt: int) -> SpriteData {
    spec_resolve_collision(g, spec_walk_target(g.player_state, c, dt))
}

/// Collision snap against a wall to the right: when the frame's target
/// puts the probe inside a solid tile in a column right of the player's,
/// same row, the resolved position leaves the probe exactly one pixel
/// outside that tile's left edge — within one pixel of the wall, never
/// beyond it, however large the requested step was.
pub proof fn lemma_wall_snap_right(g: Game, target: SpriteData)
    requires
        g.spec_wf(),
        spec_coord_ok(target.x as int),
        spec_coord_ok(target.y as int),
        ({
            let tx = spec_tile_index(target.x + PROBE_OFFSET_X_SUB, g.tilemap_position.x as int);
            let ty = spec_tile_index(target.y as int, g.tilemap_position.y as int);
            let cx = spec_tile_index(
                g.player_state.x + PROBE_OFFSET_X_SUB,
                g.tilemap_position.x as int,
            );
            let cy = spec_tile_index(g.player_state.y as int, g.tilemap_position.y as int);
            &&& 0 <= tx < TILE_COLS
            &&& 0 <= ty < TILE_ROWS
            &&& spec_tile_solid(g.tilemap@[ty * (TILE_COLS as int) + tx])
            &&& tx > cx
            &&& ty == cy
        }),
    ensures
        ({
            let tx = spec_tile_index(target.x + PROBE_OFFSET_X_SUB, g.tilemap_position.x as int);
            let wall_left_edge = g.tilemap_position.x + tx * TILE_SUBPIXELS;
            &&& spec_resolve_collision(g, target).x + PROBE_OFFSET_X_SUB == wall_left_edge
                - WALL_PUSHBACK_SUB
            &&& spec_resolve_collision(g, target).y == target.y
        }),
{
    let probe = target.x + PROBE_OFFSET_X_SUB;
    let origin = g.tilemap_position.x as int;
    let tx = spec_tile_index(probe as int, origin);
    let fx = (probe - origin) % (TILE_SUBPIXELS as int);
    vstd::arithmetic::div_mod::lemma_fundamental_div_mod(probe - origin, TILE_SUBPIXELS as int);
    vstd::arithmetic::div_mod::lemma_mod_division_less_than_divisor(
        probe - origin,
        TILE_SUBPIXELS as int,
    );
    vstd::arithmetic::div_mod::lemma_mod_bound(probe - origin, TILE_SUBPIXELS as int);
    assert(probe - origin == TILE_SUBPIXELS * tx + fx);
}

/// The tile column and row under a position's probe point.
fn tile_index_of(x: i64, y: i64, origin: Vec2) -> (r: (i64, i64))
    requires
        spec_coord_ok(x as int),
        spec_coord_ok(y as int),
        -COORD_LIMIT <= origin.x <= COORD_LIMIT,
        -COORD_LIMIT <= origin.y <= COORD_LIMIT,
    ensures
        r.0 == spec_tile_index(x + PROBE_OFFSET_X_SUB, origin.x as int),
        r.1 == spec_tile_index(y as int, origin.y as int),
{
    let tx = floor_div(x + PROBE_OFFSET_X_SUB - origin.x, TILE_SUBPIXELS);
    let ty = floor_div(y - origin.y, TILE_SUBPIXELS);
    (tx, ty)
}

/// Compute the frame's walk target and pose from the held directions.
fn walk_target(p: SpriteData, controls: &Controls, dt_ms: i64) -> (target: SpriteData)
    requires
        spec_coord_ok(p.x as int),
        spec_coord_ok(p.y as int),
        0 <= dt_ms <= DT_LIMIT_MS,
    ensures
        target == spec_walk_target(p, *controls, dt_ms as int),
        target.x == p.x || -COORD_LIMIT <= target.x <= COORD_LIMIT,
        target.y == p.y || -COORD_LIMIT <= target.y <= COORD_LIMIT,
        spec_coord_ok(target.x as int),
        spec_coord_ok(target.y as int),
{
    let step = MOVE_SPEED_PPS * dt_ms;
    let mut target = p;
    if controls.left.down() {
        target =
        SpriteData { x: clamp_coord(target.x - step), frame: 1, flipped: false, ..target };
    }
    if controls.right.down() {
        target = SpriteData { x: clamp_coord(target.x + step), frame: 1, flipped: true, ..target };
    }
    if controls.up.down() {
        target = SpriteData { y: clamp_coord(target.y + step), frame: 2, flipped: false, ..target };
    }
    if controls.down.down() {
        target = SpriteData { y: clamp_coord(target.y - step), frame: 0, flipped: false, ..target };
    }
    target
}

/// Resolve a walk target against the tile grid, exactly as
/// `spec_resolve_collision` describes.
#[verifier::rlimit(50)]
fn resolve_collision(game: &Game, target: SpriteData) -> (r: SpriteData)
    requires
        game.spec_wf(),
        target.x == game.player_state.x || -COORD_LIMIT <= target.x <= COORD_LIMIT,
        target.y == game.player_state.y || -COORD_LIMIT <= target.y <= COORD_LIMIT,
        spec_coord_ok(target.x as int),
        spec_coord_ok(target.y as int),
    ensures
        r == spec_resolve_collision(*game, target),
        spec_coord_ok(r.x as int),
        spec_coord_ok(r.y as int),
{
    let p = game.player_state;
    let origin = game.tilemap_position;
    let (tx, ty) = tile_index_of(target.x, target.y, origin);
    let mut solid = false;
    if 0 <= tx && tx < TILE_COLS as i64 && 0 <= ty && ty < TILE_ROWS as i64 {
        let id = game.tilemap[(ty as usize) * TILE_COLS + (tx as usize)];
        solid = tile_solid(id);
    }
    if !solid {
        return target;
    }
    let (cx, cy) = tile_index_of(p.x, p.y, origin);
    let wx: i64 = if tx > cx {
        1
    } else if tx < cx {
        -1
    } else {
        0
    };
    let wy: i64 = if ty > cy {
        1
    } else if ty < cy {
        -1
    } else {
        0
    };
    let fx = floor_mod(target.x + PROBE_OFFSET_X_SUB - origin.x, TILE_SUBPIXELS);
    let fy = floor_mod(target.y - origin.y, TILE_SUBPIXELS);
    let off_x: i64 = if wx == 1 {
        fx + WALL_PUSHBACK_SUB
    } else if wx == -1 {
        -(TILE_SUBPIXELS - fx) - WALL_PUSHBACK_SUB
    } else {
        0
    };
    let off_y: i64 = if wy == 1 {
        fy + WALL_PUSHBACK_SUB
    } else if wy == -1 {
        -(TILE_SUBPIXELS - fy) - WALL_PUSHBACK_SUB
    } else {
        0
    };
    assert(target.x == p.x ==> wx == 0);
    assert(target.y == p.y ==> wy == 0);
    SpriteData { x: target.x - off_x, y: target.y - off_y, ..target }
}

/// Walk, then collide: advances the player sprite exactly as
/// `spec_moved_player` describes, leaving the rest of the state alone.
pub fn move_player(game: &mut Game, controls: &Controls, dt_ms: i64)
    requires
        old(game).spec_wf(),
        0 <= dt_ms <= DT_LIMIT_MS,
    ensures
        final(game).player_state == spec_moved_player(*old(game), *controls, dt_ms as int),
        final(game).spec_wf(),
        *final(game) == (Game { player_state: final(game).player_state, ..*old(game) }),
{
    let target = walk_target(game.player_state, controls, dt_ms);
    let resolved = resolve_collision(game, target);
    game.player_state = resolved;
}

/// How far the camera moves in a frame: the remaining gap times the
/// easing rate, scaled by the elapsed milliseconds.
pub open spec fn spec_cam_amount(gap: int, dt: int) -> int {
    gap * CAM_RATE * dt / 1000
}

/// The camera after one frame of easing toward the player.
pub open spec fn spec_camera_after(cam: Vec2, player: SpriteData, dt: int) -> Vec2 {
    Vec2 {
        x: towards_spec(
            cam.x as int,
            player.x as int,
            spec_cam_amount(abs_spec(player.x - cam.x), dt),
        ) as i64,
        y: towards_spec(
            cam.y as int,
            player.y as int,
            spec_cam_amount(abs_spec(player.y - cam.y), dt),
        ) as i64,
    }
}

/// One camera axis step.
fn camera_axis(cam: i64, target: i64, dt_ms: i64) -> (r: i64)
    requires
        spec_coord_ok(cam as int),
        spec_coord_ok(target as int),
        0 <= dt_ms <= DT_LIMIT_MS,
    ensures
        r == towards_spec(cam as int, target as int, spec_cam_amount(abs_spec(target - cam), dt_ms as int)),
        spec_coord_ok(r as int),
{
    let gap = gap_abs(cam, target);
    proof {
        assert((gap as int) * (CAM_RATE as int) <= 42950332960) by (nonlinear_arith)
            requires
                0 <= gap <= 4295033296,
                CAM_RATE == 10,
        {
        }
    }
    let rated = (gap as u64) * (CAM_RATE as u64);
    proof {
        assert(rated as int * (dt_ms as int) <= 42950332960 * 1000000) by (nonlinear_arith)
            requires
                0 <= rated as int <= 42950332960,
                0 <= dt_ms <= 1000000,
        {
        }
    }
    let scaled = rated * (dt_ms as u64);
    proof {
        vstd::arithmetic::div_mod::lemma_div_nonincreasing(scaled as int, 1000);
    }
    let amount = (scaled / 1000) as i64;
    proof {
        lemma_towards_converges(
            cam as int,
            target as int,
            spec_cam_amount(abs_spec(target - cam), dt_ms as int),
        );
    }
    towards(cam, target, amount)
}

/// Ease the camera toward the player on both axes, exactly as
/// `spec_camera_after` describes, leaving the rest of the state alone.
pub fn update_camera(game: &mut Game, dt_ms: i64)
    requires
        old(game).spec_wf(),
        0 <= dt_ms <= DT_LIMIT_MS,
    ensures
        final(game).cam_pos == spec_camera_after(old(game).cam_pos, old(game).player_state, dt_ms as int),
        final(game).spec_wf(),
        *final(game) == (Game { cam_pos: final(game).cam_pos, ..*old(game) }),
{
    let y = camera_axis(game.cam_pos.y, game.player_state.y, dt_ms);
    let x = camera_axis(game.cam_pos.x, game.player_state.x, dt_ms);
    game.cam_pos = Vec2 { x, y };
}

/// A window event, already translated to plain values by the host.
/// Events outside this set never reach the library; `Other` stands for
/// any it should ignore.
#[derive(Clone, Copy, Debug, PartialEq, Eq, Structural)]
pub enum GameEvent {
    Key(Key, KeyAction),
    Resize(i32, i32),
    Other,
}

/// The input tracker after a frame's events, oldest first: key events are
/// routed to their controls, everything else leaves them alone.
pub open spec fn spec_controls_after_events(cs: Controls, evs: Seq<GameEvent>) -> Controls
    decreases evs.len(),
{
    if evs.len() == 0 {
        cs
    } else {
        let cs2 = match evs[0] {
            GameEvent::Key(k, a) => cs.spec_after_key(k, a),
            _ => cs,
        };
        spec_controls_after_events(cs2, evs.drop_first())
    }
}

/// Whether a frame's events ask to close the window: an escape press.
pub open spec fn spec_close_requested(evs: Seq<GameEvent>) -> bool
    decreases evs.len(),
{
    if evs.len() == 0 {
        false
    } else {
        evs[0] == GameEvent::Key(Key::Escape, KeyAction::Press) || spec_close_requested(
            evs.drop_first(),
        )
    }
}

/// The viewport size the frame ends with, if any resize arrived; the
/// last one wins.
pub open spec fn spec_viewport_change(evs: Seq<GameEvent>) -> Option<(i32, i32)>
    decreases evs.len(),
{
    if evs.len() == 0 {
        None
    } else {
        match spec_viewport_change(evs.drop_first()) {
            Some(v) => Some(v),
            None => match evs[0] {
                GameEvent::Resize(w, h) => Some((w, h)),
                _ => None,
            },
        }
    }
}

/// A pending partial update of the tile instance buffer: one record at
/// its byte offset.
#[derive(Clone, Copy, Debug, PartialEq, Eq)]
pub struct TileUpload {
    pub index: usize,
    pub byte_offset: usize,
    pub record: SpriteData,
}

/// The tile the player's probe stands on, as a pending instance-buffer
/// update; nothing when the probe is outside the grid.
pub open spec fn spec_player_tile_upload(g: Game) -> Option<TileUpload> {
    let tx = spec_tile_index(g.player_state.x + PROBE_OFFSET_X_SUB, g.tilemap_position.x as int);
    let ty = spec_tile_index(g.player_state.y as int, g.tilemap_position.y as int);
    if 0 <= tx < TILE_COLS && 0 <= ty < TILE_ROWS {
        Some(
            TileUpload {
                index: (ty * (TILE_COLS as int) + tx) as usize,
                byte_offset: ((ty * (TILE_COLS as int) + tx) * SPRITE_RECORD_BYTES) as usize,
                record: SpriteData {
                    x: (g.tilemap_position.x + tx * TILE_SUBPIXELS) as i64,
                    y: (g.tilemap_position.y + ty * TILE_SUBPIXELS) as i64,
                    frame: 0,
                    flipped: false,
                },
            },
        )
    } else {
        None
    }
}

/// One instanced draw call: which texture to bind, which instance buffer
/// to read, how many instances, and whether the frame atlas is in play
/// (`None` draws the whole texture at its own size).
#[derive(Clone, Copy, Debug, PartialEq, Eq)]
pub struct DrawCmd {
    pub texture: usize,
    pub vbo: u32,
    pub instance_count: usize,
    pub frame_size: Option<(u32, u32)>,
}

/// Everything the host must do after a frame's update, in order: set the
/// viewport if it changed, upload the two changed records, update the
/// camera uniform, issue the draws, and close the window if asked.
#[derive(Debug)]
pub struct FrameOutput {
    pub close_requested: bool,
    pub viewport: Option<(i32, i32)>,
    /// The player's record, for byte offset zero of the player buffer.
    pub player_upload: SpriteData,
    pub tile_upload: Option<TileUpload>,
    /// The tile the player stands on, to log when the debug control's
    /// press edge fires.
    pub debug_tile: Option<(i64, i64)>,
    pub cam_pos: Vec2,
    pub draws: Vec<DrawCmd>,
}

/// One frame of the game: fold the window events into the input tracker,
/// walk and collide the player, ease the camera, and describe the
/// uploads and the fixed draw order (origin marker, tile layer, player)
/// for the host.
pub fn update_and_render(
    game: &mut Game,
    options: &mut Options,
    gl_data: &GlData,
    dt_ms: i64,
    events: &Vec<GameEvent>,
) -> (out: FrameOutput)
    requires
        old(game).spec_wf(),
        0 <= dt_ms <= DT_LIMIT_MS,
    ensures
        final(options).controls == spec_controls_after_events(
            old(options).controls.spec_frame_start(),
            events@,
        ),
        final(game).player_state == spec_moved_player(
            *old(game),
            final(options).controls,
            dt_ms as int,
        ),
        final(game).cam_pos == spec_camera_after(
            old(game).cam_pos,
            final(game).player_state,
            dt_ms as int,
        ),
        *final(game) == (Game {
            player_state: final(game).player_state,
            cam_pos: final(game).cam_pos,
            ..*old(game)
        }),
        final(game).spec_wf(),
        out.close_requested == spec_close_requested(events@),
        out.viewport == spec_viewport_change(events@),
        out.player_upload == final(game).player_state,
        out.tile_upload == spec_player_tile_upload(*final(game)),
        out.debug_tile == (if final(options).controls.debug.spec_just_down() {
            Some(
                (
                    spec_tile_index(
                        final(game).player_state.x + PROBE_OFFSET_X_SUB,
                        final(game).tilemap_position.x as int,
                    ) as i64,
                    spec_tile_index(
                        final(game).player_state.y as int,
                        final(game).tilemap_position.y as int,
                    ) as i64,
                )
            )
        } else {
            None::<(i64, i64)>
        }),
        out.cam_pos == final(game).cam_pos,
        out.draws@.len() == 3,
        out.draws@[0] == (DrawCmd {
            texture: gl_data.zero_zero_tex,
            vbo: gl_data.zero_zero_vbo,
            instance_count: 1,
            frame_size: None,
        }),
        out.draws@[1] == (DrawCmd {
            texture: gl_data.tile_tex,
            vbo: gl_data.tile_vbo,
            instance_count: TILE_COUNT as usize,
            frame_size: Some((32u32, 32u32)),
        }),
        out.draws@[2] == (DrawCmd {
            texture: gl_data.player_tex,
            vbo: gl_data.player_vbo,
            instance_count: 1,
            frame_size: Some((32u32, 32u32)),
        }),
{
    options.controls.begin_frame();
    let ghost cs0 = options.controls;
    let mut close_requested = false;
    let mut viewport: Option<(i32, i32)> = None;
    let n = events.len();
    let mut i: usize = 0;
    proof {
        assert(events@.skip(0) =~= events@);
    }
    while i < n
        invariant
            0 <= i <= n,
            n == events@.len(),
            spec_controls_after_events(cs0, events@) == spec_controls_after_events(
                options.controls,
                events@.skip(i as int),
            ),
            spec_close_requested(events@) == (close_requested || spec_close_requested(
                events@.skip(i as int),
            )),
            spec_viewport_change(events@) == (match spec_viewport_change(events@.skip(i as int)) {
                Some(v) => Some(v),
                None => viewport,
            }),
        decreases n - i,
    {
        proof {
            assert(events@.skip(i as int).drop_first() =~= events@.skip(i as int + 1));
            assert(events@.skip(i as int)[0] == events@[i as int]);
        }
        match *(&events[i]) {
            GameEvent::Key(key, action) => {
                if key == Key::Escape && action == KeyAction::Press {
                    close_requested = true;
                }
                options.controls.process_key(key, action);
            }
            GameEvent::Resize(w, h) => {
                viewport = Some((w, h));
            }
            GameEvent::Other => {}
        }
        i = i + 1;
    }
    proof {
        assert(events@.skip(n as int) =~= Seq::<GameEvent>::empty());
    }

    move_player(game, &options.controls, dt_ms);
    update_camera(game, dt_ms);

    let (tx, ty) = tile_index_of(game.player_state.x, game.player_state.y, game.tilemap_position);
    let tile_upload = if 0 <= tx && tx < TILE_COLS as i64 && 0 <= ty && ty < TILE_ROWS as i64 {
        proof {
            assert(0 <= tx * TILE_SUBPIXELS < 320000 && 0 <= ty * TILE_SUBPIXELS < 320000)
                by (nonlinear_arith)
                requires
                    0 <= tx < 10,
                    0 <= ty < 10,
                    TILE_SUBPIXELS == 32000,
            {
            }
        }
        let index = (ty as usize) * TILE_COLS + (tx as usize);
        Some(
            TileUpload {
                index,
                byte_offset: index * SPRITE_RECORD_BYTES,
                record: SpriteData {
                    x: game.tilemap_position.x + tx * TILE_SUBPIXELS,
                    y: game.tilemap_position.y + ty * TILE_SUBPIXELS,
                    frame: 0,
                    flipped: false,
                },
            },
        )
    } else {
        None
    };
    let debug_tile = if options.controls.debug.just_down() {
        Some((tx, ty))
    } else {
        None
    };

    let mut draws: Vec<DrawCmd> = Vec::new();
    draws.push(
        DrawCmd {
            texture: gl_data.zero_zero_tex,
            vbo: gl_data.zero_zero_vbo,
            instance_count: 1,
            frame_size: None,
        },
    );
    draws.push(
        DrawCmd {
            texture: gl_data.tile_tex,
            vbo: gl_data.tile_vbo,
            instance_count: TILE_COUNT,
            frame_size: Some((32, 32)),
        },
    );
    draws.push(
        DrawCmd {
            texture: gl_data.player_tex,
            vbo: gl_data.player_vbo,
            instance_count: 1,
            frame_size: Some((32, 32)),
        },
    );

    FrameOutput {
        close_requested,
        viewport,
        player_upload: game.player_state,
        tile_upload,
        debug_tile,
        cam_pos: game.cam_pos,
        draws,
    }
}

} // verus!
