//! The simulated world: the arena, the fighters, and the context that holds
//! them together with the frame counter.
//!
//! Lengths are whole numbers of world units. A coordinate that the physics
//! step produces is kept as the 32 bits of its single-precision value, so that
//! equal positions compare and hash equal bit for bit.

use crate::frame::FrameCount;
use vstd::prelude::*;

verus! {

/// A participant, identified by a small handle.
#[derive(Clone, Copy, Debug, PartialEq, Eq, Structural)]
pub struct Player {
    pub handle: usize,
}

impl Default for Player {
    fn default() -> (player: Self)
        ensures
            player.handle == 0,
    {
        Player { handle: 0 }
    }
}

/// A point of the plane; `x` and `y` are the bits of its two single-precision
/// coordinates.
#[derive(Clone, Copy, Debug, PartialEq, Eq, Hash, Structural)]
pub struct Coordinates {
    pub x: u32,
    pub y: u32,
}

/// The position a fighter had at the end of the last step. It takes no part
/// in the game itself: it is what the per-frame checksum is made of, `x`
/// first, then `y`.
#[derive(Clone, Copy, Debug, PartialEq, Eq, Hash, Structural)]
pub struct PrevPos(pub Coordinates);

impl PrevPos {
    /// The words that stand for this value in a checksum, in the order in
    /// which they are fed to the hasher: the bits of `x`, then those of `y`.
    pub fn hashed_words(&self) -> (words: [u32; 2])
        ensures
            words[0] == self.0.x,
            words[1] == self.0.y,
    {
        [self.0.x, self.0.y]
    }
}

impl Default for PrevPos {
    fn default() -> (shadow: Self)
        ensures
            shadow == PrevPos(Coordinates { x: 0, y: 0 }),
    {
        PrevPos(Coordinates { x: 0, y: 0 })
    }
}

/// The range of sprite-sheet cells that a fighter's animation runs through.
#[derive(Clone, Copy, Debug, PartialEq, Eq, Structural)]
pub struct AnimationIndices {
    pub first: usize,
    pub last: usize,
}

/// First and last cell of the punch animation.
pub const PUNCH_FIRST: usize = 1;

pub const PUNCH_LAST: usize = 4;

/// Side of the square tile that walls are scaled from.
pub const TILE: i32 = 50;

/// Heights of the centres of ceiling and floor: six tiles above and below
/// the origin.
pub const CEILING_Y: i32 = 300;

pub const FLOOR_Y: i32 = -300;

/// The centres of the side walls: nine and a half tiles left and right of
/// the origin.
pub const LEFT_WALL_X: i32 = -475;

pub const RIGHT_WALL_X: i32 = 475;

/// A static box of the arena: its centre, the factors by which the tile is
/// stretched, and the extents of its collider.
#[derive(Clone, Copy, Debug, PartialEq, Eq, Structural)]
pub struct Wall {
    pub x: i32,
    pub y: i32,
    pub scale_x: i32,
    pub scale_y: i32,
    pub width: i32,
    pub height: i32,
}

impl Wall {
    /// The collider covers exactly the stretched tile.
    pub open spec fn fits_tile(self) -> bool {
        self.width == TILE * self.scale_x && self.height == TILE * self.scale_y
    }
}

pub open spec fn ceiling() -> Wall {
    Wall { x: 0, y: CEILING_Y, scale_x: 20, scale_y: 1, width: 1000, height: 50 }
}

pub open spec fn floor() -> Wall {
    Wall { x: 0, y: FLOOR_Y, scale_x: 20, scale_y: 1, width: 1000, height: 50 }
}

pub open spec fn left_wall() -> Wall {
    Wall { x: LEFT_WALL_X, y: 0, scale_x: 1, scale_y: 11, width: 50, height: 550 }
}

pub open spec fn right_wall() -> Wall {
    Wall { x: RIGHT_WALL_X, y: 0, scale_x: 1, scale_y: 11, width: 50, height: 550 }
}

/// The box around the fighters: ceiling, floor, left wall, right wall.
pub open spec fn arena() -> Seq<Wall> {
    seq![ceiling(), floor(), left_wall(), right_wall()]
}

/// Where both fighters start: 150 units left of the centre, at mid height.
/// The constants are the bits of -150.0 and of 0.0.
pub const SPAWN_X: u32 = 0xC316_0000;

pub const SPAWN_Y: u32 = 0;

/// Extents of a fighter's collider.
pub const FIGHTER_WIDTH: i32 = 30;

pub const FIGHTER_HEIGHT: i32 = 50;

/// A fighter: who controls it, where it is, and what its sprite shows.
#[derive(Clone, Copy, Debug, PartialEq, Eq, Structural)]
pub struct Fighter {
    pub player: Player,
    pub position: Coordinates,
    pub previous_position: PrevPos,
    pub flip_x: bool,
    pub indices: AnimationIndices,
    pub sprite_index: usize,
}

impl Fighter {
    /// The sprite either rests on cell 0 or is somewhere in the punch
    /// animation.
    pub open spec fn animation_wf(self) -> bool {
        ||| self.indices.first == 0 && self.indices.last == 0 && self.sprite_index == 0
        ||| self.indices.first == PUNCH_FIRST && self.indices.last == PUNCH_LAST
            && self.sprite_index <= PUNCH_LAST
    }
}

impl Fighter {
    /// Whether the sprite is in a state that the animation can reach.
    pub fn animation_ok(&self) -> (ok: bool)
        ensures
            ok == self.animation_wf(),
    {
        (self.indices.first == 0 && self.indices.last == 0 && self.sprite_index == 0) || (
        self.indices.first == PUNCH_FIRST && self.indices.last == PUNCH_LAST && self.sprite_index
            <= PUNCH_LAST)
    }
}

/// The fighter of `handle` as it is spawned: at the spawn point, shadow
/// position equal to the position, facing right, sprite at rest.
pub open spec fn fresh_fighter(handle: usize) -> Fighter {
    Fighter {
        player: Player { handle },
        position: Coordinates { x: SPAWN_X, y: SPAWN_Y },
        previous_position: PrevPos(Coordinates { x: SPAWN_X, y: SPAWN_Y }),
        flip_x: false,
        indices: AnimationIndices { first: 0, last: 0 },
        sprite_index: 0,
    }
}

/// The two fighters of a match, by ascending handle.
pub open spec fn roster() -> Seq<Fighter> {
    seq![fresh_fighter(0), fresh_fighter(1)]
}

/// The state that decides all future frames, as a mathematical value.
pub struct Snapshot {
    pub frame: nat,
    pub walls: Seq<Wall>,
    pub fighters: Seq<Fighter>,
}

impl Snapshot {
    /// Frame 0 of an empty world.
    pub open spec fn initial() -> Snapshot {
        Snapshot { frame: 0, walls: Seq::empty(), fighters: Seq::empty() }
    }

    /// Fighters stand in ascending order of their handles, which fixes the
    /// order in which a step visits them, and every sprite is in a state that
    /// the animation can reach.
    pub open spec fn wf(self) -> bool {
        &&& forall|i: int, j: int|
            0 <= i < j < self.fighters.len() ==> self.fighters[i].player.handle
                < self.fighters[j].player.handle
        &&& forall|i: int| 0 <= i < self.fighters.len() ==> #[trigger] self.fighters[i].animation_wf()
    }

    /// The arena is built on frame 0, and only if it does not stand yet.
    pub open spec fn scene_due(self) -> bool {
        self.frame == 0 && self.walls.len() == 0
    }

    /// The fighters are spawned on frame 0, and only if none exists yet.
    pub open spec fn characters_due(self) -> bool {
        self.frame == 0 && self.fighters.len() == 0
    }

    /// The snapshot after the arena was asked for.
    pub open spec fn with_scene(self) -> Snapshot {
        if self.scene_due() {
            Snapshot { walls: arena(), ..self }
        } else {
            self
        }
    }

    /// The snapshot after the fighters were asked for.
    pub open spec fn with_characters(self) -> Snapshot {
        if self.characters_due() {
            Snapshot { fighters: roster(), ..self }
        } else {
            self
        }
    }

    /// What the per-frame checksum is computed from: the shadow position of
    /// each fighter, by ascending handle.
    pub open spec fn checksum_input(self) -> Seq<PrevPos> {
        Seq::new(self.fighters.len(), |i: int| self.fighters[i].previous_position)
    }
}

/// The simulation context: everything a step reads and writes, owned in one
/// place and handed to the step by reference. A clone of it is a saved
/// state: putting the clone back restores the frame it was taken on.
#[derive(Debug)]
pub struct SimulationContext {
    pub frame_count: FrameCount,
    pub walls: Vec<Wall>,
    pub fighters: Vec<Fighter>,
}

impl View for SimulationContext {
    type V = Snapshot;

    open spec fn view(&self) -> Snapshot {
        Snapshot {
            frame: self.frame_count.frame as nat,
            walls: self.walls@,
            fighters: self.fighters@,
        }
    }
}

impl Clone for SimulationContext {
    fn clone(&self) -> (copy: Self)
        ensures
            copy@ == self@,
    {
        let walls = self.walls.clone();
        let fighters = self.fighters.clone();
        assert(walls@ =~= self.walls@);
        assert(fighters@ =~= self.fighters@);
        SimulationContext { frame_count: self.frame_count, walls, fighters }
    }
}

impl SimulationContext {
    /// Whether the context is well formed. The functions of this crate keep
    /// it so; a context whose fields were written from outside can be
    /// checked here before it is stepped.
    pub fn well_formed(&self) -> (ok: bool)
        ensures
            ok == self@.wf(),
    {
        let mut i: usize = 0;
        while i < self.fighters.len()
            invariant
                i <= self.fighters.len(),
                forall|k: int| 0 <= k < i ==> (#[trigger] self.fighters@[k]).animation_wf(),
                forall|a: int, b: int|
                    0 <= a < b < i ==> self.fighters@[a].player.handle
                        < self.fighters@[b].player.handle,
            decreases self.fighters.len() - i,
        {
            if !self.fighters[i].animation_ok() {
                assert(!self@.fighters[i as int].animation_wf());
                return false;
            }
            if i > 0 && self.fighters[i - 1].player.handle >= self.fighters[i].player.handle {
                assert(self@.fighters[i - 1].player.handle >= self@.fighters[i as int].player.handle);
                return false;
            }
            i += 1;
        }
        true
    }

    /// An empty world at frame 0.
    pub fn new() -> (ctx: Self)
        ensures
            ctx@ == Snapshot::initial(),
            ctx@.wf(),
    {
        SimulationContext {
            frame_count: FrameCount { frame: 0 },
            walls: Vec::new(),
            fighters: Vec::new(),
        }
    }
}

/// The four walls of the arena, in the order of `arena`.
pub fn arena_walls() -> (walls: Vec<Wall>)
    ensures
        walls@ == arena(),
        forall|i: int| 0 <= i < walls@.len() ==> #[trigger] walls@[i].fits_tile(),
{
    let mut walls: Vec<Wall> = Vec::new();
    // Ceiling
    walls.push(Wall { x: 0, y: CEILING_Y, scale_x: 20, scale_y: 1, width: 1000, height: 50 });
    // Floor
    walls.push(Wall { x: 0, y: FLOOR_Y, scale_x: 20, scale_y: 1, width: 1000, height: 50 });
    // Left wall
    walls.push(Wall { x: LEFT_WALL_X, y: 0, scale_x: 1, scale_y: 11, width: 50, height: 550 });
    // Right wall
    walls.push(Wall { x: RIGHT_WALL_X, y: 0, scale_x: 1, scale_y: 11, width: 50, height: 550 });
    assert(walls@ =~= arena());
    walls
}

/// Builds the arena. It does so on frame 0 only, and only once: a second call
/// on frame 0, or any call on a later frame, changes nothing. Returns whether
/// this call built it.
pub fn setup_scene(ctx: &mut SimulationContext) -> (built: bool)
    ensures
        final(ctx)@ == old(ctx)@.with_scene(),
        built == old(ctx)@.scene_due(),
        old(ctx)@.wf() ==> final(ctx)@.wf(),
{
    if ctx.frame_count.frame != 0 {
        return false;
    }
    if ctx.walls.len() != 0 {
        return false;
    }
    ctx.walls = arena_walls();
    true
}

/// The fighter of `handle` as `fresh_fighter` describes it.
pub fn spawn_fighter(handle: usize) -> (fighter: Fighter)
    ensures
        fighter == fresh_fighter(handle),
        fighter.animation_wf(),
{
    let start = Coordinates { x: SPAWN_X, y: SPAWN_Y };
    Fighter {
        player: Player { handle },
        position: start,
        previous_position: PrevPos(start),
        flip_x: false,
        indices: AnimationIndices { first: 0, last: 0 },
        sprite_index: 0,
    }
}

/// Spawns the two fighters, handles 0 and 1. It does so on frame 0 only, and
/// only once: a second call on frame 0, or any call on a later frame, changes
/// nothing. Returns whether this call spawned them.
pub fn spawn_characters(ctx: &mut SimulationContext) -> (spawned: bool)
    ensures
        final(ctx)@ == old(ctx)@.with_characters(),
        spawned == old(ctx)@.characters_due(),
        old(ctx)@.wf() ==> final(ctx)@.wf(),
{
    if ctx.frame_count.frame != 0 {
        return false;
    }
    if ctx.fighters.len() != 0 {
        return false;
    }
    let mut fighters: Vec<Fighter> = Vec::new();
    // Spawn Player 1
    fighters.push(spawn_fighter(0));
    // Spawn player 2
    fighters.push(spawn_fighter(1));
    assert(fighters@ =~= roster());
    ctx.fighters = fighters;
    true
}

} // verus!
