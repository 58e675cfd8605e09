use vstd::prelude::*;
use vstd::arithmetic::div_mod::lemma_mod_self_0;
use vstd::arithmetic::div_mod::lemma_small_mod;
use crate::geom::Vec2i;
use crate::geom::Vec3i;
use crate::window::WindowPos;
use crate::window::WindowSize;

verus! {

/// A sprite sheet cut into a uniform grid of cells, each addressed by a
/// frame index.
#[derive(Clone, Copy, PartialEq, Eq, Structural, Debug)]
pub struct AtlasGrid {
    pub cell_width: u32,
    pub cell_height: u32,
    pub columns: u32,
    pub rows: u32,
}

impl AtlasGrid {
    /// The number of frames the grid holds.
    pub open spec fn spec_frame_count(self) -> int {
        self.columns * self.rows
    }

    /// At least one frame, and a count a frame index can hold.
    pub open spec fn wf(self) -> bool {
        1 <= self.columns && 1 <= self.rows && self.columns * self.rows <= usize::MAX
    }

    pub fn frame_count(&self) -> (n: usize)
        requires
            self.wf(),
        ensures
            n == self.spec_frame_count(),
            n >= 1,
    {
        proof {
            assert(self.columns * self.rows >= 1) by (nonlinear_arith)
                requires
                    1 <= self.columns && 1 <= self.rows,
            ;
        }
        (self.columns as usize) * (self.rows as usize)
    }
}

/// The materials sprite sheet: a 10-column by 25-row grid of 16 x 16 cells,
/// 250 frames in all.
pub open spec fn spec_materials_grid() -> AtlasGrid {
    AtlasGrid { cell_width: 16, cell_height: 16, columns: 10, rows: 25 }
}

/// The one player entity: its current animation frame and its transform.
/// The uniform scale is in thousandths: 4000 stands for the renderer's 4.0.
#[derive(Clone, Copy, PartialEq, Eq, Structural, Debug)]
pub struct Player {
    pub frame_index: usize,
    pub translation: Vec3i,
    pub scale_milli: u32,
}

/// Frame-index validity: the player's frame always addresses a cell of its
/// atlas.
pub open spec fn player_wf(p: Player, grid: AtlasGrid) -> bool {
    p.frame_index < grid.spec_frame_count()
}

/// The playing scene: the registered atlas and the one player drawn from it.
#[derive(Clone, Copy, PartialEq, Eq, Structural, Debug)]
pub struct PlayerScene {
    pub grid: AtlasGrid,
    pub player: Player,
}

/// Entering `Playing`: the materials sheet sliced into its atlas and the
/// player spawned at the world origin on depth layer 1, scaled 4x, showing
/// frame 0.
pub fn spawn_player() -> (r: PlayerScene)
    ensures
        r.grid == spec_materials_grid(),
        r.grid.wf(),
        r.player == (Player {
            frame_index: 0,
            translation: Vec3i { x: 0, y: 0, z: 1 },
            scale_milli: 4000,
        }),
        player_wf(r.player, r.grid),
{
    PlayerScene {
        grid: AtlasGrid { cell_width: 16, cell_height: 16, columns: 10, rows: 25 },
        player: Player {
            frame_index: 0,
            translation: Vec3i { x: 0, y: 0, z: 1 },
            scale_milli: 4000,
        },
    }
}

/// Each `Playing` tick the player follows the cursor: its translation
/// becomes the cursor position at depth 0 (the spawn depth of 1 is
/// overridden from the first tick on).
pub fn move_player(player: &mut Player, cursor: Vec2i)
    ensures
        final(player).translation == (Vec3i { x: cursor.x, y: cursor.y, z: 0 }),
        final(player).frame_index == old(player).frame_index,
        final(player).scale_milli == old(player).scale_milli,
{
    player.translation = Vec3i { x: cursor.x, y: cursor.y, z: 0 };
}

/// One step down with wrap-around: frame 0 steps to the last frame.
pub open spec fn spec_dec_wrap(i: int, n: int) -> int {
    if i > 0 {
        i - 1
    } else {
        n - 1
    }
}

/// One step up with wrap-around, by modulo.
pub open spec fn spec_inc_wrap(i: int, n: int) -> int {
    (i + 1) % n
}

/// What one tick of key edges does to a frame index out of `n`: a `Left`
/// edge steps down first, then a `Right` edge steps up.
pub open spec fn spec_cycled_frame(i: int, n: int, left: bool, right: bool) -> int {
    let j = if left {
        spec_dec_wrap(i, n)
    } else {
        i
    };
    if right {
        spec_inc_wrap(j, n)
    } else {
        j
    }
}

/// Advance the player's frame on key-press edges: `Left` wraps 0 down to the
/// last frame, `Right` wraps the last frame up to 0. Held keys deliver no
/// edge, so they pass `false` here and leave the frame alone.
pub fn change_sprite(player: &mut Player, grid: &AtlasGrid, left_edge: bool, right_edge: bool)
    requires
        grid.wf(),
        player_wf(*old(player), *grid),
    ensures
        player_wf(*final(player), *grid),
        final(player).frame_index == spec_cycled_frame(
            old(player).frame_index as int,
            grid.spec_frame_count(),
            left_edge,
            right_edge,
        ),
        final(player).translation == old(player).translation,
        final(player).scale_milli == old(player).scale_milli,
{
    let n: usize = grid.frame_count();
    if left_edge {
        player.frame_index = if player.frame_index > 0 {
            player.frame_index - 1
        } else {
            n - 1
        };
    }
    if right_edge {
        player.frame_index = (player.frame_index + 1) % n;
    }
}

/// Frame-cycle law: a `Right` edge on one tick followed by a `Left` edge on
/// the next — or `Left` then `Right` — returns the frame index to where it
/// began, for any atlas with at least one frame.
pub proof fn lemma_frame_cycle_round_trip(i: int, n: int)
    requires
        0 <= i < n,
    ensures
        spec_cycled_frame(spec_cycled_frame(i, n, false, true), n, true, false) == i,
        spec_cycled_frame(spec_cycled_frame(i, n, true, false), n, false, true) == i,
{
    if i + 1 < n {
        lemma_small_mod((i + 1) as nat, n as nat);
    } else {
        lemma_mod_self_0(n);
    }
    if i > 0 {
        lemma_small_mod(i as nat, n as nat);
    } else {
        lemma_mod_self_0(n);
    }
}

/// Where a cursor event at window position `p` lands in world coordinates:
/// the origin moves to the window's center, halves rounding down.
pub open spec fn spec_is_centered(r: Vec2i, p: WindowPos, w: WindowSize) -> bool {
    r.x == p.x as int - w.width as int / 2 && r.y == p.y as int - w.height as int / 2
}

/// The cursor tracker, run every tick whatever the phase. With no primary
/// window yet (the first frame or two) it leaves the position alone; so too
/// with no cursor event this tick. Otherwise only the last event of the tick
/// counts, re-expressed in the centered world frame.
pub fn update_mouse_location(current: Vec2i, win: Option<WindowSize>, events: &Vec<WindowPos>) -> (r:
    Vec2i)
    ensures
        win is None ==> r == current,
        events@.len() == 0 ==> r == current,
        win matches Some(w) ==> (events@.len() > 0 ==> spec_is_centered(r, events@.last(), w)),
{
    let w = match win {
        Some(w) => w,
        None => {
            return current;
        },
    };
    if events.len() == 0 {
        return current;
    }
    let p = events[events.len() - 1];
    Vec2i { x: p.x as i64 - (w.width / 2) as i64, y: p.y as i64 - (w.height / 2) as i64 }
}

} // verus!
