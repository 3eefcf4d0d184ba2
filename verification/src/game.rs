//! The game state and the two operations on it: the pointer tracker's
//! update and the render pass.

use vstd::prelude::*;

use crate::tile::{default_domino, Domino, DominoValue};

verus! {

/// How many tiles a new game holds.
pub const TILE_COUNT: usize = 10;

/// Side length, in surface units, of the square drawn for each tile.
pub const TILE_SIDE: i32 = 10;

/// One drawing instruction for the surface: an outline rectangle, or the
/// submission of the outline drawn so far.
#[derive(Clone, Copy, Debug, PartialEq, Eq, Structural)]
pub enum DrawCmd {
    RectOutline { x: i32, y: i32, width: i32, height: i32 },
    Stroke,
}

/// The commands one tile contributes to a pass anchored at `(x, y)`:
/// its outline, then its own stroke submit.
pub open spec fn tile_cmds(x: i32, y: i32) -> Seq<DrawCmd> {
    seq![
        DrawCmd::RectOutline { x: x, y: y, width: TILE_SIDE, height: TILE_SIDE },
        DrawCmd::Stroke,
    ]
}

/// A whole render pass over `n` tiles anchored at `(x, y)`: every tile draws
/// at the same anchor, in tile order.
pub open spec fn render_cmds(n: nat, x: i32, y: i32) -> Seq<DrawCmd>
    decreases n,
{
    if n == 0 {
        Seq::empty()
    } else {
        render_cmds((n - 1) as nat, x, y) + tile_cmds(x, y)
    }
}

/// The position reached after a run of movement events, starting from `p`:
/// each event overwrites the position with its own offsets.
pub open spec fn pos_after_events(p: (i32, i32), events: Seq<(i32, i32)>) -> (i32, i32)
    decreases events.len(),
{
    if events.len() == 0 {
        p
    } else {
        pos_after_events(events[0], events.drop_first())
    }
}

/// The game state: the tiles in draw order and the last pointer position.
///
/// The tile collection is populated once at construction and never resized;
/// the position is written only by `on_pointer_move` and read by `render`.
pub struct Game {
    dominoes: Vec<Domino>,
    mouse_x: i32,
    mouse_y: i32,
}

impl Game {
    /// The tiles, in insertion (= draw) order.
    pub closed spec fn tiles(self) -> Seq<Domino> {
        self.dominoes@
    }

    /// The last pointer position observed; `(0, 0)` before any event.
    pub closed spec fn pos(self) -> (i32, i32) {
        (self.mouse_x, self.mouse_y)
    }

    /// Construct the default state: `TILE_COUNT` placeholder tiles and the
    /// pointer at the origin. Resolving a drawing surface and registering
    /// the movement handler are the caller's concern, not this state's.
    pub fn new() -> (g: Game)
        ensures
            g.tiles().len() == TILE_COUNT,
            forall|i: int| 0 <= i < g.tiles().len() ==> g.tiles()[i] == default_domino(),
            g.pos() == (0i32, 0i32),
    {
        let mut dominoes: Vec<Domino> = Vec::new();
        let mut i: usize = 0;
        while i < TILE_COUNT
            invariant
                i <= TILE_COUNT,
                dominoes@.len() == i,
                forall|j: int| 0 <= j < i ==> dominoes@[j] == default_domino(),
            decreases TILE_COUNT - i,
        {
            dominoes.push(Domino { top: DominoValue::One, bottom: DominoValue::Five });
            i = i + 1;
        }
        Game { dominoes, mouse_x: 0, mouse_y: 0 }
    }

    /// The pointer tracker's update: record a movement event's offsets
    /// verbatim — negative or out-of-surface offsets included, no clamping —
    /// and touch nothing else.
    pub fn on_pointer_move(&mut self, offset_x: i32, offset_y: i32)
        ensures
            final(self).pos() == (offset_x, offset_y),
            final(self).tiles() == old(self).tiles(),
    {
        self.mouse_x = offset_x;
        self.mouse_y = offset_y;
    }

    /// The render pass: one outline rectangle per tile, each at the current
    /// pointer position with side `TILE_SIDE`, each followed by its own
    /// stroke submit, in tile order. Pure read: the state is untouched, and
    /// the commands are a function of the tile count and position alone.
    pub fn render(&self) -> (cmds: Vec<DrawCmd>)
        ensures
            cmds@ == render_cmds(self.tiles().len(), self.pos().0, self.pos().1),
            cmds@.len() == 2 * self.tiles().len(),
            forall|i: int| 0 <= i < cmds@.len() && i % 2 == 0 ==> cmds@[i]
                == (DrawCmd::RectOutline {
                    x: self.pos().0,
                    y: self.pos().1,
                    width: TILE_SIDE,
                    height: TILE_SIDE,
                }),
            forall|i: int| 0 <= i < cmds@.len() && i % 2 == 1 ==> cmds@[i] == DrawCmd::Stroke,
    {
        let n = self.dominoes.len();
        let mut cmds: Vec<DrawCmd> = Vec::new();
        let mut i: usize = 0;
        while i < n
            invariant
                i <= n,
                n == self.tiles().len(),
                cmds@ == render_cmds(i as nat, self.pos().0, self.pos().1),
            decreases n - i,
        {
            cmds.push(DrawCmd::RectOutline {
                x: self.mouse_x,
                y: self.mouse_y,
                width: TILE_SIDE,
                height: TILE_SIDE,
            });
            cmds.push(DrawCmd::Stroke);
            proof {
                assert(cmds@ =~= render_cmds((i + 1) as nat, self.pos().0, self.pos().1));
            }
            i = i + 1;
        }
        proof {
            lemma_render_cmds_shape(self.tiles().len(), self.pos().0, self.pos().1);
        }
        cmds
    }

    /// How many tiles the game holds.
    pub fn tile_count(&self) -> (n: usize)
        ensures
            n == self.tiles().len(),
    {
        self.dominoes.len()
    }

    /// The tile at position `i` in draw order.
    pub fn tile_at(&self, i: usize) -> (d: Domino)
        requires
            i < self.tiles().len(),
        ensures
            d == self.tiles()[i as int],
    {
        self.dominoes[i]
    }

    /// The current pointer position.
    pub fn position(&self) -> (p: (i32, i32))
        ensures
            p == self.pos(),
    {
        (self.mouse_x, self.mouse_y)
    }
}

/// Render determinism: a pass over `n` tiles anchored at `(x, y)` is exactly
/// `n` outline rectangles, every one with the same parameters
/// `(x, y, TILE_SIDE, TILE_SIDE)`, each followed by its stroke submit, in
/// tile order — `2 * n` commands, rectangles at even positions, strokes at
/// odd ones.
pub proof fn lemma_render_cmds_shape(n: nat, x: i32, y: i32)
    ensures
        render_cmds(n, x, y).len() == 2 * n,
        forall|i: int| 0 <= i < render_cmds(n, x, y).len() && i % 2 == 0 ==> render_cmds(n, x, y)[i]
            == (DrawCmd::RectOutline { x: x, y: y, width: TILE_SIDE, height: TILE_SIDE }),
        forall|i: int| 0 <= i < render_cmds(n, x, y).len() && i % 2 == 1 ==> render_cmds(n, x, y)[i]
            == DrawCmd::Stroke,
    decreases n,
{
    if n > 0 {
        lemma_render_cmds_shape((n - 1) as nat, x, y);
    }
}

/// Idempotence: two render passes over one state, with no pointer event in
/// between, produce identical command sequences.
pub proof fn lemma_render_idempotent(g: Game, first: Seq<DrawCmd>, second: Seq<DrawCmd>)
    requires
        first == render_cmds(g.tiles().len(), g.pos().0, g.pos().1),
        second == render_cmds(g.tiles().len(), g.pos().0, g.pos().1),
    ensures
        first == second,
{
}

/// Pointer-update law: after a run of movement events is processed, the
/// position equals the last event's offsets exactly — never a mix of an
/// earlier event's coordinate with a later one's.
pub proof fn lemma_last_event_wins(p: (i32, i32), events: Seq<(i32, i32)>)
    requires
        events.len() > 0,
    ensures
        pos_after_events(p, events) == events.last(),
    decreases events.len(),
{
    if events.len() == 1 {
        assert(events.drop_first().len() == 0);
        assert(pos_after_events(events[0], events.drop_first()) == events[0]);
    } else {
        lemma_last_event_wins(events[0], events.drop_first());
        assert(events.drop_first().last() == events.last());
    }
}

} // verus!
