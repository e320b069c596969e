//! The grid a tree grows into, the branches that walk it, and their glyphs.
use vstd::prelude::*;

use crate::direction::{Direction, Position};

verus! {

/// The growth mode of a branch.
#[derive(Clone, Copy, Debug, PartialEq, Eq, Structural)]
pub enum BranchType {
    /// The trunk, biased toward straight up.
    GrowingNorth,
    /// A limb biased toward the west.
    GrowingWest,
    /// A limb biased toward the east.
    GrowingEast,
    /// A near-terminal branch that wanders sideways.
    Stem,
    /// Foliage, the most sideways of all.
    Leaf,
}

/// The colour family a cell is shown in; the renderer picks the actual colour.
#[derive(Clone, Copy, Debug, PartialEq, Eq, Structural)]
pub enum Tone {
    /// An empty cell.
    Blank,
    /// The trunk's brown.
    Bark,
    /// The limbs' lighter brown.
    Wood,
    /// The stems' green.
    Green,
    /// The leaves' bright green.
    BrightGreen,
}

/// What one cell of the grid shows: a short glyph and its tone.
#[derive(Clone, Copy, Debug, PartialEq, Eq)]
pub struct TreeCell {
    pub glyph: &'static str,
    pub tone: Tone,
}

/// A walker tracing one branch through the grid during a growth pass.
#[derive(Clone, Copy, Debug, PartialEq, Eq, Structural)]
pub struct Branch {
    pub pos: Position,
    pub direction: Direction,
    pub branch_type: BranchType,
}

/// A fixed-size grid of cells, `height` rows of `width` cells, row 0 being the
/// ground. It also records how many limbs the growth pass that filled it sprouted.
pub struct Tree {
    rows: Vec<Vec<TreeCell>>,
    width: usize,
    height: usize,
    limbs: u8,
}

/// The cell every grid starts with.
pub open spec fn blank_cell() -> TreeCell {
    TreeCell { glyph: " ", tone: Tone::Blank }
}

/// The glyph drawn for a branch of type `t` heading in `d`.
pub open spec fn glyph_of(t: BranchType, d: Direction) -> &'static str {
    match t {
        BranchType::GrowingNorth => match d {
            Direction::North => "/|\\",
            Direction::NorthEast => "|/",
            Direction::East => "/~",
            Direction::SouthEast => "|\\",
            Direction::South => "\\|/",
            Direction::SouthWest => "//|",
            Direction::West => "~/",
            Direction::NorthWest => "\\|",
        },
        BranchType::GrowingWest => match d {
            Direction::North => "/|",
            Direction::NorthEast => "|/",
            Direction::East => "~",
            Direction::SouthEast => "\\\\",
            Direction::South => "|\\",
            Direction::SouthWest => "//",
            Direction::West => "=",
            Direction::NorthWest => "\\\\",
        },
        BranchType::GrowingEast => match d {
            Direction::North => "|\\",
            Direction::NorthEast => "|/",
            Direction::East => "=",
            Direction::SouthEast => "\\\\",
            Direction::South => "|\\",
            Direction::SouthWest => "//",
            Direction::West => "~",
            Direction::NorthWest => "\\\\",
        },
        BranchType::Stem => "&",
        BranchType::Leaf => "*",
    }
}

/// The tone of a branch type.
pub open spec fn tone_of(t: BranchType) -> Tone {
    match t {
        BranchType::GrowingNorth => Tone::Bark,
        BranchType::GrowingWest => Tone::Wood,
        BranchType::GrowingEast => Tone::Wood,
        BranchType::Stem => Tone::Green,
        BranchType::Leaf => Tone::BrightGreen,
    }
}

/// The cell a branch paints where it stands.
pub open spec fn cell_of(b: Branch) -> TreeCell {
    TreeCell { glyph: glyph_of(b.branch_type, b.direction), tone: tone_of(b.branch_type) }
}

/// A grid of `height` rows of `width` blank cells.
pub open spec fn blank_grid(width: nat, height: nat) -> Seq<Seq<TreeCell>> {
    Seq::new(height, |_y: int| Seq::new(width, |_x: int| blank_cell()))
}

/// `g` with the cell at `p` replaced by `c`.
pub open spec fn painted(g: Seq<Seq<TreeCell>>, p: Position, c: TreeCell) -> Seq<Seq<TreeCell>> {
    g.update(p.y as int, g[p.y as int].update(p.x as int, c))
}

/// Whether `(x, y)` lies on a grid of `width` by `height`.
pub open spec fn on_grid(x: int, y: int, width: int, height: int) -> bool {
    0 <= x < width && 0 <= y < height
}

/// How far one step in `d` moves along x (east is positive).
pub open spec fn step_x(d: Direction) -> int {
    match d {
        Direction::NorthEast | Direction::East | Direction::SouthEast => 1,
        Direction::SouthWest | Direction::West | Direction::NorthWest => -1,
        _ => 0,
    }
}

/// How far one step in `d` moves along y (north is positive).
pub open spec fn step_y(d: Direction) -> int {
    match d {
        Direction::NorthWest | Direction::North | Direction::NorthEast => 1,
        Direction::SouthWest | Direction::South | Direction::SouthEast => -1,
        _ => 0,
    }
}

/// Where a branch at `p` heading in `d` stands after its next step: the
/// neighbouring cell if it lies on the grid, else `p` itself.
pub open spec fn next_position(p: Position, d: Direction, width: int, height: int) -> Position {
    let x = p.x + step_x(d);
    let y = p.y + step_y(d);
    if on_grid(x, y, width, height) {
        Position { x: x as usize, y: y as usize }
    } else {
        p
    }
}

/// Where a walker starting at `p` stands after stepping in each of `dirs` in turn.
pub open spec fn walk(p: Position, dirs: Seq<Direction>, width: int, height: int) -> Position
    decreases dirs.len(),
{
    if dirs.len() == 0 {
        p
    } else {
        walk(next_position(p, dirs[0], width, height), dirs.drop_first(), width, height)
    }
}

/// A walker that starts on the grid stays on it, whatever directions it takes.
pub proof fn lemma_walk_stays_on_grid(p: Position, dirs: Seq<Direction>, width: int, height: int)
    requires
        on_grid(p.x as int, p.y as int, width, height),
    ensures
        on_grid(walk(p, dirs, width, height).x as int, walk(p, dirs, width, height).y as int, width, height),
    decreases dirs.len(),
{
    if dirs.len() > 0 {
        lemma_walk_stays_on_grid(next_position(p, dirs[0], width, height), dirs.drop_first(), width, height);
    }
}

impl Tree {
    /// The rows of the grid, ground row first.
    pub closed spec fn grid(&self) -> Seq<Seq<TreeCell>> {
        self.rows@.map_values(|r: Vec<TreeCell>| r@)
    }

    pub closed spec fn spec_width(&self) -> usize {
        self.width
    }

    pub closed spec fn spec_height(&self) -> usize {
        self.height
    }

    pub closed spec fn spec_limbs(&self) -> u8 {
        self.limbs
    }

    /// Every row holds `width` cells and there are `height` rows.
    pub closed spec fn wf(&self) -> bool {
        &&& self.rows@.len() == self.height
        &&& forall|y: int| 0 <= y < self.rows@.len() ==> (#[trigger] self.rows@[y])@.len() == self.width
    }

    /// A blank grid of `height` rows of `width` cells.
    pub fn new(width: usize, height: usize) -> (t: Tree)
        ensures
            t.wf(),
            t.spec_width() == width,
            t.spec_height() == height,
            t.spec_limbs() == 0,
            t.grid() == blank_grid(width as nat, height as nat),
    {
        let mut rows: Vec<Vec<TreeCell>> = Vec::new();
        let mut y: usize = 0;
        while y < height
            invariant
                y <= height,
                rows@.len() == y,
                forall|i: int| 0 <= i < y ==> (#[trigger] rows@[i])@ == Seq::new(width as nat, |_x: int| blank_cell()),
            decreases height - y,
        {
            let mut row: Vec<TreeCell> = Vec::new();
            let mut x: usize = 0;
            while x < width
                invariant
                    x <= width,
                    row@ == Seq::new(x as nat, |_x: int| blank_cell()),
                decreases width - x,
            {
                row.push(TreeCell { glyph: " ", tone: Tone::Blank });
                x = x + 1;
                assert(row@ =~= Seq::new(x as nat, |_x: int| blank_cell()));
            }
            rows.push(row);
            y = y + 1;
        }
        let t = Tree { rows, width, height, limbs: 0 };
        assert(t.grid() =~= blank_grid(width as nat, height as nat));
        t
    }

    pub fn width(&self) -> (r: usize)
        ensures
            r == self.spec_width(),
    {
        self.width
    }

    pub fn height(&self) -> (r: usize)
        ensures
            r == self.spec_height(),
    {
        self.height
    }

    /// How many limbs the growth pass that filled this grid sprouted from the trunk.
    pub fn limbs(&self) -> (r: u8)
        ensures
            r == self.spec_limbs(),
    {
        self.limbs
    }

    /// The cell in column `x` of row `y`.
    pub fn cell(&self, x: usize, y: usize) -> (c: TreeCell)
        requires
            self.wf(),
            x < self.spec_width(),
            y < self.spec_height(),
        ensures
            c == self.grid()[y as int][x as int],
    {
        self.rows[y][x]
    }

    /// Writes `c` into the cell at `p`.
    pub(crate) fn paint(&mut self, p: Position, c: TreeCell)
        requires
            old(self).wf(),
            p.x < old(self).spec_width(),
            p.y < old(self).spec_height(),
        ensures
            final(self).wf(),
            final(self).spec_width() == old(self).spec_width(),
            final(self).spec_height() == old(self).spec_height(),
            final(self).spec_limbs() == old(self).spec_limbs(),
            final(self).grid() == painted(old(self).grid(), p, c),
    {
        self.rows[p.y][p.x] = c;
        assert(self.grid() =~= painted(old(self).grid(), p, c));
    }

    /// Records how many limbs were sprouted.
    pub(crate) fn set_limbs(&mut self, n: u8)
        ensures
            final(self).wf() == old(self).wf(),
            final(self).spec_width() == old(self).spec_width(),
            final(self).spec_height() == old(self).spec_height(),
            final(self).grid() == old(self).grid(),
            final(self).spec_limbs() == n,
    {
        self.limbs = n;
    }
}

impl Branch {
    /// The glyph and tone of this branch, chosen by its type and direction.
    pub fn to_tree_cell(&self) -> (r: TreeCell)
        ensures
            r == cell_of(*self),
    {
        let glyph: &'static str = match self.branch_type {
            BranchType::GrowingNorth => match self.direction {
                Direction::North => "/|\\",
                Direction::NorthEast => "|/",
                Direction::East => "/~",
                Direction::SouthEast => "|\\",
                Direction::South => "\\|/",
                Direction::SouthWest => "//|",
                Direction::West => "~/",
                Direction::NorthWest => "\\|",
            },
            BranchType::GrowingWest => match self.direction {
                Direction::North => "/|",
                Direction::NorthEast => "|/",
                Direction::East => "~",
                Direction::SouthEast => "\\\\",
                Direction::South => "|\\",
                Direction::SouthWest => "//",
                Direction::West => "=",
                Direction::NorthWest => "\\\\",
            },
            BranchType::GrowingEast => match self.direction {
                Direction::North => "|\\",
                Direction::NorthEast => "|/",
                Direction::East => "=",
                Direction::SouthEast => "\\\\",
                Direction::South => "|\\",
                Direction::SouthWest => "//",
                Direction::West => "~",
                Direction::NorthWest => "\\\\",
            },
            BranchType::Stem => "&",
            BranchType::Leaf => "*",
        };
        let tone = match self.branch_type {
            BranchType::GrowingNorth => Tone::Bark,
            BranchType::GrowingWest => Tone::Wood,
            BranchType::GrowingEast => Tone::Wood,
            BranchType::Stem => Tone::Green,
            BranchType::Leaf => Tone::BrightGreen,
        };
        TreeCell { glyph, tone }
    }
}

/// The cell a branch at `p` heading in `d` moves into next, or `None` when that
/// cell would lie off a grid of `width` by `height`.
pub fn calc_position(p: Position, d: Direction, width: usize, height: usize) -> (r: Option<Position>)
    requires
        p.x < width,
        p.y < height,
    ensures
        on_grid(p.x + step_x(d), p.y + step_y(d), width as int, height as int) ==> r == Some(
            next_position(p, d, width as int, height as int),
        ),
        !on_grid(p.x + step_x(d), p.y + step_y(d), width as int, height as int) ==> r.is_none(),
{
    let top = p.y + 1 == height;
    let right = p.x + 1 == width;
    match d {
        Direction::North => if top { None } else { Some(Position { x: p.x, y: p.y + 1 }) },
        Direction::NorthEast => if top || right {
            None
        } else {
            Some(Position { x: p.x + 1, y: p.y + 1 })
        },
        Direction::East => if right { None } else { Some(Position { x: p.x + 1, y: p.y }) },
        Direction::SouthEast => if right || p.y == 0 {
            None
        } else {
            Some(Position { x: p.x + 1, y: p.y - 1 })
        },
        Direction::South => if p.y == 0 { None } else { Some(Position { x: p.x, y: p.y - 1 }) },
        Direction::SouthWest => if p.x == 0 || p.y == 0 {
            None
        } else {
            Some(Position { x: p.x - 1, y: p.y - 1 })
        },
        Direction::West => if p.x == 0 { None } else { Some(Position { x: p.x - 1, y: p.y }) },
        Direction::NorthWest => if p.x == 0 || top {
            None
        } else {
            Some(Position { x: p.x - 1, y: p.y + 1 })
        },
    }
}

} // verus!
