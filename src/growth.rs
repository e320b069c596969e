//! The growth engine: branches walk the grid, painting cells and sprouting
//! children, every choice drawn from one seeded generator.
use vstd::prelude::*;

use rand::rngs::StdRng;
use rand::{Rng, SeedableRng};

use crate::direction::{
    heads_east, heads_horizontally, heads_north, heads_west, rotated, Direction, Position,
    TurnDirection,
};
use crate::tree::{
    blank_cell, blank_grid, calc_position, cell_of, next_position, painted, Branch, BranchType,
    Tree, TreeCell,
};

verus! {

/// The most steps a growth pass simulates, whatever the elapsed time asks for.
pub const MAX_STEPS: u64 = 60;

/// The most limbs a growth pass sprouts from the trunk.
pub const MAX_BRANCHES: u8 = 100;

/// Below this row a branch's leaf count is drawn from a small fixed range.
pub const GROUND_ROWS: usize = 10;

/// A trunk that climbs into the top rows turns into a stem.
pub const CROWN_ROWS: usize = 5;

/// rand's `StdRng`, opaque here: its state is known only through the names below.
#[verifier::external_type_specification]
#[verifier::external_body]
pub struct ExStdRng(StdRng);

/// The state of a generator made by `StdRng::seed_from_u64(seed)`.
pub uninterp spec fn seeded_state(seed: u64) -> StdRng;

/// What `gen_range(lo..=hi)` returns on a generator in state `g`, and the state
/// it leaves the generator in.
pub uninterp spec fn range_draw(g: StdRng, lo: u64, hi: u64) -> (u64, StdRng);

/// Relies on rand's `SeedableRng::seed_from_u64` for `StdRng`: the generator it
/// makes depends on the seed alone.
#[verifier::external_body]
fn seeded(seed: u64) -> (g: StdRng)
    ensures
        g == seeded_state(seed),
{
    StdRng::seed_from_u64(seed)
}

/// Relies on rand's `Rng::gen_range` with an inclusive range of `u64`: the value
/// lies in the range, and the value and the next state depend on the
/// generator's state and the bounds alone.
#[verifier::external_body]
fn draw(g: &mut StdRng, lo: u64, hi: u64) -> (r: u64)
    requires
        lo <= hi,
    ensures
        lo <= r <= hi,
        (r, *final(g)) == range_draw(*old(g), lo, hi),
{
    g.gen_range(lo..=hi)
}

/// The state of a growth pass: the grid, the generator, and how many limbs the
/// trunk has sprouted so far.
pub struct Pass {
    pub grid: Seq<Seq<TreeCell>>,
    pub rng: StdRng,
    pub limbs: nat,
}

/// Orders branch types by what they may sprout: the trunk sprouts limbs, stems
/// and leaves; a limb sprouts stems and leaves; stems and leaves sprout nothing.
pub open spec fn rank(t: BranchType) -> int {
    match t {
        BranchType::GrowingNorth => 2,
        BranchType::GrowingWest | BranchType::GrowingEast => 1,
        BranchType::Stem | BranchType::Leaf => 0,
    }
}

/// The trunk and the limbs.
pub open spec fn is_growing(t: BranchType) -> bool {
    rank(t) > 0
}

/// The inclusive range a branch's leaf count is drawn from on row `y`.
pub open spec fn leaf_bounds(y: usize) -> (u64, u64) {
    if y < GROUND_ROWS {
        (1, 2)
    } else {
        ((y / 2) as u64, (5 * y) as u64)
    }
}

/// The inclusive range a limb's length is drawn from: long limbs low on the
/// trunk, short ones high up.
pub open spec fn limb_bounds(y: usize, height: usize) -> (u64, u64) {
    if y < height / 2 {
        (50, 99)
    } else {
        (10, 24)
    }
}

/// The draw `r` at or under which a branch turns: lower when the branch already
/// heads the way its type favours.
pub open spec fn turn_threshold(b: Branch) -> u64 {
    let d = b.direction;
    match b.branch_type {
        BranchType::GrowingNorth => if heads_north(d) { 2 } else { 7 },
        BranchType::GrowingWest => if heads_west(d) { 2 } else { 8 },
        BranchType::GrowingEast => if heads_east(d) { 2 } else { 8 },
        BranchType::Stem => if heads_horizontally(d) { 4 } else { 6 },
        BranchType::Leaf => if heads_horizontally(d) { 2 } else { 8 },
    }
}

/// `b` after drawing `r` in `0..=9` and `t` in `0..=1` from `g`: it turns left
/// (`t == 0`) or right when `r` is at or under its threshold.
pub open spec fn steered(b: Branch, g: StdRng) -> (Branch, StdRng) {
    let (r, g1) = range_draw(g, 0, 9);
    let (t, g2) = range_draw(g1, 0, 1);
    let turning = if t == 0 { TurnDirection::Left } else { TurnDirection::Right };
    if r <= turn_threshold(b) {
        (Branch { direction: rotated(b.direction, turning), ..b }, g2)
    } else {
        (b, g2)
    }
}

/// Whether step `step` of a walk of `max_step` steps is past nine tenths of it.
pub open spec fn past_nine_tenths(step: int, max_step: u64) -> bool {
    10 * step > 9 * max_step
}

/// Whether step `step` of a walk of `max_step` steps is past seventeen twentieths of it.
pub open spec fn past_seventeen_twentieths(step: int, max_step: u64) -> bool {
    20 * step > 17 * max_step
}

/// The limb type chosen by the draw `r`.
pub open spec fn limb_type(r: u64) -> BranchType {
    if r % 2 == 0 {
        BranchType::GrowingWest
    } else {
        BranchType::GrowingEast
    }
}

/// Whether `b` is a trunk that has climbed into the top `CROWN_ROWS` rows of a
/// grid of `height` rows.
pub open spec fn topped(b: Branch, height: int) -> bool {
    b.branch_type == BranchType::GrowingNorth && b.pos.y + CROWN_ROWS > height
}

/// The state after what `b` sprouts on step `step` of `max_step` has walked, from
/// the state `s` in which `b`'s cell is painted and its leaf count `lc` drawn. At
/// most one child sprouts, by the first rule that applies: a topped trunk sprouts
/// a stem; past nine tenths of its walk a trunk or limb sprouts a leaf, past
/// seventeen twentieths a stem; otherwise the trunk, while under the limb cap,
/// may sprout a limb after two draws.
pub open spec fn sprouted(
    s: Pass,
    b: Branch,
    lc: u64,
    max_step: u64,
    step: int,
    width: int,
    height: int,
) -> Pass
    decreases rank(b.branch_type), max_step + 1 - step, 0int,
{
    if topped(b, height) {
        grown(s, Branch { branch_type: BranchType::Stem, ..b }, lc, 0, width, height)
    } else if is_growing(b.branch_type) && past_nine_tenths(step, max_step) {
        grown(s, Branch { branch_type: BranchType::Leaf, ..b }, lc, 0, width, height)
    } else if is_growing(b.branch_type) && past_seventeen_twentieths(step, max_step) {
        grown(s, Branch { branch_type: BranchType::Stem, ..b }, lc, 0, width, height)
    } else if b.branch_type == BranchType::GrowingNorth && s.limbs < MAX_BRANCHES {
        let (r, g2) = range_draw(s.rng, 0, 10);
        let (rr, g3) = range_draw(g2, 0, 100);
        if r <= 3 && rr % 4 == 0 {
            let (llo, lhi) = limb_bounds(b.pos.y, height as usize);
            let (len, g4) = range_draw(g3, llo, lhi);
            let budget = if len > max_step { max_step } else { len };
            grown(
                Pass { grid: s.grid, rng: g4, limbs: s.limbs + 1 },
                Branch { branch_type: limb_type(r), ..b },
                budget,
                0,
                width,
                height,
            )
        } else {
            Pass { grid: s.grid, rng: g3, limbs: s.limbs }
        }
    } else {
        s
    }
}

/// The state after `b` walks from `step` through `max_step` on a grid of
/// `width` by `height`, starting from `s`. Each step paints `b`'s cell, draws a
/// leaf count, lets what `b` sprouts walk to its end, then steers and moves `b`;
/// a topped trunk goes on as a stem.
pub open spec fn grown(
    s: Pass,
    b: Branch,
    max_step: u64,
    step: int,
    width: int,
    height: int,
) -> Pass
    decreases rank(b.branch_type), max_step + 1 - step, 1int,
{
    if step > max_step || step < 0 {
        s
    } else {
        let (lo, hi) = leaf_bounds(b.pos.y);
        let (lc, g1) = range_draw(s.rng, lo, hi);
        let s2 = Pass { grid: painted(s.grid, b.pos, cell_of(b)), rng: g1, limbs: s.limbs };
        let s3 = sprouted(s2, b, lc, max_step, step, width, height);
        let b2 = if topped(b, height) {
            Branch { branch_type: BranchType::Stem, ..b }
        } else {
            b
        };
        let (b3, g5) = steered(b2, s3.rng);
        let b4 = Branch { pos: next_position(b3.pos, b3.direction, width, height), ..b3 };
        grown(Pass { grid: s3.grid, rng: g5, limbs: s3.limbs }, b4, max_step, step + 1, width, height)
    }
}

fn leaf_range(y: usize) -> (r: (u64, u64))
    requires
        5 * y <= u64::MAX,
    ensures
        r == leaf_bounds(y),
        r.0 <= r.1,
{
    if y < GROUND_ROWS {
        (1, 2)
    } else {
        ((y / 2) as u64, (y as u64) * 5)
    }
}

fn limb_range(y: usize, height: usize) -> (r: (u64, u64))
    ensures
        r == limb_bounds(y, height),
        r.0 <= r.1,
{
    if y < height / 2 {
        (50, 99)
    } else {
        (10, 24)
    }
}

/// Draws a turn roll and a side, and turns the branch when the roll falls at or
/// under the threshold of its type and heading.
fn calc_direction(b: &mut Branch, g: &mut StdRng)
    ensures
        (*final(b), *final(g)) == steered(*old(b), *old(g)),
{
    let r = draw(g, 0, 9);
    let t = draw(g, 0, 1);
    let turning = if t == 0 {
        TurnDirection::Left
    } else {
        TurnDirection::Right
    };
    let threshold: u64 = match b.branch_type {
        BranchType::GrowingNorth => if b.direction.is_moving_north() { 2 } else { 7 },
        BranchType::GrowingWest => if b.direction.is_moving_west() { 2 } else { 8 },
        BranchType::GrowingEast => if b.direction.is_moving_east() { 2 } else { 8 },
        BranchType::Stem => if b.direction.is_moving_horizontally() { 4 } else { 6 },
        BranchType::Leaf => if b.direction.is_moving_horizontally() { 2 } else { 8 },
    };
    if r <= threshold {
        b.direction = b.direction.turn(turning);
    }
}

/// The growth state made of a grid, a generator and a limb count.
pub open spec fn pass_of(grid: Seq<Seq<TreeCell>>, g: StdRng, limbs: u8) -> Pass {
    Pass { grid, rng: g, limbs: limbs as nat }
}

/// Walks `branch` for `max_step` steps, sprouting and walking its children.
fn grow_rec(tree: &mut Tree, g: &mut StdRng, branch: Branch, max_step: u64, limbs: &mut u8)
    requires
        old(tree).wf(),
        5 * old(tree).spec_height() <= u64::MAX,
        branch.pos.x < old(tree).spec_width(),
        branch.pos.y < old(tree).spec_height(),
        max_step < u64::MAX,
        *old(limbs) <= MAX_BRANCHES,
    ensures
        final(tree).wf(),
        final(tree).spec_width() == old(tree).spec_width(),
        final(tree).spec_height() == old(tree).spec_height(),
        final(tree).spec_limbs() == old(tree).spec_limbs(),
        *final(limbs) <= MAX_BRANCHES,
        pass_of(final(tree).grid(), *final(g), *final(limbs)) == grown(
            pass_of(old(tree).grid(), *old(g), *old(limbs)),
            branch,
            max_step,
            0,
            old(tree).spec_width() as int,
            old(tree).spec_height() as int,
        ),
    decreases rank(branch.branch_type),
{
    let width = tree.width();
    let height = tree.height();
    let ghost target = grown(
        pass_of(tree.grid(), *g, *limbs),
        branch,
        max_step,
        0,
        width as int,
        height as int,
    );
    let mut b = branch;
    let mut step: u64 = 0;
    while step <= max_step
        invariant
            tree.wf(),
            tree.spec_width() == width,
            tree.spec_height() == height,
            tree.spec_limbs() == old(tree).spec_limbs(),
            5 * height <= u64::MAX,
            max_step < u64::MAX,
            step <= max_step + 1,
            b.pos.x < width,
            b.pos.y < height,
            rank(b.branch_type) <= rank(branch.branch_type),
            *limbs <= MAX_BRANCHES,
            grown(pass_of(tree.grid(), *g, *limbs), b, max_step, step as int, width as int, height as int)
                == target,
        decreases max_step + 1 - step,
    {
        let ghost b0 = b;
        let (lo, hi) = leaf_range(b.pos.y);
        let cell = b.to_tree_cell();
        tree.paint(b.pos, cell);
        let leaf_count = draw(g, lo, hi);
        let ghost s2 = pass_of(tree.grid(), *g, *limbs);
        let topped = matches!(b.branch_type, BranchType::GrowingNorth) && (height < CROWN_ROWS
            || b.pos.y > height - CROWN_ROWS);
        let growing = !matches!(b.branch_type, BranchType::Stem | BranchType::Leaf);
        if topped {
            b.branch_type = BranchType::Stem;
            grow_rec(tree, g, b, leaf_count, limbs);
        } else if growing && (step as u128) * 10 > (max_step as u128) * 9 {
            grow_rec(tree, g, Branch { branch_type: BranchType::Leaf, ..b }, leaf_count, limbs);
        } else if growing && (step as u128) * 20 > (max_step as u128) * 17 {
            grow_rec(tree, g, Branch { branch_type: BranchType::Stem, ..b }, leaf_count, limbs);
        } else if matches!(b.branch_type, BranchType::GrowingNorth) && *limbs < MAX_BRANCHES {
            let r = draw(g, 0, 10);
            let rr = draw(g, 0, 100);
            if r <= 3 && rr % 4 == 0 {
                *limbs = *limbs + 1;
                let kind = if r % 2 == 0 {
                    BranchType::GrowingWest
                } else {
                    BranchType::GrowingEast
                };
                let (llo, lhi) = limb_range(b.pos.y, height);
                let mut len = draw(g, llo, lhi);
                if len > max_step {
                    len = max_step;
                }
                grow_rec(tree, g, Branch { branch_type: kind, ..b }, len, limbs);
            }
        }
        assert(pass_of(tree.grid(), *g, *limbs) == sprouted(
            s2,
            b0,
            leaf_count,
            max_step,
            step as int,
            width as int,
            height as int,
        ));
        step = step + 1;
        calc_direction(&mut b, g);
        match calc_position(b.pos, b.direction, width, height) {
            Some(p) => {
                b.pos = p;
            },
            None => {},
        }
    }
}

/// The branch every pass starts from: the trunk, at the middle of the ground
/// row, heading north.
pub open spec fn trunk(width: usize) -> Branch {
    Branch {
        pos: Position { x: width / 2, y: 0 },
        direction: Direction::North,
        branch_type: BranchType::GrowingNorth,
    }
}

/// The steps a pass simulates when `steps` are asked for.
pub open spec fn capped_steps(steps: u64) -> u64 {
    if steps > MAX_STEPS {
        MAX_STEPS
    } else {
        steps
    }
}

/// The state after a whole growth pass of `steps` steps from `seed` on a blank
/// grid of `width` by `height`.
pub open spec fn growth(seed: u64, steps: u64, width: usize, height: usize) -> Pass {
    grown(
        Pass { grid: blank_grid(width as nat, height as nat), rng: seeded_state(seed), limbs: 0 },
        trunk(width),
        capped_steps(steps),
        0,
        width as int,
        height as int,
    )
}

/// Grows a tree from `seed` for `steps` steps (at most `MAX_STEPS`) on a blank
/// grid of `width` by `height`.
pub fn grow(seed: u64, steps: u64, width: usize, height: usize) -> (t: Tree)
    requires
        width >= 1,
        height >= 1,
        5 * height <= u64::MAX,
    ensures
        t.wf(),
        t.spec_width() == width,
        t.spec_height() == height,
        t.grid() == growth(seed, steps, width, height).grid,
        t.spec_limbs() == growth(seed, steps, width, height).limbs,
        t.spec_limbs() <= MAX_BRANCHES,
{
    let mut tree = Tree::new(width, height);
    let mut g = seeded(seed);
    let step_limit = if steps > MAX_STEPS {
        MAX_STEPS
    } else {
        steps
    };
    let trunk = Branch {
        pos: Position { x: width / 2, y: 0 },
        direction: Direction::North,
        branch_type: BranchType::GrowingNorth,
    };
    let mut limbs: u8 = 0;
    grow_rec(&mut tree, &mut g, trunk, step_limit, &mut limbs);
    tree.set_limbs(limbs);
    tree
}

/// A growth pass asked for more steps than the cap grows the same tree as one
/// asked for exactly the cap.
pub proof fn lemma_step_cap(seed: u64, steps: u64, width: usize, height: usize)
    requires
        steps >= MAX_STEPS,
    ensures
        growth(seed, steps, width, height) == growth(seed, MAX_STEPS, width, height),
{
}

/// Two growth passes with the same seed, step count and grid size give the same
/// grid and the same limb count.
pub proof fn lemma_deterministic(a: Tree, b: Tree, seed: u64, steps: u64, width: usize, height: usize)
    requires
        a.grid() == growth(seed, steps, width, height).grid,
        b.grid() == growth(seed, steps, width, height).grid,
        a.spec_limbs() == growth(seed, steps, width, height).limbs,
        b.spec_limbs() == growth(seed, steps, width, height).limbs,
    ensures
        a.grid() == b.grid(),
        a.spec_limbs() == b.spec_limbs(),
{
}

proof fn lemma_sprouted_limb_cap(
    s: Pass,
    b: Branch,
    lc: u64,
    max_step: u64,
    step: int,
    width: int,
    height: int,
)
    requires
        s.limbs <= MAX_BRANCHES,
    ensures
        sprouted(s, b, lc, max_step, step, width, height).limbs <= MAX_BRANCHES,
    decreases rank(b.branch_type), max_step + 1 - step, 0int,
{
    if topped(b, height) {
        lemma_grown_limb_cap(s, Branch { branch_type: BranchType::Stem, ..b }, lc, 0, width, height);
    } else if is_growing(b.branch_type) && past_nine_tenths(step, max_step) {
        lemma_grown_limb_cap(s, Branch { branch_type: BranchType::Leaf, ..b }, lc, 0, width, height);
    } else if is_growing(b.branch_type) && past_seventeen_twentieths(step, max_step) {
        lemma_grown_limb_cap(s, Branch { branch_type: BranchType::Stem, ..b }, lc, 0, width, height);
    } else if b.branch_type == BranchType::GrowingNorth && s.limbs < MAX_BRANCHES {
        let (r, g2) = range_draw(s.rng, 0, 10);
        let (rr, g3) = range_draw(g2, 0, 100);
        if r <= 3 && rr % 4 == 0 {
            let (llo, lhi) = limb_bounds(b.pos.y, height as usize);
            let (len, g4) = range_draw(g3, llo, lhi);
            let budget = if len > max_step { max_step } else { len };
            lemma_grown_limb_cap(
                Pass { grid: s.grid, rng: g4, limbs: s.limbs + 1 },
                Branch { branch_type: limb_type(r), ..b },
                budget,
                0,
                width,
                height,
            );
        }
    }
}

/// A walk that starts under the limb cap ends under it.
pub proof fn lemma_grown_limb_cap(
    s: Pass,
    b: Branch,
    max_step: u64,
    step: int,
    width: int,
    height: int,
)
    requires
        s.limbs <= MAX_BRANCHES,
    ensures
        grown(s, b, max_step, step, width, height).limbs <= MAX_BRANCHES,
    decreases rank(b.branch_type), max_step + 1 - step, 1int,
{
    if step <= max_step && step >= 0 {
        let (lo, hi) = leaf_bounds(b.pos.y);
        let (lc, g1) = range_draw(s.rng, lo, hi);
        let s2 = Pass { grid: painted(s.grid, b.pos, cell_of(b)), rng: g1, limbs: s.limbs };
        lemma_sprouted_limb_cap(s2, b, lc, max_step, step, width, height);
        let s3 = sprouted(s2, b, lc, max_step, step, width, height);
        let b2 = if topped(b, height) {
            Branch { branch_type: BranchType::Stem, ..b }
        } else {
            b
        };
        let (b3, g5) = steered(b2, s3.rng);
        let b4 = Branch { pos: next_position(b3.pos, b3.direction, width, height), ..b3 };
        lemma_grown_limb_cap(
            Pass { grid: s3.grid, rng: g5, limbs: s3.limbs },
            b4,
            max_step,
            step + 1,
            width,
            height,
        );
    }
}

/// Whatever the seed, the step count and the grid, a growth pass sprouts at
/// most `MAX_BRANCHES` limbs from the trunk.
pub proof fn lemma_limb_cap(seed: u64, steps: u64, width: usize, height: usize)
    ensures
        growth(seed, steps, width, height).limbs <= MAX_BRANCHES,
{
    lemma_grown_limb_cap(
        Pass { grid: blank_grid(width as nat, height as nat), rng: seeded_state(seed), limbs: 0 },
        trunk(width),
        capped_steps(steps),
        0,
        width as int,
        height as int,
    );
}

/// A limb given no steps paints its own cell and nothing else.
proof fn lemma_limb_no_steps(s: Pass, b: Branch, width: int, height: int)
    requires
        b.branch_type == BranchType::GrowingWest || b.branch_type == BranchType::GrowingEast,
    ensures
        grown(s, b, 0, 0, width, height).grid == painted(s.grid, b.pos, cell_of(b)),
{
    reveal_with_fuel(grown, 2);
}

/// With no steps, a pass on a grid of at least `CROWN_ROWS` rows leaves exactly
/// one cell non-blank: the trunk's foot, in the middle of the ground row.
pub proof fn lemma_seedling(seed: u64, width: usize, height: usize)
    requires
        width >= 1,
        height >= CROWN_ROWS,
    ensures
        forall|x: int, y: int|
            0 <= x < width && 0 <= y < height ==> ((growth(seed, 0, width, height).grid[y][x]
                != blank_cell()) <==> (x == width / 2 && y == 0)),
{
    reveal_with_fuel(grown, 2);
    let t = trunk(width);
    let blank = blank_grid(width as nat, height as nat);
    let s = Pass { grid: blank, rng: seeded_state(seed), limbs: 0 };
    let (lo, hi) = leaf_bounds(t.pos.y);
    let (lc, g1) = range_draw(s.rng, lo, hi);
    let s2 = Pass { grid: painted(s.grid, t.pos, cell_of(t)), rng: g1, limbs: s.limbs };
    let (r, g2) = range_draw(s2.rng, 0, 10);
    let (rr, g3) = range_draw(g2, 0, 100);
    let (llo, lhi) = limb_bounds(t.pos.y, height);
    let (len, g4) = range_draw(g3, llo, lhi);
    let limb = Branch { branch_type: limb_type(r), ..t };
    let s_limb = Pass { grid: s2.grid, rng: g4, limbs: s2.limbs + 1 };
    lemma_limb_no_steps(s_limb, limb, width as int, height as int);
    let s3 = sprouted(s2, t, lc, 0, 0, width as int, height as int);
    assert(s3.grid == s2.grid || s3.grid == painted(s2.grid, t.pos, cell_of(limb)));
    assert forall|x: int, y: int| 0 <= x < width && 0 <= y < height implies ((
    growth(seed, 0, width, height).grid[y][x] != blank_cell()) <==> (x == width / 2 && y == 0)) by {
        assert(blank[y][x] == blank_cell());
    }
}

} // verus!
