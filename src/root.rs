//! A planted tree: its name, its seed, when it was planted and watered, and the
//! grid it has grown into.
use vstd::prelude::*;

use crate::growth::{grow, growth, MAX_BRANCHES};
use crate::tree::Tree;

verus! {

/// How many seconds of real time one growth step takes.
pub const GROWTH_RATE_SECS: u64 = 1;

/// The grid width used when the terminal's width is unknown.
pub const DEFAULT_WIDTH: usize = 100;

/// The grid height.
pub const DEFAULT_HEIGHT: usize = 40;

/// Columns left free beside the grid when the terminal's width is known.
pub const SIDE_MARGIN: usize = 20;

/// The growth steps that have elapsed between `planted` and `now`, in seconds.
pub open spec fn elapsed_steps(planted: u64, now: u64) -> u64 {
    ((now - planted) / GROWTH_RATE_SECS as int) as u64
}

/// The grid's width and height for a terminal of the given width, if known.
pub open spec fn dimensions_for(terminal_width: Option<usize>) -> (usize, usize) {
    match terminal_width {
        Some(w) if w > SIDE_MARGIN => ((w - SIDE_MARGIN) as usize, DEFAULT_HEIGHT),
        _ => (DEFAULT_WIDTH, DEFAULT_HEIGHT),
    }
}

/// The grid's size: the terminal's width less the side margins when that is
/// known and wider than the margins, else the default width; the default height.
pub fn grid_dimensions(terminal_width: Option<usize>) -> (r: (usize, usize))
    ensures
        r == dimensions_for(terminal_width),
        r.0 >= 1,
        r.1 >= 1,
{
    match terminal_width {
        Some(w) => if w > SIDE_MARGIN {
            (w - SIDE_MARGIN, DEFAULT_HEIGHT)
        } else {
            (DEFAULT_WIDTH, DEFAULT_HEIGHT)
        },
        None => (DEFAULT_WIDTH, DEFAULT_HEIGHT),
    }
}

/// A planted tree. The seed fixes the tree's shape; the time since planting fixes
/// how far it has grown. Times are whole seconds since the Unix epoch.
pub struct Root {
    name: String,
    seed: u64,
    planted_time: u64,
    last_watered_time: u64,
    tree: Tree,
}

impl Root {
    pub closed spec fn spec_name(&self) -> Seq<char> {
        self.name@
    }

    pub closed spec fn spec_seed(&self) -> u64 {
        self.seed
    }

    pub closed spec fn spec_planted_time(&self) -> u64 {
        self.planted_time
    }

    pub closed spec fn spec_last_watered_time(&self) -> u64 {
        self.last_watered_time
    }

    pub closed spec fn spec_tree(&self) -> Tree {
        self.tree
    }

    /// A tree planted at `now`: both times are `now`, and nothing has grown yet.
    pub fn new(name: String, seed: u64, now: u64) -> (r: Root)
        ensures
            r.spec_name() == name@,
            r.spec_seed() == seed,
            r.spec_planted_time() == now,
            r.spec_last_watered_time() == now,
            r.spec_tree().wf(),
            r.spec_tree().spec_width() == 0,
            r.spec_tree().spec_height() == 0,
    {
        Root { name, seed, planted_time: now, last_watered_time: now, tree: Tree::new(0, 0) }
    }

    /// A tree read back from storage: the grid is not stored, so nothing has grown yet.
    pub fn restore(name: String, seed: u64, planted_time: u64, last_watered_time: u64) -> (r: Root)
        ensures
            r.spec_name() == name@,
            r.spec_seed() == seed,
            r.spec_planted_time() == planted_time,
            r.spec_last_watered_time() == last_watered_time,
            r.spec_tree().wf(),
            r.spec_tree().spec_width() == 0,
            r.spec_tree().spec_height() == 0,
    {
        Root { name, seed, planted_time, last_watered_time, tree: Tree::new(0, 0) }
    }

    /// Regrows the tree from its seed for the steps elapsed between planting and
    /// `now`, on a blank grid of `width` by `height`.
    pub fn generate(&mut self, now: u64, width: usize, height: usize)
        requires
            now >= old(self).spec_planted_time(),
            width >= 1,
            height >= 1,
            5 * height <= u64::MAX,
        ensures
            final(self).spec_name() == old(self).spec_name(),
            final(self).spec_seed() == old(self).spec_seed(),
            final(self).spec_planted_time() == old(self).spec_planted_time(),
            final(self).spec_last_watered_time() == old(self).spec_last_watered_time(),
            final(self).spec_tree().wf(),
            final(self).spec_tree().spec_width() == width,
            final(self).spec_tree().spec_height() == height,
            final(self).spec_tree().grid() == growth(
                old(self).spec_seed(),
                elapsed_steps(old(self).spec_planted_time(), now),
                width,
                height,
            ).grid,
            final(self).spec_tree().spec_limbs() == growth(
                old(self).spec_seed(),
                elapsed_steps(old(self).spec_planted_time(), now),
                width,
                height,
            ).limbs,
            final(self).spec_tree().spec_limbs() <= MAX_BRANCHES,
    {
        let steps = (now - self.planted_time) / GROWTH_RATE_SECS;
        self.tree = grow(self.seed, steps, width, height);
    }

    /// Replaces the seed, as a request for a freshly random tree does before a pass.
    pub fn reseed(&mut self, seed: u64)
        ensures
            final(self).spec_name() == old(self).spec_name(),
            final(self).spec_seed() == seed,
            final(self).spec_planted_time() == old(self).spec_planted_time(),
            final(self).spec_last_watered_time() == old(self).spec_last_watered_time(),
            final(self).spec_tree() == old(self).spec_tree(),
    {
        self.seed = seed;
    }

    /// Records a watering at `now`.
    pub fn water(&mut self, now: u64)
        ensures
            final(self).spec_name() == old(self).spec_name(),
            final(self).spec_seed() == old(self).spec_seed(),
            final(self).spec_planted_time() == old(self).spec_planted_time(),
            final(self).spec_last_watered_time() == now,
            final(self).spec_tree() == old(self).spec_tree(),
    {
        self.last_watered_time = now;
    }

    pub fn name(&self) -> (r: &String)
        ensures
            r@ == self.spec_name(),
    {
        &self.name
    }

    pub fn seed(&self) -> (r: u64)
        ensures
            r == self.spec_seed(),
    {
        self.seed
    }

    pub fn planted_time(&self) -> (r: u64)
        ensures
            r == self.spec_planted_time(),
    {
        self.planted_time
    }

    pub fn last_watered_time(&self) -> (r: u64)
        ensures
            r == self.spec_last_watered_time(),
    {
        self.last_watered_time
    }

    /// The grid grown by the last call of `generate`.
    pub fn tree(&self) -> (r: &Tree)
        ensures
            *r == self.spec_tree(),
    {
        &self.tree
    }
}

} // verus!
