use roots::direction::{Direction, Position};
use roots::root::grid_dimensions;
use roots::tree::{calc_position, Branch, BranchType, Tone, Tree};

#[test]
fn blank_grid_has_its_size() {
    let t = Tree::new(7, 3);
    assert_eq!(t.width(), 7);
    assert_eq!(t.height(), 3);
    assert_eq!(t.limbs(), 0);
    for y in 0..3 {
        for x in 0..7 {
            let c = t.cell(x, y);
            assert_eq!(c.glyph, " ");
            assert_eq!(c.tone, Tone::Blank);
        }
    }
}

#[test]
fn moves_inside_the_grid() {
    let p = Position { x: 2, y: 2 };
    assert_eq!(calc_position(p, Direction::North, 5, 5), Some(Position { x: 2, y: 3 }));
    assert_eq!(calc_position(p, Direction::SouthWest, 5, 5), Some(Position { x: 1, y: 1 }));
    assert_eq!(calc_position(p, Direction::South, 5, 5), Some(Position { x: 2, y: 1 }));
    assert_eq!(calc_position(p, Direction::East, 5, 5), Some(Position { x: 3, y: 2 }));
}

#[test]
fn stays_put_at_the_edges() {
    assert_eq!(calc_position(Position { x: 0, y: 0 }, Direction::West, 5, 5), None);
    assert_eq!(calc_position(Position { x: 0, y: 0 }, Direction::South, 5, 5), None);
    assert_eq!(calc_position(Position { x: 4, y: 4 }, Direction::NorthEast, 5, 5), None);
    assert_eq!(calc_position(Position { x: 0, y: 0 }, Direction::North, 1, 1), None);
    assert_eq!(calc_position(Position { x: 4, y: 2 }, Direction::SouthEast, 5, 5), None);
}

#[test]
fn glyphs_by_type_and_direction() {
    let b = |t, d| Branch { pos: Position { x: 0, y: 0 }, direction: d, branch_type: t };
    let c = b(BranchType::GrowingNorth, Direction::North).to_tree_cell();
    assert_eq!(c.glyph, "/|\\");
    assert_eq!(c.tone, Tone::Bark);
    let c = b(BranchType::GrowingWest, Direction::West).to_tree_cell();
    assert_eq!(c.glyph, "=");
    assert_eq!(c.tone, Tone::Wood);
    let c = b(BranchType::GrowingEast, Direction::West).to_tree_cell();
    assert_eq!(c.glyph, "~");
    assert_eq!(c.tone, Tone::Wood);
    let c = b(BranchType::Stem, Direction::SouthWest).to_tree_cell();
    assert_eq!(c.glyph, "&");
    assert_eq!(c.tone, Tone::Green);
    let c = b(BranchType::Leaf, Direction::East).to_tree_cell();
    assert_eq!(c.glyph, "*");
    assert_eq!(c.tone, Tone::BrightGreen);
}

#[test]
fn grid_size_from_terminal() {
    assert_eq!(grid_dimensions(None), (100, 40));
    assert_eq!(grid_dimensions(Some(120)), (100, 40));
    assert_eq!(grid_dimensions(Some(80)), (60, 40));
    assert_eq!(grid_dimensions(Some(20)), (100, 40));
}
