use roots::growth::{grow, MAX_BRANCHES, MAX_STEPS};
use roots::tree::{Tone, Tree};

fn render(t: &Tree) -> String {
    let mut out = String::new();
    for y in (0..t.height()).rev() {
        for x in 0..t.width() {
            out.push_str(t.cell(x, y).glyph);
        }
        out.push('\n');
    }
    out
}

fn non_blank(t: &Tree) -> Vec<(usize, usize)> {
    let mut v = Vec::new();
    for y in 0..t.height() {
        for x in 0..t.width() {
            if t.cell(x, y).tone != Tone::Blank {
                v.push((x, y));
            }
        }
    }
    v
}

#[test]
fn same_seed_same_tree() {
    for seed in [0u64, 7, 1337, u64::MAX] {
        for steps in [0u64, 5, 30, 60] {
            let a = grow(seed, steps, 40, 30);
            let b = grow(seed, steps, 40, 30);
            assert_eq!(render(&a), render(&b));
            assert_eq!(a.limbs(), b.limbs());
        }
    }
}

#[test]
fn steps_beyond_the_cap_change_nothing() {
    assert_eq!(MAX_STEPS, 60);
    for seed in [1u64, 1337, 99] {
        let a = grow(seed, 10_000, 20, 20);
        let b = grow(seed, 60, 20, 20);
        assert_eq!(render(&a), render(&b));
    }
}

#[test]
fn limbs_stay_under_the_cap() {
    for seed in 0u64..40 {
        let t = grow(seed, 60, 100, 40);
        assert!(t.limbs() <= MAX_BRANCHES);
    }
}

#[test]
fn seedling_has_one_cell() {
    let t = grow(1337, 0, 20, 20);
    assert_eq!(non_blank(&t), vec![(10, 0)]);
    assert_eq!(t.cell(10, 0).glyph, "/|\\");
}

#[test]
fn seedling_has_one_cell_for_any_seed() {
    for seed in 0u64..50 {
        let t = grow(seed, 0, 9, 6);
        assert_eq!(non_blank(&t), vec![(4, 0)]);
    }
}

#[test]
fn full_grown_golden() {
    let t = grow(1337, 60, 20, 20);
    let golden = "&&&&&&&&&&&&&&&&\\\\**\\\\\n*& &&**&&&&&&&     *\n ** &&& *   ****** *\n  ****&*******&   **\n**   =\\\\\\|*****&&    |\\\n*  *//  \\\\\\|***& &&&&&|/\n****|\\***\\\\/|\\******  |/*\n* *//  ***\\\\***&  *|/ *\n **|\\** ***\\|**&  ** *\n****\\\\   ***\\|**** **&\n*  *****&** \\|  |//~**&\n*   *********\\|*** |\\*\n*********    |/\\|  &|\\*\n************~\\\\*~/~///|&&\n&* *  &   ~//  \\\\**|\\&*\n&*& ***  ///|\\    ~//|/ *\n &**  ***|\\/|\\  && |/** \n &  **    \\\\====|\\   &\n&         *    \\\\=  &\n&        &*     ~~~//\n";
    assert_eq!(render(&t), golden);
}

#[test]
fn different_seeds_differ() {
    let mut same = 0;
    for seed in 0u64..30 {
        let a = grow(seed, 60, 20, 20);
        let b = grow(seed + 1000, 60, 20, 20);
        if render(&a) == render(&b) {
            same += 1;
        }
    }
    assert_eq!(same, 0);
}

#[test]
fn tiny_grids_stay_in_bounds() {
    for (w, h) in [(1usize, 1usize), (1, 4), (3, 1), (2, 7)] {
        for seed in 0u64..10 {
            let t = grow(seed, 60, w, h);
            assert_eq!(t.width(), w);
            assert_eq!(t.height(), h);
            assert!(!non_blank(&t).is_empty());
        }
    }
}

#[test]
fn grown_tree_is_not_just_a_seedling() {
    let t = grow(1337, 60, 20, 20);
    assert!(non_blank(&t).len() > 1);
    assert_eq!(t.cell(10, 0).tone != Tone::Blank, true);
}
