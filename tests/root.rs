use roots::growth::grow;
use roots::root::Root;

fn render(r: &Root) -> String {
    let t = r.tree();
    let mut out = String::new();
    for y in (0..t.height()).rev() {
        for x in 0..t.width() {
            out.push_str(t.cell(x, y).glyph);
        }
        out.push('\n');
    }
    out
}

#[test]
fn planting_sets_both_times() {
    let r = Root::new(String::from("Max"), 42, 1_000);
    assert_eq!(r.name(), "Max");
    assert_eq!(r.seed(), 42);
    assert_eq!(r.planted_time(), 1_000);
    assert_eq!(r.last_watered_time(), 1_000);
    assert_eq!(r.tree().width(), 0);
}

#[test]
fn generate_grows_by_elapsed_seconds() {
    let mut r = Root::new(String::from("Max"), 1337, 1_000);
    r.generate(1_025, 20, 20);
    let direct = grow(1337, 25, 20, 20);
    let mut expected = String::new();
    for y in (0..20).rev() {
        for x in 0..20 {
            expected.push_str(direct.cell(x, y).glyph);
        }
        expected.push('\n');
    }
    assert_eq!(render(&r), expected);
    assert_eq!(r.tree().limbs(), direct.limbs());
}

#[test]
fn generate_at_planting_time_is_a_seedling() {
    let mut r = Root::new(String::from("Max"), 1337, 500);
    r.generate(500, 20, 20);
    let mut count = 0;
    for y in 0..20 {
        for x in 0..20 {
            if r.tree().cell(x, y).glyph != " " {
                count += 1;
            }
        }
    }
    assert_eq!(count, 1);
}

#[test]
fn watering_and_reseeding() {
    let mut r = Root::restore(String::from("Fern"), 3, 10, 10);
    r.water(99);
    assert_eq!(r.last_watered_time(), 99);
    assert_eq!(r.planted_time(), 10);
    r.reseed(77);
    assert_eq!(r.seed(), 77);
    assert_eq!(r.name(), "Fern");
}
