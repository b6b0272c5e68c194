use lib::annotations::DrawingId;
use lib::drawing_set::{DrawingKind, DrawingSet};

// The set finds drawings by kind and id alone; these tests store the
// drawings' points as plain data.
#[derive(Debug, Clone, PartialEq)]
enum Shape {
    Points(Vec<(u64, f64)>),
    Price(f64),
    Time(u64),
    Ellipse((u64, f64), f64, f64),
}

type Item = (DrawingKind, DrawingId, Shape);

fn pt(t: u64, p: f64) -> (u64, f64) {
    (t, p)
}

fn id(s: &str) -> DrawingId {
    DrawingId(s.to_string())
}

fn two(kind: DrawingKind, name: &str, a: (u64, f64), b: (u64, f64)) -> Item {
    (kind, id(name), Shape::Points(vec![a, b]))
}

fn three(kind: DrawingKind, name: &str, a: (u64, f64), b: (u64, f64), c: (u64, f64)) -> Item {
    (kind, id(name), Shape::Points(vec![a, b, c]))
}

fn trend_line(name: &str, a: (u64, f64), b: (u64, f64)) -> Item {
    two(DrawingKind::TrendLine, name, a, b)
}

fn horizontal_line(name: &str, price: f64) -> Item {
    (DrawingKind::HorizontalLine, id(name), Shape::Price(price))
}

fn vertical_line(name: &str, t: u64) -> Item {
    (DrawingKind::VerticalLine, id(name), Shape::Time(t))
}

fn rectangle(name: &str, a: (u64, f64), b: (u64, f64)) -> Item {
    two(DrawingKind::Rectangle, name, a, b)
}

fn fibonacci(name: &str, a: (u64, f64), b: (u64, f64)) -> Item {
    two(DrawingKind::FibonacciRetracement, name, a, b)
}

fn fibonacci_extension(name: &str, a: (u64, f64), b: (u64, f64), c: (u64, f64)) -> Item {
    three(DrawingKind::FibonacciExtension, name, a, b, c)
}

fn pitchfork(name: &str, a: (u64, f64), b: (u64, f64), c: (u64, f64)) -> Item {
    three(DrawingKind::Pitchfork, name, a, b, c)
}

fn ellipse(name: &str, center: (u64, f64), rx: f64, ry: f64) -> Item {
    (DrawingKind::Ellipse, id(name), Shape::Ellipse(center, rx, ry))
}

fn path(name: &str, points: Vec<(u64, f64)>) -> Item {
    (DrawingKind::Path, id(name), Shape::Points(points))
}

fn add(set: &mut DrawingSet<Shape>, item: Item) {
    set.add(item.0, item.1, item.2);
}

fn has(set: &DrawingSet<Shape>, kind: DrawingKind, name: &str) -> bool {
    set.get(kind, &id(name)).is_some()
}

#[test]
fn drawing_set_starts_empty() {
    let set: DrawingSet<Shape> = DrawingSet::new();
    assert!(set.is_empty());
    assert_eq!(set.len(), 0);
}

#[test]
fn drawing_set_add_trend_line() {
    let mut set = DrawingSet::new();
    add(&mut set, trend_line("t1", pt(0, 0.0), pt(1, 1.0)));
    assert_eq!(set.len(), 1);
    assert!(!set.is_empty());
    assert!(has(&set, DrawingKind::TrendLine, "t1"));
}

#[test]
fn drawing_set_add_horizontal_line() {
    let mut set = DrawingSet::new();
    add(&mut set, horizontal_line("h1", 100.0));
    assert_eq!(set.len(), 1);
    assert!(has(&set, DrawingKind::HorizontalLine, "h1"));
}

#[test]
fn drawing_set_add_vertical_line() {
    let mut set = DrawingSet::new();
    add(&mut set, vertical_line("v1", 42));
    assert_eq!(set.len(), 1);
    assert!(has(&set, DrawingKind::VerticalLine, "v1"));
}

#[test]
fn drawing_set_remove_trend_line() {
    let mut set = DrawingSet::new();
    add(&mut set, trend_line("t1", pt(0, 0.0), pt(1, 1.0)));
    assert!(set.remove(&id("t1")));
    assert_eq!(set.len(), 0);
    assert!(!has(&set, DrawingKind::TrendLine, "t1"));
}

#[test]
fn drawing_set_remove_horizontal_line() {
    let mut set = DrawingSet::new();
    add(&mut set, horizontal_line("h1", 100.0));
    assert!(set.remove(&id("h1")));
    assert_eq!(set.len(), 0);
}

#[test]
fn drawing_set_remove_vertical_line() {
    let mut set = DrawingSet::new();
    add(&mut set, vertical_line("v1", 42));
    assert!(set.remove(&id("v1")));
    assert_eq!(set.len(), 0);
}

#[test]
fn drawing_set_remove_nonexistent() {
    let mut set = DrawingSet::new();
    add(&mut set, horizontal_line("h1", 100.0));
    assert!(!set.remove(&id("nope")));
    assert_eq!(set.len(), 1);
}

#[test]
fn drawing_set_remove_from_mixed() {
    let mut set = DrawingSet::new();
    add(&mut set, trend_line("t1", pt(0, 0.0), pt(1, 1.0)));
    add(&mut set, horizontal_line("h1", 50.0));
    add(&mut set, vertical_line("v1", 10));
    assert_eq!(set.len(), 3);

    assert!(set.remove(&id("h1")));
    assert_eq!(set.len(), 2);
    assert!(!has(&set, DrawingKind::HorizontalLine, "h1"));
    assert!(has(&set, DrawingKind::TrendLine, "t1"));
    assert!(has(&set, DrawingKind::VerticalLine, "v1"));
}

#[test]
fn drawing_set_len_counts_all_types() {
    let mut set = DrawingSet::new();
    add(&mut set, trend_line("t1", pt(0, 0.0), pt(1, 1.0)));
    add(&mut set, trend_line("t2", pt(2, 2.0), pt(3, 3.0)));
    add(&mut set, horizontal_line("h1", 100.0));
    add(&mut set, horizontal_line("h2", 200.0));
    add(&mut set, horizontal_line("h3", 300.0));
    add(&mut set, vertical_line("v1", 1));

    assert_eq!(set.len(), 6);
    assert_eq!(set.all(DrawingKind::TrendLine).len(), 2);
    assert_eq!(set.all(DrawingKind::HorizontalLine).len(), 3);
    assert_eq!(set.all(DrawingKind::VerticalLine).len(), 1);
}

#[test]
fn drawing_set_is_empty_after_removing_last() {
    let mut set = DrawingSet::new();
    add(&mut set, vertical_line("v1", 1));
    assert!(!set.is_empty());
    set.remove(&id("v1"));
    assert!(set.is_empty());
}

#[test]
fn drawing_set_add_rectangle() {
    let mut set = DrawingSet::new();
    add(&mut set, rectangle("r1", pt(0, 100.0), pt(1, 50.0)));
    assert_eq!(set.len(), 1);
    assert!(has(&set, DrawingKind::Rectangle, "r1"));
}

#[test]
fn drawing_set_remove_rectangle() {
    let mut set = DrawingSet::new();
    add(&mut set, rectangle("r1", pt(0, 100.0), pt(1, 50.0)));
    assert!(set.remove(&id("r1")));
    assert_eq!(set.len(), 0);
}

#[test]
fn drawing_set_all_rectangles() {
    let mut set = DrawingSet::new();
    add(&mut set, rectangle("r1", pt(0, 100.0), pt(1, 50.0)));
    add(&mut set, rectangle("r2", pt(2, 200.0), pt(3, 150.0)));
    assert_eq!(set.all(DrawingKind::Rectangle).len(), 2);
}

#[test]
fn drawing_set_add_fibonacci() {
    let mut set = DrawingSet::new();
    add(&mut set, fibonacci("f1", pt(0, 100.0), pt(1, 200.0)));
    assert_eq!(set.len(), 1);
    assert!(has(&set, DrawingKind::FibonacciRetracement, "f1"));
}

#[test]
fn drawing_set_remove_fibonacci() {
    let mut set = DrawingSet::new();
    add(&mut set, fibonacci("f1", pt(0, 100.0), pt(1, 200.0)));
    assert!(set.remove(&id("f1")));
    assert_eq!(set.len(), 0);
}

#[test]
fn drawing_set_mixed_with_new_types() {
    let mut set = DrawingSet::new();
    add(&mut set, trend_line("t1", pt(0, 0.0), pt(1, 1.0)));
    add(&mut set, rectangle("r1", pt(0, 100.0), pt(1, 50.0)));
    add(&mut set, fibonacci("f1", pt(0, 100.0), pt(1, 200.0)));
    assert_eq!(set.len(), 3);

    assert!(set.remove(&id("r1")));
    assert_eq!(set.len(), 2);
    assert!(has(&set, DrawingKind::TrendLine, "t1"));
    assert!(has(&set, DrawingKind::FibonacciRetracement, "f1"));
}

#[test]
fn drawing_set_add_fibonacci_extension() {
    let mut set = DrawingSet::new();
    add(&mut set, fibonacci_extension("fe1", pt(0, 100.0), pt(1, 200.0), pt(2, 150.0)));
    assert_eq!(set.len(), 1);
    assert!(has(&set, DrawingKind::FibonacciExtension, "fe1"));
}

#[test]
fn drawing_set_remove_fibonacci_extension() {
    let mut set = DrawingSet::new();
    add(&mut set, fibonacci_extension("fe1", pt(0, 100.0), pt(1, 200.0), pt(2, 150.0)));
    assert!(set.remove(&id("fe1")));
    assert_eq!(set.len(), 0);
}

#[test]
fn drawing_set_all_fibonacci_extensions() {
    let mut set = DrawingSet::new();
    add(&mut set, fibonacci_extension("fe1", pt(0, 100.0), pt(1, 200.0), pt(2, 150.0)));
    add(&mut set, fibonacci_extension("fe2", pt(3, 50.0), pt(4, 100.0), pt(5, 80.0)));
    assert_eq!(set.all(DrawingKind::FibonacciExtension).len(), 2);
}

#[test]
fn drawing_set_add_pitchfork() {
    let mut set = DrawingSet::new();
    add(&mut set, pitchfork("pf1", pt(0, 100.0), pt(1, 200.0), pt(2, 120.0)));
    assert_eq!(set.len(), 1);
    assert!(has(&set, DrawingKind::Pitchfork, "pf1"));
}

#[test]
fn drawing_set_remove_pitchfork() {
    let mut set = DrawingSet::new();
    add(&mut set, pitchfork("pf1", pt(0, 100.0), pt(1, 200.0), pt(2, 120.0)));
    assert!(set.remove(&id("pf1")));
    assert_eq!(set.len(), 0);
}

#[test]
fn drawing_set_all_pitchforks() {
    let mut set = DrawingSet::new();
    add(&mut set, pitchfork("pf1", pt(0, 100.0), pt(1, 200.0), pt(2, 120.0)));
    add(&mut set, pitchfork("pf2", pt(3, 50.0), pt(4, 100.0), pt(5, 60.0)));
    assert_eq!(set.all(DrawingKind::Pitchfork).len(), 2);
}

#[test]
fn drawing_set_mixed_all_types() {
    let mut set = DrawingSet::new();
    add(&mut set, trend_line("t1", pt(0, 0.0), pt(1, 1.0)));
    add(&mut set, fibonacci_extension("fe1", pt(0, 100.0), pt(1, 200.0), pt(2, 150.0)));
    add(&mut set, pitchfork("pf1", pt(0, 100.0), pt(1, 200.0), pt(2, 120.0)));
    assert_eq!(set.len(), 3);

    assert!(set.remove(&id("fe1")));
    assert_eq!(set.len(), 2);
    assert!(has(&set, DrawingKind::TrendLine, "t1"));
    assert!(has(&set, DrawingKind::Pitchfork, "pf1"));
}

#[test]
fn drawing_set_add_ellipse() {
    let mut set = DrawingSet::new();
    add(&mut set, ellipse("e1", pt(100, 100.0), 50.0, 30.0));
    assert_eq!(set.len(), 1);
    assert!(has(&set, DrawingKind::Ellipse, "e1"));
}

#[test]
fn drawing_set_remove_ellipse() {
    let mut set = DrawingSet::new();
    add(&mut set, ellipse("e1", pt(100, 100.0), 50.0, 30.0));
    assert!(set.remove(&id("e1")));
    assert_eq!(set.len(), 0);
}

#[test]
fn drawing_set_all_ellipses() {
    let mut set = DrawingSet::new();
    add(&mut set, ellipse("e1", pt(100, 100.0), 50.0, 30.0));
    add(&mut set, ellipse("e2", pt(200, 200.0), 60.0, 40.0));
    assert_eq!(set.all(DrawingKind::Ellipse).len(), 2);
}

#[test]
fn drawing_set_add_path() {
    let mut set = DrawingSet::new();
    add(&mut set, path("p1", vec![pt(0, 0.0), pt(10, 20.0)]));
    assert_eq!(set.len(), 1);
    assert!(has(&set, DrawingKind::Path, "p1"));
}

#[test]
fn drawing_set_remove_path() {
    let mut set = DrawingSet::new();
    add(&mut set, path("p1", vec![pt(0, 0.0), pt(10, 20.0)]));
    assert!(set.remove(&id("p1")));
    assert_eq!(set.len(), 0);
}

#[test]
fn drawing_set_all_paths() {
    let mut set = DrawingSet::new();
    add(&mut set, path("p1", vec![pt(0, 0.0), pt(10, 20.0)]));
    add(&mut set, path("p2", vec![pt(0, 0.0), pt(5, 10.0)]));
    assert_eq!(set.all(DrawingKind::Path).len(), 2);
}

#[test]
fn drawing_set_mixed_with_ellipse_and_path() {
    let mut set = DrawingSet::new();
    add(&mut set, trend_line("t1", pt(0, 0.0), pt(1, 1.0)));
    add(&mut set, ellipse("e1", pt(100, 100.0), 50.0, 30.0));
    add(&mut set, path("p1", vec![pt(0, 0.0), pt(10, 20.0)]));
    assert_eq!(set.len(), 3);

    assert!(set.remove(&id("e1")));
    assert_eq!(set.len(), 2);
    assert!(has(&set, DrawingKind::TrendLine, "t1"));
    assert!(has(&set, DrawingKind::Path, "p1"));
}

#[test]
fn drawing_set_add_arrow() {
    let mut set = DrawingSet::new();
    add(&mut set, two(DrawingKind::Arrow, "a1", pt(0, 0.0), pt(100, 50.0)));
    assert_eq!(set.len(), 1);
    assert!(has(&set, DrawingKind::Arrow, "a1"));
}

#[test]
fn drawing_set_remove_arrow() {
    let mut set = DrawingSet::new();
    add(&mut set, two(DrawingKind::Arrow, "a1", pt(0, 0.0), pt(100, 50.0)));
    assert!(set.remove(&id("a1")));
    assert_eq!(set.len(), 0);
}

#[test]
fn drawing_set_all_arrows() {
    let mut set = DrawingSet::new();
    add(&mut set, two(DrawingKind::Arrow, "a1", pt(0, 0.0), pt(100, 50.0)));
    add(&mut set, two(DrawingKind::Arrow, "a2", pt(200, 60.0), pt(300, 80.0)));
    assert_eq!(set.all(DrawingKind::Arrow).len(), 2);
}

#[test]
fn drawing_set_add_ray() {
    let mut set = DrawingSet::new();
    add(&mut set, two(DrawingKind::Ray, "r1", pt(0, 0.0), pt(100, 50.0)));
    assert_eq!(set.len(), 1);
    assert!(has(&set, DrawingKind::Ray, "r1"));
}

#[test]
fn drawing_set_remove_ray() {
    let mut set = DrawingSet::new();
    add(&mut set, two(DrawingKind::Ray, "r1", pt(0, 0.0), pt(100, 50.0)));
    assert!(set.remove(&id("r1")));
    assert_eq!(set.len(), 0);
}

#[test]
fn drawing_set_all_rays() {
    let mut set = DrawingSet::new();
    add(&mut set, two(DrawingKind::Ray, "r1", pt(0, 0.0), pt(100, 50.0)));
    add(&mut set, two(DrawingKind::Ray, "r2", pt(200, 60.0), pt(300, 80.0)));
    assert_eq!(set.all(DrawingKind::Ray).len(), 2);
}

#[test]
fn drawing_set_add_segment() {
    let mut set = DrawingSet::new();
    add(&mut set, two(DrawingKind::Segment, "s1", pt(0, 0.0), pt(100, 50.0)));
    assert_eq!(set.len(), 1);
    assert!(has(&set, DrawingKind::Segment, "s1"));
}

#[test]
fn drawing_set_remove_segment() {
    let mut set = DrawingSet::new();
    add(&mut set, two(DrawingKind::Segment, "s1", pt(0, 0.0), pt(100, 50.0)));
    assert!(set.remove(&id("s1")));
    assert_eq!(set.len(), 0);
}

#[test]
fn drawing_set_all_segments() {
    let mut set = DrawingSet::new();
    add(&mut set, two(DrawingKind::Segment, "s1", pt(0, 0.0), pt(100, 50.0)));
    add(&mut set, two(DrawingKind::Segment, "s2", pt(200, 60.0), pt(300, 80.0)));
    assert_eq!(set.all(DrawingKind::Segment).len(), 2);
}

// Lookup goes by kind and id: the same id under another kind is not found.
#[test]
fn get_matches_kind_and_id() {
    let mut set = DrawingSet::new();
    add(&mut set, trend_line("x", pt(0, 0.0), pt(1, 1.0)));
    add(&mut set, horizontal_line("x", 5.0));
    add(&mut set, horizontal_line("y", 6.0));
    assert_eq!(set.get(DrawingKind::HorizontalLine, &id("x")), Some(&Shape::Price(5.0)));
    assert_eq!(set.get(DrawingKind::HorizontalLine, &id("y")), Some(&Shape::Price(6.0)));
    assert!(set.get(DrawingKind::VerticalLine, &id("x")).is_none());
    assert_eq!(set.find(&id("x")), Some(0));
    assert_eq!(set.find(&id("y")), Some(2));
    assert_eq!(set.find(&id("z")), None);
}

// Removing by id takes the first drawing with that id, of any kind.
#[test]
fn remove_takes_first_with_id() {
    let mut set = DrawingSet::new();
    add(&mut set, trend_line("x", pt(0, 0.0), pt(1, 1.0)));
    add(&mut set, horizontal_line("x", 5.0));
    assert!(set.remove(&id("x")));
    assert_eq!(set.len(), 1);
    assert!(!has(&set, DrawingKind::TrendLine, "x"));
    assert!(has(&set, DrawingKind::HorizontalLine, "x"));
}

// `all` keeps the order of addition and skips the other kinds.
#[test]
fn all_keeps_order() {
    let mut set = DrawingSet::new();
    add(&mut set, horizontal_line("h1", 1.0));
    add(&mut set, vertical_line("v1", 7));
    add(&mut set, horizontal_line("h2", 2.0));
    let levels: Vec<Shape> = set.all(DrawingKind::HorizontalLine).into_iter().cloned().collect();
    assert_eq!(levels, vec![Shape::Price(1.0), Shape::Price(2.0)]);
    assert_eq!(set.all_raw().len(), 3);
    assert_eq!(set.all_raw()[1].id, id("v1"));
}

// A drawing changed in place keeps its kind and id.
#[test]
fn drawing_at_mut_changes_in_place() {
    let mut set = DrawingSet::new();
    add(&mut set, horizontal_line("h1", 1.0));
    add(&mut set, horizontal_line("h2", 2.0));
    let i = set.find(&id("h2")).unwrap();
    *set.drawing_at_mut(i) = Shape::Price(9.0);
    assert_eq!(set.get(DrawingKind::HorizontalLine, &id("h2")), Some(&Shape::Price(9.0)));
    assert_eq!(set.get(DrawingKind::HorizontalLine, &id("h1")), Some(&Shape::Price(1.0)));
    assert_eq!(set.len(), 2);
}

// Removing a freshly added drawing gives the set back as it was.
#[test]
fn remove_undoes_add() {
    let mut set = DrawingSet::new();
    add(&mut set, horizontal_line("h1", 1.0));
    add(&mut set, vertical_line("v1", 3));
    assert!(set.remove(&id("v1")));
    assert_eq!(set.len(), 1);
    assert_eq!(set.all_raw()[0].id, id("h1"));
    assert_eq!(set.find(&id("v1")), None);
}
