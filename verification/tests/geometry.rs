//! Tests for the fixed-point vector algebra and the box overlap test.

use rusty_pong::math::Vector2f;
use rusty_pong::rect::Rect;

#[test]
fn vector_new_and_accessors() {
    let v = Vector2f::new(3, -4);
    assert_eq!(v.x, 3);
    assert_eq!(v.y, -4);
}

#[test]
fn vector_plus_minus() {
    let a = Vector2f::new(10, 20);
    let b = Vector2f::new(-3, 5);
    let s = a.plus(&b);
    assert_eq!((s.x, s.y), (7, 25));
    let d = a.minus(&b);
    assert_eq!((d.x, d.y), (13, 15));
}

#[test]
fn vector_scaled_and_times() {
    let v = Vector2f::new(3, -4);
    let s = v.scaled(100);
    assert_eq!((s.x, s.y), (300, -400));
    let t = v.times(&Vector2f::new(-2, 5));
    assert_eq!((t.x, t.y), (-6, -20));
}

#[test]
fn vector_divided_rounds_towards_zero() {
    let v = Vector2f::new(-7, 7);
    let q = v.divided(&Vector2f::new(2, -2));
    assert_eq!((q.x, q.y), (-3, -3));
    let w = Vector2f::new(9, -9);
    let q = w.divided(&Vector2f::new(3, 3));
    assert_eq!((q.x, q.y), (3, -3));
}

#[test]
fn vector_dot() {
    let a = Vector2f::new(3, 4);
    let b = Vector2f::new(-2, 5);
    assert_eq!(a.dot(&b), 14);
}

#[test]
fn vector_magnitude_exact() {
    assert_eq!(Vector2f::new(3, 4).magnitude(), 5);
    assert_eq!(Vector2f::new(0, 0).magnitude(), 0);
    assert_eq!(Vector2f::new(-600, 800).magnitude(), 1000);
}

#[test]
fn vector_magnitude_rounds_down() {
    // 2^2 + 2^2 = 8, and floor(sqrt(8)) = 2.
    assert_eq!(Vector2f::new(2, 2).magnitude(), 2);
}

#[test]
fn vector_distance() {
    let a = Vector2f::new(1000, 2000);
    let b = Vector2f::new(4000, 6000);
    assert_eq!(a.distance_to(&b), 5000);
}

#[test]
fn vector_normalized() {
    let v = Vector2f::new(3000, -4000);
    let n = v.normalized();
    assert_eq!((n.x, n.y), (600, -800));
}

#[test]
fn vector_normalize_in_place() {
    let mut v = Vector2f::new(0, 250);
    v.normalize();
    assert_eq!((v.x, v.y), (0, 1000));
}

#[test]
fn from_angle_cardinal_directions() {
    let right = Vector2f::from_angle(0);
    assert_eq!((right.x, right.y), (1000, 0));
    let down = Vector2f::from_angle(90);
    assert_eq!((down.x, down.y), (0, 1000));
    let left = Vector2f::from_angle(180);
    assert_eq!((left.x, left.y), (-1000, 0));
    let up = Vector2f::from_angle(270);
    assert_eq!((up.x, up.y), (0, -1000));
}

#[test]
fn trig_exact_at_thirty_degrees() {
    // Bhaskara's approximation is exact where the sine is one half.
    assert_eq!(rusty_pong::math::sin_deg(30), 500);
    assert_eq!(rusty_pong::math::cos_deg(60), 500);
}

#[test]
fn reflection_across_axis_normals() {
    let v = Vector2f::new(123, 456);
    let r = v.reflected(&Vector2f::down());
    assert_eq!((r.x, r.y), (123, -456));
    let r = v.reflected(&Vector2f::up());
    assert_eq!((r.x, r.y), (123, -456));
    let r = v.reflected(&Vector2f::left());
    assert_eq!((r.x, r.y), (-123, 456));
    let r = v.reflected(&Vector2f::right());
    assert_eq!((r.x, r.y), (-123, 456));
}

#[test]
fn reflection_in_place() {
    let mut v = Vector2f::new(700, -300);
    v.reflect(&Vector2f::up());
    assert_eq!((v.x, v.y), (700, 300));
}

#[test]
fn reflection_preserves_magnitude_oblique_normal() {
    // (600, 800) is a unit normal in fixed point: 600^2 + 800^2 = 1000^2.
    let n = Vector2f::new(600, 800);
    let v = Vector2f::new(300, 400);
    let r = v.reflected(&n);
    assert_eq!((r.x, r.y), (-300, -400));
    assert_eq!(r.x * r.x + r.y * r.y, v.x * v.x + v.y * v.y);
}

#[test]
fn rect_accessors() {
    let r = Rect::new(10, 20, 110, 220);
    assert_eq!(r.width(), 100);
    assert_eq!(r.height(), 200);
    assert_eq!(r.center_x(), 60);
    assert_eq!(r.center_y(), 120);
    let c = r.center();
    assert_eq!((c.x, c.y), (60, 120));
}

#[test]
fn rect_intersects_overlapping() {
    let a = Rect::new(0, 0, 100, 100);
    let b = Rect::new(50, 50, 150, 150);
    assert!(a.intersects(&b));
}

#[test]
fn rect_intersects_symmetric() {
    let cases = [
        (Rect::new(0, 0, 100, 100), Rect::new(50, 50, 150, 150)),
        (Rect::new(0, 0, 100, 100), Rect::new(200, 200, 300, 300)),
        (Rect::new(0, 0, 100, 100), Rect::new(100, 0, 200, 100)),
        (Rect::new(-50, -50, 10, 10), Rect::new(0, 0, 5, 5)),
    ];
    for (a, b) in cases.iter() {
        assert_eq!(a.intersects(b), b.intersects(a));
    }
}

#[test]
fn rect_touching_edges_do_not_intersect() {
    let a = Rect::new(0, 0, 100, 100);
    let share_vertical_edge = Rect::new(100, 0, 200, 100);
    assert!(!a.intersects(&share_vertical_edge));
    assert!(!share_vertical_edge.intersects(&a));
    let share_horizontal_edge = Rect::new(0, 100, 100, 200);
    assert!(!a.intersects(&share_horizontal_edge));
    assert!(!share_horizontal_edge.intersects(&a));
}
