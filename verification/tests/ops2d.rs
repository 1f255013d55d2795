use geometry::Point2;
use geometry::Vector2;

#[test]
fn eq_vec2() {
    let v = Vector2(1, 0);
    let w = Vector2(1, 0);
    assert_eq!(&v == &w, true);
    assert_eq!(&v != &w, false);
}

#[test]
fn ne_vec2() {
    let v = Vector2(1, 0);
    let w = Vector2(0, 1);
    assert_eq!(&v == &w, false);
    assert_eq!(&v != &w, true);
}

#[test]
fn neg_vec2() {
    assert_eq!(-Vector2(1, 1), Vector2(-1, -1));
}

#[test]
fn add_sub_vec2() {
    assert_eq!(Vector2(1, 1) + Vector2(2, 3), Vector2(3, 4));
    assert_eq!(Vector2(1, 1) - Vector2(2, 3), Vector2(-1, -2));
}

#[test]
fn add_sub_assign_vec2() {
    let mut v = Vector2(1, 1);
    v.add_assign(Vector2(2, 3));
    assert_eq!(v, Vector2(3, 4));
    v.sub_assign(Vector2(2, 3) * 2);
    assert_eq!(v, Vector2(-1, -2));
}

#[test]
fn mul_div_vec2() {
    assert_eq!(Vector2(1, 1) * 2, Vector2(2, 2));
    assert_eq!(Vector2(1.0, 1.0) / 2.0, Vector2(0.5, 0.5));
}

#[test]
fn mul_div_assign_vec2() {
    let mut v = Vector2(1.0, 1.0);
    v.mul_assign(2.0);
    assert_eq!(v, Vector2(2.0, 2.0));
    v.div_assign(4.0);
    assert_eq!(v, Vector2(0.5, 0.5));
}

#[test]
fn eq_point2() {
    let a = Point2(1, 0);
    let b = Point2(1, 0);
    assert_eq!(&a == &b, true);
    assert_eq!(&a != &b, false);
}

#[test]
fn ne_point2() {
    let a = Point2(1, 0);
    let b = Point2(0, 1);
    assert_eq!(&a == &b, false);
    assert_eq!(&a != &b, true);
}

#[test]
fn add_sub_point2_vec2() {
    assert_eq!(Point2(1, 1) + Vector2(2, 3), Point2(3, 4));
    assert_eq!(Point2(1, 1) - Vector2(2, 3), Point2(-1, -2));
}

#[test]
fn add_sub_assign_point2_vec2() {
    let mut p = Point2(1, 1);
    p.add_assign(Vector2(2, 3));
    assert_eq!(p, Point2(3, 4));
    p.sub_assign(Vector2(2, 3) * 2);
    assert_eq!(p, Point2(-1, -2));
}

#[test]
fn sub_point2() {
    assert_eq!(Point2(1, 1) - Point2(2, 2), Vector2(-1, -1));
}
