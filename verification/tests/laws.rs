use geometry::Point2;
use geometry::Point3;
use geometry::Vector2;
use geometry::Vector3;

#[test]
fn eq_reflexive_and_symmetric() {
    let v = Vector2(3, -7);
    assert!(&v == &v);
    let w = Vector2(3, 8);
    assert_eq!(&v == &w, &w == &v);
    let u = Vector3(1, 2, 3);
    assert!(&u == &u);
    let p = Point2(5, 6);
    assert!(&p == &p);
    let q = Point3(5, 6, 7);
    assert!(&q == &q);
}

#[test]
fn ne_negates_eq_single_component_differs() {
    // One component differs while the other matches: the vectors must
    // compare unequal, not "not all components differ".
    let v = Vector2(1, 0);
    let w = Vector2(1, 2);
    assert_eq!(&v == &w, false);
    assert_eq!(&v != &w, true);
    let a = Vector3(1, 0, 5);
    let b = Vector3(1, 2, 5);
    assert_eq!(&a == &b, false);
    assert_eq!(&a != &b, true);
    let p = Point2(9, 1);
    let q = Point2(9, 2);
    assert_eq!(&p != &q, true);
    let r = Point3(9, 1, 4);
    let s = Point3(9, 2, 4);
    assert_eq!(&r != &s, true);
}

#[test]
fn ne_is_logical_negation_of_eq() {
    let pairs2 = [
        (Vector2(1, 2), Vector2(1, 2)),
        (Vector2(1, 2), Vector2(1, 3)),
        (Vector2(1, 2), Vector2(0, 2)),
        (Vector2(1, 2), Vector2(3, 4)),
    ];
    for (v, w) in pairs2 {
        assert_eq!(&v != &w, !(&v == &w));
    }
    let pairs3 = [
        (Point3(1, 2, 3), Point3(1, 2, 3)),
        (Point3(1, 2, 3), Point3(1, 2, 4)),
        (Point3(1, 2, 3), Point3(0, 2, 3)),
        (Point3(1, 2, 3), Point3(4, 5, 6)),
    ];
    for (p, q) in pairs3 {
        assert_eq!(&p != &q, !(&p == &q));
    }
}

#[test]
fn neg_self_inverse() {
    let v = Vector2(4, -9);
    assert_eq!(-(-v), v);
    let w = Vector3(4, -9, 17);
    assert_eq!(-(-w), w);
}

#[test]
fn add_sub_round_trip() {
    let v = Vector2(10, -3);
    let w = Vector2(7, 22);
    assert_eq!((v + w) - w, v);
    let a = Vector3(10, -3, 4);
    let b = Vector3(7, 22, -5);
    assert_eq!((a + b) - b, a);
}

#[test]
fn mul_div_round_trip() {
    let v = Vector2(10, -4);
    assert_eq!((v * 2) / 2, v);
    let w = Vector3(9, -6, 12);
    assert_eq!((w * 3) / 3, w);
    let f = Vector2(1.5, -2.25);
    assert_eq!((f * 4.0) / 4.0, f);
}

#[test]
fn translation_round_trip() {
    let p = Point2(3, 5);
    let v = Vector2(11, -2);
    assert_eq!((p + v) - v, p);
    assert_eq!((p - v) + v, p);
    let q = Point3(3, 5, 7);
    let w = Vector3(11, -2, 6);
    assert_eq!((q + w) - w, q);
    assert_eq!((q - w) + w, q);
}

#[test]
fn displacement_consistency() {
    let p1 = Point2(2, 3);
    let p2 = Point2(7, -1);
    let v = p2 - p1;
    assert_eq!(v, Vector2(5, -4));
    assert_eq!(p1 + v, p2);
    let q1 = Point3(2, 3, 4);
    let q2 = Point3(7, -1, 10);
    let w = q2 - q1;
    assert_eq!(w, Vector3(5, -4, 6));
    assert_eq!(q1 + w, q2);
}

#[test]
fn dot_vec2() {
    assert_eq!(Vector2(1, 2).dot(Vector2(3, 4)), 11);
    assert_eq!(Vector2(1, 0).dot(Vector2(0, 1)), 0);
}

#[test]
fn dot_vec3() {
    assert_eq!(Vector3(1, 2, 3).dot(Vector3(4, 5, 6)), 32);
    assert_eq!(Vector3(1, 0, 0).dot(Vector3(0, 1, 0)), 0);
}

#[test]
fn dot_symmetric() {
    let v = Vector2(3, -2);
    let w = Vector2(5, 7);
    assert_eq!(v.dot(w), w.dot(v));
    let a = Vector3(3, -2, 8);
    let b = Vector3(5, 7, -1);
    assert_eq!(a.dot(b), b.dot(a));
}

#[test]
fn dot_distributes_over_add() {
    let v = Vector2(3, -2);
    let w = Vector2(5, 7);
    let u = Vector2(-4, 6);
    assert_eq!((v + w).dot(u), v.dot(u) + w.dot(u));
    let a = Vector3(3, -2, 8);
    let b = Vector3(5, 7, -1);
    let c = Vector3(-4, 6, 2);
    assert_eq!((a + b).dot(c), a.dot(c) + b.dot(c));
}
