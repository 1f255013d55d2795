use geometry::Point3;
use geometry::Vector3;

#[test]
fn eq_vec3() {
    let v = Vector3(1, 0, -1);
    let w = Vector3(1, 0, -1);
    assert_eq!(&v == &w, true);
    assert_eq!(&v != &w, false);
}

#[test]
fn ne_vec3() {
    let v = Vector3(1, 0, -1);
    let w = Vector3(0, 1, -1);
    assert_eq!(&v == &w, false);
    assert_eq!(&v != &w, true);
}

#[test]
fn neg_vec3() {
    assert_eq!(-Vector3(1, 1, 1), Vector3(-1, -1, -1));
}

#[test]
fn add_sub_vec3() {
    assert_eq!(Vector3(1, 1, 1) + Vector3(2, 3, 4), Vector3(3, 4, 5));
    assert_eq!(Vector3(1, 1, 1) - Vector3(2, 3, 4), Vector3(-1, -2, -3));
}

#[test]
fn add_sub_assign_vec3() {
    let mut v = Vector3(1, 1, 1);
    v.add_assign(Vector3(2, 3, 4));
    assert_eq!(v, Vector3(3, 4, 5));
    v.sub_assign(Vector3(2, 3, 4) * 2);
    assert_eq!(v, Vector3(-1, -2, -3));
}

#[test]
fn mul_div_vec3() {
    assert_eq!(Vector3(1, 1, 1) * 2, Vector3(2, 2, 2));
    assert_eq!(Vector3(1.0, 1.0, 1.0) / 2.0, Vector3(0.5, 0.5, 0.5));
}

#[test]
fn mul_div_assign_vec3() {
    let mut v = Vector3(1.0, 1.0, 1.0);
    v.mul_assign(2.0);
    assert_eq!(v, Vector3(2.0, 2.0, 2.0));
    v.div_assign(4.0);
    assert_eq!(v, Vector3(0.5, 0.5, 0.5));
}

#[test]
fn eq_point3() {
    let a = Point3(1, 0, -1);
    let b = Point3(1, 0, -1);
    assert_eq!(&a == &b, true);
    assert_eq!(&a != &b, false);
}

#[test]
fn ne_point3() {
    let a = Point3(1, 0, -1);
    let b = Point3(0, 1, -1);
    assert_eq!(&a == &b, false);
    assert_eq!(&a != &b, true);
}

#[test]
fn add_sub_point3_vec3() {
    assert_eq!(Point3(1, 1, 1) + Vector3(2, 3, 4), Point3(3, 4, 5));
    assert_eq!(Point3(1, 1, 1) - Vector3(2, 3, 4), Point3(-1, -2, -3));
}

#[test]
fn add_sub_assign_point3_vec3() {
    let mut p = Point3(1, 1, 1);
    p.add_assign(Vector3(2, 3, 4));
    assert_eq!(p, Point3(3, 4, 5));
    p.sub_assign(Vector3(2, 3, 4) * 2);
    assert_eq!(p, Point3(-1, -2, -3));
}

#[test]
fn sub_point3() {
    assert_eq!(Point3(1, 1, 1) - Point3(2, 2, 2), Vector3(-1, -1, -1));
}
