use vec3::Vector3;

#[test]
fn it_works() {
    assert_eq!(2 + 2, 4);
}

#[test]
fn make() {
    let a: Vector3<i64> = Vector3(1, 2, 3);
    assert_eq!(a.0, 1);
    assert_eq!(a.1, 2);
    assert_eq!(a.2, 3);
}

#[test]
fn add() {
    let a: Vector3<i64> = Vector3(1, 2, 3).add(Vector3(2, 3, 4));

    assert_eq!(a.0, 3);
    assert_eq!(a.1, 5);
    assert_eq!(a.2, 7);
}

#[test]
fn sub() {
    let a: Vector3<i64> = Vector3(2, 3, 4).sub(Vector3(1, 2, 3));

    assert_eq!(a.0, 1);
    assert_eq!(a.1, 1);
    assert_eq!(a.2, 1);
}

#[test]
fn mul() {
    let a: Vector3<i64> = Vector3::scale(2, Vector3(1, 2, 3));

    assert_eq!(a.0, 2);
    assert_eq!(a.1, 4);
    assert_eq!(a.2, 6);
}

#[test]
fn norm2() {
    let a: Vector3<i64> = Vector3(1, 2, 3);

    assert_eq!(a.norm2(), 14);
}

#[test]
fn dot() {
    let a: Vector3<i64> = Vector3(1, 2, 3);
    let b: Vector3<i64> = Vector3(2, 3, 4);

    assert_eq!(a.dot(b), 20);
}

#[test]
fn cross() {
    let a: Vector3<i64> = Vector3(1, 0, 0);
    let b: Vector3<i64> = Vector3(0, 2, 0);

    assert_eq!(a.cross(b).0, 0);
    assert_eq!(a.cross(b).1, 0);
    assert_eq!(a.cross(b).2, 2);
}

#[test]
fn add_commutes() {
    let a: Vector3<i64> = Vector3(5, -7, 11);
    let b: Vector3<i64> = Vector3(-2, 9, 4);
    let ab: Vector3<i64> = a.add(b);
    let ba: Vector3<i64> = b.add(a);

    assert_eq!(ab.0, ba.0);
    assert_eq!(ab.1, ba.1);
    assert_eq!(ab.2, ba.2);
}

#[test]
fn add_associates() {
    let a: Vector3<i64> = Vector3(1, -2, 3);
    let b: Vector3<i64> = Vector3(10, 20, -30);
    let c: Vector3<i64> = Vector3(-4, 5, 6);
    let left: Vector3<i64> = a.add(b).add(c);
    let right: Vector3<i64> = a.add(b.add(c));

    assert_eq!(left.0, right.0);
    assert_eq!(left.1, right.1);
    assert_eq!(left.2, right.2);
}

#[test]
fn add_zero_identity() {
    let a: Vector3<i64> = Vector3(8, -15, 0);
    let zero: Vector3<i64> = Vector3(0, 0, 0);
    let left: Vector3<i64> = a.add(zero);
    let right: Vector3<i64> = zero.add(a);

    assert_eq!(left.0, 8);
    assert_eq!(left.1, -15);
    assert_eq!(left.2, 0);
    assert_eq!(right.0, 8);
    assert_eq!(right.1, -15);
    assert_eq!(right.2, 0);
}

#[test]
fn cross_anticommutes() {
    let a: Vector3<i64> = Vector3(2, -3, 5);
    let b: Vector3<i64> = Vector3(7, 1, -4);
    let ab: Vector3<i64> = a.cross(b);
    let ba: Vector3<i64> = b.cross(a);

    assert_eq!(ab.0, -ba.0);
    assert_eq!(ab.1, -ba.1);
    assert_eq!(ab.2, -ba.2);
}

#[test]
fn cross_self_is_zero() {
    let a: Vector3<i64> = Vector3(9, -6, 13);
    let c: Vector3<i64> = a.cross(a);

    assert_eq!(c.0, 0);
    assert_eq!(c.1, 0);
    assert_eq!(c.2, 0);
}

#[test]
fn cross_exact_value() {
    let a: Vector3<i64> = Vector3(1, 2, 3);
    let b: Vector3<i64> = Vector3(2, 3, 4);
    let c: Vector3<i64> = a.cross(b);

    assert_eq!(c.0, -1);
    assert_eq!(c.1, 2);
    assert_eq!(c.2, -1);
}

#[test]
fn norm2_matches_dot_self() {
    let a: Vector3<i64> = Vector3(3, -4, 12);

    assert_eq!(a.norm2(), a.dot(a));
    assert_eq!(a.norm2(), 169);
}

#[test]
fn i32_components() {
    let a: Vector3<i32> = Vector3(1, 2, 3);
    let b: Vector3<i32> = Vector3(2, 3, 4);

    assert_eq!(a.add(b).1, 5);
    assert_eq!(b.sub(a).2, 1);
    assert_eq!(a.dot(b), 20);
    assert_eq!(a.norm2(), 14);
    assert_eq!(a.cross(b).0, -1);
    assert_eq!(Vector3::scale(3, a).2, 9);
}

#[test]
fn extreme_components() {
    let big: Vector3<i64> = Vector3(i64::MAX, i64::MIN + 1, 0);
    let zero: Vector3<i64> = Vector3(0, 0, 0);
    let kept: Vector3<i64> = big.add(zero);

    assert_eq!(kept.0, i64::MAX);
    assert_eq!(kept.1, i64::MIN + 1);
    assert_eq!(kept.2, 0);

    let gone: Vector3<i64> = big.sub(big);
    assert_eq!(gone.0, 0);
    assert_eq!(gone.1, 0);
    assert_eq!(gone.2, 0);

    let same: Vector3<i64> = Vector3::scale(1, big);
    assert_eq!(same.0, i64::MAX);
    assert_eq!(same.1, i64::MIN + 1);
    assert_eq!(same.2, 0);
}
