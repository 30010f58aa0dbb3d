use raymath::Vec3;

#[test]
fn vec3_new() {
    let v = Vec3::new(1, 2, 3);
    assert_eq!(v, Vec3::new(1, 2, 3));
    assert_eq!(v.x(), 1);
    assert_eq!(v.y(), 2);
    assert_eq!(v.z(), 3);
}

#[test]
fn vec3_index() {
    let v = Vec3::new(1, 2, 3);

    assert_eq!(v.get(0).unwrap(), v.x());
    assert_eq!(v.get(0).unwrap(), v.r());
    assert_eq!(v.get(1).unwrap(), v.y());
    assert_eq!(v.get(1).unwrap(), v.g());
    assert_eq!(v.get(2).unwrap(), v.z());
    assert_eq!(v.get(2).unwrap(), v.b());
}

#[test]
fn vec3_index_mut() {
    let mut v = Vec3::new(0, 0, 0);
    v.set(0, 1).unwrap();
    v.set(1, 2).unwrap();
    v.set(2, 3).unwrap();

    for i in 0..3usize {
        assert_eq!(v.get(i).unwrap(), (i + 1) as i64);
    }
}

#[test]
fn vec3_add() {
    let a = Vec3::new(1, 2, 3);
    let b = Vec3::new(4, 5, 6);
    let v = a.add(b);
    for i in 0..3usize {
        assert_eq!(v.get(i).unwrap(), (2 * (i + 2) + 1) as i64);
    }
}

#[test]
fn vec3_sub() {
    let a = Vec3::new(1, 2, 3);
    let b = Vec3::new(4, 5, 6);
    let v = b.sub(a);
    for i in 0..3usize {
        assert_eq!(v.get(i).unwrap(), 3);
    }
}

#[test]
fn vec3_mul() {
    let a = Vec3::new(1, 2, 3);
    let v = a.scale(2);
    for i in 0..3usize {
        assert_eq!(v.get(i).unwrap(), (i + 1) as i64 * 2);
    }
}

#[test]
fn vec3_len() {
    let v = Vec3::new(3, 4, 12);
    assert_eq!(v.squared_length(), 13 * 13);
}

#[test]
fn vec3_cross() {
    let a = Vec3::new(1, 0, 0);
    let b = Vec3::new(0, 1, 0);
    // Check perpendicular
    assert_eq!(a.cross_product(b), Vec3::new(0, 0, 1));

    // check random
    let i = Vec3::new(1, 2, 3);
    let j = Vec3::new(3, 2, 1);
    assert_eq!(i.cross_product(j), Vec3::new(-4, 8, -4));
}
