use raymath::Ray;
use raymath::Vec3;

#[test]
fn ray_new() {
    let a = Vec3::new(0, 0, 0);
    let b = Vec3::new(1, 0, 0);
    let r = Ray::new(a, b);
    assert_eq!(r, Ray::new(a, b))
}

#[test]
fn ray_origin_direction() {
    let a = Vec3::new(0, 0, 0);
    let b = Vec3::new(1, 0, 0);
    let r = Ray::new(a, b);
    assert_eq!(r.origin(), &a);
    assert_eq!(r.direction(), &b);
}

#[test]
fn ray_point_at_param() {
    let a = Vec3::new(0, 0, 0);
    let b = Vec3::new(1, 0, 0);
    let r = Ray::new(a, b);
    assert_eq!(r.point_at_param(2), a.add(b.scale(2)));
}
