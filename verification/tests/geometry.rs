use tracer::geometry::aabb::{Aabb, Slab};
use tracer::geometry::constant_medium::ConstantMedium;
use tracer::geometry::cornell_box::CornellBox;
use tracer::geometry::hittable::HittableList;
use tracer::geometry::moving_sphere::MovingSphere;
use tracer::geometry::rotate_y::RotateY;
use tracer::geometry::sphere::Sphere;
use tracer::geometry::translate::Translate;
use tracer::geometry::xy_rect::XyRect;
use tracer::geometry::xz_rect::XzRect;
use tracer::geometry::yz_rect::YzRect;
use tracer::geometry::Geometry;
use tracer::intersection::hit_record::HitRecord;
use tracer::intersection::ray::Ray;
use tracer::scalar::Scalar;
use tracer::vec3::Vec3;

fn s(x: f32) -> Scalar {
    Scalar::from_bits(x.to_bits())
}

fn f(x: Scalar) -> f32 {
    f32::from_bits(x.to_bits())
}

fn v(x: f32, y: f32, z: f32) -> Vec3 {
    Vec3::new(s(x), s(y), s(z))
}

fn slab(min: f32, max: f32, origin: f32, direction: f32) -> Slab {
    let inv_d = 1.0 / direction;
    Slab::new(s(inv_d), s((min - origin) * inv_d), s((max - origin) * inv_d))
}

fn box_hit(b: &Aabb, origin: [f32; 3], direction: [f32; 3], t_min: f32, t_max: f32) -> bool {
    Aabb::hit(
        slab(f(b.min.x), f(b.max.x), origin[0], direction[0]),
        slab(f(b.min.y), f(b.max.y), origin[1], direction[1]),
        slab(f(b.min.z), f(b.max.z), origin[2], direction[2]),
        s(t_min),
        s(t_max),
    )
}

#[test]
fn surrounding_box_takes_extrema() {
    let a = Aabb::new(v(0.0, 0.0, 0.0), v(1.0, 1.0, 1.0));
    let b = Aabb::new(v(-1.0, 0.5, 0.25), v(0.5, 3.0, 0.75));
    let u = Aabb::surrounding_box(&a, &b);
    assert_eq!(u, Aabb::new(v(-1.0, 0.0, 0.0), v(1.0, 3.0, 1.0)));
}

#[test]
fn surrounding_box_is_commutative_and_idempotent() {
    let boxes = vec![
        Aabb::new(v(0.0, 0.0, 0.0), v(1.0, 1.0, 1.0)),
        Aabb::new(v(-1.0, 0.5, 0.25), v(0.5, 3.0, 0.75)),
        Aabb::new(v(-0.0, 2.0, -7.0), v(0.0, 2.0001, 9.5)),
        Aabb::new(v(5.0, 5.0, 5.0), v(5.0, 5.0, 5.0)),
    ];
    for a in &boxes {
        for b in &boxes {
            assert_eq!(Aabb::surrounding_box(a, b), Aabb::surrounding_box(b, a));
        }
        assert_eq!(Aabb::surrounding_box(a, a), *a);
    }
}

#[test]
fn aabb_hit_through_the_centre() {
    let b = Aabb::new(v(-1.0, -2.0, -3.0), v(3.0, 2.0, 1.0));
    let centre = [1.0f32, 0.0, -1.0];
    let directions = [
        [1.0f32, 0.0, 0.0],
        [0.0, 1.0, 0.0],
        [0.0, 0.0, -1.0],
        [1.0, 1.0, 1.0],
        [-0.3, 0.7, 0.2],
        [2.0, -5.0, 0.5],
    ];
    for d in directions {
        let origin = [centre[0] - 10.0 * d[0], centre[1] - 10.0 * d[1], centre[2] - 10.0 * d[2]];
        assert!(box_hit(&b, origin, d, 0.001, f32::INFINITY), "direction {:?}", d);
    }
}

#[test]
fn aabb_hit_misses_when_pointing_away() {
    let b = Aabb::new(v(-1.0, -1.0, -1.0), v(1.0, 1.0, 1.0));
    assert!(!box_hit(&b, [5.0, 0.0, 0.0], [1.0, 0.0, 0.0], 0.001, f32::INFINITY));
    assert!(!box_hit(&b, [5.0, 5.0, 5.0], [1.0, 2.0, 3.0], 0.001, f32::INFINITY));
    assert!(!box_hit(&b, [0.0, -4.0, 0.0], [0.1, -1.0, 0.1], 0.001, f32::INFINITY));
}

#[test]
fn aabb_hit_respects_the_window() {
    let b = Aabb::new(v(-1.0, -1.0, -1.0), v(1.0, 1.0, 1.0));
    // the ray enters at t = 4 and leaves at t = 6
    assert!(box_hit(&b, [-5.0, 0.0, 0.0], [1.0, 0.2, 0.1], 0.0, 10.0));
    assert!(!box_hit(&b, [-5.0, 0.0, 0.0], [1.0, 0.0, 0.0], 0.0, 3.0));
    assert!(!box_hit(&b, [-5.0, 0.0, 0.0], [1.0, 0.0, 0.0], 7.0, 10.0));
}

#[test]
fn aabb_hit_needs_a_stretch_inside_all_slabs() {
    // the ray is between the x faces for t in (2, 3) and between the y faces
    // for t in (0.5, 1.5): it is never inside the box
    let b = Aabb::new(v(0.0, 0.0, 0.0), v(1.0, 1.0, 1.0));
    assert!(!box_hit(&b, [-2.0, 1.5, 0.5], [1.0, -1.0, 0.0], 0.001, f32::INFINITY));
    // moved down by one, the same ray crosses the box for t in (2, 2.5)
    assert!(box_hit(&b, [-2.0, 2.5, 0.5], [1.0, -1.0, 0.0], 0.001, f32::INFINITY));
    assert!(!box_hit(&b, [-2.0, 2.5, 0.5], [1.0, -1.0, 0.0], 2.5, f32::INFINITY));
    assert!(!box_hit(&b, [-2.0, 2.5, 0.5], [1.0, -1.0, 0.0], 0.001, 2.0));
}

#[test]
fn slab_narrows_a_window() {
    let forward = Slab::new(s(1.0), s(2.0), s(4.0));
    assert_eq!(forward.narrow(s(0.0), s(10.0)), (s(2.0), s(4.0)));
    assert_eq!(forward.narrow(s(3.0), s(3.5)), (s(3.0), s(3.5)));
    assert_eq!(forward.narrow(s(3.0), s(10.0)), (s(3.0), s(4.0)));
    let backward = Slab::new(s(-1.0), s(4.0), s(2.0));
    assert_eq!(backward.narrow(s(0.0), s(10.0)), (s(2.0), s(4.0)));
}

#[test]
fn slab_overlap_by_hand() {
    let forward = Slab::new(s(1.0), s(2.0), s(4.0));
    assert!(forward.overlaps(s(0.0), s(10.0)));
    assert!(forward.overlaps(s(3.0), s(3.5)));
    assert!(!forward.overlaps(s(4.0), s(10.0)));
    assert!(!forward.overlaps(s(0.0), s(2.0)));
    let backward = Slab::new(s(-1.0), s(4.0), s(2.0));
    assert!(backward.overlaps(s(0.0), s(10.0)));
    assert!(!backward.overlaps(s(4.0), s(10.0)));
    // a flat slab is never overlapped
    assert!(!Slab::new(s(1.0), s(3.0), s(3.0)).overlaps(s(0.0), s(10.0)));
}

fn sphere_roots(origin: [f32; 3], direction: [f32; 3], centre: [f32; 3], radius: f32) -> (f32, f32, f32) {
    let oc = [origin[0] - centre[0], origin[1] - centre[1], origin[2] - centre[2]];
    let a = direction[0] * direction[0] + direction[1] * direction[1] + direction[2] * direction[2];
    let half_b = oc[0] * direction[0] + oc[1] * direction[1] + oc[2] * direction[2];
    let c = oc[0] * oc[0] + oc[1] * oc[1] + oc[2] * oc[2] - radius * radius;
    let discriminant = half_b * half_b - a * c;
    let sqrtd = discriminant.sqrt();
    (discriminant, (-half_b - sqrtd) / a, (-half_b + sqrtd) / a)
}

#[test]
fn sphere_roots_of_a_ray_aimed_at_the_centre() {
    // unit direction from (0, 0, -5) to the centre at the origin, radius 2
    let (d, near, far) = sphere_roots([0.0, 0.0, -5.0], [0.0, 0.0, 1.0], [0.0, 0.0, 0.0], 2.0);
    assert!((near - 3.0).abs() < 1e-5);
    assert!((far - 7.0).abs() < 1e-5);
    let root = Sphere::select_root(s(d), s(near), s(far), s(0.001), s(f32::INFINITY));
    assert_eq!(root, Some(s(near)));
}

#[test]
fn sphere_root_selection() {
    // both in the window: the nearer one
    assert_eq!(Sphere::select_root(s(1.0), s(3.0), s(7.0), s(0.0), s(10.0)), Some(s(3.0)));
    // the nearer one lies before the window: the farther one
    assert_eq!(Sphere::select_root(s(1.0), s(3.0), s(7.0), s(4.0), s(10.0)), Some(s(7.0)));
    // the ends of the window count
    assert_eq!(Sphere::select_root(s(1.0), s(3.0), s(7.0), s(3.0), s(3.0)), Some(s(3.0)));
    assert_eq!(Sphere::select_root(s(1.0), s(3.0), s(7.0), s(7.0), s(7.0)), Some(s(7.0)));
    // neither in the window
    assert_eq!(Sphere::select_root(s(1.0), s(3.0), s(7.0), s(4.0), s(6.0)), None);
    assert_eq!(Sphere::select_root(s(1.0), s(3.0), s(7.0), s(8.0), s(9.0)), None);
    // the ray passes the sphere by
    assert_eq!(Sphere::select_root(s(-0.5), s(3.0), s(7.0), s(0.0), s(10.0)), None);
    // a grazing ray has a discriminant of zero and still hits
    assert_eq!(Sphere::select_root(s(0.0), s(5.0), s(5.0), s(0.0), s(10.0)), Some(s(5.0)));
}

#[test]
fn sphere_and_moving_sphere_hold_their_fields() {
    let sp = Sphere::new(v(1.0, 2.0, 3.0), s(0.5), 4);
    assert_eq!(sp.center, v(1.0, 2.0, 3.0));
    assert_eq!(sp.radius, s(0.5));
    assert_eq!(sp.material_index, 4);
    let ms = MovingSphere::new(v(0.0, 0.0, 0.0), v(0.0, 1.0, 0.0), s(0.25), 2);
    assert_eq!(ms.center0, v(0.0, 0.0, 0.0));
    assert_eq!(ms.center1, v(0.0, 1.0, 0.0));
    assert_eq!(ms.radius, s(0.25));
    assert_eq!(ms.material_index, 2);
}

#[test]
fn xy_rect_hit() {
    let r = XyRect::new(s(0.0), s(2.0), s(1.0), s(3.0), s(-2.0), 5);
    let got = r.hit(s(4.0), v(1.0, 2.0, -2.0), s(-1.0), s(0.5), s(0.5), s(0.001), s(100.0));
    assert_eq!(
        got,
        Some(HitRecord {
            root: s(4.0),
            position: v(1.0, 2.0, -2.0),
            normal: v(0.0, 0.0, 1.0),
            front_face: true,
            material_index: 5,
            u: s(0.5),
            v: s(0.5),
        })
    );
    // seen from behind, the normal is flipped
    let back = r.hit(s(4.0), v(1.0, 2.0, -2.0), s(1.0), s(0.5), s(0.5), s(0.001), s(100.0)).unwrap();
    assert!(!back.front_face);
    assert_eq!(back.normal, v(-0.0, -0.0, -1.0));
    // the edges count
    assert!(r.hit(s(4.0), v(0.0, 3.0, -2.0), s(-1.0), s(0.0), s(1.0), s(4.0), s(4.0)).is_some());
    // outside the extents
    assert!(r.hit(s(4.0), v(2.5, 2.0, -2.0), s(-1.0), s(0.5), s(0.5), s(0.001), s(100.0)).is_none());
    assert!(r.hit(s(4.0), v(1.0, 0.5, -2.0), s(-1.0), s(0.5), s(0.5), s(0.001), s(100.0)).is_none());
    // outside the window
    assert!(r.hit(s(4.0), v(1.0, 2.0, -2.0), s(-1.0), s(0.5), s(0.5), s(5.0), s(100.0)).is_none());
    assert!(r.hit(s(4.0), v(1.0, 2.0, -2.0), s(-1.0), s(0.5), s(0.5), s(0.0), s(3.0)).is_none());
}

#[test]
fn xz_rect_hit() {
    let r = XzRect::new(s(0.0), s(2.0), s(1.0), s(3.0), s(5.0), 1);
    let got = r.hit(s(1.5), v(1.0, 5.0, 2.0), s(-0.5), s(0.5), s(0.5), s(0.0), s(10.0)).unwrap();
    assert_eq!(got.normal, v(0.0, 1.0, 0.0));
    assert_eq!(got.material_index, 1);
    assert_eq!(got.root, s(1.5));
    assert!(r.hit(s(1.5), v(1.0, 5.0, 3.5), s(-0.5), s(0.5), s(0.5), s(0.0), s(10.0)).is_none());
    assert!(r.hit(s(1.5), v(-0.1, 5.0, 2.0), s(-0.5), s(0.5), s(0.5), s(0.0), s(10.0)).is_none());
}

#[test]
fn yz_rect_hit() {
    let r = YzRect::new(s(0.0), s(2.0), s(1.0), s(3.0), s(5.0), 7);
    let got = r.hit(s(1.5), v(5.0, 1.0, 2.0), s(-0.5), s(0.5), s(0.5), s(0.0), s(10.0)).unwrap();
    assert_eq!(got.normal, v(1.0, 0.0, 0.0));
    assert_eq!(got.material_index, 7);
    assert!(r.hit(s(1.5), v(5.0, 2.5, 2.0), s(-0.5), s(0.5), s(0.5), s(0.0), s(10.0)).is_none());
    assert!(r.hit(s(1.5), v(5.0, 1.0, 0.5), s(-0.5), s(0.5), s(0.5), s(0.0), s(10.0)).is_none());
}

#[test]
fn hit_record_orients_the_normal() {
    let n = v(0.0, 1.0, 0.0);
    let front = HitRecord::new(s(2.0), v(1.0, 1.0, 1.0), n, s(-0.5), 3, s(0.1), s(0.2));
    assert!(front.front_face);
    assert_eq!(front.normal, n);
    assert_eq!(front.root, s(2.0));
    assert_eq!(front.position, v(1.0, 1.0, 1.0));
    assert_eq!(front.material_index, 3);
    assert_eq!((front.u, front.v), (s(0.1), s(0.2)));
    let back = HitRecord::new(s(2.0), v(1.0, 1.0, 1.0), n, s(0.5), 3, s(0.1), s(0.2));
    assert!(!back.front_face);
    assert_eq!(back.normal, v(-0.0, -1.0, -0.0));
    // a ray that grazes the surface counts as coming from behind
    let grazing = HitRecord::new(s(2.0), v(1.0, 1.0, 1.0), n, s(0.0), 3, s(0.1), s(0.2));
    assert!(!grazing.front_face);
}

#[test]
fn set_face_normal_changes_only_the_normal() {
    let mut rec = HitRecord::new(s(2.0), v(1.0, 1.0, 1.0), v(0.0, 1.0, 0.0), s(-0.5), 3, s(0.1), s(0.2));
    rec.set_face_normal(s(0.25), v(1.0, 0.0, 0.0));
    assert!(!rec.front_face);
    assert_eq!(rec.normal, v(-1.0, -0.0, -0.0));
    assert_eq!(rec.root, s(2.0));
    assert_eq!(rec.position, v(1.0, 1.0, 1.0));
    assert_eq!(rec.material_index, 3);
    rec.set_face_normal(s(-0.25), v(1.0, 0.0, 0.0));
    assert!(rec.front_face);
    assert_eq!(rec.normal, v(1.0, 0.0, 0.0));
}

#[test]
fn nearer_picks_the_smaller_root() {
    let a = HitRecord::new(s(2.0), v(0.0, 0.0, 0.0), v(0.0, 1.0, 0.0), s(-1.0), 1, s(0.0), s(0.0));
    let b = HitRecord::new(s(3.0), v(0.0, 0.0, 0.0), v(0.0, 1.0, 0.0), s(-1.0), 2, s(0.0), s(0.0));
    assert_eq!(HitRecord::nearer(Some(a), Some(b)), Some(a));
    assert_eq!(HitRecord::nearer(Some(b), Some(a)), Some(a));
    assert_eq!(HitRecord::nearer(Some(a), None), Some(a));
    assert_eq!(HitRecord::nearer(None, Some(b)), Some(b));
    assert_eq!(HitRecord::nearer(None, None), None);
    // of two equally near hits the right one is reported
    let c = HitRecord { material_index: 9, ..a };
    assert_eq!(HitRecord::nearer(Some(a), Some(c)), Some(c));
}

#[test]
fn ray_holds_its_fields() {
    let r = Ray::new(v(1.0, 2.0, 3.0), v(0.0, 0.0, -1.0), s(0.5));
    assert_eq!(r.origin, v(1.0, 2.0, 3.0));
    assert_eq!(r.direction, v(0.0, 0.0, -1.0));
    assert_eq!(r.time, s(0.5));
}

#[test]
fn cornell_box_has_six_faces() {
    let b = CornellBox::new(v(1.0, 2.0, 3.0), v(4.0, 5.0, 6.0), 8);
    assert_eq!(b.min, v(1.0, 2.0, 3.0));
    assert_eq!(b.max, v(4.0, 5.0, 6.0));
    assert_eq!(b.sides.objects.len(), 6);
    let expect_xy = |g: &Geometry, k: f32| match g {
        Geometry::XyRect(r) => {
            assert_eq!((r.x0, r.x1, r.y0, r.y1), (s(1.0), s(4.0), s(2.0), s(5.0)));
            assert_eq!(r.k, s(k));
            assert_eq!(r.material_index, 8);
        }
        _ => panic!("not an xy rectangle"),
    };
    let expect_xz = |g: &Geometry, k: f32| match g {
        Geometry::XzRect(r) => {
            assert_eq!((r.x0, r.x1, r.z0, r.z1), (s(1.0), s(4.0), s(3.0), s(6.0)));
            assert_eq!(r.k, s(k));
            assert_eq!(r.material_index, 8);
        }
        _ => panic!("not an xz rectangle"),
    };
    let expect_yz = |g: &Geometry, k: f32| match g {
        Geometry::YzRect(r) => {
            assert_eq!((r.y0, r.y1, r.z0, r.z1), (s(2.0), s(5.0), s(3.0), s(6.0)));
            assert_eq!(r.k, s(k));
            assert_eq!(r.material_index, 8);
        }
        _ => panic!("not a yz rectangle"),
    };
    expect_xy(&b.sides.objects[0], 6.0);
    expect_xy(&b.sides.objects[1], 3.0);
    expect_xz(&b.sides.objects[2], 5.0);
    expect_xz(&b.sides.objects[3], 2.0);
    expect_yz(&b.sides.objects[4], 4.0);
    expect_yz(&b.sides.objects[5], 1.0);
    assert_eq!(b.bounding_box(), Some(Aabb::new(v(1.0, 2.0, 3.0), v(4.0, 5.0, 6.0))));
}

#[test]
fn rotate_y_box_is_around_the_corners() {
    let corners = [
        v(0.0, 0.0, 0.0),
        v(1.0, 0.0, -1.0),
        v(2.0, 0.0, 0.0),
        v(1.0, 0.0, 1.0),
        v(0.0, 3.0, 0.0),
        v(1.0, 3.0, -1.0),
        v(2.0, 3.0, 0.0),
        v(1.0, 3.0, 1.0),
    ];
    let inner = Box::new(Geometry::Sphere(Sphere::new(v(0.0, 0.0, 0.0), s(1.0), 0)));
    let r = RotateY::new(inner, s(0.70710677), s(0.70710677), Some(corners));
    assert!(r.has_box);
    assert_eq!(r.sin_theta, s(0.70710677));
    assert_eq!(r.cos_theta, s(0.70710677));
    assert_eq!(r.bbox, Aabb::new(v(0.0, 0.0, -1.0), v(2.0, 3.0, 1.0)));
    assert_eq!(r.bounding_box(), Some(Aabb::new(v(0.0, 0.0, -1.0), v(2.0, 3.0, 1.0))));
}

#[test]
fn rotate_y_without_a_box_reports_none() {
    let inner = Box::new(Geometry::Sphere(Sphere::new(v(0.0, 0.0, 0.0), s(1.0), 0)));
    let r = RotateY::new(inner, s(0.0), s(1.0), None);
    assert!(!r.has_box);
    assert_eq!(r.bbox, Aabb::new(v(0.0, 0.0, 0.0), v(0.0, 0.0, 0.0)));
    assert_eq!(r.bounding_box(), None);
}

#[test]
fn translate_holds_its_fields() {
    let inner = Box::new(Geometry::Sphere(Sphere::new(v(0.0, 0.0, 0.0), s(1.0), 0)));
    let t = Translate::new(inner, v(1.0, 2.0, 3.0));
    assert_eq!(t.offset, v(1.0, 2.0, 3.0));
    assert!(matches!(*t.object, Geometry::Sphere(_)));
}

#[test]
fn constant_medium_span() {
    // the ray is inside from 2 to 8; the window is wider
    assert_eq!(ConstantMedium::span(s(2.0), s(8.0), s(0.001), s(100.0)), Some((s(2.0), s(8.0))));
    // the window cuts both ends
    assert_eq!(ConstantMedium::span(s(2.0), s(8.0), s(3.0), s(5.0)), Some((s(3.0), s(5.0))));
    // the ray starts inside the medium
    assert_eq!(ConstantMedium::span(s(-4.0), s(8.0), s(-10.0), s(100.0)), Some((s(0.0), s(8.0))));
    // nothing is left
    assert_eq!(ConstantMedium::span(s(2.0), s(8.0), s(8.0), s(100.0)), None);
    assert_eq!(ConstantMedium::span(s(2.0), s(8.0), s(9.0), s(100.0)), None);
    assert_eq!(ConstantMedium::span(s(2.0), s(8.0), s(0.0), s(1.0)), None);
}

#[test]
fn constant_medium_scatter_point() {
    let boundary = Box::new(Geometry::Sphere(Sphere::new(v(0.0, 0.0, 0.0), s(1.0), 0)));
    let m = ConstantMedium::new(boundary, s(-100.0), 6);
    assert_eq!(m.neg_inv_density, s(-100.0));
    assert_eq!(m.phase_function, 6);
    let rec = m.scatter_point(s(1.5), s(2.0), s(3.0), v(1.0, 1.0, 1.0)).unwrap();
    assert_eq!(rec.root, s(3.0));
    assert_eq!(rec.position, v(1.0, 1.0, 1.0));
    assert_eq!(rec.normal, v(0.0, 0.0, 0.0));
    assert!(rec.front_face);
    assert_eq!(rec.material_index, 6);
    assert_eq!((rec.u, rec.v), (s(0.0), s(0.0)));
    // the free path ends exactly at the far side: still inside
    assert!(m.scatter_point(s(2.0), s(2.0), s(3.0), v(1.0, 1.0, 1.0)).is_some());
    // the free path is longer than the way through the medium
    assert!(m.scatter_point(s(2.5), s(2.0), s(3.0), v(1.0, 1.0, 1.0)).is_none());
}

#[test]
fn box_around_many_boxes() {
    let a = Aabb::new(v(0.0, 0.0, 0.0), v(1.0, 1.0, 1.0));
    let b = Aabb::new(v(-1.0, 0.5, 0.25), v(0.5, 3.0, 0.75));
    let c = Aabb::new(v(2.0, 2.0, 2.0), v(3.0, 3.0, 3.0));
    assert_eq!(Aabb::surrounding_all(&vec![]), None);
    assert_eq!(Aabb::surrounding_all(&vec![Some(a)]), Some(a));
    assert_eq!(
        Aabb::surrounding_all(&vec![Some(a), Some(b), Some(c)]),
        Some(Aabb::new(v(-1.0, 0.0, 0.0), v(3.0, 3.0, 3.0)))
    );
    assert_eq!(Aabb::surrounding_all(&vec![Some(a), None, Some(c)]), None);
    assert_eq!(Aabb::surrounding_all(&vec![None]), None);
    assert_eq!(Aabb::surrounding_all(&vec![Some(a), Some(b), None]), None);
}

fn leaf_box(g: &Geometry, _t0: Scalar, _t1: Scalar) -> Option<Aabb> {
    match g {
        Geometry::Sphere(sp) => {
            let r = f(sp.radius);
            let c = [f(sp.center.x), f(sp.center.y), f(sp.center.z)];
            Some(Aabb::new(v(c[0] - r, c[1] - r, c[2] - r), v(c[0] + r, c[1] + r, c[2] + r)))
        }
        Geometry::MovingSphere(sp) => {
            // between its two places the sphere sweeps the box around both
            let r = f(sp.radius);
            let a = [f(sp.center0.x), f(sp.center0.y), f(sp.center0.z)];
            let b = [f(sp.center1.x), f(sp.center1.y), f(sp.center1.z)];
            let first = Aabb::new(v(a[0] - r, a[1] - r, a[2] - r), v(a[0] + r, a[1] + r, a[2] + r));
            let second = Aabb::new(v(b[0] - r, b[1] - r, b[2] - r), v(b[0] + r, b[1] + r, b[2] + r));
            Some(Aabb::surrounding_box(&first, &second))
        }
        // a plane without bounds stands for every shape without a finite extent
        _ => None,
    }
}

#[test]
fn bounding_box_by_kind() {
    let sphere = |x: f32| Geometry::Sphere(Sphere::new(v(x, 0.0, 0.0), s(1.0), 0));
    let t0 = s(0.0);
    let t1 = s(1.0);
    assert_eq!(
        sphere(2.0).bounding_box(t0, t1, &leaf_box),
        Some(Aabb::new(v(1.0, -1.0, -1.0), v(3.0, 1.0, 1.0)))
    );
    let moving = Geometry::MovingSphere(MovingSphere::new(v(0.0, 0.0, 0.0), v(0.0, 2.0, 0.0), s(1.0), 0));
    assert_eq!(
        moving.bounding_box(t0, t1, &leaf_box),
        Some(Aabb::new(v(-1.0, -1.0, -1.0), v(1.0, 3.0, 1.0)))
    );
    let list = Geometry::HittableList(HittableList::new(vec![sphere(0.0), sphere(5.0), sphere(-3.0)]));
    assert_eq!(
        list.bounding_box(t0, t1, &leaf_box),
        Some(Aabb::new(v(-4.0, -1.0, -1.0), v(6.0, 1.0, 1.0)))
    );
    let empty = Geometry::HittableList(HittableList::new(vec![]));
    assert_eq!(empty.bounding_box(t0, t1, &leaf_box), None);
    let plane = Geometry::XyRect(XyRect::new(s(0.0), s(1.0), s(0.0), s(1.0), s(0.0), 0));
    assert_eq!(plane.bounding_box(t0, t1, &leaf_box), None);
    let with_plane = Geometry::HittableList(HittableList::new(vec![
        sphere(0.0),
        Geometry::XyRect(XyRect::new(s(0.0), s(1.0), s(0.0), s(1.0), s(0.0), 0)),
        sphere(5.0),
    ]));
    assert_eq!(with_plane.bounding_box(t0, t1, &leaf_box), None);
    let medium = Geometry::ConstantMedium(ConstantMedium::new(Box::new(sphere(2.0)), s(-1.0), 0));
    assert_eq!(
        medium.bounding_box(t0, t1, &leaf_box),
        Some(Aabb::new(v(1.0, -1.0, -1.0), v(3.0, 1.0, 1.0)))
    );
    let cornell = Geometry::CornellBox(CornellBox::new(v(0.0, 1.0, 2.0), v(3.0, 4.0, 5.0), 0));
    assert_eq!(
        cornell.bounding_box(t0, t1, &leaf_box),
        Some(Aabb::new(v(0.0, 1.0, 2.0), v(3.0, 4.0, 5.0)))
    );
    let turned = Geometry::RotateY(RotateY::new(Box::new(sphere(0.0)), s(0.0), s(1.0), None));
    assert_eq!(turned.bounding_box(t0, t1, &leaf_box), None);
}

#[test]
fn material_indices_are_checked_through_the_tree() {
    let sphere = |m: usize| Geometry::Sphere(Sphere::new(v(0.0, 0.0, 0.0), s(1.0), m));
    assert!(sphere(2).refers_to_materials_below(3));
    assert!(!sphere(3).refers_to_materials_below(3));
    let list = Geometry::HittableList(HittableList::new(vec![sphere(0), sphere(1), sphere(2)]));
    assert!(list.refers_to_materials_below(3));
    assert!(!list.refers_to_materials_below(2));
    let moved = Geometry::Translate(Translate::new(Box::new(sphere(4)), v(0.0, 0.0, 0.0)));
    assert!(moved.refers_to_materials_below(5));
    assert!(!moved.refers_to_materials_below(4));
    let medium = Geometry::ConstantMedium(ConstantMedium::new(Box::new(sphere(0)), s(-1.0), 7));
    assert!(medium.refers_to_materials_below(8));
    assert!(!medium.refers_to_materials_below(7));
    let cornell = Geometry::CornellBox(CornellBox::new(v(0.0, 0.0, 0.0), v(1.0, 1.0, 1.0), 3));
    assert!(cornell.refers_to_materials_below(4));
    assert!(!cornell.refers_to_materials_below(3));
    let turned = Geometry::RotateY(RotateY::new(Box::new(sphere(1)), s(0.0), s(1.0), None));
    assert!(turned.refers_to_materials_below(2));
    assert!(!turned.refers_to_materials_below(1));
}
