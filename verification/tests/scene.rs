use std::cell::Cell;
use std::rc::Rc;

use softrays::material::Material;
use softrays::raytracer::{farthest, nearest};
use softrays::world::{Hit, Object, Scene, Surface};
use softrays::Scalar;
use ultraviolet::geometry::Ray;
use ultraviolet::Vec3;

fn s(x: f32) -> Scalar {
    Scalar::from_bits(x.to_bits())
}

struct Dull;

impl Material for Dull {
    fn scatter(&self, ray: &Ray, _surface: &Surface) -> (bool, Vec3, Ray) {
        (false, Vec3::zero(), *ray)
    }
}

/// A surface that every ray meets at the same parameter. Its label comes
/// back as the first component of the normal.
struct Wall {
    t: f32,
    label: f32,
    strict: bool,
}

impl Object for Wall {
    fn hit_model(&self, ray: Ray, t_min: Scalar, t_max: Scalar) -> Option<Hit> {
        self.hit(&ray, t_min, t_max)
    }

    fn hit(&self, ray: &Ray, t_min: Scalar, t_max: Scalar) -> Option<Hit> {
        let t = s(self.t);
        let counts =
            if self.strict { t.is_strictly_within(t_min, t_max) } else { t.is_within(t_min, t_max) };
        if counts {
            Some(Hit {
                surface: Surface {
                    t,
                    p: ray.at_distance(self.t),
                    normal: Vec3::new(self.label, 0.0, 0.0),
                    front: true,
                },
                material: Rc::new(Dull),
            })
        } else {
            None
        }
    }
}

/// An object that is never hit and notes the bounds it was asked with.
struct Probe {
    asked: Rc<Cell<(f32, f32)>>,
}

impl Object for Probe {
    fn hit_model(&self, ray: Ray, t_min: Scalar, t_max: Scalar) -> Option<Hit> {
        self.hit(&ray, t_min, t_max)
    }

    fn hit(&self, _ray: &Ray, t_min: Scalar, t_max: Scalar) -> Option<Hit> {
        self.asked.set((f32::from_bits(t_min.to_bits()), f32::from_bits(t_max.to_bits())));
        None
    }
}

fn wall(t: f32, label: f32) -> Box<dyn Object> {
    Box::new(Wall { t, label, strict: false })
}

fn strict_wall(t: f32, label: f32) -> Box<dyn Object> {
    Box::new(Wall { t, label, strict: true })
}

fn ray() -> Ray {
    Ray { origin: Vec3::new(0.0, 0.0, 5.0), direction: Vec3::new(0.0, 0.0, -1.0) }
}

fn seen(scene: &Scene) -> Option<(f32, f32)> {
    scene
        .hit(&ray(), nearest(), farthest())
        .map(|h| (f32::from_bits(h.surface.t.to_bits()), h.surface.normal.x))
}

#[test]
fn empty_scene_reports_no_hit() {
    let scene = Scene { objects: Vec::new() };
    assert!(scene.hit(&ray(), nearest(), farthest()).is_none());
    assert!(scene.hit(&ray(), s(f32::NEG_INFINITY), s(f32::INFINITY)).is_none());
    let other = Ray { origin: Vec3::zero(), direction: Vec3::new(1.0, 2.0, 3.0) };
    assert!(scene.hit(&other, nearest(), farthest()).is_none());
}

#[test]
fn scene_of_one_object_reports_its_hit() {
    let scene = Scene { objects: vec![wall(4.0, 1.0)] };
    let hit = scene.hit(&ray(), nearest(), farthest()).unwrap();
    assert_eq!(hit.surface.t, s(4.0));
    assert_eq!((hit.surface.p.x, hit.surface.p.y, hit.surface.p.z), (0.0, 0.0, 1.0));
    assert!(hit.surface.front);
}

#[test]
fn scene_reports_the_nearest_hit_in_any_order() {
    let orders: [[usize; 3]; 6] = [[0, 1, 2], [0, 2, 1], [1, 0, 2], [1, 2, 0], [2, 0, 1], [2, 1, 0]];
    let walls = [(3.0f32, 30.0f32), (1.0, 10.0), (2.0, 20.0)];
    for order in orders {
        let objects: Vec<Box<dyn Object>> =
            order.iter().map(|i| wall(walls[*i].0, walls[*i].1)).collect();
        assert_eq!(seen(&Scene { objects }), Some((1.0, 10.0)));
    }
}

#[test]
fn scene_ignores_hits_outside_the_bounds() {
    let scene = Scene { objects: vec![wall(0.0005, 1.0), wall(-3.0, 2.0), wall(7.0, 3.0)] };
    assert_eq!(seen(&scene), Some((7.0, 3.0)));
    let hit = scene.hit(&ray(), s(1.0), s(6.0));
    assert!(hit.is_none());
    let hit = scene.hit(&ray(), s(1.0), s(7.0)).unwrap();
    assert_eq!(hit.surface.t, s(7.0));
}

#[test]
fn scene_lets_the_later_of_two_equal_hits_win() {
    let scene = Scene { objects: vec![wall(2.0, 1.0), wall(2.0, 2.0)] };
    assert_eq!(seen(&scene), Some((2.0, 2.0)));
    let scene = Scene { objects: vec![wall(2.0, 2.0), wall(2.0, 1.0)] };
    assert_eq!(seen(&scene), Some((2.0, 1.0)));
}

#[test]
fn scene_keeps_the_earlier_hit_where_the_later_object_excludes_the_bound() {
    let scene = Scene { objects: vec![wall(2.0, 1.0), strict_wall(2.0, 2.0)] };
    assert_eq!(seen(&scene), Some((2.0, 1.0)));
    let scene = Scene { objects: vec![strict_wall(2.0, 2.0), wall(2.0, 1.0)] };
    assert_eq!(seen(&scene), Some((2.0, 1.0)));
}

#[test]
fn scene_asks_each_object_up_to_the_hit_kept_so_far() {
    let first = Rc::new(Cell::new((0.0f32, 0.0f32)));
    let second = Rc::new(Cell::new((0.0f32, 0.0f32)));
    let third = Rc::new(Cell::new((0.0f32, 0.0f32)));
    let scene = Scene {
        objects: vec![
            Box::new(Probe { asked: first.clone() }),
            wall(6.0, 1.0),
            Box::new(Probe { asked: second.clone() }),
            wall(8.0, 2.0),
            wall(2.5, 3.0),
            Box::new(Probe { asked: third.clone() }),
        ],
    };
    assert_eq!(seen(&scene), Some((2.5, 3.0)));
    assert_eq!(first.get(), (0.001, f32::MAX));
    assert_eq!(second.get(), (0.001, 6.0));
    assert_eq!(third.get(), (0.001, 2.5));
}

#[test]
fn scene_nests_in_a_scene() {
    let inner = Scene { objects: vec![wall(5.0, 1.0), wall(3.0, 2.0)] };
    let outer = Scene { objects: vec![wall(4.0, 3.0), Box::new(inner), wall(9.0, 4.0)] };
    assert_eq!(seen(&outer), Some((3.0, 2.0)));
    let inner = Scene { objects: vec![wall(5.0, 1.0)] };
    let outer = Scene { objects: vec![wall(4.0, 3.0), Box::new(inner)] };
    assert_eq!(seen(&outer), Some((4.0, 3.0)));
    let empty = Scene { objects: Vec::new() };
    let outer = Scene { objects: vec![Box::new(empty)] };
    assert_eq!(seen(&outer), None);
}

#[test]
fn scene_with_one_object_exchanged_is_scanned_as_before() {
    let mut scene = Scene { objects: vec![wall(4.0, 1.0), wall(3.0, 2.0), wall(6.0, 3.0)] };
    assert_eq!(seen(&scene), Some((3.0, 2.0)));
    scene.objects[1] = wall(5.0, 7.0);
    assert_eq!(seen(&scene), Some((4.0, 1.0)));
    scene.objects[2] = wall(1.0, 9.0);
    assert_eq!(seen(&scene), Some((1.0, 9.0)));
}
