use soa_math::physics::Typed;
use soa_math::units::{Meters, MetersPerSecond, Seconds};
use soa_math::vecs::{Vec1, Vec2};

type Length = Typed<f64, Meters>;
type Speed = Typed<f64, MetersPerSecond>;
type Time = Typed<f64, Seconds>;

#[test]
fn typed_add_assign() {
    let mut position: Vec2<Length> = Vec2 {
        x: vec![0.0.into(), 1.0.into(), 2.0.into()].into(),
        y: vec![0.5.into(), 1.5.into(), 2.5.into()].into(),
    };

    let velocity: Vec2<Speed> = Vec2 {
        x: vec![0.5.into(), 1.5.into(), 2.5.into()].into(),
        y: vec![0.0.into(), 1.0.into(), 2.0.into()].into(),
    };

    let dt: Vec1<Time> = Vec1 {
        values: vec![2.0.into(), 2.0.into(), 2.0.into()],
    };

    let expected = Vec2 {
        x: vec![1.0.into(), 4.0.into(), 7.0.into()].into(),
        y: vec![0.5.into(), 3.5.into(), 6.5.into()].into(),
    };

    position.add_mul_vec1(&velocity * &dt);

    assert_eq!(expected, position);
}

#[test]
fn add_assign_typed_vecs() {
    let mut position: Typed<Vec2<f32>, Meters> = Typed::new(Vec2 {
        x: vec![1.0, 2.0].into(),
        y: vec![3.0, 5.0].into(),
    });

    let velocity: Typed<Vec2<f32>, MetersPerSecond> = Typed::new(Vec2 {
        x: vec![2.0, 3.0].into(),
        y: vec![5.0, 7.0].into(),
    });

    let time: Typed<Vec1<f32>, Seconds> = Typed::new(Vec1 {
        values: vec![1.0, 2.0].into(),
    });

    let expected: Typed<Vec2<f32>, Meters> = Typed::new(Vec2 {
        x: vec![3.0, 8.0].into(),
        y: vec![8.0, 19.0].into(),
    });

    position.add_mul_vec1(&velocity * &time);

    assert_eq!(expected, position);
}
