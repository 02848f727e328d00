use soa_math::ops::{VDiv, VMul};
use soa_math::physics::Typed;
use soa_math::units::{Meters, MetersPerSecond, Seconds};
use soa_math::vecs::{Vec1, Vec2};

type Length = Typed<f64, Meters>;
type Speed = Typed<f64, MetersPerSecond>;
type Time = Typed<f64, Seconds>;

#[test]
fn test_all() {
    let mut p: Vec1<Length> = Vec1 {
        values: vec![1.0.into(), 2.0.into()],
    };

    let mut v: Vec1<Speed> = Vec1 {
        values: vec![2.0.into(), 3.0.into()],
    };

    let t: Vec1<Time> = Vec1 {
        values: vec![5.0.into(), 4.0.into()],
    };

    p.add_mul_vec1(VMul::new(&v, &t));
    v.add_div_vec1(VDiv::new(&p, &t));

    p.sub_mul_vec1(VMul::new(&v, &t));
    v.sub_div_vec1(VDiv::new(&p, &t));
}

#[test]
fn test_all_value() {
    let mut p: Vec1<Length> = Vec1 {
        values: vec![1.0.into(), 2.0.into()],
    };

    let mut v: Vec1<Speed> = Vec1 {
        values: vec![2.0.into(), 3.0.into()],
    };

    let t = Time::in_seconds(5.0);

    p.add_mul_value(VMul::new(&v, &t));
    v.add_div_value(VDiv::new(&p, &t));

    p.sub_mul_value(VMul::new(&v, &t));
    v.sub_div_value(VDiv::new(&p, &t));
}

#[test]
fn vec1_insert_at_end() {
    let mut vec = Vec1::new();

    vec.insert('a', 0);
    vec.insert('b', 1);

    assert_eq!(vec!['a', 'b'], vec.values);
}

#[test]
fn vec1_insert_beyond_end() {
    let mut vec = Vec1::new();

    vec.insert('b', 1);

    assert_eq!(Vec::<char>::new(), vec.values);
}

#[test]
fn insert_in_middle() {
    let mut vec = Vec1::new();

    vec.insert('a', 0);
    vec.insert('b', 1);
    vec.insert('c', 2);

    vec.insert('d', 1);

    assert_eq!(vec!['a', 'd', 'c'], vec.values);
}

#[test]
fn vec2_insert_at_end() {
    let mut vec = Vec2::new();

    vec.insert('a', 'b', 0);
    vec.insert('c', 'd', 1);

    assert_eq!(vec!['a', 'c'], vec.x.values);
    assert_eq!(vec!['b', 'd'], vec.y.values);
}

#[test]
fn vec2_insert_beyond_end() {
    let mut vec = Vec2::new();

    vec.insert('c', 'd', 1);

    assert!(vec.x.values.is_empty());
    assert!(vec.y.values.is_empty());
}

#[test]
fn insert_into_middle() {
    let mut vec = Vec2::new();

    vec.insert('a', 'b', 0);
    vec.insert('c', 'd', 1);
    vec.insert('e', 'f', 2);

    vec.insert('g', 'h', 1);

    assert_eq!(vec!['a', 'g', 'e'], vec.x.values);
    assert_eq!(vec!['b', 'h', 'f'], vec.y.values);
}
