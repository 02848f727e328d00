use soa_math::ops::{VDiv, VMul, VecOp};
use soa_math::physics::Typed;
use soa_math::units::{Meters, MetersPerSecond, Seconds, Unit};
use soa_math::vecs::{Vec1, Vec2};

type Length = Typed<f64, Meters>;
type Speed = Typed<f64, MetersPerSecond>;
type Time = Typed<f64, Seconds>;

#[test]
fn add_vec1_adds_each_position() {
    let mut a = Vec1::from(vec![1u64, 2, 3]);
    let b = Vec1::from(vec![10u64, 20, 30]);
    a.add_vec1(&b);
    assert_eq!(vec![11, 22, 33], a.values);
}

#[test]
fn operations_on_empty_columns_keep_them_empty() {
    let mut a: Vec1<i32> = Vec1::new();
    let b: Vec1<i32> = Vec1::new();
    a.add_vec1(&b);
    a.mul_value(5);
    assert!(a.is_empty());

    let mut v: Vec2<i32> = Vec2::new();
    v.add_vec2(&Vec2::<i32>::new());
    v.div_value(3);
    assert!(v.is_empty());
    assert_eq!(0, v.len());
}

#[test]
fn scale_then_unscale_floats() {
    let original: Vec2<f64> = Vec2 {
        x: vec![1.5, -2.25, 0.0].into(),
        y: vec![3.0, 7.125, -9.5].into(),
    };
    let mut v = original.clone();
    v.mul_value(3.7);
    v.div_value(3.7);
    for i in 0..3 {
        assert!((v.x.values[i] - original.x.values[i]).abs() < 1e-12);
        assert!((v.y.values[i] - original.y.values[i]).abs() < 1e-12);
    }
}

#[test]
fn scale_then_unscale_integers() {
    let original = Vec2 {
        x: vec![1u64, 20, 0].into(),
        y: vec![3u64, 7, 12].into(),
    };
    let mut v = original.clone();
    v.mul_value(6);
    assert_eq!(vec![6, 120, 0], v.x.values);
    v.div_value(6);
    assert_eq!(original, v);
}

#[test]
fn magnitude_squared_and_magnitude() {
    let source = Vec2 {
        x: vec![3.0, 0.0, 5.0].into(),
        y: vec![4.0, 1.0, 12.0].into(),
    };
    let mut squared: Vec1<f64> = Vec1::new();
    squared.get_magnitude_squared(&source);
    assert_eq!(vec![25.0, 1.0, 169.0], squared.values);

    let mut magnitude: Vec1<f64> = Vec1::from(vec![9.0; 7]);
    magnitude.get_magnitude(&source);
    assert_eq!(vec![5.0, 1.0, 13.0], magnitude.values);
}

#[test]
fn magnitude_squared_resizes_the_target() {
    let source = Vec2 {
        x: vec![1i64, 2].into(),
        y: vec![2i64, -3].into(),
    };
    let mut longer = Vec1::from(vec![7i64, 7, 7, 7]);
    longer.get_magnitude_squared(&source);
    assert_eq!(vec![5, 13], longer.values);

    let mut empty: Vec1<i64> = Vec1::new();
    empty.get_magnitude_squared(&source);
    assert_eq!(vec![5, 13], empty.values);
}

#[test]
fn fused_accumulate_matches_two_passes() {
    let mut fused = Vec1::from(vec![1i64, -2, 3]);
    let b = Vec1::from(vec![4i64, 5, -6]);
    let c = Vec1::from(vec![7i64, 8, 9]);
    fused.add_mul_vec1(VMul::new(&b, &c));

    let mut two_pass = Vec1::from(vec![1i64, -2, 3]);
    let mut tmp = b.clone();
    tmp.mul_vec1(&c);
    two_pass.add_vec1(&tmp);

    assert_eq!(two_pass, fused);
    assert_eq!(vec![29, 38, -51], fused.values);
}

#[test]
fn fused_divide_accumulate() {
    let mut acc = Vec1::from(vec![1i64, 1]);
    let a = Vec1::from(vec![20i64, 9]);
    let b = Vec1::from(vec![5i64, 2]);
    acc.add_div_vec1(VDiv::new(&a, &b));
    assert_eq!(vec![5, 5], acc.values);
    acc.sub_div_value(VDiv::new(&a, &3i64));
    assert_eq!(vec![-1, 2], acc.values);
    acc.add_div_value(VDiv::new(&a, &1i64));
    acc.sub_div_vec1(VDiv::new(&a, &b));
    assert_eq!(vec![15, 7], acc.values);
}

#[test]
fn vec2_fused_forms() {
    let mut p = Vec2 {
        x: vec![0i64, 1].into(),
        y: vec![2i64, 3].into(),
    };
    let v = Vec2 {
        x: vec![1i64, 2].into(),
        y: vec![3i64, 4].into(),
    };
    let t = Vec1::from(vec![10i64, 100]);
    p.add_mul_vec1(VMul::new(&v, &t));
    assert_eq!(vec![10, 201], p.x.values);
    assert_eq!(vec![32, 403], p.y.values);
    p.sub_mul_vec1(&v * &t);
    assert_eq!(vec![0, 1], p.x.values);
    p.add_mul_value(VMul::new(&v, &2i64));
    assert_eq!(vec![2, 5], p.x.values);
    assert_eq!(vec![8, 11], p.y.values);
    p.add_div_vec1(VDiv::new(&v, &Vec1::from(vec![1i64, 2])));
    assert_eq!(vec![3, 6], p.x.values);
    p.sub_div_vec1(VDiv::new(&v, &Vec1::from(vec![1i64, 2])));
    assert_eq!(vec![2, 5], p.x.values);
}

#[test]
fn position_from_speed_and_time_both_ways() {
    let start: Vec1<Length> = Vec1 {
        values: vec![0.0.into(), 1.0.into(), 2.0.into()],
    };
    let speed: Vec1<Speed> = Vec1 {
        values: vec![2.0.into(), 3.0.into(), 5.0.into()],
    };
    let time = Time::in_seconds(2.0);

    let mut forward = start.clone();
    forward.add_mul_value(VMul::new(&speed, &time));
    assert_eq!(vec![4.0, 7.0, 12.0], forward.values.iter().map(|l| l.vec).collect::<Vec<f64>>());

    let mut backward = start.clone();
    backward.sub_mul_value(VMul::new(&speed, &time));
    assert_eq!(vec![-4.0, -5.0, -8.0], backward.values.iter().map(|l| l.vec).collect::<Vec<f64>>());
}

#[test]
fn typed_columns_accumulate() {
    let mut position: Typed<Vec1<f64>, Meters> = Typed::new(Vec1::from(vec![0.0, 1.0, 2.0]));
    let speed: Typed<Vec1<f64>, MetersPerSecond> = Typed::new(Vec1::from(vec![2.0, 3.0, 5.0]));
    let time: Typed<f64, Seconds> = Typed::in_seconds(2.0);
    position.add_mul_value(&speed * &time);
    assert_eq!(vec![4.0, 7.0, 12.0], position.vec.values);

    let times: Typed<Vec1<f64>, Seconds> = Typed::new(Vec1::from(vec![1.0, 1.0, 1.0]));
    position.add_mul_vec1(&speed * &times);
    assert_eq!(vec![6.0, 10.0, 17.0], position.vec.values);

    let offset: Typed<Vec1<f64>, Meters> = Typed::new(Vec1::from(vec![1.0, 1.0, 1.0]));
    position.add_vec1(&offset);
    assert_eq!(vec![7.0, 11.0, 18.0], position.into_inner().values);
}

#[test]
fn typed_vectors_add() {
    let mut a: Typed<Vec2<i32>, Meters> = Typed::new(Vec2 {
        x: vec![1, 2].into(),
        y: vec![3, 4].into(),
    });
    let b: Typed<Vec2<i32>, Meters> = Typed::new(Vec2 {
        x: vec![10, 20].into(),
        y: vec![30, 40].into(),
    });
    a.add_vec2(&b);
    assert_eq!(vec![11, 22], a.vec.x.values);
    assert_eq!(vec![33, 44], a.vec.y.values);
}

#[test]
fn typed_scalar_arithmetic_composes_units() {
    let length: Length = 10.0.into();
    let time: Time = Time::in_seconds(4.0);
    let speed: Speed = length / time;
    assert_eq!(2.5, speed.vec);
    let back: Length = speed * time;
    assert_eq!(10.0, back.vec);
    assert_eq!(20.0, (length + back).vec);
    assert_eq!(0.0, (length - back).vec);
    assert_eq!(Length::default(), Length::from(0.0));
}

#[test]
fn unit_symbols() {
    assert_eq!(Some("m"), Meters::symbol());
    assert_eq!(Some("s"), Seconds::symbol());
    assert_eq!(Some("m/s"), MetersPerSecond::symbol());
    assert_eq!(None, <() as Unit>::symbol());
    assert_eq!(MetersPerSecond, Meters / Seconds);
    assert_eq!(Meters, MetersPerSecond * Seconds);
}

#[test]
fn vec_op_functions() {
    assert_eq!(42, <VMul<'_, (), ()> as VecOp<i32, i32>>::function(6, 7));
    assert_eq!(6, <VDiv<'_, (), ()> as VecOp<i32, i32>>::function(42, 7));
}

#[test]
fn vec1_access() {
    let mut v = Vec1::from(vec![1, 2, 3]);
    assert_eq!(Some(&2), v.get(1));
    assert_eq!(None, v.get(3));
    if let Some(e) = v.get_mut(0) {
        *e = 10;
    }
    assert!(v.get_mut(3).is_none());
    assert_eq!(&[10, 2, 3], v.as_slice());
    v.as_mut_slice()[2] = 30;
    assert_eq!(vec![10, 2, 30], v.iter().copied().collect::<Vec<i32>>());
    assert_eq!(3, v.len());
    assert!(!v.is_empty());
}

#[test]
fn vec1_insert_overwrites_the_last_slot() {
    let mut v = Vec1::from(vec!['a', 'b']);
    v.insert('z', 1);
    assert_eq!(vec!['a', 'z'], v.values);
    v.insert('q', 5);
    assert_eq!(vec!['a', 'z'], v.values);
}

#[test]
fn vec2_access() {
    let mut v = Vec2 {
        x: vec![1, 2].into(),
        y: vec![3, 4].into(),
    };
    assert_eq!(Some((&2, &4)), v.get(1));
    assert_eq!(None, v.get(2));
    if let Some((x, y)) = v.get_mut(0) {
        *x = 5;
        *y = 6;
    }
    assert!(v.get_mut(2).is_none());
    assert_eq!(vec![5, 2], v.x.values);
    assert_eq!(vec![6, 4], v.y.values);
}

#[test]
fn default_lengths() {
    let a: Vec1<u8> = Vec1::default_with_len(3);
    assert_eq!(vec![0, 0, 0], a.values);
    let b: Vec2<i64> = Vec2::default_with_len(2);
    assert_eq!(vec![0, 0], b.x.values);
    assert_eq!(vec![0, 0], b.y.values);
    assert!(Vec1::<u8>::default().is_empty());
    assert!(Vec2::<u8>::default().is_empty());
}

#[test]
fn zip_combinators_on_vec1() {
    let mut v = Vec1::from(vec![1, 2, 3]);
    v.zip_to_value(10, |a: i32, b: i32| a * b);
    assert_eq!(vec![10, 20, 30], v.values);
    v.zip_to_vec1(&Vec1::from(vec![1, 2, 3]), |a: i32, b: i32| a - b);
    assert_eq!(vec![9, 18, 27], v.values);
    v.zip_to_vec1_and_vec1(&Vec1::from(vec![1, 1, 1]), &Vec1::from(vec![2, 3, 4]), |a: i32, b: i32, c: i32| a + b * c);
    assert_eq!(vec![11, 21, 31], v.values);
    v.zip_to_vec1_and_value(&Vec1::from(vec![1, 2, 3]), 100, |a: i32, b: i32, c: i32| a + b * c);
    assert_eq!(vec![111, 221, 331], v.values);
}

#[test]
fn zip_combinators_on_vec2() {
    let mut v = Vec2 {
        x: vec![1, 2].into(),
        y: vec![3, 4].into(),
    };
    v.zip_both_to_value(10, |x: i32, y: i32, s: i32| (y * s, x * s));
    assert_eq!(vec![30, 40], v.x.values);
    assert_eq!(vec![10, 20], v.y.values);

    v.zip_to_vec1(&Vec1::from(vec![1, 2]), |a: i32, b: i32| a + b);
    assert_eq!(vec![31, 42], v.x.values);
    assert_eq!(vec![11, 22], v.y.values);

    v.zip_both_to_vec1(&Vec1::from(vec![1, 0]), |x: i32, y: i32, k: i32| (x * k, y));
    assert_eq!(vec![31, 0], v.x.values);

    let other = Vec2 {
        x: vec![1, 1].into(),
        y: vec![2, 2].into(),
    };
    v.zip_to_vec2(&other, |a: i32, b: i32| a - b);
    assert_eq!(vec![30, -1], v.x.values);
    assert_eq!(vec![9, 20], v.y.values);

    v.zip_both_to_vec2(&other, |x1: i32, y1: i32, x2: i32, y2: i32| (x1 + y2, y1 + x2));
    assert_eq!(vec![32, 1], v.x.values);
    assert_eq!(vec![10, 21], v.y.values);

    v.zip_to_vec2_and_value(&other, 3, |a: i32, b: i32, c: i32| a + b * c);
    assert_eq!(vec![35, 4], v.x.values);
    assert_eq!(vec![16, 27], v.y.values);

    v.zip_to_vec2_and_vec1(&other, &Vec1::from(vec![0, 1]), |a: i32, b: i32, c: i32| a + b * c);
    assert_eq!(vec![35, 5], v.x.values);
    assert_eq!(vec![16, 29], v.y.values);

    v.zip_both_to_vec2_and_value(&other, 1, |x1: i32, y1: i32, x2: i32, y2: i32, k: i32| (x1 - x2 * k, y1 - y2 * k));
    assert_eq!(vec![34, 4], v.x.values);
    assert_eq!(vec![14, 27], v.y.values);

    v.zip_both_to_vec2_and_vec1(&other, &Vec1::from(vec![2, 0]), |x1: i32, y1: i32, x2: i32, y2: i32, k: i32| (x1 + x2 * k, y1 + y2 * k));
    assert_eq!(vec![36, 4], v.x.values);
    assert_eq!(vec![18, 27], v.y.values);
}

#[test]
fn vec2_elementwise_by_column() {
    let mut v = Vec2 {
        x: vec![2, 4].into(),
        y: vec![6, 8].into(),
    };
    v.mul_vec1(&Vec1::from(vec![3, 5]));
    assert_eq!(vec![6, 20], v.x.values);
    assert_eq!(vec![18, 40], v.y.values);
    v.div_vec1(&Vec1::from(vec![3, 5]));
    assert_eq!(vec![2, 4], v.x.values);
    v.sub_vec2(&Vec2 {
        x: vec![1, 1].into(),
        y: vec![1, 1].into(),
    });
    assert_eq!(vec![1, 3], v.x.values);
    assert_eq!(vec![5, 7], v.y.values);
}

#[test]
fn vec1_scalar_and_column_forms() {
    let mut v = Vec1::from(vec![10, 20]);
    v.add_value(1);
    v.sub_value(3);
    assert_eq!(vec![8, 18], v.values);
    v.div_value(2);
    assert_eq!(vec![4, 9], v.values);
    v.sub_vec1(&Vec1::from(vec![4, 4]));
    v.mul_vec1(&Vec1::from(vec![7, 2]));
    v.div_vec1(&Vec1::from(vec![1, 5]));
    assert_eq!(vec![0, 2], v.values);
    v.add_mul_value(VMul::new(&Vec1::from(vec![3, 4]), &10));
    assert_eq!(vec![30, 42], v.values);
    v.sub_mul_vec1(VMul::new(&Vec1::from(vec![3, 4]), &Vec1::from(vec![10, 10])));
    assert_eq!(vec![0, 2], v.values);
}
