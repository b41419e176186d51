use twobody::methods::ab2::Ab2;
use twobody::methods::am2::Am2;
use twobody::methods::euler::Euler;
use twobody::methods::rk4::Rk4;
use twobody::methods::rk45::Rk45;
use twobody::methods::abs;
use twobody::scalar::Num;
use twobody::soe::{SimpleSoeBuilder, Soe, Soe2Builder};
use twobody::vector::Vector;

fn zero_soe() -> impl twobody::soe::Soe<Elem = i32, Args = Vector<i32, 5>> {
    Soe2Builder::<i32, 5, 2>::new().build(
        |_args: &Vector<i32, 5>| Vector::<i32, 2> { data: [0, 0] },
        |_args: &Vector<i32, 5>| Vector::<i32, 2> { data: [0, 0] },
    )
}

#[test]
fn test_rk4_zero_derivative_advances_only_time() {
    let init = Vector::<i32, 5> { data: [0, 7, -3, 2, 9] };
    let mut rk4 = Rk4::new(init, zero_soe(), 6);

    let s1 = rk4.next().unwrap();
    assert_eq!(s1.data, [6, 7, -3, 2, 9]);

    for _ in 0..10 {
        rk4.next();
    }
    let s12 = rk4.next().unwrap();
    assert_eq!(s12.data, [72, 7, -3, 2, 9]);
}

#[test]
fn test_euler_zero_derivative_advances_only_time() {
    let init = Vector::<i32, 5> { data: [0, 7, -3, 2, 9] };
    let mut euler = Euler::new(init, zero_soe(), 4);

    let s1 = euler.next().unwrap();
    assert_eq!(s1.data, [4, 7, -3, 2, 9]);

    let s2 = euler.next().unwrap();
    assert_eq!(s2.data, [8, 7, -3, 2, 9]);
}

#[test]
fn test_ab2_time_slot_is_seed_time_plus_step() {
    let seed1 = Vector::<i32, 5> { data: [0, 7, -3, 2, 9] };
    let seed2 = Vector::<i32, 5> { data: [6, 7, -3, 2, 9] };
    let mut ab2 = Ab2::new(seed1, seed2, zero_soe(), 6);

    let s3 = ab2.next().unwrap();
    assert_eq!(s3.data[0], 12);
    assert_eq!(s3.data, [12, 7, -3, 2, 9]);

    let s4 = ab2.next().unwrap();
    assert_eq!(s4.data[0], 18);
}

#[test]
fn test_am2_time_slot_is_seed_time_plus_step() {
    let seed1 = Vector::<i32, 5> { data: [0, 7, -3, 2, 9] };
    let seed2 = Vector::<i32, 5> { data: [6, 7, -3, 2, 9] };
    let mut am2 = Am2::new(seed1, seed2, zero_soe(), 6);

    let s3 = am2.next().unwrap();
    assert_eq!(s3.data[0], 12);

    let s4 = am2.next().unwrap();
    assert_eq!(s4.data[0], 18);
}

#[test]
fn test_rk45_accepts_and_advances_by_current_step() {
    let init = Vector::<i32, 5> { data: [0, 7, -3, 2, 9] };
    let mut rk45 = Rk45::new(init, zero_soe(), 5, 0, 100);

    // A zero derivative makes the two embedded estimates agree, so the
    // first attempt is accepted and time advances by exactly the step.
    let s1 = rk45.next().unwrap();
    assert_eq!(s1.data, [5, 7, -3, 2, 9]);
    assert!(!rk45.stalled);
}

#[test]
fn test_rk45_stops_past_max_time() {
    let init = Vector::<i32, 5> { data: [10, 7, -3, 2, 9] };
    let mut rk45 = Rk45::new(init, zero_soe(), 5, 0, 9);

    assert!(rk45.next().is_none());
    assert!(rk45.next().is_none());
    assert!(!rk45.stalled);
}

#[test]
fn test_abs_is_floor_magnitude() {
    let v = Vector::<i32, 3> { data: [2, 3, 6] };
    assert_eq!(abs(&v), 7);

    let w = Vector::<i32, 2> { data: [3, 4] };
    assert_eq!(abs(&w), 5);

    let u = Vector::<i32, 2> { data: [3, 5] };
    // 34 lies between 5^2 and 6^2: the floor square root is 5.
    assert_eq!(abs(&u), 5);
}

#[test]
fn test_exact_scalar_operations() {
    assert_eq!(<i32 as Num>::sqrt(17), 4);
    assert_eq!(<i32 as Num>::sqrt(16), 4);
    assert_eq!(<i32 as Num>::sqrt(-5), 0);
    assert_eq!(<i32 as Num>::div(7, -2), -3);
    assert_eq!(<i32 as Num>::div(-7, 2), -3);
    assert_eq!(<i32 as Num>::div(7, 0), 0);
    assert_eq!(<i32 as Num>::abs(-9), 9);
    assert_eq!(<i32 as Num>::neg(4), -4);
    assert_eq!(<i32 as Num>::from_u64(12), 12);
}

#[test]
fn test_simple_soe_pads_leading_slots() {
    let mut soe = SimpleSoeBuilder::<i32, 5, 2>::new().build(|args: &Vector<i32, 5>| {
        Vector::<i32, 2> { data: [args.data[1] * 2, args.data[2] * 3] }
    });

    let state = Vector::<i32, 5> { data: [9, 4, 5, 6, 7] };
    let out = soe.call(&state);
    assert_eq!(out.data, [0, 0, 0, 8, 15]);
}

#[test]
fn test_rk4_constant_derivative_advances_linearly() {
    // Both sub-functions return constants, so the full derivative is the
    // constant [1, 2, 3, 4, 5] (the time slot is forced to one) and every
    // step adds exactly that, scaled by the step size.
    let soe = Soe2Builder::<i32, 5, 2>::new().build(
        |_args: &Vector<i32, 5>| Vector::<i32, 2> { data: [2, 3] },
        |_args: &Vector<i32, 5>| Vector::<i32, 2> { data: [4, 5] },
    );
    let init = Vector::<i32, 5>::new();
    let mut rk4 = Rk4::new(init, soe, 6);

    assert_eq!(rk4.next().unwrap().data, [6, 12, 18, 24, 30]);
    assert_eq!(rk4.next().unwrap().data, [12, 24, 36, 48, 60]);
}

#[test]
fn test_euler_constant_derivative_advances_linearly() {
    let soe = Soe2Builder::<i32, 5, 2>::new().build(
        |_args: &Vector<i32, 5>| Vector::<i32, 2> { data: [2, 3] },
        |_args: &Vector<i32, 5>| Vector::<i32, 2> { data: [4, 5] },
    );
    let init = Vector::<i32, 5>::new();
    let mut euler = Euler::new(init, soe, 6);

    assert_eq!(euler.next().unwrap().data, [6, 12, 18, 24, 30]);
    assert_eq!(euler.next().unwrap().data, [12, 24, 36, 48, 60]);
}
