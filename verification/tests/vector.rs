use twobody::vector::Vector;

#[test]
fn test_fill_from_vector() {
    let v1 = Vector::<i32, 2> { data: [1, 2] };
    let mut v2 = Vector::<i32, 3>::new();

    Vector::<i32, 3>::fill_from_vector(&mut v2, 0, &v1);

    assert_eq!(v2.data, [1, 2, 0]);

    let mut v3 = Vector::<i32, 5>::new();

    Vector::<i32, 5>::fill_from_vector(&mut v3, 4, &v1);

    assert_eq!(v3.data, [0, 0, 0, 0, 1]);
}

#[test]
fn test_construct_from_two() {
    let v1 = Vector::<i32, 2> { data: [1, 2] };
    let v2 = Vector::<i32, 3> { data: [3, 4, 5] };

    let res1 = Vector::<i32, 5>::construct_from_two(&v1, &v2);

    assert_eq!(res1.data, [1, 2, 3, 4, 5]);

    let res2 = Vector::<i32, 6>::construct_from_two(&v1, &v2);

    assert_eq!(res2.data, [0, 1, 2, 3, 4, 5]);

    let res3 = Vector::<i32, 3>::construct_from_two(&v1, &v2);

    assert_eq!(res3.data, [1, 2, 3]);
}

#[test]
fn test_vector_componentwise_arithmetic() {
    let a = Vector::<i32, 3> { data: [1, -2, 30] };
    let b = Vector::<i32, 3> { data: [4, 7, -9] };

    assert_eq!(a.add(b).data, [5, 5, 21]);
    assert_eq!(a.sub(b).data, [-3, -9, 39]);
    assert_eq!(a.mul(3).data, [3, -6, 90]);
    assert_eq!(a.div(2).data, [0, -1, 15]);
}
