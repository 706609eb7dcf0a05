use ffi_omnibus::marshal::{
    addition, flip_things_around, flip_things_around_rust, sum_of_even, vec_return, Tuple,
};

#[test]
fn flip_example() {
    assert_eq!(flip_things_around(Tuple { x: 5, y: 10 }), Tuple { x: 11, y: 4 });
    assert_eq!(flip_things_around_rust((5, 10)), (11, 4));
}

#[test]
fn flip_wraps_at_the_edges() {
    assert_eq!(flip_things_around(Tuple { x: 0, y: 10 }), Tuple { x: 11, y: 0xFFFF_FFFF });
    assert_eq!(flip_things_around_rust((7, 0xFFFF_FFFF)), (0, 6));
}

#[test]
fn tuple_conversions() {
    let t = Tuple::from((3, 4));
    assert_eq!(t, Tuple { x: 3, y: 4 });
    let p: (u32, u32) = t.into();
    assert_eq!(p, (3, 4));
}

#[test]
fn sum_of_even_examples() {
    assert_eq!(sum_of_even(&[]), 0);
    assert_eq!(sum_of_even(&[1, 2, 3, 4]), 6);
    assert_eq!(sum_of_even(&[2]), 2);
    assert_eq!(sum_of_even(&[1, 3, 5]), 0);
}

#[test]
fn sum_of_even_wraps() {
    assert_eq!(sum_of_even(&[0xFFFF_FFFE, 4]), 2);
}

#[test]
fn addition_examples() {
    assert_eq!(addition(2, 3), 5);
    assert_eq!(addition(0xFFFF_FFFF, 1), 0);
    assert_eq!(addition(0xFFFF_FFFF, 0xFFFF_FFFF), 0xFFFF_FFFE);
}

#[test]
fn owned_buffer_values() {
    let v = vec_return();
    assert_eq!(v, vec![11, 13, 17, 19, 23, 29]);
    assert_eq!(v.len(), 6);
}
