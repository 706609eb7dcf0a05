use vstd::prelude::*;

verus! {

/// Two unsigned 32-bit fields, passed and returned by value.
#[derive(Clone, Copy, Debug, PartialEq, Eq, Structural)]
pub struct Tuple {
    pub x: u32,
    pub y: u32,
}

impl From<(u32, u32)> for Tuple {
    fn from(tup: (u32, u32)) -> (r: Tuple)
        ensures
            r.x == tup.0 && r.y == tup.1,
    {
        Tuple { x: tup.0, y: tup.1 }
    }
}

impl vstd::std_specs::convert::FromSpecImpl<(u32, u32)> for Tuple {
    open spec fn obeys_from_spec() -> bool {
        true
    }

    open spec fn from_spec(tup: (u32, u32)) -> Tuple {
        Tuple { x: tup.0, y: tup.1 }
    }
}

impl From<Tuple> for (u32, u32) {
    fn from(tup: Tuple) -> (r: (u32, u32))
        ensures
            r == (tup.x, tup.y),
    {
        (tup.x, tup.y)
    }
}

impl vstd::std_specs::convert::FromSpecImpl<Tuple> for (u32, u32) {
    open spec fn obeys_from_spec() -> bool {
        true
    }

    open spec fn from_spec(tup: Tuple) -> (u32, u32) {
        (tup.x, tup.y)
    }
}

/// `v + 1` on 32 bits, wrapping past the largest value.
pub open spec fn succ32(v: u32) -> u32 {
    ((v + 1) % 0x1_0000_0000) as u32
}

/// `v - 1` on 32 bits, wrapping below zero.
pub open spec fn pred32(v: u32) -> u32 {
    ((v - 1 + 0x1_0000_0000) % 0x1_0000_0000) as u32
}

/// Swaps the pair, adding one to the old second and taking one from the old first;
/// both steps wrap on 32 bits.
pub fn flip_things_around_rust(tup: (u32, u32)) -> (r: (u32, u32))
    ensures
        r == (succ32(tup.1), pred32(tup.0)),
{
    let (a, b) = tup;
    (b.wrapping_add(1), a.wrapping_sub(1))
}

/// `flip_things_around_rust` on the fields of a `Tuple`.
pub fn flip_things_around(tup: Tuple) -> (r: Tuple)
    ensures
        r == (Tuple { x: succ32(tup.y), y: pred32(tup.x) }),
{
    let pair: (u32, u32) = <(u32, u32)>::from(tup);
    Tuple::from(flip_things_around_rust(pair))
}

/// The sum of the even values of `s`, without wrapping.
pub open spec fn sum_even(s: Seq<u32>) -> int
    decreases s.len(),
{
    if s.len() == 0 {
        0
    } else {
        sum_even(s.drop_last()) + if s.last() % 2 == 0 {
            s.last() as int
        } else {
            0
        }
    }
}

/// The sum of the even values of `numbers`, wrapping silently on 32 bits.
pub fn sum_of_even(numbers: &[u32]) -> (r: u32)
    ensures
        r == sum_even(numbers@) % 0x1_0000_0000,
{
    let mut sum: u32 = 0;
    let mut i: usize = 0;
    while i < numbers.len()
        invariant
            i <= numbers@.len(),
            sum == sum_even(numbers@.subrange(0, i as int)) % 0x1_0000_0000,
        decreases numbers@.len() - i,
    {
        let v = numbers[i];
        assert(numbers@.subrange(0, i + 1).drop_last() =~= numbers@.subrange(0, i as int));
        if v % 2 == 0 {
            sum = sum.wrapping_add(v);
        }
        i = i + 1;
    }
    assert(numbers@.subrange(0, i as int) =~= numbers@);
    sum
}

/// Sum of two unsigned 32-bit integers, wrapping silently on overflow.
pub fn addition(a: u32, b: u32) -> (r: u32)
    ensures
        r == (a + b) % 0x1_0000_0000,
{
    a.wrapping_add(b)
}

/// The values that an owned buffer carries, in order.
pub open spec fn owned_values() -> Seq<i32> {
    seq![11, 13, 17, 19, 23, 29]
}

/// A fresh vector of the values `11, 13, 17, 19, 23, 29`.
pub fn vec_return() -> (r: Vec<i32>)
    ensures
        r@ == owned_values(),
{
    let r = vec![11, 13, 17, 19, 23, 29];
    assert(r@ =~= owned_values());
    r
}

} // verus!
