//! Single-bit operations on the 8-bit registers of the model.

use vstd::prelude::*;

verus! {

/// True when bit `i` of `x` is set.
pub open spec fn bit8(x: u8, i: u8) -> bool
    recommends
        i < 8,
{
    x & (1u8 << i) != 0
}

/// Read one bit of a register.
pub fn get_bit8(x: u8, i: u8) -> (r: bool)
    requires
        i < 8,
    ensures
        r == bit8(x, i),
{
    x & (1u8 << i) != 0
}

/// Set bit `i` of `x`; every other bit keeps its value.
pub fn set_bit8(x: u8, i: u8) -> (r: u8)
    requires
        i < 8,
    ensures
        bit8(r, i),
        forall|j: u8| j < 8 && j != i ==> bit8(r, j) == bit8(x, j),
{
    let r = x | (1u8 << i);
    proof {
        assert(bit8(x | (1u8 << i), i) && forall|j: u8|
            j < 8 && j != i ==> bit8(x | (1u8 << i), j) == bit8(x, j)) by (bit_vector)
            requires
                i < 8,
        ;
    }
    r
}

/// Clear bit `i` of `x`; every other bit keeps its value.
pub fn clear_bit8(x: u8, i: u8) -> (r: u8)
    requires
        i < 8,
    ensures
        !bit8(r, i),
        forall|j: u8| j < 8 && j != i ==> bit8(r, j) == bit8(x, j),
{
    let r = x & !(1u8 << i);
    proof {
        assert(!bit8(x & !(1u8 << i), i) && forall|j: u8|
            j < 8 && j != i ==> bit8(x & !(1u8 << i), j) == bit8(x, j)) by (bit_vector)
            requires
                i < 8,
        ;
    }
    r
}

/// Write bit `i` of `x` to `level`; every other bit keeps its value.
pub fn put_bit8(x: u8, i: u8, level: bool) -> (r: u8)
    requires
        i < 8,
    ensures
        bit8(r, i) == level,
        forall|j: u8| j < 8 && j != i ==> bit8(r, j) == bit8(x, j),
{
    if level {
        set_bit8(x, i)
    } else {
        clear_bit8(x, i)
    }
}

/// Flip bit `i` of `x`; every other bit keeps its value.
pub fn toggle_bit8(x: u8, i: u8) -> (r: u8)
    requires
        i < 8,
    ensures
        bit8(r, i) == !bit8(x, i),
        forall|j: u8| j < 8 && j != i ==> bit8(r, j) == bit8(x, j),
{
    let r = x ^ (1u8 << i);
    proof {
        assert(bit8(x ^ (1u8 << i), i) == !bit8(x, i) && forall|j: u8|
            j < 8 && j != i ==> bit8(x ^ (1u8 << i), j) == bit8(x, j)) by (bit_vector)
            requires
                i < 8,
        ;
    }
    r
}

} // verus!
