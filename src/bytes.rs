use vstd::prelude::*;

verus! {

/// The unsigned byte with the same bit pattern as `x`.
pub open spec fn spec_unsigned_byte(x: i8) -> u8 {
    if x >= 0 {
        x as u8
    } else {
        (x + 256) as u8
    }
}

/// The signed byte with the same bit pattern as `b`.
pub open spec fn spec_signed_byte(b: u8) -> i8 {
    if b < 128 {
        b as i8
    } else {
        (b - 256) as i8
    }
}

pub fn unsigned_byte(x: i8) -> (r: u8)
    ensures
        r == spec_unsigned_byte(x),
{
    if x >= 0 {
        x as u8
    } else {
        (x as i16 + 256i16) as u8
    }
}

pub fn signed_byte(b: u8) -> (r: i8)
    ensures
        r == spec_signed_byte(b),
{
    if b < 128 {
        b as i8
    } else {
        (b as i16 - 256i16) as i8
    }
}

/// Reinterprets each signed byte as the unsigned byte with the same bits.
pub fn vec_i8_into_u8(v: Vec<i8>) -> (r: Vec<u8>)
    ensures
        r@ == v@.map_values(|x: i8| spec_unsigned_byte(x)),
{
    let mut r: Vec<u8> = Vec::with_capacity(v.len());
    let mut i: usize = 0;
    while i < v.len()
        invariant
            i <= v@.len(),
            r@ == v@.subrange(0, i as int).map_values(|x: i8| spec_unsigned_byte(x)),
        decreases v@.len() - i,
    {
        r.push(unsigned_byte(v[i]));
        i = i + 1;
        assert(v@.subrange(0, i as int) == v@.subrange(0, i - 1).push(v@[i - 1]));
    }
    assert(v@.subrange(0, v@.len() as int) == v@);
    r
}

/// Reinterprets each unsigned byte as the signed byte with the same bits.
pub fn vec_u8_into_i8(v: Vec<u8>) -> (r: Vec<i8>)
    ensures
        r@ == v@.map_values(|b: u8| spec_signed_byte(b)),
{
    let mut r: Vec<i8> = Vec::with_capacity(v.len());
    let mut i: usize = 0;
    while i < v.len()
        invariant
            i <= v@.len(),
            r@ == v@.subrange(0, i as int).map_values(|b: u8| spec_signed_byte(b)),
        decreases v@.len() - i,
    {
        r.push(signed_byte(v[i]));
        i = i + 1;
        assert(v@.subrange(0, i as int) == v@.subrange(0, i - 1).push(v@[i - 1]));
    }
    assert(v@.subrange(0, v@.len() as int) == v@);
    r
}

/// Converting to unsigned bytes and back gives the original bytes.
pub proof fn lemma_byte_round_trip(x: i8, b: u8)
    ensures
        spec_signed_byte(spec_unsigned_byte(x)) == x,
        spec_unsigned_byte(spec_signed_byte(b)) == b,
{
}

} // verus!
