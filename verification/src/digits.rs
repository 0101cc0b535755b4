//! Decimal rendering of row counts, used when building the cursor-up escape
//! sequence.

use vstd::prelude::*;

verus! {

/// The decimal digit string of `n`, as ASCII bytes, most significant first.
pub open spec fn dec_of(n: nat) -> Seq<u8>
    decreases n,
{
    if n < 10 {
        seq![(48 + n) as u8]
    } else {
        dec_of(n / 10) + seq![(48 + n % 10) as u8]
    }
}

/// Renders `n` in decimal, matching `dec_of` byte for byte.
pub fn to_decimal(n: usize) -> (s: Vec<u8>)
    ensures
        s@ == dec_of(n as nat),
    decreases n,
{
    if n < 10 {
        let mut s: Vec<u8> = Vec::new();
        s.push(48 + n as u8);
        assert(s@ =~= dec_of(n as nat));
        s
    } else {
        assert(n / 10 < n && n % 10 < 10) by (nonlinear_arith)
            requires
                n >= 10,
        ;
        let mut s = to_decimal(n / 10);
        s.push(48 + (n % 10) as u8);
        assert(s@ =~= dec_of(n as nat));
        s
    }
}

} // verus!
