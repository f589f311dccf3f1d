//! 256-bit values carried as byte strings and compared by their
//! little-endian numeric value, the convention bitcoin uses for targets.

use vstd::prelude::*;

verus! {

/// Value of a byte string read as a little-endian base-256 integer
/// (the byte at index 0 is the least significant).
pub open spec fn le_val(s: Seq<u8>) -> nat
    decreases s.len(),
{
    if s.len() == 0 {
        0
    } else {
        (s[0] + 256 * le_val(s.skip(1))) as nat
    }
}

/// Three-way comparison of the little-endian values of the byte strings
/// `a` and `b` from index `i` on: -1 when smaller, 0 when equal, 1 when
/// greater.
fn cmp_le_from(a: &Vec<u8>, b: &Vec<u8>, i: usize) -> (r: i8)
    requires
        a@.len() == b@.len(),
        i <= a@.len(),
    ensures
        (r == -1) <==> le_val(a@.skip(i as int)) < le_val(b@.skip(i as int)),
        (r == 0) <==> le_val(a@.skip(i as int)) == le_val(b@.skip(i as int)),
        (r == 1) <==> le_val(a@.skip(i as int)) > le_val(b@.skip(i as int)),
    decreases a@.len() - i,
{
    if i == a.len() {
        proof {
            assert(a@.skip(i as int) =~= Seq::<u8>::empty());
            assert(b@.skip(i as int) =~= Seq::<u8>::empty());
        }
        0
    } else {
        let t = cmp_le_from(a, b, i + 1);
        let ai = a[i];
        let bi = b[i];
        proof {
            assert(a@.skip(i as int).skip(1) =~= a@.skip(i + 1));
            assert(b@.skip(i as int).skip(1) =~= b@.skip(i + 1));
            assert(a@.skip(i as int)[0] == a@[i as int]);
            assert(b@.skip(i as int)[0] == b@[i as int]);
            assert(le_val(a@.skip(i as int))
                == ai + 256 * le_val(a@.skip(i + 1)));
            assert(le_val(b@.skip(i as int))
                == bi + 256 * le_val(b@.skip(i + 1)));
        }
        if t == 0 {
            if ai < bi {
                -1
            } else if ai > bi {
                1
            } else {
                0
            }
        } else {
            t
        }
    }
}

/// The null 256-bit target: 32 zero bytes, which no hash can meet.
pub open spec fn zero_target() -> Seq<u8> {
    Seq::new(32, |i: int| 0u8)
}

/// A 32-byte string of zeroes is the null target.
pub proof fn lemma_zero_target(s: Seq<u8>)
    requires
        s.len() == 32,
        forall|i: int| 0 <= i < 32 ==> s[i] == 0u8,
    ensures
        s == zero_target(),
{
    assert(s =~= zero_target());
}

/// Whether `le_val(a) <= le_val(b)`, for byte strings of equal length.
pub fn u256_le(a: &Vec<u8>, b: &Vec<u8>) -> (r: bool)
    requires
        a@.len() == b@.len(),
    ensures
        r == (le_val(a@) <= le_val(b@)),
{
    let c = cmp_le_from(a, b, 0);
    proof {
        assert(a@.skip(0) =~= a@);
        assert(b@.skip(0) =~= b@);
    }
    c != 1
}

} // verus!
