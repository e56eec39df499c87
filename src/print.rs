use vstd::prelude::*;
use vstd::arithmetic::power2::{lemma2_to64, lemma_pow2_unfold, pow2};

verus! {

/// Upper-case digit character of the value `d < 16`.
pub open spec fn digit_char(d: int) -> u8 {
    if d < 10 {
        (48 + d) as u8
    } else {
        (55 + d) as u8
    }
}

/// The digits of `n` in base `b`, most significant first; no digit at all
/// for 0.
pub open spec fn digits(n: nat, b: nat) -> Seq<u8>
    decreases n,
{
    if n == 0 || b < 2 || n / b >= n {
        seq![]
    } else {
        digits(n / b, b).push(digit_char((n % b) as int))
    }
}

/// Size of the buffer that `u64_to_base` fills.
pub const DIGITS_CAPACITY: usize = 65;

/// Upper-case digit character of `d < 16`.
fn digit_of(d: u64) -> (r: u8)
    requires
        d < 16,
    ensures
        r == digit_char(d as int),
{
    if d < 10 {
        48 + d as u8
    } else {
        55 + d as u8
    }
}

/// Writes `addr` in base `base` (2 to 16, upper-case digits) at the end of a
/// 65-byte buffer, the bytes before the digits left zero, and returns the
/// buffer with the number of digits. 0 has no digits. Any other base is an
/// error.
pub fn u64_to_base(addr: u64, base: u8) -> (r: Result<([u8; 65], usize), ()>)
    ensures
        r.is_err() <==> !(2 <= base <= 16),
        r matches Ok((buf, len)) ==> {
            &&& len == digits(addr as nat, base as nat).len()
            &&& len <= DIGITS_CAPACITY
            &&& buf@.subrange(DIGITS_CAPACITY - len, DIGITS_CAPACITY as int) == digits(
                addr as nat,
                base as nat,
            )
            &&& forall|i: int| 0 <= i < DIGITS_CAPACITY - len ==> buf@[i] == 0
        },
{
    if !(2 <= base && base <= 16) {
        return Err(());
    }
    let mut buf: [u8; 65] = [0; 65];
    let mut n: u64 = addr;
    let mut idx: usize = DIGITS_CAPACITY;
    let b: u64 = base as u64;
    proof {
        lemma2_to64();
        lemma_pow2_unfold(65);
        assert(2 * n < pow2(65));
    }
    while n != 0 && idx > 0
        invariant
            2 <= b <= 16,
            b == base,
            idx <= DIGITS_CAPACITY,
            buf@.len() == DIGITS_CAPACITY,
            2 * n < pow2(idx as nat),
            digits(addr as nat, b as nat) == digits(n as nat, b as nat) + buf@.subrange(
                idx as int,
                DIGITS_CAPACITY as int,
            ),
            forall|i: int| 0 <= i < idx ==> buf@[i] == 0,
        decreases n,
    {
        let d = n % b;
        let next = n / b;
        proof {
            lemma_pow2_unfold(idx as nat);
            assert(2 * next <= n) by (nonlinear_arith)
                requires
                    next == n / b,
                    b >= 2,
            ;
            assert(next < n) by (nonlinear_arith)
                requires
                    next == n / b,
                    b >= 2,
                    n > 0,
            ;
            assert(n as nat / b as nat == next);
        }
        idx = idx - 1;
        let ghost tail = buf@.subrange(idx + 1, DIGITS_CAPACITY as int);
        buf[idx] = digit_of(d);
        assert(buf@.subrange(idx as int, DIGITS_CAPACITY as int) =~= seq![digit_char(d as int)]
            + tail);
        assert(digits(n as nat, b as nat) == digits(next as nat, b as nat).push(
            digit_char(d as int),
        ));
        assert(digits(next as nat, b as nat).push(digit_char(d as int)) + tail =~= digits(
            next as nat,
            b as nat,
        ) + (seq![digit_char(d as int)] + tail));
        n = next;
    }
    if n != 0 {
        return Err(());
    }
    assert(digits(n as nat, b as nat) =~= Seq::<u8>::empty());
    assert(digits(addr as nat, b as nat) =~= buf@.subrange(idx as int, DIGITS_CAPACITY as int));
    let len: usize = DIGITS_CAPACITY - idx;
    Ok((buf, len))
}

} // verus!
