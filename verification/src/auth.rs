//! The admin key check that guards the admin API.

use vstd::prelude::*;

verus! {

/// True when `a` and `b` hold the same characters. Their UTF-8 bytes are
/// compared; when the lengths agree, every byte position is compared,
/// whatever the first difference, so that the time taken does not tell
/// where a guessed key goes wrong.
pub fn keys_equal(a: &str, b: &str) -> (r: bool)
    ensures
        r == (a@ == b@),
{
    let x = a.as_bytes();
    let y = b.as_bytes();
    let n = x.len();
    proof {
        vstd::utf8::encode_utf8_decode_utf8(a@);
        vstd::utf8::encode_utf8_decode_utf8(b@);
    }
    if n != y.len() {
        return false;
    }
    let mut diff: u8 = 0;
    let mut i: usize = 0;
    proof {
        assert(x@.subrange(0, 0) =~= y@.subrange(0, 0));
    }
    while i < n
        invariant
            n == x@.len(),
            n == y@.len(),
            0 <= i <= n,
            (diff == 0) == (x@.subrange(0, i as int) == y@.subrange(0, i as int)),
        decreases n - i,
    {
        let p = x[i];
        let q = y[i];
        proof {
            assert(x@.subrange(0, i + 1) =~= x@.subrange(0, i as int).push(p));
            assert(y@.subrange(0, i + 1) =~= y@.subrange(0, i as int).push(q));
            if x@.subrange(0, i + 1) == y@.subrange(0, i + 1) {
                assert(x@.subrange(0, i + 1)[i as int] == y@.subrange(0, i + 1)[i as int]);
                assert(x@.subrange(0, i as int) =~= x@.subrange(0, i + 1).drop_last());
                assert(y@.subrange(0, i as int) =~= y@.subrange(0, i + 1).drop_last());
            }
        }
        assert((diff | (p ^ q)) == 0 <==> (diff == 0 && p == q)) by (bit_vector);
        diff = diff | (p ^ q);
        i = i + 1;
    }
    proof {
        assert(x@.subrange(0, n as int) =~= x@);
        assert(y@.subrange(0, n as int) =~= y@);
    }
    diff == 0
}

/// An admin request is let through when it carries a key equal to the
/// configured admin key; one without a key is refused.
pub fn admin_key_accepted(provided: &Option<String>, expected: &str) -> (r: bool)
    ensures
        r == (provided matches Some(k) && k@ == expected@),
{
    match provided {
        Some(k) => keys_equal(k.as_str(), expected),
        None => false,
    }
}

} // verus!
