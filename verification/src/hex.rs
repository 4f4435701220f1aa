//! Lower-case hexadecimal rendering of byte strings, as used by the
//! build-id naming convention.

use vstd::prelude::*;

verus! {

/// Lower-case hexadecimal digit character (as a byte) for a value below 16.
pub open spec fn spec_hex_digit(n: u8) -> u8
    recommends
        n < 16,
{
    if n < 10 {
        (0x30 + n) as u8
    } else {
        (0x57 + n) as u8
    }
}

/// The two lower-case hexadecimal digits of one byte, high digit first.
pub open spec fn spec_hex_byte(b: u8) -> Seq<u8> {
    seq![spec_hex_digit(b / 16), spec_hex_digit(b % 16)]
}

/// Lower-case hexadecimal rendering of a byte string: two digits per byte,
/// in byte order.
pub open spec fn spec_hex(bs: Seq<u8>) -> Seq<u8>
    decreases bs.len(),
{
    if bs.len() == 0 {
        Seq::empty()
    } else {
        spec_hex(bs.drop_last()) + spec_hex_byte(bs.last())
    }
}

/// Executable twin of `spec_hex_digit`.
pub fn hex_digit(n: u8) -> (r: u8)
    requires
        n < 16,
    ensures
        r == spec_hex_digit(n),
{
    if n < 10 {
        0x30 + n
    } else {
        0x57 + n
    }
}

/// Appends the lower-case hexadecimal digits of `bs` to `out`.
pub fn push_hex(out: &mut Vec<u8>, bs: &[u8])
    ensures
        final(out)@ == old(out)@ + spec_hex(bs@),
{
    let mut i: usize = 0;
    while i < bs.len()
        invariant
            i <= bs@.len(),
            out@ == old(out)@ + spec_hex(bs@.take(i as int)),
        decreases bs@.len() - i,
    {
        let b = bs[i];
        out.push(hex_digit(b / 16));
        out.push(hex_digit(b % 16));
        proof {
            let t = bs@.take(i + 1);
            assert(t.drop_last() =~= bs@.take(i as int));
            assert(t.last() == b);
            assert(old(out)@ + spec_hex(bs@.take(i as int)) + spec_hex_byte(b) =~= old(out)@
                + spec_hex(t));
        }
        i = i + 1;
    }
    proof {
        assert(bs@.take(bs@.len() as int) =~= bs@);
    }
}

} // verus!
