//! Low-level text assembly: appending string bytes, decimal numbers and
//! quoted/escaped strings to a growable byte buffer.
//!
//! All output of this library is built byte by byte into `Vec<u8>` buffers;
//! each helper here states exactly which bytes it appends.

use vstd::prelude::*;
use vstd::string::StringSliceAdditionalSpecFns;

verus! {

/// The decimal digit sequence of `n` (most significant digit first),
/// e.g. `dec_rep(42) == seq![b'4', b'2']`.
pub open spec fn dec_rep(n: nat) -> Seq<u8>
    decreases n,
{
    if n < 10 {
        seq![(48 + n) as u8]
    } else {
        dec_rep(n / 10) + seq![(48 + n % 10) as u8]
    }
}

/// How one byte is escaped inside a quoted string: quote, backslash and
/// newline get a backslash escape, every other byte stands as it is.
pub open spec fn esc_byte(b: u8) -> Seq<u8> {
    if b == 34 {
        seq![92u8, 34u8]
    } else if b == 92 {
        seq![92u8, 92u8]
    } else if b == 10 {
        seq![92u8, 110u8]
    } else {
        seq![b]
    }
}

/// The escaped form of a whole byte sequence.
pub open spec fn escaped(s: Seq<u8>) -> Seq<u8>
    decreases s.len(),
{
    if s.len() == 0 {
        Seq::empty()
    } else {
        escaped(s.drop_last()) + esc_byte(s.last())
    }
}

/// The quoted form of a byte sequence: `"` + escaped bytes + `"`.
pub open spec fn quoted(s: Seq<u8>) -> Seq<u8> {
    seq![34u8] + escaped(s) + seq![34u8]
}

/// Appends the bytes of `s` to `buf`.
pub fn append_str(buf: &mut Vec<u8>, s: &str)
    ensures
        final(buf)@ == old(buf)@ + s.spec_bytes(),
{
    buf.extend_from_slice(s.as_bytes());
}

/// Appends the decimal representation of `n` to `buf`.
pub fn append_dec(buf: &mut Vec<u8>, n: u64)
    ensures
        final(buf)@ == old(buf)@ + dec_rep(n as nat),
    decreases n,
{
    if n >= 10 {
        append_dec(buf, n / 10);
    }
    buf.push((48 + (n % 10)) as u8);
    proof {
        assert(buf@ =~= old(buf)@ + dec_rep(n as nat));
    }
}

/// Appends `s` wrapped in double quotes, escaping quote, backslash and
/// newline bytes with a backslash.
pub fn append_quoted(buf: &mut Vec<u8>, s: &str)
    ensures
        final(buf)@ == old(buf)@ + quoted(s.spec_bytes()),
{
    let bytes = s.as_bytes();
    buf.push(34);
    let ghost start = buf@;
    let mut i: usize = 0;
    while i < bytes.len()
        invariant
            i <= bytes.len(),
            buf@ == start + escaped(bytes@.take(i as int)),
        decreases bytes.len() - i,
    {
        let b = bytes[i];
        if b == 34 || b == 92 {
            buf.push(92);
            buf.push(b);
        } else if b == 10 {
            buf.push(92);
            buf.push(110);
        } else {
            buf.push(b);
        }
        proof {
            assert(bytes@.take(i as int + 1).drop_last() =~= bytes@.take(i as int));
            assert(bytes@.take(i as int + 1).last() == bytes@[i as int]);
            assert(buf@ =~= start + escaped(bytes@.take(i as int + 1)));
        }
        i += 1;
    }
    buf.push(34);
    proof {
        assert(bytes@.take(bytes@.len() as int) =~= bytes@);
        assert(buf@ =~= old(buf)@ + quoted(s.spec_bytes()));
    }
}

} // verus!
