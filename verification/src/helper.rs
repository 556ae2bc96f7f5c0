//! Decoding of the fixed-size error buffer the embedded runtime fills on a
//! failed load or instantiation.

use vstd::prelude::*;

verus! {

pub const DEFAULT_ERROR_BUF_SIZE: usize = 128;

/// The characters of an error buffer: its nonzero bytes, in order, each
/// read as the character of its single-byte value.
pub open spec fn error_chars(s: Seq<i8>) -> Seq<char>
    decreases s.len(),
{
    if s.len() == 0 {
        Seq::<char>::empty()
    } else {
        error_chars(s.drop_last()) + (if s.last() == 0 {
            Seq::<char>::empty()
        } else {
            seq![((s.last() as u8) as char)]
        })
    }
}

/// Reads a runtime error buffer as text: the buffer holds one
/// null-terminated message, possibly followed by leftover zero bytes, and
/// every nonzero byte is kept in order, each as one single-byte character.
pub fn error_buf_to_string(error_buf: &[i8; DEFAULT_ERROR_BUF_SIZE]) -> (r: String)
    ensures
        r@ == error_chars(error_buf@),
{
    let mut r = String::new();
    let mut i: usize = 0;
    while i < 128
        invariant
            i <= 128,
            error_buf@.len() == 128,
            r@ == error_chars(error_buf@.take(i as int)),
        decreases 128 - i,
    {
        let c = error_buf[i];
        if c != 0 {
            let b = #[verifier::truncate] (c as u8);
            r.push(b as char);
        }
        proof {
            assert(error_buf@.take(i + 1 as int).drop_last() =~= error_buf@.take(i as int));
            assert(r@ =~= error_chars(error_buf@.take(i + 1 as int)));
        }
        i = i + 1;
    }
    proof {
        assert(error_buf@.take(error_buf@.len() as int) =~= error_buf@);
    }
    r
}

} // verus!
