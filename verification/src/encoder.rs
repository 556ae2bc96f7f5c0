//! The signature encoder: turns an ordered list of ABI categories and an
//! optional return category into the compact signature string the guest
//! virtual machine matches native symbols against.

use vstd::prelude::*;

verus! {

use crate::types::WAMRTypes;
use crate::types::sig_char_text;
use vstd::string::StrSliceExecFns;
use vstd::string::StringExecFns;

/// The concatenated encoding characters of a parameter list, in declaration
/// order.
pub open spec fn sig_text(params: Seq<WAMRTypes>) -> Seq<char>
    decreases params.len(),
{
    if params.len() == 0 {
        Seq::<char>::empty()
    } else {
        sig_text(params.drop_last()) + sig_char_text(params.last())
    }
}

/// The encoded signature: with a return category the parameter characters
/// are wrapped in parentheses and the return character appended; without
/// one, the bare parameter characters are the whole signature.
pub open spec fn encoded_signature(params: Seq<WAMRTypes>, ret: Option<WAMRTypes>) -> Seq<char> {
    match ret {
        None => sig_text(params),
        Some(r) => "("@ + sig_text(params) + ")"@ + sig_char_text(r),
    }
}

/// Encodes a parameter list and an optional return category into the
/// signature string.
pub fn encode_signature(params: &Vec<WAMRTypes>, ret: &Option<WAMRTypes>) -> (r: String)
    ensures
        r@ == encoded_signature(params@, *ret),
{
    let mut body = String::new();
    let mut i: usize = 0;
    while i < params.len()
        invariant
            i <= params@.len(),
            body@ == sig_text(params@.take(i as int)),
        decreases params@.len() - i,
    {
        let c = params[i].to_string();
        body.append(c.as_str());
        proof {
            assert(params@.take(i + 1 as int).drop_last() =~= params@.take(i as int));
        }
        i = i + 1;
    }
    proof {
        assert(params@.take(params@.len() as int) =~= params@);
    }
    match ret {
        None => body,
        Some(rc) => {
            let mut r = String::from_str("(");
            r.append(body.as_str());
            r.append(")");
            let c = rc.to_string();
            r.append(c.as_str());
            proof {
                assert(r@ =~= encoded_signature(params@, *ret));
            }
            r
        },
    }
}

/// The buffer-length rule of signature text: a `~` marker (the length of a
/// raw buffer) is meaningful only directly after a `*` marker (the buffer's
/// address).
pub open spec fn buffer_markers_ok(s: Seq<char>) -> bool {
    forall|i: int| 0 <= i < s.len() && #[trigger] s[i] == '~' ==> i > 0 && s[i - 1] == '*'
}

/// Checks the buffer-length rule over a signature string, as written by a
/// caller that supplies its own signature.
pub fn check_buffer_markers(s: &str) -> (r: bool)
    ensures
        r == buffer_markers_ok(s@),
{
    let n = s.unicode_len();
    let mut i: usize = 0;
    while i < n
        invariant
            i <= n,
            n == s@.len(),
            forall|j: int| 0 <= j < i && #[trigger] s@[j] == '~' ==> j > 0 && s@[j - 1] == '*',
        decreases n - i,
    {
        let c = s.get_char(i);
        if c == '~' {
            if i == 0 {
                return false;
            }
            let p = s.get_char(i - 1);
            if p != '*' {
                return false;
            }
        }
        i = i + 1;
    }
    true
}

} // verus!
