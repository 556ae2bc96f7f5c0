//! A model of the guest's linear memory, with the validation and read
//! primitives that generated marshalling code relies on: a guest address is
//! an offset into this memory, never a native pointer, and no guest-supplied
//! offset is read before its whole range is validated.

use vstd::prelude::*;

verus! {

use vstd::slice::slice_subrange;
use vstd::slice::slice_to_vec;

/// The guest's linear memory: a flat byte space addressed by offsets.
pub struct GuestMemory {
    data: Vec<u8>,
}

/// The position of the first zero byte at or after `i`, or the length of the
/// memory where there is none.
pub open spec fn find_nul(s: Seq<u8>, i: int) -> int
    decreases s.len() - i,
{
    if i < 0 || i >= s.len() {
        s.len() as int
    } else if s[i] == 0 {
        i
    } else {
        find_nul(s, i + 1)
    }
}

/// Whether a null-terminated byte sequence starts at `off` and lies wholly
/// inside the memory.
pub open spec fn has_nul(s: Seq<u8>, off: int) -> bool {
    0 <= off <= s.len() && find_nul(s, off) < s.len()
}

pub proof fn lemma_find_nul_bounds(s: Seq<u8>, i: int)
    requires
        0 <= i <= s.len(),
    ensures
        i <= find_nul(s, i) <= s.len(),
        find_nul(s, i) < s.len() ==> s[find_nul(s, i)] == 0,
        forall|j: int| i <= j < find_nul(s, i) ==> s[j] != 0,
    decreases s.len() - i,
{
    if i < s.len() && s[i] != 0 {
        lemma_find_nul_bounds(s, i + 1);
    }
}

/// Skipping a prefix of nonzero bytes does not move the first zero.
pub proof fn lemma_find_nul_skip(s: Seq<u8>, i: int, k: int)
    requires
        0 <= i <= k <= s.len(),
        forall|j: int| i <= j < k ==> s[j] != 0,
    ensures
        find_nul(s, i) == find_nul(s, k),
    decreases k - i,
{
    if i < k {
        lemma_find_nul_skip(s, i + 1, k);
    }
}

impl View for GuestMemory {
    type V = Seq<u8>;

    closed spec fn view(&self) -> Seq<u8> {
        self.data@
    }
}

impl GuestMemory {
    /// A guest memory holding the given bytes.
    pub fn new(data: Vec<u8>) -> (r: Self)
        ensures
            r@ == data@,
    {
        GuestMemory { data }
    }

    /// The size of the memory in bytes.
    pub fn size(&self) -> (r: usize)
        ensures
            r == self@.len(),
    {
        self.data.len()
    }

    /// Whether the range of `size` bytes at `app_offset` lies wholly inside
    /// the memory: the check every guest pointer passes before it is
    /// translated or dereferenced.
    pub fn validate_app_addr(&self, app_offset: u64, size: u64) -> (r: bool)
        ensures
            r == (app_offset + size <= self@.len()),
    {
        let len = self.data.len() as u64;
        app_offset <= len && size <= len - app_offset
    }

    /// Whether a null-terminated byte sequence starts at `app_offset` and
    /// lies wholly inside the memory: the check every guest string passes
    /// before it is read.
    pub fn validate_app_str_addr(&self, app_offset: u64) -> (r: bool)
        ensures
            r == has_nul(self@, app_offset as int),
    {
        let len = self.data.len();
        if app_offset > len as u64 {
            return false;
        }
        let mut p: usize = app_offset as usize;
        proof {
            lemma_find_nul_bounds(self@, p as int);
        }
        while p < len
            invariant
                app_offset as int <= p <= len,
                len == self@.len(),
                forall|j: int| app_offset as int <= j < p ==> self@[j] != 0,
            decreases len - p,
        {
            if self.data[p] == 0 {
                proof {
                    lemma_find_nul_skip(self@, app_offset as int, p as int);
                }
                return true;
            }
            p = p + 1;
        }
        proof {
            lemma_find_nul_skip(self@, app_offset as int, len as int);
        }
        false
    }

    /// Reads the null-terminated bytes at `app_offset`, without the
    /// terminator, after validating them; an offset with no terminator
    /// inside the memory yields nothing and reads nothing.
    pub fn read_guest_string(&self, app_offset: u64) -> (r: Option<Vec<u8>>)
        ensures
            r is Some <==> has_nul(self@, app_offset as int),
            r matches Some(b) ==> b@ == self@.subrange(
                app_offset as int,
                find_nul(self@, app_offset as int),
            ),
    {
        if !self.validate_app_str_addr(app_offset) {
            return None;
        }
        let len = self.data.len();
        proof {
            assert(app_offset as int <= self@.len());
        }
        let start: usize = app_offset as usize;
        proof {
            assert(start as int == app_offset as int);
        }
        let mut p: usize = start;
        proof {
            lemma_find_nul_bounds(self@, start as int);
        }
        while p < len
            invariant
                start <= p <= len,
                len == self@.len(),
                start as int == app_offset as int,
                has_nul(self@, app_offset as int),
                forall|j: int| start as int <= j < p ==> self@[j] != 0,
            decreases len - p,
        {
            if self.data[p] == 0 {
                proof {
                    lemma_find_nul_skip(self@, start as int, p as int);
                }
                let w = slice_subrange(self.data.as_slice(), start, p);
                return Some(slice_to_vec(w));
            }
            p = p + 1;
        }
        proof {
            lemma_find_nul_skip(self@, start as int, len as int);
        }
        None
    }

    /// Reads the `size` bytes at `app_offset` after validating the range;
    /// an out-of-bounds range yields nothing and reads nothing.  A caller
    /// marshalling a guest pointer passes exactly the size of the native
    /// pointee type.
    pub fn read_bytes(&self, app_offset: u64, size: u64) -> (r: Option<Vec<u8>>)
        ensures
            r is Some <==> app_offset + size <= self@.len(),
            r matches Some(b) ==> b@ == self@.subrange(
                app_offset as int,
                app_offset as int + size as int,
            ),
    {
        if !self.validate_app_addr(app_offset, size) {
            return None;
        }
        let len = self.data.len();
        proof {
            assert(app_offset as int + size as int <= len as int);
        }
        let start: usize = app_offset as usize;
        let sz: usize = size as usize;
        proof {
            assert(start as int == app_offset as int);
            assert(sz as int == size as int);
        }
        let end: usize = start + sz;
        let w = slice_subrange(self.data.as_slice(), start, end);
        Some(slice_to_vec(w))
    }
}

} // verus!
