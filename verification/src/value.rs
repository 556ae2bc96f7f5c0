//! Wire values of a guest call: the packing of native values into the
//! 32-bit words a call crosses the boundary in, the unpacking of a result
//! buffer by the callee's declared result kinds, and the deterministic
//! narrowing of a wide return value into a narrower wire slot.

use vstd::prelude::*;

verus! {

use crate::ExecError;
use crate::RuntimeError;
use vstd::slice::slice_subrange;
use vstd::string::StringExecFns;

/// A value crossing the host/guest call boundary.  Floating-point and
/// 128-bit vector values are carried as their bit patterns: the wire form is
/// bit-exact and the marshalling layer never computes with them.
#[derive(Debug, PartialEq, Eq, Structural, Clone, Copy)]
pub enum WasmValue {
    Void,
    I32(i32),
    I64(i64),
    F32(u32),
    F64(u64),
    V128(u128),
}

/// The declared kind of one result slot of an exported function.
#[derive(Debug, PartialEq, Eq, Structural, Clone, Copy)]
pub enum WasmValKind {
    I32,
    I64,
    F32,
    F64,
    V128,
    FuncRef,
    ExternRef,
}

/// A 64-bit value from its low and high wire words.
pub open spec fn join64(lo: u32, hi: u32) -> u64 {
    ((hi as u64) << 32u64) | (lo as u64)
}

/// A 128-bit value from its four wire words, lowest first.
pub open spec fn join128(w0: u32, w1: u32, w2: u32, w3: u32) -> u128 {
    ((w3 as u128) << 96u128) | ((w2 as u128) << 64u128) | ((w1 as u128) << 32u128) | (w0 as u128)
}

/// The wire words of one value, lowest word first.
pub open spec fn encode_spec(v: WasmValue) -> Seq<u32> {
    match v {
        WasmValue::Void => Seq::<u32>::empty(),
        WasmValue::I32(x) => seq![x as u32],
        WasmValue::I64(x) => seq![(x as u64) as u32, ((x as u64) >> 32u64) as u32],
        WasmValue::F32(b) => seq![b],
        WasmValue::F64(b) => seq![b as u32, (b >> 32u64) as u32],
        WasmValue::V128(b) => seq![
            b as u32,
            (b >> 32u128) as u32,
            (b >> 64u128) as u32,
            (b >> 96u128) as u32,
        ],
    }
}

/// How many wire words one result slot of the given kind occupies.
pub open spec fn kind_words(k: WasmValKind) -> int {
    match k {
        WasmValKind::I32 | WasmValKind::F32 | WasmValKind::FuncRef | WasmValKind::ExternRef => 1,
        WasmValKind::I64 | WasmValKind::F64 => 2,
        WasmValKind::V128 => 4,
    }
}

/// The total wire words a list of result kinds occupies.
pub open spec fn total_words(ks: Seq<WasmValKind>) -> int
    decreases ks.len(),
{
    if ks.len() == 0 {
        0
    } else {
        kind_words(ks.first()) + total_words(ks.drop_first())
    }
}

pub proof fn lemma_total_words_nonneg(ks: Seq<WasmValKind>)
    ensures
        total_words(ks) >= 0,
    decreases ks.len(),
{
    if ks.len() > 0 {
        lemma_total_words_nonneg(ks.drop_first());
    }
}

/// The value decoded from the words at `at`, by the slot's kind.  A
/// function or extern reference travels in an integer slot.
pub open spec fn decode_at(k: WasmValKind, ws: Seq<u32>, at: int) -> WasmValue {
    match k {
        WasmValKind::I32 | WasmValKind::FuncRef | WasmValKind::ExternRef => WasmValue::I32(
            ws[at] as i32,
        ),
        WasmValKind::I64 => WasmValue::I64(join64(ws[at], ws[at + 1]) as i64),
        WasmValKind::F32 => WasmValue::F32(ws[at]),
        WasmValKind::F64 => WasmValue::F64(join64(ws[at], ws[at + 1])),
        WasmValKind::V128 => WasmValue::V128(join128(ws[at], ws[at + 1], ws[at + 2], ws[at + 3])),
    }
}

/// The values decoded from consecutive slots starting at `at`.
pub open spec fn parse_words(ks: Seq<WasmValKind>, ws: Seq<u32>, at: int) -> Seq<WasmValue>
    decreases ks.len(),
{
    if ks.len() == 0 {
        Seq::<WasmValue>::empty()
    } else {
        seq![decode_at(ks.first(), ws, at)] + parse_words(
            ks.drop_first(),
            ws,
            at + kind_words(ks.first()),
        )
    }
}

/// The parsed result of a call: one value per declared result slot, or the
/// single void value for a function with no results.
pub open spec fn parse_result_spec(ks: Seq<WasmValKind>, ws: Seq<u32>) -> Seq<WasmValue> {
    if ks.len() == 0 {
        seq![WasmValue::Void]
    } else {
        parse_words(ks, ws, 0)
    }
}

impl WasmValue {
    /// Packs this value into its wire words, lowest word first.
    pub fn encode(&self) -> (r: Vec<u32>)
        ensures
            r@ == encode_spec(*self),
    {
        let mut r: Vec<u32> = Vec::new();
        match self {
            WasmValue::Void => {},
            WasmValue::I32(x) => {
                r.push(*x as u32);
            },
            WasmValue::I64(x) => {
                r.push((*x as u64) as u32);
                r.push(((*x as u64) >> 32u64) as u32);
            },
            WasmValue::F32(b) => {
                r.push(*b);
            },
            WasmValue::F64(b) => {
                r.push(*b as u32);
                r.push((*b >> 32u64) as u32);
            },
            WasmValue::V128(b) => {
                r.push(*b as u32);
                r.push((*b >> 32u128) as u32);
                r.push((*b >> 64u128) as u32);
                r.push((*b >> 96u128) as u32);
            },
        }
        proof {
            assert(r@ =~= encode_spec(*self));
        }
        r
    }

    /// Reads one integer wire word as a 32-bit value.
    pub fn decode_to_i32(words: &[u32]) -> (r: WasmValue)
        requires
            words@.len() == 1,
        ensures
            r == WasmValue::I32(words@[0] as i32),
    {
        WasmValue::I32(words[0] as i32)
    }

    /// Joins two wire words into a 64-bit integer value.
    pub fn decode_to_i64(words: &[u32]) -> (r: WasmValue)
        requires
            words@.len() == 2,
        ensures
            r == WasmValue::I64(join64(words@[0], words@[1]) as i64),
    {
        WasmValue::I64((((words[1] as u64) << 32u64) | (words[0] as u64)) as i64)
    }

    /// Reads one wire word as the bit pattern of a 32-bit float.
    pub fn decode_to_f32(words: &[u32]) -> (r: WasmValue)
        requires
            words@.len() == 1,
        ensures
            r == WasmValue::F32(words@[0]),
    {
        WasmValue::F32(words[0])
    }

    /// Joins two wire words into the bit pattern of a 64-bit float.
    pub fn decode_to_f64(words: &[u32]) -> (r: WasmValue)
        requires
            words@.len() == 2,
        ensures
            r == WasmValue::F64(join64(words@[0], words@[1])),
    {
        WasmValue::F64(((words[1] as u64) << 32u64) | (words[0] as u64))
    }

    /// Joins four wire words into a 128-bit vector value, lowest word first.
    pub fn decode_to_v128(words: &[u32]) -> (r: WasmValue)
        requires
            words@.len() == 4,
        ensures
            r == WasmValue::V128(join128(words@[0], words@[1], words@[2], words@[3])),
    {
        WasmValue::V128(
            ((words[3] as u128) << 96u128) | ((words[2] as u128) << 64u128) | ((
            words[1] as u128) << 32u128) | (words[0] as u128),
        )
    }
}

/// Unpacks a call's result buffer by the callee's declared result kinds:
/// one value per slot, in order, each read from its own words; a callee
/// with no result slots yields the single void value.
pub fn parse_result(kinds: &Vec<WasmValKind>, argv: &Vec<u32>) -> (r: Vec<WasmValue>)
    requires
        total_words(kinds@) <= argv@.len(),
    ensures
        r@ == parse_result_spec(kinds@, argv@),
{
    let mut r: Vec<WasmValue> = Vec::new();
    if kinds.len() == 0 {
        r.push(WasmValue::Void);
        return r;
    }
    let n = argv.len();
    let mut i: usize = 0;
    let mut p: usize = 0;
    proof {
        assert(kinds@.skip(0) =~= kinds@);
    }
    while i < kinds.len()
        invariant
            i <= kinds@.len(),
            n == argv@.len(),
            total_words(kinds@) <= argv@.len(),
            p == total_words(kinds@) - total_words(kinds@.skip(i as int)),
            parse_words(kinds@, argv@, 0) == r@ + parse_words(
                kinds@.skip(i as int),
                argv@,
                p as int,
            ),
        decreases kinds@.len() - i,
    {
        proof {
            assert(kinds@.skip(i as int).first() == kinds@[i as int]);
            assert(kinds@.skip(i as int).drop_first() =~= kinds@.skip(i + 1 as int));
            lemma_total_words_nonneg(kinds@.skip(i + 1 as int));
            lemma_total_words_nonneg(kinds@.skip(i as int));
            assert(p + kind_words(kinds@[i as int]) <= n);
        }
        let k = kinds[i];
        let v = match k {
            WasmValKind::I32 | WasmValKind::FuncRef | WasmValKind::ExternRef => {
                let w = slice_subrange(argv.as_slice(), p, p + 1);
                p = p + 1;
                WasmValue::decode_to_i32(w)
            },
            WasmValKind::I64 => {
                let w = slice_subrange(argv.as_slice(), p, p + 2);
                p = p + 2;
                WasmValue::decode_to_i64(w)
            },
            WasmValKind::F32 => {
                let w = slice_subrange(argv.as_slice(), p, p + 1);
                p = p + 1;
                WasmValue::decode_to_f32(w)
            },
            WasmValKind::F64 => {
                let w = slice_subrange(argv.as_slice(), p, p + 2);
                p = p + 2;
                WasmValue::decode_to_f64(w)
            },
            WasmValKind::V128 => {
                let w = slice_subrange(argv.as_slice(), p, p + 4);
                p = p + 4;
                WasmValue::decode_to_v128(w)
            },
        };
        r.push(v);
        proof {
            assert(parse_words(kinds@, argv@, 0) =~= r@ + parse_words(
                kinds@.skip(i + 1 as int),
                argv@,
                p as int,
            ));
        }
        i = i + 1;
    }
    proof {
        assert(kinds@.skip(kinds@.len() as int) =~= Seq::<WasmValKind>::empty());
    }
    r
}

/// The wire words of a whole parameter list, in declaration order.
pub open spec fn encode_all(params: Seq<WasmValue>) -> Seq<u32>
    decreases params.len(),
{
    if params.len() == 0 {
        Seq::<u32>::empty()
    } else {
        encode_all(params.drop_last()) + encode_spec(params.last())
    }
}

/// The argument buffer of a call: the encoded parameters, truncated or
/// zero-padded to the buffer's capacity.
pub open spec fn call_buffer_spec(params: Seq<WasmValue>, cap: int) -> Seq<u32> {
    let e = encode_all(params);
    if e.len() >= cap {
        e.subrange(0, cap)
    } else {
        e + Seq::new((cap - e.len()) as nat, |i: int| 0u32)
    }
}

/// Packs a parameter list into the argument buffer of a call of a function
/// with `param_count` parameters and `result_count` results.  The buffer is
/// large enough for both the arguments and the results; a call with fewer
/// values than the function's parameters is refused.
pub fn prepare_call_arguments(
    params: &Vec<WasmValue>,
    param_count: u32,
    result_count: u32,
) -> (r: Result<Vec<u32>, RuntimeError>)
    requires
        4 * (if param_count > result_count {
            param_count
        } else {
            result_count
        }) <= usize::MAX,
    ensures
        r is Err <==> param_count > params@.len(),
        r is Err ==> (r matches Err(RuntimeError::ExecutionError(e)) && e.message@
            == "invalid parameters"@ && e.exit_code == 0xff),
        r matches Ok(argv) ==> argv@ == call_buffer_spec(
            params@,
            4 * (if param_count > result_count {
                param_count as int
            } else {
                result_count as int
            }),
        ),
{
    if param_count as usize > params.len() {
        return Err(
            RuntimeError::ExecutionError(
                ExecError {
                    message: String::from_str("invalid parameters"),
                    exit_code: 0xff,
                },
            ),
        );
    }
    let m = if param_count > result_count {
        param_count
    } else {
        result_count
    };
    let capacity: usize = (m as usize) * 4;
    let mut argv: Vec<u32> = Vec::new();
    let mut i: usize = 0;
    while i < params.len()
        invariant
            i <= params@.len(),
            argv@ == encode_all(params@.take(i as int)),
        decreases params@.len() - i,
    {
        let mut words = params[i].encode();
        argv.append(&mut words);
        proof {
            assert(params@.take(i + 1 as int).drop_last() =~= params@.take(i as int));
        }
        i = i + 1;
    }
    proof {
        assert(params@.take(params@.len() as int) =~= params@);
    }
    if argv.len() >= capacity {
        argv.truncate(capacity);
        proof {
            assert(argv@ =~= call_buffer_spec(params@, capacity as int));
        }
    } else {
        while argv.len() < capacity
            invariant
                argv@.len() <= capacity,
                encode_all(params@).len() <= argv@.len(),
                argv@.subrange(0, encode_all(params@).len() as int) == encode_all(params@),
                forall|j: int|
                    encode_all(params@).len() <= j < argv@.len() ==> argv@[j] == 0u32,
            decreases capacity - argv@.len(),
        {
            argv.push(0);
        }
        proof {
            assert(argv@ =~= call_buffer_spec(params@, capacity as int));
        }
    }
    Ok(argv)
}

/// Narrows a 64-bit return value into a 32-bit wire slot: deterministic
/// truncation to the low bits, by design and not an error.
pub fn narrow_long_to_short(v: u64) -> (r: u32)
    ensures
        r as u64 == v % 0x1_0000_0000u64,
{
    proof {
        assert((v as u32) as u64 == v % 0x1_0000_0000u64) by (bit_vector);
    }
    #[verifier::truncate]
    (v as u32)
}

} // verus!
