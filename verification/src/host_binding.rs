//! The host-function attribute's signature logic: a narrower, character
//! level classifier for directly registered host functions, and the
//! derivation of the registration record (twin identifier, registered name,
//! signature string) for one such function.

use vstd::prelude::*;

verus! {

use crate::types::BindgenError;
use crate::types::NativeType;
use crate::types::render_type;
use crate::types::type_text;
use crate::encoder::buffer_markers_ok;
use crate::encoder::check_buffer_markers;
use vstd::string::StringExecFns;

/// The encoding character a directly registered host function's parameter
/// or return type maps to, or `None` where the type is not supported on
/// this path.  It admits only 32- and 64-bit numbers, text references and
/// `u8` buffer pointers; a pointer-sized integer is a long integer, and a
/// mutable text reference is a raw guest pointer, never a transcoded
/// string — only an immutable text reference takes the string path.
pub open spec fn host_char(ty: NativeType) -> Option<char> {
    match ty {
        NativeType::Path { name } => {
            if name@ == "i32"@ || name@ == "u32"@ {
                Some('i')
            } else if name@ == "i64"@ || name@ == "u64"@ || name@ == "usize"@ {
                Some('I')
            } else if name@ == "f32"@ {
                Some('f')
            } else if name@ == "f64"@ {
                Some('F')
            } else {
                None
            }
        },
        NativeType::Reference { mutable, elem } => {
            if elem@ == "str"@ {
                if mutable {
                    Some('*')
                } else {
                    Some('$')
                }
            } else {
                None
            }
        },
        NativeType::RawPointer { elem } => {
            if elem@ == "u8"@ {
                Some('*')
            } else {
                None
            }
        },
        NativeType::NativeHandle { name } => None,
    }
}

/// The encoding character, with a placeholder for unsupported types.
pub open spec fn host_char_or(ty: NativeType) -> char {
    match host_char(ty) {
        Some(c) => c,
        None => ' ',
    }
}

/// Whether every parameter of the list is supported on this path.
pub open spec fn host_params_ok(params: Seq<NativeType>) -> bool {
    forall|i: int| 0 <= i < params.len() ==> host_char(#[trigger] params[i]) is Some
}

/// The concatenated encoding characters of the parameter list.
pub open spec fn host_params_text(params: Seq<NativeType>) -> Seq<char>
    decreases params.len(),
{
    if params.len() == 0 {
        Seq::<char>::empty()
    } else {
        host_params_text(params.drop_last()).push(host_char_or(params.last()))
    }
}

/// The computed signature of a directly registered host function: the bare
/// parameter characters when it returns nothing, the parenthesized form
/// with the return character appended when it does.
pub open spec fn host_signature_text(params: Seq<NativeType>, ret: Option<NativeType>) -> Seq<
    char,
> {
    match ret {
        None => host_params_text(params),
        Some(t) => seq!['('] + host_params_text(params) + seq![')'] + seq![host_char_or(t)],
    }
}

/// Maps one type to its encoding character on the direct-registration path.
pub fn get_signature_for_type(ty: &NativeType) -> (r: Option<char>)
    ensures
        r == host_char(*ty),
{
    match ty {
        NativeType::Path { name } => {
            let n = name.as_str();
            if crate::strutil::str_eq(n, "i32") || crate::strutil::str_eq(n, "u32") {
                Some('i')
            } else if crate::strutil::str_eq(n, "i64") || crate::strutil::str_eq(n, "u64")
                || crate::strutil::str_eq(n, "usize") {
                Some('I')
            } else if crate::strutil::str_eq(n, "f32") {
                Some('f')
            } else if crate::strutil::str_eq(n, "f64") {
                Some('F')
            } else {
                None
            }
        },
        NativeType::Reference { mutable, elem } => {
            if crate::strutil::str_eq(elem.as_str(), "str") {
                if *mutable {
                    Some('*')
                } else {
                    Some('$')
                }
            } else {
                None
            }
        },
        NativeType::RawPointer { elem } => {
            if crate::strutil::str_eq(elem.as_str(), "u8") {
                Some('*')
            } else {
                None
            }
        },
        NativeType::NativeHandle { name } => None,
    }
}

/// No computed signature holds a buffer-length marker, so every computed
/// signature satisfies the buffer-marker rule.
pub proof fn lemma_computed_signature_markers_ok(params: Seq<NativeType>, ret: Option<NativeType>)
    ensures
        buffer_markers_ok(host_signature_text(params, ret)),
{
    lemma_params_text_no_tilde(params);
    let s = host_signature_text(params, ret);
    assert forall|i: int| 0 <= i < s.len() && #[trigger] s[i] == '~' implies i > 0 && s[i - 1]
        == '*' by {
        match ret {
            None => {},
            Some(t) => {
                let p = host_params_text(params);
                if 1 <= i < 1 + p.len() {
                    assert(p[i - 1] != '~');
                }
            },
        }
    }
}

proof fn lemma_params_text_no_tilde(params: Seq<NativeType>)
    ensures
        forall|i: int|
            0 <= i < host_params_text(params).len() ==> #[trigger] host_params_text(params)[i]
                != '~',
    decreases params.len(),
{
    if params.len() > 0 {
        lemma_params_text_no_tilde(params.drop_last());
        let t = host_params_text(params);
        let p = host_params_text(params.drop_last());
        assert forall|i: int| 0 <= i < t.len() implies #[trigger] t[i] != '~' by {
            if i < p.len() {
                assert(p[i] != '~');
            } else {
                assert(t[i] == host_char_or(params.last()));
            }
        }
    }
}

/// The registration pieces derived for one directly registered host
/// function: the name of the generated externally-callable twin, the name
/// registered with the virtual machine, and the signature string.
#[derive(Debug)]
pub struct HostFunctionBinding {
    pub c_identifier: String,
    pub function_name: String,
    pub signature: String,
}

/// Derives the registration pieces of one host function.  A caller-supplied
/// signature replaces the computed one but must satisfy the buffer-marker
/// rule; without an override, every parameter and the return type must be
/// supported on this path.
pub fn generate_host_function(
    function_identifier: &str,
    name_override: &Option<String>,
    signature_override: &Option<String>,
    params: &Vec<NativeType>,
    ret: &Option<NativeType>,
) -> (r: Result<HostFunctionBinding, BindgenError>)
    ensures
        r is Ok <==> (match signature_override {
            Some(s) => buffer_markers_ok(s@),
            None => host_params_ok(params@) && (match ret {
                Some(t) => host_char(*t) is Some,
                None => true,
            }),
        }),
        r matches Ok(b) ==> {
            &&& b.c_identifier@ == function_identifier@ + "_c"@
            &&& b.function_name@ == (match name_override {
                Some(n) => n@,
                None => function_identifier@,
            })
            &&& b.signature@ == (match signature_override {
                Some(s) => s@,
                None => host_signature_text(params@, *ret),
            })
            &&& buffer_markers_ok(b.signature@)
        },
        r matches Err(e) ==> match e {
            BindgenError::InvalidSignatureOverride => signature_override matches Some(s)
                && !buffer_markers_ok(s@),
            BindgenError::UnsupportedType(n) => signature_override is None && {
                ||| exists|i: int|
                    0 <= i < params@.len() && host_char(#[trigger] params@[i]) is None && n@
                        == type_text(params@[i])
                ||| (ret matches Some(t) && host_char(*t) is None && n@ == type_text(*t))
            },
            BindgenError::MissingOwningType => false,
        },
{
    let signature: String = match signature_override {
        Some(s) => {
            if !check_buffer_markers(s.as_str()) {
                return Err(BindgenError::InvalidSignatureOverride);
            }
            s.clone()
        },
        None => {
            let mut body = String::new();
            let mut i: usize = 0;
            while i < params.len()
                invariant
                    signature_override is None,
                    i <= params@.len(),
                    body@ == host_params_text(params@.take(i as int)),
                    forall|k: int| 0 <= k < i ==> host_char(#[trigger] params@[k]) is Some,
                decreases params@.len() - i,
            {
                match get_signature_for_type(&params[i]) {
                    Some(c) => {
                        body.push(c);
                    },
                    None => {
                        let n = render_type(&params[i]);
                        proof {
                            assert(host_char(params@[i as int]) is None);
                            assert(!host_params_ok(params@));
                        }
                        return Err(BindgenError::UnsupportedType(n));
                    },
                }
                proof {
                    assert(params@.take(i + 1 as int).drop_last() =~= params@.take(i as int));
                }
                i = i + 1;
            }
            proof {
                assert(params@.take(params@.len() as int) =~= params@);
            }
            match ret {
                Some(t) => {
                    match get_signature_for_type(t) {
                        Some(c) => {
                            let mut sig = String::from_str("(");
                            sig.append(body.as_str());
                            sig.push(')');
                            sig.push(c);
                            proof {
                                reveal_strlit("(");
                                assert(sig@ =~= host_signature_text(params@, *ret));
                            }
                            sig
                        },
                        None => {
                            return Err(BindgenError::UnsupportedType(render_type(t)));
                        },
                    }
                },
                None => body,
            }
        },
    };
    proof {
        match signature_override {
            Some(s) => {},
            None => {
                lemma_computed_signature_markers_ok(params@, *ret);
            },
        }
    }
    let mut c_identifier = String::from_str(function_identifier);
    c_identifier.append("_c");
    let function_name = match name_override {
        Some(n) => n.clone(),
        None => String::from_str(function_identifier),
    };
    Ok(HostFunctionBinding { c_identifier, function_name, signature })
}

} // verus!
