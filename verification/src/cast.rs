//! The marshalling synthesizer: for one classified parameter, the text of
//! the native-side statements that turn the wire-width value held under the
//! parameter's identifier into a value of its native type.
//!
//! The safety rule of the whole generator lives here: for a guest string or
//! a guest pointer, the emitted code validates the guest address against the
//! instance's memory bounds before it translates or dereferences it.

use vstd::prelude::*;

verus! {

use crate::types::NativeType;
use crate::types::WAMRTypes;
use crate::types::classify_spec;
use crate::types::render_type;
use crate::types::type_text;
use crate::strutil::str_eq;
use vstd::string::StringExecFns;

/// A checked numeric cast from the wire integer to the native integer type.
pub open spec fn int_cast_text(id: Seq<char>, dest: NativeType) -> Seq<char> {
    "let "@ + id + " = "@ + id + " as "@ + type_text(dest) + " ;"@
}

/// The validation statement for a guest string: asserts that the wire value
/// addresses a null-terminated sequence wholly inside guest memory.
pub open spec fn string_validate_text(id: Seq<char>) -> Seq<char> {
    "assert ! (unsafe { wamr_sys :: wasm_runtime_validate_app_str_addr (__wamr_instance , "@ + id
        + ") } , \"Invalid pointer\") ;"@
}

/// The translation statement for a guest string: converts the validated
/// guest offset into a native pointer.
pub open spec fn string_translate_text(id: Seq<char>) -> Seq<char> {
    "let "@ + id
        + " : * const char = unsafe { std :: mem :: transmute (wamr_sys :: wasm_runtime_addr_app_to_native (__wamr_instance , "@
        + id + ")) } ;"@
}

/// The read statement for a guest string: reads the null-terminated bytes as
/// a borrowed text view, copying into an owned value where the native type
/// requires ownership.
pub open spec fn string_read_text(id: Seq<char>, owned: bool) -> Seq<char> {
    "let "@ + id + " = unsafe { std :: ffi :: CStr :: from_ptr ("@ + id
        + " as * const i8) } . to_str () . unwrap ()"@ + if owned {
        " . to_string () ;"@
    } else {
        " ;"@
    }
}

/// The whole guest-string conversion: validate, then translate, then read.
pub open spec fn string_cast_text(id: Seq<char>, owned: bool) -> Seq<char> {
    string_validate_text(id) + " "@ + string_translate_text(id) + " "@ + string_read_text(
        id,
        owned,
    )
}

/// The length expression a guest-pointer validation checks: the size of the
/// destination's pointee type, not a fixed constant.
pub open spec fn size_of_text(elem: Seq<char>) -> Seq<char> {
    "std :: mem :: size_of :: < "@ + elem + " > () as u32"@
}

/// The validation statement for a guest pointer: asserts that the wire
/// value addresses at least `size_of` the pointee inside guest memory.
pub open spec fn pointer_validate_text(id: Seq<char>, elem: Seq<char>) -> Seq<char> {
    "assert ! (unsafe { wamr_sys :: wasm_runtime_validate_app_addr (__wamr_instance , "@ + id
        + " , "@ + size_of_text(elem) + ") } , \"Invalid pointer\") ;"@
}

/// The translation statement for a guest pointer: converts the validated
/// guest offset into a native reference of the destination type.
pub open spec fn pointer_translate_text(id: Seq<char>, dest: NativeType) -> Seq<char> {
    "let "@ + id + " : "@ + type_text(dest)
        + " = unsafe { std :: mem :: transmute (wamr_sys :: wasm_runtime_addr_app_to_native (__wamr_instance , "@
        + id + ")) } ;"@
}

/// The pointee name of a reference destination.
pub open spec fn ref_elem_text(dest: NativeType) -> Seq<char> {
    match dest {
        NativeType::Reference { mutable, elem } => elem@,
        _ => Seq::<char>::empty(),
    }
}

/// The whole guest-pointer conversion: validate, then translate.
pub open spec fn pointer_cast_text(id: Seq<char>, dest: NativeType) -> Seq<char> {
    pointer_validate_text(id, ref_elem_text(dest)) + " "@ + pointer_translate_text(id, dest)
}

/// A pass-through native handle: reinterpreted bit-for-bit, no validation.
pub open spec fn handle_cast_text(id: Seq<char>, dest: NativeType) -> Seq<char> {
    "let "@ + id + " : "@ + type_text(dest) + " = unsafe { std :: mem :: transmute ("@ + id
        + ") } ;"@
}

/// Whether a guest-string destination requires an owned text value.
pub open spec fn string_dest_owned(dest: NativeType) -> bool {
    type_text(dest) == "String"@
}

/// Which destination types a category's conversion can target: a guest
/// string needs an owned or immutably borrowed text destination, a guest
/// pointer needs a reference destination, the rest take any destination.
pub open spec fn cast_compatible(t: WAMRTypes, dest: NativeType) -> bool {
    match t {
        WAMRTypes::String => string_dest_owned(dest) || (dest matches NativeType::Reference {
            mutable,
            elem,
        } && !mutable && elem@ == "str"@),
        WAMRTypes::Pointer => dest is Reference,
        _ => true,
    }
}

/// The conversion statements for one parameter of the given category: the
/// wire value held under `id` becomes a value of type `dest`.  A float's
/// wire representation already matches the native one, so its conversion is
/// empty.
pub open spec fn cast_text(t: WAMRTypes, id: Seq<char>, dest: NativeType) -> Seq<char> {
    match t {
        WAMRTypes::ShortIntegers | WAMRTypes::LongIntegers => int_cast_text(id, dest),
        WAMRTypes::ShortFloats | WAMRTypes::LongFloats => Seq::<char>::empty(),
        WAMRTypes::String => string_cast_text(id, string_dest_owned(dest)),
        WAMRTypes::Pointer => pointer_cast_text(id, dest),
        WAMRTypes::NativeReference => handle_cast_text(id, dest),
    }
}

/// Synthesized conversions depend on the destination type's shape alone.
pub proof fn lemma_cast_text_congruent(t: WAMRTypes, id: Seq<char>, a: NativeType, b: NativeType)
    requires
        crate::types::same_shape(a, b),
    ensures
        cast_text(t, id, a) == cast_text(t, id, b),
{
    crate::types::lemma_type_text_congruent(a, b);
}

/// A type a category was classified from is a type its conversion can
/// target.
pub proof fn lemma_classified_compatible(t: WAMRTypes, dest: NativeType)
    requires
        classify_spec(dest) == Some(t),
    ensures
        cast_compatible(t, dest),
{
}

/// Validation precedes dereference: in generated guest-string marshalling
/// code the bounds-validation statement is the first statement, and the
/// address translation and the read both stand after it.
pub proof fn lemma_string_cast_validates_first(id: Seq<char>, dest: NativeType)
    ensures
        cast_text(WAMRTypes::String, id, dest) == string_validate_text(id) + " "@
            + string_translate_text(id) + " "@ + string_read_text(id, string_dest_owned(dest)),
        cast_text(WAMRTypes::String, id, dest).take(string_validate_text(id).len() as int)
            == string_validate_text(id),
{
    assert(cast_text(WAMRTypes::String, id, dest).take(string_validate_text(id).len() as int)
        =~= string_validate_text(id));
}

/// Validation precedes reinterpretation: in generated guest-pointer
/// marshalling code the bounds-validation statement is the first statement,
/// and the translation stands after it.
pub proof fn lemma_pointer_cast_validates_first(id: Seq<char>, dest: NativeType)
    ensures
        cast_text(WAMRTypes::Pointer, id, dest) == pointer_validate_text(id, ref_elem_text(dest))
            + " "@ + pointer_translate_text(id, dest),
        cast_text(WAMRTypes::Pointer, id, dest).take(
            pointer_validate_text(id, ref_elem_text(dest)).len() as int,
        ) == pointer_validate_text(id, ref_elem_text(dest)),
{
    assert(cast_text(WAMRTypes::Pointer, id, dest).take(
        pointer_validate_text(id, ref_elem_text(dest)).len() as int,
    ) =~= pointer_validate_text(id, ref_elem_text(dest)));
}

/// The length a generated guest-pointer validation hands the validator is
/// exactly `size_of` of the destination reference's pointee type.
pub proof fn lemma_pointer_validates_pointee_size(id: Seq<char>, mutable: bool, elem: String)
    ensures
        ref_elem_text(NativeType::Reference { mutable, elem }) == elem@,
        pointer_validate_text(id, elem@)
            == "assert ! (unsafe { wamr_sys :: wasm_runtime_validate_app_addr (__wamr_instance , "@
            + id + " , "@ + "std :: mem :: size_of :: < "@ + elem@ + " > () as u32"@
            + ") } , \"Invalid pointer\") ;"@,
{
}

impl WAMRTypes {
    /// Synthesizes the conversion statements that turn the wire-width value
    /// held under `identifier` into a value of type `destination`.
    pub fn get_cast(&self, identifier: &str, destination: &NativeType) -> (r: String)
        requires
            cast_compatible(*self, *destination),
        ensures
            r@ == cast_text(*self, identifier@, *destination),
    {
        match self {
            WAMRTypes::ShortIntegers | WAMRTypes::LongIntegers => {
                let mut r = String::from_str("let ");
                r.append(identifier);
                r.append(" = ");
                r.append(identifier);
                r.append(" as ");
                let d = render_type(destination);
                r.append(d.as_str());
                r.append(" ;");
                proof {
                    assert(r@ =~= cast_text(*self, identifier@, *destination));
                }
                r
            },
            WAMRTypes::ShortFloats | WAMRTypes::LongFloats => String::new(),
            WAMRTypes::String => {
                let d = render_type(destination);
                let owned = str_eq(d.as_str(), "String");
                let mut r = String::from_str(
                    "assert ! (unsafe { wamr_sys :: wasm_runtime_validate_app_str_addr (__wamr_instance , ",
                );
                r.append(identifier);
                r.append(") } , \"Invalid pointer\") ;");
                r.append(" ");
                r.append("let ");
                r.append(identifier);
                r.append(
                    " : * const char = unsafe { std :: mem :: transmute (wamr_sys :: wasm_runtime_addr_app_to_native (__wamr_instance , ",
                );
                r.append(identifier);
                r.append(")) } ;");
                r.append(" ");
                r.append("let ");
                r.append(identifier);
                r.append(" = unsafe { std :: ffi :: CStr :: from_ptr (");
                r.append(identifier);
                r.append(" as * const i8) } . to_str () . unwrap ()");
                if owned {
                    r.append(" . to_string () ;");
                } else {
                    r.append(" ;");
                }
                proof {
                    assert(r@ =~= cast_text(*self, identifier@, *destination));
                }
                r
            },
            WAMRTypes::Pointer => {
                let elem = match destination {
                    NativeType::Reference { mutable, elem } => elem.as_str(),
                    _ => "",
                };
                let mut r = String::from_str(
                    "assert ! (unsafe { wamr_sys :: wasm_runtime_validate_app_addr (__wamr_instance , ",
                );
                r.append(identifier);
                r.append(" , ");
                r.append("std :: mem :: size_of :: < ");
                r.append(elem);
                r.append(" > () as u32");
                r.append(") } , \"Invalid pointer\") ;");
                r.append(" ");
                r.append("let ");
                r.append(identifier);
                r.append(" : ");
                let d = render_type(destination);
                r.append(d.as_str());
                r.append(
                    " = unsafe { std :: mem :: transmute (wamr_sys :: wasm_runtime_addr_app_to_native (__wamr_instance , ",
                );
                r.append(identifier);
                r.append(")) } ;");
                proof {
                    assert(r@ =~= cast_text(*self, identifier@, *destination));
                }
                r
            },
            WAMRTypes::NativeReference => {
                let mut r = String::from_str("let ");
                r.append(identifier);
                r.append(" : ");
                let d = render_type(destination);
                r.append(d.as_str());
                r.append(" = unsafe { std :: mem :: transmute (");
                r.append(identifier);
                r.append(") } ;");
                proof {
                    assert(r@ =~= cast_text(*self, identifier@, *destination));
                }
                r
            },
        }
    }
}

} // verus!
