//! The type classifier: maps a native type descriptor onto one of the fixed
//! ABI categories the guest virtual machine understands, and renders the
//! texts the code generator needs of each category.

use vstd::prelude::*;

verus! {

use crate::strutil::str_eq;
use vstd::string::StringExecFns;

/// A fatal code-generation error.
#[derive(Debug, PartialEq, Eq)]
pub enum BindgenError {
    /// A parameter or return type no ABI category covers; carries the
    /// rendered type text.
    UnsupportedType(String),
    /// A receiver parameter appeared on a function with no owning type.
    MissingOwningType,
    /// An overridden signature placed a buffer-length marker anywhere but
    /// directly after a raw-buffer-address marker.
    InvalidSignatureOverride,
}

/// What the generator reads of a native type: its syntactic shape, as plain
/// values.
#[derive(Debug, PartialEq, Eq)]
pub enum NativeType {
    /// A plain named type such as `i32`, `f64`, `String`, or a user type.
    Path { name: String },
    /// A borrowed reference; `elem` names the pointee.
    Reference { mutable: bool, elem: String },
    /// A raw pointer; `elem` names the pointee.
    RawPointer { elem: String },
    /// A type explicitly marked as a pass-through native handle.
    NativeHandle { name: String },
}

impl Clone for NativeType {
    fn clone(&self) -> (r: Self)
        ensures
            r == *self,
    {
        match self {
            NativeType::Path { name } => NativeType::Path { name: name.clone() },
            NativeType::Reference { mutable, elem } => NativeType::Reference {
                mutable: *mutable,
                elem: elem.clone(),
            },
            NativeType::RawPointer { elem } => NativeType::RawPointer { elem: elem.clone() },
            NativeType::NativeHandle { name } => NativeType::NativeHandle { name: name.clone() },
        }
    }
}

/// The ABI categories a native value can take on the guest call boundary.
#[derive(Debug, PartialEq, Eq, Structural, Clone, Copy)]
pub enum WAMRTypes {
    ShortIntegers,
    LongIntegers,
    ShortFloats,
    LongFloats,
    String,
    Pointer,
    NativeReference,
}

/// The category a native type descriptor classifies into, or `None` where no
/// category covers it.  Classification is a total function of the type's
/// syntactic shape alone.
pub open spec fn classify_spec(ty: NativeType) -> Option<WAMRTypes> {
    match ty {
        NativeType::Path { name } => {
            if name@ == "u8"@ || name@ == "i8"@ || name@ == "u16"@ || name@ == "i16"@ || name@
                == "u32"@ || name@ == "i32"@ {
                Some(WAMRTypes::ShortIntegers)
            } else if name@ == "usize"@ || name@ == "u64"@ || name@ == "i64"@ {
                Some(WAMRTypes::LongIntegers)
            } else if name@ == "f32"@ {
                Some(WAMRTypes::ShortFloats)
            } else if name@ == "f64"@ {
                Some(WAMRTypes::LongFloats)
            } else if name@ == "String"@ {
                Some(WAMRTypes::String)
            } else {
                None
            }
        },
        NativeType::Reference { mutable, elem } => {
            if elem@ == "str"@ && !mutable {
                Some(WAMRTypes::String)
            } else {
                Some(WAMRTypes::Pointer)
            }
        },
        NativeType::RawPointer { elem } => None,
        NativeType::NativeHandle { name } => Some(WAMRTypes::NativeReference),
    }
}

/// The rendered text of a native type descriptor, as it appears in generated
/// code.
pub open spec fn type_text(ty: NativeType) -> Seq<char> {
    match ty {
        NativeType::Path { name } => name@,
        NativeType::Reference { mutable, elem } => {
            if mutable {
                "& mut "@ + elem@
            } else {
                "& "@ + elem@
            }
        },
        NativeType::RawPointer { elem } => "* const "@ + elem@,
        NativeType::NativeHandle { name } => name@,
    }
}

/// The one-character signature encoding of a category, as the guest virtual
/// machine expects it.
pub open spec fn sig_char_text(t: WAMRTypes) -> Seq<char> {
    match t {
        WAMRTypes::ShortIntegers => "i"@,
        WAMRTypes::LongIntegers => "I"@,
        WAMRTypes::ShortFloats => "f"@,
        WAMRTypes::LongFloats => "F"@,
        WAMRTypes::String => "$"@,
        WAMRTypes::Pointer => "*"@,
        WAMRTypes::NativeReference => "r"@,
    }
}

/// The wire-width native type a generated entry point declares for a
/// parameter of the given category.
pub open spec fn binding_type_text(t: WAMRTypes) -> Seq<char> {
    match t {
        WAMRTypes::ShortIntegers => "i32"@,
        WAMRTypes::LongIntegers => "i64"@,
        WAMRTypes::ShortFloats => "f32"@,
        WAMRTypes::LongFloats => "f64"@,
        WAMRTypes::String => "u32"@,
        WAMRTypes::Pointer => "u32"@,
        WAMRTypes::NativeReference => "usize"@,
    }
}

/// The native type a generated entry point casts a returned value to before
/// handing it back across the wire.
pub open spec fn call_cast_text(t: WAMRTypes) -> Seq<char> {
    match t {
        WAMRTypes::ShortIntegers => "i32"@,
        WAMRTypes::LongIntegers => "i64"@,
        WAMRTypes::ShortFloats => "f32"@,
        WAMRTypes::LongFloats => "f64"@,
        WAMRTypes::String => "String"@,
        WAMRTypes::Pointer => "u32"@,
        WAMRTypes::NativeReference => "usize"@,
    }
}

/// Renders a native type descriptor as generated-code text.
pub fn render_type(ty: &NativeType) -> (r: String)
    ensures
        r@ == type_text(*ty),
{
    match ty {
        NativeType::Path { name } => name.clone(),
        NativeType::Reference { mutable, elem } => {
            let mut r = if *mutable {
                String::from_str("& mut ")
            } else {
                String::from_str("& ")
            };
            r.append(elem.as_str());
            r
        },
        NativeType::RawPointer { elem } => {
            let mut r = String::from_str("* const ");
            r.append(elem.as_str());
            r
        },
        NativeType::NativeHandle { name } => name.clone(),
    }
}

impl WAMRTypes {
    /// Classifies a native type descriptor into its ABI category, or reports
    /// the rendered type as unsupported.
    pub fn from(ty: &NativeType) -> (r: Result<WAMRTypes, BindgenError>)
        ensures
            match classify_spec(*ty) {
                Some(t) => r == Ok::<WAMRTypes, BindgenError>(t),
                None => r matches Err(BindgenError::UnsupportedType(n)) && n@ == type_text(*ty),
            },
    {
        match ty {
            NativeType::Path { name } => {
                let n = name.as_str();
                if str_eq(n, "u8") || str_eq(n, "i8") || str_eq(n, "u16") || str_eq(n, "i16")
                    || str_eq(n, "u32") || str_eq(n, "i32") {
                    Ok(WAMRTypes::ShortIntegers)
                } else if str_eq(n, "usize") || str_eq(n, "u64") || str_eq(n, "i64") {
                    Ok(WAMRTypes::LongIntegers)
                } else if str_eq(n, "f32") {
                    Ok(WAMRTypes::ShortFloats)
                } else if str_eq(n, "f64") {
                    Ok(WAMRTypes::LongFloats)
                } else if str_eq(n, "String") {
                    Ok(WAMRTypes::String)
                } else {
                    Err(BindgenError::UnsupportedType(render_type(ty)))
                }
            },
            NativeType::Reference { mutable, elem } => {
                if str_eq(elem.as_str(), "str") && !*mutable {
                    Ok(WAMRTypes::String)
                } else {
                    Ok(WAMRTypes::Pointer)
                }
            },
            NativeType::RawPointer { elem } => Err(
                BindgenError::UnsupportedType(render_type(ty)),
            ),
            NativeType::NativeHandle { name } => Ok(WAMRTypes::NativeReference),
        }
    }

    /// The one-character signature encoding of this category.
    pub fn to_string(&self) -> (r: String)
        ensures
            r@ == sig_char_text(*self),
    {
        match self {
            WAMRTypes::ShortIntegers => String::from_str("i"),
            WAMRTypes::LongIntegers => String::from_str("I"),
            WAMRTypes::ShortFloats => String::from_str("f"),
            WAMRTypes::LongFloats => String::from_str("F"),
            WAMRTypes::String => String::from_str("$"),
            WAMRTypes::Pointer => String::from_str("*"),
            WAMRTypes::NativeReference => String::from_str("r"),
        }
    }

    /// The wire-width type a generated entry point declares for a parameter
    /// of this category.
    pub fn get_binding_type(&self) -> (r: NativeType)
        ensures
            r matches NativeType::Path { name } && name@ == binding_type_text(*self),
    {
        let name = match self {
            WAMRTypes::ShortIntegers => String::from_str("i32"),
            WAMRTypes::LongIntegers => String::from_str("i64"),
            WAMRTypes::ShortFloats => String::from_str("f32"),
            WAMRTypes::LongFloats => String::from_str("f64"),
            WAMRTypes::String => String::from_str("u32"),
            WAMRTypes::Pointer => String::from_str("u32"),
            WAMRTypes::NativeReference => String::from_str("usize"),
        };
        NativeType::Path { name }
    }

    /// The native type a generated entry point casts a return value of this
    /// category to.
    pub fn get_return_cast_type(&self) -> (r: String)
        ensures
            r@ == call_cast_text(*self),
    {
        match self {
            WAMRTypes::ShortIntegers => String::from_str("i32"),
            WAMRTypes::LongIntegers => String::from_str("i64"),
            WAMRTypes::ShortFloats => String::from_str("f32"),
            WAMRTypes::LongFloats => String::from_str("f64"),
            WAMRTypes::String => String::from_str("String"),
            WAMRTypes::Pointer => String::from_str("u32"),
            WAMRTypes::NativeReference => String::from_str("usize"),
        }
    }
}

/// Two descriptors of the same shape: equal up to the contents of their
/// name strings.
pub open spec fn same_shape(a: NativeType, b: NativeType) -> bool {
    match (a, b) {
        (NativeType::Path { name: n1 }, NativeType::Path { name: n2 }) => n1@ == n2@,
        (
            NativeType::Reference { mutable: m1, elem: e1 },
            NativeType::Reference { mutable: m2, elem: e2 },
        ) => m1 == m2 && e1@ == e2@,
        (NativeType::RawPointer { elem: e1 }, NativeType::RawPointer { elem: e2 }) => e1@ == e2@,
        (NativeType::NativeHandle { name: n1 }, NativeType::NativeHandle { name: n2 }) => n1@
            == n2@,
        _ => false,
    }
}

/// Classification is deterministic and total: descriptors of the same shape
/// always classify into the same category, and every shape is either covered
/// by exactly one category or rejected.
pub proof fn lemma_classification_deterministic(a: NativeType, b: NativeType)
    requires
        same_shape(a, b),
    ensures
        classify_spec(a) == classify_spec(b),
{
}

/// Descriptors of the same shape render as the same text.
pub proof fn lemma_type_text_congruent(a: NativeType, b: NativeType)
    requires
        same_shape(a, b),
    ensures
        type_text(a) == type_text(b),
{
}

} // verus!
