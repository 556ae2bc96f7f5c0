use wamr_rust_sdk::binding_function::{BindingFunction, FnArg};
use wamr_rust_sdk::encoder::{check_buffer_markers, encode_signature};
use wamr_rust_sdk::host_binding::{generate_host_function, get_signature_for_type};
use wamr_rust_sdk::types::{BindgenError, NativeType, WAMRTypes};

fn path(name: &str) -> NativeType {
    NativeType::Path { name: name.to_string() }
}

fn reference(mutable: bool, elem: &str) -> NativeType {
    NativeType::Reference { mutable, elem: elem.to_string() }
}

fn raw_pointer(elem: &str) -> NativeType {
    NativeType::RawPointer { elem: elem.to_string() }
}

fn typed(identifier: &str, ty: NativeType) -> FnArg {
    FnArg::Typed { identifier: identifier.to_string(), ty }
}

/// The twelve parameters of the reference function used across these tests.
fn function_args() -> Vec<FnArg> {
    vec![
        typed("a", path("i32")),
        typed("b", path("f32")),
        typed("c", path("String")),
        typed("d", reference(false, "str")),
        typed("e", path("i64")),
        typed("f", path("u64")),
        typed("g", path("i8")),
        typed("h", path("u8")),
        typed("i", path("i16")),
        typed("j", path("u16")),
        typed("k", path("f64")),
        typed("l", reference(true, "Test")),
    ]
}

#[test]
fn test_from_type() {
    let ty = path("i32");
    assert_eq!(WAMRTypes::from(&ty), Ok(WAMRTypes::ShortIntegers));

    let ty = path("i64");
    assert_eq!(WAMRTypes::from(&ty), Ok(WAMRTypes::LongIntegers));

    let ty = path("f32");
    assert_eq!(WAMRTypes::from(&ty), Ok(WAMRTypes::ShortFloats));

    let ty = path("f64");
    assert_eq!(WAMRTypes::from(&ty), Ok(WAMRTypes::LongFloats));

    let ty = path("String");
    assert_eq!(WAMRTypes::from(&ty), Ok(WAMRTypes::String));

    let ty = reference(false, "str");
    assert_eq!(WAMRTypes::from(&ty), Ok(WAMRTypes::String));

    let ty = reference(true, "str");
    assert_eq!(WAMRTypes::from(&ty), Ok(WAMRTypes::Pointer));
}

#[test]
fn test_to_string() {
    assert_eq!(WAMRTypes::ShortIntegers.to_string(), "i");
    assert_eq!(WAMRTypes::LongIntegers.to_string(), "I");
    assert_eq!(WAMRTypes::ShortFloats.to_string(), "f");
    assert_eq!(WAMRTypes::LongFloats.to_string(), "F");
    assert_eq!(WAMRTypes::String.to_string(), "$");
    assert_eq!(WAMRTypes::Pointer.to_string(), "*");
    assert_eq!(WAMRTypes::NativeReference.to_string(), "r");
}

#[test]
fn test_get_cast() {
    let ty = WAMRTypes::ShortIntegers;
    assert_eq!(ty.get_cast("a", &path("u64")), "let a = a as u64 ;");

    let ty = WAMRTypes::LongIntegers;
    assert_eq!(ty.get_cast("a", &path("u32")), "let a = a as u32 ;");

    let ty = WAMRTypes::ShortFloats;
    assert_eq!(ty.get_cast("a", &path("f64")), "");

    let ty = WAMRTypes::LongFloats;
    assert_eq!(ty.get_cast("a", &path("f32")), "");

    let ty = WAMRTypes::NativeReference;
    assert_eq!(
        ty.get_cast("a", &path("usize")),
        "let a : usize = unsafe { std :: mem :: transmute (a) } ;"
    );
}

#[test]
fn test_get_wamr_function_signature() {
    let binding_function =
        BindingFunction::new_function("test_function", &function_args(), &None).unwrap();
    let signature = binding_function.get_signature_declaration();
    assert_eq!(
        signature,
        "const __WAMR_BINDGEN_TEST_FUNCTION_SIGNATURE : & 'static str = \"if$$IIiiiiF*\""
    );

    let binding_function =
        BindingFunction::new_function("test_function", &function_args(), &Some(path("f64")))
            .unwrap();
    let signature = binding_function.get_signature_declaration();
    assert_eq!(
        signature,
        "const __WAMR_BINDGEN_TEST_FUNCTION_SIGNATURE : & 'static str = \"(if$$IIiiiiF*)F\""
    );
}

#[test]
fn test_encode_signature_flat_without_return() {
    // short-int, short-float, owned-string, borrowed-string, long-int,
    // long-int, short-int x4, long-float: flat, no parentheses, no return.
    let params = vec![
        WAMRTypes::ShortIntegers,
        WAMRTypes::ShortFloats,
        WAMRTypes::String,
        WAMRTypes::String,
        WAMRTypes::LongIntegers,
        WAMRTypes::LongIntegers,
        WAMRTypes::ShortIntegers,
        WAMRTypes::ShortIntegers,
        WAMRTypes::ShortIntegers,
        WAMRTypes::ShortIntegers,
        WAMRTypes::LongFloats,
    ];
    assert_eq!(encode_signature(&params, &None), "if$$IIiiiiF");
}

#[test]
fn test_encode_signature_parenthesized_with_return() {
    let params = vec![
        WAMRTypes::ShortIntegers,
        WAMRTypes::ShortFloats,
        WAMRTypes::String,
        WAMRTypes::String,
        WAMRTypes::LongIntegers,
        WAMRTypes::LongIntegers,
        WAMRTypes::ShortIntegers,
        WAMRTypes::ShortIntegers,
        WAMRTypes::ShortIntegers,
        WAMRTypes::ShortIntegers,
        WAMRTypes::LongFloats,
    ];
    assert_eq!(encode_signature(&params, &Some(WAMRTypes::LongFloats)), "(if$$IIiiiiF)F");
}

#[test]
fn test_receiver_is_pointer_for_any_owner() {
    let args = vec![FnArg::Receiver, typed("a", path("i32"))];
    for owner in ["Test", "Widget", "str"] {
        let bf = BindingFunction::new_impl_function("touch", owner, &args, &None).unwrap();
        let decl = bf.get_signature_declaration();
        // The receiver is the first parameter: encoded as '*' whatever the
        // owning type's name.
        assert_eq!(decl, "const __WAMR_BINDGEN_TOUCH_SIGNATURE : & 'static str = \"*i\"");
    }
}

#[test]
fn test_receiver_without_owner_is_rejected() {
    let args = vec![FnArg::Receiver];
    let r = BindingFunction::new_function("orphan", &args, &None);
    assert_eq!(r.unwrap_err(), BindgenError::MissingOwningType);
}

#[test]
fn test_unsupported_type_is_named() {
    let args = vec![typed("a", path("Widget"))];
    let r = BindingFunction::new_function("f", &args, &None);
    assert_eq!(r.unwrap_err(), BindgenError::UnsupportedType("Widget".to_string()));

    let r = BindingFunction::new_function("f", &vec![], &Some(raw_pointer("u8")));
    assert_eq!(r.unwrap_err(), BindgenError::UnsupportedType("* const u8".to_string()));
}

#[test]
fn test_string_return_is_rejected() {
    // A string crosses the boundary only as a parameter: a return type of
    // the string category aborts generation.
    let args = vec![typed("c", path("String"))];
    let r = BindingFunction::new_function("make", &args, &Some(path("String")));
    assert_eq!(r.unwrap_err(), BindgenError::UnsupportedType("String".to_string()));

    let r = BindingFunction::new_function("make", &vec![], &Some(reference(false, "str")));
    assert_eq!(r.unwrap_err(), BindgenError::UnsupportedType("& str".to_string()));

    // The same parameters with a supported return still bind.
    assert!(BindingFunction::new_function("make", &args, &Some(path("u32"))).is_ok());
}

#[test]
fn test_string_cast_validates_before_translating() {
    let cast = WAMRTypes::String.get_cast("c", &path("String"));
    let validate =
        "assert ! (unsafe { wamr_sys :: wasm_runtime_validate_app_str_addr (__wamr_instance , c) } , \"Invalid pointer\") ;";
    assert!(cast.starts_with(validate));
    let translate_at = cast.find("wasm_runtime_addr_app_to_native").unwrap();
    assert!(validate.len() < translate_at);
    // The owned and borrowed destinations differ only in the final copy.
    let owned = WAMRTypes::String.get_cast("c", &path("String"));
    let borrowed = WAMRTypes::String.get_cast("c", &reference(false, "str"));
    assert!(owned.ends_with(". to_str () . unwrap () . to_string () ;"));
    assert!(borrowed.ends_with(". to_str () . unwrap () ;"));
}

#[test]
fn test_pointer_cast_validates_pointee_size() {
    let cast = WAMRTypes::Pointer.get_cast("l", &reference(true, "Test"));
    let validate =
        "assert ! (unsafe { wamr_sys :: wasm_runtime_validate_app_addr (__wamr_instance , l , std :: mem :: size_of :: < Test > () as u32) } , \"Invalid pointer\") ;";
    assert!(cast.starts_with(validate));
    // The validated length names the pointee of the destination type, not a
    // fixed constant.
    let other = WAMRTypes::Pointer.get_cast("l", &reference(true, "u64"));
    assert!(other.contains("std :: mem :: size_of :: < u64 > () as u32"));
    assert!(!other.contains("< Test >"));
}

#[test]
fn test_binding_function_text() {
    let args = vec![typed("a", path("i32")), typed("b", path("i32"))];
    let bf = BindingFunction::new_function("add", &args, &Some(path("i32"))).unwrap();
    assert_eq!(
        bf.get_binding_function(),
        "# [no_mangle] pub unsafe extern \"C\" fn __wamr_bindgen_add (__wamr_environment : wamr_sys :: wasm_exec_env_t , a : i32 , b : i32) -> i32 { let __wamr_environment = wamr_rust_sdk :: execution_environment :: ExecutionEnvironment :: from (__wamr_environment) ; let __wamr_instance = __wamr_environment . get_instance () ; let a = a as i32 ; let b = b as i32 ; add (a , b) as i32 }"
    );
}

#[test]
fn test_method_binding_is_qualified_and_prefixed() {
    let args = vec![FnArg::Receiver, typed("a", path("i32"))];
    let bf = BindingFunction::new_impl_function("poke", "Widget", &args, &Some(path("u8")))
        .unwrap();
    let text = bf.get_binding_function();
    assert!(text.contains("fn __wamr_bindgen_Widget_poke ("));
    assert!(text.contains("__self : u32"));
    assert!(text.contains("Widget :: poke (__self , a) as i32"));
}

#[test]
fn test_generation_is_idempotent() {
    let bf = BindingFunction::new_function("test_function", &function_args(), &Some(path("f64")))
        .unwrap();
    assert_eq!(bf.get_binding_function(), bf.get_binding_function());
    assert_eq!(bf.get_signature_declaration(), bf.get_signature_declaration());

    let again =
        BindingFunction::new_function("test_function", &function_args(), &Some(path("f64")))
            .unwrap();
    assert_eq!(bf.get_binding_function(), again.get_binding_function());
    assert_eq!(bf.get_signature_declaration(), again.get_signature_declaration());
}

#[test]
fn test_classification_is_deterministic() {
    for ty in [path("i32"), path("u64"), path("String"), reference(false, "str"), path("f32")] {
        assert_eq!(WAMRTypes::from(&ty), WAMRTypes::from(&ty));
    }
}

#[test]
fn test_get_signature_for_type_chars() {
    assert_eq!(get_signature_for_type(&path("i32")), Some('i'));
    assert_eq!(get_signature_for_type(&path("u32")), Some('i'));
    // A pointer-sized unsigned integer is a long integer.
    assert_eq!(get_signature_for_type(&path("usize")), Some('I'));
    assert_eq!(get_signature_for_type(&path("i64")), Some('I'));
    assert_eq!(get_signature_for_type(&path("u64")), Some('I'));
    assert_eq!(get_signature_for_type(&path("f32")), Some('f'));
    assert_eq!(get_signature_for_type(&path("f64")), Some('F'));
    // Only an immutable text reference takes the string-transcoding path; a
    // mutable one is a raw guest pointer.
    assert_eq!(get_signature_for_type(&reference(false, "str")), Some('$'));
    assert_eq!(get_signature_for_type(&reference(true, "str")), Some('*'));
    assert_eq!(get_signature_for_type(&raw_pointer("u8")), Some('*'));
    assert_eq!(get_signature_for_type(&path("bool")), None);
    assert_eq!(get_signature_for_type(&raw_pointer("u16")), None);
}

#[test]
fn test_generate_host_function_computed_signature() {
    let params = vec![path("i32"), reference(false, "str")];
    let b = generate_host_function("greet", &None, &None, &params, &Some(path("u64"))).unwrap();
    assert_eq!(b.c_identifier, "greet_c");
    assert_eq!(b.function_name, "greet");
    assert_eq!(b.signature, "(i$)I");

    let b = generate_host_function("tick", &None, &None, &vec![path("usize")], &None).unwrap();
    assert_eq!(b.signature, "I");
}

#[test]
fn test_generate_host_function_overrides() {
    let b = generate_host_function(
        "log",
        &Some("host_log".to_string()),
        &Some("($*~)i".to_string()),
        &vec![],
        &None,
    )
    .unwrap();
    assert_eq!(b.function_name, "host_log");
    assert_eq!(b.signature, "($*~)i");

    let r = generate_host_function("log", &None, &Some("(~i)".to_string()), &vec![], &None);
    assert_eq!(r.unwrap_err(), BindgenError::InvalidSignatureOverride);

    let r = generate_host_function("log", &None, &Some("($~)".to_string()), &vec![], &None);
    assert_eq!(r.unwrap_err(), BindgenError::InvalidSignatureOverride);
}

#[test]
fn test_generate_host_function_unsupported_type() {
    let r = generate_host_function("f", &None, &None, &vec![path("bool")], &None);
    assert_eq!(r.unwrap_err(), BindgenError::UnsupportedType("bool".to_string()));
}

#[test]
fn test_encode_signature_empty() {
    assert_eq!(encode_signature(&vec![], &None), "");
    assert_eq!(encode_signature(&vec![], &Some(WAMRTypes::ShortIntegers)), "()i");
    assert_eq!(encode_signature(&vec![WAMRTypes::NativeReference], &None), "r");
}

#[test]
fn test_check_buffer_markers() {
    assert!(check_buffer_markers("(i$*~I)i"));
    assert!(check_buffer_markers(""));
    assert!(check_buffer_markers("*~*~"));
    assert!(!check_buffer_markers("~"));
    assert!(!check_buffer_markers("i~"));
    assert!(!check_buffer_markers("*i~"));
}
