use wamr_rust_sdk::helper::error_buf_to_string;
use wamr_rust_sdk::host_function::{HostFunction, HostFunctionList};
use wamr_rust_sdk::memory::GuestMemory;
use wamr_rust_sdk::value::{
    narrow_long_to_short, parse_result, prepare_call_arguments, WasmValKind, WasmValue,
};
use wamr_rust_sdk::wasi_context::WasiCtxBuilder;
use wamr_rust_sdk::RuntimeError;

#[test]
fn test_error_buf_empty() {
    let error_buf = [0i8; 128];
    let error_str = error_buf_to_string(&error_buf);
    assert_eq!(error_str.len(), 0);
    assert_eq!(error_str, "");
}

#[test]
fn test_error_buf() {
    let mut error_buf = [0i8; 128];
    error_buf[0] = 'a' as i8;
    error_buf[1] = 'b' as i8;
    error_buf[2] = 'c' as i8;

    let error_str = error_buf_to_string(&error_buf);
    assert_eq!(error_str.len(), 3);
    assert_eq!(error_str, "abc");
}

#[test]
fn test_error_buf_high_bytes() {
    // A byte above the ASCII range is kept as its single-byte character.
    let mut error_buf = [0i8; 128];
    error_buf[0] = b'o' as i8;
    error_buf[1] = -1;
    let error_str = error_buf_to_string(&error_buf);
    assert_eq!(error_str.chars().count(), 2);
    assert_eq!(error_str.chars().nth(0), Some('o'));
    assert_eq!(error_str.chars().nth(1), Some(0xFFu8 as char));
}

#[test]
fn test_wasi_ctx_build() {
    let wasi_ctx = WasiCtxBuilder::new()
        .set_pre_open_path(vec!["a/b/c"], vec!["/dog/cat/rabbit"])
        .set_allowed_address(vec!["1.2.3.4"])
        .set_allowed_dns(vec![])
        .set_env_vars(vec!["path=/usr/local/bin", "HOME=/home/xxx"])
        .set_arguments(vec!["arg1", "arg2"])
        .build();

    let mut preopen_iter = wasi_ctx.get_preopen_real_paths().iter();
    assert_eq!(preopen_iter.next().unwrap(), "a/b/c");
    assert_eq!(preopen_iter.next(), None);

    let mut preopen_iter = wasi_ctx.get_preopen_mapped_paths().iter();
    assert_eq!(preopen_iter.next().unwrap(), "/dog/cat/rabbit");
    assert_eq!(preopen_iter.next(), None);

    let mut allowed_address_iter = wasi_ctx.get_allowed_address().iter();
    assert_eq!(allowed_address_iter.next().unwrap(), "1.2.3.4");
    assert_eq!(allowed_address_iter.next(), None);

    let mut env_vars_iter = wasi_ctx.get_env_vars().iter();
    assert_eq!(env_vars_iter.next().unwrap(), "path=/usr/local/bin");
    assert_eq!(env_vars_iter.next().unwrap(), "HOME=/home/xxx");
    assert_eq!(env_vars_iter.next(), None);

    let mut args_iter = wasi_ctx.get_arguments().iter();
    assert_eq!(args_iter.next().unwrap(), "arg1");
    assert_eq!(args_iter.next().unwrap(), "arg2");
    assert_eq!(args_iter.next(), None);
}

#[test]
fn test_narrowing_truncates_to_low_bits() {
    // Narrowing a long value into a 32-bit wire slot keeps the low bits:
    // deterministic and reproducible, not an error.
    assert_eq!(narrow_long_to_short(0x1_0000_0002), 0x00000002);
    assert_eq!(narrow_long_to_short(0x1_0000_0002), narrow_long_to_short(0x1_0000_0002));
    assert_eq!(narrow_long_to_short(0xFFFF_FFFF_FFFF_FFFF), 0xFFFF_FFFF);
    assert_eq!(narrow_long_to_short(7), 7);
}

#[test]
fn test_encode_decode_roundtrip() {
    let v = WasmValue::I64(0x1_0000_0002);
    let words = v.encode();
    assert_eq!(words, vec![2, 1]);
    assert_eq!(WasmValue::decode_to_i64(&words), v);

    let v = WasmValue::I32(-7);
    let words = v.encode();
    assert_eq!(WasmValue::decode_to_i32(&words), v);

    let v = WasmValue::F64(0x4009_21FB_5444_2D18);
    let words = v.encode();
    assert_eq!(WasmValue::decode_to_f64(&words), v);

    let v = WasmValue::V128(0x0102_0304_0506_0708_090A_0B0C_0D0E_0F10);
    let words = v.encode();
    assert_eq!(words.len(), 4);
    assert_eq!(WasmValue::decode_to_v128(&words), v);
}

#[test]
fn test_parse_result_kinds() {
    let kinds = vec![WasmValKind::I32, WasmValKind::I64, WasmValKind::F32];
    let argv = vec![42, 2, 1, 0x7F80_0000];
    let values = parse_result(&kinds, &argv);
    assert_eq!(
        values,
        vec![WasmValue::I32(42), WasmValue::I64(0x1_0000_0002), WasmValue::F32(0x7F80_0000)]
    );

    let no_results = parse_result(&vec![], &vec![]);
    assert_eq!(no_results, vec![WasmValue::Void]);

    let kinds = vec![WasmValKind::V128];
    let argv = vec![0x0D0E_0F10, 0x090A_0B0C, 0x0506_0708, 0x0102_0304];
    let values = parse_result(&kinds, &argv);
    assert_eq!(values, vec![WasmValue::V128(0x0102_0304_0506_0708_090A_0B0C_0D0E_0F10)]);
}

#[test]
fn test_prepare_call_arguments() {
    let params = vec![WasmValue::I32(9), WasmValue::I32(27)];
    let argv = prepare_call_arguments(&params, 2, 1).unwrap();
    assert_eq!(argv, vec![9, 27, 0, 0, 0, 0, 0, 0]);

    let argv = prepare_call_arguments(&vec![WasmValue::I64(0x1_0000_0002)], 1, 0).unwrap();
    assert_eq!(argv, vec![2, 1, 0, 0]);

    let r = prepare_call_arguments(&params, 3, 0);
    match r {
        Err(RuntimeError::ExecutionError(e)) => {
            assert_eq!(e.message, "invalid parameters");
            assert_eq!(e.exit_code, 0xff);
        },
        _ => panic!("a call with too few values must be refused"),
    }
}

#[test]
fn test_validate_app_addr() {
    let memory = GuestMemory::new(vec![0; 1024]);
    assert!(memory.validate_app_addr(0, 1024));
    assert!(memory.validate_app_addr(100, 50));
    assert!(memory.validate_app_addr(1024, 0));
    assert!(!memory.validate_app_addr(100, 1000));
    assert!(!memory.validate_app_addr(0xFFFFFFFF, 100));
    assert!(!memory.validate_app_addr(0xFFFF_FFFF_FFFF_FFFF, 1));
}

#[test]
fn test_validate_app_str_addr() {
    let mut data = vec![b'x'; 16];
    data[10] = 0;
    let memory = GuestMemory::new(data);
    assert!(memory.validate_app_str_addr(0));
    assert!(memory.validate_app_str_addr(10));
    assert!(!memory.validate_app_str_addr(11));
    assert!(!memory.validate_app_str_addr(100));
}

#[test]
fn test_read_guest_string_validates_first() {
    let mut data = b"hello\0world".to_vec();
    data.push(b'!');
    let memory = GuestMemory::new(data);
    assert_eq!(memory.read_guest_string(0).unwrap(), b"hello".to_vec());
    assert_eq!(memory.read_guest_string(5).unwrap(), b"".to_vec());
    // Past the only terminator the bytes are unterminated: the call fails
    // and nothing is read.
    assert_eq!(memory.read_guest_string(6), None);
    assert_eq!(memory.read_guest_string(9999), None);
}

#[test]
fn test_read_bytes_checks_exact_length() {
    let memory = GuestMemory::new((0u8..16).collect());
    let pointee_size = core::mem::size_of::<u32>() as u64;
    assert_eq!(memory.read_bytes(4, pointee_size).unwrap(), vec![4, 5, 6, 7]);
    assert_eq!(memory.read_bytes(13, pointee_size), None);
    assert_eq!(memory.read_bytes(16, 0).unwrap(), vec![]);
}

#[test]
fn test_host_function_list() {
    let mut list = HostFunctionList::new("host");
    list.register_host_function(HostFunction::new("extra", 0x1000, "()i"));
    list.register_host_function(HostFunction::new("log", 0x2000, "($)"));

    assert_eq!(list.get_module_name(), "host");
    let symbols = list.get_native_symbols();
    assert_eq!(symbols.len(), 2);
    assert_eq!(symbols[0].symbol, "extra");
    assert_eq!(symbols[0].func_ptr, 0x1000);
    assert_eq!(symbols[0].signature, "()i");
    assert_eq!(symbols[1].symbol, "log");
    assert_eq!(symbols[1].signature, "($)");
}
