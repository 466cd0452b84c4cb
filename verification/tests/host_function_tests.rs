use supervisor::import::{
    host_call, HostCall,
    abort_error, check_func_signature, getchar_value, memcpy, readkey, send_char, validate,
    ImportInvalidError, ImportInvokeError, ValType,
};
use supervisor::wasmtime_imports::{
    i32_arg, ping_request, takeImageDynamicSize, takeImageStaticSize, write_memory,
};


#[test]
fn signatures_of_host_functions() {
    assert_eq!(validate("putchar", &[ValType::I32], Some(ValType::I32)), None);
    assert_eq!(validate("abort", &[], None), None);
    assert_eq!(validate("nosuch", &[], None), Some(ImportInvalidError::NotFound));
    assert_eq!(
        validate("memcpy", &[ValType::I32], Some(ValType::I32)),
        Some(ImportInvalidError::SignatureMismatch {
            expected_params: vec![ValType::I32, ValType::I32, ValType::I32],
            expected_ret: Some(ValType::I32),
        })
    );
    assert_eq!(check_func_signature(&[ValType::I64], None, &[ValType::I64], None), None);
}

#[test]
fn readkey_maps_keys_and_clears_the_input() {
    let mut input = "w".to_string();
    assert_eq!(readkey(&mut input), 65);
    assert_eq!(input, " ");
    let mut other = "z".to_string();
    assert_eq!(readkey(&mut other), -1);
    let mut q = "q".to_string();
    assert_eq!(readkey(&mut q), 113);
}

#[test]
fn simple_host_values() {
    let mut out = Vec::new();
    assert_eq!(send_char(&mut out, 0x141), 0x141);
    assert_eq!(out, vec![0x41]);
    assert_eq!(getchar_value(Some(b'a')), 97);
    assert_eq!(getchar_value(None), -1);
    match abort_error() {
        ImportInvokeError::Fatal { message } => assert_eq!(message, "aborted"),
    }
}

#[test]
fn memcpy_copies_between_disjoint_ranges() {
    let mut mem: Vec<u8> = (0..16).collect();
    assert_eq!(memcpy(&mut mem, 8, 0, 4).ok(), Some(8));
    assert_eq!(&mem[8..12], &[0, 1, 2, 3]);
    assert_eq!(mem[12], 12);
    let before = mem.clone();
    match memcpy(&mut mem, 2, 0, 4) {
        Err(ImportInvokeError::Fatal { message }) => {
            assert_eq!(message, "range overwrap on memcpy: src=0..4 and dest=2..6")
        }
        Ok(_) => panic!("overlap accepted"),
    }
    assert_eq!(mem, before);
}

#[test]
fn memory_writes_are_bounds_checked() {
    let mut mem = vec![0u8; 4];
    assert!(write_memory(&mut mem, 2, &[7, 8]).is_ok());
    assert_eq!(mem, vec![0, 0, 7, 8]);
    assert_eq!(write_memory(&mut mem, 3, &[1, 2]).err(), Some("out of bounds memory access".to_string()));
    assert_eq!(mem, vec![0, 0, 7, 8]);
}

#[test]
fn camera_arguments() {
    let args = [wasmtime::Val::I32(1), wasmtime::Val::I64(2)];
    assert_eq!(i32_arg(&args, 0), Some(1));
    assert_eq!(i32_arg(&args, 1), None);
    assert_eq!(i32_arg(&args, 2), None);
    let mut mem = vec![0u8; 16];
    assert_eq!(
        takeImageStaticSize(&args, &mut mem, Ok(vec![1])).err(),
        Some("Expected second argument to be i32".to_string())
    );
    assert_eq!(
        takeImageDynamicSize(&[], &mut mem, Ok(vec![1])).err(),
        Some("Expected first argument to be i32".to_string())
    );
}

#[test]
fn static_image_is_cut_to_the_declared_size() {
    let mut mem = vec![0u8; 16];
    mem[12..16].copy_from_slice(&3u32.to_le_bytes());
    let args = [wasmtime::Val::I32(4), wasmtime::Val::I32(12)];
    assert!(takeImageStaticSize(&args, &mut mem, Ok(vec![9, 9, 9, 9, 9])).is_ok());
    assert_eq!(&mem[4..8], &[9, 9, 9, 0]);
    let mut small = vec![0u8; 8];
    let far = [wasmtime::Val::I32(0), wasmtime::Val::I32(6)];
    assert_eq!(
        takeImageStaticSize(&far, &mut small, Ok(vec![1])).err(),
        Some("out of bounds memory access".to_string())
    );
    assert_eq!(
        takeImageStaticSize(&args, &mut mem, Err("Failed to open stream: busy".to_string())).err(),
        Some("Failed to open stream: busy".to_string())
    );
}

#[test]
fn dynamic_image_is_written_at_the_start_with_its_length() {
    let mut mem = vec![0u8; 32];
    let args = [wasmtime::Val::I32(16), wasmtime::Val::I32(20)];
    assert!(takeImageDynamicSize(&args, &mut mem, Ok(vec![5, 6, 7])).is_ok());
    assert_eq!(&mem[0..3], &[5, 6, 7]);
    assert_eq!(&mem[16..20], &0u32.to_le_bytes());
    assert_eq!(&mem[20..24], &3u32.to_le_bytes());
}

#[test]
fn ping_arguments_are_checked_and_clamped() {
    let ok = [wasmtime::Val::I32(192), wasmtime::Val::I32(168), wasmtime::Val::I32(1), wasmtime::Val::I32(300), wasmtime::Val::I32(99)];
    let p = ping_request(&ok).unwrap();
    assert_eq!(p.octets, [192, 168, 1, 44]);
    assert_eq!(p.count, 50);
    let low = [wasmtime::Val::I32(1), wasmtime::Val::I32(1), wasmtime::Val::I32(1), wasmtime::Val::I32(1), wasmtime::Val::I32(-3)];
    assert_eq!(ping_request(&low).unwrap().count, 1);
    let missing = [wasmtime::Val::I32(1), wasmtime::Val::I32(1)];
    assert_eq!(ping_request(&missing).err(), Some("ping: arg2 missing or invalid".to_string()));
}

#[test]
fn host_calls_are_dispatched_by_name() {
    assert_eq!(host_call("putchar"), HostCall::Putchar);
    assert_eq!(host_call("abort"), HostCall::Abort);
    assert_eq!(host_call("readkey"), HostCall::Readkey);
    assert_eq!(host_call("send_char"), HostCall::SendChar);
}
