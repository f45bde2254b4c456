use wasm_bridge::boundary::{
    counted_text, decode_panic, encode_panic_call, greeting, register_panic, GuestLocation,
    PanicCall,
};
use wasm_bridge::channel::PanicChannel;
use wasm_bridge::counter::SharedCounter;
use wasm_bridge::driver::{begin_call, conclude_call, CallReport, HookGuard};
use wasm_bridge::memory::{decode_utf8, DecodeError, MemoryPointer};
use wasm_bridge::panic_info::{PanicInfo, PanicLocation};
use wasm_bridge::registry::{HostFunctionDescriptor, Registry, RegistryError, ScalarKind};
use wasm_bridge::text::decimal_string;

/// A guest memory of `size` zero bytes with `text` written at `offset`.
fn memory_with(size: usize, offset: usize, text: &[u8]) -> Vec<u8> {
    let mut m = vec![0u8; size];
    m[offset..offset + text.len()].copy_from_slice(text);
    m
}

fn ptr(offset: u32, length: u32) -> MemoryPointer {
    MemoryPointer { offset, length }
}

#[test]
fn decode_reads_exactly_the_range() {
    let m = memory_with(64, 8, b"Hello, World!");
    assert_eq!(decode_utf8(&m, ptr(8, 13)), Ok("Hello, World!".to_string()));
    assert_eq!(decode_utf8(&m, ptr(8, 5)), Ok("Hello".to_string()));
    assert_eq!(decode_utf8(&m, ptr(15, 6)), Ok("World!".to_string()));
}

#[test]
fn decode_empty_range_at_end() {
    let m = memory_with(16, 0, b"abc");
    assert_eq!(decode_utf8(&m, ptr(16, 0)), Ok(String::new()));
    assert_eq!(decode_utf8(&m, ptr(0, 0)), Ok(String::new()));
}

#[test]
fn decode_multibyte_text() {
    let m = memory_with(16, 2, "héllo".as_bytes());
    assert_eq!(decode_utf8(&m, ptr(2, 6)), Ok("héllo".to_string()));
}

#[test]
fn decode_out_of_bounds() {
    let m = memory_with(16, 0, b"abc");
    assert_eq!(decode_utf8(&m, ptr(10, 7)), Err(DecodeError::OutOfBounds));
    assert_eq!(decode_utf8(&m, ptr(17, 0)), Err(DecodeError::OutOfBounds));
    assert_eq!(decode_utf8(&m, ptr(u32::MAX, u32::MAX)), Err(DecodeError::OutOfBounds));
    assert_eq!(decode_utf8(&[], ptr(0, 1)), Err(DecodeError::OutOfBounds));
}

#[test]
fn decode_invalid_utf8() {
    let m = memory_with(16, 4, &[0x66, 0xff, 0x67]);
    assert_eq!(decode_utf8(&m, ptr(4, 3)), Err(DecodeError::InvalidUtf8));
    // a multi-byte character cut in half
    let m = memory_with(16, 0, "é".as_bytes());
    assert_eq!(decode_utf8(&m, ptr(0, 1)), Err(DecodeError::InvalidUtf8));
}

#[test]
fn decimal_text() {
    assert_eq!(decimal_string(0), "0");
    assert_eq!(decimal_string(7), "7");
    assert_eq!(decimal_string(10), "10");
    assert_eq!(decimal_string(4294967295), "4294967295");
    assert_eq!(decimal_string(u64::MAX), "18446744073709551615");
}

#[test]
fn counter_counts_every_increment() {
    let mut c = SharedCounter::new();
    assert_eq!(c.read(), 0);
    for _ in 0..1000 {
        c.increment();
    }
    assert_eq!(c.read(), 1000);
}

#[test]
fn counter_behind_a_lock_loses_no_update() {
    let shared = std::sync::Arc::new(std::sync::Mutex::new(SharedCounter::new()));
    let callbacks: Vec<Box<dyn Fn()>> = (0..5)
        .map(|_| {
            let c = std::sync::Arc::clone(&shared);
            Box::new(move || c.lock().unwrap().increment()) as Box<dyn Fn()>
        })
        .collect();
    for round in 0..20 {
        callbacks[round % 5]();
    }
    assert_eq!(shared.lock().unwrap().read(), 20);
}

fn info(message: &str, location: Option<(&str, u32, u32)>) -> PanicInfo {
    PanicInfo {
        message: message.to_string(),
        location: location.map(|(file, line, column)| PanicLocation {
            file: file.to_string(),
            line,
            column,
        }),
    }
}

#[test]
fn take_after_set_returns_it_once() {
    let mut ch = PanicChannel::new();
    assert!(ch.is_empty());
    let x = info("oh no", Some(("src/lib.rs", 52, 5)));
    ch.set(x.clone());
    assert!(!ch.is_empty());
    assert_eq!(ch.take(), Some(x));
    assert_eq!(ch.take(), None);
}

#[test]
fn set_keeps_the_last_record() {
    let mut ch = PanicChannel::new();
    ch.set(info("first", None));
    ch.set(info("second", None));
    assert_eq!(ch.take(), Some(info("second", None)));
    assert_eq!(ch.take(), None);
}

#[test]
fn cleared_channel_stays_empty_over_a_quiet_call() {
    let mut ch = PanicChannel::new();
    ch.set(info("stale", None));
    begin_call(&mut ch);
    assert_eq!(conclude_call(&mut ch, false), CallReport::Succeeded);
    assert_eq!(ch.take(), None);
}

#[test]
fn failed_call_without_diagnostic() {
    let mut ch = PanicChannel::new();
    ch.set(info("stale", None));
    begin_call(&mut ch);
    assert_eq!(conclude_call(&mut ch, true), CallReport::NoDiagnostic);
}

#[test]
fn report_text() {
    assert_eq!(
        info("oh no", Some(("src/lib.rs", 52, 5))).to_string(),
        "oh no, src/lib.rs:52:5"
    );
    assert_eq!(info("oh no", None).to_string(), "oh no");
    assert_eq!(info("", Some(("a.rs", 1, 10))).to_string(), ", a.rs:1:10");
}

#[test]
fn print_lines() {
    assert_eq!(counted_text(0, "Hello, World!"), "0: Hello, World!");
    assert_eq!(counted_text(2, "Hello, World!"), "2: Hello, World!");
    assert_eq!(counted_text(123, ""), "123: ");
    assert_eq!(greeting("host"), "Hello host");
    assert_eq!(greeting(""), "Hello ");
}

/// What the host functions would do for the guest's `hello_wasm` export.
#[test]
fn hello_scenario() {
    let hello: u32 = 1024;
    let memory = memory_with(4096, hello as usize, b"Hello, World!");
    let mut counter = SharedCounter::new();
    let mut events: Vec<String> = Vec::new();

    let text = decode_utf8(&memory, ptr(hello, 13)).unwrap();
    events.push(format!("print {}", text));
    let text = decode_utf8(&memory, ptr(hello, 13)).unwrap();
    events.push(format!("print {}", counted_text(counter.read(), &text)));
    counter.increment();
    events.push(format!("count {}", counter.read()));
    counter.increment();
    events.push(format!("count {}", counter.read()));
    let text = decode_utf8(&memory, ptr(hello, 13)).unwrap();
    events.push(format!("print {}", counted_text(counter.read(), &text)));

    assert_eq!(
        events,
        vec![
            "print Hello, World!",
            "print 0: Hello, World!",
            "count 1",
            "count 2",
            "print 2: Hello, World!",
        ]
    );
}

/// Four failing calls in a row, the channel reset before each.
#[test]
fn fails_scenario() {
    let mut memory = memory_with(4096, 100, b"oh no");
    memory[200..210].copy_from_slice(b"src/lib.rs");
    let mut channel = PanicChannel::new();
    let mut guard = HookGuard::new();
    let mut installs = 0;
    for _ in 0..4 {
        begin_call(&mut channel);
        if guard.claim_install() {
            installs += 1;
        }
        let call = encode_panic_call(
            ptr(100, 5),
            Some(GuestLocation { file: ptr(200, 10), line: 52, column: 5 }),
        );
        assert_eq!(register_panic(&mut channel, &memory, call), Ok(()));
        match conclude_call(&mut channel, true) {
            CallReport::Captured(pi) => {
                assert_eq!(pi.message, "oh no");
                let loc = pi.location.expect("location present");
                assert!(!loc.file.is_empty());
                assert!(loc.line > 0);
                assert!(loc.column > 0);
                assert_eq!(loc.file, "src/lib.rs");
            }
            other => panic!("diagnostic lost: {:?}", other),
        }
        assert!(channel.is_empty());
    }
    assert_eq!(installs, 1);
    assert!(guard.is_installed());
}

#[test]
fn zero_file_range_means_no_location() {
    let memory = memory_with(64, 0, b"oh no");
    let call = PanicCall { msg_ptr: 0, msg_len: 5, file_ptr: 0, file_len: 0, line: 0, column: 0 };
    assert!(!call.has_location());
    assert_eq!(decode_panic(&memory, call), Ok(info("oh no", None)));
    let encoded = encode_panic_call(ptr(0, 5), None);
    assert_eq!(encoded, call);
}

#[test]
fn empty_file_name_elsewhere_is_a_location() {
    let memory = memory_with(64, 0, b"oh no");
    let call = PanicCall { msg_ptr: 0, msg_len: 5, file_ptr: 8, file_len: 0, line: 3, column: 4 };
    assert!(call.has_location());
    assert_eq!(decode_panic(&memory, call), Ok(info("oh no", Some(("", 3, 4)))));
}

#[test]
fn undecodable_record_leaves_channel_alone() {
    let memory = memory_with(64, 0, &[0xff, 0xfe]);
    let mut channel = PanicChannel::new();
    let bad_message = PanicCall { msg_ptr: 0, msg_len: 2, file_ptr: 0, file_len: 0, line: 0, column: 0 };
    assert_eq!(register_panic(&mut channel, &memory, bad_message), Err(DecodeError::InvalidUtf8));
    assert!(channel.is_empty());
    let bad_file = PanicCall { msg_ptr: 10, msg_len: 0, file_ptr: 60, file_len: 10, line: 1, column: 1 };
    assert_eq!(decode_panic(&memory, bad_file), Err(DecodeError::OutOfBounds));
}

#[test]
fn encode_with_location() {
    let call = encode_panic_call(
        ptr(100, 5),
        Some(GuestLocation { file: ptr(200, 10), line: 52, column: 5 }),
    );
    assert_eq!(
        call,
        PanicCall { msg_ptr: 100, msg_len: 5, file_ptr: 200, file_len: 10, line: 52, column: 5 }
    );
    assert_eq!(call.message(), ptr(100, 5));
    assert_eq!(call.file(), ptr(200, 10));
}

fn desc(namespace: &str, name: &str, params: Vec<ScalarKind>) -> HostFunctionDescriptor {
    HostFunctionDescriptor {
        namespace: namespace.to_string(),
        name: name.to_string(),
        params,
        result: None,
    }
}

#[test]
fn registry_refuses_duplicates() {
    let mut r = Registry::new();
    assert_eq!(r.register(desc("env", "f", vec![ScalarKind::I32])), Ok(()));
    assert_eq!(r.register(desc("other", "f", vec![])), Ok(()));
    assert_eq!(r.register(desc("env", "g", vec![])), Ok(()));
    assert_eq!(r.register(desc("env", "f", vec![])), Err(RegistryError::Duplicate));
    assert_eq!(r.len(), 3);
    assert!(r.contains(&"other".to_string(), &"f".to_string()));
    assert!(!r.contains(&"other".to_string(), &"g".to_string()));
}

#[test]
fn standard_registry() {
    let r = Registry::standard();
    assert_eq!(r.len(), 4);
    for name in ["print_str", "print_str2", "increment_shared", "register_panic"] {
        assert!(r.contains(&"env".to_string(), &name.to_string()));
    }
    let mut r = r;
    assert_eq!(r.register(desc("env", "print_str", vec![])), Err(RegistryError::Duplicate));
}

#[test]
fn hook_installs_once() {
    let mut g = HookGuard::new();
    assert!(!g.is_installed());
    assert!(g.claim_install());
    assert!(!g.claim_install());
    assert!(!g.claim_install());
    assert!(g.is_installed());
}
