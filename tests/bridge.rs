use ui_bridge::{
    _error, convert_str_to_cstring, get_syscall, milliseconds, print, set_syscallptr,
    uiImport_t, BridgeError, MarshalError, SyscallBridge, SyscallRequest,
};

fn loaded(ptr: isize) -> SyscallBridge {
    let mut bridge = SyscallBridge::new();
    set_syscallptr(&mut bridge, ptr);
    bridge
}

/// A host that records each call and answers time queries from a script.
struct StubHost {
    calls: Vec<SyscallRequest>,
    clock: Vec<isize>,
}

impl StubHost {
    fn call(&mut self, request: SyscallRequest) -> isize {
        let reply = if request.opcode == uiImport_t::UI_MILLISECONDS {
            self.clock.remove(0)
        } else {
            0
        };
        self.calls.push(request);
        reply
    }
}

#[test]
fn marshal_hello_is_null_terminated() {
    let buf = convert_str_to_cstring("hello").unwrap();
    assert_eq!(buf.len(), 6);
    assert_eq!(buf, b"hello\0".to_vec());
}

#[test]
fn marshal_refuses_interior_nul() {
    assert_eq!(convert_str_to_cstring("he\0llo"), Err(MarshalError::InteriorNul(2)));
    assert_eq!(convert_str_to_cstring("\0"), Err(MarshalError::InteriorNul(0)));
    assert_eq!(convert_str_to_cstring("ab\0c\0"), Err(MarshalError::InteriorNul(2)));
}

#[test]
fn marshal_empty_and_multibyte_text() {
    assert_eq!(convert_str_to_cstring("").unwrap(), vec![0u8]);
    assert_eq!(convert_str_to_cstring("é").unwrap(), vec![0xC3u8, 0xA9, 0]);
}

#[test]
fn requests_refused_before_load() {
    let bridge = SyscallBridge::new();
    assert!(!bridge.is_loaded());
    assert_eq!(get_syscall(&bridge), Err(BridgeError::NotLoaded));
    assert_eq!(print(&bridge, "hi"), Err(BridgeError::NotLoaded));
    assert_eq!(_error(&bridge, "boom"), Err(BridgeError::NotLoaded));
    assert_eq!(milliseconds(&bridge), Err(BridgeError::NotLoaded));
    assert_eq!(print(&bridge, "a\0b"), Err(BridgeError::NotLoaded));
}

#[test]
fn requests_after_load() {
    let bridge = loaded(0x1234);
    assert!(bridge.is_loaded());
    assert_eq!(get_syscall(&bridge), Ok(0x1234));
    assert_eq!(
        print(&bridge, "hi"),
        Ok(SyscallRequest {
            syscall: 0x1234,
            opcode: uiImport_t::UI_PRINT,
            text: Some(b"hi\0".to_vec()),
        })
    );
    assert_eq!(
        _error(&bridge, "boom"),
        Ok(SyscallRequest {
            syscall: 0x1234,
            opcode: uiImport_t::UI_ERROR,
            text: Some(b"boom\0".to_vec()),
        })
    );
    assert_eq!(
        milliseconds(&bridge),
        Ok(SyscallRequest { syscall: 0x1234, opcode: uiImport_t::UI_MILLISECONDS, text: None })
    );
}

#[test]
fn print_refuses_interior_nul() {
    let bridge = loaded(9);
    assert_eq!(
        print(&bridge, "he\0llo"),
        Err(BridgeError::Marshal(MarshalError::InteriorNul(2)))
    );
}

#[test]
fn milliseconds_non_decreasing_under_monotonic_host() {
    let bridge = loaded(5);
    let mut host = StubHost { calls: Vec::new(), clock: vec![100, 150] };
    let first = host.call(milliseconds(&bridge).unwrap());
    let second = host.call(milliseconds(&bridge).unwrap());
    assert_eq!(first, 100);
    assert_eq!(second, 150);
    assert!(second >= first);
    assert_eq!(host.calls.len(), 2);
}

#[test]
fn import_ordinals_match_the_abi() {
    assert_eq!(uiImport_t::UI_ERROR.code(), 0);
    assert_eq!(uiImport_t::UI_PRINT.code(), 1);
    assert_eq!(uiImport_t::UI_MILLISECONDS.code(), 2);
    assert_eq!(uiImport_t::UI_LAN_COMPARESERVERS.code(), 85);
    assert_eq!(uiImport_t::UI_FS_SEEK.code(), 86);
    assert_eq!(uiImport_t::UI_SET_PBCLSTATUS.code(), 87);
    assert_eq!(uiImport_t::UI_MEMSET.code(), 100);
    assert_eq!(uiImport_t::UI_CEIL.code(), 108);
    assert_eq!(uiImport_t::from_code(88), None);
    assert_eq!(uiImport_t::from_code(99), None);
    assert_eq!(uiImport_t::from_code(109), None);
    assert_eq!(uiImport_t::from_code(-1), None);
}

#[test]
fn import_ordinals_round_trip() {
    let mut seen = 0;
    for code in -5..120 {
        if let Some(op) = uiImport_t::from_code(code) {
            assert_eq!(op.code(), code);
            seen += 1;
        }
    }
    assert_eq!(seen, 97);
}
