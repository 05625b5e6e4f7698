use ui_bridge::{
    decode_bool, decode_command, dispatch, milliseconds, print, set_syscallptr, uiExport_t,
    uiMenuCommand_t, Command, GatewayError, GatewayStep, SyscallBridge, SyscallRequest,
    UI_APIVERSION,
};

fn loaded() -> SyscallBridge {
    let mut bridge = SyscallBridge::new();
    set_syscallptr(&mut bridge, 0x4000);
    bridge
}

fn args(a0: i32, a1: i32) -> [i32; 12] {
    [a0, a1, 7, 7, 7, 7, 7, 7, 7, 7, 7, 7]
}

/// Stands in for a UI handler: the calls it would make into the host.
fn handler_calls(bridge: &SyscallBridge, command: Command) -> Vec<SyscallRequest> {
    let mut calls = Vec::new();
    match command {
        Command::Refresh { .. } => calls.push(milliseconds(bridge).unwrap()),
        Command::KeyEvent { key, down } => {
            calls.push(print(bridge, &format!("key {} {}", key, down)).unwrap())
        }
        _ => calls.push(print(bridge, "event").unwrap()),
    }
    calls
}

#[test]
fn export_ordinals_round_trip() {
    let mut seen = 0;
    for code in -3..20 {
        if let Some(op) = uiExport_t::from_code(code) {
            assert_eq!(op.code(), code);
            seen += 1;
        }
    }
    assert_eq!(seen, 11);
    assert_eq!(uiExport_t::UI_GETAPIVERSION.code(), 0);
    assert_eq!(uiExport_t::UI_SET_ACTIVE_MENU.code(), 7);
    assert_eq!(uiExport_t::UI_HASUNIQUECDKEY.code(), 10);
    assert_eq!(uiExport_t::from_code(11), None);
}

#[test]
fn menu_ordinals_round_trip() {
    for code in 0..7 {
        assert_eq!(uiMenuCommand_t::from_code(code).unwrap().code(), code);
    }
    assert_eq!(uiMenuCommand_t::from_code(7), None);
    assert_eq!(uiMenuCommand_t::from_code(-1), None);
    assert_eq!(uiMenuCommand_t::UIMENU_POSTGAME.code(), 6);
}

#[test]
fn version_query_returns_fixed_version() {
    let bridge = loaded();
    for a in [0, 1, -1, 42, i32::MAX] {
        assert_eq!(
            dispatch(&bridge, 0, &[a; 12]),
            Ok(GatewayStep::Reply(UI_APIVERSION as isize))
        );
    }
    assert_eq!(UI_APIVERSION, 6);
}

#[test]
fn gateway_refused_before_load() {
    let bridge = SyscallBridge::new();
    for code in -1..12 {
        assert_eq!(dispatch(&bridge, code, &args(0, 0)), Err(GatewayError::NotLoaded));
    }
}

#[test]
fn gateway_routes_each_command() {
    let bridge = loaded();
    let a = args(3, -4);
    let expected = [
        Command::Init { in_game: true },
        Command::Shutdown,
        Command::KeyEvent { key: 3, down: true },
        Command::MouseEvent { dx: 3, dy: -4 },
        Command::Refresh { time: 3 },
        Command::IsFullscreen,
        Command::SetActiveMenu { menu: uiMenuCommand_t::UIMENU_NEED_CD },
        Command::ConsoleCommand { real_time: 3 },
        Command::DrawConnectScreen { overlay: true },
        Command::HasUniqueCdkey,
    ];
    for (i, c) in expected.iter().enumerate() {
        let code = i as i32 + 1;
        assert_eq!(dispatch(&bridge, code, &a), Ok(GatewayStep::Invoke(*c)));
        assert_eq!(decode_command(code, &a), Ok(*c));
    }
}

#[test]
fn unknown_opcodes_and_menus_are_refused() {
    let bridge = loaded();
    assert_eq!(dispatch(&bridge, 11, &args(0, 0)), Err(GatewayError::UnknownCommand(11)));
    assert_eq!(dispatch(&bridge, -1, &args(0, 0)), Err(GatewayError::UnknownCommand(-1)));
    assert_eq!(dispatch(&bridge, 7, &args(7, 0)), Err(GatewayError::UnknownMenu(7)));
    assert_eq!(dispatch(&bridge, 7, &args(-2, 0)), Err(GatewayError::UnknownMenu(-2)));
    assert_eq!(
        dispatch(&bridge, 7, &args(1, 0)),
        Ok(GatewayStep::Invoke(Command::SetActiveMenu { menu: uiMenuCommand_t::UIMENU_MAIN }))
    );
}

#[test]
fn boolean_arguments_decode_zero_as_false() {
    assert!(!decode_bool(0));
    for v in [1, -1, 42, i32::MIN, i32::MAX] {
        assert!(decode_bool(v));
        assert_eq!(decode_command(1, &args(v, 0)), Ok(Command::Init { in_game: true }));
        assert_eq!(
            decode_command(3, &args(5, v)),
            Ok(Command::KeyEvent { key: 5, down: true })
        );
        assert_eq!(
            decode_command(9, &args(v, 0)),
            Ok(Command::DrawConnectScreen { overlay: true })
        );
    }
    assert_eq!(decode_command(1, &args(0, 1)), Ok(Command::Init { in_game: false }));
    assert_eq!(decode_command(3, &args(5, 0)), Ok(Command::KeyEvent { key: 5, down: false }));
    assert_eq!(
        decode_command(9, &args(0, 1)),
        Ok(Command::DrawConnectScreen { overlay: false })
    );
}

#[test]
fn dispatch_twice_gives_same_calls() {
    let bridge = loaded();
    for (code, a) in [(3, args(65, 1)), (5, args(1000, 0)), (1, args(0, 0))] {
        let mut runs = Vec::new();
        for _ in 0..2 {
            let step = dispatch(&bridge, code, &a).unwrap();
            let calls = match step {
                GatewayStep::Invoke(c) => handler_calls(&bridge, c),
                GatewayStep::Reply(_) => Vec::new(),
            };
            runs.push((step, calls));
        }
        assert_eq!(runs[0], runs[1]);
        assert!(!runs[0].1.is_empty());
    }
}
