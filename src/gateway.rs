use vstd::prelude::*;

use libc::{c_int, intptr_t};

use crate::syscalls::SyscallBridge;

verus! {

/// Commands that the host sends to the library through the gateway. The
/// ordinal of each member is fixed by the engine's ABI.
#[allow(non_camel_case_types)]
#[derive(Clone, Copy, Debug, PartialEq, Eq, Structural)]
pub enum uiExport_t {
    UI_GETAPIVERSION,
    UI_INIT,
    UI_SHUTDOWN,
    UI_KEY_EVENT,
    UI_MOUSE_EVENT,
    UI_REFRESH,
    UI_IS_FULLSCREEN,
    UI_SET_ACTIVE_MENU,
    UI_CONSOLE_COMMAND,
    UI_DRAW_CONNECT_SCREEN,
    UI_HASUNIQUECDKEY,
}

/// The ordinal the host sends for each command.
pub open spec fn export_code(v: uiExport_t) -> int {
    match v {
        uiExport_t::UI_GETAPIVERSION => 0,
        uiExport_t::UI_INIT => 1,
        uiExport_t::UI_SHUTDOWN => 2,
        uiExport_t::UI_KEY_EVENT => 3,
        uiExport_t::UI_MOUSE_EVENT => 4,
        uiExport_t::UI_REFRESH => 5,
        uiExport_t::UI_IS_FULLSCREEN => 6,
        uiExport_t::UI_SET_ACTIVE_MENU => 7,
        uiExport_t::UI_CONSOLE_COMMAND => 8,
        uiExport_t::UI_DRAW_CONNECT_SCREEN => 9,
        uiExport_t::UI_HASUNIQUECDKEY => 10,
    }
}

/// The member that a wire ordinal stands for, if any.
pub open spec fn export_of_code(code: int) -> Option<uiExport_t> {
    if code == 0 {
        Some(uiExport_t::UI_GETAPIVERSION)
    } else if code == 1 {
        Some(uiExport_t::UI_INIT)
    } else if code == 2 {
        Some(uiExport_t::UI_SHUTDOWN)
    } else if code == 3 {
        Some(uiExport_t::UI_KEY_EVENT)
    } else if code == 4 {
        Some(uiExport_t::UI_MOUSE_EVENT)
    } else if code == 5 {
        Some(uiExport_t::UI_REFRESH)
    } else if code == 6 {
        Some(uiExport_t::UI_IS_FULLSCREEN)
    } else if code == 7 {
        Some(uiExport_t::UI_SET_ACTIVE_MENU)
    } else if code == 8 {
        Some(uiExport_t::UI_CONSOLE_COMMAND)
    } else if code == 9 {
        Some(uiExport_t::UI_DRAW_CONNECT_SCREEN)
    } else if code == 10 {
        Some(uiExport_t::UI_HASUNIQUECDKEY)
    } else {
        None
    }
}

impl uiExport_t {
    /// The wire ordinal of this member.
    pub fn code(self) -> (r: c_int)
        ensures
            r as int == export_code(self),
    {
        match self {
            uiExport_t::UI_GETAPIVERSION => 0,
            uiExport_t::UI_INIT => 1,
            uiExport_t::UI_SHUTDOWN => 2,
            uiExport_t::UI_KEY_EVENT => 3,
            uiExport_t::UI_MOUSE_EVENT => 4,
            uiExport_t::UI_REFRESH => 5,
            uiExport_t::UI_IS_FULLSCREEN => 6,
            uiExport_t::UI_SET_ACTIVE_MENU => 7,
            uiExport_t::UI_CONSOLE_COMMAND => 8,
            uiExport_t::UI_DRAW_CONNECT_SCREEN => 9,
            uiExport_t::UI_HASUNIQUECDKEY => 10,
        }
    }

    /// Reads a wire ordinal strictly: `None` for one that names no member.
    pub fn from_code(code: c_int) -> (r: Option<uiExport_t>)
        ensures
            r == export_of_code(code as int),
    {
        match code {
            0 => Some(uiExport_t::UI_GETAPIVERSION),
            1 => Some(uiExport_t::UI_INIT),
            2 => Some(uiExport_t::UI_SHUTDOWN),
            3 => Some(uiExport_t::UI_KEY_EVENT),
            4 => Some(uiExport_t::UI_MOUSE_EVENT),
            5 => Some(uiExport_t::UI_REFRESH),
            6 => Some(uiExport_t::UI_IS_FULLSCREEN),
            7 => Some(uiExport_t::UI_SET_ACTIVE_MENU),
            8 => Some(uiExport_t::UI_CONSOLE_COMMAND),
            9 => Some(uiExport_t::UI_DRAW_CONNECT_SCREEN),
            10 => Some(uiExport_t::UI_HASUNIQUECDKEY),
            _ => None,
        }
    }
}

/// The menus that the host can ask the library to bring up.
#[allow(non_camel_case_types)]
#[derive(Clone, Copy, Debug, PartialEq, Eq, Structural)]
pub enum uiMenuCommand_t {
    UIMENU_NONE,
    UIMENU_MAIN,
    UIMENU_INGAME,
    UIMENU_NEED_CD,
    UIMENU_BAD_CD_KEY,
    UIMENU_TEAM,
    UIMENU_POSTGAME,
}

/// The ordinal the host sends for each menu.
pub open spec fn menu_code(v: uiMenuCommand_t) -> int {
    match v {
        uiMenuCommand_t::UIMENU_NONE => 0,
        uiMenuCommand_t::UIMENU_MAIN => 1,
        uiMenuCommand_t::UIMENU_INGAME => 2,
        uiMenuCommand_t::UIMENU_NEED_CD => 3,
        uiMenuCommand_t::UIMENU_BAD_CD_KEY => 4,
        uiMenuCommand_t::UIMENU_TEAM => 5,
        uiMenuCommand_t::UIMENU_POSTGAME => 6,
    }
}

/// The member that a wire ordinal stands for, if any.
pub open spec fn menu_of_code(code: int) -> Option<uiMenuCommand_t> {
    if code == 0 {
        Some(uiMenuCommand_t::UIMENU_NONE)
    } else if code == 1 {
        Some(uiMenuCommand_t::UIMENU_MAIN)
    } else if code == 2 {
        Some(uiMenuCommand_t::UIMENU_INGAME)
    } else if code == 3 {
        Some(uiMenuCommand_t::UIMENU_NEED_CD)
    } else if code == 4 {
        Some(uiMenuCommand_t::UIMENU_BAD_CD_KEY)
    } else if code == 5 {
        Some(uiMenuCommand_t::UIMENU_TEAM)
    } else if code == 6 {
        Some(uiMenuCommand_t::UIMENU_POSTGAME)
    } else {
        None
    }
}

impl uiMenuCommand_t {
    /// The wire ordinal of this member.
    pub fn code(self) -> (r: c_int)
        ensures
            r as int == menu_code(self),
    {
        match self {
            uiMenuCommand_t::UIMENU_NONE => 0,
            uiMenuCommand_t::UIMENU_MAIN => 1,
            uiMenuCommand_t::UIMENU_INGAME => 2,
            uiMenuCommand_t::UIMENU_NEED_CD => 3,
            uiMenuCommand_t::UIMENU_BAD_CD_KEY => 4,
            uiMenuCommand_t::UIMENU_TEAM => 5,
            uiMenuCommand_t::UIMENU_POSTGAME => 6,
        }
    }

    /// Reads a wire ordinal strictly: `None` for one that names no member.
    pub fn from_code(code: c_int) -> (r: Option<uiMenuCommand_t>)
        ensures
            r == menu_of_code(code as int),
    {
        match code {
            0 => Some(uiMenuCommand_t::UIMENU_NONE),
            1 => Some(uiMenuCommand_t::UIMENU_MAIN),
            2 => Some(uiMenuCommand_t::UIMENU_INGAME),
            3 => Some(uiMenuCommand_t::UIMENU_NEED_CD),
            4 => Some(uiMenuCommand_t::UIMENU_BAD_CD_KEY),
            5 => Some(uiMenuCommand_t::UIMENU_TEAM),
            6 => Some(uiMenuCommand_t::UIMENU_POSTGAME),
            _ => None,
        }
    }
}

/// The version the library reports to the host's version query.
pub const UI_APIVERSION: c_int = 6;

/// A decoded command: the opcode together with its arguments read as their
/// true types.
#[derive(Clone, Copy, Debug, PartialEq, Eq, Structural)]
pub enum Command {
    GetApiVersion,
    Init { in_game: bool },
    Shutdown,
    KeyEvent { key: c_int, down: bool },
    MouseEvent { dx: c_int, dy: c_int },
    Refresh { time: c_int },
    IsFullscreen,
    SetActiveMenu { menu: uiMenuCommand_t },
    ConsoleCommand { real_time: c_int },
    DrawConnectScreen { overlay: bool },
    HasUniqueCdkey,
}

/// Why the gateway refused a call.
#[derive(Clone, Copy, Debug, PartialEq, Eq, Structural)]
pub enum GatewayError {
    /// The host called the gateway before handing over its capability.
    NotLoaded,
    /// The opcode names no command.
    UnknownCommand(c_int),
    /// The menu argument of a set-active-menu command names no menu.
    UnknownMenu(c_int),
}

/// What the gateway does with a call: answer it at once, or hand the
/// decoded command to its handler, whose result goes back to the host.
#[derive(Clone, Copy, Debug, PartialEq, Eq, Structural)]
pub enum GatewayStep {
    Reply(intptr_t),
    Invoke(Command),
}

/// A boolean argument: zero is false, anything else is true.
pub fn decode_bool(arg: c_int) -> (r: bool)
    ensures
        r == (arg != 0),
{
    arg != 0
}

/// The command that opcode `command` with raw arguments `args` stands for.
pub open spec fn command_of(command: c_int, args: Seq<c_int>) -> Result<Command, GatewayError>
    recommends
        args.len() == 12,
{
    match export_of_code(command as int) {
        None => Err(GatewayError::UnknownCommand(command)),
        Some(op) => match op {
            uiExport_t::UI_GETAPIVERSION => Ok(Command::GetApiVersion),
            uiExport_t::UI_INIT => Ok(Command::Init { in_game: args[0] != 0 }),
            uiExport_t::UI_SHUTDOWN => Ok(Command::Shutdown),
            uiExport_t::UI_KEY_EVENT => Ok(Command::KeyEvent { key: args[0], down: args[1] != 0 }),
            uiExport_t::UI_MOUSE_EVENT => Ok(Command::MouseEvent { dx: args[0], dy: args[1] }),
            uiExport_t::UI_REFRESH => Ok(Command::Refresh { time: args[0] }),
            uiExport_t::UI_IS_FULLSCREEN => Ok(Command::IsFullscreen),
            uiExport_t::UI_SET_ACTIVE_MENU => match menu_of_code(args[0] as int) {
                Some(menu) => Ok(Command::SetActiveMenu { menu }),
                None => Err(GatewayError::UnknownMenu(args[0])),
            },
            uiExport_t::UI_CONSOLE_COMMAND => Ok(Command::ConsoleCommand { real_time: args[0] }),
            uiExport_t::UI_DRAW_CONNECT_SCREEN => Ok(
                Command::DrawConnectScreen { overlay: args[0] != 0 },
            ),
            uiExport_t::UI_HASUNIQUECDKEY => Ok(Command::HasUniqueCdkey),
        },
    }
}

/// What the gateway does with a call, given the capability slot `cap`.
pub open spec fn gateway_step(cap: Option<intptr_t>, command: c_int, args: Seq<c_int>) -> Result<
    GatewayStep,
    GatewayError,
>
    recommends
        args.len() == 12,
{
    if cap.is_none() {
        Err(GatewayError::NotLoaded)
    } else {
        match command_of(command, args) {
            Ok(Command::GetApiVersion) => Ok(GatewayStep::Reply(UI_APIVERSION as intptr_t)),
            Ok(c) => Ok(GatewayStep::Invoke(c)),
            Err(e) => Err(e),
        }
    }
}

/// Decodes opcode `command` and reads each of its meaningful arguments as
/// its true type; the other arguments are ignored.
pub fn decode_command(command: c_int, args: &[c_int; 12]) -> (r: Result<Command, GatewayError>)
    ensures
        r == command_of(command, args@),
{
    let op = match uiExport_t::from_code(command) {
        Some(op) => op,
        None => return Err(GatewayError::UnknownCommand(command)),
    };
    match op {
        uiExport_t::UI_GETAPIVERSION => Ok(Command::GetApiVersion),
        uiExport_t::UI_INIT => Ok(Command::Init { in_game: decode_bool(args[0]) }),
        uiExport_t::UI_SHUTDOWN => Ok(Command::Shutdown),
        uiExport_t::UI_KEY_EVENT => Ok(Command::KeyEvent { key: args[0], down: decode_bool(args[1]) }),
        uiExport_t::UI_MOUSE_EVENT => Ok(Command::MouseEvent { dx: args[0], dy: args[1] }),
        uiExport_t::UI_REFRESH => Ok(Command::Refresh { time: args[0] }),
        uiExport_t::UI_IS_FULLSCREEN => Ok(Command::IsFullscreen),
        uiExport_t::UI_SET_ACTIVE_MENU => match uiMenuCommand_t::from_code(args[0]) {
            Some(menu) => Ok(Command::SetActiveMenu { menu }),
            None => Err(GatewayError::UnknownMenu(args[0])),
        },
        uiExport_t::UI_CONSOLE_COMMAND => Ok(Command::ConsoleCommand { real_time: args[0] }),
        uiExport_t::UI_DRAW_CONNECT_SCREEN => Ok(
            Command::DrawConnectScreen { overlay: decode_bool(args[0]) },
        ),
        uiExport_t::UI_HASUNIQUECDKEY => Ok(Command::HasUniqueCdkey),
    }
}

/// The gateway: refuses every call before the host has handed over its
/// capability, answers the version query itself, and routes every other
/// command to its handler.
pub fn dispatch(bridge: &SyscallBridge, command: c_int, args: &[c_int; 12]) -> (r: Result<
    GatewayStep,
    GatewayError,
>)
    ensures
        r == gateway_step(bridge@, command, args@),
{
    if !bridge.is_loaded() {
        return Err(GatewayError::NotLoaded);
    }
    match decode_command(command, args) {
        Ok(Command::GetApiVersion) => Ok(GatewayStep::Reply(UI_APIVERSION as intptr_t)),
        Ok(c) => Ok(GatewayStep::Invoke(c)),
        Err(e) => Err(e),
    }
}

/// Every command's ordinal decodes back to that command, and every ordinal
/// that decodes to a command is that command's ordinal.
pub proof fn lemma_export_code_round_trip(op: uiExport_t, code: int)
    ensures
        export_of_code(export_code(op)) == Some(op),
        export_of_code(code) == Some(op) ==> export_code(op) == code,
{
}

/// Every menu's ordinal decodes back to that menu, and every ordinal that
/// decodes to a menu is that menu's ordinal.
pub proof fn lemma_menu_code_round_trip(menu: uiMenuCommand_t, code: int)
    ensures
        menu_of_code(menu_code(menu)) == Some(menu),
        menu_of_code(code) == Some(menu) ==> menu_code(menu) == code,
{
}

/// Once loaded, the version query is answered with the fixed version
/// whatever its arguments, and no handler is invoked.
pub proof fn lemma_version_query(cap: Option<intptr_t>, args: Seq<c_int>)
    requires
        cap.is_some(),
        args.len() == 12,
    ensures
        gateway_step(cap, 0, args) == Ok::<GatewayStep, GatewayError>(
            GatewayStep::Reply(UI_APIVERSION as intptr_t),
        ),
{
}

/// Before the capability is handed over every call is refused; after it,
/// every call with a known opcode (and, for set-active-menu, a known menu)
/// goes through.
pub proof fn lemma_gateway_needs_load(cap: Option<intptr_t>, command: c_int, args: Seq<c_int>)
    requires
        args.len() == 12,
    ensures
        gateway_step(None, command, args) == Err::<GatewayStep, GatewayError>(
            GatewayError::NotLoaded,
        ),
        cap.is_some() && export_of_code(command as int).is_some() && (command != 7
            || menu_of_code(args[0] as int).is_some()) ==> gateway_step(cap, command, args).is_ok(),
{
}

/// Each boolean argument of init, key-event and draw-connect-screen reads
/// as false for zero and as true for any other value.
pub proof fn lemma_boolean_arguments(args: Seq<c_int>)
    requires
        args.len() == 12,
    ensures
        command_of(1, args) == Ok::<Command, GatewayError>(Command::Init { in_game: args[0] != 0 }),
        command_of(3, args) == Ok::<Command, GatewayError>(
            Command::KeyEvent { key: args[0], down: args[1] != 0 },
        ),
        command_of(9, args) == Ok::<Command, GatewayError>(
            Command::DrawConnectScreen { overlay: args[0] != 0 },
        ),
{
}

} // verus!
