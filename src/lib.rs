//! Bridge layer between a game engine host and its UI module: the opcode
//! tables of both call directions, the decoding of host commands, the
//! one-shot system-call capability and the marshaling of text for it.
//!
//! The library decides; whoever holds the real function pointer performs
//! the calls that it describes and hands the host's replies back.
pub mod gateway;
pub mod opcodes;
pub mod syscalls;

pub use gateway::{
    decode_bool, decode_command, dispatch, uiExport_t, uiMenuCommand_t, Command, GatewayError,
    GatewayStep, UI_APIVERSION,
};
pub use opcodes::uiImport_t;
pub use syscalls::{
    _error, convert_str_to_cstring, get_syscall, milliseconds, print, set_syscallptr,
    BridgeError, MarshalError, SyscallBridge, SyscallRequest,
};
