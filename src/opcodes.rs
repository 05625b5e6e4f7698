use vstd::prelude::*;

verus! {

/// Requests that the library sends to the host through the system-call
/// capability. The ordinal of each member is fixed by the engine's ABI.
#[allow(non_camel_case_types)]
#[derive(Clone, Copy, Debug, PartialEq, Eq, Structural)]
pub enum uiImport_t {
    UI_ERROR,
    UI_PRINT,
    UI_MILLISECONDS,
    UI_CVAR_SET,
    UI_CVAR_VARIABLEVALUE,
    UI_CVAR_VARIABLESTRINGBUFFER,
    UI_CVAR_SETVALUE,
    UI_CVAR_RESET,
    UI_CVAR_CREATE,
    UI_CVAR_INFOSTRINGBUFFER,
    UI_ARGC,
    UI_ARGV,
    UI_CMD_EXECUTETEXT,
    UI_FS_FOPENFILE,
    UI_FS_READ,
    UI_FS_WRITE,
    UI_FS_FCLOSEFILE,
    UI_FS_GETFILELIST,
    UI_R_REGISTERMODEL,
    UI_R_REGISTERSKIN,
    UI_R_REGISTERSHADERNOMIP,
    UI_R_CLEARSCENE,
    UI_R_ADDREFENTITYTOSCENE,
    UI_R_ADDPOLYTOSCENE,
    UI_R_ADDLIGHTTOSCENE,
    UI_R_RENDERSCENE,
    UI_R_SETCOLOR,
    UI_R_DRAWSTRETCHPIC,
    UI_UPDATESCREEN,
    UI_CM_LERPTAG,
    UI_CM_LOADMODEL,
    UI_S_REGISTERSOUND,
    UI_S_STARTLOCALSOUND,
    UI_KEY_KEYNUMTOSTRINGBUF,
    UI_KEY_GETBINDINGBUF,
    UI_KEY_SETBINDING,
    UI_KEY_ISDOWN,
    UI_KEY_GETOVERSTRIKEMODE,
    UI_KEY_SETOVERSTRIKEMODE,
    UI_KEY_CLEARSTATES,
    UI_KEY_GETCATCHER,
    UI_KEY_SETCATCHER,
    UI_GETCLIPBOARDDATA,
    UI_GETGLCONFIG,
    UI_GETCLIENTSTATE,
    UI_GETCONFIGSTRING,
    UI_LAN_GETPINGQUEUECOUNT,
    UI_LAN_CLEARPING,
    UI_LAN_GETPING,
    UI_LAN_GETPINGINFO,
    UI_CVAR_REGISTER,
    UI_CVAR_UPDATE,
    UI_MEMORY_REMAINING,
    UI_GET_CDKEY,
    UI_SET_CDKEY,
    UI_R_REGISTERFONT,
    UI_R_MODELBOUNDS,
    UI_PC_ADD_GLOBAL_DEFINE,
    UI_PC_LOAD_SOURCE,
    UI_PC_FREE_SOURCE,
    UI_PC_READ_TOKEN,
    UI_PC_SOURCE_FILE_AND_LINE,
    UI_S_STOPBACKGROUNDTRACK,
    UI_S_STARTBACKGROUNDTRACK,
    UI_REAL_TIME,
    UI_LAN_GETSERVERCOUNT,
    UI_LAN_GETSERVERADDRESSSTRING,
    UI_LAN_GETSERVERINFO,
    UI_LAN_MARKSERVERVISIBLE,
    UI_LAN_UPDATEVISIBLEPINGS,
    UI_LAN_RESETPINGS,
    UI_LAN_LOADCACHEDSERVERS,
    UI_LAN_SAVECACHEDSERVERS,
    UI_LAN_ADDSERVER,
    UI_LAN_REMOVESERVER,
    UI_CIN_PLAYCINEMATIC,
    UI_CIN_STOPCINEMATIC,
    UI_CIN_RUNCINEMATIC,
    UI_CIN_DRAWCINEMATIC,
    UI_CIN_SETEXTENTS,
    UI_R_REMAP_SHADER,
    UI_VERIFY_CDKEY,
    UI_LAN_SERVERSTATUS,
    UI_LAN_GETSERVERPING,
    UI_LAN_SERVERISVISIBLE,
    UI_LAN_COMPARESERVERS,
    UI_FS_SEEK,
    UI_SET_PBCLSTATUS,
    UI_MEMSET,
    UI_MEMCPY,
    UI_STRNCPY,
    UI_SIN,
    UI_COS,
    UI_ATAN2,
    UI_SQRT,
    UI_FLOOR,
    UI_CEIL,
}

/// The ordinal the host expects for each request.
pub open spec fn import_code(op: uiImport_t) -> int {
    match op {
        uiImport_t::UI_ERROR => 0,
        uiImport_t::UI_PRINT => 1,
        uiImport_t::UI_MILLISECONDS => 2,
        uiImport_t::UI_CVAR_SET => 3,
        uiImport_t::UI_CVAR_VARIABLEVALUE => 4,
        uiImport_t::UI_CVAR_VARIABLESTRINGBUFFER => 5,
        uiImport_t::UI_CVAR_SETVALUE => 6,
        uiImport_t::UI_CVAR_RESET => 7,
        uiImport_t::UI_CVAR_CREATE => 8,
        uiImport_t::UI_CVAR_INFOSTRINGBUFFER => 9,
        uiImport_t::UI_ARGC => 10,
        uiImport_t::UI_ARGV => 11,
        uiImport_t::UI_CMD_EXECUTETEXT => 12,
        uiImport_t::UI_FS_FOPENFILE => 13,
        uiImport_t::UI_FS_READ => 14,
        uiImport_t::UI_FS_WRITE => 15,
        uiImport_t::UI_FS_FCLOSEFILE => 16,
        uiImport_t::UI_FS_GETFILELIST => 17,
        uiImport_t::UI_R_REGISTERMODEL => 18,
        uiImport_t::UI_R_REGISTERSKIN => 19,
        uiImport_t::UI_R_REGISTERSHADERNOMIP => 20,
        uiImport_t::UI_R_CLEARSCENE => 21,
        uiImport_t::UI_R_ADDREFENTITYTOSCENE => 22,
        uiImport_t::UI_R_ADDPOLYTOSCENE => 23,
        uiImport_t::UI_R_ADDLIGHTTOSCENE => 24,
        uiImport_t::UI_R_RENDERSCENE => 25,
        uiImport_t::UI_R_SETCOLOR => 26,
        uiImport_t::UI_R_DRAWSTRETCHPIC => 27,
        uiImport_t::UI_UPDATESCREEN => 28,
        uiImport_t::UI_CM_LERPTAG => 29,
        uiImport_t::UI_CM_LOADMODEL => 30,
        uiImport_t::UI_S_REGISTERSOUND => 31,
        uiImport_t::UI_S_STARTLOCALSOUND => 32,
        uiImport_t::UI_KEY_KEYNUMTOSTRINGBUF => 33,
        uiImport_t::UI_KEY_GETBINDINGBUF => 34,
        uiImport_t::UI_KEY_SETBINDING => 35,
        uiImport_t::UI_KEY_ISDOWN => 36,
        uiImport_t::UI_KEY_GETOVERSTRIKEMODE => 37,
        uiImport_t::UI_KEY_SETOVERSTRIKEMODE => 38,
        uiImport_t::UI_KEY_CLEARSTATES => 39,
        uiImport_t::UI_KEY_GETCATCHER => 40,
        uiImport_t::UI_KEY_SETCATCHER => 41,
        uiImport_t::UI_GETCLIPBOARDDATA => 42,
        uiImport_t::UI_GETGLCONFIG => 43,
        uiImport_t::UI_GETCLIENTSTATE => 44,
        uiImport_t::UI_GETCONFIGSTRING => 45,
        uiImport_t::UI_LAN_GETPINGQUEUECOUNT => 46,
        uiImport_t::UI_LAN_CLEARPING => 47,
        uiImport_t::UI_LAN_GETPING => 48,
        uiImport_t::UI_LAN_GETPINGINFO => 49,
        uiImport_t::UI_CVAR_REGISTER => 50,
        uiImport_t::UI_CVAR_UPDATE => 51,
        uiImport_t::UI_MEMORY_REMAINING => 52,
        uiImport_t::UI_GET_CDKEY => 53,
        uiImport_t::UI_SET_CDKEY => 54,
        uiImport_t::UI_R_REGISTERFONT => 55,
        uiImport_t::UI_R_MODELBOUNDS => 56,
        uiImport_t::UI_PC_ADD_GLOBAL_DEFINE => 57,
        uiImport_t::UI_PC_LOAD_SOURCE => 58,
        uiImport_t::UI_PC_FREE_SOURCE => 59,
        uiImport_t::UI_PC_READ_TOKEN => 60,
        uiImport_t::UI_PC_SOURCE_FILE_AND_LINE => 61,
        uiImport_t::UI_S_STOPBACKGROUNDTRACK => 62,
        uiImport_t::UI_S_STARTBACKGROUNDTRACK => 63,
        uiImport_t::UI_REAL_TIME => 64,
        uiImport_t::UI_LAN_GETSERVERCOUNT => 65,
        uiImport_t::UI_LAN_GETSERVERADDRESSSTRING => 66,
        uiImport_t::UI_LAN_GETSERVERINFO => 67,
        uiImport_t::UI_LAN_MARKSERVERVISIBLE => 68,
        uiImport_t::UI_LAN_UPDATEVISIBLEPINGS => 69,
        uiImport_t::UI_LAN_RESETPINGS => 70,
        uiImport_t::UI_LAN_LOADCACHEDSERVERS => 71,
        uiImport_t::UI_LAN_SAVECACHEDSERVERS => 72,
        uiImport_t::UI_LAN_ADDSERVER => 73,
        uiImport_t::UI_LAN_REMOVESERVER => 74,
        uiImport_t::UI_CIN_PLAYCINEMATIC => 75,
        uiImport_t::UI_CIN_STOPCINEMATIC => 76,
        uiImport_t::UI_CIN_RUNCINEMATIC => 77,
        uiImport_t::UI_CIN_DRAWCINEMATIC => 78,
        uiImport_t::UI_CIN_SETEXTENTS => 79,
        uiImport_t::UI_R_REMAP_SHADER => 80,
        uiImport_t::UI_VERIFY_CDKEY => 81,
        uiImport_t::UI_LAN_SERVERSTATUS => 82,
        uiImport_t::UI_LAN_GETSERVERPING => 83,
        uiImport_t::UI_LAN_SERVERISVISIBLE => 84,
        uiImport_t::UI_LAN_COMPARESERVERS => 85,
        uiImport_t::UI_FS_SEEK => 86,
        uiImport_t::UI_SET_PBCLSTATUS => 87,
        uiImport_t::UI_MEMSET => 100,
        uiImport_t::UI_MEMCPY => 101,
        uiImport_t::UI_STRNCPY => 102,
        uiImport_t::UI_SIN => 103,
        uiImport_t::UI_COS => 104,
        uiImport_t::UI_ATAN2 => 105,
        uiImport_t::UI_SQRT => 106,
        uiImport_t::UI_FLOOR => 107,
        uiImport_t::UI_CEIL => 108,
    }
}

/// The request that a given ordinal stands for, if any.
pub open spec fn import_of_code(code: int) -> Option<uiImport_t> {
    if code == 0 {
        Some(uiImport_t::UI_ERROR)
    } else if code == 1 {
        Some(uiImport_t::UI_PRINT)
    } else if code == 2 {
        Some(uiImport_t::UI_MILLISECONDS)
    } else if code == 3 {
        Some(uiImport_t::UI_CVAR_SET)
    } else if code == 4 {
        Some(uiImport_t::UI_CVAR_VARIABLEVALUE)
    } else if code == 5 {
        Some(uiImport_t::UI_CVAR_VARIABLESTRINGBUFFER)
    } else if code == 6 {
        Some(uiImport_t::UI_CVAR_SETVALUE)
    } else if code == 7 {
        Some(uiImport_t::UI_CVAR_RESET)
    } else if code == 8 {
        Some(uiImport_t::UI_CVAR_CREATE)
    } else if code == 9 {
        Some(uiImport_t::UI_CVAR_INFOSTRINGBUFFER)
    } else if code == 10 {
        Some(uiImport_t::UI_ARGC)
    } else if code == 11 {
        Some(uiImport_t::UI_ARGV)
    } else if code == 12 {
        Some(uiImport_t::UI_CMD_EXECUTETEXT)
    } else if code == 13 {
        Some(uiImport_t::UI_FS_FOPENFILE)
    } else if code == 14 {
        Some(uiImport_t::UI_FS_READ)
    } else if code == 15 {
        Some(uiImport_t::UI_FS_WRITE)
    } else if code == 16 {
        Some(uiImport_t::UI_FS_FCLOSEFILE)
    } else if code == 17 {
        Some(uiImport_t::UI_FS_GETFILELIST)
    } else if code == 18 {
        Some(uiImport_t::UI_R_REGISTERMODEL)
    } else if code == 19 {
        Some(uiImport_t::UI_R_REGISTERSKIN)
    } else if code == 20 {
        Some(uiImport_t::UI_R_REGISTERSHADERNOMIP)
    } else if code == 21 {
        Some(uiImport_t::UI_R_CLEARSCENE)
    } else if code == 22 {
        Some(uiImport_t::UI_R_ADDREFENTITYTOSCENE)
    } else if code == 23 {
        Some(uiImport_t::UI_R_ADDPOLYTOSCENE)
    } else if code == 24 {
        Some(uiImport_t::UI_R_ADDLIGHTTOSCENE)
    } else if code == 25 {
        Some(uiImport_t::UI_R_RENDERSCENE)
    } else if code == 26 {
        Some(uiImport_t::UI_R_SETCOLOR)
    } else if code == 27 {
        Some(uiImport_t::UI_R_DRAWSTRETCHPIC)
    } else if code == 28 {
        Some(uiImport_t::UI_UPDATESCREEN)
    } else if code == 29 {
        Some(uiImport_t::UI_CM_LERPTAG)
    } else if code == 30 {
        Some(uiImport_t::UI_CM_LOADMODEL)
    } else if code == 31 {
        Some(uiImport_t::UI_S_REGISTERSOUND)
    } else if code == 32 {
        Some(uiImport_t::UI_S_STARTLOCALSOUND)
    } else if code == 33 {
        Some(uiImport_t::UI_KEY_KEYNUMTOSTRINGBUF)
    } else if code == 34 {
        Some(uiImport_t::UI_KEY_GETBINDINGBUF)
    } else if code == 35 {
        Some(uiImport_t::UI_KEY_SETBINDING)
    } else if code == 36 {
        Some(uiImport_t::UI_KEY_ISDOWN)
    } else if code == 37 {
        Some(uiImport_t::UI_KEY_GETOVERSTRIKEMODE)
    } else if code == 38 {
        Some(uiImport_t::UI_KEY_SETOVERSTRIKEMODE)
    } else if code == 39 {
        Some(uiImport_t::UI_KEY_CLEARSTATES)
    } else if code == 40 {
        Some(uiImport_t::UI_KEY_GETCATCHER)
    } else if code == 41 {
        Some(uiImport_t::UI_KEY_SETCATCHER)
    } else if code == 42 {
        Some(uiImport_t::UI_GETCLIPBOARDDATA)
    } else if code == 43 {
        Some(uiImport_t::UI_GETGLCONFIG)
    } else if code == 44 {
        Some(uiImport_t::UI_GETCLIENTSTATE)
    } else if code == 45 {
        Some(uiImport_t::UI_GETCONFIGSTRING)
    } else if code == 46 {
        Some(uiImport_t::UI_LAN_GETPINGQUEUECOUNT)
    } else if code == 47 {
        Some(uiImport_t::UI_LAN_CLEARPING)
    } else if code == 48 {
        Some(uiImport_t::UI_LAN_GETPING)
    } else if code == 49 {
        Some(uiImport_t::UI_LAN_GETPINGINFO)
    } else if code == 50 {
        Some(uiImport_t::UI_CVAR_REGISTER)
    } else if code == 51 {
        Some(uiImport_t::UI_CVAR_UPDATE)
    } else if code == 52 {
        Some(uiImport_t::UI_MEMORY_REMAINING)
    } else if code == 53 {
        Some(uiImport_t::UI_GET_CDKEY)
    } else if code == 54 {
        Some(uiImport_t::UI_SET_CDKEY)
    } else if code == 55 {
        Some(uiImport_t::UI_R_REGISTERFONT)
    } else if code == 56 {
        Some(uiImport_t::UI_R_MODELBOUNDS)
    } else if code == 57 {
        Some(uiImport_t::UI_PC_ADD_GLOBAL_DEFINE)
    } else if code == 58 {
        Some(uiImport_t::UI_PC_LOAD_SOURCE)
    } else if code == 59 {
        Some(uiImport_t::UI_PC_FREE_SOURCE)
    } else if code == 60 {
        Some(uiImport_t::UI_PC_READ_TOKEN)
    } else if code == 61 {
        Some(uiImport_t::UI_PC_SOURCE_FILE_AND_LINE)
    } else if code == 62 {
        Some(uiImport_t::UI_S_STOPBACKGROUNDTRACK)
    } else if code == 63 {
        Some(uiImport_t::UI_S_STARTBACKGROUNDTRACK)
    } else if code == 64 {
        Some(uiImport_t::UI_REAL_TIME)
    } else if code == 65 {
        Some(uiImport_t::UI_LAN_GETSERVERCOUNT)
    } else if code == 66 {
        Some(uiImport_t::UI_LAN_GETSERVERADDRESSSTRING)
    } else if code == 67 {
        Some(uiImport_t::UI_LAN_GETSERVERINFO)
    } else if code == 68 {
        Some(uiImport_t::UI_LAN_MARKSERVERVISIBLE)
    } else if code == 69 {
        Some(uiImport_t::UI_LAN_UPDATEVISIBLEPINGS)
    } else if code == 70 {
        Some(uiImport_t::UI_LAN_RESETPINGS)
    } else if code == 71 {
        Some(uiImport_t::UI_LAN_LOADCACHEDSERVERS)
    } else if code == 72 {
        Some(uiImport_t::UI_LAN_SAVECACHEDSERVERS)
    } else if code == 73 {
        Some(uiImport_t::UI_LAN_ADDSERVER)
    } else if code == 74 {
        Some(uiImport_t::UI_LAN_REMOVESERVER)
    } else if code == 75 {
        Some(uiImport_t::UI_CIN_PLAYCINEMATIC)
    } else if code == 76 {
        Some(uiImport_t::UI_CIN_STOPCINEMATIC)
    } else if code == 77 {
        Some(uiImport_t::UI_CIN_RUNCINEMATIC)
    } else if code == 78 {
        Some(uiImport_t::UI_CIN_DRAWCINEMATIC)
    } else if code == 79 {
        Some(uiImport_t::UI_CIN_SETEXTENTS)
    } else if code == 80 {
        Some(uiImport_t::UI_R_REMAP_SHADER)
    } else if code == 81 {
        Some(uiImport_t::UI_VERIFY_CDKEY)
    } else if code == 82 {
        Some(uiImport_t::UI_LAN_SERVERSTATUS)
    } else if code == 83 {
        Some(uiImport_t::UI_LAN_GETSERVERPING)
    } else if code == 84 {
        Some(uiImport_t::UI_LAN_SERVERISVISIBLE)
    } else if code == 85 {
        Some(uiImport_t::UI_LAN_COMPARESERVERS)
    } else if code == 86 {
        Some(uiImport_t::UI_FS_SEEK)
    } else if code == 87 {
        Some(uiImport_t::UI_SET_PBCLSTATUS)
    } else if code == 100 {
        Some(uiImport_t::UI_MEMSET)
    } else if code == 101 {
        Some(uiImport_t::UI_MEMCPY)
    } else if code == 102 {
        Some(uiImport_t::UI_STRNCPY)
    } else if code == 103 {
        Some(uiImport_t::UI_SIN)
    } else if code == 104 {
        Some(uiImport_t::UI_COS)
    } else if code == 105 {
        Some(uiImport_t::UI_ATAN2)
    } else if code == 106 {
        Some(uiImport_t::UI_SQRT)
    } else if code == 107 {
        Some(uiImport_t::UI_FLOOR)
    } else if code == 108 {
        Some(uiImport_t::UI_CEIL)
    } else {
        None
    }
}

impl uiImport_t {
    /// The wire ordinal of this request.
    pub fn code(self) -> (r: i32)
        ensures
            r as int == import_code(self),
    {
        match self {
            uiImport_t::UI_ERROR => 0,
            uiImport_t::UI_PRINT => 1,
            uiImport_t::UI_MILLISECONDS => 2,
            uiImport_t::UI_CVAR_SET => 3,
            uiImport_t::UI_CVAR_VARIABLEVALUE => 4,
            uiImport_t::UI_CVAR_VARIABLESTRINGBUFFER => 5,
            uiImport_t::UI_CVAR_SETVALUE => 6,
            uiImport_t::UI_CVAR_RESET => 7,
            uiImport_t::UI_CVAR_CREATE => 8,
            uiImport_t::UI_CVAR_INFOSTRINGBUFFER => 9,
            uiImport_t::UI_ARGC => 10,
            uiImport_t::UI_ARGV => 11,
            uiImport_t::UI_CMD_EXECUTETEXT => 12,
            uiImport_t::UI_FS_FOPENFILE => 13,
            uiImport_t::UI_FS_READ => 14,
            uiImport_t::UI_FS_WRITE => 15,
            uiImport_t::UI_FS_FCLOSEFILE => 16,
            uiImport_t::UI_FS_GETFILELIST => 17,
            uiImport_t::UI_R_REGISTERMODEL => 18,
            uiImport_t::UI_R_REGISTERSKIN => 19,
            uiImport_t::UI_R_REGISTERSHADERNOMIP => 20,
            uiImport_t::UI_R_CLEARSCENE => 21,
            uiImport_t::UI_R_ADDREFENTITYTOSCENE => 22,
            uiImport_t::UI_R_ADDPOLYTOSCENE => 23,
            uiImport_t::UI_R_ADDLIGHTTOSCENE => 24,
            uiImport_t::UI_R_RENDERSCENE => 25,
            uiImport_t::UI_R_SETCOLOR => 26,
            uiImport_t::UI_R_DRAWSTRETCHPIC => 27,
            uiImport_t::UI_UPDATESCREEN => 28,
            uiImport_t::UI_CM_LERPTAG => 29,
            uiImport_t::UI_CM_LOADMODEL => 30,
            uiImport_t::UI_S_REGISTERSOUND => 31,
            uiImport_t::UI_S_STARTLOCALSOUND => 32,
            uiImport_t::UI_KEY_KEYNUMTOSTRINGBUF => 33,
            uiImport_t::UI_KEY_GETBINDINGBUF => 34,
            uiImport_t::UI_KEY_SETBINDING => 35,
            uiImport_t::UI_KEY_ISDOWN => 36,
            uiImport_t::UI_KEY_GETOVERSTRIKEMODE => 37,
            uiImport_t::UI_KEY_SETOVERSTRIKEMODE => 38,
            uiImport_t::UI_KEY_CLEARSTATES => 39,
            uiImport_t::UI_KEY_GETCATCHER => 40,
            uiImport_t::UI_KEY_SETCATCHER => 41,
            uiImport_t::UI_GETCLIPBOARDDATA => 42,
            uiImport_t::UI_GETGLCONFIG => 43,
            uiImport_t::UI_GETCLIENTSTATE => 44,
            uiImport_t::UI_GETCONFIGSTRING => 45,
            uiImport_t::UI_LAN_GETPINGQUEUECOUNT => 46,
            uiImport_t::UI_LAN_CLEARPING => 47,
            uiImport_t::UI_LAN_GETPING => 48,
            uiImport_t::UI_LAN_GETPINGINFO => 49,
            uiImport_t::UI_CVAR_REGISTER => 50,
            uiImport_t::UI_CVAR_UPDATE => 51,
            uiImport_t::UI_MEMORY_REMAINING => 52,
            uiImport_t::UI_GET_CDKEY => 53,
            uiImport_t::UI_SET_CDKEY => 54,
            uiImport_t::UI_R_REGISTERFONT => 55,
            uiImport_t::UI_R_MODELBOUNDS => 56,
            uiImport_t::UI_PC_ADD_GLOBAL_DEFINE => 57,
            uiImport_t::UI_PC_LOAD_SOURCE => 58,
            uiImport_t::UI_PC_FREE_SOURCE => 59,
            uiImport_t::UI_PC_READ_TOKEN => 60,
            uiImport_t::UI_PC_SOURCE_FILE_AND_LINE => 61,
            uiImport_t::UI_S_STOPBACKGROUNDTRACK => 62,
            uiImport_t::UI_S_STARTBACKGROUNDTRACK => 63,
            uiImport_t::UI_REAL_TIME => 64,
            uiImport_t::UI_LAN_GETSERVERCOUNT => 65,
            uiImport_t::UI_LAN_GETSERVERADDRESSSTRING => 66,
            uiImport_t::UI_LAN_GETSERVERINFO => 67,
            uiImport_t::UI_LAN_MARKSERVERVISIBLE => 68,
            uiImport_t::UI_LAN_UPDATEVISIBLEPINGS => 69,
            uiImport_t::UI_LAN_RESETPINGS => 70,
            uiImport_t::UI_LAN_LOADCACHEDSERVERS => 71,
            uiImport_t::UI_LAN_SAVECACHEDSERVERS => 72,
            uiImport_t::UI_LAN_ADDSERVER => 73,
            uiImport_t::UI_LAN_REMOVESERVER => 74,
            uiImport_t::UI_CIN_PLAYCINEMATIC => 75,
            uiImport_t::UI_CIN_STOPCINEMATIC => 76,
            uiImport_t::UI_CIN_RUNCINEMATIC => 77,
            uiImport_t::UI_CIN_DRAWCINEMATIC => 78,
            uiImport_t::UI_CIN_SETEXTENTS => 79,
            uiImport_t::UI_R_REMAP_SHADER => 80,
            uiImport_t::UI_VERIFY_CDKEY => 81,
            uiImport_t::UI_LAN_SERVERSTATUS => 82,
            uiImport_t::UI_LAN_GETSERVERPING => 83,
            uiImport_t::UI_LAN_SERVERISVISIBLE => 84,
            uiImport_t::UI_LAN_COMPARESERVERS => 85,
            uiImport_t::UI_FS_SEEK => 86,
            uiImport_t::UI_SET_PBCLSTATUS => 87,
            uiImport_t::UI_MEMSET => 100,
            uiImport_t::UI_MEMCPY => 101,
            uiImport_t::UI_STRNCPY => 102,
            uiImport_t::UI_SIN => 103,
            uiImport_t::UI_COS => 104,
            uiImport_t::UI_ATAN2 => 105,
            uiImport_t::UI_SQRT => 106,
            uiImport_t::UI_FLOOR => 107,
            uiImport_t::UI_CEIL => 108,
        }
    }

    /// Reads a wire ordinal back as a request; `None` for an ordinal that
    /// names no request.
    pub fn from_code(code: i32) -> (r: Option<uiImport_t>)
        ensures
            r == import_of_code(code as int),
    {
        match code {
            0 => Some(uiImport_t::UI_ERROR),
            1 => Some(uiImport_t::UI_PRINT),
            2 => Some(uiImport_t::UI_MILLISECONDS),
            3 => Some(uiImport_t::UI_CVAR_SET),
            4 => Some(uiImport_t::UI_CVAR_VARIABLEVALUE),
            5 => Some(uiImport_t::UI_CVAR_VARIABLESTRINGBUFFER),
            6 => Some(uiImport_t::UI_CVAR_SETVALUE),
            7 => Some(uiImport_t::UI_CVAR_RESET),
            8 => Some(uiImport_t::UI_CVAR_CREATE),
            9 => Some(uiImport_t::UI_CVAR_INFOSTRINGBUFFER),
            10 => Some(uiImport_t::UI_ARGC),
            11 => Some(uiImport_t::UI_ARGV),
            12 => Some(uiImport_t::UI_CMD_EXECUTETEXT),
            13 => Some(uiImport_t::UI_FS_FOPENFILE),
            14 => Some(uiImport_t::UI_FS_READ),
            15 => Some(uiImport_t::UI_FS_WRITE),
            16 => Some(uiImport_t::UI_FS_FCLOSEFILE),
            17 => Some(uiImport_t::UI_FS_GETFILELIST),
            18 => Some(uiImport_t::UI_R_REGISTERMODEL),
            19 => Some(uiImport_t::UI_R_REGISTERSKIN),
            20 => Some(uiImport_t::UI_R_REGISTERSHADERNOMIP),
            21 => Some(uiImport_t::UI_R_CLEARSCENE),
            22 => Some(uiImport_t::UI_R_ADDREFENTITYTOSCENE),
            23 => Some(uiImport_t::UI_R_ADDPOLYTOSCENE),
            24 => Some(uiImport_t::UI_R_ADDLIGHTTOSCENE),
            25 => Some(uiImport_t::UI_R_RENDERSCENE),
            26 => Some(uiImport_t::UI_R_SETCOLOR),
            27 => Some(uiImport_t::UI_R_DRAWSTRETCHPIC),
            28 => Some(uiImport_t::UI_UPDATESCREEN),
            29 => Some(uiImport_t::UI_CM_LERPTAG),
            30 => Some(uiImport_t::UI_CM_LOADMODEL),
            31 => Some(uiImport_t::UI_S_REGISTERSOUND),
            32 => Some(uiImport_t::UI_S_STARTLOCALSOUND),
            33 => Some(uiImport_t::UI_KEY_KEYNUMTOSTRINGBUF),
            34 => Some(uiImport_t::UI_KEY_GETBINDINGBUF),
            35 => Some(uiImport_t::UI_KEY_SETBINDING),
            36 => Some(uiImport_t::UI_KEY_ISDOWN),
            37 => Some(uiImport_t::UI_KEY_GETOVERSTRIKEMODE),
            38 => Some(uiImport_t::UI_KEY_SETOVERSTRIKEMODE),
            39 => Some(uiImport_t::UI_KEY_CLEARSTATES),
            40 => Some(uiImport_t::UI_KEY_GETCATCHER),
            41 => Some(uiImport_t::UI_KEY_SETCATCHER),
            42 => Some(uiImport_t::UI_GETCLIPBOARDDATA),
            43 => Some(uiImport_t::UI_GETGLCONFIG),
            44 => Some(uiImport_t::UI_GETCLIENTSTATE),
            45 => Some(uiImport_t::UI_GETCONFIGSTRING),
            46 => Some(uiImport_t::UI_LAN_GETPINGQUEUECOUNT),
            47 => Some(uiImport_t::UI_LAN_CLEARPING),
            48 => Some(uiImport_t::UI_LAN_GETPING),
            49 => Some(uiImport_t::UI_LAN_GETPINGINFO),
            50 => Some(uiImport_t::UI_CVAR_REGISTER),
            51 => Some(uiImport_t::UI_CVAR_UPDATE),
            52 => Some(uiImport_t::UI_MEMORY_REMAINING),
            53 => Some(uiImport_t::UI_GET_CDKEY),
            54 => Some(uiImport_t::UI_SET_CDKEY),
            55 => Some(uiImport_t::UI_R_REGISTERFONT),
            56 => Some(uiImport_t::UI_R_MODELBOUNDS),
            57 => Some(uiImport_t::UI_PC_ADD_GLOBAL_DEFINE),
            58 => Some(uiImport_t::UI_PC_LOAD_SOURCE),
            59 => Some(uiImport_t::UI_PC_FREE_SOURCE),
            60 => Some(uiImport_t::UI_PC_READ_TOKEN),
            61 => Some(uiImport_t::UI_PC_SOURCE_FILE_AND_LINE),
            62 => Some(uiImport_t::UI_S_STOPBACKGROUNDTRACK),
            63 => Some(uiImport_t::UI_S_STARTBACKGROUNDTRACK),
            64 => Some(uiImport_t::UI_REAL_TIME),
            65 => Some(uiImport_t::UI_LAN_GETSERVERCOUNT),
            66 => Some(uiImport_t::UI_LAN_GETSERVERADDRESSSTRING),
            67 => Some(uiImport_t::UI_LAN_GETSERVERINFO),
            68 => Some(uiImport_t::UI_LAN_MARKSERVERVISIBLE),
            69 => Some(uiImport_t::UI_LAN_UPDATEVISIBLEPINGS),
            70 => Some(uiImport_t::UI_LAN_RESETPINGS),
            71 => Some(uiImport_t::UI_LAN_LOADCACHEDSERVERS),
            72 => Some(uiImport_t::UI_LAN_SAVECACHEDSERVERS),
            73 => Some(uiImport_t::UI_LAN_ADDSERVER),
            74 => Some(uiImport_t::UI_LAN_REMOVESERVER),
            75 => Some(uiImport_t::UI_CIN_PLAYCINEMATIC),
            76 => Some(uiImport_t::UI_CIN_STOPCINEMATIC),
            77 => Some(uiImport_t::UI_CIN_RUNCINEMATIC),
            78 => Some(uiImport_t::UI_CIN_DRAWCINEMATIC),
            79 => Some(uiImport_t::UI_CIN_SETEXTENTS),
            80 => Some(uiImport_t::UI_R_REMAP_SHADER),
            81 => Some(uiImport_t::UI_VERIFY_CDKEY),
            82 => Some(uiImport_t::UI_LAN_SERVERSTATUS),
            83 => Some(uiImport_t::UI_LAN_GETSERVERPING),
            84 => Some(uiImport_t::UI_LAN_SERVERISVISIBLE),
            85 => Some(uiImport_t::UI_LAN_COMPARESERVERS),
            86 => Some(uiImport_t::UI_FS_SEEK),
            87 => Some(uiImport_t::UI_SET_PBCLSTATUS),
            100 => Some(uiImport_t::UI_MEMSET),
            101 => Some(uiImport_t::UI_MEMCPY),
            102 => Some(uiImport_t::UI_STRNCPY),
            103 => Some(uiImport_t::UI_SIN),
            104 => Some(uiImport_t::UI_COS),
            105 => Some(uiImport_t::UI_ATAN2),
            106 => Some(uiImport_t::UI_SQRT),
            107 => Some(uiImport_t::UI_FLOOR),
            108 => Some(uiImport_t::UI_CEIL),
            _ => None,
        }
    }
}

/// Every request's ordinal reads back as that same request, so no two
/// requests share an ordinal.
pub proof fn lemma_import_code_round_trip(op: uiImport_t)
    ensures
        import_of_code(import_code(op)) == Some(op),
        0 <= import_code(op) <= 108,
{
}

/// Distinct requests travel under distinct ordinals.
pub proof fn lemma_import_code_injective(a: uiImport_t, b: uiImport_t)
    ensures
        import_code(a) == import_code(b) ==> a == b,
{
    lemma_import_code_round_trip(a);
    lemma_import_code_round_trip(b);
}

} // verus!
