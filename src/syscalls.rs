use vstd::prelude::*;

use vstd::string::StringSliceAdditionalSpecFns;

use libc::intptr_t;

use crate::opcodes::uiImport_t;

verus! {

/// Why text could not be turned into a null-terminated buffer.
#[derive(Clone, Copy, Debug, PartialEq, Eq, Structural)]
pub enum MarshalError {
    /// The UTF-8 encoding of the text holds a zero byte at this offset.
    InteriorNul(usize),
}

/// Why a request to the host could not be formed.
#[derive(Clone, Copy, Debug, PartialEq, Eq, Structural)]
pub enum BridgeError {
    /// The host has not handed over its system-call capability yet.
    NotLoaded,
    /// The text of the request cannot cross the boundary.
    Marshal(MarshalError),
}

/// No byte of `bytes` is zero.
pub open spec fn no_nul(bytes: Seq<u8>) -> bool {
    forall|i: int| 0 <= i < bytes.len() ==> bytes[i] != 0
}

/// `p` is the offset of the first zero byte of `bytes`.
pub open spec fn is_first_nul(bytes: Seq<u8>, p: int) -> bool {
    &&& 0 <= p < bytes.len()
    &&& bytes[p] == 0
    &&& forall|i: int| 0 <= i < p ==> bytes[i] != 0
}

/// `r` is the outcome of marshaling text whose UTF-8 encoding is `bytes`:
/// the bytes with one terminating zero, or the offset of the first zero byte.
pub open spec fn marshaled(bytes: Seq<u8>, r: Result<Seq<u8>, MarshalError>) -> bool {
    match r {
        Ok(buf) => no_nul(bytes) && buf == bytes.push(0),
        Err(MarshalError::InteriorNul(p)) => is_first_nul(bytes, p as int),
    }
}

/// Converts text to the null-terminated byte buffer that the host reads.
/// Text with a zero byte is refused rather than cut short.
pub fn convert_str_to_cstring(input: &str) -> (r: Result<Vec<u8>, MarshalError>)
    ensures
        marshaled(
            input.spec_bytes(),
            match r {
                Ok(buf) => Ok(buf@),
                Err(e) => Err(e),
            },
        ),
{
    let bytes = input.as_bytes();
    let mut buf: Vec<u8> = Vec::new();
    let mut i: usize = 0;
    while i < bytes.len()
        invariant
            bytes@ == input.spec_bytes(),
            0 <= i <= bytes@.len(),
            buf@ == bytes@.subrange(0, i as int),
            forall|j: int| 0 <= j < i ==> bytes@[j] != 0,
        decreases bytes@.len() - i,
    {
        let b = bytes[i];
        if b == 0 {
            return Err(MarshalError::InteriorNul(i));
        }
        buf.push(b);
        i = i + 1;
    }
    buf.push(0);
    assert(buf@ == bytes@.push(0));
    Ok(buf)
}

/// The slot that holds the host's system-call capability: the raw
/// function-pointer value handed over once, at load time.
#[derive(Debug)]
pub struct SyscallBridge {
    syscall: Option<intptr_t>,
}

impl View for SyscallBridge {
    type V = Option<intptr_t>;

    closed spec fn view(&self) -> Option<intptr_t> {
        self.syscall
    }
}

impl SyscallBridge {
    /// A slot that the host has not filled yet.
    pub fn new() -> (r: SyscallBridge)
        ensures
            r@ == None::<intptr_t>,
    {
        SyscallBridge { syscall: None }
    }

    /// Whether the capability has been handed over.
    pub fn is_loaded(&self) -> (r: bool)
        ensures
            r == self@.is_some(),
    {
        self.syscall.is_some()
    }
}

/// Stores the capability that the host hands over at load time. It is set
/// once: there is no path that replaces it.
pub fn set_syscallptr(bridge: &mut SyscallBridge, syscallptr: intptr_t)
    requires
        old(bridge)@.is_none(),
    ensures
        final(bridge)@ == Some(syscallptr),
{
    bridge.syscall = Some(syscallptr);
}

/// The stored capability; using it before the host handed it over is a
/// protocol-order violation.
pub fn get_syscall(bridge: &SyscallBridge) -> (r: Result<intptr_t, BridgeError>)
    ensures
        r == match bridge@ {
            Some(p) => Ok::<intptr_t, BridgeError>(p),
            None => Err(BridgeError::NotLoaded),
        },
{
    match bridge.syscall {
        Some(p) => Ok(p),
        None => Err(BridgeError::NotLoaded),
    }
}

/// One call into the host: the capability to call, the request's opcode,
/// and the marshaled text that the request passes by address, if any.
#[derive(Clone, Debug, PartialEq, Eq)]
pub struct SyscallRequest {
    pub syscall: intptr_t,
    pub opcode: uiImport_t,
    pub text: Option<Vec<u8>>,
}

/// What a call into the host carries, with the text as a sequence of bytes.
pub ghost struct RequestView {
    pub syscall: intptr_t,
    pub opcode: uiImport_t,
    pub text: Option<Seq<u8>>,
}

impl View for SyscallRequest {
    type V = RequestView;

    open spec fn view(&self) -> RequestView {
        RequestView {
            syscall: self.syscall,
            opcode: self.opcode,
            text: match self.text {
                Some(t) => Some(t@),
                None => None,
            },
        }
    }
}

/// `r` is the outcome of asking the host to run `op` on text whose UTF-8
/// encoding is `bytes`, with capability slot `cap`.
pub open spec fn text_request(
    cap: Option<intptr_t>,
    op: uiImport_t,
    bytes: Seq<u8>,
    r: Result<RequestView, BridgeError>,
) -> bool {
    match cap {
        None => r == Err::<RequestView, BridgeError>(BridgeError::NotLoaded),
        Some(p) => match r {
            Ok(v) => no_nul(bytes) && v == (RequestView {
                syscall: p,
                opcode: op,
                text: Some(bytes.push(0)),
            }),
            Err(BridgeError::Marshal(MarshalError::InteriorNul(i))) => is_first_nul(bytes, i as int),
            Err(BridgeError::NotLoaded) => false,
        },
    }
}

/// The outcome of asking the host to run `op` with no arguments.
pub open spec fn plain_request(cap: Option<intptr_t>, op: uiImport_t) -> Result<
    RequestView,
    BridgeError,
> {
    match cap {
        None => Err(BridgeError::NotLoaded),
        Some(p) => Ok(RequestView { syscall: p, opcode: op, text: None }),
    }
}

/// The view of a request outcome.
pub open spec fn request_view(r: Result<SyscallRequest, BridgeError>) -> Result<
    RequestView,
    BridgeError,
> {
    match r {
        Ok(req) => Ok(req@),
        Err(e) => Err(e),
    }
}

fn text_call(bridge: &SyscallBridge, op: uiImport_t, text: &str) -> (r: Result<
    SyscallRequest,
    BridgeError,
>)
    ensures
        text_request(bridge@, op, text.spec_bytes(), request_view(r)),
{
    let syscall = match get_syscall(bridge) {
        Ok(p) => p,
        Err(e) => return Err(e),
    };
    match convert_str_to_cstring(text) {
        Ok(buf) => Ok(SyscallRequest { syscall, opcode: op, text: Some(buf) }),
        Err(e) => Err(BridgeError::Marshal(e)),
    }
}

/// The call that reports a fatal error to the host. The host is not meant
/// to return from it; the caller stops the current operation whether or
/// not it does.
pub fn _error(bridge: &SyscallBridge, text: &str) -> (r: Result<SyscallRequest, BridgeError>)
    ensures
        text_request(bridge@, uiImport_t::UI_ERROR, text.spec_bytes(), request_view(r)),
{
    text_call(bridge, uiImport_t::UI_ERROR, text)
}

/// The call that prints a message on the host's console.
pub fn print(bridge: &SyscallBridge, text: &str) -> (r: Result<SyscallRequest, BridgeError>)
    ensures
        text_request(bridge@, uiImport_t::UI_PRINT, text.spec_bytes(), request_view(r)),
{
    text_call(bridge, uiImport_t::UI_PRINT, text)
}

/// The call that asks the host for its clock in milliseconds; the host's
/// reply is the time, unchanged.
pub fn milliseconds(bridge: &SyscallBridge) -> (r: Result<SyscallRequest, BridgeError>)
    ensures
        request_view(r) == plain_request(bridge@, uiImport_t::UI_MILLISECONDS),
{
    match get_syscall(bridge) {
        Ok(syscall) => Ok(SyscallRequest { syscall, opcode: uiImport_t::UI_MILLISECONDS, text: None }),
        Err(e) => Err(e),
    }
}

/// Marshaling succeeds exactly on text without a zero byte, and then gives
/// the text's bytes followed by one zero; text with a zero byte is refused,
/// never cut short.
pub proof fn lemma_marshal_outcome(bytes: Seq<u8>, r: Result<Seq<u8>, MarshalError>)
    requires
        marshaled(bytes, r),
    ensures
        r.is_ok() <==> no_nul(bytes),
        r matches Ok(buf) ==> buf.len() == bytes.len() + 1 && buf.last() == 0
            && buf.subrange(0, bytes.len() as int) == bytes,
{
    if let Ok(buf) = r {
        assert(buf.subrange(0, bytes.len() as int) =~= bytes);
    }
}

/// Requests to the host are refused before the capability is handed over;
/// after it, every request goes through unless its text holds a zero byte.
pub proof fn lemma_requests_need_load(
    cap: Option<intptr_t>,
    op: uiImport_t,
    bytes: Seq<u8>,
    r: Result<RequestView, BridgeError>,
)
    requires
        text_request(cap, op, bytes, r),
    ensures
        cap.is_none() ==> r == Err::<RequestView, BridgeError>(BridgeError::NotLoaded),
        cap.is_none() ==> plain_request(cap, op) == Err::<RequestView, BridgeError>(
            BridgeError::NotLoaded,
        ),
        cap.is_some() ==> plain_request(cap, op).is_ok(),
        cap.is_some() ==> (r.is_ok() <==> no_nul(bytes)),
{
}

/// The same request on the same text, with the same capability, comes out
/// the same every time: the call sequence sent to the host depends on
/// nothing else.
pub proof fn lemma_text_request_deterministic(
    cap: Option<intptr_t>,
    op: uiImport_t,
    bytes: Seq<u8>,
    r1: Result<RequestView, BridgeError>,
    r2: Result<RequestView, BridgeError>,
)
    requires
        text_request(cap, op, bytes, r1),
        text_request(cap, op, bytes, r2),
    ensures
        r1 == r2,
{
    if let (
        Err(BridgeError::Marshal(MarshalError::InteriorNul(i))),
        Err(BridgeError::Marshal(MarshalError::InteriorNul(j))),
    ) = (r1, r2) {
        if i < j {
            assert(bytes[i as int] != 0);
        } else if j < i {
            assert(bytes[j as int] != 0);
        }
    }
}

} // verus!
