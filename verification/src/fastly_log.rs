//! The two host calls of the logging interface.
//!
//! A call ends in one of three ways: it completes and returns the status for
//! success, it returns the status for a bad handle, or it traps. Everything
//! the guest passed is checked before anything is changed, so a call that does
//! not complete leaves the handle table, the guest's memory and the endpoint's
//! destination as they were.

use crate::handler::issued;
use crate::handler::Delivery;
use crate::handler::HandleTable;
use crate::memory::in_range;
use crate::memory::le_bytes;
use crate::memory::overlay;
use crate::memory::GuestMemoryView;
use crate::memory::ReadMem;
use crate::memory::WriteMem;
use fastly_shared::FastlyStatus;
use vstd::prelude::*;
use vstd::string::StringSliceAdditionalSpecFns;
use vstd::utf8::decode_utf8;
use vstd::utf8::encode_utf8;
use vstd::utf8::encode_utf8_decode_utf8;
use vstd::utf8::valid_utf8;

verus! {

/// The status of a call that completed.
pub const STATUS_OK: i32 = 0;

/// The status of a call that named a handle which the table never issued.
pub const STATUS_BADF: i32 = 3;

/// Why a call was aborted. A trap is no status: the guest gets no return value.
#[derive(Clone, Copy, Debug, PartialEq, Eq, Structural)]
pub enum Trap {
    /// The guest exports no memory for the host to read and write.
    NoMemory,
    /// The text that the guest pointed to does not lie within its memory.
    ReadFault,
    /// The text that the guest pointed to is not UTF-8.
    InvalidText,
    /// The slot for the call's result does not lie within the guest's memory.
    WriteFault,
}

/// The host calls, as the guest imports them.
#[derive(Clone, Copy, Debug, PartialEq, Eq, Structural)]
pub enum HostCall {
    /// Registers an endpoint by name and stores its handle.
    EndpointGet,
    /// Sends one message to a registered endpoint.
    Write,
}

/// The text of `trap`.
pub open spec fn trap_text(trap: Trap) -> Seq<char> {
    match trap {
        Trap::NoMemory => "failed to resolve exported host memory"@,
        Trap::ReadFault => "failed to read endpoint name"@,
        Trap::InvalidText => "Invalid endpoint name"@,
        Trap::WriteFault => "failed to write call result"@,
    }
}

/// The name under which the guest imports `call`.
pub open spec fn import_name(call: HostCall) -> Seq<char> {
    match call {
        HostCall::EndpointGet => "endpoint_get"@,
        HostCall::Write => "write"@,
    }
}

impl Trap {
    /// The text to abort the call with.
    pub fn message(&self) -> (text: &'static str)
        ensures
            text@ == trap_text(*self),
    {
        match self {
            Trap::NoMemory => "failed to resolve exported host memory",
            Trap::ReadFault => "failed to read endpoint name",
            Trap::InvalidText => "Invalid endpoint name",
            Trap::WriteFault => "failed to write call result",
        }
    }
}

/// Every host call of the interface, in the order in which they are linked.
pub fn host_calls() -> (calls: Vec<HostCall>)
    ensures
        calls@ == seq![HostCall::EndpointGet, HostCall::Write],
{
    let mut calls: Vec<HostCall> = Vec::new();
    calls.push(HostCall::EndpointGet);
    calls.push(HostCall::Write);
    assert(calls@ =~= seq![HostCall::EndpointGet, HostCall::Write]);
    calls
}

impl HostCall {
    /// The module that both calls are imported from.
    pub fn module(&self) -> (text: &'static str)
        ensures
            text@ == "fastly_log"@,
    {
        "fastly_log"
    }

    /// The name that this call is imported under.
    pub fn name(&self) -> (text: &'static str)
        ensures
            text@ == import_name(*self),
    {
        match self {
            HostCall::EndpointGet => "endpoint_get",
            HostCall::Write => "write",
        }
    }
}

/// Reads the code of `fastly_shared::FastlyStatus::OK`, which that crate
/// defines as 0.
#[verifier::external_body]
fn status_ok() -> (code: i32)
    ensures
        code == STATUS_OK,
{
    FastlyStatus::OK.code
}

/// Reads the code of `fastly_shared::FastlyStatus::BADF`, which that crate
/// defines as 3.
#[verifier::external_body]
fn status_badf() -> (code: i32)
    ensures
        code == STATUS_BADF,
{
    FastlyStatus::BADF.code
}

/// Calls `std::str::from_utf8`, which accepts exactly the byte strings that
/// are valid UTF-8 and then returns those same bytes as a string slice.
#[verifier::external_body]
fn text_of(bytes: &[u8]) -> (text: Option<&str>)
    ensures
        text is Some <==> valid_utf8(bytes@),
        text is Some ==> text->Some_0.spec_bytes() == bytes@,
{
    match std::str::from_utf8(bytes) {
        Ok(text) => Some(text),
        Err(_) => None,
    }
}

/// The `length` bytes of `memory` that start at `offset`.
pub open spec fn span(memory: Seq<u8>, offset: i32, length: i32) -> Seq<u8> {
    memory.subrange(offset as int, offset + length)
}

/// The memory that a call is given: the bytes of the guest's exported memory
/// where it exports one, nothing where it does not.
pub open spec fn exported(present: bool, bytes: Seq<u8>) -> Option<Seq<u8>> {
    if present {
        Some(bytes)
    } else {
        None
    }
}

/// Why a call that takes a text at `text`, `text_len` bytes long, and stores a
/// result at `out` traps, if it does. A guest without memory comes first; then
/// the text is checked, its place before its encoding, then the slot.
pub open spec fn call_trap(memory: Option<Seq<u8>>, text: i32, text_len: i32, out: i32) -> Option<
    Trap,
> {
    match memory {
        None => Some(Trap::NoMemory),
        Some(bytes) => if !in_range(bytes.len(), text, text_len as int) {
            Some(Trap::ReadFault)
        } else if !valid_utf8(span(bytes, text, text_len)) {
            Some(Trap::InvalidText)
        } else if !in_range(bytes.len(), out, 4) {
            Some(Trap::WriteFault)
        } else {
            None
        },
    }
}

/// How `endpoint_get` ends.
pub open spec fn endpoint_get_result(
    memory: Option<Seq<u8>>,
    name: i32,
    name_len: i32,
    endpoint_handle_out: i32,
) -> Result<i32, Trap> {
    match call_trap(memory, name, name_len, endpoint_handle_out) {
        Some(trap) => Err(trap),
        None => Ok(STATUS_OK),
    }
}

/// The table after `endpoint_get`: one entry longer where the call completes.
pub open spec fn endpoint_get_table(
    table: Seq<Seq<char>>,
    memory: Option<Seq<u8>>,
    name: i32,
    name_len: i32,
    endpoint_handle_out: i32,
) -> Seq<Seq<char>> {
    if call_trap(memory, name, name_len, endpoint_handle_out) is None {
        table.push(decode_utf8(span(memory->Some_0, name, name_len)))
    } else {
        table
    }
}

/// The memory of a guest that exports one after `endpoint_get`: where the call
/// completes, the new entry's handle stands in the slot.
pub open spec fn endpoint_get_memory(
    table: Seq<Seq<char>>,
    memory: Seq<u8>,
    name: i32,
    name_len: i32,
    endpoint_handle_out: i32,
) -> Seq<u8> {
    if call_trap(Some(memory), name, name_len, endpoint_handle_out) is None {
        overlay(memory, endpoint_handle_out as int, le_bytes(table.len() as u32))
    } else {
        memory
    }
}

/// Reads the text that the guest points to and decodes it.
fn read_text(memory: &mut GuestMemoryView<'_>, text: i32, text_len: i32) -> (r: Result<
    String,
    Trap,
>)
    ensures
        final(memory)@ == old(memory)@,
        final(final(memory).data)@ == final(old(memory).data)@,
        match r {
            Ok(s) => in_range(old(memory)@.len(), text, text_len as int) && valid_utf8(
                span(old(memory)@, text, text_len),
            ) && s@ == decode_utf8(span(old(memory)@, text, text_len)) && encode_utf8(s@) == span(
                old(memory)@,
                text,
                text_len,
            ),
            Err(trap) => if in_range(old(memory)@.len(), text, text_len as int) {
                trap == Trap::InvalidText && !valid_utf8(span(old(memory)@, text, text_len))
            } else {
                trap == Trap::ReadFault
            },
        },
{
    broadcast use encode_utf8_decode_utf8;

    match memory.read(text, text_len) {
        Ok((_, bytes)) => match text_of(bytes.as_slice()) {
            Some(decoded) => Ok(decoded.to_owned()),
            None => Err(Trap::InvalidText),
        },
        Err(_) => Err(Trap::ReadFault),
    }
}

/// Registers an endpoint under the name that the guest points to, and stores
/// the new handle, as four bytes with the least significant first, at
/// `endpoint_handle_out`. The handle is the new entry's position in the table,
/// so a guest that registers several endpoints can write to each of them.
///
/// The call traps, and changes nothing, if the guest exports no memory, if the
/// name does not lie within the memory or is not UTF-8, or if the slot for the
/// handle does not lie within the memory. Otherwise it completes. The table
/// must have a handle left to give.
pub fn endpoint_get(
    table: &mut HandleTable,
    memory: Option<&mut GuestMemoryView<'_>>,
    name: i32,
    name_len: i32,
    endpoint_handle_out: i32,
) -> (r: Result<i32, Trap>)
    requires
        old(table)@.len() < i32::MAX,
    ensures
        r == endpoint_get_result(
            exported(memory is Some, old(memory->Some_0)@),
            name,
            name_len,
            endpoint_handle_out,
        ),
        final(table)@ == endpoint_get_table(
            old(table)@,
            exported(memory is Some, old(memory->Some_0)@),
            name,
            name_len,
            endpoint_handle_out,
        ),
        memory is Some ==> final(memory->Some_0)@ == endpoint_get_memory(
            old(table)@,
            old(memory->Some_0)@,
            name,
            name_len,
            endpoint_handle_out,
        ),
        memory is Some ==> final(final(memory->Some_0).data)@ == final(old(memory->Some_0).data)@,
{
    let memory = match memory {
        Some(memory) => memory,
        None => {
            return Err(Trap::NoMemory);
        },
    };
    let endpoint = match read_text(memory, name, name_len) {
        Ok(endpoint) => endpoint,
        Err(trap) => {
            return Err(trap);
        },
    };
    if !memory.holds(endpoint_handle_out, 4) {
        return Err(Trap::WriteFault);
    }
    let handle: i32 = table.register(endpoint);
    let stored = memory.write_i32(endpoint_handle_out, handle);
    assert(stored is Ok);
    Ok(status_ok())
}

/// How a `write` call ended, and what it handed to the endpoint's destination.
#[derive(Debug)]
pub struct WriteOutcome {
    /// The status returned to the guest, or the trap that aborted the call.
    pub result: Result<i32, Trap>,
    /// What the endpoint forwarded; `None` where it was not asked to.
    pub delivery: Option<Delivery>,
}

impl WriteOutcome {
    /// The name of the endpoint that forwarded and the message it forwarded,
    /// if one did.
    pub open spec fn delivered(&self) -> Option<(Seq<char>, Seq<char>)> {
        match self.delivery {
            Some(delivery) => Some(delivery@),
            None => None,
        }
    }
}

/// How `write` ends. An unknown handle is answered before the guest's memory
/// is looked for.
pub open spec fn write_result(
    size: nat,
    memory: Option<Seq<u8>>,
    endpoint_handle: i32,
    msg: i32,
    msg_len: i32,
    nwritten_out: i32,
) -> Result<i32, Trap> {
    if !issued(size, endpoint_handle) {
        Ok(STATUS_BADF)
    } else {
        match call_trap(memory, msg, msg_len, nwritten_out) {
            Some(trap) => Err(trap),
            None => Ok(STATUS_OK),
        }
    }
}

/// Whether `write` completes: the handle was issued and nothing traps.
pub open spec fn write_completes(
    size: nat,
    memory: Option<Seq<u8>>,
    endpoint_handle: i32,
    msg: i32,
    msg_len: i32,
    nwritten_out: i32,
) -> bool {
    issued(size, endpoint_handle) && call_trap(memory, msg, msg_len, nwritten_out) is None
}

/// What `write` hands to the destination: where the call completes, the name
/// of the endpoint that the handle names and the decoded message; else nothing.
pub open spec fn write_delivery(
    table: Seq<Seq<char>>,
    memory: Option<Seq<u8>>,
    endpoint_handle: i32,
    msg: i32,
    msg_len: i32,
    nwritten_out: i32,
) -> Option<(Seq<char>, Seq<char>)> {
    if write_completes(table.len(), memory, endpoint_handle, msg, msg_len, nwritten_out) {
        Some((table[endpoint_handle as int], decode_utf8(span(memory->Some_0, msg, msg_len))))
    } else {
        None
    }
}

/// The memory of a guest that exports one after `write`: where the call
/// completes, the message's length in bytes stands in the slot.
pub open spec fn write_memory(
    size: nat,
    memory: Seq<u8>,
    endpoint_handle: i32,
    msg: i32,
    msg_len: i32,
    nwritten_out: i32,
) -> Seq<u8> {
    if write_completes(size, Some(memory), endpoint_handle, msg, msg_len, nwritten_out) {
        overlay(memory, nwritten_out as int, le_bytes(msg_len as u32))
    } else {
        memory
    }
}

/// The outcome of a call that did not complete.
fn undelivered(result: Result<i32, Trap>) -> (end: WriteOutcome)
    ensures
        end.result == result,
        end.delivery is None,
{
    WriteOutcome { result, delivery: None }
}

/// Sends the message that the guest points to through the endpoint that
/// `endpoint_handle` names, and stores the message's length in bytes, as four
/// bytes with the least significant first, at `nwritten_out`.
///
/// A handle that the table never issued ends the call with the status for a
/// bad handle. Otherwise the call traps if the guest exports no memory, if the
/// message does not lie within the memory or is not UTF-8, or if the slot for
/// the length does not lie within the memory. In both cases the memory is left
/// as it was and nothing is forwarded. Otherwise the endpoint forwards the
/// message once, and the call completes.
pub fn write(
    table: &HandleTable,
    memory: Option<&mut GuestMemoryView<'_>>,
    endpoint_handle: i32,
    msg: i32,
    msg_len: i32,
    nwritten_out: i32,
) -> (end: WriteOutcome)
    ensures
        end.result == write_result(
            table@.len(),
            exported(memory is Some, old(memory->Some_0)@),
            endpoint_handle,
            msg,
            msg_len,
            nwritten_out,
        ),
        end.delivered() == write_delivery(
            table@,
            exported(memory is Some, old(memory->Some_0)@),
            endpoint_handle,
            msg,
            msg_len,
            nwritten_out,
        ),
        memory is Some ==> final(memory->Some_0)@ == write_memory(
            table@.len(),
            old(memory->Some_0)@,
            endpoint_handle,
            msg,
            msg_len,
            nwritten_out,
        ),
        memory is Some ==> final(final(memory->Some_0).data)@ == final(old(memory->Some_0).data)@,
{
    match table.lookup(endpoint_handle) {
        Some(endpoint) => {
            let memory = match memory {
                Some(memory) => memory,
                None => {
                    return undelivered(Err(Trap::NoMemory));
                },
            };
            let message = match read_text(memory, msg, msg_len) {
                Ok(message) => message,
                Err(trap) => {
                    return undelivered(Err(trap));
                },
            };
            if !memory.holds(nwritten_out, 4) {
                return undelivered(Err(Trap::WriteFault));
            }
            let delivery = endpoint.log(message.as_str());
            let written: usize = message.as_str().len();
            let stored = memory.write_i32(nwritten_out, written as i32);
            assert(stored is Ok);
            WriteOutcome { result: Ok(status_ok()), delivery: Some(delivery) }
        },
        None => undelivered(Ok(status_badf())),
    }
}

} // verus!
