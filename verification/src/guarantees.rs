//! What holds of the host calls on every input, proved from their contracts.

use crate::fastly_log::call_trap;
use crate::fastly_log::endpoint_get_memory;
use crate::fastly_log::endpoint_get_result;
use crate::fastly_log::endpoint_get_table;
use crate::fastly_log::span;
use crate::fastly_log::write_delivery;
use crate::fastly_log::write_memory;
use crate::fastly_log::write_result;
use crate::fastly_log::Trap;
use crate::fastly_log::STATUS_BADF;
use crate::fastly_log::STATUS_OK;
use crate::handler::issued;
use crate::memory::in_range;
use crate::memory::le_bytes;
use crate::memory::overlay;
use vstd::prelude::*;
use vstd::utf8::decode_utf8;
use vstd::utf8::valid_utf8;

verus! {

/// Two different numbers have different little-endian bytes, so the guest can
/// tell two handles apart by what was stored for them.
pub proof fn lemma_le_bytes_distinct(a: u32, b: u32)
    requires
        a != b,
    ensures
        le_bytes(a) != le_bytes(b),
{
    assert(a != b ==> ((a & 0xff) as u8 != (b & 0xff) as u8 || ((a >> 8) & 0xff) as u8 != ((b >> 8)
        & 0xff) as u8 || ((a >> 16) & 0xff) as u8 != ((b >> 16) & 0xff) as u8 || ((a >> 24)
        & 0xff) as u8 != ((b >> 24) & 0xff) as u8)) by (bit_vector);
    assert(le_bytes(a)[0] == le_bytes(b)[0] ==> (a & 0xff) as u8 == (b & 0xff) as u8);
    assert(le_bytes(a)[1] == le_bytes(b)[1] ==> ((a >> 8) & 0xff) as u8 == ((b >> 8) & 0xff) as u8);
    assert(le_bytes(a)[2] == le_bytes(b)[2] ==> ((a >> 16) & 0xff) as u8 == ((b >> 16)
        & 0xff) as u8);
    assert(le_bytes(a)[3] == le_bytes(b)[3] ==> ((a >> 24) & 0xff) as u8 == ((b >> 24)
        & 0xff) as u8);
}

/// After four bytes were laid over a slot that lies within the memory, the
/// slot holds those bytes.
pub proof fn lemma_slot_holds(memory: Seq<u8>, out: i32, word: u32)
    requires
        in_range(memory.len(), out, 4),
    ensures
        span(overlay(memory, out as int, le_bytes(word)), out, 4) == le_bytes(word),
        overlay(memory, out as int, le_bytes(word)).len() == memory.len(),
{
    assert(span(overlay(memory, out as int, le_bytes(word)), out, 4) =~= le_bytes(word));
}

/// A name that is valid UTF-8 and lies within the guest's memory, with a slot
/// for the handle that does too, is registered: `endpoint_get` returns the
/// status for success, the table is one entry longer, and the new entry is the
/// decoded name.
pub proof fn law_endpoint_get_registers(
    table: Seq<Seq<char>>,
    memory: Seq<u8>,
    name: i32,
    name_len: i32,
    endpoint_handle_out: i32,
)
    requires
        in_range(memory.len(), name, name_len as int),
        valid_utf8(span(memory, name, name_len)),
        in_range(memory.len(), endpoint_handle_out, 4),
    ensures
        endpoint_get_result(Some(memory), name, name_len, endpoint_handle_out) == Ok::<i32, Trap>(
            STATUS_OK,
        ),
        endpoint_get_table(table, Some(memory), name, name_len, endpoint_handle_out).len() == table.len()
            + 1,
        endpoint_get_table(table, Some(memory), name, name_len, endpoint_handle_out).last()
            == decode_utf8(span(memory, name, name_len)),
{
}

/// A name that does not lie within the guest's memory makes `endpoint_get`
/// trap, and leaves the table and the memory as they were.
pub proof fn law_endpoint_get_faults_out_of_range(
    table: Seq<Seq<char>>,
    memory: Seq<u8>,
    name: i32,
    name_len: i32,
    endpoint_handle_out: i32,
)
    requires
        !in_range(memory.len(), name, name_len as int),
    ensures
        endpoint_get_result(Some(memory), name, name_len, endpoint_handle_out) == Err::<i32, Trap>(
            Trap::ReadFault,
        ),
        endpoint_get_table(table, Some(memory), name, name_len, endpoint_handle_out) == table,
        endpoint_get_memory(table, memory, name, name_len, endpoint_handle_out) == memory,
{
}

/// Whenever `endpoint_get` does not complete, the table and the guest's memory
/// are as they were.
pub proof fn law_endpoint_get_trap_changes_nothing(
    table: Seq<Seq<char>>,
    memory: Option<Seq<u8>>,
    name: i32,
    name_len: i32,
    endpoint_handle_out: i32,
)
    requires
        endpoint_get_result(memory, name, name_len, endpoint_handle_out) is Err,
    ensures
        endpoint_get_table(table, memory, name, name_len, endpoint_handle_out) == table,
        memory is Some ==> endpoint_get_memory(
            table,
            memory->Some_0,
            name,
            name_len,
            endpoint_handle_out,
        ) == memory->Some_0,
{
}

/// A handle that a completed `endpoint_get` stored is accepted by every later
/// `write`, whatever the guest's memory holds by then and however many
/// endpoints were registered in between: given a message that is valid UTF-8
/// and lies within the memory, and a slot for the length that does too,
/// `write` returns the status for success, stores the message's length, and
/// the destination receives the decoded message under the registered name.
pub proof fn law_write_accepts_issued_handle(
    table: Seq<Seq<char>>,
    memory: Seq<u8>,
    name: i32,
    name_len: i32,
    endpoint_handle_out: i32,
    later_entries: Seq<Seq<char>>,
    later_memory: Seq<u8>,
    msg: i32,
    msg_len: i32,
    nwritten_out: i32,
)
    requires
        table.len() < i32::MAX,
        endpoint_get_result(Some(memory), name, name_len, endpoint_handle_out) is Ok,
        in_range(later_memory.len(), msg, msg_len as int),
        valid_utf8(span(later_memory, msg, msg_len)),
        in_range(later_memory.len(), nwritten_out, 4),
    ensures
        ({
            let handle = table.len() as i32;
            let registered = endpoint_get_table(table, Some(memory), name, name_len, endpoint_handle_out)
                + later_entries;
            &&& span(
                endpoint_get_memory(table, memory, name, name_len, endpoint_handle_out),
                endpoint_handle_out,
                4,
            ) == le_bytes(handle as u32)
            &&& write_result(registered.len(), Some(later_memory), handle, msg, msg_len, nwritten_out)
                == Ok::<i32, Trap>(STATUS_OK)
            &&& write_delivery(registered, Some(later_memory), handle, msg, msg_len, nwritten_out)
                == Some(
                (decode_utf8(span(memory, name, name_len)), decode_utf8(
                    span(later_memory, msg, msg_len),
                )),
            )
            &&& span(
                write_memory(registered.len(), later_memory, handle, msg, msg_len, nwritten_out),
                nwritten_out,
                4,
            ) == le_bytes(msg_len as u32)
        }),
{
    let handle = table.len() as i32;
    lemma_slot_holds(memory, endpoint_handle_out, handle as u32);
    lemma_slot_holds(later_memory, nwritten_out, msg_len as u32);
}

/// A handle that the table never issued makes `write` return the status for a
/// bad handle, whether or not the guest exports a memory: the memory, the slot
/// for the length with it, is left as it was, and nothing is forwarded.
pub proof fn law_write_rejects_unknown_handle(
    table: Seq<Seq<char>>,
    memory: Option<Seq<u8>>,
    endpoint_handle: i32,
    msg: i32,
    msg_len: i32,
    nwritten_out: i32,
)
    requires
        !issued(table.len(), endpoint_handle),
    ensures
        write_result(table.len(), memory, endpoint_handle, msg, msg_len, nwritten_out) == Ok::<
            i32,
            Trap,
        >(STATUS_BADF),
        memory is Some ==> write_memory(
            table.len(),
            memory->Some_0,
            endpoint_handle,
            msg,
            msg_len,
            nwritten_out,
        ) == memory->Some_0,
        write_delivery(table, memory, endpoint_handle, msg, msg_len, nwritten_out) is None,
{
}

/// A message that lies within the guest's memory and is not UTF-8 is never
/// forwarded and leaves the memory as it was: sent to an issued handle it
/// makes `write` trap, sent to any other it gets the status for a bad handle.
pub proof fn law_write_traps_on_invalid_text(
    table: Seq<Seq<char>>,
    memory: Seq<u8>,
    endpoint_handle: i32,
    msg: i32,
    msg_len: i32,
    nwritten_out: i32,
)
    requires
        in_range(memory.len(), msg, msg_len as int),
        !valid_utf8(span(memory, msg, msg_len)),
    ensures
        write_delivery(table, Some(memory), endpoint_handle, msg, msg_len, nwritten_out) is None,
        write_memory(table.len(), memory, endpoint_handle, msg, msg_len, nwritten_out) == memory,
        write_result(table.len(), Some(memory), endpoint_handle, msg, msg_len, nwritten_out) == (
        if issued(table.len(), endpoint_handle) {
            Err::<i32, Trap>(Trap::InvalidText)
        } else {
            Ok::<i32, Trap>(STATUS_BADF)
        }),
{
}

/// Something is forwarded exactly when `write` returns the status for
/// success; the memory changes at most then.
pub proof fn law_write_forwards_iff_ok(
    table: Seq<Seq<char>>,
    memory: Option<Seq<u8>>,
    endpoint_handle: i32,
    msg: i32,
    msg_len: i32,
    nwritten_out: i32,
)
    ensures
        write_delivery(table, memory, endpoint_handle, msg, msg_len, nwritten_out) is Some
            <==> write_result(table.len(), memory, endpoint_handle, msg, msg_len, nwritten_out)
            == Ok::<i32, Trap>(STATUS_OK),
        memory is Some && write_result(
            table.len(),
            memory,
            endpoint_handle,
            msg,
            msg_len,
            nwritten_out,
        ) != Ok::<i32, Trap>(STATUS_OK) ==> write_memory(
            table.len(),
            memory->Some_0,
            endpoint_handle,
            msg,
            msg_len,
            nwritten_out,
        ) == memory->Some_0,
{
}

/// For a guest that exports no memory `endpoint_get` traps and registers
/// nothing, and `write` to an issued handle traps and forwards nothing.
pub proof fn law_no_memory_traps(
    table: Seq<Seq<char>>,
    endpoint_handle: i32,
    text: i32,
    text_len: i32,
    out: i32,
)
    ensures
        endpoint_get_result(None, text, text_len, out) == Err::<i32, Trap>(Trap::NoMemory),
        endpoint_get_table(table, None, text, text_len, out) == table,
        issued(table.len(), endpoint_handle) ==> write_result(
            table.len(),
            None,
            endpoint_handle,
            text,
            text_len,
            out,
        ) == Err::<i32, Trap>(Trap::NoMemory),
        write_delivery(table, None, endpoint_handle, text, text_len, out) is None,
{
}

/// Registering one name twice gives two entries and two handles: after two
/// completed calls of `endpoint_get` on the same name the table is two entries
/// longer, both new entries hold that name, and the bytes stored for the two
/// handles differ.
pub proof fn law_no_deduplication(
    table: Seq<Seq<char>>,
    first_memory: Seq<u8>,
    first_name: i32,
    first_out: i32,
    second_memory: Seq<u8>,
    second_name: i32,
    second_out: i32,
    name_len: i32,
)
    requires
        table.len() + 1 < i32::MAX,
        call_trap(Some(first_memory), first_name, name_len, first_out) is None,
        call_trap(Some(second_memory), second_name, name_len, second_out) is None,
        span(first_memory, first_name, name_len) == span(second_memory, second_name, name_len),
    ensures
        ({
            let once = endpoint_get_table(table, Some(first_memory), first_name, name_len, first_out);
            let twice = endpoint_get_table(once, Some(second_memory), second_name, name_len, second_out);
            let first_slot = span(
                endpoint_get_memory(table, first_memory, first_name, name_len, first_out),
                first_out,
                4,
            );
            let second_slot = span(
                endpoint_get_memory(once, second_memory, second_name, name_len, second_out),
                second_out,
                4,
            );
            &&& twice.len() == table.len() + 2
            &&& twice.subrange(0, table.len() as int) == table
            &&& twice[table.len() as int] == decode_utf8(span(first_memory, first_name, name_len))
            &&& twice[table.len() as int + 1] == twice[table.len() as int]
            &&& first_slot == le_bytes(table.len() as u32)
            &&& second_slot == le_bytes((table.len() + 1) as u32)
            &&& first_slot != second_slot
        }),
{
    let once = endpoint_get_table(table, Some(first_memory), first_name, name_len, first_out);
    let twice = endpoint_get_table(once, Some(second_memory), second_name, name_len, second_out);
    lemma_slot_holds(first_memory, first_out, table.len() as u32);
    lemma_slot_holds(second_memory, second_out, (table.len() + 1) as u32);
    lemma_le_bytes_distinct(table.len() as u32, (table.len() + 1) as u32);
    assert(twice.subrange(0, table.len() as int) =~= table);
}

} // verus!
