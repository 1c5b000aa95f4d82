//! Messages that come and go through a socket in pieces: a header first, then
//! what the header announces.

use crate::decode::{WaylandWireMessage, WireView};
use crate::text;
use crate::text::append_decimal;
use crate::wire;
use crate::wire::wayland_message_size;
use vstd::prelude::*;
use vstd::string::*;

verus! {

/// How many bytes of a message are missing once its header was received, or why
/// there is no message.
pub open spec fn missing_payload(header: Seq<u8>) -> Result<usize, Seq<char>> {
    if header.len() == 0 {
        Err("backend Wayland stream reached EOF"@)
    } else if header.len() != 8 {
        Err(
            "failed to read complete Wayland header: received "@ + text::decimal(header.len())
                + " bytes"@,
        )
    } else {
        match wire::announced_size(header) {
            Err(message) => Err(message),
            Ok(size) => Ok((size - 8) as usize),
        }
    }
}

/// The message that a header and what was received after it make up.
pub open spec fn joined(header: WireView, payload: WireView) -> Result<WireView, Seq<char>> {
    match missing_payload(header.bytes) {
        Err(message) => Err(message),
        Ok(missing) => if payload.bytes.len() != missing {
            Err(
                "failed to read complete Wayland payload: received "@ + text::decimal(
                    payload.bytes.len(),
                ) + " of "@ + text::decimal(missing as nat) + " bytes"@,
            )
        } else {
            Ok(WireView { bytes: header.bytes + payload.bytes, fds: header.fds + payload.fds })
        },
    }
}

/// A message that was written and comes in two pieces is put together again, with
/// the descriptors of both pieces.
pub proof fn written_message_is_put_together(
    object_id: u32,
    opcode: u16,
    args: Seq<wire::ArgView>,
    first: Seq<u64>,
    second: Seq<u64>,
)
    requires
        wire::fits(args),
    ensures
        ({
            let bytes = wire::message_bytes(object_id, opcode, args);
            joined(
                WireView { bytes: bytes.take(8), fds: first },
                WireView { bytes: bytes.skip(8), fds: second },
            ) == Ok::<WireView, Seq<char>>(WireView { bytes, fds: first + second })
        }),
{
    let bytes = wire::message_bytes(object_id, opcode, args);
    wire::written_message_is_framed(object_id, opcode, args, Seq::empty());
    assert(bytes + Seq::<u8>::empty() =~= bytes);
    assert(wire::first_message(bytes) == Ok::<Seq<u8>, Seq<char>>(bytes));
    match wire::announced_size(bytes) {
        Ok(size) => {
            assert(bytes.subrange(0, size as int) == bytes);
            assert(bytes.subrange(0, size as int).len() == size);
        },
        Err(_) => {},
    }
    assert(wire::word_at(bytes.take(8), 4) == wire::word_at(bytes, 4));
    assert(bytes.take(8) + bytes.skip(8) =~= bytes);
}

/// Says how many bytes are still to be received, given what was received as a
/// header.
pub fn remaining_bytes(header: &Vec<u8>) -> (missing: Result<usize, String>)
    ensures
        text::outcome(missing) == missing_payload(header@),
{
    if header.len() == 0 {
        return Err("backend Wayland stream reached EOF".to_owned());
    }
    if header.len() != 8 {
        let mut message = "failed to read complete Wayland header: received ".to_owned();
        append_decimal(&mut message, header.len() as u64);
        message.append(" bytes");
        return Err(message);
    }
    match wayland_message_size(header.as_slice()) {
        Ok(size) => Ok(size - 8),
        Err(message) => Err(message),
    }
}

/// Puts a message together from its header and what was received after it.
pub fn join_message(header: WaylandWireMessage, payload: WaylandWireMessage) -> (message: Result<
    WaylandWireMessage,
    String,
>)
    ensures
        text::outcome(message) == joined(header@, payload@),
{
    let missing: usize = match remaining_bytes(&header.bytes) {
        Ok(missing) => missing,
        Err(message) => return Err(message),
    };
    if payload.bytes.len() != missing {
        let mut message = "failed to read complete Wayland payload: received ".to_owned();
        append_decimal(&mut message, payload.bytes.len() as u64);
        message.append(" of ");
        append_decimal(&mut message, missing as u64);
        message.append(" bytes");
        return Err(message);
    }
    let mut bytes = header.bytes;
    let mut fds = header.fds;
    let mut rest = payload.bytes;
    let mut more = payload.fds;
    bytes.append(&mut rest);
    fds.append(&mut more);
    Ok(WaylandWireMessage { bytes, fds })
}

/// Checks that a message was sent whole.
pub fn check_sent(sent: usize, length: usize) -> (checked: Result<(), String>)
    ensures
        text::outcome(checked) == if sent == length {
            Ok(())
        } else {
            Err(
                "short send when writing Wayland wire message: sent "@ + text::decimal(sent as nat)
                    + " of "@ + text::decimal(length as nat) + " bytes"@,
            )
        },
{
    if sent == length {
        return Ok(());
    }
    let mut message = "short send when writing Wayland wire message: sent ".to_owned();
    append_decimal(&mut message, sent as u64);
    message.append(" of ");
    append_decimal(&mut message, length as u64);
    message.append(" bytes");
    Err(message)
}

} // verus!
