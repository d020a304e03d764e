//! Writing the message of the most recent error into a caller's buffer.

use crate::error::ErrorValue;
use crate::slot::{get_last_error, update_last_error, ErrorSlot};
use libc::c_int;
use vstd::prelude::*;

verus! {

/// Whether a buffer of `capacity` bytes has room for `message` and for the one
/// terminating zero byte that must follow it.
pub open spec fn fits(message: Seq<u8>, capacity: nat) -> bool {
    message.len() + 1 <= capacity
}

/// A buffer of `capacity` bytes that starts with `message` and is zero from
/// there to its end.
pub open spec fn zero_padded(message: Seq<u8>, capacity: nat) -> Seq<u8>
    recommends
        message.len() <= capacity,
{
    Seq::new(
        capacity,
        |i: int|
            if i < message.len() {
                message[i]
            } else {
                0u8
            },
    )
}

/// The code that a retrieval returns, for the error that is pending and the
/// buffer that the caller handed in (`None` for a null buffer): `-1` for a null
/// buffer and for one that is too small, `0` where nothing is pending, else
/// the number of message bytes.
pub open spec fn message_code<E>(pending: Option<ErrorValue<E>>, buffer: Option<Seq<u8>>) -> int {
    match (buffer, pending) {
        (None, _) => -1,
        (Some(_), None) => 0,
        (Some(room), Some(error)) => if fits(error.bytes(), room.len()) {
            error.bytes().len() as int
        } else {
            -1
        },
    }
}

/// What the slot holds after a retrieval: the error leaves the slot only when
/// its message was written.
pub open spec fn pending_after_message<E>(
    pending: Option<ErrorValue<E>>,
    buffer: Option<Seq<u8>>,
) -> Option<ErrorValue<E>> {
    match (buffer, pending) {
        (Some(room), Some(error)) => if fits(error.bytes(), room.len()) {
            None
        } else {
            pending
        },
        _ => pending,
    }
}

/// What a buffer holds after a retrieval: the message and zeros after it when
/// the message was written, else what it held before.
pub open spec fn buffer_after_message<E>(pending: Option<ErrorValue<E>>, room: Seq<u8>) -> Seq<u8> {
    match pending {
        Some(error) => if fits(error.bytes(), room.len()) {
            zero_padded(error.bytes(), room.len())
        } else {
            room
        },
        None => room,
    }
}

/// Writes the message of the most recent error of `slot` into `buffer`.
///
/// `buffer` is `None` where the caller handed in a null pointer. The capacity
/// crosses the boundary as a `c_int`, so a buffer is never longer than
/// `c_int::MAX` bytes.
///
/// Returns the number of message bytes written, `0` if no error is pending,
/// and `-1` if the buffer is null or too small for the message and one
/// terminating zero byte. The error is consumed only when its message was
/// written; the whole buffer behind the message is then zero. In every other
/// case the slot and the buffer stay as they were.
pub fn error_message<E>(slot: &mut ErrorSlot<E>, buffer: Option<&mut [u8]>) -> (code: c_int)
    requires
        (match buffer {
            Some(room) => room@.len() <= c_int::MAX,
            None => true,
        }),
    ensures
        (match buffer {
            Some(room) => code == message_code(old(slot)@, Some(room@)) && final(slot)@
                == pending_after_message(old(slot)@, Some(room@)) && final(room)@
                == buffer_after_message(old(slot)@, room@),
            None => code == message_code(old(slot)@, None) && final(slot)@
                == pending_after_message(old(slot)@, None),
        }),
{
    let room = match buffer {
        Some(room) => room,
        None => { return -1; },
    };
    let error = match get_last_error(slot) {
        Some(error) => error,
        None => { return 0; },
    };
    let capacity: usize = room.len();
    let length: usize = error.message().as_bytes().len();
    if capacity <= length {
        // Not enough room: the error goes back, so that it is not lost.
        update_last_error(slot, error);
        return -1;
    }
    let data = error.message().as_bytes();
    let mut i: usize = 0;
    while i < capacity
        invariant
            i <= capacity,
            room@.len() == capacity,
            data@ == error.bytes(),
            data@.len() == length,
            length < capacity,
            forall|j: int| 0 <= j < i ==> room@[j] == zero_padded(data@, capacity as nat)[j],
        decreases capacity - i,
    {
        if i < length {
            room[i] = data[i];
        } else {
            room[i] = 0u8;
        }
        i += 1;
    }
    assert(room@ =~= zero_padded(error.bytes(), capacity as nat));
    length as c_int
}

/// With nothing pending, a retrieval into any buffer returns `0`, leaves the
/// buffer as it was and the slot empty.
pub proof fn lemma_empty_slot_reports_nothing<E>(room: Seq<u8>)
    ensures
        message_code(None::<ErrorValue<E>>, Some(room)) == 0,
        buffer_after_message(None::<ErrorValue<E>>, room) == room,
        pending_after_message(None::<ErrorValue<E>>, Some(room)) is None,
{
}

/// A retrieval with a null buffer returns `-1` whatever the slot holds and
/// consumes nothing: a retrieval that follows it finds what a first one would
/// have found.
pub proof fn lemma_null_buffer_keeps_error<E>(pending: Option<ErrorValue<E>>, room: Seq<u8>)
    ensures
        message_code(pending, None) == -1,
        pending_after_message(pending, None) == pending,
        message_code(pending_after_message(pending, None), Some(room)) == message_code(
            pending,
            Some(room),
        ),
        buffer_after_message(pending_after_message(pending, None), room) == buffer_after_message(
            pending,
            room,
        ),
{
}

/// A retrieval into a buffer that is too small returns `-1` and leaves the
/// error pending and the buffer as it was; the retrieval that follows it, into
/// a buffer that is large enough, returns the length of the message, fills the
/// buffer with the message and zeros, and empties the slot.
pub proof fn lemma_small_buffer_keeps_error<E>(error: ErrorValue<E>, small: Seq<u8>, large: Seq<u8>)
    requires
        small.len() < error.bytes().len() + 1,
        large.len() >= error.bytes().len() + 1,
    ensures
        message_code(Some(error), Some(small)) == -1,
        buffer_after_message(Some(error), small) == small,
        pending_after_message(Some(error), Some(small)) == Some(error),
        message_code(pending_after_message(Some(error), Some(small)), Some(large))
            == error.bytes().len(),
        buffer_after_message(pending_after_message(Some(error), Some(small)), large)
            == zero_padded(error.bytes(), large.len()),
        pending_after_message(pending_after_message(Some(error), Some(small)), Some(large))
            is None,
{
}

/// A buffer that took a message of `n` bytes holds the message in its first
/// `n` bytes and zero in every byte after them, and is as long as before.
pub proof fn lemma_zero_padded(message: Seq<u8>, capacity: nat)
    requires
        message.len() <= capacity,
    ensures
        zero_padded(message, capacity).len() == capacity,
        zero_padded(message, capacity).subrange(0, message.len() as int) == message,
        forall|i: int|
            message.len() <= i < capacity ==> #[trigger] zero_padded(message, capacity)[i] == 0u8,
{
    assert(zero_padded(message, capacity).subrange(0, message.len() as int) =~= message);
}

} // verus!
