//! The error value that travels through an error slot.

use vstd::prelude::*;
use vstd::utf8::encode_utf8;

verus! {

/// One failure: a payload that the library only carries, and the text that the
/// failure renders to.
///
/// The payload is whatever the application wants to keep about the failure.
/// The library never looks inside it; it reads the message alone.
pub struct ErrorValue<E> {
    /// What the application attached to the failure.
    pub payload: E,
    /// The human-readable rendering of the failure.
    pub message: String,
}

impl<E> ErrorValue<E> {
    /// The message as the bytes that a caller's buffer receives: its UTF-8
    /// encoding.
    pub open spec fn bytes(&self) -> Seq<u8> {
        encode_utf8(self.message@)
    }

    /// An error with the given payload and message.
    pub fn new(payload: E, message: String) -> (error: Self)
        ensures
            error.payload == payload,
            error.message == message,
    {
        ErrorValue { payload, message }
    }

    /// The message of this error.
    pub fn message(&self) -> (text: &str)
        ensures
            text@ == self.message@,
    {
        self.message.as_str()
    }

    /// Gives up the error for the payload it carried.
    pub fn into_payload(self) -> (payload: E)
        ensures
            payload == self.payload,
    {
        self.payload
    }
}

} // verus!
