//! Turning an intercepted fault into an ordinary error value.

use vstd::prelude::*;

verus! {

/// What an intercepted fault carried with it, as far as it can be told.
pub enum FaultPayload {
    /// Plain text that lives for the whole program.
    Text(&'static str),
    /// Text that the fault owned.
    OwnedText(String),
    /// Anything else.
    Opaque,
}

/// The description of a fault whose payload carries no text.
pub open spec fn generic_description() -> Seq<char> {
    "operation faulted"@
}

impl FaultPayload {
    /// The human-readable description of the fault: the text that the payload
    /// carries, or the generic description where it carries none.
    pub open spec fn description(&self) -> Seq<char> {
        match self {
            FaultPayload::Text(text) => text@,
            FaultPayload::OwnedText(text) => text@,
            FaultPayload::Opaque => generic_description(),
        }
    }

    /// Renders the description of the fault.
    pub fn describe(&self) -> (text: String)
        ensures
            text@ == self.description(),
    {
        match self {
            FaultPayload::Text(text) => (*text).to_owned(),
            FaultPayload::OwnedText(text) => text.clone(),
            FaultPayload::Opaque => "operation faulted".to_owned(),
        }
    }
}

/// Settles the outcome of a computation that ran under fault interception.
///
/// `outcome` is `Ok` with what the computation returned, or `Err` with the
/// payload of the fault that cut it short. What the computation returned is
/// passed through unchanged, whether it is a value or an error. A fault
/// becomes the error that `convert` makes of the fault's description, so the
/// result is never anything but an ordinary `Result`.
pub fn catch_panic<T, E, C>(outcome: Result<Result<T, E>, FaultPayload>, convert: C) -> (result:
    Result<T, E>) where C: FnOnce(String) -> E
    requires
        outcome is Err ==> forall|text: String|
            text@ == outcome->Err_0.description() ==> convert.requires((text,)),
    ensures
        outcome is Ok ==> result == outcome->Ok_0,
        outcome is Err ==> result is Err && exists|text: String|
            text@ == outcome->Err_0.description() && convert.ensures((text,), result->Err_0),
{
    match outcome {
        Ok(returned) => returned,
        Err(payload) => {
            let text = payload.describe();
            Err(convert(text))
        },
    }
}

} // verus!
