//! Routing of inbound coordinator events to what the agent does with them.

use crate::record::{decode_text_spec, DecodeError, TargetRecord};
use vstd::prelude::*;

verus! {

/// The event that carries a new target assignment.
pub const NEW_TARGET_EVENT: &'static str = "newTarget";

/// The event by which the coordinator reports an error.
pub const ERROR_EVENT: &'static str = "error";

/// An inbound event's payload.
#[derive(Debug, Clone)]
pub enum Payload {
    /// The coordinator's normal encoding: JSON text.
    Text(String),
    /// An unexpected encoding, with no schema.
    Binary(Vec<u8>),
}

/// What a "new target" event came to.
#[derive(Debug, Clone)]
pub enum TargetOutcome {
    /// The payload held a record: it is logged.
    Decoded(TargetRecord),
    /// The payload is text that holds no record: the failure is logged and the
    /// session goes on.
    Rejected(DecodeError),
    /// The payload is binary: its bytes are shown and nothing else is done.
    Bytes(Vec<u8>),
}

/// What the agent does with an inbound event.
#[derive(Debug, Clone)]
pub enum Action {
    /// Handle a "new target" event as its outcome says.
    Target(TargetOutcome),
    /// Write the coordinator's error payload to standard error and go on.
    ReportError(Payload),
    /// An event this agent has no handler for.
    Ignore,
}

/// Handles one "new target" payload: text is decoded into a record, binary
/// is handed back untouched and never decoded.
pub fn on_new_target(payload: Payload) -> (r: TargetOutcome)
    ensures
        match payload {
            Payload::Binary(b) => r == TargetOutcome::Bytes(b),
            Payload::Text(s) => match r {
                TargetOutcome::Decoded(rec) => decode_text_spec(s@) == Ok::<_, DecodeError>(rec@),
                TargetOutcome::Rejected(x) => decode_text_spec(s@) == Err::<
                    crate::record::RecordModel,
                    DecodeError,
                >(x),
                TargetOutcome::Bytes(_) => false,
            },
        },
{
    match payload {
        Payload::Text(s) => match TargetRecord::from_json(s.as_str()) {
            Ok(rec) => TargetOutcome::Decoded(rec),
            Err(x) => TargetOutcome::Rejected(x),
        },
        Payload::Binary(b) => TargetOutcome::Bytes(b),
    }
}

/// Routes an event by name: "new target" events are decoded, "error" events
/// are reported with their payload as it came, and none of them ends the
/// session.
pub fn dispatch(event: &str, payload: Payload) -> (r: Action)
    ensures
        event@ == NEW_TARGET_EVENT@ ==> match r {
            Action::Target(o) => match payload {
                Payload::Binary(b) => o == TargetOutcome::Bytes(b),
                Payload::Text(s) => match o {
                    TargetOutcome::Decoded(rec) => decode_text_spec(s@) == Ok::<_, DecodeError>(
                        rec@,
                    ),
                    TargetOutcome::Rejected(x) => decode_text_spec(s@) == Err::<
                        crate::record::RecordModel,
                        DecodeError,
                    >(x),
                    TargetOutcome::Bytes(_) => false,
                },
            },
            _ => false,
        },
        event@ == ERROR_EVENT@ ==> r == Action::ReportError(payload),
        event@ != NEW_TARGET_EVENT@ && event@ != ERROR_EVENT@ ==> r is Ignore,
{
    proof {
        reveal_strlit("newTarget");
        reveal_strlit("error");
        assert(NEW_TARGET_EVENT@.len() != ERROR_EVENT@.len());
    }
    let name = String::from_str(event);
    if name == String::from_str(NEW_TARGET_EVENT) {
        Action::Target(on_new_target(payload))
    } else if name == String::from_str(ERROR_EVENT) {
        Action::ReportError(payload)
    } else {
        Action::Ignore
    }
}

} // verus!
