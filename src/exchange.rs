//! Pairing each write with the one notification that answers it: the checks
//! that decide whether the notification that came after a write accepts it.
//!
//! The transport writes the frame and waits for the next notification; what
//! it hands back is checked here, so each decision is a function of the
//! request and of what arrived.

use crate::command::GoProCommand;
use crate::query::{parse_frame, ParseError, QueryResponse, QueryResponseView};
use crate::services::{
    uuid_text, uuid_value, GoProControlAndQueryCharacteristics, Sendable, ToUUID,
};
use crate::settings::GoProSetting;
use vstd::prelude::*;

verus! {

/// A notification: the characteristic it came from and its payload.
#[derive(Debug)]
pub struct Notification {
    pub uuid: u128,
    pub value: Vec<u8>,
}

/// Why a write was not accepted.
#[derive(Debug)]
pub enum ResponseError {
    /// The notifications ended before one arrived.
    NoResponse,
    /// The notification came from another characteristic than the answer's.
    WrongSource { expected_uuid: u128, actual_uuid: u128 },
    /// The acknowledgment differs from the one expected.
    WrongPayload { expected: Vec<u8>, actual: Vec<u8> },
    /// The answer to a query is no well-formed response frame.
    Malformed(ParseError),
}

/// The mathematical content of a `ResponseError`.
pub enum ResponseErrorView {
    NoResponse,
    WrongSource { expected_uuid: u128, actual_uuid: u128 },
    WrongPayload { expected: Seq<u8>, actual: Seq<u8> },
    Malformed(ParseError),
}

impl View for ResponseError {
    type V = ResponseErrorView;

    open spec fn view(&self) -> ResponseErrorView {
        match self {
            ResponseError::NoResponse => ResponseErrorView::NoResponse,
            ResponseError::WrongSource { expected_uuid, actual_uuid } => {
                ResponseErrorView::WrongSource {
                    expected_uuid: *expected_uuid,
                    actual_uuid: *actual_uuid,
                }
            },
            ResponseError::WrongPayload { expected, actual } => ResponseErrorView::WrongPayload {
                expected: expected@,
                actual: actual@,
            },
            ResponseError::Malformed(e) => ResponseErrorView::Malformed(*e),
        }
    }
}

/// The identifier of a characteristic of the control and query service.
pub open spec fn characteristic_uuid(c: GoProControlAndQueryCharacteristics) -> nat {
    uuid_value(uuid_text(c.short_code()))
}

/// How a notification answers a write that expects the acknowledgment
/// `expected` from the characteristic `source`: accepted only when it came
/// from `source` and carries exactly `expected`.
pub open spec fn ack_outcome(source: u128, expected: Seq<u8>, n: Option<Notification>) -> Result<
    (),
    ResponseErrorView,
> {
    match n {
        None => Err(ResponseErrorView::NoResponse),
        Some(n) => if n.uuid != source {
            Err(ResponseErrorView::WrongSource { expected_uuid: source, actual_uuid: n.uuid })
        } else if n.value@ != expected {
            Err(ResponseErrorView::WrongPayload { expected: expected, actual: n.value@ })
        } else {
            Ok(())
        },
    }
}

/// How a notification answers a query whose answer comes from `source`: the
/// response frame it holds, when it came from `source`.
pub open spec fn query_outcome(source: u128, n: Option<Notification>) -> Result<
    QueryResponseView,
    ResponseErrorView,
> {
    match n {
        None => Err(ResponseErrorView::NoResponse),
        Some(n) => if n.uuid != source {
            Err(ResponseErrorView::WrongSource { expected_uuid: source, actual_uuid: n.uuid })
        } else {
            match parse_frame(n.value@) {
                Ok(q) => Ok(q),
                Err(e) => Err(ResponseErrorView::Malformed(e)),
            }
        },
    }
}

/// Checks the notification that followed a write expecting the
/// acknowledgment `expected` from the characteristic `source`.
pub fn check_ack(source: u128, expected: &[u8], notification: Option<Notification>) -> (r: Result<
    (),
    ResponseError,
>)
    ensures
        match r {
            Ok(()) => ack_outcome(source, expected@, notification) == Ok::<(), ResponseErrorView>(()),
            Err(e) => ack_outcome(source, expected@, notification) == Err::<(), ResponseErrorView>(e@),
        },
{
    match notification {
        None => Err(ResponseError::NoResponse),
        Some(n) => {
            if n.uuid != source {
                return Err(ResponseError::WrongSource { expected_uuid: source, actual_uuid: n.uuid });
            }
            if !bytes_equal(n.value.as_slice(), expected) {
                return Err(
                    ResponseError::WrongPayload {
                        expected: vstd::slice::slice_to_vec(expected),
                        actual: n.value,
                    },
                );
            }
            Ok(())
        },
    }
}

/// Whether two byte strings are equal.
fn bytes_equal(a: &[u8], b: &[u8]) -> (r: bool)
    ensures
        r == (a@ == b@),
{
    if a.len() != b.len() {
        return false;
    }
    let mut i: usize = 0;
    while i < a.len()
        invariant
            a@.len() == b@.len(),
            i <= a@.len(),
            forall|j: int| 0 <= j < i ==> a@[j] == b@[j],
        decreases a.len() - i,
    {
        if a[i] != b[i] {
            return false;
        }
        i += 1;
    }
    assert(a@ =~= b@);
    true
}

/// Checks the notification that followed the write of `command`: it must
/// come from the command response characteristic and carry the command's
/// acknowledgment.
pub fn check_command_response(command: &GoProCommand, notification: Option<Notification>) -> (r:
    Result<(), ResponseError>)
    ensures
        match r {
            Ok(()) => ack_outcome(
                characteristic_uuid(GoProControlAndQueryCharacteristics::CommandResponse) as u128,
                command.ack_bytes(),
                notification,
            ) == Ok::<(), ResponseErrorView>(()),
            Err(e) => ack_outcome(
                characteristic_uuid(GoProControlAndQueryCharacteristics::CommandResponse) as u128,
                command.ack_bytes(),
                notification,
            ) == Err::<(), ResponseErrorView>(e@),
        },
{
    let source = GoProControlAndQueryCharacteristics::CommandResponse.to_uuid();
    check_ack(source, command.response_value_bytes(), notification)
}

/// Checks the notification that followed the write of `setting`: it must
/// come from the settings response characteristic and carry the setting's
/// acknowledgment.
pub fn check_setting_response(setting: &GoProSetting, notification: Option<Notification>) -> (r:
    Result<(), ResponseError>)
    ensures
        match r {
            Ok(()) => ack_outcome(
                characteristic_uuid(GoProControlAndQueryCharacteristics::SettingsResponse) as u128,
                setting.ack_bytes(),
                notification,
            ) == Ok::<(), ResponseErrorView>(()),
            Err(e) => ack_outcome(
                characteristic_uuid(GoProControlAndQueryCharacteristics::SettingsResponse) as u128,
                setting.ack_bytes(),
                notification,
            ) == Err::<(), ResponseErrorView>(e@),
        },
{
    let source = GoProControlAndQueryCharacteristics::SettingsResponse.to_uuid();
    check_ack(source, setting.response_value_bytes(), notification)
}

/// Checks the notification that followed the write of a query: it must come
/// from the query response characteristic and hold a response frame.
pub fn check_query_response(notification: Option<Notification>) -> (r: Result<
    QueryResponse,
    ResponseError,
>)
    ensures
        match r {
            Ok(q) => query_outcome(
                characteristic_uuid(GoProControlAndQueryCharacteristics::QueryResponse) as u128,
                notification,
            ) == Ok::<QueryResponseView, ResponseErrorView>(q@),
            Err(e) => query_outcome(
                characteristic_uuid(GoProControlAndQueryCharacteristics::QueryResponse) as u128,
                notification,
            ) == Err::<QueryResponseView, ResponseErrorView>(e@),
        },
{
    let source = GoProControlAndQueryCharacteristics::QueryResponse.to_uuid();
    match notification {
        None => Err(ResponseError::NoResponse),
        Some(n) => {
            if n.uuid != source {
                return Err(ResponseError::WrongSource { expected_uuid: source, actual_uuid: n.uuid });
            }
            match QueryResponse::deserialize(n.value.as_slice()) {
                Ok(q) => Ok(q),
                Err(e) => Err(ResponseError::Malformed(e)),
            }
        },
    }
}

/// For a command with acknowledgment `E`, a notification from the command
/// response characteristic is accepted when its payload is `E`, refused as a
/// wrong payload when it is not, and a notification from any other
/// characteristic is refused as coming from the wrong source.
pub proof fn lemma_command_ack_validation(command: GoProCommand, n: Notification)
    ensures
        ({
            let source = characteristic_uuid(GoProControlAndQueryCharacteristics::CommandResponse)
                as u128;
            &&& n.uuid == source && n.value@ == command.ack_bytes() ==> ack_outcome(
                source,
                command.ack_bytes(),
                Some(n),
            ) is Ok
            &&& n.uuid == source && n.value@ != command.ack_bytes() ==> ack_outcome(
                source,
                command.ack_bytes(),
                Some(n),
            ) == Err::<(), ResponseErrorView>(
                ResponseErrorView::WrongPayload { expected: command.ack_bytes(), actual: n.value@ },
            )
            &&& n.uuid != source ==> ack_outcome(source, command.ack_bytes(), Some(n)) == Err::<
                (),
                ResponseErrorView,
            >(ResponseErrorView::WrongSource { expected_uuid: source, actual_uuid: n.uuid })
        }),
{
}

} // verus!
