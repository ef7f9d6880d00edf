//! The native messaging host: one message from the extension is
//! acknowledged, handed to the bridge over a WebSocket, and the bridge's
//! answer is handed back.
//!
//! The host is a machine that is fed what its input, the connection attempt
//! and the socket gave. Each step says which bytes go to the standard output
//! and what is to be done next.

use vstd::prelude::*;
use vstd::string::*;
use crate::bridge::InboundFrame;
use crate::framing::{
    fits_prefix, frame, read_message, read_result, write_message, ByteOrder, FramingError,
};
use crate::json::{json_normal_form, json_object_text, normalize_json, object_text};

verus! {

/// The number of handshakes that the host attempts.
pub const HOST_ATTEMPTS: u32 = 2;

/// The acknowledgement that the host writes as soon as it has read a message.
pub open spec fn received_envelope() -> Seq<char> {
    json_object_text("status"@, "received"@, "message"@, "Message received by native host"@)
}

/// The report that the host writes when the bridge cannot be reached.
pub open spec fn error_envelope() -> Seq<char> {
    json_object_text("status"@, "error"@, "message"@, "Failed to connect to Tauri app"@)
}

/// The envelope in which the host hands on the bridge's answer `response`.
pub open spec fn success_envelope(response: Seq<char>) -> Seq<char> {
    json_object_text("status"@, "success"@, "response"@, response)
}

/// The acknowledgement of a message.
pub fn received_envelope_text() -> (text: String)
    ensures
        text@ == received_envelope(),
{
    object_text("status", "received", "message", "Message received by native host")
}

/// The report of a bridge that cannot be reached.
pub fn error_envelope_text() -> (text: String)
    ensures
        text@ == error_envelope(),
{
    object_text("status", "error", "message", "Failed to connect to Tauri app")
}

/// The envelope of the bridge's answer `response`.
pub fn success_envelope_text(response: &str) -> (text: String)
    ensures
        text@ == success_envelope(response@),
{
    object_text("status", "success", "response", response)
}

/// Why the host ended without an answer.
#[derive(Clone, Copy, Debug, PartialEq, Eq, Structural)]
pub enum HostFailure {
    /// No message could be read from the input.
    Framing(FramingError),
    /// The message is not JSON.
    InvalidJson,
    /// Every handshake with the bridge failed.
    ConnectionFailed,
}

/// Where the host stands.
#[derive(Clone, Debug, PartialEq, Eq)]
pub enum HostPhase {
    /// The message of the extension is awaited.
    AwaitingInput,
    /// The bridge is being connected to; `outbound` is the text to send.
    Connecting { outbound: String },
    /// The text was sent and one frame is awaited.
    AwaitingReply,
    /// The host has ended.
    Finished,
}

/// What happened outside the host.
#[derive(Clone, Debug, PartialEq, Eq)]
pub enum HostEvent {
    /// The bytes that the input gave.
    Input { bytes: Vec<u8> },
    /// A handshake succeeded.
    Connected,
    /// The handshakes were used up.
    ConnectFailed,
    /// The socket gave a frame, or ended.
    Reply { frame: Option<InboundFrame> },
}

/// What the host's caller is to do after a step.
#[derive(Clone, Debug, PartialEq, Eq)]
pub enum HostAction {
    /// Connect to the bridge, with `max_attempts` handshakes at most.
    Connect { max_attempts: u32 },
    /// Send `text` as one text frame, then wait for one frame.
    SendAndReceive { text: String },
    /// Close the connection and end with success.
    CloseAndExit,
    /// End with a failure, leaving the bridge alone.
    Fail { failure: HostFailure },
    /// The event does not belong to the phase; nothing is to be done.
    Nothing,
}

/// The result of one step: the phase reached, the bytes to write to the
/// standard output and flush before anything else, and what to do then.
pub struct HostStep {
    pub phase: HostPhase,
    pub stdout: Vec<u8>,
    pub action: HostAction,
}

/// The step of a host that was to write an envelope too long to be framed:
/// the host ends with that failure and writes nothing.
pub open spec fn is_unwritable_step(step: HostStep) -> bool {
    step.phase == HostPhase::Finished && step.stdout@ == Seq::<u8>::empty() && step.action == (
    HostAction::Fail { failure: HostFailure::Framing(FramingError::TooLong) })
}

/// The step that writes `envelope`, reaches `phase` and asks for `action`,
/// or the step of a host that cannot frame the envelope.
pub fn output_step(order: ByteOrder, envelope: &str, phase: HostPhase, action: HostAction) -> (step:
    HostStep)
    ensures
        if fits_prefix(envelope@) {
            step.phase == phase && step.stdout@ == frame(order, envelope@) && step.action
                == action
        } else {
            is_unwritable_step(step)
        },
{
    match write_message(envelope, order) {
        Ok(stdout) => HostStep { phase, stdout, action },
        Err(error) => HostStep {
            phase: HostPhase::Finished,
            stdout: Vec::new(),
            action: HostAction::Fail { failure: HostFailure::Framing(error) },
        },
    }
}

/// The step for what the input gave, given what the JSON crate made of the
/// message that was read from it: the acknowledgement is written; a message
/// that is JSON is to be sent, any other makes the host fail.
pub fn input_step(order: ByteOrder, normal: Option<String>) -> (step: HostStep)
    ensures
        if fits_prefix(received_envelope()) {
            step.stdout@ == frame(order, received_envelope()) && match normal {
                Some(outbound) => step.phase == (HostPhase::Connecting { outbound })
                    && step.action == (HostAction::Connect { max_attempts: HOST_ATTEMPTS }),
                None => step.phase == HostPhase::Finished && step.action == (HostAction::Fail {
                    failure: HostFailure::InvalidJson,
                }),
            }
        } else {
            is_unwritable_step(step)
        },
{
    let acknowledgement = received_envelope_text();
    match normal {
        Some(outbound) => output_step(
            order,
            acknowledgement.as_str(),
            HostPhase::Connecting { outbound },
            HostAction::Connect { max_attempts: HOST_ATTEMPTS },
        ),
        None => output_step(
            order,
            acknowledgement.as_str(),
            HostPhase::Finished,
            HostAction::Fail { failure: HostFailure::InvalidJson },
        ),
    }
}

/// Advances the host by one event.
///
/// - The input is read as one framed message. Where none can be read, the
///   host fails and writes nothing. Else it writes the acknowledgement; a
///   message that is JSON is then to be sent as the JSON crate writes it,
///   any other makes the host fail without a connection.
/// - A connection that was made has the text sent; one that could not be
///   made has the error report written, and the host fails.
/// - A text frame from the bridge is handed on in the success envelope; any
///   other frame, or the end of the stream, produces no output. Either way
///   the connection is closed and the host ends.
/// - An envelope that is too long to be framed is not written: the host
///   fails in its place.
pub fn host_step(phase: HostPhase, event: HostEvent, order: ByteOrder) -> (step: HostStep)
    ensures
        match (phase, event) {
            (HostPhase::AwaitingInput, HostEvent::Input { bytes }) => match read_result(
                order,
                bytes@,
            ) {
                Err(error) => step.phase == HostPhase::Finished && step.stdout@ == Seq::<
                    u8,
                >::empty() && step.action == (HostAction::Fail {
                    failure: HostFailure::Framing(error),
                }),
                Ok((message, _)) => if fits_prefix(received_envelope()) {
                    step.stdout@ == frame(order, received_envelope()) && match json_normal_form(
                        message,
                    ) {
                        Some(normal) => (step.phase matches HostPhase::Connecting { outbound }
                            && outbound@ == normal) && step.action == (HostAction::Connect {
                            max_attempts: HOST_ATTEMPTS,
                        }),
                        None => step.phase == HostPhase::Finished && step.action == (
                        HostAction::Fail { failure: HostFailure::InvalidJson }),
                    }
                } else {
                    is_unwritable_step(step)
                },
            },
            (HostPhase::Connecting { outbound }, HostEvent::Connected) => step.phase
                == HostPhase::AwaitingReply && step.stdout@ == Seq::<u8>::empty() && step.action
                == (HostAction::SendAndReceive { text: outbound }),
            (HostPhase::Connecting { outbound }, HostEvent::ConnectFailed) => if fits_prefix(
                error_envelope(),
            ) {
                step.phase == HostPhase::Finished && step.stdout@ == frame(
                    order,
                    error_envelope(),
                ) && step.action == (HostAction::Fail { failure: HostFailure::ConnectionFailed })
            } else {
                is_unwritable_step(step)
            },
            (HostPhase::AwaitingReply, HostEvent::Reply { frame: reply }) => match reply {
                Some(InboundFrame::Text(response)) => if fits_prefix(
                    success_envelope(response@),
                ) {
                    step.phase == HostPhase::Finished && step.stdout@ == frame(
                        order,
                        success_envelope(response@),
                    ) && step.action == HostAction::CloseAndExit
                } else {
                    is_unwritable_step(step)
                },
                _ => step.phase == HostPhase::Finished && step.stdout@ == Seq::<u8>::empty()
                    && step.action == HostAction::CloseAndExit,
            },
            _ => step.phase == phase && step.stdout@ == Seq::<u8>::empty() && step.action
                == HostAction::Nothing,
        },
{
    match phase {
        HostPhase::AwaitingInput => match event {
            HostEvent::Input { bytes } => match read_message(bytes.as_slice(), order) {
                Ok((message, _)) => input_step(order, normalize_json(message.as_str())),
                Err(error) => HostStep {
                    phase: HostPhase::Finished,
                    stdout: Vec::new(),
                    action: HostAction::Fail { failure: HostFailure::Framing(error) },
                },
            },
            _ => HostStep {
                phase: HostPhase::AwaitingInput,
                stdout: Vec::new(),
                action: HostAction::Nothing,
            },
        },
        HostPhase::Connecting { outbound } => match event {
            HostEvent::Connected => HostStep {
                phase: HostPhase::AwaitingReply,
                stdout: Vec::new(),
                action: HostAction::SendAndReceive { text: outbound },
            },
            HostEvent::ConnectFailed => {
                let report = error_envelope_text();
                output_step(
                    order,
                    report.as_str(),
                    HostPhase::Finished,
                    HostAction::Fail { failure: HostFailure::ConnectionFailed },
                )
            },
            _ => HostStep {
                phase: HostPhase::Connecting { outbound },
                stdout: Vec::new(),
                action: HostAction::Nothing,
            },
        },
        HostPhase::AwaitingReply => match event {
            HostEvent::Reply { frame: reply } => match reply {
                Some(InboundFrame::Text(response)) => {
                    let envelope = success_envelope_text(response.as_str());
                    output_step(
                        order,
                        envelope.as_str(),
                        HostPhase::Finished,
                        HostAction::CloseAndExit,
                    )
                },
                _ => HostStep {
                    phase: HostPhase::Finished,
                    stdout: Vec::new(),
                    action: HostAction::CloseAndExit,
                },
            },
            _ => HostStep {
                phase: HostPhase::AwaitingReply,
                stdout: Vec::new(),
                action: HostAction::Nothing,
            },
        },
        HostPhase::Finished => HostStep {
            phase: HostPhase::Finished,
            stdout: Vec::new(),
            action: HostAction::Nothing,
        },
    }
}

} // verus!
