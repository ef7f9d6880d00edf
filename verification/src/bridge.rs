//! The state shared by the bridge's listener, its connections and the GUI
//! commands: the one outbound sender, the one pending response slot, the
//! listener's abort handle and the configuration.
//!
//! The handles themselves (a socket's write half, the sending ends of
//! one-shot channels) are carried through unread; the state decides which of
//! them is current.

use vstd::prelude::*;
use vstd::string::*;
use crate::config::Config;
use crate::json::{json_normal_form, normalize_json};
use crate::listener::{step, StartAction, StartEvent, StartPhase};

verus! {

/// What a [`BridgeState`] holds.
pub struct BridgeView<S, R, A> {
    /// The connection that answers go to, with its sender.
    pub sender: Option<(u64, S)>,
    /// The slot that the next answer of the GUI completes.
    pub pending: Option<R>,
    /// The abort handle of the running listener.
    pub listener: Option<A>,
    /// The configuration in force.
    pub config: Config,
}

/// The bridge's shared state. It holds at most one sender, at most one
/// pending response slot and at most one abort handle.
pub struct BridgeState<S, R, A> {
    sender: Option<(u64, S)>,
    pending: Option<R>,
    listener: Option<A>,
    config: Config,
}

impl<S, R, A> View for BridgeState<S, R, A> {
    type V = BridgeView<S, R, A>;

    closed spec fn view(&self) -> BridgeView<S, R, A> {
        BridgeView {
            sender: self.sender,
            pending: self.pending,
            listener: self.listener,
            config: self.config,
        }
    }
}

/// The state after connection `connection` completed its handshake with
/// sender `sender`: it is the current one, whatever was stored before.
pub open spec fn opened<S, R, A>(state: BridgeView<S, R, A>, connection: u64, sender: S)
    -> BridgeView<S, R, A> {
    BridgeView { sender: Some((connection, sender)), ..state }
}

/// The state after connection `connection` ended: its sender is forgotten,
/// that of another connection stays.
pub open spec fn closed<S, R, A>(state: BridgeView<S, R, A>, connection: u64) -> BridgeView<
    S,
    R,
    A,
> {
    match state.sender {
        Some((current, _)) if current == connection => BridgeView { sender: None, ..state },
        _ => state,
    }
}

/// The state after a message was handed to the GUI with the response slot
/// `slot`: the slot is the one that waits, whatever waited before.
pub open spec fn submitted<S, R, A>(state: BridgeView<S, R, A>, slot: R) -> BridgeView<S, R, A> {
    BridgeView { pending: Some(slot), ..state }
}

/// The state after the GUI answered: no slot waits.
pub open spec fn completed<S, R, A>(state: BridgeView<S, R, A>) -> BridgeView<S, R, A> {
    BridgeView { pending: None, ..state }
}

/// The state after the handshakes in `handshakes` completed in this order.
pub open spec fn after_handshakes<S, R, A>(
    state: BridgeView<S, R, A>,
    handshakes: Seq<(u64, S)>,
) -> BridgeView<S, R, A>
    decreases handshakes.len(),
{
    if handshakes.len() == 0 {
        state
    } else {
        opened(
            after_handshakes(state, handshakes.drop_last()),
            handshakes.last().0,
            handshakes.last().1,
        )
    }
}

impl<S, R, A> BridgeState<S, R, A> {
    /// A state with no connection, no pending response and no listener.
    pub fn new(config: Config) -> (state: Self)
        ensures
            state@ == (BridgeView::<S, R, A> {
                sender: None,
                pending: None,
                listener: None,
                config,
            }),
    {
        BridgeState { sender: None, pending: None, listener: None, config }
    }

    /// The configuration in force.
    pub fn config(&self) -> (config: Config)
        ensures
            config == self@.config,
    {
        self.config
    }

    /// The port that the listener is to be bound to.
    pub fn port(&self) -> (port: u16)
        ensures
            port == self@.config.port,
    {
        self.config.port
    }

    /// The connection whose sender is stored.
    pub fn active_connection(&self) -> (connection: Option<u64>)
        ensures
            connection == match self@.sender {
                Some((current, _)) => Some(current),
                None => None,
            },
    {
        match &self.sender {
            Some((current, _)) => Some(*current),
            None => None,
        }
    }

    /// Whether a response slot is waiting for the GUI.
    pub fn has_pending(&self) -> (waiting: bool)
        ensures
            waiting == self@.pending.is_some(),
    {
        self.pending.is_some()
    }

    /// Whether a listener's abort handle is stored.
    pub fn has_listener(&self) -> (listening: bool)
        ensures
            listening == self@.listener.is_some(),
    {
        self.listener.is_some()
    }

    /// Connection `connection` completed its handshake: its sender replaces
    /// whatever was stored, and the replaced sender, if any, is handed back.
    pub fn connection_opened(&mut self, connection: u64, sender: S) -> (superseded: Option<S>)
        ensures
            final(self)@ == opened(old(self)@, connection, sender),
            superseded == match old(self)@.sender {
                Some((_, previous)) => Some(previous),
                None => None,
            },
    {
        let previous = self.sender.take();
        self.sender = Some((connection, sender));
        match previous {
            Some((_, stale)) => Some(stale),
            None => None,
        }
    }

    /// Connection `connection` ended: its sender is removed and handed back
    /// if it is still the stored one; the sender of a connection that
    /// superseded it stays.
    pub fn connection_closed(&mut self, connection: u64) -> (removed: Option<S>)
        ensures
            final(self)@ == closed(old(self)@, connection),
            removed == match old(self)@.sender {
                Some((current, sender)) if current == connection => Some(sender),
                _ => None,
            },
    {
        let current = self.active_connection();
        if current == Some(connection) {
            match self.sender.take() {
                Some((_, sender)) => Some(sender),
                None => None,
            }
        } else {
            None
        }
    }

    /// The stored sender, to send through it. What the caller does to the
    /// sender is all that changes in the state.
    pub fn sender_mut(&mut self) -> (sender: Option<&mut S>)
        ensures
            match sender {
                Some(handle) => old(self)@.sender matches Some((current, stored)) && *handle
                    == stored && final(self)@ == opened(old(self)@, current, *final(handle)),
                None => old(self)@.sender.is_none() && final(self)@ == old(self)@,
            },
    {
        match &mut self.sender {
            Some(entry) => Some(&mut entry.1),
            None => None,
        }
    }

    /// Stores the response slot of the message that is being handed to the
    /// GUI. A slot that was still waiting is replaced and handed back: only
    /// one message is tracked at a time.
    pub fn submit(&mut self, slot: R) -> (stale: Option<R>)
        ensures
            final(self)@ == submitted(old(self)@, slot),
            stale == old(self)@.pending,
    {
        let stale = self.pending.take();
        self.pending = Some(slot);
        stale
    }

    /// The GUI answered: the waiting slot, if there is one, is taken out and
    /// handed to the caller to be completed. With no slot waiting nothing
    /// changes and the answer is to be dropped.
    pub fn complete(&mut self) -> (slot: Option<R>)
        ensures
            slot == old(self)@.pending,
            final(self)@ == completed(old(self)@),
    {
        self.pending.take()
    }

    /// Stores the abort handle of a listener that has just been started and
    /// hands back the one it replaces.
    pub fn listener_installed(&mut self, abort: A) -> (previous: Option<A>)
        ensures
            final(self)@ == (BridgeView { listener: Some(abort), ..old(self)@ }),
            previous == old(self)@.listener,
    {
        let previous = self.listener.take();
        self.listener = Some(abort);
        previous
    }

    /// Takes out the abort handle of the running listener, to signal it.
    pub fn listener_taken(&mut self) -> (abort: Option<A>)
        ensures
            abort == old(self)@.listener,
            final(self)@ == (BridgeView { listener: None, ..old(self)@ }),
    {
        self.listener.take()
    }

    /// Begins a start of the listener on `port`: the abort handle of the
    /// running listener, if there is one, is taken out and handed back to be
    /// signalled, and the start takes its first step, which for port zero is
    /// its failure. Until a new handle is installed the state holds none,
    /// however the start ends.
    pub fn start_begun(&mut self, port: u16) -> (begun: (Option<A>, StartPhase, StartAction))
        ensures
            begun.0 == old(self)@.listener,
            final(self)@ == (BridgeView { listener: None, ..old(self)@ }),
            (begun.1, begun.2) == step(
                port,
                StartPhase::Idle,
                StartEvent::Begin { prior_listener: old(self)@.listener.is_some() },
            ),
    {
        let abort = self.listener.take();
        let prior_listener = abort.is_some();
        let (phase, action) = crate::listener::start_step(
            port,
            StartPhase::Idle,
            StartEvent::Begin { prior_listener },
        );
        (abort, phase, action)
    }

    /// Puts a new configuration in force once it has been persisted:
    /// `persisted` is what saving it gave. Where saving failed, nothing
    /// changes and the failure is handed on. Where it succeeded, the
    /// configuration is swapped and the port to restart the listener on is
    /// returned; a restart that then fails leaves the new configuration in
    /// force.
    pub fn reconfigure(&mut self, config: Config, persisted: Result<(), String>) -> (restart: Result<
        u16,
        String,
    >)
        ensures
            match persisted {
                Ok(_) => restart == Ok::<u16, String>(config.port) && final(self)@ == (BridgeView {
                    config,
                    ..old(self)@
                }),
                Err(reason) => restart == Err::<u16, String>(reason) && final(self)@ == old(
                    self,
                )@,
            },
    {
        match persisted {
            Ok(_) => {
                self.config = config;
                Ok(config.port)
            },
            Err(reason) => Err(reason),
        }
    }
}

/// A frame that arrived on a connection.
#[derive(Clone, Debug, PartialEq, Eq)]
pub enum InboundFrame {
    /// A text frame with its text.
    Text(String),
    /// Any other frame.
    Other,
}

/// What becomes of an inbound frame.
#[derive(Clone, Debug, PartialEq, Eq)]
pub enum FrameDecision {
    /// The frame held JSON: `payload`, the text of the frame, goes to the GUI
    /// and a response is awaited.
    Dispatch { payload: String },
    /// The frame is passed over in silence.
    Ignore,
}

/// The decision for a text frame with the text `text`, given what the JSON
/// crate made of that text: a text that is JSON is dispatched as it came,
/// any other is ignored.
pub fn decide_text_frame(text: String, normal: Option<String>) -> (decision: FrameDecision)
    ensures
        decision == match normal {
            Some(_) => FrameDecision::Dispatch { payload: text },
            None => FrameDecision::Ignore,
        },
{
    match normal {
        Some(_) => FrameDecision::Dispatch { payload: text },
        None => FrameDecision::Ignore,
    }
}

/// The decision for an inbound frame: a text frame that holds JSON is
/// dispatched with its text, every other frame is ignored.
pub fn classify_frame(frame: &InboundFrame) -> (decision: FrameDecision)
    ensures
        match frame {
            InboundFrame::Text(text) => if json_normal_form(text@).is_some() {
                decision matches FrameDecision::Dispatch { payload } && payload@ == text@
            } else {
                decision == FrameDecision::Ignore
            },
            InboundFrame::Other => decision == FrameDecision::Ignore,
        },
{
    match frame {
        InboundFrame::Text(text) => decide_text_frame(
            text.clone(),
            normalize_json(text.as_str()),
        ),
        InboundFrame::Other => FrameDecision::Ignore,
    }
}

/// Where the handling of one connection stands.
#[derive(Clone, Copy, Debug, PartialEq, Eq, Structural)]
pub enum ConnectionPhase {
    /// The WebSocket handshake is under way.
    Handshaking,
    /// The next frame is awaited.
    Receiving,
    /// A message is with the GUI; no frame is read until it has answered.
    AwaitingReply,
    /// The connection has ended.
    Closed,
}

/// What happened on a connection.
#[derive(Clone, Debug, PartialEq, Eq)]
pub enum ConnectionEvent {
    /// The handshake succeeded.
    HandshakeDone,
    /// The handshake failed.
    HandshakeFailed,
    /// A frame arrived.
    Frame { frame: InboundFrame },
    /// The peer closed, or no more frames will come.
    StreamEnded,
    /// The response slot was completed with `response`.
    GuiReplied { response: String },
    /// The response slot was dropped before it was completed; `detail` is
    /// what the channel reports.
    SlotDropped { detail: String },
}

/// What the handler of a connection is to do next.
#[derive(Clone, Debug, PartialEq, Eq)]
pub enum ConnectionAction {
    /// Store the connection's sender with [`BridgeState::connection_opened`],
    /// then wait for a frame.
    InstallSender,
    /// Wait for the next frame.
    Receive,
    /// Store a fresh response slot with [`BridgeState::submit`], emit the
    /// JSON value that `payload`, the text of the frame, holds to the GUI and
    /// wait for the slot to be completed.
    Dispatch { payload: String },
    /// Send `text` as a text frame through the sender that
    /// [`BridgeState::sender_mut`] gives at that moment, or drop it where
    /// there is none; then wait for the next frame.
    Reply { text: String },
    /// Call [`BridgeState::connection_closed`] and end.
    ForgetSender,
    /// End without having stored anything.
    Abandon,
    /// The event does not belong to the phase; nothing is to be done.
    Unexpected,
}

/// The text sent in place of an answer when the response slot was dropped.
pub open spec fn dropped_slot_text(detail: Seq<char>) -> Seq<char> {
    "Error receiving response: "@ + detail
}

/// Advances the handling of a connection by one event.
///
/// - After the handshake the connection's sender is installed.
/// - A text frame that holds JSON is dispatched to the GUI and the handler
///   waits for the answer; any other frame is passed over.
/// - The GUI's answer is sent back as it is; a slot that was dropped is
///   answered by a text that says so.
/// - The end of the stream has the connection's sender forgotten.
pub fn connection_step(phase: ConnectionPhase, event: ConnectionEvent) -> (next: (
    ConnectionPhase,
    ConnectionAction,
))
    ensures
        match (phase, event) {
            (ConnectionPhase::Handshaking, ConnectionEvent::HandshakeDone) => next == (
                ConnectionPhase::Receiving,
                ConnectionAction::InstallSender,
            ),
            (ConnectionPhase::Handshaking, ConnectionEvent::HandshakeFailed) => next == (
                ConnectionPhase::Closed,
                ConnectionAction::Abandon,
            ),
            (ConnectionPhase::Receiving, ConnectionEvent::Frame { frame }) => match frame {
                InboundFrame::Text(text) => if json_normal_form(text@).is_some() {
                    next.0 == ConnectionPhase::AwaitingReply && (
                    next.1 matches ConnectionAction::Dispatch { payload } && payload@ == text@)
                } else {
                    next == (ConnectionPhase::Receiving, ConnectionAction::Receive)
                },
                InboundFrame::Other => next == (
                    ConnectionPhase::Receiving,
                    ConnectionAction::Receive,
                ),
            },
            (ConnectionPhase::Receiving, ConnectionEvent::StreamEnded) => next == (
                ConnectionPhase::Closed,
                ConnectionAction::ForgetSender,
            ),
            (ConnectionPhase::AwaitingReply, ConnectionEvent::GuiReplied { response }) => next
                == (ConnectionPhase::Receiving, ConnectionAction::Reply { text: response }),
            (ConnectionPhase::AwaitingReply, ConnectionEvent::SlotDropped { detail }) => next.0
                == ConnectionPhase::Receiving && (next.1 matches ConnectionAction::Reply { text }
                && text@ == dropped_slot_text(detail@)),
            _ => next == (phase, ConnectionAction::Unexpected),
        },
{
    match phase {
        ConnectionPhase::Handshaking => match event {
            ConnectionEvent::HandshakeDone => (
                ConnectionPhase::Receiving,
                ConnectionAction::InstallSender,
            ),
            ConnectionEvent::HandshakeFailed => (
                ConnectionPhase::Closed,
                ConnectionAction::Abandon,
            ),
            _ => (phase, ConnectionAction::Unexpected),
        },
        ConnectionPhase::Receiving => match event {
            ConnectionEvent::Frame { frame } => match classify_frame(&frame) {
                FrameDecision::Dispatch { payload } => (
                    ConnectionPhase::AwaitingReply,
                    ConnectionAction::Dispatch { payload },
                ),
                FrameDecision::Ignore => (ConnectionPhase::Receiving, ConnectionAction::Receive),
            },
            ConnectionEvent::StreamEnded => (
                ConnectionPhase::Closed,
                ConnectionAction::ForgetSender,
            ),
            _ => (phase, ConnectionAction::Unexpected),
        },
        ConnectionPhase::AwaitingReply => match event {
            ConnectionEvent::GuiReplied { response } => (
                ConnectionPhase::Receiving,
                ConnectionAction::Reply { text: response },
            ),
            ConnectionEvent::SlotDropped { detail } => {
                let mut text = String::from_str("Error receiving response: ");
                text.append(detail.as_str());
                (ConnectionPhase::Receiving, ConnectionAction::Reply { text })
            },
            _ => (phase, ConnectionAction::Unexpected),
        },
        ConnectionPhase::Closed => (phase, ConnectionAction::Unexpected),
    }
}

/// What becomes of a message that the GUI wants sent to the extension.
pub open spec fn no_connection_text() -> Seq<char> {
    "No active WebSocket connection"@
}

/// The connection to send a GUI message through, or the failure to report
/// when there is none.
pub fn outbound_connection<S, R, A>(state: &BridgeState<S, R, A>) -> (target: Result<u64, String>)
    ensures
        match state@.sender {
            Some((current, _)) => target == Ok::<u64, String>(current),
            None => target matches Err(reason) && reason@ == no_connection_text(),
        },
{
    match state.active_connection() {
        Some(current) => Ok(current),
        None => Err(String::from_str("No active WebSocket connection")),
    }
}

/// Of any number of connections that complete their handshake, the last one
/// holds the stored sender, and nothing else of the state has changed.
pub proof fn lemma_last_handshake_wins<S, R, A>(
    state: BridgeView<S, R, A>,
    handshakes: Seq<(u64, S)>,
)
    requires
        handshakes.len() > 0,
    ensures
        after_handshakes(state, handshakes).sender == Some(handshakes.last()),
        after_handshakes(state, handshakes).pending == state.pending,
        after_handshakes(state, handshakes).listener == state.listener,
        after_handshakes(state, handshakes).config == state.config,
    decreases handshakes.len(),
{
    if handshakes.len() > 1 {
        lemma_last_handshake_wins(state, handshakes.drop_last());
    } else {
        assert(after_handshakes(state, handshakes.drop_last()) == state);
    }
}

/// A response slot is completed once: the answer that follows a submission
/// finds the submitted slot, a second answer finds none and changes nothing,
/// and so does an answer that no submission came before.
pub proof fn lemma_slot_completes_once<S, R, A>(state: BridgeView<S, R, A>, slot: R)
    ensures
        submitted(state, slot).pending == Some(slot),
        completed(submitted(state, slot)).pending.is_none(),
        completed(completed(state)) == completed(state),
        state.pending.is_none() ==> completed(state) == state,
        submitted(submitted(state, slot), slot) == submitted(state, slot),
{
}

/// The end of a connection that was superseded leaves the sender of the
/// connection that superseded it in place.
pub proof fn lemma_stale_close_keeps_sender<S, R, A>(
    state: BridgeView<S, R, A>,
    stale: u64,
    current: u64,
    sender: S,
)
    requires
        stale != current,
    ensures
        closed(opened(state, current, sender), stale) == opened(state, current, sender),
        closed(opened(state, current, sender), current).sender.is_none(),
{
}

} // verus!
