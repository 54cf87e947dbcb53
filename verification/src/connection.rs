//! The connection state machine: one network client that connects to the
//! state source, reads fixed-length frames, reconnects with a bounded backoff
//! after connect failures, and stops for good on a clean close, a hard read
//! error, or once too many connect attempts in a row have failed.
//!
//! The machine is expressed once, as a pure step function from state and
//! observed event to next state and requested action. Any driver — a
//! dedicated thread around a blocking socket, or a cooperative asynchronous
//! task — performs the returned action, feeds the outcome back in as the next
//! event, and owns no decision of its own.

use vstd::prelude::*;
use crate::codec::{decode, spec_decode, RecordModel, WireRecord, ENCODED_LEN};

verus! {

/// Milliseconds the driver sleeps between failed connect attempts.
pub const BACKOFF_MILLIS: u64 = 500;

/// Consecutive connect failures tolerated; one more stops the machine.
pub const MAX_CONSECUTIVE_FAILURES: u8 = 20;

/// The three states of the client. `Stopped` is terminal and absorbing.
#[derive(Clone, Copy, Debug, PartialEq, Eq, Structural)]
pub enum ConnectionState {
    /// No live transport; `fail_count` consecutive connect attempts failed.
    Disconnected { fail_count: u8 },
    /// A live transport exists and frames are being read.
    Connected,
    /// Terminal: the machine performs no further I/O.
    Stopped,
}

/// What the driver observed while performing the last requested action.
#[derive(Debug)]
pub enum NetEvent {
    ConnectSucceeded,
    ConnectFailed,
    /// The bytes one read returned; an empty buffer is a clean close.
    ReadReturned(Vec<u8>),
    /// The transport reported a hard I/O error.
    ReadFailed,
}

/// The mathematical value of a [`NetEvent`].
pub enum EventModel {
    ConnectSucceeded,
    ConnectFailed,
    ReadReturned(Seq<u8>),
    ReadFailed,
}

impl View for NetEvent {
    type V = EventModel;

    open spec fn view(&self) -> EventModel {
        match self {
            NetEvent::ConnectSucceeded => EventModel::ConnectSucceeded,
            NetEvent::ConnectFailed => EventModel::ConnectFailed,
            NetEvent::ReadReturned(bytes) => EventModel::ReadReturned(bytes@),
            NetEvent::ReadFailed => EventModel::ReadFailed,
        }
    }
}

/// What the driver must do before the next step.
#[derive(Debug)]
pub enum NetAction {
    /// Attempt to connect now.
    Connect,
    /// Sleep [`BACKOFF_MILLIS`], then attempt to connect.
    Backoff,
    /// Read the next frame.
    Read,
    /// Hand the decoded record to the consumer, then read the next frame.
    Deliver(WireRecord),
    /// Surface the fatal condition to the consumer, exactly once.
    SignalFatal,
    /// Terminal: do nothing further.
    Idle,
}

/// The mathematical value of a [`NetAction`].
pub enum ActionModel {
    Connect,
    Backoff,
    Read,
    Deliver(RecordModel),
    SignalFatal,
    Idle,
}

impl View for NetAction {
    type V = ActionModel;

    open spec fn view(&self) -> ActionModel {
        match self {
            NetAction::Connect => ActionModel::Connect,
            NetAction::Backoff => ActionModel::Backoff,
            NetAction::Read => ActionModel::Read,
            NetAction::Deliver(rec) => ActionModel::Deliver(rec@),
            NetAction::SignalFatal => ActionModel::SignalFatal,
            NetAction::Idle => ActionModel::Idle,
        }
    }
}

/// The transition relation, in full. In words:
/// - `Stopped` absorbs every event and asks for nothing.
/// - Disconnected: a successful connect enters `Connected`; a failed connect
///   increments the failure counter and backs off, and the attempt after
///   [`MAX_CONSECUTIVE_FAILURES`] consecutive failures stops the machine; a
///   stale read event changes nothing and the driver is asked to connect.
/// - Connected: an empty read (clean close) or a read error stops the
///   machine at once; a read of the exact frame length is decoded, a
///   well-formed frame is delivered and a malformed one skipped; a read of
///   any other nonzero length is skipped; a stale connect event changes
///   nothing and the driver is asked to read.
pub open spec fn spec_step(s: ConnectionState, e: EventModel) -> (ConnectionState, ActionModel) {
    match s {
        ConnectionState::Stopped => (ConnectionState::Stopped, ActionModel::Idle),
        ConnectionState::Disconnected { fail_count } => match e {
            EventModel::ConnectSucceeded => (ConnectionState::Connected, ActionModel::Read),
            EventModel::ConnectFailed => if fail_count >= MAX_CONSECUTIVE_FAILURES {
                (ConnectionState::Stopped, ActionModel::SignalFatal)
            } else {
                (
                    ConnectionState::Disconnected { fail_count: (fail_count + 1) as u8 },
                    ActionModel::Backoff,
                )
            },
            _ => (ConnectionState::Disconnected { fail_count }, ActionModel::Connect),
        },
        ConnectionState::Connected => match e {
            EventModel::ReadReturned(bytes) => if bytes.len() == 0 {
                (ConnectionState::Stopped, ActionModel::SignalFatal)
            } else if bytes.len() != ENCODED_LEN {
                (ConnectionState::Connected, ActionModel::Read)
            } else {
                match spec_decode(bytes) {
                    Ok(m) => (ConnectionState::Connected, ActionModel::Deliver(m)),
                    Err(_) => (ConnectionState::Connected, ActionModel::Read),
                }
            },
            EventModel::ReadFailed => (ConnectionState::Stopped, ActionModel::SignalFatal),
            _ => (ConnectionState::Connected, ActionModel::Read),
        },
    }
}

/// One step of the machine: exactly the transition that [`spec_step`] gives
/// for the current state and the observed event.
pub fn step(s: ConnectionState, e: NetEvent) -> (r: (ConnectionState, NetAction))
    ensures
        r.0 == spec_step(s, e@).0,
        r.1@ == spec_step(s, e@).1,
{
    match s {
        ConnectionState::Stopped => (ConnectionState::Stopped, NetAction::Idle),
        ConnectionState::Disconnected { fail_count } => match e {
            NetEvent::ConnectSucceeded => (ConnectionState::Connected, NetAction::Read),
            NetEvent::ConnectFailed => {
                if fail_count >= MAX_CONSECUTIVE_FAILURES {
                    (ConnectionState::Stopped, NetAction::SignalFatal)
                } else {
                    (
                        ConnectionState::Disconnected { fail_count: fail_count + 1 },
                        NetAction::Backoff,
                    )
                }
            }
            _ => (ConnectionState::Disconnected { fail_count }, NetAction::Connect),
        },
        ConnectionState::Connected => match e {
            NetEvent::ReadReturned(bytes) => {
                if bytes.len() == 0 {
                    (ConnectionState::Stopped, NetAction::SignalFatal)
                } else if bytes.len() != ENCODED_LEN {
                    (ConnectionState::Connected, NetAction::Read)
                } else {
                    match decode(bytes.as_slice()) {
                        Ok(rec) => (ConnectionState::Connected, NetAction::Deliver(rec)),
                        Err(_) => (ConnectionState::Connected, NetAction::Read),
                    }
                }
            }
            NetEvent::ReadFailed => (ConnectionState::Stopped, NetAction::SignalFatal),
            _ => (ConnectionState::Connected, NetAction::Read),
        },
    }
}

/// The state a fresh client is started in.
pub fn initial_state() -> (s: ConnectionState)
    ensures
        s == (ConnectionState::Disconnected { fail_count: 0u8 }),
{
    ConnectionState::Disconnected { fail_count: 0 }
}

/// The state after `k` connect failures in a row from a fresh start, with no
/// other event in between.
pub open spec fn after_failures(k: nat) -> ConnectionState
    decreases k,
{
    if k == 0 {
        ConnectionState::Disconnected { fail_count: 0 }
    } else {
        spec_step(after_failures((k - 1) as nat), EventModel::ConnectFailed).0
    }
}

/// Backoff termination: a client that never succeeds in connecting backs off
/// through exactly [`MAX_CONSECUTIVE_FAILURES`] retries, counts each failure,
/// and the very next failure leaves it `Stopped`, where it stays.
pub proof fn lemma_backoff_termination(k: nat)
    ensures
        k <= MAX_CONSECUTIVE_FAILURES ==> after_failures(k) == (ConnectionState::Disconnected {
            fail_count: k as u8,
        }),
        k > MAX_CONSECUTIVE_FAILURES ==> after_failures(k) == ConnectionState::Stopped,
    decreases k,
{
    if k > 0 {
        lemma_backoff_termination((k - 1) as nat);
    }
}

/// `Stopped` is absorbing: no event leads out of it, and the only action it
/// ever asks of the driver is to do nothing — in particular, no further
/// connect attempt and no further read.
pub proof fn lemma_stopped_absorbing(e: EventModel)
    ensures
        spec_step(ConnectionState::Stopped, e) == (
            ConnectionState::Stopped,
            ActionModel::Idle,
        ),
{
}

/// The fatal condition is signalled exactly once: a step asks for the fatal
/// signal exactly when it is the step that enters `Stopped`.
pub proof fn lemma_fatal_signalled_once(s: ConnectionState, e: EventModel)
    ensures
        spec_step(s, e).1 == ActionModel::SignalFatal <==> (s != ConnectionState::Stopped
            && spec_step(s, e).0 == ConnectionState::Stopped),
{
}

/// What the listener stream publishes to its consumer each iteration.
#[derive(Clone, Debug)]
pub enum Message {
    /// A well-formed frame arrived.
    NewSnapshot(WireRecord),
    /// The machine stopped; the consumer must treat this as fatal.
    Stop,
    /// Nothing for the consumer this iteration.
    NoAction,
}

/// The message a driver publishes after performing an action: a delivered
/// record becomes a snapshot message, the fatal signal becomes a stop
/// message, everything else is internal to the driver.
pub fn message_for_action(a: NetAction) -> (m: Message)
    ensures
        match a@ {
            ActionModel::Deliver(rec) => m matches Message::NewSnapshot(r) && r@ == rec,
            ActionModel::SignalFatal => m == Message::Stop,
            _ => m == Message::NoAction,
        },
{
    match a {
        NetAction::Deliver(rec) => Message::NewSnapshot(rec),
        NetAction::SignalFatal => Message::Stop,
        _ => Message::NoAction,
    }
}

/// What a driver of the panel simulator needs to start its listener.
#[derive(Clone, Debug)]
pub struct SimRefBoxAppFlags {
    pub tcp_port: u16,
}

} // verus!
