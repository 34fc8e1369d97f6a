//! The broadcast stream on which every session's output is published.

use vstd::prelude::*;
use tokio::sync::broadcast::error::SendError;
use tokio::sync::broadcast::{Receiver, Sender};
use crate::terminal::model::{line_record, TerminalOutput};

verus! {

/// The sending half of tokio's broadcast channel, carried as an opaque value.
#[verifier::external_type_specification]
#[verifier::external_body]
#[verifier::reject_recursive_types(T)]
pub struct ExSender<T>(Sender<T>);

/// The receiving half of tokio's broadcast channel, carried as an opaque
/// value.
#[verifier::external_type_specification]
#[verifier::external_body]
#[verifier::reject_recursive_types(T)]
pub struct ExReceiver<T>(Receiver<T>);

/// What tokio's `Sender::send` hands back when nobody listens.
#[verifier::external_type_specification]
#[verifier::external_body]
#[verifier::reject_recursive_types(T)]
pub struct ExSendError<T>(SendError<T>);

/// How many messages the channel of `sender` was made to retain: the
/// capacity that `tokio::sync::broadcast::channel` was called with when the
/// channel was created. The channel itself may retain more, up to the next
/// power of two.
pub uninterp spec fn sender_capacity(sender: Sender<TerminalOutput>) -> nat;

/// How many messages the channel of `receiver` was made to retain, as
/// [`sender_capacity`] says it of a sender.
pub uninterp spec fn receiver_capacity(receiver: Receiver<TerminalOutput>) -> nat;

/// Creates a channel and keeps its sending half.
///
/// Trusted: calls `tokio::sync::broadcast::channel`, which creates a channel
/// that retains up to `capacity` messages, and drops the receiving half, so
/// that the channel starts without a subscriber. The call panics on a capacity
/// of zero or above half of `usize::MAX`, which `requires` leaves out. The
/// contract claims that the channel was made with `capacity`, and nothing of
/// what it holds.
#[verifier::external_body]
fn open_channel(capacity: usize) -> (sender: Sender<TerminalOutput>)
    requires
        0 < capacity <= usize::MAX / 2,
    ensures
        sender_capacity(sender) == capacity,
{
    tokio::sync::broadcast::channel(capacity).0
}

/// Creates a receiver on the channel of `sender`.
///
/// Trusted: calls `Sender::subscribe`, which creates a receiver that shares
/// the channel of the sender and will see the values sent after this call.
/// The contract claims that the receiver is on a channel of the sender's
/// capacity, and nothing of what it will receive. The call panics only on a
/// channel that already has a quarter of `usize::MAX` receivers, which no
/// program can hold.
#[verifier::external_body]
pub(crate) fn subscribe_to(sender: &Sender<TerminalOutput>) -> (receiver: Receiver<TerminalOutput>)
    ensures
        receiver_capacity(receiver) == sender_capacity(*sender),
{
    sender.subscribe()
}

/// Creates another handle on the channel of `sender`.
///
/// Trusted: calls `Sender::clone`, which creates a sender that shares the
/// channel of the first. The contract claims that the handle is on a channel
/// of the same capacity.
#[verifier::external_body]
fn share(sender: &Sender<TerminalOutput>) -> (handle: Sender<TerminalOutput>)
    ensures
        sender_capacity(handle) == sender_capacity(*sender),
{
    sender.clone()
}

/// `Sender::send` queues `value` for every receiver that is subscribed at that
/// moment and never waits for any of them. It succeeds exactly when there is
/// at least one receiver, and then returns how many there are.
pub assume_specification<T>[ Sender::<T>::send ](sender: &Sender<T>, value: T) -> (sent: Result<
    usize,
    SendError<T>,
>)
    ensures
        sent matches Ok(receivers) ==> receivers > 0,
;

/// How many messages the output stream is made to retain for a slow
/// subscriber before the oldest are dropped.
pub const OUTPUT_CAPACITY: usize = 1000;

/// Opens the output stream of a manager: a channel that retains
/// [`OUTPUT_CAPACITY`] messages, with no subscriber yet.
pub(crate) fn open_output_stream() -> (sender: Sender<TerminalOutput>)
    ensures
        sender_capacity(sender) == OUTPUT_CAPACITY,
{
    open_channel(OUTPUT_CAPACITY)
}

/// What the background reader of one session holds: the session's identifier
/// and a handle on the shared output stream.
pub struct OutputPublisher {
    session_id: String,
    sender: Sender<TerminalOutput>,
}

impl OutputPublisher {
    /// The session whose output this publisher tags.
    pub closed spec fn session_id(&self) -> Seq<char> {
        self.session_id@
    }

    /// How many messages the stream that this publisher writes to was made
    /// to retain.
    pub closed spec fn capacity(&self) -> nat {
        sender_capacity(self.sender)
    }

    pub(crate) fn new(session_id: &str, sender: &Sender<TerminalOutput>) -> (publisher: Self)
        ensures
            publisher.session_id() == session_id@,
            publisher.capacity() == sender_capacity(*sender),
    {
        OutputPublisher { session_id: session_id.to_owned(), sender: share(sender) }
    }

    /// Publishes one line that the session's shell wrote, read at `now`, to
    /// every current subscriber, and returns the record that was published.
    /// The call never waits: without a subscriber the record is dropped, and a
    /// subscriber that has fallen behind by more than the stream retains loses
    /// the oldest records.
    pub fn publish_line(&self, content: String, now: u64) -> (record: TerminalOutput)
        ensures
            record@ == line_record(self.session_id(), content@, now),
    {
        let record = TerminalOutput::line(self.session_id.as_str(), content, now);
        let _ = self.sender.send(record.clone());
        record
    }

    /// A new subscriber to the stream this publisher writes to: a receiver
    /// on the same channel, which retains for it what the stream was made to
    /// retain.
    pub fn subscribe(&self) -> (receiver: Receiver<TerminalOutput>)
        ensures
            receiver_capacity(receiver) == self.capacity(),
    {
        subscribe_to(&self.sender)
    }
}

} // verus!
