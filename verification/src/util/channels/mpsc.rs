use crossbeam::channel::Receiver as ChannelReceiver;
use crossbeam::channel::Sender as ChannelSender;
use crossbeam::channel::{TryRecvError, TrySendError};
use vstd::prelude::*;

verus! {

/// crossbeam's sending half of a channel, carried through opaquely.
#[verifier::external_type_specification]
#[verifier::external_body]
#[verifier::reject_recursive_types(T)]
pub struct ExChannelSender<T>(ChannelSender<T>);

/// crossbeam's receiving half of a channel, carried through opaquely.
#[verifier::external_type_specification]
#[verifier::external_body]
#[verifier::reject_recursive_types(T)]
pub struct ExChannelReceiver<T>(ChannelReceiver<T>);

/// crossbeam's error of a failed `try_recv`.
#[verifier::external_type_specification]
#[verifier::external_body]
pub struct ExTryRecvError(TryRecvError);

/// `Clone` of crossbeam's sender: another handle on the same channel. Nothing
/// is claimed of it.
pub assume_specification<T>[<ChannelSender<T> as std::clone::Clone>::clone](sender: &ChannelSender<T>) -> ChannelSender<T>;

/// Calls `crossbeam::channel::unbounded`: both halves of a new channel.
/// Nothing is claimed of them; callers tie their results to this call.
#[verifier::external_body]
fn channel_unbounded<T>() -> (ChannelSender<T>, ChannelReceiver<T>) {
    crossbeam::channel::unbounded()
}

/// Calls `crossbeam::channel::Sender::try_send`, with the message of either
/// error variant (`Full`, `Disconnected`) moved out. Whether the message is
/// accepted depends on the other threads, so that is not claimed; what is
/// claimed is that a refused message is the one that was passed, as each of
/// crossbeam's channel flavors hands it back.
#[verifier::external_body]
fn channel_try_send<T>(sender: &ChannelSender<T>, msg: T) -> (r: Result<(), T>)
    ensures
        r matches Err(m) ==> m == msg,
{
    match sender.try_send(msg) {
        Ok(()) => Ok(()),
        Err(TrySendError::Full(m)) => Err(m),
        Err(TrySendError::Disconnected(m)) => Err(m),
    }
}

/// Calls `crossbeam::channel::Receiver::try_recv`. Whether a message is
/// waiting depends on the other threads, so nothing is claimed.
#[verifier::external_body]
fn channel_try_recv<T>(receiver: &ChannelReceiver<T>) -> Result<T, TryRecvError> {
    receiver.try_recv()
}

/// `halves` are what a call of crossbeam's `unbounded` created.
/// It names an outcome of that call and says nothing more of its value
/// than the wrapper's own `ensures` does.
pub closed spec fn created_by_unbounded<T>(halves: (ChannelSender<T>, ChannelReceiver<T>)) -> bool {
    call_ensures(channel_unbounded::<T>, (), halves)
}

/// `r` is what a call of crossbeam's `try_send` of `msg` on `sender` gave,
/// with a refused message moved out of its error.
/// It names an outcome of that call and says nothing more of its value
/// than the wrapper's own `ensures` does.
pub closed spec fn try_sent_by<T>(sender: ChannelSender<T>, msg: T, r: Result<(), T>) -> bool {
    call_ensures(channel_try_send::<T>, (&sender, msg), r)
}

/// `res` is what a call of crossbeam's `try_recv` on `receiver` gave.
/// It names an outcome of that call and says nothing more of its value
/// than the wrapper's own `ensures` does.
pub closed spec fn received_by<T>(receiver: ChannelReceiver<T>, res: Result<T, TryRecvError>) -> bool {
    call_ensures(channel_try_recv::<T>, (&receiver,), res)
}

/// The sending end of a multi-producer, single-consumer channel.
#[derive(Clone)]
#[verifier::reject_recursive_types(T)]
pub struct Sender<T>(ChannelSender<T>);

impl<T> Sender<T> {
    /// Wraps a crossbeam sender.
    pub fn new(sender: ChannelSender<T>) -> (r: Self)
        ensures
            r.inner() == sender,
    {
        Sender(sender)
    }

    /// The crossbeam sender that this one wraps.
    pub closed spec fn inner(self) -> ChannelSender<T> {
        self.0
    }

    /// Sends `x` without waiting; when the channel does not take it, `x`
    /// comes back in the error. The outcome is the one crossbeam's
    /// `try_send` gave for `x`.
    pub fn try_send(&self, x: T) -> (r: Result<(), T>)
        ensures
            try_sent_by(self.inner(), x, r),
            r matches Err(y) ==> y == x,
    {
        let res = channel_try_send(&self.0, x);
        assert(try_sent_by(self.inner(), x, res));
        res
    }
}

/// The receiving end of a multi-producer, single-consumer channel.
#[verifier::reject_recursive_types(T)]
pub struct Receiver<T>(ChannelReceiver<T>);

impl<T> Receiver<T> {
    /// Wraps a crossbeam receiver.
    pub fn new(receiver: ChannelReceiver<T>) -> (r: Self)
        ensures
            r.inner() == receiver,
    {
        Receiver(receiver)
    }

    /// The crossbeam receiver that this one wraps.
    pub closed spec fn inner(self) -> ChannelReceiver<T> {
        self.0
    }

    /// The next message, if one is waiting: the message that crossbeam's
    /// `try_recv` handed out, or nothing when it reported an error.
    pub fn try_recv(&self) -> (r: Option<T>)
        ensures
            exists|res: Result<T, TryRecvError>|
                #[trigger] received_by(self.inner(), res) && r == (match res {
                    Ok(x) => Some(x),
                    Err(_) => None,
                }),
    {
        let res = channel_try_recv(&self.0);
        assert(received_by(self.inner(), res));
        match res {
            Ok(x) => Some(x),
            Err(_) => None,
        }
    }
}

/// Both ends of a new, unbounded channel: the two halves of one channel
/// that crossbeam's `unbounded` created.
pub fn unbounded<T>() -> (r: (Sender<T>, Receiver<T>))
    ensures
        exists|halves: (ChannelSender<T>, ChannelReceiver<T>)|
            #[trigger] created_by_unbounded(halves) && r.0.inner() == halves.0
                && r.1.inner() == halves.1,
{
    let halves = channel_unbounded();
    assert(created_by_unbounded(halves));
    let (s, r) = halves;
    (Sender::new(s), Receiver::new(r))
}

} // verus!
