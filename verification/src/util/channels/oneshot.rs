use std::sync::Arc;
use vstd::prelude::*;
use vstd::rwlock::{RwLock, WriteHandle};

verus! {

/// The slot of a one-shot channel: empty until a value is sent, and empty
/// again once the value has been taken.
pub struct Channel<T> {
    init: bool,
    val: Option<T>,
}

impl<T> Channel<T> {
    /// Whether a value has been sent.
    pub closed spec fn is_sent(self) -> bool {
        self.init
    }

    /// The value that waits to be taken.
    pub closed spec fn pending(self) -> Option<T> {
        self.val
    }

    /// A channel with nothing sent.
    pub fn new() -> (r: Self)
        ensures
            !r.is_sent(),
            r.pending() is None,
    {
        Channel { init: false, val: None }
    }

    /// Takes the sent value, if one was sent and not yet taken.
    pub fn try_recv(&mut self) -> (r: Option<T>)
        ensures
            r == (if old(self).is_sent() { old(self).pending() } else { None }),
            final(self).is_sent() == old(self).is_sent(),
            final(self).is_sent() ==> final(self).pending() is None,
            !final(self).is_sent() ==> final(self).pending() == old(self).pending(),
    {
        if self.init {
            self.val.take()
        } else {
            None
        }
    }

    /// Stores `x` for the receiver; any value not yet taken is replaced.
    pub fn send(&mut self, x: T)
        ensures
            final(self).is_sent(),
            final(self).pending() == Some(x),
    {
        let mut val = Some(x);
        std::mem::swap(&mut self.val, &mut val);
        self.init = true;
    }
}

/// The lock that the two ends of a one-shot channel share; any channel state
/// may be stored in it.
pub type SharedChannel<T> = Arc<RwLock<Channel<T>, spec_fn(Channel<T>) -> bool>>;

/// What taking the value gives on the channel state `c`: the pending value
/// once one was sent, else nothing.
pub open spec fn taken_from<T>(c: Channel<T>) -> Option<T> {
    if c.is_sent() {
        c.pending()
    } else {
        None
    }
}

/// `r` is what taking the value gives on a channel state that a write
/// access to the shared lock `shared` handed out.
pub closed spec fn received_under_lock<T>(shared: SharedChannel<T>, r: Option<T>) -> bool {
    exists|c: Channel<T>, h: WriteHandle<'_, Channel<T>, spec_fn(Channel<T>) -> bool>|
        #[trigger] call_ensures(
            RwLock::<Channel<T>, spec_fn(Channel<T>) -> bool>::acquire_write,
            (&*shared,),
            (c, h),
        ) && r == taken_from(c)
}

/// A write access to the shared lock `shared` handed out some channel state,
/// and the state written back under it is `x` sent: `is_sent`, with `x`
/// pending.
pub closed spec fn sent_under_lock<T>(shared: SharedChannel<T>, x: T) -> bool {
    exists|c: Channel<T>, h: WriteHandle<'_, Channel<T>, spec_fn(Channel<T>) -> bool>, written: Channel<T>|
        #[trigger] call_ensures(
            RwLock::<Channel<T>, spec_fn(Channel<T>) -> bool>::acquire_write,
            (&*shared,),
            (c, h),
        ) && #[trigger] call_ensures(
            WriteHandle::<'_, Channel<T>, spec_fn(Channel<T>) -> bool>::release_write,
            (h, written),
            (),
        ) && written.is_sent() && written.pending() == Some(x)
}

/// The sending end of a one-shot channel; sending consumes it.
#[verifier::reject_recursive_types(T)]
pub struct Sender<T> {
    inner: SharedChannel<T>,
}

impl<T> Sender<T> {
    /// Any channel state may be stored in the shared lock.
    #[verifier::type_invariant]
    spec fn wf(self) -> bool {
        forall|c: Channel<T>| #[trigger] self.inner.inv(c)
    }

    /// A sender on the shared channel `inner`.
    pub(crate) fn new(inner: SharedChannel<T>) -> (r: Self)
        requires
            forall|c: Channel<T>| #[trigger] inner.inv(c),
        ensures
            r.shared() == inner,
    {
        Sender { inner }
    }

    /// The channel this sender sends on.
    pub closed spec fn shared(self) -> SharedChannel<T> {
        self.inner
    }

    /// Sends `x`; the sender is used up, so a second send cannot happen.
    pub fn send(self, x: T)
        ensures
            sent_under_lock(self.shared(), x),
    {
        proof {
            use_type_invariant(&self);
        }
        let acquired = self.inner.acquire_write();
        let ghost read = acquired;
        let (mut channel, handle) = acquired;
        channel.send(x);
        handle.release_write(channel);
        assert(read == (read.0, read.1));
        assert(sent_under_lock(self.inner, x));
    }
}

/// The receiving end of a one-shot channel.
#[verifier::reject_recursive_types(T)]
pub struct Receiver<T> {
    inner: SharedChannel<T>,
    taken: bool,
}

impl<T> Receiver<T> {
    /// Any channel state may be stored in the shared lock.
    #[verifier::type_invariant]
    spec fn wf(self) -> bool {
        forall|c: Channel<T>| #[trigger] self.inner.inv(c)
    }

    /// A receiver on the shared channel `inner`, with nothing received yet.
    pub(crate) fn new(inner: SharedChannel<T>) -> (r: Self)
        requires
            forall|c: Channel<T>| #[trigger] inner.inv(c),
        ensures
            r.shared() == inner,
            !r.is_taken(),
    {
        Receiver { inner, taken: false }
    }

    /// The channel this receiver receives from.
    pub closed spec fn shared(self) -> SharedChannel<T> {
        self.inner
    }

    /// Whether the value has already been received.
    pub closed spec fn is_taken(self) -> bool {
        self.taken
    }

    /// Takes the value if it has been sent. It must not be called once the
    /// value has been received.
    pub fn try_recv(&mut self) -> (r: Option<T>)
        requires
            !old(self).is_taken(),
        ensures
            final(self).is_taken() <==> r is Some,
            final(self).shared() == old(self).shared(),
            received_under_lock(old(self).shared(), r),
    {
        proof {
            use_type_invariant(&*self);
        }
        let acquired = self.inner.acquire_write();
        let ghost read = acquired;
        let (mut channel, handle) = acquired;
        let r = channel.try_recv();
        assert(r == taken_from(read.0));
        assert(received_under_lock(self.inner, r));
        handle.release_write(channel);
        match r {
            None => None,
            Some(x) => {
                self.taken = true;
                Some(x)
            },
        }
    }
}

/// Both ends of a new one-shot channel.
pub fn channel<T>() -> (r: (Sender<T>, Receiver<T>))
    ensures
        r.0.shared() == r.1.shared(),
        !r.1.is_taken(),
{
    let lock = RwLock::new(Channel::new(), Ghost(|c: Channel<T>| true));
    assert(forall|c: Channel<T>| #[trigger] lock.inv(c));
    let channel = Arc::new(lock);
    (Sender::new(channel.clone()), Receiver::new(channel))
}

} // verus!
