//! The command bus: a typed request/response queue per device.
//!
//! Any number of producers enqueue a request paired one-to-one with a
//! single-use reply channel; one consumer dequeues in arrival order, runs
//! the request through the device arbiter, and replies.  At most one
//! reply is ever sent per command, and if the original caller abandoned
//! its reply channel the result is silently discarded, never treated as
//! an error.

use vstd::prelude::*;
use crate::errors::DeviceError;

verus! {

#[verifier::external_type_specification]
#[verifier::external_body]
#[verifier::reject_recursive_types(T)]
pub struct ExOneshotSender<T>(tokio::sync::oneshot::Sender<T>);

#[verifier::external_type_specification]
#[verifier::external_body]
#[verifier::reject_recursive_types(T)]
pub struct ExOneshotReceiver<T>(tokio::sync::oneshot::Receiver<T>);

#[verifier::external_type_specification]
#[verifier::external_body]
pub struct ExOneshotRecvError(tokio::sync::oneshot::error::RecvError);

/// Relies on tokio::sync::oneshot::channel: it makes a fresh connected
/// sender/receiver pair.  Nothing further is claimed of the two opaque
/// halves.
#[verifier::external_body]
fn oneshot_channel<T>() -> (tokio::sync::oneshot::Sender<T>, tokio::sync::oneshot::Receiver<T>) {
    tokio::sync::oneshot::channel()
}

/// Relies on tokio::sync::oneshot::Sender::send: when the receiver was
/// already dropped, the value comes back unsent in the error; sending
/// itself never blocks and never fails otherwise.
#[verifier::external_body]
fn send_reply<T>(chan: tokio::sync::oneshot::Sender<T>, value: T) -> (r: Result<(), T>)
    ensures
        r matches Err(v) ==> v == value,
{
    chan.send(value)
}

/// One request paired with its single-use reply channel.
#[verifier::reject_recursive_types(Res)]
pub struct Command<Req, Res> {
    request: Req,
    chan: tokio::sync::oneshot::Sender<Result<Res, DeviceError>>,
}

impl<Req, Res> Command<Req, Res> {
    /// The request this command carries.
    pub closed spec fn req(&self) -> Req {
        self.request
    }

    /// Make a command for one request; the caller keeps the receiver and
    /// awaits the reply on it.
    pub fn new(request: Req) -> (r: (
        Command<Req, Res>,
        tokio::sync::oneshot::Receiver<Result<Res, DeviceError>>,
    ))
        ensures
            r.0.req() == request,
    {
        let (sender, receiver) = oneshot_channel();
        (Command { request, chan: sender }, receiver)
    }

    /// Give up the reply channel.
    pub fn channel(self) -> tokio::sync::oneshot::Sender<Result<Res, DeviceError>> {
        self.chan
    }

    /// Look at the request.
    pub fn request(&self) -> (r: &Req)
        ensures
            r == self.req(),
    {
        &self.request
    }

    /// Send the reply.  At most one reply ever goes out per command —
    /// the channel is consumed here — and when the caller abandoned its
    /// receiver the result comes back to be discarded, not an error.
    pub fn respond(self, result: Result<Res, DeviceError>) -> (r: Result<
        (),
        Result<Res, DeviceError>,
    >)
        ensures
            r matches Err(v) ==> v == result,
    {
        send_reply(self.chan, result)
    }

    /// Reply with a success payload.
    pub fn success(self, data: Res) -> (r: Result<(), Result<Res, DeviceError>>)
        ensures
            r matches Err(v) ==> v == Ok::<Res, DeviceError>(data),
    {
        send_reply(self.chan, Ok(data))
    }

    /// Reply with an error.
    pub fn error(self, error: DeviceError) -> (r: Result<(), Result<Res, DeviceError>>)
        ensures
            r matches Err(v) ==> v == Err::<Res, DeviceError>(error),
    {
        send_reply(self.chan, Err(error))
    }
}

/// The queue of one command bus: commands wait here in arrival order
/// until the single consumer takes them.  The capacity is the queue's
/// backpressure bound: a producer whose command is refused must wait,
/// not drop — dropping is the policy of the lossy event broadcasts, and
/// the two must not be conflated.
#[verifier::reject_recursive_types(Res)]
pub struct CommandQueue<Req, Res> {
    items: Vec<Command<Req, Res>>,
    capacity: usize,
}

impl<Req, Res> CommandQueue<Req, Res> {
    /// The waiting commands, oldest first.
    pub closed spec fn pending(&self) -> Seq<Command<Req, Res>> {
        self.items@
    }

    /// The most commands that may wait at once.
    pub closed spec fn capacity(&self) -> usize {
        self.capacity
    }

    /// The waiting requests, oldest first.
    pub open spec fn requests(&self) -> Seq<Req> {
        self.pending().map_values(|c: Command<Req, Res>| c.req())
    }

    /// An empty bus without a practical bound.
    pub fn new() -> (r: CommandQueue<Req, Res>)
        ensures
            r.pending() == Seq::<Command<Req, Res>>::empty(),
            r.capacity() == usize::MAX,
    {
        CommandQueue { items: Vec::new(), capacity: usize::MAX }
    }

    /// An empty bus bounded to the producers' expected burstiness.
    pub fn bounded(capacity: usize) -> (r: CommandQueue<Req, Res>)
        ensures
            r.pending() == Seq::<Command<Req, Res>>::empty(),
            r.capacity() == capacity,
    {
        CommandQueue { items: Vec::new(), capacity }
    }

    /// A producer offers one command: it joins the back of the queue
    /// unless the queue is full, in which case it comes back for the
    /// producer to hold on to until there is room.
    pub fn try_enqueue(&mut self, cmd: Command<Req, Res>) -> (refused: Option<
        Command<Req, Res>,
    >)
        ensures
            old(self).pending().len() < old(self).capacity() ==> refused is None
                && final(self).pending() == old(self).pending().push(cmd),
            old(self).pending().len() >= old(self).capacity() ==> refused == Some(cmd)
                && final(self).pending() == old(self).pending(),
            final(self).capacity() == old(self).capacity(),
    {
        if self.items.len() < self.capacity {
            self.items.push(cmd);
            None
        } else {
            Some(cmd)
        }
    }

    /// How many commands wait.
    pub fn len(&self) -> (r: usize)
        ensures
            r == self.pending().len(),
    {
        self.items.len()
    }

    /// A producer hands in one command; it joins the back of the queue.
    pub fn enqueue(&mut self, cmd: Command<Req, Res>)
        requires
            old(self).pending().len() < old(self).capacity(),
        ensures
            final(self).pending() == old(self).pending().push(cmd),
            final(self).capacity() == old(self).capacity(),
    {
        self.items.push(cmd);
    }

    /// The consumer takes the oldest waiting command, if any.
    pub fn dequeue(&mut self) -> (r: Option<Command<Req, Res>>)
        ensures
            old(self).pending().len() == 0 ==> r is None && final(self).pending() == old(self).pending(),
            old(self).pending().len() > 0 ==> r == Some(old(self).pending()[0])
                && final(self).pending() == old(self).pending().skip(1),
            final(self).capacity() == old(self).capacity(),
    {
        if self.items.len() == 0 {
            None
        } else {
            let cmd = self.items.remove(0);
            proof {
                assert(self.items@ =~= old(self).pending().skip(1));
            }
            Some(cmd)
        }
    }
}

/// What `count` consecutive dequeues take and leave: the front segment in
/// order, and the untouched rest.
pub open spec fn drained<A>(q: Seq<A>, count: nat) -> (Seq<A>, Seq<A>)
    decreases count,
{
    if count == 0 {
        (Seq::empty(), q)
    } else {
        let (taken, rest) = drained(q, (count - 1) as nat);
        if rest.len() > 0 {
            (taken.push(rest[0]), rest.skip(1))
        } else {
            (taken, rest)
        }
    }
}

/// The bus serves strictly in arrival order: however many commands the
/// consumer has taken, they are exactly the oldest ones, in the order
/// they were enqueued, so the replies go out in that same order when each
/// command is answered as it is served.
pub proof fn lemma_served_in_arrival_order<A>(q: Seq<A>, count: nat)
    requires
        count <= q.len(),
    ensures
        drained(q, count) == (q.take(count as int), q.skip(count as int)),
    decreases count,
{
    if count == 0 {
        assert(q.take(0) =~= Seq::<A>::empty());
        assert(q.skip(0) =~= q);
    } else {
        lemma_served_in_arrival_order(q, (count - 1) as nat);
        let rest = q.skip(count - 1);
        assert(rest[0] == q[count - 1]);
        assert(q.take(count - 1).push(q[count - 1]) =~= q.take(count as int));
        assert(rest.skip(1) =~= q.skip(count as int));
    }
}

} // verus!
