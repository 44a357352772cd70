use vstd::prelude::*;
use std::collections::VecDeque;
use crate::event::ServiceEvent;

verus! {

/// The channel after `e` is sent: `e` joins the end.
pub open spec fn after_send<T, I>(q: Seq<ServiceEvent<T, I>>, e: ServiceEvent<T, I>) -> Seq<ServiceEvent<T, I>> {
    q.push(e)
}

/// The channel after each of `es` is sent, in order.
pub open spec fn after_sends<T, I>(q: Seq<ServiceEvent<T, I>>, es: Seq<ServiceEvent<T, I>>) -> Seq<
    ServiceEvent<T, I>,
>
    decreases es.len(),
{
    if es.len() == 0 {
        q
    } else {
        after_sends(after_send(q, es[0]), es.drop_first())
    }
}

/// What one receive yields: the oldest event, if there is one.
pub open spec fn received<T, I>(q: Seq<ServiceEvent<T, I>>) -> Option<ServiceEvent<T, I>> {
    if q.len() == 0 {
        None
    } else {
        Some(q[0])
    }
}

/// The channel after one receive: the oldest event, if any, is gone.
pub open spec fn after_recv<T, I>(q: Seq<ServiceEvent<T, I>>) -> Seq<ServiceEvent<T, I>> {
    if q.len() == 0 {
        q
    } else {
        q.drop_first()
    }
}

/// What `n` receives in a row yield, in order.
pub open spec fn receive_n<T, I>(q: Seq<ServiceEvent<T, I>>, n: nat) -> Seq<Option<ServiceEvent<T, I>>>
    decreases n,
{
    if n == 0 {
        Seq::empty()
    } else {
        seq![received(q)] + receive_n(after_recv(q), (n - 1) as nat)
    }
}

/// The channel after `n` receives in a row.
pub open spec fn after_recvs<T, I>(q: Seq<ServiceEvent<T, I>>, n: nat) -> Seq<ServiceEvent<T, I>>
    decreases n,
{
    if n == 0 {
        q
    } else {
        after_recvs(after_recv(q), (n - 1) as nat)
    }
}

/// The unbounded, ordered channel that carries events from the control
/// handler to the service's main function. It is held by one producer and
/// one consumer; the caller provides the locking and the waiting.
pub struct EventQueue<T, I = u32> {
    events: VecDeque<ServiceEvent<T, I>>,
}

impl<T, I> View for EventQueue<T, I> {
    type V = Seq<ServiceEvent<T, I>>;

    closed spec fn view(&self) -> Seq<ServiceEvent<T, I>> {
        self.events@
    }
}

impl<T, I> EventQueue<T, I> {
    /// An empty channel.
    pub fn new() -> (r: EventQueue<T, I>)
        ensures
            r@ == Seq::<ServiceEvent<T, I>>::empty(),
    {
        EventQueue { events: VecDeque::new() }
    }

    /// Sends `e`; it is received after every event sent before it.
    pub fn send(&mut self, e: ServiceEvent<T, I>)
        ensures
            final(self)@ == after_send(old(self)@, e),
    {
        self.events.push_back(e);
    }

    /// Receives the oldest event that has not been received, if any.
    pub fn recv(&mut self) -> (r: Option<ServiceEvent<T, I>>)
        ensures
            r == received(old(self)@),
            final(self)@ == after_recv(old(self)@),
    {
        self.events.pop_front()
    }

    /// Sends each of `es`, in order.
    pub fn send_all(&mut self, es: Vec<ServiceEvent<T, I>>)
        ensures
            final(self)@ == after_sends(old(self)@, es@),
    {
        let ghost orig = es@;
        let mut es = es;
        let total: usize = es.len();
        let mut k: usize = 0;
        proof { lemma_after_sends(old(self)@, orig); }
        while es.len() > 0
            invariant
                k <= orig.len(),
                orig.len() == total,
                es@ == orig.skip(k as int),
                self@ == old(self)@ + orig.take(k as int),
                after_sends(old(self)@, orig) == old(self)@ + orig,
            decreases es@.len(),
        {
            let e = es.remove(0);
            self.send(e);
            proof {
                assert(orig.take(k as int + 1) =~= orig.take(k as int).push(orig[k as int]));
                assert(orig.skip(k as int + 1) =~= orig.skip(k as int).drop_first());
            }
            k = k + 1;
        }
        assert(orig.take(k as int) =~= orig);
    }

    /// Receives `n` times in a row: what each receive yields, in order.
    pub fn recv_n(&mut self, n: usize) -> (r: Vec<Option<ServiceEvent<T, I>>>)
        ensures
            r@ == receive_n(old(self)@, n as nat),
            final(self)@ == after_recvs(old(self)@, n as nat),
    {
        let mut out: Vec<Option<ServiceEvent<T, I>>> = Vec::new();
        let mut i: usize = 0;
        while i < n
            invariant
                i <= n,
                out@ == receive_n(old(self)@, i as nat),
                self@ == after_recvs(old(self)@, i as nat),
            decreases n - i,
        {
            proof { lemma_receive_step(old(self)@, i as nat); }
            let e = self.recv();
            out.push(e);
            i = i + 1;
        }
        out
    }

    /// The number of events waiting.
    pub fn len(&self) -> (r: usize)
        ensures
            r == self@.len(),
    {
        self.events.len()
    }

    /// Whether no event is waiting.
    pub fn is_empty(&self) -> (r: bool)
        ensures
            r == (self@.len() == 0),
    {
        self.events.len() == 0
    }
}

/// One more receive yields what is at the front after the earlier ones.
pub proof fn lemma_receive_step<T, I>(q: Seq<ServiceEvent<T, I>>, i: nat)
    ensures
        receive_n(q, i + 1) == receive_n(q, i).push(received(after_recvs(q, i))),
        after_recvs(q, i + 1) == after_recv(after_recvs(q, i)),
    decreases i,
{
    reveal_with_fuel(receive_n, 2);
    reveal_with_fuel(after_recvs, 2);
    if i > 0 {
        lemma_receive_step(after_recv(q), (i - 1) as nat);
        assert(receive_n(q, i + 1) =~= receive_n(q, i).push(received(after_recvs(q, i))));
    } else {
        assert(receive_n(q, 1) =~= seq![received(q)]);
    }
}

/// Sending adds to the end of what is waiting.
pub proof fn lemma_after_sends<T, I>(q: Seq<ServiceEvent<T, I>>, es: Seq<ServiceEvent<T, I>>)
    ensures
        after_sends(q, es) == q + es,
    decreases es.len(),
{
    if es.len() > 0 {
        lemma_after_sends(q.push(es[0]), es.drop_first());
        assert(q.push(es[0]) + es.drop_first() =~= q + es);
    }
}

/// Receiving as many times as events wait yields them all, oldest first,
/// and leaves the channel empty.
pub proof fn lemma_receive_all<T, I>(q: Seq<ServiceEvent<T, I>>)
    ensures
        receive_n(q, q.len()) == q.map_values(|e: ServiceEvent<T, I>| Some(e)),
        after_recvs(q, q.len()) == Seq::<ServiceEvent<T, I>>::empty(),
    decreases q.len(),
{
    if q.len() == 0 {
        assert(q.map_values(|e: ServiceEvent<T, I>| Some(e)) =~= Seq::<Option<ServiceEvent<T, I>>>::empty());
    } else {
        let rest = q.drop_first();
        lemma_receive_all(rest);
        assert(after_recv(q) == rest);
        assert(q.map_values(|e: ServiceEvent<T, I>| Some(e)) =~= seq![Some(q[0])] + rest.map_values(
            |e: ServiceEvent<T, I>| Some(e),
        ));
    }
}

/// Events sent on an empty channel, in any order, are received in exactly
/// that order, none missing, and nothing further is received after them;
/// `EventQueue::send_all` and `EventQueue::recv_n` are specified by the
/// functions this speaks of.
pub proof fn lemma_events_received_in_send_order<T, I>(sent: Seq<ServiceEvent<T, I>>)
    ensures
        receive_n(after_sends(Seq::empty(), sent), sent.len()) == sent.map_values(
            |e: ServiceEvent<T, I>| Some(e),
        ),
        received(after_recvs(after_sends(Seq::empty(), sent), sent.len())) is None,
{
    lemma_after_sends(Seq::<ServiceEvent<T, I>>::empty(), sent);
    assert(Seq::<ServiceEvent<T, I>>::empty() + sent =~= sent);
    lemma_receive_all(sent);
}

} // verus!
