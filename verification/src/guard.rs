//! The exclusive-access discipline around one backend channel: at most one
//! RPC in flight at a time, and waiters served strictly in arrival order.
//! The waiting itself happens in the server runtime outside; this is the
//! bookkeeping that runtime must follow.

use vstd::prelude::*;

verus! {

/// The guard state of one backend channel. Arrivals take a ticket; a call
/// may start only when the channel is idle and the ticket is the oldest
/// outstanding one, so calls to one backend neither overlap nor overtake
/// each other.
pub struct ChannelGuard {
    pub next_ticket: u64,
    pub next_to_serve: u64,
    pub busy: bool,
}

impl ChannelGuard {
    /// Tickets are issued before they are served; when idle, every issued
    /// ticket has been served.
    pub open spec fn wf(&self) -> bool {
        if self.busy {
            self.next_to_serve < self.next_ticket
        } else {
            self.next_to_serve <= self.next_ticket
        }
    }

    pub fn new() -> (r: ChannelGuard)
        ensures
            r.next_ticket == 0,
            r.next_to_serve == 0,
            !r.busy,
            r.wf(),
    {
        ChannelGuard { next_ticket: 0, next_to_serve: 0, busy: false }
    }

    /// One request arrives and takes the next ticket.
    pub fn arrive(&mut self) -> (ticket: u64)
        requires
            old(self).wf(),
            old(self).next_ticket < u64::MAX,
        ensures
            ticket == old(self).next_ticket,
            final(self).next_ticket == old(self).next_ticket + 1,
            final(self).next_to_serve == old(self).next_to_serve,
            final(self).busy == old(self).busy,
            final(self).wf(),
    {
        let ticket = self.next_ticket;
        self.next_ticket = self.next_ticket + 1;
        ticket
    }

    /// Whether the holder of `ticket` may start its call now: the channel
    /// is idle and every earlier arrival has finished.
    pub fn may_start(&self, ticket: u64) -> (r: bool)
        ensures
            r == (!self.busy && ticket == self.next_to_serve),
    {
        !self.busy && ticket == self.next_to_serve
    }

    /// The holder of `ticket` starts its call; no other call is in flight,
    /// and no later arrival has gone first.
    pub fn start(&mut self, ticket: u64)
        requires
            old(self).wf(),
            !old(self).busy,
            ticket == old(self).next_to_serve,
            old(self).next_to_serve < old(self).next_ticket,
        ensures
            final(self).busy,
            final(self).next_to_serve == old(self).next_to_serve,
            final(self).next_ticket == old(self).next_ticket,
            final(self).wf(),
    {
        self.busy = true;
    }

    /// The in-flight call finishes; the next arrival becomes eligible.
    pub fn finish(&mut self)
        requires
            old(self).wf(),
            old(self).busy,
        ensures
            !final(self).busy,
            final(self).next_to_serve == old(self).next_to_serve + 1,
            final(self).next_ticket == old(self).next_ticket,
            final(self).wf(),
    {
        self.busy = false;
        self.next_to_serve = self.next_to_serve + 1;
    }
}

/// Law: the guard serves one backend's requests in submission order — a
/// ticket can only start once every earlier ticket has finished, so a
/// later arrival never starts before an earlier one.
pub proof fn lemma_fifo_no_overtaking(g: ChannelGuard, earlier: u64, later: u64)
    requires
        g.wf(),
        earlier < later,
        !g.busy && later == g.next_to_serve,
    ensures
        earlier < g.next_to_serve,
{
}

} // verus!
