//! Tickets: generation ids for folder loads, and the consumer's gate.
//!
//! Every folder load is issued a ticket before it emits anything, and tags
//! every event with it. Tickets strictly increase, so a consumer that keeps
//! the newest ticket it has accepted can discard every event of a superseded
//! load — the joint contract of monotonic issuance here and a disciplined
//! consumer, which [`TicketGate`] implements.

use vstd::prelude::*;

use crate::loader::FilesOp;

verus! {

/// The issuer of folder-load tickets. The application keeps one, shared with
/// its load tasks, so successive loads — of the same location in particular —
/// always carry strictly increasing tickets.
pub struct Tickets {
    /// The ticket the next issuance returns.
    pub next: u64,
}

impl Tickets {
    /// The ticket issuance returns: the current counter.
    pub open spec fn issue_val(self) -> u64 {
        self.next
    }

    /// The issuer state after one issuance.
    pub open spec fn issue_next(self) -> Tickets {
        Tickets { next: (self.next + 1) as u64 }
    }

    /// A fresh issuer, starting at ticket zero.
    pub fn new() -> (r: Tickets)
        ensures
            r.next == 0,
    {
        Tickets { next: 0 }
    }

    /// Issue the ticket for one folder load.
    pub fn issue(&mut self) -> (t: u64)
        requires
            old(self).next < u64::MAX,
        ensures
            t == old(self).issue_val(),
            *final(self) == old(self).issue_next(),
    {
        let t = self.next;
        self.next = self.next + 1;
        t
    }
}

/// Ticket isolation: two successive issuances hand out strictly increasing
/// tickets, so the events of a load never share a ticket with those of the
/// load that superseded it.
pub proof fn lemma_tickets_strictly_increase(t: Tickets)
    requires
        t.next < u64::MAX,
    ensures
        t.issue_val() < t.issue_next().issue_val(),
{
}

/// The disciplined consumer of folder-load events: it keeps the newest
/// ticket it has accepted and discards every event of an older generation.
pub struct TicketGate {
    /// The newest ticket accepted so far, if any event was accepted yet.
    pub latest: Option<u64>,
}

impl TicketGate {
    /// Whether a gate that has accepted up to `latest` keeps an event with
    /// ticket `t`: everything of the newest known generation or later passes,
    /// older generations are discarded.
    pub open spec fn keeps(latest: Option<u64>, t: u64) -> bool {
        match latest {
            Some(newest) => newest <= t,
            None => true,
        }
    }

    /// Successor gate: `latest` advances to `t` when the event passes, else unchanged.
    pub open spec fn accept_next(self, t: u64) -> TicketGate {
        if TicketGate::keeps(self.latest, t) {
            TicketGate { latest: Some(t) }
        } else {
            self
        }
    }

    /// A fresh gate: nothing accepted yet, so the first event passes.
    pub fn new() -> (r: TicketGate)
        ensures
            r.latest is None,
    {
        TicketGate { latest: None }
    }

    /// Judge one folder-load event: true iff its ticket is no older than the
    /// newest accepted one, in which case it becomes the newest.
    pub fn accept(&mut self, op: &FilesOp) -> (keep: bool)
        ensures
            keep == TicketGate::keeps(old(self).latest, op.ticket_of()),
            *final(self) == old(self).accept_next(op.ticket_of()),
    {
        let t = op.ticket();
        let keep = match self.latest {
            Some(newest) => newest <= t,
            None => true,
        };
        if keep {
            self.latest = Some(t);
        }
        keep
    }
}

/// An old load's events never pass a gate that has seen a newer load.
pub proof fn lemma_stale_ticket_discarded(g: TicketGate, t_new: u64, t_old: u64)
    requires
        TicketGate::keeps(g.latest, t_new),
        t_old < t_new,
    ensures
        !TicketGate::keeps(g.accept_next(t_new).latest, t_old),
{
}

} // verus!
