//! The lease that live recordings hold on the shared engine, so that batch
//! jobs do not swap its model under them.
use vstd::prelude::*;

verus! {

/// Who holds the engine for a live recording. A count, so that several
/// consumers of one recording can each hold it on their own.
pub struct EngineLease {
    pub holders: usize,
}

impl EngineLease {
    /// Whether anybody holds the lease.
    pub open spec fn leased(&self) -> bool {
        self.holders > 0
    }

    /// A lease that nobody holds.
    pub fn new() -> (r: Self)
        ensures
            r.holders == 0,
    {
        EngineLease { holders: 0 }
    }

    /// Takes the lease for one more consumer.
    pub fn acquire_live(&mut self)
        requires
            old(self).holders < usize::MAX,
        ensures
            final(self).holders == old(self).holders + 1,
    {
        self.holders = self.holders + 1;
    }

    /// Gives one hold back. Whether that freed the lease, so that those who
    /// wait for it are to be woken.
    pub fn release(&mut self) -> (wake: bool)
        requires
            old(self).leased(),
        ensures
            final(self).holders == old(self).holders - 1,
            wake == !final(self).leased(),
    {
        self.holders = self.holders - 1;
        self.holders == 0
    }

    /// Whether at least one live consumer holds the lease.
    pub fn is_live_leased(&self) -> (r: bool)
        ensures
            r == self.leased(),
    {
        self.holders > 0
    }
}

/// What a batch job that waits for the lease has come to.
#[derive(Debug, Clone, Copy, PartialEq, Eq, Structural)]
pub enum WaitEvent {
    /// It has only now asked.
    Asked,
    /// It has registered to be woken, so that no release can be missed.
    Registered,
    /// It was woken.
    Woken { past_deadline: bool },
    /// Its time is up.
    TimedOut,
}

/// What it does then.
#[derive(Debug, Clone, Copy, PartialEq, Eq, Structural)]
pub enum WaitStep {
    /// Reports the lease as free.
    Free,
    /// Reports that the lease is still held.
    GaveUp,
    /// Registers to be woken, if it has not, and waits.
    Wait,
}

/// How a wait goes on: it ends as soon as the lease is seen to be free, and
/// when its time is up.
pub open spec fn wait_step(event: WaitEvent, leased: bool) -> WaitStep {
    match event {
        WaitEvent::TimedOut => WaitStep::GaveUp,
        WaitEvent::Woken { past_deadline } => if !leased {
            WaitStep::Free
        } else if past_deadline {
            WaitStep::GaveUp
        } else {
            WaitStep::Wait
        },
        _ => if !leased {
            WaitStep::Free
        } else {
            WaitStep::Wait
        },
    }
}

/// How a wait until the lease is free goes on.
pub fn wait_until_free(event: WaitEvent, lease: &EngineLease) -> (r: WaitStep)
    ensures
        r == wait_step(event, lease.leased()),
{
    match event {
        WaitEvent::TimedOut => WaitStep::GaveUp,
        WaitEvent::Woken { past_deadline } => if !lease.is_live_leased() {
            WaitStep::Free
        } else if past_deadline {
            WaitStep::GaveUp
        } else {
            WaitStep::Wait
        },
        WaitEvent::Asked | WaitEvent::Registered => if !lease.is_live_leased() {
            WaitStep::Free
        } else {
            WaitStep::Wait
        },
    }
}

/// A wait never reports a held lease as free, and never gives up on a free
/// one before its time is up.
pub proof fn waits_are_honest(event: WaitEvent, leased: bool)
    ensures
        wait_step(event, leased) is Free ==> !leased,
        wait_step(event, leased) is GaveUp ==> leased || event is TimedOut,
        wait_step(event, leased) is Wait ==> leased,
{
}

/// The holders after some consumers came and went, each holding on from its
/// arrival (`true`) to its departure (`false`).
pub open spec fn holders_after(start: int, moves: Seq<bool>) -> int
    decreases moves.len(),
{
    if moves.len() == 0 {
        start
    } else {
        holders_after(start, moves.drop_last()) + if moves.last() {
            1int
        } else {
            -1int
        }
    }
}

/// The lease is free again exactly when as many consumers have left as came.
pub proof fn lease_is_free_when_all_left(moves: Seq<bool>)
    ensures
        holders_after(0, moves) == moves.filter(|m: bool| m).len() - moves.filter(
            |m: bool| !m,
        ).len(),
    decreases moves.len(),
{
    reveal(Seq::filter);
    if moves.len() > 0 {
        lease_is_free_when_all_left(moves.drop_last());
    }
}

} // verus!
