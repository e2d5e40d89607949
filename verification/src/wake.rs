//! Telling the consumer there is something to come for, and the debt that
//! stands while nobody is there to be told.

use vstd::prelude::*;

verus! {

/// A wake that has fallen due, and whoever is there to take it.
///
/// Owed with nobody to tell stays owed rather than being dropped, so a
/// consumer that registers late is told about what it was not there for.
///
/// `W` is what is called to pay: the consumer's wake. How many times it has
/// been called is carried alongside as a ghost count.
pub struct Debt<W: Fn()> {
    wake: Option<W>,
    standing: bool,
    paid: Ghost<nat>,
}

/// Whether `wake` may be called with nothing, which is what paying asks of
/// it.
pub open spec fn callable<W: Fn()>(wake: Option<W>) -> bool {
    wake matches Some(w) ==> call_requires(w, ())
}

/// How a debt stands after `before` was paid out, with `owe` saying whether
/// news was added to it first: settled if anyone was there to take it,
/// standing if nobody was.
pub open spec fn paid_out<W: Fn()>(before: Debt<W>, after: Debt<W>, owe: bool) -> bool {
    let owed = before.owed() || owe;
    &&& after.wf()
    &&& after.wake() == before.wake()
    &&& after.owed() == (owed && !before.listening())
    &&& after.payments() == before.payments() + if owed && before.listening() {
        1nat
    } else {
        0nat
    }
}

/// How a debt stands after `before` had `listening` registered (or cleared)
/// and paid what it already owed to whoever is now there.
pub open spec fn registered<W: Fn()>(before: Debt<W>, after: Debt<W>, listening: bool) -> bool {
    &&& after.wf()
    &&& after.listening() == listening
    &&& after.owed() == (before.owed() && !listening)
    &&& after.payments() == before.payments() + if before.owed() && listening {
        1nat
    } else {
        0nat
    }
}

impl<W: Fn()> Debt<W> {
    /// Well-formed: a registered wake may be called with nothing.
    pub closed spec fn wf(&self) -> bool {
        callable(self.wake)
    }

    /// Whether one is owed, paid or not.
    pub closed spec fn owed(&self) -> bool {
        self.standing
    }

    /// The wake registered to be paid, if any.
    pub closed spec fn wake(&self) -> Option<W> {
        self.wake
    }

    /// Whether anyone is registered to be paid.
    pub open spec fn listening(&self) -> bool {
        self.wake() is Some
    }

    /// How many times the wake has been called.
    pub closed spec fn payments(&self) -> nat {
        self.paid@
    }

    /// Whether settling now would call the wake.
    pub open spec fn due(&self) -> bool {
        self.owed() && self.listening()
    }

    /// Nothing owed and nobody to tell.
    pub fn new() -> (debt: Self)
        ensures
            debt.wf(),
            !debt.owed(),
            !debt.listening(),
            debt.payments() == 0,
    {
        Debt { wake: None, standing: false, paid: Ghost(0) }
    }

    /// Set what to call when one falls due, or clear it with `None`, paying
    /// anything already owed before returning.
    pub fn register(&mut self, wake: Option<W>)
        requires
            old(self).wf(),
            callable(wake),
        ensures
            registered(*old(self), *final(self), wake is Some),
            final(self).wake() == wake,
    {
        self.wake = wake;
        self.pay();
    }

    /// Record that there is something to come for.
    pub fn owe(&mut self)
        requires
            old(self).wf(),
        ensures
            final(self).wf(),
            final(self).owed(),
            final(self).wake() == old(self).wake(),
            final(self).payments() == old(self).payments(),
    {
        self.standing = true;
    }

    /// Whether one is owed, paid or not.
    pub fn owes(&self) -> (owed: bool)
        ensures
            owed == self.owed(),
    {
        self.standing
    }

    /// Pay what is owed, if anything is and anyone is there to take it.
    pub fn settle(&mut self)
        requires
            old(self).wf(),
        ensures
            paid_out(*old(self), *final(self), false),
    {
        self.pay();
    }

    /// Call the wake if one is registered and one is owed, and clear the
    /// debt.
    fn pay(&mut self)
        requires
            old(self).wf(),
        ensures
            final(self).wf(),
            final(self).owed() == (old(self).owed() && !old(self).listening()),
            final(self).wake() == old(self).wake(),
            final(self).payments() == old(self).payments() + if old(self).due() {
                1nat
            } else {
                0nat
            },
    {
        if !self.standing {
            return;
        }
        if let Some(wake) = &self.wake {
            self.standing = false;
            wake();
            proof { self.paid@ = self.paid@ + 1; }
        }
    }
}

impl<W: Fn()> Default for Debt<W> {
    fn default() -> (debt: Self)
        ensures
            debt.wf(),
            !debt.owed(),
            !debt.listening(),
            debt.payments() == 0,
    {
        Debt::new()
    }
}

} // verus!

verus! {

/// What is owed is paid once: owing and settling calls the wake, and settling
/// again with nothing new owed calls it no more.
pub proof fn law_owed_is_paid_once<W: Fn()>(start: Debt<W>, settled: Debt<W>, again: Debt<W>)
    requires
        start.listening(),
        paid_out(start, settled, true),
        paid_out(settled, again, false),
    ensures
        again.payments() == start.payments() + 1,
        !again.owed(),
{
}

/// Settling what is not owed pays nothing.
pub proof fn law_nothing_owed_pays_nothing<W: Fn()>(start: Debt<W>, settled: Debt<W>)
    requires
        !start.owed(),
        paid_out(start, settled, false),
    ensures
        settled.payments() == start.payments(),
{
}

/// A debt owed to nobody stands until someone registers, and is paid to
/// whoever registers next.
pub proof fn law_owed_to_nobody_is_paid_on_register<W: Fn()>(start: Debt<W>, settled: Debt<W>, joined: Debt<W>)
    requires
        !start.listening(),
        paid_out(start, settled, true),
        registered(settled, joined, true),
    ensures
        settled.owed(),
        settled.payments() == start.payments(),
        joined.payments() == start.payments() + 1,
        !joined.owed(),
{
}

/// Clearing the wake leaves the debt where it is: what falls due afterwards
/// is owed, not paid.
pub proof fn law_clearing_the_wake_keeps_the_debt<W: Fn()>(start: Debt<W>, cleared: Debt<W>, settled: Debt<W>)
    requires
        registered(start, cleared, false),
        paid_out(cleared, settled, true),
    ensures
        settled.owed(),
        settled.payments() == start.payments(),
{
}

/// Registering anew replaces the old wake for good: whatever is owed and paid
/// afterwards, the wake that stays registered, and so the one any payment
/// goes to, is the one registered last.
pub proof fn law_last_registered_wake_is_the_one_kept<W: Fn()>(
    start: Debt<W>,
    joined: Debt<W>,
    settled: Debt<W>,
    wake: Option<W>,
    owe: bool,
)
    requires
        registered(start, joined, wake is Some),
        joined.wake() == wake,
        paid_out(joined, settled, owe),
    ensures
        settled.wake() == wake,
        settled.listening() == wake is Some,
{
}

} // verus!
