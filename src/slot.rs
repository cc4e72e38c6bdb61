use vstd::prelude::*;

verus! {

/// The slot after a registration: the new callback replaces whatever was
/// there.
pub open spec fn registered<F>(slot: Option<F>, callback: F) -> Option<F> {
    Some(callback)
}

/// The slot after a callback taken out for invocation is handed back: a
/// callback registered while it ran is kept, otherwise the taken one returns.
pub open spec fn restored<F>(slot: Option<F>, taken: F) -> Option<F> {
    match slot {
        Some(newer) => Some(newer),
        None => Some(taken),
    }
}

/// One invocation of the slot's callback: it is taken out, run (during which it
/// may register `during` in its own slot), and handed back. Gives the callback
/// that ran and the slot afterwards.
pub open spec fn invoke_spec<F>(slot: Option<F>, during: Option<F>) -> (Option<F>, Option<F>) {
    match slot {
        Some(cb) => {
            let while_running = match during {
                Some(g) => registered(None, g),
                None => None,
            };
            (Some(cb), restored(while_running, cb))
        },
        None => (None, None),
    }
}

/// A single-owner callback slot: at most one callback is held, and a new
/// registration replaces the previous one.
pub struct CallbackSlot<F> {
    callback: Option<F>,
}

impl<F> View for CallbackSlot<F> {
    type V = Option<F>;

    closed spec fn view(&self) -> Option<F> {
        self.callback
    }
}

impl<F> CallbackSlot<F> {
    pub fn new() -> (r: CallbackSlot<F>)
        ensures
            r@ == None::<F>,
    {
        CallbackSlot { callback: None }
    }

    /// Stores `callback`, dropping the one held before.
    pub fn register(&mut self, callback: F)
        ensures
            final(self)@ == registered(old(self)@, callback),
    {
        self.callback = Some(callback);
    }

    pub fn is_set(&self) -> (r: bool)
        ensures
            r == self@.is_some(),
    {
        self.callback.is_some()
    }

    /// Takes the callback out for invocation, leaving the slot empty so that the
    /// callback can run with no lock held and register a successor.
    pub fn take(&mut self) -> (r: Option<F>)
        ensures
            r == old(self)@,
            final(self)@ == None::<F>,
    {
        self.callback.take()
    }

    /// Hands back a callback that `take` gave out once it has run, unless a
    /// newer one was registered meanwhile.
    pub fn restore(&mut self, taken: F)
        ensures
            final(self)@ == restored(old(self)@, taken),
    {
        if self.callback.is_none() {
            self.callback = Some(taken);
        }
    }
}

/// After two registrations in a row, the slot holds the second callback only,
/// and the next invocation runs that one.
pub proof fn lemma_last_registration_wins<F>(slot: Option<F>, first: F, second: F)
    ensures
        registered(registered(slot, first), second) == Some(second),
        invoke_spec(registered(registered(slot, first), second), None).0 == Some(second),
{
}

/// A callback that registers a successor while it runs: the invocation
/// completes with the successor in the slot, and the next invocation runs the
/// successor. A callback that registers nothing stays for the next one.
pub proof fn lemma_reregistration_fires_next<F>(cb: F, successor: F)
    ensures
        invoke_spec(Some(cb), Some(successor)).0 == Some(cb),
        invoke_spec(Some(cb), Some(successor)).1 == Some(successor),
        invoke_spec(invoke_spec(Some(cb), Some(successor)).1, None).0 == Some(successor),
        invoke_spec(Some(cb), None).1 == Some(cb),
{
}

} // verus!
