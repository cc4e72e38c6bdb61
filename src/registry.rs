use std::collections::HashMap;
use vstd::prelude::*;

verus! {

broadcast use vstd::std_specs::hash::group_hash_axioms;

/// What routing an event addressed to `handle` reaches: the one window state
/// registered under it, or nothing.
pub open spec fn route_spec<W>(windows: Map<u64, W>, handle: u64) -> Option<W> {
    if windows.contains_key(handle) {
        Some(windows[handle])
    } else {
        None
    }
}

/// Closing `handle`: the registry afterwards, and, where the handle was
/// registered, its window state and whether no window is left.
pub open spec fn close_spec<W>(windows: Map<u64, W>, handle: u64) -> (Map<u64, W>, Option<(W, bool)>) {
    if windows.contains_key(handle) {
        let rest = windows.remove(handle);
        (rest, Some((windows[handle], rest.is_empty())))
    } else {
        (windows, None)
    }
}

/// How many close notifications, applied in order, report that the last
/// window went away.
pub open spec fn quits_during<W>(windows: Map<u64, W>, closes: Seq<u64>) -> nat
    decreases closes.len(),
{
    if closes.len() == 0 {
        0
    } else {
        let (rest, closed) = close_spec(windows, closes[0]);
        let here: nat = match closed {
            Some((_, last)) => if last { 1 } else { 0 },
            None => 0,
        };
        here + quits_during(rest, closes.drop_first())
    }
}

/// A window that a close notification removed from the registry.
pub struct Closed<W> {
    pub window: W,
    /// No window is registered any more.
    pub was_last: bool,
}

/// The windows of one connection, by native handle (a wire-protocol window id,
/// or the protocol id of a compositor surface).
pub struct WindowRegistry<W> {
    windows: HashMap<u64, W>,
}

impl<W> View for WindowRegistry<W> {
    type V = Map<u64, W>;

    closed spec fn view(&self) -> Map<u64, W> {
        self.windows@
    }
}

impl<W> WindowRegistry<W> {
    pub fn new() -> (r: WindowRegistry<W>)
        ensures
            r@ == Map::<u64, W>::empty(),
    {
        WindowRegistry { windows: HashMap::new() }
    }

    /// Registers `window` under `handle`; hands back the state that was
    /// registered under it before, if any.
    pub fn insert(&mut self, handle: u64, window: W) -> (r: Option<W>)
        ensures
            final(self)@ == old(self)@.insert(handle, window),
            r == route_spec(old(self)@, handle),
    {
        self.windows.insert(handle, window)
    }

    pub fn contains(&self, handle: u64) -> (r: bool)
        ensures
            r == self@.contains_key(handle),
    {
        self.windows.contains_key(&handle)
    }

    /// The window state that events addressed to `handle` go to; `None` for a
    /// handle that is not (or no longer) registered.
    pub fn get(&self, handle: u64) -> (r: Option<&W>)
        ensures
            match r {
                Some(w) => route_spec(self@, handle) == Some(*w),
                None => route_spec(self@, handle) == None::<W>,
            },
    {
        self.windows.get(&handle)
    }

    pub fn remove(&mut self, handle: u64) -> (r: Option<W>)
        ensures
            final(self)@ == old(self)@.remove(handle),
            r == route_spec(old(self)@, handle),
    {
        self.windows.remove(&handle)
    }

    pub fn len(&self) -> (r: usize)
        ensures
            r == self@.len(),
    {
        self.windows.len()
    }

    pub fn is_empty(&self) -> (r: bool)
        ensures
            r == self@.is_empty(),
    {
        self.windows.is_empty()
    }

    /// Handles a close notification for `handle`: removes its window state and
    /// says whether it was the last one. A handle that is not registered is
    /// left alone and gives `None`.
    pub fn close(&mut self, handle: u64) -> (r: Option<Closed<W>>)
        ensures
            final(self)@ == close_spec(old(self)@, handle).0,
            match r {
                Some(c) => close_spec(old(self)@, handle).1 == Some((c.window, c.was_last)),
                None => close_spec(old(self)@, handle).1 == None::<(W, bool)>,
            },
    {
        match self.windows.remove(&handle) {
            Some(window) => {
                let was_last = self.windows.is_empty();
                Some(Closed { window, was_last })
            },
            None => None,
        }
    }
}

/// Routing after a close: events addressed to the closed handle reach no
/// window, and every other handle still reaches exactly the window it reached
/// before.
pub proof fn lemma_close_stops_routing<W>(windows: Map<u64, W>, closed: u64, other: u64)
    ensures
        route_spec(close_spec(windows, closed).0, closed) == None::<W>,
        other != closed ==> route_spec(close_spec(windows, closed).0, other) == route_spec(
            windows,
            other,
        ),
{
}

/// Whatever close notifications arrive, at most one of them reports that the
/// last window went away.
pub proof fn lemma_quit_at_most_once<W>(windows: Map<u64, W>, closes: Seq<u64>)
    ensures
        quits_during(windows, closes) <= 1,
        windows.is_empty() ==> quits_during(windows, closes) == 0,
    decreases closes.len(),
{
    if closes.len() > 0 {
        let (rest, closed) = close_spec(windows, closes[0]);
        lemma_quit_at_most_once(rest, closes.drop_first());
        match closed {
            Some((_, last)) => {
                if last {
                    assert(rest.is_empty());
                }
            },
            None => {
                assert(rest == windows);
            },
        }
        if windows.is_empty() {
            assert(!windows.contains_key(closes[0]));
        }
    }
}

/// Closing the only open window reports that it was the last one; a second
/// close notification for the same handle finds nothing and reports nothing,
/// so the quit signal comes exactly once.
pub proof fn lemma_last_close_quits_once<W>(windows: Map<u64, W>, handle: u64)
    requires
        windows.dom() == set![handle],
    ensures
        close_spec(windows, handle).1 == Some((windows[handle], true)),
        close_spec(close_spec(windows, handle).0, handle).1 == None::<(W, bool)>,
        quits_during(windows, seq![handle, handle]) == 1,
{
    assert(windows.contains_key(handle));
    let rest = windows.remove(handle);
    assert(rest.dom() =~= Set::<u64>::empty());
    assert(rest.is_empty());
    let closes = seq![handle, handle];
    assert(closes.drop_first() =~= seq![handle]);
    assert(seq![handle].drop_first() =~= Seq::<u64>::empty());
    assert(!rest.contains_key(handle));
    assert(seq![handle][0] == handle);
    assert(quits_during(rest, Seq::<u64>::empty()) == 0);
    assert(quits_during(rest, seq![handle]) == 0);
}

} // verus!
