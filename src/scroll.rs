use crate::input::TouchPhase;
use vstd::prelude::*;

verus! {

/// One scroll notification applied to the gesture state: `scrolling` says
/// whether a gesture is under way, `stop` whether the notification ends it.
/// Gives the next state and the phase to report, if any. A stop that arrives
/// while no gesture is under way reports nothing.
pub open spec fn scroll_step(scrolling: bool, stop: bool) -> (bool, Option<TouchPhase>) {
    if stop {
        (false, if scrolling { Some(TouchPhase::Ended) } else { None })
    } else if scrolling {
        (true, Some(TouchPhase::Moved))
    } else {
        (true, Some(TouchPhase::Started))
    }
}

/// The state after a run of notifications.
pub open spec fn scroll_state_after(scrolling: bool, stops: Seq<bool>) -> bool
    decreases stops.len(),
{
    if stops.len() == 0 {
        scrolling
    } else {
        scroll_state_after(scroll_step(scrolling, stops[0]).0, stops.drop_first())
    }
}

/// The phases reported for a run of notifications, in order.
pub open spec fn phases_of(scrolling: bool, stops: Seq<bool>) -> Seq<TouchPhase>
    decreases stops.len(),
{
    if stops.len() == 0 {
        Seq::empty()
    } else {
        let (next, phase) = scroll_step(scrolling, stops[0]);
        let rest = phases_of(next, stops.drop_first());
        match phase {
            Some(p) => seq![p] + rest,
            None => rest,
        }
    }
}

/// A phase sequence that follows Started -> Moved* -> Ended, gesture after
/// gesture; `open` says whether a gesture is already under way at its start.
pub open spec fn well_phased(open: bool, phases: Seq<TouchPhase>) -> bool
    decreases phases.len(),
{
    if phases.len() == 0 {
        true
    } else {
        let rest = phases.drop_first();
        match phases[0] {
            TouchPhase::Started => !open && well_phased(true, rest),
            TouchPhase::Moved => open && well_phased(true, rest),
            TouchPhase::Ended => open && well_phased(false, rest),
        }
    }
}

/// The notifications of one continuous gesture: `moves + 1` motion
/// notifications followed by a stop.
pub open spec fn gesture(moves: nat) -> Seq<bool> {
    Seq::new(moves + 1, |i: int| false).push(true)
}

/// The phases of a gesture whose start has already been reported.
pub open spec fn moved_then_ended(moves: nat) -> Seq<TouchPhase> {
    Seq::new(moves, |i: int| TouchPhase::Moved).push(TouchPhase::Ended)
}

/// Scroll gesture state of one pointer.
pub struct ScrollSession {
    pub scrolling: bool,
}

impl ScrollSession {
    /// A session at rest.
    pub fn new() -> (r: ScrollSession)
        ensures
            !r.scrolling,
    {
        ScrollSession { scrolling: false }
    }

    /// Whether a gesture is under way.
    pub fn is_scrolling(&self) -> (r: bool)
        ensures
            r == self.scrolling,
    {
        self.scrolling
    }

    /// Applies one notification; `stop` is true for an axis stop (or the
    /// release of a wheel button). Returns the phase to report, if any.
    pub fn advance(&mut self, stop: bool) -> (r: Option<TouchPhase>)
        ensures
            (final(self).scrolling, r) == scroll_step(old(self).scrolling, stop),
    {
        if stop {
            let was = self.scrolling;
            self.scrolling = false;
            if was {
                Some(TouchPhase::Ended)
            } else {
                None
            }
        } else if self.scrolling {
            Some(TouchPhase::Moved)
        } else {
            self.scrolling = true;
            Some(TouchPhase::Started)
        }
    }
}

/// Whatever notifications arrive, the reported phases follow
/// Started -> Moved* -> Ended: two Started never follow each other without an
/// Ended between them, and an Ended always closes a gesture that a Started
/// opened. The state after the run says whether the last gesture is still open.
pub proof fn lemma_phases_well_formed(scrolling: bool, stops: Seq<bool>)
    ensures
        well_phased(scrolling, phases_of(scrolling, stops)),
    decreases stops.len(),
{
    if stops.len() > 0 {
        let (next, phase) = scroll_step(scrolling, stops[0]);
        let rest = phases_of(next, stops.drop_first());
        lemma_phases_well_formed(next, stops.drop_first());
        match phase {
            Some(p) => {
                let all = seq![p] + rest;
                assert(all[0] == p);
                assert(all.drop_first() =~= rest);
            },
            None => {},
        }
    }
}

proof fn lemma_open_gesture(moves: nat)
    ensures
        phases_of(true, Seq::new(moves, |i: int| false).push(true)) =~= moved_then_ended(moves),
        scroll_state_after(true, Seq::new(moves, |i: int| false).push(true)) == false,
    decreases moves,
{
    let stops = Seq::new(moves, |i: int| false).push(true);
    if moves > 0 {
        let m = (moves - 1) as nat;
        lemma_open_gesture(m);
        assert(stops[0] == false);
        assert(stops.drop_first() =~= Seq::new(m, |i: int| false).push(true));
        assert(moved_then_ended(moves) =~= seq![TouchPhase::Moved] + moved_then_ended(m));
        assert(scroll_state_after(true, stops) == scroll_state_after(true, stops.drop_first()));
    } else {
        assert(stops[0] == true);
        assert(stops.drop_first() =~= Seq::<bool>::empty());
        assert(phases_of(false, Seq::<bool>::empty()) =~= Seq::<TouchPhase>::empty());
        assert(scroll_state_after(false, stops.drop_first()) == false);
        assert(moved_then_ended(0) =~= seq![TouchPhase::Ended]);
    }
}

/// A continuous gesture from rest to rest reports exactly
/// Started, then one Moved for each further motion, then Ended, and leaves the
/// session at rest.
pub proof fn lemma_gesture_phases(moves: nat)
    ensures
        phases_of(false, gesture(moves)) =~= seq![TouchPhase::Started] + moved_then_ended(moves),
        !scroll_state_after(false, gesture(moves)),
{
    let stops = gesture(moves);
    lemma_open_gesture(moves);
    assert(stops[0] == false);
    assert(stops.drop_first() =~= Seq::new(moves, |i: int| false).push(true));
}

} // verus!
