use vstd::prelude::*;

verus! {

/// The hour of the day (UTC) from which the phone is no longer watched.
pub const STOP_HOUR: u32 = 23;

/// Milliseconds between two looks at the phone.
pub const POLL_INTERVAL_MS: u64 = 10_000;

/// Seconds before sunset at which the watch begins.
pub const WATCH_LEAD_SECONDS: i64 = 3600;

/// Sunset and sunrise of a day, in seconds since the Unix epoch (UTC).
#[derive(Clone, Copy, Debug)]
pub struct SunsetRise {
    pub sunset: i64,
    pub sunrise: i64,
}

impl SunsetRise {
    /// When the watch of the phone begins: an hour before sunset.
    pub fn watch_start(&self) -> (r: i64)
        requires
            self.sunset >= i64::MIN + WATCH_LEAD_SECONDS,
        ensures
            r == self.sunset - WATCH_LEAD_SECONDS,
    {
        self.sunset - WATCH_LEAD_SECONDS
    }
}

/// A change in whether the phone answers.
#[derive(PartialEq, Eq, Structural, Clone, Copy, Debug)]
pub enum PresenceChange {
    CameOnline,
    WentOffline,
}

/// The change between having been reachable (`was`) and being reachable (`now`).
pub open spec fn change_between(was: bool, now: bool) -> Option<PresenceChange> {
    if now && !was {
        Some(PresenceChange::CameOnline)
    } else if !now && was {
        Some(PresenceChange::WentOffline)
    } else {
        None
    }
}

/// What one look at the phone gives: the change to report, if any, and whether to look
/// again after `POLL_INTERVAL_MS`.
pub struct WatchStep {
    pub change: Option<PresenceChange>,
    pub keep_watching: bool,
}

/// The watch of the phone that runs from an hour before sunset: it remembers whether the
/// phone answered at the last look.
pub struct PresenceWatch {
    pub online: bool,
}

impl PresenceWatch {
    /// A watch whose first look found the phone reachable or not.
    pub fn new(reachable: bool) -> (r: PresenceWatch)
        ensures
            r.online == reachable,
    {
        PresenceWatch { online: reachable }
    }

    /// One more look at the phone at `hour` o'clock: remembers whether it answered,
    /// reports a change where there is one, and goes on before `STOP_HOUR`.
    pub fn observe(&mut self, reachable: bool, hour: u32) -> (r: WatchStep)
        ensures
            final(self).online == reachable,
            r.change == change_between(old(self).online, reachable),
            r.keep_watching == (hour < STOP_HOUR),
    {
        let change = if reachable && !self.online {
            Some(PresenceChange::CameOnline)
        } else if !reachable && self.online {
            Some(PresenceChange::WentOffline)
        } else {
            None
        };
        self.online = reachable;
        WatchStep { change, keep_watching: hour < STOP_HOUR }
    }
}

/// Whether the phone counts as reachable after the looks `looks`, the first look having
/// found `initial`.
pub open spec fn state_after(initial: bool, looks: Seq<bool>) -> bool {
    if looks.len() == 0 {
        initial
    } else {
        looks.last()
    }
}

/// The changes that a watch reports over the looks `looks`, in order.
pub open spec fn reported_changes(initial: bool, looks: Seq<bool>) -> Seq<PresenceChange>
    decreases looks.len(),
{
    if looks.len() == 0 {
        seq![]
    } else {
        let before = reported_changes(initial, looks.drop_last());
        match change_between(state_after(initial, looks.drop_last()), looks.last()) {
            Some(c) => before.push(c),
            None => before,
        }
    }
}

proof fn lemma_last_change(initial: bool, looks: Seq<bool>)
    ensures
        reported_changes(initial, looks).len() > 0 ==> (reported_changes(initial, looks).last()
            == PresenceChange::CameOnline) == state_after(initial, looks),
        reported_changes(initial, looks).len() == 0 ==> state_after(initial, looks) == initial,
    decreases looks.len(),
{
    if looks.len() > 0 {
        lemma_last_change(initial, looks.drop_last());
    }
}

/// The reported changes alternate, and the first one leaves the state of the first look:
/// a phone is never reported online (or offline) twice in a row.
pub proof fn reported_changes_alternate(initial: bool, looks: Seq<bool>)
    ensures
        ({
            let r = reported_changes(initial, looks);
            &&& forall|i: int| 0 <= i < r.len() - 1 ==> #[trigger] r[i] != r[i + 1]
            &&& r.len() > 0 ==> (r[0] == PresenceChange::CameOnline) == !initial
        }),
    decreases looks.len(),
{
    if looks.len() > 0 {
        let prev = looks.drop_last();
        reported_changes_alternate(initial, prev);
        lemma_last_change(initial, prev);
        let before = reported_changes(initial, prev);
        let r = reported_changes(initial, looks);
        match change_between(state_after(initial, prev), looks.last()) {
            Some(c) => {
                assert(r == before.push(c));
                assert forall|i: int| 0 <= i < r.len() - 1 implies #[trigger] r[i] != r[i + 1] by {
                    if i < before.len() - 1 {
                        assert(r[i] == before[i] && r[i + 1] == before[i + 1]);
                    }
                }
            },
            None => {},
        }
    }
}

/// A look that finds the phone as it was at the last look reports nothing.
pub proof fn unchanged_look_reports_nothing(was: bool)
    ensures
        change_between(was, was) is None,
{
}

} // verus!
