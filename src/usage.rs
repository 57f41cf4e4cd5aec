//! The tracker's persisted usage: per-child days, sessions, overrides and history.

use vstd::prelude::*;

use crate::clock::day_of;
use crate::state::STATE_VERSION;

verus! {

/// The tracker's persisted state. Dates are UTC day numbers, instants are
/// seconds since the Unix epoch.
pub struct TimeLimitsState {
    pub version: String,
    /// The day the usage figures belong to.
    pub state_date: i64,
    pub children: Vec<ChildState>,
    pub active_session: Option<ActiveSession>,
    /// Overrides granted today.
    pub admin_overrides: Vec<AdminOverride>,
}

/// One child's usage today.
pub struct ChildState {
    pub id: String,
    pub name: String,
    pub today: DayUsage,
}

/// Usage within one day.
pub struct DayUsage {
    pub date: i64,
    pub used_seconds: i64,
    pub remaining_seconds: i64,
    pub sessions: Vec<Session>,
    /// Warning thresholds (minutes) already shown today.
    pub warnings_shown: Vec<u32>,
    /// When the child was locked, if they are.
    pub locked_at: Option<i64>,
}

/// A completed or running session.
pub struct Session {
    pub start: i64,
    pub end: Option<i64>,
    pub duration_seconds: i64,
}

/// The session being counted now.
pub struct ActiveSession {
    pub child_id: String,
    pub session_start: i64,
    pub last_activity: i64,
    /// Set while an administrator has paused tracking.
    pub paused: bool,
}

/// An administrator's intervention.
pub struct AdminOverride {
    pub child_id: String,
    pub override_type: OverrideType,
    pub additional_seconds: Option<i64>,
    pub granted_at: i64,
    pub granted_by: String,
    pub reason: Option<String>,
}

/// Kinds of override.
#[derive(Clone, Copy, Debug, PartialEq, Eq, Structural)]
pub enum OverrideType {
    /// Extra time.
    Extension,
    /// The day's usage cleared.
    Reset,
    /// Unlocked without extra time.
    Unlock,
    /// Tracking paused.
    Pause,
}

/// Whether an override grants extra seconds to `child_id` on day `today`.
pub open spec fn override_applies(o: AdminOverride, child_id: Seq<char>, today: int) -> bool {
    o.child_id@ == child_id && day_of(o.granted_at) == today && o.additional_seconds is Some
}

/// Whether an override grants extra seconds to `child_id` on day `today`.
pub fn applies_to(o: &AdminOverride, child_id: &str, today: i64) -> (r: bool)
    ensures
        r == override_applies(*o, child_id@, today as int),
{
    let a = o.child_id.as_str().to_owned();
    let b = child_id.to_owned();
    a == b && crate::clock::day_number(o.granted_at) == today && o.additional_seconds.is_some()
}

/// A fresh day: nothing used, nothing shown, not locked.
pub open spec fn fresh_day(u: DayUsage, date: i64) -> bool {
    &&& u.date == date
    &&& u.used_seconds == 0
    &&& u.remaining_seconds == 0
    &&& u.sessions@.len() == 0
    &&& u.warnings_shown@.len() == 0
    &&& u.locked_at is None
}

/// A fresh day's usage.
pub fn fresh_usage(date: i64) -> (r: DayUsage)
    ensures
        fresh_day(r, date),
{
    DayUsage { date, used_seconds: 0, remaining_seconds: 0, sessions: Vec::new(), warnings_shown: Vec::new(), locked_at: None }
}

/// Position of the first child with `id`.
pub open spec fn child_index(children: Seq<ChildState>, id: Seq<char>) -> Option<int> {
    if exists|i: int| 0 <= i < children.len() && (#[trigger] children[i]).id@ == id
        && forall|j: int| 0 <= j < i ==> (#[trigger] children[j]).id@ != id {
        Some(choose|i: int| 0 <= i < children.len() && (#[trigger] children[i]).id@ == id
            && forall|j: int| 0 <= j < i ==> (#[trigger] children[j]).id@ != id)
    } else {
        None
    }
}

impl TimeLimitsState {
    /// An empty state for day `today`.
    pub fn new(today: i64) -> (r: Self)
        ensures
            r.version@ == STATE_VERSION@,
            r.state_date == today,
            r.children@.len() == 0,
            r.active_session is None,
            r.admin_overrides@.len() == 0,
    {
        TimeLimitsState {
            version: STATE_VERSION.to_owned(),
            state_date: today,
            children: Vec::new(),
            active_session: None,
            admin_overrides: Vec::new(),
        }
    }

    /// Whether the state belongs to another day than `today`.
    pub fn needs_daily_reset(&self, today: i64) -> (r: bool)
        ensures
            r == (self.state_date != today),
    {
        self.state_date != today
    }

    /// Starts day `today`: every child's usage starts afresh, the active
    /// session ends and the overrides are dropped.
    pub fn reset_for_new_day(&mut self, today: i64)
        ensures
            final(self).state_date == today,
            final(self).children@.len() == old(self).children@.len(),
            forall|i: int| 0 <= i < final(self).children@.len() ==> {
                &&& (#[trigger] final(self).children@[i]).id == old(self).children@[i].id
                &&& final(self).children@[i].name == old(self).children@[i].name
                &&& fresh_day(final(self).children@[i].today, today)
            },
            final(self).active_session is None,
            final(self).admin_overrides@.len() == 0,
            final(self).version == old(self).version,
    {
        self.state_date = today;
        let n = self.children.len();
        let mut i: usize = 0;
        while i < n
            invariant
                n == self.children@.len(),
                n == old(self).children@.len(),
                i <= n,
                self.state_date == today,
                self.version == old(self).version,
                forall|k: int| 0 <= k < n ==> (#[trigger] self.children@[k]).id == old(self).children@[k].id
                    && self.children@[k].name == old(self).children@[k].name,
                forall|k: int| 0 <= k < i ==> fresh_day((#[trigger] self.children@[k]).today, today),
            decreases n - i,
        {
            self.children[i].today = fresh_usage(today);
            i = i + 1;
        }
        self.active_session = None;
        self.admin_overrides = Vec::new();
    }

    /// Position of the child with `id`, if recorded.
    pub fn get_child(&self, id: &str) -> (r: Option<usize>)
        ensures
            match r {
                Some(i) => child_index(self.children@, id@) == Some(i as int) && i < self.children@.len()
                    && self.children@[i as int].id@ == id@,
                None => child_index(self.children@, id@) is None,
            },
    {
        let mut i: usize = 0;
        while i < self.children.len()
            invariant
                i <= self.children@.len(),
                forall|j: int| 0 <= j < i ==> (#[trigger] self.children@[j]).id@ != id@,
            decreases self.children@.len() - i,
        {
            let a = self.children[i].id.as_str().to_owned();
            let b = id.to_owned();
            if a == b {
                assert(self.children@[i as int].id@ == id@);
                proof {
                    let k = choose|k: int| 0 <= k < self.children@.len() && (#[trigger] self.children@[k]).id@ == id@
                        && forall|j: int| 0 <= j < k ==> (#[trigger] self.children@[j]).id@ != id@;
                    if k < i { assert(self.children@[k].id@ != id@); }
                    if k > i { assert(self.children@[i as int].id@ != id@); }
                }
                return Some(i);
            }
            i = i + 1;
        }
        None
    }

    /// Position of the child with `id`, adding a record for them (with a
    /// fresh day) if there is none.
    pub fn get_or_create_child(&mut self, id: &str, name: &str) -> (r: usize)
        ensures
            r < final(self).children@.len(),
            final(self).children@[r as int].id@ == id@,
            child_index(old(self).children@, id@) == Some(r as int) ==> final(self).children@ == old(self).children@,
            child_index(old(self).children@, id@) is None ==> {
                &&& r == old(self).children@.len()
                &&& final(self).children@.drop_last() == old(self).children@
                &&& final(self).children@[r as int].name@ == name@
                &&& fresh_day(final(self).children@[r as int].today, old(self).state_date)
            },
            child_index(old(self).children@, id@) is Some ==> child_index(old(self).children@, id@) == Some(r as int),
            final(self).state_date == old(self).state_date,
            final(self).active_session == old(self).active_session,
            final(self).admin_overrides == old(self).admin_overrides,
            final(self).version == old(self).version,
    {
        match self.get_child(id) {
            Some(i) => i,
            None => {
                let child = ChildState { id: id.to_owned(), name: name.to_owned(), today: fresh_usage(self.state_date) };
                self.children.push(child);
                assert(self.children@.drop_last() =~= old(self).children@);
                self.children.len() - 1
            },
        }
    }
}

impl DayUsage {
    /// Records a finished session from `start` to `end` and adds its length
    /// to the time used.
    pub fn add_session(&mut self, start: i64, end: i64)
        requires
            i64::MIN <= end - start <= i64::MAX,
            i64::MIN <= old(self).used_seconds + (end - start) <= i64::MAX,
        ensures
            final(self).sessions@ == old(self).sessions@.push(Session { start, end: Some(end), duration_seconds: (end - start) as i64 }),
            final(self).used_seconds == old(self).used_seconds + (end - start),
            final(self).warnings_shown == old(self).warnings_shown,
            final(self).locked_at == old(self).locked_at,
            final(self).remaining_seconds == old(self).remaining_seconds,
            final(self).date == old(self).date,
    {
        let duration = end - start;
        self.sessions.push(Session { start, end: Some(end), duration_seconds: duration });
        self.used_seconds = self.used_seconds + duration;
    }

    /// Whether the warning for `threshold_minutes` has yet to be shown today.
    pub fn should_show_warning(&self, threshold_minutes: u32) -> (r: bool)
        ensures
            r == !self.warnings_shown@.contains(threshold_minutes),
    {
        let mut i: usize = 0;
        while i < self.warnings_shown.len()
            invariant
                i <= self.warnings_shown@.len(),
                forall|j: int| 0 <= j < i ==> self.warnings_shown@[j] != threshold_minutes,
            decreases self.warnings_shown@.len() - i,
        {
            if self.warnings_shown[i] == threshold_minutes {
                assert(self.warnings_shown@[i as int] == threshold_minutes);
                return false;
            }
            i = i + 1;
        }
        true
    }

    /// Notes that the warning for `threshold_minutes` was shown.
    pub fn mark_warning_shown(&mut self, threshold_minutes: u32)
        ensures
            final(self).warnings_shown@.contains(threshold_minutes),
            old(self).warnings_shown@.contains(threshold_minutes) ==> final(self).warnings_shown == old(self).warnings_shown,
            !old(self).warnings_shown@.contains(threshold_minutes) ==> final(self).warnings_shown@ == old(self).warnings_shown@.push(threshold_minutes),
            final(self).used_seconds == old(self).used_seconds,
            final(self).remaining_seconds == old(self).remaining_seconds,
            final(self).locked_at == old(self).locked_at,
            final(self).sessions == old(self).sessions,
            final(self).date == old(self).date,
    {
        if self.should_show_warning(threshold_minutes) {
            self.warnings_shown.push(threshold_minutes);
            assert(self.warnings_shown@[self.warnings_shown@.len() - 1] == threshold_minutes);
        }
    }

    /// Whether the child is locked.
    pub fn is_locked(&self) -> (r: bool)
        ensures
            r == self.locked_at is Some,
    {
        self.locked_at.is_some()
    }

    /// Locks the child at `now` unless already locked.
    pub fn lock(&mut self, now: i64)
        ensures
            old(self).locked_at is Some ==> final(self).locked_at == old(self).locked_at,
            old(self).locked_at is None ==> final(self).locked_at == Some(now),
            final(self).used_seconds == old(self).used_seconds,
            final(self).remaining_seconds == old(self).remaining_seconds,
            final(self).warnings_shown == old(self).warnings_shown,
            final(self).sessions == old(self).sessions,
            final(self).date == old(self).date,
    {
        if self.locked_at.is_none() {
            self.locked_at = Some(now);
        }
    }

    /// Lifts the lock.
    pub fn unlock(&mut self)
        ensures
            final(self).locked_at is None,
            final(self).used_seconds == old(self).used_seconds,
            final(self).remaining_seconds == old(self).remaining_seconds,
            final(self).warnings_shown == old(self).warnings_shown,
            final(self).sessions == old(self).sessions,
            final(self).date == old(self).date,
    {
        self.locked_at = None;
    }
}

impl ActiveSession {
    /// A session for `child_id` starting at `now`.
    pub fn new(child_id: String, now: i64) -> (r: Self)
        ensures
            r.child_id == child_id,
            r.session_start == now,
            r.last_activity == now,
            !r.paused,
    {
        ActiveSession { child_id, session_start: now, last_activity: now, paused: false }
    }

    /// Notes activity at `now`.
    pub fn update_activity(&mut self, now: i64)
        ensures
            final(self).last_activity == now,
            final(self).child_id == old(self).child_id,
            final(self).session_start == old(self).session_start,
            final(self).paused == old(self).paused,
    {
        self.last_activity = now;
    }

    /// Length of the session at `now`; 0 while paused.
    pub fn duration_seconds(&self, now: i64) -> (r: i64)
        requires
            i64::MIN <= now - self.session_start <= i64::MAX,
        ensures
            r == if self.paused { 0 } else { now - self.session_start },
    {
        if self.paused { 0 } else { now - self.session_start }
    }

    /// Whether there was no activity for more than `idle_threshold_seconds` at `now`.
    pub fn is_idle(&self, now: i64, idle_threshold_seconds: i64) -> (r: bool)
        ensures
            r == (now - self.last_activity > idle_threshold_seconds),
    {
        (now as i128 - self.last_activity as i128) > idle_threshold_seconds as i128
    }
}

/// The first record for `id` among one day's children.
pub open spec fn first_child(cs: Seq<ChildDayRecord>, id: Seq<char>) -> Option<ChildDayRecord>
    decreases cs.len(),
{
    if cs.len() == 0 {
        None
    } else if cs[0].id@ == id {
        Some(cs[0])
    } else {
        first_child(cs.drop_first(), id)
    }
}

/// A child's records over some days, in the days' order.
pub open spec fn child_records(days: Seq<DayRecord>, id: Seq<char>) -> Seq<ChildDayRecord>
    decreases days.len(),
{
    if days.len() == 0 {
        seq![]
    } else {
        let rest = child_records(days.drop_last(), id);
        match first_child(days.last().children@, id) {
            Some(c) => rest.push(c),
            None => rest,
        }
    }
}

/// Most days of history kept.
pub const HISTORY_DAYS: usize = 90;

/// Past days' usage, most recent first.
pub struct UsageHistory {
    pub version: String,
    pub records: Vec<DayRecord>,
}

/// One day of history.
pub struct DayRecord {
    pub date: i64,
    pub children: Vec<ChildDayRecord>,
}

/// One child's usage on one day.
pub struct ChildDayRecord {
    pub id: String,
    pub name: String,
    pub used_seconds: i64,
    pub limit_seconds: i64,
    pub sessions_count: usize,
    pub overrides: Vec<AdminOverride>,
}

impl UsageHistory {
    /// An empty history.
    pub fn new() -> (r: Self)
        ensures
            r.version@ == STATE_VERSION@,
            r.records@.len() == 0,
    {
        UsageHistory { version: STATE_VERSION.to_owned(), records: Vec::new() }
    }

    /// The child's record from each of the `days` most recent days that has
    /// one (the first with that id), newest first.
    pub fn get_child_records(&self, child_id: &str, days: u32) -> (r: Vec<&ChildDayRecord>)
        ensures
            r@.map_values(|x: &ChildDayRecord| *x) == child_records(
                self.records@.subrange(0, if days < self.records@.len() { days as int } else { self.records@.len() as int }),
                child_id@),
    {
        let mut out: Vec<&ChildDayRecord> = Vec::new();
        let limit: usize = if (days as u64) < (self.records.len() as u64) { days as usize } else { self.records.len() };
        let id = child_id.to_owned();
        let mut d: usize = 0;
        while d < limit
            invariant
                limit <= self.records@.len(),
                limit == (if days < self.records@.len() { days as int } else { self.records@.len() as int }),
                d <= limit,
                id@ == child_id@,
                out@.map_values(|x: &ChildDayRecord| *x) == child_records(self.records@.subrange(0, d as int), child_id@),
            decreases limit - d,
        {
            let ghost prefix = self.records@.subrange(0, d + 1);
            assert(prefix.drop_last() =~= self.records@.subrange(0, d as int));
            assert(prefix.last() == self.records@[d as int]);
            let ghost before = out@;
            let children = &self.records[d].children;
            let mut c: usize = 0;
            let mut found = false;
            assert(children@.subrange(0, children@.len() as int) =~= children@);
            while !found && c < children.len()
                invariant
                    c <= children@.len(),
                    children@ == self.records@[d as int].children@,
                    id@ == child_id@,
                    !found ==> out@ == before
                        && first_child(children@, child_id@) == first_child(children@.subrange(c as int, children@.len() as int), child_id@),
                    found ==> out@.len() == before.len() + 1 && first_child(children@, child_id@) == Some(*out@.last())
                        && out@.drop_last() == before,
                decreases children@.len() - c + (if found { 0int } else { 1int }),
            {
                let ghost rest = children@.subrange(c as int, children@.len() as int);
                assert(rest.drop_first() =~= children@.subrange(c + 1, children@.len() as int));
                assert(rest[0] == children@[c as int]);
                if children[c].id == id {
                    out.push(&children[c]);
                    found = true;
                } else {
                    c = c + 1;
                }
            }
            proof {
                if !found {
                    assert(children@.subrange(c as int, children@.len() as int) =~= Seq::<ChildDayRecord>::empty());
                    assert(out@.map_values(|x: &ChildDayRecord| *x) == child_records(prefix, child_id@));
                } else {
                    assert(out@ =~= before.push(out@.last()));
                    assert(out@.map_values(|x: &ChildDayRecord| *x) =~= before.map_values(|x: &ChildDayRecord| *x).push(*out@.last()));
                }
            }
            d = d + 1;
        }
        out
    }

    /// Puts a day in front and keeps the most recent 90.
    pub fn add_record(&mut self, record: DayRecord)
        ensures
            final(self).records@ == if old(self).records@.len() + 1 > HISTORY_DAYS {
                seq![record].add(old(self).records@).subrange(0, HISTORY_DAYS as int)
            } else {
                seq![record].add(old(self).records@)
            },
            final(self).version == old(self).version,
    {
        let ghost r0 = record;
        self.records.insert(0, record);
        assert(self.records@ =~= seq![r0].add(old(self).records@));
        if self.records.len() > HISTORY_DAYS {
            self.records.truncate(HISTORY_DAYS);
        }
    }
}

} // verus!
