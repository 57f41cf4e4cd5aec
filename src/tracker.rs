//! The time tracker: ticks, shared-login selection and administrator overrides.

use vstd::prelude::*;

use crate::auth::{AdminAuth, AuthError, password_check};
use crate::clock::{day_number, day_of, weekday_name, weekday_of_day};
use crate::limits_config::{ChildProfile, TimeLimitsConfig, limit_seconds, lower_of};
use crate::schedule::{ScheduleCalculator, clamp_i64, limit_for_day, override_sum, remaining_of};
use crate::usage::{ActiveSession, AdminOverride, OverrideType, TimeLimitsState, fresh_day};

verus! {

/// Seconds between two ticks.
pub const TICK_SECONDS: i64 = 10;

/// Why a tracker operation was refused.
#[derive(Clone, Copy, Debug, PartialEq, Eq, Structural)]
pub enum TrackerError {
    ChildNotFound,
    SharedLoginDisabled,
    InvalidPassword,
    Auth(AuthError),
}

/// What one tick asks the caller to do.
pub struct TickOutcome {
    /// The day changed and usage was reset.
    pub rolled_over: bool,
    /// Position in the state of the child whose time was counted, if any.
    pub accounted: Option<usize>,
    /// Warning thresholds (minutes) to notify now, in configured order.
    pub warnings: Vec<u32>,
    /// Time ran out: send the final warning, wait `grace_period` seconds,
    /// then call `finish_lock`.
    pub expired: bool,
    pub grace_period: u64,
    /// The state changed and should be saved.
    pub persist: bool,
}

/// A child's limit in seconds on UTC day `day`.
pub open spec fn day_limit(child: ChildProfile, day: int) -> int {
    limit_seconds(limit_for_day(child, lower_of(weekday_name(weekday_of_day(day))), weekday_of_day(day)))
}

/// Position of the first profile with `id`.
pub open spec fn profile_index(children: Seq<ChildProfile>, id: Seq<char>) -> Option<int> {
    if exists|i: int| 0 <= i < children.len() && (#[trigger] children[i]).id@ == id
        && forall|j: int| 0 <= j < i ==> (#[trigger] children[j]).id@ != id {
        Some(choose|i: int| 0 <= i < children.len() && (#[trigger] children[i]).id@ == id
            && forall|j: int| 0 <= j < i ==> (#[trigger] children[j]).id@ != id)
    } else {
        None
    }
}

/// A tick at `now` on this tracker fails: same day, an active unpaused
/// session, and no profile for its child.
pub open spec fn tick_fails(t: TimeTracker, now: i64) -> bool {
    &&& t.state.state_date == day_of(now)
    &&& t.state.active_session matches Some(s) && !t.paused && !s.paused
        && profile_index(t.config.children@, s.child_id@) is None
}

/// A tick at `now` on this tracker counts time: same day, an active unpaused
/// session whose child has a profile and is not locked today.
pub open spec fn tick_accounts(t: TimeTracker, now: i64) -> bool {
    &&& t.state.state_date == day_of(now)
    &&& t.state.active_session matches Some(s) && !t.paused && !s.paused
        && profile_index(t.config.children@, s.child_id@) is Some
        && !(crate::usage::child_index(t.state.children@, s.child_id@) matches Some(k)
            && t.state.children@[k].today.locked_at is Some)
}

/// After the grace period the child at position `i` is to be locked: the
/// remaining time, worked out afresh from the day's limit, the time used and
/// today's overrides, is zero.
pub open spec fn lock_due(t: TimeTracker, i: int) -> bool {
    &&& 0 <= i < t.state.children@.len()
    &&& profile_index(t.config.children@, t.state.children@[i].id@) matches Some(p)
        && remaining_of(
            day_limit(t.config.children@[p], t.state.state_date as int),
            t.state.children@[i].today.used_seconds as int,
            clamp_i64(override_sum(t.state.admin_overrides@, t.state.children@[i].id@, t.state.state_date as int)),
        ) == 0
}

/// The profile lists `user` among its OS accounts.
pub open spec fn lists_user(c: ChildProfile, user: Seq<char>) -> bool {
    crate::browser::strings_view(c.os_users@).contains(user)
}

/// The first profile that lists `user`.
pub open spec fn detected_child(children: Seq<ChildProfile>, user: Seq<char>) -> Option<int> {
    if exists|i: int| 0 <= i < children.len() && #[trigger] lists_user(children[i], user)
        && forall|j: int| 0 <= j < i ==> !lists_user(#[trigger] children[j], user) {
        Some(choose|i: int| 0 <= i < children.len() && #[trigger] lists_user(children[i], user)
            && forall|j: int| 0 <= j < i ==> !lists_user(#[trigger] children[j], user))
    } else {
        None
    }
}

/// Individual-login mode finds a child for `user`: the user is not an
/// administrator and some profile lists them.
pub open spec fn detects(c: TimeLimitsConfig, user: Seq<char>) -> bool {
    &&& !c.shared_login.enabled
    &&& !crate::browser::strings_view(c.admin.admin_accounts@).contains(user)
    &&& detected_child(c.children@, user) is Some
}

/// Time used after one more tick (saturating at the largest `i64`).
pub open spec fn bump_used(u: i64) -> i64 {
    if u > i64::MAX - TICK_SECONDS { i64::MAX } else { (u + TICK_SECONDS) as i64 }
}

/// Closing the active session at `now` adds its length to the outgoing
/// child's time used (when that child is recorded and the sum fits).
pub open spec fn session_flushed(before: TimeTracker, after: TimeTracker, now: i64) -> bool {
    before.state.active_session matches Some(s) ==> match crate::usage::child_index(before.state.children@, s.child_id@) {
        Some(k) => {
            let used = before.state.children@[k].today.used_seconds as int;
            i64::MIN <= now - s.session_start <= i64::MAX && i64::MIN <= used + (now - s.session_start) <= i64::MAX
                ==> after.state.children@[k].today.used_seconds == used + (now - s.session_start)
        },
        None => true,
    }
}

/// A warning threshold fires when the remaining time has just crossed it:
/// `remaining ≤ w·60 < remaining + T`.
pub open spec fn warning_due(remaining: int, minutes: u32) -> bool {
    remaining <= minutes as int * 60 && minutes as int * 60 < remaining + TICK_SECONDS as int
}

/// The time-limit tracker: configuration, state and the pause switch.
pub struct TimeTracker {
    pub config: TimeLimitsConfig,
    pub state: TimeLimitsState,
    pub paused: bool,
}

impl TimeTracker {
    /// A tracker over a configuration and a loaded state.
    pub fn new(config: TimeLimitsConfig, state: TimeLimitsState) -> (r: Self)
        ensures
            r.config == config,
            r.state == state,
            !r.paused,
    {
        TimeTracker { config, state, paused: false }
    }

    /// Position of the profile with `id`.
    fn find_profile(&self, id: &String) -> (r: Option<usize>)
        ensures
            match r {
                Some(i) => i < self.config.children@.len() && self.config.children@[i as int].id@ == id@
                    && profile_index(self.config.children@, id@) == Some(i as int),
                None => profile_index(self.config.children@, id@) is None,
            },
    {
        let mut i: usize = 0;
        while i < self.config.children.len()
            invariant
                i <= self.config.children@.len(),
                forall|j: int| 0 <= j < i ==> (#[trigger] self.config.children@[j]).id@ != id@,
            decreases self.config.children@.len() - i,
        {
            if self.config.children[i].id == *id {
                proof {
                    let c = self.config.children@;
                    assert(c[i as int].id@ == id@);
                    let k = choose|k: int| 0 <= k < c.len() && (#[trigger] c[k]).id@ == id@
                        && forall|j: int| 0 <= j < k ==> (#[trigger] c[j]).id@ != id@;
                    if k < i { assert(c[k].id@ != id@); }
                    if k > i { assert(c[i as int].id@ != id@); }
                }
                return Some(i);
            }
            i = i + 1;
        }
        None
    }

    /// Pauses tracking, and the active session with it.
    pub fn pause(&mut self)
        ensures
            final(self).paused,
            final(self).state.active_session is Some <==> old(self).state.active_session is Some,
            final(self).state.active_session matches Some(s) ==> s.paused,
            final(self).state.children == old(self).state.children,
            final(self).config == old(self).config,
    {
        self.paused = true;
        match &mut self.state.active_session {
            Some(s) => { s.paused = true; },
            None => {},
        }
    }

    /// Resumes tracking.
    pub fn resume(&mut self)
        ensures
            !final(self).paused,
            final(self).state.active_session is Some <==> old(self).state.active_session is Some,
            final(self).state.active_session matches Some(s) ==> !s.paused,
            final(self).state.children == old(self).state.children,
            final(self).config == old(self).config,
    {
        self.paused = false;
        match &mut self.state.active_session {
            Some(s) => { s.paused = false; },
            None => {},
        }
    }

    /// Ends the active session at `now`, adding its length to that child's
    /// usage.
    fn end_session(&mut self, now: i64)
        ensures
            final(self).config == old(self).config,
            final(self).paused == old(self).paused,
            final(self).state.state_date == old(self).state.state_date,
            final(self).state.admin_overrides == old(self).state.admin_overrides,
            final(self).state.children@.len() == old(self).state.children@.len(),
            forall|j: int| 0 <= j < final(self).state.children@.len() ==> (#[trigger] final(self).state.children@[j]).id == old(self).state.children@[j].id,
            session_flushed(*old(self), *final(self), now),
    {
        let start = match &self.state.active_session {
            Some(s) => s.session_start,
            None => { return; },
        };
        let id = match &self.state.active_session {
            Some(s) => s.child_id.clone(),
            None => { return; },
        };
        match self.state.get_child(id.as_str()) {
            Some(i) => {
                let used = self.state.children[i].today.used_seconds;
                let elapsed: i128 = now as i128 - start as i128;
                if i64::MIN as i128 <= elapsed && elapsed <= i64::MAX as i128
                    && i64::MIN as i128 <= used as i128 + elapsed && used as i128 + elapsed <= i64::MAX as i128 {
                    self.state.children[i].today.add_session(start, now);
                }
            },
            None => {},
        }
    }

    /// In shared-login mode, makes `child_id` the active child from `now`,
    /// closing the previous child's session first.
    pub fn select_child(&mut self, child_id: &str, now: i64) -> (r: Result<(), TrackerError>)
        ensures
            r == Err::<(), TrackerError>(TrackerError::ChildNotFound) <==> profile_index(old(self).config.children@, child_id@) is None,
            r == Err::<(), TrackerError>(TrackerError::SharedLoginDisabled) <==>
                (profile_index(old(self).config.children@, child_id@) is Some && !old(self).config.shared_login.enabled),
            r is Ok <==> (profile_index(old(self).config.children@, child_id@) is Some && old(self).config.shared_login.enabled),
            r is Ok ==> {
                &&& final(self).state.active_session matches Some(s) && s.child_id@ == child_id@ && s.session_start == now && !s.paused
                &&& exists|i: int| 0 <= i < final(self).state.children@.len() && (#[trigger] final(self).state.children@[i]).id@ == child_id@
                &&& session_flushed(*old(self), *final(self), now)
            },
            r is Err ==> *final(self) == *old(self),
            final(self).config == old(self).config,
    {
        let id = child_id.to_owned();
        let p = match self.find_profile(&id) {
            Some(p) => p,
            None => { return Err(TrackerError::ChildNotFound); },
        };
        if !self.config.shared_login.enabled {
            return Err(TrackerError::SharedLoginDisabled);
        }
        let ghost start = *self;
        self.end_session(now);
        let ghost mid = *self;
        let ghost flushed = self.state.children@;
        self.state.active_session = Some(ActiveSession::new(id, now));
        let name = self.config.children[p].name.as_str();
        let i = self.state.get_or_create_child(child_id, name);
        assert(self.state.children@[i as int].id@ == child_id@);
        assert(forall|k: int| 0 <= k < flushed.len() ==> #[trigger] self.state.children@[k] == flushed[k]);
        proof {
            if let Some(s) = start.state.active_session {
                if let Some(k) = crate::usage::child_index(start.state.children@, s.child_id@) {
                    assert(exists|q: int| 0 <= q < start.state.children@.len() && (#[trigger] start.state.children@[q]).id@ == s.child_id@);
                    assert(0 <= k < start.state.children@.len());
                    assert(session_flushed(start, mid, now));
                    assert(self.state.children@[k] == mid.state.children@[k]);
                }
            }
        }
        Ok(())
    }

    /// Grants `additional_minutes` of extra time to a child for today, if
    /// `admin_password` matches the stored hash: records the override and
    /// lifts any lock.
    pub fn grant_extension(
        &mut self,
        child_id: &str,
        additional_minutes: u32,
        admin_password: &str,
        reason: Option<String>,
        granted_by: String,
        now: i64,
    ) -> (r: Result<(), TrackerError>)
        ensures
            r is Ok <==> password_check(admin_password@, old(self).config.admin.password_hash@) == Some(true),
            r is Ok ==> {
                &&& final(self).state.admin_overrides@.len() == old(self).state.admin_overrides@.len() + 1
                &&& final(self).state.admin_overrides@.drop_last() == old(self).state.admin_overrides@
                &&& final(self).state.admin_overrides@.last().child_id@ == child_id@
                &&& final(self).state.admin_overrides@.last().override_type == OverrideType::Extension
                &&& final(self).state.admin_overrides@.last().additional_seconds == Some((additional_minutes as int * 60) as i64)
                &&& final(self).state.admin_overrides@.last().granted_at == now
                &&& final(self).state.admin_overrides@.last().reason == reason
                &&& final(self).state.admin_overrides@.last().granted_by == granted_by
                &&& final(self).state.children@.len() == old(self).state.children@.len()
                &&& forall|i: int| 0 <= i < final(self).state.children@.len()
                    && crate::usage::child_index(old(self).state.children@, child_id@) != Some(i)
                    ==> #[trigger] final(self).state.children@[i] == old(self).state.children@[i]
                &&& crate::usage::child_index(old(self).state.children@, child_id@) matches Some(k) ==> {
                    let c = final(self).state.children@[k];
                    let o = old(self).state.children@[k];
                    &&& c.id == o.id
                    &&& c.name == o.name
                    &&& c.today.locked_at is None
                    &&& c.today.used_seconds == o.today.used_seconds
                    &&& c.today.remaining_seconds == o.today.remaining_seconds
                    &&& c.today.warnings_shown == o.today.warnings_shown
                    &&& c.today.sessions == o.today.sessions
                    &&& c.today.date == o.today.date
                }
                &&& final(self).state.active_session == old(self).state.active_session
            },
            r is Err ==> *final(self) == *old(self),
            final(self).config == old(self).config,
            final(self).state.state_date == old(self).state.state_date,
    {
        match AdminAuth::verify_password(admin_password, self.config.admin.password_hash.as_str()) {
            Err(e) => { return Err(TrackerError::Auth(e)); },
            Ok(false) => { return Err(TrackerError::InvalidPassword); },
            Ok(true) => {},
        }
        let seconds = additional_minutes as i64 * 60;
        self.state.admin_overrides.push(AdminOverride {
            child_id: child_id.to_owned(),
            override_type: OverrideType::Extension,
            additional_seconds: Some(seconds),
            granted_at: now,
            granted_by,
            reason,
        });
        assert(self.state.admin_overrides@.drop_last() =~= old(self).state.admin_overrides@);
        match self.state.get_child(child_id) {
            Some(i) => {
                self.state.children[i].today.unlock();
                assert(forall|q: int| 0 <= q < self.state.children@.len() && q != i
                    ==> #[trigger] self.state.children@[q] == old(self).state.children@[q]);
            },
            None => {},
        }
        Ok(())
    }

    /// Clears a child's usage for today, if `admin_password` matches: time
    /// used, sessions, warnings shown and the lock; records a reset override.
    pub fn reset_time(&mut self, child_id: &str, admin_password: &str, granted_by: String, now: i64) -> (r: Result<(), TrackerError>)
        ensures
            password_check(admin_password@, old(self).config.admin.password_hash@) != Some(true) ==> r is Err,
            password_check(admin_password@, old(self).config.admin.password_hash@) == Some(true)
                && crate::usage::child_index(old(self).state.children@, child_id@) is Some ==> r is Ok,
            r == Err::<(), TrackerError>(TrackerError::ChildNotFound) <==>
                (password_check(admin_password@, old(self).config.admin.password_hash@) == Some(true)
                && crate::usage::child_index(old(self).state.children@, child_id@) is None),
            r is Ok ==> {
                let i = crate::usage::child_index(old(self).state.children@, child_id@)->0;
                &&& final(self).state.children@.len() == old(self).state.children@.len()
                &&& final(self).state.children@[i].today.used_seconds == 0
                &&& final(self).state.children@[i].today.sessions@.len() == 0
                &&& final(self).state.children@[i].today.warnings_shown@.len() == 0
                &&& final(self).state.children@[i].today.locked_at is None
                &&& final(self).state.admin_overrides@.drop_last() == old(self).state.admin_overrides@
                &&& final(self).state.admin_overrides@.last().override_type == OverrideType::Reset
                &&& final(self).state.admin_overrides@.last().additional_seconds is None
            },
            r is Err ==> *final(self) == *old(self),
            final(self).config == old(self).config,
    {
        match AdminAuth::verify_password(admin_password, self.config.admin.password_hash.as_str()) {
            Err(e) => { return Err(TrackerError::Auth(e)); },
            Ok(false) => { return Err(TrackerError::InvalidPassword); },
            Ok(true) => {},
        }
        let i = match self.state.get_child(child_id) {
            Some(i) => i,
            None => { return Err(TrackerError::ChildNotFound); },
        };
        self.state.children[i].today.used_seconds = 0;
        self.state.children[i].today.sessions = Vec::new();
        self.state.children[i].today.warnings_shown = Vec::new();
        self.state.children[i].today.locked_at = None;
        self.state.admin_overrides.push(AdminOverride {
            child_id: child_id.to_owned(),
            override_type: OverrideType::Reset,
            additional_seconds: None,
            granted_at: now,
            granted_by,
            reason: Some("Time reset".to_owned()),
        });
        assert(self.state.admin_overrides@.drop_last() =~= old(self).state.admin_overrides@);
        Ok(())
    }
}

} // verus!

verus! {

/// The accounting a tick did for the child at position `i`: the remaining
/// time follows the day's limit, the overrides and the time used; it is
/// never negative; the child expired exactly when none is left; and every
/// warning announced is due.
pub open spec fn accounted_ok(t: TimeTracker, o: TickOutcome, i: int, today: int) -> bool {
    let c = t.state.children@[i];
    &&& 0 <= i < t.state.children@.len()
    &&& exists|p: int| 0 <= p < t.config.children@.len() && (#[trigger] t.config.children@[p]).id@ == c.id@
        && c.today.remaining_seconds == remaining_of(
            day_limit(t.config.children@[p], today),
            c.today.used_seconds as int,
            clamp_i64(override_sum(t.state.admin_overrides@, c.id@, today)),
        )
        && o.grace_period == t.config.children@[p].grace_period
        && (forall|j: int| 0 <= j < t.config.children@[p].warnings@.len()
            && warning_due(c.today.remaining_seconds as int, #[trigger] t.config.children@[p].warnings@[j])
            ==> c.today.warnings_shown@.contains(t.config.children@[p].warnings@[j]))
    &&& c.today.remaining_seconds >= 0
    &&& o.expired == (c.today.remaining_seconds == 0)
    &&& forall|k: int| 0 <= k < o.warnings@.len() ==> warning_due(c.today.remaining_seconds as int, #[trigger] o.warnings@[k])
}

impl TimeTracker {
    /// In individual mode, starts a session for the child whose OS account
    /// is `current_user` (administrators are not tracked).
    fn auto_detect_child(&mut self, current_user: &str, now: i64)
        ensures
            final(self).config == old(self).config,
            final(self).paused == old(self).paused,
            final(self).state.state_date == old(self).state.state_date,
            final(self).state.admin_overrides == old(self).state.admin_overrides,
            forall|i: int| 0 <= i < old(self).state.children@.len() ==> #[trigger] final(self).state.children@[i] == old(self).state.children@[i],
            forall|i: int| old(self).state.children@.len() <= i < final(self).state.children@.len() ==>
                fresh_day(#[trigger] final(self).state.children@[i].today, old(self).state.state_date),
            final(self).state.children@.len() >= old(self).state.children@.len(),
            final(self).state.active_session == if detects(old(self).config, current_user@) {
                Some(ActiveSession {
                    child_id: old(self).config.children@[detected_child(old(self).config.children@, current_user@)->0].id,
                    session_start: now,
                    last_activity: now,
                    paused: false,
                })
            } else {
                old(self).state.active_session
            },
    {
        if self.config.shared_login.enabled {
            return;
        }
        if AdminAuth::is_admin_account(current_user, &self.config.admin.admin_accounts) {
            return;
        }
        let user = current_user.to_owned();
        let mut p: usize = 0;
        while p < self.config.children.len()
            invariant
                p <= self.config.children@.len(),
                self.config == old(self).config,
                self.state == old(self).state,
                self.paused == old(self).paused,
                user@ == current_user@,
                !self.config.shared_login.enabled,
                !crate::browser::strings_view(self.config.admin.admin_accounts@).contains(current_user@),
                forall|j: int| 0 <= j < p ==> !lists_user(#[trigger] self.config.children@[j], current_user@),
            decreases self.config.children@.len() - p,
        {
            if crate::auth::AdminAuth::is_admin_account(user.as_str(), &self.config.children[p].os_users) {
                let id = self.config.children[p].id.clone();
                self.state.active_session = Some(ActiveSession::new(id, now));
                let name = self.config.children[p].name.as_str();
                let cid = self.config.children[p].id.as_str();
                let _ = self.state.get_or_create_child(cid, name);
                proof {
                    let c = old(self).config.children@;
                    assert(lists_user(c[p as int], current_user@));
                    let k = choose|k: int| 0 <= k < c.len() && #[trigger] lists_user(c[k], current_user@)
                        && forall|j: int| 0 <= j < k ==> !lists_user(#[trigger] c[j], current_user@);
                    if k < p { assert(!lists_user(c[k], current_user@)); }
                    if k > p { assert(!lists_user(c[p as int], current_user@)); }
                }
                return;
            }
            p = p + 1;
        }
    }

    /// One tick at `now`, with `current_user` the logged-in OS account. Starts
    /// a new day when the date changed; without an active session tries to
    /// start one and stops; while paused or locked stops; otherwise adds the
    /// tick to the active child's usage, recomputes the remaining time and
    /// reports the warnings that fall due and whether time ran out.
    pub fn tick(&mut self, now: i64, current_user: &str) -> (r: Result<TickOutcome, TrackerError>)
        ensures
            final(self).state.state_date == day_of(now),
            final(self).config == old(self).config,
            old(self).state.state_date != day_of(now) ==> {
                &&& forall|i: int| 0 <= i < final(self).state.children@.len() ==>
                    fresh_day(#[trigger] final(self).state.children@[i].today, day_of(now) as i64)
                &&& r is Ok
                &&& r->Ok_0.rolled_over
                &&& r->Ok_0.persist
                &&& r->Ok_0.accounted is None
                &&& final(self).state.admin_overrides@.len() == 0
            },
            r is Err <==> tick_fails(*old(self), now),
            old(self).state.active_session is None || old(self).state.state_date != day_of(now) ==>
                (final(self).state.active_session is Some <==> detects(old(self).config, current_user@)),
            r is Err ==> *final(self) == *old(self),
            r is Ok ==> (r->Ok_0.accounted is Some <==> tick_accounts(*old(self), now)),
            old(self).state.state_date == day_of(now) ==> {
                &&& final(self).state.admin_overrides == old(self).state.admin_overrides
                &&& final(self).state.children@.len() >= old(self).state.children@.len()
                &&& forall|k: int| 0 <= k < old(self).state.children@.len() ==>
                    (#[trigger] final(self).state.children@[k]).id == old(self).state.children@[k].id
                    && final(self).state.children@[k].today.locked_at == old(self).state.children@[k].today.locked_at
            },
            old(self).state.state_date == day_of(now) && old(self).state.active_session is Some
                && r is Ok && r->Ok_0.accounted is None ==> final(self).state.children@ == old(self).state.children@,
            r is Ok && r->Ok_0.accounted is Some ==> accounted_ok(*final(self), r->Ok_0, r->Ok_0.accounted->0 as int, day_of(now)),
            r is Ok && r->Ok_0.accounted is None ==> !r->Ok_0.expired && r->Ok_0.warnings@.len() == 0,
            r is Ok && r->Ok_0.accounted is Some ==> {
                let i = r->Ok_0.accounted->0 as int;
                let id = old(self).state.active_session->0.child_id@;
                &&& old(self).state.state_date == day_of(now)
                &&& old(self).state.active_session is Some
                &&& final(self).state.children@[i].id@ == id
                &&& final(self).state.children@[i].today.used_seconds == bump_used(
                    match crate::usage::child_index(old(self).state.children@, id) {
                        Some(k) => old(self).state.children@[k].today.used_seconds,
                        None => 0i64,
                    })
            },
    {
        let today = day_number(now);
        let rolled_over = self.state.needs_daily_reset(today);
        if rolled_over {
            self.state.reset_for_new_day(today);
        }
        let idle = TickOutcome { rolled_over, accounted: None, warnings: Vec::new(), expired: false, grace_period: 0, persist: rolled_over };
        let (child_id, session_paused) = match &self.state.active_session {
            Some(s) => (s.child_id.clone(), s.paused),
            None => {
                self.auto_detect_child(current_user, now);
                return Ok(TickOutcome { persist: true, ..idle });
            },
        };
        if self.paused || session_paused {
            return Ok(idle);
        }
        let p = match self.find_profile(&child_id) {
            Some(p) => p,
            None => { return Err(TrackerError::ChildNotFound); },
        };
        let additional = ScheduleCalculator::get_today_overrides(child_id.as_str(), &self.state.admin_overrides, today);
        let i = self.state.get_or_create_child(child_id.as_str(), self.config.children[p].name.as_str());
        if self.state.children[i].today.is_locked() {
            return Ok(idle);
        }
        let ghost snap = self.state.children@;
        let used = self.state.children[i].today.used_seconds;
        let used = if used > i64::MAX - TICK_SECONDS { i64::MAX } else { used + TICK_SECONDS };
        assert(used == bump_used(self.state.children@[i as int].today.used_seconds));
        self.state.children[i].today.used_seconds = used;
        let remaining = ScheduleCalculator::remaining_time_on(&self.config.children[p], today, used, Some(additional));
        self.state.children[i].today.remaining_seconds = remaining;

        let mut warnings: Vec<u32> = Vec::new();
        let mut k: usize = 0;
        while k < self.config.children[p].warnings.len()
            invariant
                p < self.config.children@.len(),
                i < self.state.children@.len(),
                self.config == old(self).config,
                self.state.state_date == today,
                today == day_of(now),
                self.state.children@[i as int].today.remaining_seconds == remaining,
                self.state.children@[i as int].id@ == child_id@,
                self.config.children@[p as int].id@ == child_id@,
                self.state.admin_overrides@ == old(self).state.admin_overrides@ || rolled_over,
                additional == clamp_i64(override_sum(self.state.admin_overrides@, child_id@, today as int)),
                remaining == remaining_of(day_limit(self.config.children@[p as int], today as int), used as int, additional as int),
                self.state.children@[i as int].today.used_seconds == used,
                remaining >= 0,
                forall|j: int| 0 <= j < warnings@.len() ==> warning_due(remaining as int, #[trigger] warnings@[j]),
                k <= self.config.children@[p as int].warnings@.len(),
                self.state.children@.len() == snap.len(),
                i < snap.len(),
                forall|q: int| 0 <= q < snap.len() && q != i ==> #[trigger] self.state.children@[q] == snap[q],
                self.state.children@[i as int].id == snap[i as int].id,
                self.state.children@[i as int].today.locked_at == snap[i as int].today.locked_at,
                self.state.admin_overrides == old(self).state.admin_overrides || rolled_over,
                self.paused == old(self).paused,
                forall|j: int| 0 <= j < k && warning_due(remaining as int, #[trigger] self.config.children@[p as int].warnings@[j])
                    ==> self.state.children@[i as int].today.warnings_shown@.contains(self.config.children@[p as int].warnings@[j]),
            decreases self.config.children@[p as int].warnings@.len() - k,
        {
            let w = self.config.children[p].warnings[k];
            let seconds = w as i64 * 60;
            let ghost shown_before = self.state.children@[i as int].today.warnings_shown@;
            if remaining <= seconds && seconds < remaining + TICK_SECONDS
                && self.state.children[i].today.should_show_warning(w) {
                warnings.push(w);
                self.state.children[i].today.mark_warning_shown(w);
                proof {
                    assert forall|x: u32| shown_before.contains(x) implies self.state.children@[i as int].today.warnings_shown@.contains(x) by {
                        let q = choose|q: int| 0 <= q < shown_before.len() && shown_before[q] == x;
                        assert(self.state.children@[i as int].today.warnings_shown@[q] == x);
                    }
                }
            }
            k = k + 1;
        }
        let expired = remaining <= 0;
        let grace_period = self.config.children[p].grace_period;
        let o = TickOutcome { rolled_over, accounted: Some(i), warnings, expired, grace_period, persist: true };
        assert(self.config.children@[p as int].id@ == self.state.children@[i as int].id@);
        Ok(o)
    }

    /// After the grace period, locks the child at position `i` at `now` if
    /// their time is still used up (an extension granted meanwhile cancels
    /// the lock). Returns whether the lock action is to be performed.
    pub fn finish_lock(&mut self, i: usize, now: i64) -> (r: bool)
        ensures
            r <==> lock_due(*old(self), i as int),
            r ==> final(self).state.children@[i as int].today.locked_at is Some
                && (old(self).state.children@[i as int].today.locked_at is None ==> final(self).state.children@[i as int].today.locked_at == Some(now))
                && final(self).state.children@[i as int].today.remaining_seconds == 0,
            !r && i < old(self).state.children@.len() ==> final(self).state.children@[i as int].today.locked_at == old(self).state.children@[i as int].today.locked_at,
            final(self).config == old(self).config,
            final(self).state.children@.len() == old(self).state.children@.len(),
    {
        if i >= self.state.children.len() {
            return false;
        }
        let today = self.state.state_date;
        let id = self.state.children[i].id.clone();
        let p = match self.find_profile(&id) {
            Some(p) => p,
            None => { return false; },
        };
        let additional = ScheduleCalculator::get_today_overrides(id.as_str(), &self.state.admin_overrides, today);
        let used = self.state.children[i].today.used_seconds;
        let remaining = ScheduleCalculator::remaining_time_on(&self.config.children[p], today, used, Some(additional));
        self.state.children[i].today.remaining_seconds = remaining;
        if remaining <= 0 {
            self.state.children[i].today.lock(now);
            true
        } else {
            false
        }
    }
}

/// The tracker's bound: when the time used is not negative and the day's
/// allowance is not negative, the remaining time lies between zero and the
/// day's limit plus the extra seconds granted.
pub proof fn lemma_remaining_within_allowance(limit: int, used: int, additional: int)
    requires
        used >= 0,
        limit + additional >= 0,
        limit + additional <= i64::MAX,
    ensures
        0 <= remaining_of(limit, used, additional) <= limit + additional,
{
}

} // verus!

verus! {

impl TimeTracker {
    /// The current state, for readers.
    pub fn get_state(&self) -> (r: &TimeLimitsState)
        ensures
            *r == self.state,
    {
        &self.state
    }

    /// The configuration, for readers.
    pub fn get_config(&self) -> (r: &TimeLimitsConfig)
        ensures
            *r == self.config,
    {
        &self.config
    }
}

} // verus!
