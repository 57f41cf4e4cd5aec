use family_policy::auth::{AdminAuth, RateLimiter};
use family_policy::clock::{day_number, is_weekend, weekday_of, weekday_to_string, Weekday};
use family_policy::browser::Platform;
use family_policy::enforcement::{lock_commands, supports_action, LockEnforcer};
use family_policy::limits_config::{
    validate_config, AdminConfig, ChildProfile, CustomDayLimit, EnforcementConfig, LimitsConfigError, LockAction,
    SharedLoginConfig, TimeLimit, TimeLimitSchedule, TimeLimitsConfig,
};
use family_policy::schedule::ScheduleCalculator;
use family_policy::tracker::{TimeTracker, TrackerError};
use family_policy::usage::{ChildDayRecord, DayRecord, DayUsage, TimeLimitsState, UsageHistory};

/// Monday 2024-01-01 01:00:00 UTC.
const MONDAY: i64 = 1_704_070_800;

fn make_child(os_users: Vec<String>) -> ChildProfile {
    ChildProfile {
        id: "kid1".to_string(),
        name: "Alice".to_string(),
        os_users,
        limits: TimeLimitSchedule {
            weekday: TimeLimit { hours: 2, minutes: 0 },
            weekend: TimeLimit { hours: 4, minutes: 0 },
            custom: vec![],
        },
        warnings: vec![15, 5, 1],
        grace_period: 60,
    }
}

fn make_test_config() -> TimeLimitsConfig {
    TimeLimitsConfig {
        admin: AdminConfig { password_hash: "test_hash".to_string(), admin_accounts: vec!["admin".to_string()] },
        children: vec![make_child(vec!["alice".to_string()])],
        shared_login: SharedLoginConfig { enabled: false, ..Default::default() },
        enforcement: EnforcementConfig::default(),
    }
}

fn clone_child(c: &ChildProfile) -> ChildProfile {
    ChildProfile {
        id: c.id.clone(),
        name: c.name.clone(),
        os_users: c.os_users.clone(),
        limits: TimeLimitSchedule {
            weekday: c.limits.weekday,
            weekend: c.limits.weekend,
            custom: c.limits.custom.iter().map(|r| CustomDayLimit { days: r.days.clone(), limit: r.limit }).collect(),
        },
        warnings: c.warnings.clone(),
        grace_period: c.grace_period,
    }
}

#[test]
fn test_time_limit_conversion() {
    let limit = TimeLimit { hours: 2, minutes: 30 };
    assert_eq!(limit.to_seconds(), 9000);
    let limit2 = TimeLimit::from_seconds(9000);
    assert_eq!(limit2.hours, 2);
    assert_eq!(limit2.minutes, 30);
}

#[test]
fn test_validate_config_requires_children() {
    let mut config = make_test_config();
    config.children.clear();
    assert!(validate_config(&config).is_err());
}

#[test]
fn test_validate_config_rejects_duplicate_ids() {
    let mut config = make_test_config();
    let child2 = clone_child(&config.children[0]);
    config.children.push(child2);
    assert!(validate_config(&config).is_err());
}

#[test]
fn test_validate_config_shared_login_mode() {
    let mut config = make_test_config();
    config.shared_login.enabled = true;
    config.shared_login.shared_accounts = vec!["family".to_string()];
    config.children[0].os_users.clear();
    assert!(validate_config(&config).is_ok());
}

#[test]
fn test_validate_config_shared_login_rejects_os_users() {
    let mut config = make_test_config();
    config.shared_login.enabled = true;
    config.shared_login.shared_accounts = vec!["family".to_string()];
    assert!(validate_config(&config).is_err());
}

#[test]
fn test_validate_warnings_order() {
    let mut config = make_test_config();
    config.children[0].warnings = vec![5, 10, 1];
    assert!(validate_config(&config).is_err());
}

#[test]
fn test_validate_custom_days() {
    let mut config = make_test_config();
    config.children[0].limits.custom = vec![CustomDayLimit {
        days: vec!["monday".to_string(), "wednesday".to_string()],
        limit: TimeLimit { hours: 1, minutes: 30 },
    }];
    assert!(validate_config(&config).is_ok());
}

#[test]
fn test_validate_invalid_day_name() {
    let mut config = make_test_config();
    config.children[0].limits.custom = vec![CustomDayLimit {
        days: vec!["funday".to_string()],
        limit: TimeLimit { hours: 1, minutes: 30 },
    }];
    assert!(validate_config(&config).is_err());
}

#[test]
fn limits_validation_error_variants() {
    let mut config = make_test_config();
    config.children.clear();
    assert_eq!(validate_config(&config), Err(LimitsConfigError::NoChildren));
    let mut config = make_test_config();
    let dup = clone_child(&config.children[0]);
    config.children.push(dup);
    assert_eq!(validate_config(&config), Err(LimitsConfigError::DuplicateChildId { child: 1 }));
    let mut config = make_test_config();
    config.children[0].id = String::new();
    assert_eq!(validate_config(&config), Err(LimitsConfigError::EmptyChildId { child: 0 }));
    let mut config = make_test_config();
    config.children[0].name = String::new();
    assert_eq!(validate_config(&config), Err(LimitsConfigError::EmptyChildName { child: 0 }));
    let mut config = make_test_config();
    config.children[0].warnings = vec![5, 5];
    assert_eq!(validate_config(&config), Err(LimitsConfigError::WarningsNotDescending { child: 0 }));
    let mut config = make_test_config();
    config.children[0].limits.custom = vec![CustomDayLimit { days: vec![], limit: TimeLimit { hours: 1, minutes: 0 } }];
    assert_eq!(validate_config(&config), Err(LimitsConfigError::CustomRuleWithoutDays { child: 0, rule: 0 }));
    let mut config = make_test_config();
    config.children[0].limits.custom =
        vec![CustomDayLimit { days: vec!["Monday".to_string(), "funday".to_string()], limit: TimeLimit { hours: 1, minutes: 0 } }];
    assert_eq!(validate_config(&config), Err(LimitsConfigError::InvalidDayName { child: 0, rule: 0, day: 1 }));
    let mut config = make_test_config();
    config.shared_login.enabled = true;
    config.children[0].os_users.clear();
    assert_eq!(validate_config(&config), Err(LimitsConfigError::NoSharedAccounts));
    let mut config = make_test_config();
    config.shared_login.enabled = true;
    config.shared_login.shared_accounts = vec!["family".to_string()];
    assert_eq!(validate_config(&config), Err(LimitsConfigError::SharedModeChildHasUsers { child: 0 }));
    let mut config = make_test_config();
    config.children[0].os_users.clear();
    assert_eq!(validate_config(&config), Err(LimitsConfigError::ChildWithoutUsers { child: 0 }));
}

#[test]
fn weekday_helpers() {
    assert_eq!(weekday_of(day_number(MONDAY)), Weekday::Mon);
    assert_eq!(weekday_of(0), Weekday::Thu);
    assert_eq!(day_number(-1), -1);
    assert_eq!(weekday_to_string(Weekday::Sat), "saturday");
    assert!(is_weekend(Weekday::Sun));
    assert!(!is_weekend(Weekday::Fri));
}

#[test]
fn limit_for_day_uses_custom_rules_first() {
    let mut child = make_child(vec![]);
    assert_eq!(ScheduleCalculator::get_limit_for_day(&child, "monday", Weekday::Mon), TimeLimit { hours: 2, minutes: 0 });
    assert_eq!(ScheduleCalculator::get_limit_for_day(&child, "saturday", Weekday::Sat), TimeLimit { hours: 4, minutes: 0 });
    child.limits.custom = vec![CustomDayLimit {
        days: vec!["Monday".to_string(), "wednesday".to_string()],
        limit: TimeLimit { hours: 1, minutes: 30 },
    }];
    assert_eq!(ScheduleCalculator::get_limit_for_day(&child, "monday", Weekday::Mon), TimeLimit { hours: 1, minutes: 30 });
    assert_eq!(ScheduleCalculator::get_limit_for_day(&child, "tuesday", Weekday::Tue), TimeLimit { hours: 2, minutes: 0 });
}

#[test]
fn test_calculate_remaining_time() {
    let child = make_child(vec![]);
    let remaining = ScheduleCalculator::calculate_remaining_time(&child, 3600, None);
    assert!(remaining >= 0);
}

#[test]
fn test_calculate_remaining_time_with_override() {
    let child = make_child(vec![]);
    let remaining = ScheduleCalculator::calculate_remaining_time(&child, 3600, Some(3600));
    assert!(remaining >= 0);
}

#[test]
fn test_calculate_remaining_time_over_limit() {
    let child = make_child(vec![]);
    let remaining = ScheduleCalculator::calculate_remaining_time(&child, 10800, None);
    assert_eq!(remaining, 0);
}

#[test]
fn remaining_time_on_a_known_day() {
    let child = make_child(vec![]);
    let monday = day_number(MONDAY);
    assert_eq!(ScheduleCalculator::remaining_time_on(&child, monday, 3600, None), 3600);
    assert_eq!(ScheduleCalculator::remaining_time_on(&child, monday, 3600, Some(1800)), 5400);
    assert_eq!(ScheduleCalculator::remaining_time_on(&child, monday + 5, 3600, None), 10800);
}

#[test]
fn test_is_admin_account() {
    let admin_accounts = vec!["admin".to_string(), "parent".to_string()];
    assert!(AdminAuth::is_admin_account("admin", &admin_accounts));
    assert!(AdminAuth::is_admin_account("parent", &admin_accounts));
    assert!(!AdminAuth::is_admin_account("child", &admin_accounts));
}

#[test]
fn test_rate_limiter_allows_attempts() {
    let mut limiter = RateLimiter::new(3, 60);
    assert!(limiter.is_allowed());
    assert!(limiter.is_allowed());
    assert!(limiter.is_allowed());
    assert!(!limiter.is_allowed());
}

#[test]
fn test_rate_limiter_reset() {
    let mut limiter = RateLimiter::new(2, 60);
    assert!(limiter.is_allowed());
    assert!(limiter.is_allowed());
    assert!(!limiter.is_allowed());
    limiter.reset();
    assert!(limiter.is_allowed());
}

#[test]
fn rate_limiter_window_slides() {
    let mut limiter = RateLimiter::new(2, 1);
    assert!(limiter.is_allowed_at(0));
    assert!(limiter.is_allowed_at(10));
    assert!(!limiter.is_allowed_at(20));
    assert_eq!(limiter.time_until_allowed_at(20), Some(980));
    assert!(limiter.is_allowed_at(1005));
}

#[test]
fn password_round_trip() {
    let hash = AdminAuth::hash_password("admin123").unwrap();
    assert_eq!(AdminAuth::verify_password("admin123", &hash), Ok(true));
    assert_eq!(AdminAuth::verify_password("admin124", &hash), Ok(false));
    assert!(AdminAuth::verify_password("x", "not a phc string").is_err());
}

#[test]
fn test_enforcer_creation() {
    let config = make_test_config();
    let enforcer = LockEnforcer::new(config);
    assert_eq!(enforcer.config.enforcement.action, LockAction::Lock);
    assert_eq!(enforcer.action_to_perform(false), LockAction::Lock);
}

#[test]
fn linux_test_supports_all_actions() {
    assert!(supports_action(LockAction::Lock));
    assert!(supports_action(LockAction::Logout));
    assert!(supports_action(LockAction::Shutdown));
}

#[test]
fn macos_test_supports_all_actions() {
    assert!(supports_action(LockAction::Lock));
    assert!(supports_action(LockAction::Logout));
    assert!(supports_action(LockAction::Shutdown));
}

#[test]
fn windows_test_supports_all_actions() {
    assert!(supports_action(LockAction::Lock));
    assert!(supports_action(LockAction::Logout));
    assert!(supports_action(LockAction::Shutdown));
}

#[test]
fn day_usage_warnings_and_lock() {
    let mut u = DayUsage { date: 0, used_seconds: 0, remaining_seconds: 0, sessions: vec![], warnings_shown: vec![], locked_at: None };
    assert!(u.should_show_warning(15));
    u.mark_warning_shown(15);
    u.mark_warning_shown(15);
    assert_eq!(u.warnings_shown, vec![15]);
    assert!(!u.should_show_warning(15));
    u.lock(50);
    u.lock(60);
    assert_eq!(u.locked_at, Some(50));
    u.unlock();
    assert!(!u.is_locked());
    u.add_session(100, 160);
    assert_eq!(u.used_seconds, 60);
}

#[test]
fn usage_history_keeps_ninety_days() {
    let mut h = UsageHistory::new();
    for d in 0..100 {
        h.add_record(DayRecord { date: d, children: vec![] });
    }
    assert_eq!(h.records.len(), 90);
    assert_eq!(h.records[0].date, 99);
}

fn tracker_with_password() -> TimeTracker {
    let mut config = make_test_config();
    config.admin.password_hash = AdminAuth::hash_password("admin123").unwrap();
    TimeTracker::new(config, TimeLimitsState::new(day_number(MONDAY)))
}

#[test]
fn time_limit_exhaustion_warns_then_locks() {
    let mut t = tracker_with_password();
    let first = t.tick(MONDAY, "alice").ok().unwrap();
    assert!(first.accounted.is_none());
    let mut warnings: Vec<u32> = vec![];
    let mut now = MONDAY;
    let mut expired_at = None;
    for _ in 0..720 {
        now += 10;
        let o = t.tick(now, "alice").ok().unwrap();
        warnings.extend(o.warnings.iter().copied());
        if o.expired {
            assert!(expired_at.is_none());
            assert_eq!(o.grace_period, 60);
            expired_at = Some((now, o.accounted.unwrap()));
        }
    }
    assert_eq!(warnings, vec![15, 5, 1]);
    let (at, idx) = expired_at.unwrap();
    assert_eq!(t.get_state().children[idx].today.used_seconds, 7200);
    assert!(t.finish_lock(idx, at + 60));
    assert_eq!(t.get_state().children[idx].today.locked_at, Some(at + 60));
    let after = t.tick(at + 70, "alice").ok().unwrap();
    assert!(!after.expired);
    assert_eq!(t.get_state().children[idx].today.used_seconds, 7200);
}

#[test]
fn grant_extension_after_lock() {
    let mut t = tracker_with_password();
    t.tick(MONDAY, "alice").ok().unwrap();
    let mut now = MONDAY;
    for _ in 0..720 {
        now += 10;
        t.tick(now, "alice").ok().unwrap();
    }
    assert!(t.finish_lock(0, now + 60));
    assert_eq!(
        t.grant_extension("kid1", 30, "wrong", None, "parent".to_string(), now + 70).err(),
        Some(TrackerError::InvalidPassword)
    );
    t.grant_extension("kid1", 30, "admin123", None, "parent".to_string(), now + 70).ok().unwrap();
    let state = t.get_state();
    assert!(state.children[0].today.locked_at.is_none());
    assert_eq!(state.admin_overrides.last().unwrap().additional_seconds, Some(1800));
    let o = t.tick(now + 80, "alice").ok().unwrap();
    assert_eq!(o.accounted, Some(0));
    assert_eq!(t.get_state().children[0].today.remaining_seconds, 1790);
}

#[test]
fn daily_rollover_clears_usage() {
    let mut t = tracker_with_password();
    t.tick(MONDAY, "alice").ok().unwrap();
    t.tick(MONDAY + 10, "alice").ok().unwrap();
    assert_eq!(t.get_state().children[0].today.used_seconds, 10);
    let o = t.tick(MONDAY + 86_400, "alice").ok().unwrap();
    assert!(o.rolled_over);
    let s = t.get_state();
    assert_eq!(s.children[0].today.used_seconds, 0);
    assert!(s.children[0].today.warnings_shown.is_empty());
    assert_eq!(s.state_date, day_number(MONDAY) + 1);
}

#[test]
fn pause_stops_accounting() {
    let mut t = tracker_with_password();
    t.tick(MONDAY, "alice").ok().unwrap();
    t.pause();
    t.tick(MONDAY + 10, "alice").ok().unwrap();
    assert_eq!(t.get_state().children[0].today.used_seconds, 0);
    t.resume();
    t.tick(MONDAY + 20, "alice").ok().unwrap();
    assert_eq!(t.get_state().children[0].today.used_seconds, 10);
}

#[test]
fn admins_are_not_tracked() {
    let mut t = tracker_with_password();
    t.tick(MONDAY, "admin").ok().unwrap();
    assert!(t.get_state().active_session.is_none());
    assert_eq!(t.select_child("kid1", MONDAY).err(), Some(TrackerError::SharedLoginDisabled));
    assert_eq!(t.select_child("nobody", MONDAY).err(), Some(TrackerError::ChildNotFound));
}

#[test]
fn reset_time_clears_usage() {
    let mut t = tracker_with_password();
    t.tick(MONDAY, "alice").ok().unwrap();
    t.tick(MONDAY + 10, "alice").ok().unwrap();
    t.reset_time("kid1", "admin123", "parent".to_string(), MONDAY + 20).ok().unwrap();
    assert_eq!(t.get_state().children[0].today.used_seconds, 0);
    assert_eq!(t.reset_time("nobody", "admin123", "parent".to_string(), MONDAY + 20).err(), Some(TrackerError::ChildNotFound));
}

#[test]
fn grant_with_unparsable_hash_is_an_auth_error() {
    let mut t = TimeTracker::new(make_test_config(), TimeLimitsState::new(day_number(MONDAY)));
    assert_eq!(
        t.grant_extension("kid1", 10, "anything", None, "parent".to_string(), MONDAY).err(),
        Some(TrackerError::Auth(family_policy::auth::AuthError::InvalidHash))
    );
    assert!(t.get_state().admin_overrides.is_empty());
}

#[test]
fn lock_commands_per_platform() {
    let linux = lock_commands(Platform::Linux, LockAction::Lock);
    assert_eq!(linux.len(), 9);
    assert_eq!(linux[0].program, "loginctl");
    assert_eq!(linux[0].args, vec!["lock-session".to_string()]);
    let mac = lock_commands(Platform::MacOS, LockAction::Logout);
    assert_eq!(mac[0].program, "osascript");
    assert_eq!(mac[0].args[1], "tell application \"System Events\" to log out");
    assert!(lock_commands(Platform::Windows, LockAction::Shutdown).is_empty());
}

#[test]
fn grant_during_grace_cancels_the_lock() {
    let mut t = tracker_with_password();
    t.tick(MONDAY, "alice").ok().unwrap();
    let mut now = MONDAY;
    let mut expired = false;
    for _ in 0..720 {
        now += 10;
        expired = t.tick(now, "alice").ok().unwrap().expired;
    }
    assert!(expired);
    t.grant_extension("kid1", 5, "admin123", Some("homework".to_string()), "parent".to_string(), now + 30).ok().unwrap();
    assert!(!t.finish_lock(0, now + 60));
    assert!(t.get_state().children[0].today.locked_at.is_none());
    assert_eq!(t.get_state().admin_overrides[0].reason.as_deref(), Some("homework"));
}

#[test]
fn tick_fails_without_profile() {
    let mut t = tracker_with_password();
    t.tick(MONDAY, "alice").ok().unwrap();
    t.state.active_session.as_mut().unwrap().child_id = "ghost".to_string();
    assert_eq!(t.tick(MONDAY + 10, "alice").err(), Some(TrackerError::ChildNotFound));
}

#[test]
fn history_lookup_returns_matching_records() {
    let rec = |id: &str, used: i64| ChildDayRecord {
        id: id.to_string(),
        name: id.to_string(),
        used_seconds: used,
        limit_seconds: 7200,
        sessions_count: 1,
        overrides: vec![],
    };
    let mut h = UsageHistory::new();
    h.add_record(DayRecord { date: 1, children: vec![rec("kid1", 100)] });
    h.add_record(DayRecord { date: 2, children: vec![rec("kid2", 5)] });
    h.add_record(DayRecord { date: 3, children: vec![rec("kid2", 7), rec("kid1", 300)] });
    let r = h.get_child_records("kid1", 10);
    assert_eq!(r.iter().map(|c| c.used_seconds).collect::<Vec<_>>(), vec![300, 100]);
    assert_eq!(h.get_child_records("kid1", 2).len(), 1);
    assert!(h.get_child_records("nobody", 10).is_empty());
}
