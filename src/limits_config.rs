//! The time-limit configuration and its validation.

use vstd::prelude::*;

verus! {

/// Time-limit configuration.
pub struct TimeLimitsConfig {
    pub admin: AdminConfig,
    pub children: Vec<ChildProfile>,
    pub shared_login: SharedLoginConfig,
    pub enforcement: EnforcementConfig,
}

/// Administrator settings.
pub struct AdminConfig {
    /// PHC-format password hash.
    pub password_hash: String,
    /// OS accounts exempt from time limits.
    pub admin_accounts: Vec<String>,
}

/// One child and their limits.
pub struct ChildProfile {
    pub id: String,
    pub name: String,
    /// OS accounts of this child (empty in shared-login mode).
    pub os_users: Vec<String>,
    pub limits: TimeLimitSchedule,
    /// Warning thresholds in minutes before lockout, strictly descending.
    pub warnings: Vec<u32>,
    /// Seconds between the final warning and the lock.
    pub grace_period: u64,
}

/// Default warning thresholds: 15, 5 and 1 minutes.
pub fn default_warnings() -> (r: Vec<u32>)
    ensures
        r@ == seq![15u32, 5u32, 1u32],
{
    let r = vec![15, 5, 1];
    assert(r@ =~= seq![15u32, 5u32, 1u32]);
    r
}

/// Default grace period: one minute.
pub fn default_grace_period() -> (r: u64)
    ensures
        r == 60,
{
    60
}

/// Default for flags that are on unless said otherwise.
pub fn default_true() -> (r: bool)
    ensures
        r,
{
    true
}

/// Daily limits: weekdays, weekends, and custom days.
pub struct TimeLimitSchedule {
    pub weekday: TimeLimit,
    pub weekend: TimeLimit,
    /// The first rule naming a day wins.
    pub custom: Vec<CustomDayLimit>,
}

/// A duration in hours and minutes.
#[derive(Clone, Copy, Debug, PartialEq, Eq, Structural)]
pub struct TimeLimit {
    pub hours: u32,
    pub minutes: u32,
}

/// Seconds in a limit.
pub open spec fn limit_seconds(l: TimeLimit) -> int {
    l.hours as int * 3600 + l.minutes as int * 60
}

impl TimeLimit {
    /// Total seconds.
    pub fn to_seconds(&self) -> (r: i64)
        ensures
            r == limit_seconds(*self),
    {
        (self.hours as i64) * 3600 + (self.minutes as i64) * 60
    }

    /// Whole hours and remaining whole minutes of a number of seconds.
    pub fn from_seconds(seconds: i64) -> (r: Self)
        requires
            0 <= seconds,
            seconds / 3600 <= u32::MAX,
        ensures
            r.hours == seconds / 3600,
            r.minutes == (seconds % 3600) / 60,
    {
        let hours = (seconds / 3600) as u32;
        let minutes = ((seconds % 3600) / 60) as u32;
        TimeLimit { hours, minutes }
    }
}

/// A limit for some named days.
pub struct CustomDayLimit {
    /// Lowercase day names (`monday` .. `sunday`).
    pub days: Vec<String>,
    pub limit: TimeLimit,
}

/// Shared-login mode: one OS account, children picked explicitly.
pub struct SharedLoginConfig {
    pub enabled: bool,
    pub shared_accounts: Vec<String>,
    pub require_selection: bool,
    pub allow_switching: bool,
    pub auto_select_if_unique: bool,
}

impl Default for SharedLoginConfig {
    fn default() -> (r: Self)
        ensures
            !r.enabled && r.shared_accounts@.len() == 0 && r.require_selection && !r.allow_switching
                && !r.auto_select_if_unique,
    {
        SharedLoginConfig {
            enabled: false,
            shared_accounts: Vec::new(),
            require_selection: true,
            allow_switching: false,
            auto_select_if_unique: false,
        }
    }
}

/// What happens when a child's time runs out.
#[derive(Clone, Copy, Debug, PartialEq, Eq, Structural)]
pub enum LockAction {
    Lock,
    Logout,
    Shutdown,
}

impl Default for LockAction {
    fn default() -> (r: Self)
        ensures
            r == LockAction::Lock,
    {
        LockAction::Lock
    }
}

/// Enforcement settings.
pub struct EnforcementConfig {
    pub action: LockAction,
    /// Reserved.
    pub prevent_time_manipulation: bool,
    pub require_admin_to_quit: bool,
    /// Reserved.
    pub self_protection: bool,
}

impl Default for EnforcementConfig {
    fn default() -> (r: Self)
        ensures
            r.action == LockAction::Lock && r.prevent_time_manipulation && r.require_admin_to_quit && r.self_protection,
    {
        EnforcementConfig {
            action: LockAction::Lock,
            prevent_time_manipulation: true,
            require_admin_to_quit: true,
            self_protection: true,
        }
    }
}

/// The lowercase form of a text.
pub uninterp spec fn lower_of(s: Seq<char>) -> Seq<char>;

/// Relies on `str::to_lowercase`: the lowercase mapping of the text, which
/// depends on its characters alone.
#[verifier::external_body]
pub(crate) fn lowercase(s: &str) -> (r: String)
    ensures
        r@ == lower_of(s@),
{
    s.to_lowercase()
}

/// The names of the days of the week.
pub open spec fn is_day_name(s: Seq<char>) -> bool {
    s == "monday"@ || s == "tuesday"@ || s == "wednesday"@ || s == "thursday"@ || s == "friday"@
        || s == "saturday"@ || s == "sunday"@
}

/// Whether a lowercase text names a day of the week.
pub fn is_valid_day_name(s: &String) -> (r: bool)
    ensures
        r == is_day_name(s@),
{
    let names: [&str; 7] = ["monday", "tuesday", "wednesday", "thursday", "friday", "saturday", "sunday"];
    let mut i: usize = 0;
    while i < 7
        invariant
            i <= 7,
            names@ == seq!["monday", "tuesday", "wednesday", "thursday", "friday", "saturday", "sunday"],
            forall|j: int| 0 <= j < i ==> s@ != (#[trigger] names@[j])@,
        decreases 7 - i,
    {
        let n = names[i].to_owned();
        if *s == n {
            return true;
        }
        i = i + 1;
    }
    assert(names@[0]@ == "monday"@);
    assert(names@[1]@ == "tuesday"@);
    assert(names@[2]@ == "wednesday"@);
    assert(names@[3]@ == "thursday"@);
    assert(names@[4]@ == "friday"@);
    assert(names@[5]@ == "saturday"@);
    assert(names@[6]@ == "sunday"@);
    false
}

/// Why a time-limit configuration was rejected.
#[derive(Clone, Copy, Debug, PartialEq, Eq, Structural)]
pub enum LimitsConfigError {
    NoChildren,
    /// The child at this position repeats an earlier child's id.
    DuplicateChildId { child: usize },
    EmptyChildId { child: usize },
    EmptyChildName { child: usize },
    /// Warning thresholds are not strictly descending.
    WarningsNotDescending { child: usize },
    /// A custom rule names no day.
    CustomRuleWithoutDays { child: usize, rule: usize },
    /// A custom rule names something that is not a day.
    InvalidDayName { child: usize, rule: usize, day: usize },
    /// Shared-login mode, but the child lists OS users.
    SharedModeChildHasUsers { child: usize },
    /// Shared-login mode without shared accounts.
    NoSharedAccounts,
    /// Individual mode, but the child lists no OS user.
    ChildWithoutUsers { child: usize },
}

/// Thresholds strictly descending.
pub open spec fn strictly_descending(w: Seq<u32>) -> bool {
    forall|i: int| 1 <= i < w.len() ==> #[trigger] w[i] < w[i - 1]
}

/// Every custom rule names at least one day, each a day of the week once lowercased.
pub open spec fn custom_rules_valid(rules: Seq<CustomDayLimit>) -> bool {
    forall|r: int| 0 <= r < rules.len() ==> {
        &&& (#[trigger] rules[r]).days@.len() > 0
        &&& forall|d: int| 0 <= d < rules[r].days@.len() ==> is_day_name(lower_of((#[trigger] rules[r].days@[d])@))
    }
}

/// A child profile is valid on its own.
pub open spec fn child_valid(c: ChildProfile) -> bool {
    &&& c.id@.len() > 0
    &&& c.name@.len() > 0
    &&& strictly_descending(c.warnings@)
    &&& custom_rules_valid(c.limits.custom@)
}

/// A time-limit configuration is valid: at least one child, unique ids,
/// every child valid, and the OS users consistent with the login mode.
pub open spec fn limits_config_valid(c: TimeLimitsConfig) -> bool {
    &&& c.children@.len() > 0
    &&& forall|i: int, j: int| 0 <= i < j < c.children@.len() ==> (#[trigger] c.children@[i]).id@ != (#[trigger] c.children@[j]).id@
    &&& forall|i: int| 0 <= i < c.children@.len() ==> child_valid(#[trigger] c.children@[i])
    &&& if c.shared_login.enabled {
        &&& forall|i: int| 0 <= i < c.children@.len() ==> (#[trigger] c.children@[i]).os_users@.len() == 0
        &&& c.shared_login.shared_accounts@.len() > 0
    } else {
        forall|i: int| 0 <= i < c.children@.len() ==> (#[trigger] c.children@[i]).os_users@.len() > 0
    }
}

/// Checks one child profile on its own.
fn validate_child_profile(child: &ChildProfile, index: usize) -> (r: Result<(), LimitsConfigError>)
    ensures
        r is Ok <==> child_valid(*child),
        match r {
            Err(LimitsConfigError::EmptyChildId { child: k }) => k == index && child.id@.len() == 0,
            Err(LimitsConfigError::EmptyChildName { child: k }) => k == index && child.name@.len() == 0,
            Err(LimitsConfigError::WarningsNotDescending { child: k }) => k == index && !strictly_descending(child.warnings@),
            Err(LimitsConfigError::CustomRuleWithoutDays { child: k, rule }) => k == index && rule < child.limits.custom@.len()
                && child.limits.custom@[rule as int].days@.len() == 0,
            Err(LimitsConfigError::InvalidDayName { child: k, rule, day }) => k == index && rule < child.limits.custom@.len()
                && day < child.limits.custom@[rule as int].days@.len()
                && !is_day_name(lower_of(child.limits.custom@[rule as int].days@[day as int]@)),
            Err(_) => false,
            Ok(_) => true,
        },
{
    if child.id.as_str().unicode_len() == 0 {
        return Err(LimitsConfigError::EmptyChildId { child: index });
    }
    if child.name.as_str().unicode_len() == 0 {
        return Err(LimitsConfigError::EmptyChildName { child: index });
    }
    let n = child.warnings.len();
    let mut i: usize = 1;
    while i < n
        invariant
            1 <= i,
            n == child.warnings@.len(),
            forall|k: int| 1 <= k < i && k < n ==> #[trigger] child.warnings@[k] < child.warnings@[k - 1],
        decreases n - i,
    {
        if child.warnings[i] >= child.warnings[i - 1] {
            assert(!(child.warnings@[i as int] < child.warnings@[i - 1]));
            return Err(LimitsConfigError::WarningsNotDescending { child: index });
        }
        i = i + 1;
    }
    assert(strictly_descending(child.warnings@));
    let rules = &child.limits.custom;
    let mut r: usize = 0;
    while r < rules.len()
        invariant
            r <= rules@.len(),
            rules@ == child.limits.custom@,
            strictly_descending(child.warnings@),
            child.id@.len() > 0,
            child.name@.len() > 0,
            forall|q: int| 0 <= q < r ==> {
                &&& (#[trigger] rules@[q]).days@.len() > 0
                &&& forall|d: int| 0 <= d < rules@[q].days@.len() ==> is_day_name(lower_of((#[trigger] rules@[q].days@[d])@))
            },
        decreases rules@.len() - r,
    {
        let days = &rules[r].days;
        if days.len() == 0 {
            return Err(LimitsConfigError::CustomRuleWithoutDays { child: index, rule: r });
        }
        let mut d: usize = 0;
        while d < days.len()
            invariant
                d <= days@.len(),
                r < rules@.len(),
                rules@ == child.limits.custom@,
                days@ == rules@[r as int].days@,
                forall|e: int| 0 <= e < d ==> is_day_name(lower_of((#[trigger] days@[e])@)),
            decreases days@.len() - d,
        {
            let lower = lowercase(days[d].as_str());
            if !is_valid_day_name(&lower) {
                assert(days@[d as int] == child.limits.custom@[r as int].days@[d as int]);
                return Err(LimitsConfigError::InvalidDayName { child: index, rule: r, day: d });
            }
            d = d + 1;
        }
        assert(rules@[r as int].days@.len() > 0);
        r = r + 1;
    }
    Ok(())
}

/// Validates a time-limit configuration: at least one child, unique child
/// ids, every child valid, and in shared-login mode shared accounts and no
/// per-child OS users, in individual mode OS users for every child.
pub fn validate_config(config: &TimeLimitsConfig) -> (r: Result<(), LimitsConfigError>)
    ensures
        r is Ok <==> limits_config_valid(*config),
        r == Err::<(), LimitsConfigError>(LimitsConfigError::NoChildren) <==> config.children@.len() == 0,
        match r {
            Err(LimitsConfigError::DuplicateChildId { child }) => child < config.children@.len()
                && exists|j: int| 0 <= j < child && (#[trigger] config.children@[j]).id@ == config.children@[child as int].id@,
            Err(LimitsConfigError::SharedModeChildHasUsers { child }) => config.shared_login.enabled
                && child < config.children@.len() && config.children@[child as int].os_users@.len() > 0,
            Err(LimitsConfigError::NoSharedAccounts) => config.shared_login.enabled && config.shared_login.shared_accounts@.len() == 0,
            Err(LimitsConfigError::ChildWithoutUsers { child }) => !config.shared_login.enabled
                && child < config.children@.len() && config.children@[child as int].os_users@.len() == 0,
            Err(LimitsConfigError::EmptyChildId { child }) => child < config.children@.len() && !child_valid(config.children@[child as int]),
            Err(LimitsConfigError::EmptyChildName { child }) => child < config.children@.len() && !child_valid(config.children@[child as int]),
            Err(LimitsConfigError::WarningsNotDescending { child }) => child < config.children@.len() && !child_valid(config.children@[child as int]),
            Err(LimitsConfigError::CustomRuleWithoutDays { child, .. }) => child < config.children@.len() && !child_valid(config.children@[child as int]),
            Err(LimitsConfigError::InvalidDayName { child, .. }) => child < config.children@.len() && !child_valid(config.children@[child as int]),
            _ => true,
        },
{
    let children = &config.children;
    if children.len() == 0 {
        return Err(LimitsConfigError::NoChildren);
    }
    let mut i: usize = 0;
    while i < children.len()
        invariant
            i <= children@.len(),
            children@ == config.children@,
            children@.len() > 0,
            forall|a: int, b: int| 0 <= a < b < i ==> (#[trigger] children@[a]).id@ != (#[trigger] children@[b]).id@,
            forall|a: int| 0 <= a < i ==> child_valid(#[trigger] children@[a]),
        decreases children@.len() - i,
    {
        let mut j: usize = 0;
        while j < i
            invariant
                j <= i,
                i < children@.len(),
                children@ == config.children@,
                forall|a: int| 0 <= a < j ==> (#[trigger] children@[a]).id@ != children@[i as int].id@,
            decreases i - j,
        {
            if children[j].id == children[i].id {
                assert(config.children@[j as int].id@ == config.children@[i as int].id@);
                return Err(LimitsConfigError::DuplicateChildId { child: i });
            }
            j = j + 1;
        }
        match validate_child_profile(&children[i], i) {
            Err(e) => {
                return Err(e);
            },
            Ok(()) => {},
        }
        i = i + 1;
    }
    if config.shared_login.enabled {
        let mut k: usize = 0;
        while k < children.len()
            invariant
                k <= children@.len(),
                children@ == config.children@,
                config.shared_login.enabled,
                children@.len() > 0,
                forall|a: int, b: int| 0 <= a < b < children@.len() ==> (#[trigger] children@[a]).id@ != (#[trigger] children@[b]).id@,
                forall|a: int| 0 <= a < children@.len() ==> child_valid(#[trigger] children@[a]),
                forall|a: int| 0 <= a < k ==> (#[trigger] children@[a]).os_users@.len() == 0,
            decreases children@.len() - k,
        {
            if children[k].os_users.len() > 0 {
                return Err(LimitsConfigError::SharedModeChildHasUsers { child: k });
            }
            k = k + 1;
        }
        if config.shared_login.shared_accounts.len() == 0 {
            return Err(LimitsConfigError::NoSharedAccounts);
        }
    } else {
        let mut k: usize = 0;
        while k < children.len()
            invariant
                k <= children@.len(),
                children@ == config.children@,
                !config.shared_login.enabled,
                children@.len() > 0,
                forall|a: int, b: int| 0 <= a < b < children@.len() ==> (#[trigger] children@[a]).id@ != (#[trigger] children@[b]).id@,
                forall|a: int| 0 <= a < children@.len() ==> child_valid(#[trigger] children@[a]),
                forall|a: int| 0 <= a < k ==> (#[trigger] children@[a]).os_users@.len() > 0,
            decreases children@.len() - k,
        {
            if children[k].os_users.len() == 0 {
                return Err(LimitsConfigError::ChildWithoutUsers { child: k });
            }
            k = k + 1;
        }
    }
    Ok(())
}

} // verus!
