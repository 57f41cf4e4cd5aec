//! The polling agent: configuration, jittered scheduling, fetch outcomes and retries.

use vstd::prelude::*;

use crate::state::{AppliedPolicies, compute_config_hash, content_hash};

verus! {

/// Where the policy document is fetched from.
pub struct GitHubConfig {
    /// HTTPS URL of the policy document.
    pub policy_url: String,
    /// Token for private repositories.
    pub access_token: Option<String>,
}

/// Polling and retry settings.
pub struct AgentSettings {
    /// Seconds between polls; at least 60.
    pub poll_interval: u64,
    /// Largest random delay, in seconds, added to each poll interval.
    pub poll_jitter: u64,
    /// Seconds before the first retry; doubled for each further one.
    pub retry_interval: u64,
    pub max_retries: u32,
}

/// Logging settings.
pub struct LoggingConfig {
    pub level: String,
    pub file: Option<String>,
}

/// Reserved security settings.
pub struct SecurityConfig {
    pub require_signature: bool,
    pub trusted_key: Option<String>,
}

/// The agent's own configuration.
pub struct AgentConfig {
    pub github: GitHubConfig,
    pub agent: AgentSettings,
    pub logging: LoggingConfig,
    pub security: SecurityConfig,
}

/// Default poll interval: five minutes.
pub fn default_poll_interval() -> (r: u64)
    ensures
        r == 300,
{
    300
}

/// Default jitter: one minute.
pub fn default_jitter() -> (r: u64)
    ensures
        r == 60,
{
    60
}

/// Default first retry delay: one minute.
pub fn default_retry_interval() -> (r: u64)
    ensures
        r == 60,
{
    60
}

/// Default number of retries.
pub fn default_max_retries() -> (r: u32)
    ensures
        r == 3,
{
    3
}

/// Default log level.
pub fn default_log_level() -> (r: String)
    ensures
        r@ == "info"@,
{
    "info".to_owned()
}

impl Default for AgentSettings {
    fn default() -> (r: Self)
        ensures
            r.poll_interval == 300 && r.poll_jitter == 60 && r.retry_interval == 60 && r.max_retries == 3,
    {
        AgentSettings {
            poll_interval: default_poll_interval(),
            poll_jitter: default_jitter(),
            retry_interval: default_retry_interval(),
            max_retries: default_max_retries(),
        }
    }
}

impl Default for LoggingConfig {
    fn default() -> (r: Self)
        ensures
            r.level@ == "info"@ && r.file is None,
    {
        LoggingConfig { level: default_log_level(), file: None }
    }
}

impl Default for SecurityConfig {
    fn default() -> (r: Self)
        ensures
            !r.require_signature && r.trusted_key is None,
    {
        SecurityConfig { require_signature: false, trusted_key: None }
    }
}

/// The scheme of a URL as the URL parser reads it, or `None` when the text
/// is no URL.
pub uninterp spec fn url_scheme_of(s: Seq<char>) -> Option<Seq<char>>;

/// Relies on url's `Url::parse` and `Url::scheme`: parses the text as a URL
/// and gives its scheme; the result depends on the text alone.
#[verifier::external_body]
fn parse_url_scheme(s: &str) -> (r: Option<String>)
    ensures
        match r {
            Some(x) => url_scheme_of(s@) == Some(x@),
            None => url_scheme_of(s@) is None,
        },
{
    url::Url::parse(s).ok().map(|u| u.scheme().to_owned())
}

/// Why an agent configuration or a policy URL was rejected.
#[derive(Clone, Copy, Debug, PartialEq, Eq, Structural)]
pub enum AgentConfigError {
    InvalidUrl,
    NotHttps,
    PollIntervalTooShort,
}

/// The outcome of checking a parsed URL scheme.
pub open spec fn scheme_check(scheme: Option<Seq<char>>) -> Result<(), AgentConfigError> {
    match scheme {
        None => Err(AgentConfigError::InvalidUrl),
        Some(s) => if s == "https"@ { Ok(()) } else { Err(AgentConfigError::NotHttps) },
    }
}

/// Accepts only the `https` scheme.
pub fn check_url_scheme(scheme: Option<&str>) -> (r: Result<(), AgentConfigError>)
    ensures
        r == scheme_check(crate::config::opt_str_view(scheme)),
{
    match scheme {
        None => Err(AgentConfigError::InvalidUrl),
        Some(s) => {
            let given = s.to_owned();
            let https = "https".to_owned();
            if given == https { Ok(()) } else { Err(AgentConfigError::NotHttps) }
        },
    }
}

/// Rejects a policy URL that does not parse or is not HTTPS.
pub fn validate_policy_url(url: &str) -> (r: Result<(), AgentConfigError>)
    ensures
        r == scheme_check(url_scheme_of(url@)),
{
    let scheme = parse_url_scheme(url);
    match scheme {
        Some(s) => check_url_scheme(Some(s.as_str())),
        None => check_url_scheme(None),
    }
}

/// The outcome of validating an agent configuration.
pub open spec fn agent_config_check(c: AgentConfig) -> Result<(), AgentConfigError> {
    match scheme_check(url_scheme_of(c.github.policy_url@)) {
        Err(e) => Err(e),
        Ok(_) => if c.agent.poll_interval < 60 { Err(AgentConfigError::PollIntervalTooShort) } else { Ok(()) },
    }
}

impl AgentConfig {
    /// Checks the policy URL (it must parse and use HTTPS), then that polls
    /// are at least 60 seconds apart.
    pub fn validate(&self) -> (r: Result<(), AgentConfigError>)
        ensures
            r == agent_config_check(*self),
    {
        match validate_policy_url(self.github.policy_url.as_str()) {
            Err(e) => Err(e),
            Ok(()) => if self.agent.poll_interval < 60 { Err(AgentConfigError::PollIntervalTooShort) } else { Ok(()) },
        }
    }
}

/// Relies on rand's `thread_rng().gen_range(0..=max)`: a uniformly drawn
/// number between 0 and `max` inclusive (the range is never empty).
#[verifier::external_body]
fn random_up_to(max: u64) -> (r: u64)
    ensures
        r <= max,
{
    rand::Rng::gen_range(&mut rand::thread_rng(), 0..=max)
}

/// A poll timer: each interval is the base plus a random jitter.
pub struct PollingScheduler {
    /// Base interval, in seconds.
    pub base_interval: u64,
    /// Largest jitter, in seconds.
    pub jitter_range: u64,
}

impl PollingScheduler {
    /// A scheduler with the given base interval and jitter, in seconds.
    pub fn new(interval_secs: u64, jitter_secs: u64) -> (r: Self)
        requires
            interval_secs + jitter_secs <= u64::MAX,
        ensures
            r.base_interval == interval_secs,
            r.jitter_range == jitter_secs,
    {
        PollingScheduler { base_interval: interval_secs, jitter_range: jitter_secs }
    }

    /// Scheduler invariant: the longest interval fits in a `u64`.
    pub open spec fn wf(&self) -> bool {
        self.base_interval + self.jitter_range <= u64::MAX
    }

    /// The interval for a given jitter: the base plus the jitter (never less
    /// than the base).
    pub fn interval_with_jitter(&self, jitter: u64) -> (r: u64)
        requires
            self.wf(),
            jitter <= self.jitter_range,
        ensures
            r == self.base_interval + jitter,
    {
        self.base_interval + jitter
    }

    /// The next sleep interval, in seconds: the base plus a jitter drawn
    /// uniformly from `0..=jitter_range`.
    pub fn calculate_next_interval(&self) -> (r: u64)
        requires
            self.wf(),
        ensures
            self.base_interval <= r <= self.base_interval + self.jitter_range,
    {
        let jitter = random_up_to(self.jitter_range);
        self.interval_with_jitter(jitter)
    }
}

/// Relies on uuid's `Uuid::new_v4` and its `to_string`: a random version-4
/// identifier in hyphenated form. Nothing is promised of its value.
#[verifier::external_body]
fn new_machine_id() -> (r: String) {
    uuid::Uuid::new_v4().to_string()
}

/// The daemon's persisted state.
pub struct AgentState {
    pub version: String,
    /// Random identifier of this machine, made on first run.
    pub machine_id: String,
    /// Hash of the last applied document.
    pub config_hash: Option<String>,
    /// When a document was last applied (seconds since the epoch).
    pub last_updated: Option<i64>,
    /// When the source was last checked (seconds since the epoch).
    pub last_checked: Option<i64>,
    /// Entity tag of the last response.
    pub github_etag: Option<String>,
    pub applied_policies: AppliedPolicies,
}

impl AgentState {
    /// A fresh state with a new machine identifier and nothing applied.
    pub fn new() -> (r: Self)
        ensures
            r.version@ == crate::state::STATE_VERSION@,
            r.config_hash is None,
            r.last_updated is None,
            r.last_checked is None,
            r.github_etag is None,
            r.applied_policies.chrome is None && r.applied_policies.firefox is None && r.applied_policies.edge is None,
    {
        AgentState {
            version: crate::state::STATE_VERSION.to_owned(),
            machine_id: new_machine_id(),
            config_hash: None,
            last_updated: None,
            last_checked: None,
            github_etag: None,
            applied_policies: AppliedPolicies::default(),
        }
    }

    /// A loaded state is used only when its version is the current one;
    /// otherwise it counts as absent.
    pub fn accept_loaded(state: AgentState) -> (r: Option<AgentState>)
        ensures
            r is Some <==> state.version@ == crate::state::STATE_VERSION@,
            r is Some ==> r->0 == state,
    {
        let current = crate::state::STATE_VERSION.to_owned();
        if state.version == current { Some(state) } else { None }
    }

    /// Records a check at `now`; nothing else changes.
    pub fn mark_checked_at(&mut self, now: i64)
        ensures
            final(self).last_checked == Some(now),
            final(self).config_hash == old(self).config_hash,
            final(self).github_etag == old(self).github_etag,
            final(self).last_updated == old(self).last_updated,
            final(self).applied_policies == old(self).applied_policies,
            final(self).version == old(self).version,
            final(self).machine_id == old(self).machine_id,
    {
        self.last_checked = Some(now);
    }

    /// Records a check now.
    pub fn update_checked(&mut self)
        ensures
            final(self).last_checked is Some,
            final(self).config_hash == old(self).config_hash,
            final(self).github_etag == old(self).github_etag,
            final(self).last_updated == old(self).last_updated,
            final(self).applied_policies == old(self).applied_policies,
            final(self).version == old(self).version,
            final(self).machine_id == old(self).machine_id,
    {
        let now = crate::clock::now_unix_seconds();
        self.mark_checked_at(now);
    }

    /// Records a successful apply at `now`: hash, entity tag, applied
    /// policies and both timestamps change together.
    pub fn mark_applied_at(&mut self, config_hash: String, etag: Option<String>, applied_policies: AppliedPolicies, now: i64)
        ensures
            final(self).config_hash == Some(config_hash),
            final(self).github_etag == etag,
            final(self).applied_policies == applied_policies,
            final(self).last_updated == Some(now),
            final(self).last_checked == Some(now),
            final(self).version == old(self).version,
            final(self).machine_id == old(self).machine_id,
    {
        self.config_hash = Some(config_hash);
        self.last_updated = Some(now);
        self.last_checked = Some(now);
        self.github_etag = etag;
        self.applied_policies = applied_policies;
    }

    /// Records a successful apply now.
    pub fn update_applied(&mut self, config_hash: String, etag: Option<String>, applied_policies: AppliedPolicies)
        ensures
            final(self).config_hash == Some(config_hash),
            final(self).github_etag == etag,
            final(self).applied_policies == applied_policies,
            final(self).last_updated is Some,
            final(self).last_checked == final(self).last_updated,
            final(self).version == old(self).version,
            final(self).machine_id == old(self).machine_id,
    {
        let now = crate::clock::now_unix_seconds();
        self.mark_applied_at(config_hash, etag, applied_policies, now);
    }

    /// Records a new entity tag checked at `now`, without an apply.
    pub fn mark_etag_at(&mut self, etag: Option<String>, now: i64)
        ensures
            final(self).github_etag == etag,
            final(self).last_checked == Some(now),
            final(self).config_hash == old(self).config_hash,
            final(self).last_updated == old(self).last_updated,
            final(self).applied_policies == old(self).applied_policies,
            final(self).version == old(self).version,
            final(self).machine_id == old(self).machine_id,
    {
        self.github_etag = etag;
        self.last_checked = Some(now);
    }

    /// Records a new entity tag checked now, without an apply.
    pub fn update_etag(&mut self, etag: Option<String>)
        ensures
            final(self).github_etag == etag,
            final(self).last_checked is Some,
            final(self).config_hash == old(self).config_hash,
            final(self).last_updated == old(self).last_updated,
            final(self).applied_policies == old(self).applied_policies,
            final(self).version == old(self).version,
            final(self).machine_id == old(self).machine_id,
    {
        let now = crate::clock::now_unix_seconds();
        self.mark_etag_at(etag, now);
    }
}

} // verus!

verus! {

/// What a conditional fetch of the policy document returned.
pub enum PolicyFetchResult {
    /// 304: the document has not changed since the given entity tag.
    NotModified,
    /// 200: the document, with the response's entity tag if any.
    Updated { content: String, etag: Option<String> },
}

/// Why a fetch failed.
#[derive(Clone, Copy, Debug, PartialEq, Eq, Structural)]
pub enum FetchError {
    /// 401 or 403.
    Permission { status: u16 },
    /// 404.
    NotFound,
    /// Any other status.
    Transport { status: u16 },
}

/// The outcome a response status maps to: 200 is the document, 304 not
/// modified, 401/403 a permission error, 404 not found, anything else a
/// transport error.
pub open spec fn status_outcome(status: u16) -> Option<FetchError> {
    if status == 200 || status == 304 {
        None
    } else if status == 401 || status == 403 {
        Some(FetchError::Permission { status })
    } else if status == 404 {
        Some(FetchError::NotFound)
    } else {
        Some(FetchError::Transport { status })
    }
}

/// Interprets a response: its status, its body (read only for 200) and its
/// `ETag` header.
pub fn classify_response(status: u16, body: String, etag: Option<String>) -> (r: Result<PolicyFetchResult, FetchError>)
    ensures
        status == 200 ==> (r matches Ok(PolicyFetchResult::Updated { content, etag: e }) && content == body && e == etag),
        status == 304 ==> (r matches Ok(PolicyFetchResult::NotModified)),
        status != 200 && status != 304 ==> r == Err::<PolicyFetchResult, FetchError>(status_outcome(status)->0),
{
    if status == 200 {
        Ok(PolicyFetchResult::Updated { content: body, etag })
    } else if status == 304 {
        Ok(PolicyFetchResult::NotModified)
    } else if status == 401 || status == 403 {
        Err(FetchError::Permission { status })
    } else if status == 404 {
        Err(FetchError::NotFound)
    } else {
        Err(FetchError::Transport { status })
    }
}

/// Only transport errors are worth retrying; a permission or not-found
/// error waits for the next poll.
pub fn is_retryable(e: FetchError) -> (r: bool)
    ensures
        r == (e is Transport),
{
    matches!(e, FetchError::Transport { .. })
}

/// What the daemon does after a fetch.
pub enum FetchDecision {
    /// Not modified: record the check only.
    MarkChecked,
    /// Same content as applied: record the new entity tag only.
    RecordEtag { etag: Option<String> },
    /// New content: parse, apply and record under this hash.
    Apply { hash: String, etag: Option<String>, content: String },
}

/// Decides what a fetch result calls for, given the hash of the document
/// applied last: unchanged content (same SHA-256 hash) is not applied again.
pub fn decide_after_fetch(current_hash: &Option<String>, result: PolicyFetchResult) -> (r: FetchDecision)
    ensures
        result is NotModified ==> r is MarkChecked,
        result matches PolicyFetchResult::Updated { content, etag } ==> {
            let h = content_hash(content@);
            if (current_hash matches Some(c) && c@ == h) {
                (r matches FetchDecision::RecordEtag { etag: e } && e == etag)
            } else {
                (r matches FetchDecision::Apply { hash, etag: e, content: body } && hash@ == h && e == etag && body == content)
            }
        },
{
    match result {
        PolicyFetchResult::NotModified => FetchDecision::MarkChecked,
        PolicyFetchResult::Updated { content, etag } => {
            let hash = compute_config_hash(content.as_str());
            let same = match current_hash {
                Some(h) => *h == hash,
                None => false,
            };
            if same {
                FetchDecision::RecordEtag { etag }
            } else {
                FetchDecision::Apply { hash, etag, content }
            }
        },
    }
}

} // verus!

verus! {

/// Two to the power `n`.
pub open spec fn pow2(n: nat) -> nat
    decreases n,
{
    if n == 0 { 1 } else { 2 * pow2((n - 1) as nat) }
}

/// Delay before retry number `attempt` (counting from 1):
/// `retry_interval × 2^(attempt−1)` seconds, or `None` when that does not
/// fit in a `u64`.
pub fn retry_delay(retry_interval: u64, attempt: u32) -> (r: Option<u64>)
    requires
        attempt >= 1,
    ensures
        r is Some <==> retry_interval * pow2((attempt - 1) as nat) <= u64::MAX,
        r is Some ==> r->0 == retry_interval * pow2((attempt - 1) as nat),
{
    let mut delay: u64 = retry_interval;
    let mut k: u32 = 1;
    assert(pow2(0) == 1);
    assert(retry_interval * pow2(0) == retry_interval);
    while k < attempt
        invariant
            1 <= k <= attempt,
            delay == retry_interval * pow2((k - 1) as nat),
        decreases attempt - k,
    {
        assert(pow2(k as nat) == 2 * pow2((k - 1) as nat));
        match delay.checked_mul(2) {
            Some(d) => {
                delay = d;
            },
            None => {
                proof {
                    assert(2 * delay == retry_interval * pow2(k as nat)) by (nonlinear_arith)
                        requires
                            delay == retry_interval * pow2((k - 1) as nat),
                            pow2(k as nat) == 2 * pow2((k - 1) as nat),
                    ;
                    lemma_pow2_grows(retry_interval, k as nat, (attempt - 1) as nat);
                }
                return None;
            },
        }
        assert(delay == retry_interval * pow2(k as nat)) by (nonlinear_arith)
            requires
                delay == 2 * (retry_interval * pow2((k - 1) as nat)),
                pow2(k as nat) == 2 * pow2((k - 1) as nat),
        ;
        k = k + 1;
    }
    Some(delay)
}

/// A product with a larger power of two is no smaller.
proof fn lemma_pow2_grows(base: u64, a: nat, b: nat)
    requires
        a <= b,
    ensures
        base * pow2(a) <= base * pow2(b),
    decreases b - a,
{
    if a < b {
        lemma_pow2_grows(base, a, (b - 1) as nat);
        assert(pow2(b) == 2 * pow2((b - 1) as nat));
        assert(base * pow2((b - 1) as nat) <= base * pow2(b)) by (nonlinear_arith)
            requires
                pow2(b) == 2 * pow2((b - 1) as nat),
        ;
    }
}

/// After `retries` failed retries of an iteration, the delay before the next
/// one, or `None` when the retries are used up (or the delay overflows).
pub fn next_retry(retries: u32, max_retries: u32, retry_interval: u64) -> (r: Option<u64>)
    ensures
        retries >= max_retries ==> r is None,
        retries < max_retries ==> (r is Some <==> retry_interval * pow2(retries as nat) <= u64::MAX),
        r is Some ==> r->0 == retry_interval * pow2(retries as nat),
{
    if retries >= max_retries {
        return None;
    }
    retry_delay(retry_interval, retries + 1)
}

} // verus!
