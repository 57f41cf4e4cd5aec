//! Administrator passwords and the attempt rate limiter.

use vstd::prelude::*;

verus! {

/// Why a password operation failed.
#[derive(Clone, Copy, Debug, PartialEq, Eq, Structural)]
pub enum AuthError {
    /// The password could not be hashed.
    HashFailed,
    /// The stored hash is not a valid PHC string.
    InvalidHash,
}

/// Whether a password matches a stored PHC hash: `None` when the hash does
/// not parse.
pub uninterp spec fn password_check(password: Seq<char>, hash: Seq<char>) -> Option<bool>;

/// Relies on argon2's `PasswordHash::new` and `Argon2::verify_password`:
/// parses the stored PHC string, then checks the password against it. Both
/// depend on the two texts alone.
#[verifier::external_body]
fn argon2_verify(password: &str, hash: &str) -> (r: Result<bool, AuthError>)
    ensures
        match r {
            Ok(b) => password_check(password@, hash@) == Some(b),
            Err(e) => password_check(password@, hash@) is None && e == AuthError::InvalidHash,
        },
{
    match argon2::PasswordHash::new(hash) {
        Ok(parsed) => Ok(argon2::PasswordVerifier::verify_password(&argon2::Argon2::default(), password.as_bytes(), &parsed).is_ok()),
        Err(_) => Err(AuthError::InvalidHash),
    }
}

/// Relies on argon2's `SaltString::generate` (from the OS random source) and
/// `Argon2::hash_password`: an Argon2id PHC string under a fresh salt. The
/// text depends on the salt; verifying the same password against it reruns
/// the hash with the stored salt and parameters, so it matches.
#[verifier::external_body]
fn argon2_hash(password: &str) -> (r: Result<String, AuthError>)
    ensures
        match r {
            Ok(h) => password_check(password@, h@) == Some(true),
            Err(e) => e == AuthError::HashFailed,
        },
{
    let salt = argon2::password_hash::SaltString::generate(&mut argon2::password_hash::rand_core::OsRng);
    match argon2::PasswordHasher::hash_password(&argon2::Argon2::default(), password.as_bytes(), &salt) {
        Ok(h) => Ok(h.to_string()),
        Err(_) => Err(AuthError::HashFailed),
    }
}

/// Administrator authentication.
pub struct AdminAuth;

impl AdminAuth {
    /// Hashes a password with Argon2id under a random salt; the password
    /// verifies against the result.
    pub fn hash_password(password: &str) -> (r: Result<String, AuthError>)
        ensures
            match r {
                Ok(h) => password_check(password@, h@) == Some(true),
                Err(e) => e == AuthError::HashFailed,
            },
    {
        argon2_hash(password)
    }

    /// Checks a password against a stored hash; fails when the hash does
    /// not parse.
    pub fn verify_password(password: &str, hash: &str) -> (r: Result<bool, AuthError>)
        ensures
            match r {
                Ok(b) => password_check(password@, hash@) == Some(b),
                Err(e) => password_check(password@, hash@) is None && e == AuthError::InvalidHash,
            },
    {
        argon2_verify(password, hash)
    }

    /// Whether `username` is one of the administrator accounts.
    pub fn is_admin_account(username: &str, admin_accounts: &Vec<String>) -> (r: bool)
        ensures
            r == crate::browser::strings_view(admin_accounts@).contains(username@),
    {
        let name = username.to_owned();
        let mut i: usize = 0;
        while i < admin_accounts.len()
            invariant
                i <= admin_accounts@.len(),
                name@ == username@,
                forall|j: int| 0 <= j < i ==> (#[trigger] admin_accounts@[j])@ != username@,
            decreases admin_accounts@.len() - i,
        {
            if admin_accounts[i] == name {
                assert(crate::browser::strings_view(admin_accounts@)[i as int] == username@);
                return true;
            }
            i = i + 1;
        }
        proof {
            if crate::browser::strings_view(admin_accounts@).contains(username@) {
                let j = choose|j: int| 0 <= j < admin_accounts@.len() && #[trigger] crate::browser::strings_view(admin_accounts@)[j] == username@;
                assert(admin_accounts@[j]@ == username@);
            }
        }
        false
    }
}

/// Lets verified code hold a monotonic clock reading.
#[verifier::external_type_specification]
#[verifier::external_body]
pub struct ExInstant(std::time::Instant);

/// Relies on `std::time::Instant::now`: the current monotonic instant.
#[verifier::external_body]
fn instant_now() -> (r: std::time::Instant) {
    std::time::Instant::now()
}

/// Relies on `std::time::Instant::elapsed` and `Duration::as_millis`:
/// milliseconds since `origin` (saturated into a `u64`).
#[verifier::external_body]
fn millis_since(origin: &std::time::Instant) -> (r: u64) {
    u64::try_from(origin.elapsed().as_millis()).unwrap_or(u64::MAX)
}

/// Attempts within the window that ends at `now`.
pub open spec fn recent(attempts: Seq<u64>, now: u64, window: u64) -> Seq<u64> {
    attempts.filter(|a: u64| (if now >= a { now - a } else { 0 }) < window)
}

/// A sliding-window limit on password attempts.
pub struct RateLimiter {
    /// When each counted attempt was made, in milliseconds since `origin`.
    pub attempts: Vec<u64>,
    pub max_attempts: usize,
    /// Window length in milliseconds.
    pub window_millis: u64,
    /// The instant attempt times are measured from.
    pub origin: std::time::Instant,
}

impl RateLimiter {
    /// A limiter allowing `max_attempts` per `window_seconds`.
    pub fn new(max_attempts: usize, window_seconds: u64) -> (r: Self)
        ensures
            r.attempts@.len() == 0,
            r.max_attempts == max_attempts,
            r.window_millis == if window_seconds * 1000 > u64::MAX { u64::MAX as int } else { window_seconds * 1000 },
    {
        RateLimiter {
            attempts: Vec::new(),
            max_attempts,
            window_millis: match window_seconds.checked_mul(1000) {
                Some(ms) => ms,
                None => u64::MAX,
            },
            origin: instant_now(),
        }
    }

    /// At `now`: forgets attempts older than the window, then allows and
    /// counts this attempt if fewer than the maximum remain.
    pub fn is_allowed_at(&mut self, now: u64) -> (r: bool)
        ensures
            r == (recent(old(self).attempts@, now, old(self).window_millis).len() < old(self).max_attempts),
            old(self).attempts@.len() < old(self).max_attempts ==> r,
            r ==> final(self).attempts@ == recent(old(self).attempts@, now, old(self).window_millis).push(now),
            !r ==> final(self).attempts@ == recent(old(self).attempts@, now, old(self).window_millis),
            final(self).max_attempts == old(self).max_attempts,
            final(self).window_millis == old(self).window_millis,
    {
        let ghost start = self.attempts@;
        let window = self.window_millis;
        let mut kept: Vec<u64> = Vec::new();
        let mut i: usize = 0;
        while i < self.attempts.len()
            invariant
                i <= start.len(),
                self.attempts@ == start,
                self.window_millis == window,
                kept@ == recent(start.subrange(0, i as int), now, window),
                kept@.len() <= i,
            decreases start.len() - i,
        {
            let a = self.attempts[i];
            let ghost prefix = start.subrange(0, i + 1);
            assert(prefix.drop_last() =~= start.subrange(0, i as int));
            proof {
                reveal(Seq::filter);
            }
            let age = if now >= a { now - a } else { 0 };
            if age < window {
                kept.push(a);
            }
            i = i + 1;
        }
        assert(start.subrange(0, start.len() as int) =~= start);
        self.attempts = kept;
        if self.attempts.len() < self.max_attempts {
            self.attempts.push(now);
            true
        } else {
            false
        }
    }

    /// Checks and counts an attempt now.
    pub fn is_allowed(&mut self) -> (r: bool)
        ensures
            final(self).max_attempts == old(self).max_attempts,
            final(self).window_millis == old(self).window_millis,
            old(self).max_attempts == 0 ==> !r,
            old(self).attempts@.len() < old(self).max_attempts ==> r,
    {
        let now = millis_since(&self.origin);
        self.is_allowed_at(now)
    }

    /// At `now`, how many milliseconds until another attempt is allowed:
    /// `None` when one is allowed already.
    pub fn time_until_allowed_at(&self, now: u64) -> (r: Option<u64>)
        ensures
            self.attempts@.len() < self.max_attempts ==> r is None,
            self.attempts@.len() >= self.max_attempts && self.attempts@.len() > 0 ==> {
                let elapsed = if now >= self.attempts@[0] { now - self.attempts@[0] } else { 0 };
                if elapsed < self.window_millis { r == Some((self.window_millis - elapsed) as u64) } else { r is None }
            },
            self.attempts@.len() == 0 ==> r is None,
    {
        if self.attempts.len() < self.max_attempts {
            return None;
        }
        if self.attempts.len() == 0 {
            return None;
        }
        let oldest = self.attempts[0];
        let elapsed = if now >= oldest { now - oldest } else { 0 };
        if elapsed < self.window_millis {
            Some(self.window_millis - elapsed)
        } else {
            None
        }
    }

    /// How long until another attempt is allowed now, in milliseconds.
    pub fn time_until_allowed(&self) -> (r: Option<u64>)
        ensures
            self.attempts@.len() < self.max_attempts ==> r is None,
    {
        let now = millis_since(&self.origin);
        self.time_until_allowed_at(now)
    }

    /// Forgets all attempts.
    pub fn reset(&mut self)
        ensures
            final(self).attempts@.len() == 0,
            final(self).max_attempts == old(self).max_attempts,
            final(self).window_millis == old(self).window_millis,
    {
        self.attempts = Vec::new();
    }
}

} // verus!
