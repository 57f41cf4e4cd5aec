//! Which operations need administrator rights.

use vstd::prelude::*;

verus! {

/// Privilege levels for operations.
#[derive(Clone, Copy, Debug, PartialEq, Eq, Structural)]
pub enum PrivilegeLevel {
    /// Any user may perform the operation.
    User,
    /// Root or Administrator is required.
    Admin,
}

/// What an operation requires.
#[derive(Clone, Copy, Debug, PartialEq, Eq, Structural)]
pub struct PrivilegeCheck {
    pub required: PrivilegeLevel,
    /// Whether a dry run is allowed without admin rights.
    pub allow_dry_run: bool,
}

impl PrivilegeCheck {
    /// Requires admin rights.
    pub fn admin() -> (r: Self)
        ensures
            r == (PrivilegeCheck { required: PrivilegeLevel::Admin, allow_dry_run: false }),
    {
        PrivilegeCheck { required: PrivilegeLevel::Admin, allow_dry_run: false }
    }

    /// Requires admin rights, except for a dry run.
    pub fn admin_or_dry_run() -> (r: Self)
        ensures
            r == (PrivilegeCheck { required: PrivilegeLevel::Admin, allow_dry_run: true }),
    {
        PrivilegeCheck { required: PrivilegeLevel::Admin, allow_dry_run: true }
    }

    /// Any user.
    pub fn user() -> (r: Self)
        ensures
            r == (PrivilegeCheck { required: PrivilegeLevel::User, allow_dry_run: false }),
    {
        PrivilegeCheck { required: PrivilegeLevel::User, allow_dry_run: false }
    }
}

/// Refusal of an operation that needs admin rights.
#[derive(Clone, Copy, Debug, PartialEq, Eq, Structural)]
pub enum PrivilegeError {
    InsufficientPrivileges,
}

/// Whether the caller may proceed: user-level operations always, admin ones
/// when the process is elevated or when a permitted dry run is asked for.
pub open spec fn permitted(check: PrivilegeCheck, is_dry_run: bool, is_admin: bool) -> bool {
    match check.required {
        PrivilegeLevel::User => true,
        PrivilegeLevel::Admin => (is_dry_run && check.allow_dry_run) || is_admin,
    }
}

/// Checks an operation's privilege requirement; `is_admin` tells whether the
/// process runs as root (Unix) or elevated (Windows).
pub fn check_privileges(check: PrivilegeCheck, is_dry_run: bool, is_admin: bool) -> (r: Result<(), PrivilegeError>)
    ensures
        r is Ok <==> permitted(check, is_dry_run, is_admin),
{
    match check.required {
        PrivilegeLevel::User => Ok(()),
        PrivilegeLevel::Admin => {
            if is_dry_run && check.allow_dry_run {
                return Ok(());
            }
            if is_admin {
                Ok(())
            } else {
                Err(PrivilegeError::InsufficientPrivileges)
            }
        },
    }
}

} // verus!
