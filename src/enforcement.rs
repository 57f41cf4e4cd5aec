//! Which lock action to perform and the commands that perform it.

use vstd::prelude::*;

use crate::browser::Platform;
use crate::limits_config::{LockAction, TimeLimitsConfig};

verus! {

/// Whether the platform can perform an action. Windows, macOS and Linux all
/// offer lock, logout and shutdown.
pub fn supports_action(action: LockAction) -> (r: bool)
    ensures
        r,
{
    match action {
        LockAction::Lock => true,
        LockAction::Logout => true,
        LockAction::Shutdown => true,
    }
}

/// Decides the lock actions; the caller performs them.
pub struct LockEnforcer {
    pub config: TimeLimitsConfig,
}

impl LockEnforcer {
    /// An enforcer for a configuration.
    pub fn new(config: TimeLimitsConfig) -> (r: Self)
        ensures
            r.config == config,
    {
        LockEnforcer { config }
    }

    /// The action to perform when time runs out: the configured one when the
    /// platform supports it, else a plain lock.
    pub fn action_to_perform(&self, supported: bool) -> (r: LockAction)
        ensures
            r == if supported { self.config.enforcement.action } else { LockAction::Lock },
    {
        if supported { self.config.enforcement.action } else { LockAction::Lock }
    }

    /// The action to perform on this platform.
    pub fn enforce_lock(&self) -> (r: LockAction)
        ensures
            r == self.config.enforcement.action,
    {
        let action = self.config.enforcement.action;
        self.action_to_perform(supports_action(action))
    }
}

/// A command to run: program and arguments.
pub struct LockCommand {
    pub program: String,
    pub args: Vec<String>,
}

/// The spec form of a command.
pub open spec fn command_view(c: LockCommand) -> (Seq<char>, Seq<Seq<char>>) {
    (c.program@, c.args@.map_values(|a: String| a@))
}

/// Views of a list of string slices.
pub open spec fn strs_view(v: Seq<&str>) -> Seq<Seq<char>> {
    v.map_values(|a: &str| a@)
}

fn command(program: &str, args: &[&str]) -> (r: LockCommand)
    ensures
        command_view(r) == (program@, strs_view(args@)),
{
    let mut owned: Vec<String> = Vec::new();
    let mut i: usize = 0;
    while i < args.len()
        invariant
            i <= args@.len(),
            owned@.len() == i,
            forall|j: int| 0 <= j < i ==> #[trigger] owned@[j]@ == args@[j]@,
        decreases args@.len() - i,
    {
        owned.push(args[i].to_owned());
        i = i + 1;
    }
    let r = LockCommand { program: program.to_owned(), args: owned };
    assert(r.args@.map_values(|a: String| a@) =~= strs_view(args@));
    r
}

/// The AppleScript that performs an action on macOS.
pub open spec fn macos_script(a: LockAction) -> Seq<char> {
    match a {
        LockAction::Lock => "tell application \"System Events\" to keystroke \"q\" using {command down, control down}"@,
        LockAction::Logout => "tell application \"System Events\" to log out"@,
        LockAction::Shutdown => "tell application \"System Events\" to shut down"@,
    }
}

/// The commands that perform an action, tried in order until one succeeds:
/// on Linux a list of desktop tools, on macOS an AppleScript, on Windows
/// none (the system API is called directly).
pub open spec fn lock_plan(p: Platform, a: LockAction) -> Seq<(Seq<char>, Seq<Seq<char>>)> {
    match p {
        Platform::Windows => seq![],
        Platform::MacOS => seq![("osascript"@, seq!["-e"@, macos_script(a)])],
        Platform::Linux => match a {
            LockAction::Lock => seq![
                ("loginctl"@, seq!["lock-session"@]),
                ("xdg-screensaver"@, seq!["lock"@]),
                ("gnome-screensaver-command"@, seq!["--lock"@]),
                ("cinnamon-screensaver-command"@, seq!["--lock"@]),
                ("mate-screensaver-command"@, seq!["--lock"@]),
                ("xscreensaver-command"@, seq!["-lock"@]),
                ("light-locker-command"@, seq!["--lock"@]),
                ("i3lock"@, seq!["-c"@, "000000"@]),
                ("slock"@, seq![]),
            ],
            LockAction::Logout => seq![
                ("loginctl"@, seq!["terminate-user"@, ""@]),
                ("gnome-session-quit"@, seq!["--logout"@, "--no-prompt"@]),
                ("qdbus"@, seq!["org.kde.ksmserver"@, "/KSMServer"@, "logout"@, "0"@, "0"@, "0"@]),
                ("xfce4-session-logout"@, seq!["--logout"@]),
            ],
            LockAction::Shutdown => seq![
                ("systemctl"@, seq!["poweroff"@]),
                ("shutdown"@, seq!["-h"@, "now"@]),
                ("poweroff"@, seq![]),
            ],
        },
    }
}

/// The commands that perform `action` on `platform`, in the order to try them.
pub fn lock_commands(platform: Platform, action: LockAction) -> (r: Vec<LockCommand>)
    ensures
        r@.map_values(|c: LockCommand| command_view(c)) == lock_plan(platform, action),
{
    let mut out: Vec<LockCommand> = Vec::new();
    match platform {
        Platform::Windows => {},
        Platform::MacOS => {
            let script = match action {
                LockAction::Lock => "tell application \"System Events\" to keystroke \"q\" using {command down, control down}",
                LockAction::Logout => "tell application \"System Events\" to log out",
                LockAction::Shutdown => "tell application \"System Events\" to shut down",
            };
            out.push(command("osascript", &["-e", script]));
        },
        Platform::Linux => match action {
            LockAction::Lock => {
                out.push(command("loginctl", &["lock-session"]));
                out.push(command("xdg-screensaver", &["lock"]));
                out.push(command("gnome-screensaver-command", &["--lock"]));
                out.push(command("cinnamon-screensaver-command", &["--lock"]));
                out.push(command("mate-screensaver-command", &["--lock"]));
                out.push(command("xscreensaver-command", &["-lock"]));
                out.push(command("light-locker-command", &["--lock"]));
                out.push(command("i3lock", &["-c", "000000"]));
                out.push(command("slock", &[]));
            },
            LockAction::Logout => {
                out.push(command("loginctl", &["terminate-user", ""]));
                out.push(command("gnome-session-quit", &["--logout", "--no-prompt"]));
                out.push(command("qdbus", &["org.kde.ksmserver", "/KSMServer", "logout", "0", "0", "0"]));
                out.push(command("xfce4-session-logout", &["--logout"]));
            },
            LockAction::Shutdown => {
                out.push(command("systemctl", &["poweroff"]));
                out.push(command("shutdown", &["-h", "now"]));
                out.push(command("poweroff", &[]));
            },
        },
    }
    assert(out@.map_values(|c: LockCommand| command_view(c)) =~~= lock_plan(platform, action));
    out
}

} // verus!

