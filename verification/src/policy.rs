//! The style policy: whether escape sequences are emitted at all.
//!
//! The decision combines a tty probe of standard output, the `TERM_COLOR`
//! environment flag, and an explicit force override. The policy is an
//! explicit value handed to every render, so tests can pin the probe-derived
//! part instead of depending on the terminal they run under.

use crate::color::Color;
use vstd::prelude::*;
use vstd::string::StrSliceExecFns;

verus! {

/// Whether a flag value disables styling: the literal `"0"`, or the word
/// `"false"` in any mixture of ASCII case.
pub open spec fn is_falsy_spec(s: Seq<char>) -> bool {
    (s.len() == 1 && s[0] == '0') || (s.len() == 5 && (s[0] == 'f' || s[0] == 'F') && (s[1]
        == 'a' || s[1] == 'A') && (s[2] == 'l' || s[2] == 'L') && (s[3] == 's' || s[3] == 'S') && (
    s[4] == 'e' || s[4] == 'E'))
}

/// The value of a boolean flag: `default` when the flag is unset, otherwise
/// true unless the value is falsy.
pub open spec fn flag_spec(val: Option<&str>, default: bool) -> bool {
    match val {
        None => default,
        Some(s) => !is_falsy_spec(s@),
    }
}

fn is_falsy(s: &str) -> (r: bool)
    ensures
        r == is_falsy_spec(s@),
{
    let n = s.unicode_len();
    if n == 1 {
        s.get_char(0) == '0'
    } else if n == 5 {
        let c0 = s.get_char(0);
        let c1 = s.get_char(1);
        let c2 = s.get_char(2);
        let c3 = s.get_char(3);
        let c4 = s.get_char(4);
        (c0 == 'f' || c0 == 'F') && (c1 == 'a' || c1 == 'A') && (c2 == 'l' || c2 == 'L') && (c3
            == 's' || c3 == 'S') && (c4 == 'e' || c4 == 'E')
    } else {
        false
    }
}

/// Read a boolean flag value with a default: an absent flag yields the
/// default; a present one disables only for `"0"` or a case variation of
/// `"false"`.
pub fn flag_default(val: Option<&str>, default: bool) -> (r: bool)
    ensures
        r == flag_spec(val, default),
{
    match val {
        None => default,
        Some(s) => !is_falsy(s),
    }
}

/// The handle type for standard output, opaque here: values of it are only
/// passed through to the terminal probe.
#[verifier::external_type_specification]
#[verifier::external_body]
pub struct ExStdout(std::io::Stdout);

/// Relies on `std::io::stdout` to obtain the handle for standard output.
#[verifier::external_body]
fn stdout_handle() -> std::io::Stdout {
    std::io::stdout()
}

/// Relies on `std::io::IsTerminal::is_terminal`: whether the handle refers
/// to an interactive terminal. The answer depends on how the process was
/// started, so nothing is promised of it.
#[verifier::external_body]
fn handle_is_terminal(out: &std::io::Stdout) -> bool {
    std::io::IsTerminal::is_terminal(out)
}

/// Whether standard output is attached to an interactive terminal.
pub fn hastty() -> bool {
    handle_is_terminal(&stdout_handle())
}

/// The process-wide styling decision, carried as an explicit value.
///
/// `auto` is the probe-derived default (tty attached and environment flag
/// not falsy); `force` overrides it in either direction when set.
#[derive(Clone, Copy, Debug, PartialEq, Eq, Structural)]
pub struct Policy {
    force: Option<bool>,
    auto: bool,
}

impl Policy {
    /// The force override currently in effect, if any.
    pub closed spec fn force_view(&self) -> Option<bool> {
        self.force
    }

    /// The probe-derived default used when no override is set.
    pub closed spec fn auto_view(&self) -> bool {
        self.auto
    }

    /// Whether styling is active: the force override verbatim when set,
    /// else the probe-derived default.
    pub open spec fn enabled_spec(&self) -> bool {
        match self.force_view() {
            Some(v) => v,
            None => self.auto_view(),
        }
    }

    /// A policy with the given probe-derived default and no override.
    pub fn new(auto: bool) -> (p: Policy)
        ensures
            p.force_view() == None::<bool>,
            p.auto_view() == auto,
    {
        Policy { force: None, auto }
    }

    /// A policy detected from the environment: styling defaults to on
    /// exactly when a tty is attached and the given `TERM_COLOR` value
    /// (if any) is not falsy. No override is set.
    pub fn detect(flag: Option<&str>) -> (p: Policy)
        ensures
            p.force_view() == None::<bool>,
            p.auto_view() ==> flag_spec(flag, true),
    {
        let tty = hastty();
        Policy::new(tty && flag_default(flag, true))
    }
}

impl Color {
    /// Whether styling is currently enabled under the given policy.
    pub fn enabled(p: &Policy) -> (r: bool)
        ensures
            r == p.enabled_spec(),
    {
        match p.force {
            Some(v) => v,
            None => p.auto,
        }
    }

    /// Set or clear the force override; `None` restores automatic control.
    pub fn force(p: &mut Policy, val: Option<bool>)
        ensures
            final(p).force_view() == val,
            final(p).auto_view() == old(p).auto_view(),
    {
        p.force = val;
    }

    /// Whether the override currently forces styling on.
    pub fn force_on(p: &Policy) -> (r: bool)
        ensures
            r == (p.force_view() == Some(true)),
    {
        match p.force {
            Some(v) => v,
            None => false,
        }
    }

    /// Whether the override currently forces styling off.
    pub fn force_off(p: &Policy) -> (r: bool)
        ensures
            r == (p.force_view() == Some(false)),
    {
        match p.force {
            Some(v) => !v,
            None => false,
        }
    }
}

} // verus!
