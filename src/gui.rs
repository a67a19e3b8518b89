//! Values the graphical front-end shows: connection status, errors, and
//! human-readable durations.

use vstd::prelude::*;
use crate::text::{concat, decimal, owned, u64_to_decimal};

verus! {

/// An error as the front-end reports it.
#[derive(Debug, Clone, PartialEq, Eq)]
pub enum GuiError {
    AuthFailed { reason: String },
    NetworkUnreachable { details: String },
    ConfigInvalid { field: String, reason: String },
    ConnectionClosed { reason: String },
    Ipc(String),
    Daemon(String),
    Timeout(String),
    PermissionDenied(String),
    Other(String),
}

/// The state of the client connection.
#[derive(Debug, Clone, PartialEq, Eq)]
pub enum ConnectionStatus {
    Disconnected,
    Connecting,
    Connected,
    Error(GuiError),
}

/// The text an error is shown as.
pub open spec fn spec_message(e: GuiError) -> Seq<char> {
    match e {
        GuiError::AuthFailed { reason } => "Authentication failed: "@ + reason@,
        GuiError::NetworkUnreachable { details } => "Network unreachable: "@ + details@,
        GuiError::ConfigInvalid { field, reason } => "Configuration invalid: "@ + field@ + " - "@
            + reason@,
        GuiError::ConnectionClosed { reason } => "Connection closed: "@ + reason@,
        GuiError::Ipc(m) => "IPC error: "@ + m@,
        GuiError::Daemon(m) => "Daemon error: "@ + m@,
        GuiError::Timeout(m) => "Timeout: "@ + m@,
        GuiError::PermissionDenied(m) => "Permission denied: "@ + m@,
        GuiError::Other(m) => m@,
    }
}

impl GuiError {
    pub fn auth_failed(reason: String) -> (r: GuiError)
        ensures
            r matches GuiError::AuthFailed { reason: x } && x@ == reason@,
    {
        GuiError::AuthFailed { reason }
    }

    pub fn network_unreachable(details: String) -> (r: GuiError)
        ensures
            r matches GuiError::NetworkUnreachable { details: x } && x@ == details@,
    {
        GuiError::NetworkUnreachable { details }
    }

    pub fn config_invalid(field: String, reason: String) -> (r: GuiError)
        ensures
            r matches GuiError::ConfigInvalid { field: f, reason: x } && f@ == field@ && x@
                == reason@,
    {
        GuiError::ConfigInvalid { field, reason }
    }

    pub fn connection_closed(reason: String) -> (r: GuiError)
        ensures
            r matches GuiError::ConnectionClosed { reason: x } && x@ == reason@,
    {
        GuiError::ConnectionClosed { reason }
    }

    pub fn ipc(msg: String) -> (r: GuiError)
        ensures
            r matches GuiError::Ipc(x) && x@ == msg@,
    {
        GuiError::Ipc(msg)
    }

    pub fn daemon(msg: String) -> (r: GuiError)
        ensures
            r matches GuiError::Daemon(x) && x@ == msg@,
    {
        GuiError::Daemon(msg)
    }

    pub fn timeout(msg: String) -> (r: GuiError)
        ensures
            r matches GuiError::Timeout(x) && x@ == msg@,
    {
        GuiError::Timeout(msg)
    }

    pub fn permission_denied(msg: String) -> (r: GuiError)
        ensures
            r matches GuiError::PermissionDenied(x) && x@ == msg@,
    {
        GuiError::PermissionDenied(msg)
    }

    pub fn other(msg: String) -> (r: GuiError)
        ensures
            r matches GuiError::Other(x) && x@ == msg@,
    {
        GuiError::Other(msg)
    }

    /// The text the error is shown as.
    pub fn message(&self) -> (r: String)
        ensures
            r@ == spec_message(*self),
    {
        match self {
            GuiError::AuthFailed { reason } => concat(owned("Authentication failed: "), reason.as_str()),
            GuiError::NetworkUnreachable { details } => concat(
                owned("Network unreachable: "),
                details.as_str(),
            ),
            GuiError::ConfigInvalid { field, reason } => concat(
                concat(concat(owned("Configuration invalid: "), field.as_str()), " - "),
                reason.as_str(),
            ),
            GuiError::ConnectionClosed { reason } => concat(owned("Connection closed: "), reason.as_str()),
            GuiError::Ipc(m) => concat(owned("IPC error: "), m.as_str()),
            GuiError::Daemon(m) => concat(owned("Daemon error: "), m.as_str()),
            GuiError::Timeout(m) => concat(owned("Timeout: "), m.as_str()),
            GuiError::PermissionDenied(m) => concat(owned("Permission denied: "), m.as_str()),
            GuiError::Other(m) => m.clone(),
        }
    }
}

/// One unit of a duration: its count and suffix, shown where the count is
/// not zero (the seconds also where no other unit is shown).
pub open spec fn unit_part(count: nat, suffix: Seq<char>) -> Seq<char> {
    decimal(count) + suffix
}

/// The shown parts of a duration of `s` seconds, largest unit first.
pub open spec fn duration_parts(s: nat) -> Seq<Seq<char>> {
    let days = s / 86400;
    let hours = (s % 86400) / 3600;
    let minutes = (s % 3600) / 60;
    let seconds = s % 60;
    let p1: Seq<Seq<char>> = if days > 0 { seq![unit_part(days, "d"@)] } else { seq![] };
    let p2 = if hours > 0 { p1.push(unit_part(hours, "h"@)) } else { p1 };
    let p3 = if minutes > 0 { p2.push(unit_part(minutes, "m"@)) } else { p2 };
    if seconds > 0 || p3.len() == 0 { p3.push(unit_part(seconds, "s"@)) } else { p3 }
}

/// The parts joined with single spaces.
pub open spec fn join_spaced(parts: Seq<Seq<char>>) -> Seq<char>
    decreases parts.len(),
{
    if parts.len() == 0 {
        Seq::empty()
    } else if parts.len() == 1 {
        parts[0]
    } else {
        join_spaced(parts.drop_last()) + " "@ + parts.last()
    }
}

fn append_part(out: String, parts: Ghost<Seq<Seq<char>>>, count: u64, suffix: &str) -> (r: String)
    requires
        out@ == join_spaced(parts@),
        forall|i: int| 0 <= i < parts@.len() ==> #[trigger] parts@[i].len() > 0,
    ensures
        r@ == join_spaced(parts@.push(unit_part(count as nat, suffix@))),
{
    let part = concat(u64_to_decimal(count), suffix);
    assert(parts@.push(part@).drop_last() =~= parts@);
    if out.as_str().is_empty() {
        proof {
            lemma_join_empty(parts@);
        }
        assert(parts@.push(part@) =~= seq![part@]);
        part
    } else {
        proof {
            if parts@.len() == 0 {
                reveal_strlit("");
            }
        }
        concat(concat(out, " "), part.as_str())
    }
}

proof fn lemma_join_empty(parts: Seq<Seq<char>>)
    requires
        join_spaced(parts).len() == 0,
        forall|i: int| 0 <= i < parts.len() ==> #[trigger] parts[i].len() > 0,
    ensures
        parts.len() == 0,
{
    if parts.len() > 1 {
        assert((join_spaced(parts.drop_last()) + " "@ + parts.last()).len() > 0) by {
            reveal_strlit(" ");
        }
    } else if parts.len() == 1 {
        assert(parts[0].len() > 0);
    }
}

/// A duration of `total_seconds` as days, hours, minutes and seconds, for
/// example "1d 2h 30m 45s", "5m 23s" or "42s". Units that are zero are left
/// out; a zero duration is "0s".
pub fn format_duration(total_seconds: u64) -> (r: String)
    ensures
        r@ == join_spaced(duration_parts(total_seconds as nat)),
{
    let s = total_seconds;
    let days = s / 86400;
    let hours = (s % 86400) / 3600;
    let minutes = (s % 3600) / 60;
    let seconds = s % 60;
    let ghost n = s as nat;
    let ghost p1: Seq<Seq<char>> = if days > 0 { seq![unit_part(days as nat, "d"@)] } else { seq![] };
    let ghost p2 = if hours > 0 { p1.push(unit_part(hours as nat, "h"@)) } else { p1 };
    let ghost p3 = if minutes > 0 { p2.push(unit_part(minutes as nat, "m"@)) } else { p2 };
    let mut out = String::new();
    proof {
        reveal_strlit("");
        assert(out@ =~= join_spaced(Seq::<Seq<char>>::empty()));
    }
    let mut shown: bool = false;
    if days > 0 {
        out = append_part(out, Ghost(Seq::empty()), days, "d");
        assert(Seq::<Seq<char>>::empty().push(unit_part(days as nat, "d"@)) =~= p1);
        shown = true;
    }
    if hours > 0 {
        out = append_part(out, Ghost(p1), hours, "h");
        shown = true;
    }
    if minutes > 0 {
        out = append_part(out, Ghost(p2), minutes, "m");
        shown = true;
    }
    assert(shown == (p3.len() > 0));
    if seconds > 0 || !shown {
        out = append_part(out, Ghost(p3), seconds, "s");
    }
    out
}

} // verus!
