use vstd::prelude::*;

verus! {

/// Where one output channel of a run goes.
#[derive(Clone, Copy, Debug, PartialEq, Eq, Structural)]
pub enum Destination {
    /// The file named with the append option.
    AppendFile,
    Stdout,
    Stderr,
    /// Nowhere: what is written is dropped.
    Discard,
}

/// The destinations of a verify run's three channels.
#[derive(Clone, Copy, Debug, PartialEq, Eq, Structural)]
pub struct RoutingDecision {
    /// Digest-log lines of all regular-file members.
    pub append: Destination,
    /// Report lines of members that verified.
    pub primary: Destination,
    /// Report lines of failed and missing members, and the summary lines.
    pub diagnostic: Destination,
}

/// The append channel: the append file when one was given, else nothing.
pub open spec fn append_of(append_given: bool) -> Destination {
    if append_given { Destination::AppendFile } else { Destination::Discard }
}

/// The primary channel: dropped when either flag was given at all, else stdout.
pub open spec fn primary_of(last_quiet: Option<usize>, last_status: Option<usize>) -> Destination {
    if last_quiet is Some || last_status is Some {
        Destination::Discard
    } else {
        Destination::Stdout
    }
}

/// The diagnostic channel: stderr without `--status`, or when the last
/// `--quiet` comes after the last `--status`; dropped otherwise.
pub open spec fn diagnostic_of(last_quiet: Option<usize>, last_status: Option<usize>) -> Destination {
    match last_status {
        None => Destination::Stderr,
        Some(s) => match last_quiet {
            Some(q) => if q > s { Destination::Stderr } else { Destination::Discard },
            None => Destination::Discard,
        },
    }
}

/// Resolves the destinations of a verify run from whether an append file
/// was given and from the argument positions of the last `--quiet` and the
/// last `--status` (`None` where the flag is absent).
pub fn route(append_given: bool, last_quiet: Option<usize>, last_status: Option<usize>) -> (r: RoutingDecision)
    ensures
        r.append == append_of(append_given),
        r.primary == primary_of(last_quiet, last_status),
        r.diagnostic == diagnostic_of(last_quiet, last_status),
{
    let append = if append_given { Destination::AppendFile } else { Destination::Discard };
    let primary = if last_quiet.is_some() || last_status.is_some() {
        Destination::Discard
    } else {
        Destination::Stdout
    };
    let diagnostic = match (last_quiet, last_status) {
        (Some(q), Some(s)) => if q > s { Destination::Stderr } else { Destination::Discard },
        (None, Some(_)) => Destination::Discard,
        (_, None) => Destination::Stderr,
    };
    RoutingDecision { append, primary, diagnostic }
}

/// The destination of print mode's digest lines: the append file when one
/// was given, else stdout.
pub fn print_destination(append_given: bool) -> (r: Destination)
    ensures
        r == (if append_given { Destination::AppendFile } else { Destination::Stdout }),
{
    if append_given { Destination::AppendFile } else { Destination::Stdout }
}

} // verus!
