//! Target resolution: an explicitly supplied triplet string wins; otherwise
//! the toolchain's self-report is searched for a `host: <triplet>` line.

use vstd::prelude::*;

use crate::errors::PackError;
use crate::strutil::find_from;
use crate::triplet::Triplet;
use crate::triplet::parse_ok;
use crate::triplet::triplet_matches;
use crate::strutil::str_equal;

verus! {

/// Whether `host: ` stands at index `i` of `s`.
pub open spec fn is_host_at(s: Seq<char>, i: int) -> bool {
    0 <= i && i + 6 <= s.len() && s.subrange(i, i + 6) == "host: "@
}

/// The least index `>= from` where `host: ` stands, or `s.len()` when none.
pub open spec fn first_host_from(s: Seq<char>, from: int) -> int
    recommends
        0 <= from <= s.len(),
    decreases s.len() - from when 0 <= from <= s.len()
{
    if from + 6 > s.len() {
        s.len() as int
    } else if is_host_at(s, from) {
        from
    } else {
        first_host_from(s, from + 1)
    }
}

/// What the host pattern yields on a self-report: the characters after the
/// first `host: `, up to the end of that line; nothing when the marker is
/// absent.
pub open spec fn host_capture(s: Seq<char>) -> Option<Seq<char>> {
    let i = first_host_from(s, 0);
    if i < s.len() {
        Some(s.subrange(i + 6, find_from(s, '\n', i + 6)))
    } else {
        None
    }
}

/// Relies on `regex::Regex` with the pattern `host: (.*)`: `captures` finds
/// the leftmost match, and the group captures every character after
/// `host: ` up to (not including) the next `\n` or the end of the input.
#[verifier::external_body]
fn capture_host(report: &str) -> (r: Option<String>)
    ensures
        match r {
            Some(t) => host_capture(report@) == Some(t@),
            None => host_capture(report@) is None,
        },
{
    let re = regex::Regex::new(r"host: (.*)").unwrap();
    match re.captures(report) {
        Some(c) => c.get(1).map(|m| m.as_str().to_string()),
        None => None,
    }
}

/// The triplet string the resolution goes by: the explicit one when given,
/// else the host line of the self-report, when either is there.
pub open spec fn spec_chosen_target(
    explicit: Option<String>,
    report: Option<String>,
) -> Option<Seq<char>> {
    match explicit {
        Some(t) => Some(t@),
        None => match report {
            Some(rep) => host_capture(rep@),
            None => None,
        },
    }
}

/// Determines the platform triplet: an explicitly supplied string wins over
/// autodetection from the toolchain self-report; failing both, or a string
/// that does not parse, is a typed resolution error, never a crash.
pub fn resolve_target(explicit: &Option<String>, report: &Option<String>) -> (r: Result<
    Triplet,
    PackError,
>)
    ensures
        match r {
            Ok(t) => spec_chosen_target(*explicit, *report) matches Some(s) && triplet_matches(
                t,
                s,
            ),
            Err(e) => {
                &&& e == PackError::TargetResolutionError
                &&& match spec_chosen_target(*explicit, *report) {
                    Some(s) => !parse_ok(s),
                    None => true,
                }
            },
        },
{
    match explicit {
        Some(t) => Triplet::parse(t.as_str()),
        None => match report {
            Some(rep) => match capture_host(rep.as_str()) {
                Some(h) => Triplet::parse(h.as_str()),
                None => Err(PackError::TargetResolutionError),
            },
            None => Err(PackError::TargetResolutionError),
        },
    }
}

/// Packaging for a foreign OS goes on, but with a warning: true exactly when
/// the resolved OS is not `linux`.
pub fn needs_cross_os_warning(t: &Triplet) -> (r: bool)
    ensures
        r == (t.os@ != "linux"@),
{
    !str_equal(t.os.as_str(), "linux")
}

} // verus!
