//! The credential guard that runs before the photo handler.

use vstd::prelude::*;

verus! {

/// Name of the request header that carries the credential.
pub const PHOTO_HEADER: &'static str = "nice-photo";

/// The one header value that grants access.
pub const ACCEPTED_KEY: &'static str = "yes";

/// What the guard decides about a request.
#[derive(Clone, Copy, Debug, PartialEq, Eq, Structural)]
pub enum GuardOutcome {
    /// The credential is present and right: the handler runs.
    Admit,
    /// No credential header came with the request.
    RejectMissing,
    /// A credential came, but not the accepted one.
    RejectInvalid,
}

/// The guard's decision as a function of the header's value, if any.
pub open spec fn guard_decision(header: Option<Seq<char>>) -> GuardOutcome {
    match header {
        None => GuardOutcome::RejectMissing,
        Some(v) => if v == ACCEPTED_KEY@ {
            GuardOutcome::Admit
        } else {
            GuardOutcome::RejectInvalid
        },
    }
}

/// Each request gets exactly one outcome: missing when the header is
/// absent, admitted when it holds the accepted value, invalid otherwise.
pub proof fn lemma_guard_outcomes(header: Option<Seq<char>>)
    ensures
        guard_decision(header) == GuardOutcome::RejectMissing <==> header is None,
        guard_decision(header) == GuardOutcome::Admit <==> header == Some(ACCEPTED_KEY@),
        guard_decision(header) == GuardOutcome::RejectInvalid <==> (header is Some && header
            != Some(ACCEPTED_KEY@)),
{
}

/// The view of an optional header value.
pub open spec fn header_view(header: Option<&str>) -> Option<Seq<char>> {
    match header {
        None => None,
        Some(v) => Some(v@),
    }
}

/// Decides on a request from the value of its credential header.
pub fn check_photo_key(header: Option<&str>) -> (r: GuardOutcome)
    ensures
        r == guard_decision(header_view(header)),
{
    match header {
        None => GuardOutcome::RejectMissing,
        Some(key) => {
            let given: String = key.to_owned();
            let accepted: String = ACCEPTED_KEY.to_owned();
            if given == accepted {
                GuardOutcome::Admit
            } else {
                GuardOutcome::RejectInvalid
            }
        },
    }
}

/// The status code of the response to a rejected request, or 200 when the
/// request is admitted.
pub open spec fn outcome_status_spec(o: GuardOutcome) -> u16 {
    match o {
        GuardOutcome::Admit => 200,
        GuardOutcome::RejectMissing => 400,
        GuardOutcome::RejectInvalid => 403,
    }
}

impl GuardOutcome {
    /// The HTTP status that the outcome maps to.
    pub fn status(&self) -> (r: u16)
        ensures
            r == outcome_status_spec(*self),
    {
        match self {
            GuardOutcome::Admit => 200,
            GuardOutcome::RejectMissing => 400,
            GuardOutcome::RejectInvalid => 403,
        }
    }

    /// Whether the handler may run.
    pub fn is_admitted(&self) -> (r: bool)
        ensures
            r == (*self == GuardOutcome::Admit),
    {
        matches!(self, GuardOutcome::Admit)
    }
}

} // verus!
