//! The failure taxonomy of the client.
//!
//! Every failing operation reports which endpoint failed, why, and the
//! underlying cause text.  A by-id lookup that finds nothing is not a failure
//! and is reported as an absent value, never through this type.

use crate::digits::{push_u64_text, spec_u64_text};
use vstd::prelude::*;
use vstd::string::StringExecFns;

verus! {

/// Why a call against the upstream API failed.
#[derive(Debug, Clone, PartialEq, Eq)]
pub enum FplErrorKind {
    /// The request could not be sent or no response arrived.
    TransportFailure,
    /// A response arrived, but its status code, carried here, was not the
    /// single success code.
    StatusFailure(u16),
    /// The response had the success status, but its body did not decode into
    /// the expected shape.
    DecodeFailure,
    /// The fixture is absent from the unscoped fixture list, or carries no
    /// gameweek reference, so a gameweek-scoped lookup cannot be made.
    UnresolvedGameweek,
    /// The fixture was present in the unscoped list but absent from its own
    /// gameweek's list: an upstream consistency anomaly.
    FixtureVanished,
}

/// A classified failure: its kind, the endpoint whose call failed, and the
/// underlying cause text (empty when the kind says everything).
#[derive(Debug, Clone, PartialEq, Eq)]
pub struct FplError {
    pub kind: FplErrorKind,
    pub endpoint: String,
    pub detail: String,
}

/// The human-readable phrase for a failure kind; a status failure includes
/// the status code in decimal.
pub open spec fn spec_kind_text(k: FplErrorKind) -> Seq<char> {
    match k {
        FplErrorKind::TransportFailure => "transport failure"@,
        FplErrorKind::StatusFailure(code) => "status failure ("@ + spec_u64_text(
            code as nat,
        ) + ")"@,
        FplErrorKind::DecodeFailure => "decode failure"@,
        FplErrorKind::UnresolvedGameweek => "unresolved gameweek"@,
        FplErrorKind::FixtureVanished => "fixture vanished"@,
    }
}

/// The full message of an error: kind, endpoint, cause.
pub open spec fn spec_message(e: FplError) -> Seq<char> {
    "FplError: "@ + spec_kind_text(e.kind) + " at "@ + e.endpoint@ + ": "@ + e.detail@
}

impl FplError {
    /// A failure of the given kind at the given endpoint.
    pub fn new(kind: FplErrorKind, endpoint: String, detail: String) -> (r: FplError)
        ensures
            r.kind == kind,
            r.endpoint == endpoint,
            r.detail == detail,
    {
        FplError { kind, endpoint, detail }
    }

    /// Renders the kind as text.
    fn kind_text(&self) -> (r: String)
        ensures
            r@ == spec_kind_text(self.kind),
    {
        match &self.kind {
            FplErrorKind::TransportFailure => String::from_str("transport failure"),
            FplErrorKind::StatusFailure(code) => {
                let mut s = String::from_str("status failure (");
                push_u64_text(&mut s, *code as u64);
                s.append(")");
                proof {
                    assert(s@ =~= spec_kind_text(self.kind));
                }
                s
            },
            FplErrorKind::DecodeFailure => String::from_str("decode failure"),
            FplErrorKind::UnresolvedGameweek => String::from_str("unresolved gameweek"),
            FplErrorKind::FixtureVanished => String::from_str("fixture vanished"),
        }
    }

    /// The error as one line of text.
    pub fn message(&self) -> (r: String)
        ensures
            r@ == spec_message(*self),
    {
        let mut s = String::from_str("FplError: ");
        let k = self.kind_text();
        s.append(k.as_str());
        s.append(" at ");
        s.append(self.endpoint.as_str());
        s.append(": ");
        s.append(self.detail.as_str());
        proof {
            assert(s@ =~= spec_message(*self));
        }
        s
    }
}

} // verus!
