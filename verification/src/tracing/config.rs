//! Configuration shared by the tracing helpers.

use vstd::prelude::*;

verus! {

/// Which established trace format a rendered message has to match.
///
/// The style changes only the wording of a message, never which outcome it
/// describes.
#[derive(Clone, Copy, Debug, PartialEq, Eq, Structural)]
pub enum TraceStyle {
    /// Parity-compatible output.
    Parity,
    /// Geth-compatible output.
    Geth,
}

impl TraceStyle {
    /// Whether this is the parity style.
    pub open spec fn spec_is_parity(self) -> bool {
        self == TraceStyle::Parity
    }

    /// Whether this is the geth style.
    pub open spec fn spec_is_geth(self) -> bool {
        self == TraceStyle::Geth
    }

    /// Returns `true` for [`TraceStyle::Parity`].
    #[verifier::when_used_as_spec(spec_is_parity)]
    pub fn is_parity(self) -> (parity: bool)
        ensures
            parity == (self == TraceStyle::Parity),
    {
        matches!(self, TraceStyle::Parity)
    }

    /// Returns `true` for [`TraceStyle::Geth`].
    #[verifier::when_used_as_spec(spec_is_geth)]
    pub fn is_geth(self) -> (geth: bool)
        ensures
            geth == (self == TraceStyle::Geth),
    {
        matches!(self, TraceStyle::Geth)
    }
}

} // verus!
