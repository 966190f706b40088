//! The capabilities attached to the shell, in the order they are attached.
use vstd::prelude::*;
use crate::threshold::LogThreshold;

verus! {

/// A unit of shell functionality. Its place in the registry is its
/// initialisation order.
#[derive(Clone, Copy, Debug, PartialEq, Eq, Structural)]
pub enum Capability {
    /// The HTTP client.
    Http,
    /// Structured logging, built with the given threshold.
    Logging(LogThreshold),
}

impl Capability {
    pub open spec fn spec_name(self) -> Seq<char> {
        match self {
            Capability::Http => seq!['h', 't', 't', 'p'],
            Capability::Logging(_) => seq!['l', 'o', 'g'],
        }
    }

    pub fn name(&self) -> (r: &'static str)
        ensures
            r@ == self.spec_name(),
    {
        proof {
            reveal_strlit("http");
            reveal_strlit("log");
        }
        match self {
            Capability::Http => "http",
            Capability::Logging(_) => "log",
        }
    }
}

/// The registry: the HTTP capability first, then logging with `threshold`.
pub open spec fn spec_registry(threshold: LogThreshold) -> Seq<Capability> {
    seq![Capability::Http, Capability::Logging(threshold)]
}

pub fn capability_registry(threshold: LogThreshold) -> (r: Vec<Capability>)
    ensures
        r@ == spec_registry(threshold),
{
    let r = vec![Capability::Http, Capability::Logging(threshold)];
    assert(r@ =~= spec_registry(threshold));
    r
}

} // verus!
