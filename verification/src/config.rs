//! The run configuration: read once at startup, never changed afterwards.

use url::Url;
use vstd::prelude::*;

verus! {

/// `url::Url` is carried through as an opaque value: the bridge hands the
/// target address to the transport and never looks inside it.
#[verifier::external_type_specification]
#[verifier::external_body]
pub struct ExUrl(url::Url);

/// What the operator asked for on the command line.
#[derive(Debug)]
pub struct RunConfig {
    /// The endpoint to connect to.
    pub target: Url,
    /// How many times `-v` was given.
    pub verbosity: u8,
    /// Whether `-q` was given: no diagnostics but startup failures.
    pub quiet: bool,
    /// Whether `--insecure` was given: no certificate verification.
    pub insecure: bool,
    /// Whether `-u` was given: receive only, local input is not forwarded.
    pub unidirectional: bool,
    /// Whether `-1` was given: stop after the first message received.
    pub one_message: bool,
}

impl RunConfig {
    /// Whether the operator asked for progress reports.
    pub open spec fn spec_verbose(&self) -> bool {
        self.verbosity > 0
    }

    /// Whether the operator asked for progress reports.
    #[verifier::when_used_as_spec(spec_verbose)]
    pub fn verbose(&self) -> (v: bool)
        ensures
            v == (self.verbosity > 0),
    {
        self.verbosity > 0
    }
}

} // verus!
