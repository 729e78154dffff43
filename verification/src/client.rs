//! How the transport client is to trust the peer.

use crate::config::RunConfig;
use crate::notice::Notice;
use vstd::prelude::*;

verus! {

/// Whom the client trusts.
#[derive(Clone, Copy, Debug, PartialEq, Eq, Structural)]
pub enum TrustMode {
    /// Peers whose certificate chains to a trust root of the system.
    SystemRoots,
    /// Anybody: certificates are not verified. For testing only.
    NoVerification,
}

/// What to do before the client is built, and how to build it.
#[derive(Clone, Copy, Debug, PartialEq, Eq, Structural)]
pub struct ClientPlan {
    /// The warning to log first, if any.
    pub notice: Option<Notice>,
    /// Whom the client is to trust.
    pub trust: TrustMode,
}

/// The plan for a client that is, or is not, to skip verification.
pub open spec fn client_plan_for(insecure: bool) -> ClientPlan {
    if insecure {
        ClientPlan { notice: Some(Notice::InsecureTrust), trust: TrustMode::NoVerification }
    } else {
        ClientPlan { notice: None, trust: TrustMode::SystemRoots }
    }
}

/// Decides how the client is built under `config`.
///
/// Verification is skipped only where the operator asked for it, and never
/// without a warning; otherwise the system's trust roots decide.
pub fn client_plan(config: &RunConfig) -> (plan: ClientPlan)
    ensures
        plan == client_plan_for(config.insecure),
        plan.trust == TrustMode::NoVerification <==> config.insecure,
        plan.notice is Some <==> config.insecure,
{
    if config.insecure {
        ClientPlan { notice: Some(Notice::InsecureTrust), trust: TrustMode::NoVerification }
    } else {
        ClientPlan { notice: None, trust: TrustMode::SystemRoots }
    }
}

} // verus!
