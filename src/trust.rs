//! Server certificate trust: a pluggable verification strategy.

use std::sync::Arc;
use vstd::prelude::*;

verus! {

/// The answer of a trust policy on a presented certificate chain.
#[derive(Clone, Copy, Debug, PartialEq, Eq, Structural)]
pub enum Verdict {
    Accept,
    Reject,
}

/// A strategy for judging the certificate chain a server presents under a
/// server name.
pub trait TrustPolicy {
    /// Whether the policy accepts `chain` (end entity first, in DER) for
    /// `server_name`.
    spec fn accepts(&self, chain: Seq<Vec<u8>>, server_name: Seq<char>) -> bool;

    fn verify(&self, chain: &Vec<Vec<u8>>, server_name: &str) -> (r: Verdict)
        ensures
            (r == Verdict::Accept) == self.accepts(chain@, server_name@),
    ;
}

/// Accepts every server certificate. This suits servers that present a
/// fresh self-signed certificate, and it is insecure against an active
/// attacker on the path: anyone can pose as the server.
#[derive(Clone, Copy, Debug)]
pub struct SkipServerVerification;

impl SkipServerVerification {
    /// A shared handle on the policy, as the TLS engine takes it.
    pub fn new() -> (r: Arc<Self>) {
        Arc::new(SkipServerVerification)
    }
}

impl TrustPolicy for SkipServerVerification {
    open spec fn accepts(&self, chain: Seq<Vec<u8>>, server_name: Seq<char>) -> bool {
        true
    }

    fn verify(&self, chain: &Vec<Vec<u8>>, server_name: &str) -> (r: Verdict) {
        Verdict::Accept
    }
}

} // verus!
