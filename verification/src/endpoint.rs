//! The three services that the client connects to.

use vstd::prelude::*;

verus! {

/// A service that the client opens a channel to. The first two are only
/// probed before voting starts; votes go to the third.
#[derive(Clone, Copy, Debug, PartialEq, Eq, Structural)]
pub enum Endpoint {
    JoyVoting,
    GhostVoting,
    Voting,
}

impl Endpoint {
    /// Scheme, host and port of the service.
    pub open spec fn location(self) -> Seq<char> {
        match self {
            Endpoint::JoyVoting => "http://joy-voting-svc.emojivoto.svc.cluster.local:8080"@,
            Endpoint::GhostVoting => "http://ghost-voting-svc.emojivoto.svc.cluster.local:8080"@,
            Endpoint::Voting => "http://voting-svc.emojivoto.svc.cluster.local:8080"@,
        }
    }

    /// Whether the service is one of the two that are probed before voting.
    pub open spec fn is_auxiliary(self) -> bool {
        self != Endpoint::Voting
    }

    /// The address to connect to.
    pub fn address(self) -> (address: &'static str)
        ensures
            address@ == self.location(),
    {
        match self {
            Endpoint::JoyVoting => "http://joy-voting-svc.emojivoto.svc.cluster.local:8080",
            Endpoint::GhostVoting => "http://ghost-voting-svc.emojivoto.svc.cluster.local:8080",
            Endpoint::Voting => "http://voting-svc.emojivoto.svc.cluster.local:8080",
        }
    }

    /// Whether the service is probed before voting and not voted at.
    pub fn auxiliary(self) -> (auxiliary: bool)
        ensures
            auxiliary == self.is_auxiliary(),
    {
        match self {
            Endpoint::Voting => false,
            _ => true,
        }
    }
}

} // verus!
