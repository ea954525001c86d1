//! The data model: link, address and indicator state, and the errors that the
//! radio driver and the network stack report.

use vstd::prelude::*;

verus! {

/// Association with the access point. An endpoint starts `Disconnected` and
/// becomes `Associated` on the first successful join attempt.
#[derive(Clone, Copy, Debug, PartialEq, Eq, Structural)]
pub enum LinkState {
    Disconnected,
    Associated,
}

/// An IPv4 address together with the length of its network prefix, as the
/// network stack reports it once DHCP has completed.
#[derive(Clone, Copy, Debug, PartialEq, Eq)]
pub struct LocalAddress {
    pub octets: [u8; 4],
    pub prefix_len: u8,
}

/// Address configuration as observed from the network stack.
#[derive(Clone, Copy, Debug, PartialEq, Eq)]
pub enum AddressState {
    Unconfigured,
    Configured(LocalAddress),
}

/// The resolved address of the peer.
#[derive(Clone, Copy, Debug, PartialEq, Eq)]
pub struct PeerAddress {
    pub octets: [u8; 4],
}

/// Levels of the two indicators: the local one on a pin of the board, and the
/// one that the radio chip drives.
#[derive(Clone, Copy, Debug, PartialEq, Eq, Structural)]
pub struct IndicatorState {
    pub local: bool,
    pub radio: bool,
}

/// A refused join attempt, with the status code of the radio driver.
#[derive(Clone, Copy, Debug, PartialEq, Eq, Structural)]
pub struct JoinError {
    pub status: u32,
}

/// Why a name query failed.
#[derive(Clone, Copy, Debug, PartialEq, Eq, Structural)]
pub enum ResolveError {
    InvalidName,
    NameTooLong,
    Failed,
}

/// Why a datagram was not sent.
#[derive(Clone, Copy, Debug, PartialEq, Eq, Structural)]
pub enum SendError {
    NoRoute,
    NotBound,
}

/// Why the channel could not be bound to its local port.
#[derive(Clone, Copy, Debug, PartialEq, Eq, Structural)]
pub enum BindError {
    InvalidState,
    NoRoute,
}

/// How often a failed step may be tried again.
#[derive(Clone, Copy, Debug, PartialEq, Eq, Structural)]
pub enum Limit {
    Unbounded,
    AtMost(u32),
}

impl Limit {
    /// Whether one more try is allowed.
    pub open spec fn allows_retry(self) -> bool {
        match self {
            Limit::Unbounded => true,
            Limit::AtMost(n) => n > 0,
        }
    }

    /// Whether the limit leaves room for `n` more tries.
    pub open spec fn covers(self, n: nat) -> bool {
        match self {
            Limit::Unbounded => true,
            Limit::AtMost(left) => n <= left,
        }
    }

    /// The limit that is left once one try has been spent.
    pub open spec fn spent(self) -> Limit {
        match self {
            Limit::Unbounded => Limit::Unbounded,
            Limit::AtMost(n) => if n > 0 {
                Limit::AtMost((n - 1) as u32)
            } else {
                Limit::AtMost(0)
            },
        }
    }

    /// Spends one try. Returns the limit that is left, or `None` when no try
    /// was left to spend.
    pub fn spend(self) -> (left: Option<Limit>)
        ensures
            left == if self.allows_retry() {
                Some(self.spent())
            } else {
                None
            },
    {
        match self {
            Limit::Unbounded => Some(Limit::Unbounded),
            Limit::AtMost(n) => if n > 0 {
                Some(Limit::AtMost(n - 1))
            } else {
                None
            },
        }
    }
}

} // verus!
