use vstd::prelude::*;

verus! {

/// Why a step of the trade did not succeed.
#[derive(Debug, Clone, Copy, PartialEq, Eq, Structural)]
pub enum EscrowError {
    /// The trade terms contradict themselves; found locally, before anything is sent.
    InvalidContract,
    /// Sending or receiving failed in the messaging layer.
    TransportError,
    /// No matching message arrived within the bound.
    TimeoutError,
    /// A message arrived but is not the payload the protocol expects at this point.
    ProtocolError,
    /// The wallet could not issue the token.
    WalletError,
    /// A token was received that is not bound to this trade.
    ValidationError,
}

impl EscrowError {
    /// A timeout is an expected outcome after which the same step may be tried
    /// again; every other error ends the current attempt.
    pub open spec fn recoverable(self) -> bool {
        self == EscrowError::TimeoutError
    }

    pub fn is_recoverable(&self) -> (r: bool)
        ensures
            r == self.recoverable(),
    {
        match self {
            EscrowError::TimeoutError => true,
            _ => false,
        }
    }

    /// The text shown for each error.
    pub open spec fn message_text(self) -> Seq<char> {
        match self {
            EscrowError::InvalidContract => "invalid contract"@,
            EscrowError::TransportError => "transport error"@,
            EscrowError::TimeoutError => "timeout"@,
            EscrowError::ProtocolError => "protocol error"@,
            EscrowError::WalletError => "wallet error"@,
            EscrowError::ValidationError => "token validation failed"@,
        }
    }

    pub fn message(&self) -> (r: String)
        ensures
            r@ == self.message_text(),
    {
        match self {
            EscrowError::InvalidContract => String::from_str("invalid contract"),
            EscrowError::TransportError => String::from_str("transport error"),
            EscrowError::TimeoutError => String::from_str("timeout"),
            EscrowError::ProtocolError => String::from_str("protocol error"),
            EscrowError::WalletError => String::from_str("wallet error"),
            EscrowError::ValidationError => String::from_str("token validation failed"),
        }
    }
}

} // verus!
