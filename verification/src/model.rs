//! The data of a trade: who takes part, what was agreed, and what the
//! coordinator answered.

use crate::ecash::{ecash_pubkey_hex, normalize_ecash_pubkey};
use crate::encoding::is_lower_hex;
use crate::error::EscrowError;
use vstd::prelude::*;

verus! {

/// The side of the trade that a client acts for.
#[derive(Debug, Clone, Copy, PartialEq, Eq, Structural)]
pub enum TradeMode {
    Buyer,
    Seller,
}

/// Whether `s` is the text of an identity: 64 lower-case hexadecimal digits.
pub open spec fn is_identity_hex(s: Seq<char>) -> bool {
    s.len() == 64 && is_lower_hex(s)
}

/// An identity in the messaging layer, by which messages are addressed.
/// Its view is its text.
#[derive(Debug, PartialEq, Eq)]
pub struct PublicKey {
    hex: String,
}

impl View for PublicKey {
    type V = Seq<char>;

    closed spec fn view(&self) -> Seq<char> {
        self.hex@
    }
}

impl Clone for PublicKey {
    fn clone(&self) -> (r: Self)
        ensures
            r == *self,
    {
        proof {
            use_type_invariant(self);
        }
        PublicKey { hex: self.hex.clone() }
    }
}

impl PublicKey {
    #[verifier::type_invariant]
    spec fn well_formed(self) -> bool {
        is_identity_hex(self.hex@)
    }

    /// Reads an identity from its text. `None` unless the text is 64
    /// lower-case hexadecimal digits.
    pub fn from_hex(text: &str) -> (r: Option<PublicKey>)
        ensures
            r is Some <==> is_identity_hex(text@),
            r matches Some(k) ==> k@ == text@,
    {
        let n = text.unicode_len();
        if n != 64 {
            return None;
        }
        let mut i: usize = 0;
        while i < n
            invariant
                n == text@.len(),
                i <= n,
                forall|j: int| 0 <= j < i ==> crate::encoding::is_lower_hex_char(#[trigger] text@[j]),
            decreases n - i,
        {
            let c = text.get_char(i);
            if !((c >= '0' && c <= '9') || (c >= 'a' && c <= 'f')) {
                return None;
            }
            i += 1;
        }
        Some(PublicKey { hex: String::from_str(text) })
    }

    /// The text of the identity.
    pub fn to_hex(&self) -> (r: String)
        ensures
            r@ == self@,
            is_identity_hex(r@),
    {
        proof {
            use_type_invariant(self);
        }
        self.hex.clone()
    }

    /// Whether two identities are the same.
    pub fn same_as(&self, other: &PublicKey) -> (r: bool)
        ensures
            r == (self@ == other@),
    {
        self.hex == other.hex
    }

}

/// What a trade contract holds, as plain values.
pub struct TradeContractView {
    pub trade_description: Seq<char>,
    pub trade_amount_sat: u64,
    pub npubkey_seller: Seq<char>,
    pub npubkey_buyer: Seq<char>,
    pub npubkey_coordinator: Seq<char>,
    pub time_limit: u64,
    pub seller_ecash_public_key: Seq<char>,
    pub buyer_ecash_public_key: Seq<char>,
}

impl TradeContractView {
    /// Buyer, seller and coordinator are three different identities.
    pub open spec fn parties_distinct(self) -> bool {
        &&& self.npubkey_seller != self.npubkey_buyer
        &&& self.npubkey_seller != self.npubkey_coordinator
        &&& self.npubkey_buyer != self.npubkey_coordinator
    }

    /// The identity that acts in the given role.
    pub open spec fn party(self, mode: TradeMode) -> Seq<char> {
        match mode {
            TradeMode::Buyer => self.npubkey_buyer,
            TradeMode::Seller => self.npubkey_seller,
        }
    }

    /// The wallet key under which the party in the given role trades.
    pub open spec fn party_ecash_key(self, mode: TradeMode) -> Seq<char> {
        match mode {
            TradeMode::Buyer => self.buyer_ecash_public_key,
            TradeMode::Seller => self.seller_ecash_public_key,
        }
    }
}

/// The terms that buyer and seller agreed on. A contract never changes, and
/// its three parties are always different identities.
#[derive(Debug, PartialEq, Eq)]
pub struct TradeContract {
    trade_description: String,
    trade_amount_sat: u64,
    npubkey_seller: PublicKey,
    npubkey_buyer: PublicKey,
    npubkey_coordinator: PublicKey,
    time_limit: u64,
    seller_ecash_public_key: String,
    buyer_ecash_public_key: String,
}

impl View for TradeContract {
    type V = TradeContractView;

    closed spec fn view(&self) -> TradeContractView {
        TradeContractView {
            trade_description: self.trade_description@,
            trade_amount_sat: self.trade_amount_sat,
            npubkey_seller: self.npubkey_seller@,
            npubkey_buyer: self.npubkey_buyer@,
            npubkey_coordinator: self.npubkey_coordinator@,
            time_limit: self.time_limit,
            seller_ecash_public_key: self.seller_ecash_public_key@,
            buyer_ecash_public_key: self.buyer_ecash_public_key@,
        }
    }
}

impl Clone for TradeContract {
    fn clone(&self) -> (r: Self)
        ensures
            r == *self,
    {
        proof {
            use_type_invariant(self);
        }
        TradeContract {
            trade_description: self.trade_description.clone(),
            trade_amount_sat: self.trade_amount_sat,
            npubkey_seller: self.npubkey_seller.clone(),
            npubkey_buyer: self.npubkey_buyer.clone(),
            npubkey_coordinator: self.npubkey_coordinator.clone(),
            time_limit: self.time_limit,
            seller_ecash_public_key: self.seller_ecash_public_key.clone(),
            buyer_ecash_public_key: self.buyer_ecash_public_key.clone(),
        }
    }
}

impl TradeContract {
    #[verifier::type_invariant]
    spec fn well_formed(self) -> bool {
        self@.parties_distinct()
    }

    /// Builds a contract. Fails with `InvalidContract` exactly when two of
    /// buyer, seller and coordinator are the same identity.
    pub fn new(
        trade_description: String,
        trade_amount_sat: u64,
        npubkey_seller: PublicKey,
        npubkey_buyer: PublicKey,
        npubkey_coordinator: PublicKey,
        time_limit: u64,
        seller_ecash_public_key: String,
        buyer_ecash_public_key: String,
    ) -> (r: Result<TradeContract, EscrowError>)
        ensures
            match r {
                Ok(c) => c@ == (TradeContractView {
                    trade_description: trade_description@,
                    trade_amount_sat,
                    npubkey_seller: npubkey_seller@,
                    npubkey_buyer: npubkey_buyer@,
                    npubkey_coordinator: npubkey_coordinator@,
                    time_limit,
                    seller_ecash_public_key: seller_ecash_public_key@,
                    buyer_ecash_public_key: buyer_ecash_public_key@,
                }) && c@.parties_distinct(),
                Err(e) => e == EscrowError::InvalidContract && !(npubkey_seller@ != npubkey_buyer@
                    && npubkey_seller@ != npubkey_coordinator@ && npubkey_buyer@
                    != npubkey_coordinator@),
            },
    {
        if npubkey_seller.same_as(&npubkey_buyer) || npubkey_seller.same_as(&npubkey_coordinator)
            || npubkey_buyer.same_as(&npubkey_coordinator) {
            return Err(EscrowError::InvalidContract);
        }
        Ok(
            TradeContract {
                trade_description,
                trade_amount_sat,
                npubkey_seller,
                npubkey_buyer,
                npubkey_coordinator,
                time_limit,
                seller_ecash_public_key,
                buyer_ecash_public_key,
            },
        )
    }

    pub fn trade_description(&self) -> (r: &String)
        ensures
            r@ == self@.trade_description,
    {
        &self.trade_description
    }

    pub fn trade_amount_sat(&self) -> (r: u64)
        ensures
            r == self@.trade_amount_sat,
    {
        self.trade_amount_sat
    }

    pub fn npubkey_seller(&self) -> (r: &PublicKey)
        ensures
            r@ == self@.npubkey_seller,
            self@.parties_distinct(),
    {
        proof {
            use_type_invariant(self);
        }
        &self.npubkey_seller
    }

    pub fn npubkey_buyer(&self) -> (r: &PublicKey)
        ensures
            r@ == self@.npubkey_buyer,
            self@.parties_distinct(),
    {
        proof {
            use_type_invariant(self);
        }
        &self.npubkey_buyer
    }

    pub fn npubkey_coordinator(&self) -> (r: &PublicKey)
        ensures
            r@ == self@.npubkey_coordinator,
            self@.parties_distinct(),
    {
        proof {
            use_type_invariant(self);
        }
        &self.npubkey_coordinator
    }

    pub fn time_limit(&self) -> (r: u64)
        ensures
            r == self@.time_limit,
    {
        self.time_limit
    }

    pub fn seller_ecash_public_key(&self) -> (r: &String)
        ensures
            r@ == self@.seller_ecash_public_key,
    {
        &self.seller_ecash_public_key
    }

    pub fn buyer_ecash_public_key(&self) -> (r: &String)
        ensures
            r@ == self@.buyer_ecash_public_key,
    {
        &self.buyer_ecash_public_key
    }

    /// The wallet key under which the party in the given role trades.
    pub fn party_ecash_key(&self, mode: TradeMode) -> (r: &String)
        ensures
            r@ == self@.party_ecash_key(mode),
    {
        match mode {
            TradeMode::Buyer => &self.buyer_ecash_public_key,
            TradeMode::Seller => &self.seller_ecash_public_key,
        }
    }
}

/// What a registration holds, as plain values.
pub struct EscrowRegistrationView {
    pub escrow_id_hex: Seq<char>,
    pub coordinator_escrow_pubkey: Seq<char>,
    pub escrow_start_time: u64,
}

/// The coordinator's answer to a contract: the identifier of the escrow, the
/// key with which the coordinator commits to it, and when it began.
#[derive(Debug, PartialEq, Eq)]
pub struct EscrowRegistration {
    escrow_id_hex: String,
    coordinator_escrow_pubkey: String,
    escrow_start_time: u64,
}

impl View for EscrowRegistration {
    type V = EscrowRegistrationView;

    closed spec fn view(&self) -> EscrowRegistrationView {
        EscrowRegistrationView {
            escrow_id_hex: self.escrow_id_hex@,
            coordinator_escrow_pubkey: self.coordinator_escrow_pubkey@,
            escrow_start_time: self.escrow_start_time,
        }
    }
}

impl Clone for EscrowRegistration {
    fn clone(&self) -> (r: Self)
        ensures
            r == *self,
    {
        EscrowRegistration {
            escrow_id_hex: self.escrow_id_hex.clone(),
            coordinator_escrow_pubkey: self.coordinator_escrow_pubkey.clone(),
            escrow_start_time: self.escrow_start_time,
        }
    }
}

/// The registration made of the three fields of a registration message, once
/// the coordinator's key has been read: `ProtocolError` where a field is
/// missing.
pub open spec fn registration_from_parts(
    escrow_id_hex: Option<Seq<char>>,
    coordinator_escrow_pubkey: Option<Seq<char>>,
    escrow_start_time: Option<u64>,
) -> Result<EscrowRegistrationView, EscrowError> {
    match (escrow_id_hex, coordinator_escrow_pubkey, escrow_start_time) {
        (Some(id), Some(key), Some(start)) => Ok(
            EscrowRegistrationView {
                escrow_id_hex: id,
                coordinator_escrow_pubkey: key,
                escrow_start_time: start,
            },
        ),
        _ => Err(EscrowError::ProtocolError),
    }
}

/// The view of a result that holds a registration.
pub open spec fn registration_result_view(r: Result<EscrowRegistration, EscrowError>) -> Result<
    EscrowRegistrationView,
    EscrowError,
> {
    match r {
        Ok(reg) => Ok(reg@),
        Err(e) => Err(e),
    }
}

impl EscrowRegistration {
    /// Builds a registration from the fields of a registration message, the
    /// coordinator's key already in its normal form. Fails with
    /// `ProtocolError` exactly when one of the three is missing.
    pub fn from_parts(
        escrow_id_hex: Option<String>,
        coordinator_escrow_pubkey: Option<String>,
        escrow_start_time: Option<u64>,
    ) -> (r: Result<EscrowRegistration, EscrowError>)
        ensures
            registration_result_view(r) == registration_from_parts(
                match escrow_id_hex {
                    Some(s) => Some(s@),
                    None => None,
                },
                match coordinator_escrow_pubkey {
                    Some(s) => Some(s@),
                    None => None,
                },
                escrow_start_time,
            ),
    {
        match (escrow_id_hex, coordinator_escrow_pubkey, escrow_start_time) {
            (Some(id), Some(key), Some(start)) => Ok(
                EscrowRegistration {
                    escrow_id_hex: id,
                    coordinator_escrow_pubkey: key,
                    escrow_start_time: start,
                },
            ),
            _ => Err(EscrowError::ProtocolError),
        }
    }

    /// Builds a registration from an escrow identifier, the text of the
    /// coordinator's key and the start time. The key is stored in its normal
    /// form. Fails with `ProtocolError` exactly when the text is not a key.
    pub fn new(escrow_id_hex: String, coordinator_escrow_pubkey: &str, escrow_start_time: u64) -> (r:
        Result<EscrowRegistration, EscrowError>)
        ensures
            registration_result_view(r) == registration_from_parts(
                Some(escrow_id_hex@),
                ecash_pubkey_hex(coordinator_escrow_pubkey@),
                Some(escrow_start_time),
            ),
    {
        let key = normalize_ecash_pubkey(coordinator_escrow_pubkey);
        EscrowRegistration::from_parts(Some(escrow_id_hex), key, Some(escrow_start_time))
    }

    pub fn escrow_id_hex(&self) -> (r: &String)
        ensures
            r@ == self@.escrow_id_hex,
    {
        &self.escrow_id_hex
    }

    pub fn coordinator_escrow_pubkey(&self) -> (r: &String)
        ensures
            r@ == self@.coordinator_escrow_pubkey,
    {
        &self.coordinator_escrow_pubkey
    }

    pub fn escrow_start_time(&self) -> (r: u64)
        ensures
            r == self@.escrow_start_time,
    {
        self.escrow_start_time
    }
}

} // verus!
