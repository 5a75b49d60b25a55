//! The escrow token: what it must say to belong to a trade, and the wallet
//! that issues and checks it.

use crate::error::EscrowError;
use crate::model::{EscrowRegistration, EscrowRegistrationView, TradeContract, TradeContractView};
use vstd::prelude::*;

verus! {

/// The normal form of the wallet key that `text` denotes: 66 lower-case
/// hexadecimal digits of the compressed key. `None` where `text` is not the
/// hexadecimal text, 66 digits long, of a valid compressed key.
pub uninterp spec fn ecash_pubkey_hex(text: Seq<char>) -> Option<Seq<char>>;

/// `cdk::nuts::PublicKey::from_hex`, the key then written back by `to_hex`.
/// Trusted: the result is a function of the text alone; a text that is not
/// a key gives `None`.
#[verifier::external_body]
pub(crate) fn normalize_ecash_pubkey(text: &str) -> (r: Option<String>)
    ensures
        match r {
            Some(k) => ecash_pubkey_hex(text@) == Some(k@),
            None => ecash_pubkey_hex(text@) is None,
        },
{
    match cdk::nuts::PublicKey::from_hex(text) {
        Ok(key) => Some(key.to_hex()),
        Err(_) => None,
    }
}

/// What an escrow token says, as plain values.
pub struct EscrowTokenView {
    pub amount: u64,
    pub escrow_id_hex: Seq<char>,
    pub coordinator_escrow_pubkey: Seq<char>,
}

/// What an escrow token says: the amount it locks, and the escrow and the
/// coordinator's key that its redemption is bound to.
#[derive(Debug, PartialEq, Eq)]
pub struct EscrowToken {
    amount: u64,
    escrow_id_hex: String,
    coordinator_escrow_pubkey: String,
}

impl View for EscrowToken {
    type V = EscrowTokenView;

    closed spec fn view(&self) -> EscrowTokenView {
        EscrowTokenView {
            amount: self.amount,
            escrow_id_hex: self.escrow_id_hex@,
            coordinator_escrow_pubkey: self.coordinator_escrow_pubkey@,
        }
    }
}

impl Clone for EscrowToken {
    fn clone(&self) -> (r: Self)
        ensures
            r == *self,
    {
        EscrowToken {
            amount: self.amount,
            escrow_id_hex: self.escrow_id_hex.clone(),
            coordinator_escrow_pubkey: self.coordinator_escrow_pubkey.clone(),
        }
    }
}

impl EscrowToken {
    pub fn new(amount: u64, escrow_id_hex: String, coordinator_escrow_pubkey: String) -> (r:
        EscrowToken)
        ensures
            r@ == (EscrowTokenView {
                amount,
                escrow_id_hex: escrow_id_hex@,
                coordinator_escrow_pubkey: coordinator_escrow_pubkey@,
            }),
    {
        EscrowToken { amount, escrow_id_hex, coordinator_escrow_pubkey }
    }

    pub fn amount(&self) -> (r: u64)
        ensures
            r == self@.amount,
    {
        self.amount
    }

    pub fn escrow_id_hex(&self) -> (r: &String)
        ensures
            r@ == self@.escrow_id_hex,
    {
        &self.escrow_id_hex
    }

    pub fn coordinator_escrow_pubkey(&self) -> (r: &String)
        ensures
            r@ == self@.coordinator_escrow_pubkey,
    {
        &self.coordinator_escrow_pubkey
    }
}

/// The token that belongs to a trade: it locks the contract's amount and is
/// bound to the registration's escrow and coordinator key.
pub open spec fn minted_token(
    contract: TradeContractView,
    registration: EscrowRegistrationView,
) -> EscrowTokenView {
    EscrowTokenView {
        amount: contract.trade_amount_sat,
        escrow_id_hex: registration.escrow_id_hex,
        coordinator_escrow_pubkey: registration.coordinator_escrow_pubkey,
    }
}

/// Whether a token belongs to a trade: its amount is the contract's, and it
/// names exactly the registration's escrow and coordinator key.
pub open spec fn token_bound_to(
    token: EscrowTokenView,
    contract: TradeContractView,
    registration: EscrowRegistrationView,
) -> bool {
    &&& token.amount == contract.trade_amount_sat
    &&& token.escrow_id_hex == registration.escrow_id_hex
    &&& token.coordinator_escrow_pubkey == registration.coordinator_escrow_pubkey
}

/// The verdict on a received token. `received` is what the payload said, or
/// `None` where it could not be read as a token at all: that is a
/// `ProtocolError`. A token that was read but belongs to another trade is a
/// `ValidationError`.
pub open spec fn validated_token(
    received: Option<EscrowTokenView>,
    contract: TradeContractView,
    registration: EscrowRegistrationView,
) -> Result<EscrowTokenView, EscrowError> {
    match received {
        None => Err(EscrowError::ProtocolError),
        Some(token) => if token_bound_to(token, contract, registration) {
            Ok(token)
        } else {
            Err(EscrowError::ValidationError)
        },
    }
}

/// The view of a result that holds a token.
pub open spec fn token_result_view(r: Result<EscrowToken, EscrowError>) -> Result<
    EscrowTokenView,
    EscrowError,
> {
    match r {
        Ok(token) => Ok(token@),
        Err(e) => Err(e),
    }
}

/// The view of a token that may be missing.
pub open spec fn token_option_view(t: Option<EscrowToken>) -> Option<EscrowTokenView> {
    match t {
        Some(token) => Some(token@),
        None => None,
    }
}

/// The wallet of one trader. Its view is the key under which it trades.
#[derive(Debug, PartialEq, Eq)]
pub struct ClientEcashWallet {
    trade_pubkey: String,
}

impl View for ClientEcashWallet {
    type V = Seq<char>;

    closed spec fn view(&self) -> Seq<char> {
        self.trade_pubkey@
    }
}

impl ClientEcashWallet {
    pub fn new(trade_pubkey: String) -> (r: ClientEcashWallet)
        ensures
            r@ == trade_pubkey@,
    {
        ClientEcashWallet { trade_pubkey }
    }

    pub fn trade_pubkey(&self) -> (r: &String)
        ensures
            r@ == self@,
    {
        &self.trade_pubkey
    }

    /// States the token that the buyer issues for a trade.
    pub fn mint_escrow_token(
        &self,
        contract: &TradeContract,
        registration: &EscrowRegistration,
    ) -> (r: EscrowToken)
        ensures
            r@ == minted_token(contract@, registration@),
    {
        EscrowToken {
            amount: contract.trade_amount_sat(),
            escrow_id_hex: registration.escrow_id_hex().clone(),
            coordinator_escrow_pubkey: registration.coordinator_escrow_pubkey().clone(),
        }
    }

    /// Checks a received token against the trade. `received` is `None` where
    /// the payload could not be read as a token. The token comes back
    /// exactly when it locks the contract's amount and names the
    /// registration's escrow and coordinator key.
    pub fn validate_escrow_token(
        &self,
        received: Option<EscrowToken>,
        contract: &TradeContract,
        registration: &EscrowRegistration,
    ) -> (r: Result<EscrowToken, EscrowError>)
        ensures
            token_result_view(r) == validated_token(
                token_option_view(received),
                contract@,
                registration@,
            ),
    {
        match received {
            None => Err(EscrowError::ProtocolError),
            Some(token) => {
                if token.amount == contract.trade_amount_sat() && token.escrow_id_hex
                    == *registration.escrow_id_hex() && token.coordinator_escrow_pubkey
                    == *registration.coordinator_escrow_pubkey() {
                    Ok(token)
                } else {
                    Err(EscrowError::ValidationError)
                }
            },
        }
    }
}

/// A token issued for a trade passes the check against that same trade, and
/// the token that comes back locks the contract's amount.
pub proof fn lemma_minted_token_validates(
    contract: TradeContractView,
    registration: EscrowRegistrationView,
)
    ensures
        validated_token(Some(minted_token(contract, registration)), contract, registration) == Ok::<
            EscrowTokenView,
            EscrowError,
        >(minted_token(contract, registration)),
        minted_token(contract, registration).amount == contract.trade_amount_sat,
{
}

/// A token issued under one registration fails the check with
/// `ValidationError` against a registration with another escrow identifier,
/// whatever else the two registrations share.
pub proof fn lemma_token_bound_to_registration(
    contract: TradeContractView,
    issued_under: EscrowRegistrationView,
    checked_against: EscrowRegistrationView,
)
    requires
        issued_under.escrow_id_hex != checked_against.escrow_id_hex,
    ensures
        validated_token(
            Some(minted_token(contract, issued_under)),
            contract,
            checked_against,
        ) == Err::<EscrowTokenView, EscrowError>(EscrowError::ValidationError),
{
}

/// A token is accepted only if it is the one that would be issued for the
/// trade: nothing else passes the check.
pub proof fn lemma_only_minted_token_validates(
    received: Option<EscrowTokenView>,
    contract: TradeContractView,
    registration: EscrowRegistrationView,
)
    ensures
        validated_token(received, contract, registration) is Ok <==> received == Some(
            minted_token(contract, registration),
        ),
{
}

} // verus!
