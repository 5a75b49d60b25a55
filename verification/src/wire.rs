//! The messages of the protocol as JSON text: the contract that a trader
//! sends to the coordinator, and the registration that the coordinator
//! answers with.

use crate::ecash::{ecash_pubkey_hex, normalize_ecash_pubkey};
use crate::encoding::{decimal_digits, decimal_string};
use crate::error::EscrowError;
use crate::json::{
    as_string, as_u64, json_document, json_member, json_quoted, json_string, json_u64, member,
    parse_document, quote,
};
use crate::model::{
    registration_from_parts, registration_result_view, EscrowRegistration,
    EscrowRegistrationView, TradeContract, TradeContractView,
};
use vstd::prelude::*;

verus! {

/// The view of a text that may be missing.
pub open spec fn text_option_view(t: Option<String>) -> Option<Seq<char>> {
    match t {
        Some(s) => Some(s@),
        None => None,
    }
}

/// The text of the string member `key` of `doc`, if `doc` has one.
pub open spec fn string_member(doc: serde_json::Value, key: Seq<char>) -> Option<Seq<char>> {
    match json_member(doc, key) {
        Some(m) => json_string(m),
        None => None,
    }
}

/// The number in the member `key` of `doc`, if `doc` has one that fits.
pub open spec fn u64_member(doc: serde_json::Value, key: Seq<char>) -> Option<u64> {
    match json_member(doc, key) {
        Some(m) => json_u64(m),
        None => None,
    }
}

fn read_string_member(doc: &serde_json::Value, key: &str) -> (r: Option<String>)
    ensures
        text_option_view(r) == string_member(*doc, key@),
{
    match member(doc, key) {
        Some(m) => match as_string(m) {
            Some(s) => Some(String::from_str(s)),
            None => None,
        },
        None => None,
    }
}

fn read_u64_member(doc: &serde_json::Value, key: &str) -> (r: Option<u64>)
    ensures
        r == u64_member(*doc, key@),
{
    match member(doc, key) {
        Some(m) => as_u64(m),
        None => None,
    }
}

/// What a registration message says. The text must be a JSON document; the
/// registration is then made of its members `escrow_id_hex` (a string),
/// `coordinator_escrow_pubkey` (a string that is a wallet key) and
/// `escrow_start_time` (an unsigned integer). Anything else is a
/// `ProtocolError`. Other members are ignored.
pub open spec fn parsed_registration(text: Seq<char>) -> Result<
    EscrowRegistrationView,
    EscrowError,
> {
    match json_document(text) {
        None => Err(EscrowError::ProtocolError),
        Some(doc) => registration_from_parts(
            string_member(doc, "escrow_id_hex"@),
            match string_member(doc, "coordinator_escrow_pubkey"@) {
                Some(key) => ecash_pubkey_hex(key),
                None => None,
            },
            u64_member(doc, "escrow_start_time"@),
        ),
    }
}

/// Reads a registration message.
pub fn parse_registration(text: &str) -> (r: Result<EscrowRegistration, EscrowError>)
    ensures
        registration_result_view(r) == parsed_registration(text@),
{
    match parse_document(text) {
        None => Err(EscrowError::ProtocolError),
        Some(doc) => {
            let escrow_id_hex = read_string_member(&doc, "escrow_id_hex");
            let coordinator_escrow_pubkey = match read_string_member(
                &doc,
                "coordinator_escrow_pubkey",
            ) {
                Some(key) => normalize_ecash_pubkey(key.as_str()),
                None => None,
            };
            let escrow_start_time = read_u64_member(&doc, "escrow_start_time");
            EscrowRegistration::from_parts(
                escrow_id_hex,
                coordinator_escrow_pubkey,
                escrow_start_time,
            )
        },
    }
}

/// The text of a registration message whose members are already encoded:
/// one JSON object, its members in this order and with nothing between
/// them. `escrow_id_hex` and `coordinator_escrow_pubkey` are JSON string
/// literals and are copied as they are.
pub open spec fn registration_text(
    escrow_id_hex: Seq<char>,
    coordinator_escrow_pubkey: Seq<char>,
    escrow_start_time: u64,
) -> Seq<char> {
    "{\"escrow_id_hex\":"@ + escrow_id_hex + ",\"coordinator_escrow_pubkey\":"@
        + coordinator_escrow_pubkey + ",\"escrow_start_time\":"@ + decimal_digits(
        escrow_start_time as nat,
    ) + "}"@
}

/// Writes a registration message from members that are already encoded.
pub fn write_registration(
    escrow_id_hex: &str,
    coordinator_escrow_pubkey: &str,
    escrow_start_time: u64,
) -> (r: String)
    ensures
        r@ == registration_text(escrow_id_hex@, coordinator_escrow_pubkey@, escrow_start_time),
{
    let start = decimal_string(escrow_start_time);
    let mut m = String::from_str("{\"escrow_id_hex\":");
    m.append(escrow_id_hex);
    m.append(",\"coordinator_escrow_pubkey\":");
    m.append(coordinator_escrow_pubkey);
    m.append(",\"escrow_start_time\":");
    m.append(start.as_str());
    m.append("}");
    m
}

/// The registration message for a registration: [`registration_text`] of
/// its texts as JSON string literals. `None` where a text cannot be encoded.
pub open spec fn registration_json(registration: EscrowRegistrationView) -> Option<Seq<char>> {
    match (
        json_quoted(registration.escrow_id_hex),
        json_quoted(registration.coordinator_escrow_pubkey),
    ) {
        (Some(id), Some(key)) => Some(registration_text(id, key, registration.escrow_start_time)),
        _ => None,
    }
}

/// Writes the registration message. Fails with `ProtocolError` exactly when
/// a text of the registration cannot be encoded.
pub fn registration_message(registration: &EscrowRegistration) -> (r: Result<String, EscrowError>)
    ensures
        match r {
            Ok(m) => registration_json(registration@) == Some(m@),
            Err(e) => e == EscrowError::ProtocolError && registration_json(registration@) is None,
        },
{
    let id = match quote(registration.escrow_id_hex().as_str()) {
        Some(q) => q,
        None => {
            return Err(EscrowError::ProtocolError);
        },
    };
    let key = match quote(registration.coordinator_escrow_pubkey().as_str()) {
        Some(q) => q,
        None => {
            return Err(EscrowError::ProtocolError);
        },
    };
    Ok(write_registration(id.as_str(), key.as_str(), registration.escrow_start_time()))
}

/// The text of a contract message whose members are already encoded: one
/// JSON object, its members in this order and with nothing between them.
/// All but the two numbers are JSON string literals and are copied as they
/// are.
pub open spec fn contract_text(
    trade_description: Seq<char>,
    trade_amount_sat: u64,
    npubkey_seller: Seq<char>,
    npubkey_buyer: Seq<char>,
    npubkey_coordinator: Seq<char>,
    time_limit: u64,
    seller_ecash_public_key: Seq<char>,
    buyer_ecash_public_key: Seq<char>,
) -> Seq<char> {
    "{\"trade_description\":"@ + trade_description + ",\"trade_amount_sat\":"@ + decimal_digits(
        trade_amount_sat as nat,
    ) + ",\"npubkey_seller\":"@ + npubkey_seller + ",\"npubkey_buyer\":"@ + npubkey_buyer
        + ",\"npubkey_coordinator\":"@ + npubkey_coordinator + ",\"time_limit\":"@
        + decimal_digits(time_limit as nat) + ",\"seller_ecash_public_key\":"@
        + seller_ecash_public_key + ",\"buyer_ecash_public_key\":"@ + buyer_ecash_public_key
        + "}"@
}

/// Writes a contract message from members that are already encoded.
pub fn write_contract(
    trade_description: &str,
    trade_amount_sat: u64,
    npubkey_seller: &str,
    npubkey_buyer: &str,
    npubkey_coordinator: &str,
    time_limit: u64,
    seller_ecash_public_key: &str,
    buyer_ecash_public_key: &str,
) -> (r: String)
    ensures
        r@ == contract_text(
            trade_description@,
            trade_amount_sat,
            npubkey_seller@,
            npubkey_buyer@,
            npubkey_coordinator@,
            time_limit,
            seller_ecash_public_key@,
            buyer_ecash_public_key@,
        ),
{
    let amount = decimal_string(trade_amount_sat);
    let limit = decimal_string(time_limit);
    let mut m = String::from_str("{\"trade_description\":");
    m.append(trade_description);
    m.append(",\"trade_amount_sat\":");
    m.append(amount.as_str());
    m.append(",\"npubkey_seller\":");
    m.append(npubkey_seller);
    m.append(",\"npubkey_buyer\":");
    m.append(npubkey_buyer);
    m.append(",\"npubkey_coordinator\":");
    m.append(npubkey_coordinator);
    m.append(",\"time_limit\":");
    m.append(limit.as_str());
    m.append(",\"seller_ecash_public_key\":");
    m.append(seller_ecash_public_key);
    m.append(",\"buyer_ecash_public_key\":");
    m.append(buyer_ecash_public_key);
    m.append("}");
    m
}

/// The contract message for a contract: [`contract_text`] of its texts as
/// JSON string literals. `None` where a text cannot be encoded.
pub open spec fn contract_json(contract: TradeContractView) -> Option<Seq<char>> {
    match (
        json_quoted(contract.trade_description),
        json_quoted(contract.npubkey_seller),
        json_quoted(contract.npubkey_buyer),
        json_quoted(contract.npubkey_coordinator),
        json_quoted(contract.seller_ecash_public_key),
        json_quoted(contract.buyer_ecash_public_key),
    ) {
        (Some(description), Some(seller), Some(buyer), Some(coordinator), Some(seller_key), Some(
            buyer_key,
        )) => Some(
            contract_text(
                description,
                contract.trade_amount_sat,
                seller,
                buyer,
                coordinator,
                contract.time_limit,
                seller_key,
                buyer_key,
            ),
        ),
        _ => None,
    }
}

/// Writes the contract message. The same contract always gives the same
/// text. Fails with `InvalidContract` exactly when a text of the contract
/// cannot be encoded.
pub fn contract_message(contract: &TradeContract) -> (r: Result<String, EscrowError>)
    ensures
        match r {
            Ok(m) => contract_json(contract@) == Some(m@),
            Err(e) => e == EscrowError::InvalidContract && contract_json(contract@) is None,
        },
{
    let description = match quote(contract.trade_description().as_str()) {
        Some(q) => q,
        None => {
            return Err(EscrowError::InvalidContract);
        },
    };
    let seller = match quote(contract.npubkey_seller().to_hex().as_str()) {
        Some(q) => q,
        None => {
            return Err(EscrowError::InvalidContract);
        },
    };
    let buyer = match quote(contract.npubkey_buyer().to_hex().as_str()) {
        Some(q) => q,
        None => {
            return Err(EscrowError::InvalidContract);
        },
    };
    let coordinator = match quote(contract.npubkey_coordinator().to_hex().as_str()) {
        Some(q) => q,
        None => {
            return Err(EscrowError::InvalidContract);
        },
    };
    let seller_key = match quote(contract.seller_ecash_public_key().as_str()) {
        Some(q) => q,
        None => {
            return Err(EscrowError::InvalidContract);
        },
    };
    let buyer_key = match quote(contract.buyer_ecash_public_key().as_str()) {
        Some(q) => q,
        None => {
            return Err(EscrowError::InvalidContract);
        },
    };
    Ok(
        write_contract(
            description.as_str(),
            contract.trade_amount_sat(),
            seller.as_str(),
            buyer.as_str(),
            coordinator.as_str(),
            contract.time_limit(),
            seller_key.as_str(),
            buyer_key.as_str(),
        ),
    )
}

} // verus!
