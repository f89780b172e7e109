//! Note minting and delivery: once an invoice settles, the settled amount
//! is minted into bearer notes and a JSON payload carrying them is
//! addressed to the recipient, either as a direct message to their public
//! key or, as an alternative path, to a chat address `name@domain`.

use vstd::prelude::*;
use vstd::string::*;

use crate::directory::RecipientContact;
use crate::text::{
    dec_rep, dec_val, json_escaped, lemma_dec_rep_round_trip, push_decimal, push_json_escaped,
};

verus! {

/// How long minted notes stay redeemable, in seconds (seven days).
pub const NOTE_VALIDITY_SECS: u64 = 604800;

/// What the note minting service is asked for: the settled amount, minted
/// into notes valid for a bounded window.
#[derive(Debug)]
pub struct MintRequest {
    pub amount_msats: u64,
    pub validity_secs: u64,
}

/// The mint request for a settled amount: the full amount, with the
/// standard validity window.
pub fn mint_request(amount_msats: u64) -> (r: MintRequest)
    ensures
        r.amount_msats == amount_msats,
        r.validity_secs == NOTE_VALIDITY_SECS,
{
    MintRequest { amount_msats, validity_secs: NOTE_VALIDITY_SECS }
}

/// Why a delivery could not be prepared.
#[derive(PartialEq, Eq, Structural, Clone, Copy, Debug)]
pub enum DeliveryError {
    /// The recipient's stored public key does not parse as a messaging key.
    InvalidRecipientKey,
    /// The recipient's chat address does not parse as a chat identifier.
    InvalidChatAddress,
}

/// The leading part of the delivery payload, up to and including the
/// `"amount":` field name.
pub open spec fn payload_prefix(mint_op_id: Seq<char>) -> Seq<char> {
    "{\"operationId\":\""@ + json_escaped(mint_op_id) + "\",\"amount\":"@
}

/// The trailing part of the delivery payload, from the comma after the
/// amount digits to the closing brace.
pub open spec fn payload_suffix(notes: Seq<char>) -> Seq<char> {
    ",\"notes\":\""@ + json_escaped(notes) + "\"}"@
}

/// The delivery payload: a JSON object carrying the mint operation id,
/// the settled amount, and the string-encoded notes.
pub open spec fn payload_spec(mint_op_id: Seq<char>, amount: nat, notes: Seq<char>) -> Seq<char> {
    payload_prefix(mint_op_id) + dec_rep(amount) + payload_suffix(notes)
}

/// Encodes the delivery payload for one settled invoice.
pub fn encode_delivery_payload(mint_op_id: &str, amount_msats: u64, notes: &str) -> (r: String)
    ensures
        r@ == payload_spec(mint_op_id@, amount_msats as nat, notes@),
{
    let mut out = String::new();
    out.append("{\"operationId\":\"");
    push_json_escaped(&mut out, mint_op_id);
    out.append("\",\"amount\":");
    push_decimal(&mut out, amount_msats);
    out.append(",\"notes\":\"");
    push_json_escaped(&mut out, notes);
    out.append("\"}");
    proof {
        assert(out@ =~= payload_spec(mint_op_id@, amount_msats as nat, notes@));
    }
    out
}

/// The amount a payload carries decodes back to the amount the payload was
/// built from: the payload is exactly prefix, amount digits, suffix, and
/// the digits denote the amount.
pub proof fn lemma_payload_amount_round_trip(mint_op_id: Seq<char>, amount: u64, notes: Seq<char>)
    ensures
        payload_spec(mint_op_id, amount as nat, notes) == payload_prefix(mint_op_id) + dec_rep(
            amount as nat,
        ) + payload_suffix(notes),
        dec_val(dec_rep(amount as nat)) == amount as nat,
{
    lemma_dec_rep_round_trip(amount as nat);
}

/// What a recipient's key must satisfy for direct-message delivery.
pub uninterp spec fn recipient_key_ok(s: Seq<char>) -> bool;

/// Relies on nostr's `PublicKey::parse`: whether a string is accepted as a
/// 32-byte messaging public key (hex, bech32 or URI form) depends on the
/// string alone.
#[verifier::external_body]
fn parse_recipient_key(s: &str) -> (r: bool)
    ensures
        r == recipient_key_ok(s@),
{
    nostr::key::PublicKey::parse(s).is_ok()
}

/// A payload addressed to a recipient's messaging public key.
#[derive(Debug)]
pub struct DeliveryMessage {
    pub recipient_pubkey: String,
    pub payload: String,
}

/// Prepares the direct-message delivery of freshly minted notes: the
/// payload for the settled amount, addressed to the recipient's public
/// key. Fails exactly when that key does not parse.
pub fn prepare_delivery(
    contact: &RecipientContact,
    mint_op_id: &str,
    amount_msats: u64,
    notes: &str,
) -> (r: Result<DeliveryMessage, DeliveryError>)
    ensures
        r is Ok <==> recipient_key_ok(contact.pubkey@),
        r matches Ok(m) ==> m.recipient_pubkey@ == contact.pubkey@ && m.payload@ == payload_spec(
            mint_op_id@,
            amount_msats as nat,
            notes@,
        ),
        r is Err ==> r matches Err(DeliveryError::InvalidRecipientKey),
{
    if !parse_recipient_key(contact.pubkey.as_str()) {
        return Err(DeliveryError::InvalidRecipientKey);
    }
    let payload = encode_delivery_payload(mint_op_id, amount_msats, notes);
    Ok(DeliveryMessage { recipient_pubkey: contact.pubkey.clone(), payload })
}

/// The chat address of a registered name on a chat domain.
pub open spec fn chat_address_spec(name: Seq<char>, chat_domain: Seq<char>) -> Seq<char> {
    name + "@"@ + chat_domain
}

/// What a chat address must satisfy for chat delivery.
pub uninterp spec fn chat_address_ok(s: Seq<char>) -> bool;

/// Relies on xmpp's `BareJid::new`: whether a string is accepted as a bare
/// chat identifier depends on the string alone.
#[verifier::external_body]
fn parse_chat_address(s: &str) -> (r: bool)
    ensures
        r == chat_address_ok(s@),
{
    xmpp::jid::BareJid::new(s).is_ok()
}

/// A payload addressed to a chat identifier.
#[derive(Debug)]
pub struct ChatMessage {
    pub address: String,
    pub payload: String,
}

/// Prepares delivery over the alternative chat transport: the same payload,
/// addressed to `name@chat_domain`. Fails exactly when that address does
/// not parse as a chat identifier.
pub fn prepare_chat_delivery(
    contact: &RecipientContact,
    chat_domain: &str,
    mint_op_id: &str,
    amount_msats: u64,
    notes: &str,
) -> (r: Result<ChatMessage, DeliveryError>)
    ensures
        r is Ok <==> chat_address_ok(chat_address_spec(contact.name@, chat_domain@)),
        r matches Ok(m) ==> m.address@ == chat_address_spec(contact.name@, chat_domain@)
            && m.payload@ == payload_spec(mint_op_id@, amount_msats as nat, notes@),
        r is Err ==> r matches Err(DeliveryError::InvalidChatAddress),
{
    let mut address = contact.name.clone();
    address.append("@");
    address.append(chat_domain);
    if !parse_chat_address(address.as_str()) {
        return Err(DeliveryError::InvalidChatAddress);
    }
    let payload = encode_delivery_payload(mint_op_id, amount_msats, notes);
    Ok(ChatMessage { address, payload })
}

} // verus!
