use lnurl_settle::delivery::{
    encode_delivery_payload, mint_request, prepare_chat_delivery, prepare_delivery, DeliveryError,
    NOTE_VALIDITY_SECS,
};
use lnurl_settle::directory::RecipientContact;

const ALICE_PUBKEY: &str = "82341f882b6eabcd2ba7f1ef90aad961cf074af15b9ef44a09f9d2a8fbfbe6a2";

fn alice() -> RecipientContact {
    RecipientContact {
        name: String::from("alice"),
        pubkey: String::from(ALICE_PUBKEY),
        relays: vec![String::from("wss://relay.example.com")],
    }
}

#[test]
fn mint_request_keeps_the_amount_and_uses_the_standard_window() {
    let r = mint_request(5000);
    assert_eq!(r.amount_msats, 5000);
    assert_eq!(r.validity_secs, NOTE_VALIDITY_SECS);
    assert_eq!(r.validity_secs, 604800);
}

#[test]
fn payload_is_the_exact_json_object() {
    let p = encode_delivery_payload("op1", 1234, "noteblob");
    assert_eq!(p, "{\"operationId\":\"op1\",\"amount\":1234,\"notes\":\"noteblob\"}");
}

#[test]
fn payload_escapes_quotes_backslashes_and_control_characters() {
    let p = encode_delivery_payload("op\"1", 7, "a\\b\nc");
    assert_eq!(p, "{\"operationId\":\"op\\\"1\",\"amount\":7,\"notes\":\"a\\\\b\\u000ac\"}");
}

#[test]
fn payload_renders_the_largest_amount_exactly() {
    let p = encode_delivery_payload("op", u64::MAX, "");
    assert_eq!(p, "{\"operationId\":\"op\",\"amount\":18446744073709551615,\"notes\":\"\"}");
}

#[test]
fn payload_renders_zero_exactly() {
    let p = encode_delivery_payload("op", 0, "n");
    assert_eq!(p, "{\"operationId\":\"op\",\"amount\":0,\"notes\":\"n\"}");
}

#[test]
fn delivery_carries_the_settled_amount_to_the_recipient_key() {
    let m = prepare_delivery(&alice(), "mintop1", 5000, "notesabc")
        .expect("alice's key is a valid messaging key");
    assert_eq!(m.recipient_pubkey, ALICE_PUBKEY);
    assert_eq!(m.payload, "{\"operationId\":\"mintop1\",\"amount\":5000,\"notes\":\"notesabc\"}");
    assert!(!m.payload.is_empty());
}

#[test]
fn an_unparsable_recipient_key_fails_delivery_preparation() {
    let mut broken = alice();
    broken.pubkey = String::from("not-a-key");
    let r = prepare_delivery(&broken, "mintop1", 5000, "notesabc");
    assert_eq!(r.unwrap_err(), DeliveryError::InvalidRecipientKey);
}

#[test]
fn chat_delivery_addresses_name_at_domain() {
    let m = prepare_chat_delivery(&alice(), "chat.example.com", "mintop1", 5000, "notesabc")
        .expect("alice@chat.example.com is a valid chat address");
    assert_eq!(m.address, "alice@chat.example.com");
    assert_eq!(m.payload, "{\"operationId\":\"mintop1\",\"amount\":5000,\"notes\":\"notesabc\"}");
}

#[test]
fn an_unparsable_chat_address_fails_chat_delivery() {
    let mut nameless = alice();
    nameless.name = String::new();
    let r = prepare_chat_delivery(&nameless, "chat.example.com", "mintop1", 5000, "notesabc");
    assert_eq!(r.unwrap_err(), DeliveryError::InvalidChatAddress);
}
