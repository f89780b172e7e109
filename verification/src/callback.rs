//! The request-facing callback core: validates an LNURL-pay callback
//! request, resolves the recipient, and — after the invoice service has
//! issued an invoice — builds the verify URL and the success envelope the
//! payer receives. Authorization decides before any invoice is issued;
//! the success envelope is built only after the `Pending` row is recorded.

use vstd::prelude::*;
use vstd::string::*;

use crate::directory::{lookup, RecipientContact, RecipientDirectory};
use crate::text::{dec_rep, push_decimal};

verus! {

/// Smallest amount, in millisatoshi, that a callback request may ask for.
pub const MIN_AMOUNT_MSATS: u64 = 1000;

/// The query parameters of a callback request: the requested amount in
/// millisatoshi, and the optional nonce, payer comment, and ephemeral
/// payer proof key.
#[derive(Debug)]
pub struct LnurlCallbackParams {
    pub amount: u64,
    pub nonce: Option<String>,
    pub comment: Option<String>,
    pub proofofpayer: Option<String>,
}

/// The optional success action of a callback response.
#[derive(Debug)]
pub struct LnurlCallbackSuccessAction {
    pub tag: String,
    pub message: String,
}

/// Outcome tag of an LNURL response envelope.
#[derive(PartialEq, Eq, Structural, Clone, Copy, Debug)]
pub enum LnurlStatus {
    Success,
    Failure,
}

/// The callback response envelope: the encoded invoice the payer pays,
/// the verify URL, and the optional fields, all absent on success.
#[derive(Debug)]
pub struct LnurlCallbackResponse {
    pub status: LnurlStatus,
    pub reason: Option<String>,
    pub pr: String,
    pub verify: String,
    pub success_action: Option<LnurlCallbackSuccessAction>,
    pub routes: Option<Vec<String>>,
}

/// Why a callback request fails before an invoice can be returned.
#[derive(PartialEq, Eq, Structural, Clone, Copy, Debug)]
pub enum CallbackError {
    /// The requested amount is below the minimum.
    AmountBelowMinimum,
    /// No recipient is registered under the username.
    UnknownRecipient,
    /// The constructed verify URL is not a well-formed URL.
    InvalidVerifyUrl,
}

impl CallbackError {
    /// The HTTP status the error is surfaced with.
    pub fn status_code(&self) -> (c: u16)
        ensures
            *self == CallbackError::AmountBelowMinimum ==> c == 400,
            *self == CallbackError::UnknownRecipient ==> c == 404,
            *self == CallbackError::InvalidVerifyUrl ==> c == 500,
    {
        match self {
            CallbackError::AmountBelowMinimum => 400,
            CallbackError::UnknownRecipient => 404,
            CallbackError::InvalidVerifyUrl => 500,
        }
    }
}

/// Treats an absent or empty optional parameter as absent.
pub fn empty_string_as_none(s: Option<String>) -> (r: Option<String>)
    ensures
        match s {
            None => r is None,
            Some(x) => if x@.len() == 0 {
                r is None
            } else {
                (r matches Some(y) && y@ == x@)
            },
        },
{
    match s {
        None => None,
        Some(x) => {
            if x.as_str().unicode_len() == 0 {
                None
            } else {
                Some(x)
            }
        },
    }
}

/// Decides a callback request before any invoice is issued or any row is
/// written: the amount must reach the minimum, and the username must
/// resolve. On success the resolved contact is handed back; each failure
/// names its error, the amount checked first.
pub fn authorize_callback<'a>(
    username: &str,
    params: &LnurlCallbackParams,
    directory: &'a RecipientDirectory,
) -> (r: Result<&'a RecipientContact, CallbackError>)
    ensures
        params.amount < MIN_AMOUNT_MSATS ==> (r matches Err(CallbackError::AmountBelowMinimum)),
        params.amount >= MIN_AMOUNT_MSATS ==> match lookup(directory@, username@) {
            None => r matches Err(CallbackError::UnknownRecipient),
            Some(c) => (r matches Ok(contact) && contact@ == c),
        },
{
    if params.amount < MIN_AMOUNT_MSATS {
        return Err(CallbackError::AmountBelowMinimum);
    }
    match directory.resolve(username) {
        Some(contact) => Ok(contact),
        None => Err(CallbackError::UnknownRecipient),
    }
}

/// The verify URL for one invoice, embedding the username and the
/// invoice service's operation id.
pub open spec fn verify_url_spec(
    domain: Seq<char>,
    port: u16,
    username: Seq<char>,
    op_id: Seq<char>,
) -> Seq<char> {
    "http://"@ + domain + ":"@ + dec_rep(port as nat) + "/lnurlp/"@ + username + "/verify/"@
        + op_id
}

/// Encodes the verify URL.
pub fn encode_verify_url(domain: &str, port: u16, username: &str, op_id: &str) -> (r: String)
    ensures
        r@ == verify_url_spec(domain@, port, username@, op_id@),
{
    let mut out = String::new();
    out.append("http://");
    out.append(domain);
    out.append(":");
    push_decimal(&mut out, port as u64);
    out.append("/lnurlp/");
    out.append(username);
    out.append("/verify/");
    out.append(op_id);
    proof {
        assert(out@ =~= verify_url_spec(domain@, port, username@, op_id@));
    }
    out
}

/// Whether a string is a well-formed URL.
pub uninterp spec fn url_ok(s: Seq<char>) -> bool;

/// Relies on url's `Url::parse` (with no base): whether a string parses
/// as a URL depends on the string alone.
#[verifier::external_body]
fn parse_url(s: &str) -> (r: bool)
    ensures
        r == url_ok(s@),
{
    url::Url::parse(s).is_ok()
}

/// Builds the success envelope for an issued, recorded invoice: status
/// `Ok`, the encoded invoice as `pr`, the verify URL, and no reason,
/// success action or routes. Fails exactly when the constructed verify
/// URL is not a well-formed URL.
pub fn build_callback_response(
    username: &str,
    op_id: &str,
    bolt11: &str,
    domain: &str,
    port: u16,
) -> (r: Result<LnurlCallbackResponse, CallbackError>)
    ensures
        r is Ok <==> url_ok(verify_url_spec(domain@, port, username@, op_id@)),
        r matches Ok(resp) ==> resp.status == LnurlStatus::Success && resp.pr@ == bolt11@
            && resp.verify@ == verify_url_spec(domain@, port, username@, op_id@)
            && resp.reason is None && resp.success_action is None && resp.routes is None,
        r is Err ==> (r matches Err(CallbackError::InvalidVerifyUrl)),
{
    let verify = encode_verify_url(domain, port, username, op_id);
    if !parse_url(verify.as_str()) {
        return Err(CallbackError::InvalidVerifyUrl);
    }
    Ok(
        LnurlCallbackResponse {
            status: LnurlStatus::Success,
            reason: None,
            pr: bolt11.to_owned(),
            verify,
            success_action: None,
            routes: None,
        },
    )
}

} // verus!
