use vstd::prelude::*;
use vstd::string::*;
use crate::config::{append_decimal, decimal};
use hmac::Mac;

verus! {

/// A value read out of a request or a response: absent, present but not
/// readable as text, or text.
#[derive(Debug, Clone)]
pub enum Field {
    Missing,
    Malformed,
    Text(String),
}

/// Why a payment webhook call is refused.
#[derive(Clone, Copy, Debug, PartialEq, Eq, Structural)]
pub enum WebhookError {
    /// The signature header is not visible ASCII text.
    HeaderUnreadable,
    /// The signature header is not hexadecimal.
    HeaderNotHex,
    /// The signature does not match the body.
    SignatureMismatch,
    /// No signature, not a payment notice, or no status.
    Rejected,
}

/// Why an invoice could not be had from the gateway's answer.
#[derive(Debug, Clone, PartialEq, Eq)]
pub enum InvoiceError {
    /// The gateway answered with an unsuccessful HTTP status.
    BadStatus,
    /// The answer has no `result` field.
    ResultMissing,
    /// The gateway refused; its `message` field, where it is text.
    Refused(Option<String>),
    /// The answer has no `payLink` field.
    PayLinkMissing,
    /// The `payLink` field is not text.
    PayLinkNotString,
}

/// The code by which the gateway reports a created invoice.
pub const INVOICE_CREATED: i64 = 100;

/// The value of a hexadecimal digit of either case.
pub open spec fn hex_value(c: char) -> Option<nat> {
    if '0' <= c && c <= '9' {
        Some((c as nat - '0' as nat) as nat)
    } else if 'a' <= c && c <= 'f' {
        Some((c as nat - 'a' as nat + 10) as nat)
    } else if 'A' <= c && c <= 'F' {
        Some((c as nat - 'A' as nat + 10) as nat)
    } else {
        None
    }
}

/// An even number of hexadecimal digits.
pub open spec fn is_hex_text(s: Seq<char>) -> bool {
    s.len() % 2 == 0 && forall|i: int| 0 <= i < s.len() ==> hex_value(s[i]) is Some
}

/// The bytes that pairs of hexadecimal digits spell, high digit first.
pub open spec fn hex_bytes(s: Seq<char>) -> Seq<u8> {
    Seq::new(
        s.len() / 2,
        |i: int| (16 * hex_value(s[2 * i])->0 + hex_value(s[2 * i + 1])->0) as u8,
    )
}

/// Relies on `hex::decode`: the bytes of an even run of hexadecimal digits
/// of either case, and an error for any other text.
#[verifier::external_body]
fn decode_hex(s: &str) -> (r: Option<Vec<u8>>)
    ensures
        r is Some <==> is_hex_text(s@),
        r is Some ==> r->0@ == hex_bytes(s@),
{
    match hex::decode(s) {
        Ok(v) => Some(v),
        Err(_) => None,
    }
}

/// The HMAC-SHA512 tag of `msg` under `key`.
pub uninterp spec fn hmac_sha512_of(key: Seq<u8>, msg: Seq<u8>) -> Seq<u8>;

/// Relies on `hmac::Hmac::<sha2::Sha512>` through `Mac::new_from_slice`, which
/// takes a key of any length, `Mac::update` and `Mac::verify_slice`, which
/// accepts exactly the full tag, compared in constant time.
#[verifier::external_body]
fn hmac_sha512_verify(key: &[u8], msg: &[u8], tag: &[u8]) -> (r: bool)
    ensures
        r == (tag@ == hmac_sha512_of(key@, msg@)),
{
    match hmac::Hmac::<sha2::Sha512>::new_from_slice(key) {
        Ok(mut mac) => {
            mac.update(msg);
            mac.verify_slice(tag).is_ok()
        },
        Err(_) => false,
    }
}

/// Whether an optional text is present and equal to `s`.
pub open spec fn text_is(t: Option<String>, s: Seq<char>) -> bool {
    t is Some && t->0@ == s
}

/// What a webhook call comes to: whether to grant the subscription, or why
/// the call is refused.
pub open spec fn webhook_result(
    merchant_key: Seq<u8>,
    hmac_header: Field,
    body: Seq<u8>,
    payment_type: Option<String>,
    status: Option<String>,
) -> Result<bool, WebhookError> {
    if hmac_header is Missing || !text_is(payment_type, "payment"@) {
        Err(WebhookError::Rejected)
    } else if hmac_header is Malformed {
        Err(WebhookError::HeaderUnreadable)
    } else {
        let h = hmac_header->Text_0@;
        if !is_hex_text(h) {
            Err(WebhookError::HeaderNotHex)
        } else if hex_bytes(h) != hmac_sha512_of(merchant_key, body) {
            Err(WebhookError::SignatureMismatch)
        } else {
            match status {
                Some(s) => Ok(s@ == "Paid"@),
                None => Err(WebhookError::Rejected),
            }
        }
    }
}

fn text_equals(t: &Option<String>, s: &str) -> (r: bool)
    ensures
        r == text_is(*t, s@),
{
    match t {
        Some(v) => {
            let w = String::from_str(s);
            *v == w
        },
        None => false,
    }
}

/// Decides a payment webhook call: `hmac_header` is the signature header,
/// `body` the raw request body, `payment_type` and `status` the body's
/// `type` and `status` fields where they are text. `Ok(true)` asks for the
/// user's subscription to be granted; `Ok(false)` acknowledges the call.
pub fn callback_webhook(
    merchant_key: &[u8],
    hmac_header: &Field,
    body: &[u8],
    payment_type: &Option<String>,
    status: &Option<String>,
) -> (r: Result<bool, WebhookError>)
    ensures
        r == webhook_result(merchant_key@, *hmac_header, body@, *payment_type, *status),
{
    proof {
        reveal_strlit("payment");
        reveal_strlit("Paid");
    }
    let header = match hmac_header {
        Field::Missing => {
            return Err(WebhookError::Rejected);
        },
        Field::Malformed => None,
        Field::Text(h) => Some(h),
    };
    if !text_equals(payment_type, "payment") {
        return Err(WebhookError::Rejected);
    }
    let h = match header {
        Some(h) => h,
        None => {
            return Err(WebhookError::HeaderUnreadable);
        },
    };
    let tag = match decode_hex(h.as_str()) {
        Some(t) => t,
        None => {
            return Err(WebhookError::HeaderNotHex);
        },
    };
    if !hmac_sha512_verify(merchant_key, body, tag.as_slice()) {
        return Err(WebhookError::SignatureMismatch);
    }
    match status {
        Some(_) => Ok(text_equals(status, "Paid")),
        None => Err(WebhookError::Rejected),
    }
}

/// What the gateway's answer to an invoice request comes to: the payment link,
/// or why there is none. `result` is the `result` field where present, as an
/// integer where it is one.
pub open spec fn invoice_result(
    http_success: bool,
    result: Option<Option<i64>>,
    pay_link: Field,
    message: Option<String>,
) -> Result<Seq<char>, InvoiceError> {
    if !http_success {
        Err(InvoiceError::BadStatus)
    } else if result is None {
        Err(InvoiceError::ResultMissing)
    } else if result->0 != Some(INVOICE_CREATED) {
        Err(InvoiceError::Refused(message))
    } else {
        match pay_link {
            Field::Missing => Err(InvoiceError::PayLinkMissing),
            Field::Malformed => Err(InvoiceError::PayLinkNotString),
            Field::Text(s) => Ok(s@),
        }
    }
}

/// Reads the gateway's answer to an invoice request.
pub fn invoice_outcome(
    http_success: bool,
    result: Option<Option<i64>>,
    pay_link: Field,
    message: Option<String>,
) -> (r: Result<String, InvoiceError>)
    ensures
        match (r, invoice_result(http_success, result, pay_link, message)) {
            (Ok(s), Ok(t)) => s@ == t,
            (Err(e), Err(f)) => e == f,
            _ => false,
        },
{
    if !http_success {
        return Err(InvoiceError::BadStatus);
    }
    let code = match result {
        Some(c) => c,
        None => {
            return Err(InvoiceError::ResultMissing);
        },
    };
    match code {
        Some(c) => {
            if c != INVOICE_CREATED {
                return Err(InvoiceError::Refused(message));
            }
        },
        None => {
            return Err(InvoiceError::Refused(message));
        },
    }
    match pay_link {
        Field::Missing => Err(InvoiceError::PayLinkMissing),
        Field::Malformed => Err(InvoiceError::PayLinkNotString),
        Field::Text(s) => Ok(s),
    }
}

/// The decimal form of a signed integer.
pub open spec fn signed_decimal(n: int) -> Seq<char> {
    if n < 0 {
        seq!['-'] + decimal((-n) as nat)
    } else {
        decimal(n as nat)
    }
}

/// The address at which the gateway reports payments of `user_id`.
pub open spec fn webhook_url(base: Seq<char>, user_id: int) -> Seq<char> {
    base + "/api/payment/webhook/"@ + signed_decimal(user_id)
}

/// The address at which the gateway reports payments of `user_id`.
pub fn callback_url(base: &str, user_id: i64) -> (r: String)
    ensures
        r@ == webhook_url(base@, user_id as int),
{
    proof {
        reveal_strlit("/api/payment/webhook/");
        reveal_strlit("-");
    }
    let mut s = String::from_str(base);
    s.append("/api/payment/webhook/");
    if user_id < 0 {
        s.append("-");
        let magnitude: u64 = ((-(user_id + 1)) as u64) + 1;
        append_decimal(&mut s, magnitude);
    } else {
        append_decimal(&mut s, user_id as u64);
    }
    proof {
        assert(s@ =~= webhook_url(base@, user_id as int));
    }
    s
}

} // verus!
