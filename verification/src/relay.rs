//! The relay dispatcher: resolves the real destination endpoint for an
//! inbound notification — from a capability token (route A) or from the
//! static fallback in the process configuration (route B) — and builds the
//! outbound message. The transport send itself is I/O and is performed by
//! the caller; [`delivery_result`] maps its outcome to the final answer.

use vstd::prelude::*;
use vstd::string::StringExecFns;
use vstd::string::StrSliceExecFns;
use crate::codec;
use crate::codec::DecodeError;
use crate::codec::token_of;

verus! {

/// The relevant fields of an inbound SMS notification, as the telephony
/// vendor's webhook delivers them. All fields are opaque text; nothing is
/// validated here beyond presence of the record itself.
pub struct TwilioSMSWebhookBody {
    /// The message body.
    pub body: String,
    /// The SMS sender.
    pub from: String,
    /// The SMS receiver; accepted but not used in the outbound text.
    pub to: String,
}

/// The four terminal failure classes of a relay request.
#[derive(Clone, Copy, Debug, PartialEq, Eq, Structural)]
pub enum ErrorKind {
    /// The capability token could not be decoded: bad, foreign or corrupted.
    InvalidRoute,
    /// The static route was requested but no fallback is configured.
    Unconfigured,
    /// The inbound payload failed upstream validation and was absent.
    MalformedInput,
    /// The outbound send failed after the destination was resolved.
    DeliveryFailed,
}

impl ErrorKind {
    /// Client-caused failures answer as client errors; the rest as server
    /// errors.
    pub open spec fn spec_client_caused(self) -> bool {
        self == ErrorKind::InvalidRoute || self == ErrorKind::MalformedInput
    }

    /// Whether this failure is the client's fault (a bad token or a bad
    /// payload) rather than the server's (missing configuration, failed
    /// delivery).
    pub fn is_client_error(&self) -> (r: bool)
        ensures
            r == self.spec_client_caused(),
    {
        match self {
            ErrorKind::InvalidRoute => true,
            ErrorKind::MalformedInput => true,
            ErrorKind::Unconfigured => false,
            ErrorKind::DeliveryFailed => false,
        }
    }
}

/// A relay failure: its class and a human-readable detail.
pub struct RelayError {
    pub kind: ErrorKind,
    pub detail: String,
}

/// Process-wide, read-only configuration: an optional static fallback
/// destination endpoint. The empty string means "unconfigured".
pub struct ProcessConfig {
    pub slack_url: String,
}

impl ProcessConfig {
    /// Whether a static fallback destination is configured.
    pub open spec fn spec_has_fallback(self) -> bool {
        self.slack_url@.len() > 0
    }
}

/// A resolved forwarding: where to send and the exact text to send.
pub struct Delivery {
    /// The destination endpoint, reconstructed from a token or taken from
    /// the static configuration.
    pub destination: String,
    /// The outbound message text.
    pub message: String,
}

/// The outbound message text derived from an inbound notification.
pub open spec fn outbound_text(from: Seq<char>, body: Seq<char>) -> Seq<char> {
    "From "@ + from + ": "@ + body
}

/// Build the outbound half of the bridge from SMS to chat: pair the
/// destination with the message text `"From {sender}: {body}"`, formatted
/// deterministically from the notification's sender and body. The caller
/// performs the transport send and hands its outcome to
/// [`delivery_result`].
pub fn bridge_sms_to_slack(slack_url: String, sms_body: &TwilioSMSWebhookBody) -> (d: Delivery)
    ensures
        d.destination@ == slack_url@,
        d.message@ == outbound_text(sms_body.from@, sms_body.body@),
{
    let mut message = String::new();
    message.append("From ");
    message.append(sms_body.from.as_str());
    message.append(": ");
    message.append(sms_body.body.as_str());
    proof {
        assert(message@ =~= outbound_text(sms_body.from@, sms_body.body@));
    }
    Delivery { destination: slack_url, message }
}

/// Map the outcome of the transport send to the final answer of a relay
/// request: success becomes the sentinel `"ok"`, failure becomes
/// `DeliveryFailed` carrying the transport's error text verbatim.
pub fn delivery_result(outcome: Result<(), String>) -> (r: Result<String, RelayError>)
    ensures
        outcome is Ok ==> r is Ok && r->Ok_0@ == "ok"@,
        outcome is Err ==> r is Err && r->Err_0.kind == ErrorKind::DeliveryFailed
            && r->Err_0.detail@ == outcome->Err_0@,
{
    match outcome {
        Ok(()) => Ok(String::from_str("ok")),
        Err(detail) => Err(RelayError { kind: ErrorKind::DeliveryFailed, detail }),
    }
}

/// The step of route A after the token has been decoded: a decoded
/// destination is forwarded to; any decode failure, whatever its class,
/// answers `InvalidRoute` with a hint about the callback URL.
pub fn forward_decoded(
    decoded: Result<String, DecodeError>,
    sms_body: &TwilioSMSWebhookBody,
) -> (r: Result<Delivery, RelayError>)
    ensures
        decoded is Ok ==> r is Ok && r->Ok_0.destination@ == decoded->Ok_0@
            && r->Ok_0.message@ == outbound_text(sms_body.from@, sms_body.body@),
        decoded is Err ==> r is Err && r->Err_0.kind == ErrorKind::InvalidRoute
            && r->Err_0.detail@
                == "Failed to decrypt slack url. Are you sure you have the right callback url?"@,
{
    match decoded {
        Ok(url) => Ok(bridge_sms_to_slack(url, sms_body)),
        Err(_) => Err(
            RelayError {
                kind: ErrorKind::InvalidRoute,
                detail: String::from_str(
                    "Failed to decrypt slack url. Are you sure you have the right callback url?",
                ),
            },
        ),
    }
}

/// Route A: token-addressed relay. An absent notification fails with
/// `MalformedInput` before the token is even decoded; otherwise the token
/// is decoded under `secret` and the notification is forwarded to the
/// decoded destination. In particular any token minted by
/// [`codec::encrypt_url`] under the same secret routes to exactly the
/// endpoint it was minted for.
pub fn sms_with_url(
    secret: &str,
    slack_url: String,
    input: Option<&TwilioSMSWebhookBody>,
) -> (r: Result<Delivery, RelayError>)
    ensures
        input is None ==> r is Err && r->Err_0.kind == ErrorKind::MalformedInput
            && r->Err_0.detail@ == "Form data validation failed"@,
        r is Err && input is Some ==> r->Err_0.kind == ErrorKind::InvalidRoute
            && r->Err_0.detail@
                == "Failed to decrypt slack url. Are you sure you have the right callback url?"@,
        r is Ok ==> input is Some
            && r->Ok_0.message@ == outbound_text(input->0.from@, input->0.body@),
        forall|p: Seq<char>|
            input is Some && slack_url@ == token_of(secret@, p) ==> r is Ok
                && r->Ok_0.destination@ == p,
{
    match input {
        None => Err(
            RelayError {
                kind: ErrorKind::MalformedInput,
                detail: String::from_str("Form data validation failed"),
            },
        ),
        Some(sms_body) => {
            let decoded = codec::decrypt_url(secret, slack_url);
            forward_decoded(decoded, sms_body)
        },
    }
}

/// Route B: statically-addressed relay. An absent notification fails with
/// `MalformedInput`; an empty fallback in the configuration fails with
/// `Unconfigured`; otherwise the notification is forwarded to the
/// configured fallback destination.
pub fn sms(
    input: Option<&TwilioSMSWebhookBody>,
    config: &ProcessConfig,
) -> (r: Result<Delivery, RelayError>)
    ensures
        input is None ==> r is Err && r->Err_0.kind == ErrorKind::MalformedInput
            && r->Err_0.detail@ == "Form data validation failed"@,
        input is Some && !config.spec_has_fallback() ==> r is Err
            && r->Err_0.kind == ErrorKind::Unconfigured
            && r->Err_0.detail@
                == "Expected a slack webhook URL to be configured in the environment"@,
        input is Some && config.spec_has_fallback() ==> r is Ok
            && r->Ok_0.destination@ == config.slack_url@
            && r->Ok_0.message@ == outbound_text(input->0.from@, input->0.body@),
{
    match input {
        None => Err(
            RelayError {
                kind: ErrorKind::MalformedInput,
                detail: String::from_str("Form data validation failed"),
            },
        ),
        Some(sms_body) => {
            let maybe_url = config.slack_url.clone();
            if maybe_url.as_str().unicode_len() == 0 {
                Err(
                    RelayError {
                        kind: ErrorKind::Unconfigured,
                        detail: String::from_str(
                            "Expected a slack webhook URL to be configured in the environment",
                        ),
                    },
                )
            } else {
                Ok(bridge_sms_to_slack(maybe_url, sms_body))
            }
        },
    }
}

/// Mint a capability token: encrypt the submitted destination endpoint for
/// later use with route A. An absent or unparsable submission fails with
/// `MalformedInput`.
pub fn get_webhook(secret: &str, raw_slack_url: Option<&str>) -> (r: Result<
    String,
    RelayError,
>)
    ensures
        raw_slack_url is None ==> r is Err && r->Err_0.kind == ErrorKind::MalformedInput
            && r->Err_0.detail@ == "Form data validation failed"@,
        raw_slack_url is Some ==> r is Ok && r->Ok_0@ == token_of(secret@, raw_slack_url->0@),
{
    match raw_slack_url {
        None => Err(
            RelayError {
                kind: ErrorKind::MalformedInput,
                detail: String::from_str("Form data validation failed"),
            },
        ),
        Some(url) => Ok(codec::encrypt_url(secret, url)),
    }
}

} // verus!
