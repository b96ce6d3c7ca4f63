//! Validation of the trust-sensitive inbound request headers.
use vstd::prelude::*;

use crate::conversion::ForeignTryFrom;
use crate::enums::PaymentSource;
use crate::errors::{ApiErrorResponse, ApiErrorView};

verus! {

/// Name of the header that states who confirmed a payment.
pub const X_PAYMENT_CONFIRM_SOURCE: &'static str = "X-Payment-Confirm-Source";

/// Name of the header that names the client making the request.
pub const X_CLIENT_SOURCE: &'static str = "X-Client-Source";

/// Name of the header that gives the version of the client making the request.
pub const X_CLIENT_VERSION: &'static str = "X-Client-Version";

/// Name of the header that asks for latency tracing.
pub const X_HS_LATENCY: &'static str = "x-hs-latency";

/// Message of the error for a payment-confirm-source header that is refused.
pub const CONFIRM_SOURCE_REJECTION: &'static str =
    "Invalid data received in payment_confirm_source header";

/// What a request carries under one header name.
#[derive(Clone, Debug)]
pub enum HeaderField {
    /// The header is not present.
    Absent,
    /// The header is present, but its value is not visible ASCII text.
    NotText,
    /// The header is present with this text value.
    Text(String),
}

/// The headers of a request that the library reads.
#[derive(Clone, Debug)]
pub struct RequestHeaders {
    pub payment_confirm_source: HeaderField,
    pub client_source: HeaderField,
    pub client_version: HeaderField,
    pub x_hs_latency: HeaderField,
}

/// Validated, typed projection of the request headers.
#[derive(Clone, Debug)]
pub struct HeaderPayload {
    pub payment_confirm_source: Option<PaymentSource>,
    pub client_source: Option<String>,
    pub client_version: Option<String>,
    pub x_hs_latency: Option<bool>,
}

/// Abstract value of a [`HeaderPayload`], with strings as character sequences.
pub struct HeaderPayloadView {
    pub payment_confirm_source: Option<PaymentSource>,
    pub client_source: Option<Seq<char>>,
    pub client_version: Option<Seq<char>>,
    pub x_hs_latency: Option<bool>,
}

/// The characters of an optional string.
pub open spec fn opt_chars(s: Option<String>) -> Option<Seq<char>> {
    match s {
        Some(t) => Some(t@),
        None => None,
    }
}

impl View for HeaderPayload {
    type V = HeaderPayloadView;

    open spec fn view(&self) -> HeaderPayloadView {
        HeaderPayloadView {
            payment_confirm_source: self.payment_confirm_source,
            client_source: opt_chars(self.client_source),
            client_version: opt_chars(self.client_version),
            x_hs_latency: self.x_hs_latency,
        }
    }
}

/// Abstract value of the outcome of building a [`HeaderPayload`].
pub open spec fn payload_result_view(r: Result<HeaderPayload, ApiErrorResponse>) -> Result<
    HeaderPayloadView,
    ApiErrorView,
> {
    match r {
        Ok(p) => Ok(p@),
        Err(e) => Err(e@),
    }
}

/// The text of a header, if it is present as text.
pub open spec fn header_text(f: HeaderField) -> Option<Seq<char>> {
    match f {
        HeaderField::Text(t) => Some(t@),
        _ => None,
    }
}

/// The payment source whose textual name is `s`, if any.
pub open spec fn payment_source_named(s: Seq<char>) -> Option<PaymentSource> {
    if s == "merchant_server"@ {
        Some(PaymentSource::MerchantServer)
    } else if s == "postman"@ {
        Some(PaymentSource::Postman)
    } else if s == "dashboard"@ {
        Some(PaymentSource::Dashboard)
    } else if s == "sdk"@ {
        Some(PaymentSource::Sdk)
    } else if s == "webhook"@ {
        Some(PaymentSource::Webhook)
    } else if s == "external_authenticator"@ {
        Some(PaymentSource::ExternalAuthenticator)
    } else {
        None
    }
}

/// Whether a payment source may be asserted only by the system itself.
pub open spec fn internal_only(p: PaymentSource) -> bool {
    p is Webhook || p is ExternalAuthenticator
}

/// Whether a payment-confirm-source header holds text that is refused: text
/// that names no payment source, or names one reserved for internal use.
pub open spec fn confirm_source_refused(f: HeaderField) -> bool {
    f matches HeaderField::Text(t) && match payment_source_named(t@) {
        Some(p) => internal_only(p),
        None => true,
    }
}

/// The latency-tracing flag: set exactly when the header is present with text `true`.
pub open spec fn latency_flag(f: HeaderField) -> bool {
    header_text(f) == Some("true"@)
}

/// The outcome of validating the request headers `h`.
pub open spec fn header_payload_of(h: RequestHeaders) -> Result<HeaderPayloadView, ApiErrorView> {
    if h.payment_confirm_source is NotText {
        Err(ApiErrorView::InternalServerError)
    } else if confirm_source_refused(h.payment_confirm_source) {
        Err(ApiErrorView::InvalidRequestData { message: CONFIRM_SOURCE_REJECTION@ })
    } else if h.client_source is NotText || h.client_version is NotText {
        Err(ApiErrorView::InternalServerError)
    } else {
        Ok(
            HeaderPayloadView {
                payment_confirm_source: match header_text(h.payment_confirm_source) {
                    Some(t) => payment_source_named(t),
                    None => None,
                },
                client_source: header_text(h.client_source),
                client_version: header_text(h.client_version),
                x_hs_latency: Some(latency_flag(h.x_hs_latency)),
            },
        )
    }
}

/// Whether `text` spells exactly `name`.
fn spells(text: &String, name: &str) -> (r: bool)
    ensures
        r == (text@ == name@),
{
    let owned = name.to_owned();
    *text == owned
}

impl PaymentSource {
    /// Parses the textual name of a payment source.
    pub fn from_name(text: &String) -> (r: Option<PaymentSource>)
        ensures
            r == payment_source_named(text@),
    {
        if spells(text, "merchant_server") {
            Some(PaymentSource::MerchantServer)
        } else if spells(text, "postman") {
            Some(PaymentSource::Postman)
        } else if spells(text, "dashboard") {
            Some(PaymentSource::Dashboard)
        } else if spells(text, "sdk") {
            Some(PaymentSource::Sdk)
        } else if spells(text, "webhook") {
            Some(PaymentSource::Webhook)
        } else if spells(text, "external_authenticator") {
            Some(PaymentSource::ExternalAuthenticator)
        } else {
            None
        }
    }

    /// Whether this source may be asserted only by the system itself, never by
    /// an external caller.
    pub fn is_for_internal_use_only(&self) -> (r: bool)
        ensures
            r == internal_only(*self),
    {
        match self {
            PaymentSource::Webhook | PaymentSource::ExternalAuthenticator => true,
            _ => false,
        }
    }
}

/// The text of a header that must be text when present.
fn required_text(f: &HeaderField) -> (r: Result<Option<String>, ApiErrorResponse>)
    ensures
        f is NotText <==> r is Err,
        r matches Err(e) ==> e@ == ApiErrorView::InternalServerError,
        r matches Ok(t) ==> opt_chars(t) == header_text(*f),
{
    match f {
        HeaderField::Absent => Ok(None),
        HeaderField::NotText => Err(ApiErrorResponse::InternalServerError),
        HeaderField::Text(t) => Ok(Some(t.clone())),
    }
}

impl<'a> ForeignTryFrom<&'a RequestHeaders> for HeaderPayload {
    type Error = ApiErrorResponse;

    fn foreign_try_from(headers: &'a RequestHeaders) -> (r: Result<
        HeaderPayload,
        ApiErrorResponse,
    >)
        ensures
            payload_result_view(r) == header_payload_of(*headers),
    {
        let payment_confirm_source = match required_text(&headers.payment_confirm_source) {
            Err(e) => {
                return Err(e);
            },
            Ok(None) => None,
            Ok(Some(text)) => match PaymentSource::from_name(&text) {
                Some(source) => Some(source),
                None => {
                    return Err(
                        ApiErrorResponse::InvalidRequestData {
                            message: CONFIRM_SOURCE_REJECTION.to_owned(),
                        },
                    );
                },
            },
        };
        if let Some(source) = payment_confirm_source {
            if source.is_for_internal_use_only() {
                return Err(
                    ApiErrorResponse::InvalidRequestData {
                        message: CONFIRM_SOURCE_REJECTION.to_owned(),
                    },
                );
            }
        }
        let x_hs_latency = match &headers.x_hs_latency {
            HeaderField::Text(text) => spells(text, "true"),
            _ => false,
        };
        let client_source = match required_text(&headers.client_source) {
            Err(e) => {
                return Err(e);
            },
            Ok(t) => t,
        };
        let client_version = match required_text(&headers.client_version) {
            Err(e) => {
                return Err(e);
            },
            Ok(t) => t,
        };
        Ok(
            HeaderPayload {
                payment_confirm_source,
                client_source,
                client_version,
                x_hs_latency: Some(x_hs_latency),
            },
        )
    }
}

} // verus!
