//! Interpretation of inbound webhook event tags in one target domain at a time.
use vstd::prelude::*;

use crate::conversion::ForeignTryFrom;
use crate::enums::{DisputeStatus, IncomingWebhookEvent, MandateStatus, RefundStatus};
use crate::errors::{validation_result_view, ValidationError, ValidationErrorView};

verus! {

/// Field named by the error for a tag that is not a refund or mandate tag.
pub const WEBHOOK_EVENT_TYPE_FIELD: &'static str = "incoming_webhook_event_type";

/// Field named by the error for a tag that is not a dispute tag.
pub const WEBHOOK_EVENT_FIELD: &'static str = "incoming_webhook_event";

/// The outcome of interpreting a tag in a domain where it stands for `status`,
/// if anything: that status, or an error naming the field `field`.
pub open spec fn webhook_outcome<T>(status: Option<T>, field: Seq<char>) -> Result<
    T,
    ValidationErrorView,
> {
    match status {
        Some(s) => Ok(s),
        None => Err(ValidationErrorView::IncorrectValueProvided { field_name: field }),
    }
}

/// The refund status that a webhook tag stands for, if it is a refund tag.
pub open spec fn refund_status_of_event(e: IncomingWebhookEvent) -> Option<RefundStatus> {
    match e {
        IncomingWebhookEvent::RefundSuccess => Some(RefundStatus::Success),
        IncomingWebhookEvent::RefundFailure => Some(RefundStatus::Failure),
        _ => None,
    }
}

/// The mandate status that a webhook tag stands for, if it is a mandate tag.
pub open spec fn mandate_status_of_event(e: IncomingWebhookEvent) -> Option<MandateStatus> {
    match e {
        IncomingWebhookEvent::MandateActive => Some(MandateStatus::Active),
        IncomingWebhookEvent::MandateRevoked => Some(MandateStatus::Revoked),
        _ => None,
    }
}

/// The dispute status that a webhook tag stands for, if it is a dispute tag.
pub open spec fn dispute_status_of_event(e: IncomingWebhookEvent) -> Option<DisputeStatus> {
    match e {
        IncomingWebhookEvent::DisputeOpened => Some(DisputeStatus::DisputeOpened),
        IncomingWebhookEvent::DisputeExpired => Some(DisputeStatus::DisputeExpired),
        IncomingWebhookEvent::DisputeAccepted => Some(DisputeStatus::DisputeAccepted),
        IncomingWebhookEvent::DisputeCancelled => Some(DisputeStatus::DisputeCancelled),
        IncomingWebhookEvent::DisputeChallenged => Some(DisputeStatus::DisputeChallenged),
        IncomingWebhookEvent::DisputeWon => Some(DisputeStatus::DisputeWon),
        IncomingWebhookEvent::DisputeLost => Some(DisputeStatus::DisputeLost),
        _ => None,
    }
}

impl ForeignTryFrom<IncomingWebhookEvent> for RefundStatus {
    type Error = ValidationError;

    fn foreign_try_from(e: IncomingWebhookEvent) -> (r: Result<RefundStatus, ValidationError>)
        ensures
            validation_result_view(r) == webhook_outcome(
                refund_status_of_event(e),
                WEBHOOK_EVENT_TYPE_FIELD@,
            ),
    {
        match e {
            IncomingWebhookEvent::RefundSuccess => Ok(RefundStatus::Success),
            IncomingWebhookEvent::RefundFailure => Ok(RefundStatus::Failure),
            _ => Err(
                ValidationError::IncorrectValueProvided { field_name: WEBHOOK_EVENT_TYPE_FIELD },
            ),
        }
    }
}

impl ForeignTryFrom<IncomingWebhookEvent> for MandateStatus {
    type Error = ValidationError;

    fn foreign_try_from(e: IncomingWebhookEvent) -> (r: Result<MandateStatus, ValidationError>)
        ensures
            validation_result_view(r) == webhook_outcome(
                mandate_status_of_event(e),
                WEBHOOK_EVENT_TYPE_FIELD@,
            ),
    {
        match e {
            IncomingWebhookEvent::MandateActive => Ok(MandateStatus::Active),
            IncomingWebhookEvent::MandateRevoked => Ok(MandateStatus::Revoked),
            _ => Err(
                ValidationError::IncorrectValueProvided { field_name: WEBHOOK_EVENT_TYPE_FIELD },
            ),
        }
    }
}

impl ForeignTryFrom<IncomingWebhookEvent> for DisputeStatus {
    type Error = ValidationError;

    fn foreign_try_from(e: IncomingWebhookEvent) -> (r: Result<DisputeStatus, ValidationError>)
        ensures
            validation_result_view(r) == webhook_outcome(
                dispute_status_of_event(e),
                WEBHOOK_EVENT_FIELD@,
            ),
    {
        match e {
            IncomingWebhookEvent::DisputeOpened => Ok(DisputeStatus::DisputeOpened),
            IncomingWebhookEvent::DisputeExpired => Ok(DisputeStatus::DisputeExpired),
            IncomingWebhookEvent::DisputeAccepted => Ok(DisputeStatus::DisputeAccepted),
            IncomingWebhookEvent::DisputeCancelled => Ok(DisputeStatus::DisputeCancelled),
            IncomingWebhookEvent::DisputeChallenged => Ok(DisputeStatus::DisputeChallenged),
            IncomingWebhookEvent::DisputeWon => Ok(DisputeStatus::DisputeWon),
            IncomingWebhookEvent::DisputeLost => Ok(DisputeStatus::DisputeLost),
            _ => Err(ValidationError::IncorrectValueProvided { field_name: WEBHOOK_EVENT_FIELD }),
        }
    }
}

} // verus!
