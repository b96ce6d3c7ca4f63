//! Classification of statuses into merchant-facing notification events.
use vstd::prelude::*;

use crate::conversion::ForeignFrom;
use crate::enums::{DisputeStatus, EventType, IntentStatus, MandateStatus, RefundStatus};

verus! {

/// The notification that an intent status triggers, if any.
pub open spec fn intent_event_of(s: IntentStatus) -> Option<EventType> {
    match s {
        IntentStatus::Succeeded => Some(EventType::PaymentSucceeded),
        IntentStatus::Failed => Some(EventType::PaymentFailed),
        IntentStatus::Processing => Some(EventType::PaymentProcessing),
        IntentStatus::RequiresMerchantAction
        | IntentStatus::RequiresCustomerAction => Some(EventType::ActionRequired),
        IntentStatus::Cancelled => Some(EventType::PaymentCancelled),
        IntentStatus::PartiallyCaptured
        | IntentStatus::PartiallyCapturedAndCapturable => Some(EventType::PaymentCaptured),
        IntentStatus::RequiresCapture => Some(EventType::PaymentAuthorized),
        IntentStatus::RequiresPaymentMethod | IntentStatus::RequiresConfirmation => None,
    }
}

/// The notification that a refund status triggers, if any.
pub open spec fn refund_event_of(s: RefundStatus) -> Option<EventType> {
    match s {
        RefundStatus::Success => Some(EventType::RefundSucceeded),
        RefundStatus::Failure => Some(EventType::RefundFailed),
        RefundStatus::ManualReview | RefundStatus::Pending | RefundStatus::TransactionFailure => {
            None
        },
    }
}

/// The notification that a dispute status triggers: every dispute status triggers one.
pub open spec fn dispute_event_of(s: DisputeStatus) -> EventType {
    match s {
        DisputeStatus::DisputeOpened => EventType::DisputeOpened,
        DisputeStatus::DisputeExpired => EventType::DisputeExpired,
        DisputeStatus::DisputeAccepted => EventType::DisputeAccepted,
        DisputeStatus::DisputeCancelled => EventType::DisputeCancelled,
        DisputeStatus::DisputeChallenged => EventType::DisputeChallenged,
        DisputeStatus::DisputeWon => EventType::DisputeWon,
        DisputeStatus::DisputeLost => EventType::DisputeLost,
    }
}

/// The notification that a mandate status triggers, if any.
pub open spec fn mandate_event_of(s: MandateStatus) -> Option<EventType> {
    match s {
        MandateStatus::Active => Some(EventType::MandateActive),
        MandateStatus::Revoked => Some(EventType::MandateRevoked),
        MandateStatus::Inactive | MandateStatus::Pending => None,
    }
}

impl ForeignFrom<IntentStatus> for Option<EventType> {
    fn foreign_from(s: IntentStatus) -> (r: Option<EventType>)
        ensures
            r == intent_event_of(s),
    {
        match s {
            IntentStatus::Succeeded => Some(EventType::PaymentSucceeded),
            IntentStatus::Failed => Some(EventType::PaymentFailed),
            IntentStatus::Processing => Some(EventType::PaymentProcessing),
            IntentStatus::RequiresMerchantAction
            | IntentStatus::RequiresCustomerAction => Some(EventType::ActionRequired),
            IntentStatus::Cancelled => Some(EventType::PaymentCancelled),
            IntentStatus::PartiallyCaptured
            | IntentStatus::PartiallyCapturedAndCapturable => Some(EventType::PaymentCaptured),
            IntentStatus::RequiresCapture => Some(EventType::PaymentAuthorized),
            IntentStatus::RequiresPaymentMethod | IntentStatus::RequiresConfirmation => None,
        }
    }
}

impl ForeignFrom<RefundStatus> for Option<EventType> {
    fn foreign_from(s: RefundStatus) -> (r: Option<EventType>)
        ensures
            r == refund_event_of(s),
    {
        match s {
            RefundStatus::Success => Some(EventType::RefundSucceeded),
            RefundStatus::Failure => Some(EventType::RefundFailed),
            RefundStatus::ManualReview
            | RefundStatus::Pending
            | RefundStatus::TransactionFailure => None,
        }
    }
}

impl ForeignFrom<DisputeStatus> for EventType {
    fn foreign_from(s: DisputeStatus) -> (r: EventType)
        ensures
            r == dispute_event_of(s),
    {
        match s {
            DisputeStatus::DisputeOpened => EventType::DisputeOpened,
            DisputeStatus::DisputeExpired => EventType::DisputeExpired,
            DisputeStatus::DisputeAccepted => EventType::DisputeAccepted,
            DisputeStatus::DisputeCancelled => EventType::DisputeCancelled,
            DisputeStatus::DisputeChallenged => EventType::DisputeChallenged,
            DisputeStatus::DisputeWon => EventType::DisputeWon,
            DisputeStatus::DisputeLost => EventType::DisputeLost,
        }
    }
}

impl ForeignFrom<MandateStatus> for Option<EventType> {
    fn foreign_from(s: MandateStatus) -> (r: Option<EventType>)
        ensures
            r == mandate_event_of(s),
    {
        match s {
            MandateStatus::Active => Some(EventType::MandateActive),
            MandateStatus::Revoked => Some(EventType::MandateRevoked),
            MandateStatus::Inactive | MandateStatus::Pending => None,
        }
    }
}

} // verus!
