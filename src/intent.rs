//! Aggregation of attempt state into intent state, and narrowing of attempt
//! state into capture state.
use vstd::prelude::*;

use crate::conversion::{ForeignFrom, ForeignTryFrom};
use crate::enums::{AttemptStatus, CaptureStatus, IntentStatus};
use crate::errors::{api_result_view, ApiErrorResponse, ApiErrorView};

verus! {

/// The intent status that an attempt status collapses to.
pub open spec fn intent_status_of(s: AttemptStatus) -> IntentStatus {
    match s {
        AttemptStatus::Charged | AttemptStatus::AutoRefunded => IntentStatus::Succeeded,
        AttemptStatus::ConfirmationAwaited => IntentStatus::RequiresConfirmation,
        AttemptStatus::PaymentMethodAwaited => IntentStatus::RequiresPaymentMethod,
        AttemptStatus::Authorized => IntentStatus::RequiresCapture,
        AttemptStatus::AuthenticationPending
        | AttemptStatus::DeviceDataCollectionPending => IntentStatus::RequiresCustomerAction,
        AttemptStatus::Unresolved => IntentStatus::RequiresMerchantAction,
        AttemptStatus::PartialCharged => IntentStatus::PartiallyCaptured,
        AttemptStatus::PartialChargedAndChargeable => IntentStatus::PartiallyCapturedAndCapturable,
        AttemptStatus::Started
        | AttemptStatus::AuthenticationSuccessful
        | AttemptStatus::Authorizing
        | AttemptStatus::CodInitiated
        | AttemptStatus::VoidInitiated
        | AttemptStatus::CaptureInitiated
        | AttemptStatus::Pending => IntentStatus::Processing,
        AttemptStatus::AuthenticationFailed
        | AttemptStatus::AuthorizationFailed
        | AttemptStatus::VoidFailed
        | AttemptStatus::RouterDeclined
        | AttemptStatus::CaptureFailed
        | AttemptStatus::Failure => IntentStatus::Failed,
        AttemptStatus::Voided => IntentStatus::Cancelled,
    }
}

impl ForeignFrom<AttemptStatus> for IntentStatus {
    fn foreign_from(s: AttemptStatus) -> (r: IntentStatus)
        ensures
            r == intent_status_of(s),
    {
        match s {
            AttemptStatus::Charged | AttemptStatus::AutoRefunded => IntentStatus::Succeeded,
            AttemptStatus::ConfirmationAwaited => IntentStatus::RequiresConfirmation,
            AttemptStatus::PaymentMethodAwaited => IntentStatus::RequiresPaymentMethod,
            AttemptStatus::Authorized => IntentStatus::RequiresCapture,
            AttemptStatus::AuthenticationPending
            | AttemptStatus::DeviceDataCollectionPending => IntentStatus::RequiresCustomerAction,
            AttemptStatus::Unresolved => IntentStatus::RequiresMerchantAction,
            AttemptStatus::PartialCharged => IntentStatus::PartiallyCaptured,
            AttemptStatus::PartialChargedAndChargeable => {
                IntentStatus::PartiallyCapturedAndCapturable
            },
            AttemptStatus::Started
            | AttemptStatus::AuthenticationSuccessful
            | AttemptStatus::Authorizing
            | AttemptStatus::CodInitiated
            | AttemptStatus::VoidInitiated
            | AttemptStatus::CaptureInitiated
            | AttemptStatus::Pending => IntentStatus::Processing,
            AttemptStatus::AuthenticationFailed
            | AttemptStatus::AuthorizationFailed
            | AttemptStatus::VoidFailed
            | AttemptStatus::RouterDeclined
            | AttemptStatus::CaptureFailed
            | AttemptStatus::Failure => IntentStatus::Failed,
            AttemptStatus::Voided => IntentStatus::Cancelled,
        }
    }
}

/// Message of the error returned for an attempt status that has no capture status.
pub const CAPTURE_STATUS_REQUIREMENT: &'static str = "AttemptStatus must be one of these for multiple partial captures [Charged, PartialCharged, Pending, CaptureInitiated, Failure, CaptureFailed]";

/// The capture status that an attempt status narrows to, if it is one of the
/// statuses that a capture can be in.
pub open spec fn capture_status_of(s: AttemptStatus) -> Option<CaptureStatus> {
    match s {
        AttemptStatus::Charged | AttemptStatus::PartialCharged => Some(CaptureStatus::Charged),
        AttemptStatus::Pending | AttemptStatus::CaptureInitiated => Some(CaptureStatus::Pending),
        AttemptStatus::Failure | AttemptStatus::CaptureFailed => Some(CaptureStatus::Failed),
        _ => None,
    }
}

/// The outcome of narrowing an attempt status to a capture status: the
/// capture status, or a precondition failure naming the statuses allowed.
pub open spec fn capture_outcome_of(s: AttemptStatus) -> Result<CaptureStatus, ApiErrorView> {
    match capture_status_of(s) {
        Some(c) => Ok(c),
        None => Err(ApiErrorView::PreconditionFailed { message: CAPTURE_STATUS_REQUIREMENT@ }),
    }
}

impl ForeignTryFrom<AttemptStatus> for CaptureStatus {
    type Error = ApiErrorResponse;

    fn foreign_try_from(s: AttemptStatus) -> (r: Result<CaptureStatus, ApiErrorResponse>)
        ensures
            api_result_view(r) == capture_outcome_of(s),
    {
        match s {
            AttemptStatus::Charged | AttemptStatus::PartialCharged => Ok(CaptureStatus::Charged),
            AttemptStatus::Pending | AttemptStatus::CaptureInitiated => Ok(CaptureStatus::Pending),
            AttemptStatus::Failure | AttemptStatus::CaptureFailed => Ok(CaptureStatus::Failed),
            AttemptStatus::Started
            | AttemptStatus::AuthenticationFailed
            | AttemptStatus::RouterDeclined
            | AttemptStatus::AuthenticationPending
            | AttemptStatus::AuthenticationSuccessful
            | AttemptStatus::Authorized
            | AttemptStatus::AuthorizationFailed
            | AttemptStatus::Authorizing
            | AttemptStatus::CodInitiated
            | AttemptStatus::Voided
            | AttemptStatus::VoidInitiated
            | AttemptStatus::VoidFailed
            | AttemptStatus::AutoRefunded
            | AttemptStatus::Unresolved
            | AttemptStatus::PaymentMethodAwaited
            | AttemptStatus::ConfirmationAwaited
            | AttemptStatus::DeviceDataCollectionPending
            | AttemptStatus::PartialChargedAndChargeable => {
                Err(
                    ApiErrorResponse::PreconditionFailed {
                        message: CAPTURE_STATUS_REQUIREMENT.to_owned(),
                    },
                )
            },
        }
    }
}

} // verus!
