use router::conversion::{ForeignFrom, ForeignInto, ForeignTryFrom, ForeignTryInto};
use router::enums::{
    AttemptStatus, CaptureStatus, DisputeStatus, EventType, IncomingWebhookEvent, IntentStatus,
    MandateStatus, RefundStatus,
};
use router::errors::{ApiErrorResponse, ValidationError};
use router::intent::CAPTURE_STATUS_REQUIREMENT;
use router::webhooks::{WEBHOOK_EVENT_FIELD, WEBHOOK_EVENT_TYPE_FIELD};

const ALL_ATTEMPT_STATUSES: [AttemptStatus; 24] = [
    AttemptStatus::Started,
    AttemptStatus::AuthenticationFailed,
    AttemptStatus::RouterDeclined,
    AttemptStatus::AuthenticationPending,
    AttemptStatus::AuthenticationSuccessful,
    AttemptStatus::Authorized,
    AttemptStatus::AuthorizationFailed,
    AttemptStatus::Charged,
    AttemptStatus::Authorizing,
    AttemptStatus::CodInitiated,
    AttemptStatus::Voided,
    AttemptStatus::VoidInitiated,
    AttemptStatus::CaptureInitiated,
    AttemptStatus::CaptureFailed,
    AttemptStatus::VoidFailed,
    AttemptStatus::AutoRefunded,
    AttemptStatus::PartialCharged,
    AttemptStatus::PartialChargedAndChargeable,
    AttemptStatus::Unresolved,
    AttemptStatus::Pending,
    AttemptStatus::Failure,
    AttemptStatus::PaymentMethodAwaited,
    AttemptStatus::ConfirmationAwaited,
    AttemptStatus::DeviceDataCollectionPending,
];

const ALL_WEBHOOK_EVENTS: [IncomingWebhookEvent; 29] = [
    IncomingWebhookEvent::EventNotSupported,
    IncomingWebhookEvent::PaymentIntentFailure,
    IncomingWebhookEvent::PaymentIntentSuccess,
    IncomingWebhookEvent::PaymentIntentProcessing,
    IncomingWebhookEvent::PaymentIntentPartiallyFunded,
    IncomingWebhookEvent::PaymentIntentCancelled,
    IncomingWebhookEvent::PaymentIntentCancelFailure,
    IncomingWebhookEvent::PaymentIntentAuthorizationSuccess,
    IncomingWebhookEvent::PaymentIntentAuthorizationFailure,
    IncomingWebhookEvent::PaymentIntentCaptureSuccess,
    IncomingWebhookEvent::PaymentIntentCaptureFailure,
    IncomingWebhookEvent::PaymentActionRequired,
    IncomingWebhookEvent::SourceChargeable,
    IncomingWebhookEvent::SourceTransactionCreated,
    IncomingWebhookEvent::RefundFailure,
    IncomingWebhookEvent::RefundSuccess,
    IncomingWebhookEvent::DisputeOpened,
    IncomingWebhookEvent::DisputeExpired,
    IncomingWebhookEvent::DisputeAccepted,
    IncomingWebhookEvent::DisputeCancelled,
    IncomingWebhookEvent::DisputeChallenged,
    IncomingWebhookEvent::DisputeWon,
    IncomingWebhookEvent::DisputeLost,
    IncomingWebhookEvent::MandateActive,
    IncomingWebhookEvent::MandateRevoked,
    IncomingWebhookEvent::EndpointVerification,
    IncomingWebhookEvent::ExternalAuthenticationARes,
    IncomingWebhookEvent::FrmApproved,
    IncomingWebhookEvent::FrmRejected,
];

fn expected_intent(s: AttemptStatus) -> IntentStatus {
    match s {
        AttemptStatus::Charged | AttemptStatus::AutoRefunded => IntentStatus::Succeeded,
        AttemptStatus::ConfirmationAwaited => IntentStatus::RequiresConfirmation,
        AttemptStatus::PaymentMethodAwaited => IntentStatus::RequiresPaymentMethod,
        AttemptStatus::Authorized => IntentStatus::RequiresCapture,
        AttemptStatus::AuthenticationPending | AttemptStatus::DeviceDataCollectionPending => {
            IntentStatus::RequiresCustomerAction
        }
        AttemptStatus::Unresolved => IntentStatus::RequiresMerchantAction,
        AttemptStatus::PartialCharged => IntentStatus::PartiallyCaptured,
        AttemptStatus::PartialChargedAndChargeable => IntentStatus::PartiallyCapturedAndCapturable,
        AttemptStatus::Started
        | AttemptStatus::AuthenticationSuccessful
        | AttemptStatus::Authorizing
        | AttemptStatus::CodInitiated
        | AttemptStatus::VoidInitiated
        | AttemptStatus::CaptureInitiated
        | AttemptStatus::Pending => IntentStatus::Processing,
        AttemptStatus::AuthenticationFailed
        | AttemptStatus::AuthorizationFailed
        | AttemptStatus::VoidFailed
        | AttemptStatus::RouterDeclined
        | AttemptStatus::CaptureFailed
        | AttemptStatus::Failure => IntentStatus::Failed,
        AttemptStatus::Voided => IntentStatus::Cancelled,
    }
}

#[test]
fn every_attempt_status_maps_to_one_intent_status() {
    for s in ALL_ATTEMPT_STATUSES {
        assert_eq!(IntentStatus::foreign_from(s), expected_intent(s));
    }
}

#[test]
fn intent_status_buckets() {
    assert_eq!(IntentStatus::foreign_from(AttemptStatus::Charged), IntentStatus::Succeeded);
    assert_eq!(IntentStatus::foreign_from(AttemptStatus::AutoRefunded), IntentStatus::Succeeded);
    assert_eq!(IntentStatus::foreign_from(AttemptStatus::Voided), IntentStatus::Cancelled);
    assert_eq!(IntentStatus::foreign_from(AttemptStatus::Unresolved), IntentStatus::RequiresMerchantAction);
    assert_eq!(IntentStatus::foreign_from(AttemptStatus::CodInitiated), IntentStatus::Processing);
    assert_eq!(IntentStatus::foreign_from(AttemptStatus::VoidFailed), IntentStatus::Failed);
    assert_eq!(
        IntentStatus::foreign_from(AttemptStatus::DeviceDataCollectionPending),
        IntentStatus::RequiresCustomerAction
    );
}

#[test]
fn foreign_into_agrees_with_foreign_from() {
    for s in ALL_ATTEMPT_STATUSES {
        let via_into: IntentStatus = s.foreign_into();
        assert_eq!(via_into, IntentStatus::foreign_from(s));
    }
}

#[test]
fn mapping_twice_gives_the_same_result() {
    for s in ALL_ATTEMPT_STATUSES {
        assert_eq!(IntentStatus::foreign_from(s), IntentStatus::foreign_from(s));
        let first = CaptureStatus::foreign_try_from(s).ok();
        let second = CaptureStatus::foreign_try_from(s).ok();
        assert_eq!(first, second);
    }
    for e in ALL_WEBHOOK_EVENTS {
        assert_eq!(RefundStatus::foreign_try_from(e).ok(), RefundStatus::foreign_try_from(e).ok());
        assert_eq!(DisputeStatus::foreign_try_from(e).ok(), DisputeStatus::foreign_try_from(e).ok());
    }
}

#[test]
fn capture_whitelist_exactness() {
    assert_eq!(CaptureStatus::foreign_try_from(AttemptStatus::Charged).ok(), Some(CaptureStatus::Charged));
    assert_eq!(
        CaptureStatus::foreign_try_from(AttemptStatus::PartialCharged).ok(),
        Some(CaptureStatus::Charged)
    );
    match CaptureStatus::foreign_try_from(AttemptStatus::Authorized) {
        Err(ApiErrorResponse::PreconditionFailed { message }) => {
            assert_eq!(message, CAPTURE_STATUS_REQUIREMENT);
        }
        other => panic!("unexpected outcome {:?}", other),
    }
}

#[test]
fn capture_pending_and_failed_pairs() {
    assert_eq!(CaptureStatus::foreign_try_from(AttemptStatus::Pending).ok(), Some(CaptureStatus::Pending));
    assert_eq!(
        CaptureStatus::foreign_try_from(AttemptStatus::CaptureInitiated).ok(),
        Some(CaptureStatus::Pending)
    );
    assert_eq!(CaptureStatus::foreign_try_from(AttemptStatus::Failure).ok(), Some(CaptureStatus::Failed));
    assert_eq!(
        CaptureStatus::foreign_try_from(AttemptStatus::CaptureFailed).ok(),
        Some(CaptureStatus::Failed)
    );
}

#[test]
fn capture_rejects_all_other_attempt_statuses() {
    let accepted = [
        AttemptStatus::Charged,
        AttemptStatus::PartialCharged,
        AttemptStatus::Pending,
        AttemptStatus::CaptureInitiated,
        AttemptStatus::Failure,
        AttemptStatus::CaptureFailed,
    ];
    for s in ALL_ATTEMPT_STATUSES {
        let r: Result<CaptureStatus, ApiErrorResponse> = s.foreign_try_into();
        if accepted.contains(&s) {
            assert!(r.is_ok());
        } else {
            assert!(matches!(r, Err(ApiErrorResponse::PreconditionFailed { .. })));
        }
    }
}

#[test]
fn intent_event_classification() {
    let none: Option<EventType> = Option::foreign_from(IntentStatus::RequiresPaymentMethod);
    assert_eq!(none, None);
    let none: Option<EventType> = Option::foreign_from(IntentStatus::RequiresConfirmation);
    assert_eq!(none, None);
    let cases = [
        (IntentStatus::Succeeded, EventType::PaymentSucceeded),
        (IntentStatus::Failed, EventType::PaymentFailed),
        (IntentStatus::Processing, EventType::PaymentProcessing),
        (IntentStatus::RequiresMerchantAction, EventType::ActionRequired),
        (IntentStatus::RequiresCustomerAction, EventType::ActionRequired),
        (IntentStatus::Cancelled, EventType::PaymentCancelled),
        (IntentStatus::PartiallyCaptured, EventType::PaymentCaptured),
        (IntentStatus::PartiallyCapturedAndCapturable, EventType::PaymentCaptured),
        (IntentStatus::RequiresCapture, EventType::PaymentAuthorized),
    ];
    for (status, event) in cases {
        let got: Option<EventType> = Option::foreign_from(status);
        assert_eq!(got, Some(event));
    }
}

#[test]
fn refund_event_classification() {
    let got: Option<EventType> = Option::foreign_from(RefundStatus::Success);
    assert_eq!(got, Some(EventType::RefundSucceeded));
    let got: Option<EventType> = Option::foreign_from(RefundStatus::Failure);
    assert_eq!(got, Some(EventType::RefundFailed));
    for s in [RefundStatus::ManualReview, RefundStatus::Pending, RefundStatus::TransactionFailure] {
        let got: Option<EventType> = Option::foreign_from(s);
        assert_eq!(got, None);
    }
}

#[test]
fn mandate_event_classification() {
    let got: Option<EventType> = Option::foreign_from(MandateStatus::Active);
    assert_eq!(got, Some(EventType::MandateActive));
    let got: Option<EventType> = Option::foreign_from(MandateStatus::Revoked);
    assert_eq!(got, Some(EventType::MandateRevoked));
    for s in [MandateStatus::Inactive, MandateStatus::Pending] {
        let got: Option<EventType> = Option::foreign_from(s);
        assert_eq!(got, None);
    }
}

#[test]
fn dispute_event_classification_is_total() {
    let cases = [
        (DisputeStatus::DisputeOpened, EventType::DisputeOpened),
        (DisputeStatus::DisputeExpired, EventType::DisputeExpired),
        (DisputeStatus::DisputeAccepted, EventType::DisputeAccepted),
        (DisputeStatus::DisputeCancelled, EventType::DisputeCancelled),
        (DisputeStatus::DisputeChallenged, EventType::DisputeChallenged),
        (DisputeStatus::DisputeWon, EventType::DisputeWon),
        (DisputeStatus::DisputeLost, EventType::DisputeLost),
    ];
    for (status, event) in cases {
        assert_eq!(EventType::foreign_from(status), event);
    }
}

fn rejected_field<T>(r: Result<T, ValidationError>) -> Option<&'static str> {
    match r {
        Err(ValidationError::IncorrectValueProvided { field_name }) => Some(field_name),
        Ok(_) => None,
    }
}

#[test]
fn webhook_domain_isolation() {
    assert_eq!(
        rejected_field(RefundStatus::foreign_try_from(IncomingWebhookEvent::MandateActive)),
        Some("incoming_webhook_event_type")
    );
    assert_eq!(
        RefundStatus::foreign_try_from(IncomingWebhookEvent::RefundSuccess).ok(),
        Some(RefundStatus::Success)
    );
}

#[test]
fn refund_webhook_mapping() {
    assert_eq!(
        RefundStatus::foreign_try_from(IncomingWebhookEvent::RefundFailure).ok(),
        Some(RefundStatus::Failure)
    );
    for e in ALL_WEBHOOK_EVENTS {
        if e != IncomingWebhookEvent::RefundSuccess && e != IncomingWebhookEvent::RefundFailure {
            assert_eq!(rejected_field(RefundStatus::foreign_try_from(e)), Some(WEBHOOK_EVENT_TYPE_FIELD));
        }
    }
}

#[test]
fn mandate_webhook_mapping() {
    assert_eq!(
        MandateStatus::foreign_try_from(IncomingWebhookEvent::MandateActive).ok(),
        Some(MandateStatus::Active)
    );
    assert_eq!(
        MandateStatus::foreign_try_from(IncomingWebhookEvent::MandateRevoked).ok(),
        Some(MandateStatus::Revoked)
    );
    assert_eq!(
        rejected_field(MandateStatus::foreign_try_from(IncomingWebhookEvent::RefundSuccess)),
        Some("incoming_webhook_event_type")
    );
    for e in ALL_WEBHOOK_EVENTS {
        if e != IncomingWebhookEvent::MandateActive && e != IncomingWebhookEvent::MandateRevoked {
            assert!(MandateStatus::foreign_try_from(e).is_err());
        }
    }
}

#[test]
fn dispute_webhook_mapping() {
    let cases = [
        (IncomingWebhookEvent::DisputeOpened, DisputeStatus::DisputeOpened),
        (IncomingWebhookEvent::DisputeExpired, DisputeStatus::DisputeExpired),
        (IncomingWebhookEvent::DisputeAccepted, DisputeStatus::DisputeAccepted),
        (IncomingWebhookEvent::DisputeCancelled, DisputeStatus::DisputeCancelled),
        (IncomingWebhookEvent::DisputeChallenged, DisputeStatus::DisputeChallenged),
        (IncomingWebhookEvent::DisputeWon, DisputeStatus::DisputeWon),
        (IncomingWebhookEvent::DisputeLost, DisputeStatus::DisputeLost),
    ];
    for (event, status) in cases {
        assert_eq!(DisputeStatus::foreign_try_from(event).ok(), Some(status));
    }
    assert_eq!(
        rejected_field(DisputeStatus::foreign_try_from(IncomingWebhookEvent::RefundSuccess)),
        Some("incoming_webhook_event")
    );
    let mut rejected = 0;
    for e in ALL_WEBHOOK_EVENTS {
        if let Some(field) = rejected_field(DisputeStatus::foreign_try_from(e)) {
            assert_eq!(field, WEBHOOK_EVENT_FIELD);
            rejected += 1;
        }
    }
    assert_eq!(rejected, ALL_WEBHOOK_EVENTS.len() - 7);
}
