//! Properties that hold across the library's mappings.
use vstd::prelude::*;

use crate::enums::{
    AttemptStatus, CaptureStatus, DisputeStatus, EventType, IncomingWebhookEvent, IntentStatus,
    MandateStatus, RefundStatus,
};
use crate::errors::{
    api_result_view, validation_result_view, ApiErrorResponse, ApiErrorView, ValidationError,
};
use crate::events::{dispute_event_of, intent_event_of, mandate_event_of, refund_event_of};
use crate::headers::{
    header_payload_of, header_text, internal_only, latency_flag, payload_result_view,
    payment_source_named, HeaderField, HeaderPayload, HeaderPayloadView, RequestHeaders,
    CONFIRM_SOURCE_REJECTION,
};
use crate::intent::{capture_outcome_of, intent_status_of, CAPTURE_STATUS_REQUIREMENT};
use crate::webhooks::{
    dispute_status_of_event, mandate_status_of_event, refund_status_of_event, webhook_outcome,
    WEBHOOK_EVENT_FIELD, WEBHOOK_EVENT_TYPE_FIELD,
};

verus! {

/// Narrowing to a capture status accepts exactly the whitelisted attempt
/// statuses, collapsing them pairwise onto charged, pending and failed, and
/// rejects every other attempt status with a precondition failure.
pub proof fn lemma_capture_whitelist(s: AttemptStatus)
    ensures
        capture_outcome_of(s) is Ok <==> (s is Charged || s is PartialCharged || s is Pending
            || s is CaptureInitiated || s is Failure || s is CaptureFailed),
        (s is Charged || s is PartialCharged) ==> capture_outcome_of(s) == Ok::<
            CaptureStatus,
            ApiErrorView,
        >(CaptureStatus::Charged),
        (s is Pending || s is CaptureInitiated) ==> capture_outcome_of(s) == Ok::<
            CaptureStatus,
            ApiErrorView,
        >(CaptureStatus::Pending),
        (s is Failure || s is CaptureFailed) ==> capture_outcome_of(s) == Ok::<
            CaptureStatus,
            ApiErrorView,
        >(CaptureStatus::Failed),
        capture_outcome_of(s) is Err ==> capture_outcome_of(s) == Err::<CaptureStatus, ApiErrorView>(
            ApiErrorView::PreconditionFailed { message: CAPTURE_STATUS_REQUIREMENT@ },
        ),
{
}

/// Each webhook domain accepts only its own tags: a tag that stands for a
/// status of one of the refund, mandate and dispute domains is rejected by the
/// other two.
pub proof fn lemma_webhook_domains_disjoint(e: IncomingWebhookEvent)
    ensures
        refund_status_of_event(e) is Some ==> mandate_status_of_event(e) is None
            && dispute_status_of_event(e) is None,
        mandate_status_of_event(e) is Some ==> refund_status_of_event(e) is None
            && dispute_status_of_event(e) is None,
        dispute_status_of_event(e) is Some ==> refund_status_of_event(e) is None
            && mandate_status_of_event(e) is None,
{
}

/// A payment-confirm-source header that names a source reserved for internal
/// use makes the whole request invalid, whatever the other headers hold.
pub proof fn lemma_internal_confirm_source_rejected(h: RequestHeaders)
    requires
        h.payment_confirm_source matches HeaderField::Text(t) && payment_source_named(t@) matches Some(
            p,
        ) && internal_only(p),
    ensures
        header_payload_of(h) == Err::<HeaderPayloadView, ApiErrorView>(
            ApiErrorView::InvalidRequestData { message: CONFIRM_SOURCE_REJECTION@ },
        ),
{
}

/// On an accepted request the latency flag is always present: true when the
/// header reads exactly `true`, false when the header is absent or reads
/// anything else.
pub proof fn lemma_latency_flag_default(h: RequestHeaders)
    requires
        header_payload_of(h) is Ok,
    ensures
        header_payload_of(h)->Ok_0.x_hs_latency == Some(latency_flag(h.x_hs_latency)),
        h.x_hs_latency is Absent ==> header_payload_of(h)->Ok_0.x_hs_latency == Some(false),
        h.x_hs_latency is NotText ==> header_payload_of(h)->Ok_0.x_hs_latency == Some(false),
        header_text(h.x_hs_latency) == Some("true"@) ==> header_payload_of(h)->Ok_0.x_hs_latency
            == Some(true),
        (h.x_hs_latency matches HeaderField::Text(t) && t@ != "true"@) ==> header_payload_of(
            h,
        )->Ok_0.x_hs_latency == Some(false),
{
}

/// Every mapping is a function of its input alone: two results that each meet
/// a mapping's contract for the same input are the same result.
pub proof fn lemma_status_mappings_repeatable(
    a: AttemptStatus,
    i1: IntentStatus,
    i2: IntentStatus,
    c1: Result<CaptureStatus, ApiErrorResponse>,
    c2: Result<CaptureStatus, ApiErrorResponse>,
)
    requires
        i1 == intent_status_of(a),
        i2 == intent_status_of(a),
        api_result_view(c1) == capture_outcome_of(a),
        api_result_view(c2) == capture_outcome_of(a),
    ensures
        i1 == i2,
        api_result_view(c1) == api_result_view(c2),
        c1 is Ok ==> c1 == c2,
{
}

/// Event classification is a function of the status alone: two results that
/// each meet a classifier's contract for the same status are equal.
pub proof fn lemma_event_classification_repeatable(
    i: IntentStatus,
    r: RefundStatus,
    d: DisputeStatus,
    m: MandateStatus,
    e1: Option<EventType>,
    e2: Option<EventType>,
    f1: Option<EventType>,
    f2: Option<EventType>,
    g1: EventType,
    g2: EventType,
    h1: Option<EventType>,
    h2: Option<EventType>,
)
    requires
        e1 == intent_event_of(i),
        e2 == intent_event_of(i),
        f1 == refund_event_of(r),
        f2 == refund_event_of(r),
        g1 == dispute_event_of(d),
        g2 == dispute_event_of(d),
        h1 == mandate_event_of(m),
        h2 == mandate_event_of(m),
    ensures
        e1 == e2,
        f1 == f2,
        g1 == g2,
        h1 == h2,
{
}

/// Webhook interpretation is a function of the tag alone, in each domain.
pub proof fn lemma_webhook_mappings_repeatable(
    e: IncomingWebhookEvent,
    r1: Result<RefundStatus, ValidationError>,
    r2: Result<RefundStatus, ValidationError>,
    m1: Result<MandateStatus, ValidationError>,
    m2: Result<MandateStatus, ValidationError>,
    d1: Result<DisputeStatus, ValidationError>,
    d2: Result<DisputeStatus, ValidationError>,
)
    requires
        validation_result_view(r1) == webhook_outcome(refund_status_of_event(e), WEBHOOK_EVENT_TYPE_FIELD@),
        validation_result_view(r2) == webhook_outcome(refund_status_of_event(e), WEBHOOK_EVENT_TYPE_FIELD@),
        validation_result_view(m1) == webhook_outcome(mandate_status_of_event(e), WEBHOOK_EVENT_TYPE_FIELD@),
        validation_result_view(m2) == webhook_outcome(mandate_status_of_event(e), WEBHOOK_EVENT_TYPE_FIELD@),
        validation_result_view(d1) == webhook_outcome(dispute_status_of_event(e), WEBHOOK_EVENT_FIELD@),
        validation_result_view(d2) == webhook_outcome(dispute_status_of_event(e), WEBHOOK_EVENT_FIELD@),
    ensures
        validation_result_view(r1) == validation_result_view(r2),
        validation_result_view(m1) == validation_result_view(m2),
        validation_result_view(d1) == validation_result_view(d2),
        r1 is Ok ==> r1 == r2,
        m1 is Ok ==> m1 == m2,
        d1 is Ok ==> d1 == d2,
{
}

/// Header validation is a function of the headers alone.
pub proof fn lemma_header_validation_repeatable(
    h: RequestHeaders,
    p1: Result<HeaderPayload, ApiErrorResponse>,
    p2: Result<HeaderPayload, ApiErrorResponse>,
)
    requires
        payload_result_view(p1) == header_payload_of(h),
        payload_result_view(p2) == header_payload_of(h),
    ensures
        payload_result_view(p1) == payload_result_view(p2),
{
}

} // verus!
