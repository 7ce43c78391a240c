//! What holds of every webhook: when it is genuine, what it speaks of and what it says.

use crate::codec::{
    form_decoded, hex_case_is_ignored, hex_lowered, hex_reads_back, hex_text, hex_text_is_lowered,
    is_hex, lemma_only_value, lemma_value_stands_alone, md5_digest, only_at, pair_views,
    sole_value, utf8_lossy,
};
use crate::errors::ConnectorError;
use crate::payme::Payme;
use crate::text::decimal;
use crate::webhooks::{
    lemma_encode_utf8_concat, ConnectorWebhookSecrets, CryptoError, DisputePayload, DisputeStage,
    NotifyType, ObjectReferenceId, PaymentIdType, RefundIdType, SignatureAlgorithm,
    SignatureCheck, WebhookEventDataResource, WebhookResourceObject,
};
use vstd::prelude::*;
use vstd::utf8::*;

verus! {

/// The bytes that a secret puts into a signed message: its own, or where they are no
/// UTF-8 those of the text that they are read as.
pub open spec fn secret_bytes(secret: Seq<u8>) -> Seq<u8> {
    if valid_utf8(secret) {
        secret
    } else {
        encode_utf8(utf8_lossy(secret))
    }
}

/// The signature of a form is the value of its field `payme_signature`, wherever the
/// field stands and however many other fields there are.
pub proof fn signature_is_found_in_any_form(
    payme: Payme,
    pairs: Vec<(String, String)>,
    at: int,
    r: Result<Vec<u8>, ConnectorError>,
)
    requires
        call_ensures(Payme::signature_in_form, (&payme, &pairs), r),
        0 <= at < pairs@.len(),
        pairs@[at].0@ == "payme_signature"@,
        forall|i: int|
            0 <= i < pairs@.len() && i != at ==> (#[trigger] pairs@[i]).0@ != "payme_signature"@,
    ensures
        r matches Ok(signature) && signature@ == encode_utf8(pairs@[at].1@),
{
    let views = pair_views(pairs@);
    assert forall|i: int| 0 <= i < views.len() implies ((#[trigger] views[i]).0
        == "payme_signature"@ <==> i == at) by {
        assert(views[i].0 == pairs@[i].0@);
    }
    lemma_only_value(views, "payme_signature"@, at);
}

/// A form without a field `payme_signature`, or with a second one, has no signature.
pub proof fn form_without_a_sole_signature_is_refused(
    payme: Payme,
    pairs: Vec<(String, String)>,
    r: Result<Vec<u8>, ConnectorError>,
)
    requires
        call_ensures(Payme::signature_in_form, (&payme, &pairs), r),
        (forall|i: int|
            0 <= i < pairs@.len() ==> (#[trigger] pairs@[i]).0@ != "payme_signature"@) || (exists|
            i: int,
            j: int,
        |
            0 <= i < j < pairs@.len() && (#[trigger] pairs@[i]).0@ == "payme_signature"@ && (
            #[trigger] pairs@[j]).0@ == "payme_signature"@),
    ensures
        r == Err::<Vec<u8>, ConnectorError>(ConnectorError::WebhookBodyDecodingFailed),
{
    let views = pair_views(pairs@);
    if r is Ok {
        let at = lemma_value_stands_alone(views, "payme_signature"@);
        assert(views[at].0 == pairs@[at].0@);
        assert forall|i: int| 0 <= i < pairs@.len() && i != at implies (#[trigger] pairs@[i]).0@
            != "payme_signature"@ by {
            assert(views[i].0 == pairs@[i].0@);
        }
    }
}

/// The signature of a webhook is the value of the one field `payme_signature` of its
/// form, wherever it stands and however many other fields there are.
pub proof fn signature_is_read_from_the_body(
    payme: Payme,
    body: &[u8],
    pairs: Seq<(Seq<char>, Seq<char>)>,
    at: int,
    r: Result<Vec<u8>, ConnectorError>,
)
    requires
        call_ensures(Payme::get_webhook_source_verification_signature, (&payme, body), r),
        form_decoded(body@) == Some(pairs),
        0 <= at < pairs.len(),
        pairs[at].0 == "payme_signature"@,
        forall|i: int|
            0 <= i < pairs.len() && i != at ==> (#[trigger] pairs[i]).0 != "payme_signature"@,
    ensures
        r matches Ok(signature) && signature@ == encode_utf8(pairs[at].1),
{
    lemma_only_value(pairs, "payme_signature"@, at);
}

/// A webhook whose body is no form, or whose form has no field `payme_signature` or a
/// second one, has no signature.
pub proof fn body_without_a_sole_signature_is_refused(
    payme: Payme,
    body: &[u8],
    r: Result<Vec<u8>, ConnectorError>,
)
    requires
        call_ensures(Payme::get_webhook_source_verification_signature, (&payme, body), r),
        form_decoded(body@) matches Some(pairs) ==> forall|at: int|
            !#[trigger] only_at(pairs, "payme_signature"@, at),
    ensures
        r == Err::<Vec<u8>, ConnectorError>(ConnectorError::WebhookBodyDecodingFailed),
{
    if form_decoded(body@) is Some && sole_value(form_decoded(body@)->0, "payme_signature"@) is Some
    {
        let at = lemma_value_stands_alone(form_decoded(body@)->0, "payme_signature"@);
    }
}

/// The message of a webhook is the bytes of the secret's text, of the transaction and
/// of the sale, in this order.
pub proof fn message_is_text_transaction_and_sale(
    payme: Payme,
    text: String,
    resource: WebhookEventDataResource,
    message: Vec<u8>,
)
    requires
        call_ensures(Payme::message_of_text, (&payme, text, &resource), message),
    ensures
        message@ == encode_utf8(text@) + encode_utf8(resource.payme_transaction_id@)
            + encode_utf8(resource.payme_sale_id@),
{
    lemma_encode_utf8_concat(text@ + resource.payme_transaction_id@, resource.payme_sale_id@);
    lemma_encode_utf8_concat(text@, resource.payme_transaction_id@);
}

/// The message of a webhook is the bytes of the secret, of the transaction and of the
/// sale, in this order; nothing else of the webhook or the secrets is part of it.
pub proof fn message_is_secret_transaction_and_sale(
    payme: Payme,
    resource: WebhookEventDataResource,
    secrets: ConnectorWebhookSecrets,
    message: Vec<u8>,
)
    requires
        call_ensures(Payme::message_of_resource, (&payme, &resource, &secrets), message),
    ensures
        message@ == secret_bytes(secrets.secret@) + encode_utf8(resource.payme_transaction_id@)
            + encode_utf8(resource.payme_sale_id@),
{
    lemma_message(resource, secrets.secret@);
}

proof fn lemma_message(resource: WebhookEventDataResource, secret: Seq<u8>)
    ensures
        crate::webhooks::verification_message(resource, secret) == secret_bytes(secret)
            + encode_utf8(resource.payme_transaction_id@) + encode_utf8(resource.payme_sale_id@),
{
    let text = crate::webhooks::secret_text(secret);
    lemma_encode_utf8_concat(text + resource.payme_transaction_id@, resource.payme_sale_id@);
    lemma_encode_utf8_concat(text, resource.payme_transaction_id@);
    if valid_utf8(secret) {
        decode_utf8_encode_utf8(secret);
    }
}

/// The message of a webhook is made of what its body is decoded as; a body that cannot
/// be decoded has none.
pub proof fn message_is_of_the_decoded_body<E, P>(
    payme: Payme,
    body: &[u8],
    secrets: ConnectorWebhookSecrets,
    decode: P,
    decoded: Result<WebhookEventDataResource, E>,
    r: Result<Vec<u8>, ConnectorError>,
) where P: FnOnce(&[u8]) -> Result<WebhookEventDataResource, E>
    requires
        call_ensures(
            Payme::get_webhook_source_verification_message::<E, P>,
            (&payme, body, &secrets, decode),
            r,
        ),
        forall|out: Result<WebhookEventDataResource, E>| #[trigger]
            decode.ensures((body,), out) ==> out == decoded,
    ensures
        match decoded {
            Ok(resource) => r matches Ok(message) && message@ == secret_bytes(secrets.secret@)
                + encode_utf8(resource.payme_transaction_id@) + encode_utf8(
                resource.payme_sale_id@,
            ),
            Err(_) => r == Err::<Vec<u8>, ConnectorError>(
                ConnectorError::WebhookBodyDecodingFailed,
            ),
        },
{
    if decoded is Ok {
        lemma_message(decoded->Ok_0, secrets.secret@);
    }
}

/// What is checked is the message behind the additional secret, against the bytes that
/// the signature is the hexadecimal text of. Without the additional secret, or with a
/// signature that is no hexadecimal text, nothing can be checked.
pub proof fn check_is_of_the_whole_message(
    payme: Payme,
    signature: Vec<u8>,
    message: Vec<u8>,
    secrets: ConnectorWebhookSecrets,
    r: Result<SignatureCheck, ConnectorError>,
)
    requires
        call_ensures(Payme::signature_check, (&payme, signature, message, secrets), r),
    ensures
        match secrets.additional_secret {
            None => r == Err::<SignatureCheck, ConnectorError>(
                ConnectorError::WebhookSourceVerificationFailed,
            ),
            Some(additional) => {
                &&& r is Ok <==> is_hex(signature@)
                &&& r matches Err(e) ==> e == ConnectorError::WebhookResponseEncodingFailed
                &&& r matches Ok(check) ==> {
                    &&& hex_text(check.signature@) == hex_lowered(signature@)
                    &&& check.message@ == encode_utf8(additional@) + message@
                    &&& check.secret@ == secrets.secret@
                }
            },
        },
{
    if is_hex(signature@) {
        hex_text_is_lowered(signature@);
    }
}

/// A signature is good exactly where it is the digest of the message, byte for byte,
/// whatever the secret.
pub proof fn signature_is_the_digest(
    algorithm: SignatureAlgorithm,
    check: SignatureCheck,
    digest: Vec<u8>,
    same: bool,
    r: Result<bool, CryptoError>,
)
    requires
        digest@ == md5_digest(check.message@),
        call_ensures(
            SignatureAlgorithm::digest_matches,
            (&algorithm, &digest, &check.signature),
            same,
        ),
        call_ensures(SignatureAlgorithm::verify_signature, (&algorithm, &check), r),
    ensures
        r == Ok::<bool, CryptoError>(same),
        same <==> (digest@.len() == check.signature@.len() && forall|i: int|
            0 <= i < digest@.len() ==> #[trigger] digest@[i] == check.signature@[i]),
{
    if digest@.len() == check.signature@.len() && forall|i: int|
        0 <= i < digest@.len() ==> #[trigger] digest@[i] == check.signature@[i] {
        assert(digest@ =~= check.signature@);
    }
}

/// What the signature algorithm says of a webhook is passed on; its failure is told as
/// a source that could not be verified. The algorithm is always there.
pub proof fn outcome_is_passed_on(
    payme: Payme,
    genuine: bool,
    error: CryptoError,
    told: Result<bool, ConnectorError>,
    failed: Result<bool, ConnectorError>,
    algorithm: Result<SignatureAlgorithm, ConnectorError>,
)
    requires
        call_ensures(Payme::verification_outcome, (&payme, Ok::<bool, CryptoError>(genuine)), told),
        call_ensures(Payme::verification_outcome, (&payme, Err::<bool, CryptoError>(error)), failed),
        call_ensures(Payme::get_webhook_source_verification_algorithm, (&payme,), algorithm),
    ensures
        told == Ok::<bool, ConnectorError>(genuine),
        failed == Err::<bool, ConnectorError>(ConnectorError::WebhookSourceVerificationFailed),
        algorithm is Ok,
{
}

/// A webhook whose body has one field `payme_signature`, wherever it stands and however
/// many other fields there are, is genuine exactly where that field is, in either case,
/// the hexadecimal text of the digest of the additional secret, the secret, the
/// transaction and the sale. A field that is no hexadecimal text is an error.
pub proof fn webhook_is_genuine_by_its_digest<E, L, P>(
    payme: Payme,
    body: &[u8],
    secrets: ConnectorWebhookSecrets,
    additional: String,
    decode: P,
    resource: WebhookEventDataResource,
    pairs: Seq<(Seq<char>, Seq<char>)>,
    at: int,
    r: Result<bool, ConnectorError>,
) where P: FnOnce(&[u8]) -> Result<WebhookEventDataResource, E>
    requires
        call_ensures(
            Payme::verify_webhook_source::<E, L, P>,
            (&payme, body, Ok::<ConnectorWebhookSecrets, L>(secrets), decode),
            r,
        ),
        secrets.additional_secret == Some(additional),
        forall|out: Result<WebhookEventDataResource, E>| #[trigger]
            decode.ensures((body,), out) ==> out == Ok::<WebhookEventDataResource, E>(resource),
        form_decoded(body@) == Some(pairs),
        0 <= at < pairs.len(),
        pairs[at].0 == "payme_signature"@,
        forall|i: int|
            0 <= i < pairs.len() && i != at ==> (#[trigger] pairs[i]).0 != "payme_signature"@,
    ensures
        ({
            let signature = encode_utf8(pairs[at].1);
            let message = encode_utf8(additional@) + secret_bytes(secrets.secret@) + encode_utf8(
                resource.payme_transaction_id@,
            ) + encode_utf8(resource.payme_sale_id@);
            let digest = md5_digest(message);
            &&& signature == hex_text(digest) ==> r == Ok::<bool, ConnectorError>(true)
            &&& r == Ok::<bool, ConnectorError>(true) <==> hex_lowered(signature) == hex_text(
                digest,
            )
            &&& r is Ok <==> is_hex(signature)
            &&& r matches Err(e) ==> e == ConnectorError::WebhookResponseEncodingFailed
        }),
{
    lemma_only_value(pairs, "payme_signature"@, at);
    lemma_message(resource, secrets.secret@);
    let signature = encode_utf8(pairs[at].1);
    let message = encode_utf8(additional@) + secret_bytes(secrets.secret@) + encode_utf8(
        resource.payme_transaction_id@,
    ) + encode_utf8(resource.payme_sale_id@);
    assert(message =~= crate::webhooks::signed_message(resource, secrets.secret@, additional@));
    let digest = md5_digest(message);
    hex_reads_back(digest);
    hex_case_is_ignored(signature);
    if is_hex(signature) {
        hex_text_is_lowered(signature);
    }
}

/// A webhook cannot be verified without the merchant's secrets, without the additional
/// one among them, without a body that can be decoded, or without a sole signature.
pub proof fn webhook_cannot_be_verified_without<E, L, P>(
    payme: Payme,
    body: &[u8],
    secrets: Result<ConnectorWebhookSecrets, L>,
    decode: P,
    decoded: Result<WebhookEventDataResource, E>,
    r: Result<bool, ConnectorError>,
) where P: FnOnce(&[u8]) -> Result<WebhookEventDataResource, E>
    requires
        call_ensures(
            Payme::verify_webhook_source::<E, L, P>,
            (&payme, body, secrets, decode),
            r,
        ),
        forall|out: Result<WebhookEventDataResource, E>| #[trigger]
            decode.ensures((body,), out) ==> out == decoded,
        ({
            ||| secrets is Err
            ||| secrets matches Ok(known) && known.additional_secret is None
            ||| decoded is Err
            ||| form_decoded(body@) is None
            ||| form_decoded(body@) matches Some(pairs) && forall|at: int|
                !#[trigger] only_at(pairs, "payme_signature"@, at)
        }),
    ensures
        r == Err::<bool, ConnectorError>(ConnectorError::WebhookSourceVerificationFailed),
{
    if form_decoded(body@) is Some && sole_value(form_decoded(body@)->0, "payme_signature"@) is Some
    {
        let at = lemma_value_stands_alone(form_decoded(body@)->0, "payme_signature"@);
    }
}

/// A webhook of a refund speaks of the refund by its transaction, and any other webhook
/// speaks of the payment by its sale, whatever else the webhook says.
pub proof fn webhook_names_the_sale_or_the_refund(
    payme: Payme,
    resource: WebhookEventDataResource,
    id: ObjectReferenceId,
)
    requires
        call_ensures(Payme::reference_of_resource, (&payme, resource), id),
    ensures
        resource.notify_type == NotifyType::Refund ==> (
        id matches ObjectReferenceId::RefundId(RefundIdType::ConnectorRefundId(text)) && text@
            == resource.payme_transaction_id@),
        resource.notify_type != NotifyType::Refund ==> (
        id matches ObjectReferenceId::PaymentId(PaymentIdType::ConnectorTransactionId(text))
            && text@ == resource.payme_sale_id@),
{
}

/// Two webhooks of the same kind, sale and transaction speak of the same object.
pub proof fn reference_goes_by_kind_sale_and_transaction(
    payme: Payme,
    a: WebhookEventDataResource,
    b: WebhookEventDataResource,
    id_a: ObjectReferenceId,
    id_b: ObjectReferenceId,
)
    requires
        call_ensures(Payme::reference_of_resource, (&payme, a), id_a),
        call_ensures(Payme::reference_of_resource, (&payme, b), id_b),
        a.notify_type == b.notify_type,
        a.payme_sale_id == b.payme_sale_id,
        a.payme_transaction_id == b.payme_transaction_id,
    ensures
        id_a == id_b,
{
}

/// What a webhook speaks of is read from what its body is decoded as.
pub proof fn reference_is_of_the_decoded_body<E, P>(
    payme: Payme,
    body: &[u8],
    decode: P,
    decoded: Result<WebhookEventDataResource, E>,
    r: Result<ObjectReferenceId, ConnectorError>,
) where P: FnOnce(&[u8]) -> Result<WebhookEventDataResource, E>
    requires
        call_ensures(
            Payme::get_webhook_object_reference_id::<E, P>,
            (&payme, body, decode),
            r,
        ),
        forall|out: Result<WebhookEventDataResource, E>| #[trigger]
            decode.ensures((body,), out) ==> out == decoded,
    ensures
        match decoded {
            Err(_) => r == Err::<ObjectReferenceId, ConnectorError>(
                ConnectorError::WebhookBodyDecodingFailed,
            ),
            Ok(resource) => if resource.notify_type == NotifyType::Refund {
                r matches Ok(
                    ObjectReferenceId::RefundId(RefundIdType::ConnectorRefundId(text)),
                ) && text@ == resource.payme_transaction_id@
            } else {
                r matches Ok(
                    ObjectReferenceId::PaymentId(PaymentIdType::ConnectorTransactionId(text)),
                ) && text@ == resource.payme_sale_id@
            },
        },
{
}

/// What a webhook tells of is what its kind means to the payment; a body whose kind
/// cannot be decoded is refused.
pub proof fn event_is_of_the_decoded_kind<V, E, P, N>(
    payme: Payme,
    body: &[u8],
    decode: P,
    event: N,
    decoded: Result<NotifyType, E>,
    meant: V,
    r: Result<V, ConnectorError>,
) where P: FnOnce(&[u8]) -> Result<NotifyType, E>, N: FnOnce(NotifyType) -> V
    requires
        call_ensures(
            Payme::get_webhook_event_type::<V, E, P, N>,
            (&payme, body, decode, event),
            r,
        ),
        forall|out: Result<NotifyType, E>| #[trigger]
            decode.ensures((body,), out) ==> out == decoded,
        decoded matches Ok(kind) ==> forall|out: V| #[trigger]
            event.ensures((kind,), out) ==> out == meant,
    ensures
        match decoded {
            Ok(_) => r == Ok::<V, ConnectorError>(meant),
            Err(_) => r == Err::<V, ConnectorError>(ConnectorError::WebhookBodyDecodingFailed),
        },
{
}

/// A webhook of a sale that went through or failed is shown as the reply to a sale, one
/// of a refund as the reply to a transaction query, and one of a dispute as it is; the
/// whole webhook is shown each time.
pub proof fn webhook_is_shown_by_its_kind(
    payme: Payme,
    resource: WebhookEventDataResource,
    object: WebhookResourceObject,
)
    requires
        call_ensures(Payme::object_of_resource, (&payme, resource), object),
    ensures
        resource.notify_type == NotifyType::SaleComplete || resource.notify_type
            == NotifyType::SaleAuthorized || resource.notify_type == NotifyType::SaleFailure
            ==> object == WebhookResourceObject::PaymePaySaleResponse(resource),
        resource.notify_type == NotifyType::Refund ==> object
            == WebhookResourceObject::PaymeQueryTransactionResponse(resource),
        resource.notify_type == NotifyType::SaleChargeback || resource.notify_type
            == NotifyType::SaleChargebackRefund ==> object
            == WebhookResourceObject::WebhookEventDataResource(resource),
{
}

/// What a webhook carries is made of what its body is decoded as.
pub proof fn object_is_of_the_decoded_body<E, P>(
    payme: Payme,
    body: &[u8],
    decode: P,
    decoded: Result<WebhookEventDataResource, E>,
    object: WebhookResourceObject,
    r: Result<WebhookResourceObject, ConnectorError>,
) where P: FnOnce(&[u8]) -> Result<WebhookEventDataResource, E>
    requires
        call_ensures(Payme::get_webhook_resource_object::<E, P>, (&payme, body, decode), r),
        forall|out: Result<WebhookEventDataResource, E>| #[trigger]
            decode.ensures((body,), out) ==> out == decoded,
        decoded matches Ok(resource) ==> call_ensures(
            Payme::object_of_resource,
            (&payme, resource),
            object,
        ),
    ensures
        match decoded {
            Ok(_) => r == Ok::<WebhookResourceObject, ConnectorError>(object),
            Err(_) => r == Err::<WebhookResourceObject, ConnectorError>(
                ConnectorError::WebhookBodyDecodingFailed,
            ),
        },
{
}

/// A dispute is about the price of the webhook, in decimal, in its currency; it has the
/// status of the sale, is named by the transaction, and nothing else is known of it.
pub proof fn dispute_is_about_the_price(
    payme: Payme,
    resource: WebhookEventDataResource,
    price: String,
    payload: DisputePayload,
)
    requires
        call_ensures(Payme::dispute_of_resource, (&payme, resource), payload),
        call_ensures(decimal, (resource.price.0,), price),
    ensures
        payload.amount@ == price@,
        payload.currency == resource.currency,
        payload.dispute_stage == DisputeStage::Dispute,
        payload.connector_status@ == resource.sale_status@,
        payload.connector_dispute_id@ == resource.payme_transaction_id@,
        payload.connector_reason is None,
        payload.connector_reason_code is None,
        payload.challenge_required_by is None,
        payload.created_at is None,
        payload.updated_at is None,
{
}

/// The dispute of a webhook is read from what its body is decoded as.
pub proof fn dispute_is_of_the_decoded_body<E, P>(
    payme: Payme,
    body: &[u8],
    decode: P,
    decoded: Result<WebhookEventDataResource, E>,
    price: String,
    r: Result<DisputePayload, ConnectorError>,
) where P: FnOnce(&[u8]) -> Result<WebhookEventDataResource, E>
    requires
        call_ensures(Payme::get_dispute_details::<E, P>, (&payme, body, decode), r),
        forall|out: Result<WebhookEventDataResource, E>| #[trigger]
            decode.ensures((body,), out) ==> out == decoded,
        decoded matches Ok(resource) ==> call_ensures(decimal, (resource.price.0,), price),
    ensures
        match decoded {
            Ok(resource) => r matches Ok(payload) && {
                &&& payload.amount@ == price@
                &&& payload.currency == resource.currency
                &&& payload.dispute_stage == DisputeStage::Dispute
                &&& payload.connector_status@ == resource.sale_status@
                &&& payload.connector_dispute_id@ == resource.payme_transaction_id@
                &&& payload.connector_reason is None
                &&& payload.connector_reason_code is None
                &&& payload.challenge_required_by is None
                &&& payload.created_at is None
                &&& payload.updated_at is None
            },
            Err(_) => r == Err::<DisputePayload, ConnectorError>(
                ConnectorError::WebhookBodyDecodingFailed,
            ),
        },
{
}

} // verus!
