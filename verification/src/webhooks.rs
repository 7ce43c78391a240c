//! Webhooks of PayMe: where they come from, what they speak of and what they say.

use crate::codec::{
    form_decode, form_decoded, from_utf8_lossy, hex_bytes, hex_case_is_ignored, hex_decode,
    hex_lowered, hex_reads_back, hex_text, hex_text_is_lowered, is_hex, md5_compute, md5_digest,
    pair_views, sole_field, sole_value, utf8_lossy,
};
use crate::errors::ConnectorError;
use crate::payme::Payme;
use crate::text::{decimal, decimal_int, decimal_reads_back, decimal_value};
use crate::types::{Currency, MinorUnit};
use vstd::prelude::*;
use vstd::string::*;
use vstd::utf8::*;

verus! {

/// What a webhook tells of.
#[derive(Debug, Clone, Copy, PartialEq, Eq, Structural)]
pub enum NotifyType {
    SaleComplete,
    SaleAuthorized,
    Refund,
    SaleFailure,
    SaleChargeback,
    SaleChargebackRefund,
}

/// The body of a webhook.
#[derive(Debug, PartialEq, Eq)]
pub struct WebhookEventDataResource {
    pub notify_type: NotifyType,
    pub payme_sale_id: String,
    pub payme_transaction_id: String,
    pub price: MinorUnit,
    pub currency: Currency,
    /// The status of the sale, by its name.
    pub sale_status: String,
}

/// The secrets that a merchant shares with PayMe.
#[derive(Debug, PartialEq, Eq)]
pub struct ConnectorWebhookSecrets {
    pub secret: Vec<u8>,
    pub additional_secret: Option<String>,
}

/// The identifier of a payment.
#[derive(Debug, PartialEq, Eq)]
pub enum PaymentIdType {
    ConnectorTransactionId(String),
}

/// The identifier of a refund.
#[derive(Debug, PartialEq, Eq)]
pub enum RefundIdType {
    ConnectorRefundId(String),
}

/// What a webhook speaks of.
#[derive(Debug, PartialEq, Eq)]
pub enum ObjectReferenceId {
    PaymentId(PaymentIdType),
    RefundId(RefundIdType),
}

/// The object that a webhook carries, and the message that it is shown as.
#[derive(Debug, PartialEq, Eq)]
pub enum WebhookResourceObject {
    /// Shown as the reply to a sale.
    PaymePaySaleResponse(WebhookEventDataResource),
    /// Shown as the reply to a transaction query.
    PaymeQueryTransactionResponse(WebhookEventDataResource),
    /// Shown as it is.
    WebhookEventDataResource(WebhookEventDataResource),
}

/// How far a dispute has come.
#[derive(Debug, Clone, Copy, PartialEq, Eq, Structural)]
pub enum DisputeStage {
    PreDispute,
    Dispute,
    PreArbitration,
}

/// A dispute, as a webhook tells of it.
#[derive(Debug, PartialEq, Eq)]
pub struct DisputePayload {
    pub amount: String,
    pub currency: Currency,
    pub dispute_stage: DisputeStage,
    pub connector_status: String,
    pub connector_dispute_id: String,
    pub connector_reason: Option<String>,
    pub connector_reason_code: Option<String>,
    /// Times in seconds since the epoch.
    pub challenge_required_by: Option<i64>,
    pub created_at: Option<i64>,
    pub updated_at: Option<i64>,
}

/// Why a signature could not be checked.
#[derive(Debug, Clone, Copy, PartialEq, Eq, Structural)]
pub enum CryptoError {
    SignatureVerificationFailed,
}

/// How a signature is checked.
#[derive(Debug, Clone, Copy, PartialEq, Eq, Structural)]
pub enum SignatureAlgorithm {
    Md5,
}

/// A signature that is to be checked, and what it is checked against.
#[derive(Debug, PartialEq, Eq)]
pub struct SignatureCheck {
    pub secret: Vec<u8>,
    pub signature: Vec<u8>,
    pub message: Vec<u8>,
}

/// The signature among the pairs of a form: the UTF-8 bytes of the one field
/// `payme_signature`.
pub open spec fn form_signature(pairs: Seq<(Seq<char>, Seq<char>)>) -> Option<Seq<u8>> {
    match sole_value(pairs, "payme_signature"@) {
        Some(value) => Some(encode_utf8(value)),
        None => None,
    }
}

/// The signature in the body of a webhook.
pub open spec fn webhook_signature(body: Seq<u8>) -> Option<Seq<u8>> {
    match form_decoded(body) {
        Some(pairs) => form_signature(pairs),
        None => None,
    }
}

/// The text that a secret is read as.
pub open spec fn secret_text(secret: Seq<u8>) -> Seq<char> {
    if valid_utf8(secret) {
        decode_utf8(secret)
    } else {
        utf8_lossy(secret)
    }
}

/// The message that a webhook's signature covers, without the additional secret.
pub open spec fn verification_message(
    resource: WebhookEventDataResource,
    secret: Seq<u8>,
) -> Seq<u8> {
    encode_utf8(
        secret_text(secret) + resource.payme_transaction_id@ + resource.payme_sale_id@,
    )
}

/// The whole message that a webhook's signature covers.
pub open spec fn signed_message(
    resource: WebhookEventDataResource,
    secret: Seq<u8>,
    additional_secret: Seq<char>,
) -> Seq<u8> {
    encode_utf8(additional_secret) + verification_message(resource, secret)
}

/// Whether a webhook with this signature is taken for genuine, or why it cannot
/// be told.
pub open spec fn verdict<E>(
    signature: Seq<u8>,
    resource: Result<WebhookEventDataResource, E>,
    secrets: ConnectorWebhookSecrets,
) -> Result<bool, ConnectorError> {
    match (resource, secrets.additional_secret) {
        (Ok(resource), Some(additional)) => if is_hex(signature) {
            Ok(
                md5_digest(signed_message(resource, secrets.secret@, additional@)) == hex_bytes(
                    signature,
                ),
            )
        } else {
            Err(ConnectorError::WebhookResponseEncodingFailed)
        },
        _ => Err(ConnectorError::WebhookSourceVerificationFailed),
    }
}

/// What a webhook speaks of: a refund's by its transaction, any other by its sale.
pub open spec fn object_reference(resource: WebhookEventDataResource) -> ObjectReferenceId {
    if resource.notify_type == NotifyType::Refund {
        ObjectReferenceId::RefundId(
            RefundIdType::ConnectorRefundId(resource.payme_transaction_id),
        )
    } else {
        ObjectReferenceId::PaymentId(PaymentIdType::ConnectorTransactionId(resource.payme_sale_id))
    }
}

/// What a webhook carries.
pub open spec fn resource_object(resource: WebhookEventDataResource) -> WebhookResourceObject {
    match resource.notify_type {
        NotifyType::SaleComplete
        | NotifyType::SaleAuthorized
        | NotifyType::SaleFailure => WebhookResourceObject::PaymePaySaleResponse(resource),
        NotifyType::Refund => WebhookResourceObject::PaymeQueryTransactionResponse(resource),
        NotifyType::SaleChargeback
        | NotifyType::SaleChargebackRefund => WebhookResourceObject::WebhookEventDataResource(
            resource,
        ),
    }
}

/// Whether `payload` is the dispute that a webhook tells of.
pub open spec fn disputes(payload: DisputePayload, resource: WebhookEventDataResource) -> bool {
    &&& payload.amount@ == decimal_int(resource.price.0 as int)
    &&& payload.currency == resource.currency
    &&& payload.dispute_stage == DisputeStage::Dispute
    &&& payload.connector_status == resource.sale_status
    &&& payload.connector_dispute_id == resource.payme_transaction_id
    &&& payload.connector_reason is None
    &&& payload.connector_reason_code is None
    &&& payload.challenge_required_by is None
    &&& payload.created_at is None
    &&& payload.updated_at is None
}

impl SignatureAlgorithm {
    /// Whether a signature is the digest of the message that it signs.
    pub fn digest_matches(&self, digest: &Vec<u8>, signature: &Vec<u8>) -> (same: bool)
        ensures
            same == (digest@ == signature@),
    {
        let same = *digest == *signature;
        assert(same == (digest@ =~= signature@));
        same
    }

    /// Checks a signature. The digest is not keyed: the secret has to be part of
    /// the message.
    pub fn verify_signature(&self, check: &SignatureCheck) -> (r: Result<bool, CryptoError>)
        ensures
            r == Ok::<bool, CryptoError>(md5_digest(check.message@) == check.signature@),
    {
        match self {
            SignatureAlgorithm::Md5 => {
                let digest = md5_compute(check.message.as_slice());
                Ok(self.digest_matches(&digest, &check.signature))
            },
        }
    }
}

impl Payme {
    /// How the signature of a webhook is checked.
    pub fn get_webhook_source_verification_algorithm(&self) -> (r: Result<
        SignatureAlgorithm,
        ConnectorError,
    >)
        ensures
            r == Ok::<SignatureAlgorithm, ConnectorError>(SignatureAlgorithm::Md5),
    {
        Ok(SignatureAlgorithm::Md5)
    }

    /// Finds the signature among the pairs of a webhook's form.
    pub fn signature_in_form(&self, pairs: &Vec<(String, String)>) -> (r: Result<
        Vec<u8>,
        ConnectorError,
    >)
        ensures
            match r {
                Ok(signature) => form_signature(pair_views(pairs@)) == Some(signature@),
                Err(e) => e == ConnectorError::WebhookBodyDecodingFailed && form_signature(
                    pair_views(pairs@),
                ) is None,
            },
    {
        match sole_field(pairs, "payme_signature") {
            Some(value) => Ok(value.as_str().as_bytes_vec()),
            None => Err(ConnectorError::WebhookBodyDecodingFailed),
        }
    }

    /// Reads the signature of a webhook from its body.
    pub fn get_webhook_source_verification_signature(&self, body: &[u8]) -> (r: Result<
        Vec<u8>,
        ConnectorError,
    >)
        ensures
            match r {
                Ok(signature) => webhook_signature(body@) == Some(signature@),
                Err(e) => e == ConnectorError::WebhookBodyDecodingFailed && webhook_signature(
                    body@,
                ) is None,
            },
    {
        match form_decode(body) {
            Ok(pairs) => self.signature_in_form(&pairs),
            Err(_) => Err(ConnectorError::WebhookBodyDecodingFailed),
        }
    }

    /// The message that the signature of a decoded webhook covers, without the
    /// additional secret: the text of the secret, the transaction and the sale.
    pub fn message_of_text(&self, text: String, resource: &WebhookEventDataResource) -> (message:
        Vec<u8>)
        ensures
            message@ == encode_utf8(
                text@ + resource.payme_transaction_id@ + resource.payme_sale_id@,
            ),
    {
        text.concat(resource.payme_transaction_id.as_str()).concat(
            resource.payme_sale_id.as_str(),
        ).as_str().as_bytes_vec()
    }

    /// The message that the signature of a decoded webhook covers, without the
    /// additional secret.
    pub fn message_of_resource(
        &self,
        resource: &WebhookEventDataResource,
        secrets: &ConnectorWebhookSecrets,
    ) -> (message: Vec<u8>)
        ensures
            message@ == verification_message(*resource, secrets.secret@),
    {
        self.message_of_text(from_utf8_lossy(secrets.secret.as_slice()), resource)
    }

    /// The message that the signature of a webhook covers, without the additional
    /// secret. `decode` decodes the body.
    pub fn get_webhook_source_verification_message<E, P>(
        &self,
        body: &[u8],
        secrets: &ConnectorWebhookSecrets,
        decode: P,
    ) -> (r: Result<Vec<u8>, ConnectorError>) where
        P: FnOnce(&[u8]) -> Result<WebhookEventDataResource, E>,

        requires
            decode.requires((body,)),
        ensures
            exists|decoded: Result<WebhookEventDataResource, E>| #[trigger]
                decode.ensures((body,), decoded) && (match decoded {
                    Ok(resource) => r matches Ok(message) && message@ == verification_message(
                        resource,
                        secrets.secret@,
                    ),
                    Err(_) => r == Err::<Vec<u8>, ConnectorError>(
                        ConnectorError::WebhookBodyDecodingFailed,
                    ),
                }),
    {
        match decode(body) {
            Ok(resource) => Ok(self.message_of_resource(&resource, secrets)),
            Err(_) => Err(ConnectorError::WebhookBodyDecodingFailed),
        }
    }

    /// Puts together what the signature algorithm is handed.
    pub fn signature_check(
        &self,
        signature: Vec<u8>,
        message: Vec<u8>,
        secrets: ConnectorWebhookSecrets,
    ) -> (r: Result<SignatureCheck, ConnectorError>)
        ensures
            match secrets.additional_secret {
                None => r == Err::<SignatureCheck, ConnectorError>(
                    ConnectorError::WebhookSourceVerificationFailed,
                ),
                Some(additional) => if is_hex(signature@) {
                    r matches Ok(check) && {
                        &&& check.secret == secrets.secret
                        &&& check.signature@ == hex_bytes(signature@)
                        &&& check.message@ == encode_utf8(additional@) + message@
                    }
                } else {
                    r == Err::<SignatureCheck, ConnectorError>(
                        ConnectorError::WebhookResponseEncodingFailed,
                    )
                },
            },
    {
        let mut message = message;
        let mut message_to_verify = match secrets.additional_secret {
            Some(additional) => additional.as_str().as_bytes_vec(),
            None => return Err(ConnectorError::WebhookSourceVerificationFailed),
        };
        message_to_verify.append(&mut message);
        match hex_decode(signature.as_slice()) {
            Ok(signature_to_verify) => Ok(
                SignatureCheck {
                    secret: secrets.secret,
                    signature: signature_to_verify,
                    message: message_to_verify,
                },
            ),
            Err(_) => Err(ConnectorError::WebhookResponseEncodingFailed),
        }
    }

    /// What the outcome of the signature algorithm says of a webhook.
    pub fn verification_outcome(&self, outcome: Result<bool, CryptoError>) -> (r: Result<
        bool,
        ConnectorError,
    >)
        ensures
            r == (match outcome {
                Ok(genuine) => Ok::<bool, ConnectorError>(genuine),
                Err(_) => Err(ConnectorError::WebhookSourceVerificationFailed),
            }),
    {
        match outcome {
            Ok(genuine) => Ok(genuine),
            Err(_) => Err(ConnectorError::WebhookSourceVerificationFailed),
        }
    }

    /// Tells whether a webhook comes from PayMe. `secrets` are the merchant's, as
    /// they were looked up, and `decode` decodes the body.
    pub fn verify_webhook_source<E, L, P>(
        &self,
        body: &[u8],
        secrets: Result<ConnectorWebhookSecrets, L>,
        decode: P,
    ) -> (r: Result<bool, ConnectorError>) where
        P: FnOnce(&[u8]) -> Result<WebhookEventDataResource, E>,

        requires
            secrets is Ok ==> decode.requires((body,)),
        ensures
            match (secrets, webhook_signature(body@)) {
                (Ok(secrets), Some(signature)) => exists|
                    decoded: Result<WebhookEventDataResource, E>,
                | #[trigger]
                    decode.ensures((body,), decoded) && r == verdict(signature, decoded, secrets),
                _ => r == Err::<bool, ConnectorError>(
                    ConnectorError::WebhookSourceVerificationFailed,
                ),
            },
    {
        let algorithm = match self.get_webhook_source_verification_algorithm() {
            Ok(algorithm) => algorithm,
            Err(_) => return Err(ConnectorError::WebhookSourceVerificationFailed),
        };
        let secrets = match secrets {
            Ok(secrets) => secrets,
            Err(_) => return Err(ConnectorError::WebhookSourceVerificationFailed),
        };
        let signature = match self.get_webhook_source_verification_signature(body) {
            Ok(signature) => signature,
            Err(_) => return Err(ConnectorError::WebhookSourceVerificationFailed),
        };
        let message = match self.get_webhook_source_verification_message(body, &secrets, decode) {
            Ok(message) => message,
            Err(_) => return Err(ConnectorError::WebhookSourceVerificationFailed),
        };
        let check = match self.signature_check(signature, message, secrets) {
            Ok(check) => check,
            Err(e) => return Err(e),
        };
        self.verification_outcome(algorithm.verify_signature(&check))
    }

    /// What a decoded webhook speaks of.
    pub fn reference_of_resource(&self, resource: WebhookEventDataResource) -> (id:
        ObjectReferenceId)
        ensures
            id == object_reference(resource),
    {
        match resource.notify_type {
            NotifyType::SaleComplete
            | NotifyType::SaleAuthorized
            | NotifyType::SaleFailure
            | NotifyType::SaleChargeback
            | NotifyType::SaleChargebackRefund => ObjectReferenceId::PaymentId(
                PaymentIdType::ConnectorTransactionId(resource.payme_sale_id),
            ),
            NotifyType::Refund => ObjectReferenceId::RefundId(
                RefundIdType::ConnectorRefundId(resource.payme_transaction_id),
            ),
        }
    }

    /// What a webhook speaks of. `decode` decodes the body.
    pub fn get_webhook_object_reference_id<E, P>(&self, body: &[u8], decode: P) -> (r: Result<
        ObjectReferenceId,
        ConnectorError,
    >) where P: FnOnce(&[u8]) -> Result<WebhookEventDataResource, E>
        requires
            decode.requires((body,)),
        ensures
            exists|decoded: Result<WebhookEventDataResource, E>| #[trigger]
                decode.ensures((body,), decoded) && r == (match decoded {
                    Ok(resource) => Ok::<ObjectReferenceId, ConnectorError>(
                        object_reference(resource),
                    ),
                    Err(_) => Err(ConnectorError::WebhookBodyDecodingFailed),
                }),
    {
        match decode(body) {
            Ok(resource) => Ok(self.reference_of_resource(resource)),
            Err(_) => Err(ConnectorError::WebhookBodyDecodingFailed),
        }
    }

    /// What a webhook tells of. `decode` decodes the body as far as its kind, and
    /// `event` says what that kind means to the payment.
    pub fn get_webhook_event_type<V, E, P, N>(&self, body: &[u8], decode: P, event: N) -> (r:
        Result<V, ConnectorError>) where
        P: FnOnce(&[u8]) -> Result<NotifyType, E>,
        N: FnOnce(NotifyType) -> V,

        requires
            decode.requires((body,)),
            forall|kind: NotifyType|
                decode.ensures((body,), Ok::<NotifyType, E>(kind)) ==> #[trigger] event.requires(
                    (kind,),
                ),
        ensures
            exists|decoded: Result<NotifyType, E>| #[trigger]
                decode.ensures((body,), decoded) && (match decoded {
                    Ok(kind) => r matches Ok(v) && event.ensures((kind,), v),
                    Err(_) => r == Err::<V, ConnectorError>(
                        ConnectorError::WebhookBodyDecodingFailed,
                    ),
                }),
    {
        match decode(body) {
            Ok(kind) => Ok(event(kind)),
            Err(_) => Err(ConnectorError::WebhookBodyDecodingFailed),
        }
    }

    /// What a decoded webhook carries.
    pub fn object_of_resource(&self, resource: WebhookEventDataResource) -> (object:
        WebhookResourceObject)
        ensures
            object == resource_object(resource),
    {
        match resource.notify_type {
            NotifyType::SaleComplete
            | NotifyType::SaleAuthorized
            | NotifyType::SaleFailure => WebhookResourceObject::PaymePaySaleResponse(resource),
            NotifyType::Refund => WebhookResourceObject::PaymeQueryTransactionResponse(resource),
            NotifyType::SaleChargeback
            | NotifyType::SaleChargebackRefund => WebhookResourceObject::WebhookEventDataResource(
                resource,
            ),
        }
    }

    /// What a webhook carries. `decode` decodes the body.
    pub fn get_webhook_resource_object<E, P>(&self, body: &[u8], decode: P) -> (r: Result<
        WebhookResourceObject,
        ConnectorError,
    >) where P: FnOnce(&[u8]) -> Result<WebhookEventDataResource, E>
        requires
            decode.requires((body,)),
        ensures
            exists|decoded: Result<WebhookEventDataResource, E>| #[trigger]
                decode.ensures((body,), decoded) && r == (match decoded {
                    Ok(resource) => Ok::<WebhookResourceObject, ConnectorError>(
                        resource_object(resource),
                    ),
                    Err(_) => Err(ConnectorError::WebhookBodyDecodingFailed),
                }),
    {
        match decode(body) {
            Ok(resource) => Ok(self.object_of_resource(resource)),
            Err(_) => Err(ConnectorError::WebhookBodyDecodingFailed),
        }
    }

    /// The dispute that a decoded webhook tells of.
    pub fn dispute_of_resource(&self, resource: WebhookEventDataResource) -> (payload:
        DisputePayload)
        ensures
            disputes(payload, resource),
    {
        DisputePayload {
            amount: decimal(resource.price.0),
            currency: resource.currency,
            dispute_stage: DisputeStage::Dispute,
            connector_status: resource.sale_status,
            connector_dispute_id: resource.payme_transaction_id,
            connector_reason: None,
            connector_reason_code: None,
            challenge_required_by: None,
            created_at: None,
            updated_at: None,
        }
    }

    /// The dispute that a webhook tells of. `decode` decodes the body.
    pub fn get_dispute_details<E, P>(&self, body: &[u8], decode: P) -> (r: Result<
        DisputePayload,
        ConnectorError,
    >) where P: FnOnce(&[u8]) -> Result<WebhookEventDataResource, E>
        requires
            decode.requires((body,)),
        ensures
            exists|decoded: Result<WebhookEventDataResource, E>| #[trigger]
                decode.ensures((body,), decoded) && (match decoded {
                    Ok(resource) => r matches Ok(payload) && disputes(payload, resource),
                    Err(_) => r == Err::<DisputePayload, ConnectorError>(
                        ConnectorError::WebhookBodyDecodingFailed,
                    ),
                }),
    {
        match decode(body) {
            Ok(resource) => Ok(self.dispute_of_resource(resource)),
            Err(_) => Err(ConnectorError::WebhookBodyDecodingFailed),
        }
    }
}

/// The bytes of a text are those of its parts, one after the other.
pub proof fn lemma_encode_utf8_concat(a: Seq<char>, b: Seq<char>)
    ensures
        encode_utf8(a + b) == encode_utf8(a) + encode_utf8(b),
    decreases a.len(),
{
    if a.len() == 0 {
        assert(a + b =~= b);
        assert(encode_utf8(a) =~= Seq::<u8>::empty());
    } else {
        lemma_encode_utf8_concat(a.drop_first(), b);
        assert((a + b).drop_first() =~= a.drop_first() + b);
        assert(encode_utf8(a + b) =~= encode_utf8(a) + encode_utf8(b));
    }
}

/// With a secret that is valid UTF-8 the signature covers the additional secret,
/// the secret, the transaction and the sale, byte by byte in this order.
pub proof fn signed_message_in_full(
    resource: WebhookEventDataResource,
    secret: Seq<u8>,
    additional_secret: Seq<char>,
)
    requires
        valid_utf8(secret),
    ensures
        signed_message(resource, secret, additional_secret) == encode_utf8(additional_secret)
            + secret + encode_utf8(resource.payme_transaction_id@) + encode_utf8(
            resource.payme_sale_id@,
        ),
{
    let text = decode_utf8(secret);
    lemma_encode_utf8_concat(text + resource.payme_transaction_id@, resource.payme_sale_id@);
    lemma_encode_utf8_concat(text, resource.payme_transaction_id@);
    decode_utf8_encode_utf8(secret);
    assert(signed_message(resource, secret, additional_secret) =~= encode_utf8(additional_secret)
        + secret + encode_utf8(resource.payme_transaction_id@) + encode_utf8(
        resource.payme_sale_id@,
    ));
}

/// A webhook that carries the hexadecimal text of its message's digest is taken
/// for genuine.
pub proof fn genuine_webhook_is_accepted<E>(
    resource: WebhookEventDataResource,
    secrets: ConnectorWebhookSecrets,
)
    requires
        secrets.additional_secret is Some,
    ensures
        ({
            let digest = md5_digest(
                signed_message(resource, secrets.secret@, secrets.additional_secret->0@),
            );
            verdict::<E>(hex_text(digest), Ok(resource), secrets) == Ok::<bool, ConnectorError>(
                true,
            )
        }),
{
    hex_reads_back(
        md5_digest(signed_message(resource, secrets.secret@, secrets.additional_secret->0@)),
    );
}

/// A webhook is taken for genuine only with the hexadecimal text of its message's
/// digest, in either case.
pub proof fn only_the_digest_is_accepted<E>(
    signature: Seq<u8>,
    resource: WebhookEventDataResource,
    secrets: ConnectorWebhookSecrets,
)
    requires
        secrets.additional_secret is Some,
    ensures
        ({
            let digest = md5_digest(
                signed_message(resource, secrets.secret@, secrets.additional_secret->0@),
            );
            verdict::<E>(signature, Ok(resource), secrets) == Ok::<bool, ConnectorError>(true)
                <==> hex_lowered(signature) == hex_text(digest)
        }),
{
    let digest = md5_digest(
        signed_message(resource, secrets.secret@, secrets.additional_secret->0@),
    );
    hex_case_is_ignored(signature);
    hex_reads_back(digest);
    if is_hex(signature) {
        hex_text_is_lowered(signature);
    }
}

/// The case in which a signature is written does not matter.
pub proof fn signature_case_is_ignored<E>(
    signature: Seq<u8>,
    resource: Result<WebhookEventDataResource, E>,
    secrets: ConnectorWebhookSecrets,
)
    ensures
        verdict(hex_lowered(signature), resource, secrets) == verdict(
            signature,
            resource,
            secrets,
        ),
{
    hex_case_is_ignored(signature);
}

/// Without the additional secret no webhook is taken for genuine.
pub proof fn additional_secret_is_needed<E>(
    signature: Seq<u8>,
    resource: Result<WebhookEventDataResource, E>,
    secrets: ConnectorWebhookSecrets,
)
    requires
        secrets.additional_secret is None,
    ensures
        verdict(signature, resource, secrets) == Err::<bool, ConnectorError>(
            ConnectorError::WebhookSourceVerificationFailed,
        ),
{
}

/// A webhook speaks of a refund exactly where it is shown as the reply to a
/// transaction query; its identifier is then the transaction that a dispute
/// payload made of it would name too.
pub proof fn refunds_are_named_by_transaction(
    resource: WebhookEventDataResource,
    payload: DisputePayload,
)
    requires
        disputes(payload, resource),
    ensures
        object_reference(resource) is RefundId
            <==> resource_object(resource) is PaymeQueryTransactionResponse,
        object_reference(resource) matches ObjectReferenceId::RefundId(
            RefundIdType::ConnectorRefundId(id),
        ) ==> id == payload.connector_dispute_id,
{
}

/// The amount of a dispute reads back as the price that the webhook names.
pub proof fn dispute_amount_reads_back(resource: WebhookEventDataResource, payload: DisputePayload)
    requires
        disputes(payload, resource),
    ensures
        decimal_value(payload.amount@) == resource.price.0,
{
    decimal_reads_back(resource.price.0 as int);
}

/// What a webhook carries is the decoded webhook itself, whatever it is shown as.
pub proof fn resource_object_keeps_resource(resource: WebhookEventDataResource)
    ensures
        match resource_object(resource) {
            WebhookResourceObject::PaymePaySaleResponse(r) => r == resource,
            WebhookResourceObject::PaymeQueryTransactionResponse(r) => r == resource,
            WebhookResourceObject::WebhookEventDataResource(r) => r == resource,
        },
{
}

} // verus!
