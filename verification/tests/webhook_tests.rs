use payme_router::codec::sole_field;
use payme_router::errors::ConnectorError;
use payme_router::payme::Payme;
use payme_router::types::{Currency, MinorUnit};
use payme_router::webhooks::{
    ConnectorWebhookSecrets, CryptoError, DisputePayload, DisputeStage, NotifyType,
    ObjectReferenceId, PaymentIdType, RefundIdType, SignatureAlgorithm, SignatureCheck,
    WebhookEventDataResource, WebhookResourceObject,
};

const DIGEST: &str = "bc225fbcb27ccebf9bb5f923509965f4";

fn resource(notify_type: NotifyType) -> WebhookEventDataResource {
    WebhookEventDataResource {
        notify_type,
        payme_sale_id: "S1".to_string(),
        payme_transaction_id: "T1".to_string(),
        price: MinorUnit(-1050),
        currency: Currency { code: "ILS".to_string() },
        sale_status: "completed".to_string(),
    }
}

fn secrets() -> ConnectorWebhookSecrets {
    ConnectorWebhookSecrets {
        secret: b"secret".to_vec(),
        additional_secret: Some("add".to_string()),
    }
}

fn verify(body: &str, secrets: ConnectorWebhookSecrets) -> Result<bool, ConnectorError> {
    Payme::new().verify_webhook_source(body.as_bytes(), Ok::<_, ()>(secrets), |b: &[u8]| {
        assert_eq!(b, body.as_bytes());
        Ok::<WebhookEventDataResource, ()>(resource(NotifyType::SaleComplete))
    })
}

#[test]
fn genuine_webhooks_are_accepted() {
    assert_eq!(verify(&format!("a=b&payme_signature={}", DIGEST), secrets()), Ok(true));
    assert_eq!(verify(&format!("payme%5Fsignature={}&c", DIGEST), secrets()), Ok(true));
    let upper = DIGEST.to_uppercase();
    assert_eq!(verify(&format!("payme_signature={}", upper), secrets()), Ok(true));
}

#[test]
fn other_signatures_are_not_accepted() {
    assert_eq!(
        verify("payme_signature=00225fbcb27ccebf9bb5f923509965f4", secrets()),
        Ok(false)
    );
    assert_eq!(verify("payme_signature=", secrets()), Ok(false));
    let mut other = secrets();
    other.secret = b"other".to_vec();
    assert_eq!(verify(&format!("payme_signature={}", DIGEST), other), Ok(false));
}

#[test]
fn secrets_that_are_no_utf8_are_read_lossily() {
    let mut broken = secrets();
    broken.secret = b"s\xff".to_vec();
    assert_eq!(verify("payme_signature=c4792bde3262bd0f7fda31ebf8b82f83", broken), Ok(true));
}

#[test]
fn signatures_that_are_no_hex_are_refused() {
    let refused = Err(ConnectorError::WebhookResponseEncodingFailed);
    assert_eq!(verify("payme_signature=abc", secrets()), refused);
    assert_eq!(verify("payme_signature=zz", secrets()), refused);
    assert_eq!(verify("payme_signature=%C3%A9", secrets()), refused);
}

#[test]
fn webhooks_need_a_sole_signature() {
    let refused = Err(ConnectorError::WebhookSourceVerificationFailed);
    assert_eq!(verify("a=b", secrets()), refused);
    assert_eq!(verify("", secrets()), refused);
    let twice = format!("payme_signature={}&payme_signature={}", DIGEST, DIGEST);
    assert_eq!(verify(&twice, secrets()), refused);
}

#[test]
fn webhooks_need_the_secrets_and_a_readable_body() {
    let refused = Err(ConnectorError::WebhookSourceVerificationFailed);
    let body = format!("payme_signature={}", DIGEST);
    let mut lacking = secrets();
    lacking.additional_secret = None;
    assert_eq!(verify(&body, lacking), refused);
    let payme = Payme::new();
    let none = payme.verify_webhook_source(
        body.as_bytes(),
        Err::<ConnectorWebhookSecrets, u8>(3),
        |_b: &[u8]| -> Result<WebhookEventDataResource, ()> { panic!("not reached") },
    );
    assert_eq!(none, refused);
    let unreadable = payme.verify_webhook_source(
        body.as_bytes(),
        Ok::<ConnectorWebhookSecrets, u8>(secrets()),
        |_b: &[u8]| Err::<WebhookEventDataResource, ()>(()),
    );
    assert_eq!(unreadable, refused);
}

#[test]
fn signature_is_read_from_the_form() {
    let payme = Payme::new();
    assert_eq!(
        payme.get_webhook_source_verification_signature(b"x=1&payme_signature=a%2Bb+c"),
        Ok(b"a+b c".to_vec())
    );
    assert_eq!(
        payme.get_webhook_source_verification_signature(b"x=1"),
        Err(ConnectorError::WebhookBodyDecodingFailed)
    );
    let pairs = vec![
        ("payme_signature".to_string(), "\u{e9}".to_string()),
        ("other".to_string(), "x".to_string()),
    ];
    assert_eq!(payme.signature_in_form(&pairs), Ok(vec![0xc3, 0xa9]));
    assert_eq!(sole_field(&pairs, "other"), Some("x".to_string()));
    assert_eq!(sole_field(&pairs, "absent"), None);
}

#[test]
fn message_is_secret_transaction_and_sale() {
    let payme = Payme::new();
    let message = payme.get_webhook_source_verification_message(b"body", &secrets(), |b: &[u8]| {
        assert_eq!(b, b"body");
        Ok::<WebhookEventDataResource, ()>(resource(NotifyType::Refund))
    });
    assert_eq!(message, Ok(b"secretT1S1".to_vec()));
    let message = payme.get_webhook_source_verification_message(b"body", &secrets(), |_b: &[u8]| {
        Err::<WebhookEventDataResource, ()>(())
    });
    assert_eq!(message, Err(ConnectorError::WebhookBodyDecodingFailed));
}

#[test]
fn message_of_a_decoded_secret() {
    let payme = Payme::new();
    assert_eq!(
        payme.message_of_text("s\u{e9}".to_string(), &resource(NotifyType::Refund)),
        b"s\xc3\xa9T1S1".to_vec()
    );
    assert_eq!(
        payme.message_of_text(String::new(), &resource(NotifyType::SaleComplete)),
        b"T1S1".to_vec()
    );
}

#[test]
fn digests_are_compared_with_signatures() {
    let md5 = SignatureAlgorithm::Md5;
    assert!(md5.digest_matches(&vec![1, 2], &vec![1, 2]));
    assert!(md5.digest_matches(&Vec::new(), &Vec::new()));
    assert!(!md5.digest_matches(&vec![1, 2], &vec![2, 1]));
    assert!(!md5.digest_matches(&vec![1, 2], &vec![1, 2, 3]));
    assert!(!md5.digest_matches(&vec![1, 2], &Vec::new()));
}

#[test]
fn checks_are_put_together() {
    let payme = Payme::new();
    let check = payme.signature_check(b"0aFf".to_vec(), b"msg".to_vec(), secrets());
    assert_eq!(
        check,
        Ok(SignatureCheck {
            secret: b"secret".to_vec(),
            signature: vec![10, 255],
            message: b"addmsg".to_vec(),
        })
    );
    assert_eq!(
        payme.get_webhook_source_verification_algorithm(),
        Ok(SignatureAlgorithm::Md5)
    );
    assert_eq!(payme.verification_outcome(Ok(false)), Ok(false));
    assert_eq!(
        payme.verification_outcome(Err(CryptoError::SignatureVerificationFailed)),
        Err(ConnectorError::WebhookSourceVerificationFailed)
    );
}

#[test]
fn md5_of_the_empty_message() {
    let check = SignatureCheck {
        secret: Vec::new(),
        signature: vec![
            0xd4, 0x1d, 0x8c, 0xd9, 0x8f, 0x00, 0xb2, 0x04, 0xe9, 0x80, 0x09, 0x98, 0xec, 0xf8,
            0x42, 0x7e,
        ],
        message: Vec::new(),
    };
    assert_eq!(SignatureAlgorithm::Md5.verify_signature(&check), Ok(true));
}

const KINDS: [NotifyType; 6] = [
    NotifyType::SaleComplete,
    NotifyType::SaleAuthorized,
    NotifyType::Refund,
    NotifyType::SaleFailure,
    NotifyType::SaleChargeback,
    NotifyType::SaleChargebackRefund,
];

#[test]
fn references_name_the_sale_or_the_refund() {
    let payme = Payme::new();
    for kind in KINDS {
        let id = payme.get_webhook_object_reference_id(b"body", |_b: &[u8]| {
            Ok::<WebhookEventDataResource, ()>(resource(kind))
        });
        let expected = if kind == NotifyType::Refund {
            ObjectReferenceId::RefundId(RefundIdType::ConnectorRefundId("T1".to_string()))
        } else {
            ObjectReferenceId::PaymentId(PaymentIdType::ConnectorTransactionId("S1".to_string()))
        };
        assert_eq!(id, Ok(expected));
    }
    let id = payme.get_webhook_object_reference_id(b"body", |_b: &[u8]| {
        Err::<WebhookEventDataResource, ()>(())
    });
    assert_eq!(id, Err(ConnectorError::WebhookBodyDecodingFailed));
}

#[test]
fn resource_objects_go_by_kind() {
    let payme = Payme::new();
    for kind in KINDS {
        let object = payme.get_webhook_resource_object(b"body", |_b: &[u8]| {
            Ok::<WebhookEventDataResource, ()>(resource(kind))
        });
        let expected = match kind {
            NotifyType::SaleComplete | NotifyType::SaleAuthorized | NotifyType::SaleFailure => {
                WebhookResourceObject::PaymePaySaleResponse(resource(kind))
            }
            NotifyType::Refund => {
                WebhookResourceObject::PaymeQueryTransactionResponse(resource(kind))
            }
            NotifyType::SaleChargeback | NotifyType::SaleChargebackRefund => {
                WebhookResourceObject::WebhookEventDataResource(resource(kind))
            }
        };
        assert_eq!(object, Ok(expected));
    }
    let object = payme.get_webhook_resource_object(b"body", |_b: &[u8]| {
        Err::<WebhookEventDataResource, ()>(())
    });
    assert_eq!(object, Err(ConnectorError::WebhookBodyDecodingFailed));
}

#[test]
fn event_types_are_those_of_the_kind() {
    let payme = Payme::new();
    let event = payme.get_webhook_event_type(
        b"body",
        |_b: &[u8]| Ok::<NotifyType, ()>(NotifyType::Refund),
        |kind: NotifyType| kind == NotifyType::Refund,
    );
    assert_eq!(event, Ok(true));
    let event = payme.get_webhook_event_type(
        b"body",
        |_b: &[u8]| Err::<NotifyType, ()>(()),
        |_kind: NotifyType| -> bool { panic!("not reached") },
    );
    assert_eq!(event, Err(ConnectorError::WebhookBodyDecodingFailed));
}

#[test]
fn disputes_are_read() {
    let payme = Payme::new();
    let payload = payme.get_dispute_details(b"body", |_b: &[u8]| {
        Ok::<WebhookEventDataResource, ()>(resource(NotifyType::SaleChargeback))
    });
    assert_eq!(
        payload,
        Ok(DisputePayload {
            amount: "-1050".to_string(),
            currency: Currency { code: "ILS".to_string() },
            dispute_stage: DisputeStage::Dispute,
            connector_status: "completed".to_string(),
            connector_dispute_id: "T1".to_string(),
            connector_reason: None,
            connector_reason_code: None,
            challenge_required_by: None,
            created_at: None,
            updated_at: None,
        })
    );
    let payload = payme
        .get_dispute_details(b"body", |_b: &[u8]| Err::<WebhookEventDataResource, ()>(()));
    assert_eq!(payload, Err(ConnectorError::WebhookBodyDecodingFailed));
}
