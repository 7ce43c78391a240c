use payme_router::errors::ConnectorError;
use payme_router::payme::Payme;
use payme_router::types::{
    AmountConversion, AmountConverter, AuthenticationType, BodyPlan, CallConnectorAction,
    CaptureMethod, ConnectorParams, Connectors, Currency, CurrencyUnit, ErrorEvent, ErrorResponse,
    Expected, Flow, FlowRequest, Maskable, Method, MinorUnit, PaymeErrorResponse, PaymentAction,
    PaymentMethodDataType, PaymentMethodType, Request, RequestContent, RequestStruct, Response,
    ResponseRouterData, ResponseStruct,
};

fn ils() -> Currency {
    Currency { code: "ILS".to_string() }
}

fn connectors() -> Connectors {
    Connectors { payme: ConnectorParams { base_url: "https://pay.example/".to_string() } }
}

fn requests() -> Vec<(FlowRequest, Flow, &'static str, RequestStruct, Option<i64>)> {
    vec![
        (
            FlowRequest::PaymentMethodToken { auth_type: AuthenticationType::ThreeDs },
            Flow::PaymentMethodToken,
            "api/capture-buyer-token",
            RequestStruct::CaptureBuyerRequest,
            None,
        ),
        (
            FlowRequest::PreProcessing { minor_amount: Ok(MinorUnit(100)), currency: Ok(ils()) },
            Flow::PreProcessing,
            "api/generate-sale",
            RequestStruct::GenerateSaleRequest,
            Some(100),
        ),
        (
            FlowRequest::CompleteAuthorize,
            Flow::CompleteAuthorize,
            "api/pay-sale",
            RequestStruct::Pay3dsRequest,
            None,
        ),
        (
            FlowRequest::Authorize {
                mandate_id: None,
                minor_amount: MinorUnit(200),
                currency: ils(),
            },
            Flow::Authorize,
            "api/pay-sale",
            RequestStruct::PaymePaymentRequest,
            Some(200),
        ),
        (
            FlowRequest::Authorize {
                mandate_id: Some("man_1".to_string()),
                minor_amount: MinorUnit(201),
                currency: ils(),
            },
            Flow::Authorize,
            "api/generate-sale",
            RequestStruct::PaymePaymentRequest,
            Some(201),
        ),
        (
            FlowRequest::PSync,
            Flow::PSync,
            "api/get-sales",
            RequestStruct::PaymeQuerySaleRequest,
            None,
        ),
        (
            FlowRequest::Capture { minor_amount_to_capture: MinorUnit(300), currency: ils() },
            Flow::Capture,
            "api/capture-sale",
            RequestStruct::PaymentCaptureRequest,
            Some(300),
        ),
        (
            FlowRequest::Void { minor_amount: Some(MinorUnit(400)), currency: Some(ils()) },
            Flow::Void,
            "api/refund-sale",
            RequestStruct::PaymeVoidRequest,
            Some(400),
        ),
        (
            FlowRequest::Execute { minor_refund_amount: MinorUnit(500), currency: ils() },
            Flow::Execute,
            "api/refund-sale",
            RequestStruct::PaymeRefundRequest,
            Some(500),
        ),
        (
            FlowRequest::RSync,
            Flow::RSync,
            "api/get-transactions",
            RequestStruct::PaymeQueryTransactionRequest,
            None,
        ),
    ]
}

#[test]
fn new_connector_has_the_converters_of_payme() {
    let payme = Payme::new();
    assert_eq!(payme.amount_converter, AmountConverter::MinorUnitForConnector);
    assert_eq!(
        payme.apple_pay_google_pay_amount_converter,
        AmountConverter::StringMajorUnitForConnector
    );
    assert_eq!(payme.id(), "payme");
    assert_eq!(payme.get_currency_unit(), CurrencyUnit::Minor);
    assert_eq!(payme.common_get_content_type(), "application/json");
    assert_eq!(payme.base_url(&connectors()), "https://pay.example/");
}

#[test]
fn every_flow_posts_json_to_its_endpoint() {
    let payme = Payme::new();
    for (req, flow, path, message, amount) in requests() {
        assert_eq!(req.flow(), flow);
        let built = payme.build_request(
            &req,
            &"payment",
            &connectors(),
            |c: AmountConversion| {
                assert_eq!(c.converter, AmountConverter::MinorUnitForConnector);
                assert_eq!(c.currency, ils());
                Ok(MinorUnit(c.amount.0 + 1))
            },
            |m: RequestStruct, a: Option<MinorUnit>, payment: &&str| {
                assert_eq!(*payment, "payment");
                Ok((m, a))
            },
        );
        assert_eq!(
            built,
            Ok(Some(Request {
                method: Method::Post,
                url: format!("https://pay.example/{}", path),
                default_headers: true,
                headers: vec![(
                    "Content-Type".to_string(),
                    Maskable::Normal("application/json".to_string())
                )],
                body: RequestContent::Json((message, amount.map(|a| MinorUnit(a + 1)))),
            }))
        );
    }
}

#[test]
fn tokenization_without_three_ds_sends_nothing() {
    let req = FlowRequest::PaymentMethodToken { auth_type: AuthenticationType::NoThreeDs };
    let built: Result<Option<Request<u8>>, ConnectorError> = Payme::new().build_request(
        &req,
        &(),
        &connectors(),
        |_c: AmountConversion| panic!("no amount"),
        |_m: RequestStruct, _a: Option<MinorUnit>, _p: &()| panic!("no body"),
    );
    assert_eq!(built, Ok(None));
}

#[test]
fn setup_mandate_is_not_implemented() {
    let built: Result<Option<Request<u8>>, ConnectorError> =
        Payme::new().build_setup_mandate_request();
    assert_eq!(built, Err(ConnectorError::NotImplemented("Setup Mandate flow for Payme")));
}

#[test]
fn void_needs_amount_and_currency() {
    let payme = Payme::new();
    let missing = Err(ConnectorError::MissingRequiredField { field_name: "amount" });
    let no_amount = FlowRequest::Void { minor_amount: None, currency: Some(ils()) };
    let no_currency = FlowRequest::Void { minor_amount: Some(MinorUnit(1)), currency: None };
    assert_eq!(payme.body_plan(&no_amount), missing);
    assert_eq!(payme.body_plan(&no_currency), missing);
    let body = FlowRequest::Void { minor_amount: Some(MinorUnit(1)), currency: Some(ils()) };
    assert_eq!(
        payme.body_plan(&body),
        Ok(BodyPlan {
            message: RequestStruct::PaymeVoidRequest,
            amount: Some(AmountConversion {
                converter: AmountConverter::MinorUnitForConnector,
                amount: MinorUnit(1),
                currency: ils(),
            }),
        })
    );
}

#[test]
fn body_errors_come_in_order() {
    let payme = Payme::new();
    let both = FlowRequest::PreProcessing {
        minor_amount: Err(ConnectorError::Other("amount".to_string())),
        currency: Err(ConnectorError::Other("currency".to_string())),
    };
    assert_eq!(payme.body_plan(&both), Err(ConnectorError::Other("amount".to_string())));
    let no_currency = FlowRequest::PreProcessing {
        minor_amount: Ok(MinorUnit(3)),
        currency: Err(ConnectorError::Other("currency".to_string())),
    };
    assert_eq!(payme.body_plan(&no_currency), Err(ConnectorError::Other("currency".to_string())));
    let refund = FlowRequest::Execute { minor_refund_amount: MinorUnit(1), currency: ils() };
    let r: Result<RequestContent<u8>, ConnectorError> = payme.get_request_body(
        &refund,
        &(),
        |_c: AmountConversion| Err(ConnectorError::Other("convert".to_string())),
        |_m: RequestStruct, _a: Option<MinorUnit>, _p: &()| panic!("not reached"),
    );
    assert_eq!(r, Err(ConnectorError::Other("convert".to_string())));
    let r: Result<RequestContent<u8>, ConnectorError> = payme.get_request_body(
        &refund,
        &(),
        |c: AmountConversion| Ok(c.amount),
        |_m: RequestStruct, _a: Option<MinorUnit>, _p: &()| Err(ConnectorError::Other("make".to_string())),
    );
    assert_eq!(r, Err(ConnectorError::Other("make".to_string())));
    let r: Result<Option<Request<u8>>, ConnectorError> = payme.build_request(
        &refund,
        &(),
        &connectors(),
        |c: AmountConversion| Ok(c.amount),
        |_m: RequestStruct, _a: Option<MinorUnit>, _p: &()| Err(ConnectorError::Other("make".to_string())),
    );
    assert_eq!(r, Err(ConnectorError::Other("make".to_string())));
}

#[test]
fn responses_are_read_as_expected() {
    let payme = Payme::new();
    let names = [
        ("Payme CaptureBuyerResponse", ResponseStruct::CaptureBuyerResponse),
        ("Payme GenerateSaleResponse", ResponseStruct::GenerateSaleResponse),
        ("Payme PaymePaySaleResponse", ResponseStruct::PaymePaySaleResponse),
        ("Payme PaymentsAuthorizeResponse", ResponseStruct::PaymePaySaleResponse),
        ("Payme PaymentsAuthorizeResponse", ResponseStruct::PaymePaySaleResponse),
        ("PaymePaymentsResponse", ResponseStruct::PaymePaymentsResponse),
        ("Payme PaymentsCaptureResponse", ResponseStruct::PaymePaySaleResponse),
        ("PaymeVoidResponse", ResponseStruct::PaymeVoidResponse),
        ("PaymeRefundResponse", ResponseStruct::PaymeRefundResponse),
        ("GetSalesResponse", ResponseStruct::PaymeQueryTransactionResponse),
    ];
    for ((req, flow, _, _, _), (name, message)) in requests().into_iter().zip(names) {
        let res = Response { response: b"body".to_vec(), status_code: 201 };
        let r = payme.handle_response(
            &req,
            "payment",
            &res,
            |bytes: &Vec<u8>, wanted: Expected| {
                assert_eq!(wanted, Expected { message, name });
                Ok::<usize, ()>(bytes.len())
            },
            |c: AmountConversion| {
                assert_eq!(c.converter, AmountConverter::StringMajorUnitForConnector);
                Ok(format!("{} {}", c.amount.0, c.currency.code))
            },
            |data: ResponseRouterData<usize, &'static str>| {
                assert_eq!(
                    data,
                    ResponseRouterData {
                        response: 4,
                        data: "payment",
                        http_code: 201,
                        apple_pay_amount: if flow == Flow::PreProcessing {
                            Some("100 ILS".to_string())
                        } else {
                            None
                        },
                    }
                );
                Ok("paid")
            },
        );
        assert_eq!(r, Ok("paid"));
    }
}

#[test]
fn response_errors_come_in_order() {
    let payme = Payme::new();
    let res = Response { response: Vec::new(), status_code: 200 };
    let broken = FlowRequest::PreProcessing {
        minor_amount: Err(ConnectorError::Other("amount".to_string())),
        currency: Ok(ils()),
    };
    let r: Result<u8, ConnectorError> = payme.handle_response(
        &broken,
        0,
        &res,
        |_b: &Vec<u8>, _w: Expected| Err::<u8, u8>(1),
        |_c: AmountConversion| panic!("not reached"),
        |_d: ResponseRouterData<u8, u8>| panic!("not reached"),
    );
    assert_eq!(r, Err(ConnectorError::ResponseDeserializationFailed));
    let r: Result<u8, ConnectorError> = payme.handle_response(
        &broken,
        0,
        &res,
        |_b: &Vec<u8>, _w: Expected| Ok::<u8, u8>(1),
        |_c: AmountConversion| panic!("not reached"),
        |_d: ResponseRouterData<u8, u8>| panic!("not reached"),
    );
    assert_eq!(r, Err(ConnectorError::Other("amount".to_string())));
    let whole =
        FlowRequest::PreProcessing { minor_amount: Ok(MinorUnit(1)), currency: Ok(ils()) };
    let r: Result<u8, ConnectorError> = payme.handle_response(
        &whole,
        0,
        &res,
        |_b: &Vec<u8>, _w: Expected| Ok::<u8, u8>(1),
        |_c: AmountConversion| Err(ConnectorError::Other("convert".to_string())),
        |_d: ResponseRouterData<u8, u8>| panic!("not reached"),
    );
    assert_eq!(r, Err(ConnectorError::Other("convert".to_string())));
    let r: Result<u8, ConnectorError> = payme.handle_response(
        &FlowRequest::PSync,
        0,
        &res,
        |_b: &Vec<u8>, _w: Expected| Ok::<u8, u8>(1),
        |_c: AmountConversion| panic!("not reached"),
        |_d: ResponseRouterData<u8, u8>| Err(ConnectorError::Other("transform".to_string())),
    );
    assert_eq!(r, Err(ConnectorError::Other("transform".to_string())));
}

fn refusal() -> PaymeErrorResponse {
    PaymeErrorResponse {
        status_error_code: 352,
        status_error_details: "declined".to_string(),
        status_additional_info: "card expired".to_string(),
    }
}

#[test]
fn errors_are_reported() {
    let payme = Payme::new();
    for (status, reported) in [(499, 499), (500, 200), (505, 200), (511, 200), (512, 512)] {
        let handled = payme.build_error_response(
            Response { response: b"{}".to_vec(), status_code: status },
            |_b: &Vec<u8>| Ok::<PaymeErrorResponse, ()>(refusal()),
            |_r: Response, _c: &'static str| panic!("not reached"),
        );
        assert_eq!(handled.event, ErrorEvent::ErrorResponseBody(refusal()));
        assert_eq!(
            handled.result,
            Ok(ErrorResponse {
                status_code: reported,
                code: "352".to_string(),
                message: "declined".to_string(),
                reason: Some("declined, additional info: card expired".to_string()),
                attempt_status: None,
                connector_transaction_id: None,
            })
        );
    }
}

#[test]
fn unreadable_errors_are_left_to_the_fallback() {
    let payme = Payme::new();
    let handled = payme.get_5xx_error_response(
        Response { response: b"<\n\x80".to_vec(), status_code: 500 },
        |_b: &Vec<u8>| Err::<PaymeErrorResponse, ()>(()),
        |r: Response, connector: &'static str| {
            assert_eq!(r.status_code, 500);
            Err(ConnectorError::Other(connector.to_string()))
        },
    );
    assert_eq!(
        handled.event,
        ErrorEvent::Error { error: "<\\n\\x80".to_string(), status_code: 500 }
    );
    assert_eq!(handled.result, Err(ConnectorError::Other("payme".to_string())));
}

#[test]
fn unreadable_errors_of_a_flow_are_left_to_the_fallback() {
    let payme = Payme::new();
    for (_, flow, _, _, _) in requests() {
        let handled = payme.get_error_response(
            flow,
            Response { response: b"no".to_vec(), status_code: 404 },
            |_b: &Vec<u8>| Err::<PaymeErrorResponse, ()>(()),
            |r: Response, connector: &'static str| {
                assert_eq!(r, Response { response: b"no".to_vec(), status_code: 404 });
                Err(ConnectorError::Other(connector.to_string()))
            },
        );
        if let Some(handled) = handled {
            assert_eq!(
                handled.event,
                ErrorEvent::Error { error: "no".to_string(), status_code: 404 }
            );
            assert_eq!(handled.result, Err(ConnectorError::Other("payme".to_string())));
        } else {
            assert_eq!(flow, Flow::PSync);
        }
    }
}

#[test]
fn responses_without_an_amount_are_not_handed_out() {
    let payme = Payme::new();
    let res = Response { response: b"sale".to_vec(), status_code: 200 };
    let without_currency = FlowRequest::PreProcessing {
        minor_amount: Ok(MinorUnit(1)),
        currency: Err(ConnectorError::Other("currency".to_string())),
    };
    let whole =
        FlowRequest::PreProcessing { minor_amount: Ok(MinorUnit(1)), currency: Ok(ils()) };
    for (req, error, calls) in [(without_currency, "currency", 0), (whole, "convert", 1)] {
        let mut converted = 0;
        let mut recorded = 0;
        let r: Result<u8, ConnectorError> = payme.handle_response(
            &req,
            0,
            &res,
            |_b: &Vec<u8>, _w: Expected| Ok::<u8, u8>(1),
            |_c: AmountConversion| {
                converted += 1;
                Err(ConnectorError::Other("convert".to_string()))
            },
            |d: ResponseRouterData<u8, u8>| {
                recorded += 1;
                Ok(d.data)
            },
        );
        assert_eq!(r, Err(ConnectorError::Other(error.to_string())));
        assert_eq!((converted, recorded), (calls, 0));
    }
}

#[test]
fn responses_are_read_before_they_are_transformed() {
    let payme = Payme::new();
    for (req, flow, _, _, _) in requests() {
        let res = Response { response: b"body".to_vec(), status_code: 202 };
        let read = payme.read_response(
            &req,
            &res,
            |bytes: &Vec<u8>, _w: Expected| Ok::<usize, ()>(bytes.len()),
            |c: AmountConversion| Ok(format!("{} {}", c.amount.0, c.currency.code)),
        );
        let amount = if flow == Flow::PreProcessing { Some("100 ILS".to_string()) } else { None };
        assert_eq!(read, Ok((4, amount.clone())));
        let r = payme.transform_response(
            "payment",
            202,
            (4, amount.clone()),
            |data: ResponseRouterData<usize, &'static str>| {
                assert_eq!(
                    data,
                    ResponseRouterData {
                        response: 4,
                        data: "payment",
                        http_code: 202,
                        apple_pay_amount: amount,
                    }
                );
                Err(ConnectorError::Other("transform".to_string()))
            },
        );
        assert_eq!(r, Err(ConnectorError::Other("transform".to_string())));
    }
}

#[test]
fn unread_responses_are_told_by_their_error() {
    let payme = Payme::new();
    let res = Response { response: b"body".to_vec(), status_code: 200 };
    let read = payme.read_response(
        &FlowRequest::RSync,
        &res,
        |_b: &Vec<u8>, _w: Expected| Err::<u8, u8>(1),
        |_c: AmountConversion| panic!("not reached"),
    );
    assert_eq!(read, Err(ConnectorError::ResponseDeserializationFailed));
    let without_amount = FlowRequest::PreProcessing {
        minor_amount: Err(ConnectorError::Other("amount".to_string())),
        currency: Err(ConnectorError::Other("currency".to_string())),
    };
    let read = payme.read_response(
        &without_amount,
        &res,
        |_b: &Vec<u8>, _w: Expected| Ok::<u8, u8>(1),
        |_c: AmountConversion| panic!("not reached"),
    );
    assert_eq!(read, Err(ConnectorError::Other("amount".to_string())));
    let whole =
        FlowRequest::PreProcessing { minor_amount: Ok(MinorUnit(1)), currency: Ok(ils()) };
    let read = payme.read_response(
        &whole,
        &res,
        |_b: &Vec<u8>, _w: Expected| Ok::<u8, u8>(1),
        |_c: AmountConversion| Err(ConnectorError::Other("convert".to_string())),
    );
    assert_eq!(read, Err(ConnectorError::Other("convert".to_string())));
}

#[test]
fn only_sync_has_no_error_answer() {
    let payme = Payme::new();
    for (_, flow, _, _, _) in requests() {
        let handled = payme.get_error_response(
            flow,
            Response { response: Vec::new(), status_code: 400 },
            |_b: &Vec<u8>| Ok::<PaymeErrorResponse, ()>(refusal()),
            |_r: Response, _c: &'static str| panic!("not reached"),
        );
        assert_eq!(handled.is_none(), flow == Flow::PSync);
    }
}

#[test]
fn capture_methods_are_validated() {
    let payme = Payme::new();
    for method in
        [CaptureMethod::Automatic, CaptureMethod::Manual, CaptureMethod::SequentialAutomatic]
    {
        assert_eq!(payme.validate_connector_against_payment_request(Some(method)), Ok(()));
    }
    assert_eq!(payme.validate_connector_against_payment_request(None), Ok(()));
    for capture_method in [CaptureMethod::ManualMultiple, CaptureMethod::Scheduled] {
        assert_eq!(
            payme.validate_connector_against_payment_request(Some(capture_method)),
            Err(ConnectorError::CaptureMethodNotSupported { capture_method, connector: "payme" })
        );
    }
}

#[test]
fn mandates_are_validated() {
    let payme = Payme::new();
    let kind = PaymentMethodType { name: "credit".to_string() };
    assert_eq!(
        payme.validate_mandate_payment(Some(kind.clone()), PaymentMethodDataType::Card),
        Ok(())
    );
    assert_eq!(
        payme.validate_mandate_payment(None, PaymentMethodDataType::ApplePayThirdPartySdk),
        Ok(())
    );
    assert_eq!(
        payme.validate_mandate_payment(Some(kind.clone()), PaymentMethodDataType::Other),
        Err(ConnectorError::MandateNotSupported {
            payment_method_type: Some(kind),
            connector: "payme"
        })
    );
}

#[test]
fn redirections_trigger_the_connector() {
    let payme = Payme::new();
    for action in [
        PaymentAction::PSync,
        PaymentAction::CompleteAuthorize,
        PaymentAction::PaymentAuthenticateCompleteAuthorize,
    ] {
        assert_eq!(payme.get_flow_type(action), Ok(CallConnectorAction::Trigger));
    }
}
