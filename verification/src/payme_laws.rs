//! What holds of the PayMe connector as a whole.

use crate::errors::ConnectorError;
use crate::payme::{endpoint, expected, is_sent, reported_status, reports, Payme};
use crate::text::{decimal, escape_ascii};
use crate::types::{
    AmountConversion, AmountConverter, AuthenticationType, BodyPlan, CallConnectorAction,
    CaptureMethod, Connectors, Currency, CurrencyUnit, ErrorEvent, ErrorResponse, Expected, Flow,
    FlowRequest, HandledError, Maskable, Method, MinorUnit, PaymeErrorResponse, PaymentAction,
    PaymentMethodDataType, PaymentMethodType, Request, RequestContent, RequestStruct, Response,
    ResponseRouterData, ResponseStruct,
};
use vstd::prelude::*;

verus! {

/// A payment is voided at the endpoint where it would be refunded.
pub proof fn voids_are_refunds(
    amount: Option<MinorUnit>,
    currency: Option<Currency>,
    refund: MinorUnit,
    refund_currency: Currency,
)
    ensures
        endpoint(FlowRequest::Void { minor_amount: amount, currency }) == endpoint(
            FlowRequest::Execute { minor_refund_amount: refund, currency: refund_currency },
        ),
{
}

/// A recurring payment on a mandate goes where sales are generated; a payment
/// without one goes where a buyer pays a sale after authentication.
pub proof fn recurring_payments_generate_sales(
    mandate_id: Option<String>,
    minor_amount: MinorUnit,
    currency: Currency,
    looked_up_amount: Result<MinorUnit, ConnectorError>,
    looked_up_currency: Result<Currency, ConnectorError>,
)
    ensures
        ({
            let payment = FlowRequest::Authorize { mandate_id, minor_amount, currency };
            let sale = FlowRequest::PreProcessing {
                minor_amount: looked_up_amount,
                currency: looked_up_currency,
            };
            if mandate_id is Some {
                endpoint(payment) == endpoint(sale)
            } else {
                endpoint(payment) == endpoint(FlowRequest::CompleteAuthorize)
            }
        }),
{
}

/// An amount that goes to PayMe is the one of the request, in the currency of the
/// request, by the converter that the connector was made with.
pub proof fn amounts_are_those_of_the_request(payme: Payme, req: FlowRequest)
    ensures
        payme.spec_body_plan(req) matches Ok(BodyPlan { amount: Some(conversion), .. }) ==> {
            &&& conversion.converter == payme.amount_converter
            &&& match req {
                FlowRequest::PreProcessing { minor_amount, currency } => minor_amount == Ok::<
                    MinorUnit,
                    ConnectorError,
                >(conversion.amount) && currency == Ok::<Currency, ConnectorError>(
                    conversion.currency,
                ),
                FlowRequest::Authorize { minor_amount, currency, .. } => minor_amount
                    == conversion.amount && currency == conversion.currency,
                FlowRequest::Capture { minor_amount_to_capture, currency } =>
                minor_amount_to_capture == conversion.amount && currency == conversion.currency,
                FlowRequest::Void { minor_amount, currency } => minor_amount == Some(
                    conversion.amount,
                ) && currency == Some(conversion.currency),
                FlowRequest::Execute { minor_refund_amount, currency } => minor_refund_amount
                    == conversion.amount && currency == conversion.currency,
                _ => false,
            }
        },
{
}

/// A request is planned wherever the request has its amount and its currency, and
/// every flow that moves money converts an amount.
pub proof fn bodies_are_planned(payme: Payme, req: FlowRequest)
    ensures
        payme.spec_body_plan(req) is Err <==> (match req {
            FlowRequest::PreProcessing { minor_amount, currency } => minor_amount is Err
                || currency is Err,
            FlowRequest::Void { minor_amount, currency } => minor_amount is None
                || currency is None,
            _ => false,
        }),
        payme.spec_body_plan(req) matches Ok(plan) ==> (plan.amount is Some <==> (req
            is PreProcessing || req is Authorize || req is Capture || req is Void || req
            is Execute)),
{
}

/// Each flow has a message of its own.
pub proof fn messages_tell_flows_apart(payme: Payme, a: FlowRequest, b: FlowRequest)
    requires
        payme.spec_body_plan(a) is Ok,
        payme.spec_body_plan(b) is Ok,
    ensures
        payme.spec_body_plan(a)->Ok_0.message == payme.spec_body_plan(b)->Ok_0.message
            <==> a.spec_flow() == b.spec_flow(),
{
}

/// A wallet is shown the same amount, in the same currency, that the sale before
/// it was generated with.
pub proof fn wallets_are_shown_the_amount_of_the_sale(payme: Payme, req: FlowRequest)
    requires
        req is PreProcessing,
    ensures
        match (payme.spec_body_plan(req), payme.spec_wallet_amount(req)) {
            (Ok(plan), Some(Ok(shown))) => plan.amount matches Some(sent) && sent.amount
                == shown.amount && sent.currency == shown.currency && shown.converter
                == payme.apple_pay_google_pay_amount_converter,
            (Err(a), Some(Err(b))) => a == b,
            _ => false,
        },
{
}

/// Only the flow that prepares a sale shows a wallet an amount.
pub proof fn only_pre_processing_shows_an_amount(payme: Payme, req: FlowRequest)
    ensures
        payme.spec_wallet_amount(req) is Some <==> req is PreProcessing,
{
}

/// Sales that are paid, authorized or captured are answered alike.
pub proof fn sales_are_answered_alike(flow: Flow)
    ensures
        expected(flow).message == ResponseStruct::PaymePaySaleResponse <==> (flow
            == Flow::CompleteAuthorize || flow == Flow::Authorize || flow == Flow::Capture),
{
}

/// No error is reported as one of the server errors that PayMe answers with, and
/// any other status is kept.
pub proof fn server_errors_are_answers(
    error: ErrorResponse,
    data: PaymeErrorResponse,
    status_code: u16,
)
    requires
        reports(error, data, status_code),
    ensures
        !(500 <= error.status_code <= 511),
        !(500 <= status_code <= 511) ==> error.status_code == status_code,
        500 <= status_code <= 511 ==> error.status_code == 200,
        reported_status(error.status_code) == error.status_code,
{
}

/// Errors with different codes are reported with different codes.
pub proof fn error_codes_are_told_apart(
    a: ErrorResponse,
    b: ErrorResponse,
    a_data: PaymeErrorResponse,
    b_data: PaymeErrorResponse,
    a_status: u16,
    b_status: u16,
)
    requires
        reports(a, a_data, a_status),
        reports(b, b_data, b_status),
        a.code@ == b.code@,
    ensures
        a_data.status_error_code == b_data.status_error_code,
{
    crate::text::decimal_is_injective(
        a_data.status_error_code as int,
        b_data.status_error_code as int,
    );
}

/// A payment method is tokenized, and so a request sent, for 3-D Secure buyers
/// only; every other flow sends its request.
pub proof fn only_plain_tokenization_is_skipped(req: FlowRequest)
    ensures
        !is_sent(req) <==> req == (FlowRequest::PaymentMethodToken {
            auth_type: AuthenticationType::NoThreeDs,
        }),
{
}

/// The connector is called `payme`, counts in minor units, talks JSON, is sent amounts
/// in minor units, and shows wallets texts in the major unit.
pub proof fn connector_is_payme(
    payme: Payme,
    fresh: Payme,
    id: &'static str,
    unit: CurrencyUnit,
    common: &'static str,
    content_type: &'static str,
)
    requires
        call_ensures(Payme::new, (), fresh),
        call_ensures(Payme::id, (&payme,), id),
        call_ensures(Payme::get_currency_unit, (&payme,), unit),
        call_ensures(Payme::common_get_content_type, (&payme,), common),
        call_ensures(Payme::get_content_type, (&payme,), content_type),
    ensures
        fresh.amount_converter == AmountConverter::MinorUnitForConnector,
        fresh.apple_pay_google_pay_amount_converter
            == AmountConverter::StringMajorUnitForConnector,
        id@ == "payme"@,
        unit == CurrencyUnit::Minor,
        common@ == "application/json"@,
        content_type@ == "application/json"@,
{
}

/// Every message has one header, in plain sight, which announces JSON.
pub proof fn headers_announce_json(
    payme: Payme,
    built: Vec<(String, Maskable)>,
    headers: Vec<(String, Maskable)>,
)
    requires
        call_ensures(Payme::build_headers, (&payme,), built),
        call_ensures(Payme::get_headers, (&payme,), headers),
    ensures
        built@.len() == 1 && headers@.len() == 1,
        built@[0].0@ == "Content-Type"@ && headers@[0].0@ == "Content-Type"@,
        built@[0].1 matches Maskable::Normal(value) && value@ == "application/json"@,
        headers@[0].1 matches Maskable::Normal(value) && value@ == "application/json"@,
{
}

/// A request goes to the base URL, followed by the path of what it does, whatever its
/// amount and its currency. A payment on a mandate generates a sale, and any other pays
/// one; a void is a refund.
pub proof fn requests_go_where_their_flow_says(
    payme: Payme,
    req: FlowRequest,
    connectors: Connectors,
    base: &str,
    url: String,
)
    requires
        call_ensures(Payme::base_url, (&payme, &connectors), base),
        call_ensures(Payme::get_url, (&payme, &req, &connectors), url),
    ensures
        base@ == connectors.payme.base_url@,
        req is PaymentMethodToken ==> url@ == base@ + "api/capture-buyer-token"@,
        req is PreProcessing ==> url@ == base@ + "api/generate-sale"@,
        req is CompleteAuthorize ==> url@ == base@ + "api/pay-sale"@,
        req matches FlowRequest::Authorize { mandate_id: Some(_), .. } ==> url@ == base@
            + "api/generate-sale"@,
        req matches FlowRequest::Authorize { mandate_id: None, .. } ==> url@ == base@
            + "api/pay-sale"@,
        req is PSync ==> url@ == base@ + "api/get-sales"@,
        req is Capture ==> url@ == base@ + "api/capture-sale"@,
        req is Void ==> url@ == base@ + "api/refund-sale"@,
        req is Execute ==> url@ == base@ + "api/refund-sale"@,
        req is RSync ==> url@ == base@ + "api/get-transactions"@,
{
}

/// Two requests of the same flow go to the same place, authorizations where both are on
/// a mandate or neither is.
pub proof fn urls_go_by_the_flow_alone(
    payme: Payme,
    a: FlowRequest,
    b: FlowRequest,
    connectors: Connectors,
    flow_a: Flow,
    flow_b: Flow,
    url_a: String,
    url_b: String,
)
    requires
        call_ensures(FlowRequest::flow, (&a,), flow_a),
        call_ensures(FlowRequest::flow, (&b,), flow_b),
        call_ensures(Payme::get_url, (&payme, &a, &connectors), url_a),
        call_ensures(Payme::get_url, (&payme, &b, &connectors), url_b),
        flow_a == flow_b,
        a is Authorize ==> (a->Authorize_mandate_id is Some <==> b->Authorize_mandate_id is Some),
    ensures
        url_a@ == url_b@,
{
}

/// Money is taken and given back at different places: no capture, and no payment, goes
/// where refunds go.
pub proof fn captures_never_go_where_refunds_go(
    payme: Payme,
    taken: FlowRequest,
    given_back: FlowRequest,
    connectors: Connectors,
    url_taken: String,
    url_given_back: String,
)
    requires
        taken is Capture || taken is Authorize || taken is CompleteAuthorize || taken
            is PreProcessing,
        given_back is Execute || given_back is Void,
        call_ensures(Payme::get_url, (&payme, &taken, &connectors), url_taken),
        call_ensures(Payme::get_url, (&payme, &given_back, &connectors), url_given_back),
    ensures
        url_taken@ != url_given_back@,
{
    reveal_strlit("api/generate-sale");
    reveal_strlit("api/pay-sale");
    reveal_strlit("api/capture-sale");
    reveal_strlit("api/refund-sale");
    assert("api/generate-sale"@.len() == 17);
    assert("api/pay-sale"@.len() == 12);
    assert("api/capture-sale"@.len() == 16);
    assert("api/refund-sale"@.len() == 15);
    let base = connectors.payme.base_url@.len();
    assert(url_given_back@.len() == base + 15);
    assert(url_taken@.len() != base + 15);
}

/// A flow that moves no money sends a message of its own without an amount.
pub proof fn queries_and_tokens_carry_no_amount(
    payme: Payme,
    req: FlowRequest,
    plan: Result<BodyPlan, ConnectorError>,
)
    requires
        call_ensures(Payme::body_plan, (&payme, &req), plan),
    ensures
        req is PaymentMethodToken ==> (plan matches Ok(p) && p.message
            == RequestStruct::CaptureBuyerRequest && p.amount is None),
        req is CompleteAuthorize ==> (plan matches Ok(p) && p.message
            == RequestStruct::Pay3dsRequest && p.amount is None),
        req is PSync ==> (plan matches Ok(p) && p.message == RequestStruct::PaymeQuerySaleRequest
            && p.amount is None),
        req is RSync ==> (plan matches Ok(p) && p.message
            == RequestStruct::PaymeQueryTransactionRequest && p.amount is None),
{
}

/// A flow that moves money sends a message of its own with exactly the amount of the
/// request, in its currency, by the converter that the connector was made with. Where the
/// amount or the currency is missing, the error says so.
pub proof fn payments_carry_their_own_amount(
    payme: Payme,
    req: FlowRequest,
    plan: Result<BodyPlan, ConnectorError>,
)
    requires
        call_ensures(Payme::body_plan, (&payme, &req), plan),
    ensures
        req matches FlowRequest::Authorize { minor_amount, currency, .. } ==> (
        plan matches Ok(BodyPlan { message, amount: Some(sent) }) && message
            == RequestStruct::PaymePaymentRequest && sent.amount == minor_amount && sent.currency
            == currency && sent.converter == payme.amount_converter),
        req matches FlowRequest::Capture { minor_amount_to_capture, currency } ==> (
        plan matches Ok(BodyPlan { message, amount: Some(sent) }) && message
            == RequestStruct::PaymentCaptureRequest && sent.amount == minor_amount_to_capture
            && sent.currency == currency && sent.converter == payme.amount_converter),
        req matches FlowRequest::Execute { minor_refund_amount, currency } ==> (
        plan matches Ok(BodyPlan { message, amount: Some(sent) }) && message
            == RequestStruct::PaymeRefundRequest && sent.amount == minor_refund_amount
            && sent.currency == currency && sent.converter == payme.amount_converter),
        req matches FlowRequest::Void {
            minor_amount: Some(minor_amount),
            currency: Some(currency),
        } ==> (plan matches Ok(BodyPlan { message, amount: Some(sent) }) && message
            == RequestStruct::PaymeVoidRequest && sent.amount == minor_amount && sent.currency
            == currency && sent.converter == payme.amount_converter),
        req matches FlowRequest::Void { minor_amount, currency } ==> (minor_amount is None
            || currency is None ==> (
        plan matches Err(ConnectorError::MissingRequiredField { field_name }) && field_name@
            == "amount"@)),
        req matches FlowRequest::PreProcessing {
            minor_amount: Ok(minor_amount),
            currency: Ok(currency),
        } ==> (plan matches Ok(BodyPlan { message, amount: Some(sent) }) && message
            == RequestStruct::GenerateSaleRequest && sent.amount == minor_amount && sent.currency
            == currency && sent.converter == payme.amount_converter),
        req matches FlowRequest::PreProcessing { minor_amount: Err(e), .. } ==> plan == Err::<
            BodyPlan,
            ConnectorError,
        >(e),
        req matches FlowRequest::PreProcessing { minor_amount: Ok(_), currency: Err(e) } ==> plan
            == Err::<BodyPlan, ConnectorError>(e),
{
}

/// The body of a request whose message has an amount: the error of the plan or of the
/// conversion, else the JSON that is made of the message, the converted amount and the
/// payment, or the error of making it.
pub proof fn body_with_an_amount_is_made<A, B, C, T>(
    payme: Payme,
    req: FlowRequest,
    payment: A,
    convert: C,
    transform: T,
    plan: Result<BodyPlan, ConnectorError>,
    converted: Result<MinorUnit, ConnectorError>,
    made: Result<B, ConnectorError>,
    r: Result<RequestContent<B>, ConnectorError>,
) where
    C: FnOnce(AmountConversion) -> Result<MinorUnit, ConnectorError>,
    T: FnOnce(RequestStruct, Option<MinorUnit>, &A) -> Result<B, ConnectorError>,

    requires
        call_ensures(Payme::body_plan, (&payme, &req), plan),
        call_ensures(
            Payme::get_request_body::<A, B, C, T>,
            (&payme, &req, &payment, convert, transform),
            r,
        ),
        plan matches Ok(p) ==> {
            &&& p.amount is Some
            &&& forall|out: Result<MinorUnit, ConnectorError>| #[trigger]
                convert.ensures((p.amount->0,), out) ==> out == converted
            &&& converted matches Ok(amount) ==> forall|out: Result<B, ConnectorError>| #[trigger]
                transform.ensures((p.message, Some(amount), &payment), out) ==> out == made
        },
    ensures
        match (plan, converted, made) {
            (Err(e), _, _) => r == Err::<RequestContent<B>, ConnectorError>(e),
            (Ok(_), Err(e), _) => r == Err::<RequestContent<B>, ConnectorError>(e),
            (Ok(_), Ok(_), Err(e)) => r == Err::<RequestContent<B>, ConnectorError>(e),
            (Ok(_), Ok(_), Ok(body)) => r == Ok::<RequestContent<B>, ConnectorError>(
                RequestContent::Json(body),
            ),
        },
{
}

/// The body of a request whose message has no amount: the JSON that is made of the
/// message and the payment, or the error of making it.
pub proof fn body_without_an_amount_is_made<A, B, C, T>(
    payme: Payme,
    req: FlowRequest,
    payment: A,
    convert: C,
    transform: T,
    plan: BodyPlan,
    made: Result<B, ConnectorError>,
    r: Result<RequestContent<B>, ConnectorError>,
) where
    C: FnOnce(AmountConversion) -> Result<MinorUnit, ConnectorError>,
    T: FnOnce(RequestStruct, Option<MinorUnit>, &A) -> Result<B, ConnectorError>,

    requires
        call_ensures(Payme::body_plan, (&payme, &req), Ok::<BodyPlan, ConnectorError>(plan)),
        call_ensures(
            Payme::get_request_body::<A, B, C, T>,
            (&payme, &req, &payment, convert, transform),
            r,
        ),
        plan.amount is None,
        forall|out: Result<B, ConnectorError>| #[trigger]
            transform.ensures((plan.message, None::<MinorUnit>, &payment), out) ==> out == made,
    ensures
        match made {
            Err(e) => r == Err::<RequestContent<B>, ConnectorError>(e),
            Ok(body) => r == Ok::<RequestContent<B>, ConnectorError>(RequestContent::Json(body)),
        },
{
}

/// A request whose message has an amount is posted to the request's URL, with the default
/// headers and the one that announces JSON, and carries the JSON that is made of its
/// message, its converted amount and the payment; where that cannot be made, its error is
/// told.
pub proof fn request_with_an_amount_is_posted<A, B, C, T>(
    payme: Payme,
    req: FlowRequest,
    payment: A,
    connectors: Connectors,
    convert: C,
    transform: T,
    url: String,
    plan: Result<BodyPlan, ConnectorError>,
    converted: Result<MinorUnit, ConnectorError>,
    made: Result<B, ConnectorError>,
    r: Result<Option<Request<B>>, ConnectorError>,
) where
    C: FnOnce(AmountConversion) -> Result<MinorUnit, ConnectorError>,
    T: FnOnce(RequestStruct, Option<MinorUnit>, &A) -> Result<B, ConnectorError>,

    requires
        call_ensures(Payme::get_url, (&payme, &req, &connectors), url),
        call_ensures(Payme::body_plan, (&payme, &req), plan),
        call_ensures(
            Payme::build_request::<A, B, C, T>,
            (&payme, &req, &payment, &connectors, convert, transform),
            r,
        ),
        plan matches Ok(p) ==> {
            &&& p.amount is Some
            &&& forall|out: Result<MinorUnit, ConnectorError>| #[trigger]
                convert.ensures((p.amount->0,), out) ==> out == converted
            &&& converted matches Ok(amount) ==> forall|out: Result<B, ConnectorError>| #[trigger]
                transform.ensures((p.message, Some(amount), &payment), out) ==> out == made
        },
    ensures
        match (plan, converted, made) {
            (Err(e), _, _) => r == Err::<Option<Request<B>>, ConnectorError>(e),
            (Ok(_), Err(e), _) => r == Err::<Option<Request<B>>, ConnectorError>(e),
            (Ok(_), Ok(_), Err(e)) => r == Err::<Option<Request<B>>, ConnectorError>(e),
            (Ok(_), Ok(_), Ok(body)) => r matches Ok(Some(request)) && {
                &&& request.method == Method::Post
                &&& request.url@ == url@
                &&& request.default_headers
                &&& request.headers@.len() == 1
                &&& request.headers@[0].0@ == "Content-Type"@
                &&& request.headers@[0].1 matches Maskable::Normal(value)
                &&& value@ == "application/json"@
                &&& request.body == RequestContent::Json(body)
            },
        },
{
}

/// A request whose message has no amount is posted likewise, but for the tokenization of
/// a payment method without 3-D Secure, for which none is sent.
pub proof fn request_without_an_amount_is_posted<A, B, C, T>(
    payme: Payme,
    req: FlowRequest,
    payment: A,
    connectors: Connectors,
    convert: C,
    transform: T,
    url: String,
    plan: BodyPlan,
    made: Result<B, ConnectorError>,
    r: Result<Option<Request<B>>, ConnectorError>,
) where
    C: FnOnce(AmountConversion) -> Result<MinorUnit, ConnectorError>,
    T: FnOnce(RequestStruct, Option<MinorUnit>, &A) -> Result<B, ConnectorError>,

    requires
        call_ensures(Payme::get_url, (&payme, &req, &connectors), url),
        call_ensures(Payme::body_plan, (&payme, &req), Ok::<BodyPlan, ConnectorError>(plan)),
        call_ensures(
            Payme::build_request::<A, B, C, T>,
            (&payme, &req, &payment, &connectors, convert, transform),
            r,
        ),
        plan.amount is None,
        forall|out: Result<B, ConnectorError>| #[trigger]
            transform.ensures((plan.message, None::<MinorUnit>, &payment), out) ==> out == made,
    ensures
        req matches FlowRequest::PaymentMethodToken { auth_type: AuthenticationType::NoThreeDs }
            ==> r == Ok::<Option<Request<B>>, ConnectorError>(None),
        !(req matches FlowRequest::PaymentMethodToken { auth_type: AuthenticationType::NoThreeDs })
            ==> match made {
            Err(e) => r == Err::<Option<Request<B>>, ConnectorError>(e),
            Ok(body) => r matches Ok(Some(request)) && {
                &&& request.method == Method::Post
                &&& request.url@ == url@
                &&& request.default_headers
                &&& request.headers@.len() == 1
                &&& request.headers@[0].0@ == "Content-Type"@
                &&& request.headers@[0].1 matches Maskable::Normal(value)
                &&& value@ == "application/json"@
                &&& request.body == RequestContent::Json(body)
            },
        },
{
}

/// Setting up a mandate on its own is not implemented, and said to be so.
pub proof fn setting_up_a_mandate_is_not_implemented<B>(
    payme: Payme,
    r: Result<Option<Request<B>>, ConnectorError>,
)
    requires
        call_ensures(Payme::build_setup_mandate_request::<B>, (&payme,), r),
    ensures
        r matches Err(ConnectorError::NotImplemented(what)) && what@
            == "Setup Mandate flow for Payme"@,
{
}

/// A wallet is shown an amount after a sale was generated, and only then: that of the
/// request, in its currency, by the converter for wallets; an error of the amount or the
/// currency comes in its place, that of the amount first.
pub proof fn wallet_is_shown_the_amount_of_the_request(
    payme: Payme,
    req: FlowRequest,
    shown: Option<Result<AmountConversion, ConnectorError>>,
)
    requires
        call_ensures(Payme::wallet_amount, (&payme, &req), shown),
    ensures
        shown is Some <==> req is PreProcessing,
        req matches FlowRequest::PreProcessing {
            minor_amount: Ok(minor_amount),
            currency: Ok(currency),
        } ==> (shown matches Some(Ok(conversion)) && conversion.amount == minor_amount
            && conversion.currency == currency && conversion.converter
            == payme.apple_pay_google_pay_amount_converter),
        req matches FlowRequest::PreProcessing { minor_amount: Err(e), .. } ==> shown == Some(
            Err::<AmountConversion, ConnectorError>(e),
        ),
        req matches FlowRequest::PreProcessing { minor_amount: Ok(_), currency: Err(e) } ==> shown
            == Some(Err::<AmountConversion, ConnectorError>(e)),
{
}

/// The response to a flow is read as the message that answers it, and known by the name
/// of that message in reports.
pub proof fn responses_are_read_as_the_answer_to_their_flow(
    payme: Payme,
    flow: Flow,
    wanted: Expected,
)
    requires
        call_ensures(Payme::expected_response, (&payme, flow), wanted),
    ensures
        flow == Flow::PaymentMethodToken ==> wanted.message
            == ResponseStruct::CaptureBuyerResponse && wanted.name@
            == "Payme CaptureBuyerResponse"@,
        flow == Flow::PreProcessing ==> wanted.message == ResponseStruct::GenerateSaleResponse
            && wanted.name@ == "Payme GenerateSaleResponse"@,
        flow == Flow::CompleteAuthorize ==> wanted.message
            == ResponseStruct::PaymePaySaleResponse && wanted.name@
            == "Payme PaymePaySaleResponse"@,
        flow == Flow::Authorize ==> wanted.message == ResponseStruct::PaymePaySaleResponse
            && wanted.name@ == "Payme PaymentsAuthorizeResponse"@,
        flow == Flow::PSync ==> wanted.message == ResponseStruct::PaymePaymentsResponse
            && wanted.name@ == "PaymePaymentsResponse"@,
        flow == Flow::Capture ==> wanted.message == ResponseStruct::PaymePaySaleResponse
            && wanted.name@ == "Payme PaymentsCaptureResponse"@,
        flow == Flow::Void ==> wanted.message == ResponseStruct::PaymeVoidResponse && wanted.name@
            == "PaymeVoidResponse"@,
        flow == Flow::Execute ==> wanted.message == ResponseStruct::PaymeRefundResponse
            && wanted.name@ == "PaymeRefundResponse"@,
        flow == Flow::RSync ==> wanted.message == ResponseStruct::PaymeQueryTransactionResponse
            && wanted.name@ == "GetSalesResponse"@,
{
}

/// A response is read as the message that its flow expects, with the amount that a wallet
/// is shown, where it is shown one. A body that cannot be decoded comes first among the
/// errors, then the amount's own, then that of its conversion.
pub proof fn response_is_read_with_its_amount<T, E, P, C>(
    payme: Payme,
    req: FlowRequest,
    res: Response,
    parse: P,
    convert: C,
    flow: Flow,
    wanted: Expected,
    shown: Option<Result<AmountConversion, ConnectorError>>,
    parsed: Result<T, E>,
    converted: Result<String, ConnectorError>,
    r: Result<(T, Option<String>), ConnectorError>,
) where
    P: FnOnce(&Vec<u8>, Expected) -> Result<T, E>,
    C: FnOnce(AmountConversion) -> Result<String, ConnectorError>,

    requires
        call_ensures(FlowRequest::flow, (&req,), flow),
        call_ensures(Payme::expected_response, (&payme, flow), wanted),
        call_ensures(Payme::wallet_amount, (&payme, &req), shown),
        call_ensures(
            Payme::read_response::<T, E, P, C>,
            (&payme, &req, &res, parse, convert),
            r,
        ),
        forall|out: Result<T, E>| #[trigger]
            parse.ensures((&res.response, wanted), out) ==> out == parsed,
        shown matches Some(Ok(conversion)) ==> forall|out: Result<String, ConnectorError>|
         #[trigger]
            convert.ensures((conversion,), out) ==> out == converted,
    ensures
        match (parsed, shown, converted) {
            (Err(_), _, _) => r == Err::<(T, Option<String>), ConnectorError>(
                ConnectorError::ResponseDeserializationFailed,
            ),
            (Ok(response), None, _) => r == Ok::<(T, Option<String>), ConnectorError>(
                (response, None),
            ),
            (Ok(_), Some(Err(e)), _) => r == Err::<(T, Option<String>), ConnectorError>(e),
            (Ok(_), Some(Ok(_)), Err(e)) => r == Err::<(T, Option<String>), ConnectorError>(e),
            (Ok(response), Some(Ok(_)), Ok(amount)) => r == Ok::<
                (T, Option<String>),
                ConnectorError,
            >((response, Some(amount))),
        },
{
}

/// A response that was read is brought into the payment as it was sent, under the status
/// of the response, and what comes of that is the result.
pub proof fn read_response_is_brought_into_the_payment<A, T, F>(
    payme: Payme,
    payment: A,
    status_code: u16,
    response: T,
    amount: Option<String>,
    transform: F,
    made: Result<A, ConnectorError>,
    r: Result<A, ConnectorError>,
) where F: FnOnce(ResponseRouterData<T, A>) -> Result<A, ConnectorError>
    requires
        call_ensures(
            Payme::transform_response::<A, T, F>,
            (&payme, payment, status_code, (response, amount), transform),
            r,
        ),
        forall|data: ResponseRouterData<T, A>, out: Result<A, ConnectorError>|
            {
                &&& data.response == response
                &&& data.data == payment
                &&& data.http_code == status_code
                &&& data.apple_pay_amount == amount
                &&& #[trigger] transform.ensures((data,), out)
            } ==> out == made,
    ensures
        r == made,
{
}

/// To handle a response is to read it and to bring it into the payment: the error of
/// reading it, else what comes of the second.
pub proof fn response_is_read_and_brought_into_the_payment<A, T, E, P, C, F>(
    payme: Payme,
    req: FlowRequest,
    payment: A,
    res: Response,
    parse: P,
    convert: C,
    transform: F,
    flow: Flow,
    wanted: Expected,
    shown: Option<Result<AmountConversion, ConnectorError>>,
    parsed: Result<T, E>,
    converted: Result<String, ConnectorError>,
    made: Result<A, ConnectorError>,
    r: Result<A, ConnectorError>,
) where
    P: FnOnce(&Vec<u8>, Expected) -> Result<T, E>,
    C: FnOnce(AmountConversion) -> Result<String, ConnectorError>,
    F: FnOnce(ResponseRouterData<T, A>) -> Result<A, ConnectorError>,

    requires
        call_ensures(FlowRequest::flow, (&req,), flow),
        call_ensures(Payme::expected_response, (&payme, flow), wanted),
        call_ensures(Payme::wallet_amount, (&payme, &req), shown),
        call_ensures(
            Payme::handle_response::<A, T, E, P, C, F>,
            (&payme, &req, payment, &res, parse, convert, transform),
            r,
        ),
        forall|out: Result<T, E>| #[trigger]
            parse.ensures((&res.response, wanted), out) ==> out == parsed,
        shown matches Some(Ok(conversion)) ==> forall|out: Result<String, ConnectorError>|
         #[trigger]
            convert.ensures((conversion,), out) ==> out == converted,
        forall|data: ResponseRouterData<T, A>, out: Result<A, ConnectorError>|
            {
                &&& parsed == Ok::<T, E>(data.response)
                &&& data.data == payment
                &&& data.http_code == res.status_code
                &&& match shown {
                    None => data.apple_pay_amount is None,
                    Some(_) => data.apple_pay_amount is Some && converted == Ok::<
                        String,
                        ConnectorError,
                    >(data.apple_pay_amount->0),
                }
                &&& #[trigger] transform.ensures((data,), out)
            } ==> out == made,
    ensures
        match (parsed, shown, converted) {
            (Err(_), _, _) => r == Err::<A, ConnectorError>(
                ConnectorError::ResponseDeserializationFailed,
            ),
            (Ok(_), Some(Err(e)), _) => r == Err::<A, ConnectorError>(e),
            (Ok(_), Some(Ok(_)), Err(e)) => r == Err::<A, ConnectorError>(e),
            _ => r == made,
        },
{
}

/// An error that PayMe describes is reported with its code in decimal, with its details
/// as the message, with its details and the additional information as the reason, and
/// with the status of the response, but for a server error, which counts as an answer.
pub proof fn error_is_reported_in_full(
    payme: Payme,
    data: PaymeErrorResponse,
    status_code: u16,
    code: String,
    error: ErrorResponse,
)
    requires
        call_ensures(Payme::error_response, (&payme, &data, status_code), error),
        call_ensures(decimal, (data.status_error_code,), code),
    ensures
        error.status_code == (if 500 <= status_code && status_code < 512 {
            200u16
        } else {
            status_code
        }),
        error.code@ == code@,
        error.message@ == data.status_error_details@,
        error.reason matches Some(reason) && reason@ == data.status_error_details@
            + ", additional info: "@ + data.status_additional_info@,
        error.attempt_status is None,
        error.connector_transaction_id is None,
{
}

/// A failed request is recorded and reported as PayMe describes the error; where the
/// body is no such description, it is recorded in printable ASCII under its own status,
/// and answered by the fallback, which is handed the response and the connector's name.
/// That holds of a server error, and of the error of any flow but the sync flow, too.
pub proof fn failed_request_is_recorded_and_answered<E, P, F>(
    payme: Payme,
    flow: Flow,
    res: Response,
    parse: P,
    fallback: F,
    parsed: Result<PaymeErrorResponse, E>,
    reported: ErrorResponse,
    bytes: &[u8],
    body: String,
    answered: Result<ErrorResponse, ConnectorError>,
    built: HandledError,
    of_server: HandledError,
    of_flow: Option<HandledError>,
) where
    P: FnOnce(&Vec<u8>) -> Result<PaymeErrorResponse, E>,
    F: FnOnce(Response, &'static str) -> Result<ErrorResponse, ConnectorError>,

    requires
        call_ensures(
            Payme::build_error_response::<E, P, F>,
            (&payme, res, parse, fallback),
            built,
        ),
        call_ensures(
            Payme::get_5xx_error_response::<E, P, F>,
            (&payme, res, parse, fallback),
            of_server,
        ),
        call_ensures(
            Payme::get_error_response::<E, P, F>,
            (&payme, flow, res, parse, fallback),
            of_flow,
        ),
        forall|out: Result<PaymeErrorResponse, E>| #[trigger]
            parse.ensures((&res.response,), out) ==> out == parsed,
        parsed matches Ok(data) ==> call_ensures(
            Payme::error_response,
            (&payme, &data, res.status_code),
            reported,
        ),
        bytes@ == res.response@,
        call_ensures(escape_ascii, (bytes,), body),
        forall|out: Result<ErrorResponse, ConnectorError>| #[trigger]
            fallback.ensures((res, "payme"), out) ==> out == answered,
    ensures
        of_flow is None <==> flow == Flow::PSync,
        forall|handled: HandledError|
            handled == built || handled == of_server || of_flow == Some(handled) ==> match parsed {
                Ok(data) => {
                    &&& (#[trigger] handled.event) == ErrorEvent::ErrorResponseBody(data)
                    &&& handled.result matches Ok(error)
                    &&& error.status_code == reported.status_code
                    &&& error.code@ == reported.code@
                    &&& error.message == reported.message
                    &&& error.reason matches Some(reason)
                    &&& reason@ == reported.reason->0@
                    &&& error.attempt_status is None
                    &&& error.connector_transaction_id is None
                },
                Err(_) => {
                    &&& handled.event matches ErrorEvent::Error { error, status_code }
                    &&& error@ == body@
                    &&& status_code == res.status_code
                    &&& handled.result == answered
                },
            },
{
}

/// A payment is taken exactly where its money is taken at once, by hand in one go, or in
/// a row of automatic captures; where nothing is said, it is taken at once. The error
/// names the capture method and the connector.
pub proof fn payments_are_taken_by_capture_method(
    payme: Payme,
    asked: Option<CaptureMethod>,
    r: Result<(), ConnectorError>,
)
    requires
        call_ensures(Payme::validate_connector_against_payment_request, (&payme, asked), r),
    ensures
        r is Err <==> (asked == Some(CaptureMethod::ManualMultiple) || asked == Some(
            CaptureMethod::Scheduled,
        )),
        r matches Err(e) ==> (e matches ConnectorError::CaptureMethodNotSupported {
            capture_method,
            connector,
        } && asked == Some(capture_method) && connector@ == "payme"@),
{
}

/// A mandate is set up on a card or on a third party's Apple Pay, whatever the kind of
/// payment method; the error names that kind and the connector.
pub proof fn mandates_are_set_up_on_cards_and_apple_pay(
    payme: Payme,
    kind: Option<PaymentMethodType>,
    data: PaymentMethodDataType,
    r: Result<(), ConnectorError>,
)
    requires
        call_ensures(Payme::validate_mandate_payment, (&payme, kind, data), r),
    ensures
        r is Ok <==> (data == PaymentMethodDataType::Card || data
            == PaymentMethodDataType::ApplePayThirdPartySdk),
        r matches Err(e) ==> (e matches ConnectorError::MandateNotSupported {
            payment_method_type,
            connector,
        } && payment_method_type == kind && connector@ == "payme"@),
{
}

/// Whatever brings a buyer back from a redirection, the connector is called.
pub proof fn redirections_lead_to_the_connector(
    payme: Payme,
    action: PaymentAction,
    r: Result<CallConnectorAction, ConnectorError>,
)
    requires
        call_ensures(Payme::get_flow_type, (&payme, action), r),
    ensures
        r matches Ok(next) && next is Trigger,
{
}

} // verus!
