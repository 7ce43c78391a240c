//! The PayMe connector: what it accepts, what it sends and how it reads replies.

use crate::errors::ConnectorError;
use crate::text::{bytes_escaped, decimal, decimal_int, escape_ascii};
use crate::types::{
    AmountConversion, AmountConverter, AuthenticationType, BodyPlan, CallConnectorAction,
    CaptureMethod, Connectors, Currency, CurrencyUnit, ErrorEvent, ErrorResponse, Expected, Flow,
    FlowRequest, HandledError, Maskable, Method, MinorUnit, PaymeErrorResponse, PaymentAction,
    PaymentMethodDataType, PaymentMethodType, Request, RequestContent, RequestStruct, Response,
    ResponseRouterData, ResponseStruct,
};
use vstd::prelude::*;

verus! {

/// The PayMe connector.
#[derive(Debug, Clone, Copy, PartialEq, Eq)]
pub struct Payme {
    /// How amounts are sent to PayMe.
    pub amount_converter: AmountConverter,
    /// How amounts are shown to the wallets.
    pub apple_pay_google_pay_amount_converter: AmountConverter,
}

/// Whether the headers are the one that announces a JSON body.
pub open spec fn json_headers(headers: Seq<(String, Maskable)>) -> bool {
    &&& headers.len() == 1
    &&& headers[0].0@ == "Content-Type"@
    &&& headers[0].1 matches Maskable::Normal(value) && value@ == "application/json"@
}

/// The path below the base URL that a request goes to.
pub open spec fn endpoint(req: FlowRequest) -> Seq<char> {
    match req {
        FlowRequest::PaymentMethodToken { .. } => "api/capture-buyer-token"@,
        FlowRequest::PreProcessing { .. } => "api/generate-sale"@,
        FlowRequest::CompleteAuthorize => "api/pay-sale"@,
        FlowRequest::Authorize { mandate_id, .. } => if mandate_id is Some {
            "api/generate-sale"@
        } else {
            "api/pay-sale"@
        },
        FlowRequest::PSync => "api/get-sales"@,
        FlowRequest::Capture { .. } => "api/capture-sale"@,
        FlowRequest::Void { .. } => "api/refund-sale"@,
        FlowRequest::Execute { .. } => "api/refund-sale"@,
        FlowRequest::RSync => "api/get-transactions"@,
    }
}

/// The status code that an error is reported with: a server error counts as an
/// answer.
pub open spec fn reported_status(status_code: u16) -> u16 {
    if 500 <= status_code <= 511 {
        200
    } else {
        status_code
    }
}

/// Whether `error` reports what PayMe said in `data` under `status_code`.
pub open spec fn reports(error: ErrorResponse, data: PaymeErrorResponse, status_code: u16) -> bool {
    &&& error.status_code == reported_status(status_code)
    &&& error.code@ == decimal_int(data.status_error_code as int)
    &&& error.message == data.status_error_details
    &&& error.reason matches Some(reason) && reason@ == data.status_error_details@
        + ", additional info: "@ + data.status_additional_info@
    &&& error.attempt_status is None
    &&& error.connector_transaction_id is None
}

/// Whether a capture method is one that the connector takes.
pub open spec fn captures(method: CaptureMethod) -> bool {
    method == CaptureMethod::Automatic || method == CaptureMethod::Manual || method
        == CaptureMethod::SequentialAutomatic
}

/// Whether the connector sets up mandates on such payment method data.
pub open spec fn mandates(data: PaymentMethodDataType) -> bool {
    data == PaymentMethodDataType::Card || data == PaymentMethodDataType::ApplePayThirdPartySdk
}

/// The message that the response to a flow is read as.
pub open spec fn expected(flow: Flow) -> Expected {
    match flow {
        Flow::PaymentMethodToken => Expected {
            message: ResponseStruct::CaptureBuyerResponse,
            name: "Payme CaptureBuyerResponse",
        },
        Flow::PreProcessing => Expected {
            message: ResponseStruct::GenerateSaleResponse,
            name: "Payme GenerateSaleResponse",
        },
        Flow::CompleteAuthorize => Expected {
            message: ResponseStruct::PaymePaySaleResponse,
            name: "Payme PaymePaySaleResponse",
        },
        Flow::Authorize => Expected {
            message: ResponseStruct::PaymePaySaleResponse,
            name: "Payme PaymentsAuthorizeResponse",
        },
        Flow::PSync => Expected {
            message: ResponseStruct::PaymePaymentsResponse,
            name: "PaymePaymentsResponse",
        },
        Flow::Capture => Expected {
            message: ResponseStruct::PaymePaySaleResponse,
            name: "Payme PaymentsCaptureResponse",
        },
        Flow::Void => Expected {
            message: ResponseStruct::PaymeVoidResponse,
            name: "PaymeVoidResponse",
        },
        Flow::Execute => Expected {
            message: ResponseStruct::PaymeRefundResponse,
            name: "PaymeRefundResponse",
        },
        Flow::RSync => Expected {
            message: ResponseStruct::PaymeQueryTransactionResponse,
            name: "GetSalesResponse",
        },
    }
}

/// Whether `r` is the body that `transform` makes of a payment: a message with its
/// amount.
pub open spec fn transformed<A, B, T>(
    transform: T,
    message: RequestStruct,
    amount: Option<MinorUnit>,
    payment: A,
    r: Result<RequestContent<B>, ConnectorError>,
) -> bool where T: FnOnce(RequestStruct, Option<MinorUnit>, &A) -> Result<B, ConnectorError> {
    exists|made: Result<B, ConnectorError>| #[trigger]
        transform.ensures((message, amount, &payment), made) && r == (match made {
            Ok(body) => Ok::<RequestContent<B>, ConnectorError>(RequestContent::Json(body)),
            Err(e) => Err(e),
        })
}

/// Whether `amount` is what `convert` makes of the amount that has to be converted,
/// or none where there is none to convert.
pub open spec fn is_converted<M, C>(
    conversion: Option<AmountConversion>,
    convert: C,
    amount: Option<M>,
) -> bool where C: FnOnce(AmountConversion) -> Result<M, ConnectorError> {
    match (conversion, amount) {
        (None, None) => true,
        (Some(c), Some(a)) => convert.ensures((c,), Ok::<M, ConnectorError>(a)),
        _ => false,
    }
}

/// Whether the codecs of the caller can be called as a plan asks: `transform` only
/// with the amount that the conversion gave.
pub open spec fn body_can_be_made<A, B, C, T>(
    plan: Result<BodyPlan, ConnectorError>,
    payment: A,
    convert: C,
    transform: T,
) -> bool where
    C: FnOnce(AmountConversion) -> Result<MinorUnit, ConnectorError>,
    T: FnOnce(RequestStruct, Option<MinorUnit>, &A) -> Result<B, ConnectorError>,
 {
    plan matches Ok(p) ==> {
        &&& p.amount matches Some(conversion) ==> convert.requires((conversion,))
        &&& forall|amount: Option<MinorUnit>|
            is_converted(p.amount, convert, amount) ==> #[trigger] transform.requires(
                (p.message, amount, &payment),
            )
    }
}

/// Whether `r` is the body that comes of a plan: the plan's own error, else the
/// error of the amount's conversion where there is one to convert, else what
/// `transform` makes of the payment with the converted amount.
pub open spec fn body_made<A, B, C, T>(
    plan: Result<BodyPlan, ConnectorError>,
    payment: A,
    convert: C,
    transform: T,
    r: Result<RequestContent<B>, ConnectorError>,
) -> bool where
    C: FnOnce(AmountConversion) -> Result<MinorUnit, ConnectorError>,
    T: FnOnce(RequestStruct, Option<MinorUnit>, &A) -> Result<B, ConnectorError>,
 {
    match plan {
        Err(e) => r == Err::<RequestContent<B>, ConnectorError>(e),
        Ok(p) => match p.amount {
            None => transformed(transform, p.message, None, payment, r),
            Some(conversion) => exists|converted: Result<MinorUnit, ConnectorError>| #[trigger]
                convert.ensures((conversion,), converted) && (match converted {
                    Err(e) => r == Err::<RequestContent<B>, ConnectorError>(e),
                    Ok(amount) => transformed(transform, p.message, Some(amount), payment, r),
                }),
        },
    }
}

/// Whether `r` is a request to the endpoint of `req` that carries `body`.
pub open spec fn carries<B>(
    r: Request<B>,
    req: FlowRequest,
    connectors: Connectors,
    body: RequestContent<B>,
) -> bool {
    &&& r.method == Method::Post
    &&& r.url@ == connectors.payme.base_url@ + endpoint(req)
    &&& r.default_headers
    &&& json_headers(r.headers@)
    &&& r.body == body
}

/// Whether a request is sent at all: a payment method is tokenized only for
/// buyers that are authenticated by 3-D Secure.
pub open spec fn is_sent(req: FlowRequest) -> bool {
    req matches FlowRequest::PaymentMethodToken { auth_type } ==> auth_type
        == AuthenticationType::ThreeDs
}

/// Whether the codecs of the caller can be called to read a response: `convert` only
/// once the response is decoded.
pub open spec fn response_can_be_read<T, E, P, C>(
    wanted: Expected,
    wallet_amount: Option<Result<AmountConversion, ConnectorError>>,
    res: Response,
    parse: P,
    convert: C,
) -> bool where
    P: FnOnce(&Vec<u8>, Expected) -> Result<T, E>,
    C: FnOnce(AmountConversion) -> Result<String, ConnectorError>,
 {
    &&& parse.requires((&res.response, wanted))
    &&& forall|response: T| #[trigger]
        parse.ensures((&res.response, wanted), Ok::<T, E>(response)) ==> (
        wallet_amount matches Some(Ok(conversion)) ==> convert.requires((conversion,)))
}

/// Whether `r` is what a response is read as: the failure to decode it, else the
/// error of the amount that a wallet is shown, else the decoded response with that
/// amount, where there is one.
pub open spec fn response_read<T, E, P, C>(
    wanted: Expected,
    wallet_amount: Option<Result<AmountConversion, ConnectorError>>,
    res: Response,
    parse: P,
    convert: C,
    r: Result<(T, Option<String>), ConnectorError>,
) -> bool where
    P: FnOnce(&Vec<u8>, Expected) -> Result<T, E>,
    C: FnOnce(AmountConversion) -> Result<String, ConnectorError>,
 {
    exists|parsed: Result<T, E>| #[trigger]
        parse.ensures((&res.response, wanted), parsed) && (match parsed {
            Err(_) => r == Err::<(T, Option<String>), ConnectorError>(
                ConnectorError::ResponseDeserializationFailed,
            ),
            Ok(response) => match wallet_amount {
                None => r == Ok::<(T, Option<String>), ConnectorError>((response, None)),
                Some(Err(e)) => r == Err::<(T, Option<String>), ConnectorError>(e),
                Some(Ok(conversion)) => exists|converted: Result<String, ConnectorError>| #[trigger]
                    convert.ensures((conversion,), converted) && r == (match converted {
                        Err(e) => Err::<(T, Option<String>), ConnectorError>(e),
                        Ok(amount) => Ok((response, Some(amount))),
                    }),
            },
        })
}

/// Whether the codecs of the caller can be called on a response: `transform` only
/// on what the response is read as, for this payment.
pub open spec fn response_can_be_handled<A, T, E, P, C, F>(
    wanted: Expected,
    wallet_amount: Option<Result<AmountConversion, ConnectorError>>,
    payment: A,
    res: Response,
    parse: P,
    convert: C,
    transform: F,
) -> bool where
    P: FnOnce(&Vec<u8>, Expected) -> Result<T, E>,
    C: FnOnce(AmountConversion) -> Result<String, ConnectorError>,
    F: FnOnce(ResponseRouterData<T, A>) -> Result<A, ConnectorError>,
 {
    &&& response_can_be_read(wanted, wallet_amount, res, parse, convert)
    &&& forall|data: ResponseRouterData<T, A>|
        {
            &&& response_read(
                wanted,
                wallet_amount,
                res,
                parse,
                convert,
                Ok((data.response, data.apple_pay_amount)),
            )
            &&& data.data == payment
            &&& data.http_code == res.status_code
        } ==> #[trigger] transform.requires((data,))
}

/// Whether `r` is what comes of a response: the error of reading it, else what
/// `transform` makes of it.
pub open spec fn response_handled<A, T, E, P, C, F>(
    wanted: Expected,
    wallet_amount: Option<Result<AmountConversion, ConnectorError>>,
    payment: A,
    res: Response,
    parse: P,
    convert: C,
    transform: F,
    r: Result<A, ConnectorError>,
) -> bool where
    P: FnOnce(&Vec<u8>, Expected) -> Result<T, E>,
    C: FnOnce(AmountConversion) -> Result<String, ConnectorError>,
    F: FnOnce(ResponseRouterData<T, A>) -> Result<A, ConnectorError>,
 {
    exists|read: Result<(T, Option<String>), ConnectorError>| #[trigger]
        response_read(wanted, wallet_amount, res, parse, convert, read) && (match read {
            Err(e) => r == Err::<A, ConnectorError>(e),
            Ok((response, apple_pay_amount)) => transform.ensures(
                (
                    ResponseRouterData {
                        response,
                        data: payment,
                        http_code: res.status_code,
                        apple_pay_amount,
                    },
                ),
                r,
            ),
        })
}

/// Whether the codecs of the caller can be called on a failed request: `fallback`
/// only where the body is no error message.
pub open spec fn error_can_be_handled<E, P, F>(res: Response, parse: P, fallback: F) -> bool where
    P: FnOnce(&Vec<u8>) -> Result<PaymeErrorResponse, E>,
    F: FnOnce(Response, &'static str) -> Result<ErrorResponse, ConnectorError>,
 {
    &&& parse.requires((&res.response,))
    &&& forall|e: E| #[trigger]
        parse.ensures((&res.response,), Err::<PaymeErrorResponse, E>(e)) ==> fallback.requires(
            (res, "payme"),
        )
}

/// Whether `r` is what comes of a failed request: the report and the record of
/// PayMe's error message, or, where there is none, the fallback's answer and the
/// record of the body in printable ASCII.
pub open spec fn error_handled<E, P, F>(
    res: Response,
    parse: P,
    fallback: F,
    r: HandledError,
) -> bool where
    P: FnOnce(&Vec<u8>) -> Result<PaymeErrorResponse, E>,
    F: FnOnce(Response, &'static str) -> Result<ErrorResponse, ConnectorError>,
 {
    exists|parsed: Result<PaymeErrorResponse, E>| #[trigger]
        parse.ensures((&res.response,), parsed) && (match parsed {
            Ok(data) => {
                &&& r.event == ErrorEvent::ErrorResponseBody(data)
                &&& r.result matches Ok(error) && reports(error, data, res.status_code)
            },
            Err(_) => {
                &&& r.event matches ErrorEvent::Error { error, status_code } && error@
                    == bytes_escaped(res.response@) && status_code == res.status_code
                &&& fallback.ensures((res, "payme"), r.result)
            },
        })
}

impl Payme {
    /// The connector with the converters that PayMe wants.
    pub fn new() -> (payme: Payme)
        ensures
            payme.amount_converter == AmountConverter::MinorUnitForConnector,
            payme.apple_pay_google_pay_amount_converter
                == AmountConverter::StringMajorUnitForConnector,
    {
        Payme {
            amount_converter: AmountConverter::MinorUnitForConnector,
            apple_pay_google_pay_amount_converter: AmountConverter::StringMajorUnitForConnector,
        }
    }

    /// The name of the connector.
    pub fn id(&self) -> (id: &'static str)
        ensures
            id == "payme",
    {
        "payme"
    }

    /// The unit that PayMe counts amounts in.
    pub fn get_currency_unit(&self) -> (unit: CurrencyUnit)
        ensures
            unit == CurrencyUnit::Minor,
    {
        CurrencyUnit::Minor
    }

    /// The content type of every message.
    pub fn common_get_content_type(&self) -> (content_type: &'static str)
        ensures
            content_type == "application/json",
    {
        "application/json"
    }

    /// The content type of the messages of a flow: the same for all.
    pub fn get_content_type(&self) -> (content_type: &'static str)
        ensures
            content_type == "application/json",
    {
        self.common_get_content_type()
    }

    /// Where PayMe is reached.
    pub fn base_url<'a>(&self, connectors: &'a Connectors) -> (url: &'a str)
        ensures
            url@ == connectors.payme.base_url@,
    {
        connectors.payme.base_url.as_str()
    }

    /// The headers of every message.
    pub fn build_headers(&self) -> (headers: Vec<(String, Maskable)>)
        ensures
            json_headers(headers@),
    {
        let mut headers: Vec<(String, Maskable)> = Vec::new();
        headers.push(
            ("Content-Type".to_owned(), Maskable::Normal(self.get_content_type().to_owned())),
        );
        headers
    }

    /// The headers of the messages of a flow: the same for all.
    pub fn get_headers(&self) -> (headers: Vec<(String, Maskable)>)
        ensures
            json_headers(headers@),
    {
        self.build_headers()
    }

    /// Where a request goes.
    pub fn get_url(&self, req: &FlowRequest, connectors: &Connectors) -> (url: String)
        ensures
            url@ == connectors.payme.base_url@ + endpoint(*req),
    {
        let path = match req {
            FlowRequest::PaymentMethodToken { .. } => "api/capture-buyer-token",
            FlowRequest::PreProcessing { .. } => "api/generate-sale",
            FlowRequest::CompleteAuthorize => "api/pay-sale",
            FlowRequest::Authorize { mandate_id, .. } => {
                if mandate_id.is_some() {
                    // a recurring payment on a mandate
                    "api/generate-sale"
                } else {
                    // a normal payment, or the first one on a mandate
                    "api/pay-sale"
                }
            },
            FlowRequest::PSync => "api/get-sales",
            FlowRequest::Capture { .. } => "api/capture-sale",
            // PayMe voids a payment by refunding it
            FlowRequest::Void { .. } => "api/refund-sale",
            FlowRequest::Execute { .. } => "api/refund-sale",
            FlowRequest::RSync => "api/get-transactions",
        };
        self.base_url(connectors).to_owned().concat(path)
    }

    /// The conversion of an amount for PayMe.
    pub open spec fn minor(self, amount: MinorUnit, currency: Currency) -> Option<
        AmountConversion,
    > {
        Some(AmountConversion { converter: self.amount_converter, amount, currency })
    }

    /// The message that a request is made into and the amount that goes with
    /// it, or why there is none.
    pub open spec fn spec_body_plan(self, req: FlowRequest) -> Result<BodyPlan, ConnectorError> {
        match req {
            FlowRequest::PaymentMethodToken { .. } => Ok(
                BodyPlan { message: RequestStruct::CaptureBuyerRequest, amount: None },
            ),
            FlowRequest::PreProcessing { minor_amount: Err(e), .. } => Err(e),
            FlowRequest::PreProcessing { minor_amount: Ok(_), currency: Err(e) } => Err(e),
            FlowRequest::PreProcessing { minor_amount: Ok(amount), currency: Ok(currency) } => Ok(
                BodyPlan {
                    message: RequestStruct::GenerateSaleRequest,
                    amount: self.minor(amount, currency),
                },
            ),
            FlowRequest::CompleteAuthorize => Ok(
                BodyPlan { message: RequestStruct::Pay3dsRequest, amount: None },
            ),
            FlowRequest::Authorize { minor_amount, currency, .. } => Ok(
                BodyPlan {
                    message: RequestStruct::PaymePaymentRequest,
                    amount: self.minor(minor_amount, currency),
                },
            ),
            FlowRequest::PSync => Ok(
                BodyPlan { message: RequestStruct::PaymeQuerySaleRequest, amount: None },
            ),
            FlowRequest::Capture { minor_amount_to_capture, currency } => Ok(
                BodyPlan {
                    message: RequestStruct::PaymentCaptureRequest,
                    amount: self.minor(minor_amount_to_capture, currency),
                },
            ),
            FlowRequest::Void { minor_amount: Some(amount), currency: Some(currency) } => Ok(
                BodyPlan {
                    message: RequestStruct::PaymeVoidRequest,
                    amount: self.minor(amount, currency),
                },
            ),
            FlowRequest::Void { .. } => Err(
                ConnectorError::MissingRequiredField { field_name: "amount" },
            ),
            FlowRequest::Execute { minor_refund_amount, currency } => Ok(
                BodyPlan {
                    message: RequestStruct::PaymeRefundRequest,
                    amount: self.minor(minor_refund_amount, currency),
                },
            ),
            FlowRequest::RSync => Ok(
                BodyPlan { message: RequestStruct::PaymeQueryTransactionRequest, amount: None },
            ),
        }
    }

    fn with_amount(
        &self,
        message: RequestStruct,
        amount: &MinorUnit,
        currency: &Currency,
    ) -> (plan: BodyPlan)
        ensures
            plan == (BodyPlan { message, amount: self.minor(*amount, *currency) }),
    {
        BodyPlan {
            message,
            amount: Some(
                AmountConversion {
                    converter: self.amount_converter,
                    amount: *amount,
                    currency: currency.clone(),
                },
            ),
        }
    }

    /// Plans the body of a request: which message it is made into and which
    /// amount has to be converted for it.
    pub fn body_plan(&self, req: &FlowRequest) -> (plan: Result<BodyPlan, ConnectorError>)
        ensures
            plan == self.spec_body_plan(*req),
    {
        match req {
            FlowRequest::PaymentMethodToken { .. } => Ok(
                BodyPlan { message: RequestStruct::CaptureBuyerRequest, amount: None },
            ),
            FlowRequest::PreProcessing { minor_amount, currency } => match minor_amount {
                Err(e) => Err(e.clone()),
                Ok(amount) => match currency {
                    Err(e) => Err(e.clone()),
                    Ok(currency) => Ok(
                        self.with_amount(RequestStruct::GenerateSaleRequest, amount, currency),
                    ),
                },
            },
            FlowRequest::CompleteAuthorize => Ok(
                BodyPlan { message: RequestStruct::Pay3dsRequest, amount: None },
            ),
            FlowRequest::Authorize { minor_amount, currency, .. } => Ok(
                self.with_amount(RequestStruct::PaymePaymentRequest, minor_amount, currency),
            ),
            FlowRequest::PSync => Ok(
                BodyPlan { message: RequestStruct::PaymeQuerySaleRequest, amount: None },
            ),
            FlowRequest::Capture { minor_amount_to_capture, currency } => Ok(
                self.with_amount(
                    RequestStruct::PaymentCaptureRequest,
                    minor_amount_to_capture,
                    currency,
                ),
            ),
            FlowRequest::Void { minor_amount, currency } => match (minor_amount, currency) {
                (Some(amount), Some(currency)) => Ok(
                    self.with_amount(RequestStruct::PaymeVoidRequest, amount, currency),
                ),
                _ => Err(ConnectorError::MissingRequiredField { field_name: "amount" }),
            },
            FlowRequest::Execute { minor_refund_amount, currency } => Ok(
                self.with_amount(RequestStruct::PaymeRefundRequest, minor_refund_amount, currency),
            ),
            FlowRequest::RSync => Ok(
                BodyPlan { message: RequestStruct::PaymeQueryTransactionRequest, amount: None },
            ),
        }
    }

    /// Makes the body of a request for a payment. `convert` converts the amount,
    /// where the message has one, and `transform` makes the message.
    pub fn get_request_body<A, B, C, T>(
        &self,
        req: &FlowRequest,
        payment: &A,
        convert: C,
        transform: T,
    ) -> (r: Result<RequestContent<B>, ConnectorError>) where
        C: FnOnce(AmountConversion) -> Result<MinorUnit, ConnectorError>,
        T: FnOnce(RequestStruct, Option<MinorUnit>, &A) -> Result<B, ConnectorError>,

        requires
            body_can_be_made(self.spec_body_plan(*req), *payment, convert, transform),
        ensures
            body_made(self.spec_body_plan(*req), *payment, convert, transform, r),
    {
        let plan = match self.body_plan(req) {
            Ok(plan) => plan,
            Err(e) => return Err(e),
        };
        let amount: Option<MinorUnit> = match plan.amount {
            None => None,
            Some(conversion) => match convert(conversion) {
                Ok(amount) => Some(amount),
                Err(e) => return Err(e),
            },
        };
        match transform(plan.message, amount, payment) {
            Ok(body) => Ok(RequestContent::Json(body)),
            Err(e) => Err(e),
        }
    }

    /// Builds the request that goes to PayMe, where one is sent.
    pub fn build_request<A, B, C, T>(
        &self,
        req: &FlowRequest,
        payment: &A,
        connectors: &Connectors,
        convert: C,
        transform: T,
    ) -> (r: Result<Option<Request<B>>, ConnectorError>) where
        C: FnOnce(AmountConversion) -> Result<MinorUnit, ConnectorError>,
        T: FnOnce(RequestStruct, Option<MinorUnit>, &A) -> Result<B, ConnectorError>,

        requires
            is_sent(*req) ==> body_can_be_made(self.spec_body_plan(*req), *payment, convert, transform),
        ensures
            !is_sent(*req) ==> r == Ok::<Option<Request<B>>, ConnectorError>(None),
            is_sent(*req) ==> exists|body: Result<RequestContent<B>, ConnectorError>| #[trigger]
                body_made(self.spec_body_plan(*req), *payment, convert, transform, body) && (match body {
                    Err(e) => r == Err::<Option<Request<B>>, ConnectorError>(e),
                    Ok(content) => r matches Ok(Some(request)) && carries(
                        request,
                        *req,
                        *connectors,
                        content,
                    ),
                }),
    {
        if let FlowRequest::PaymentMethodToken { auth_type } = req {
            match auth_type {
                AuthenticationType::ThreeDs => {},
                AuthenticationType::NoThreeDs => return Ok(None),
            }
        }
        let url = self.get_url(req, connectors);
        let headers = self.get_headers();
        match self.get_request_body(req, payment, convert, transform) {
            Ok(body) => Ok(
                Some(Request { method: Method::Post, url, default_headers: true, headers, body }),
            ),
            Err(e) => Err(e),
        }
    }

    /// PayMe has no flow that only sets up a mandate.
    pub fn build_setup_mandate_request<B>(&self) -> (r: Result<Option<Request<B>>, ConnectorError>)
        ensures
            r == Err::<Option<Request<B>>, ConnectorError>(
                ConnectorError::NotImplemented("Setup Mandate flow for Payme"),
            ),
    {
        Err(ConnectorError::NotImplemented("Setup Mandate flow for Payme"))
    }

    /// The amount that a wallet is shown after a response, where it is shown one.
    pub open spec fn spec_wallet_amount(self, req: FlowRequest) -> Option<
        Result<AmountConversion, ConnectorError>,
    > {
        match req {
            FlowRequest::PreProcessing { minor_amount: Err(e), .. } => Some(Err(e)),
            FlowRequest::PreProcessing { minor_amount: Ok(_), currency: Err(e) } => Some(Err(e)),
            FlowRequest::PreProcessing { minor_amount: Ok(amount), currency: Ok(currency) } => Some(
                Ok(
                    AmountConversion {
                        converter: self.apple_pay_google_pay_amount_converter,
                        amount,
                        currency,
                    },
                ),
            ),
            _ => None,
        }
    }

    /// The amount that a wallet is shown after a response, where it is shown one.
    pub fn wallet_amount(&self, req: &FlowRequest) -> (r: Option<
        Result<AmountConversion, ConnectorError>,
    >)
        ensures
            r == self.spec_wallet_amount(*req),
    {
        match req {
            FlowRequest::PreProcessing { minor_amount, currency } => match minor_amount {
                Err(e) => Some(Err(e.clone())),
                Ok(amount) => match currency {
                    Err(e) => Some(Err(e.clone())),
                    Ok(currency) => Some(
                        Ok(
                            AmountConversion {
                                converter: self.apple_pay_google_pay_amount_converter,
                                amount: *amount,
                                currency: currency.clone(),
                            },
                        ),
                    ),
                },
            },
            _ => None,
        }
    }

    /// The message that the response to a flow is read as.
    pub fn expected_response(&self, flow: Flow) -> (r: Expected)
        ensures
            r == expected(flow),
    {
        match flow {
            Flow::PaymentMethodToken => Expected {
                message: ResponseStruct::CaptureBuyerResponse,
                name: "Payme CaptureBuyerResponse",
            },
            Flow::PreProcessing => Expected {
                message: ResponseStruct::GenerateSaleResponse,
                name: "Payme GenerateSaleResponse",
            },
            Flow::CompleteAuthorize => Expected {
                message: ResponseStruct::PaymePaySaleResponse,
                name: "Payme PaymePaySaleResponse",
            },
            Flow::Authorize => Expected {
                message: ResponseStruct::PaymePaySaleResponse,
                name: "Payme PaymentsAuthorizeResponse",
            },
            Flow::PSync => Expected {
                message: ResponseStruct::PaymePaymentsResponse,
                name: "PaymePaymentsResponse",
            },
            Flow::Capture => Expected {
                message: ResponseStruct::PaymePaySaleResponse,
                name: "Payme PaymentsCaptureResponse",
            },
            Flow::Void => Expected {
                message: ResponseStruct::PaymeVoidResponse,
                name: "PaymeVoidResponse",
            },
            Flow::Execute => Expected {
                message: ResponseStruct::PaymeRefundResponse,
                name: "PaymeRefundResponse",
            },
            Flow::RSync => Expected {
                message: ResponseStruct::PaymeQueryTransactionResponse,
                name: "GetSalesResponse",
            },
        }
    }

    /// Reads a response. `parse` decodes the body as the message that is expected,
    /// and `convert` converts the amount that a wallet is shown. What is read is what
    /// has to be recorded, before it is brought into the payment.
    pub fn read_response<T, E, P, C>(
        &self,
        req: &FlowRequest,
        res: &Response,
        parse: P,
        convert: C,
    ) -> (r: Result<(T, Option<String>), ConnectorError>) where
        P: FnOnce(&Vec<u8>, Expected) -> Result<T, E>,
        C: FnOnce(AmountConversion) -> Result<String, ConnectorError>,

        requires
            response_can_be_read(
                expected(req.spec_flow()),
                self.spec_wallet_amount(*req),
                *res,
                parse,
                convert,
            ),
        ensures
            response_read(
                expected(req.spec_flow()),
                self.spec_wallet_amount(*req),
                *res,
                parse,
                convert,
                r,
            ),
    {
        let response = match parse(&res.response, self.expected_response(req.flow())) {
            Ok(response) => response,
            Err(_) => return Err(ConnectorError::ResponseDeserializationFailed),
        };
        match self.wallet_amount(req) {
            None => Ok((response, None)),
            Some(Err(e)) => Err(e),
            Some(Ok(conversion)) => match convert(conversion) {
                Ok(amount) => Ok((response, Some(amount))),
                Err(e) => Err(e),
            },
        }
    }

    /// Brings a response that was read into the payment.
    pub fn transform_response<A, T, F>(
        &self,
        payment: A,
        status_code: u16,
        read: (T, Option<String>),
        transform: F,
    ) -> (r: Result<A, ConnectorError>) where
        F: FnOnce(ResponseRouterData<T, A>) -> Result<A, ConnectorError>,

        requires
            transform.requires(
                (
                    ResponseRouterData {
                        response: read.0,
                        data: payment,
                        http_code: status_code,
                        apple_pay_amount: read.1,
                    },
                ),
            ),
        ensures
            transform.ensures(
                (
                    ResponseRouterData {
                        response: read.0,
                        data: payment,
                        http_code: status_code,
                        apple_pay_amount: read.1,
                    },
                ),
                r,
            ),
    {
        let (response, apple_pay_amount) = read;
        transform(
            ResponseRouterData {
                response,
                data: payment,
                http_code: status_code,
                apple_pay_amount,
            },
        )
    }

    /// Reads the response to a request for a payment. `parse` decodes the body as
    /// the message that is expected, `convert` converts the amount that a wallet is
    /// shown, and `transform` brings the decoded response into the payment. It is
    /// handed no response whose amount cannot be had.
    pub fn handle_response<A, T, E, P, C, F>(
        &self,
        req: &FlowRequest,
        payment: A,
        res: &Response,
        parse: P,
        convert: C,
        transform: F,
    ) -> (r: Result<A, ConnectorError>) where
        P: FnOnce(&Vec<u8>, Expected) -> Result<T, E>,
        C: FnOnce(AmountConversion) -> Result<String, ConnectorError>,
        F: FnOnce(ResponseRouterData<T, A>) -> Result<A, ConnectorError>,

        requires
            response_can_be_handled(
                expected(req.spec_flow()),
                self.spec_wallet_amount(*req),
                payment,
                *res,
                parse,
                convert,
                transform,
            ),
        ensures
            response_handled(
                expected(req.spec_flow()),
                self.spec_wallet_amount(*req),
                payment,
                *res,
                parse,
                convert,
                transform,
                r,
            ),
    {
        match self.read_response(req, res, parse, convert) {
            Ok(read) => self.transform_response(payment, res.status_code, read, transform),
            Err(e) => Err(e),
        }
    }

    /// The report of an error that PayMe describes.
    pub fn error_response(&self, data: &PaymeErrorResponse, status_code: u16) -> (error:
        ErrorResponse)
        ensures
            reports(error, *data, status_code),
    {
        let status_code: u16 = if 500 <= status_code && status_code <= 511 {
            200
        } else {
            status_code
        };
        ErrorResponse {
            status_code,
            code: decimal(data.status_error_code),
            message: data.status_error_details.clone(),
            reason: Some(
                data.status_error_details.clone().concat(", additional info: ").concat(
                    data.status_additional_info.as_str(),
                ),
            ),
            attempt_status: None,
            connector_transaction_id: None,
        }
    }

    /// Answers a failed request. `parse` decodes the body as an error message;
    /// where it is none, `fallback` answers, told the name of the connector.
    pub fn build_error_response<E, P, F>(&self, res: Response, parse: P, fallback: F) -> (r:
        HandledError) where
        P: FnOnce(&Vec<u8>) -> Result<PaymeErrorResponse, E>,
        F: FnOnce(Response, &'static str) -> Result<ErrorResponse, ConnectorError>,

        requires
            error_can_be_handled(res, parse, fallback),
        ensures
            error_handled(res, parse, fallback, r),
    {
        match parse(&res.response) {
            Ok(data) => {
                let error = self.error_response(&data, res.status_code);
                HandledError { event: ErrorEvent::ErrorResponseBody(data), result: Ok(error) }
            },
            Err(_) => {
                let event = ErrorEvent::Error {
                    error: escape_ascii(res.response.as_slice()),
                    status_code: res.status_code,
                };
                HandledError { event, result: fallback(res, self.id()) }
            },
        }
    }

    /// Answers a failed request of a flow. The sync flow has no answer of its own.
    pub fn get_error_response<E, P, F>(
        &self,
        flow: Flow,
        res: Response,
        parse: P,
        fallback: F,
    ) -> (r: Option<HandledError>) where
        P: FnOnce(&Vec<u8>) -> Result<PaymeErrorResponse, E>,
        F: FnOnce(Response, &'static str) -> Result<ErrorResponse, ConnectorError>,

        requires
            flow != Flow::PSync ==> error_can_be_handled(res, parse, fallback),
        ensures
            r is None <==> flow == Flow::PSync,
            r matches Some(handled) ==> error_handled(res, parse, fallback, handled),
    {
        match flow {
            Flow::PSync => None,
            _ => Some(self.build_error_response(res, parse, fallback)),
        }
    }

    /// Answers a request of any flow that failed with a server error. PayMe
    /// answers every error with one, so that it is read like any other.
    pub fn get_5xx_error_response<E, P, F>(&self, res: Response, parse: P, fallback: F) -> (r:
        HandledError) where
        P: FnOnce(&Vec<u8>) -> Result<PaymeErrorResponse, E>,
        F: FnOnce(Response, &'static str) -> Result<ErrorResponse, ConnectorError>,

        requires
            error_can_be_handled(res, parse, fallback),
        ensures
            error_handled(res, parse, fallback, r),
    {
        self.build_error_response(res, parse, fallback)
    }

    /// Accepts a payment whose capture method PayMe can serve.
    pub fn validate_connector_against_payment_request(
        &self,
        capture_method: Option<CaptureMethod>,
    ) -> (r: Result<(), ConnectorError>)
        ensures
            ({
                let method = match capture_method {
                    Some(method) => method,
                    None => CaptureMethod::Automatic,
                };
                r == if captures(method) {
                    Ok::<(), ConnectorError>(())
                } else {
                    Err(
                        ConnectorError::CaptureMethodNotSupported {
                            capture_method: method,
                            connector: "payme",
                        },
                    )
                }
            }),
    {
        let capture_method = capture_method.unwrap_or_default();
        match capture_method {
            CaptureMethod::Automatic
            | CaptureMethod::Manual
            | CaptureMethod::SequentialAutomatic => Ok(()),
            CaptureMethod::ManualMultiple | CaptureMethod::Scheduled => Err(
                ConnectorError::CaptureMethodNotSupported { capture_method, connector: self.id() },
            ),
        }
    }

    /// Accepts a mandate on payment method data that PayMe can charge again.
    pub fn validate_mandate_payment(
        &self,
        pm_type: Option<PaymentMethodType>,
        pm_data: PaymentMethodDataType,
    ) -> (r: Result<(), ConnectorError>)
        ensures
            r == if mandates(pm_data) {
                Ok::<(), ConnectorError>(())
            } else {
                Err(
                    ConnectorError::MandateNotSupported {
                        payment_method_type: pm_type,
                        connector: "payme",
                    },
                )
            },
    {
        match pm_data {
            PaymentMethodDataType::Card | PaymentMethodDataType::ApplePayThirdPartySdk => Ok(()),
            PaymentMethodDataType::Other => Err(
                ConnectorError::MandateNotSupported {
                    payment_method_type: pm_type,
                    connector: self.id(),
                },
            ),
        }
    }

    /// A buyer who comes back from a redirection leads to a call of the connector.
    pub fn get_flow_type(&self, action: PaymentAction) -> (r: Result<
        CallConnectorAction,
        ConnectorError,
    >)
        ensures
            r == Ok::<CallConnectorAction, ConnectorError>(CallConnectorAction::Trigger),
    {
        match action {
            PaymentAction::PSync
            | PaymentAction::CompleteAuthorize
            | PaymentAction::PaymentAuthenticateCompleteAuthorize => Ok(
                CallConnectorAction::Trigger,
            ),
        }
    }
}

} // verus!
