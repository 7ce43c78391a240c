//! The plain data that the connector reads and makes.

use crate::errors::ConnectorError;
use vstd::prelude::*;

verus! {

/// An amount in the smallest unit of its currency.
#[derive(Debug, Clone, Copy, PartialEq, Eq)]
pub struct MinorUnit(pub i64);

/// A currency, by its code.
#[derive(Debug, PartialEq, Eq)]
pub struct Currency {
    pub code: String,
}

impl Clone for Currency {
    fn clone(&self) -> (r: Self)
        ensures
            r == *self,
    {
        Currency { code: self.code.clone() }
    }
}

/// The kind of a payment method, by its name.
#[derive(Debug, PartialEq, Eq)]
pub struct PaymentMethodType {
    pub name: String,
}

impl Clone for PaymentMethodType {
    fn clone(&self) -> (r: Self)
        ensures
            r == *self,
    {
        PaymentMethodType { name: self.name.clone() }
    }
}

/// When the money of an authorized payment is taken.
#[derive(Debug, Clone, Copy, PartialEq, Eq, Structural)]
pub enum CaptureMethod {
    Automatic,
    Manual,
    ManualMultiple,
    Scheduled,
    SequentialAutomatic,
}

impl Default for CaptureMethod {
    fn default() -> (r: Self)
        ensures
            r == CaptureMethod::Automatic,
    {
        CaptureMethod::Automatic
    }
}

/// The data that stands behind a payment method, as far as mandates go by it.
#[derive(Debug, Clone, Copy, PartialEq, Eq, Structural)]
pub enum PaymentMethodDataType {
    Card,
    ApplePayThirdPartySdk,
    /// Any other payment method data.
    Other,
}

/// Whether the buyer is authenticated by the 3-D Secure protocol.
#[derive(Debug, Clone, Copy, PartialEq, Eq, Structural)]
pub enum AuthenticationType {
    ThreeDs,
    NoThreeDs,
}

/// The unit that the connector counts amounts in.
#[derive(Debug, Clone, Copy, PartialEq, Eq, Structural)]
pub enum CurrencyUnit {
    Base,
    Minor,
}

/// How an amount in minor units is turned into the form that a message wants.
#[derive(Debug, Clone, Copy, PartialEq, Eq, Structural)]
pub enum AmountConverter {
    /// An amount in minor units.
    MinorUnitForConnector,
    /// A text in the major unit.
    StringMajorUnitForConnector,
}

/// An amount that is to be converted.
#[derive(Debug, PartialEq, Eq)]
pub struct AmountConversion {
    pub converter: AmountConverter,
    pub amount: MinorUnit,
    pub currency: Currency,
}

/// Where a connector is reached.
#[derive(Debug, PartialEq, Eq)]
pub struct ConnectorParams {
    pub base_url: String,
}

/// Where the connectors are reached.
#[derive(Debug, PartialEq, Eq)]
pub struct Connectors {
    pub payme: ConnectorParams,
}

/// The flows that the connector takes part in.
#[derive(Debug, Clone, Copy, PartialEq, Eq, Structural)]
pub enum Flow {
    PaymentMethodToken,
    PreProcessing,
    CompleteAuthorize,
    Authorize,
    PSync,
    Capture,
    Void,
    Execute,
    RSync,
}

/// What the connector reads of a request, flow by flow.
#[allow(inconsistent_fields)]
#[derive(Debug, PartialEq, Eq)]
pub enum FlowRequest {
    PaymentMethodToken { auth_type: AuthenticationType },
    /// The amount and the currency as they were looked up, or why they could not be.
    PreProcessing {
        minor_amount: Result<MinorUnit, ConnectorError>,
        currency: Result<Currency, ConnectorError>,
    },
    CompleteAuthorize,
    Authorize { mandate_id: Option<String>, minor_amount: MinorUnit, currency: Currency },
    PSync,
    Capture { minor_amount_to_capture: MinorUnit, currency: Currency },
    Void { minor_amount: Option<MinorUnit>, currency: Option<Currency> },
    Execute { minor_refund_amount: MinorUnit, currency: Currency },
    RSync,
}

impl FlowRequest {
    /// The flow that the request belongs to.
    pub open spec fn spec_flow(self) -> Flow {
        match self {
            FlowRequest::PaymentMethodToken { .. } => Flow::PaymentMethodToken,
            FlowRequest::PreProcessing { .. } => Flow::PreProcessing,
            FlowRequest::CompleteAuthorize => Flow::CompleteAuthorize,
            FlowRequest::Authorize { .. } => Flow::Authorize,
            FlowRequest::PSync => Flow::PSync,
            FlowRequest::Capture { .. } => Flow::Capture,
            FlowRequest::Void { .. } => Flow::Void,
            FlowRequest::Execute { .. } => Flow::Execute,
            FlowRequest::RSync => Flow::RSync,
        }
    }

    /// The flow that the request belongs to.
    pub fn flow(&self) -> (flow: Flow)
        ensures
            flow == self.spec_flow(),
    {
        match self {
            FlowRequest::PaymentMethodToken { .. } => Flow::PaymentMethodToken,
            FlowRequest::PreProcessing { .. } => Flow::PreProcessing,
            FlowRequest::CompleteAuthorize => Flow::CompleteAuthorize,
            FlowRequest::Authorize { .. } => Flow::Authorize,
            FlowRequest::PSync => Flow::PSync,
            FlowRequest::Capture { .. } => Flow::Capture,
            FlowRequest::Void { .. } => Flow::Void,
            FlowRequest::Execute { .. } => Flow::Execute,
            FlowRequest::RSync => Flow::RSync,
        }
    }
}

/// The message that goes to PayMe.
#[derive(Debug, Clone, Copy, PartialEq, Eq, Structural)]
pub enum RequestStruct {
    CaptureBuyerRequest,
    GenerateSaleRequest,
    Pay3dsRequest,
    PaymePaymentRequest,
    PaymeQuerySaleRequest,
    PaymentCaptureRequest,
    PaymeVoidRequest,
    PaymeRefundRequest,
    PaymeQueryTransactionRequest,
}

/// A message that is to be made, with the amount that has to be converted for it.
#[derive(Debug, PartialEq, Eq)]
pub struct BodyPlan {
    pub message: RequestStruct,
    pub amount: Option<AmountConversion>,
}

/// The message that comes from PayMe.
#[derive(Debug, Clone, Copy, PartialEq, Eq, Structural)]
pub enum ResponseStruct {
    CaptureBuyerResponse,
    GenerateSaleResponse,
    PaymePaySaleResponse,
    PaymePaymentsResponse,
    PaymeVoidResponse,
    PaymeRefundResponse,
    PaymeQueryTransactionResponse,
}

/// The message that a response body is read as, and the name it is known by in
/// the report of a failure.
#[derive(Debug, Clone, Copy, PartialEq, Eq)]
pub struct Expected {
    pub message: ResponseStruct,
    pub name: &'static str,
}

/// A header value, kept out of logs or not.
#[derive(Debug, PartialEq, Eq)]
pub enum Maskable {
    Masked(String),
    Normal(String),
}

/// An HTTP method.
#[derive(Debug, Clone, Copy, PartialEq, Eq, Structural)]
pub enum Method {
    Get,
    Post,
    Put,
    Delete,
    Patch,
}

/// A request body.
#[derive(Debug, PartialEq, Eq)]
pub enum RequestContent<B> {
    Json(B),
}

/// A request that is ready to be sent.
#[derive(Debug, PartialEq, Eq)]
pub struct Request<B> {
    pub method: Method,
    pub url: String,
    /// Whether the headers that every request carries go before `headers`.
    pub default_headers: bool,
    pub headers: Vec<(String, Maskable)>,
    pub body: RequestContent<B>,
}

/// A response as it was received.
#[derive(Debug, PartialEq, Eq)]
pub struct Response {
    pub response: Vec<u8>,
    pub status_code: u16,
}

/// A decoded response, on its way back into the payment.
#[derive(Debug, PartialEq, Eq)]
pub struct ResponseRouterData<T, A> {
    pub response: T,
    /// The payment as it was sent.
    pub data: A,
    pub http_code: u16,
    /// The amount in the major unit, for the flow that hands one to a wallet.
    pub apple_pay_amount: Option<String>,
}

/// What PayMe says of a failed request.
#[derive(Debug, PartialEq, Eq)]
pub struct PaymeErrorResponse {
    pub status_error_code: i64,
    pub status_error_details: String,
    pub status_additional_info: String,
}

/// A failed request as the payment sees it.
#[derive(Debug, PartialEq, Eq)]
pub struct ErrorResponse {
    pub status_code: u16,
    pub code: String,
    pub message: String,
    pub reason: Option<String>,
    pub attempt_status: Option<String>,
    pub connector_transaction_id: Option<String>,
}

/// What is recorded of a failed request.
#[derive(Debug, PartialEq, Eq)]
pub enum ErrorEvent {
    /// The decoded error message.
    ErrorResponseBody(PaymeErrorResponse),
    /// The body in printable ASCII, where it was no error message.
    Error { error: String, status_code: u16 },
}

/// A failed request, as it is recorded and as it is answered.
#[derive(Debug, PartialEq, Eq)]
pub struct HandledError {
    pub event: ErrorEvent,
    pub result: Result<ErrorResponse, ConnectorError>,
}

/// What brings a buyer back from a redirection.
#[derive(Debug, Clone, Copy, PartialEq, Eq, Structural)]
pub enum PaymentAction {
    PSync,
    CompleteAuthorize,
    PaymentAuthenticateCompleteAuthorize,
}

/// What a redirection leads to.
#[derive(Debug, Clone, Copy, PartialEq, Eq, Structural)]
pub enum CallConnectorAction {
    /// The connector is called.
    Trigger,
    /// The connector is not called.
    Avoid,
}

/// A request belongs to the flow that it is named after, whatever it holds.
pub proof fn requests_belong_to_their_flow(req: FlowRequest, flow: Flow)
    requires
        call_ensures(FlowRequest::flow, (&req,), flow),
    ensures
        req is PaymentMethodToken <==> flow == Flow::PaymentMethodToken,
        req is PreProcessing <==> flow == Flow::PreProcessing,
        req is CompleteAuthorize <==> flow == Flow::CompleteAuthorize,
        req is Authorize <==> flow == Flow::Authorize,
        req is PSync <==> flow == Flow::PSync,
        req is Capture <==> flow == Flow::Capture,
        req is Void <==> flow == Flow::Void,
        req is Execute <==> flow == Flow::Execute,
        req is RSync <==> flow == Flow::RSync,
{
}

/// A copy of a currency, of a kind of payment method or of an error is the same as what
/// it was made of, and a capture method that is not given is the automatic one.
pub proof fn copies_are_the_same(
    currency: Currency,
    currency_copy: Currency,
    kind: PaymentMethodType,
    kind_copy: PaymentMethodType,
    error: ConnectorError,
    error_copy: ConnectorError,
    method: CaptureMethod,
)
    requires
        call_ensures(<Currency as Clone>::clone, (&currency,), currency_copy),
        call_ensures(<PaymentMethodType as Clone>::clone, (&kind,), kind_copy),
        call_ensures(<ConnectorError as Clone>::clone, (&error,), error_copy),
        call_ensures(<CaptureMethod as Default>::default, (), method),
    ensures
        currency_copy == currency,
        kind_copy == kind,
        error_copy == error,
        method == CaptureMethod::Automatic,
{
}

} // verus!
