//! The authorize flow: the connector is called, and the mandate that the payment
//! rests on, or gives rise to, is kept up to date.
//!
//! The flow performs no I/O. It says which action comes next, and is given the
//! reply as an event.

use crate::mandates::{
    make_mandate, new_mandate, Customer, Mandate, MandateData, MandateNew, MandateStatus,
    MandateType,
};
use vstd::prelude::*;

verus! {

/// Whether later payments are made with or without the customer.
#[derive(Debug, Clone, Copy, PartialEq, Eq, Structural)]
pub enum FutureUsage {
    OffSession,
    OnSession,
}

/// What is to be authorized. `D` is the data of the payment method.
#[derive(Debug, PartialEq, Eq)]
pub struct PaymentsAuthorizeData<D> {
    pub mandate_id: Option<String>,
    pub setup_future_usage: Option<FutureUsage>,
    pub setup_mandate_details: Option<MandateData>,
    pub payment_method_data: D,
}

/// A payment on its way through the authorize flow. `R` is whatever else it
/// carries, which the flow does not look at.
#[derive(Debug, PartialEq, Eq)]
pub struct PaymentsAuthorizeRouterData<D, R> {
    pub merchant_id: String,
    pub payment_method: String,
    pub payment_method_id: Option<String>,
    pub request: PaymentsAuthorizeData<D>,
    pub other: R,
}

/// What the caller of the flow is told.
#[derive(Debug, Clone, Copy, PartialEq, Eq, Structural)]
pub enum ApiErrorResponse {
    MandateNotFound,
    DuplicateRefundRequest,
}

/// Why the flow failed: an error of the outside, and how it is told.
#[derive(Debug, PartialEq, Eq)]
pub enum FlowError<E> {
    /// The connector failed: told as a failed payment.
    PaymentFailed(E),
    /// Told as `response`, whatever the error was.
    Context { response: ApiErrorResponse, error: E },
    /// Told as it is.
    Unchanged(E),
    /// Told as `response` where the error says that the entry is there already.
    Duplicate { response: ApiErrorResponse, error: E },
}

/// How far the flow has come. `response` is the payment as the connector left it.
#[derive(Debug, PartialEq, Eq)]
pub enum Stage<D, R, E> {
    /// The connector is called.
    CallConnector,
    /// The mandate that the payment rests on is looked up.
    FindMandate { response: PaymentsAuthorizeRouterData<D, R>, mandate_id: String },
    /// The mandate is good for one payment only, and this was it.
    RevokeMandate { response: PaymentsAuthorizeRouterData<D, R>, mandate_id: String },
    /// The payment method is kept for later payments.
    CallPaymentMethod { response: PaymentsAuthorizeRouterData<D, R> },
    /// An identifier for a new mandate is drawn.
    GenerateMandateId {
        response: PaymentsAuthorizeRouterData<D, R>,
        payment_method_id: String,
    },
    /// The new mandate is stored.
    InsertMandate { response: PaymentsAuthorizeRouterData<D, R>, mandate: MandateNew },
    /// The payment was not confirmed, and is handed back as it came.
    NotConfirmed,
    /// The flow is over.
    Done { result: Result<PaymentsAuthorizeRouterData<D, R>, FlowError<E>> },
}

/// What is to be done next.
#[derive(Debug, PartialEq, Eq)]
pub enum Action<'a, D, R, C> {
    /// Run the processing step of the connector on the payment.
    ExecuteConnectorStep {
        data: &'a PaymentsAuthorizeRouterData<D, R>,
        call_connector_action: &'a C,
    },
    /// Look up a mandate of a merchant.
    FindMandate { merchant_id: &'a String, mandate_id: &'a String },
    /// Give a mandate of a merchant another status.
    UpdateMandate {
        merchant_id: &'a String,
        mandate_id: &'a String,
        mandate_status: MandateStatus,
    },
    /// Keep a payment method.
    CallPaymentMethod {
        merchant_id: &'a String,
        payment_method_data: &'a D,
        payment_method: &'a String,
        customer: &'a Option<Customer>,
    },
    /// Draw an identifier of this length behind this prefix.
    GenerateId { length: usize, prefix: &'static str },
    /// Store a mandate.
    InsertMandate { mandate: &'a MandateNew },
    /// Nothing: the flow is over.
    Finish,
}

/// The reply to an action.
#[derive(Debug, PartialEq, Eq)]
pub enum Event<D, R, E> {
    ConnectorStepExecuted(Result<PaymentsAuthorizeRouterData<D, R>, E>),
    MandateFound(Result<Mandate, E>),
    MandateUpdated(Result<Mandate, E>),
    /// The identifier that the payment method is kept under.
    PaymentMethodCalled(Result<String, E>),
    IdGenerated(String),
    MandateInserted(Result<(), E>),
}

/// A run of the authorize flow.
#[derive(Debug, PartialEq, Eq)]
pub struct AuthorizeFlow<D, R, C, E> {
    /// The payment as it came.
    pub data: PaymentsAuthorizeRouterData<D, R>,
    pub customer: Option<Customer>,
    pub call_connector_action: C,
    /// The length of a drawn identifier.
    pub id_length: usize,
    pub stage: Stage<D, R, E>,
}

/// A run of the authorize flow whose payment is counted when it is over.
#[derive(Debug, PartialEq, Eq)]
pub struct CountedFlow<D, R, C, E, P> {
    pub flow: AuthorizeFlow<D, R, C, E>,
    /// Whatever the caller wants back at the end.
    pub payment_data: P,
    /// Whether the payment was counted.
    pub counted: bool,
}

/// What is to be done next in a counted run.
#[derive(Debug, PartialEq, Eq)]
pub enum CountedAction<'a, D, R, C> {
    Flow(Action<'a, D, R, C>),
    /// Add to the number of payments.
    CountPayment { add: u64 },
    /// Nothing: the run is over.
    Finish,
}

/// The reply to an action of a counted run.
#[derive(Debug, PartialEq, Eq)]
pub enum CountedEvent<D, R, E> {
    Flow(Event<D, R, E>),
    PaymentCounted,
}

impl<D, R> PaymentsAuthorizeRouterData<D, R> {
    /// The payment with another payment method identifier.
    pub open spec fn with_payment_method_id(self, id: String) -> Self {
        PaymentsAuthorizeRouterData { payment_method_id: Some(id), ..self }
    }

    /// The payment with another mandate identifier.
    pub open spec fn with_mandate_id(self, id: String) -> Self {
        PaymentsAuthorizeRouterData {
            request: PaymentsAuthorizeData { mandate_id: Some(id), ..self.request },
            ..self
        }
    }

    /// The mandate that the payment gives rise to: one only where the payment
    /// asks for one and its customer is known.
    pub open spec fn generated_mandate(
        self,
        customer: Option<Customer>,
        payment_method_id: String,
        mandate_id: String,
    ) -> Option<MandateNew> {
        match (self.request.setup_mandate_details, customer) {
            (Some(details), Some(customer)) => Some(
                new_mandate(details, customer, self.merchant_id, payment_method_id, mandate_id),
            ),
            _ => None,
        }
    }

    /// Makes the mandate that the payment gives rise to, under a fresh identifier.
    pub fn generate_mandate(
        &self,
        customer: &Option<Customer>,
        payment_method_id: String,
        mandate_id: String,
    ) -> (r: Option<MandateNew>)
        ensures
            r == self.generated_mandate(*customer, payment_method_id, mandate_id),
    {
        match (&self.request.setup_mandate_details, customer) {
            (Some(details), Some(customer)) => Some(
                make_mandate(details, customer, &self.merchant_id, payment_method_id, mandate_id),
            ),
            _ => None,
        }
    }

    /// Starts the flow on the payment. Only a payment that was confirmed is sent
    /// to the connector.
    pub fn decide_flow<C, E>(
        self,
        maybe_customer: Option<Customer>,
        confirm: Option<bool>,
        call_connector_action: C,
        id_length: usize,
    ) -> (flow: AuthorizeFlow<D, R, C, E>)
        ensures
            flow == AuthorizeFlow::<D, R, C, E>::started(
                self,
                maybe_customer,
                confirm,
                call_connector_action,
                id_length,
            ),
    {
        let stage = match confirm {
            Some(true) => Stage::CallConnector,
            _ => Stage::NotConfirmed,
        };
        AuthorizeFlow {
            data: self,
            customer: maybe_customer,
            call_connector_action,
            id_length,
            stage,
        }
    }

    /// Starts the flow on a payment that is confirmed, and counts it when it is
    /// over. `payment_data` is handed back at the end.
    pub fn decide_flows<P, C, E>(
        self,
        customer: Option<Customer>,
        payment_data: P,
        call_connector_action: C,
        id_length: usize,
    ) -> (flow: CountedFlow<D, R, C, E, P>)
        ensures
            flow == (CountedFlow {
                flow: AuthorizeFlow::<D, R, C, E>::started(
                    self,
                    customer,
                    Some(true),
                    call_connector_action,
                    id_length,
                ),
                payment_data,
                counted: false,
            }),
    {
        CountedFlow {
            flow: self.decide_flow(customer, Some(true), call_connector_action, id_length),
            payment_data,
            counted: false,
        }
    }

    fn set_payment_method_id(self, id: String) -> (r: Self)
        ensures
            r == self.with_payment_method_id(id),
    {
        let mut data = self;
        data.payment_method_id = Some(id);
        data
    }

    fn set_mandate_id(self, id: String) -> (r: Self)
        ensures
            r == self.with_mandate_id(id),
    {
        let mut data = self;
        data.request.mandate_id = Some(id);
        data
    }
}

/// The stage that follows the reply of the connector.
pub open spec fn after_connector<D, R, E>(
    data: PaymentsAuthorizeRouterData<D, R>,
    reply: Result<PaymentsAuthorizeRouterData<D, R>, E>,
) -> Stage<D, R, E> {
    match reply {
        Err(e) => Stage::Done { result: Err(FlowError::PaymentFailed(e)) },
        Ok(response) => match data.request.mandate_id {
            Some(mandate_id) => Stage::FindMandate { response, mandate_id },
            None => if data.request.setup_future_usage is Some {
                Stage::CallPaymentMethod { response }
            } else {
                Stage::Done { result: Ok(response) }
            },
        },
    }
}

/// The end of the flow for a payment that rests on a mandate, once the mandate
/// is up to date.
pub open spec fn with_mandate<D, R, E>(
    response: PaymentsAuthorizeRouterData<D, R>,
    reply: Result<Mandate, E>,
) -> Stage<D, R, E> {
    match reply {
        Err(error) => Stage::Done {
            result: Err(
                FlowError::Context { response: ApiErrorResponse::MandateNotFound, error },
            ),
        },
        Ok(mandate) => Stage::Done {
            result: Ok(response.with_payment_method_id(mandate.payment_method_id)),
        },
    }
}

/// The stage that follows the look up of a mandate.
pub open spec fn after_find<D, R, E>(
    response: PaymentsAuthorizeRouterData<D, R>,
    mandate_id: String,
    reply: Result<Mandate, E>,
) -> Stage<D, R, E> {
    match reply {
        Ok(Mandate { mandate_type: MandateType::SingleUse, .. }) => Stage::RevokeMandate {
            response,
            mandate_id,
        },
        _ => with_mandate(response, reply),
    }
}

/// The stage that follows the keeping of a payment method.
pub open spec fn after_payment_method<D, R, E>(
    data: PaymentsAuthorizeRouterData<D, R>,
    customer: Option<Customer>,
    response: PaymentsAuthorizeRouterData<D, R>,
    reply: Result<String, E>,
) -> Stage<D, R, E> {
    match reply {
        Err(e) => Stage::Done { result: Err(FlowError::Unchanged(e)) },
        Ok(payment_method_id) => {
            let kept = response.with_payment_method_id(payment_method_id);
            if data.request.setup_mandate_details is Some && customer is Some {
                Stage::GenerateMandateId { response: kept, payment_method_id }
            } else {
                Stage::Done { result: Ok(kept) }
            }
        },
    }
}

/// The stage that follows the drawing of an identifier.
pub open spec fn after_id<D, R, E>(
    data: PaymentsAuthorizeRouterData<D, R>,
    customer: Option<Customer>,
    response: PaymentsAuthorizeRouterData<D, R>,
    payment_method_id: String,
    id: String,
) -> Stage<D, R, E> {
    match data.generated_mandate(customer, payment_method_id, id) {
        Some(mandate) => Stage::InsertMandate { response: response.with_mandate_id(id), mandate },
        None => Stage::Done { result: Ok(response) },
    }
}

/// The end of the flow for a payment that gives rise to a mandate.
pub open spec fn after_insert<D, R, E>(
    response: PaymentsAuthorizeRouterData<D, R>,
    reply: Result<(), E>,
) -> Stage<D, R, E> {
    match reply {
        Err(error) => Stage::Done {
            result: Err(
                FlowError::Duplicate { response: ApiErrorResponse::DuplicateRefundRequest, error },
            ),
        },
        Ok(_) => Stage::Done { result: Ok(response) },
    }
}

impl<D, R, C, E> AuthorizeFlow<D, R, C, E> {
    /// The stage that an event leads to. An event that answers another action
    /// than the one that is due changes nothing.
    pub open spec fn next_stage(self, event: Event<D, R, E>) -> Stage<D, R, E> {
        match (self.stage, event) {
            (Stage::CallConnector, Event::ConnectorStepExecuted(reply)) => after_connector(
                self.data,
                reply,
            ),
            (Stage::FindMandate { response, mandate_id }, Event::MandateFound(reply)) => after_find(
                response,
                mandate_id,
                reply,
            ),
            (Stage::RevokeMandate { response, .. }, Event::MandateUpdated(reply)) => with_mandate(
                response,
                reply,
            ),
            (
                Stage::CallPaymentMethod { response },
                Event::PaymentMethodCalled(reply),
            ) => after_payment_method(self.data, self.customer, response, reply),
            (
                Stage::GenerateMandateId { response, payment_method_id },
                Event::IdGenerated(id),
            ) => after_id(self.data, self.customer, response, payment_method_id, id),
            (Stage::InsertMandate { response, .. }, Event::MandateInserted(reply)) => after_insert(
                response,
                reply,
            ),
            _ => self.stage,
        }
    }

    /// The run after an event.
    pub open spec fn after(self, event: Event<D, R, E>) -> Self {
        AuthorizeFlow { stage: self.next_stage(event), ..self }
    }

    /// The action that is due.
    pub open spec fn due(&self) -> Action<'_, D, R, C> {
        match &self.stage {
            Stage::CallConnector => Action::ExecuteConnectorStep {
                data: &self.data,
                call_connector_action: &self.call_connector_action,
            },
            Stage::FindMandate { response, mandate_id } => Action::FindMandate {
                merchant_id: &response.merchant_id,
                mandate_id,
            },
            Stage::RevokeMandate { response, mandate_id } => Action::UpdateMandate {
                merchant_id: &response.merchant_id,
                mandate_id,
                mandate_status: MandateStatus::Revoked,
            },
            Stage::CallPaymentMethod { .. } => Action::CallPaymentMethod {
                merchant_id: &self.data.merchant_id,
                payment_method_data: &self.data.request.payment_method_data,
                payment_method: &self.data.payment_method,
                customer: &self.customer,
            },
            Stage::GenerateMandateId { .. } => Action::GenerateId {
                length: self.id_length,
                prefix: "man",
            },
            Stage::InsertMandate { mandate, .. } => Action::InsertMandate { mandate },
            Stage::NotConfirmed => Action::Finish,
            Stage::Done { .. } => Action::Finish,
        }
    }

    /// The result of a run that is over.
    pub open spec fn outcome(self) -> Option<
        Result<PaymentsAuthorizeRouterData<D, R>, FlowError<E>>,
    > {
        match self.stage {
            Stage::NotConfirmed => Some(Ok(self.data)),
            Stage::Done { result } => Some(result),
            _ => None,
        }
    }

    /// The run at its start: a payment that was not confirmed goes no further.
    pub open spec fn started(
        data: PaymentsAuthorizeRouterData<D, R>,
        customer: Option<Customer>,
        confirm: Option<bool>,
        call_connector_action: C,
        id_length: usize,
    ) -> Self {
        AuthorizeFlow {
            data,
            customer,
            call_connector_action,
            id_length,
            stage: if confirm == Some(true) {
                Stage::CallConnector
            } else {
                Stage::NotConfirmed
            },
        }
    }

    /// The action that is due.
    pub fn action(&self) -> (action: Action<'_, D, R, C>)
        ensures
            action == self.due(),
    {
        match &self.stage {
            Stage::CallConnector => Action::ExecuteConnectorStep {
                data: &self.data,
                call_connector_action: &self.call_connector_action,
            },
            Stage::FindMandate { response, mandate_id } => Action::FindMandate {
                merchant_id: &response.merchant_id,
                mandate_id,
            },
            Stage::RevokeMandate { response, mandate_id } => Action::UpdateMandate {
                merchant_id: &response.merchant_id,
                mandate_id,
                mandate_status: MandateStatus::Revoked,
            },
            Stage::CallPaymentMethod { .. } => Action::CallPaymentMethod {
                merchant_id: &self.data.merchant_id,
                payment_method_data: &self.data.request.payment_method_data,
                payment_method: &self.data.payment_method,
                customer: &self.customer,
            },
            Stage::GenerateMandateId { .. } => Action::GenerateId {
                length: self.id_length,
                prefix: "man",
            },
            Stage::InsertMandate { mandate, .. } => Action::InsertMandate { mandate },
            Stage::NotConfirmed => Action::Finish,
            Stage::Done { .. } => Action::Finish,
        }
    }

    /// Takes the reply to the action that is due.
    pub fn step(self, event: Event<D, R, E>) -> (flow: Self)
        ensures
            flow == self.after(event),
    {
        let AuthorizeFlow { data, customer, call_connector_action, id_length, stage } = self;
        let stage = match (stage, event) {
            (Stage::CallConnector, Event::ConnectorStepExecuted(reply)) => match reply {
                Err(e) => Stage::Done { result: Err(FlowError::PaymentFailed(e)) },
                Ok(response) => match &data.request.mandate_id {
                    Some(mandate_id) => Stage::FindMandate {
                        response,
                        mandate_id: mandate_id.clone(),
                    },
                    None => {
                        if data.request.setup_future_usage.is_some() {
                            Stage::CallPaymentMethod { response }
                        } else {
                            Stage::Done { result: Ok(response) }
                        }
                    },
                },
            },
            (Stage::FindMandate { response, mandate_id }, Event::MandateFound(reply)) => match reply {
                Ok(mandate) => match mandate.mandate_type {
                    MandateType::SingleUse => Stage::RevokeMandate { response, mandate_id },
                    MandateType::MultiUse => Self::keep_mandate(response, Ok(mandate)),
                },
                Err(e) => Self::keep_mandate(response, Err(e)),
            },
            (
                Stage::RevokeMandate { response, .. },
                Event::MandateUpdated(reply),
            ) => Self::keep_mandate(response, reply),
            (
                Stage::CallPaymentMethod { response },
                Event::PaymentMethodCalled(reply),
            ) => match reply {
                Err(e) => Stage::Done { result: Err(FlowError::Unchanged(e)) },
                Ok(payment_method_id) => {
                    let response = response.set_payment_method_id(payment_method_id.clone());
                    if data.request.setup_mandate_details.is_some() && customer.is_some() {
                        Stage::GenerateMandateId { response, payment_method_id }
                    } else {
                        Stage::Done { result: Ok(response) }
                    }
                },
            },
            (
                Stage::GenerateMandateId { response, payment_method_id },
                Event::IdGenerated(id),
            ) => match data.generate_mandate(&customer, payment_method_id, id) {
                Some(mandate) => Stage::InsertMandate {
                    response: response.set_mandate_id(mandate.mandate_id.clone()),
                    mandate,
                },
                None => Stage::Done { result: Ok(response) },
            },
            (Stage::InsertMandate { response, .. }, Event::MandateInserted(reply)) => match reply {
                Err(error) => Stage::Done {
                    result: Err(
                        FlowError::Duplicate {
                            response: ApiErrorResponse::DuplicateRefundRequest,
                            error,
                        },
                    ),
                },
                Ok(_) => Stage::Done { result: Ok(response) },
            },
            (stage, _) => stage,
        };
        AuthorizeFlow { data, customer, call_connector_action, id_length, stage }
    }

    fn keep_mandate(
        response: PaymentsAuthorizeRouterData<D, R>,
        reply: Result<Mandate, E>,
    ) -> (stage: Stage<D, R, E>)
        ensures
            stage == with_mandate(response, reply),
    {
        match reply {
            Err(error) => Stage::Done {
                result: Err(
                    FlowError::Context { response: ApiErrorResponse::MandateNotFound, error },
                ),
            },
            Ok(mandate) => Stage::Done {
                result: Ok(response.set_payment_method_id(mandate.payment_method_id)),
            },
        }
    }

    /// Whether the run is over.
    pub fn is_over(&self) -> (over: bool)
        ensures
            over == (self.outcome() is Some),
    {
        match &self.stage {
            Stage::NotConfirmed => true,
            Stage::Done { .. } => true,
            _ => false,
        }
    }

    /// The result of a run that is over, or the run where it is not.
    pub fn finish(self) -> (r: Result<
        Result<PaymentsAuthorizeRouterData<D, R>, FlowError<E>>,
        Self,
    >)
        ensures
            match self.outcome() {
                Some(result) => r == Ok::<
                    Result<PaymentsAuthorizeRouterData<D, R>, FlowError<E>>,
                    Self,
                >(result),
                None => r == Err::<
                    Result<PaymentsAuthorizeRouterData<D, R>, FlowError<E>>,
                    Self,
                >(self),
            },
    {
        let AuthorizeFlow { data, customer, call_connector_action, id_length, stage } = self;
        match stage {
            Stage::NotConfirmed => Ok(Ok(data)),
            Stage::Done { result } => Ok(result),
            stage => Err(
                AuthorizeFlow { data, customer, call_connector_action, id_length, stage },
            ),
        }
    }
}

impl<D, R, C, E, P> CountedFlow<D, R, C, E, P> {
    /// The run after an event: the flow takes its events, and the payment is
    /// counted only once the flow is over.
    pub open spec fn after(self, event: CountedEvent<D, R, E>) -> Self {
        match event {
            CountedEvent::Flow(event) => CountedFlow { flow: self.flow.after(event), ..self },
            CountedEvent::PaymentCounted => CountedFlow {
                counted: self.counted || self.flow.outcome() is Some,
                ..self
            },
        }
    }

    /// The action that is due: those of the flow, then the counting.
    pub open spec fn due(&self) -> CountedAction<'_, D, R, C> {
        if self.flow.outcome() is None {
            CountedAction::Flow(self.flow.due())
        } else if !self.counted {
            CountedAction::CountPayment { add: 1 }
        } else {
            CountedAction::Finish
        }
    }

    /// The action that is due.
    pub fn action(&self) -> (action: CountedAction<'_, D, R, C>)
        ensures
            action == self.due(),
    {
        if !self.flow.is_over() {
            CountedAction::Flow(self.flow.action())
        } else if !self.counted {
            CountedAction::CountPayment { add: 1 }
        } else {
            CountedAction::Finish
        }
    }

    /// Takes the reply to the action that is due.
    pub fn step(self, event: CountedEvent<D, R, E>) -> (flow: Self)
        ensures
            flow == self.after(event),
    {
        let CountedFlow { flow, payment_data, counted } = self;
        match event {
            CountedEvent::Flow(event) => CountedFlow {
                flow: flow.step(event),
                payment_data,
                counted,
            },
            CountedEvent::PaymentCounted => {
                let counted = counted || flow.is_over();
                CountedFlow { flow, payment_data, counted }
            },
        }
    }

    /// The result of a run that is over and counted, with the caller's data; or
    /// the run where it is not.
    pub fn finish(self) -> (r: Result<
        (Result<PaymentsAuthorizeRouterData<D, R>, FlowError<E>>, P),
        Self,
    >)
        ensures
            match (self.flow.outcome(), self.counted) {
                (Some(result), true) => r matches Ok((r_result, r_data)) && r_result == result
                    && r_data == self.payment_data,
                _ => r matches Err(flow) && flow == self,
            },
    {
        let CountedFlow { flow, payment_data, counted } = self;
        if !counted {
            return Err(CountedFlow { flow, payment_data, counted });
        }
        match flow.finish() {
            Ok(result) => Ok((result, payment_data)),
            Err(flow) => Err(CountedFlow { flow, payment_data, counted }),
        }
    }
}

/// The data of a payment for this flow, out of what was put together for it.
pub fn construct_r_d<P, R, E>(output: Result<(P, R), E>) -> (r: Result<R, E>)
    ensures
        r == (match output {
            Ok((_, data)) => Ok::<R, E>(data),
            Err(e) => Err(e),
        }),
{
    match output {
        Ok((_, data)) => Ok(data),
        Err(e) => Err(e),
    }
}

} // verus!
