//! What holds of every run of the authorize flow.

use crate::authorize_flow::{
    construct_r_d, Action, ApiErrorResponse, AuthorizeFlow, CountedAction, CountedEvent,
    CountedFlow, Event, FlowError, PaymentsAuthorizeData, PaymentsAuthorizeRouterData, Stage,
};
use crate::mandates::{
    Customer, Mandate, MandateData, MandateNew, MandateStatus, MandateType, RequestedMandateType,
};
use vstd::prelude::*;

verus! {

/// What the outside answers, whenever it is asked.
pub struct Answers<D, R, E> {
    pub connector: Result<PaymentsAuthorizeRouterData<D, R>, E>,
    pub found: Result<Mandate, E>,
    pub updated: Result<Mandate, E>,
    pub payment_method: Result<String, E>,
    pub id: String,
    pub inserted: Result<(), E>,
}

/// The actions, without what they are done to.
pub enum ActionKind {
    Connector,
    FindMandate,
    UpdateMandate,
    PaymentMethod,
    GenerateId,
    InsertMandate,
}

impl<D, R, E> Answers<D, R, E> {
    /// The event that answers the action of a stage.
    pub open spec fn reply(self, stage: Stage<D, R, E>) -> Event<D, R, E> {
        match stage {
            Stage::CallConnector => Event::ConnectorStepExecuted(self.connector),
            Stage::FindMandate { .. } => Event::MandateFound(self.found),
            Stage::RevokeMandate { .. } => Event::MandateUpdated(self.updated),
            Stage::CallPaymentMethod { .. } => Event::PaymentMethodCalled(self.payment_method),
            Stage::GenerateMandateId { .. } => Event::IdGenerated(self.id),
            _ => Event::MandateInserted(self.inserted),
        }
    }

    /// The mandate after a payment on it: a single-use mandate is updated.
    pub open spec fn mandate(self) -> Result<Mandate, E> {
        match self.found {
            Ok(Mandate { mandate_type: MandateType::SingleUse, .. }) => self.updated,
            _ => self.found,
        }
    }

    /// The result of a confirmed payment.
    pub open spec fn settled(
        self,
        data: PaymentsAuthorizeRouterData<D, R>,
        customer: Option<Customer>,
    ) -> Result<PaymentsAuthorizeRouterData<D, R>, FlowError<E>> {
        match self.connector {
            Err(e) => Err(FlowError::PaymentFailed(e)),
            Ok(response) => if data.request.mandate_id is Some {
                match self.mandate() {
                    Err(error) => Err(
                        FlowError::Context { response: ApiErrorResponse::MandateNotFound, error },
                    ),
                    Ok(mandate) => Ok(response.with_payment_method_id(mandate.payment_method_id)),
                }
            } else if data.request.setup_future_usage is None {
                Ok(response)
            } else {
                match self.payment_method {
                    Err(e) => Err(FlowError::Unchanged(e)),
                    Ok(id) => if data.request.setup_mandate_details is None || customer is None {
                        Ok(response.with_payment_method_id(id))
                    } else {
                        match self.inserted {
                            Err(error) => Err(
                                FlowError::Duplicate {
                                    response: ApiErrorResponse::DuplicateRefundRequest,
                                    error,
                                },
                            ),
                            Ok(_) => Ok(
                                response.with_payment_method_id(id).with_mandate_id(self.id),
                            ),
                        }
                    },
                }
            },
        }
    }

    /// The actions that are done for a confirmed payment, in order.
    pub open spec fn performed(
        self,
        data: PaymentsAuthorizeRouterData<D, R>,
        customer: Option<Customer>,
    ) -> Seq<ActionKind> {
        seq![ActionKind::Connector] + if self.connector is Err {
            Seq::empty()
        } else if data.request.mandate_id is Some {
            seq![ActionKind::FindMandate] + if self.found matches Ok(mandate)
                && mandate.mandate_type == MandateType::SingleUse {
                seq![ActionKind::UpdateMandate]
            } else {
                Seq::empty()
            }
        } else if data.request.setup_future_usage is None {
            Seq::empty()
        } else {
            seq![ActionKind::PaymentMethod] + if self.payment_method is Ok
                && data.request.setup_mandate_details is Some && customer is Some {
                seq![ActionKind::GenerateId, ActionKind::InsertMandate]
            } else {
                Seq::empty()
            }
        }
    }
}

/// The kind of the action that is due at a stage, where one is.
pub open spec fn kind<D, R, C>(action: Action<'_, D, R, C>) -> Option<ActionKind> {
    match action {
        Action::ExecuteConnectorStep { .. } => Some(ActionKind::Connector),
        Action::FindMandate { .. } => Some(ActionKind::FindMandate),
        Action::UpdateMandate { .. } => Some(ActionKind::UpdateMandate),
        Action::CallPaymentMethod { .. } => Some(ActionKind::PaymentMethod),
        Action::GenerateId { .. } => Some(ActionKind::GenerateId),
        Action::InsertMandate { .. } => Some(ActionKind::InsertMandate),
        Action::Finish => None,
    }
}

/// How many actions a run can still ask for.
pub open spec fn actions_left<D, R, E>(stage: Stage<D, R, E>) -> nat {
    match stage {
        Stage::CallConnector => 4,
        Stage::CallPaymentMethod { .. } => 3,
        Stage::FindMandate { .. } => 2,
        Stage::GenerateMandateId { .. } => 2,
        Stage::RevokeMandate { .. } => 1,
        Stage::InsertMandate { .. } => 1,
        Stage::NotConfirmed => 0,
        Stage::Done { .. } => 0,
    }
}

/// A run that is answered until it is over.
pub open spec fn driven<D, R, C, E>(
    flow: AuthorizeFlow<D, R, C, E>,
    answers: Answers<D, R, E>,
) -> AuthorizeFlow<D, R, C, E>
    decreases actions_left(flow.stage),
{
    if flow.outcome() is Some {
        flow
    } else {
        driven(flow.after(answers.reply(flow.stage)), answers)
    }
}

/// The actions that a run asks for until it is over.
pub open spec fn actions<D, R, C, E>(
    flow: AuthorizeFlow<D, R, C, E>,
    answers: Answers<D, R, E>,
) -> Seq<ActionKind>
    decreases actions_left(flow.stage),
{
    match kind(flow.due()) {
        None => Seq::empty(),
        Some(first) => if flow.outcome() is Some {
            Seq::empty()
        } else {
            seq![first] + actions(flow.after(answers.reply(flow.stage)), answers)
        },
    }
}

/// Every answer brings a run nearer to its end, so that no run asks for more than
/// four actions.
pub proof fn answers_bring_the_end_nearer<D, R, C, E>(
    flow: AuthorizeFlow<D, R, C, E>,
    answers: Answers<D, R, E>,
)
    requires
        flow.outcome() is None,
    ensures
        actions_left(flow.after(answers.reply(flow.stage)).stage) < actions_left(flow.stage),
        actions_left(flow.stage) <= 4,
{
}

/// A confirmed payment ends with the result that the answers of the outside
/// settle.
pub proof fn confirmed_payment_is_settled<D, R, C, E>(
    data: PaymentsAuthorizeRouterData<D, R>,
    customer: Option<Customer>,
    call_connector_action: C,
    id_length: usize,
    answers: Answers<D, R, E>,
)
    ensures
        ({
            let flow = AuthorizeFlow::<D, R, C, E>::started(
                data,
                customer,
                Some(true),
                call_connector_action,
                id_length,
            );
            driven(flow, answers).outcome() == Some(answers.settled(data, customer))
        }),
{
    reveal_with_fuel(driven, 6);
}

/// For a confirmed payment exactly the actions that its answers call for are
/// done: the connector is called first and once, a mandate is looked up where the
/// payment rests on one and updated where it was good for one payment, and a new
/// mandate is stored where the payment asks for one and is to be made again.
pub proof fn confirmed_payment_performs<D, R, C, E>(
    data: PaymentsAuthorizeRouterData<D, R>,
    customer: Option<Customer>,
    call_connector_action: C,
    id_length: usize,
    answers: Answers<D, R, E>,
)
    ensures
        ({
            let flow = AuthorizeFlow::<D, R, C, E>::started(
                data,
                customer,
                Some(true),
                call_connector_action,
                id_length,
            );
            actions(flow, answers) == answers.performed(data, customer)
        }),
{
    reveal_with_fuel(actions, 6);
    let flow = AuthorizeFlow::<D, R, C, E>::started(
        data,
        customer,
        Some(true),
        call_connector_action,
        id_length,
    );
    assert(actions(flow, answers) =~= answers.performed(data, customer));
}

/// A payment that is not confirmed is handed back as it came; nothing is done for
/// it, whatever happens.
pub proof fn unconfirmed_payment_is_handed_back<D, R, C, E>(
    data: PaymentsAuthorizeRouterData<D, R>,
    customer: Option<Customer>,
    confirm: Option<bool>,
    call_connector_action: C,
    id_length: usize,
    event: Event<D, R, E>,
)
    requires
        confirm != Some(true),
    ensures
        ({
            let flow = AuthorizeFlow::<D, R, C, E>::started(
                data,
                customer,
                confirm,
                call_connector_action,
                id_length,
            );
            &&& flow.due() is Finish
            &&& flow.outcome() == Some(
                Ok::<PaymentsAuthorizeRouterData<D, R>, FlowError<E>>(data),
            )
            &&& flow.after(event) == flow
        }),
{
}

/// A run that is over stays as it is, and has nothing left to do.
pub proof fn finished_flow_is_final<D, R, C, E>(
    flow: AuthorizeFlow<D, R, C, E>,
    event: Event<D, R, E>,
)
    requires
        flow.outcome() is Some,
    ensures
        flow.after(event) == flow,
        flow.due() is Finish,
{
}

/// A run that is not over has something to do.
pub proof fn unfinished_flow_has_an_action<D, R, C, E>(flow: AuthorizeFlow<D, R, C, E>)
    requires
        flow.outcome() is None,
    ensures
        !(flow.due() is Finish),
{
}

/// A payment on a single-use mandate succeeds only once the mandate is revoked:
/// when the mandate has been found, its revocation is due, under the merchant
/// that the connector's response names, and only an update that was made leads
/// to success.
pub proof fn single_use_mandate_is_revoked<D, R, C, E>(
    flow: AuthorizeFlow<D, R, C, E>,
    mandate: Mandate,
    updated: Result<Mandate, E>,
)
    requires
        flow.stage is FindMandate,
        mandate.mandate_type == MandateType::SingleUse,
    ensures
        ({
            let revoking = flow.after(Event::MandateFound(Ok(mandate)));
            &&& revoking.due() matches Action::UpdateMandate {
                merchant_id,
                mandate_id,
                mandate_status,
            } && mandate_status == MandateStatus::Revoked && mandate_id
                == flow.stage->FindMandate_mandate_id && merchant_id
                == flow.stage->FindMandate_response.merchant_id
            &&& revoking.after(Event::MandateUpdated(updated)).outcome() matches Some(
                result,
            ) && (result is Ok <==> updated is Ok)
        }),
{
}

/// What a run at any stage rests on.
pub open spec fn consistent<D, R, C, E>(flow: AuthorizeFlow<D, R, C, E>) -> bool {
    let request = flow.data.request;
    let sets_up = request.mandate_id is None && request.setup_future_usage is Some;
    match flow.stage {
        Stage::FindMandate { mandate_id, .. } => request.mandate_id == Some(mandate_id),
        Stage::RevokeMandate { mandate_id, .. } => request.mandate_id == Some(mandate_id),
        Stage::CallPaymentMethod { .. } => sets_up,
        Stage::GenerateMandateId { response, payment_method_id } => {
            &&& sets_up
            &&& request.setup_mandate_details is Some
            &&& flow.customer is Some
            &&& response.payment_method_id == Some(payment_method_id)
        },
        Stage::InsertMandate { response, mandate } => {
            &&& sets_up
            &&& flow.data.generated_mandate(
                flow.customer,
                mandate.payment_method_id,
                mandate.mandate_id,
            ) == Some(mandate)
            &&& response.request.mandate_id == Some(mandate.mandate_id)
            &&& response.payment_method_id == Some(mandate.payment_method_id)
        },
        _ => true,
    }
}

/// A run after a row of events, answered or not.
pub open spec fn after_all<D, R, C, E>(
    flow: AuthorizeFlow<D, R, C, E>,
    events: Seq<Event<D, R, E>>,
) -> AuthorizeFlow<D, R, C, E>
    decreases events.len(),
{
    if events.len() == 0 {
        flow
    } else {
        after_all(flow, events.drop_last()).after(events.last())
    }
}

/// Whatever happens, and in whatever order, a mandate is looked up or revoked
/// only where the payment rests on it; a payment method is kept, an identifier
/// drawn and a mandate stored only where the payment rests on none and is to be
/// made again, the latter two only where it asks for a mandate and its customer
/// is known; and a mandate that is stored is the one that the payment gives rise
/// to, which the payment itself then names.
pub proof fn every_run_is_consistent<D, R, C, E>(
    data: PaymentsAuthorizeRouterData<D, R>,
    customer: Option<Customer>,
    confirm: Option<bool>,
    call_connector_action: C,
    id_length: usize,
    events: Seq<Event<D, R, E>>,
)
    ensures
        ({
            let start = AuthorizeFlow::<D, R, C, E>::started(
                data,
                customer,
                confirm,
                call_connector_action,
                id_length,
            );
            let flow = after_all(start, events);
            &&& consistent(flow)
            &&& flow.data == data
            &&& flow.customer == customer
        }),
    decreases events.len(),
{
    if events.len() > 0 {
        every_run_is_consistent(
            data,
            customer,
            confirm,
            call_connector_action,
            id_length,
            events.drop_last(),
        );
    }
}

/// A counted run is counted once, by one, when its flow is over and whatever its
/// result; only then does it finish, and the caller's data is untouched.
pub proof fn payment_is_counted_once<D, R, C, E, P>(
    run: CountedFlow<D, R, C, E, P>,
    event: CountedEvent<D, R, E>,
)
    requires
        run.counted ==> run.flow.outcome() is Some,
    ensures
        run.due() is CountPayment <==> (run.flow.outcome() is Some && !run.counted),
        run.due() matches CountedAction::CountPayment { add } ==> add == 1,
        run.due() is Finish <==> run.counted,
        run.after(CountedEvent::PaymentCounted).counted <==> run.flow.outcome() is Some,
        run.counted ==> run.after(event) == run,
        run.after(event).counted ==> run.after(event).flow.outcome() is Some,
        run.after(event).payment_data == run.payment_data,
{
}

/// At its start a run holds what it was started with, and asks for the connector
/// where the payment is confirmed.
pub proof fn runs_start_with_what_they_are_given<D, R, C, E>(
    data: PaymentsAuthorizeRouterData<D, R>,
    customer: Option<Customer>,
    confirm: Option<bool>,
    call_connector_action: C,
    id_length: usize,
    start: AuthorizeFlow<D, R, C, E>,
)
    requires
        call_ensures(
            PaymentsAuthorizeRouterData::<D, R>::decide_flow::<C, E>,
            (data, customer, confirm, call_connector_action, id_length),
            start,
        ),
    ensures
        start.data == data,
        start.customer == customer,
        start.call_connector_action == call_connector_action,
        start.id_length == id_length,
        confirm == Some(true) ==> start.stage is CallConnector,
        confirm != Some(true) ==> start.stage is NotConfirmed,
{
}

/// An event changes nothing but the stage of a run.
pub proof fn events_change_the_stage_only<D, R, C, E>(
    flow: AuthorizeFlow<D, R, C, E>,
    event: Event<D, R, E>,
    next: AuthorizeFlow<D, R, C, E>,
)
    requires
        call_ensures(AuthorizeFlow::<D, R, C, E>::step, (flow, event), next),
    ensures
        next.data == flow.data,
        next.customer == flow.customer,
        next.call_connector_action == flow.call_connector_action,
        next.id_length == flow.id_length,
{
}

/// An event that does not answer the action that was asked for leaves the run where
/// it is.
pub proof fn unasked_events_change_nothing<'a, D, R, C, E>(
    flow: &'a AuthorizeFlow<D, R, C, E>,
    action: Action<'a, D, R, C>,
    event: Event<D, R, E>,
    next: AuthorizeFlow<D, R, C, E>,
)
    requires
        call_ensures(AuthorizeFlow::<D, R, C, E>::action, (flow,), action),
        call_ensures(AuthorizeFlow::<D, R, C, E>::step, (*flow, event), next),
        !(action is ExecuteConnectorStep && event is ConnectorStepExecuted),
        !(action is FindMandate && event is MandateFound),
        !(action is UpdateMandate && event is MandateUpdated),
        !(action is CallPaymentMethod && event is PaymentMethodCalled),
        !(action is GenerateId && event is IdGenerated),
        !(action is InsertMandate && event is MandateInserted),
    ensures
        next == *flow,
{
}

/// A run is over exactly where nothing is left to do, and only then has it a result;
/// else it is handed back as it is.
pub proof fn runs_finish_when_nothing_is_due<'a, D, R, C, E>(
    flow: &'a AuthorizeFlow<D, R, C, E>,
    action: Action<'a, D, R, C>,
    over: bool,
    end: Result<
        Result<PaymentsAuthorizeRouterData<D, R>, FlowError<E>>,
        AuthorizeFlow<D, R, C, E>,
    >,
)
    requires
        call_ensures(AuthorizeFlow::<D, R, C, E>::action, (flow,), action),
        call_ensures(AuthorizeFlow::<D, R, C, E>::is_over, (flow,), over),
        call_ensures(AuthorizeFlow::<D, R, C, E>::finish, (*flow,), end),
    ensures
        over <==> action is Finish,
        over <==> end is Ok,
        end matches Err(same) ==> same == *flow,
        flow.stage matches Stage::Done { result } ==> end == Ok::<
            Result<PaymentsAuthorizeRouterData<D, R>, FlowError<E>>,
            AuthorizeFlow<D, R, C, E>,
        >(result),
        over <==> flow.stage is Done || flow.stage is NotConfirmed,
{
}

/// The connector is called with the payment as it came and with the action that the
/// run was started with.
pub proof fn connector_is_called_with_the_payment<'a, D, R, C, E>(
    flow: &'a AuthorizeFlow<D, R, C, E>,
    action: Action<'a, D, R, C>,
)
    requires
        call_ensures(AuthorizeFlow::<D, R, C, E>::action, (flow,), action),
    ensures
        action is ExecuteConnectorStep <==> flow.stage is CallConnector,
        action matches Action::ExecuteConnectorStep { data, call_connector_action } ==> *data
            == flow.data && *call_connector_action == flow.call_connector_action,
{
}

/// A mandate is looked up, and revoked, under the merchant that the connector's reply
/// names and under the identifier that the run was led to.
pub proof fn mandates_are_asked_for_by_merchant_and_identifier<'a, D, R, C, E>(
    flow: &'a AuthorizeFlow<D, R, C, E>,
    action: Action<'a, D, R, C>,
)
    requires
        call_ensures(AuthorizeFlow::<D, R, C, E>::action, (flow,), action),
    ensures
        flow.stage matches Stage::FindMandate { response, mandate_id: wanted } ==> (
        action matches Action::FindMandate { merchant_id, mandate_id } && *merchant_id
            == response.merchant_id && *mandate_id == wanted),
        action is FindMandate ==> flow.stage is FindMandate,
        flow.stage matches Stage::RevokeMandate { response, mandate_id: wanted } ==> (
        action matches Action::UpdateMandate { merchant_id, mandate_id, mandate_status }
            && *merchant_id == response.merchant_id && *mandate_id == wanted && mandate_status
            == MandateStatus::Revoked),
        action is UpdateMandate ==> flow.stage is RevokeMandate,
{
}

/// A payment method is kept for the merchant, with the data and of the kind that the
/// payment came with, and for exactly the customer that the run was started with.
pub proof fn payment_method_is_kept_for_the_customer<'a, D, R, C, E>(
    flow: &'a AuthorizeFlow<D, R, C, E>,
    action: Action<'a, D, R, C>,
)
    requires
        call_ensures(AuthorizeFlow::<D, R, C, E>::action, (flow,), action),
    ensures
        action is CallPaymentMethod <==> flow.stage is CallPaymentMethod,
        action matches Action::CallPaymentMethod {
            merchant_id,
            payment_method_data,
            payment_method,
            customer,
        } ==> {
            &&& *merchant_id == flow.data.merchant_id
            &&& *payment_method_data == flow.data.request.payment_method_data
            &&& *payment_method == flow.data.payment_method
            &&& *customer == flow.customer
        },
{
}

/// An identifier is drawn in the length that the run was started with, behind the
/// prefix of mandates, and the mandate that is stored is the one that was made.
pub proof fn mandates_are_drawn_and_stored<'a, D, R, C, E>(
    flow: &'a AuthorizeFlow<D, R, C, E>,
    action: Action<'a, D, R, C>,
)
    requires
        call_ensures(AuthorizeFlow::<D, R, C, E>::action, (flow,), action),
    ensures
        action is GenerateId <==> flow.stage is GenerateMandateId,
        action matches Action::GenerateId { length, prefix } ==> length == flow.id_length
            && prefix@ == "man"@,
        action is InsertMandate <==> flow.stage is InsertMandate,
        action matches Action::InsertMandate { mandate } ==> (
        flow.stage matches Stage::InsertMandate { mandate: made, .. } && *mandate == made),
{
}

/// What follows the reply of the connector: its error is told as a failed payment; a
/// payment on a mandate has that mandate looked up; another one has its payment method
/// kept where it is to be made again, and else ends as the connector left it.
pub proof fn connector_reply_decides<D, R, C, E>(
    flow: AuthorizeFlow<D, R, C, E>,
    reply: Result<PaymentsAuthorizeRouterData<D, R>, E>,
    next: AuthorizeFlow<D, R, C, E>,
)
    requires
        flow.stage is CallConnector,
        call_ensures(
            AuthorizeFlow::<D, R, C, E>::step,
            (flow, Event::ConnectorStepExecuted(reply)),
            next,
        ),
    ensures
        reply matches Err(e) ==> next.stage == (Stage::<D, R, E>::Done {
            result: Err(FlowError::PaymentFailed(e)),
        }),
        reply is Ok ==> {
            &&& next.stage is FindMandate <==> flow.data.request.mandate_id is Some
            &&& next.stage is CallPaymentMethod <==> (flow.data.request.mandate_id is None
                && flow.data.request.setup_future_usage is Some)
            &&& next.stage is Done <==> (flow.data.request.mandate_id is None
                && flow.data.request.setup_future_usage is None)
        },
        next.stage matches Stage::FindMandate { response, mandate_id } ==> reply == Ok::<
            PaymentsAuthorizeRouterData<D, R>,
            E,
        >(response) && flow.data.request.mandate_id == Some(mandate_id),
        next.stage matches Stage::CallPaymentMethod { response } ==> reply == Ok::<
            PaymentsAuthorizeRouterData<D, R>,
            E,
        >(response),
        next.stage matches Stage::Done { result: Ok(response) } ==> reply == Ok::<
            PaymentsAuthorizeRouterData<D, R>,
            E,
        >(response),
        next.stage matches Stage::Done { result: Err(_) } ==> reply is Err,
{
}

/// What follows the look up of a mandate: one that is good for one payment is revoked,
/// under the same identifier; with any other the payment ends, and names the payment
/// method of the mandate, all else as the connector left it; a failure is told as a
/// mandate that was not found.
pub proof fn found_mandate_decides<D, R, C, E>(
    flow: AuthorizeFlow<D, R, C, E>,
    reply: Result<Mandate, E>,
    next: AuthorizeFlow<D, R, C, E>,
)
    requires
        flow.stage is FindMandate,
        call_ensures(AuthorizeFlow::<D, R, C, E>::step, (flow, Event::MandateFound(reply)), next),
    ensures
        ({
            let response = flow.stage->FindMandate_response;
            match reply {
                Err(error) => next.stage == (Stage::<D, R, E>::Done {
                    result: Err(
                        FlowError::Context { response: ApiErrorResponse::MandateNotFound, error },
                    ),
                }),
                Ok(mandate) => if mandate.mandate_type == MandateType::SingleUse {
                    next.stage == (Stage::<D, R, E>::RevokeMandate {
                        response,
                        mandate_id: flow.stage->FindMandate_mandate_id,
                    })
                } else {
                    next.stage == (Stage::<D, R, E>::Done {
                        result: Ok(
                            PaymentsAuthorizeRouterData {
                                payment_method_id: Some(mandate.payment_method_id),
                                ..response
                            },
                        ),
                    })
                },
            }
        }),
{
}

/// What follows the revocation of a mandate: the payment ends, and names the payment
/// method of the mandate as it was updated, all else as the connector left it; a
/// failure is told as a mandate that was not found.
pub proof fn revoked_mandate_ends_the_payment<D, R, C, E>(
    flow: AuthorizeFlow<D, R, C, E>,
    reply: Result<Mandate, E>,
    next: AuthorizeFlow<D, R, C, E>,
)
    requires
        flow.stage is RevokeMandate,
        call_ensures(
            AuthorizeFlow::<D, R, C, E>::step,
            (flow, Event::MandateUpdated(reply)),
            next,
        ),
    ensures
        next.stage == (Stage::<D, R, E>::Done {
            result: match reply {
                Err(error) => Err(
                    FlowError::Context { response: ApiErrorResponse::MandateNotFound, error },
                ),
                Ok(mandate) => Ok(
                    PaymentsAuthorizeRouterData {
                        payment_method_id: Some(mandate.payment_method_id),
                        ..flow.stage->RevokeMandate_response
                    },
                ),
            },
        }),
{
}

/// What follows the keeping of a payment method: the payment names it, all else as the
/// connector left it, and an identifier is drawn where the payment asks for a mandate
/// and its customer is known; else the payment ends. A failure is told as it is.
pub proof fn kept_payment_method_decides<D, R, C, E>(
    flow: AuthorizeFlow<D, R, C, E>,
    reply: Result<String, E>,
    next: AuthorizeFlow<D, R, C, E>,
)
    requires
        flow.stage is CallPaymentMethod,
        call_ensures(
            AuthorizeFlow::<D, R, C, E>::step,
            (flow, Event::PaymentMethodCalled(reply)),
            next,
        ),
    ensures
        match reply {
            Err(e) => next.stage == (Stage::<D, R, E>::Done {
                result: Err(FlowError::Unchanged(e)),
            }),
            Ok(id) => {
                let kept = PaymentsAuthorizeRouterData {
                    payment_method_id: Some(id),
                    ..flow.stage->CallPaymentMethod_response
                };
                if flow.data.request.setup_mandate_details is None || flow.customer is None {
                    next.stage == (Stage::<D, R, E>::Done { result: Ok(kept) })
                } else {
                    next.stage == (Stage::<D, R, E>::GenerateMandateId {
                        response: kept,
                        payment_method_id: id,
                    })
                }
            },
        },
{
}

/// What follows the drawing of an identifier: where the payment asks for a mandate and
/// its customer is known, a mandate under the identifier is stored, which the payment
/// names, all else of it as it was.
pub proof fn drawn_identifier_names_the_mandate<D, R, C, E>(
    flow: AuthorizeFlow<D, R, C, E>,
    id: String,
    next: AuthorizeFlow<D, R, C, E>,
)
    requires
        flow.stage is GenerateMandateId,
        call_ensures(AuthorizeFlow::<D, R, C, E>::step, (flow, Event::IdGenerated(id)), next),
    ensures
        ({
            let response = flow.stage->GenerateMandateId_response;
            match (flow.data.request.setup_mandate_details, flow.customer) {
                (Some(asked), Some(customer)) => {
                    &&& next.stage matches Stage::InsertMandate { response: named, mandate }
                    &&& named == (PaymentsAuthorizeRouterData {
                        request: PaymentsAuthorizeData {
                            mandate_id: Some(id),
                            ..response.request
                        },
                        ..response
                    })
                    &&& mandate.mandate_id == id
                    &&& mandate.payment_method_id
                        == flow.stage->GenerateMandateId_payment_method_id
                    &&& mandate.merchant_id == flow.data.merchant_id
                    &&& mandate.customer_id == customer.customer_id
                    &&& mandate.mandate_status == MandateStatus::Active
                    &&& mandate.mandate_type == MandateType::SingleUse
                        <==> asked.mandate_type is SingleUse
                },
                _ => next.stage == (Stage::<D, R, E>::Done { result: Ok(response) }),
            }
        }),
{
}

/// What follows the storing of a mandate: the payment ends as it is, or with the error,
/// told as a duplicate request.
pub proof fn stored_mandate_ends_the_payment<D, R, C, E>(
    flow: AuthorizeFlow<D, R, C, E>,
    reply: Result<(), E>,
    next: AuthorizeFlow<D, R, C, E>,
)
    requires
        flow.stage is InsertMandate,
        call_ensures(
            AuthorizeFlow::<D, R, C, E>::step,
            (flow, Event::MandateInserted(reply)),
            next,
        ),
    ensures
        next.stage == (Stage::<D, R, E>::Done {
            result: match reply {
                Err(error) => Err(
                    FlowError::Duplicate {
                        response: ApiErrorResponse::DuplicateRefundRequest,
                        error,
                    },
                ),
                Ok(_) => Ok(flow.stage->InsertMandate_response),
            },
        }),
{
}

/// A payment that is not confirmed ends at once, as it came.
pub proof fn unconfirmed_payment_ends_as_it_came<D, R, C, E>(
    data: PaymentsAuthorizeRouterData<D, R>,
    customer: Option<Customer>,
    confirm: Option<bool>,
    call_connector_action: C,
    id_length: usize,
    start: AuthorizeFlow<D, R, C, E>,
    end: Result<
        Result<PaymentsAuthorizeRouterData<D, R>, FlowError<E>>,
        AuthorizeFlow<D, R, C, E>,
    >,
)
    requires
        confirm != Some(true),
        call_ensures(
            PaymentsAuthorizeRouterData::<D, R>::decide_flow::<C, E>,
            (data, customer, confirm, call_connector_action, id_length),
            start,
        ),
        call_ensures(AuthorizeFlow::<D, R, C, E>::finish, (start,), end),
    ensures
        end == Ok::<_, AuthorizeFlow<D, R, C, E>>(
            Ok::<PaymentsAuthorizeRouterData<D, R>, FlowError<E>>(data),
        ),
{
}

/// A confirmed payment that rests on no mandate and is not to be made again ends with
/// the reply of the connector: as it left the payment, or as a failed payment.
pub proof fn plain_payment_ends_with_the_reply<D, R, C, E>(
    data: PaymentsAuthorizeRouterData<D, R>,
    customer: Option<Customer>,
    call_connector_action: C,
    id_length: usize,
    reply: Result<PaymentsAuthorizeRouterData<D, R>, E>,
    start: AuthorizeFlow<D, R, C, E>,
    replied: AuthorizeFlow<D, R, C, E>,
    end: Result<
        Result<PaymentsAuthorizeRouterData<D, R>, FlowError<E>>,
        AuthorizeFlow<D, R, C, E>,
    >,
)
    requires
        data.request.mandate_id is None,
        data.request.setup_future_usage is None,
        call_ensures(
            PaymentsAuthorizeRouterData::<D, R>::decide_flow::<C, E>,
            (data, customer, Some(true), call_connector_action, id_length),
            start,
        ),
        call_ensures(
            AuthorizeFlow::<D, R, C, E>::step,
            (start, Event::ConnectorStepExecuted(reply)),
            replied,
        ),
        call_ensures(AuthorizeFlow::<D, R, C, E>::finish, (replied,), end),
    ensures
        end == Ok::<_, AuthorizeFlow<D, R, C, E>>(
            match reply {
                Ok(response) => Ok::<PaymentsAuthorizeRouterData<D, R>, FlowError<E>>(response),
                Err(e) => Err(FlowError::PaymentFailed(e)),
            },
        ),
{
}

/// A confirmed payment on a mandate, once the connector has replied: that mandate is
/// looked up; where it is good for one payment it is revoked; and the payment ends with
/// its payment method.
pub proof fn payment_on_a_mandate_ends_with_its_method<'a, D, R, C, E>(
    data: PaymentsAuthorizeRouterData<D, R>,
    customer: Option<Customer>,
    call_connector_action: C,
    id_length: usize,
    mandate_id: String,
    response: PaymentsAuthorizeRouterData<D, R>,
    found: Mandate,
    updated: Mandate,
    start: AuthorizeFlow<D, R, C, E>,
    replied: &'a AuthorizeFlow<D, R, C, E>,
    finding: Action<'a, D, R, C>,
    looked_up: &'a AuthorizeFlow<D, R, C, E>,
    revoking: Action<'a, D, R, C>,
    revoked: AuthorizeFlow<D, R, C, E>,
    end: Result<
        Result<PaymentsAuthorizeRouterData<D, R>, FlowError<E>>,
        AuthorizeFlow<D, R, C, E>,
    >,
)
    requires
        data.request.mandate_id == Some(mandate_id),
        call_ensures(
            PaymentsAuthorizeRouterData::<D, R>::decide_flow::<C, E>,
            (data, customer, Some(true), call_connector_action, id_length),
            start,
        ),
        call_ensures(
            AuthorizeFlow::<D, R, C, E>::step,
            (start, Event::ConnectorStepExecuted(Ok(response))),
            *replied,
        ),
        call_ensures(AuthorizeFlow::<D, R, C, E>::action, (replied,), finding),
        call_ensures(
            AuthorizeFlow::<D, R, C, E>::step,
            (*replied, Event::MandateFound(Ok(found))),
            *looked_up,
        ),
        call_ensures(AuthorizeFlow::<D, R, C, E>::action, (looked_up,), revoking),
        call_ensures(
            AuthorizeFlow::<D, R, C, E>::step,
            (*looked_up, Event::MandateUpdated(Ok(updated))),
            revoked,
        ),
        call_ensures(AuthorizeFlow::<D, R, C, E>::finish, (revoked,), end),
    ensures
        finding matches Action::FindMandate { merchant_id: m, mandate_id: i } && *m
            == response.merchant_id && *i == mandate_id,
        match found.mandate_type {
            MandateType::SingleUse => revoking matches Action::UpdateMandate {
                merchant_id: m,
                mandate_id: i,
                mandate_status: s,
            } && *m == response.merchant_id && *i == mandate_id && s == MandateStatus::Revoked,
            MandateType::MultiUse => revoking is Finish,
        },
        end == Ok::<_, AuthorizeFlow<D, R, C, E>>(
            Ok::<PaymentsAuthorizeRouterData<D, R>, FlowError<E>>(
                PaymentsAuthorizeRouterData {
                    payment_method_id: Some(
                        match found.mandate_type {
                            MandateType::SingleUse => updated.payment_method_id,
                            MandateType::MultiUse => found.payment_method_id,
                        },
                    ),
                    ..response
                },
            ),
        ),
{
}

/// A confirmed payment that is to be made again, once the connector has replied: its
/// payment method is kept for its own customer; where it asks for no mandate, or its
/// customer is not known, it ends with that payment method.
pub proof fn payment_to_be_made_again_keeps_its_method<'a, D, R, C, E>(
    data: PaymentsAuthorizeRouterData<D, R>,
    customer: Option<Customer>,
    call_connector_action: C,
    id_length: usize,
    response: PaymentsAuthorizeRouterData<D, R>,
    payment_method_id: String,
    start: AuthorizeFlow<D, R, C, E>,
    replied: &'a AuthorizeFlow<D, R, C, E>,
    keeping: Action<'a, D, R, C>,
    kept: AuthorizeFlow<D, R, C, E>,
    end: Result<
        Result<PaymentsAuthorizeRouterData<D, R>, FlowError<E>>,
        AuthorizeFlow<D, R, C, E>,
    >,
)
    requires
        data.request.mandate_id is None,
        data.request.setup_future_usage is Some,
        call_ensures(
            PaymentsAuthorizeRouterData::<D, R>::decide_flow::<C, E>,
            (data, customer, Some(true), call_connector_action, id_length),
            start,
        ),
        call_ensures(
            AuthorizeFlow::<D, R, C, E>::step,
            (start, Event::ConnectorStepExecuted(Ok(response))),
            *replied,
        ),
        call_ensures(AuthorizeFlow::<D, R, C, E>::action, (replied,), keeping),
        call_ensures(
            AuthorizeFlow::<D, R, C, E>::step,
            (*replied, Event::PaymentMethodCalled(Ok(payment_method_id))),
            kept,
        ),
        call_ensures(AuthorizeFlow::<D, R, C, E>::finish, (kept,), end),
    ensures
        keeping matches Action::CallPaymentMethod {
            merchant_id: m,
            payment_method_data: d,
            payment_method: p,
            customer: c,
        } && *m == data.merchant_id && *d == data.request.payment_method_data && *p
            == data.payment_method && *c == customer,
        end is Ok <==> (data.request.setup_mandate_details is None || customer is None),
        end matches Ok(result) ==> result == Ok::<PaymentsAuthorizeRouterData<D, R>, FlowError<E>>(
            PaymentsAuthorizeRouterData { payment_method_id: Some(payment_method_id), ..response },
        ),
{
}

/// A confirmed payment that is to be made again and asks for a mandate, of a customer
/// who is known: once the payment method is kept, an identifier is drawn, the mandate
/// that was asked for is stored under it, and the payment ends naming both.
pub proof fn payment_that_asks_for_a_mandate_gets_it<'a, D, R, C, E>(
    data: PaymentsAuthorizeRouterData<D, R>,
    customer: Customer,
    asked: MandateData,
    call_connector_action: C,
    id_length: usize,
    response: PaymentsAuthorizeRouterData<D, R>,
    payment_method_id: String,
    id: String,
    inserted: Result<(), E>,
    start: AuthorizeFlow<D, R, C, E>,
    replied: AuthorizeFlow<D, R, C, E>,
    kept: &'a AuthorizeFlow<D, R, C, E>,
    drawing: Action<'a, D, R, C>,
    drawn: &'a AuthorizeFlow<D, R, C, E>,
    storing: Action<'a, D, R, C>,
    stored: AuthorizeFlow<D, R, C, E>,
    end: Result<
        Result<PaymentsAuthorizeRouterData<D, R>, FlowError<E>>,
        AuthorizeFlow<D, R, C, E>,
    >,
)
    requires
        data.request.mandate_id is None,
        data.request.setup_future_usage is Some,
        data.request.setup_mandate_details == Some(asked),
        call_ensures(
            PaymentsAuthorizeRouterData::<D, R>::decide_flow::<C, E>,
            (data, Some(customer), Some(true), call_connector_action, id_length),
            start,
        ),
        call_ensures(
            AuthorizeFlow::<D, R, C, E>::step,
            (start, Event::ConnectorStepExecuted(Ok(response))),
            replied,
        ),
        call_ensures(
            AuthorizeFlow::<D, R, C, E>::step,
            (replied, Event::PaymentMethodCalled(Ok(payment_method_id))),
            *kept,
        ),
        call_ensures(AuthorizeFlow::<D, R, C, E>::action, (kept,), drawing),
        call_ensures(
            AuthorizeFlow::<D, R, C, E>::step,
            (*kept, Event::IdGenerated(id)),
            *drawn,
        ),
        call_ensures(AuthorizeFlow::<D, R, C, E>::action, (drawn,), storing),
        call_ensures(
            AuthorizeFlow::<D, R, C, E>::step,
            (*drawn, Event::MandateInserted(inserted)),
            stored,
        ),
        call_ensures(AuthorizeFlow::<D, R, C, E>::finish, (stored,), end),
    ensures
        drawing matches Action::GenerateId { length, prefix } && length == id_length && prefix@
            == "man"@,
        storing matches Action::InsertMandate { mandate } && {
            &&& mandate.mandate_id == id
            &&& mandate.customer_id == customer.customer_id
            &&& mandate.merchant_id == data.merchant_id
            &&& mandate.payment_method_id == payment_method_id
            &&& mandate.mandate_status == MandateStatus::Active
            &&& mandate.customer_ip_address == asked.customer_acceptance.ip_address
            &&& mandate.customer_user_agent == asked.customer_acceptance.user_agent
            &&& mandate.customer_accepted_at == Some(asked.customer_acceptance.accepted_at)
            &&& match asked.mandate_type {
                RequestedMandateType::SingleUse(good_for) => {
                    &&& mandate.mandate_type == MandateType::SingleUse
                    &&& mandate.single_use_amount == Some(good_for.amount)
                    &&& mandate.single_use_currency == Some(good_for.currency)
                },
                RequestedMandateType::MultiUse => {
                    &&& mandate.mandate_type == MandateType::MultiUse
                    &&& mandate.single_use_amount is None
                    &&& mandate.single_use_currency is None
                },
            }
        },
        end == Ok::<_, AuthorizeFlow<D, R, C, E>>(
            match inserted {
                Ok(_) => Ok::<PaymentsAuthorizeRouterData<D, R>, FlowError<E>>(
                    PaymentsAuthorizeRouterData {
                        payment_method_id: Some(payment_method_id),
                        request: PaymentsAuthorizeData {
                            mandate_id: Some(id),
                            ..response.request
                        },
                        ..response
                    },
                ),
                Err(error) => Err(
                    FlowError::Duplicate {
                        response: ApiErrorResponse::DuplicateRefundRequest,
                        error,
                    },
                ),
            },
        ),
{
}

/// A payment gives rise to a mandate exactly where it asks for one and its customer is
/// known, and the mandate is then for that customer, of the payment's merchant.
pub proof fn payment_gives_rise_to_what_it_asks_for<D, R>(
    data: PaymentsAuthorizeRouterData<D, R>,
    customer: Option<Customer>,
    payment_method_id: String,
    mandate_id: String,
    made: Option<MandateNew>,
)
    requires
        call_ensures(
            PaymentsAuthorizeRouterData::<D, R>::generate_mandate,
            (&data, &customer, payment_method_id, mandate_id),
            made,
        ),
    ensures
        made is Some <==> (data.request.setup_mandate_details is Some && customer is Some),
        made matches Some(mandate) ==> {
            let asked = data.request.setup_mandate_details->0;
            &&& mandate.mandate_id == mandate_id
            &&& mandate.customer_id == customer->0.customer_id
            &&& mandate.merchant_id == data.merchant_id
            &&& mandate.payment_method_id == payment_method_id
            &&& mandate.mandate_status == MandateStatus::Active
            &&& mandate.customer_ip_address == asked.customer_acceptance.ip_address
            &&& mandate.customer_user_agent == asked.customer_acceptance.user_agent
            &&& mandate.customer_accepted_at == Some(asked.customer_acceptance.accepted_at)
            &&& match asked.mandate_type {
                RequestedMandateType::SingleUse(good_for) => {
                    &&& mandate.mandate_type == MandateType::SingleUse
                    &&& mandate.single_use_amount == Some(good_for.amount)
                    &&& mandate.single_use_currency == Some(good_for.currency)
                },
                RequestedMandateType::MultiUse => {
                    &&& mandate.mandate_type == MandateType::MultiUse
                    &&& mandate.single_use_amount is None
                    &&& mandate.single_use_currency is None
                },
            }
        },
{
}

/// A counted run starts as a run of the confirmed payment, not yet counted, with the
/// caller's data.
pub proof fn counted_run_is_of_the_confirmed_payment<D, R, C, E, P>(
    data: PaymentsAuthorizeRouterData<D, R>,
    customer: Option<Customer>,
    payment_data: P,
    call_connector_action: C,
    id_length: usize,
    flow: AuthorizeFlow<D, R, C, E>,
    run: CountedFlow<D, R, C, E, P>,
)
    requires
        call_ensures(
            PaymentsAuthorizeRouterData::<D, R>::decide_flow::<C, E>,
            (data, customer, Some(true), call_connector_action, id_length),
            flow,
        ),
        call_ensures(
            PaymentsAuthorizeRouterData::<D, R>::decide_flows::<P, C, E>,
            (data, customer, payment_data, call_connector_action, id_length),
            run,
        ),
    ensures
        run.flow == flow,
        run.payment_data == payment_data,
        !run.counted,
{
}

/// A counted run asks for what its flow asks for until the flow is over, then for one
/// payment to be counted, and then for nothing.
pub proof fn counted_run_asks_like_its_flow<'a, D, R, C, E, P>(
    run: &'a CountedFlow<D, R, C, E, P>,
    over: bool,
    of_flow: Action<'a, D, R, C>,
    of_run: CountedAction<'a, D, R, C>,
)
    requires
        call_ensures(AuthorizeFlow::<D, R, C, E>::is_over, (&run.flow,), over),
        call_ensures(AuthorizeFlow::<D, R, C, E>::action, (&run.flow,), of_flow),
        call_ensures(CountedFlow::<D, R, C, E, P>::action, (run,), of_run),
    ensures
        !over ==> (of_run matches CountedAction::Flow(asked) && asked == of_flow),
        over && !run.counted ==> (of_run matches CountedAction::CountPayment { add } && add
            == 1),
        over && run.counted ==> of_run is Finish,
{
}

/// A counted run hands events on to its flow, and takes a payment for counted only once
/// the flow is over; its data stays, and so does a count.
pub proof fn counted_run_steps_like_its_flow<D, R, C, E, P>(
    run: CountedFlow<D, R, C, E, P>,
    event: Event<D, R, E>,
    flow: AuthorizeFlow<D, R, C, E>,
    over: bool,
    next: CountedFlow<D, R, C, E, P>,
    counted: CountedFlow<D, R, C, E, P>,
)
    requires
        call_ensures(AuthorizeFlow::<D, R, C, E>::step, (run.flow, event), flow),
        call_ensures(AuthorizeFlow::<D, R, C, E>::is_over, (&run.flow,), over),
        call_ensures(
            CountedFlow::<D, R, C, E, P>::step,
            (run, CountedEvent::Flow(event)),
            next,
        ),
        call_ensures(
            CountedFlow::<D, R, C, E, P>::step,
            (run, CountedEvent::PaymentCounted),
            counted,
        ),
    ensures
        next.flow == flow,
        next.payment_data == run.payment_data,
        next.counted == run.counted,
        counted.flow == run.flow,
        counted.payment_data == run.payment_data,
        counted.counted <==> (run.counted || over),
{
}

/// A counted run ends with the result of its flow and the caller's data, once it is
/// counted and the flow is over; else it is handed back as it is.
pub proof fn counted_run_ends_like_its_flow<D, R, C, E, P>(
    run: CountedFlow<D, R, C, E, P>,
    of_flow: Result<
        Result<PaymentsAuthorizeRouterData<D, R>, FlowError<E>>,
        AuthorizeFlow<D, R, C, E>,
    >,
    of_run: Result<
        (Result<PaymentsAuthorizeRouterData<D, R>, FlowError<E>>, P),
        CountedFlow<D, R, C, E, P>,
    >,
)
    requires
        call_ensures(AuthorizeFlow::<D, R, C, E>::finish, (run.flow,), of_flow),
        call_ensures(CountedFlow::<D, R, C, E, P>::finish, (run,), of_run),
    ensures
        of_run is Ok <==> (of_flow is Ok && run.counted),
        of_run matches Ok((result, data)) ==> of_flow == Ok::<
            Result<PaymentsAuthorizeRouterData<D, R>, FlowError<E>>,
            AuthorizeFlow<D, R, C, E>,
        >(result) && data == run.payment_data,
        of_run matches Err(same) ==> same == run,
{
}

/// Of what was put together for a payment the flow takes the second part, and an error
/// as it is.
pub proof fn flow_takes_the_second_part<P, R, E>(
    first: P,
    second: R,
    error: E,
    taken: Result<R, E>,
    failed: Result<R, E>,
)
    requires
        call_ensures(construct_r_d::<P, R, E>, (Ok::<(P, R), E>((first, second)),), taken),
        call_ensures(construct_r_d::<P, R, E>, (Err::<(P, R), E>(error),), failed),
    ensures
        taken == Ok::<R, E>(second),
        failed == Err::<R, E>(error),
{
}

} // verus!
