use payme_router::authorize_flow::{
    construct_r_d, Action, ApiErrorResponse, AuthorizeFlow, CountedAction, CountedEvent, Event,
    FlowError, FutureUsage, PaymentsAuthorizeData, PaymentsAuthorizeRouterData,
};
use payme_router::mandates::{
    Customer, CustomerAcceptance, Mandate, MandateAmountData, MandateData, MandateNew,
    MandateStatus, MandateType, RequestedMandateType,
};
use payme_router::types::Currency;

type Data = PaymentsAuthorizeRouterData<u8, u8>;
type Run = AuthorizeFlow<u8, u8, &'static str, &'static str>;

fn details(mandate_type: RequestedMandateType) -> MandateData {
    MandateData {
        customer_acceptance: CustomerAcceptance {
            ip_address: Some("10.0.0.1".to_string()),
            user_agent: None,
            accepted_at: 1700000000,
        },
        mandate_type,
    }
}

fn data(mandate_id: Option<&str>, usage: Option<FutureUsage>, asked: bool) -> Data {
    PaymentsAuthorizeRouterData {
        merchant_id: "mer".to_string(),
        payment_method: "card".to_string(),
        payment_method_id: None,
        request: PaymentsAuthorizeData {
            mandate_id: mandate_id.map(|id| id.to_string()),
            setup_future_usage: usage,
            setup_mandate_details: if asked {
                Some(details(RequestedMandateType::MultiUse))
            } else {
                None
            },
            payment_method_data: 7,
        },
        other: 1,
    }
}

fn response() -> Data {
    let mut r = data(None, None, false);
    r.merchant_id = "mer2".to_string();
    r.other = 2;
    r
}

fn customer() -> Option<Customer> {
    Some(Customer { customer_id: "cus".to_string() })
}

fn started(data: Data, customer: Option<Customer>) -> Run {
    data.decide_flow(customer, Some(true), "trigger", 20)
}

fn replied(run: Run) -> Run {
    run.step(Event::ConnectorStepExecuted(Ok(response())))
}

#[test]
fn unconfirmed_payments_are_handed_back() {
    for confirm in [None, Some(false)] {
        let run: Run = data(Some("m"), None, false).decide_flow(None, confirm, "trigger", 20);
        assert_eq!(run.action(), Action::Finish);
        let run = run.step(Event::ConnectorStepExecuted(Ok(response())));
        assert!(run.is_over());
        assert_eq!(run.finish(), Ok(Ok(data(Some("m"), None, false))));
    }
}

#[test]
fn plain_payments_only_call_the_connector() {
    let run = started(data(None, None, true), customer());
    assert_eq!(
        run.action(),
        Action::ExecuteConnectorStep {
            data: &data(None, None, true),
            call_connector_action: &"trigger"
        }
    );
    assert!(!run.is_over());
    assert_eq!(replied(run).finish(), Ok(Ok(response())));
}

#[test]
fn failed_payments_are_told_as_such() {
    let run = started(data(Some("m"), None, false), None)
        .step(Event::ConnectorStepExecuted(Err("declined")));
    assert_eq!(run.finish(), Ok(Err(FlowError::PaymentFailed("declined"))));
}

#[test]
fn multi_use_mandates_are_kept() {
    let run = replied(started(data(Some("m"), Some(FutureUsage::OnSession), true), customer()));
    assert_eq!(
        run.action(),
        Action::FindMandate { merchant_id: &"mer2".to_string(), mandate_id: &"m".to_string() }
    );
    let run = run.step(Event::MandateFound(Ok(Mandate {
        mandate_type: MandateType::MultiUse,
        payment_method_id: "pm".to_string(),
    })));
    let mut expected = response();
    expected.payment_method_id = Some("pm".to_string());
    assert_eq!(run.finish(), Ok(Ok(expected)));
}

fn revoking() -> Run {
    replied(started(data(Some("m"), None, false), None)).step(Event::MandateFound(Ok(Mandate {
        mandate_type: MandateType::SingleUse,
        payment_method_id: "pm".to_string(),
    })))
}

#[test]
fn single_use_mandates_are_revoked() {
    let run = revoking();
    assert_eq!(
        run.action(),
        Action::UpdateMandate {
            merchant_id: &"mer2".to_string(),
            mandate_id: &"m".to_string(),
            mandate_status: MandateStatus::Revoked,
        }
    );
    let run = run.step(Event::MandateUpdated(Ok(Mandate {
        mandate_type: MandateType::SingleUse,
        payment_method_id: "pm2".to_string(),
    })));
    let mut expected = response();
    expected.payment_method_id = Some("pm2".to_string());
    assert_eq!(run.finish(), Ok(Ok(expected)));
}

#[test]
fn mandate_errors_are_told_as_not_found() {
    let told = Ok(Err(FlowError::Context {
        response: ApiErrorResponse::MandateNotFound,
        error: "db",
    }));
    let run = replied(started(data(Some("m"), None, false), None))
        .step(Event::MandateFound(Err("db")));
    assert_eq!(run.finish(), told);
    assert_eq!(revoking().step(Event::MandateUpdated(Err("db"))).finish(), told);
}

#[test]
fn payment_methods_are_kept_for_later() {
    let run = replied(started(data(None, Some(FutureUsage::OffSession), true), None));
    assert_eq!(
        run.action(),
        Action::CallPaymentMethod {
            merchant_id: &"mer".to_string(),
            payment_method_data: &7,
            payment_method: &"card".to_string(),
            customer: &None,
        }
    );
    let run = run.step(Event::PaymentMethodCalled(Ok("pm".to_string())));
    let mut expected = response();
    expected.payment_method_id = Some("pm".to_string());
    assert_eq!(run.finish(), Ok(Ok(expected)));
    let run = replied(started(data(None, Some(FutureUsage::OffSession), true), None))
        .step(Event::PaymentMethodCalled(Err("locker")));
    assert_eq!(run.finish(), Ok(Err(FlowError::Unchanged("locker"))));
}

#[test]
fn new_mandates_are_stored() {
    let run = replied(started(data(None, Some(FutureUsage::OffSession), true), customer()))
        .step(Event::PaymentMethodCalled(Ok("pm".to_string())));
    assert_eq!(run.action(), Action::GenerateId { length: 20, prefix: "man" });
    let run = run.step(Event::IdGenerated("man_1".to_string()));
    assert_eq!(
        run.action(),
        Action::InsertMandate {
            mandate: &MandateNew {
                mandate_id: "man_1".to_string(),
                customer_id: "cus".to_string(),
                merchant_id: "mer".to_string(),
                payment_method_id: "pm".to_string(),
                mandate_status: MandateStatus::Active,
                mandate_type: MandateType::MultiUse,
                customer_ip_address: Some("10.0.0.1".to_string()),
                customer_user_agent: None,
                customer_accepted_at: Some(1700000000),
                single_use_amount: None,
                single_use_currency: None,
            }
        }
    );
    let run = run.step(Event::MandateInserted(Ok(())));
    let mut expected = response();
    expected.payment_method_id = Some("pm".to_string());
    expected.request.mandate_id = Some("man_1".to_string());
    assert_eq!(run.finish(), Ok(Ok(expected)));
}

#[test]
fn mandates_that_cannot_be_stored_are_told_as_duplicates() {
    let run = replied(started(data(None, Some(FutureUsage::OffSession), true), customer()))
        .step(Event::PaymentMethodCalled(Ok("pm".to_string())))
        .step(Event::IdGenerated("man_1".to_string()))
        .step(Event::MandateInserted(Err("db")));
    assert_eq!(
        run.finish(),
        Ok(Err(FlowError::Duplicate {
            response: ApiErrorResponse::DuplicateRefundRequest,
            error: "db"
        }))
    );
}

#[test]
fn events_out_of_turn_change_nothing() {
    let run = replied(started(data(Some("m"), None, false), None));
    let run = run
        .step(Event::MandateInserted(Ok(())))
        .step(Event::ConnectorStepExecuted(Err("late")))
        .step(Event::IdGenerated("x".to_string()));
    assert_eq!(run.finish(), Err(replied(started(data(Some("m"), None, false), None))));
}

#[test]
fn single_use_mandates_carry_their_amount() {
    let mut asked = data(None, None, false);
    asked.request.setup_mandate_details =
        Some(details(RequestedMandateType::SingleUse(MandateAmountData {
            amount: 1200,
            currency: Currency { code: "USD".to_string() },
        })));
    let made = asked.generate_mandate(&customer(), "pm".to_string(), "man_2".to_string());
    match made {
        Some(made) => {
            assert_eq!(made.mandate_type, MandateType::SingleUse);
            assert_eq!(made.single_use_amount, Some(1200));
            assert_eq!(made.single_use_currency, Some(Currency { code: "USD".to_string() }));
            assert_eq!(made.mandate_status, MandateStatus::Active);
        }
        None => panic!("no mandate"),
    }
    assert_eq!(asked.generate_mandate(&None, "pm".to_string(), "man_2".to_string()), None);
    let plain = data(None, None, false);
    assert_eq!(plain.generate_mandate(&customer(), "pm".to_string(), "m".to_string()), None);
}

#[test]
fn counted_runs_count_once_and_hand_data_back() {
    for reply in [Ok(response()), Err("declined")] {
        let failed = reply.is_err();
        let run = data(None, None, false).decide_flows(None, "payment data", "trigger", 20);
        let run = run.step(CountedEvent::PaymentCounted);
        assert_eq!(
            run.action(),
            CountedAction::Flow(Action::ExecuteConnectorStep {
                data: &data(None, None, false),
                call_connector_action: &"trigger"
            })
        );
        let run = run.step(CountedEvent::Flow(Event::ConnectorStepExecuted(reply)));
        assert_eq!(run.action(), CountedAction::CountPayment { add: 1 });
        let run = match run.finish() {
            Ok(_) => panic!("not counted yet"),
            Err(run) => run.step(CountedEvent::PaymentCounted),
        };
        assert_eq!(run.action(), CountedAction::Finish);
        match run.finish() {
            Ok((result, payment_data)) => {
                assert_eq!(result.is_err(), failed);
                assert_eq!(payment_data, "payment data");
            }
            Err(_) => panic!("over"),
        }
    }
}

#[test]
fn router_data_is_the_second_part() {
    assert_eq!(construct_r_d(Ok::<(u8, u16), ()>((1, 2))), Ok(2));
    assert_eq!(construct_r_d(Err::<(u8, u16), u8>(9)), Err(9));
}
