//! Mandates: a buyer's leave to be charged again.

use crate::types::Currency;
use vstd::prelude::*;

verus! {

/// A customer of a merchant.
#[derive(Debug, PartialEq, Eq)]
pub struct Customer {
    pub customer_id: String,
}

/// How often a stored mandate may be used.
#[derive(Debug, Clone, Copy, PartialEq, Eq, Structural)]
pub enum MandateType {
    SingleUse,
    MultiUse,
}

/// Whether a stored mandate may be used.
#[derive(Debug, Clone, Copy, PartialEq, Eq, Structural)]
pub enum MandateStatus {
    Active,
    Inactive,
    Pending,
    Revoked,
}

/// How the customer agreed to a mandate.
#[derive(Debug, PartialEq, Eq)]
pub struct CustomerAcceptance {
    pub ip_address: Option<String>,
    pub user_agent: Option<String>,
    /// When, in seconds since the epoch.
    pub accepted_at: i64,
}

/// The amount that a single-use mandate is good for.
#[derive(Debug, PartialEq, Eq)]
pub struct MandateAmountData {
    pub amount: i64,
    pub currency: Currency,
}

/// How often a mandate that is asked for may be used.
#[derive(Debug, PartialEq, Eq)]
pub enum RequestedMandateType {
    SingleUse(MandateAmountData),
    MultiUse,
}

/// A mandate that is asked for.
#[derive(Debug, PartialEq, Eq)]
pub struct MandateData {
    pub customer_acceptance: CustomerAcceptance,
    pub mandate_type: RequestedMandateType,
}

/// A mandate that is to be stored.
#[derive(Debug, PartialEq, Eq)]
pub struct MandateNew {
    pub mandate_id: String,
    pub customer_id: String,
    pub merchant_id: String,
    pub payment_method_id: String,
    pub mandate_status: MandateStatus,
    pub mandate_type: MandateType,
    pub customer_ip_address: Option<String>,
    pub customer_user_agent: Option<String>,
    pub customer_accepted_at: Option<i64>,
    pub single_use_amount: Option<i64>,
    pub single_use_currency: Option<Currency>,
}

/// A stored mandate, as far as a payment on it goes by it.
#[derive(Debug, PartialEq, Eq)]
pub struct Mandate {
    pub mandate_type: MandateType,
    pub payment_method_id: String,
}

/// The mandate that is stored for what was asked.
pub open spec fn new_mandate(
    details: MandateData,
    customer: Customer,
    merchant_id: String,
    payment_method_id: String,
    mandate_id: String,
) -> MandateNew {
    MandateNew {
        mandate_id,
        customer_id: customer.customer_id,
        merchant_id,
        payment_method_id,
        mandate_status: MandateStatus::Active,
        mandate_type: match details.mandate_type {
            RequestedMandateType::SingleUse(_) => MandateType::SingleUse,
            RequestedMandateType::MultiUse => MandateType::MultiUse,
        },
        customer_ip_address: details.customer_acceptance.ip_address,
        customer_user_agent: details.customer_acceptance.user_agent,
        customer_accepted_at: Some(details.customer_acceptance.accepted_at),
        single_use_amount: match details.mandate_type {
            RequestedMandateType::SingleUse(data) => Some(data.amount),
            RequestedMandateType::MultiUse => None,
        },
        single_use_currency: match details.mandate_type {
            RequestedMandateType::SingleUse(data) => Some(data.currency),
            RequestedMandateType::MultiUse => None,
        },
    }
}

fn copy_of(text: &Option<String>) -> (r: Option<String>)
    ensures
        r == *text,
{
    match text {
        Some(text) => Some(text.clone()),
        None => None,
    }
}

/// Makes the mandate that is stored for what was asked.
pub fn make_mandate(
    details: &MandateData,
    customer: &Customer,
    merchant_id: &String,
    payment_method_id: String,
    mandate_id: String,
) -> (r: MandateNew)
    ensures
        r == new_mandate(*details, *customer, *merchant_id, payment_method_id, mandate_id),
{
    let (mandate_type, single_use_amount, single_use_currency): (
        MandateType,
        Option<i64>,
        Option<Currency>,
    ) = match &details.mandate_type {
        RequestedMandateType::SingleUse(data) => (
            MandateType::SingleUse,
            Some(data.amount),
            Some(data.currency.clone()),
        ),
        RequestedMandateType::MultiUse => (MandateType::MultiUse, None, None),
    };
    MandateNew {
        mandate_id,
        customer_id: customer.customer_id.clone(),
        merchant_id: merchant_id.clone(),
        payment_method_id,
        mandate_status: MandateStatus::Active,
        mandate_type,
        customer_ip_address: copy_of(&details.customer_acceptance.ip_address),
        customer_user_agent: copy_of(&details.customer_acceptance.user_agent),
        customer_accepted_at: Some(details.customer_acceptance.accepted_at),
        single_use_amount,
        single_use_currency,
    }
}

/// A new mandate is active, and carries an amount and its currency exactly where
/// it may be used only once.
pub proof fn only_single_use_mandates_have_an_amount(
    details: MandateData,
    customer: Customer,
    merchant_id: String,
    payment_method_id: String,
    mandate_id: String,
)
    ensures
        ({
            let made = new_mandate(details, customer, merchant_id, payment_method_id, mandate_id);
            &&& made.mandate_status == MandateStatus::Active
            &&& made.mandate_type == MandateType::SingleUse <==> made.single_use_amount is Some
            &&& made.single_use_amount is Some <==> made.single_use_currency is Some
        }),
{
}

/// The mandate that is made is for one payment exactly where one for one payment was
/// asked for, whatever the customer's acceptance says, and is then good for the amount,
/// in the currency, that was asked for; one that may be used again has no amount.
pub proof fn mandate_is_the_one_asked_for(
    details: MandateData,
    customer: Customer,
    merchant_id: String,
    payment_method_id: String,
    mandate_id: String,
    made: MandateNew,
)
    requires
        call_ensures(
            make_mandate,
            (&details, &customer, &merchant_id, payment_method_id, mandate_id),
            made,
        ),
    ensures
        made.mandate_type == MandateType::SingleUse <==> details.mandate_type is SingleUse,
        details.mandate_type matches RequestedMandateType::SingleUse(asked) ==> {
            &&& made.single_use_amount == Some(asked.amount)
            &&& made.single_use_currency == Some(asked.currency)
        },
        details.mandate_type is MultiUse ==> made.single_use_amount is None
            && made.single_use_currency is None,
{
}

/// A mandate that is made is active, names its own identifier, the customer, the
/// merchant and the payment method, and keeps what is known of the customer's
/// acceptance.
pub proof fn mandate_names_its_parties(
    details: MandateData,
    customer: Customer,
    merchant_id: String,
    payment_method_id: String,
    mandate_id: String,
    made: MandateNew,
)
    requires
        call_ensures(
            make_mandate,
            (&details, &customer, &merchant_id, payment_method_id, mandate_id),
            made,
        ),
    ensures
        made.mandate_status == MandateStatus::Active,
        made.mandate_id == mandate_id,
        made.customer_id == customer.customer_id,
        made.merchant_id == merchant_id,
        made.payment_method_id == payment_method_id,
        made.customer_ip_address == details.customer_acceptance.ip_address,
        made.customer_user_agent == details.customer_acceptance.user_agent,
        made.customer_accepted_at == Some(details.customer_acceptance.accepted_at),
{
}

} // verus!
