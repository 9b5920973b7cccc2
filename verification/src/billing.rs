//! Billing: checkout-session URLs, customer rows, and the webhook rules.
//!
//! The payment provider reports events over a webhook; the decisions — which
//! plan a completed checkout buys, when the event is malformed, and when a
//! new customer should be invited — are taken here on plain values, while
//! the provider calls and the store writes stay outside.
use crate::ids::{fresh_id, now_millis};
use crate::text::{string_push_str, strings_eq};
use vstd::prelude::*;

verus! {

/// A paid plan.
#[derive(Debug, Clone, Copy, PartialEq, Eq, Structural)]
pub enum PlanTier {
    Silver,
    Gold,
}

impl PlanTier {
    /// The plan's stored name.
    pub fn text(&self) -> (r: String)
        ensures
            *self is Silver ==> r@ == "silver"@,
            *self is Gold ==> r@ == "gold"@,
    {
        match self {
            PlanTier::Silver => "silver".to_owned(),
            PlanTier::Gold => "gold".to_owned(),
        }
    }
}

/// A customer row of the payment provider.
#[derive(Debug, Clone, PartialEq)]
pub struct StripeCustomer {
    pub id: u128,
    pub stripe_id: String,
    pub email: Option<String>,
    pub created_at: i64,
    pub updated_at: i64,
}

impl StripeCustomer {
    /// A new customer row for the provider-side identifier, with a fresh
    /// identifier and the clock's timestamps.
    pub fn from_details(stripe_id: String, email: Option<String>) -> (c: StripeCustomer)
        ensures
            c.stripe_id@ == stripe_id@,
            c.email == email,
            c.created_at == c.updated_at,
    {
        let id = fresh_id();
        let now = now_millis();
        StripeCustomer { id, stripe_id, email, created_at: now, updated_at: now }
    }
}

/// The return addresses of a checkout session under the given application
/// address.
pub fn checkout_urls(app_url: &str) -> (r: (String, String))
    ensures
        r.0@ == app_url@ + "/payment/success"@,
        r.1@ == app_url@ + "/payment/cancel"@,
{
    let mut success = String::new();
    string_push_str(&mut success, app_url);
    string_push_str(&mut success, "/payment/success");
    let mut cancel = String::new();
    string_push_str(&mut cancel, app_url);
    string_push_str(&mut cancel, "/payment/cancel");
    proof {
        assert(success@ =~= app_url@ + "/payment/success"@);
        assert(cancel@ =~= app_url@ + "/payment/cancel"@);
    }
    (success, cancel)
}

/// Why a webhook event is refused.
#[derive(Debug, Clone, Copy, PartialEq, Eq, Structural)]
pub enum WebhookError {
    MissingCustomer,
    WrongLineItemCount,
    MissingPrice,
    UnknownPlan,
}

impl WebhookError {
    /// The report logged for this refusal.
    pub fn text(&self) -> (r: String)
        ensures
            *self is MissingCustomer ==> r@ == "Stripe customer id is none"@,
            *self is WrongLineItemCount ==> r@ == "Session line items length is not 1"@,
            *self is MissingPrice ==> r@ == "Plan price is none"@,
            *self is UnknownPlan ==> r@ == "Plan id is not silver or gold"@,
    {
        match self {
            WebhookError::MissingCustomer => "Stripe customer id is none".to_owned(),
            WebhookError::WrongLineItemCount => "Session line items length is not 1".to_owned(),
            WebhookError::MissingPrice => "Plan price is none".to_owned(),
            WebhookError::UnknownPlan => "Plan id is not silver or gold".to_owned(),
        }
    }
}

/// One webhook event, reduced to the values the rules read.
#[derive(Debug, Clone, PartialEq)]
pub enum WebhookEvent {
    CheckoutCompleted {
        customer_id: Option<String>,
        line_item_prices: Vec<Option<String>>,
        customer_email: Option<String>,
    },
    CustomerCreated { email: Option<String> },
    Other,
}

/// What the webhook handler must do next.
#[derive(Debug, Clone, PartialEq)]
pub enum WebhookStep {
    /// Record the plan for the customer, then consider inviting the email.
    CreatePlan { customer_id: String, plan: PlanTier, email: Option<String> },
    /// Invite the address unless an account already holds it.
    ConsiderInvite { email: String },
    /// Nothing to do.
    Ignore,
    /// The event is malformed.
    Reject(WebhookError),
}

/// The plan bought under a price identifier, gold taking precedence.
pub fn classify_plan(plan_id: &str, silver_id: &str, gold_id: &str) -> (r: Option<PlanTier>)
    ensures
        plan_id@ == gold_id@ ==> r == Some(PlanTier::Gold),
        plan_id@ != gold_id@ && plan_id@ == silver_id@ ==> r == Some(PlanTier::Silver),
        plan_id@ != gold_id@ && plan_id@ != silver_id@ ==> r is None,
{
    if strings_eq(plan_id, gold_id) {
        Some(PlanTier::Gold)
    } else if strings_eq(plan_id, silver_id) {
        Some(PlanTier::Silver)
    } else {
        None
    }
}

/// The step a webhook event calls for.  A completed checkout must carry a
/// customer, exactly one line item, a price, and a known plan, checked in
/// that order; a created customer with an address is considered for an
/// invitation; everything else is ignored.
pub fn webhook_step(event: WebhookEvent, silver_id: &str, gold_id: &str) -> (r: WebhookStep)
    ensures
        match event {
            WebhookEvent::CheckoutCompleted { customer_id, line_item_prices, customer_email } => {
                if customer_id is None {
                    r == WebhookStep::Reject(WebhookError::MissingCustomer)
                } else if line_item_prices@.len() != 1 {
                    r == WebhookStep::Reject(WebhookError::WrongLineItemCount)
                } else if line_item_prices@[0] is None {
                    r == WebhookStep::Reject(WebhookError::MissingPrice)
                } else if line_item_prices@[0]->Some_0@ != gold_id@ && line_item_prices@[0]->Some_0@
                    != silver_id@ {
                    r == WebhookStep::Reject(WebhookError::UnknownPlan)
                } else {
                    r matches WebhookStep::CreatePlan { customer_id: c, plan, email } && {
                        &&& c@ == customer_id->Some_0@
                        &&& email == customer_email
                        &&& (line_item_prices@[0]->Some_0@ == gold_id@ <==> plan is Gold)
                        &&& (line_item_prices@[0]->Some_0@ != gold_id@ ==> plan is Silver)
                    }
                }
            },
            WebhookEvent::CustomerCreated { email } => {
                match email {
                    Some(e) => r matches WebhookStep::ConsiderInvite { email: e2 } && e2@ == e@,
                    None => r == WebhookStep::Ignore,
                }
            },
            WebhookEvent::Other => r == WebhookStep::Ignore,
        },
{
    match event {
        WebhookEvent::CheckoutCompleted { customer_id, line_item_prices, customer_email } => {
            let customer = match customer_id {
                Some(c) => c,
                None => {
                    return WebhookStep::Reject(WebhookError::MissingCustomer);
                },
            };
            if line_item_prices.len() != 1 {
                return WebhookStep::Reject(WebhookError::WrongLineItemCount);
            }
            let price = match &line_item_prices[0] {
                Some(p) => p,
                None => {
                    return WebhookStep::Reject(WebhookError::MissingPrice);
                },
            };
            match classify_plan(price.as_str(), silver_id, gold_id) {
                Some(plan) => WebhookStep::CreatePlan {
                    customer_id: customer,
                    plan,
                    email: customer_email,
                },
                None => WebhookStep::Reject(WebhookError::UnknownPlan),
            }
        },
        WebhookEvent::CustomerCreated { email } => {
            match email {
                Some(e) => WebhookStep::ConsiderInvite { email: e },
                None => WebhookStep::Ignore,
            }
        },
        WebhookEvent::Other => WebhookStep::Ignore,
    }
}

} // verus!
