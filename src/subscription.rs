use vstd::prelude::*;

use crate::client::{Method, Request};
use crate::error::{Error, ShapeError};
use crate::ids::{CustomerId, PlanId, ResourceId, SubscriptionId};
use crate::json::{
    field, int_in, lemma_view_items_push, opt_bool_json, opt_int_in, opt_member, opt_u32_json,
    opt_view, present, push_member, push_opt_member, view_items, view_members, Json, JsonV,
};
use crate::params::{
    check_tag, empty_object, expand_member, opt_accepts, opt_bool, opt_decoded, opt_id, opt_int,
    opt_metadata, opt_metadata_json, opt_text, opt_text_json, opt_ts_json, opt_u64, opt_u64_json,
    push_expand, read_opt, read_req, req_accepts, req_decoded, tag_matches, text_is, Expandable,
    FromJson, List, Metadata, Object, Percent, RangeQuery, Resource, Timestamp,
};
use crate::customer::Customer;
use crate::related::{
    Discount, Invoice, PaymentMethod, Plan, SubscriptionBillingThresholds, SubscriptionItem, TaxRate,
};
use crate::source::Card;
use crate::refund::opt_range_json;

verus! {

/// How a subscription is paid: charged automatically, or by an invoice sent to the customer.
#[derive(Clone, Copy, Debug, PartialEq, Eq, Structural)]
pub enum SubscriptionBilling {
    ChargeAutomatically,
    SendInvoice,
}

impl SubscriptionBilling {
    /// The name that the service uses for this value.
    pub open spec fn spec_str(&self) -> Seq<char> {
        match self {
            SubscriptionBilling::ChargeAutomatically => "charge_automatically"@,
            SubscriptionBilling::SendInvoice => "send_invoice"@,
        }
    }

    pub fn as_str(&self) -> (r: &'static str)
        ensures
            r@ == self.spec_str(),
    {
        match self {
            SubscriptionBilling::ChargeAutomatically => "charge_automatically",
            SubscriptionBilling::SendInvoice => "send_invoice",
        }
    }

    pub fn to_json(&self) -> (r: Json)
        ensures
            r@ == JsonV::Str(self.spec_str()),
    {
        Json::Str(String::from_str(self.as_str()))
    }

    /// The value that the service names `s`, if any.
    pub open spec fn spec_from_str(s: Seq<char>) -> Option<SubscriptionBilling> {
        if s == "charge_automatically"@ {
            Some(SubscriptionBilling::ChargeAutomatically)
        } else if s == "send_invoice"@ {
            Some(SubscriptionBilling::SendInvoice)
        } else {
            None
        }
    }
}

impl FromJson for SubscriptionBilling {
    open spec fn accepts(v: JsonV) -> bool {
        match v {
            JsonV::Str(s) => SubscriptionBilling::spec_from_str(s) is Some,
            _ => false,
        }
    }

    open spec fn decoded_from(&self, v: JsonV) -> bool {
        match v {
            JsonV::Str(s) => SubscriptionBilling::spec_from_str(s) == Some(*self),
            _ => false,
        }
    }

    fn from_json(v: &Json) -> (r: Result<Self, Error>) {
        let s = match v {
            Json::Str(s) => s,
            _ => {
                return Err(Error::Shape(ShapeError::WrongType(String::from_str("subscription_billing"))));
            },
        };
        if text_is(s, "charge_automatically") {
            Ok(SubscriptionBilling::ChargeAutomatically)
        } else if text_is(s, "send_invoice") {
            Ok(SubscriptionBilling::SendInvoice)
        } else {
            Err(Error::Shape(ShapeError::WrongType(String::from_str("subscription_billing"))))
        }
    }
}

/// The state of a subscription.
#[derive(Clone, Copy, Debug, PartialEq, Eq, Structural)]
pub enum SubscriptionStatus {
    Active,
    Canceled,
    Incomplete,
    IncompleteExpired,
    PastDue,
    Trialing,
    Unpaid,
}

impl SubscriptionStatus {
    /// The name that the service uses for this value.
    pub open spec fn spec_str(&self) -> Seq<char> {
        match self {
            SubscriptionStatus::Active => "active"@,
            SubscriptionStatus::Canceled => "canceled"@,
            SubscriptionStatus::Incomplete => "incomplete"@,
            SubscriptionStatus::IncompleteExpired => "incomplete_expired"@,
            SubscriptionStatus::PastDue => "past_due"@,
            SubscriptionStatus::Trialing => "trialing"@,
            SubscriptionStatus::Unpaid => "unpaid"@,
        }
    }

    pub fn as_str(&self) -> (r: &'static str)
        ensures
            r@ == self.spec_str(),
    {
        match self {
            SubscriptionStatus::Active => "active",
            SubscriptionStatus::Canceled => "canceled",
            SubscriptionStatus::Incomplete => "incomplete",
            SubscriptionStatus::IncompleteExpired => "incomplete_expired",
            SubscriptionStatus::PastDue => "past_due",
            SubscriptionStatus::Trialing => "trialing",
            SubscriptionStatus::Unpaid => "unpaid",
        }
    }

    pub fn to_json(&self) -> (r: Json)
        ensures
            r@ == JsonV::Str(self.spec_str()),
    {
        Json::Str(String::from_str(self.as_str()))
    }

    /// The value that the service names `s`, if any.
    pub open spec fn spec_from_str(s: Seq<char>) -> Option<SubscriptionStatus> {
        if s == "active"@ {
            Some(SubscriptionStatus::Active)
        } else if s == "canceled"@ {
            Some(SubscriptionStatus::Canceled)
        } else if s == "incomplete"@ {
            Some(SubscriptionStatus::Incomplete)
        } else if s == "incomplete_expired"@ {
            Some(SubscriptionStatus::IncompleteExpired)
        } else if s == "past_due"@ {
            Some(SubscriptionStatus::PastDue)
        } else if s == "trialing"@ {
            Some(SubscriptionStatus::Trialing)
        } else if s == "unpaid"@ {
            Some(SubscriptionStatus::Unpaid)
        } else {
            None
        }
    }
}

impl FromJson for SubscriptionStatus {
    open spec fn accepts(v: JsonV) -> bool {
        match v {
            JsonV::Str(s) => SubscriptionStatus::spec_from_str(s) is Some,
            _ => false,
        }
    }

    open spec fn decoded_from(&self, v: JsonV) -> bool {
        match v {
            JsonV::Str(s) => SubscriptionStatus::spec_from_str(s) == Some(*self),
            _ => false,
        }
    }

    fn from_json(v: &Json) -> (r: Result<Self, Error>) {
        let s = match v {
            Json::Str(s) => s,
            _ => {
                return Err(Error::Shape(ShapeError::WrongType(String::from_str("subscription_status"))));
            },
        };
        if text_is(s, "active") {
            Ok(SubscriptionStatus::Active)
        } else if text_is(s, "canceled") {
            Ok(SubscriptionStatus::Canceled)
        } else if text_is(s, "incomplete") {
            Ok(SubscriptionStatus::Incomplete)
        } else if text_is(s, "incomplete_expired") {
            Ok(SubscriptionStatus::IncompleteExpired)
        } else if text_is(s, "past_due") {
            Ok(SubscriptionStatus::PastDue)
        } else if text_is(s, "trialing") {
            Ok(SubscriptionStatus::Trialing)
        } else if text_is(s, "unpaid") {
            Ok(SubscriptionStatus::Unpaid)
        } else {
            Err(Error::Shape(ShapeError::WrongType(String::from_str("subscription_status"))))
        }
    }
}

/// The subscriptions that a list asks for, by state.
#[derive(Clone, Copy, Debug, PartialEq, Eq, Structural)]
pub enum SubscriptionStatusFilter {
    Active,
    All,
    Canceled,
    Ended,
    Incomplete,
    IncompleteExpired,
    PastDue,
    Trialing,
    Unpaid,
}

impl SubscriptionStatusFilter {
    /// The name that the service uses for this value.
    pub open spec fn spec_str(&self) -> Seq<char> {
        match self {
            SubscriptionStatusFilter::Active => "active"@,
            SubscriptionStatusFilter::All => "all"@,
            SubscriptionStatusFilter::Canceled => "canceled"@,
            SubscriptionStatusFilter::Ended => "ended"@,
            SubscriptionStatusFilter::Incomplete => "incomplete"@,
            SubscriptionStatusFilter::IncompleteExpired => "incomplete_expired"@,
            SubscriptionStatusFilter::PastDue => "past_due"@,
            SubscriptionStatusFilter::Trialing => "trialing"@,
            SubscriptionStatusFilter::Unpaid => "unpaid"@,
        }
    }

    pub fn as_str(&self) -> (r: &'static str)
        ensures
            r@ == self.spec_str(),
    {
        match self {
            SubscriptionStatusFilter::Active => "active",
            SubscriptionStatusFilter::All => "all",
            SubscriptionStatusFilter::Canceled => "canceled",
            SubscriptionStatusFilter::Ended => "ended",
            SubscriptionStatusFilter::Incomplete => "incomplete",
            SubscriptionStatusFilter::IncompleteExpired => "incomplete_expired",
            SubscriptionStatusFilter::PastDue => "past_due",
            SubscriptionStatusFilter::Trialing => "trialing",
            SubscriptionStatusFilter::Unpaid => "unpaid",
        }
    }

    pub fn to_json(&self) -> (r: Json)
        ensures
            r@ == JsonV::Str(self.spec_str()),
    {
        Json::Str(String::from_str(self.as_str()))
    }
}

/// The end of a trial: a point in time, or a word that the service gives a meaning (`now`).
#[derive(Clone, Copy, Debug)]
pub enum TrialEnd<'a> {
    Timestamp(Timestamp),
    Special(&'a str),
}

impl<'a> TrialEnd<'a> {
    pub open spec fn spec_json(&self) -> JsonV {
        match self {
            TrialEnd::Timestamp(t) => JsonV::Int(*t as int),
            TrialEnd::Special(s) => JsonV::Str(s@),
        }
    }

    pub fn to_json(&self) -> (r: Json)
        ensures
            r@ == self.spec_json(),
    {
        match self {
            TrialEnd::Timestamp(t) => Json::Int(*t as i128),
            TrialEnd::Special(s) => Json::Str(String::from_str(s)),
        }
    }
}

/// The parameters of [`Subscription::cancel`].
#[derive(Clone, Copy, Debug)]
pub struct CancelParams {
    /// Cancel at the end of the current period rather than at once.
    pub at_period_end: Option<bool>,
}

impl Default for CancelParams {
    fn default() -> (r: Self)
        ensures
            r.at_period_end is None,
    {
        CancelParams { at_period_end: None }
    }
}

impl CancelParams {
    pub open spec fn spec_json(&self) -> JsonV {
        JsonV::Object(opt_member("at_period_end"@, opt_bool_json(self.at_period_end)))
    }

    pub fn to_json(&self) -> (r: Json)
        ensures
            r@ == self.spec_json(),
    {
        let mut ms: Vec<(String, Json)> = Vec::new();
        proof {
            assert(view_members(ms@) =~= Seq::empty());
        }
        push_opt_member(&mut ms, "at_period_end", opt_bool(self.at_period_end));
        proof {
            assert(view_members(ms@) =~= self.spec_json()->Object_0);
        }
        Json::Object(ms)
    }
}

/// One item of a subscription: a plan, and how many of it.
#[derive(Clone, Copy, Debug)]
pub struct ItemParams<'a> {
    pub plan: &'a str,
    pub quantity: Option<u64>,
}

impl<'a> ItemParams<'a> {
    pub open spec fn spec_json(&self) -> JsonV {
        JsonV::Object(
            seq![("plan"@, JsonV::Str(self.plan@))] + opt_member("quantity"@, opt_u64_json(self.quantity)),
        )
    }

    pub fn to_json(&self) -> (r: Json)
        ensures
            r@ == self.spec_json(),
    {
        let mut ms: Vec<(String, Json)> = Vec::new();
        proof {
            assert(view_members(ms@) =~= Seq::empty());
        }
        push_member(&mut ms, "plan", Json::Str(String::from_str(self.plan)));
        push_opt_member(&mut ms, "quantity", opt_u64(self.quantity));
        proof {
            assert(view_members(ms@) =~= self.spec_json()->Object_0);
        }
        Json::Object(ms)
    }
}

pub open spec fn items_json(items: Seq<ItemParams>) -> JsonV {
    JsonV::Array(Seq::new(items.len(), |i: int| items[i].spec_json()))
}

pub open spec fn opt_items_json(o: Option<Vec<ItemParams>>) -> Option<JsonV> {
    match o {
        Some(v) => Some(items_json(v@)),
        None => None,
    }
}

fn opt_items(o: &Option<Vec<ItemParams>>) -> (r: Option<Json>)
    ensures
        opt_view(r) == opt_items_json(*o),
{
    match o {
        Some(items) => {
            let mut out: Vec<Json> = Vec::new();
            let mut i: usize = 0;
            while i < items.len()
                invariant
                    0 <= i <= items@.len(),
                    view_items(out@) =~= items_json(items@)->Array_0.take(i as int),
                decreases items@.len() - i,
            {
                let x = items[i].to_json();
                proof {
                    lemma_view_items_push(out@, x);
                }
                out.push(x);
                assert(view_items(out@) =~= items_json(items@)->Array_0.take(i + 1));
                i = i + 1;
            }
            assert(items_json(items@)->Array_0.take(items@.len() as int) =~= items_json(items@)->Array_0);
            Some(Json::Array(out))
        },
        None => None,
    }
}

pub open spec fn opt_percent_json(o: Option<Percent>) -> Option<JsonV> {
    match o {
        Some(p) => Some(p.spec_json()),
        None => None,
    }
}

fn opt_percent(o: Option<Percent>) -> (r: Option<Json>)
    ensures
        opt_view(r) == opt_percent_json(o),
{
    match o {
        Some(p) => Some(p.to_json()),
        None => None,
    }
}

pub open spec fn opt_trial_end_json(o: Option<TrialEnd>) -> Option<JsonV> {
    match o {
        Some(t) => Some(t.spec_json()),
        None => None,
    }
}

/// The parameters of [`Subscription::create`] and [`Subscription::update`].
#[derive(Clone, Debug)]
pub struct SubscriptionParams<'a> {
    pub customer: Option<&'a str>,
    pub application_fee_percent: Option<Percent>,
    pub coupon: Option<&'a str>,
    pub items: Option<Vec<ItemParams<'a>>>,
    /// Keys to set; an empty value clears every key, while `None` leaves them as they are.
    pub metadata: Option<Metadata>,
    pub plan: Option<&'a str>,
    pub prorate: Option<bool>,
    pub proration_date: Option<Timestamp>,
    pub quantity: Option<u64>,
    pub source: Option<&'a str>,
    pub tax_percent: Option<Percent>,
    pub trial_end: Option<TrialEnd<'a>>,
    pub trial_period_days: Option<u64>,
}

impl<'a> Default for SubscriptionParams<'a> {
    fn default() -> (r: Self)
        ensures
            r.is_unset(),
    {
        SubscriptionParams {
            customer: None,
            application_fee_percent: None,
            coupon: None,
            items: None,
            metadata: None,
            plan: None,
            prorate: None,
            proration_date: None,
            quantity: None,
            source: None,
            tax_percent: None,
            trial_end: None,
            trial_period_days: None,
        }
    }
}

impl<'a> SubscriptionParams<'a> {
    /// No parameter is set.
    pub open spec fn is_unset(&self) -> bool {
        &&& self.customer is None
        &&& self.application_fee_percent is None
        &&& self.coupon is None
        &&& self.items is None
        &&& self.metadata is None
        &&& self.plan is None
        &&& self.prorate is None
        &&& self.proration_date is None
        &&& self.quantity is None
        &&& self.source is None
        &&& self.tax_percent is None
        &&& self.trial_end is None
        &&& self.trial_period_days is None
    }

    /// The request body: one member for each parameter that is set, in declaration order.
    pub open spec fn spec_json(&self) -> JsonV {
        JsonV::Object(
            opt_member("customer"@, opt_text_json(self.customer))
            + opt_member("application_fee_percent"@, opt_percent_json(self.application_fee_percent))
            + opt_member("coupon"@, opt_text_json(self.coupon))
            + opt_member("items"@, opt_items_json(self.items))
            + opt_member("metadata"@, opt_metadata_json(self.metadata))
            + opt_member("plan"@, opt_text_json(self.plan))
            + opt_member("prorate"@, opt_bool_json(self.prorate))
            + opt_member("proration_date"@, opt_ts_json(self.proration_date))
            + opt_member("quantity"@, opt_u64_json(self.quantity))
            + opt_member("source"@, opt_text_json(self.source))
            + opt_member("tax_percent"@, opt_percent_json(self.tax_percent))
            + opt_member("trial_end"@, opt_trial_end_json(self.trial_end))
            + opt_member("trial_period_days"@, opt_u64_json(self.trial_period_days)),
        )
    }

    pub fn to_json(&self) -> (r: Json)
        ensures
            r@ == self.spec_json(),
    {
        let mut ms: Vec<(String, Json)> = Vec::new();
        proof {
            assert(view_members(ms@) =~= Seq::empty());
        }
        push_opt_member(&mut ms, "customer", opt_text(self.customer));
        push_opt_member(&mut ms, "application_fee_percent", opt_percent(self.application_fee_percent));
        push_opt_member(&mut ms, "coupon", opt_text(self.coupon));
        push_opt_member(&mut ms, "items", opt_items(&self.items));
        push_opt_member(&mut ms, "metadata", opt_metadata(&self.metadata));
        push_opt_member(&mut ms, "plan", opt_text(self.plan));
        push_opt_member(&mut ms, "prorate", opt_bool(self.prorate));
        push_opt_member(&mut ms, "proration_date", opt_int(self.proration_date));
        push_opt_member(&mut ms, "quantity", opt_u64(self.quantity));
        push_opt_member(&mut ms, "source", opt_text(self.source));
        push_opt_member(&mut ms, "tax_percent", opt_percent(self.tax_percent));
        let trial_end = match &self.trial_end {
            Some(t) => Some(t.to_json()),
            None => None,
        };
        push_opt_member(&mut ms, "trial_end", trial_end);
        push_opt_member(&mut ms, "trial_period_days", opt_u64(self.trial_period_days));
        proof {
            assert(view_members(ms@) =~= self.spec_json()->Object_0);
        }
        Json::Object(ms)
    }
}

pub open spec fn opt_billing_json(o: Option<SubscriptionBilling>) -> Option<JsonV> {
    match o {
        Some(b) => Some(JsonV::Str(b.spec_str())),
        None => None,
    }
}

pub open spec fn opt_filter_json(o: Option<SubscriptionStatusFilter>) -> Option<JsonV> {
    match o {
        Some(f) => Some(JsonV::Str(f.spec_str())),
        None => None,
    }
}

pub open spec fn opt_sub_ref_json(o: Option<&SubscriptionId>) -> Option<JsonV> {
    match o {
        Some(i) => Some(JsonV::Str(i@)),
        None => None,
    }
}

fn opt_sub_ref(o: Option<&SubscriptionId>) -> (r: Option<Json>)
    ensures
        opt_view(r) == opt_sub_ref_json(o),
{
    match o {
        Some(i) => Some(Json::Str(String::from_str(i.as_str()))),
        None => None,
    }
}

fn opt_range(o: &Option<RangeQuery>) -> (r: Option<Json>)
    ensures
        opt_view(r) == opt_range_json(*o),
{
    match o {
        Some(q) => Some(q.to_json()),
        None => None,
    }
}

/// The parameters of [`Subscription::list`].
#[derive(Clone, Debug)]
pub struct SubscriptionListParams<'a> {
    billing: Option<SubscriptionBilling>,
    created: Option<RangeQuery>,
    current_period_end: Option<RangeQuery>,
    current_period_start: Option<RangeQuery>,
    /// Only the subscriptions of this customer.
    customer: Option<CustomerId>,
    /// Cursor: the page that ends before this subscription.
    ending_before: Option<&'a SubscriptionId>,
    /// The fields of the response to expand.
    expand: &'a [&'a str],
    /// How many subscriptions a page holds, from 1 to 100; 10 when unset.
    limit: Option<u64>,
    /// Only the subscriptions to this plan.
    plan: Option<PlanId>,
    /// Cursor: the page that starts after this subscription.
    starting_after: Option<&'a SubscriptionId>,
    status: Option<SubscriptionStatusFilter>,
}

impl<'a> SubscriptionListParams<'a> {
    /// Parameters with nothing set.
    pub fn new() -> (r: Self)
        ensures
            r.is_unset(),
            r.spec_json() == JsonV::Object(Seq::empty()),
    {
        let r = SubscriptionListParams {
            billing: None,
            created: None,
            current_period_end: None,
            current_period_start: None,
            customer: None,
            ending_before: None,
            expand: &[],
            limit: None,
            plan: None,
            starting_after: None,
            status: None,
        };
        proof {
            r.lemma_unset_is_empty();
        }
        r
    }

    /// No parameter is set.
    pub closed spec fn is_unset(&self) -> bool {
        &&& self.billing is None
        &&& self.created is None
        &&& self.current_period_end is None
        &&& self.current_period_start is None
        &&& self.customer is None
        &&& self.ending_before is None
        &&& self.expand@.len() == 0
        &&& self.limit is None
        &&& self.plan is None
        &&& self.starting_after is None
        &&& self.status is None
    }

    /// The query: one member for each parameter that is set, in declaration order.
    pub closed spec fn spec_json(&self) -> JsonV {
        JsonV::Object(
            opt_member("billing"@, opt_billing_json(self.billing))
            + opt_member("created"@, opt_range_json(self.created))
            + opt_member("current_period_end"@, opt_range_json(self.current_period_end))
            + opt_member("current_period_start"@, opt_range_json(self.current_period_start))
            + opt_member("customer"@, opt_text_json(self.customer))
            + opt_member("ending_before"@, opt_sub_ref_json(self.ending_before))
            + expand_member(self.expand@)
            + opt_member("limit"@, opt_u64_json(self.limit))
            + opt_member("plan"@, opt_text_json(self.plan))
            + opt_member("starting_after"@, opt_sub_ref_json(self.starting_after))
            + opt_member("status"@, opt_filter_json(self.status)),
        )
    }

    /// With nothing set, the query is empty.
    pub proof fn lemma_unset_is_empty(&self)
        requires
            self.is_unset(),
        ensures
            self.spec_json() == JsonV::Object(Seq::empty()),
    {
        assert(self.spec_json()->Object_0 =~= Seq::empty());
    }

    pub fn to_json(&self) -> (r: Json)
        ensures
            r@ == self.spec_json(),
    {
        let mut ms: Vec<(String, Json)> = Vec::new();
        proof {
            assert(view_members(ms@) =~= Seq::empty());
        }
        let billing = match self.billing {
            Some(b) => Some(b.to_json()),
            None => None,
        };
        push_opt_member(&mut ms, "billing", billing);
        push_opt_member(&mut ms, "created", opt_range(&self.created));
        push_opt_member(&mut ms, "current_period_end", opt_range(&self.current_period_end));
        push_opt_member(&mut ms, "current_period_start", opt_range(&self.current_period_start));
        push_opt_member(&mut ms, "customer", opt_id(&self.customer));
        push_opt_member(&mut ms, "ending_before", opt_sub_ref(self.ending_before));
        push_expand(&mut ms, self.expand);
        push_opt_member(&mut ms, "limit", opt_u64(self.limit));
        push_opt_member(&mut ms, "plan", opt_id(&self.plan));
        push_opt_member(&mut ms, "starting_after", opt_sub_ref(self.starting_after));
        let status = match self.status {
            Some(f) => Some(f.to_json()),
            None => None,
        };
        push_opt_member(&mut ms, "status", status);
        proof {
            assert(view_members(ms@) =~= self.spec_json()->Object_0);
        }
        Json::Object(ms)
    }
}

/// The path of one subscription.
pub open spec fn subscription_path(id: Seq<char>) -> Seq<char> {
    "/subscriptions/"@ + id
}

fn path_of(id: &str) -> (r: String)
    ensures
        r@ == subscription_path(id@),
{
    String::from_str("/subscriptions/").concat(id)
}

/// A customer's recurring payment for one or more plans.
pub struct Subscription {
    pub id: SubscriptionId,
    /// Share of each invoice's subtotal that goes to the application owner.
    pub application_fee_percent: Option<Percent>,
    pub billing: SubscriptionBilling,
    pub billing_cycle_anchor: Timestamp,
    /// Amounts at which an invoice is sent early.
    pub billing_thresholds: Option<SubscriptionBillingThresholds>,
    pub cancel_at_period_end: bool,
    pub canceled_at: Option<Timestamp>,
    pub created: Timestamp,
    pub current_period_end: Timestamp,
    pub current_period_start: Timestamp,
    /// The customer who owns the subscription.
    pub customer: Expandable<Customer>,
    /// Days to pay an invoice; unset when charged automatically.
    pub days_until_due: Option<u32>,
    pub default_payment_method: Option<Expandable<PaymentMethod>>,
    /// The card charged by default; the customer's default source when unset.
    pub default_source: Option<Expandable<Card>>,
    /// Tax rates for items that set none of their own.
    pub default_tax_rates: Option<Vec<TaxRate>>,
    pub discount: Option<Discount>,
    pub ended_at: Option<Timestamp>,
    /// The plans subscribed to, one item each.
    pub items: List<SubscriptionItem>,
    pub latest_invoice: Option<Expandable<Invoice>>,
    pub livemode: bool,
    pub metadata: Metadata,
    /// Set when the subscription has a single plan.
    pub plan: Option<Plan>,
    pub quantity: Option<u64>,
    pub start: Option<Timestamp>,
    pub start_date: Option<Timestamp>,
    pub status: SubscriptionStatus,
    pub tax_percent: Option<Percent>,
    pub trial_end: Option<Timestamp>,
    pub trial_start: Option<Timestamp>,
}

impl FromJson for Subscription {
    open spec fn accepts(v: JsonV) -> bool {
        &&& tag_matches(v, "subscription"@)
        &&& field(v, "id"@) matches Some(JsonV::Str(_))
        &&& opt_accepts::<Percent>(field(v, "application_fee_percent"@))
        &&& req_accepts::<SubscriptionBilling>(field(v, "billing"@))
        &&& int_in(field(v, "billing_cycle_anchor"@), i64::MIN as int, i64::MAX as int)
        &&& opt_accepts::<SubscriptionBillingThresholds>(field(v, "billing_thresholds"@))
        &&& field(v, "cancel_at_period_end"@) matches Some(JsonV::Bool(_))
        &&& opt_int_in(field(v, "canceled_at"@), i64::MIN as int, i64::MAX as int)
        &&& int_in(field(v, "created"@), i64::MIN as int, i64::MAX as int)
        &&& int_in(field(v, "current_period_end"@), i64::MIN as int, i64::MAX as int)
        &&& int_in(field(v, "current_period_start"@), i64::MIN as int, i64::MAX as int)
        &&& req_accepts::<Expandable<Customer>>(field(v, "customer"@))
        &&& opt_int_in(field(v, "days_until_due"@), 0, u32::MAX as int)
        &&& opt_accepts::<Expandable<PaymentMethod>>(field(v, "default_payment_method"@))
        &&& opt_accepts::<Expandable<Card>>(field(v, "default_source"@))
        &&& opt_accepts::<Vec<TaxRate>>(field(v, "default_tax_rates"@))
        &&& opt_accepts::<Discount>(field(v, "discount"@))
        &&& opt_int_in(field(v, "ended_at"@), i64::MIN as int, i64::MAX as int)
        &&& req_accepts::<List<SubscriptionItem>>(field(v, "items"@))
        &&& opt_accepts::<Expandable<Invoice>>(field(v, "latest_invoice"@))
        &&& field(v, "livemode"@) matches Some(JsonV::Bool(_))
        &&& req_accepts::<Metadata>(field(v, "metadata"@))
        &&& opt_accepts::<Plan>(field(v, "plan"@))
        &&& opt_int_in(field(v, "quantity"@), 0, u64::MAX as int)
        &&& opt_int_in(field(v, "start"@), i64::MIN as int, i64::MAX as int)
        &&& opt_int_in(field(v, "start_date"@), i64::MIN as int, i64::MAX as int)
        &&& req_accepts::<SubscriptionStatus>(field(v, "status"@))
        &&& opt_accepts::<Percent>(field(v, "tax_percent"@))
        &&& opt_int_in(field(v, "trial_end"@), i64::MIN as int, i64::MAX as int)
        &&& opt_int_in(field(v, "trial_start"@), i64::MIN as int, i64::MAX as int)
    }

    open spec fn decoded_from(&self, v: JsonV) -> bool {
        &&& field(v, "id"@) == Some(JsonV::Str(self.id@))
        &&& opt_decoded(self.application_fee_percent, field(v, "application_fee_percent"@))
        &&& req_decoded(self.billing, field(v, "billing"@))
        &&& field(v, "billing_cycle_anchor"@) == Some(JsonV::Int(self.billing_cycle_anchor as int))
        &&& opt_decoded(self.billing_thresholds, field(v, "billing_thresholds"@))
        &&& field(v, "cancel_at_period_end"@) == Some(JsonV::Bool(self.cancel_at_period_end))
        &&& present(field(v, "canceled_at"@)) == opt_ts_json(self.canceled_at)
        &&& field(v, "created"@) == Some(JsonV::Int(self.created as int))
        &&& field(v, "current_period_end"@) == Some(JsonV::Int(self.current_period_end as int))
        &&& field(v, "current_period_start"@) == Some(JsonV::Int(self.current_period_start as int))
        &&& req_decoded(self.customer, field(v, "customer"@))
        &&& present(field(v, "days_until_due"@)) == opt_u32_json(self.days_until_due)
        &&& opt_decoded(self.default_payment_method, field(v, "default_payment_method"@))
        &&& opt_decoded(self.default_source, field(v, "default_source"@))
        &&& opt_decoded(self.default_tax_rates, field(v, "default_tax_rates"@))
        &&& opt_decoded(self.discount, field(v, "discount"@))
        &&& present(field(v, "ended_at"@)) == opt_ts_json(self.ended_at)
        &&& req_decoded(self.items, field(v, "items"@))
        &&& opt_decoded(self.latest_invoice, field(v, "latest_invoice"@))
        &&& field(v, "livemode"@) == Some(JsonV::Bool(self.livemode))
        &&& req_decoded(self.metadata, field(v, "metadata"@))
        &&& opt_decoded(self.plan, field(v, "plan"@))
        &&& present(field(v, "quantity"@)) == opt_u64_json(self.quantity)
        &&& present(field(v, "start"@)) == opt_ts_json(self.start)
        &&& present(field(v, "start_date"@)) == opt_ts_json(self.start_date)
        &&& req_decoded(self.status, field(v, "status"@))
        &&& opt_decoded(self.tax_percent, field(v, "tax_percent"@))
        &&& present(field(v, "trial_end"@)) == opt_ts_json(self.trial_end)
        &&& present(field(v, "trial_start"@)) == opt_ts_json(self.trial_start)
    }

    fn from_json(v: &Json) -> (r: Result<Self, Error>) {
        if let Err(e) = check_tag(v, "subscription") {
            return Err(e);
        }
        let id = match v.read_str("id") {
            Ok(x) => SubscriptionId::new(x),
            Err(e) => {
                return Err(e);
            },
        };
        let application_fee_percent = match read_opt::<Percent>(v, "application_fee_percent") {
            Ok(x) => x,
            Err(e) => {
                return Err(e);
            },
        };
        let billing = match read_req::<SubscriptionBilling>(v, "billing") {
            Ok(x) => x,
            Err(e) => {
                return Err(e);
            },
        };
        let billing_cycle_anchor = match v.read_i64("billing_cycle_anchor") {
            Ok(x) => x,
            Err(e) => {
                return Err(e);
            },
        };
        let billing_thresholds = match read_opt::<SubscriptionBillingThresholds>(v, "billing_thresholds") {
            Ok(x) => x,
            Err(e) => {
                return Err(e);
            },
        };
        let cancel_at_period_end = match v.read_bool("cancel_at_period_end") {
            Ok(x) => x,
            Err(e) => {
                return Err(e);
            },
        };
        let canceled_at = match v.read_opt_i64("canceled_at") {
            Ok(x) => x,
            Err(e) => {
                return Err(e);
            },
        };
        let created = match v.read_i64("created") {
            Ok(x) => x,
            Err(e) => {
                return Err(e);
            },
        };
        let current_period_end = match v.read_i64("current_period_end") {
            Ok(x) => x,
            Err(e) => {
                return Err(e);
            },
        };
        let current_period_start = match v.read_i64("current_period_start") {
            Ok(x) => x,
            Err(e) => {
                return Err(e);
            },
        };
        let customer = match read_req::<Expandable<Customer>>(v, "customer") {
            Ok(x) => x,
            Err(e) => {
                return Err(e);
            },
        };
        let days_until_due = match v.read_opt_u32("days_until_due") {
            Ok(x) => x,
            Err(e) => {
                return Err(e);
            },
        };
        let default_payment_method = match read_opt::<Expandable<PaymentMethod>>(v, "default_payment_method") {
            Ok(x) => x,
            Err(e) => {
                return Err(e);
            },
        };
        let default_source = match read_opt::<Expandable<Card>>(v, "default_source") {
            Ok(x) => x,
            Err(e) => {
                return Err(e);
            },
        };
        let default_tax_rates = match read_opt::<Vec<TaxRate>>(v, "default_tax_rates") {
            Ok(x) => x,
            Err(e) => {
                return Err(e);
            },
        };
        let discount = match read_opt::<Discount>(v, "discount") {
            Ok(x) => x,
            Err(e) => {
                return Err(e);
            },
        };
        let ended_at = match v.read_opt_i64("ended_at") {
            Ok(x) => x,
            Err(e) => {
                return Err(e);
            },
        };
        let items = match read_req::<List<SubscriptionItem>>(v, "items") {
            Ok(x) => x,
            Err(e) => {
                return Err(e);
            },
        };
        let latest_invoice = match read_opt::<Expandable<Invoice>>(v, "latest_invoice") {
            Ok(x) => x,
            Err(e) => {
                return Err(e);
            },
        };
        let livemode = match v.read_bool("livemode") {
            Ok(x) => x,
            Err(e) => {
                return Err(e);
            },
        };
        let metadata = match read_req::<Metadata>(v, "metadata") {
            Ok(x) => x,
            Err(e) => {
                return Err(e);
            },
        };
        let plan = match read_opt::<Plan>(v, "plan") {
            Ok(x) => x,
            Err(e) => {
                return Err(e);
            },
        };
        let quantity = match v.read_opt_u64("quantity") {
            Ok(x) => x,
            Err(e) => {
                return Err(e);
            },
        };
        let start = match v.read_opt_i64("start") {
            Ok(x) => x,
            Err(e) => {
                return Err(e);
            },
        };
        let start_date = match v.read_opt_i64("start_date") {
            Ok(x) => x,
            Err(e) => {
                return Err(e);
            },
        };
        let status = match read_req::<SubscriptionStatus>(v, "status") {
            Ok(x) => x,
            Err(e) => {
                return Err(e);
            },
        };
        let tax_percent = match read_opt::<Percent>(v, "tax_percent") {
            Ok(x) => x,
            Err(e) => {
                return Err(e);
            },
        };
        let trial_end = match v.read_opt_i64("trial_end") {
            Ok(x) => x,
            Err(e) => {
                return Err(e);
            },
        };
        let trial_start = match v.read_opt_i64("trial_start") {
            Ok(x) => x,
            Err(e) => {
                return Err(e);
            },
        };
        Ok(Subscription { id, application_fee_percent, billing, billing_cycle_anchor, billing_thresholds, cancel_at_period_end, canceled_at, created, current_period_end, current_period_start, customer, days_until_due, default_payment_method, default_source, default_tax_rates, discount, ended_at, items, latest_invoice, livemode, metadata, plan, quantity, start, start_date, status, tax_percent, trial_end, trial_start })
    }
}

impl Object for Subscription {
    type Id = SubscriptionId;

    open spec fn id_view(&self) -> Seq<char> {
        self.id@
    }

    open spec fn tag() -> Seq<char> {
        "subscription"@
    }

    fn id(&self) -> (r: SubscriptionId) {
        self.id.duplicate()
    }

    fn object(&self) -> (r: &'static str) {
        "subscription"
    }
}

impl Resource for Subscription {
    proof fn lemma_id_from_payload(&self, v: JsonV) {
    }
}

impl Subscription {
    /// Creates a subscription for a customer.
    pub fn create(params: SubscriptionParams<'_>) -> (r: Request)
        ensures
            r.method == Method::Post,
            r.path@ == "/subscriptions"@,
            r.params@ == params.spec_json(),
    {
        Request {
            method: Method::Post,
            path: String::from_str("/subscriptions"),
            params: params.to_json(),
        }
    }

    /// Retrieves one subscription.
    pub fn retrieve(subscription_id: &str) -> (r: Request)
        ensures
            r.method == Method::Get,
            r.path@ == subscription_path(subscription_id@),
            r.params@ == JsonV::Object(Seq::empty()),
    {
        Request { method: Method::Get, path: path_of(subscription_id), params: empty_object() }
    }

    /// Updates one subscription with the values that `params` sets.
    pub fn update(subscription_id: &str, params: SubscriptionParams<'_>) -> (r: Request)
        ensures
            r.method == Method::Post,
            r.path@ == subscription_path(subscription_id@),
            r.params@ == params.spec_json(),
    {
        Request { method: Method::Post, path: path_of(subscription_id), params: params.to_json() }
    }

    /// Cancels one subscription.
    pub fn cancel(subscription_id: &str, params: CancelParams) -> (r: Request)
        ensures
            r.method == Method::Delete,
            r.path@ == subscription_path(subscription_id@),
            r.params@ == params.spec_json(),
    {
        Request { method: Method::Delete, path: path_of(subscription_id), params: params.to_json() }
    }

    /// Lists subscriptions; those that are canceled only when `status` asks for them.
    pub fn list(params: SubscriptionListParams<'_>) -> (r: Request)
        ensures
            r.method == Method::Get,
            r.path@ == "/subscriptions"@,
            r.params@ == params.spec_json(),
    {
        Request {
            method: Method::Get,
            path: String::from_str("/subscriptions"),
            params: params.to_json(),
        }
    }
}

} // verus!
