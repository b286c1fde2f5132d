use vstd::prelude::*;

use crate::currency::Currency;
use crate::error::{Error, ShapeError};
use crate::ids::{
    BalanceTransactionId, ChargeId, InvoiceId, PaymentMethodId, PlanId, ResourceId,
    SubscriptionItemId, TaxRateId, TransferReversalId,
};
use crate::json::{
    field, int_in, opt_bool_json, opt_int_in, opt_str_json, opt_str_ok, opt_str_view, present,
    Json, JsonV,
};
use crate::params::{
    check_tag, opt_ts_json, opt_u64_json, read_req, req_accepts, req_decoded, tag_matches,
    FromJson, Metadata, Object, Percent, Resource, Timestamp,
};

verus! {

/// The movement of funds in the account's balance that a charge, refund or payout caused.
pub struct BalanceTransaction {
    pub id: BalanceTransactionId,
    pub amount: i64,
    pub created: Timestamp,
    pub currency: Currency,
}

impl Object for BalanceTransaction {
    type Id = BalanceTransactionId;

    open spec fn id_view(&self) -> Seq<char> {
        self.id@
    }

    open spec fn tag() -> Seq<char> {
        "balance_transaction"@
    }

    fn id(&self) -> (r: BalanceTransactionId) {
        self.id.duplicate()
    }

    fn object(&self) -> (r: &'static str) {
        "balance_transaction"
    }
}

impl FromJson for BalanceTransaction {
    open spec fn accepts(v: JsonV) -> bool {
        &&& tag_matches(v, "balance_transaction"@)
        &&& field(v, "id"@) matches Some(JsonV::Str(_))
        &&& int_in(field(v, "amount"@), i64::MIN as int, i64::MAX as int)
        &&& int_in(field(v, "created"@), i64::MIN as int, i64::MAX as int)
        &&& req_accepts::<Currency>(field(v, "currency"@))
    }

    open spec fn decoded_from(&self, v: JsonV) -> bool {
        &&& field(v, "id"@) == Some(JsonV::Str(self.id@))
        &&& field(v, "amount"@) == Some(JsonV::Int(self.amount as int))
        &&& field(v, "created"@) == Some(JsonV::Int(self.created as int))
        &&& req_decoded(self.currency, field(v, "currency"@))
    }

    fn from_json(v: &Json) -> (r: Result<Self, Error>) {
        if let Err(e) = check_tag(v, "balance_transaction") {
            return Err(e);
        }
        let id = match v.read_str("id") {
            Ok(s) => BalanceTransactionId::new(s),
            Err(e) => {
                return Err(e);
            },
        };
        let amount = match v.read_i64("amount") {
            Ok(x) => x,
            Err(e) => {
                return Err(e);
            },
        };
        let created = match v.read_i64("created") {
            Ok(x) => x,
            Err(e) => {
                return Err(e);
            },
        };
        let currency = match read_req::<Currency>(v, "currency") {
            Ok(x) => x,
            Err(e) => {
                return Err(e);
            },
        };
        Ok(BalanceTransaction { id, amount, created, currency })
    }
}

impl Resource for BalanceTransaction {
    proof fn lemma_id_from_payload(&self, v: JsonV) {
    }
}

/// A payment made with a card or another source.
pub struct Charge {
    pub id: ChargeId,
    pub amount: i64,
    pub created: Timestamp,
    pub currency: Currency,
}

impl Object for Charge {
    type Id = ChargeId;

    open spec fn id_view(&self) -> Seq<char> {
        self.id@
    }

    open spec fn tag() -> Seq<char> {
        "charge"@
    }

    fn id(&self) -> (r: ChargeId) {
        self.id.duplicate()
    }

    fn object(&self) -> (r: &'static str) {
        "charge"
    }
}

impl FromJson for Charge {
    open spec fn accepts(v: JsonV) -> bool {
        &&& tag_matches(v, "charge"@)
        &&& field(v, "id"@) matches Some(JsonV::Str(_))
        &&& int_in(field(v, "amount"@), i64::MIN as int, i64::MAX as int)
        &&& int_in(field(v, "created"@), i64::MIN as int, i64::MAX as int)
        &&& req_accepts::<Currency>(field(v, "currency"@))
    }

    open spec fn decoded_from(&self, v: JsonV) -> bool {
        &&& field(v, "id"@) == Some(JsonV::Str(self.id@))
        &&& field(v, "amount"@) == Some(JsonV::Int(self.amount as int))
        &&& field(v, "created"@) == Some(JsonV::Int(self.created as int))
        &&& req_decoded(self.currency, field(v, "currency"@))
    }

    fn from_json(v: &Json) -> (r: Result<Self, Error>) {
        if let Err(e) = check_tag(v, "charge") {
            return Err(e);
        }
        let id = match v.read_str("id") {
            Ok(s) => ChargeId::new(s),
            Err(e) => {
                return Err(e);
            },
        };
        let amount = match v.read_i64("amount") {
            Ok(x) => x,
            Err(e) => {
                return Err(e);
            },
        };
        let created = match v.read_i64("created") {
            Ok(x) => x,
            Err(e) => {
                return Err(e);
            },
        };
        let currency = match read_req::<Currency>(v, "currency") {
            Ok(x) => x,
            Err(e) => {
                return Err(e);
            },
        };
        Ok(Charge { id, amount, created, currency })
    }
}

impl Resource for Charge {
    proof fn lemma_id_from_payload(&self, v: JsonV) {
    }
}

/// The reversal of a transfer to a connected account.
pub struct TransferReversal {
    pub id: TransferReversalId,
    pub amount: i64,
    pub created: Timestamp,
    pub currency: Currency,
}

impl Object for TransferReversal {
    type Id = TransferReversalId;

    open spec fn id_view(&self) -> Seq<char> {
        self.id@
    }

    open spec fn tag() -> Seq<char> {
        "transfer_reversal"@
    }

    fn id(&self) -> (r: TransferReversalId) {
        self.id.duplicate()
    }

    fn object(&self) -> (r: &'static str) {
        "transfer_reversal"
    }
}

impl FromJson for TransferReversal {
    open spec fn accepts(v: JsonV) -> bool {
        &&& tag_matches(v, "transfer_reversal"@)
        &&& field(v, "id"@) matches Some(JsonV::Str(_))
        &&& int_in(field(v, "amount"@), i64::MIN as int, i64::MAX as int)
        &&& int_in(field(v, "created"@), i64::MIN as int, i64::MAX as int)
        &&& req_accepts::<Currency>(field(v, "currency"@))
    }

    open spec fn decoded_from(&self, v: JsonV) -> bool {
        &&& field(v, "id"@) == Some(JsonV::Str(self.id@))
        &&& field(v, "amount"@) == Some(JsonV::Int(self.amount as int))
        &&& field(v, "created"@) == Some(JsonV::Int(self.created as int))
        &&& req_decoded(self.currency, field(v, "currency"@))
    }

    fn from_json(v: &Json) -> (r: Result<Self, Error>) {
        if let Err(e) = check_tag(v, "transfer_reversal") {
            return Err(e);
        }
        let id = match v.read_str("id") {
            Ok(s) => TransferReversalId::new(s),
            Err(e) => {
                return Err(e);
            },
        };
        let amount = match v.read_i64("amount") {
            Ok(x) => x,
            Err(e) => {
                return Err(e);
            },
        };
        let created = match v.read_i64("created") {
            Ok(x) => x,
            Err(e) => {
                return Err(e);
            },
        };
        let currency = match read_req::<Currency>(v, "currency") {
            Ok(x) => x,
            Err(e) => {
                return Err(e);
            },
        };
        Ok(TransferReversal { id, amount, created, currency })
    }
}

impl Resource for TransferReversal {
    proof fn lemma_id_from_payload(&self, v: JsonV) {
    }
}

/// A statement of what a customer owes, such as one period of a subscription.
pub struct Invoice {
    pub id: InvoiceId,
    pub amount_due: i64,
    pub amount_paid: i64,
    pub created: Timestamp,
    pub currency: Currency,
    pub paid: bool,
    /// `draft`, `open`, `paid`, `uncollectible` or `void`.
    pub status: Option<String>,
}

impl FromJson for Invoice {
    open spec fn accepts(v: JsonV) -> bool {
        &&& tag_matches(v, "invoice"@)
        &&& field(v, "id"@) matches Some(JsonV::Str(_))
        &&& int_in(field(v, "amount_due"@), i64::MIN as int, i64::MAX as int)
        &&& int_in(field(v, "amount_paid"@), i64::MIN as int, i64::MAX as int)
        &&& int_in(field(v, "created"@), i64::MIN as int, i64::MAX as int)
        &&& req_accepts::<Currency>(field(v, "currency"@))
        &&& field(v, "paid"@) matches Some(JsonV::Bool(_))
        &&& opt_str_ok(field(v, "status"@))
    }

    open spec fn decoded_from(&self, v: JsonV) -> bool {
        &&& field(v, "id"@) == Some(JsonV::Str(self.id@))
        &&& field(v, "amount_due"@) == Some(JsonV::Int(self.amount_due as int))
        &&& field(v, "amount_paid"@) == Some(JsonV::Int(self.amount_paid as int))
        &&& field(v, "created"@) == Some(JsonV::Int(self.created as int))
        &&& req_decoded(self.currency, field(v, "currency"@))
        &&& field(v, "paid"@) == Some(JsonV::Bool(self.paid))
        &&& present(field(v, "status"@)) == opt_str_json(opt_str_view(self.status))
    }

    fn from_json(v: &Json) -> (r: Result<Self, Error>) {
        if let Err(e) = check_tag(v, "invoice") {
            return Err(e);
        }
        let id = match v.read_str("id") {
            Ok(x) => InvoiceId::new(x),
            Err(e) => {
                return Err(e);
            },
        };
        let amount_due = match v.read_i64("amount_due") {
            Ok(x) => x,
            Err(e) => {
                return Err(e);
            },
        };
        let amount_paid = match v.read_i64("amount_paid") {
            Ok(x) => x,
            Err(e) => {
                return Err(e);
            },
        };
        let created = match v.read_i64("created") {
            Ok(x) => x,
            Err(e) => {
                return Err(e);
            },
        };
        let currency = match read_req::<Currency>(v, "currency") {
            Ok(x) => x,
            Err(e) => {
                return Err(e);
            },
        };
        let paid = match v.read_bool("paid") {
            Ok(x) => x,
            Err(e) => {
                return Err(e);
            },
        };
        let status = match v.read_opt_str("status") {
            Ok(x) => x,
            Err(e) => {
                return Err(e);
            },
        };
        Ok(Invoice { id, amount_due, amount_paid, created, currency, paid, status })
    }
}

impl Object for Invoice {
    type Id = InvoiceId;

    open spec fn id_view(&self) -> Seq<char> {
        self.id@
    }

    open spec fn tag() -> Seq<char> {
        "invoice"@
    }

    fn id(&self) -> (r: InvoiceId) {
        self.id.duplicate()
    }

    fn object(&self) -> (r: &'static str) {
        "invoice"
    }
}

impl Resource for Invoice {
    proof fn lemma_id_from_payload(&self, v: JsonV) {
    }
}

/// A means of payment that can be attached to a customer.
pub struct PaymentMethod {
    pub id: PaymentMethodId,
    pub created: Timestamp,
    /// The customer that the payment method belongs to, if any.
    pub customer: Option<String>,
    pub livemode: bool,
    /// The kind of payment method, such as `card`.
    pub payment_method_type: String,
}

impl FromJson for PaymentMethod {
    open spec fn accepts(v: JsonV) -> bool {
        &&& tag_matches(v, "payment_method"@)
        &&& field(v, "id"@) matches Some(JsonV::Str(_))
        &&& int_in(field(v, "created"@), i64::MIN as int, i64::MAX as int)
        &&& opt_str_ok(field(v, "customer"@))
        &&& field(v, "livemode"@) matches Some(JsonV::Bool(_))
        &&& field(v, "type"@) matches Some(JsonV::Str(_))
    }

    open spec fn decoded_from(&self, v: JsonV) -> bool {
        &&& field(v, "id"@) == Some(JsonV::Str(self.id@))
        &&& field(v, "created"@) == Some(JsonV::Int(self.created as int))
        &&& present(field(v, "customer"@)) == opt_str_json(opt_str_view(self.customer))
        &&& field(v, "livemode"@) == Some(JsonV::Bool(self.livemode))
        &&& field(v, "type"@) == Some(JsonV::Str(self.payment_method_type@))
    }

    fn from_json(v: &Json) -> (r: Result<Self, Error>) {
        if let Err(e) = check_tag(v, "payment_method") {
            return Err(e);
        }
        let id = match v.read_str("id") {
            Ok(x) => PaymentMethodId::new(x),
            Err(e) => {
                return Err(e);
            },
        };
        let created = match v.read_i64("created") {
            Ok(x) => x,
            Err(e) => {
                return Err(e);
            },
        };
        let customer = match v.read_opt_str("customer") {
            Ok(x) => x,
            Err(e) => {
                return Err(e);
            },
        };
        let livemode = match v.read_bool("livemode") {
            Ok(x) => x,
            Err(e) => {
                return Err(e);
            },
        };
        let payment_method_type = match v.read_str("type") {
            Ok(x) => x,
            Err(e) => {
                return Err(e);
            },
        };
        Ok(PaymentMethod { id, created, customer, livemode, payment_method_type })
    }
}

impl Object for PaymentMethod {
    type Id = PaymentMethodId;

    open spec fn id_view(&self) -> Seq<char> {
        self.id@
    }

    open spec fn tag() -> Seq<char> {
        "payment_method"@
    }

    fn id(&self) -> (r: PaymentMethodId) {
        self.id.duplicate()
    }

    fn object(&self) -> (r: &'static str) {
        "payment_method"
    }
}

impl Resource for PaymentMethod {
    proof fn lemma_id_from_payload(&self, v: JsonV) {
    }
}

/// A price and billing interval that subscriptions are made for.
pub struct Plan {
    pub id: PlanId,
    pub active: bool,
    /// Amount per interval, in the currency's smallest unit; unset for tiered plans.
    pub amount: Option<i64>,
    pub created: Timestamp,
    pub currency: Currency,
    /// `day`, `week`, `month` or `year`.
    pub interval: String,
    /// How many intervals make one billing period.
    pub interval_count: u64,
    pub livemode: bool,
    pub metadata: Metadata,
    pub nickname: Option<String>,
}

impl FromJson for Plan {
    open spec fn accepts(v: JsonV) -> bool {
        &&& tag_matches(v, "plan"@)
        &&& field(v, "id"@) matches Some(JsonV::Str(_))
        &&& field(v, "active"@) matches Some(JsonV::Bool(_))
        &&& opt_int_in(field(v, "amount"@), i64::MIN as int, i64::MAX as int)
        &&& int_in(field(v, "created"@), i64::MIN as int, i64::MAX as int)
        &&& req_accepts::<Currency>(field(v, "currency"@))
        &&& field(v, "interval"@) matches Some(JsonV::Str(_))
        &&& int_in(field(v, "interval_count"@), 0, u64::MAX as int)
        &&& field(v, "livemode"@) matches Some(JsonV::Bool(_))
        &&& req_accepts::<Metadata>(field(v, "metadata"@))
        &&& opt_str_ok(field(v, "nickname"@))
    }

    open spec fn decoded_from(&self, v: JsonV) -> bool {
        &&& field(v, "id"@) == Some(JsonV::Str(self.id@))
        &&& field(v, "active"@) == Some(JsonV::Bool(self.active))
        &&& present(field(v, "amount"@)) == opt_ts_json(self.amount)
        &&& field(v, "created"@) == Some(JsonV::Int(self.created as int))
        &&& req_decoded(self.currency, field(v, "currency"@))
        &&& field(v, "interval"@) == Some(JsonV::Str(self.interval@))
        &&& field(v, "interval_count"@) == Some(JsonV::Int(self.interval_count as int))
        &&& field(v, "livemode"@) == Some(JsonV::Bool(self.livemode))
        &&& req_decoded(self.metadata, field(v, "metadata"@))
        &&& present(field(v, "nickname"@)) == opt_str_json(opt_str_view(self.nickname))
    }

    fn from_json(v: &Json) -> (r: Result<Self, Error>) {
        if let Err(e) = check_tag(v, "plan") {
            return Err(e);
        }
        let id = match v.read_str("id") {
            Ok(x) => PlanId::new(x),
            Err(e) => {
                return Err(e);
            },
        };
        let active = match v.read_bool("active") {
            Ok(x) => x,
            Err(e) => {
                return Err(e);
            },
        };
        let amount = match v.read_opt_i64("amount") {
            Ok(x) => x,
            Err(e) => {
                return Err(e);
            },
        };
        let created = match v.read_i64("created") {
            Ok(x) => x,
            Err(e) => {
                return Err(e);
            },
        };
        let currency = match read_req::<Currency>(v, "currency") {
            Ok(x) => x,
            Err(e) => {
                return Err(e);
            },
        };
        let interval = match v.read_str("interval") {
            Ok(x) => x,
            Err(e) => {
                return Err(e);
            },
        };
        let interval_count = match v.read_u64("interval_count") {
            Ok(x) => x,
            Err(e) => {
                return Err(e);
            },
        };
        let livemode = match v.read_bool("livemode") {
            Ok(x) => x,
            Err(e) => {
                return Err(e);
            },
        };
        let metadata = match read_req::<Metadata>(v, "metadata") {
            Ok(x) => x,
            Err(e) => {
                return Err(e);
            },
        };
        let nickname = match v.read_opt_str("nickname") {
            Ok(x) => x,
            Err(e) => {
                return Err(e);
            },
        };
        Ok(Plan { id, active, amount, created, currency, interval, interval_count, livemode, metadata, nickname })
    }
}

impl Object for Plan {
    type Id = PlanId;

    open spec fn id_view(&self) -> Seq<char> {
        self.id@
    }

    open spec fn tag() -> Seq<char> {
        "plan"@
    }

    fn id(&self) -> (r: PlanId) {
        self.id.duplicate()
    }

    fn object(&self) -> (r: &'static str) {
        "plan"
    }
}

impl Resource for Plan {
    proof fn lemma_id_from_payload(&self, v: JsonV) {
    }
}

/// One plan of a subscription, and how many of it.
pub struct SubscriptionItem {
    pub id: SubscriptionItemId,
    pub created: Timestamp,
    pub metadata: Metadata,
    pub plan: Plan,
    pub quantity: Option<u64>,
    /// The subscription that the item belongs to.
    pub subscription: Option<String>,
}

impl FromJson for SubscriptionItem {
    open spec fn accepts(v: JsonV) -> bool {
        &&& tag_matches(v, "subscription_item"@)
        &&& field(v, "id"@) matches Some(JsonV::Str(_))
        &&& int_in(field(v, "created"@), i64::MIN as int, i64::MAX as int)
        &&& req_accepts::<Metadata>(field(v, "metadata"@))
        &&& req_accepts::<Plan>(field(v, "plan"@))
        &&& opt_int_in(field(v, "quantity"@), 0, u64::MAX as int)
        &&& opt_str_ok(field(v, "subscription"@))
    }

    open spec fn decoded_from(&self, v: JsonV) -> bool {
        &&& field(v, "id"@) == Some(JsonV::Str(self.id@))
        &&& field(v, "created"@) == Some(JsonV::Int(self.created as int))
        &&& req_decoded(self.metadata, field(v, "metadata"@))
        &&& req_decoded(self.plan, field(v, "plan"@))
        &&& present(field(v, "quantity"@)) == opt_u64_json(self.quantity)
        &&& present(field(v, "subscription"@)) == opt_str_json(opt_str_view(self.subscription))
    }

    fn from_json(v: &Json) -> (r: Result<Self, Error>) {
        if let Err(e) = check_tag(v, "subscription_item") {
            return Err(e);
        }
        let id = match v.read_str("id") {
            Ok(x) => SubscriptionItemId::new(x),
            Err(e) => {
                return Err(e);
            },
        };
        let created = match v.read_i64("created") {
            Ok(x) => x,
            Err(e) => {
                return Err(e);
            },
        };
        let metadata = match read_req::<Metadata>(v, "metadata") {
            Ok(x) => x,
            Err(e) => {
                return Err(e);
            },
        };
        let plan = match read_req::<Plan>(v, "plan") {
            Ok(x) => x,
            Err(e) => {
                return Err(e);
            },
        };
        let quantity = match v.read_opt_u64("quantity") {
            Ok(x) => x,
            Err(e) => {
                return Err(e);
            },
        };
        let subscription = match v.read_opt_str("subscription") {
            Ok(x) => x,
            Err(e) => {
                return Err(e);
            },
        };
        Ok(SubscriptionItem { id, created, metadata, plan, quantity, subscription })
    }
}

impl Object for SubscriptionItem {
    type Id = SubscriptionItemId;

    open spec fn id_view(&self) -> Seq<char> {
        self.id@
    }

    open spec fn tag() -> Seq<char> {
        "subscription_item"@
    }

    fn id(&self) -> (r: SubscriptionItemId) {
        self.id.duplicate()
    }

    fn object(&self) -> (r: &'static str) {
        "subscription_item"
    }
}

impl Resource for SubscriptionItem {
    proof fn lemma_id_from_payload(&self, v: JsonV) {
    }
}

/// A tax applied to invoices.
pub struct TaxRate {
    pub id: TaxRateId,
    pub active: bool,
    pub created: Timestamp,
    pub display_name: String,
    /// Whether the tax is already included in the amounts.
    pub inclusive: bool,
    pub jurisdiction: Option<String>,
    pub livemode: bool,
    pub percentage: Percent,
}

impl FromJson for TaxRate {
    open spec fn accepts(v: JsonV) -> bool {
        &&& tag_matches(v, "tax_rate"@)
        &&& field(v, "id"@) matches Some(JsonV::Str(_))
        &&& field(v, "active"@) matches Some(JsonV::Bool(_))
        &&& int_in(field(v, "created"@), i64::MIN as int, i64::MAX as int)
        &&& field(v, "display_name"@) matches Some(JsonV::Str(_))
        &&& field(v, "inclusive"@) matches Some(JsonV::Bool(_))
        &&& opt_str_ok(field(v, "jurisdiction"@))
        &&& field(v, "livemode"@) matches Some(JsonV::Bool(_))
        &&& req_accepts::<Percent>(field(v, "percentage"@))
    }

    open spec fn decoded_from(&self, v: JsonV) -> bool {
        &&& field(v, "id"@) == Some(JsonV::Str(self.id@))
        &&& field(v, "active"@) == Some(JsonV::Bool(self.active))
        &&& field(v, "created"@) == Some(JsonV::Int(self.created as int))
        &&& field(v, "display_name"@) == Some(JsonV::Str(self.display_name@))
        &&& field(v, "inclusive"@) == Some(JsonV::Bool(self.inclusive))
        &&& present(field(v, "jurisdiction"@)) == opt_str_json(opt_str_view(self.jurisdiction))
        &&& field(v, "livemode"@) == Some(JsonV::Bool(self.livemode))
        &&& req_decoded(self.percentage, field(v, "percentage"@))
    }

    fn from_json(v: &Json) -> (r: Result<Self, Error>) {
        if let Err(e) = check_tag(v, "tax_rate") {
            return Err(e);
        }
        let id = match v.read_str("id") {
            Ok(x) => TaxRateId::new(x),
            Err(e) => {
                return Err(e);
            },
        };
        let active = match v.read_bool("active") {
            Ok(x) => x,
            Err(e) => {
                return Err(e);
            },
        };
        let created = match v.read_i64("created") {
            Ok(x) => x,
            Err(e) => {
                return Err(e);
            },
        };
        let display_name = match v.read_str("display_name") {
            Ok(x) => x,
            Err(e) => {
                return Err(e);
            },
        };
        let inclusive = match v.read_bool("inclusive") {
            Ok(x) => x,
            Err(e) => {
                return Err(e);
            },
        };
        let jurisdiction = match v.read_opt_str("jurisdiction") {
            Ok(x) => x,
            Err(e) => {
                return Err(e);
            },
        };
        let livemode = match v.read_bool("livemode") {
            Ok(x) => x,
            Err(e) => {
                return Err(e);
            },
        };
        let percentage = match read_req::<Percent>(v, "percentage") {
            Ok(x) => x,
            Err(e) => {
                return Err(e);
            },
        };
        Ok(TaxRate { id, active, created, display_name, inclusive, jurisdiction, livemode, percentage })
    }
}

impl Object for TaxRate {
    type Id = TaxRateId;

    open spec fn id_view(&self) -> Seq<char> {
        self.id@
    }

    open spec fn tag() -> Seq<char> {
        "tax_rate"@
    }

    fn id(&self) -> (r: TaxRateId) {
        self.id.duplicate()
    }

    fn object(&self) -> (r: &'static str) {
        "tax_rate"
    }
}

impl Resource for TaxRate {
    proof fn lemma_id_from_payload(&self, v: JsonV) {
    }
}

/// A coupon's effect on a customer or subscription, for the time it applies.
pub struct Discount {
    pub customer: Option<String>,
    /// When the discount ends; unset when it does not.
    pub end: Option<Timestamp>,
    pub start: Timestamp,
    pub subscription: Option<String>,
}

impl FromJson for Discount {
    open spec fn accepts(v: JsonV) -> bool {
        &&& tag_matches(v, "discount"@)
        &&& opt_str_ok(field(v, "customer"@))
        &&& opt_int_in(field(v, "end"@), i64::MIN as int, i64::MAX as int)
        &&& int_in(field(v, "start"@), i64::MIN as int, i64::MAX as int)
        &&& opt_str_ok(field(v, "subscription"@))
    }

    open spec fn decoded_from(&self, v: JsonV) -> bool {
        &&& present(field(v, "customer"@)) == opt_str_json(opt_str_view(self.customer))
        &&& present(field(v, "end"@)) == opt_ts_json(self.end)
        &&& field(v, "start"@) == Some(JsonV::Int(self.start as int))
        &&& present(field(v, "subscription"@)) == opt_str_json(opt_str_view(self.subscription))
    }

    fn from_json(v: &Json) -> (r: Result<Self, Error>) {
        if let Err(e) = check_tag(v, "discount") {
            return Err(e);
        }
        let customer = match v.read_opt_str("customer") {
            Ok(x) => x,
            Err(e) => {
                return Err(e);
            },
        };
        let end = match v.read_opt_i64("end") {
            Ok(x) => x,
            Err(e) => {
                return Err(e);
            },
        };
        let start = match v.read_i64("start") {
            Ok(x) => x,
            Err(e) => {
                return Err(e);
            },
        };
        let subscription = match v.read_opt_str("subscription") {
            Ok(x) => x,
            Err(e) => {
                return Err(e);
            },
        };
        Ok(Discount { customer, end, start, subscription })
    }
}

/// Amounts at which a subscription is invoiced before the end of its period.
pub struct SubscriptionBillingThresholds {
    /// Invoice once the amount due reaches this many units.
    pub amount_gte: Option<i64>,
    /// Whether reaching the threshold starts a new billing period.
    pub reset_billing_cycle_anchor: Option<bool>,
}

impl FromJson for SubscriptionBillingThresholds {
    open spec fn accepts(v: JsonV) -> bool {
        &&& v is Object
        &&& opt_int_in(field(v, "amount_gte"@), i64::MIN as int, i64::MAX as int)
        &&& (present(field(v, "reset_billing_cycle_anchor"@)) is None || present(field(v, "reset_billing_cycle_anchor"@)) matches Some(JsonV::Bool(_)))
    }

    open spec fn decoded_from(&self, v: JsonV) -> bool {
        &&& present(field(v, "amount_gte"@)) == opt_ts_json(self.amount_gte)
        &&& present(field(v, "reset_billing_cycle_anchor"@)) == opt_bool_json(self.reset_billing_cycle_anchor)
    }

    fn from_json(v: &Json) -> (r: Result<Self, Error>) {
        if !v.is_object() {
            return Err(Error::Shape(ShapeError::WrongType(String::from_str("billing_thresholds"))));
        }
        let amount_gte = match v.read_opt_i64("amount_gte") {
            Ok(x) => x,
            Err(e) => {
                return Err(e);
            },
        };
        let reset_billing_cycle_anchor = match v.read_opt_bool("reset_billing_cycle_anchor") {
            Ok(x) => x,
            Err(e) => {
                return Err(e);
            },
        };
        Ok(SubscriptionBillingThresholds { amount_gte, reset_billing_cycle_anchor })
    }
}

} // verus!
