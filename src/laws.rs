use vstd::prelude::*;

use crate::customer::{Customer, CustomerParams};
use crate::json::{field, JsonV};
use crate::params::{
    array_items, entries_json, Expandable, FromJson, List, Metadata, Object, Resource,
};
use crate::refund::{CreateRefund, ListRefunds, Refund, UpdateRefund};
use crate::related::{
    BalanceTransaction, Charge, Invoice, PaymentMethod, Plan, SubscriptionItem, TaxRate,
    TransferReversal,
};
use crate::source::{Card, OwnerParams, SourceParams};
use crate::subscription::{
    CancelParams, ItemParams, Subscription, SubscriptionListParams, SubscriptionParams,
};

verus! {

/// Each resource type has its own object tag: no two of them share one.
pub proof fn lemma_tags_distinct()
    ensures
        Refund::tag() != Charge::tag(),
        Refund::tag() != BalanceTransaction::tag(),
        Refund::tag() != TransferReversal::tag(),
        Refund::tag() != Customer::tag(),
        Refund::tag() != Subscription::tag(),
        Refund::tag() != Card::tag(),
        Refund::tag() != Invoice::tag(),
        Refund::tag() != PaymentMethod::tag(),
        Refund::tag() != Plan::tag(),
        Refund::tag() != SubscriptionItem::tag(),
        Refund::tag() != TaxRate::tag(),
        Charge::tag() != BalanceTransaction::tag(),
        Charge::tag() != TransferReversal::tag(),
        Charge::tag() != Customer::tag(),
        Charge::tag() != Subscription::tag(),
        Charge::tag() != Card::tag(),
        Charge::tag() != Invoice::tag(),
        Charge::tag() != PaymentMethod::tag(),
        Charge::tag() != Plan::tag(),
        Charge::tag() != SubscriptionItem::tag(),
        Charge::tag() != TaxRate::tag(),
        BalanceTransaction::tag() != TransferReversal::tag(),
        BalanceTransaction::tag() != Customer::tag(),
        BalanceTransaction::tag() != Subscription::tag(),
        BalanceTransaction::tag() != Card::tag(),
        BalanceTransaction::tag() != Invoice::tag(),
        BalanceTransaction::tag() != PaymentMethod::tag(),
        BalanceTransaction::tag() != Plan::tag(),
        BalanceTransaction::tag() != SubscriptionItem::tag(),
        BalanceTransaction::tag() != TaxRate::tag(),
        TransferReversal::tag() != Customer::tag(),
        TransferReversal::tag() != Subscription::tag(),
        TransferReversal::tag() != Card::tag(),
        TransferReversal::tag() != Invoice::tag(),
        TransferReversal::tag() != PaymentMethod::tag(),
        TransferReversal::tag() != Plan::tag(),
        TransferReversal::tag() != SubscriptionItem::tag(),
        TransferReversal::tag() != TaxRate::tag(),
        Customer::tag() != Subscription::tag(),
        Customer::tag() != Card::tag(),
        Customer::tag() != Invoice::tag(),
        Customer::tag() != PaymentMethod::tag(),
        Customer::tag() != Plan::tag(),
        Customer::tag() != SubscriptionItem::tag(),
        Customer::tag() != TaxRate::tag(),
        Subscription::tag() != Card::tag(),
        Subscription::tag() != Invoice::tag(),
        Subscription::tag() != PaymentMethod::tag(),
        Subscription::tag() != Plan::tag(),
        Subscription::tag() != SubscriptionItem::tag(),
        Subscription::tag() != TaxRate::tag(),
        Card::tag() != Invoice::tag(),
        Card::tag() != PaymentMethod::tag(),
        Card::tag() != Plan::tag(),
        Card::tag() != SubscriptionItem::tag(),
        Card::tag() != TaxRate::tag(),
        Invoice::tag() != PaymentMethod::tag(),
        Invoice::tag() != Plan::tag(),
        Invoice::tag() != SubscriptionItem::tag(),
        Invoice::tag() != TaxRate::tag(),
        PaymentMethod::tag() != Plan::tag(),
        PaymentMethod::tag() != SubscriptionItem::tag(),
        PaymentMethod::tag() != TaxRate::tag(),
        Plan::tag() != SubscriptionItem::tag(),
        Plan::tag() != TaxRate::tag(),
        SubscriptionItem::tag() != TaxRate::tag(),
{
    reveal_strlit("refund");
    reveal_strlit("charge");
    reveal_strlit("balance_transaction");
    reveal_strlit("transfer_reversal");
    reveal_strlit("customer");
    reveal_strlit("subscription");
    reveal_strlit("card");
    reveal_strlit("invoice");
    reveal_strlit("payment_method");
    reveal_strlit("plan");
    reveal_strlit("subscription_item");
    reveal_strlit("tax_rate");
    assert("refund"@[0] != "charge"@[0]);
    assert("refund"@[0] != "balance_transaction"@[0]);
    assert("refund"@[0] != "transfer_reversal"@[0]);
    assert("refund"@[0] != "customer"@[0]);
    assert("refund"@[0] != "subscription"@[0]);
    assert("refund"@[0] != "card"@[0]);
    assert("refund"@[0] != "invoice"@[0]);
    assert("refund"@[0] != "payment_method"@[0]);
    assert("refund"@[0] != "plan"@[0]);
    assert("refund"@[0] != "subscription_item"@[0]);
    assert("refund"@[0] != "tax_rate"@[0]);
    assert("charge"@[0] != "balance_transaction"@[0]);
    assert("charge"@[0] != "transfer_reversal"@[0]);
    assert("charge"@[1] != "customer"@[1]);
    assert("charge"@[0] != "subscription"@[0]);
    assert("charge"@[1] != "card"@[1]);
    assert("charge"@[0] != "invoice"@[0]);
    assert("charge"@[0] != "payment_method"@[0]);
    assert("charge"@[0] != "plan"@[0]);
    assert("charge"@[0] != "subscription_item"@[0]);
    assert("charge"@[0] != "tax_rate"@[0]);
    assert("balance_transaction"@[0] != "transfer_reversal"@[0]);
    assert("balance_transaction"@[0] != "customer"@[0]);
    assert("balance_transaction"@[0] != "subscription"@[0]);
    assert("balance_transaction"@[0] != "card"@[0]);
    assert("balance_transaction"@[0] != "invoice"@[0]);
    assert("balance_transaction"@[0] != "payment_method"@[0]);
    assert("balance_transaction"@[0] != "plan"@[0]);
    assert("balance_transaction"@[0] != "subscription_item"@[0]);
    assert("balance_transaction"@[0] != "tax_rate"@[0]);
    assert("transfer_reversal"@[0] != "customer"@[0]);
    assert("transfer_reversal"@[0] != "subscription"@[0]);
    assert("transfer_reversal"@[0] != "card"@[0]);
    assert("transfer_reversal"@[0] != "invoice"@[0]);
    assert("transfer_reversal"@[0] != "payment_method"@[0]);
    assert("transfer_reversal"@[0] != "plan"@[0]);
    assert("transfer_reversal"@[0] != "subscription_item"@[0]);
    assert("transfer_reversal"@[1] != "tax_rate"@[1]);
    assert("customer"@[0] != "subscription"@[0]);
    assert("customer"@[1] != "card"@[1]);
    assert("customer"@[0] != "invoice"@[0]);
    assert("customer"@[0] != "payment_method"@[0]);
    assert("customer"@[0] != "plan"@[0]);
    assert("customer"@[0] != "subscription_item"@[0]);
    assert("customer"@[0] != "tax_rate"@[0]);
    assert("subscription"@[0] != "card"@[0]);
    assert("subscription"@[0] != "invoice"@[0]);
    assert("subscription"@[0] != "payment_method"@[0]);
    assert("subscription"@[0] != "plan"@[0]);
    assert("subscription"@.len() != "subscription_item"@.len());
    assert("subscription"@[0] != "tax_rate"@[0]);
    assert("card"@[0] != "invoice"@[0]);
    assert("card"@[0] != "payment_method"@[0]);
    assert("card"@[0] != "plan"@[0]);
    assert("card"@[0] != "subscription_item"@[0]);
    assert("card"@[0] != "tax_rate"@[0]);
    assert("invoice"@[0] != "payment_method"@[0]);
    assert("invoice"@[0] != "plan"@[0]);
    assert("invoice"@[0] != "subscription_item"@[0]);
    assert("invoice"@[0] != "tax_rate"@[0]);
    assert("payment_method"@[1] != "plan"@[1]);
    assert("payment_method"@[0] != "subscription_item"@[0]);
    assert("payment_method"@[0] != "tax_rate"@[0]);
    assert("plan"@[0] != "subscription_item"@[0]);
    assert("plan"@[0] != "tax_rate"@[0]);
    assert("subscription_item"@[0] != "tax_rate"@[0]);
}

/// A reference sent as a bare string reads as that identifier.
pub proof fn lemma_expandable_from_string<T: Resource>(s: Seq<char>, e: Expandable<T>)
    requires
        e.decoded_from(JsonV::Str(s)),
    ensures
        Expandable::<T>::accepts(JsonV::Str(s)),
        e is Id,
        e.id_view() == s,
{
}

/// A reference sent as a whole object reads as that object, and its
/// identifier is the object's own `id`.
pub proof fn lemma_expandable_from_object<T: Resource>(v: JsonV, e: Expandable<T>)
    requires
        v is Object,
        e.decoded_from(v),
    ensures
        Expandable::<T>::accepts(v) == T::accepts(v),
        e is Object,
        field(v, "id"@) == Some(JsonV::Str(e.id_view())),
{
    match e {
        Expandable::Object(o) => {
            o.lemma_id_from_payload(v);
        },
        Expandable::Id(_) => {},
    }
}

/// A reference is sent as its identifier, and what is sent reads back as a
/// bare reference to the same resource.
pub proof fn lemma_expandable_round_trip<T: Resource>(e: Expandable<T>, back: Expandable<T>)
    requires
        back.decoded_from(JsonV::Str(e.id_view())),
    ensures
        back is Id,
        back.id_view() == e.id_view(),
{
}

/// A list page reads as its items, in the order of the payload, with the
/// payload's `has_more`.
pub proof fn lemma_list_page<T: FromJson>(v: JsonV, l: List<T>)
    requires
        l.decoded_from(v),
    ensures
        field(v, "has_more"@) == Some(JsonV::Bool(l.has_more)),
        l.data@.len() == array_items(field(v, "data"@)).len(),
        forall|i: int|
            0 <= i < l.data@.len() ==> (#[trigger] l.data@[i]).decoded_from(
                array_items(field(v, "data"@))[i],
            ),
{
}

/// A payload whose `object` tag is a string other than `refund` never reads as a refund.
pub proof fn lemma_refund_rejects_other_tags(v: JsonV, t: Seq<char>)
    requires
        field(v, "object"@) == Some(JsonV::Str(t)),
        t != Refund::tag(),
    ensures
        !Refund::accepts(v),
{
}

/// Creating a refund with no parameter set sends an empty body.
pub proof fn lemma_create_refund_unset(p: CreateRefund)
    requires
        p.amount is None,
        p.charge is None,
        p.expand@.len() == 0,
        p.metadata is None,
        p.reason is None,
        p.refund_application_fee is None,
        p.reverse_transfer is None,
    ensures
        p.spec_json() == JsonV::Object(Seq::empty()),
{
    assert(p.spec_json()->Object_0 =~= Seq::empty());
}

/// Listing refunds with no parameter set sends an empty query.
pub proof fn lemma_list_refunds_unset(p: ListRefunds)
    requires
        p.charge is None,
        p.created is None,
        p.ending_before is None,
        p.expand@.len() == 0,
        p.limit is None,
        p.starting_after is None,
    ensures
        p.spec_json() == JsonV::Object(Seq::empty()),
{
    assert(p.spec_json()->Object_0 =~= Seq::empty());
}

/// Updating a refund with no parameter set sends an empty body.
pub proof fn lemma_update_refund_unset(p: UpdateRefund)
    requires
        p.expand@.len() == 0,
        p.metadata is None,
    ensures
        p.spec_json() == JsonV::Object(Seq::empty()),
{
    assert(p.spec_json()->Object_0 =~= Seq::empty());
}

/// Creating or updating a subscription with no parameter set sends an empty body.
pub proof fn lemma_subscription_params_unset(p: SubscriptionParams)
    requires
        p.is_unset(),
    ensures
        p.spec_json() == JsonV::Object(Seq::empty()),
{
    assert(p.spec_json()->Object_0 =~= Seq::empty());
}

/// Listing subscriptions with no parameter set sends an empty query.
pub proof fn lemma_subscription_list_params_unset(p: SubscriptionListParams)
    requires
        p.is_unset(),
    ensures
        p.spec_json() == JsonV::Object(Seq::empty()),
{
    p.lemma_unset_is_empty();
}

/// Cancelling a subscription with no parameter set sends an empty query.
pub proof fn lemma_cancel_params_unset(p: CancelParams)
    requires
        p.at_period_end is None,
    ensures
        p.spec_json() == JsonV::Object(Seq::empty()),
{
    assert(p.spec_json()->Object_0 =~= Seq::empty());
}

/// Creating or updating a customer with no parameter set sends an empty body.
pub proof fn lemma_customer_params_unset(p: CustomerParams)
    requires
        p.is_unset(),
    ensures
        p.spec_json() == JsonV::Object(Seq::empty()),
{
    assert(p.spec_json()->Object_0 =~= Seq::empty());
}

/// Creating or updating a source with no parameter set sends an empty body.
pub proof fn lemma_source_params_unset(p: SourceParams)
    requires
        p.is_unset(),
    ensures
        p.spec_json() == JsonV::Object(Seq::empty()),
{
    assert(p.spec_json()->Object_0 =~= Seq::empty());
}

/// An owner with no detail set is sent as an empty object.
pub proof fn lemma_owner_params_unset(p: OwnerParams)
    requires
        p.address is None,
        p.email is None,
        p.name is None,
        p.phone is None,
    ensures
        p.spec_json() == JsonV::Object(Seq::empty()),
{
    assert(p.spec_json()->Object_0 =~= Seq::empty());
}

/// An item with no quantity is sent with its plan alone.
pub proof fn lemma_item_params_unset(p: ItemParams)
    requires
        p.quantity is None,
    ensures
        p.spec_json() == JsonV::Object(seq![("plan"@, JsonV::Str(p.plan@))]),
{
    assert(p.spec_json()->Object_0 =~= seq![("plan"@, JsonV::Str(p.plan@))]);
}

/// Metadata set to an empty value is sent as an empty object under `metadata`,
/// which clears every key; metadata left unset is not sent at all, which keeps them.
pub proof fn lemma_metadata_clear_or_keep(p: SubscriptionParams, m: Metadata)
    requires
        p.customer is None,
        p.application_fee_percent is None,
        p.coupon is None,
        p.items is None,
        p.plan is None,
        p.prorate is None,
        p.proration_date is None,
        p.quantity is None,
        p.source is None,
        p.tax_percent is None,
        p.trial_end is None,
        p.trial_period_days is None,
        m@.len() == 0,
    ensures
        p.metadata == Some(m) ==> p.spec_json() == JsonV::Object(
            seq![("metadata"@, JsonV::Object(Seq::empty()))],
        ),
        p.metadata is None ==> p.spec_json() == JsonV::Object(Seq::empty()),
{
    if p.metadata == Some(m) {
        assert(entries_json(m@)->Object_0 =~= Seq::empty());
        assert(p.spec_json()->Object_0 =~= seq![("metadata"@, JsonV::Object(Seq::empty()))]);
    } else if p.metadata is None {
        assert(p.spec_json()->Object_0 =~= Seq::empty());
    }
}

} // verus!
