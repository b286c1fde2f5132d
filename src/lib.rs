//! Typed values of a payment service's API: the resources it returns, the
//! parameters of each call, and the wire payloads between them.
//!
//! Parameters are encoded into a [`Json`] payload in which every unset field is
//! left out; responses are read from a [`Json`] payload, checking each
//! resource's `object` tag. Each operation is described as a [`Request`] for a
//! transport to send, and [`parse_response`] turns what came back into a value.
use vstd::prelude::*;

mod client;
mod currency;
mod customer;
mod error;
mod ids;
mod issuing_merchant_data;
mod json;
pub mod laws;
mod params;
mod refund;
mod related;
mod source;
mod subscription;

pub use client::{api_error_of, error_body, is_success, error_text, parse_response, Method, Request, Response};
pub use currency::Currency;
pub use customer::{Address, Customer, CustomerParams, CustomerShippingDetails, CustomerSource};
pub use error::{ApiError, Error, ShapeError};
pub use ids::{
    BalanceTransactionId, CardId, ChargeId, CustomerId, InvoiceId, PaymentMethodId, PlanId, RefundId,
    ResourceId, SubscriptionId, SubscriptionItemId, TaxRateId, TransferReversalId,
};
pub use issuing_merchant_data::{MerchantCategory, MerchantData};
pub use json::{field, member, present, Json, JsonV};
pub use params::{
    check_tag, Deleted, Expandable, FromJson, List, Metadata, Object, Percent, RangeBounds,
    RangeQuery, Resource, Timestamp,
};
pub use refund::{CreateRefund, ListRefunds, Refund, RefundReason, UpdateRefund};
pub use related::{
    BalanceTransaction, Charge, Discount, Invoice, PaymentMethod, Plan, SubscriptionBillingThresholds,
    SubscriptionItem, TaxRate, TransferReversal,
};
pub use source::{Card, CardParams, OwnerParams, RedirectParams, Source, SourceParams};
pub use subscription::{
    CancelParams, ItemParams, Subscription, SubscriptionBilling, SubscriptionListParams,
    SubscriptionParams, SubscriptionStatus, SubscriptionStatusFilter, TrialEnd,
};

verus! {

} // verus!
