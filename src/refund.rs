use vstd::prelude::*;

use crate::client::{Method, Request};
use crate::currency::Currency;
use crate::error::{Error, ShapeError};
use crate::ids::{ChargeId, RefundId, ResourceId};
use crate::json::{
    field, int_in, opt_member, opt_str_json, opt_str_ok, opt_str_view, present, push_opt_member,
    view_members, Json, JsonV,
};
use crate::params::{
    check_tag, expand_member, opt_accepts, opt_bool, opt_decoded, opt_id, opt_int, opt_metadata,
    opt_metadata_json, opt_text_json, opt_ts_json, opt_u64, opt_u64_json, push_expand, read_opt,
    read_req, req_accepts, req_decoded, tag_matches, text_is, Expandable, FromJson, Metadata,
    Object, RangeQuery, Resource, Timestamp,
};
use crate::related::{BalanceTransaction, Charge, TransferReversal};

verus! {

/// A refund of all or part of a charge.
pub struct Refund {
    pub id: RefundId,
    /// Amount, in the currency's smallest unit.
    pub amount: i64,
    /// Balance transaction that describes the impact on the account balance.
    pub balance_transaction: Option<Expandable<BalanceTransaction>>,
    /// The charge that was refunded.
    pub charge: Option<Expandable<Charge>>,
    pub created: Timestamp,
    pub currency: Currency,
    pub description: Option<String>,
    /// When the refund failed: the transaction that reverses the first one.
    pub failure_balance_transaction: Option<Expandable<BalanceTransaction>>,
    pub failure_reason: Option<String>,
    pub metadata: Metadata,
    pub reason: Option<String>,
    pub receipt_number: Option<String>,
    pub source_transfer_reversal: Option<Expandable<TransferReversal>>,
    pub status: Option<String>,
    pub transfer_reversal: Option<Expandable<TransferReversal>>,
}

impl Object for Refund {
    type Id = RefundId;

    open spec fn id_view(&self) -> Seq<char> {
        self.id@
    }

    open spec fn tag() -> Seq<char> {
        "refund"@
    }

    fn id(&self) -> (r: RefundId) {
        self.id.duplicate()
    }

    fn object(&self) -> (r: &'static str) {
        "refund"
    }
}

impl FromJson for Refund {
    open spec fn accepts(v: JsonV) -> bool {
        &&& tag_matches(v, "refund"@)
        &&& field(v, "id"@) matches Some(JsonV::Str(_))
        &&& int_in(field(v, "amount"@), i64::MIN as int, i64::MAX as int)
        &&& opt_accepts::<Expandable<BalanceTransaction>>(field(v, "balance_transaction"@))
        &&& opt_accepts::<Expandable<Charge>>(field(v, "charge"@))
        &&& int_in(field(v, "created"@), i64::MIN as int, i64::MAX as int)
        &&& req_accepts::<Currency>(field(v, "currency"@))
        &&& opt_str_ok(field(v, "description"@))
        &&& opt_accepts::<Expandable<BalanceTransaction>>(field(v, "failure_balance_transaction"@))
        &&& opt_str_ok(field(v, "failure_reason"@))
        &&& req_accepts::<Metadata>(field(v, "metadata"@))
        &&& opt_str_ok(field(v, "reason"@))
        &&& opt_str_ok(field(v, "receipt_number"@))
        &&& opt_accepts::<Expandable<TransferReversal>>(field(v, "source_transfer_reversal"@))
        &&& opt_str_ok(field(v, "status"@))
        &&& opt_accepts::<Expandable<TransferReversal>>(field(v, "transfer_reversal"@))
    }

    open spec fn decoded_from(&self, v: JsonV) -> bool {
        &&& field(v, "id"@) == Some(JsonV::Str(self.id@))
        &&& field(v, "amount"@) == Some(JsonV::Int(self.amount as int))
        &&& opt_decoded(self.balance_transaction, field(v, "balance_transaction"@))
        &&& opt_decoded(self.charge, field(v, "charge"@))
        &&& field(v, "created"@) == Some(JsonV::Int(self.created as int))
        &&& req_decoded(self.currency, field(v, "currency"@))
        &&& present(field(v, "description"@)) == opt_str_json(opt_str_view(self.description))
        &&& opt_decoded(self.failure_balance_transaction, field(v, "failure_balance_transaction"@))
        &&& present(field(v, "failure_reason"@)) == opt_str_json(opt_str_view(self.failure_reason))
        &&& req_decoded(self.metadata, field(v, "metadata"@))
        &&& present(field(v, "reason"@)) == opt_str_json(opt_str_view(self.reason))
        &&& present(field(v, "receipt_number"@)) == opt_str_json(opt_str_view(self.receipt_number))
        &&& opt_decoded(self.source_transfer_reversal, field(v, "source_transfer_reversal"@))
        &&& present(field(v, "status"@)) == opt_str_json(opt_str_view(self.status))
        &&& opt_decoded(self.transfer_reversal, field(v, "transfer_reversal"@))
    }

    fn from_json(v: &Json) -> (r: Result<Self, Error>) {
        if let Err(e) = check_tag(v, "refund") {
            return Err(e);
        }
        let id = match v.read_str("id") {
            Ok(s) => RefundId::new(s),
            Err(e) => {
                return Err(e);
            },
        };
        let amount = match v.read_i64("amount") {
            Ok(x) => x,
            Err(e) => {
                return Err(e);
            },
        };
        let balance_transaction = match read_opt(v, "balance_transaction") {
            Ok(x) => x,
            Err(e) => {
                return Err(e);
            },
        };
        let charge = match read_opt(v, "charge") {
            Ok(x) => x,
            Err(e) => {
                return Err(e);
            },
        };
        let created = match v.read_i64("created") {
            Ok(x) => x,
            Err(e) => {
                return Err(e);
            },
        };
        let currency = match read_req(v, "currency") {
            Ok(x) => x,
            Err(e) => {
                return Err(e);
            },
        };
        let description = match v.read_opt_str("description") {
            Ok(x) => x,
            Err(e) => {
                return Err(e);
            },
        };
        let failure_balance_transaction = match read_opt(v, "failure_balance_transaction") {
            Ok(x) => x,
            Err(e) => {
                return Err(e);
            },
        };
        let failure_reason = match v.read_opt_str("failure_reason") {
            Ok(x) => x,
            Err(e) => {
                return Err(e);
            },
        };
        let metadata = match read_req(v, "metadata") {
            Ok(x) => x,
            Err(e) => {
                return Err(e);
            },
        };
        let reason = match v.read_opt_str("reason") {
            Ok(x) => x,
            Err(e) => {
                return Err(e);
            },
        };
        let receipt_number = match v.read_opt_str("receipt_number") {
            Ok(x) => x,
            Err(e) => {
                return Err(e);
            },
        };
        let source_transfer_reversal = match read_opt(v, "source_transfer_reversal") {
            Ok(x) => x,
            Err(e) => {
                return Err(e);
            },
        };
        let status = match v.read_opt_str("status") {
            Ok(x) => x,
            Err(e) => {
                return Err(e);
            },
        };
        let transfer_reversal = match read_opt(v, "transfer_reversal") {
            Ok(x) => x,
            Err(e) => {
                return Err(e);
            },
        };
        Ok(
            Refund {
                id,
                amount,
                balance_transaction,
                charge,
                created,
                currency,
                description,
                failure_balance_transaction,
                failure_reason,
                metadata,
                reason,
                receipt_number,
                source_transfer_reversal,
                status,
                transfer_reversal,
            },
        )
    }
}

impl Resource for Refund {
    proof fn lemma_id_from_payload(&self, v: JsonV) {
    }
}

/// The path of one refund.
pub open spec fn refund_path(id: Seq<char>) -> Seq<char> {
    "/refunds/"@ + id
}

fn path_of(id: &RefundId) -> (r: String)
    ensures
        r@ == refund_path(id@),
{
    String::from_str("/refunds/").concat(id.as_str())
}

impl Refund {
    /// Lists the refunds, most recent first, one page at a time.
    pub fn list(params: ListRefunds<'_>) -> (r: Request)
        ensures
            r.method == Method::Get,
            r.path@ == "/refunds"@,
            r.params@ == params.spec_json(),
    {
        Request { method: Method::Get, path: String::from_str("/refunds"), params: params.to_json() }
    }

    /// Creates a refund.
    pub fn create(params: CreateRefund<'_>) -> (r: Request)
        ensures
            r.method == Method::Post,
            r.path@ == "/refunds"@,
            r.params@ == params.spec_json(),
    {
        Request { method: Method::Post, path: String::from_str("/refunds"), params: params.to_json() }
    }

    /// Retrieves one refund, expanding the fields named in `expand`.
    pub fn retrieve(id: &RefundId, expand: &[&str]) -> (r: Request)
        ensures
            r.method == Method::Get,
            r.path@ == refund_path(id@),
            r.params@ == JsonV::Object(expand_member(expand@)),
    {
        let mut ms: Vec<(String, Json)> = Vec::new();
        push_expand(&mut ms, expand);
        proof {
            assert(view_members(Seq::<(String, Json)>::empty()) =~= Seq::empty());
            assert(Seq::<(Seq<char>, JsonV)>::empty() + expand_member(expand@) =~= expand_member(
                expand@,
            ));
        }
        Request { method: Method::Get, path: path_of(id), params: Json::Object(ms) }
    }

    /// Updates one refund with the values that `params` sets; others are left unchanged.
    pub fn update(id: &RefundId, params: UpdateRefund<'_>) -> (r: Request)
        ensures
            r.method == Method::Post,
            r.path@ == refund_path(id@),
            r.params@ == params.spec_json(),
    {
        Request { method: Method::Post, path: path_of(id), params: params.to_json() }
    }
}

/// Why a refund is made.
#[derive(Clone, Copy, Debug, PartialEq, Eq, Structural)]
pub enum RefundReason {
    Duplicate,
    Fraudulent,
    RequestedByCustomer,
}

impl RefundReason {
    pub open spec fn spec_str(&self) -> Seq<char> {
        match self {
            RefundReason::Duplicate => "duplicate"@,
            RefundReason::Fraudulent => "fraudulent"@,
            RefundReason::RequestedByCustomer => "requested_by_customer"@,
        }
    }

    /// The name that the service uses for this reason.
    pub fn as_str(&self) -> (r: &'static str)
        ensures
            r@ == self.spec_str(),
    {
        match self {
            RefundReason::Duplicate => "duplicate",
            RefundReason::Fraudulent => "fraudulent",
            RefundReason::RequestedByCustomer => "requested_by_customer",
        }
    }
}

impl RefundReason {
    /// The reason that the service names `s`, if any.
    pub open spec fn spec_from_str(s: Seq<char>) -> Option<RefundReason> {
        if s == "duplicate"@ {
            Some(RefundReason::Duplicate)
        } else if s == "fraudulent"@ {
            Some(RefundReason::Fraudulent)
        } else if s == "requested_by_customer"@ {
            Some(RefundReason::RequestedByCustomer)
        } else {
            None
        }
    }
}

impl FromJson for RefundReason {
    open spec fn accepts(v: JsonV) -> bool {
        match v {
            JsonV::Str(s) => RefundReason::spec_from_str(s) is Some,
            _ => false,
        }
    }

    open spec fn decoded_from(&self, v: JsonV) -> bool {
        match v {
            JsonV::Str(s) => RefundReason::spec_from_str(s) == Some(*self),
            _ => false,
        }
    }

    fn from_json(v: &Json) -> (r: Result<Self, Error>) {
        let s = match v {
            Json::Str(s) => s,
            _ => {
                return Err(Error::Shape(ShapeError::WrongType(String::from_str("refund_reason"))));
            },
        };
        if text_is(s, "duplicate") {
            Ok(RefundReason::Duplicate)
        } else if text_is(s, "fraudulent") {
            Ok(RefundReason::Fraudulent)
        } else if text_is(s, "requested_by_customer") {
            Ok(RefundReason::RequestedByCustomer)
        } else {
            Err(Error::Shape(ShapeError::WrongType(String::from_str("refund_reason"))))
        }
    }
}

impl AsRef<str> for RefundReason {
    fn as_ref(&self) -> (r: &str)
        ensures
            r@ == self.spec_str(),
    {
        self.as_str()
    }
}

pub open spec fn opt_reason_json(o: Option<RefundReason>) -> Option<JsonV> {
    match o {
        Some(r) => Some(JsonV::Str(r.spec_str())),
        None => None,
    }
}

fn opt_reason(o: Option<RefundReason>) -> (r: Option<Json>)
    ensures
        crate::json::opt_view(r) == opt_reason_json(o),
{
    match o {
        Some(x) => Some(Json::Str(String::from_str(x.as_str()))),
        None => None,
    }
}

/// The parameters of [`Refund::create`].
pub struct CreateRefund<'a> {
    pub amount: Option<i64>,
    pub charge: Option<ChargeId>,
    /// The fields of the response to expand.
    pub expand: &'a [&'a str],
    pub metadata: Option<Metadata>,
    pub reason: Option<RefundReason>,
    pub refund_application_fee: Option<bool>,
    pub reverse_transfer: Option<bool>,
}

impl<'a> CreateRefund<'a> {
    /// Parameters with nothing set.
    pub fn new() -> (r: Self)
        ensures
            r.amount is None,
            r.charge is None,
            r.expand@.len() == 0,
            r.metadata is None,
            r.reason is None,
            r.refund_application_fee is None,
            r.reverse_transfer is None,
    {
        CreateRefund {
            amount: None,
            charge: None,
            expand: &[],
            metadata: None,
            reason: None,
            refund_application_fee: None,
            reverse_transfer: None,
        }
    }

    /// The request body: one member for each parameter that is set, in declaration order.
    pub open spec fn spec_json(&self) -> JsonV {
        JsonV::Object(
            opt_member("amount"@, opt_ts_json(self.amount)) + opt_member(
                "charge"@,
                opt_text_json(self.charge),
            ) + expand_member(self.expand@) + opt_member(
                "metadata"@,
                opt_metadata_json(self.metadata),
            ) + opt_member("reason"@, opt_reason_json(self.reason)) + opt_member(
                "refund_application_fee"@,
                crate::json::opt_bool_json(self.refund_application_fee),
            ) + opt_member("reverse_transfer"@, crate::json::opt_bool_json(self.reverse_transfer)),
        )
    }

    pub fn to_json(&self) -> (r: Json)
        ensures
            r@ == self.spec_json(),
    {
        let mut ms: Vec<(String, Json)> = Vec::new();
        proof {
            assert(view_members(ms@) =~= Seq::empty());
        }
        push_opt_member(&mut ms, "amount", opt_int(self.amount));
        push_opt_member(&mut ms, "charge", opt_id(&self.charge));
        push_expand(&mut ms, self.expand);
        push_opt_member(&mut ms, "metadata", opt_metadata(&self.metadata));
        push_opt_member(&mut ms, "reason", opt_reason(self.reason));
        push_opt_member(&mut ms, "refund_application_fee", opt_bool(self.refund_application_fee));
        push_opt_member(&mut ms, "reverse_transfer", opt_bool(self.reverse_transfer));
        proof {
            assert(view_members(ms@) =~= self.spec_json()->Object_0);
        }
        Json::Object(ms)
    }
}

/// The parameters of [`Refund::list`].
pub struct ListRefunds<'a> {
    /// Only the refunds of this charge.
    pub charge: Option<ChargeId>,
    pub created: Option<RangeQuery>,
    /// Cursor: the page that ends before this refund.
    pub ending_before: Option<&'a RefundId>,
    /// The fields of the response to expand.
    pub expand: &'a [&'a str],
    /// How many refunds a page holds, from 1 to 100; 10 when unset.
    pub limit: Option<u64>,
    /// Cursor: the page that starts after this refund.
    pub starting_after: Option<RefundId>,
}

pub open spec fn opt_range_json(o: Option<RangeQuery>) -> Option<JsonV> {
    match o {
        Some(q) => Some(q.spec_json()),
        None => None,
    }
}

pub open spec fn opt_ref_id_json(o: Option<&RefundId>) -> Option<JsonV> {
    match o {
        Some(i) => Some(JsonV::Str(i@)),
        None => None,
    }
}

impl<'a> ListRefunds<'a> {
    /// Parameters with nothing set.
    pub fn new() -> (r: Self)
        ensures
            r.charge is None,
            r.created is None,
            r.ending_before is None,
            r.expand@.len() == 0,
            r.limit is None,
            r.starting_after is None,
    {
        ListRefunds {
            charge: None,
            created: None,
            ending_before: None,
            expand: &[],
            limit: None,
            starting_after: None,
        }
    }

    /// The query: one member for each parameter that is set, in declaration order.
    pub open spec fn spec_json(&self) -> JsonV {
        JsonV::Object(
            opt_member("charge"@, opt_text_json(self.charge)) + opt_member(
                "created"@,
                opt_range_json(self.created),
            ) + opt_member("ending_before"@, opt_ref_id_json(self.ending_before)) + expand_member(
                self.expand@,
            ) + opt_member("limit"@, opt_u64_json(self.limit)) + opt_member(
                "starting_after"@,
                opt_text_json(self.starting_after),
            ),
        )
    }

    pub fn to_json(&self) -> (r: Json)
        ensures
            r@ == self.spec_json(),
    {
        let mut ms: Vec<(String, Json)> = Vec::new();
        proof {
            assert(view_members(ms@) =~= Seq::empty());
        }
        push_opt_member(&mut ms, "charge", opt_id(&self.charge));
        let created = match &self.created {
            Some(q) => Some(q.to_json()),
            None => None,
        };
        push_opt_member(&mut ms, "created", created);
        let ending_before = match self.ending_before {
            Some(i) => Some(Json::Str(String::from_str(i.as_str()))),
            None => None,
        };
        push_opt_member(&mut ms, "ending_before", ending_before);
        push_expand(&mut ms, self.expand);
        push_opt_member(&mut ms, "limit", opt_u64(self.limit));
        push_opt_member(&mut ms, "starting_after", opt_id(&self.starting_after));
        proof {
            assert(view_members(ms@) =~= self.spec_json()->Object_0);
        }
        Json::Object(ms)
    }
}

/// The parameters of [`Refund::update`].
pub struct UpdateRefund<'a> {
    /// The fields of the response to expand.
    pub expand: &'a [&'a str],
    /// Keys to set; an empty value clears every key, while `None` leaves them as they are.
    pub metadata: Option<Metadata>,
}

impl<'a> UpdateRefund<'a> {
    /// Parameters with nothing set.
    pub fn new() -> (r: Self)
        ensures
            r.expand@.len() == 0,
            r.metadata is None,
    {
        UpdateRefund { expand: &[], metadata: None }
    }

    /// The request body: one member for each parameter that is set, in declaration order.
    pub open spec fn spec_json(&self) -> JsonV {
        JsonV::Object(
            expand_member(self.expand@) + opt_member("metadata"@, opt_metadata_json(self.metadata)),
        )
    }

    pub fn to_json(&self) -> (r: Json)
        ensures
            r@ == self.spec_json(),
    {
        let mut ms: Vec<(String, Json)> = Vec::new();
        proof {
            assert(view_members(ms@) =~= Seq::empty());
        }
        push_expand(&mut ms, self.expand);
        push_opt_member(&mut ms, "metadata", opt_metadata(&self.metadata));
        proof {
            assert(view_members(ms@) =~= self.spec_json()->Object_0);
        }
        Json::Object(ms)
    }
}

} // verus!
