use vstd::prelude::*;

use crate::client::{Method, Request};
use crate::error::{Error, ShapeError};
use crate::ids::{CustomerId, ResourceId};
use crate::json::{
    field, int_in, opt_member, opt_str_json, opt_str_ok, opt_str_view, present, push_member,
    push_opt_member, view_members, Json, JsonV,
};
use crate::params::{
    check_tag, empty_object, opt_accepts, opt_decoded, opt_int, opt_metadata, opt_metadata_json,
    opt_string, opt_text, opt_text_json, opt_ts_json, read_opt, read_req, req_accepts, req_decoded,
    tag_matches, FromJson, List, Metadata, Object, Resource,
};
use crate::related::Discount;
use crate::source::{CardParams, Source};

verus! {

/// A postal address.
#[derive(Clone, Debug)]
pub struct Address {
    pub line1: String,
    pub line2: Option<String>,
    pub city: Option<String>,
    pub state: Option<String>,
    pub postal_code: Option<String>,
    pub country: Option<String>,
}

impl Address {
    pub open spec fn spec_json(&self) -> JsonV {
        JsonV::Object(
            seq![("line1"@, JsonV::Str(self.line1@))]
            + opt_member("line2"@, opt_str_json(opt_str_view(self.line2)))
            + opt_member("city"@, opt_str_json(opt_str_view(self.city)))
            + opt_member("state"@, opt_str_json(opt_str_view(self.state)))
            + opt_member("postal_code"@, opt_str_json(opt_str_view(self.postal_code)))
            + opt_member("country"@, opt_str_json(opt_str_view(self.country))),
        )
    }

    pub fn to_json(&self) -> (r: Json)
        ensures
            r@ == self.spec_json(),
    {
        let mut ms: Vec<(String, Json)> = Vec::new();
        proof {
            assert(view_members(ms@) =~= Seq::empty());
        }
        push_member(&mut ms, "line1", Json::Str(self.line1.clone()));
        push_opt_member(&mut ms, "line2", opt_string(&self.line2));
        push_opt_member(&mut ms, "city", opt_string(&self.city));
        push_opt_member(&mut ms, "state", opt_string(&self.state));
        push_opt_member(&mut ms, "postal_code", opt_string(&self.postal_code));
        push_opt_member(&mut ms, "country", opt_string(&self.country));
        proof {
            assert(view_members(ms@) =~= self.spec_json()->Object_0);
        }
        Json::Object(ms)
    }
}

impl FromJson for Address {
    open spec fn accepts(v: JsonV) -> bool {
        &&& v is Object
        &&& field(v, "line1"@) matches Some(JsonV::Str(_))
        &&& opt_str_ok(field(v, "line2"@))
        &&& opt_str_ok(field(v, "city"@))
        &&& opt_str_ok(field(v, "state"@))
        &&& opt_str_ok(field(v, "postal_code"@))
        &&& opt_str_ok(field(v, "country"@))
    }

    open spec fn decoded_from(&self, v: JsonV) -> bool {
        &&& field(v, "line1"@) == Some(JsonV::Str(self.line1@))
        &&& present(field(v, "line2"@)) == opt_str_json(opt_str_view(self.line2))
        &&& present(field(v, "city"@)) == opt_str_json(opt_str_view(self.city))
        &&& present(field(v, "state"@)) == opt_str_json(opt_str_view(self.state))
        &&& present(field(v, "postal_code"@)) == opt_str_json(opt_str_view(self.postal_code))
        &&& present(field(v, "country"@)) == opt_str_json(opt_str_view(self.country))
    }

    fn from_json(v: &Json) -> (r: Result<Self, Error>) {
        if !v.is_object() {
            return Err(Error::Shape(ShapeError::WrongType(String::from_str("address"))));
        }
        let line1 = match v.read_str("line1") {
            Ok(x) => x,
            Err(e) => {
                return Err(e);
            },
        };
        let line2 = match v.read_opt_str("line2") {
            Ok(x) => x,
            Err(e) => {
                return Err(e);
            },
        };
        let city = match v.read_opt_str("city") {
            Ok(x) => x,
            Err(e) => {
                return Err(e);
            },
        };
        let state = match v.read_opt_str("state") {
            Ok(x) => x,
            Err(e) => {
                return Err(e);
            },
        };
        let postal_code = match v.read_opt_str("postal_code") {
            Ok(x) => x,
            Err(e) => {
                return Err(e);
            },
        };
        let country = match v.read_opt_str("country") {
            Ok(x) => x,
            Err(e) => {
                return Err(e);
            },
        };
        Ok(Address { line1, line2, city, state, postal_code, country })
    }
}

pub open spec fn opt_address_json(o: Option<Address>) -> Option<JsonV> {
    match o {
        Some(a) => Some(a.spec_json()),
        None => None,
    }
}

pub fn opt_address(o: &Option<Address>) -> (r: Option<Json>)
    ensures
        crate::json::opt_view(r) == opt_address_json(*o),
{
    match o {
        Some(a) => Some(a.to_json()),
        None => None,
    }
}

/// Where and to whom a customer's orders are shipped.
#[derive(Clone, Debug)]
pub struct CustomerShippingDetails {
    pub address: Address,
    pub name: String,
    pub phone: String,
}

impl CustomerShippingDetails {
    pub open spec fn spec_json(&self) -> JsonV {
        JsonV::Object(
            seq![
                ("address"@, self.address.spec_json()),
                ("name"@, JsonV::Str(self.name@)),
                ("phone"@, JsonV::Str(self.phone@)),
            ],
        )
    }

    pub fn to_json(&self) -> (r: Json)
        ensures
            r@ == self.spec_json(),
    {
        let mut ms: Vec<(String, Json)> = Vec::new();
        proof {
            assert(view_members(ms@) =~= Seq::empty());
        }
        push_member(&mut ms, "address", self.address.to_json());
        push_member(&mut ms, "name", Json::Str(self.name.clone()));
        push_member(&mut ms, "phone", Json::Str(self.phone.clone()));
        proof {
            assert(view_members(ms@) =~= self.spec_json()->Object_0);
        }
        Json::Object(ms)
    }
}

impl FromJson for CustomerShippingDetails {
    open spec fn accepts(v: JsonV) -> bool {
        &&& v is Object
        &&& req_accepts::<Address>(field(v, "address"@))
        &&& field(v, "name"@) matches Some(JsonV::Str(_))
        &&& field(v, "phone"@) matches Some(JsonV::Str(_))
    }

    open spec fn decoded_from(&self, v: JsonV) -> bool {
        &&& req_decoded(self.address, field(v, "address"@))
        &&& field(v, "name"@) == Some(JsonV::Str(self.name@))
        &&& field(v, "phone"@) == Some(JsonV::Str(self.phone@))
    }

    fn from_json(v: &Json) -> (r: Result<Self, Error>) {
        if !v.is_object() {
            return Err(Error::Shape(ShapeError::WrongType(String::from_str("shipping"))));
        }
        let address = match read_req(v, "address") {
            Ok(x) => x,
            Err(e) => {
                return Err(e);
            },
        };
        let name = match v.read_str("name") {
            Ok(x) => x,
            Err(e) => {
                return Err(e);
            },
        };
        let phone = match v.read_str("phone") {
            Ok(x) => x,
            Err(e) => {
                return Err(e);
            },
        };
        Ok(CustomerShippingDetails { address, name, phone })
    }
}

/// The payment source given to a customer: a token, or a card's details.
pub enum CustomerSource<'a> {
    Token(&'a str),
    Card(CardParams<'a>),
}

impl<'a> CustomerSource<'a> {
    /// A token is sent as a bare string, a card as an object.
    pub open spec fn spec_json(&self) -> JsonV {
        match self {
            CustomerSource::Token(t) => JsonV::Str(t@),
            CustomerSource::Card(c) => c.spec_json(),
        }
    }

    pub fn to_json(&self) -> (r: Json)
        ensures
            r@ == self.spec_json(),
    {
        match self {
            CustomerSource::Token(t) => Json::Str(String::from_str(t)),
            CustomerSource::Card(c) => c.to_json(),
        }
    }
}

pub open spec fn opt_shipping_json(o: Option<CustomerShippingDetails>) -> Option<JsonV> {
    match o {
        Some(s) => Some(s.spec_json()),
        None => None,
    }
}

pub open spec fn opt_source_json(o: Option<CustomerSource>) -> Option<JsonV> {
    match o {
        Some(s) => Some(s.spec_json()),
        None => None,
    }
}

/// The parameters of [`Customer::create`] and [`Customer::update`].
pub struct CustomerParams<'a> {
    pub account_balance: Option<i64>,
    pub business_vat_id: Option<&'a str>,
    pub coupon: Option<&'a str>,
    pub description: Option<&'a str>,
    pub email: Option<&'a str>,
    /// Keys to set; an empty value clears every key, while `None` leaves them as they are.
    pub metadata: Option<Metadata>,
    pub shipping: Option<CustomerShippingDetails>,
    pub source: Option<CustomerSource<'a>>,
}

impl<'a> Default for CustomerParams<'a> {
    fn default() -> (r: Self)
        ensures
            r.is_unset(),
    {
        CustomerParams {
            account_balance: None,
            business_vat_id: None,
            coupon: None,
            description: None,
            email: None,
            metadata: None,
            shipping: None,
            source: None,
        }
    }
}

impl<'a> CustomerParams<'a> {
    /// No parameter is set.
    pub open spec fn is_unset(&self) -> bool {
        &&& self.account_balance is None
        &&& self.business_vat_id is None
        &&& self.coupon is None
        &&& self.description is None
        &&& self.email is None
        &&& self.metadata is None
        &&& self.shipping is None
        &&& self.source is None
    }

    /// The request body: one member for each parameter that is set, in declaration order.
    pub open spec fn spec_json(&self) -> JsonV {
        JsonV::Object(
            opt_member("account_balance"@, opt_ts_json(self.account_balance))
            + opt_member("business_vat_id"@, opt_text_json(self.business_vat_id))
            + opt_member("coupon"@, opt_text_json(self.coupon))
            + opt_member("description"@, opt_text_json(self.description))
            + opt_member("email"@, opt_text_json(self.email))
            + opt_member("metadata"@, opt_metadata_json(self.metadata))
            + opt_member("shipping"@, opt_shipping_json(self.shipping))
            + opt_member("source"@, opt_source_json(self.source)),
        )
    }

    pub fn to_json(&self) -> (r: Json)
        ensures
            r@ == self.spec_json(),
    {
        let mut ms: Vec<(String, Json)> = Vec::new();
        proof {
            assert(view_members(ms@) =~= Seq::empty());
        }
        push_opt_member(&mut ms, "account_balance", opt_int(self.account_balance));
        push_opt_member(&mut ms, "business_vat_id", opt_text(self.business_vat_id));
        push_opt_member(&mut ms, "coupon", opt_text(self.coupon));
        push_opt_member(&mut ms, "description", opt_text(self.description));
        push_opt_member(&mut ms, "email", opt_text(self.email));
        push_opt_member(&mut ms, "metadata", opt_metadata(&self.metadata));
        let shipping = match &self.shipping {
            Some(s) => Some(s.to_json()),
            None => None,
        };
        push_opt_member(&mut ms, "shipping", shipping);
        let source = match &self.source {
            Some(s) => Some(s.to_json()),
            None => None,
        };
        push_opt_member(&mut ms, "source", source);
        proof {
            assert(view_members(ms@) =~= self.spec_json()->Object_0);
        }
        Json::Object(ms)
    }
}

/// A customer of the account: contact details and payment sources.
pub struct Customer {
    pub id: CustomerId,
    /// Balance, in the currency's smallest unit; negative when it is a credit.
    pub account_balance: i64,
    pub business_vat_id: Option<String>,
    pub created: u64,
    pub currency: String,
    pub default_source: String,
    pub delinquent: bool,
    pub desc: Option<String>,
    pub discount: Option<Discount>,
    pub email: String,
    pub livemode: bool,
    pub metadata: Metadata,
    pub shipping: Option<CustomerShippingDetails>,
    pub sources: List<Source>,
}

impl FromJson for Customer {
    open spec fn accepts(v: JsonV) -> bool {
        &&& tag_matches(v, "customer"@)
        &&& field(v, "id"@) matches Some(JsonV::Str(_))
        &&& int_in(field(v, "account_balance"@), i64::MIN as int, i64::MAX as int)
        &&& opt_str_ok(field(v, "business_vat_id"@))
        &&& int_in(field(v, "created"@), 0, u64::MAX as int)
        &&& field(v, "currency"@) matches Some(JsonV::Str(_))
        &&& field(v, "default_source"@) matches Some(JsonV::Str(_))
        &&& field(v, "delinquent"@) matches Some(JsonV::Bool(_))
        &&& opt_str_ok(field(v, "desc"@))
        &&& field(v, "email"@) matches Some(JsonV::Str(_))
        &&& field(v, "livemode"@) matches Some(JsonV::Bool(_))
        &&& req_accepts::<Metadata>(field(v, "metadata"@))
        &&& opt_accepts::<Discount>(field(v, "discount"@))
        &&& opt_accepts::<CustomerShippingDetails>(field(v, "shipping"@))
        &&& req_accepts::<List<Source>>(field(v, "sources"@))
    }

    open spec fn decoded_from(&self, v: JsonV) -> bool {
        &&& field(v, "id"@) == Some(JsonV::Str(self.id@))
        &&& field(v, "account_balance"@) == Some(JsonV::Int(self.account_balance as int))
        &&& present(field(v, "business_vat_id"@)) == opt_str_json(opt_str_view(self.business_vat_id))
        &&& field(v, "created"@) == Some(JsonV::Int(self.created as int))
        &&& field(v, "currency"@) == Some(JsonV::Str(self.currency@))
        &&& field(v, "default_source"@) == Some(JsonV::Str(self.default_source@))
        &&& field(v, "delinquent"@) == Some(JsonV::Bool(self.delinquent))
        &&& present(field(v, "desc"@)) == opt_str_json(opt_str_view(self.desc))
        &&& field(v, "email"@) == Some(JsonV::Str(self.email@))
        &&& field(v, "livemode"@) == Some(JsonV::Bool(self.livemode))
        &&& req_decoded(self.metadata, field(v, "metadata"@))
        &&& opt_decoded(self.discount, field(v, "discount"@))
        &&& opt_decoded(self.shipping, field(v, "shipping"@))
        &&& req_decoded(self.sources, field(v, "sources"@))
    }

    fn from_json(v: &Json) -> (r: Result<Self, Error>) {
        if let Err(e) = check_tag(v, "customer") {
            return Err(e);
        }
        let id = match v.read_str("id") {
            Ok(x) => CustomerId::new(x),
            Err(e) => {
                return Err(e);
            },
        };
        let account_balance = match v.read_i64("account_balance") {
            Ok(x) => x,
            Err(e) => {
                return Err(e);
            },
        };
        let business_vat_id = match v.read_opt_str("business_vat_id") {
            Ok(x) => x,
            Err(e) => {
                return Err(e);
            },
        };
        let created = match v.read_u64("created") {
            Ok(x) => x,
            Err(e) => {
                return Err(e);
            },
        };
        let currency = match v.read_str("currency") {
            Ok(x) => x,
            Err(e) => {
                return Err(e);
            },
        };
        let default_source = match v.read_str("default_source") {
            Ok(x) => x,
            Err(e) => {
                return Err(e);
            },
        };
        let delinquent = match v.read_bool("delinquent") {
            Ok(x) => x,
            Err(e) => {
                return Err(e);
            },
        };
        let desc = match v.read_opt_str("desc") {
            Ok(x) => x,
            Err(e) => {
                return Err(e);
            },
        };
        let email = match v.read_str("email") {
            Ok(x) => x,
            Err(e) => {
                return Err(e);
            },
        };
        let livemode = match v.read_bool("livemode") {
            Ok(x) => x,
            Err(e) => {
                return Err(e);
            },
        };
        let metadata = match read_req::<Metadata>(v, "metadata") {
            Ok(x) => x,
            Err(e) => {
                return Err(e);
            },
        };
        let discount = match read_opt::<Discount>(v, "discount") {
            Ok(x) => x,
            Err(e) => {
                return Err(e);
            },
        };
        let shipping = match read_opt::<CustomerShippingDetails>(v, "shipping") {
            Ok(x) => x,
            Err(e) => {
                return Err(e);
            },
        };
        let sources = match read_req::<List<Source>>(v, "sources") {
            Ok(x) => x,
            Err(e) => {
                return Err(e);
            },
        };
        Ok(Customer {
            id,
            account_balance,
            business_vat_id,
            created,
            currency,
            default_source,
            delinquent,
            desc,
            discount,
            email,
            livemode,
            metadata,
            shipping,
            sources,
        })
    }
}

impl Object for Customer {
    type Id = CustomerId;

    open spec fn id_view(&self) -> Seq<char> {
        self.id@
    }

    open spec fn tag() -> Seq<char> {
        "customer"@
    }

    fn id(&self) -> (r: CustomerId) {
        self.id.duplicate()
    }

    fn object(&self) -> (r: &'static str) {
        "customer"
    }
}

impl Resource for Customer {
    proof fn lemma_id_from_payload(&self, v: JsonV) {
    }
}

/// The path of one customer.
pub open spec fn customer_path(id: Seq<char>) -> Seq<char> {
    "/customers/"@ + id
}

fn path_of(id: &str) -> (r: String)
    ensures
        r@ == customer_path(id@),
{
    String::from_str("/customers/").concat(id)
}

impl Customer {
    /// Creates a customer.
    pub fn create(params: CustomerParams<'_>) -> (r: Request)
        ensures
            r.method == Method::Post,
            r.path@ == "/customers"@,
            r.params@ == params.spec_json(),
    {
        Request { method: Method::Post, path: String::from_str("/customers"), params: params.to_json() }
    }

    /// Retrieves one customer.
    pub fn get(customer_id: &str) -> (r: Request)
        ensures
            r.method == Method::Get,
            r.path@ == customer_path(customer_id@),
            r.params@ == JsonV::Object(Seq::empty()),
    {
        Request { method: Method::Get, path: path_of(customer_id), params: empty_object() }
    }

    /// Updates one customer with the values that `params` sets.
    pub fn update(customer_id: &str, params: CustomerParams<'_>) -> (r: Request)
        ensures
            r.method == Method::Post,
            r.path@ == customer_path(customer_id@),
            r.params@ == params.spec_json(),
    {
        Request { method: Method::Post, path: path_of(customer_id), params: params.to_json() }
    }

    /// Deletes one customer; the answer reads as [`crate::Deleted`].
    pub fn delete(customer_id: &str) -> (r: Request)
        ensures
            r.method == Method::Delete,
            r.path@ == customer_path(customer_id@),
            r.params@ == JsonV::Object(Seq::empty()),
    {
        Request { method: Method::Delete, path: path_of(customer_id), params: empty_object() }
    }
}

} // verus!
