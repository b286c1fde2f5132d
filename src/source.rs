use vstd::prelude::*;

use crate::client::{Method, Request};
use crate::customer::{opt_address, opt_address_json, Address};
use crate::error::Error;
use crate::ids::{CardId, ResourceId};
use crate::json::{
    field, int_in, opt_member, opt_str_json, opt_str_ok, opt_str_view, present, push_member,
    push_opt_member, view_members, Json, JsonV,
};
use crate::params::{
    check_tag, empty_object, opt_metadata, opt_metadata_json, opt_text, opt_text_json, opt_u64,
    opt_u64_json, read_req, req_accepts, req_decoded, tag_matches, FromJson, Metadata, Object,
    Resource,
};

verus! {

/// A card's details, given in place of a token.
#[derive(Clone, Copy, Debug)]
pub struct CardParams<'a> {
    /// Always `card`.
    pub object: &'a str,
    pub exp_month: &'a str,
    pub exp_year: &'a str,
    pub number: &'a str,
    pub name: Option<&'a str>,
    pub cvc: Option<&'a str>,
}

impl<'a> CardParams<'a> {
    pub open spec fn spec_json(&self) -> JsonV {
        JsonV::Object(
            seq![
                ("object"@, JsonV::Str(self.object@)),
                ("exp_month"@, JsonV::Str(self.exp_month@)),
                ("exp_year"@, JsonV::Str(self.exp_year@)),
                ("number"@, JsonV::Str(self.number@)),
            ] + opt_member("name"@, opt_text_json(self.name)) + opt_member(
                "cvc"@,
                opt_text_json(self.cvc),
            ),
        )
    }

    pub fn to_json(&self) -> (r: Json)
        ensures
            r@ == self.spec_json(),
    {
        let mut ms: Vec<(String, Json)> = Vec::new();
        proof {
            assert(view_members(ms@) =~= Seq::empty());
        }
        push_member(&mut ms, "object", Json::Str(String::from_str(self.object)));
        push_member(&mut ms, "exp_month", Json::Str(String::from_str(self.exp_month)));
        push_member(&mut ms, "exp_year", Json::Str(String::from_str(self.exp_year)));
        push_member(&mut ms, "number", Json::Str(String::from_str(self.number)));
        push_opt_member(&mut ms, "name", opt_text(self.name));
        push_opt_member(&mut ms, "cvc", opt_text(self.cvc));
        proof {
            assert(view_members(ms@) =~= self.spec_json()->Object_0);
        }
        Json::Object(ms)
    }
}

/// A payment card attached to a customer or used as a source.
pub struct Card {
    pub id: CardId,
    pub brand: String,
    pub country: Option<String>,
    /// The customer that the card belongs to, if any.
    pub customer: Option<String>,
    pub exp_month: i64,
    pub exp_year: i64,
    /// `credit`, `debit`, `prepaid` or `unknown`.
    pub funding: String,
    pub last4: String,
    pub metadata: Metadata,
    /// Cardholder name.
    pub name: Option<String>,
}

impl Object for Card {
    type Id = CardId;

    open spec fn id_view(&self) -> Seq<char> {
        self.id@
    }

    open spec fn tag() -> Seq<char> {
        "card"@
    }

    fn id(&self) -> (r: CardId) {
        self.id.duplicate()
    }

    fn object(&self) -> (r: &'static str) {
        "card"
    }
}

impl Resource for Card {
    proof fn lemma_id_from_payload(&self, v: JsonV) {
    }
}

impl FromJson for Card {
    open spec fn accepts(v: JsonV) -> bool {
        &&& tag_matches(v, "card"@)
        &&& field(v, "id"@) matches Some(JsonV::Str(_))
        &&& field(v, "brand"@) matches Some(JsonV::Str(_))
        &&& opt_str_ok(field(v, "country"@))
        &&& opt_str_ok(field(v, "customer"@))
        &&& int_in(field(v, "exp_month"@), i64::MIN as int, i64::MAX as int)
        &&& int_in(field(v, "exp_year"@), i64::MIN as int, i64::MAX as int)
        &&& field(v, "funding"@) matches Some(JsonV::Str(_))
        &&& field(v, "last4"@) matches Some(JsonV::Str(_))
        &&& req_accepts::<Metadata>(field(v, "metadata"@))
        &&& opt_str_ok(field(v, "name"@))
    }

    open spec fn decoded_from(&self, v: JsonV) -> bool {
        &&& field(v, "id"@) == Some(JsonV::Str(self.id@))
        &&& field(v, "brand"@) == Some(JsonV::Str(self.brand@))
        &&& present(field(v, "country"@)) == opt_str_json(opt_str_view(self.country))
        &&& present(field(v, "customer"@)) == opt_str_json(opt_str_view(self.customer))
        &&& field(v, "exp_month"@) == Some(JsonV::Int(self.exp_month as int))
        &&& field(v, "exp_year"@) == Some(JsonV::Int(self.exp_year as int))
        &&& field(v, "funding"@) == Some(JsonV::Str(self.funding@))
        &&& field(v, "last4"@) == Some(JsonV::Str(self.last4@))
        &&& req_decoded(self.metadata, field(v, "metadata"@))
        &&& present(field(v, "name"@)) == opt_str_json(opt_str_view(self.name))
    }

    fn from_json(v: &Json) -> (r: Result<Self, Error>) {
        if let Err(e) = check_tag(v, "card") {
            return Err(e);
        }
        let id = match v.read_str("id") {
            Ok(x) => CardId::new(x),
            Err(e) => {
                return Err(e);
            },
        };
        let brand = match v.read_str("brand") {
            Ok(x) => x,
            Err(e) => {
                return Err(e);
            },
        };
        let country = match v.read_opt_str("country") {
            Ok(x) => x,
            Err(e) => {
                return Err(e);
            },
        };
        let customer = match v.read_opt_str("customer") {
            Ok(x) => x,
            Err(e) => {
                return Err(e);
            },
        };
        let exp_month = match v.read_i64("exp_month") {
            Ok(x) => x,
            Err(e) => {
                return Err(e);
            },
        };
        let exp_year = match v.read_i64("exp_year") {
            Ok(x) => x,
            Err(e) => {
                return Err(e);
            },
        };
        let funding = match v.read_str("funding") {
            Ok(x) => x,
            Err(e) => {
                return Err(e);
            },
        };
        let last4 = match v.read_str("last4") {
            Ok(x) => x,
            Err(e) => {
                return Err(e);
            },
        };
        let metadata = match read_req::<Metadata>(v, "metadata") {
            Ok(x) => x,
            Err(e) => {
                return Err(e);
            },
        };
        let name = match v.read_opt_str("name") {
            Ok(x) => x,
            Err(e) => {
                return Err(e);
            },
        };
        Ok(Card { id, brand, country, customer, exp_month, exp_year, funding, last4, metadata, name })
    }
}

/// A payment source, told apart by the payload's `object` tag.
pub enum Source {
    Card(Card),
}

impl FromJson for Source {
    open spec fn accepts(v: JsonV) -> bool {
        Card::accepts(v)
    }

    open spec fn decoded_from(&self, v: JsonV) -> bool {
        match self {
            Source::Card(c) => c.decoded_from(v),
        }
    }

    fn from_json(v: &Json) -> (r: Result<Self, Error>) {
        match Card::from_json(v) {
            Ok(c) => Ok(Source::Card(c)),
            Err(e) => Err(e),
        }
    }
}

/// Who owns a source.
#[derive(Clone, Debug)]
pub struct OwnerParams<'a> {
    pub address: Option<Address>,
    pub email: Option<&'a str>,
    pub name: Option<&'a str>,
    pub phone: Option<&'a str>,
}

impl<'a> OwnerParams<'a> {
    pub open spec fn spec_json(&self) -> JsonV {
        JsonV::Object(
            opt_member("address"@, opt_address_json(self.address))
            + opt_member("email"@, opt_text_json(self.email))
            + opt_member("name"@, opt_text_json(self.name))
            + opt_member("phone"@, opt_text_json(self.phone)),
        )
    }

    pub fn to_json(&self) -> (r: Json)
        ensures
            r@ == self.spec_json(),
    {
        let mut ms: Vec<(String, Json)> = Vec::new();
        proof {
            assert(view_members(ms@) =~= Seq::empty());
        }
        push_opt_member(&mut ms, "address", opt_address(&self.address));
        push_opt_member(&mut ms, "email", opt_text(self.email));
        push_opt_member(&mut ms, "name", opt_text(self.name));
        push_opt_member(&mut ms, "phone", opt_text(self.phone));
        proof {
            assert(view_members(ms@) =~= self.spec_json()->Object_0);
        }
        Json::Object(ms)
    }
}

/// Where the customer returns after authorizing a redirect-flow source.
#[derive(Clone, Copy, Debug)]
pub struct RedirectParams<'a> {
    return_url: &'a str,
}

impl<'a> RedirectParams<'a> {
    pub fn new(return_url: &'a str) -> (r: Self)
        ensures
            r.spec_return_url() == return_url@,
    {
        RedirectParams { return_url }
    }

    pub closed spec fn spec_return_url(&self) -> Seq<char> {
        self.return_url@
    }

    pub open spec fn spec_json(&self) -> JsonV {
        JsonV::Object(seq![("return_url"@, JsonV::Str(self.spec_return_url()))])
    }

    pub fn to_json(&self) -> (r: Json)
        ensures
            r@ == self.spec_json(),
    {
        let mut ms: Vec<(String, Json)> = Vec::new();
        proof {
            assert(view_members(ms@) =~= Seq::empty());
        }
        push_member(&mut ms, "return_url", Json::Str(String::from_str(self.return_url)));
        proof {
            assert(view_members(ms@) =~= self.spec_json()->Object_0);
        }
        Json::Object(ms)
    }
}

pub open spec fn opt_owner_json(o: Option<OwnerParams>) -> Option<JsonV> {
    match o {
        Some(x) => Some(x.spec_json()),
        None => None,
    }
}

pub open spec fn opt_redirect_json(o: Option<RedirectParams>) -> Option<JsonV> {
    match o {
        Some(x) => Some(x.spec_json()),
        None => None,
    }
}

/// The parameters of [`Source::create`] and [`Source::update`].
#[derive(Clone, Debug)]
pub struct SourceParams<'a> {
    /// The kind of source, sent as `type`.
    pub source_type: Option<&'static str>,
    pub amount: Option<u64>,
    /// Currency code, such as `usd`.
    pub currency: Option<&'a str>,
    /// `redirect`, `receiver`, `code_verification` or `none`.
    pub flow: Option<&'a str>,
    /// Keys to set; an empty value clears every key, while `None` leaves them as they are.
    pub metadata: Option<Metadata>,
    pub owner: Option<OwnerParams<'a>>,
    pub redirect: Option<RedirectParams<'a>>,
    pub token: Option<&'a str>,
    /// `reusable` or `single_use`.
    pub usage: Option<&'a str>,
}

impl<'a> Default for SourceParams<'a> {
    fn default() -> (r: Self)
        ensures
            r.is_unset(),
    {
        SourceParams {
            source_type: None,
            amount: None,
            currency: None,
            flow: None,
            metadata: None,
            owner: None,
            redirect: None,
            token: None,
            usage: None,
        }
    }
}

impl<'a> SourceParams<'a> {
    /// No parameter is set.
    pub open spec fn is_unset(&self) -> bool {
        &&& self.source_type is None
        &&& self.amount is None
        &&& self.currency is None
        &&& self.flow is None
        &&& self.metadata is None
        &&& self.owner is None
        &&& self.redirect is None
        &&& self.token is None
        &&& self.usage is None
    }

    /// The request body: one member for each parameter that is set, in declaration order.
    pub open spec fn spec_json(&self) -> JsonV {
        JsonV::Object(
            opt_member("type"@, opt_text_json(self.source_type))
            + opt_member("amount"@, opt_u64_json(self.amount))
            + opt_member("currency"@, opt_text_json(self.currency))
            + opt_member("flow"@, opt_text_json(self.flow))
            + opt_member("metadata"@, opt_metadata_json(self.metadata))
            + opt_member("owner"@, opt_owner_json(self.owner))
            + opt_member("redirect"@, opt_redirect_json(self.redirect))
            + opt_member("token"@, opt_text_json(self.token))
            + opt_member("usage"@, opt_text_json(self.usage)),
        )
    }

    pub fn to_json(&self) -> (r: Json)
        ensures
            r@ == self.spec_json(),
    {
        let mut ms: Vec<(String, Json)> = Vec::new();
        proof {
            assert(view_members(ms@) =~= Seq::empty());
        }
        push_opt_member(&mut ms, "type", opt_text(self.source_type));
        push_opt_member(&mut ms, "amount", opt_u64(self.amount));
        push_opt_member(&mut ms, "currency", opt_text(self.currency));
        push_opt_member(&mut ms, "flow", opt_text(self.flow));
        push_opt_member(&mut ms, "metadata", opt_metadata(&self.metadata));
        let owner = match &self.owner {
            Some(o) => Some(o.to_json()),
            None => None,
        };
        push_opt_member(&mut ms, "owner", owner);
        let redirect = match &self.redirect {
            Some(x) => Some(x.to_json()),
            None => None,
        };
        push_opt_member(&mut ms, "redirect", redirect);
        push_opt_member(&mut ms, "token", opt_text(self.token));
        push_opt_member(&mut ms, "usage", opt_text(self.usage));
        proof {
            assert(view_members(ms@) =~= self.spec_json()->Object_0);
        }
        Json::Object(ms)
    }
}

impl Source {
    /// Creates a source.
    pub fn create(params: SourceParams<'_>) -> (r: Request)
        ensures
            r.method == Method::Post,
            r.path@ == "/sources"@,
            r.params@ == params.spec_json(),
    {
        Request { method: Method::Post, path: String::from_str("/sources"), params: params.to_json() }
    }

    /// Retrieves one source.
    pub fn get(source_id: &str) -> (r: Request)
        ensures
            r.method == Method::Get,
            r.path@ == "/sources/"@ + source_id@,
            r.params@ == JsonV::Object(Seq::empty()),
    {
        Request {
            method: Method::Get,
            path: String::from_str("/sources/").concat(source_id),
            params: empty_object(),
        }
    }

    /// Updates one source with the values that `params` sets.
    pub fn update(source_id: &str, params: SourceParams<'_>) -> (r: Request)
        ensures
            r.method == Method::Post,
            r.path@ == "/sources/"@ + source_id@,
            r.params@ == params.spec_json(),
    {
        Request {
            method: Method::Post,
            path: String::from_str("/sources/").concat(source_id),
            params: params.to_json(),
        }
    }
}

} // verus!
