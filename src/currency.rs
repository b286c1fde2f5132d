use vstd::prelude::*;

use crate::error::{Error, ShapeError};
use crate::json::{Json, JsonV};
use crate::params::FromJson;

verus! {

/// A three-letter ISO currency code, in lower case, as the service writes it.
#[derive(Clone, Debug, PartialEq, Eq, Hash)]
pub struct Currency {
    code: String,
}

impl View for Currency {
    type V = Seq<char>;

    closed spec fn view(&self) -> Seq<char> {
        self.code@
    }
}

impl Currency {
    pub fn new(code: String) -> (r: Currency)
        ensures
            r@ == code@,
    {
        Currency { code }
    }

    pub fn as_str(&self) -> (r: &str)
        ensures
            r@ == self@,
    {
        self.code.as_str()
    }

    pub fn to_json(&self) -> (r: Json)
        ensures
            r@ == JsonV::Str(self@),
    {
        Json::Str(self.code.clone())
    }
}

impl FromJson for Currency {
    open spec fn accepts(v: JsonV) -> bool {
        v is Str
    }

    open spec fn decoded_from(&self, v: JsonV) -> bool {
        v == JsonV::Str(self@)
    }

    fn from_json(v: &Json) -> (r: Result<Self, Error>) {
        match v {
            Json::Str(s) => Ok(Currency { code: s.clone() }),
            _ => Err(Error::Shape(ShapeError::WrongType(String::from_str("currency")))),
        }
    }
}

} // verus!
