use stripe::{
    Address, CardParams, Customer, CustomerParams, CustomerShippingDetails, CustomerSource,
    Deleted, Error, FromJson, Json, Method, Object, OwnerParams, RedirectParams, ShapeError, Source,
    SourceParams,
};

fn s(x: &str) -> String {
    String::from(x)
}

fn st(x: &str) -> Json {
    Json::Str(s(x))
}

fn obj(ms: Vec<(&str, Json)>) -> Json {
    Json::Object(ms.into_iter().map(|(k, v)| (s(k), v)).collect())
}

fn card_json(id: &str) -> Json {
    obj(vec![
        ("id", st(id)),
        ("object", st("card")),
        ("brand", st("Visa")),
        ("customer", st("cus_1")),
        ("exp_month", Json::Int(8)),
        ("exp_year", Json::Int(2030)),
        ("funding", st("credit")),
        ("last4", st("4242")),
        ("metadata", obj(vec![])),
    ])
}

fn address() -> Address {
    Address {
        line1: s("1 Main St"),
        line2: None,
        city: Some(s("Springfield")),
        state: None,
        postal_code: Some(s("12345")),
        country: Some(s("US")),
    }
}

#[test]
fn customer_params_encode_shipping_and_token() {
    let mut p = CustomerParams::default();
    p.email = Some("jenny@example.com");
    p.shipping = Some(CustomerShippingDetails {
        address: address(),
        name: s("Jenny"),
        phone: s("555"),
    });
    p.source = Some(CustomerSource::Token("tok_visa"));
    let req = Customer::create(p);
    assert_eq!(req.method, Method::Post);
    assert_eq!(req.path, "/customers");
    assert_eq!(
        req.params,
        obj(vec![
            ("email", st("jenny@example.com")),
            (
                "shipping",
                obj(vec![
                    (
                        "address",
                        obj(vec![
                            ("line1", st("1 Main St")),
                            ("city", st("Springfield")),
                            ("postal_code", st("12345")),
                            ("country", st("US")),
                        ]),
                    ),
                    ("name", st("Jenny")),
                    ("phone", st("555")),
                ]),
            ),
            ("source", st("tok_visa")),
        ])
    );
}

#[test]
fn customer_params_encode_card_source() {
    let mut p = CustomerParams::default();
    p.source = Some(CustomerSource::Card(CardParams {
        object: "card",
        exp_month: "8",
        exp_year: "2030",
        number: "4242424242424242",
        name: None,
        cvc: Some("123"),
    }));
    assert_eq!(
        p.to_json(),
        obj(vec![(
            "source",
            obj(vec![
                ("object", st("card")),
                ("exp_month", st("8")),
                ("exp_year", st("2030")),
                ("number", st("4242424242424242")),
                ("cvc", st("123")),
            ]),
        )])
    );
    assert_eq!(CustomerParams::default().to_json(), obj(vec![]));
}

#[test]
fn customer_requests() {
    let g = Customer::get("cus_1");
    assert_eq!(g.method, Method::Get);
    assert_eq!(g.path, "/customers/cus_1");
    assert_eq!(g.params, obj(vec![]));
    let mut p = CustomerParams::default();
    p.account_balance = Some(-100);
    let u = Customer::update("cus_1", p);
    assert_eq!(u.method, Method::Post);
    assert_eq!(u.path, "/customers/cus_1");
    assert_eq!(u.params, obj(vec![("account_balance", Json::Int(-100))]));
    let d = Customer::delete("cus_1");
    assert_eq!(d.method, Method::Delete);
    assert_eq!(d.path, "/customers/cus_1");
}

#[test]
fn customer_reads_sources_and_shipping() {
    let v = obj(vec![
        ("id", st("cus_1")),
        ("object", st("customer")),
        ("account_balance", Json::Int(0)),
        ("business_vat_id", Json::Null),
        ("created", Json::Int(1_500_000_000)),
        ("currency", st("usd")),
        ("default_source", st("card_1")),
        ("delinquent", Json::Bool(true)),
        ("desc", st("regular")),
        (
            "discount",
            obj(vec![
                ("object", st("discount")),
                ("customer", st("cus_1")),
                ("end", Json::Null),
                ("start", Json::Int(1_500_000_100)),
            ]),
        ),
        ("email", st("jenny@example.com")),
        ("livemode", Json::Bool(false)),
        ("metadata", obj(vec![("k", st("v"))])),
        (
            "shipping",
            obj(vec![
                ("address", obj(vec![("line1", st("1 Main St")), ("city", st("Springfield"))])),
                ("name", st("Jenny")),
                ("phone", st("555")),
            ]),
        ),
        (
            "sources",
            obj(vec![
                ("data", Json::Array(vec![card_json("card_1"), card_json("card_2")])),
                ("has_more", Json::Bool(false)),
                ("total_count", Json::Int(2)),
                ("url", st("/v1/customers/cus_1/sources")),
            ]),
        ),
    ]);
    let c = Customer::from_json(&v).unwrap_or_else(|e| panic!("{:?}", e));
    assert_eq!(c.object(), "customer");
    assert_eq!(c.id().as_str(), "cus_1");
    assert!(c.delinquent);
    assert_eq!(c.desc.as_deref(), Some("regular"));
    assert_eq!(c.business_vat_id, None);
    let discount = c.discount.as_ref().expect("discount is set");
    assert_eq!(discount.start, 1_500_000_100);
    assert_eq!(discount.end, None);
    assert_eq!(discount.customer.as_deref(), Some("cus_1"));
    assert_eq!(c.created, 1_500_000_000);
    let ship = c.shipping.as_ref().expect("shipping is set");
    assert_eq!(ship.address.city.as_deref(), Some("Springfield"));
    assert_eq!(ship.address.country, None);
    assert_eq!(c.sources.len(), 2);
    assert_eq!(c.sources.total_count, Some(2));
    match &c.sources.items()[1] {
        Source::Card(card) => {
            assert_eq!(card.id.as_str(), "card_2");
            assert_eq!(card.last4, "4242");
            assert_eq!(card.exp_year, 2030);
        },
    }
    assert_eq!(c.metadata.get("k").map(|x| x.as_str()), Some("v"));
}

#[test]
fn customer_with_negative_created_is_rejected() {
    let v = obj(vec![
        ("id", st("cus_1")),
        ("object", st("customer")),
        ("account_balance", Json::Int(0)),
        ("created", Json::Int(-1)),
    ]);
    assert_eq!(
        Customer::from_json(&v).err(),
        Some(Error::Shape(ShapeError::WrongType(s("created"))))
    );
}

#[test]
fn deleted_marker_reads() {
    let d = Deleted::from_json(&obj(vec![("id", st("cus_1")), ("deleted", Json::Bool(true))]))
        .unwrap_or_else(|e| panic!("{:?}", e));
    assert_eq!(d.id, "cus_1");
    assert!(d.deleted);
    assert!(Deleted::from_json(&obj(vec![("id", st("cus_1"))])).is_err());
}

#[test]
fn source_reads_card_by_tag() {
    match Source::from_json(&card_json("card_1")) {
        Ok(Source::Card(c)) => {
            assert_eq!(c.brand, "Visa");
            assert_eq!(c.object(), "card");
            assert_eq!(c.id().as_str(), "card_1");
        },
        Err(e) => panic!("{:?}", e),
    }
    let other = obj(vec![("id", st("src_1")), ("object", st("source"))]);
    assert!(matches!(
        Source::from_json(&other),
        Err(Error::Shape(ShapeError::TagMismatch { .. }))
    ));
}

#[test]
fn source_params_and_requests() {
    assert_eq!(SourceParams::default().to_json(), obj(vec![]));
    let mut p = SourceParams::default();
    p.source_type = Some("card");
    p.amount = Some(1000);
    p.owner = Some(OwnerParams { address: None, email: Some("a@b.c"), name: None, phone: None });
    p.redirect = Some(RedirectParams::new("https://example.com/back"));
    let c = Source::create(p);
    assert_eq!(c.method, Method::Post);
    assert_eq!(c.path, "/sources");
    assert_eq!(
        c.params,
        obj(vec![
            ("type", st("card")),
            ("amount", Json::Int(1000)),
            ("owner", obj(vec![("email", st("a@b.c"))])),
            ("redirect", obj(vec![("return_url", st("https://example.com/back"))])),
        ])
    );
    let g = Source::get("src_1");
    assert_eq!(g.path, "/sources/src_1");
    assert_eq!(g.method, Method::Get);
    let u = Source::update("src_1", SourceParams::default());
    assert_eq!(u.path, "/sources/src_1");
    assert_eq!(u.method, Method::Post);
    assert_eq!(u.params, obj(vec![]));
}
