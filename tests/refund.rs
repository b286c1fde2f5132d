use stripe::{
    parse_response, ApiError, Charge, ChargeId, CreateRefund, Error, Expandable, FromJson, Json,
    List, ListRefunds, Metadata, Method, Object, Refund, RefundId, RefundReason, ShapeError,
    UpdateRefund,
};

fn s(x: &str) -> String {
    String::from(x)
}

fn st(x: &str) -> Json {
    Json::Str(s(x))
}

fn obj(ms: Vec<(&str, Json)>) -> Json {
    Json::Object(ms.into_iter().map(|(k, v)| (s(k), v)).collect())
}

fn refund_json(id: &str, charge: Json) -> Json {
    obj(vec![
        ("id", st(id)),
        ("object", st("refund")),
        ("amount", Json::Int(100)),
        ("charge", charge),
        ("created", Json::Int(1_500_000_000)),
        ("currency", st("usd")),
        ("description", Json::Null),
        ("metadata", obj(vec![])),
        ("status", st("succeeded")),
    ])
}

fn charge_json(id: &str) -> Json {
    obj(vec![
        ("id", st(id)),
        ("object", st("charge")),
        ("amount", Json::Int(100)),
        ("created", Json::Int(1_500_000_000)),
        ("currency", st("usd")),
    ])
}

fn page(items: Vec<Json>, has_more: bool) -> Json {
    obj(vec![
        ("object", st("list")),
        ("data", Json::Array(items)),
        ("has_more", Json::Bool(has_more)),
        ("url", st("/v1/refunds")),
    ])
}

#[test]
fn refund_list_for_charge_reads_single_page() {
    let mut params = ListRefunds::new();
    params.charge = Some(ChargeId::from_str("ch_123"));
    let req = Refund::list(params);
    assert_eq!(req.method, Method::Get);
    assert_eq!(req.path, "/refunds");
    assert_eq!(req.params, obj(vec![("charge", st("ch_123"))]));

    let body = obj(vec![
        ("object", st("list")),
        ("data", Json::Array(vec![refund_json("re_1", st("ch_123"))])),
        ("has_more", Json::Bool(false)),
    ]);
    let list: List<Refund> = match parse_response(200, &body) {
        Ok(l) => l,
        Err(e) => panic!("{:?}", e),
    };
    assert!(!list.has_more());
    assert_eq!(list.len(), 1);
    assert_eq!(list.items()[0].id.as_str(), "re_1");
    assert_eq!(list.items()[0].amount, 100);
    assert_eq!(list.items()[0].status.as_deref(), Some("succeeded"));
    assert_eq!(list.items()[0].description, None);
    assert_eq!(list.url, None);
}

#[test]
fn charge_payload_is_not_a_refund() {
    let r: Result<Refund, Error> = parse_response(200, &charge_json("ch_1"));
    match r {
        Err(Error::Shape(ShapeError::TagMismatch { expected, found })) => {
            assert_eq!(expected, "refund");
            assert_eq!(found, "charge");
        },
        Err(e) => panic!("unexpected error {:?}", e),
        Ok(_) => panic!("a charge was read as a refund"),
    }
}

#[test]
fn refund_without_tag_is_rejected() {
    let v = obj(vec![
        ("id", st("re_1")),
        ("amount", Json::Int(100)),
        ("created", Json::Int(1)),
        ("currency", st("usd")),
        ("metadata", obj(vec![])),
    ]);
    assert!(matches!(
        Refund::from_json(&v),
        Err(Error::Shape(ShapeError::TagMismatch { .. }))
    ));
}

#[test]
fn object_tags_are_fixed_per_type() {
    let a = Refund::from_json(&refund_json("re_1", Json::Null)).unwrap_or_else(|e| panic!("{:?}", e));
    let b = Refund::from_json(&refund_json("re_2", st("ch_1"))).unwrap_or_else(|e| panic!("{:?}", e));
    let c = Charge::from_json(&charge_json("ch_1")).unwrap_or_else(|e| panic!("{:?}", e));
    assert_eq!(a.object(), "refund");
    assert_eq!(a.object(), b.object());
    assert_eq!(c.object(), "charge");
    assert_ne!(a.object(), c.object());
    assert_eq!(a.id().as_str(), "re_1");
    assert_eq!(b.id().as_str(), "re_2");
}

#[test]
fn expandable_charge_from_string() {
    let r = Refund::from_json(&refund_json("re_1", st("ch_123"))).unwrap_or_else(|e| panic!("{:?}", e));
    let charge = r.charge.expect("charge is set");
    assert!(!charge.is_object());
    assert!(matches!(charge, Expandable::Id(_)));
    assert_eq!(charge.id().as_str(), "ch_123");
    assert!(charge.as_object().is_none());
    assert_eq!(charge.to_json(), st("ch_123"));
}

#[test]
fn expandable_charge_from_object() {
    let r = Refund::from_json(&refund_json("re_1", charge_json("ch_9"))).unwrap_or_else(|e| panic!("{:?}", e));
    let charge = r.charge.expect("charge is set");
    assert!(charge.is_object());
    assert_eq!(charge.id().as_str(), "ch_9");
    assert_eq!(charge.as_object().map(|c| c.amount), Some(100));
    assert_eq!(charge.to_json(), st("ch_9"));
}

#[test]
fn expandable_rejects_other_shapes() {
    let bad = Refund::from_json(&refund_json("re_1", Json::Int(5)));
    assert!(matches!(bad, Err(Error::Shape(_))));
    let wrong_object = Refund::from_json(&refund_json("re_1", refund_json("re_2", Json::Null)));
    assert!(matches!(wrong_object, Err(Error::Shape(ShapeError::TagMismatch { .. }))));
}

#[test]
fn absent_charge_reads_as_none() {
    let v = obj(vec![
        ("id", st("re_1")),
        ("object", st("refund")),
        ("amount", Json::Int(7)),
        ("created", Json::Int(1)),
        ("currency", st("eur")),
        ("metadata", obj(vec![])),
    ]);
    let r = Refund::from_json(&v).unwrap_or_else(|e| panic!("{:?}", e));
    assert!(r.charge.is_none());
    assert_eq!(r.currency.as_str(), "eur");
    assert_eq!(r.amount, 7);
}

#[test]
fn missing_and_mistyped_members() {
    let v = obj(vec![("id", st("re_1")), ("object", st("refund"))]);
    assert_eq!(
        Refund::from_json(&v).err(),
        Some(Error::Shape(ShapeError::Missing(s("amount"))))
    );
    let w = obj(vec![("id", st("re_1")), ("object", st("refund")), ("amount", st("100"))]);
    assert_eq!(
        Refund::from_json(&w).err(),
        Some(Error::Shape(ShapeError::WrongType(s("amount"))))
    );
    let big = obj(vec![
        ("id", st("re_1")),
        ("object", st("refund")),
        ("amount", Json::Int(i64::MAX as i128 + 1)),
    ]);
    assert!(matches!(Refund::from_json(&big), Err(Error::Shape(_))));
}

#[test]
fn unset_refund_params_send_nothing() {
    assert_eq!(CreateRefund::new().to_json(), obj(vec![]));
    assert_eq!(ListRefunds::new().to_json(), obj(vec![]));
    assert_eq!(UpdateRefund::new().to_json(), obj(vec![]));
    let req = Refund::create(CreateRefund::new());
    assert_eq!(req.method, Method::Post);
    assert_eq!(req.path, "/refunds");
    assert_eq!(req.params, obj(vec![]));
}

#[test]
fn create_refund_sends_set_fields_in_order() {
    let mut p = CreateRefund::new();
    p.reason = Some(RefundReason::RequestedByCustomer);
    p.amount = Some(500);
    p.reverse_transfer = Some(false);
    let expand = ["charge", "balance_transaction"];
    p.expand = &expand;
    assert_eq!(
        p.to_json(),
        obj(vec![
            ("amount", Json::Int(500)),
            ("expand", Json::Array(vec![st("charge"), st("balance_transaction")])),
            ("reason", st("requested_by_customer")),
            ("reverse_transfer", Json::Bool(false)),
        ])
    );
}

#[test]
fn list_refunds_sends_cursors_and_limit() {
    let before = RefundId::from_str("re_0");
    let mut p = ListRefunds::new();
    p.ending_before = Some(&before);
    p.limit = Some(u64::MAX);
    p.starting_after = Some(RefundId::from_str("re_9"));
    assert_eq!(
        p.to_json(),
        obj(vec![
            ("ending_before", st("re_0")),
            ("limit", Json::Int(u64::MAX as i128)),
            ("starting_after", st("re_9")),
        ])
    );
}

#[test]
fn retrieve_and_update_refund_requests() {
    let id = RefundId::from_str("re_1");
    let req = Refund::retrieve(&id, &["charge"]);
    assert_eq!(req.method, Method::Get);
    assert_eq!(req.path, "/refunds/re_1");
    assert_eq!(req.params, obj(vec![("expand", Json::Array(vec![st("charge")]))]));
    let plain = Refund::retrieve(&id, &[]);
    assert_eq!(plain.params, obj(vec![]));

    let mut p = UpdateRefund::new();
    let mut m = Metadata::new();
    m.insert(s("order"), s("42"));
    p.metadata = Some(m);
    let up = Refund::update(&id, p);
    assert_eq!(up.method, Method::Post);
    assert_eq!(up.path, "/refunds/re_1");
    assert_eq!(up.params, obj(vec![("metadata", obj(vec![("order", st("42"))]))]));
}

#[test]
fn refund_reason_names() {
    assert_eq!(RefundReason::Duplicate.as_str(), "duplicate");
    assert_eq!(RefundReason::Fraudulent.as_str(), "fraudulent");
    assert_eq!(RefundReason::RequestedByCustomer.as_str(), "requested_by_customer");
    let r: &str = RefundReason::Fraudulent.as_ref();
    assert_eq!(r, "fraudulent");
    assert_eq!(RefundReason::from_json(&st("duplicate")), Ok(RefundReason::Duplicate));
    assert_eq!(
        RefundReason::from_json(&st("requested_by_customer")),
        Ok(RefundReason::RequestedByCustomer)
    );
    assert!(RefundReason::from_json(&st("mistake")).is_err());
    assert!(RefundReason::from_json(&Json::Int(1)).is_err());
}

#[test]
fn list_page_with_more_keeps_order() {
    let body = page(
        vec![
            refund_json("re_1", Json::Null),
            refund_json("re_2", Json::Null),
            refund_json("re_3", Json::Null),
        ],
        true,
    );
    let list = List::<Refund>::from_json(&body).unwrap_or_else(|e| panic!("{:?}", e));
    assert!(list.has_more());
    assert_eq!(list.len(), 3);
    let ids: Vec<&str> = list.items().iter().map(|r| r.id.as_str()).collect();
    assert_eq!(ids, vec!["re_1", "re_2", "re_3"]);
    assert_eq!(list.next_cursor().map(|i| i.as_str().to_string()), Some(s("re_3")));
    assert_eq!(list.previous_cursor().map(|i| i.as_str().to_string()), Some(s("re_1")));
    assert_eq!(list.url.as_deref(), Some("/v1/refunds"));
    assert_eq!(list.total_count, None);
}

#[test]
fn empty_list_page_has_no_cursor() {
    let list = List::<Refund>::from_json(&page(vec![], false)).unwrap_or_else(|e| panic!("{:?}", e));
    assert!(list.is_empty());
    assert!(list.next_cursor().is_none());
    assert!(list.previous_cursor().is_none());
}

#[test]
fn list_page_rejects_a_bad_item() {
    let body = page(vec![refund_json("re_1", Json::Null), charge_json("ch_1")], false);
    assert!(matches!(List::<Refund>::from_json(&body), Err(Error::Shape(_))));
    let no_data = obj(vec![("has_more", Json::Bool(false)), ("url", st("/v1/refunds"))]);
    assert_eq!(
        List::<Refund>::from_json(&no_data).err(),
        Some(Error::Shape(ShapeError::Missing(s("data"))))
    );
}

#[test]
fn failing_status_is_an_api_error() {
    let body = obj(vec![(
        "error",
        obj(vec![
            ("type", st("card_error")),
            ("code", st("card_declined")),
            ("message", st("Your card was declined.")),
        ]),
    )]);
    let r: Result<Refund, Error> = parse_response(402, &body);
    assert_eq!(
        r.err(),
        Some(Error::Api(ApiError {
            status: 402,
            kind: Some(s("card_error")),
            code: Some(s("card_declined")),
            message: Some(s("Your card was declined.")),
        }))
    );
    let r2: Result<Refund, Error> = parse_response(500, &Json::Null);
    assert_eq!(
        r2.err(),
        Some(Error::Api(ApiError { status: 500, kind: None, code: None, message: None }))
    );
}
