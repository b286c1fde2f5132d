use stripe::{
    Expandable,     CancelParams, Error, FromJson, ItemParams, Json, Metadata, Method, Object, Percent,
    ShapeError, Subscription, SubscriptionBilling, SubscriptionListParams, SubscriptionParams,
    SubscriptionStatus, SubscriptionStatusFilter, TrialEnd,
};

fn s(x: &str) -> String {
    String::from(x)
}

fn st(x: &str) -> Json {
    Json::Str(s(x))
}

fn obj(ms: Vec<(&str, Json)>) -> Json {
    Json::Object(ms.into_iter().map(|(k, v)| (s(k), v)).collect())
}

fn plan_json() -> Json {
    obj(vec![
        ("id", st("gold")),
        ("object", st("plan")),
        ("active", Json::Bool(true)),
        ("amount", Json::Int(2000)),
        ("created", Json::Int(1_500_000_000)),
        ("currency", st("usd")),
        ("interval", st("month")),
        ("interval_count", Json::Int(1)),
        ("livemode", Json::Bool(false)),
        ("metadata", obj(vec![])),
        ("nickname", Json::Null),
    ])
}

fn items_json() -> Json {
    obj(vec![
        ("object", st("list")),
        (
            "data",
            Json::Array(vec![obj(vec![
                ("id", st("si_1")),
                ("object", st("subscription_item")),
                ("created", Json::Int(1_600_000_000)),
                ("metadata", obj(vec![])),
                ("plan", plan_json()),
                ("quantity", Json::Int(2)),
                ("subscription", st("sub_1")),
            ])]),
        ),
        ("has_more", Json::Bool(false)),
    ])
}

fn subscription_json(customer: Json, status: &str) -> Json {
    obj(vec![
        ("items", items_json()),
        ("id", st("sub_1")),
        ("object", st("subscription")),
        ("application_fee_percent", Json::Decimal(125, 1)),
        ("billing", st("charge_automatically")),
        ("billing_cycle_anchor", Json::Int(1_600_000_000)),
        ("cancel_at_period_end", Json::Bool(false)),
        ("canceled_at", Json::Null),
        ("created", Json::Int(1_600_000_000)),
        ("current_period_end", Json::Int(1_602_592_000)),
        ("current_period_start", Json::Int(1_600_000_000)),
        ("customer", customer),
        ("days_until_due", Json::Int(30)),
        ("livemode", Json::Bool(false)),
        ("metadata", obj(vec![("plan_tier", st("gold"))])),
        ("quantity", Json::Int(2)),
        ("status", st(status)),
        ("tax_percent", Json::Int(8)),
    ])
}

#[test]
fn update_with_empty_metadata_sends_empty_object() {
    let mut p = SubscriptionParams::default();
    p.metadata = Some(Metadata::new());
    let req = Subscription::update("sub_1", p);
    assert_eq!(req.method, Method::Post);
    assert_eq!(req.path, "/subscriptions/sub_1");
    assert_eq!(req.params, obj(vec![("metadata", obj(vec![]))]));
}

#[test]
fn update_without_metadata_leaves_it_out() {
    let p = SubscriptionParams::default();
    assert_eq!(p.to_json(), obj(vec![]));
    let mut q = SubscriptionParams::default();
    q.prorate = Some(true);
    assert_eq!(q.to_json(), obj(vec![("prorate", Json::Bool(true))]));
}

#[test]
fn subscription_params_encode_items_percent_and_trial() {
    let mut p = SubscriptionParams::default();
    p.customer = Some("cus_1");
    p.items = Some(vec![
        ItemParams { plan: "gold", quantity: Some(2) },
        ItemParams { plan: "silver", quantity: None },
    ]);
    p.tax_percent = Some(Percent { hundredths: 1250 });
    p.trial_end = Some(TrialEnd::Special("now"));
    assert_eq!(
        p.to_json(),
        obj(vec![
            ("customer", st("cus_1")),
            (
                "items",
                Json::Array(vec![
                    obj(vec![("plan", st("gold")), ("quantity", Json::Int(2))]),
                    obj(vec![("plan", st("silver"))]),
                ]),
            ),
            ("tax_percent", Json::Decimal(1250, 2)),
            ("trial_end", st("now")),
        ])
    );
    let mut q = SubscriptionParams::default();
    q.trial_end = Some(TrialEnd::Timestamp(1_700_000_000));
    assert_eq!(q.to_json(), obj(vec![("trial_end", Json::Int(1_700_000_000))]));
}

#[test]
fn subscription_list_params_new_is_empty() {
    let p = SubscriptionListParams::new();
    assert_eq!(p.to_json(), obj(vec![]));
    let req = Subscription::list(p);
    assert_eq!(req.method, Method::Get);
    assert_eq!(req.path, "/subscriptions");
    assert_eq!(req.params, obj(vec![]));
}

#[test]
fn cancel_subscription_request() {
    assert_eq!(CancelParams::default().to_json(), obj(vec![]));
    let req = Subscription::cancel("sub_1", CancelParams { at_period_end: Some(true) });
    assert_eq!(req.method, Method::Delete);
    assert_eq!(req.path, "/subscriptions/sub_1");
    assert_eq!(req.params, obj(vec![("at_period_end", Json::Bool(true))]));
}

#[test]
fn create_and_retrieve_subscription_requests() {
    let mut p = SubscriptionParams::default();
    p.plan = Some("gold");
    let c = Subscription::create(p);
    assert_eq!(c.method, Method::Post);
    assert_eq!(c.path, "/subscriptions");
    assert_eq!(c.params, obj(vec![("plan", st("gold"))]));
    let r = Subscription::retrieve("sub_7");
    assert_eq!(r.method, Method::Get);
    assert_eq!(r.path, "/subscriptions/sub_7");
    assert_eq!(r.params, obj(vec![]));
}

#[test]
fn subscription_reads_with_customer_id() {
    let sub = Subscription::from_json(&subscription_json(st("cus_1"), "past_due"))
        .unwrap_or_else(|e| panic!("{:?}", e));
    assert_eq!(sub.object(), "subscription");
    assert_eq!(sub.id().as_str(), "sub_1");
    assert_eq!(sub.status, SubscriptionStatus::PastDue);
    assert_eq!(sub.billing, SubscriptionBilling::ChargeAutomatically);
    assert_eq!(sub.customer.id().as_str(), "cus_1");
    assert!(!sub.customer.is_object());
    assert_eq!(sub.application_fee_percent, Some(Percent { hundredths: 1250 }));
    assert_eq!(sub.tax_percent, Some(Percent { hundredths: 800 }));
    assert_eq!(sub.days_until_due, Some(30));
    assert_eq!(sub.canceled_at, None);
    assert_eq!(sub.quantity, Some(2));
    assert_eq!(sub.metadata.get("plan_tier").map(|v| v.as_str()), Some("gold"));
}

#[test]
fn subscription_reads_with_expanded_customer() {
    let customer = obj(vec![
        ("id", st("cus_9")),
        ("object", st("customer")),
        ("account_balance", Json::Int(-500)),
        ("created", Json::Int(1_500_000_000)),
        ("currency", st("usd")),
        ("default_source", st("card_1")),
        ("delinquent", Json::Bool(false)),
        ("email", st("jenny@example.com")),
        ("livemode", Json::Bool(false)),
        ("metadata", obj(vec![])),
        (
            "sources",
            obj(vec![
                ("data", Json::Array(vec![])),
                ("has_more", Json::Bool(false)),
                ("url", st("/v1/customers/cus_9/sources")),
            ]),
        ),
    ]);
    let sub = Subscription::from_json(&subscription_json(customer, "active"))
        .unwrap_or_else(|e| panic!("{:?}", e));
    assert!(sub.customer.is_object());
    assert_eq!(sub.customer.id().as_str(), "cus_9");
    assert_eq!(sub.customer.as_object().map(|c| c.account_balance), Some(-500));
}

#[test]
fn unknown_status_is_rejected() {
    let r = Subscription::from_json(&subscription_json(st("cus_1"), "paused"));
    assert_eq!(r.err(), Some(Error::Shape(ShapeError::WrongType(s("subscription_status")))));
}

#[test]
fn subscription_enum_names() {
    assert_eq!(SubscriptionBilling::SendInvoice.as_str(), "send_invoice");
    assert_eq!(SubscriptionStatus::IncompleteExpired.as_str(), "incomplete_expired");
    assert_eq!(SubscriptionStatusFilter::All.as_str(), "all");
    assert_eq!(SubscriptionStatusFilter::PastDue.as_str(), "past_due");
    assert_eq!(SubscriptionStatus::from_json(&st("trialing")), Ok(SubscriptionStatus::Trialing));
}

#[test]
fn percent_reading() {
    assert_eq!(Percent::from_json(&Json::Decimal(125, 1)), Ok(Percent { hundredths: 1250 }));
    assert_eq!(Percent::from_json(&Json::Int(3)), Ok(Percent { hundredths: 300 }));
    assert_eq!(Percent::from_json(&Json::Decimal(7, 2)), Ok(Percent { hundredths: 7 }));
    assert!(Percent::from_json(&Json::Decimal(1, 3)).is_err());
    assert!(Percent::from_json(&Json::Int(-1)).is_err());
    assert!(Percent::from_json(&st("12.5")).is_err());
    assert_eq!(Percent { hundredths: 1250 }.to_json(), Json::Decimal(1250, 2));
}

#[test]
fn subscription_reads_referenced_resources() {
    let mut v = subscription_json(st("cus_1"), "active");
    if let Json::Object(ms) = &mut v {
        ms.push((s("default_payment_method"), st("pm_1")));
        ms.push((s("default_source"), st("card_1")));
        ms.push((
            s("latest_invoice"),
            obj(vec![
                ("id", st("in_1")),
                ("object", st("invoice")),
                ("amount_due", Json::Int(4000)),
                ("amount_paid", Json::Int(0)),
                ("created", Json::Int(1_600_000_000)),
                ("currency", st("usd")),
                ("paid", Json::Bool(false)),
                ("status", st("open")),
            ]),
        ));
        ms.push((
            s("default_tax_rates"),
            Json::Array(vec![obj(vec![
                ("id", st("txr_1")),
                ("object", st("tax_rate")),
                ("active", Json::Bool(true)),
                ("created", Json::Int(1_600_000_000)),
                ("display_name", st("VAT")),
                ("inclusive", Json::Bool(false)),
                ("jurisdiction", st("DE")),
                ("livemode", Json::Bool(false)),
                ("percentage", Json::Decimal(19, 0)),
            ])]),
        ));
        ms.push((
            s("billing_thresholds"),
            obj(vec![("amount_gte", Json::Int(10000)), ("reset_billing_cycle_anchor", Json::Bool(true))]),
        ));
        ms.push((s("plan"), plan_json()));
    }
    let sub = Subscription::from_json(&v).unwrap_or_else(|e| panic!("{:?}", e));
    assert_eq!(sub.items.len(), 1);
    assert_eq!(sub.items.items()[0].id().as_str(), "si_1");
    assert_eq!(sub.items.items()[0].plan.amount, Some(2000));
    assert_eq!(sub.items.items()[0].quantity, Some(2));
    let pm = sub.default_payment_method.as_ref().expect("payment method is set");
    assert!(matches!(pm, Expandable::Id(_)));
    assert_eq!(pm.id().as_str(), "pm_1");
    assert_eq!(sub.default_source.as_ref().map(|c| c.id().as_str().to_string()), Some(s("card_1")));
    let inv = sub.latest_invoice.as_ref().expect("invoice is set");
    assert!(inv.is_object());
    assert_eq!(inv.id().as_str(), "in_1");
    assert_eq!(inv.as_object().map(|i| i.amount_due), Some(4000));
    let rates = sub.default_tax_rates.as_ref().expect("tax rates are set");
    assert_eq!(rates.len(), 1);
    assert_eq!(rates[0].percentage, Percent { hundredths: 1900 });
    assert_eq!(rates[0].jurisdiction.as_deref(), Some("DE"));
    let t = sub.billing_thresholds.as_ref().expect("thresholds are set");
    assert_eq!(t.amount_gte, Some(10000));
    assert_eq!(t.reset_billing_cycle_anchor, Some(true));
    assert_eq!(sub.plan.as_ref().map(|p| p.interval_count), Some(1));
    assert!(sub.discount.is_none());
}

#[test]
fn subscription_without_items_is_rejected() {
    let mut v = subscription_json(st("cus_1"), "active");
    if let Json::Object(ms) = &mut v {
        ms.remove(0);
    }
    assert_eq!(
        Subscription::from_json(&v).err(),
        Some(Error::Shape(ShapeError::Missing(s("items"))))
    );
}
