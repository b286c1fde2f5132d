use stripe::{
    check_tag, Error, FromJson, Json, MerchantCategory, MerchantData, Metadata, RangeQuery,
    ShapeError,
};

fn s(x: &str) -> String {
    String::from(x)
}

fn st(x: &str) -> Json {
    Json::Str(s(x))
}

fn obj(ms: Vec<(&str, Json)>) -> Json {
    Json::Object(ms.into_iter().map(|(k, v)| (s(k), v)).collect())
}

#[test]
fn metadata_insert_replaces_and_keeps_order() {
    let mut m = Metadata::new();
    assert!(m.is_empty());
    m.insert(s("a"), s("1"));
    m.insert(s("b"), s("2"));
    m.insert(s("a"), s("3"));
    assert_eq!(m.len(), 2);
    assert_eq!(m.get("a").map(|v| v.as_str()), Some("3"));
    assert_eq!(m.get("b").map(|v| v.as_str()), Some("2"));
    assert!(m.get("c").is_none());
    assert_eq!(m.to_json(), obj(vec![("a", st("3")), ("b", st("2"))]));
    assert_eq!(Metadata::new().to_json(), obj(vec![]));
}

#[test]
fn metadata_reading_lets_later_keys_win() {
    let v = obj(vec![("a", st("1")), ("b", st("2")), ("a", st("3"))]);
    let m = Metadata::from_json(&v).unwrap_or_else(|e| panic!("{:?}", e));
    assert_eq!(m.len(), 2);
    assert_eq!(m.get("a").map(|x| x.as_str()), Some("3"));
    assert_eq!(m.to_json(), obj(vec![("a", st("3")), ("b", st("2"))]));
    assert!(Metadata::from_json(&obj(vec![("a", Json::Int(1))])).is_err());
    assert!(Metadata::from_json(&st("a")).is_err());
}

#[test]
fn range_query_encoding() {
    assert_eq!(RangeQuery::eq(5).to_json(), Json::Int(5));
    assert_eq!(RangeQuery::gt(5).to_json(), obj(vec![("gt", Json::Int(5))]));
    assert_eq!(RangeQuery::gte(6).to_json(), obj(vec![("gte", Json::Int(6))]));
    assert_eq!(RangeQuery::lt(7).to_json(), obj(vec![("lt", Json::Int(7))]));
    assert_eq!(RangeQuery::lte(8).to_json(), obj(vec![("lte", Json::Int(8))]));
}

#[test]
fn json_member_lookup_takes_the_first() {
    let v = obj(vec![("a", Json::Int(1)), ("a", Json::Int(2))]);
    assert_eq!(v.get("a"), Some(&Json::Int(1)));
    assert_eq!(v.get("b"), None);
    assert_eq!(Json::Int(1).get("a"), None);
    assert_eq!(v.read_i64("a"), Ok(1));
    assert_eq!(v.read_opt_str("b"), Ok(None));
    assert_eq!(v.read_opt_u64("a"), Ok(Some(1)));
    assert_eq!(v.read_str("a"), Err(Error::Shape(ShapeError::WrongType(s("a")))));
    assert_eq!(v.read_bool("b"), Err(Error::Shape(ShapeError::Missing(s("b")))));
}

#[test]
fn tag_check_reports_what_was_found() {
    assert_eq!(check_tag(&obj(vec![("object", st("refund"))]), "refund"), Ok(()));
    assert_eq!(
        check_tag(&obj(vec![("object", st("charge"))]), "refund"),
        Err(Error::Shape(ShapeError::TagMismatch { expected: s("refund"), found: s("charge") }))
    );
    assert_eq!(
        check_tag(&obj(vec![]), "refund"),
        Err(Error::Shape(ShapeError::TagMismatch { expected: s("refund"), found: s("") }))
    );
}

#[test]
fn merchant_category_names() {
    assert_eq!(MerchantCategory::default(), MerchantCategory::Miscellaneous);
    assert_eq!(MerchantCategory::HeatingPlumbingAC.as_str(), "heating_plumbing_a_c");
    assert_eq!(MerchantCategory::AcRefrigerationRepair.as_str(), "ac_refrigeration_repair");
    assert_eq!(
        MerchantCategory::from_json(&st("u_s_federal_government_agencies_or_departments")),
        Ok(MerchantCategory::USFederalGovernmentAgenciesOrDepartments)
    );
    assert_eq!(
        MerchantCategory::from_json(&st("wrecking_and_salvage_yards")),
        Ok(MerchantCategory::WreckingAndSalvageYards)
    );
    assert!(MerchantCategory::from_json(&st("not_a_category")).is_err());
}

#[test]
fn merchant_data_round_trip() {
    let mut m = MerchantData::default();
    assert_eq!(m.network_id, "");
    assert_eq!(m.category, MerchantCategory::Miscellaneous);
    m.network_id = s("1234");
    m.category = MerchantCategory::Bakeries;
    m.city = Some(s("Paris"));
    let v = m.to_json();
    assert_eq!(
        v,
        obj(vec![("network_id", st("1234")), ("category", st("bakeries")), ("city", st("Paris"))])
    );
    let back = MerchantData::from_json(&v).unwrap_or_else(|e| panic!("{:?}", e));
    assert_eq!(back.network_id, "1234");
    assert_eq!(back.category, MerchantCategory::Bakeries);
    assert_eq!(back.city.as_deref(), Some("Paris"));
    assert_eq!(back.name, None);
}
