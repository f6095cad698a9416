use route53_export::export::HostedZoneExport;
use route53_export::json::render_export;
use route53_export::json::render_exports;
use route53_export::model::AliasTargetModel;
use route53_export::model::RecordTypeModel;
use route53_export::model::ResourceRecordModel;
use route53_export::model::ResourceRecordSetModel;

fn bare(name: &str, record_type: RecordTypeModel) -> ResourceRecordSetModel {
    ResourceRecordSetModel {
        name: name.to_string(),
        record_type,
        set_identifier: None,
        weight: None,
        region: None,
        geo_location: None,
        failover: None,
        multi_value_answer: None,
        ttl: None,
        resource_records: None,
        alias_target: None,
        health_check_id: None,
        traffic_policy_instance_id: None,
        cidr_routing_config: None,
        geo_proximity_location: None,
    }
}

fn simple_a_zone() -> HostedZoneExport {
    let mut rs = bare("example.com.", RecordTypeModel::A);
    rs.ttl = Some(300);
    rs.resource_records = Some(vec![ResourceRecordModel { value: "1.2.3.4".to_string() }]);
    HostedZoneExport::new("Z111".to_string(), "example.com.".to_string(), vec![rs])
}

#[test]
fn single_zone_simple_a_record_exact_text() {
    let rendered = render_export(&simple_a_zone());
    let expected = "{\n  \"id\": \"Z111\",\n  \"name\": \"example.com.\",\n  \"record_sets\": [\n    {\n      \"name\": \"example.com.\",\n      \"type\": \"A\",\n      \"set_identifier\": null,\n      \"weight\": null,\n      \"region\": null,\n      \"geo_location\": null,\n      \"failover\": null,\n      \"multi_value_answer\": null,\n      \"ttl\": 300,\n      \"resource_records\": [\n        {\n          \"value\": \"1.2.3.4\"\n        }\n      ],\n      \"alias_target\": null,\n      \"health_check_id\": null,\n      \"traffic_policy_instance_id\": null,\n      \"cidr_routing_config\": null,\n      \"geo_proximity_location\": null\n    }\n  ]\n}";
    assert_eq!(rendered, expected);
}

#[test]
fn single_zone_output_reads_back_field_for_field() {
    let rendered = render_export(&simple_a_zone());
    let v: serde_json::Value = serde_json::from_str(&rendered).unwrap();
    assert_eq!(v.get("id").unwrap().as_str(), Some("Z111"));
    assert_eq!(v.get("name").unwrap().as_str(), Some("example.com."));
    let sets = v.get("record_sets").unwrap().as_array().unwrap();
    assert_eq!(sets.len(), 1);
    let rs = &sets[0];
    assert_eq!(rs.get("name").unwrap().as_str(), Some("example.com."));
    assert_eq!(rs.get("type").unwrap().as_str(), Some("A"));
    assert_eq!(rs.get("ttl").unwrap().as_i64(), Some(300));
    let rr = rs.get("resource_records").unwrap().as_array().unwrap();
    assert_eq!(rr.len(), 1);
    assert_eq!(rr[0].get("value").unwrap().as_str(), Some("1.2.3.4"));
    for key in [
        "set_identifier",
        "weight",
        "region",
        "geo_location",
        "failover",
        "multi_value_answer",
        "cidr_routing_config",
        "health_check_id",
        "traffic_policy_instance_id",
        "alias_target",
        "geo_proximity_location",
    ] {
        assert!(rs.get(key).unwrap().is_null(), "{key} should be null");
    }
}

#[test]
fn all_zones_output_is_an_array_in_listing_order() {
    let z1 = HostedZoneExport::new(
        "Z1".to_string(),
        "first.example.".to_string(),
        vec![bare("first.example.", RecordTypeModel::Ns)],
    );
    let z2 = HostedZoneExport::new("Z2".to_string(), "second.example.".to_string(), vec![]);
    let rendered = render_exports(&vec![z1, z2]);
    let v: serde_json::Value = serde_json::from_str(&rendered).unwrap();
    let arr = v.as_array().unwrap();
    assert_eq!(arr.len(), 2);
    assert_eq!(arr[0].get("id").unwrap().as_str(), Some("Z1"));
    assert_eq!(arr[0].get("name").unwrap().as_str(), Some("first.example."));
    assert_eq!(arr[1].get("id").unwrap().as_str(), Some("Z2"));
    let empty = arr[1].get("record_sets").unwrap().as_array().unwrap();
    assert_eq!(empty.len(), 0);
}

#[test]
fn no_zones_render_as_an_empty_array() {
    assert_eq!(render_exports(&vec![]), "[]");
}

#[test]
fn alias_record_renders_subfields_and_null_ttl() {
    let mut rs = bare("alias.example.com.", RecordTypeModel::A);
    rs.alias_target = Some(AliasTargetModel {
        hosted_zone_id: "Z2FDTNDATAQYW2".to_string(),
        dns_name: "d111111abcdef8.cloudfront.net.".to_string(),
        evaluate_target_health: true,
    });
    let z = HostedZoneExport::new("Z9".to_string(), "example.com.".to_string(), vec![rs]);
    let rendered = render_export(&z);
    let v: serde_json::Value = serde_json::from_str(&rendered).unwrap();
    let rs_json = &v.get("record_sets").unwrap().as_array().unwrap()[0];
    let alias = rs_json.get("alias_target").unwrap();
    assert_eq!(alias.as_object().unwrap().len(), 3);
    assert_eq!(alias.get("hosted_zone_id").unwrap().as_str(), Some("Z2FDTNDATAQYW2"));
    assert_eq!(
        alias.get("dns_name").unwrap().as_str(),
        Some("d111111abcdef8.cloudfront.net.")
    );
    assert_eq!(alias.get("evaluate_target_health").unwrap().as_bool(), Some(true));
    assert!(rs_json.get("ttl").unwrap().is_null());
    assert!(rs_json.get("resource_records").unwrap().is_null());
}

#[test]
fn record_order_matches_provider_order() {
    let records = vec![
        bare("b.example.", RecordTypeModel::Mx),
        bare("a.example.", RecordTypeModel::A),
        bare("c.example.", RecordTypeModel::Txt),
    ];
    let z = HostedZoneExport::new("Z5".to_string(), "example.".to_string(), records);
    let rendered = render_export(&z);
    let v: serde_json::Value = serde_json::from_str(&rendered).unwrap();
    let sets = v.get("record_sets").unwrap().as_array().unwrap();
    let names: Vec<&str> = sets.iter().map(|s| s.get("name").unwrap().as_str().unwrap()).collect();
    assert_eq!(names, vec!["b.example.", "a.example.", "c.example."]);
}

#[test]
fn string_escaping_matches_json_rules() {
    let tricky = "q\"uo\\te\ntab\tand\u{1}ctl";
    let mut rs = bare(tricky, RecordTypeModel::Txt);
    rs.resource_records = Some(vec![ResourceRecordModel { value: "sp ace\r\u{8}\u{c}".to_string() }]);
    let z = HostedZoneExport::new("Z7".to_string(), "esc.example.".to_string(), vec![rs]);
    let rendered = render_export(&z);
    assert!(rendered.contains("q\\\"uo\\\\te\\ntab\\tand\\u0001ctl"));
    assert!(rendered.contains("sp ace\\r\\b\\f"));
    let v: serde_json::Value = serde_json::from_str(&rendered).unwrap();
    let rs_json = &v.get("record_sets").unwrap().as_array().unwrap()[0];
    assert_eq!(rs_json.get("name").unwrap().as_str(), Some(tricky));
    let rr = rs_json.get("resource_records").unwrap().as_array().unwrap();
    assert_eq!(rr[0].get("value").unwrap().as_str(), Some("sp ace\r\u{8}\u{c}"));
}

#[test]
fn integer_rendering_covers_extremes() {
    let mut rs = bare("num.example.", RecordTypeModel::A);
    rs.weight = Some(i64::MIN);
    rs.ttl = Some(i64::MAX);
    rs.geo_proximity_location = Some(route53_export::model::GeoProximityLocationModel {
        aws_region: None,
        local_zone_group: None,
        coordinates: None,
        bias: Some(-2147483648),
    });
    let z = HostedZoneExport::new("Z8".to_string(), "num.example.".to_string(), vec![rs]);
    let rendered = render_export(&z);
    assert!(rendered.contains("\"weight\": -9223372036854775808"));
    assert!(rendered.contains("\"ttl\": 9223372036854775807"));
    assert!(rendered.contains("\"bias\": -2147483648"));
    let v: serde_json::Value = serde_json::from_str(&rendered).unwrap();
    let rs_json = &v.get("record_sets").unwrap().as_array().unwrap()[0];
    assert_eq!(rs_json.get("weight").unwrap().as_i64(), Some(i64::MIN));
    assert_eq!(rs_json.get("ttl").unwrap().as_i64(), Some(i64::MAX));
    let gp = rs_json.get("geo_proximity_location").unwrap();
    assert_eq!(gp.get("bias").unwrap().as_i64(), Some(-2147483648));
    assert!(gp.get("coordinates").unwrap().is_null());
}
