use route53_export::export::build_exports;
use route53_export::export::HostedZoneExport;
use route53_export::export::ResourceRecordSet;
use route53_export::model::AliasTargetModel;
use route53_export::model::CidrRoutingConfigModel;
use route53_export::model::CoordinatesModel;
use route53_export::model::FailoverModel;
use route53_export::model::GeoLocationModel;
use route53_export::model::GeoProximityLocationModel;
use route53_export::model::RecordTypeModel;
use route53_export::model::RegionModel;
use route53_export::model::ResourceRecordModel;
use route53_export::model::ResourceRecordSetModel;
use route53_export::model::ZoneSummary;

fn bare(name: &str, record_type: RecordTypeModel) -> ResourceRecordSetModel {
    ResourceRecordSetModel {
        name: name.to_string(),
        record_type,
        set_identifier: None,
        weight: None,
        region: None,
        geo_location: None,
        failover: None,
        multi_value_answer: None,
        ttl: None,
        resource_records: None,
        alias_target: None,
        health_check_id: None,
        traffic_policy_instance_id: None,
        cidr_routing_config: None,
        geo_proximity_location: None,
    }
}

#[test]
fn canonical_record_type_names() {
    assert_eq!(RecordTypeModel::A.canonical(), "A");
    assert_eq!(RecordTypeModel::Aaaa.canonical(), "AAAA");
    assert_eq!(RecordTypeModel::Cname.canonical(), "CNAME");
    assert_eq!(RecordTypeModel::Txt.canonical(), "TXT");
    assert_eq!(RecordTypeModel::Other("X.".to_string()).canonical(), "X.");
}

#[test]
fn canonical_region_names() {
    assert_eq!(RegionModel::UsEast1.canonical(), "us-east-1");
    assert_eq!(RegionModel::EuWest3.canonical(), "eu-west-3");
    assert_eq!(RegionModel::ApSoutheast7.canonical(), "ap-southeast-7");
    assert_eq!(RegionModel::Other("moon-base-1".to_string()).canonical(), "moon-base-1");
}

#[test]
fn canonical_failover_names() {
    assert_eq!(FailoverModel::Primary.canonical(), "PRIMARY");
    assert_eq!(FailoverModel::Secondary.canonical(), "SECONDARY");
}

#[test]
fn mapping_preserves_absence() {
    let e = ResourceRecordSet::from_model(bare("example.com.", RecordTypeModel::A));
    assert_eq!(e.name, "example.com.");
    assert_eq!(e.record_type, "A");
    assert!(e.set_identifier.is_none());
    assert!(e.weight.is_none());
    assert!(e.region.is_none());
    assert!(e.geo_location.is_none());
    assert!(e.failover.is_none());
    assert!(e.multi_value_answer.is_none());
    assert!(e.ttl.is_none());
    assert!(e.resource_records.is_none());
    assert!(e.alias_target.is_none());
    assert!(e.health_check_id.is_none());
    assert!(e.traffic_policy_instance_id.is_none());
    assert!(e.cidr_routing_config.is_none());
    assert!(e.geo_proximity_location.is_none());
}

#[test]
fn mapping_preserves_every_present_field() {
    let mut m = bare("weighted.example.com.", RecordTypeModel::Cname);
    m.set_identifier = Some("blue".to_string());
    m.weight = Some(42);
    m.region = Some(RegionModel::EuCentral1);
    m.geo_location = Some(GeoLocationModel {
        continent_code: Some("EU".to_string()),
        country_code: None,
        subdivision_code: None,
    });
    m.failover = Some(FailoverModel::Secondary);
    m.multi_value_answer = Some(true);
    m.ttl = Some(0);
    m.resource_records = Some(vec![
        ResourceRecordModel { value: "a.example.net.".to_string() },
        ResourceRecordModel { value: "b.example.net.".to_string() },
    ]);
    m.health_check_id = Some("hc-1".to_string());
    m.traffic_policy_instance_id = Some("tp-1".to_string());
    m.cidr_routing_config = Some(CidrRoutingConfigModel {
        collection_id: "coll".to_string(),
        location_name: "loc".to_string(),
    });
    m.geo_proximity_location = Some(GeoProximityLocationModel {
        aws_region: Some("us-west-2".to_string()),
        local_zone_group: None,
        coordinates: Some(CoordinatesModel {
            latitude: "47.6062".to_string(),
            longitude: "-122.3321".to_string(),
        }),
        bias: Some(-10),
    });
    let e = ResourceRecordSet::from_model(m);
    assert_eq!(e.name, "weighted.example.com.");
    assert_eq!(e.record_type, "CNAME");
    assert_eq!(e.set_identifier.as_deref(), Some("blue"));
    assert_eq!(e.weight, Some(42));
    assert_eq!(e.region.as_deref(), Some("eu-central-1"));
    let g = e.geo_location.as_ref().unwrap();
    assert_eq!(g.continent_code.as_deref(), Some("EU"));
    assert!(g.country_code.is_none());
    assert!(g.subdivision_code.is_none());
    assert_eq!(e.failover.as_deref(), Some("SECONDARY"));
    assert_eq!(e.multi_value_answer, Some(true));
    assert_eq!(e.ttl, Some(0));
    let rr = e.resource_records.as_ref().unwrap();
    assert_eq!(rr.len(), 2);
    assert_eq!(rr[0].value, "a.example.net.");
    assert_eq!(rr[1].value, "b.example.net.");
    assert_eq!(e.health_check_id.as_deref(), Some("hc-1"));
    assert_eq!(e.traffic_policy_instance_id.as_deref(), Some("tp-1"));
    let c = e.cidr_routing_config.as_ref().unwrap();
    assert_eq!(c.collection_id, "coll");
    assert_eq!(c.location_name, "loc");
    let gp = e.geo_proximity_location.as_ref().unwrap();
    assert_eq!(gp.aws_region.as_deref(), Some("us-west-2"));
    assert!(gp.local_zone_group.is_none());
    let coords = gp.coordinates.as_ref().unwrap();
    assert_eq!(coords.latitude, "47.6062");
    assert_eq!(coords.longitude, "-122.3321");
    assert_eq!(gp.bias, Some(-10));
}

#[test]
fn alias_record_maps_all_three_subfields() {
    let mut m = bare("alias.example.com.", RecordTypeModel::A);
    m.alias_target = Some(AliasTargetModel {
        hosted_zone_id: "Z2FDTNDATAQYW2".to_string(),
        dns_name: "d111111abcdef8.cloudfront.net.".to_string(),
        evaluate_target_health: false,
    });
    let e = ResourceRecordSet::from_model(m);
    let a = e.alias_target.as_ref().unwrap();
    assert_eq!(a.hosted_zone_id, "Z2FDTNDATAQYW2");
    assert_eq!(a.dns_name, "d111111abcdef8.cloudfront.net.");
    assert!(!a.evaluate_target_health);
    assert!(e.ttl.is_none());
    assert!(e.resource_records.is_none());
}

#[test]
fn zone_export_keeps_identity_and_record_order() {
    let records = vec![
        bare("one.example.", RecordTypeModel::A),
        bare("two.example.", RecordTypeModel::Ns),
        bare("three.example.", RecordTypeModel::Soa),
    ];
    let z = HostedZoneExport::new("Z123".to_string(), "example.".to_string(), records);
    assert_eq!(z.id, "Z123");
    assert_eq!(z.name, "example.");
    assert_eq!(z.record_sets.len(), 3);
    assert_eq!(z.record_sets[0].name, "one.example.");
    assert_eq!(z.record_sets[1].name, "two.example.");
    assert_eq!(z.record_sets[2].name, "three.example.");
}

#[test]
fn build_exports_keeps_zone_listing_order() {
    let zone_records = vec![
        (
            ZoneSummary { id: "Z1".to_string(), name: "first.example.".to_string() },
            vec![bare("a.first.example.", RecordTypeModel::A)],
        ),
        (
            ZoneSummary { id: "Z2".to_string(), name: "second.example.".to_string() },
            vec![],
        ),
    ];
    let exports = build_exports(zone_records);
    assert_eq!(exports.len(), 2);
    assert_eq!(exports[0].id, "Z1");
    assert_eq!(exports[0].name, "first.example.");
    assert_eq!(exports[0].record_sets.len(), 1);
    assert_eq!(exports[0].record_sets[0].name, "a.first.example.");
    assert_eq!(exports[1].id, "Z2");
    assert_eq!(exports[1].record_sets.len(), 0);
}
