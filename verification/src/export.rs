use vstd::prelude::*;

use crate::model::AliasTargetModel;
use crate::model::CidrRoutingConfigModel;
use crate::model::CoordinatesModel;
use crate::model::GeoLocationModel;
use crate::model::GeoProximityLocationModel;
use crate::model::ResourceRecordModel;
use crate::model::ResourceRecordSetModel;
use crate::model::ZoneSummary;

verus! {

/// Geographic location in the export schema: a field-for-field copy of the
/// provider value, absence kept as absence.
pub struct GeoLocation {
    pub continent_code: Option<String>,
    pub country_code: Option<String>,
    pub subdivision_code: Option<String>,
}

/// One record value in the export schema.
pub struct ResourceRecord {
    pub value: String,
}

/// Alias target in the export schema.
pub struct AliasTarget {
    pub hosted_zone_id: String,
    pub dns_name: String,
    pub evaluate_target_health: bool,
}

/// CIDR routing configuration in the export schema.
pub struct CidrRoutingConfig {
    pub collection_id: String,
    pub location_name: String,
}

/// Coordinates in the export schema, kept as decimal strings.
pub struct Coordinates {
    pub latitude: String,
    pub longitude: String,
}

/// Geoproximity location in the export schema.
pub struct GeoProximityLocation {
    pub aws_region: Option<String>,
    pub local_zone_group: Option<String>,
    pub coordinates: Option<Coordinates>,
    pub bias: Option<i32>,
}

/// One record set in the export schema. Enumeration-typed provider fields
/// (record type, region, failover) are carried as their canonical names;
/// every other field is a presence-preserving copy.
pub struct ResourceRecordSet {
    pub name: String,
    pub record_type: String,
    pub set_identifier: Option<String>,
    pub weight: Option<i64>,
    pub region: Option<String>,
    pub geo_location: Option<GeoLocation>,
    pub failover: Option<String>,
    pub multi_value_answer: Option<bool>,
    pub ttl: Option<i64>,
    pub resource_records: Option<Vec<ResourceRecord>>,
    pub alias_target: Option<AliasTarget>,
    pub health_check_id: Option<String>,
    pub traffic_policy_instance_id: Option<String>,
    pub cidr_routing_config: Option<CidrRoutingConfig>,
    pub geo_proximity_location: Option<GeoProximityLocation>,
}

/// The export of one hosted zone: its identity and its record sets,
/// in the order the provider returned them.
pub struct HostedZoneExport {
    pub id: String,
    pub name: String,
    pub record_sets: Vec<ResourceRecordSet>,
}

/// The export value `e` is the faithful mapping of the provider value `m`.
pub open spec fn geo_location_maps(m: GeoLocationModel, e: GeoLocation) -> bool {
    &&& e.continent_code == m.continent_code
    &&& e.country_code == m.country_code
    &&& e.subdivision_code == m.subdivision_code
}

/// The export value `e` is the faithful mapping of the provider value `m`.
pub open spec fn alias_target_maps(m: AliasTargetModel, e: AliasTarget) -> bool {
    &&& e.hosted_zone_id == m.hosted_zone_id
    &&& e.dns_name == m.dns_name
    &&& e.evaluate_target_health == m.evaluate_target_health
}

/// The export value `e` is the faithful mapping of the provider value `m`.
pub open spec fn cidr_routing_config_maps(m: CidrRoutingConfigModel, e: CidrRoutingConfig) -> bool {
    &&& e.collection_id == m.collection_id
    &&& e.location_name == m.location_name
}

/// The export value `e` is the faithful mapping of the provider value `m`:
/// the decimal strings are preserved exactly.
pub open spec fn coordinates_maps(m: CoordinatesModel, e: Coordinates) -> bool {
    &&& e.latitude == m.latitude
    &&& e.longitude == m.longitude
}

/// The export value `e` is the faithful mapping of the provider value `m`.
pub open spec fn geo_proximity_location_maps(
    m: GeoProximityLocationModel,
    e: GeoProximityLocation,
) -> bool {
    &&& e.aws_region == m.aws_region
    &&& e.local_zone_group == m.local_zone_group
    &&& e.bias == m.bias
    &&& m.coordinates is None <==> e.coordinates is None
    &&& m.coordinates matches Some(c) ==> e.coordinates matches Some(ec) && coordinates_maps(
        c,
        ec,
    )
}

/// The export record set `e` is the faithful mapping of the provider record
/// set `m`: enumeration fields become their canonical names, every present
/// field keeps its value, every absent optional field stays absent, and the
/// record values keep their order.
pub open spec fn record_set_maps(m: ResourceRecordSetModel, e: ResourceRecordSet) -> bool {
    &&& e.name == m.name
    &&& e.record_type@ == m.record_type.as_text()
    &&& e.set_identifier == m.set_identifier
    &&& e.weight == m.weight
    &&& m.region is None <==> e.region is None
    &&& m.region matches Some(r) ==> e.region matches Some(er) && er@ == r.as_text()
    &&& m.geo_location is None <==> e.geo_location is None
    &&& m.geo_location matches Some(g) ==> e.geo_location matches Some(eg) && geo_location_maps(
        g,
        eg,
    )
    &&& m.failover is None <==> e.failover is None
    &&& m.failover matches Some(f) ==> e.failover matches Some(ef) && ef@ == f.as_text()
    &&& e.multi_value_answer == m.multi_value_answer
    &&& e.ttl == m.ttl
    &&& m.resource_records is None <==> e.resource_records is None
    &&& m.resource_records matches Some(rs) ==> e.resource_records matches Some(ers) && {
        &&& ers@.len() == rs@.len()
        &&& forall|i: int| 0 <= i < rs@.len() ==> #[trigger] ers@[i].value == rs@[i].value
    }
    &&& m.alias_target is None <==> e.alias_target is None
    &&& m.alias_target matches Some(a) ==> e.alias_target matches Some(ea) && alias_target_maps(
        a,
        ea,
    )
    &&& e.health_check_id == m.health_check_id
    &&& e.traffic_policy_instance_id == m.traffic_policy_instance_id
    &&& m.cidr_routing_config is None <==> e.cidr_routing_config is None
    &&& m.cidr_routing_config matches Some(c) ==> e.cidr_routing_config matches Some(ec)
        && cidr_routing_config_maps(c, ec)
    &&& m.geo_proximity_location is None <==> e.geo_proximity_location is None
    &&& m.geo_proximity_location matches Some(g) ==> e.geo_proximity_location matches Some(eg)
        && geo_proximity_location_maps(g, eg)
}

impl GeoLocation {
    /// Map one provider geolocation into the export schema.
    pub fn from_model(m: GeoLocationModel) -> (r: Self)
        ensures
            geo_location_maps(m, r),
    {
        GeoLocation {
            continent_code: m.continent_code,
            country_code: m.country_code,
            subdivision_code: m.subdivision_code,
        }
    }
}

impl ResourceRecord {
    /// Map one provider record value into the export schema.
    pub fn from_model(m: ResourceRecordModel) -> (r: Self)
        ensures
            r.value == m.value,
    {
        ResourceRecord { value: m.value }
    }
}

impl AliasTarget {
    /// Map one provider alias target into the export schema.
    pub fn from_model(m: AliasTargetModel) -> (r: Self)
        ensures
            alias_target_maps(m, r),
    {
        AliasTarget {
            hosted_zone_id: m.hosted_zone_id,
            dns_name: m.dns_name,
            evaluate_target_health: m.evaluate_target_health,
        }
    }
}

impl CidrRoutingConfig {
    /// Map one provider CIDR routing configuration into the export schema.
    pub fn from_model(m: CidrRoutingConfigModel) -> (r: Self)
        ensures
            cidr_routing_config_maps(m, r),
    {
        CidrRoutingConfig { collection_id: m.collection_id, location_name: m.location_name }
    }
}

impl Coordinates {
    /// Map provider coordinates into the export schema.
    pub fn from_model(m: CoordinatesModel) -> (r: Self)
        ensures
            coordinates_maps(m, r),
    {
        Coordinates { latitude: m.latitude, longitude: m.longitude }
    }
}

impl GeoProximityLocation {
    /// Map one provider geoproximity location into the export schema.
    pub fn from_model(m: GeoProximityLocationModel) -> (r: Self)
        ensures
            geo_proximity_location_maps(m, r),
    {
        let coordinates = match m.coordinates {
            Some(c) => Some(Coordinates::from_model(c)),
            None => None,
        };
        GeoProximityLocation {
            aws_region: m.aws_region,
            local_zone_group: m.local_zone_group,
            coordinates,
            bias: m.bias,
        }
    }
}

impl ResourceRecordSet {
    /// Map one provider record set into the export schema: field for field,
    /// presence-preserving, order-preserving for the record values.
    pub fn from_model(m: ResourceRecordSetModel) -> (r: Self)
        ensures
            record_set_maps(m, r),
    {
        let record_type = m.record_type.canonical();
        let region = match &m.region {
            Some(rg) => Some(rg.canonical()),
            None => None,
        };
        let failover = match &m.failover {
            Some(f) => Some(f.canonical()),
            None => None,
        };
        let geo_location = match m.geo_location {
            Some(g) => Some(GeoLocation::from_model(g)),
            None => None,
        };
        let resource_records = match m.resource_records {
            Some(rs) => {
                let ghost rs_model = rs@;
                let mut out: Vec<ResourceRecord> = Vec::new();
                let mut i: usize = 0;
                let mut rest = rs;
                // map in order, consuming the source vector front to back
                let len = rest.len();
                proof {
                    assert(rest@ =~= rs_model.skip(0));
                }
                while i < len
                    invariant
                        i <= len,
                        len == rs_model.len(),
                        rest@ == rs_model.skip(i as int),
                        out@.len() == i,
                        forall|j: int| 0 <= j < i ==> #[trigger] out@[j].value
                            == rs_model[j].value,
                    decreases len - i,
                {
                    let m = rest.remove(0);
                    assert(m == rs_model[i as int]);
                    out.push(ResourceRecord::from_model(m));
                    proof {
                        assert(rest@ =~= rs_model.skip(i as int + 1));
                    }
                    i = i + 1;
                }
                Some(out)
            },
            None => None,
        };
        let alias_target = match m.alias_target {
            Some(a) => Some(AliasTarget::from_model(a)),
            None => None,
        };
        let cidr_routing_config = match m.cidr_routing_config {
            Some(c) => Some(CidrRoutingConfig::from_model(c)),
            None => None,
        };
        let geo_proximity_location = match m.geo_proximity_location {
            Some(g) => Some(GeoProximityLocation::from_model(g)),
            None => None,
        };
        ResourceRecordSet {
            name: m.name,
            record_type,
            set_identifier: m.set_identifier,
            weight: m.weight,
            region,
            geo_location,
            failover,
            multi_value_answer: m.multi_value_answer,
            ttl: m.ttl,
            resource_records,
            alias_target,
            health_check_id: m.health_check_id,
            traffic_policy_instance_id: m.traffic_policy_instance_id,
            cidr_routing_config,
            geo_proximity_location,
        }
    }
}

impl HostedZoneExport {
    /// Build the export of one zone: its identity and every record set
    /// mapped into the export schema, in the provider's order.
    pub fn new(id: String, name: String, record_sets: Vec<ResourceRecordSetModel>) -> (r: Self)
        ensures
            r.id == id,
            r.name == name,
            r.record_sets@.len() == record_sets@.len(),
            forall|i: int| 0 <= i < record_sets@.len() ==> record_set_maps(
                record_sets@[i],
                #[trigger] r.record_sets@[i],
            ),
    {
        let ghost src_model = record_sets@;
        let mut mapped: Vec<ResourceRecordSet> = Vec::new();
        let mut rest = record_sets;
        let mut i: usize = 0;
        let len = rest.len();
        proof {
            assert(rest@ =~= src_model.skip(0));
        }
        while i < len
            invariant
                i <= len,
                len == src_model.len(),
                rest@ == src_model.skip(i as int),
                mapped@.len() == i,
                forall|j: int| 0 <= j < i ==> record_set_maps(
                    src_model[j],
                    #[trigger] mapped@[j],
                ),
            decreases len - i,
        {
            let m = rest.remove(0);
            assert(m == src_model[i as int]);
            mapped.push(ResourceRecordSet::from_model(m));
            proof {
                assert(rest@ =~= src_model.skip(i as int + 1));
            }
            i = i + 1;
        }
        HostedZoneExport { id, name, record_sets: mapped }
    }
}

/// Assemble the export of every selected zone from its fetched record sets,
/// one export per zone, in the given (zone-listing) order.
pub fn build_exports(zone_records: Vec<(ZoneSummary, Vec<ResourceRecordSetModel>)>) -> (r: Vec<
    HostedZoneExport,
>)
    ensures
        r@.len() == zone_records@.len(),
        forall|i: int| 0 <= i < zone_records@.len() ==> {
            &&& (#[trigger] r@[i]).id == zone_records@[i].0.id
            &&& r@[i].name == zone_records@[i].0.name
            &&& r@[i].record_sets@.len() == zone_records@[i].1@.len()
            &&& forall|j: int| 0 <= j < zone_records@[i].1@.len() ==> record_set_maps(
                zone_records@[i].1@[j],
                #[trigger] r@[i].record_sets@[j],
            )
        },
{
    let ghost src_model = zone_records@;
    let mut exports: Vec<HostedZoneExport> = Vec::new();
    let mut rest = zone_records;
    let mut i: usize = 0;
    let len = rest.len();
    proof {
        assert(rest@ =~= src_model.skip(0));
    }
    while i < len
        invariant
            i <= len,
            len == src_model.len(),
            rest@ == src_model.skip(i as int),
            exports@.len() == i,
            forall|k: int| 0 <= k < i ==> {
                &&& (#[trigger] exports@[k]).id == src_model[k].0.id
                &&& exports@[k].name == src_model[k].0.name
                &&& exports@[k].record_sets@.len() == src_model[k].1@.len()
                &&& forall|j: int| 0 <= j < src_model[k].1@.len() ==> record_set_maps(
                    src_model[k].1@[j],
                    #[trigger] exports@[k].record_sets@[j],
                )
            },
        decreases len - i,
    {
        let (zone, records) = rest.remove(0);
        proof {
            assert((zone, records) == src_model[i as int]);
        }
        exports.push(HostedZoneExport::new(zone.id, zone.name, records));
        proof {
            assert(rest@ =~= src_model.skip(i as int + 1));
        }
        i = i + 1;
    }
    exports
}

} // verus!
