use vstd::prelude::*;

verus! {

/// Identity of one hosted zone as the provider reports it.
pub struct ZoneSummary {
    pub id: String,
    pub name: String,
}

/// DNS record type of a record set, with its provider-canonical symbolic name.
/// `Other` carries the symbolic name of a type this model does not list.
pub enum RecordTypeModel {
    A,
    Aaaa,
    Caa,
    Cname,
    Ds,
    Https,
    Mx,
    Naptr,
    Ns,
    Ptr,
    Soa,
    Spf,
    Srv,
    Sshfp,
    Svcb,
    Tlsa,
    Txt,
    Other(String),
}

impl RecordTypeModel {
    /// The canonical symbolic name of this record type.
    pub open spec fn as_text(&self) -> Seq<char> {
        match self {
            RecordTypeModel::A => "A"@,
            RecordTypeModel::Aaaa => "AAAA"@,
            RecordTypeModel::Caa => "CAA"@,
            RecordTypeModel::Cname => "CNAME"@,
            RecordTypeModel::Ds => "DS"@,
            RecordTypeModel::Https => "HTTPS"@,
            RecordTypeModel::Mx => "MX"@,
            RecordTypeModel::Naptr => "NAPTR"@,
            RecordTypeModel::Ns => "NS"@,
            RecordTypeModel::Ptr => "PTR"@,
            RecordTypeModel::Soa => "SOA"@,
            RecordTypeModel::Spf => "SPF"@,
            RecordTypeModel::Srv => "SRV"@,
            RecordTypeModel::Sshfp => "SSHFP"@,
            RecordTypeModel::Svcb => "SVCB"@,
            RecordTypeModel::Tlsa => "TLSA"@,
            RecordTypeModel::Txt => "TXT"@,
            RecordTypeModel::Other(s) => s@,
        }
    }

    /// Canonical symbolic name as an owned string.
    pub fn canonical(&self) -> (r: String)
        ensures
            r@ == self.as_text(),
    {
        match self {
            RecordTypeModel::A => "A".to_owned(),
            RecordTypeModel::Aaaa => "AAAA".to_owned(),
            RecordTypeModel::Caa => "CAA".to_owned(),
            RecordTypeModel::Cname => "CNAME".to_owned(),
            RecordTypeModel::Ds => "DS".to_owned(),
            RecordTypeModel::Https => "HTTPS".to_owned(),
            RecordTypeModel::Mx => "MX".to_owned(),
            RecordTypeModel::Naptr => "NAPTR".to_owned(),
            RecordTypeModel::Ns => "NS".to_owned(),
            RecordTypeModel::Ptr => "PTR".to_owned(),
            RecordTypeModel::Soa => "SOA".to_owned(),
            RecordTypeModel::Spf => "SPF".to_owned(),
            RecordTypeModel::Srv => "SRV".to_owned(),
            RecordTypeModel::Sshfp => "SSHFP".to_owned(),
            RecordTypeModel::Svcb => "SVCB".to_owned(),
            RecordTypeModel::Tlsa => "TLSA".to_owned(),
            RecordTypeModel::Txt => "TXT".to_owned(),
            RecordTypeModel::Other(s) => s.clone(),
        }
    }
}

/// Routing region of a latency record, with its provider-canonical name.
pub enum RegionModel {
    AfSouth1,
    ApEast1,
    ApEast2,
    ApNortheast1,
    ApNortheast2,
    ApNortheast3,
    ApSouth1,
    ApSouth2,
    ApSoutheast1,
    ApSoutheast2,
    ApSoutheast3,
    ApSoutheast4,
    ApSoutheast5,
    ApSoutheast6,
    ApSoutheast7,
    CaCentral1,
    CaWest1,
    CnNorth1,
    CnNorthwest1,
    EuCentral1,
    EuCentral2,
    EuNorth1,
    EuSouth1,
    EuSouth2,
    EuWest1,
    EuWest2,
    EuWest3,
    EuscDeEast1,
    IlCentral1,
    MeCentral1,
    MeSouth1,
    MxCentral1,
    SaEast1,
    UsEast1,
    UsEast2,
    UsGovEast1,
    UsGovWest1,
    UsWest1,
    UsWest2,
    Other(String),
}

impl RegionModel {
    /// The canonical region name.
    pub open spec fn as_text(&self) -> Seq<char> {
        match self {
            RegionModel::AfSouth1 => "af-south-1"@,
            RegionModel::ApEast1 => "ap-east-1"@,
            RegionModel::ApEast2 => "ap-east-2"@,
            RegionModel::ApNortheast1 => "ap-northeast-1"@,
            RegionModel::ApNortheast2 => "ap-northeast-2"@,
            RegionModel::ApNortheast3 => "ap-northeast-3"@,
            RegionModel::ApSouth1 => "ap-south-1"@,
            RegionModel::ApSouth2 => "ap-south-2"@,
            RegionModel::ApSoutheast1 => "ap-southeast-1"@,
            RegionModel::ApSoutheast2 => "ap-southeast-2"@,
            RegionModel::ApSoutheast3 => "ap-southeast-3"@,
            RegionModel::ApSoutheast4 => "ap-southeast-4"@,
            RegionModel::ApSoutheast5 => "ap-southeast-5"@,
            RegionModel::ApSoutheast6 => "ap-southeast-6"@,
            RegionModel::ApSoutheast7 => "ap-southeast-7"@,
            RegionModel::CaCentral1 => "ca-central-1"@,
            RegionModel::CaWest1 => "ca-west-1"@,
            RegionModel::CnNorth1 => "cn-north-1"@,
            RegionModel::CnNorthwest1 => "cn-northwest-1"@,
            RegionModel::EuCentral1 => "eu-central-1"@,
            RegionModel::EuCentral2 => "eu-central-2"@,
            RegionModel::EuNorth1 => "eu-north-1"@,
            RegionModel::EuSouth1 => "eu-south-1"@,
            RegionModel::EuSouth2 => "eu-south-2"@,
            RegionModel::EuWest1 => "eu-west-1"@,
            RegionModel::EuWest2 => "eu-west-2"@,
            RegionModel::EuWest3 => "eu-west-3"@,
            RegionModel::EuscDeEast1 => "eusc-de-east-1"@,
            RegionModel::IlCentral1 => "il-central-1"@,
            RegionModel::MeCentral1 => "me-central-1"@,
            RegionModel::MeSouth1 => "me-south-1"@,
            RegionModel::MxCentral1 => "mx-central-1"@,
            RegionModel::SaEast1 => "sa-east-1"@,
            RegionModel::UsEast1 => "us-east-1"@,
            RegionModel::UsEast2 => "us-east-2"@,
            RegionModel::UsGovEast1 => "us-gov-east-1"@,
            RegionModel::UsGovWest1 => "us-gov-west-1"@,
            RegionModel::UsWest1 => "us-west-1"@,
            RegionModel::UsWest2 => "us-west-2"@,
            RegionModel::Other(s) => s@,
        }
    }

    /// Canonical region name as an owned string.
    pub fn canonical(&self) -> (r: String)
        ensures
            r@ == self.as_text(),
    {
        match self {
            RegionModel::AfSouth1 => "af-south-1".to_owned(),
            RegionModel::ApEast1 => "ap-east-1".to_owned(),
            RegionModel::ApEast2 => "ap-east-2".to_owned(),
            RegionModel::ApNortheast1 => "ap-northeast-1".to_owned(),
            RegionModel::ApNortheast2 => "ap-northeast-2".to_owned(),
            RegionModel::ApNortheast3 => "ap-northeast-3".to_owned(),
            RegionModel::ApSouth1 => "ap-south-1".to_owned(),
            RegionModel::ApSouth2 => "ap-south-2".to_owned(),
            RegionModel::ApSoutheast1 => "ap-southeast-1".to_owned(),
            RegionModel::ApSoutheast2 => "ap-southeast-2".to_owned(),
            RegionModel::ApSoutheast3 => "ap-southeast-3".to_owned(),
            RegionModel::ApSoutheast4 => "ap-southeast-4".to_owned(),
            RegionModel::ApSoutheast5 => "ap-southeast-5".to_owned(),
            RegionModel::ApSoutheast6 => "ap-southeast-6".to_owned(),
            RegionModel::ApSoutheast7 => "ap-southeast-7".to_owned(),
            RegionModel::CaCentral1 => "ca-central-1".to_owned(),
            RegionModel::CaWest1 => "ca-west-1".to_owned(),
            RegionModel::CnNorth1 => "cn-north-1".to_owned(),
            RegionModel::CnNorthwest1 => "cn-northwest-1".to_owned(),
            RegionModel::EuCentral1 => "eu-central-1".to_owned(),
            RegionModel::EuCentral2 => "eu-central-2".to_owned(),
            RegionModel::EuNorth1 => "eu-north-1".to_owned(),
            RegionModel::EuSouth1 => "eu-south-1".to_owned(),
            RegionModel::EuSouth2 => "eu-south-2".to_owned(),
            RegionModel::EuWest1 => "eu-west-1".to_owned(),
            RegionModel::EuWest2 => "eu-west-2".to_owned(),
            RegionModel::EuWest3 => "eu-west-3".to_owned(),
            RegionModel::EuscDeEast1 => "eusc-de-east-1".to_owned(),
            RegionModel::IlCentral1 => "il-central-1".to_owned(),
            RegionModel::MeCentral1 => "me-central-1".to_owned(),
            RegionModel::MeSouth1 => "me-south-1".to_owned(),
            RegionModel::MxCentral1 => "mx-central-1".to_owned(),
            RegionModel::SaEast1 => "sa-east-1".to_owned(),
            RegionModel::UsEast1 => "us-east-1".to_owned(),
            RegionModel::UsEast2 => "us-east-2".to_owned(),
            RegionModel::UsGovEast1 => "us-gov-east-1".to_owned(),
            RegionModel::UsGovWest1 => "us-gov-west-1".to_owned(),
            RegionModel::UsWest1 => "us-west-1".to_owned(),
            RegionModel::UsWest2 => "us-west-2".to_owned(),
            RegionModel::Other(s) => s.clone(),
        }
    }
}

/// Failover role of a failover record.
pub enum FailoverModel {
    Primary,
    Secondary,
    Other(String),
}

impl FailoverModel {
    /// The canonical failover role name.
    pub open spec fn as_text(&self) -> Seq<char> {
        match self {
            FailoverModel::Primary => "PRIMARY"@,
            FailoverModel::Secondary => "SECONDARY"@,
            FailoverModel::Other(s) => s@,
        }
    }

    /// Canonical failover role name as an owned string.
    pub fn canonical(&self) -> (r: String)
        ensures
            r@ == self.as_text(),
    {
        match self {
            FailoverModel::Primary => "PRIMARY".to_owned(),
            FailoverModel::Secondary => "SECONDARY".to_owned(),
            FailoverModel::Other(s) => s.clone(),
        }
    }
}

/// Geographic location of a geolocation record.
pub struct GeoLocationModel {
    pub continent_code: Option<String>,
    pub country_code: Option<String>,
    pub subdivision_code: Option<String>,
}

/// One value of a record set.
pub struct ResourceRecordModel {
    pub value: String,
}

/// Target of an alias record.
pub struct AliasTargetModel {
    pub hosted_zone_id: String,
    pub dns_name: String,
    pub evaluate_target_health: bool,
}

/// CIDR collection routing of a record set.
pub struct CidrRoutingConfigModel {
    pub collection_id: String,
    pub location_name: String,
}

/// Geographic coordinates, kept as the provider's decimal strings.
pub struct CoordinatesModel {
    pub latitude: String,
    pub longitude: String,
}

/// Geoproximity routing of a record set.
pub struct GeoProximityLocationModel {
    pub aws_region: Option<String>,
    pub local_zone_group: Option<String>,
    pub coordinates: Option<CoordinatesModel>,
    pub bias: Option<i32>,
}

/// One resource record set as the provider reports it. Which optional
/// fields are populated implies the record's routing flavor; none of them
/// is given a default here.
pub struct ResourceRecordSetModel {
    pub name: String,
    pub record_type: RecordTypeModel,
    pub set_identifier: Option<String>,
    pub weight: Option<i64>,
    pub region: Option<RegionModel>,
    pub geo_location: Option<GeoLocationModel>,
    pub failover: Option<FailoverModel>,
    pub multi_value_answer: Option<bool>,
    pub ttl: Option<i64>,
    pub resource_records: Option<Vec<ResourceRecordModel>>,
    pub alias_target: Option<AliasTargetModel>,
    pub health_check_id: Option<String>,
    pub traffic_policy_instance_id: Option<String>,
    pub cidr_routing_config: Option<CidrRoutingConfigModel>,
    pub geo_proximity_location: Option<GeoProximityLocationModel>,
}

} // verus!
