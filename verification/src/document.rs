use vstd::prelude::*;

use crate::export::HostedZoneExport;
use crate::export::ResourceRecordSet;
use crate::export::geo_proximity_location_maps;
use crate::export::record_set_maps;
use crate::model::AliasTargetModel;
use crate::model::CidrRoutingConfigModel;
use crate::model::CoordinatesModel;
use crate::model::GeoLocationModel;
use crate::model::GeoProximityLocationModel;
use crate::model::ResourceRecordSetModel;

verus! {

// ---------------------------------------------------------------------------
// The JSON document as a mathematical value: what the export file holds once
// its text is read back. `record_set_entries` gives the document a provider
// record set must turn into; `record_set_doc` gives the document an export
// value actually serializes to. The lemmas below tie the two together and
// show that each key of the document reads back to exactly the source field.
// ---------------------------------------------------------------------------

/// One JSON value.
#[verifier::ext_equal]
pub enum JsonNode {
    Null,
    Bool(bool),
    Int(int),
    Text(Seq<char>),
    Array(Seq<JsonNode>),
    Object(Seq<(Seq<char>, JsonNode)>),
}

/// Read a key from an object's entries, scanning from position `i`: the
/// value of the first entry whose key matches, or nothing when none does.
pub open spec fn obj_entry_from(
    entries: Seq<(Seq<char>, JsonNode)>,
    key: Seq<char>,
    i: int,
) -> Option<JsonNode>
    decreases entries.len() - i,
{
    if i < 0 || i >= entries.len() {
        Option::None
    } else if entries[i].0 == key {
        Option::Some(entries[i].1)
    } else {
        obj_entry_from(entries, key, i + 1)
    }
}

/// Read a key from an object's entries: the value of the first entry whose
/// key matches, or nothing when no entry does.
pub open spec fn obj_entry(entries: Seq<(Seq<char>, JsonNode)>, key: Seq<char>) -> Option<
    JsonNode,
> {
    obj_entry_from(entries, key, 0)
}

/// The node of an optional string: its text, or null when absent.
pub open spec fn opt_str_node(v: Option<String>) -> JsonNode {
    match v {
        Option::Some(s) => JsonNode::Text(s@),
        Option::None => JsonNode::Null,
    }
}

/// The node of an optional 64-bit integer.
pub open spec fn opt_i64_node(v: Option<i64>) -> JsonNode {
    match v {
        Option::Some(n) => JsonNode::Int(n as int),
        Option::None => JsonNode::Null,
    }
}

/// The node of an optional 32-bit integer.
pub open spec fn opt_i32_node(v: Option<i32>) -> JsonNode {
    match v {
        Option::Some(n) => JsonNode::Int(n as int),
        Option::None => JsonNode::Null,
    }
}

/// The node of an optional boolean.
pub open spec fn opt_bool_node(v: Option<bool>) -> JsonNode {
    match v {
        Option::Some(b) => JsonNode::Bool(b),
        Option::None => JsonNode::Null,
    }
}


/// A mapped geoproximity location's document entries match those its
/// provider value dictates.
proof fn lemma_geoprox_doc(g: GeoProximityLocationModel, eg: crate::export::GeoProximityLocation)
    requires
        geo_proximity_location_maps(g, eg),
    ensures
        JsonNode::Object(
            seq![
                ("aws_region"@, opt_str_node(eg.aws_region)),
                ("local_zone_group"@, opt_str_node(eg.local_zone_group)),
                (
                    "coordinates"@,
                    match eg.coordinates {
                        Option::Some(c) => JsonNode::Object(
                            seq![
                                ("latitude"@, JsonNode::Text(c.latitude@)),
                                ("longitude"@, JsonNode::Text(c.longitude@)),
                            ],
                        ),
                        Option::None => JsonNode::Null,
                    },
                ),
                ("bias"@, opt_i32_node(eg.bias)),
            ],
        ) == geoprox_node(g),
{
    match (g.coordinates, eg.coordinates) {
        (Option::Some(c), Option::Some(ec)) => {
            assert(ec.latitude@ == c.latitude@);
            assert(ec.longitude@ == c.longitude@);
        },
        _ => {},
    }
    let a = seq![
        ("aws_region"@, opt_str_node(eg.aws_region)),
        ("local_zone_group"@, opt_str_node(eg.local_zone_group)),
        (
            "coordinates"@,
            match eg.coordinates {
                Option::Some(c) => JsonNode::Object(
                    seq![
                        ("latitude"@, JsonNode::Text(c.latitude@)),
                        ("longitude"@, JsonNode::Text(c.longitude@)),
                    ],
                ),
                Option::None => JsonNode::Null,
            },
        ),
        ("bias"@, opt_i32_node(eg.bias)),
    ];
    let b = seq![
        ("aws_region"@, opt_str_node(g.aws_region)),
        ("local_zone_group"@, opt_str_node(g.local_zone_group)),
        (
            "coordinates"@,
            match g.coordinates {
                Option::Some(c) => coords_node(c),
                Option::None => JsonNode::Null,
            },
        ),
        ("bias"@, opt_i32_node(g.bias)),
    ];
    assert(a[0] == b[0]);
    assert(a[1] == b[1]);
    assert(a[2] == b[2]);
    assert(a[3] == b[3]);
    assert forall|i: int| 0 <= i < 4 implies a[i] == b[i] by {
        if i == 0 {
        } else if i == 1 {
        } else if i == 2 {
        } else {
        }
    }
    assert(a =~= b);
    assert(geoprox_node(g) == JsonNode::Object(b));
}

/// The document a provider geolocation must turn into.
pub open spec fn geo_node(g: GeoLocationModel) -> JsonNode {
    JsonNode::Object(
        seq![
            ("continent_code"@, opt_str_node(g.continent_code)),
            ("country_code"@, opt_str_node(g.country_code)),
            ("subdivision_code"@, opt_str_node(g.subdivision_code)),
        ],
    )
}

/// The document a provider alias target must turn into.
pub open spec fn alias_node(a: AliasTargetModel) -> JsonNode {
    JsonNode::Object(
        seq![
            ("hosted_zone_id"@, JsonNode::Text(a.hosted_zone_id@)),
            ("dns_name"@, JsonNode::Text(a.dns_name@)),
            ("evaluate_target_health"@, JsonNode::Bool(a.evaluate_target_health)),
        ],
    )
}

/// The document a provider CIDR routing configuration must turn into.
pub open spec fn cidr_node(c: CidrRoutingConfigModel) -> JsonNode {
    JsonNode::Object(
        seq![
            ("collection_id"@, JsonNode::Text(c.collection_id@)),
            ("location_name"@, JsonNode::Text(c.location_name@)),
        ],
    )
}

/// The document provider coordinates must turn into: the decimal strings
/// kept exactly as strings.
pub open spec fn coords_node(c: CoordinatesModel) -> JsonNode {
    JsonNode::Object(
        seq![
            ("latitude"@, JsonNode::Text(c.latitude@)),
            ("longitude"@, JsonNode::Text(c.longitude@)),
        ],
    )
}

/// The document a provider geoproximity location must turn into.
pub open spec fn geoprox_node(g: GeoProximityLocationModel) -> JsonNode {
    JsonNode::Object(
        seq![
            ("aws_region"@, opt_str_node(g.aws_region)),
            ("local_zone_group"@, opt_str_node(g.local_zone_group)),
            (
                "coordinates"@,
                match g.coordinates {
                    Option::Some(c) => coords_node(c),
                    Option::None => JsonNode::Null,
                },
            ),
            ("bias"@, opt_i32_node(g.bias)),
        ],
    )
}

/// The document node of one provider record value.
pub open spec fn rr_node(r: crate::model::ResourceRecordModel) -> JsonNode {
    JsonNode::Object(seq![("value"@, JsonNode::Text(r.value@))])
}

/// The document nodes of a provider record-value list, in source order.
pub open spec fn rr_nodes(rs: Seq<crate::model::ResourceRecordModel>) -> Seq<JsonNode>
    decreases rs.len(),
{
    if rs.len() == 0 {
        Seq::empty()
    } else {
        rr_nodes(rs.drop_last()).push(rr_node(rs.last()))
    }
}

/// The document node of one export record value.
pub open spec fn rr_node_doc(r: crate::export::ResourceRecord) -> JsonNode {
    JsonNode::Object(seq![("value"@, JsonNode::Text(r.value@))])
}

/// The document nodes of an export record-value list, in source order.
pub open spec fn rr_nodes_doc(rs: Seq<crate::export::ResourceRecord>) -> Seq<JsonNode>
    decreases rs.len(),
{
    if rs.len() == 0 {
        Seq::empty()
    } else {
        rr_nodes_doc(rs.drop_last()).push(rr_node_doc(rs.last()))
    }
}

/// The entries of the document a provider record set must turn into: all
/// fifteen keys in schema order, enumeration fields as their canonical
/// names, every absent optional field as null.
pub open spec fn record_set_entries(m: ResourceRecordSetModel) -> Seq<(Seq<char>, JsonNode)> {
    seq![
        ("name"@, JsonNode::Text(m.name@)),
        ("type"@, JsonNode::Text(m.record_type.as_text())),
        ("set_identifier"@, opt_str_node(m.set_identifier)),
        ("weight"@, opt_i64_node(m.weight)),
        (
            "region"@,
            match m.region {
                Option::Some(r) => JsonNode::Text(r.as_text()),
                Option::None => JsonNode::Null,
            },
        ),
        (
            "geo_location"@,
            match m.geo_location {
                Option::Some(g) => geo_node(g),
                Option::None => JsonNode::Null,
            },
        ),
        (
            "failover"@,
            match m.failover {
                Option::Some(f) => JsonNode::Text(f.as_text()),
                Option::None => JsonNode::Null,
            },
        ),
        ("multi_value_answer"@, opt_bool_node(m.multi_value_answer)),
        ("ttl"@, opt_i64_node(m.ttl)),
        (
            "resource_records"@,
            match m.resource_records {
                Option::Some(rs) => JsonNode::Array(rr_nodes(rs@)),
                Option::None => JsonNode::Null,
            },
        ),
        (
            "alias_target"@,
            match m.alias_target {
                Option::Some(a) => alias_node(a),
                Option::None => JsonNode::Null,
            },
        ),
        ("health_check_id"@, opt_str_node(m.health_check_id)),
        ("traffic_policy_instance_id"@, opt_str_node(m.traffic_policy_instance_id)),
        (
            "cidr_routing_config"@,
            match m.cidr_routing_config {
                Option::Some(c) => cidr_node(c),
                Option::None => JsonNode::Null,
            },
        ),
        (
            "geo_proximity_location"@,
            match m.geo_proximity_location {
                Option::Some(g) => geoprox_node(g),
                Option::None => JsonNode::Null,
            },
        ),
    ]
}

/// The document an export record set serializes to, built from the export
/// value itself.
pub open spec fn record_set_doc(e: ResourceRecordSet) -> Seq<(Seq<char>, JsonNode)> {
    seq![
        ("name"@, JsonNode::Text(e.name@)),
        ("type"@, JsonNode::Text(e.record_type@)),
        ("set_identifier"@, opt_str_node(e.set_identifier)),
        ("weight"@, opt_i64_node(e.weight)),
        ("region"@, opt_str_node(e.region)),
        (
            "geo_location"@,
            match e.geo_location {
                Option::Some(g) => JsonNode::Object(
                    seq![
                        ("continent_code"@, opt_str_node(g.continent_code)),
                        ("country_code"@, opt_str_node(g.country_code)),
                        ("subdivision_code"@, opt_str_node(g.subdivision_code)),
                    ],
                ),
                Option::None => JsonNode::Null,
            },
        ),
        ("failover"@, opt_str_node(e.failover)),
        ("multi_value_answer"@, opt_bool_node(e.multi_value_answer)),
        ("ttl"@, opt_i64_node(e.ttl)),
        (
            "resource_records"@,
            match e.resource_records {
                Option::Some(rs) => JsonNode::Array(rr_nodes_doc(rs@)),
                Option::None => JsonNode::Null,
            },
        ),
        (
            "alias_target"@,
            match e.alias_target {
                Option::Some(a) => JsonNode::Object(
                    seq![
                        ("hosted_zone_id"@, JsonNode::Text(a.hosted_zone_id@)),
                        ("dns_name"@, JsonNode::Text(a.dns_name@)),
                        ("evaluate_target_health"@, JsonNode::Bool(a.evaluate_target_health)),
                    ],
                ),
                Option::None => JsonNode::Null,
            },
        ),
        ("health_check_id"@, opt_str_node(e.health_check_id)),
        ("traffic_policy_instance_id"@, opt_str_node(e.traffic_policy_instance_id)),
        (
            "cidr_routing_config"@,
            match e.cidr_routing_config {
                Option::Some(c) => JsonNode::Object(
                    seq![
                        ("collection_id"@, JsonNode::Text(c.collection_id@)),
                        ("location_name"@, JsonNode::Text(c.location_name@)),
                    ],
                ),
                Option::None => JsonNode::Null,
            },
        ),
        (
            "geo_proximity_location"@,
            match e.geo_proximity_location {
                Option::Some(g) => JsonNode::Object(
                    seq![
                        ("aws_region"@, opt_str_node(g.aws_region)),
                        ("local_zone_group"@, opt_str_node(g.local_zone_group)),
                        (
                            "coordinates"@,
                            match g.coordinates {
                                Option::Some(c) => JsonNode::Object(
                                    seq![
                                        ("latitude"@, JsonNode::Text(c.latitude@)),
                                        ("longitude"@, JsonNode::Text(c.longitude@)),
                                    ],
                                ),
                                Option::None => JsonNode::Null,
                            },
                        ),
                        ("bias"@, opt_i32_node(g.bias)),
                    ],
                ),
                Option::None => JsonNode::Null,
            },
        ),
    ]
}

/// A mapped record-value list has the document nodes its provider list
/// dictates, in the same order.
proof fn lemma_rr_nodes(
    ms: Seq<crate::model::ResourceRecordModel>,
    es: Seq<crate::export::ResourceRecord>,
)
    requires
        es.len() == ms.len(),
        forall|i: int| 0 <= i < ms.len() ==> (#[trigger] es[i]).value == ms[i].value,
    ensures
        rr_nodes_doc(es) == rr_nodes(ms),
    decreases ms.len(),
{
    if ms.len() > 0 {
        lemma_rr_nodes(ms.drop_last(), es.drop_last());
        assert(es.last().value == ms.last().value);
    }
}

/// Law: the document of a mapped record set is exactly the document its
/// provider record set dictates — every present field's value is preserved
/// exactly, and every absent optional field appears as null.
#[verifier::rlimit(100)]
pub proof fn lemma_record_set_document(m: ResourceRecordSetModel, e: ResourceRecordSet)
    requires
        record_set_maps(m, e),
    ensures
        record_set_doc(e) == record_set_entries(m),
{
    match (m.resource_records, e.resource_records) {
        (Option::Some(rs), Option::Some(ers)) => {
            lemma_rr_nodes(rs@, ers@);
        },
        _ => {},
    }
    match (m.geo_proximity_location, e.geo_proximity_location) {
        (Option::Some(g), Option::Some(eg)) => {
            lemma_geoprox_doc(g, eg);
        },
        _ => {},
    }
    // The entry sequences only compare index by index once the index is
    // pinned to a concrete position.
    assert forall|i: int| 0 <= i < record_set_doc(e).len() implies record_set_doc(e)[i]
        == record_set_entries(m)[i] by {
        if i == 0 {
            assert(record_set_doc(e)[0] == record_set_entries(m)[0]);
        } else if i == 1 {
            assert(record_set_doc(e)[1] == record_set_entries(m)[1]);
        } else if i == 2 {
            assert(record_set_doc(e)[2] == record_set_entries(m)[2]);
        } else if i == 3 {
            assert(record_set_doc(e)[3] == record_set_entries(m)[3]);
        } else if i == 4 {
            assert(record_set_doc(e)[4] == record_set_entries(m)[4]);
        } else if i == 5 {
            assert(record_set_doc(e)[5] == record_set_entries(m)[5]);
        } else if i == 6 {
            assert(record_set_doc(e)[6] == record_set_entries(m)[6]);
        } else if i == 7 {
            assert(record_set_doc(e)[7] == record_set_entries(m)[7]);
        } else if i == 8 {
            assert(record_set_doc(e)[8] == record_set_entries(m)[8]);
        } else if i == 9 {
            assert(record_set_doc(e)[9] == record_set_entries(m)[9]);
        } else if i == 10 {
            assert(record_set_doc(e)[10] == record_set_entries(m)[10]);
        } else if i == 11 {
            assert(record_set_doc(e)[11] == record_set_entries(m)[11]);
        } else if i == 12 {
            assert(record_set_doc(e)[12] == record_set_entries(m)[12]);
        } else if i == 13 {
            assert(record_set_doc(e)[13] == record_set_entries(m)[13]);
        } else {
            assert(record_set_doc(e)[14] == record_set_entries(m)[14]);
        }
    }
    assert(record_set_doc(e) =~= record_set_entries(m));
}

/// Law: reading each of the fifteen keys back from a record set's document
/// yields exactly the source field — its value when present, null when
/// absent. With `lemma_record_set_document`, mapping and then re-reading
/// the JSON output preserves every field.
pub proof fn lemma_record_set_read_back(m: ResourceRecordSetModel)
    ensures
        obj_entry(record_set_entries(m), "name"@) == Some(JsonNode::Text(m.name@)),
        obj_entry(record_set_entries(m), "type"@) == Some(
            JsonNode::Text(m.record_type.as_text()),
        ),
        obj_entry(record_set_entries(m), "set_identifier"@) == Some(
            opt_str_node(m.set_identifier),
        ),
        obj_entry(record_set_entries(m), "weight"@) == Some(opt_i64_node(m.weight)),
        obj_entry(record_set_entries(m), "region"@) == Some(
            match m.region {
                Option::Some(r) => JsonNode::Text(r.as_text()),
                Option::None => JsonNode::Null,
            },
        ),
        obj_entry(record_set_entries(m), "geo_location"@) == Some(
            match m.geo_location {
                Option::Some(g) => geo_node(g),
                Option::None => JsonNode::Null,
            },
        ),
        obj_entry(record_set_entries(m), "failover"@) == Some(
            match m.failover {
                Option::Some(f) => JsonNode::Text(f.as_text()),
                Option::None => JsonNode::Null,
            },
        ),
        obj_entry(record_set_entries(m), "multi_value_answer"@) == Some(
            opt_bool_node(m.multi_value_answer),
        ),
        obj_entry(record_set_entries(m), "ttl"@) == Some(opt_i64_node(m.ttl)),
        obj_entry(record_set_entries(m), "resource_records"@) == Some(
            match m.resource_records {
                Option::Some(rs) => JsonNode::Array(rr_nodes(rs@)),
                Option::None => JsonNode::Null,
            },
        ),
        obj_entry(record_set_entries(m), "alias_target"@) == Some(
            match m.alias_target {
                Option::Some(a) => alias_node(a),
                Option::None => JsonNode::Null,
            },
        ),
        obj_entry(record_set_entries(m), "health_check_id"@) == Some(
            opt_str_node(m.health_check_id),
        ),
        obj_entry(record_set_entries(m), "traffic_policy_instance_id"@) == Some(
            opt_str_node(m.traffic_policy_instance_id),
        ),
        obj_entry(record_set_entries(m), "cidr_routing_config"@) == Some(
            match m.cidr_routing_config {
                Option::Some(c) => cidr_node(c),
                Option::None => JsonNode::Null,
            },
        ),
        obj_entry(record_set_entries(m), "geo_proximity_location"@) == Some(
            match m.geo_proximity_location {
                Option::Some(g) => geoprox_node(g),
                Option::None => JsonNode::Null,
            },
        ),
{
    // Each key literal's length and first character: the scans below must
    // tell every key apart.
    reveal_strlit("name");
    reveal_strlit("type");
    reveal_strlit("set_identifier");
    reveal_strlit("weight");
    reveal_strlit("region");
    reveal_strlit("geo_location");
    reveal_strlit("failover");
    reveal_strlit("multi_value_answer");
    reveal_strlit("ttl");
    reveal_strlit("resource_records");
    reveal_strlit("alias_target");
    reveal_strlit("health_check_id");
    reveal_strlit("traffic_policy_instance_id");
    reveal_strlit("cidr_routing_config");
    reveal_strlit("geo_proximity_location");
    assert("name"@.len() == 4);
    assert("name"@[0] == 'n');
    assert("type"@.len() == 4);
    assert("type"@[0] == 't');
    assert("set_identifier"@.len() == 14);
    assert("set_identifier"@[0] == 's');
    assert("weight"@.len() == 6);
    assert("weight"@[0] == 'w');
    assert("region"@.len() == 6);
    assert("region"@[0] == 'r');
    assert("geo_location"@.len() == 12);
    assert("geo_location"@[0] == 'g');
    assert("failover"@.len() == 8);
    assert("failover"@[0] == 'f');
    assert("multi_value_answer"@.len() == 18);
    assert("multi_value_answer"@[0] == 'm');
    assert("ttl"@.len() == 3);
    assert("ttl"@[0] == 't');
    assert("resource_records"@.len() == 16);
    assert("resource_records"@[0] == 'r');
    assert("alias_target"@.len() == 12);
    assert("alias_target"@[0] == 'a');
    assert("health_check_id"@.len() == 15);
    assert("health_check_id"@[0] == 'h');
    assert("traffic_policy_instance_id"@.len() == 26);
    assert("traffic_policy_instance_id"@[0] == 't');
    assert("cidr_routing_config"@.len() == 19);
    assert("cidr_routing_config"@[0] == 'c');
    assert("geo_proximity_location"@.len() == 22);
    assert("geo_proximity_location"@[0] == 'g');
    reveal_with_fuel(obj_entry_from, 17);
}

/// The documents of a list of export record sets, in order.
pub open spec fn record_set_docs(es: Seq<ResourceRecordSet>) -> Seq<JsonNode>
    decreases es.len(),
{
    if es.len() == 0 {
        Seq::empty()
    } else {
        record_set_docs(es.drop_last()).push(JsonNode::Object(record_set_doc(es.last())))
    }
}

/// The documents a list of provider record sets must turn into, in order.
pub open spec fn record_set_nodes(ms: Seq<ResourceRecordSetModel>) -> Seq<JsonNode>
    decreases ms.len(),
{
    if ms.len() == 0 {
        Seq::empty()
    } else {
        record_set_nodes(ms.drop_last()).push(JsonNode::Object(record_set_entries(ms.last())))
    }
}

/// The document a zone export serializes to.
pub open spec fn zone_doc(z: HostedZoneExport) -> Seq<(Seq<char>, JsonNode)> {
    seq![
        ("id"@, JsonNode::Text(z.id@)),
        ("name"@, JsonNode::Text(z.name@)),
        ("record_sets"@, JsonNode::Array(record_set_docs(z.record_sets@))),
    ]
}

/// A list of mapped record sets has the documents its provider record sets
/// dictate, in the same order.
proof fn lemma_record_set_docs(ms: Seq<ResourceRecordSetModel>, es: Seq<ResourceRecordSet>)
    requires
        es.len() == ms.len(),
        forall|i: int| 0 <= i < ms.len() ==> record_set_maps(ms[i], #[trigger] es[i]),
    ensures
        record_set_docs(es) == record_set_nodes(ms),
    decreases ms.len(),
{
    if ms.len() > 0 {
        lemma_record_set_docs(ms.drop_last(), es.drop_last());
        lemma_record_set_document(ms.last(), es.last());
    }
}

/// Law: the document of a zone export built from provider record sets holds
/// the zone's identity and one record-set document per provider record set,
/// in the provider's order.
pub proof fn lemma_zone_document(ms: Seq<ResourceRecordSetModel>, z: HostedZoneExport)
    requires
        z.record_sets@.len() == ms.len(),
        forall|i: int| 0 <= i < ms.len() ==> record_set_maps(ms[i], #[trigger] z.record_sets@[i]),
    ensures
        zone_doc(z) == seq![
            ("id"@, JsonNode::Text(z.id@)),
            ("name"@, JsonNode::Text(z.name@)),
            ("record_sets"@, JsonNode::Array(record_set_nodes(ms))),
        ],
{
    lemma_record_set_docs(ms, z.record_sets@);
    assert(zone_doc(z) =~~= seq![
        ("id"@, JsonNode::Text(z.id@)),
        ("name"@, JsonNode::Text(z.name@)),
        ("record_sets"@, JsonNode::Array(record_set_nodes(ms))),
    ]);
}

} // verus!
