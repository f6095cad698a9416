use vstd::prelude::*;

use crate::export::AliasTarget;
use crate::export::CidrRoutingConfig;
use crate::export::Coordinates;
use crate::export::GeoLocation;
use crate::export::GeoProximityLocation;
use crate::export::HostedZoneExport;
use crate::export::ResourceRecord;
use crate::export::ResourceRecordSet;

verus! {

broadcast use vstd::seq::Seq::add_empty_left;

// ---------------------------------------------------------------------------
// The text of the export file, as mathematics: every function below gives the
// exact character sequence a value serializes to. Objects and arrays are
// pretty-printed with two-space indentation; `ind` is the column at which a
// value's closing bracket stands.
// ---------------------------------------------------------------------------

/// `n` space characters.
pub open spec fn spaces(n: nat) -> Seq<char>
    decreases n,
{
    if n == 0 {
        Seq::empty()
    } else {
        spaces((n - 1) as nat) + seq![' ']
    }
}

/// The lower-case hexadecimal digit of a value below 16.
pub open spec fn hex_digit(d: nat) -> char {
    if d == 0 { '0' } else if d == 1 { '1' } else if d == 2 { '2' } else if d == 3 { '3' }
    else if d == 4 { '4' } else if d == 5 { '5' } else if d == 6 { '6' } else if d == 7 { '7' }
    else if d == 8 { '8' } else if d == 9 { '9' } else if d == 10 { 'a' } else if d == 11 { 'b' }
    else if d == 12 { 'c' } else if d == 13 { 'd' } else if d == 14 { 'e' } else { 'f' }
}

/// The decimal digit of a value below 10.
pub open spec fn digit_char(d: nat) -> char {
    if d == 0 { '0' } else if d == 1 { '1' } else if d == 2 { '2' } else if d == 3 { '3' }
    else if d == 4 { '4' } else if d == 5 { '5' } else if d == 6 { '6' } else if d == 7 { '7' }
    else if d == 8 { '8' } else { '9' }
}

/// Decimal digits of a natural number, most significant first.
pub open spec fn dec_digits(n: nat) -> Seq<char>
    decreases n,
{
    if n < 10 {
        seq![digit_char(n)]
    } else {
        dec_digits(n / 10) + seq![digit_char(n % 10)]
    }
}

/// Decimal text of an integer: a minus sign for negatives, then digits.
pub open spec fn int_text(i: int) -> Seq<char> {
    if i < 0 {
        seq!['-'] + dec_digits((-i) as nat)
    } else {
        dec_digits(i as nat)
    }
}

/// How one character appears inside a JSON string: quote, backslash and the
/// named control characters take a two-character escape, other control
/// characters a `\u00` escape, and everything else stands for itself.
pub open spec fn escaped_char(c: char) -> Seq<char> {
    if c == '"' {
        seq!['\\', '"']
    } else if c == '\\' {
        seq!['\\', '\\']
    } else if c == '\u{8}' {
        seq!['\\', 'b']
    } else if c == '\t' {
        seq!['\\', 't']
    } else if c == '\n' {
        seq!['\\', 'n']
    } else if c == '\u{c}' {
        seq!['\\', 'f']
    } else if c == '\r' {
        seq!['\\', 'r']
    } else if (c as u32) < 0x20 {
        seq!['\\', 'u', '0', '0', hex_digit((c as u32 / 16) as nat), hex_digit((c as u32 % 16) as nat)]
    } else {
        seq![c]
    }
}

/// A string's characters with each one escaped.
pub open spec fn escaped(s: Seq<char>) -> Seq<char>
    decreases s.len(),
{
    if s.len() == 0 {
        Seq::empty()
    } else {
        escaped(s.drop_last()) + escaped_char(s.last())
    }
}

/// A JSON string: the escaped characters between double quotes.
pub open spec fn quoted(s: Seq<char>) -> Seq<char> {
    seq!['"'] + escaped(s) + seq!['"']
}

/// Text of a boolean.
pub open spec fn bool_text(b: bool) -> Seq<char> {
    if b {
        "true"@
    } else {
        "false"@
    }
}

/// Text of an optional string: its quoted form, or `null` when absent.
pub open spec fn opt_str_text(v: Option<String>) -> Seq<char> {
    match v {
        Option::Some(s) => quoted(s@),
        Option::None => "null"@,
    }
}

/// Text of an optional 64-bit integer, `null` when absent.
pub open spec fn opt_i64_text(v: Option<i64>) -> Seq<char> {
    match v {
        Option::Some(n) => int_text(n as int),
        Option::None => "null"@,
    }
}

/// Text of an optional 32-bit integer, `null` when absent.
pub open spec fn opt_i32_text(v: Option<i32>) -> Seq<char> {
    match v {
        Option::Some(n) => int_text(n as int),
        Option::None => "null"@,
    }
}

/// Text of an optional boolean, `null` when absent.
pub open spec fn opt_bool_text(v: Option<bool>) -> Seq<char> {
    match v {
        Option::Some(b) => bool_text(b),
        Option::None => "null"@,
    }
}

/// Text of a geolocation object.
pub open spec fn geo_text(g: GeoLocation, ind: nat) -> Seq<char> {
    "{\n"@ + spaces(ind + 2) + "\"continent_code\": "@ + opt_str_text(g.continent_code) + ",\n"@
        + spaces(ind + 2) + "\"country_code\": "@ + opt_str_text(g.country_code) + ",\n"@
        + spaces(ind + 2) + "\"subdivision_code\": "@ + opt_str_text(g.subdivision_code) + "\n"@
        + spaces(ind) + "}"@
}

/// Text of an alias-target object.
pub open spec fn alias_text(a: AliasTarget, ind: nat) -> Seq<char> {
    "{\n"@ + spaces(ind + 2) + "\"hosted_zone_id\": "@ + quoted(a.hosted_zone_id@) + ",\n"@
        + spaces(ind + 2) + "\"dns_name\": "@ + quoted(a.dns_name@) + ",\n"@
        + spaces(ind + 2) + "\"evaluate_target_health\": "@ + bool_text(a.evaluate_target_health)
        + "\n"@ + spaces(ind) + "}"@
}

/// Text of a CIDR-routing object.
pub open spec fn cidr_text(c: CidrRoutingConfig, ind: nat) -> Seq<char> {
    "{\n"@ + spaces(ind + 2) + "\"collection_id\": "@ + quoted(c.collection_id@) + ",\n"@
        + spaces(ind + 2) + "\"location_name\": "@ + quoted(c.location_name@) + "\n"@
        + spaces(ind) + "}"@
}

/// Text of a coordinates object.
pub open spec fn coords_text(c: Coordinates, ind: nat) -> Seq<char> {
    "{\n"@ + spaces(ind + 2) + "\"latitude\": "@ + quoted(c.latitude@) + ",\n"@
        + spaces(ind + 2) + "\"longitude\": "@ + quoted(c.longitude@) + "\n"@
        + spaces(ind) + "}"@
}

/// Text of a geoproximity object.
pub open spec fn geoprox_text(g: GeoProximityLocation, ind: nat) -> Seq<char> {
    "{\n"@ + spaces(ind + 2) + "\"aws_region\": "@ + opt_str_text(g.aws_region) + ",\n"@
        + spaces(ind + 2) + "\"local_zone_group\": "@ + opt_str_text(g.local_zone_group) + ",\n"@
        + spaces(ind + 2) + "\"coordinates\": "@ + (match g.coordinates {
        Option::Some(c) => coords_text(c, ind + 2),
        Option::None => "null"@,
    }) + ",\n"@ + spaces(ind + 2) + "\"bias\": "@ + opt_i32_text(g.bias) + "\n"@ + spaces(ind)
        + "}"@
}

/// Text of one record value object.
pub open spec fn rr_text(r: ResourceRecord, ind: nat) -> Seq<char> {
    "{\n"@ + spaces(ind + 2) + "\"value\": "@ + quoted(r.value@) + "\n"@ + spaces(ind) + "}"@
}

/// Text of the items of a record-value array, comma-separated, each on its
/// own line at indent `ind`, in sequence order.
pub open spec fn rr_items(rs: Seq<ResourceRecord>, ind: nat) -> Seq<char>
    decreases rs.len(),
{
    if rs.len() == 0 {
        Seq::empty()
    } else if rs.len() == 1 {
        spaces(ind) + rr_text(rs[0], ind)
    } else {
        rr_items(rs.drop_last(), ind) + ",\n"@ + spaces(ind) + rr_text(rs.last(), ind)
    }
}

/// Text of a record-value array.
pub open spec fn rr_list_text(rs: Seq<ResourceRecord>, ind: nat) -> Seq<char> {
    if rs.len() == 0 {
        "[]"@
    } else {
        "[\n"@ + rr_items(rs, ind + 2) + "\n"@ + spaces(ind) + "]"@
    }
}

/// Text of one record set object: all fifteen keys in schema order, absent
/// optional fields as `null`.
pub open spec fn record_set_text(rs: ResourceRecordSet, ind: nat) -> Seq<char> {
    "{\n"@ + spaces(ind + 2) + "\"name\": "@ + quoted(rs.name@) + ",\n"@
        + spaces(ind + 2) + "\"type\": "@ + quoted(rs.record_type@) + ",\n"@
        + spaces(ind + 2) + "\"set_identifier\": "@ + opt_str_text(rs.set_identifier) + ",\n"@
        + spaces(ind + 2) + "\"weight\": "@ + opt_i64_text(rs.weight) + ",\n"@
        + spaces(ind + 2) + "\"region\": "@ + opt_str_text(rs.region) + ",\n"@
        + spaces(ind + 2) + "\"geo_location\": "@ + (match rs.geo_location {
        Option::Some(g) => geo_text(g, ind + 2),
        Option::None => "null"@,
    }) + ",\n"@ + spaces(ind + 2) + "\"failover\": "@ + opt_str_text(rs.failover) + ",\n"@
        + spaces(ind + 2) + "\"multi_value_answer\": "@ + opt_bool_text(rs.multi_value_answer)
        + ",\n"@ + spaces(ind + 2) + "\"ttl\": "@ + opt_i64_text(rs.ttl) + ",\n"@
        + spaces(ind + 2) + "\"resource_records\": "@ + (match rs.resource_records {
        Option::Some(v) => rr_list_text(v@, ind + 2),
        Option::None => "null"@,
    }) + ",\n"@ + spaces(ind + 2) + "\"alias_target\": "@ + (match rs.alias_target {
        Option::Some(a) => alias_text(a, ind + 2),
        Option::None => "null"@,
    }) + ",\n"@ + spaces(ind + 2) + "\"health_check_id\": "@ + opt_str_text(rs.health_check_id)
        + ",\n"@ + spaces(ind + 2) + "\"traffic_policy_instance_id\": "@ + opt_str_text(
        rs.traffic_policy_instance_id,
    ) + ",\n"@ + spaces(ind + 2) + "\"cidr_routing_config\": "@ + (match rs.cidr_routing_config {
        Option::Some(c) => cidr_text(c, ind + 2),
        Option::None => "null"@,
    }) + ",\n"@ + spaces(ind + 2) + "\"geo_proximity_location\": "@ + (match rs
        .geo_proximity_location {
        Option::Some(g) => geoprox_text(g, ind + 2),
        Option::None => "null"@,
    }) + "\n"@ + spaces(ind) + "}"@
}

/// Text of the items of a record-set array, in sequence order.
pub open spec fn record_set_items(rs: Seq<ResourceRecordSet>, ind: nat) -> Seq<char>
    decreases rs.len(),
{
    if rs.len() == 0 {
        Seq::empty()
    } else if rs.len() == 1 {
        spaces(ind) + record_set_text(rs[0], ind)
    } else {
        record_set_items(rs.drop_last(), ind) + ",\n"@ + spaces(ind) + record_set_text(
            rs.last(),
            ind,
        )
    }
}

/// Text of a record-set array.
pub open spec fn record_set_list_text(rs: Seq<ResourceRecordSet>, ind: nat) -> Seq<char> {
    if rs.len() == 0 {
        "[]"@
    } else {
        "[\n"@ + record_set_items(rs, ind + 2) + "\n"@ + spaces(ind) + "]"@
    }
}

/// Text of one zone export object.
pub open spec fn zone_text(z: HostedZoneExport, ind: nat) -> Seq<char> {
    "{\n"@ + spaces(ind + 2) + "\"id\": "@ + quoted(z.id@) + ",\n"@
        + spaces(ind + 2) + "\"name\": "@ + quoted(z.name@) + ",\n"@
        + spaces(ind + 2) + "\"record_sets\": "@ + record_set_list_text(z.record_sets@, ind + 2)
        + "\n"@ + spaces(ind) + "}"@
}

/// Text of the items of the top-level zone array, in sequence order.
pub open spec fn zone_items(zs: Seq<HostedZoneExport>, ind: nat) -> Seq<char>
    decreases zs.len(),
{
    if zs.len() == 0 {
        Seq::empty()
    } else if zs.len() == 1 {
        spaces(ind) + zone_text(zs[0], ind)
    } else {
        zone_items(zs.drop_last(), ind) + ",\n"@ + spaces(ind) + zone_text(zs.last(), ind)
    }
}

/// Text of the whole file when every zone is exported: an array of zone
/// objects, in zone-list order; an empty selection gives an empty array.
pub open spec fn exports_text(zs: Seq<HostedZoneExport>) -> Seq<char> {
    if zs.len() == 0 {
        "[]"@
    } else {
        "[\n"@ + zone_items(zs, 2) + "\n]"@
    }
}

// ---------------------------------------------------------------------------
// Emitters. Each builder returns exactly the text the functions above give;
// the append helpers add exactly their piece to the string being built.
// ---------------------------------------------------------------------------

/// Relies on String::push: appends exactly the one character.
#[verifier::external_body]
fn push_char(out: &mut String, c: char)
    ensures
        final(out)@ == old(out)@ + seq![c],
{
    out.push(c);
}

/// The lower-case hexadecimal digit character of a value below 16.
fn hex_digit_char(d: u8) -> (r: char)
    requires
        d < 16,
    ensures
        r == hex_digit(d as nat),
{
    match d {
        0 => '0', 1 => '1', 2 => '2', 3 => '3', 4 => '4', 5 => '5', 6 => '6', 7 => '7',
        8 => '8', 9 => '9', 10 => 'a', 11 => 'b', 12 => 'c', 13 => 'd', 14 => 'e', _ => 'f',
    }
}

/// The decimal digit character of a value below 10.
fn dec_digit_char(d: u8) -> (r: char)
    requires
        d < 10,
    ensures
        r == digit_char(d as nat),
{
    match d {
        0 => '0', 1 => '1', 2 => '2', 3 => '3', 4 => '4', 5 => '5', 6 => '6', 7 => '7',
        8 => '8', _ => '9',
    }
}

/// Append `n` spaces.
fn push_spaces(out: &mut String, n: usize)
    ensures
        final(out)@ == old(out)@ + spaces(n as nat),
{
    let ghost base = out@;
    let mut i: usize = 0;
    while i < n
        invariant
            i <= n,
            out@ == base + spaces(i as nat),
        decreases n - i,
    {
        push_char(out, ' ');
        proof {
            assert(out@ =~= base + spaces(i as nat + 1));
        }
        i = i + 1;
    }
}

/// Append the escaped form of every character of `s`.
fn push_escaped(out: &mut String, s: &str)
    ensures
        final(out)@ == old(out)@ + escaped(s@),
{
    let ghost base = out@;
    let len = s.unicode_len();
    let mut i: usize = 0;
    while i < len
        invariant
            i <= len,
            len == s@.len(),
            out@ == base + escaped(s@.take(i as int)),
        decreases len - i,
    {
        let ghost prev = out@;
        let c = s.get_char(i);
        if c == '"' {
            push_char(out, '\\');
            push_char(out, '"');
        } else if c == '\\' {
            push_char(out, '\\');
            push_char(out, '\\');
        } else if c == '\u{8}' {
            push_char(out, '\\');
            push_char(out, 'b');
        } else if c == '\t' {
            push_char(out, '\\');
            push_char(out, 't');
        } else if c == '\n' {
            push_char(out, '\\');
            push_char(out, 'n');
        } else if c == '\u{c}' {
            push_char(out, '\\');
            push_char(out, 'f');
        } else if c == '\r' {
            push_char(out, '\\');
            push_char(out, 'r');
        } else {
            let code = c as u32;
            if code < 0x20 {
                push_char(out, '\\');
                push_char(out, 'u');
                push_char(out, '0');
                push_char(out, '0');
                push_char(out, hex_digit_char((code / 16) as u8));
                push_char(out, hex_digit_char((code % 16) as u8));
            } else {
                push_char(out, c);
            }
        }
        proof {
            assert(out@ =~= prev + escaped_char(c));
            assert(s@.take(i as int + 1).drop_last() =~= s@.take(i as int));
            assert(s@.take(i as int + 1).last() == c);
            assert(out@ =~= base + escaped(s@.take(i as int + 1)));
        }
        i = i + 1;
    }
    proof {
        assert(s@.take(len as int) =~= s@);
    }
}

/// Append the quoted, escaped form of `s`.
fn push_quoted(out: &mut String, s: &str)
    ensures
        final(out)@ == old(out)@ + quoted(s@),
{
    let ghost base = out@;
    push_char(out, '"');
    push_escaped(out, s);
    push_char(out, '"');
    proof {
        assert(out@ =~= base + quoted(s@));
    }
}

/// Append the decimal digits of `n`.
fn push_dec_u64(out: &mut String, n: u64)
    ensures
        final(out)@ == old(out)@ + dec_digits(n as nat),
    decreases n,
{
    let ghost base = out@;
    if n < 10 {
        push_char(out, dec_digit_char(n as u8));
    } else {
        push_dec_u64(out, n / 10);
        push_char(out, dec_digit_char((n % 10) as u8));
        proof {
            assert(out@ =~= base + dec_digits(n as nat));
        }
    }
}

/// Append the decimal text of `n`.
fn push_dec_i64(out: &mut String, n: i64)
    ensures
        final(out)@ == old(out)@ + int_text(n as int),
{
    let ghost base = out@;
    if n >= 0 {
        push_dec_u64(out, n as u64);
    } else {
        push_char(out, '-');
        let m: u64 = ((-(n + 1)) as u64) + 1;
        proof {
            assert(m as nat == (-(n as int)) as nat);
        }
        push_dec_u64(out, m);
        proof {
            assert(out@ =~= base + int_text(n as int));
        }
    }
}

/// Append the decimal text of `n`.
fn push_dec_i32(out: &mut String, n: i32)
    ensures
        final(out)@ == old(out)@ + int_text(n as int),
{
    push_dec_i64(out, n as i64);
}

/// Append an optional string value.
fn push_opt_str(out: &mut String, v: &Option<String>)
    ensures
        final(out)@ == old(out)@ + opt_str_text(*v),
{
    match v {
        Option::Some(s) => push_quoted(out, s.as_str()),
        Option::None => out.append("null"),
    }
}

/// Append an optional 64-bit integer value.
fn push_opt_i64(out: &mut String, v: &Option<i64>)
    ensures
        final(out)@ == old(out)@ + opt_i64_text(*v),
{
    match v {
        Option::Some(n) => push_dec_i64(out, *n),
        Option::None => out.append("null"),
    }
}

/// Append an optional 32-bit integer value.
fn push_opt_i32(out: &mut String, v: &Option<i32>)
    ensures
        final(out)@ == old(out)@ + opt_i32_text(*v),
{
    match v {
        Option::Some(n) => push_dec_i32(out, *n),
        Option::None => out.append("null"),
    }
}

/// Append a boolean value.
fn push_bool(out: &mut String, b: bool)
    ensures
        final(out)@ == old(out)@ + bool_text(b),
{
    if b {
        out.append("true");
    } else {
        out.append("false");
    }
}

/// Append an optional boolean value.
fn push_opt_bool(out: &mut String, v: &Option<bool>)
    ensures
        final(out)@ == old(out)@ + opt_bool_text(*v),
{
    match v {
        Option::Some(b) => push_bool(out, *b),
        Option::None => out.append("null"),
    }
}


/// Pull a leading piece out of a four-piece concatenation.
proof fn lemma_shift_assoc4(a: Seq<char>, b: Seq<char>, c: Seq<char>, d: Seq<char>, e: Seq<char>)
    ensures
        ((((a + b) + c) + d) + e) == a + (((b + c) + d) + e),
{
    assert(((((a + b) + c) + d) + e) =~= a + (((b + c) + d) + e));
}

/// Pull a leading piece out of a two-piece concatenation.
proof fn lemma_shift_assoc2(a: Seq<char>, b: Seq<char>, c: Seq<char>)
    ensures
        ((a + b) + c) == a + (b + c),
{
    assert(((a + b) + c) =~= a + (b + c));
}

/// Build the text of a geolocation object.
fn write_geo(g: &GeoLocation, ind: usize) -> (r: String)
    requires
        ind <= 32,
    ensures
        r@ == geo_text(*g, ind as nat),
{
    let mut out = String::new();
    out.append("{\n");
    proof {
        assert(out@ =~= "{\n"@);
    }
    push_spaces(&mut out, ind + 2);
    out.append("\"continent_code\": ");
    push_opt_str(&mut out, &g.continent_code);
    out.append(",\n");
    push_spaces(&mut out, ind + 2);
    out.append("\"country_code\": ");
    push_opt_str(&mut out, &g.country_code);
    out.append(",\n");
    push_spaces(&mut out, ind + 2);
    out.append("\"subdivision_code\": ");
    push_opt_str(&mut out, &g.subdivision_code);
    out.append("\n");
    push_spaces(&mut out, ind);
    out.append("}");
    proof {
        assert(out@ == geo_text(*g, ind as nat));
    }
    out
}

/// Build the text of an alias-target object.
fn write_alias(a: &AliasTarget, ind: usize) -> (r: String)
    requires
        ind <= 32,
    ensures
        r@ == alias_text(*a, ind as nat),
{
    let mut out = String::new();
    out.append("{\n");
    proof {
        assert(out@ =~= "{\n"@);
    }
    push_spaces(&mut out, ind + 2);
    out.append("\"hosted_zone_id\": ");
    push_quoted(&mut out, a.hosted_zone_id.as_str());
    out.append(",\n");
    push_spaces(&mut out, ind + 2);
    out.append("\"dns_name\": ");
    push_quoted(&mut out, a.dns_name.as_str());
    out.append(",\n");
    push_spaces(&mut out, ind + 2);
    out.append("\"evaluate_target_health\": ");
    push_bool(&mut out, a.evaluate_target_health);
    out.append("\n");
    push_spaces(&mut out, ind);
    out.append("}");
    proof {
        assert(out@ == alias_text(*a, ind as nat));
    }
    out
}

/// Build the text of a CIDR-routing object.
fn write_cidr(c: &CidrRoutingConfig, ind: usize) -> (r: String)
    requires
        ind <= 32,
    ensures
        r@ == cidr_text(*c, ind as nat),
{
    let mut out = String::new();
    out.append("{\n");
    proof {
        assert(out@ =~= "{\n"@);
    }
    push_spaces(&mut out, ind + 2);
    out.append("\"collection_id\": ");
    push_quoted(&mut out, c.collection_id.as_str());
    out.append(",\n");
    push_spaces(&mut out, ind + 2);
    out.append("\"location_name\": ");
    push_quoted(&mut out, c.location_name.as_str());
    out.append("\n");
    push_spaces(&mut out, ind);
    out.append("}");
    proof {
        assert(out@ == cidr_text(*c, ind as nat));
    }
    out
}

/// Build the text of a coordinates object.
fn write_coords(c: &Coordinates, ind: usize) -> (r: String)
    requires
        ind <= 32,
    ensures
        r@ == coords_text(*c, ind as nat),
{
    let mut out = String::new();
    out.append("{\n");
    proof {
        assert(out@ =~= "{\n"@);
    }
    push_spaces(&mut out, ind + 2);
    out.append("\"latitude\": ");
    push_quoted(&mut out, c.latitude.as_str());
    out.append(",\n");
    push_spaces(&mut out, ind + 2);
    out.append("\"longitude\": ");
    push_quoted(&mut out, c.longitude.as_str());
    out.append("\n");
    push_spaces(&mut out, ind);
    out.append("}");
    proof {
        assert(out@ == coords_text(*c, ind as nat));
    }
    out
}

/// Build the text of a geoproximity object.
fn write_geoprox(g: &GeoProximityLocation, ind: usize) -> (r: String)
    requires
        ind <= 30,
    ensures
        r@ == geoprox_text(*g, ind as nat),
{
    let mut out = String::new();
    out.append("{\n");
    proof {
        assert(out@ =~= "{\n"@);
    }
    push_spaces(&mut out, ind + 2);
    out.append("\"aws_region\": ");
    push_opt_str(&mut out, &g.aws_region);
    out.append(",\n");
    push_spaces(&mut out, ind + 2);
    out.append("\"local_zone_group\": ");
    push_opt_str(&mut out, &g.local_zone_group);
    out.append(",\n");
    push_spaces(&mut out, ind + 2);
    out.append("\"coordinates\": ");
    match &g.coordinates {
        Option::Some(x) => {
            let t = write_coords(x, ind + 2);
            out.append(t.as_str());
        },
        Option::None => out.append("null"),
    }
    out.append(",\n");
    push_spaces(&mut out, ind + 2);
    out.append("\"bias\": ");
    push_opt_i32(&mut out, &g.bias);
    out.append("\n");
    push_spaces(&mut out, ind);
    out.append("}");
    proof {
        assert(out@ == geoprox_text(*g, ind as nat));
    }
    out
}

/// Build the text of one record value object.
fn write_rr(rec: &ResourceRecord, ind: usize) -> (r: String)
    requires
        ind <= 32,
    ensures
        r@ == rr_text(*rec, ind as nat),
{
    let mut out = String::new();
    out.append("{\n");
    proof {
        assert(out@ =~= "{\n"@);
    }
    push_spaces(&mut out, ind + 2);
    out.append("\"value\": ");
    push_quoted(&mut out, rec.value.as_str());
    out.append("\n");
    push_spaces(&mut out, ind);
    out.append("}");
    proof {
        assert(out@ == rr_text(*rec, ind as nat));
    }
    out
}

/// Build the text of a record-value array.
fn write_rr_list(rs: &Vec<ResourceRecord>, ind: usize) -> (r: String)
    requires
        ind <= 30,
    ensures
        r@ == rr_list_text(rs@, ind as nat),
{
    let mut out = String::new();
    let len = rs.len();
    if len == 0 {
        out.append("[]");
        proof {
            assert(out@ =~= "[]"@);
        }
        return out;
    }
    out.append("[\n");
    proof {
        assert(out@ =~= "[\n"@);
    }
    let mut i: usize = 0;
    while i < len
        invariant
            ind <= 30,
            0 < len == rs@.len(),
            i <= len,
            i == 0 ==> out@ == "[\n"@,
            i > 0 ==> out@ == "[\n"@ + rr_items(rs@.take(i as int), ind as nat + 2),
        decreases len - i,
    {
        if i > 0 {
            out.append(",\n");
        }
        push_spaces(&mut out, ind + 2);
        let t = write_rr(&rs[i], ind + 2);
        out.append(t.as_str());
        proof {
            assert(rs@.take(i as int + 1).drop_last() =~= rs@.take(i as int));
            assert(rs@.take(i as int + 1).last() == rs@[i as int]);
            assert(out@ =~= "[\n"@ + rr_items(rs@.take(i as int + 1), ind as nat + 2));
        }
        i = i + 1;
    }
    out.append("\n");
    push_spaces(&mut out, ind);
    out.append("]");
    proof {
        assert(rs@.take(len as int) =~= rs@);
        assert(out@ == rr_list_text(rs@, ind as nat));
    }
    out
}

#[verifier::rlimit(50)]
/// Build the text of one record set object: all fifteen keys in schema order.
fn write_record_set(rs: &ResourceRecordSet, ind: usize) -> (r: String)
    requires
        ind <= 28,
    ensures
        r@ == record_set_text(*rs, ind as nat),
{
    let mut out = String::new();
    out.append("{\n");
    proof {
        assert(out@ =~= "{\n"@);
    }
    push_spaces(&mut out, ind + 2);
    out.append("\"name\": ");
    push_quoted(&mut out, rs.name.as_str());
    out.append(",\n");
    push_spaces(&mut out, ind + 2);
    out.append("\"type\": ");
    push_quoted(&mut out, rs.record_type.as_str());
    out.append(",\n");
    push_spaces(&mut out, ind + 2);
    out.append("\"set_identifier\": ");
    push_opt_str(&mut out, &rs.set_identifier);
    out.append(",\n");
    push_spaces(&mut out, ind + 2);
    out.append("\"weight\": ");
    push_opt_i64(&mut out, &rs.weight);
    out.append(",\n");
    push_spaces(&mut out, ind + 2);
    out.append("\"region\": ");
    push_opt_str(&mut out, &rs.region);
    out.append(",\n");
    push_spaces(&mut out, ind + 2);
    out.append("\"geo_location\": ");
    match &rs.geo_location {
        Option::Some(x) => {
            let t = write_geo(x, ind + 2);
            out.append(t.as_str());
        },
        Option::None => out.append("null"),
    }
    out.append(",\n");
    push_spaces(&mut out, ind + 2);
    out.append("\"failover\": ");
    push_opt_str(&mut out, &rs.failover);
    out.append(",\n");
    push_spaces(&mut out, ind + 2);
    out.append("\"multi_value_answer\": ");
    push_opt_bool(&mut out, &rs.multi_value_answer);
    out.append(",\n");
    push_spaces(&mut out, ind + 2);
    out.append("\"ttl\": ");
    push_opt_i64(&mut out, &rs.ttl);
    out.append(",\n");
    push_spaces(&mut out, ind + 2);
    out.append("\"resource_records\": ");
    match &rs.resource_records {
        Option::Some(x) => {
            let t = write_rr_list(x, ind + 2);
            out.append(t.as_str());
        },
        Option::None => out.append("null"),
    }
    out.append(",\n");
    push_spaces(&mut out, ind + 2);
    out.append("\"alias_target\": ");
    match &rs.alias_target {
        Option::Some(x) => {
            let t = write_alias(x, ind + 2);
            out.append(t.as_str());
        },
        Option::None => out.append("null"),
    }
    out.append(",\n");
    push_spaces(&mut out, ind + 2);
    out.append("\"health_check_id\": ");
    push_opt_str(&mut out, &rs.health_check_id);
    out.append(",\n");
    push_spaces(&mut out, ind + 2);
    out.append("\"traffic_policy_instance_id\": ");
    push_opt_str(&mut out, &rs.traffic_policy_instance_id);
    out.append(",\n");
    push_spaces(&mut out, ind + 2);
    out.append("\"cidr_routing_config\": ");
    match &rs.cidr_routing_config {
        Option::Some(x) => {
            let t = write_cidr(x, ind + 2);
            out.append(t.as_str());
        },
        Option::None => out.append("null"),
    }
    out.append(",\n");
    push_spaces(&mut out, ind + 2);
    out.append("\"geo_proximity_location\": ");
    match &rs.geo_proximity_location {
        Option::Some(x) => {
            let t = write_geoprox(x, ind + 2);
            out.append(t.as_str());
        },
        Option::None => out.append("null"),
    }
    out.append("\n");
    push_spaces(&mut out, ind);
    out.append("}");
    proof {
        assert(out@ == record_set_text(*rs, ind as nat));
    }
    out
}

/// Build the text of a record-set array.
fn write_record_set_list(rs: &Vec<ResourceRecordSet>, ind: usize) -> (r: String)
    requires
        ind <= 26,
    ensures
        r@ == record_set_list_text(rs@, ind as nat),
{
    let mut out = String::new();
    let len = rs.len();
    if len == 0 {
        out.append("[]");
        proof {
            assert(out@ =~= "[]"@);
        }
        return out;
    }
    out.append("[\n");
    proof {
        assert(out@ =~= "[\n"@);
    }
    let mut i: usize = 0;
    while i < len
        invariant
            ind <= 26,
            0 < len == rs@.len(),
            i <= len,
            i == 0 ==> out@ == "[\n"@,
            i > 0 ==> out@ == "[\n"@ + record_set_items(rs@.take(i as int), ind as nat + 2),
        decreases len - i,
    {
        let ghost prev_items = record_set_items(rs@.take(i as int), ind as nat + 2);
        if i > 0 {
            out.append(",\n");
        }
        push_spaces(&mut out, ind + 2);
        let t = write_record_set(&rs[i], ind + 2);
        out.append(t.as_str());
        proof {
            assert(rs@.take(i as int + 1).drop_last() =~= rs@.take(i as int));
            assert(rs@.take(i as int + 1).last() == rs@[i as int]);
            let item = record_set_text(rs@[i as int], ind as nat + 2);
            if i == 0 {
                assert(record_set_items(rs@.take(1), ind as nat + 2) == spaces(ind as nat + 2)
                    + item);
                lemma_shift_assoc2("[\n"@, spaces(ind as nat + 2), item);
            } else {
                assert(record_set_items(rs@.take(i as int + 1), ind as nat + 2) == ((prev_items
                    + ",\n"@) + spaces(ind as nat + 2)) + item);
                lemma_shift_assoc4("[\n"@, prev_items, ",\n"@, spaces(ind as nat + 2), item);
            }
            assert(out@ == "[\n"@ + record_set_items(rs@.take(i as int + 1), ind as nat + 2));
        }
        i = i + 1;
    }
    out.append("\n");
    push_spaces(&mut out, ind);
    out.append("]");
    proof {
        assert(rs@.take(len as int) =~= rs@);
        assert(out@ == record_set_list_text(rs@, ind as nat));
    }
    out
}

/// Build the text of one zone export object.
fn write_zone(z: &HostedZoneExport, ind: usize) -> (r: String)
    requires
        ind <= 24,
    ensures
        r@ == zone_text(*z, ind as nat),
{
    let mut out = String::new();
    out.append("{\n");
    proof {
        assert(out@ =~= "{\n"@);
    }
    push_spaces(&mut out, ind + 2);
    out.append("\"id\": ");
    push_quoted(&mut out, z.id.as_str());
    out.append(",\n");
    push_spaces(&mut out, ind + 2);
    out.append("\"name\": ");
    push_quoted(&mut out, z.name.as_str());
    out.append(",\n");
    push_spaces(&mut out, ind + 2);
    out.append("\"record_sets\": ");
    let t = write_record_set_list(&z.record_sets, ind + 2);
    out.append(t.as_str());
    out.append("\n");
    push_spaces(&mut out, ind);
    out.append("}");
    proof {
        assert(out@ == zone_text(*z, ind as nat));
    }
    out
}

/// The file body for a single selected zone: one pretty-printed JSON object.
pub fn render_export(z: &HostedZoneExport) -> (r: String)
    ensures
        r@ == zone_text(*z, 0),
{
    write_zone(z, 0)
}

/// The file body when every zone is exported: a pretty-printed JSON array of
/// zone objects, in zone-list order; no zones give an empty array.
pub fn render_exports(zs: &Vec<HostedZoneExport>) -> (r: String)
    ensures
        r@ == exports_text(zs@),
{
    let mut out = String::new();
    let len = zs.len();
    if len == 0 {
        out.append("[]");
        proof {
            assert(out@ =~= "[]"@);
        }
        return out;
    }
    out.append("[\n");
    proof {
        assert(out@ =~= "[\n"@);
    }
    let mut i: usize = 0;
    while i < len
        invariant
            0 < len == zs@.len(),
            i <= len,
            i == 0 ==> out@ == "[\n"@,
            i > 0 ==> out@ == "[\n"@ + zone_items(zs@.take(i as int), 2),
        decreases len - i,
    {
        let ghost prev_items = zone_items(zs@.take(i as int), 2);
        if i > 0 {
            out.append(",\n");
        }
        push_spaces(&mut out, 2);
        let t = write_zone(&zs[i], 2);
        out.append(t.as_str());
        proof {
            assert(zs@.take(i as int + 1).drop_last() =~= zs@.take(i as int));
            assert(zs@.take(i as int + 1).last() == zs@[i as int]);
            let item = zone_text(zs@[i as int], 2);
            if i == 0 {
                assert(zone_items(zs@.take(1), 2) == spaces(2) + item);
                lemma_shift_assoc2("[\n"@, spaces(2), item);
            } else {
                assert(zone_items(zs@.take(i as int + 1), 2) == ((prev_items + ",\n"@) + spaces(
                    2,
                )) + item);
                lemma_shift_assoc4("[\n"@, prev_items, ",\n"@, spaces(2), item);
            }
            assert(out@ == "[\n"@ + zone_items(zs@.take(i as int + 1), 2));
        }
        i = i + 1;
    }
    out.append("\n]");
    proof {
        assert(zs@.take(len as int) =~= zs@);
        assert(out@ == exports_text(zs@));
    }
    out
}

} // verus!
