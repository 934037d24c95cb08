//! DNS records and their JSON form.

use vstd::prelude::*;
use crate::json::{
    entries, field_text, field_u32, find_entry, lemma_find_entry_concat, lemma_find_entry_none,
    lemma_find_entry_single, member, read_text, read_u32, JsonMember, JsonValue,
};

verus! {

/// A DNS record: the four fields every record has, and the fields that only
/// some record types use. `template` marks a template record; it is never
/// part of the JSON form.
#[derive(Debug, Clone, PartialEq, Eq)]
pub struct Record {
    pub host: String,
    pub ttl: u32,
    pub rtype: String,
    pub data: String,
    pub mx_priority: Option<u32>,
    pub srv_priority: Option<u32>,
    pub srv_weight: Option<u32>,
    pub srv_port: Option<u32>,
    pub sshfp_algorithm: Option<u32>,
    pub sshfp_type: Option<u32>,
    pub caa_flags: Option<u32>,
    pub caa_property: Option<String>,
    pub tlsa_usage: Option<u32>,
    pub tlsa_selector: Option<u32>,
    pub tlsa_matching: Option<u32>,
    pub template: Option<bool>,
}

/// The entry for an optional number: one entry when present, none when absent.
pub open spec fn opt_u32_entry(key: Seq<char>, v: Option<u32>) -> Seq<(Seq<char>, JsonValue)> {
    match v {
        Some(n) => seq![(key, JsonValue::Number(n as u64))],
        None => seq![],
    }
}

/// The entry for an optional string: one entry when present, none when absent.
pub open spec fn opt_text_entry(key: Seq<char>, v: Option<String>) -> Seq<(Seq<char>, JsonValue)> {
    match v {
        Some(s) => seq![(key, JsonValue::Str(s))],
        None => seq![],
    }
}

/// The members of a record's JSON object, in order.
pub open spec fn record_entries(r: Record) -> Seq<(Seq<char>, JsonValue)> {
    seq![("host"@, JsonValue::Str(r.host))]
        + seq![("ttl"@, JsonValue::Number(r.ttl as u64))]
        + seq![("type"@, JsonValue::Str(r.rtype))]
        + seq![("data"@, JsonValue::Str(r.data))]
        + opt_u32_entry("mx_priority"@, r.mx_priority)
        + opt_u32_entry("srv_priority"@, r.srv_priority)
        + opt_u32_entry("srv_weight"@, r.srv_weight)
        + opt_u32_entry("srv_port"@, r.srv_port)
        + opt_u32_entry("sshfp_algorithm"@, r.sshfp_algorithm)
        + opt_u32_entry("sshfp_type"@, r.sshfp_type)
        + opt_u32_entry("caa_flags"@, r.caa_flags)
        + opt_text_entry("caa_property"@, r.caa_property)
        + opt_u32_entry("tlsa_usage"@, r.tlsa_usage)
        + opt_u32_entry("tlsa_selector"@, r.tlsa_selector)
        + opt_u32_entry("tlsa_matching"@, r.tlsa_matching)
}

/// The record an object's entries describe, if they describe one: the four
/// mandatory fields must be present with the right type, optional fields
/// must be absent, null or of the right type, and other keys are ignored.
pub open spec fn record_from_entries(es: Seq<(Seq<char>, JsonValue)>) -> Option<Record> {
    let host = field_text(find_entry(es, "host"@));
    let ttl = field_u32(find_entry(es, "ttl"@));
    let rtype = field_text(find_entry(es, "type"@));
    let data = field_text(find_entry(es, "data"@));
    let mx_priority = field_u32(find_entry(es, "mx_priority"@));
    let srv_priority = field_u32(find_entry(es, "srv_priority"@));
    let srv_weight = field_u32(find_entry(es, "srv_weight"@));
    let srv_port = field_u32(find_entry(es, "srv_port"@));
    let sshfp_algorithm = field_u32(find_entry(es, "sshfp_algorithm"@));
    let sshfp_type = field_u32(find_entry(es, "sshfp_type"@));
    let caa_flags = field_u32(find_entry(es, "caa_flags"@));
    let caa_property = field_text(find_entry(es, "caa_property"@));
    let tlsa_usage = field_u32(find_entry(es, "tlsa_usage"@));
    let tlsa_selector = field_u32(find_entry(es, "tlsa_selector"@));
    let tlsa_matching = field_u32(find_entry(es, "tlsa_matching"@));
    if host matches Ok(Some(_)) && ttl matches Ok(Some(_)) && rtype matches Ok(Some(_))
        && data matches Ok(Some(_)) && mx_priority is Ok && srv_priority is Ok && srv_weight is Ok
        && srv_port is Ok && sshfp_algorithm is Ok && sshfp_type is Ok && caa_flags is Ok
        && caa_property is Ok && tlsa_usage is Ok && tlsa_selector is Ok && tlsa_matching is Ok {
        Some(
            Record {
                host: host->Ok_0->Some_0,
                ttl: ttl->Ok_0->Some_0,
                rtype: rtype->Ok_0->Some_0,
                data: data->Ok_0->Some_0,
                mx_priority: mx_priority->Ok_0,
                srv_priority: srv_priority->Ok_0,
                srv_weight: srv_weight->Ok_0,
                srv_port: srv_port->Ok_0,
                sshfp_algorithm: sshfp_algorithm->Ok_0,
                sshfp_type: sshfp_type->Ok_0,
                caa_flags: caa_flags->Ok_0,
                caa_property: caa_property->Ok_0,
                tlsa_usage: tlsa_usage->Ok_0,
                tlsa_selector: tlsa_selector->Ok_0,
                tlsa_matching: tlsa_matching->Ok_0,
                template: None,
            },
        )
    } else {
        None
    }
}

/// The record a JSON value describes, if it describes one.
pub open spec fn decode_record(v: JsonValue) -> Option<Record> {
    match v {
        JsonValue::Object(ms) => record_from_entries(entries(ms@)),
        _ => None,
    }
}

/// Whether an entry list holds an entry with key `key`.
pub open spec fn has_key(es: Seq<(Seq<char>, JsonValue)>, key: Seq<char>) -> bool {
    exists|i: int| 0 <= i < es.len() && #[trigger] es[i].0 == key
}

/// Whether an entry list holds no key for any optional field that the record
/// leaves absent.
pub open spec fn omits_absent_fields(r: Record, es: Seq<(Seq<char>, JsonValue)>) -> bool {
    &&& r.mx_priority is None ==> !has_key(es, "mx_priority"@)
    &&& r.srv_priority is None ==> !has_key(es, "srv_priority"@)
    &&& r.srv_weight is None ==> !has_key(es, "srv_weight"@)
    &&& r.srv_port is None ==> !has_key(es, "srv_port"@)
    &&& r.sshfp_algorithm is None ==> !has_key(es, "sshfp_algorithm"@)
    &&& r.sshfp_type is None ==> !has_key(es, "sshfp_type"@)
    &&& r.caa_flags is None ==> !has_key(es, "caa_flags"@)
    &&& r.caa_property is None ==> !has_key(es, "caa_property"@)
    &&& r.tlsa_usage is None ==> !has_key(es, "tlsa_usage"@)
    &&& r.tlsa_selector is None ==> !has_key(es, "tlsa_selector"@)
    &&& r.tlsa_matching is None ==> !has_key(es, "tlsa_matching"@)
}

/// Whether `k` is the key of one of a record's fields in its JSON form.
pub open spec fn is_record_key(k: Seq<char>) -> bool {
    ||| k == "host"@
    ||| k == "ttl"@
    ||| k == "type"@
    ||| k == "data"@
    ||| k == "mx_priority"@
    ||| k == "srv_priority"@
    ||| k == "srv_weight"@
    ||| k == "srv_port"@
    ||| k == "sshfp_algorithm"@
    ||| k == "sshfp_type"@
    ||| k == "caa_flags"@
    ||| k == "caa_property"@
    ||| k == "tlsa_usage"@
    ||| k == "tlsa_selector"@
    ||| k == "tlsa_matching"@
}

/// Whether every entry has a record field's key and a value other than null.
pub open spec fn only_record_keys(es: Seq<(Seq<char>, JsonValue)>) -> bool {
    forall|i: int| 0 <= i < es.len() ==> is_record_key(#[trigger] es[i].0) && !(es[i].1 is Null)
}

/// Whether each mandatory field, and each optional field the record holds,
/// is written under its key with the record's value.
pub open spec fn writes_present_fields(r: Record, es: Seq<(Seq<char>, JsonValue)>) -> bool {
    &&& find_entry(es, "host"@) == Some(JsonValue::Str(r.host))
    &&& find_entry(es, "ttl"@) == Some(JsonValue::Number(r.ttl as u64))
    &&& find_entry(es, "type"@) == Some(JsonValue::Str(r.rtype))
    &&& find_entry(es, "data"@) == Some(JsonValue::Str(r.data))
    &&& r.mx_priority is Some ==> find_entry(es, "mx_priority"@) == Some(
        JsonValue::Number(r.mx_priority->Some_0 as u64),
    )
    &&& r.srv_priority is Some ==> find_entry(es, "srv_priority"@) == Some(
        JsonValue::Number(r.srv_priority->Some_0 as u64),
    )
    &&& r.srv_weight is Some ==> find_entry(es, "srv_weight"@) == Some(
        JsonValue::Number(r.srv_weight->Some_0 as u64),
    )
    &&& r.srv_port is Some ==> find_entry(es, "srv_port"@) == Some(
        JsonValue::Number(r.srv_port->Some_0 as u64),
    )
    &&& r.sshfp_algorithm is Some ==> find_entry(es, "sshfp_algorithm"@) == Some(
        JsonValue::Number(r.sshfp_algorithm->Some_0 as u64),
    )
    &&& r.sshfp_type is Some ==> find_entry(es, "sshfp_type"@) == Some(
        JsonValue::Number(r.sshfp_type->Some_0 as u64),
    )
    &&& r.caa_flags is Some ==> find_entry(es, "caa_flags"@) == Some(
        JsonValue::Number(r.caa_flags->Some_0 as u64),
    )
    &&& r.caa_property is Some ==> find_entry(es, "caa_property"@) == Some(JsonValue::Str(r.caa_property->Some_0))
    &&& r.tlsa_usage is Some ==> find_entry(es, "tlsa_usage"@) == Some(
        JsonValue::Number(r.tlsa_usage->Some_0 as u64),
    )
    &&& r.tlsa_selector is Some ==> find_entry(es, "tlsa_selector"@) == Some(
        JsonValue::Number(r.tlsa_selector->Some_0 as u64),
    )
    &&& r.tlsa_matching is Some ==> find_entry(es, "tlsa_matching"@) == Some(
        JsonValue::Number(r.tlsa_matching->Some_0 as u64),
    )
}

/// Joining two entry lists that hold only record keys and no null keeps both.
proof fn lemma_only_record_keys_concat(a: Seq<(Seq<char>, JsonValue)>, b: Seq<(Seq<char>, JsonValue)>)
    requires
        only_record_keys(a),
        only_record_keys(b),
    ensures
        only_record_keys(a + b),
{
    assert forall|i: int| 0 <= i < (a + b).len() implies is_record_key(#[trigger] (a + b)[i].0)
        && !((a + b)[i].1 is Null) by {
        if i < a.len() {
            assert((a + b)[i] == a[i]);
            assert(is_record_key(a[i].0) && !(a[i].1 is Null));
        } else {
            assert((a + b)[i] == b[i - a.len()]);
            assert(is_record_key(b[i - a.len()].0) && !(b[i - a.len()].1 is Null));
        }
    }
}

/// A record's entries hold only record keys and no null value.
proof fn lemma_record_entries_keys(r: Record)
    ensures
        only_record_keys(record_entries(r)),
{
    let p = seq![("host"@, JsonValue::Str(r.host))];
    assert(only_record_keys(p));
    let q = seq![("ttl"@, JsonValue::Number(r.ttl as u64))];
    assert(only_record_keys(q));
    lemma_only_record_keys_concat(p, q);
    let p = p + q;
    let q = seq![("type"@, JsonValue::Str(r.rtype))];
    assert(only_record_keys(q));
    lemma_only_record_keys_concat(p, q);
    let p = p + q;
    let q = seq![("data"@, JsonValue::Str(r.data))];
    assert(only_record_keys(q));
    lemma_only_record_keys_concat(p, q);
    let p = p + q;
    let q = opt_u32_entry("mx_priority"@, r.mx_priority);
    assert(only_record_keys(q));
    lemma_only_record_keys_concat(p, q);
    let p = p + q;
    let q = opt_u32_entry("srv_priority"@, r.srv_priority);
    assert(only_record_keys(q));
    lemma_only_record_keys_concat(p, q);
    let p = p + q;
    let q = opt_u32_entry("srv_weight"@, r.srv_weight);
    assert(only_record_keys(q));
    lemma_only_record_keys_concat(p, q);
    let p = p + q;
    let q = opt_u32_entry("srv_port"@, r.srv_port);
    assert(only_record_keys(q));
    lemma_only_record_keys_concat(p, q);
    let p = p + q;
    let q = opt_u32_entry("sshfp_algorithm"@, r.sshfp_algorithm);
    assert(only_record_keys(q));
    lemma_only_record_keys_concat(p, q);
    let p = p + q;
    let q = opt_u32_entry("sshfp_type"@, r.sshfp_type);
    assert(only_record_keys(q));
    lemma_only_record_keys_concat(p, q);
    let p = p + q;
    let q = opt_u32_entry("caa_flags"@, r.caa_flags);
    assert(only_record_keys(q));
    lemma_only_record_keys_concat(p, q);
    let p = p + q;
    let q = opt_text_entry("caa_property"@, r.caa_property);
    assert(only_record_keys(q));
    lemma_only_record_keys_concat(p, q);
    let p = p + q;
    let q = opt_u32_entry("tlsa_usage"@, r.tlsa_usage);
    assert(only_record_keys(q));
    lemma_only_record_keys_concat(p, q);
    let p = p + q;
    let q = opt_u32_entry("tlsa_selector"@, r.tlsa_selector);
    assert(only_record_keys(q));
    lemma_only_record_keys_concat(p, q);
    let p = p + q;
    let q = opt_u32_entry("tlsa_matching"@, r.tlsa_matching);
    assert(only_record_keys(q));
    lemma_only_record_keys_concat(p, q);
    let p = p + q;
    assert(p == record_entries(r));
}

/// Encoding then decoding a record gives the same record back, for every
/// record that is not marked as a template (the mark is not part of the JSON
/// form). The encoding holds exactly the record's fields that are present:
/// each mandatory and each present optional field under its key, no key for
/// an absent optional field, no key that is not a field's (so none for the
/// template mark), and no null value.
#[verifier::rlimit(50)]
pub proof fn lemma_record_round_trip(r: Record, v: JsonValue)
    requires
        encodes_record(v, r),
    ensures
        r.template is None ==> decode_record(v) == Some(r),
        omits_absent_fields(r, entries(v->Object_0@)),
        writes_present_fields(r, entries(v->Object_0@)),
        only_record_keys(entries(v->Object_0@)),
{
    lemma_record_entries_keys(r);
    broadcast use lemma_find_entry_concat, lemma_find_entry_single;

    reveal_strlit("host");
    reveal_strlit("ttl");
    reveal_strlit("type");
    reveal_strlit("data");
    reveal_strlit("mx_priority");
    reveal_strlit("srv_priority");
    reveal_strlit("srv_weight");
    reveal_strlit("srv_port");
    reveal_strlit("sshfp_algorithm");
    reveal_strlit("sshfp_type");
    reveal_strlit("caa_flags");
    reveal_strlit("caa_property");
    reveal_strlit("tlsa_usage");
    reveal_strlit("tlsa_selector");
    reveal_strlit("tlsa_matching");
    let es = record_entries(r);
    // Enough of each key's text to tell every two keys apart.
    assert("host"@.len() == 4 && "host"@[0] == 'h' && "host"@[1] == 'o');
    assert("ttl"@.len() == 3 && "ttl"@[0] == 't' && "ttl"@[1] == 't');
    assert("type"@.len() == 4 && "type"@[0] == 't' && "type"@[1] == 'y');
    assert("data"@.len() == 4 && "data"@[0] == 'd' && "data"@[1] == 'a');
    assert("mx_priority"@.len() == 11 && "mx_priority"@[0] == 'm' && "mx_priority"@[1] == 'x' && "mx_priority"@[5] == 'i');
    assert("srv_priority"@.len() == 12 && "srv_priority"@[0] == 's' && "srv_priority"@[1] == 'r' && "srv_priority"@[5] == 'r');
    assert("srv_weight"@.len() == 10 && "srv_weight"@[0] == 's' && "srv_weight"@[1] == 'r' && "srv_weight"@[5] == 'e');
    assert("srv_port"@.len() == 8 && "srv_port"@[0] == 's' && "srv_port"@[1] == 'r' && "srv_port"@[5] == 'o');
    assert("sshfp_algorithm"@.len() == 15 && "sshfp_algorithm"@[0] == 's' && "sshfp_algorithm"@[1] == 's' && "sshfp_algorithm"@[5] == '_');
    assert("sshfp_type"@.len() == 10 && "sshfp_type"@[0] == 's' && "sshfp_type"@[1] == 's' && "sshfp_type"@[5] == '_');
    assert("caa_flags"@.len() == 9 && "caa_flags"@[0] == 'c' && "caa_flags"@[1] == 'a' && "caa_flags"@[5] == 'l');
    assert("caa_property"@.len() == 12 && "caa_property"@[0] == 'c' && "caa_property"@[1] == 'a' && "caa_property"@[5] == 'r');
    assert("tlsa_usage"@.len() == 10 && "tlsa_usage"@[0] == 't' && "tlsa_usage"@[1] == 'l' && "tlsa_usage"@[5] == 'u');
    assert("tlsa_selector"@.len() == 13 && "tlsa_selector"@[0] == 't' && "tlsa_selector"@[1] == 'l' && "tlsa_selector"@[5] == 's');
    assert("tlsa_matching"@.len() == 13 && "tlsa_matching"@[0] == 't' && "tlsa_matching"@[1] == 'l' && "tlsa_matching"@[5] == 'm');
    if r.mx_priority is None {
        lemma_find_entry_none(es, "mx_priority"@);
    }
    if r.srv_priority is None {
        lemma_find_entry_none(es, "srv_priority"@);
    }
    if r.srv_weight is None {
        lemma_find_entry_none(es, "srv_weight"@);
    }
    if r.srv_port is None {
        lemma_find_entry_none(es, "srv_port"@);
    }
    if r.sshfp_algorithm is None {
        lemma_find_entry_none(es, "sshfp_algorithm"@);
    }
    if r.sshfp_type is None {
        lemma_find_entry_none(es, "sshfp_type"@);
    }
    if r.caa_flags is None {
        lemma_find_entry_none(es, "caa_flags"@);
    }
    if r.caa_property is None {
        lemma_find_entry_none(es, "caa_property"@);
    }
    if r.tlsa_usage is None {
        lemma_find_entry_none(es, "tlsa_usage"@);
    }
    if r.tlsa_selector is None {
        lemma_find_entry_none(es, "tlsa_selector"@);
    }
    if r.tlsa_matching is None {
        lemma_find_entry_none(es, "tlsa_matching"@);
    }
}

/// Whether `v` is the JSON object of record `r`.
pub open spec fn encodes_record(v: JsonValue, r: Record) -> bool {
    match v {
        JsonValue::Object(ms) => entries(ms@) == record_entries(r),
        _ => false,
    }
}

/// The records of an array, if every item describes a record.
pub open spec fn record_items(items: Seq<JsonValue>) -> Option<Seq<Record>> {
    if forall|i: int| 0 <= i < items.len() ==> #[trigger] decode_record(items[i]) is Some {
        Some(items.map_values(|v: JsonValue| decode_record(v)->Some_0))
    } else {
        None
    }
}

/// The records a JSON value lists, if it is an array of records.
pub open spec fn decode_record_list(v: JsonValue) -> Option<Seq<Record>> {
    match v {
        JsonValue::Array(items) => record_items(items@),
        _ => None,
    }
}

/// The records of all documents that are lists of records, in order; other
/// documents contribute nothing.
pub open spec fn documents_records(docs: Seq<JsonValue>) -> Seq<Record>
    decreases docs.len(),
{
    if docs.len() == 0 {
        seq![]
    } else {
        documents_records(docs.drop_last()) + match decode_record_list(docs.last()) {
            Some(rs) => rs,
            None => seq![],
        }
    }
}

/// Appends one member.
fn push_entry(ms: &mut Vec<JsonMember>, key: &str, value: JsonValue)
    ensures
        entries(final(ms)@) == entries(old(ms)@) + seq![(key@, value)],
{
    let m = member(key, value);
    ms.push(m);
    assert(entries(ms@) =~= entries(old(ms)@) + seq![(key@, value)]);
}

/// Appends the member of an optional number, if it is present.
fn push_opt_u32(ms: &mut Vec<JsonMember>, key: &str, v: Option<u32>)
    ensures
        entries(final(ms)@) == entries(old(ms)@) + opt_u32_entry(key@, v),
{
    match v {
        Some(n) => push_entry(ms, key, JsonValue::Number(n as u64)),
        None => {
            assert(entries(ms@) =~= entries(ms@) + opt_u32_entry(key@, v));
        },
    }
}

/// Appends the member of an optional string, if it is present.
fn push_opt_text(ms: &mut Vec<JsonMember>, key: &str, v: &Option<String>)
    ensures
        entries(final(ms)@) == entries(old(ms)@) + opt_text_entry(key@, *v),
{
    match v {
        Some(s) => push_entry(ms, key, JsonValue::Str(s.clone())),
        None => {
            assert(entries(ms@) =~= entries(ms@) + opt_text_entry(key@, *v));
        },
    }
}

impl Record {
    /// The record's JSON object: the four mandatory fields, then each optional
    /// field that is present. Absent fields get no member; `template` never
    /// gets one.
    pub fn to_json(&self) -> (r: JsonValue)
        ensures
            encodes_record(r, *self),
    {
        let mut ms: Vec<JsonMember> = Vec::new();
        push_entry(&mut ms, "host", JsonValue::Str(self.host.clone()));
        assert(entries(ms@) =~= seq![("host"@, JsonValue::Str(self.host))]);
        push_entry(&mut ms, "ttl", JsonValue::Number(self.ttl as u64));
        push_entry(&mut ms, "type", JsonValue::Str(self.rtype.clone()));
        push_entry(&mut ms, "data", JsonValue::Str(self.data.clone()));
        push_opt_u32(&mut ms, "mx_priority", self.mx_priority);
        push_opt_u32(&mut ms, "srv_priority", self.srv_priority);
        push_opt_u32(&mut ms, "srv_weight", self.srv_weight);
        push_opt_u32(&mut ms, "srv_port", self.srv_port);
        push_opt_u32(&mut ms, "sshfp_algorithm", self.sshfp_algorithm);
        push_opt_u32(&mut ms, "sshfp_type", self.sshfp_type);
        push_opt_u32(&mut ms, "caa_flags", self.caa_flags);
        push_opt_text(&mut ms, "caa_property", &self.caa_property);
        push_opt_u32(&mut ms, "tlsa_usage", self.tlsa_usage);
        push_opt_u32(&mut ms, "tlsa_selector", self.tlsa_selector);
        push_opt_u32(&mut ms, "tlsa_matching", self.tlsa_matching);
        JsonValue::Object(ms)
    }

    /// The record a JSON value describes; `None` when it is not an object,
    /// lacks one of the four mandatory fields, or holds a field of the wrong
    /// type. Unknown members are ignored.
    pub fn from_json(v: &JsonValue) -> (r: Option<Record>)
        ensures
            r == decode_record(*v),
    {
        let ms = match v {
            JsonValue::Object(ms) => ms,
            _ => return None,
        };
        let host = match read_text(ms, "host") {
            Ok(Some(x)) => x,
            _ => return None,
        };
        let ttl = match read_u32(ms, "ttl") {
            Ok(Some(x)) => x,
            _ => return None,
        };
        let rtype = match read_text(ms, "type") {
            Ok(Some(x)) => x,
            _ => return None,
        };
        let data = match read_text(ms, "data") {
            Ok(Some(x)) => x,
            _ => return None,
        };
        let mx_priority = match read_u32(ms, "mx_priority") {
            Ok(x) => x,
            Err(_) => return None,
        };
        let srv_priority = match read_u32(ms, "srv_priority") {
            Ok(x) => x,
            Err(_) => return None,
        };
        let srv_weight = match read_u32(ms, "srv_weight") {
            Ok(x) => x,
            Err(_) => return None,
        };
        let srv_port = match read_u32(ms, "srv_port") {
            Ok(x) => x,
            Err(_) => return None,
        };
        let sshfp_algorithm = match read_u32(ms, "sshfp_algorithm") {
            Ok(x) => x,
            Err(_) => return None,
        };
        let sshfp_type = match read_u32(ms, "sshfp_type") {
            Ok(x) => x,
            Err(_) => return None,
        };
        let caa_flags = match read_u32(ms, "caa_flags") {
            Ok(x) => x,
            Err(_) => return None,
        };
        let caa_property = match read_text(ms, "caa_property") {
            Ok(x) => x,
            Err(_) => return None,
        };
        let tlsa_usage = match read_u32(ms, "tlsa_usage") {
            Ok(x) => x,
            Err(_) => return None,
        };
        let tlsa_selector = match read_u32(ms, "tlsa_selector") {
            Ok(x) => x,
            Err(_) => return None,
        };
        let tlsa_matching = match read_u32(ms, "tlsa_matching") {
            Ok(x) => x,
            Err(_) => return None,
        };
        Some(
            Record {
                host,
                ttl,
                rtype,
                data,
                mx_priority,
                srv_priority,
                srv_weight,
                srv_port,
                sshfp_algorithm,
                sshfp_type,
                caa_flags,
                caa_property,
                tlsa_usage,
                tlsa_selector,
                tlsa_matching,
                template: None,
            },
        )
    }

    /// The records a JSON value lists; `None` unless it is an array whose
    /// every item describes a record.
    pub fn list_from_json(v: &JsonValue) -> (r: Option<Vec<Record>>)
        ensures
            match decode_record_list(*v) {
                Some(s) => r matches Some(x) && x@ == s,
                None => r is None,
            },
    {
        let items = match v {
            JsonValue::Array(items) => items,
            _ => return None,
        };
        let mut out: Vec<Record> = Vec::new();
        let mut i: usize = 0;
        while i < items.len()
            invariant
                0 <= i <= items@.len(),
                *v == JsonValue::Array(*items),
                forall|j: int| 0 <= j < i ==> #[trigger] decode_record(items@[j]) is Some,
                out@ == items@.take(i as int).map_values(|x: JsonValue| decode_record(x)->Some_0),
            decreases items@.len() - i,
        {
            match Record::from_json(&items[i]) {
                Some(rec) => {
                    out.push(rec);
                },
                None => {
                    assert(!(decode_record(items@[i as int]) is Some));
                    assert(record_items(items@) is None);
                    return None;
                },
            }
            assert(items@.take(i as int + 1).map_values(|x: JsonValue| decode_record(x)->Some_0)
                =~= items@.take(i as int).map_values(|x: JsonValue| decode_record(x)->Some_0).push(
                decode_record(items@[i as int])->Some_0,
            ));
            i += 1;
        }
        assert(items@.take(i as int) =~= items@);
        Some(out)
    }
}

/// The records of every document that is a list of records, in order.
/// Documents that are not lists of records are skipped.
pub fn process_dns_records(docs: &Vec<JsonValue>) -> (r: Vec<Record>)
    ensures
        r@ == documents_records(docs@),
{
    let mut out: Vec<Record> = Vec::new();
    let mut i: usize = 0;
    assert(docs@.take(0) =~= Seq::<JsonValue>::empty());
    while i < docs.len()
        invariant
            0 <= i <= docs@.len(),
            out@ == documents_records(docs@.take(i as int)),
        decreases docs@.len() - i,
    {
        let ghost before = out@;
        assert(docs@.take(i as int + 1).drop_last() =~= docs@.take(i as int));
        assert(docs@.take(i as int + 1).last() == docs@[i as int]);
        match Record::list_from_json(&docs[i]) {
            Some(rs) => {
                let mut rs = rs;
                out.append(&mut rs);
            },
            None => {
                assert(out@ =~= before + Seq::<Record>::empty());
            },
        }
        i += 1;
    }
    assert(docs@.take(i as int) =~= docs@);
    out
}

} // verus!
