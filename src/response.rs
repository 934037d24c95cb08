//! The backend's response envelope and the rules that turn it into success or
//! a reported failure.

use vstd::prelude::*;
use crate::error::{ProviderError, ProviderErrorKind};
use crate::json::{entries, field_text, field_u32, find_entry, get_member, read_text, read_u32, JsonMember, JsonValue};
use crate::record::{record_items, Record};

verus! {

/// The envelope every response of the backend carries. Each field may be absent.
#[derive(Debug, Clone, PartialEq, Eq)]
pub struct ApiResponse {
    pub error: Option<String>,
    pub errors: Option<Vec<String>>,
    pub message: Option<String>,
    pub records_added: Option<u32>,
    pub records_removed: Option<u32>,
    pub records: Option<Vec<Record>>,
}

/// An envelope with its lists as sequences.
pub struct ApiResponseView {
    pub error: Option<String>,
    pub errors: Option<Seq<String>>,
    pub message: Option<String>,
    pub records_added: Option<u32>,
    pub records_removed: Option<u32>,
    pub records: Option<Seq<Record>>,
}

impl View for ApiResponse {
    type V = ApiResponseView;

    open spec fn view(&self) -> ApiResponseView {
        ApiResponseView {
            error: self.error,
            errors: match self.errors {
                Some(v) => Some(v@),
                None => None,
            },
            message: self.message,
            records_added: self.records_added,
            records_removed: self.records_removed,
            records: match self.records {
                Some(v) => Some(v@),
                None => None,
            },
        }
    }
}

/// The strings of an array, if every item is a string.
pub open spec fn text_items(items: Seq<JsonValue>) -> Option<Seq<String>> {
    if forall|i: int| 0 <= i < items.len() ==> #[trigger] items[i] is Str {
        Some(items.map_values(|v: JsonValue| v->Str_0))
    } else {
        None
    }
}

/// What an optional list-of-strings field reads from the value found for it.
pub open spec fn field_text_list(v: Option<JsonValue>) -> Result<Option<Seq<String>>, ()> {
    match v {
        None => Ok(None),
        Some(JsonValue::Null) => Ok(None),
        Some(JsonValue::Array(items)) => match text_items(items@) {
            Some(s) => Ok(Some(s)),
            None => Err(()),
        },
        Some(_) => Err(()),
    }
}

/// What an optional list-of-records field reads from the value found for it.
pub open spec fn field_record_list(v: Option<JsonValue>) -> Result<Option<Seq<Record>>, ()> {
    match v {
        None => Ok(None),
        Some(JsonValue::Null) => Ok(None),
        Some(JsonValue::Array(items)) => match record_items(items@) {
            Some(s) => Ok(Some(s)),
            None => Err(()),
        },
        Some(_) => Err(()),
    }
}

/// The envelope a JSON value describes, if it describes one: it must be an
/// object whose known fields are absent, null or of the right type. Unknown
/// members are ignored.
pub open spec fn decode_envelope(v: JsonValue) -> Option<ApiResponseView> {
    match v {
        JsonValue::Object(ms) => {
            let es = entries(ms@);
            let error = field_text(find_entry(es, "error"@));
            let errors = field_text_list(find_entry(es, "errors"@));
            let message = field_text(find_entry(es, "message"@));
            let added = field_u32(find_entry(es, "records_added"@));
            let removed = field_u32(find_entry(es, "records_removed"@));
            let records = field_record_list(find_entry(es, "records"@));
            if error is Ok && errors is Ok && message is Ok && added is Ok && removed is Ok
                && records is Ok {
                Some(
                    ApiResponseView {
                        error: error->Ok_0,
                        errors: errors->Ok_0,
                        message: message->Ok_0,
                        records_added: added->Ok_0,
                        records_removed: removed->Ok_0,
                        records: records->Ok_0,
                    },
                )
            } else {
                None
            }
        },
        _ => None,
    }
}

/// Reads the optional list-of-strings field `key` of an object.
fn read_text_list(ms: &Vec<JsonMember>, key: &str) -> (r: Result<Option<Vec<String>>, ()>)
    ensures
        match field_text_list(find_entry(entries(ms@), key@)) {
            Ok(Some(s)) => r matches Ok(Some(v)) && v@ == s,
            Ok(None) => r matches Ok(None),
            Err(_) => r is Err,
        },
{
    let items = match get_member(ms, key) {
        None => return Ok(None),
        Some(JsonValue::Null) => return Ok(None),
        Some(JsonValue::Array(items)) => items,
        Some(_) => return Err(()),
    };
    let mut out: Vec<String> = Vec::new();
    let mut i: usize = 0;
    while i < items.len()
        invariant
            0 <= i <= items@.len(),
            find_entry(entries(ms@), key@) == Some(JsonValue::Array(*items)),
            forall|j: int| 0 <= j < i ==> #[trigger] items@[j] is Str,
            out@ == items@.take(i as int).map_values(|v: JsonValue| v->Str_0),
        decreases items@.len() - i,
    {
        match &items[i] {
            JsonValue::Str(s) => {
                out.push(s.clone());
            },
            _ => {
                assert(!(items@[i as int] is Str));
                assert(text_items(items@) is None);
                return Err(());
            },
        }
        assert(items@.take(i as int + 1).map_values(|v: JsonValue| v->Str_0) =~= items@.take(
            i as int,
        ).map_values(|v: JsonValue| v->Str_0).push(items@[i as int]->Str_0));
        i += 1;
    }
    assert(items@.take(i as int) =~= items@);
    Ok(Some(out))
}

/// Reads the optional list-of-records field `key` of an object.
fn read_record_list(ms: &Vec<JsonMember>, key: &str) -> (r: Result<Option<Vec<Record>>, ()>)
    ensures
        match field_record_list(find_entry(entries(ms@), key@)) {
            Ok(Some(s)) => r matches Ok(Some(v)) && v@ == s,
            Ok(None) => r matches Ok(None),
            Err(_) => r is Err,
        },
{
    match get_member(ms, key) {
        None => Ok(None),
        Some(JsonValue::Null) => Ok(None),
        Some(v) => match Record::list_from_json(v) {
            Some(rs) => Ok(Some(rs)),
            None => Err(()),
        },
    }
}

impl ApiResponse {
    /// The envelope a response body describes; `SerializationFailure` when
    /// the body is not an object or a known field has the wrong type.
    pub fn from_json(v: &JsonValue) -> (r: Result<ApiResponse, ProviderError>)
        ensures
            match decode_envelope(*v) {
                Some(m) => r matches Ok(a) && a@ == m,
                None => r matches Err(e) && e.kind == ProviderErrorKind::SerializationFailure && e.message is None,
            },
    {
        let fail = ProviderError::new(ProviderErrorKind::SerializationFailure);
        let ms = match v {
            JsonValue::Object(ms) => ms,
            _ => return Err(fail),
        };
        let error = match read_text(ms, "error") {
            Ok(x) => x,
            Err(_) => return Err(fail),
        };
        let errors = match read_text_list(ms, "errors") {
            Ok(x) => x,
            Err(_) => return Err(fail),
        };
        let message = match read_text(ms, "message") {
            Ok(x) => x,
            Err(_) => return Err(fail),
        };
        let records_added = match read_u32(ms, "records_added") {
            Ok(x) => x,
            Err(_) => return Err(fail),
        };
        let records_removed = match read_u32(ms, "records_removed") {
            Ok(x) => x,
            Err(_) => return Err(fail),
        };
        let records = match read_record_list(ms, "records") {
            Ok(x) => x,
            Err(_) => return Err(fail),
        };
        let r = ApiResponse { error, errors, message, records_added, records_removed, records };
        assert(r@ == decode_envelope(*v)->Some_0);
        Ok(r)
    }
}

/// Whether an HTTP status is a client error.
pub open spec fn is_client_error(status: u16) -> bool {
    400 <= status < 500
}

/// The reasons of a failure, each after the first on a line of its own
/// after " - ".
pub open spec fn joined_reasons(rs: Seq<String>) -> Seq<char>
    decreases rs.len(),
{
    if rs.len() == 0 {
        seq![]
    } else if rs.len() == 1 {
        rs[0]@
    } else {
        joined_reasons(rs.drop_last()) + "\n - "@ + rs.last()@
    }
}

/// The reasons a response lists, none when it lists none.
pub open spec fn listed_reasons(m: ApiResponseView) -> Seq<String> {
    match m.errors {
        Some(es) => es,
        None => seq![],
    }
}

/// Whether the response reports a failure of the action described by
/// `action`, and with which message. A non-empty list of reasons gives a
/// message naming them all, preceded by the single `error` reason when
/// `keep_error` asks for it to be kept beside the list; failing that, a
/// single `error` reason gives a message naming it; failing that, a
/// client-error status is a failure without a message of its own. `None` when
/// the response reports success.
pub open spec fn failure_message(
    status: u16,
    m: ApiResponseView,
    action: Seq<char>,
    keep_error: bool,
) -> Option<Option<Seq<char>>> {
    if listed_reasons(m).len() > 0 {
        let rs = if keep_error && m.error is Some {
            seq![m.error->Some_0] + listed_reasons(m)
        } else {
            listed_reasons(m)
        };
        Some(Some(action + ". Reasons: \n - "@ + joined_reasons(rs)))
    } else if m.error is Some {
        Some(Some(action + ". Reason: "@ + m.error->Some_0@))
    } else if is_client_error(status) {
        Some(None)
    } else {
        None
    }
}

/// Whether `e` is the API error that `failure` describes.
pub open spec fn is_api_failure(e: ProviderError, failure: Option<Seq<char>>) -> bool {
    &&& e.kind == ProviderErrorKind::DnsApiError
    &&& match failure {
        Some(t) => e.message is Some && e.message->Some_0@ == t,
        None => e.message is None,
    }
}

/// Whether `t` holds `s` somewhere as a run of characters.
pub open spec fn contains_text(t: Seq<char>, s: Seq<char>) -> bool {
    exists|i: int| 0 <= i && i + s.len() <= t.len() && #[trigger] t.subrange(i, i + s.len()) == s
}

/// Text found in `q` is found in `p + q + r`.
proof fn lemma_contains_in_middle(p: Seq<char>, q: Seq<char>, r: Seq<char>, s: Seq<char>)
    requires
        contains_text(q, s),
    ensures
        contains_text(p + q + r, s),
{
    let i = choose|i: int| 0 <= i && i + s.len() <= q.len() && #[trigger] q.subrange(i, i + s.len()) == s;
    let j = p.len() + i;
    assert((p + q + r).subrange(j, j + s.len()) =~= q.subrange(i, i + s.len()));
}

/// Every text holds itself.
proof fn lemma_contains_self(s: Seq<char>)
    ensures
        contains_text(s, s),
{
    assert(s.subrange(0, 0 + s.len() as int) =~= s);
}

/// The joined reasons name every reason.
pub proof fn lemma_joined_names_every_reason(rs: Seq<String>)
    ensures
        forall|k: int| 0 <= k < rs.len() ==> contains_text(joined_reasons(rs), #[trigger] rs[k]@),
    decreases rs.len(),
{
    if rs.len() == 1 {
        assert(joined_reasons(rs) == rs[0]@);
        lemma_contains_self(rs[0]@);
    } else if rs.len() > 1 {
        let front = rs.drop_last();
        lemma_joined_names_every_reason(front);
        let sep = "\n - "@;
        assert forall|k: int| 0 <= k < rs.len() implies contains_text(
            joined_reasons(rs),
            #[trigger] rs[k]@,
        ) by {
            if k < rs.len() - 1 {
                assert(rs[k] == front[k]);
                lemma_contains_in_middle(seq![], joined_reasons(front), sep + rs.last()@, rs[k]@);
                assert(seq![] + joined_reasons(front) + (sep + rs.last()@) =~= joined_reasons(rs));
            } else {
                lemma_contains_self(rs.last()@);
                lemma_contains_in_middle(joined_reasons(front) + sep, rs.last()@, seq![], rs[k]@);
                assert(joined_reasons(front) + sep + rs.last()@ + seq![] =~= joined_reasons(rs));
            }
        }
    }
}

/// A reported failure keeps every reason: its message names each reason the
/// response lists, and names the single `error` reason whenever there is no
/// list or `keep_error` asks for it to be kept beside the list.
pub proof fn lemma_failure_names_every_reason(
    status: u16,
    m: ApiResponseView,
    action: Seq<char>,
    keep_error: bool,
)
    ensures
        (listed_reasons(m).len() > 0 || m.error is Some) ==> failure_message(
            status,
            m,
            action,
            keep_error,
        ) is Some && failure_message(status, m, action, keep_error)->Some_0 is Some,
        failure_message(status, m, action, keep_error) matches Some(Some(t)) ==> {
            &&& forall|k: int|
                0 <= k < listed_reasons(m).len() ==> contains_text(
                    t,
                    #[trigger] listed_reasons(m)[k]@,
                )
            &&& (m.error is Some && (keep_error || listed_reasons(m).len() == 0)) ==> contains_text(
                t,
                m.error->Some_0@,
            )
        },
{
    let listed = listed_reasons(m);
    if listed.len() > 0 {
        let rs = if keep_error && m.error is Some {
            seq![m.error->Some_0] + listed
        } else {
            listed
        };
        let t = action + ". Reasons: \n - "@ + joined_reasons(rs);
        lemma_joined_names_every_reason(rs);
        assert forall|k: int| 0 <= k < listed.len() implies contains_text(t, #[trigger] listed[k]@) by {
            if keep_error && m.error is Some {
                assert(listed[k] == rs[k + 1]);
            } else {
                assert(listed[k] == rs[k]);
            }
            lemma_contains_in_middle(action + ". Reasons: \n - "@, joined_reasons(rs), seq![], listed[k]@);
            assert(action + ". Reasons: \n - "@ + joined_reasons(rs) + seq![] =~= t);
        }
        if keep_error && m.error is Some {
            assert(rs[0] == m.error->Some_0);
            lemma_contains_in_middle(action + ". Reasons: \n - "@, joined_reasons(rs), seq![], rs[0]@);
            assert(action + ". Reasons: \n - "@ + joined_reasons(rs) + seq![] =~= t);
        }
    } else if m.error is Some {
        let e = m.error->Some_0@;
        let t = action + ". Reason: "@ + e;
        lemma_contains_self(e);
        lemma_contains_in_middle(action + ". Reason: "@, e, seq![], e);
        assert(action + ". Reason: "@ + e + seq![] =~= t);
    }
}

/// Joins the reasons of a failure.
pub fn join_reasons(rs: &Vec<String>) -> (r: String)
    ensures
        r@ == joined_reasons(rs@),
{
    let mut out = String::new();
    let mut i: usize = 0;
    while i < rs.len()
        invariant
            0 <= i <= rs@.len(),
            out@ == joined_reasons(rs@.take(i as int)),
        decreases rs@.len() - i,
    {
        let ghost before = out@;
        if i > 0 {
            out.append("\n - ");
        }
        out.append(rs[i].as_str());
        proof {
            let t = rs@.take(i as int + 1);
            assert(t.drop_last() =~= rs@.take(i as int));
            assert(t.last() == rs@[i as int]);
            if i == 0 {
                assert(out@ =~= rs@[0]@);
            }
        }
        i += 1;
    }
    assert(rs@.take(i as int) =~= rs@);
    out
}

/// The reason `first` followed by the reasons of `rest`.
fn reasons_after(first: &String, rest: &Vec<String>) -> (r: Vec<String>)
    ensures
        r@ == seq![*first] + rest@,
{
    let mut out: Vec<String> = Vec::new();
    out.push(first.clone());
    let mut i: usize = 0;
    while i < rest.len()
        invariant
            0 <= i <= rest@.len(),
            out@ == seq![*first] + rest@.take(i as int),
        decreases rest@.len() - i,
    {
        out.push(rest[i].clone());
        assert(rest@.take(i as int + 1) =~= rest@.take(i as int).push(rest@[i as int]));
        assert(out@ =~= seq![*first] + rest@.take(i as int + 1));
        i += 1;
    }
    assert(rest@.take(i as int) =~= rest@);
    out
}

/// Checks a response for a reported failure of the action described by
/// `action`; `keep_error` keeps the single `error` reason beside a list of
/// reasons.
pub fn check_failure(status: u16, resp: &ApiResponse, action: &str, keep_error: bool) -> (r: Result<
    (),
    ProviderError,
>)
    ensures
        match failure_message(status, resp@, action@, keep_error) {
            Some(f) => r matches Err(e) && is_api_failure(e, f),
            None => r is Ok,
        },
{
    if let Some(es) = &resp.errors {
        if es.len() > 0 {
            let mut t = action.to_owned();
            t.append(". Reasons: \n - ");
            let j = match &resp.error {
                Some(e) if keep_error => join_reasons(&reasons_after(e, es)),
                _ => join_reasons(es),
            };
            t.append(j.as_str());
            return Err(ProviderError::new(ProviderErrorKind::DnsApiError).msg(t));
        }
    }
    if let Some(e) = &resp.error {
        let mut t = action.to_owned();
        t.append(". Reason: ");
        t.append(e.as_str());
        return Err(ProviderError::new(ProviderErrorKind::DnsApiError).msg(t));
    }
    if 400 <= status && status < 500 {
        return Err(ProviderError::new(ProviderErrorKind::DnsApiError));
    }
    Ok(())
}

} // verus!
