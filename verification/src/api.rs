//! Response decoding for the REST operations: each function takes the raw
//! HTTP status and body and yields the decoded value or the owed error.
use vstd::prelude::*;
use vstd::string::StringExecFns;
use crate::errors::{spec_status_error_matches, GotifyError};
use crate::json::{json_parse, obj_take, parse_json, spec_obj_get, JsonValue};
use crate::model::{
    message_of_json, application_of_json, spec_application_of, spec_message_of,
    spec_message_of_text, Application, ApplicationView, Message, MessageView,
};

verus! {

/// Whether an HTTP status is a success status.
pub open spec fn spec_is_success(status: u16) -> bool {
    200 <= status < 300
}

/// Splits a response into its body on success, or the owed error kind on
/// any other status.
pub fn handle_response(status: u16, body: String) -> (r: Result<String, GotifyError>)
    ensures
        spec_is_success(status) ==> r == Ok::<String, GotifyError>(body),
        !spec_is_success(status) ==> (r matches Err(e) && spec_status_error_matches(
            status,
            body,
            e,
        )),
{
    if 200 <= status && status < 300 {
        Ok(body)
    } else {
        Err(GotifyError::from_status_code(status, body))
    }
}

/// The messages among `items[..i]` that decode, in order.
pub open spec fn spec_filter_messages_upto(items: Seq<JsonValue>, i: int) -> Seq<MessageView>
    decreases i,
{
    if i <= 0 {
        Seq::empty()
    } else {
        spec_filter_messages_upto(items, i - 1) + match spec_message_of(items[i - 1]) {
            Some(mv) => seq![mv],
            None => Seq::<MessageView>::empty(),
        }
    }
}

/// The well-formed messages of an array, in order, malformed ones dropped.
pub open spec fn spec_filter_messages(items: Seq<JsonValue>) -> Seq<MessageView> {
    spec_filter_messages_upto(items, items.len() as int)
}

/// What the list-messages payload decodes to: the `messages` array with
/// malformed entries dropped; no `messages` array field, no result.
pub open spec fn spec_messages_doc(v: JsonValue) -> Option<Seq<MessageView>> {
    match v {
        JsonValue::Obj(fields) => match spec_obj_get(fields@, "messages"@) {
            Some(JsonValue::Arr(items)) => Some(spec_filter_messages(items@)),
            _ => None,
        },
        _ => None,
    }
}

/// What a list-messages body text decodes to.
pub open spec fn spec_messages_of_body(body: Seq<char>) -> Option<Seq<MessageView>> {
    match json_parse(body) {
        Some(v) => spec_messages_doc(v),
        None => None,
    }
}

/// Decodes the list-messages payload. A malformed entry inside the
/// `messages` array is dropped, never an error; a missing or non-array
/// `messages` field fails the whole call.
pub fn decode_messages_doc(v: JsonValue) -> (r: Result<Vec<Message>, GotifyError>)
    ensures
        match r {
            Ok(ms) => spec_messages_doc(v) == Some(ms@.map_values(|m: Message| m@)),
            Err(e) => spec_messages_doc(v) is None && e matches GotifyError::JsonError(_),
        },
{
    let fields = match v {
        JsonValue::Obj(fields) => fields,
        _ => {
            return Err(GotifyError::JsonError(String::from_str("no messages array in response")));
        },
    };
    let items = match obj_take(fields, "messages") {
        Some(JsonValue::Arr(items)) => items,
        _ => {
            return Err(GotifyError::JsonError(String::from_str("no messages array in response")));
        },
    };
    let ghost orig = items@;
    let mut rest = items;
    let mut out: Vec<Message> = Vec::new();
    while rest.len() > 0
        invariant
            rest@.len() <= orig.len(),
            rest@ == orig.subrange(orig.len() - rest@.len(), orig.len() as int),
            out@.map_values(|m: Message| m@) == spec_filter_messages_upto(
                orig,
                orig.len() - rest@.len(),
            ),
        decreases rest.len(),
    {
        let ghost i = orig.len() as int - rest@.len() as int;
        let ghost before = rest@;
        let elem = rest.remove(0);
        proof {
            assert(elem == orig[i]);
            assert(before.drop_first() =~= orig.subrange(i + 1, orig.len() as int));
        }
        let ghost out_pre = out@;
        match message_of_json(elem) {
            Some(m) => {
                out.push(m);
                proof {
                    assert(out@.map_values(|m: Message| m@) =~= out_pre.map_values(
                        |m: Message| m@,
                    ).push(m@));
                    assert(out@.map_values(|m: Message| m@) =~= spec_filter_messages_upto(
                        orig,
                        i + 1,
                    ));
                }
            },
            None => {
                proof {
                    assert(out@.map_values(|m: Message| m@) =~= spec_filter_messages_upto(
                        orig,
                        i + 1,
                    ));
                }
            },
        }
    }
    proof {
        assert(out@.map_values(|m: Message| m@) == spec_filter_messages(orig));
    }
    Ok(out)
}

/// Where every entry of an array decodes to the matching view, the
/// filtering decode drops nothing and returns them all in order.
proof fn lemma_filter_all_decode(items: Seq<JsonValue>, views: Seq<MessageView>, i: int)
    requires
        0 <= i <= items.len(),
        views.len() == items.len(),
        forall|j: int| 0 <= j < items.len() ==> spec_message_of(#[trigger] items[j]) == Some(
            views[j],
        ),
    ensures
        spec_filter_messages_upto(items, i) == views.subrange(0, i),
    decreases i,
{
    if i > 0 {
        lemma_filter_all_decode(items, views, i - 1);
        assert(views.subrange(0, i) =~= views.subrange(0, i - 1).push(views[i - 1]));
        assert(spec_filter_messages_upto(items, i) =~= views.subrange(0, i - 1) + seq![
            views[i - 1],
        ]);
    } else {
        assert(views.subrange(0, 0) =~= Seq::<MessageView>::empty());
    }
}

/// Encodes a list of messages as a JSON array whose entries all decode:
/// decoding the result under the filtering rule yields exactly the given
/// messages, in order — the round trip at the array level. As for a single
/// message, an explicit `null` extras payload is left out of the claim.
pub fn messages_to_json(msgs: Vec<Message>) -> (r: JsonValue)
    requires
        forall|i: int| 0 <= i < msgs@.len() ==> !((#[trigger] msgs@[i]).extras matches Some(
            JsonValue::Null,
        )),
    ensures
        r is Arr,
        spec_filter_messages(r->Arr_0@) == msgs@.map_values(|m: Message| m@),
{
    let ghost orig = msgs@;
    let mut rest = msgs;
    let mut items: Vec<JsonValue> = Vec::new();
    while rest.len() > 0
        invariant
            orig == msgs@,
            rest@.len() <= orig.len(),
            rest@ == orig.subrange(orig.len() - rest@.len(), orig.len() as int),
            items@.len() == orig.len() - rest@.len(),
            forall|i: int| 0 <= i < orig.len() ==> !((#[trigger] orig[i]).extras matches Some(
                JsonValue::Null,
            )),
            forall|j: int| 0 <= j < items@.len() ==> spec_message_of(#[trigger] items@[j]) == Some(
                orig[j]@,
            ),
        decreases rest.len(),
    {
        let ghost i = orig.len() as int - rest@.len() as int;
        let ghost before = rest@;
        let m = rest.remove(0);
        proof {
            assert(m == orig[i]);
            assert(before.drop_first() =~= orig.subrange(i + 1, orig.len() as int));
        }
        let doc = crate::model::message_to_json(m);
        items.push(doc);
    }
    let r = JsonValue::Arr(items);
    proof {
        let views = orig.map_values(|m: Message| m@);
        lemma_filter_all_decode(r->Arr_0@, views, views.len() as int);
        assert(views.subrange(0, views.len() as int) =~= views);
    }
    r
}

/// Decodes a complete list-messages response from status and body: the
/// payload on success, the status's error kind otherwise, and a JSON error
/// where the success body does not hold a `messages` array.
pub fn list_messages_response(status: u16, body: String) -> (r: Result<Vec<Message>, GotifyError>)
    ensures
        match r {
            Ok(ms) => spec_is_success(status) && spec_messages_of_body(body@) == Some(
                ms@.map_values(|m: Message| m@),
            ),
            Err(e) => if spec_is_success(status) {
                spec_messages_of_body(body@) is None && e matches GotifyError::JsonError(_)
            } else {
                spec_status_error_matches(status, body, e)
            },
        },
{
    let body = match handle_response(status, body) {
        Ok(b) => b,
        Err(e) => {
            return Err(e);
        },
    };
    match parse_json(body.as_str()) {
        Some(v) => decode_messages_doc(v),
        None => Err(GotifyError::JsonError(String::from_str("response body is not valid JSON"))),
    }
}

/// Decodes a complete create-message response: the created message, with
/// its server-assigned id, on success.
pub fn create_message_response(status: u16, body: String) -> (r: Result<Message, GotifyError>)
    ensures
        match r {
            Ok(m) => spec_is_success(status) && spec_message_of_text(body@) == Some(m@),
            Err(e) => if spec_is_success(status) {
                spec_message_of_text(body@) is None && e matches GotifyError::JsonError(_)
            } else {
                spec_status_error_matches(status, body, e)
            },
        },
{
    let body = match handle_response(status, body) {
        Ok(b) => b,
        Err(e) => {
            return Err(e);
        },
    };
    match crate::model::message_from_text(body.as_str()) {
        Some(m) => Ok(m),
        None => Err(GotifyError::JsonError(String::from_str("response is not a message"))),
    }
}

/// The applications of `items[..i]`, or nothing where any entry fails.
pub open spec fn spec_applications_upto(items: Seq<JsonValue>, i: int) -> Option<
    Seq<ApplicationView>,
>
    decreases i,
{
    if i <= 0 {
        Some(Seq::empty())
    } else {
        match (spec_applications_upto(items, i - 1), spec_application_of(items[i - 1])) {
            (Some(s), Some(a)) => Some(s.push(a)),
            _ => None,
        }
    }
}

/// What an applications payload decodes to: the whole array, where every
/// entry decodes — one malformed entry fails the whole list.
pub open spec fn spec_applications_doc(v: JsonValue) -> Option<Seq<ApplicationView>> {
    match v {
        JsonValue::Arr(items) => spec_applications_upto(items@, items@.len() as int),
        _ => None,
    }
}

/// What an applications body text decodes to.
pub open spec fn spec_applications_of_body(body: Seq<char>) -> Option<Seq<ApplicationView>> {
    match json_parse(body) {
        Some(v) => spec_applications_doc(v),
        None => None,
    }
}

/// Once one entry fails, the whole strict decode stays failed.
proof fn lemma_applications_none_propagates(items: Seq<JsonValue>, i: int, n: int)
    requires
        0 <= i <= n,
        spec_applications_upto(items, i) is None,
    ensures
        spec_applications_upto(items, n) is None,
    decreases n - i,
{
    if i < n {
        lemma_applications_none_propagates(items, i, n - 1);
    }
}

/// Decodes the applications payload: strict, unlike messages — a single
/// malformed entry fails the call, since the list is fixed and fully typed.
pub fn decode_applications_doc(v: &JsonValue) -> (r: Result<Vec<Application>, GotifyError>)
    ensures
        match r {
            Ok(apps) => spec_applications_doc(*v) == Some(apps@.map_values(|a: Application| a@)),
            Err(e) => spec_applications_doc(*v) is None && e matches GotifyError::JsonError(_),
        },
{
    let items = match v {
        JsonValue::Arr(items) => items,
        _ => {
            return Err(GotifyError::JsonError(String::from_str("response is not a list")));
        },
    };
    let mut out: Vec<Application> = Vec::new();
    let len = items.len();
    let mut i: usize = 0;
    while i < len
        invariant
            len == items@.len(),
            0 <= i <= len,
            v is Arr,
            items@ == v->Arr_0@,
            spec_applications_upto(items@, i as int) == Some(
                out@.map_values(|a: Application| a@),
            ),
        decreases len - i,
    {
        let ghost out_pre = out@;
        match application_of_json(&items[i]) {
            Some(a) => {
                out.push(a);
                proof {
                    assert(out@.map_values(|a: Application| a@) =~= out_pre.map_values(
                        |a: Application| a@,
                    ).push(a@));
                }
            },
            None => {
                proof {
                    assert(spec_applications_upto(items@, i as int + 1) is None);
                    lemma_applications_none_propagates(items@, i as int + 1, items@.len() as int);
                }
                return Err(GotifyError::JsonError(String::from_str("malformed application entry")));
            },
        }
        i = i + 1;
    }
    Ok(out)
}

/// Decodes a complete list-applications response.
pub fn list_applications_response(status: u16, body: String) -> (r: Result<
    Vec<Application>,
    GotifyError,
>)
    ensures
        match r {
            Ok(apps) => spec_is_success(status) && spec_applications_of_body(body@) == Some(
                apps@.map_values(|a: Application| a@),
            ),
            Err(e) => if spec_is_success(status) {
                spec_applications_of_body(body@) is None && e matches GotifyError::JsonError(_)
            } else {
                spec_status_error_matches(status, body, e)
            },
        },
{
    let body = match handle_response(status, body) {
        Ok(b) => b,
        Err(e) => {
            return Err(e);
        },
    };
    match parse_json(body.as_str()) {
        Some(v) => decode_applications_doc(&v),
        None => Err(GotifyError::JsonError(String::from_str("response body is not valid JSON"))),
    }
}

/// Decodes a delete response: success is unit; a 404 from the server
/// surfaces as the not-found error, never as success.
pub fn delete_response(status: u16, body: String) -> (r: Result<(), GotifyError>)
    ensures
        spec_is_success(status) ==> r is Ok,
        !spec_is_success(status) ==> (r matches Err(e) && spec_status_error_matches(
            status,
            body,
            e,
        )),
        status == 404 ==> r == Err::<(), GotifyError>(GotifyError::NotFound(body)),
{
    if 200 <= status && status < 300 {
        Ok(())
    } else {
        Err(GotifyError::from_status_code(status, body))
    }
}

/// Interprets a health probe's status: healthy exactly on a success
/// status. A transport failure never reaches this point — it surfaces as a
/// network error instead of `false`.
pub fn health_from_status(status: u16) -> (r: bool)
    ensures
        r == spec_is_success(status),
{
    200 <= status && status < 300
}

/// Builds the create-message request payload: `message` and `priority`
/// always, `title` only where given.
pub fn create_request_doc(title: Option<&str>, message: &str, priority: i32) -> (r: JsonValue)
    ensures
        r is Obj,
        crate::model::spec_str_field(r->Obj_0@, "message"@) == Some(message@),
        crate::model::spec_i32_field(r->Obj_0@, "priority"@) == Some(priority),
        crate::model::spec_opt_str_field(r->Obj_0@, "title"@) == Some(
            match title {
                Some(t) => Some(t@),
                None => None,
            },
        ),
{
    let mut fields: Vec<(String, JsonValue)> = Vec::new();
    let ghost title_present = title is Some;
    match title {
        Some(t) => fields.push((String::from_str("title"), JsonValue::Str(t.to_owned()))),
        None => (),
    }
    fields.push((String::from_str("message"), JsonValue::Str(message.to_owned())));
    fields.push((String::from_str("priority"), JsonValue::Num(crate::decimal::i32_to_dec(priority))));
    let r = JsonValue::Obj(fields);
    proof {
        reveal_strlit("title");
        reveal_strlit("message");
        reveal_strlit("priority");
        let f = fields@;
        let t: int = if title_present {
            1
        } else {
            0
        };
        assert(f.len() == 2 + t);
        if title_present {
            assert(f[0].0@ == "title"@);
        }
        assert(f[t].0@ == "message"@);
        assert(f[1 + t].0@ == "priority"@);
        assert("title"@.len() == 5);
        assert("message"@.len() == 7);
        assert("priority"@.len() == 8);
        crate::decimal::lemma_parse_i32_roundtrip(priority);
        if title_present {
            crate::model::lemma_obj_get_at(f, "title"@, 0);
        } else {
            crate::model::lemma_obj_get_at(f, "title"@, f.len() as int);
        }
        crate::model::lemma_obj_get_at(f, "message"@, t);
        crate::model::lemma_obj_get_at(f, "priority"@, 1 + t);
    }
    r
}

} // verus!
