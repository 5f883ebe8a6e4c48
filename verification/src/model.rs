//! The domain records carried by the server: messages and applications,
//! with their decoding from JSON documents and the message encoder whose
//! contract is the decode/encode round trip.
use vstd::prelude::*;
use vstd::string::StringExecFns;
use crate::decimal::{
    i32_to_dec, lemma_parse_i32_roundtrip, lemma_parse_u64_roundtrip, parse_i32_str, parse_u64_str,
    spec_parse_i32, spec_parse_u64, u64_to_dec,
};
use crate::json::{obj_get, obj_take, spec_obj_get, JsonValue};

verus! {

/// One stored or streamed notification. Identity is `id`.
#[derive(Debug)]
pub struct Message {
    pub id: u64,
    pub message: String,
    pub title: Option<String>,
    pub priority: i32,
    pub timestamp: String,
    pub app_id: u64,
    pub extras: Option<JsonValue>,
}

/// The mathematical value of a `Message`.
pub struct MessageView {
    pub id: u64,
    pub message: Seq<char>,
    pub title: Option<Seq<char>>,
    pub priority: i32,
    pub timestamp: Seq<char>,
    pub app_id: u64,
    pub extras: Option<JsonValue>,
}

impl View for Message {
    type V = MessageView;

    open spec fn view(&self) -> MessageView {
        MessageView {
            id: self.id,
            message: self.message@,
            title: match self.title {
                Some(t) => Some(t@),
                None => None,
            },
            priority: self.priority,
            timestamp: self.timestamp@,
            app_id: self.app_id,
            extras: self.extras,
        }
    }
}

/// One application visible to the token.
#[derive(Debug)]
pub struct Application {
    pub id: u64,
    pub name: String,
    pub description: String,
    pub token: Option<String>,
}

/// The mathematical value of an `Application`.
pub struct ApplicationView {
    pub id: u64,
    pub name: Seq<char>,
    pub description: Seq<char>,
    pub token: Option<Seq<char>>,
}

impl View for Application {
    type V = ApplicationView;

    open spec fn view(&self) -> ApplicationView {
        ApplicationView {
            id: self.id,
            name: self.name@,
            description: self.description@,
            token: match self.token {
                Some(t) => Some(t@),
                None => None,
            },
        }
    }
}

/// A required unsigned-number field: present, a number, and in `u64` range.
pub open spec fn spec_u64_field(f: Seq<(String, JsonValue)>, key: Seq<char>) -> Option<u64> {
    match spec_obj_get(f, key) {
        Some(JsonValue::Num(lit)) => spec_parse_u64(lit@),
        _ => None,
    }
}

/// A required signed-number field: present, a number, and in `i32` range.
pub open spec fn spec_i32_field(f: Seq<(String, JsonValue)>, key: Seq<char>) -> Option<i32> {
    match spec_obj_get(f, key) {
        Some(JsonValue::Num(lit)) => spec_parse_i32(lit@),
        _ => None,
    }
}

/// A required string field.
pub open spec fn spec_str_field(f: Seq<(String, JsonValue)>, key: Seq<char>) -> Option<Seq<char>> {
    match spec_obj_get(f, key) {
        Some(JsonValue::Str(s)) => Some(s@),
        _ => None,
    }
}

/// A required string field that servers spell under either of two names;
/// the alias is consulted only where the primary name is absent.
pub open spec fn spec_aliased_str_field(
    f: Seq<(String, JsonValue)>,
    key: Seq<char>,
    alias: Seq<char>,
) -> Option<Seq<char>> {
    match spec_obj_get(f, key) {
        Some(JsonValue::Str(s)) => Some(s@),
        Some(_) => None,
        None => spec_str_field(f, alias),
    }
}

/// A required unsigned-number field under either of two names.
pub open spec fn spec_aliased_u64_field(
    f: Seq<(String, JsonValue)>,
    key: Seq<char>,
    alias: Seq<char>,
) -> Option<u64> {
    match spec_obj_get(f, key) {
        Some(JsonValue::Num(lit)) => spec_parse_u64(lit@),
        Some(_) => None,
        None => spec_u64_field(f, alias),
    }
}

/// An optional string field: absent and `null` both mean "none"; any other
/// non-string value makes the record malformed.
pub open spec fn spec_opt_str_field(f: Seq<(String, JsonValue)>, key: Seq<char>) -> Option<
    Option<Seq<char>>,
> {
    match spec_obj_get(f, key) {
        None => Some(None),
        Some(JsonValue::Null) => Some(None),
        Some(JsonValue::Str(s)) => Some(Some(s@)),
        Some(_) => None,
    }
}

/// The opaque `extras` payload: absent and `null` both mean "none"; any
/// other value is carried through untouched.
pub open spec fn spec_extras_field(f: Seq<(String, JsonValue)>) -> Option<JsonValue> {
    match spec_obj_get(f, "extras"@) {
        None => None,
        Some(JsonValue::Null) => None,
        Some(x) => Some(x),
    }
}

/// What decoding an object's fields as a message yields: `id`, `message`
/// and `priority` are required; the timestamp may arrive as `timestamp` or
/// `date` and the application id as `app_id` or `appid`; `title` and
/// `extras` are optional.
pub open spec fn spec_message_of_fields(f: Seq<(String, JsonValue)>) -> Option<MessageView> {
    match (spec_u64_field(f, "id"@), spec_str_field(f, "message"@), spec_i32_field(
        f,
        "priority"@,
    )) {
        (Some(id), Some(message), Some(priority)) => match (spec_aliased_str_field(
            f,
            "timestamp"@,
            "date"@,
        ), spec_aliased_u64_field(f, "app_id"@, "appid"@), spec_opt_str_field(f, "title"@)) {
            (Some(timestamp), Some(app_id), Some(title)) => Some(
                MessageView {
                    id,
                    message,
                    title,
                    priority,
                    timestamp,
                    app_id,
                    extras: spec_extras_field(f),
                },
            ),
            _ => None,
        },
        _ => None,
    }
}

/// What decoding a JSON document as a message yields: an object decoded
/// field by field, and nothing for any other document.
pub open spec fn spec_message_of(v: JsonValue) -> Option<MessageView> {
    match v {
        JsonValue::Obj(fields) => spec_message_of_fields(fields@),
        _ => None,
    }
}

/// What decoding a JSON document as an application yields: `id` and `name`
/// and `description` are required, `token` is optional.
pub open spec fn spec_application_of(v: JsonValue) -> Option<ApplicationView> {
    match v {
        JsonValue::Obj(fields) => {
            let f = fields@;
            match (spec_u64_field(f, "id"@), spec_str_field(f, "name"@), spec_str_field(
                f,
                "description"@,
            ), spec_opt_str_field(f, "token"@)) {
                (Some(id), Some(name), Some(description), Some(token)) => Some(
                    ApplicationView { id, name, description, token },
                ),
                _ => None,
            }
        },
        _ => None,
    }
}

/// Decodes a JSON document as a message, consuming the document so the
/// opaque `extras` payload can be kept without copying.
pub fn message_of_json(v: JsonValue) -> (r: Option<Message>)
    ensures
        match r {
            Some(m) => spec_message_of(v) == Some(m@),
            None => spec_message_of(v) is None,
        },
{
    let fields = match v {
        JsonValue::Obj(fields) => fields,
        _ => {
            return None;
        },
    };
    let id: u64 = match obj_get(&fields, "id") {
        Some(JsonValue::Num(lit)) => match parse_u64_str(lit.as_str()) {
            Some(n) => n,
            None => {
                return None;
            },
        },
        _ => {
            return None;
        },
    };
    let message: String = match obj_get(&fields, "message") {
        Some(JsonValue::Str(s)) => s.clone(),
        _ => {
            return None;
        },
    };
    let priority: i32 = match obj_get(&fields, "priority") {
        Some(JsonValue::Num(lit)) => match parse_i32_str(lit.as_str()) {
            Some(p) => p,
            None => {
                return None;
            },
        },
        _ => {
            return None;
        },
    };
    let timestamp: String = match obj_get(&fields, "timestamp") {
        Some(JsonValue::Str(s)) => s.clone(),
        Some(_) => {
            return None;
        },
        None => match obj_get(&fields, "date") {
            Some(JsonValue::Str(s)) => s.clone(),
            _ => {
                return None;
            },
        },
    };
    let app_id: u64 = match obj_get(&fields, "app_id") {
        Some(JsonValue::Num(lit)) => match parse_u64_str(lit.as_str()) {
            Some(n) => n,
            None => {
                return None;
            },
        },
        Some(_) => {
            return None;
        },
        None => match obj_get(&fields, "appid") {
            Some(JsonValue::Num(lit)) => match parse_u64_str(lit.as_str()) {
                Some(n) => n,
                None => {
                    return None;
                },
            },
            _ => {
                return None;
            },
        },
    };
    let title: Option<String> = match obj_get(&fields, "title") {
        None => None,
        Some(JsonValue::Null) => None,
        Some(JsonValue::Str(s)) => Some(s.clone()),
        Some(_) => {
            return None;
        },
    };
    let extras: Option<JsonValue> = match obj_take(fields, "extras") {
        None => None,
        Some(JsonValue::Null) => None,
        Some(x) => Some(x),
    };
    let m = Message { id, message, title, priority, timestamp, app_id, extras };
    Some(m)
}

/// Where the first `i` keys of an object differ from `key` and the key at
/// `i` (if any) matches, the lookup lands exactly there.
pub proof fn lemma_obj_get_at(f: Seq<(String, JsonValue)>, key: Seq<char>, i: int)
    requires
        0 <= i <= f.len(),
        forall|j: int| 0 <= j < i ==> (#[trigger] f[j]).0@ != key,
        i < f.len() ==> f[i].0@ == key,
    ensures
        i < f.len() ==> spec_obj_get(f, key) == Some(f[i].1),
        i == f.len() ==> spec_obj_get(f, key) is None,
    decreases i + 1,
{
    if i == 0 {
        if f.len() == 0 {
        } else {
            assert(spec_obj_get(f, key) == Some(f[0].1));
        }
    } else {
        let tail = f.drop_first();
        assert(f[0].0@ != key);
        assert(spec_obj_get(f, key) == spec_obj_get(tail, key));
        assert(forall|j: int| 0 <= j < i - 1 ==> (#[trigger] tail[j]) == f[j + 1]);
        lemma_obj_get_at(tail, key, i - 1);
    }
}

/// Encodes a message as a JSON object, with `title` and `extras` written
/// only where present. Decoding the result yields the message back: the
/// required fields exactly, and the optional fields absent where they were
/// none — the decode/encode round trip. An explicit `null` extras payload
/// is indistinguishable from an absent one after decoding, so it is left
/// out of the claim.
pub fn message_to_json(m: Message) -> (r: JsonValue)
    requires
        !(m.extras matches Some(JsonValue::Null)),
    ensures
        spec_message_of(r) == Some(m@),
{
    let Message { id, message, title, priority, timestamp, app_id, extras } = m;
    let ghost mv = m@;
    let mut fields: Vec<(String, JsonValue)> = Vec::new();
    fields.push((String::from_str("id"), JsonValue::Num(u64_to_dec(id))));
    fields.push((String::from_str("message"), JsonValue::Str(message)));
    let ghost title_present = title is Some;
    match title {
        Some(t) => fields.push((String::from_str("title"), JsonValue::Str(t))),
        None => (),
    }
    fields.push((String::from_str("priority"), JsonValue::Num(i32_to_dec(priority))));
    fields.push((String::from_str("timestamp"), JsonValue::Str(timestamp)));
    fields.push((String::from_str("app_id"), JsonValue::Num(u64_to_dec(app_id))));
    let ghost extras_present = extras is Some;
    match extras {
        Some(x) => fields.push((String::from_str("extras"), x)),
        None => (),
    }
    let r = JsonValue::Obj(fields);
    proof {
        reveal_strlit("id");
        reveal_strlit("message");
        reveal_strlit("title");
        reveal_strlit("priority");
        reveal_strlit("timestamp");
        reveal_strlit("date");
        reveal_strlit("app_id");
        reveal_strlit("appid");
        reveal_strlit("extras");
        let f = fields@;
        let t: int = if title_present {
            1
        } else {
            0
        };
        let x: int = if extras_present {
            1
        } else {
            0
        };
        assert(f.len() == 5 + t + x);
        assert(f[0].0@ == "id"@);
        assert(f[1].0@ == "message"@);
        if title_present {
            assert(f[2].0@ == "title"@);
        }
        assert(f[2 + t].0@ == "priority"@);
        assert(f[3 + t].0@ == "timestamp"@);
        assert(f[4 + t].0@ == "app_id"@);
        if extras_present {
            assert(f[5 + t].0@ == "extras"@);
        }
        assert("id"@.len() == 2);
        assert("message"@.len() == 7);
        assert("title"@.len() == 5);
        assert("priority"@.len() == 8);
        assert("timestamp"@.len() == 9);
        assert("app_id"@.len() == 6);
        assert("extras"@.len() == 6);
        assert("app_id"@ != "extras"@) by {
            assert("app_id"@[0] == 'a');
            assert("extras"@[0] == 'e');
        }
        lemma_parse_u64_roundtrip(id);
        lemma_parse_u64_roundtrip(app_id);
        lemma_parse_i32_roundtrip(priority);
        // id sits first.
        lemma_obj_get_at(f, "id"@, 0);
        // message sits second.
        lemma_obj_get_at(f, "message"@, 1);
        // title, where present, sits third; where absent, no key matches.
        if title_present {
            lemma_obj_get_at(f, "title"@, 2);
        } else {
            lemma_obj_get_at(f, "title"@, f.len() as int);
        }
        // priority, timestamp and app_id follow, shifted where title sits.
        lemma_obj_get_at(f, "priority"@, 2 + t);
        lemma_obj_get_at(f, "timestamp"@, 3 + t);
        lemma_obj_get_at(f, "app_id"@, 4 + t);
        // extras, where present, sits last; where absent, no key matches.
        if extras_present {
            lemma_obj_get_at(f, "extras"@, 5 + t);
        } else {
            lemma_obj_get_at(f, "extras"@, f.len() as int);
        }
        assert(spec_u64_field(f, "id"@) == Some(id));
        assert(spec_str_field(f, "message"@) == Some(mv.message));
        assert(spec_i32_field(f, "priority"@) == Some(priority));
        assert(spec_aliased_str_field(f, "timestamp"@, "date"@) == Some(mv.timestamp));
        assert(spec_aliased_u64_field(f, "app_id"@, "appid"@) == Some(app_id));
        assert(spec_opt_str_field(f, "title"@) == Some(mv.title));
        assert(spec_extras_field(f) == mv.extras);
        assert(spec_message_of(r) == Some(mv));
    }
    r
}

/// Decodes a JSON document as an application.
pub fn application_of_json(v: &JsonValue) -> (r: Option<Application>)
    ensures
        match r {
            Some(a) => spec_application_of(*v) == Some(a@),
            None => spec_application_of(*v) is None,
        },
{
    let fields = match v {
        JsonValue::Obj(fields) => fields,
        _ => {
            return None;
        },
    };
    let id: u64 = match obj_get(fields, "id") {
        Some(JsonValue::Num(lit)) => match parse_u64_str(lit.as_str()) {
            Some(n) => n,
            None => {
                return None;
            },
        },
        _ => {
            return None;
        },
    };
    let name: String = match obj_get(fields, "name") {
        Some(JsonValue::Str(s)) => s.clone(),
        _ => {
            return None;
        },
    };
    let description: String = match obj_get(fields, "description") {
        Some(JsonValue::Str(s)) => s.clone(),
        _ => {
            return None;
        },
    };
    let token: Option<String> = match obj_get(fields, "token") {
        None => None,
        Some(JsonValue::Null) => None,
        Some(JsonValue::Str(s)) => Some(s.clone()),
        Some(_) => {
            return None;
        },
    };
    Some(Application { id, name, description, token })
}

/// What decoding a text as a message yields: the parse of the text, where
/// it is valid JSON, decoded as a message.
pub open spec fn spec_message_of_text(s: Seq<char>) -> Option<MessageView> {
    match crate::json::json_parse(s) {
        Some(v) => spec_message_of(v),
        None => None,
    }
}

/// Decodes one JSON text as a message: the form stream frames and
/// single-message responses arrive in.
pub fn message_from_text(s: &str) -> (r: Option<Message>)
    ensures
        match r {
            Some(m) => spec_message_of_text(s@) == Some(m@),
            None => spec_message_of_text(s@) is None,
        },
{
    match crate::json::parse_json(s) {
        Some(v) => message_of_json(v),
        None => None,
    }
}

/// What decoding a text as an application yields.
pub open spec fn spec_application_of_text(s: Seq<char>) -> Option<ApplicationView> {
    match crate::json::json_parse(s) {
        Some(v) => spec_application_of(v),
        None => None,
    }
}

/// Decodes one JSON text as an application.
pub fn application_from_text(s: &str) -> (r: Option<Application>)
    ensures
        match r {
            Some(a) => spec_application_of_text(s@) == Some(a@),
            None => spec_application_of_text(s@) is None,
        },
{
    match crate::json::parse_json(s) {
        Some(v) => application_of_json(&v),
        None => None,
    }
}

} // verus!
