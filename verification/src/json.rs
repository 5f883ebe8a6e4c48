//! The JSON document model: parsing text through serde_json, looking fields
//! up, and rendering documents back to text with a verified encoder.
use vstd::prelude::*;
use vstd::string::StrSliceExecFns;
use vstd::string::StringExecFns;

verus! {

/// A decoded JSON document. Numbers keep their source literal so that
/// integer and fractional values pass through without loss.
#[derive(Debug)]
pub enum JsonValue {
    Null,
    Bool(bool),
    Num(String),
    Str(String),
    Arr(Vec<JsonValue>),
    Obj(Vec<(String, JsonValue)>),
}

/// What serde_json's parser yields for a given text, translated into
/// `JsonValue`; `None` where the text is not valid JSON.
pub uninterp spec fn json_parse(s: Seq<char>) -> Option<JsonValue>;

#[verifier::external_type_specification]
#[verifier::external_body]
pub struct ExSerdeValue(serde_json::Value);

/// Relies on serde_json::Value: one arm per variant, moving each field into
/// the matching `JsonValue` variant; numbers keep their decimal rendering.
/// Only `parse_json` calls this.
#[verifier::external_body]
fn value_to_json(v: &serde_json::Value) -> JsonValue {
    match v {
        serde_json::Value::Null => JsonValue::Null,
        serde_json::Value::Bool(b) => JsonValue::Bool(*b),
        serde_json::Value::Number(n) => JsonValue::Num(n.to_string()),
        serde_json::Value::String(s) => JsonValue::Str(s.clone()),
        serde_json::Value::Array(a) => JsonValue::Arr(a.iter().map(value_to_json).collect()),
        serde_json::Value::Object(o) => JsonValue::Obj(
            o.iter().map(|(k, x)| (k.clone(), value_to_json(x))).collect(),
        ),
    }
}

/// Relies on serde_json::from_str: deterministic parse of a JSON text.
#[verifier::external_body]
pub(crate) fn parse_json(s: &str) -> (r: Option<JsonValue>)
    ensures
        r == json_parse(s@),
{
    match serde_json::from_str::<serde_json::Value>(s) {
        Ok(v) => Some(value_to_json(&v)),
        Err(_) => None,
    }
}

/// The value under the first occurrence of `key` in an object's fields.
pub open spec fn spec_obj_get(fields: Seq<(String, JsonValue)>, key: Seq<char>) -> Option<
    JsonValue,
>
    decreases fields.len(),
{
    if fields.len() == 0 {
        None
    } else if fields[0].0@ == key {
        Some(fields[0].1)
    } else {
        spec_obj_get(fields.drop_first(), key)
    }
}

/// Looks a field up by key, first occurrence first.
pub fn obj_get<'a>(fields: &'a Vec<(String, JsonValue)>, key: &str) -> (r: Option<&'a JsonValue>)
    ensures
        match r {
            Some(v) => spec_obj_get(fields@, key@) == Some(*v),
            None => spec_obj_get(fields@, key@) is None,
        },
{
    let len = fields.len();
    let mut i: usize = 0;
    proof {
        assert(fields@.subrange(0, len as int) =~= fields@);
    }
    while i < len
        invariant
            len == fields@.len(),
            0 <= i <= len,
            spec_obj_get(fields@, key@) == spec_obj_get(
                fields@.subrange(i as int, len as int),
                key@,
            ),
        decreases len - i,
    {
        let ghost tail = fields@.subrange(i as int, len as int);
        proof {
            assert(tail[0] == fields@[i as int]);
            assert(tail.drop_first() =~= fields@.subrange(i as int + 1, len as int));
        }
        if crate::text::str_eq(fields[i].0.as_str(), key) {
            return Some(&fields[i].1);
        }
        i = i + 1;
    }
    None
}

/// Removes and returns the value under the first occurrence of `key`,
/// handing ownership of it to the caller.
pub fn obj_take(fields: Vec<(String, JsonValue)>, key: &str) -> (r: Option<JsonValue>)
    ensures
        r == spec_obj_get(fields@, key@),
{
    let ghost orig = fields@;
    let mut rest = fields;
    while rest.len() > 0
        invariant
            orig == fields@,
            spec_obj_get(orig, key@) == spec_obj_get(rest@, key@),
        decreases rest.len(),
    {
        let ghost before = rest@;
        let pair = rest.remove(0);
        proof {
            assert(before.drop_first() =~= rest@);
            assert(pair == before[0]);
        }
        if crate::text::str_eq(pair.0.as_str(), key) {
            proof {
                assert(before[0].0@ == key@);
                assert(spec_obj_get(before, key@) == Some(before[0].1));
                assert(pair.1 == before[0].1);
                assert(spec_obj_get(orig, key@) == Some(pair.1));
            }
            return Some(pair.1);
        }
    }
    None
}

/// The escape of one character inside a JSON string literal.
pub open spec fn escape_char(c: char) -> Seq<char> {
    if c == '"' {
        seq!['\\', '"']
    } else if c == '\\' {
        seq!['\\', '\\']
    } else if c == '\n' {
        seq!['\\', 'n']
    } else if c == '\r' {
        seq!['\\', 'r']
    } else if c == '\t' {
        seq!['\\', 't']
    } else if (c as int) < 32 {
        seq!['\\', 'u', '0', '0', hex_char((c as int) / 16), hex_char((c as int) % 16)]
    } else {
        seq![c]
    }
}

pub open spec fn hex_char(d: int) -> char
    recommends
        0 <= d < 16,
{
    if d == 0 {
        '0'
    } else if d == 1 {
        '1'
    } else if d == 2 {
        '2'
    } else if d == 3 {
        '3'
    } else if d == 4 {
        '4'
    } else if d == 5 {
        '5'
    } else if d == 6 {
        '6'
    } else if d == 7 {
        '7'
    } else if d == 8 {
        '8'
    } else if d == 9 {
        '9'
    } else if d == 10 {
        'a'
    } else if d == 11 {
        'b'
    } else if d == 12 {
        'c'
    } else if d == 13 {
        'd'
    } else if d == 14 {
        'e'
    } else {
        'f'
    }
}

/// The escape of the first `i` characters of a string body.
pub open spec fn escape_upto(s: Seq<char>, i: int) -> Seq<char>
    decreases i,
{
    if i <= 0 {
        Seq::empty()
    } else {
        escape_upto(s, i - 1) + escape_char(s[i - 1])
    }
}

/// The escaped body of a JSON string literal.
pub open spec fn escape_seq(s: Seq<char>) -> Seq<char> {
    escape_upto(s, s.len() as int)
}

fn hex_string(d: u32) -> (r: &'static str)
    requires
        d < 16,
    ensures
        r@ =~= seq![hex_char(d as int)],
{
    proof {
        reveal_strlit("0");
        reveal_strlit("1");
        reveal_strlit("2");
        reveal_strlit("3");
        reveal_strlit("4");
        reveal_strlit("5");
        reveal_strlit("6");
        reveal_strlit("7");
        reveal_strlit("8");
        reveal_strlit("9");
        reveal_strlit("a");
        reveal_strlit("b");
        reveal_strlit("c");
        reveal_strlit("d");
        reveal_strlit("e");
        reveal_strlit("f");
    }
    if d == 0 {
        "0"
    } else if d == 1 {
        "1"
    } else if d == 2 {
        "2"
    } else if d == 3 {
        "3"
    } else if d == 4 {
        "4"
    } else if d == 5 {
        "5"
    } else if d == 6 {
        "6"
    } else if d == 7 {
        "7"
    } else if d == 8 {
        "8"
    } else if d == 9 {
        "9"
    } else if d == 10 {
        "a"
    } else if d == 11 {
        "b"
    } else if d == 12 {
        "c"
    } else if d == 13 {
        "d"
    } else if d == 14 {
        "e"
    } else {
        "f"
    }
}

/// Appends one escaped character.
fn append_escaped_char(out: &mut String, c: char)
    ensures
        final(out)@ == old(out)@ + escape_char(c),
{
    if c == '"' {
        out.append("\\\"");
        proof {
            reveal_strlit("\\\"");
            assert(final(out)@ =~= old(out)@ + escape_char(c));
        }
    } else if c == '\\' {
        out.append("\\\\");
        proof {
            reveal_strlit("\\\\");
            assert(final(out)@ =~= old(out)@ + escape_char(c));
        }
    } else if c == '\n' {
        out.append("\\n");
        proof {
            reveal_strlit("\\n");
            assert(final(out)@ =~= old(out)@ + escape_char(c));
        }
    } else if c == '\r' {
        out.append("\\r");
        proof {
            reveal_strlit("\\r");
            assert(final(out)@ =~= old(out)@ + escape_char(c));
        }
    } else if c == '\t' {
        out.append("\\t");
        proof {
            reveal_strlit("\\t");
            assert(final(out)@ =~= old(out)@ + escape_char(c));
        }
    } else if (c as u32) < 32 {
        out.append("\\u00");
        let code = c as u32;
        out.append(hex_string(code / 16));
        out.append(hex_string(code % 16));
        proof {
            reveal_strlit("\\u00");
            assert(final(out)@ =~= old(out)@ + escape_char(c));
        }
    } else {
        let mut one = String::new();
        one.push(c);
        out.append(one.as_str());
        proof {
            assert(final(out)@ =~= old(out)@ + escape_char(c));
        }
    }
}

/// Appends the escaped body of a string.
fn append_escaped(out: &mut String, s: &str)
    ensures
        final(out)@ == old(out)@ + escape_seq(s@),
{
    let len = s.unicode_len();
    let mut i: usize = 0;
    while i < len
        invariant
            len == s@.len(),
            0 <= i <= len,
            out@ == old(out)@ + escape_upto(s@, i as int),
        decreases len - i,
    {
        let c = s.get_char(i);
        append_escaped_char(out, c);
        proof {
            assert(out@ =~= old(out)@ + escape_upto(s@, i as int + 1));
        }
        i = i + 1;
    }
}

/// The text rendering of a JSON document.
pub open spec fn json_text(v: JsonValue) -> Seq<char>
    decreases v, 0int,
{
    match v {
        JsonValue::Null => "null"@,
        JsonValue::Bool(b) => if b {
            "true"@
        } else {
            "false"@
        },
        JsonValue::Num(lit) => lit@,
        JsonValue::Str(s) => seq!['"'] + escape_seq(s@) + seq!['"'],
        JsonValue::Arr(items) => seq!['['] + arr_text(items@, 0) + seq![']'],
        JsonValue::Obj(fields) => seq!['{'] + obj_text(fields@, 0) + seq!['}'],
    }
}

/// The comma-separated renderings of an array's items from `i` on.
pub open spec fn arr_text(items: Seq<JsonValue>, i: int) -> Seq<char>
    decreases items, items.len() - i,
{
    if i < 0 || i >= items.len() {
        Seq::empty()
    } else {
        let sep: Seq<char> = if i > 0 {
            seq![',']
        } else {
            Seq::empty()
        };
        sep + json_text(items[i]) + arr_text(items, i + 1)
    }
}

/// The comma-separated renderings of an object's fields from `i` on.
pub open spec fn obj_text(fields: Seq<(String, JsonValue)>, i: int) -> Seq<char>
    decreases fields, fields.len() - i,
{
    if i < 0 || i >= fields.len() {
        Seq::empty()
    } else {
        let sep: Seq<char> = if i > 0 {
            seq![',']
        } else {
            Seq::empty()
        };
        sep + seq!['"'] + escape_seq(fields[i].0@) + seq!['"', ':'] + json_text(fields[i].1)
            + obj_text(fields, i + 1)
    }
}

/// Renders a document as JSON text.
pub fn json_to_text(v: &JsonValue) -> (s: String)
    ensures
        s@ == json_text(*v),
    decreases *v, 0int,
{
    match v {
        JsonValue::Null => "null".to_owned(),
        JsonValue::Bool(b) => if *b {
            "true".to_owned()
        } else {
            "false".to_owned()
        },
        JsonValue::Num(lit) => lit.clone(),
        JsonValue::Str(body) => {
            let mut s = String::from_str("\"");
            proof {
                reveal_strlit("\"");
            }
            append_escaped(&mut s, body.as_str());
            s.append("\"");
            proof {
                assert(s@ =~= json_text(*v));
            }
            s
        },
        JsonValue::Arr(items) => {
            let mut s = String::from_str("[");
            proof {
                reveal_strlit("[");
                reveal_strlit("]");
            }
            append_arr_text(&mut s, items, 0);
            s.append("]");
            proof {
                assert(s@ =~= json_text(*v));
            }
            s
        },
        JsonValue::Obj(fields) => {
            let mut s = String::from_str("{");
            proof {
                reveal_strlit("{");
                reveal_strlit("}");
            }
            append_obj_text(&mut s, fields, 0);
            s.append("}");
            proof {
                assert(s@ =~= json_text(*v));
            }
            s
        },
    }
}

/// Appends the renderings of an array's items from `i` on.
fn append_arr_text(out: &mut String, items: &Vec<JsonValue>, i: usize)
    requires
        i <= items@.len(),
    ensures
        final(out)@ == old(out)@ + arr_text(items@, i as int),
    decreases items@, items@.len() - i,
{
    if i < items.len() {
        if i > 0 {
            out.append(",");
            proof {
                reveal_strlit(",");
            }
        }
        let piece = json_to_text(&items[i]);
        out.append(piece.as_str());
        append_arr_text(out, items, i + 1);
        proof {
            assert(final(out)@ =~= old(out)@ + arr_text(items@, i as int));
        }
    }
}

/// Appends the renderings of an object's fields from `i` on.
fn append_obj_text(out: &mut String, fields: &Vec<(String, JsonValue)>, i: usize)
    requires
        i <= fields@.len(),
    ensures
        final(out)@ == old(out)@ + obj_text(fields@, i as int),
    decreases fields@, fields@.len() - i,
{
    if i < fields.len() {
        if i > 0 {
            out.append(",");
            proof {
                reveal_strlit(",");
            }
        }
        out.append("\"");
        append_escaped(out, fields[i].0.as_str());
        out.append("\"");
        out.append(":");
        proof {
            reveal_strlit("\"");
            reveal_strlit(":");
        }
        let piece = json_to_text(&fields[i].1);
        out.append(piece.as_str());
        append_obj_text(out, fields, i + 1);
        proof {
            assert(final(out)@ =~= old(out)@ + obj_text(fields@, i as int));
        }
    }
}

} // verus!
