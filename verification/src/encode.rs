//! The exact wire encoding of a request, byte for byte.
//!
//! The endpoint takes a JSON object. This module defines that encoding as
//! spec functions over the abstract models of the data types, and verified
//! executable functions that produce exactly those bytes. Absent optional
//! fields are omitted entirely: no null placeholder ever reaches the wire.
//!
//! Every encoder appends to a byte vector. An object or array is assembled
//! from member fragments that each begin with a separating comma; the
//! wrapper drops the first comma, so members are comma-separated exactly.

use vstd::prelude::*;
use vstd::utf8::encode_utf8;
use vstd::string::StringSliceAdditionalSpecFns;

use crate::message::{AssistantFunc, AssistantFuncModel, Message, MessageModel, ToolCall,
    ToolCallModel, opt_view};
use crate::num::{Number, spec_dec_digits, spec_i64_digits, spec_number, push_number,
    push_u64_digits, push_i32_digits};
use crate::request::{Function, FunctionModel, Request, RequestModel, ResponseFormat, StopEnum,
    StopModel, Tool, ToolChoiceEnum, ToolChoiceModel, ToolModel};

verus! {

/// The bytes of a literal piece of wire text.
pub open spec fn lit_bytes(s: &str) -> Seq<u8> {
    encode_utf8(s@)
}

/// Appends the bytes of a slice.
pub fn append_bytes(out: &mut Vec<u8>, bs: &[u8])
    ensures
        final(out)@ == old(out)@ + bs@,
{
    let mut i: usize = 0;
    while i < bs.len()
        invariant
            i <= bs@.len(),
            out@ == old(out)@ + bs@.subrange(0, i as int),
        decreases bs@.len() - i,
    {
        out.push(bs[i]);
        assert(out@ =~= old(out)@ + bs@.subrange(0, (i + 1) as int));
        i += 1;
    }
    assert(bs@.subrange(0, bs@.len() as int) =~= bs@);
}

/// Appends a literal piece of wire text.
pub fn append_lit(out: &mut Vec<u8>, s: &str)
    ensures
        final(out)@ == old(out)@ + lit_bytes(s),
{
    append_bytes(out, s.as_bytes());
}

/// The wire byte for the hexadecimal digit `d`, lower case.
pub open spec fn spec_hex(d: nat) -> u8
    recommends
        d < 16,
{
    if d < 10 {
        (48 + d) as u8
    } else {
        (87 + d) as u8
    }
}

/// The escape of one byte inside a JSON string literal: quote and
/// backslash take a backslash, the named control characters take their
/// short form, other control bytes take a four-digit escape, and every
/// remaining byte stands for itself.
pub open spec fn esc_byte(b: u8) -> Seq<u8> {
    if b == 34 {
        seq![92u8, 34u8]
    } else if b == 92 {
        seq![92u8, 92u8]
    } else if b == 8 {
        seq![92u8, 98u8]
    } else if b == 9 {
        seq![92u8, 116u8]
    } else if b == 10 {
        seq![92u8, 110u8]
    } else if b == 12 {
        seq![92u8, 102u8]
    } else if b == 13 {
        seq![92u8, 114u8]
    } else if b < 32 {
        seq![92u8, 117u8, 48u8, 48u8, spec_hex(b as nat / 16), spec_hex(b as nat % 16)]
    } else {
        seq![b]
    }
}

/// The escapes of the bytes of `bs` from position `i` on, concatenated.
pub open spec fn esc_from(bs: Seq<u8>, i: int) -> Seq<u8>
    decreases bs.len() - i,
{
    if i < 0 || i >= bs.len() {
        Seq::empty()
    } else {
        esc_byte(bs[i]) + esc_from(bs, i + 1)
    }
}

/// The escapes of all bytes of `bs`, concatenated.
pub open spec fn esc_all(bs: Seq<u8>) -> Seq<u8> {
    esc_from(bs, 0)
}

/// The wire bytes of the characters `cs` as a JSON string literal.
pub open spec fn json_string(cs: Seq<char>) -> Seq<u8> {
    seq![34u8] + esc_all(encode_utf8(cs)) + seq![34u8]
}

/// The value of a lower-case hexadecimal digit byte; inverse of
/// [`spec_hex`]. Only the escape round trip below reads it.
pub open spec fn unhex(x: u8) -> u8 {
    if x < 58 {
        (x - 48) as u8
    } else {
        (x - 87) as u8
    }
}

/// What a decoder makes of an escaped byte run: the inverse reading of
/// [`esc_byte`] runs. A malformed run reads as empty; only the round trip
/// below uses this function.
pub open spec fn unesc(bs: Seq<u8>) -> Seq<u8>
    decreases bs.len(),
{
    if bs.len() == 0 {
        Seq::empty()
    } else if bs[0] != 92 {
        seq![bs[0]] + unesc(bs.drop_first())
    } else if bs.len() < 2 {
        Seq::empty()
    } else {
        let x = bs[1];
        if x == 34 {
            seq![34u8] + unesc(bs.skip(2))
        } else if x == 92 {
            seq![92u8] + unesc(bs.skip(2))
        } else if x == 98 {
            seq![8u8] + unesc(bs.skip(2))
        } else if x == 116 {
            seq![9u8] + unesc(bs.skip(2))
        } else if x == 110 {
            seq![10u8] + unesc(bs.skip(2))
        } else if x == 102 {
            seq![12u8] + unesc(bs.skip(2))
        } else if x == 114 {
            seq![13u8] + unesc(bs.skip(2))
        } else if x == 117 && bs.len() >= 6 {
            seq![(16 * unhex(bs[4]) + unhex(bs[5])) as u8] + unesc(bs.skip(6))
        } else {
            Seq::empty()
        }
    }
}

/// The escape reads back to what was escaped: from position `i` on, the
/// inverse reading of the escapes gives the original bytes.
pub proof fn lemma_unesc_esc_from(bs: Seq<u8>, i: int)
    requires
        0 <= i <= bs.len(),
    ensures
        unesc(esc_from(bs, i)) == bs.skip(i),
    decreases bs.len() - i,
{
    if i == bs.len() {
        assert(bs.skip(i) =~= Seq::<u8>::empty());
    } else {
        lemma_unesc_esc_from(bs, i + 1);
        let b = bs[i];
        let head = esc_byte(b);
        let rest = esc_from(bs, i + 1);
        let whole = head + rest;
        if b == 34 || b == 92 || b == 8 || b == 9 || b == 10 || b == 12 || b == 13 {
            assert(whole.skip(2) =~= rest);
            assert(unesc(whole) == seq![b] + unesc(rest));
        } else if b < 32 {
            assert(whole.len() >= 6);
            assert(whole[4] == spec_hex(b as nat / 16));
            assert(whole[5] == spec_hex(b as nat % 16));
            assert(unhex(spec_hex(b as nat / 16)) == b / 16);
            assert(unhex(spec_hex(b as nat % 16)) == b % 16);
            assert((16 * unhex(whole[4]) + unhex(whole[5])) as u8 == b);
            assert(whole.skip(6) =~= rest);
            assert(unesc(whole) == seq![b] + unesc(rest));
        } else {
            assert(whole.drop_first() =~= rest);
            assert(unesc(whole) == seq![b] + unesc(rest));
        }
        assert(seq![b] + bs.skip(i + 1) =~= bs.skip(i));
    }
}

/// The escape is injective: distinct byte runs escape to distinct text.
pub proof fn lemma_esc_injective(b1: Seq<u8>, b2: Seq<u8>)
    requires
        esc_all(b1) == esc_all(b2),
    ensures
        b1 == b2,
{
    lemma_unesc_esc_from(b1, 0);
    lemma_unesc_esc_from(b2, 0);
    assert(b1.skip(0) =~= b1);
    assert(b2.skip(0) =~= b2);
}

/// A string literal on the wire pins its characters down: distinct
/// character sequences give distinct literals.
pub proof fn lemma_json_string_injective(c1: Seq<char>, c2: Seq<char>)
    requires
        json_string(c1) == json_string(c2),
    ensures
        c1 == c2,
{
    broadcast use vstd::utf8::encode_utf8_decode_utf8;

    let e1 = esc_all(encode_utf8(c1));
    let e2 = esc_all(encode_utf8(c2));
    assert(e1 =~= json_string(c1).subrange(1, json_string(c1).len() - 1));
    assert(e2 =~= json_string(c2).subrange(1, json_string(c2).len() - 1));
    lemma_esc_injective(encode_utf8(c1), encode_utf8(c2));
    assert(vstd::utf8::decode_utf8(encode_utf8(c1)) == c1);
    assert(vstd::utf8::decode_utf8(encode_utf8(c2)) == c2);
}

/// A differing string field differs on the wire: inside any fixed
/// surrounding bytes, two string fields with different characters give
/// different payloads.
pub proof fn lemma_differing_string_field_differs(
    prefix: Seq<u8>,
    suffix: Seq<u8>,
    c1: Seq<char>,
    c2: Seq<char>,
)
    requires
        c1 != c2,
    ensures
        prefix + json_string(c1) + suffix != prefix + json_string(c2) + suffix,
{
    let p1 = prefix + json_string(c1) + suffix;
    let p2 = prefix + json_string(c2) + suffix;
    if p1 == p2 {
        let n1 = json_string(c1).len() as int;
        let n2 = json_string(c2).len() as int;
        assert(p1.len() == prefix.len() + n1 + suffix.len());
        assert(p2.len() == prefix.len() + n2 + suffix.len());
        assert(n1 == n2);
        assert(json_string(c1) =~= p1.subrange(prefix.len() as int, prefix.len() + n1));
        assert(json_string(c2) =~= p2.subrange(prefix.len() as int, prefix.len() + n2));
        lemma_json_string_injective(c1, c2);
    }
}

/// The wire byte for the hexadecimal digit `d`, lower case.
fn hex_digit(d: u8) -> (r: u8)
    requires
        d < 16,
    ensures
        r == spec_hex(d as nat),
{
    if d < 10 {
        48 + d
    } else {
        87 + d
    }
}

/// Appends the escaped form of every byte of `bs`.
fn append_escaped(out: &mut Vec<u8>, bs: &[u8])
    ensures
        final(out)@ == old(out)@ + esc_all(bs@),
{
    let mut i: usize = 0;
    while i < bs.len()
        invariant
            i <= bs@.len(),
            out@ + esc_from(bs@, i as int) == old(out)@ + esc_all(bs@),
        decreases bs@.len() - i,
    {
        let ghost prev = out@;
        let b = bs[i];
        if b == 34 {
            out.push(92);
            out.push(34);
        } else if b == 92 {
            out.push(92);
            out.push(92);
        } else if b == 8 {
            out.push(92);
            out.push(98);
        } else if b == 9 {
            out.push(92);
            out.push(116);
        } else if b == 10 {
            out.push(92);
            out.push(110);
        } else if b == 12 {
            out.push(92);
            out.push(102);
        } else if b == 13 {
            out.push(92);
            out.push(114);
        } else if b < 32 {
            out.push(92);
            out.push(117);
            out.push(48);
            out.push(48);
            out.push(hex_digit(b / 16));
            out.push(hex_digit(b % 16));
        } else {
            out.push(b);
        }
        assert(out@ =~= prev + esc_byte(bs@[i as int]));
        assert(prev + esc_byte(bs@[i as int]) + esc_from(bs@, i + 1) =~= prev + esc_from(
            bs@,
            i as int,
        ));
        i += 1;
    }
}

/// Appends the characters of `s` as a JSON string literal.
pub fn append_json_string(out: &mut Vec<u8>, s: &str)
    ensures
        final(out)@ == old(out)@ + json_string(s@),
{
    out.push(34);
    append_escaped(out, s.as_bytes());
    out.push(34);
    assert(out@ =~= old(out)@ + json_string(s@));
}

/// An object or array assembled from member fragments: `fields` holds the
/// members, each preceded by a separating comma, and the wrapper drops the
/// first comma.
pub open spec fn spec_group(open: u8, fields: Seq<u8>, close: u8) -> Seq<u8> {
    if fields.len() > 0 {
        seq![open] + fields.skip(1) + seq![close]
    } else {
        seq![open, close]
    }
}

/// Appends `fields` wrapped as a group, dropping the leading comma.
pub fn append_group(out: &mut Vec<u8>, open: u8, fields: &Vec<u8>, close: u8)
    ensures
        final(out)@ == old(out)@ + spec_group(open, fields@, close),
{
    out.push(open);
    if fields.len() > 0 {
        let mut i: usize = 1;
        while i < fields.len()
            invariant
                1 <= i <= fields@.len(),
                out@ == old(out)@ + seq![open] + fields@.subrange(1, i as int),
            decreases fields@.len() - i,
        {
            out.push(fields[i]);
            assert(out@ =~= old(out)@ + seq![open] + fields@.subrange(1, (i + 1) as int));
            i += 1;
        }
        assert(fields@.subrange(1, fields@.len() as int) =~= fields@.skip(1));
    }
    out.push(close);
    assert(out@ =~= old(out)@ + spec_group(open, fields@, close));
}

/// The member fragment for an optional string field: a comma, the key and
/// the value when present, nothing when absent.
pub open spec fn opt_str_field(key: &str, v: Option<Seq<char>>) -> Seq<u8> {
    match v {
        Some(cs) => lit_bytes(key) + json_string(cs),
        None => Seq::empty(),
    }
}

/// Appends the member fragment for an optional string field.
pub fn append_opt_str_field(out: &mut Vec<u8>, key: &str, v: &Option<String>)
    ensures
        final(out)@ == old(out)@ + opt_str_field(key, opt_view(*v)),
{
    match v {
        Some(s) => {
            append_lit(out, key);
            append_json_string(out, s.as_str());
        },
        None => {},
    }
}

/// The wire bytes of a tool-call function descriptor.
pub open spec fn spec_assistant_func(f: AssistantFuncModel) -> Seq<u8> {
    spec_group(
        123,
        opt_str_field(",\"arguments\":", f.arguments) + opt_str_field(",\"name\":", f.name),
        125,
    )
}

/// The wire bytes of one tool call.
pub open spec fn spec_tool_call(t: ToolCallModel) -> Seq<u8> {
    spec_group(
        123,
        opt_str_field(",\"id\":", t.id) + opt_str_field(",\"type\":", t.tool_type) + lit_bytes(
            ",\"function\":",
        ) + spec_assistant_func(t.function),
        125,
    )
}

/// The member fragments of a tool-call list from position `i` on.
pub open spec fn spec_tool_call_items(ts: Seq<ToolCallModel>, i: int) -> Seq<u8>
    decreases ts.len() - i,
{
    if i < 0 || i >= ts.len() {
        Seq::empty()
    } else {
        seq![44u8] + spec_tool_call(ts[i]) + spec_tool_call_items(ts, i + 1)
    }
}

/// The wire bytes of a tool-call list.
pub open spec fn spec_tool_calls(ts: Seq<ToolCallModel>) -> Seq<u8> {
    spec_group(91, spec_tool_call_items(ts, 0), 93)
}

/// Appends the wire bytes of a tool-call function descriptor.
pub fn append_assistant_func(out: &mut Vec<u8>, f: &AssistantFunc)
    ensures
        final(out)@ == old(out)@ + spec_assistant_func(f@),
{
    let mut fields: Vec<u8> = Vec::new();
    append_opt_str_field(&mut fields, ",\"arguments\":", &f.arguments);
    append_opt_str_field(&mut fields, ",\"name\":", &f.name);
    append_group(out, 123, &fields, 125);
}

/// Appends the wire bytes of one tool call.
pub fn append_tool_call(out: &mut Vec<u8>, t: &ToolCall)
    ensures
        final(out)@ == old(out)@ + spec_tool_call(t@),
{
    let mut fields: Vec<u8> = Vec::new();
    append_opt_str_field(&mut fields, ",\"id\":", &t.id);
    append_opt_str_field(&mut fields, ",\"type\":", &t.tool_type);
    append_lit(&mut fields, ",\"function\":");
    append_assistant_func(&mut fields, &t.function);
    append_group(out, 123, &fields, 125);
}

/// Appends the wire bytes of a tool-call list.
pub fn append_tool_calls(out: &mut Vec<u8>, ts: &Vec<ToolCall>)
    ensures
        final(out)@ == old(out)@ + spec_tool_calls(ts@.map_values(|t: ToolCall| t@)),
{
    let ghost model = ts@.map_values(|t: ToolCall| t@);
    let mut items: Vec<u8> = Vec::new();
    let mut i: usize = 0;
    while i < ts.len()
        invariant
            i <= ts@.len(),
            model == ts@.map_values(|t: ToolCall| t@),
            items@ + spec_tool_call_items(model, i as int) == spec_tool_call_items(model, 0),
        decreases ts@.len() - i,
    {
        let ghost prev = items@;
        items.push(44);
        append_tool_call(&mut items, &ts[i]);
        assert(items@ =~= prev + (seq![44u8] + spec_tool_call(model[i as int])));
        assert(prev + (seq![44u8] + spec_tool_call(model[i as int])) + spec_tool_call_items(
            model,
            i + 1,
        ) =~= prev + spec_tool_call_items(model, i as int));
        i += 1;
    }
    append_group(out, 91, &items, 93);
}

/// The common optional fields of a message, in wire order.
pub open spec fn spec_plain_msg_fields(
    content: Option<Seq<char>>,
    name: Option<Seq<char>>,
    role: Option<Seq<char>>,
    tool_call_id: Option<Seq<char>>,
) -> Seq<u8> {
    opt_str_field(",\"content\":", content) + opt_str_field(",\"name\":", name) + opt_str_field(
        ",\"role\":",
        role,
    ) + opt_str_field(",\"tool_call_id\":", tool_call_id)
}

/// The wire bytes of one message: an object holding exactly the present
/// fields, in wire order; the assistant variant carries its tool calls
/// between the role and the tool-call linkage id.
pub open spec fn spec_message(m: MessageModel) -> Seq<u8> {
    match m {
        MessageModel::System { content, name, role, tool_call_id } => spec_group(
            123,
            spec_plain_msg_fields(content, name, role, tool_call_id),
            125,
        ),
        MessageModel::User { content, name, role, tool_call_id } => spec_group(
            123,
            spec_plain_msg_fields(content, name, role, tool_call_id),
            125,
        ),
        MessageModel::Assistant { content, name, role, tool_calls, tool_call_id } => spec_group(
            123,
            opt_str_field(",\"content\":", content) + opt_str_field(",\"name\":", name)
                + opt_str_field(",\"role\":", role) + (match tool_calls {
                Some(ts) => lit_bytes(",\"tool_calls\":") + spec_tool_calls(ts),
                None => Seq::empty(),
            }) + opt_str_field(",\"tool_call_id\":", tool_call_id),
            125,
        ),
        MessageModel::Tool { content, name, role, tool_call_id } => spec_group(
            123,
            spec_plain_msg_fields(content, name, role, tool_call_id),
            125,
        ),
    }
}

/// Appends the wire bytes of one message.
pub fn append_message(out: &mut Vec<u8>, m: &Message)
    ensures
        final(out)@ == old(out)@ + spec_message(m@),
{
    let mut fields: Vec<u8> = Vec::new();
    match m {
        Message::SystemMessage { content, name, role, tool_call_id } => {
            append_opt_str_field(&mut fields, ",\"content\":", content);
            append_opt_str_field(&mut fields, ",\"name\":", name);
            append_opt_str_field(&mut fields, ",\"role\":", role);
            append_opt_str_field(&mut fields, ",\"tool_call_id\":", tool_call_id);
        },
        Message::UserMessage { content, name, role, tool_call_id } => {
            append_opt_str_field(&mut fields, ",\"content\":", content);
            append_opt_str_field(&mut fields, ",\"name\":", name);
            append_opt_str_field(&mut fields, ",\"role\":", role);
            append_opt_str_field(&mut fields, ",\"tool_call_id\":", tool_call_id);
        },
        Message::AssistantMessage { content, name, role, tool_calls, tool_call_id } => {
            append_opt_str_field(&mut fields, ",\"content\":", content);
            append_opt_str_field(&mut fields, ",\"name\":", name);
            append_opt_str_field(&mut fields, ",\"role\":", role);
            match tool_calls {
                Some(ts) => {
                    append_lit(&mut fields, ",\"tool_calls\":");
                    append_tool_calls(&mut fields, ts);
                },
                None => {},
            }
            append_opt_str_field(&mut fields, ",\"tool_call_id\":", tool_call_id);
        },
        Message::ToolMessage { content, name, role, tool_call_id } => {
            append_opt_str_field(&mut fields, ",\"content\":", content);
            append_opt_str_field(&mut fields, ",\"name\":", name);
            append_opt_str_field(&mut fields, ",\"role\":", role);
            append_opt_str_field(&mut fields, ",\"tool_call_id\":", tool_call_id);
        },
    }
    append_group(out, 123, &fields, 125);
}

/// The wire bytes of a boolean.
pub open spec fn spec_bool(b: bool) -> Seq<u8> {
    if b {
        lit_bytes("true")
    } else {
        lit_bytes("false")
    }
}

/// Appends the wire bytes of a boolean.
pub fn append_bool(out: &mut Vec<u8>, b: bool)
    ensures
        final(out)@ == old(out)@ + spec_bool(b),
{
    if b {
        append_lit(out, "true");
    } else {
        append_lit(out, "false");
    }
}

/// The member fragment for an optional raw-JSON field: the value's own
/// text is spliced verbatim.
pub open spec fn opt_raw_field(key: &str, v: Option<Seq<char>>) -> Seq<u8> {
    match v {
        Some(cs) => lit_bytes(key) + encode_utf8(cs),
        None => Seq::empty(),
    }
}

/// Appends the member fragment for an optional raw-JSON field.
pub fn append_opt_raw_field(out: &mut Vec<u8>, key: &str, v: &Option<String>)
    ensures
        final(out)@ == old(out)@ + opt_raw_field(key, opt_view(*v)),
{
    match v {
        Some(s) => {
            append_lit(out, key);
            append_bytes(out, s.as_str().as_bytes());
        },
        None => {},
    }
}

/// The member fragments of a string list from position `i` on.
pub open spec fn spec_string_items(ss: Seq<Seq<char>>, i: int) -> Seq<u8>
    decreases ss.len() - i,
{
    if i < 0 || i >= ss.len() {
        Seq::empty()
    } else {
        seq![44u8] + json_string(ss[i]) + spec_string_items(ss, i + 1)
    }
}

/// The wire bytes of a string list.
pub open spec fn spec_string_array(ss: Seq<Seq<char>>) -> Seq<u8> {
    spec_group(91, spec_string_items(ss, 0), 93)
}

/// Appends the wire bytes of a string list.
pub fn append_string_array(out: &mut Vec<u8>, ss: &Vec<String>)
    ensures
        final(out)@ == old(out)@ + spec_string_array(ss@.map_values(|s: String| s@)),
{
    let ghost model = ss@.map_values(|s: String| s@);
    let mut items: Vec<u8> = Vec::new();
    let mut i: usize = 0;
    while i < ss.len()
        invariant
            i <= ss@.len(),
            model == ss@.map_values(|s: String| s@),
            items@ + spec_string_items(model, i as int) == spec_string_items(model, 0),
        decreases ss@.len() - i,
    {
        let ghost prev = items@;
        items.push(44);
        append_json_string(&mut items, ss[i].as_str());
        assert(items@ =~= prev + (seq![44u8] + json_string(model[i as int])));
        assert(prev + (seq![44u8] + json_string(model[i as int])) + spec_string_items(
            model,
            i + 1,
        ) =~= prev + spec_string_items(model, i as int));
        i += 1;
    }
    append_group(out, 91, &items, 93);
}

/// The wire bytes of the stop criterion: a single token is a scalar
/// string, a token list is an array of strings.
pub open spec fn spec_stop(s: StopModel) -> Seq<u8> {
    match s {
        StopModel::Token(t) => json_string(t),
        StopModel::Tokens(ts) => spec_string_array(ts),
    }
}

/// Appends the wire bytes of the stop criterion.
pub fn append_stop(out: &mut Vec<u8>, s: &StopEnum)
    ensures
        final(out)@ == old(out)@ + spec_stop(s@),
{
    match s {
        StopEnum::Token(t) => append_json_string(out, t.as_str()),
        StopEnum::Tokens(ts) => append_string_array(out, ts),
    }
}

/// The wire bytes of the response-format tag.
pub open spec fn spec_response_format(tag: Seq<char>) -> Seq<u8> {
    lit_bytes("{\"type\":") + json_string(tag) + lit_bytes("}")
}

/// Appends the wire bytes of the response-format tag.
pub fn append_response_format(out: &mut Vec<u8>, fmt: &ResponseFormat)
    ensures
        final(out)@ == old(out)@ + spec_response_format(fmt.response_type@),
{
    append_lit(out, "{\"type\":");
    append_json_string(out, fmt.response_type.as_str());
    append_lit(out, "}");
}

/// The wire bytes of a tool's function declaration.
pub open spec fn spec_function(f: FunctionModel) -> Seq<u8> {
    spec_group(
        123,
        opt_str_field(",\"description\":", f.description) + opt_str_field(",\"name\":", f.name)
            + opt_raw_field(",\"parameters\":", f.parameters),
        125,
    )
}

/// Appends the wire bytes of a tool's function declaration.
pub fn append_function(out: &mut Vec<u8>, f: &Function)
    ensures
        final(out)@ == old(out)@ + spec_function(f@),
{
    let mut fields: Vec<u8> = Vec::new();
    append_opt_str_field(&mut fields, ",\"description\":", &f.description);
    append_opt_str_field(&mut fields, ",\"name\":", &f.name);
    append_opt_raw_field(&mut fields, ",\"parameters\":", &f.parameters);
    append_group(out, 123, &fields, 125);
}

/// The wire bytes of one tool declaration.
pub open spec fn spec_tool(t: ToolModel) -> Seq<u8> {
    spec_group(
        123,
        lit_bytes(",\"type\":") + json_string(t.tool_type) + lit_bytes(",\"function\":")
            + spec_function(t.function),
        125,
    )
}

/// Appends the wire bytes of one tool declaration.
pub fn append_tool(out: &mut Vec<u8>, t: &Tool)
    ensures
        final(out)@ == old(out)@ + spec_tool(t@),
{
    let mut fields: Vec<u8> = Vec::new();
    append_lit(&mut fields, ",\"type\":");
    append_json_string(&mut fields, t.tool_type.as_str());
    append_lit(&mut fields, ",\"function\":");
    append_function(&mut fields, &t.function);
    append_group(out, 123, &fields, 125);
}

/// The member fragments of a tool list from position `i` on.
pub open spec fn spec_tool_items(ts: Seq<ToolModel>, i: int) -> Seq<u8>
    decreases ts.len() - i,
{
    if i < 0 || i >= ts.len() {
        Seq::empty()
    } else {
        seq![44u8] + spec_tool(ts[i]) + spec_tool_items(ts, i + 1)
    }
}

/// The wire bytes of a tool list.
pub open spec fn spec_tools(ts: Seq<ToolModel>) -> Seq<u8> {
    spec_group(91, spec_tool_items(ts, 0), 93)
}

/// Appends the wire bytes of a tool list.
pub fn append_tools(out: &mut Vec<u8>, ts: &Vec<Tool>)
    ensures
        final(out)@ == old(out)@ + spec_tools(ts@.map_values(|t: Tool| t@)),
{
    let ghost model = ts@.map_values(|t: Tool| t@);
    let mut items: Vec<u8> = Vec::new();
    let mut i: usize = 0;
    while i < ts.len()
        invariant
            i <= ts@.len(),
            model == ts@.map_values(|t: Tool| t@),
            items@ + spec_tool_items(model, i as int) == spec_tool_items(model, 0),
        decreases ts@.len() - i,
    {
        let ghost prev = items@;
        items.push(44);
        append_tool(&mut items, &ts[i]);
        assert(items@ =~= prev + (seq![44u8] + spec_tool(model[i as int])));
        assert(prev + (seq![44u8] + spec_tool(model[i as int])) + spec_tool_items(model, i + 1)
            =~= prev + spec_tool_items(model, i as int));
        i += 1;
    }
    append_group(out, 91, &items, 93);
}

/// The wire bytes of the tool-choice policy: the policy string, or one
/// tool declaration.
pub open spec fn spec_tool_choice(c: ToolChoiceModel) -> Seq<u8> {
    match c {
        ToolChoiceModel::Str(s) => json_string(s),
        ToolChoiceModel::Tool(t) => spec_tool(t),
    }
}

/// Appends the wire bytes of the tool-choice policy.
pub fn append_tool_choice(out: &mut Vec<u8>, c: &ToolChoiceEnum)
    ensures
        final(out)@ == old(out)@ + spec_tool_choice(c@),
{
    match c {
        ToolChoiceEnum::Str(s) => append_json_string(out, s.as_str()),
        ToolChoiceEnum::Tool(t) => append_tool(out, t),
    }
}

/// The member fragments of a message list from position `i` on.
pub open spec fn spec_message_items(ms: Seq<MessageModel>, i: int) -> Seq<u8>
    decreases ms.len() - i,
{
    if i < 0 || i >= ms.len() {
        Seq::empty()
    } else {
        seq![44u8] + spec_message(ms[i]) + spec_message_items(ms, i + 1)
    }
}

/// The wire bytes of a message list, in list order.
pub open spec fn spec_messages(ms: Seq<MessageModel>) -> Seq<u8> {
    spec_group(91, spec_message_items(ms, 0), 93)
}

/// Appends the wire bytes of a message list.
pub fn append_messages(out: &mut Vec<u8>, ms: &Vec<Message>)
    ensures
        final(out)@ == old(out)@ + spec_messages(ms@.map_values(|m: Message| m@)),
{
    let ghost model = ms@.map_values(|m: Message| m@);
    let mut items: Vec<u8> = Vec::new();
    let mut i: usize = 0;
    while i < ms.len()
        invariant
            i <= ms@.len(),
            model == ms@.map_values(|m: Message| m@),
            items@ + spec_message_items(model, i as int) == spec_message_items(model, 0),
        decreases ms@.len() - i,
    {
        let ghost prev = items@;
        items.push(44);
        append_message(&mut items, &ms[i]);
        assert(items@ =~= prev + (seq![44u8] + spec_message(model[i as int])));
        assert(prev + (seq![44u8] + spec_message(model[i as int])) + spec_message_items(
            model,
            i + 1,
        ) =~= prev + spec_message_items(model, i as int));
        i += 1;
    }
    append_group(out, 91, &items, 93);
}

/// The member fragment for an always-present boolean field.
pub open spec fn bool_field(key: &str, b: bool) -> Seq<u8> {
    lit_bytes(key) + spec_bool(b)
}

/// Appends the member fragment for an always-present boolean field.
pub fn append_bool_field(out: &mut Vec<u8>, key: &str, b: bool)
    ensures
        final(out)@ == old(out)@ + bool_field(key, b),
{
    append_lit(out, key);
    append_bool(out, b);
    assert(out@ =~= old(out)@ + bool_field(key, b));
}

/// The member fragment for an always-present decimal field.
pub open spec fn number_field(key: &str, d: Number) -> Seq<u8> {
    lit_bytes(key) + spec_number(d)
}

/// Appends the member fragment for an always-present decimal field.
pub fn append_number_field(out: &mut Vec<u8>, key: &str, d: Number)
    requires
        d.wf(),
    ensures
        final(out)@ == old(out)@ + number_field(key, d),
{
    append_lit(out, key);
    push_number(out, d);
    assert(out@ =~= old(out)@ + number_field(key, d));
}

/// The member fragment for an always-present string field.
pub open spec fn str_field(key: &str, cs: Seq<char>) -> Seq<u8> {
    lit_bytes(key) + json_string(cs)
}

/// Appends the member fragment for an always-present string field.
pub fn append_str_field(out: &mut Vec<u8>, key: &str, v: &str)
    ensures
        final(out)@ == old(out)@ + str_field(key, v@),
{
    append_lit(out, key);
    append_json_string(out, v);
    assert(out@ =~= old(out)@ + str_field(key, v@));
}

/// The member fragment for an always-present unsigned-integer field.
pub open spec fn nat_field(key: &str, n: nat) -> Seq<u8> {
    lit_bytes(key) + spec_dec_digits(n)
}

/// Appends the member fragment for an always-present unsigned field.
pub fn append_nat_field(out: &mut Vec<u8>, key: &str, n: u64)
    ensures
        final(out)@ == old(out)@ + nat_field(key, n as nat),
{
    append_lit(out, key);
    push_u64_digits(out, n);
    assert(out@ =~= old(out)@ + nat_field(key, n as nat));
}

/// The member fragment for an optional unsigned-integer field.
pub open spec fn opt_nat_field(key: &str, v: Option<nat>) -> Seq<u8> {
    match v {
        Some(n) => nat_field(key, n),
        None => Seq::empty(),
    }
}

/// Appends the member fragment for an optional unsigned field.
pub fn append_opt_nat_field(out: &mut Vec<u8>, key: &str, v: Option<u64>)
    ensures
        final(out)@ == old(out)@ + opt_nat_field(
            key,
            match v {
                Some(n) => Some(n as nat),
                None => None,
            },
        ),
{
    match v {
        Some(n) => append_nat_field(out, key, n),
        None => {
            assert(out@ =~= old(out)@ + Seq::<u8>::empty());
        },
    }
}

/// The member fragment for the optional seed field.
pub open spec fn opt_seed_field(key: &str, v: Option<i32>) -> Seq<u8> {
    match v {
        Some(n) => lit_bytes(key) + spec_i64_digits(n as int),
        None => Seq::empty(),
    }
}

/// Appends the member fragment for the optional seed field.
pub fn append_opt_seed_field(out: &mut Vec<u8>, key: &str, v: Option<i32>)
    ensures
        final(out)@ == old(out)@ + opt_seed_field(key, v),
{
    match v {
        Some(n) => {
            append_lit(out, key);
            push_i32_digits(out, n);
            assert(out@ =~= old(out)@ + opt_seed_field(key, v));
        },
        None => {
            assert(out@ =~= old(out)@ + Seq::<u8>::empty());
        },
    }
}

/// The member fragment for the always-present message-list field.
pub open spec fn messages_field(key: &str, ms: Seq<MessageModel>) -> Seq<u8> {
    lit_bytes(key) + spec_messages(ms)
}

/// Appends the member fragment for the message-list field.
pub fn append_messages_field(out: &mut Vec<u8>, key: &str, ms: &Vec<Message>)
    ensures
        final(out)@ == old(out)@ + messages_field(key, ms@.map_values(|m: Message| m@)),
{
    append_lit(out, key);
    append_messages(out, ms);
    assert(out@ =~= old(out)@ + messages_field(key, ms@.map_values(|m: Message| m@)));
}

/// The member fragment for the always-present response-format field.
pub open spec fn response_format_field(key: &str, tag: Seq<char>) -> Seq<u8> {
    lit_bytes(key) + spec_response_format(tag)
}

/// Appends the member fragment for the response-format field.
pub fn append_response_format_field(out: &mut Vec<u8>, key: &str, fmt: &ResponseFormat)
    ensures
        final(out)@ == old(out)@ + response_format_field(key, fmt.response_type@),
{
    append_lit(out, key);
    append_response_format(out, fmt);
    assert(out@ =~= old(out)@ + response_format_field(key, fmt.response_type@));
}

/// The member fragment for the optional stop criterion.
pub open spec fn opt_stop_field(key: &str, v: Option<StopModel>) -> Seq<u8> {
    match v {
        Some(s) => lit_bytes(key) + spec_stop(s),
        None => Seq::empty(),
    }
}

/// Appends the member fragment for the optional stop criterion.
pub fn append_opt_stop_field(out: &mut Vec<u8>, key: &str, v: &Option<StopEnum>)
    ensures
        final(out)@ == old(out)@ + opt_stop_field(key, crate::request::opt_model(*v)),
{
    match v {
        Some(s) => {
            append_lit(out, key);
            append_stop(out, s);
            assert(out@ =~= old(out)@ + opt_stop_field(key, crate::request::opt_model(*v)));
        },
        None => {
            assert(out@ =~= old(out)@ + Seq::<u8>::empty());
        },
    }
}

/// The member fragment for the optional tool-choice policy.
pub open spec fn opt_tool_choice_field(key: &str, v: Option<ToolChoiceModel>) -> Seq<u8> {
    match v {
        Some(c) => lit_bytes(key) + spec_tool_choice(c),
        None => Seq::empty(),
    }
}

/// Appends the member fragment for the optional tool-choice policy.
pub fn append_opt_tool_choice_field(out: &mut Vec<u8>, key: &str, v: &Option<ToolChoiceEnum>)
    ensures
        final(out)@ == old(out)@ + opt_tool_choice_field(key, crate::request::opt_model(*v)),
{
    match v {
        Some(c) => {
            append_lit(out, key);
            append_tool_choice(out, c);
            assert(out@ =~= old(out)@ + opt_tool_choice_field(
                key,
                crate::request::opt_model(*v),
            ));
        },
        None => {
            assert(out@ =~= old(out)@ + Seq::<u8>::empty());
        },
    }
}

/// The abstract content of an optional tool list.
pub open spec fn opt_tools_view(v: Option<Vec<Tool>>) -> Option<Seq<ToolModel>> {
    match v {
        Some(ts) => Some(ts@.map_values(|t: Tool| t@)),
        None => None,
    }
}

/// The member fragment for the optional tool list.
pub open spec fn opt_tools_field(key: &str, v: Option<Seq<ToolModel>>) -> Seq<u8> {
    match v {
        Some(ts) => lit_bytes(key) + spec_tools(ts),
        None => Seq::empty(),
    }
}

/// Appends the member fragment for the optional tool list.
pub fn append_opt_tools_field(out: &mut Vec<u8>, key: &str, v: &Option<Vec<Tool>>)
    ensures
        final(out)@ == old(out)@ + opt_tools_field(key, opt_tools_view(*v)),
{
    match v {
        Some(ts) => {
            append_lit(out, key);
            append_tools(out, ts);
            assert(out@ =~= old(out)@ + opt_tools_field(key, opt_tools_view(*v)));
        },
        None => {
            assert(out@ =~= old(out)@ + Seq::<u8>::empty());
        },
    }
}

/// The abstract value of an optional `u32` field.
pub open spec fn opt_u32_nat(v: Option<u32>) -> Option<nat> {
    match v {
        Some(n) => Some(n as nat),
        None => None,
    }
}

/// The abstract value of an optional `u8` field.
pub open spec fn opt_u8_nat(v: Option<u8>) -> Option<nat> {
    match v {
        Some(n) => Some(n as nat),
        None => None,
    }
}

/// The member fragments of a request, in wire order: the optional fields
/// among them appear exactly when present.
pub open spec fn spec_request_fields(r: RequestModel) -> Seq<u8> {
    opt_raw_field(",\"logit_bias\":", r.logit_bias) + bool_field(",\"logprobs\":", r.logprobs)
        + number_field(",\"frequency_penalty\":", r.frequency_penalty) + opt_nat_field(
        ",\"max_tokens\":",
        opt_u32_nat(r.max_tokens),
    ) + messages_field(",\"messages\":", r.messages) + str_field(",\"model\":", r.model)
        + nat_field(",\"n\":", r.n as nat) + number_field(
        ",\"presence_penalty\":",
        r.presence_penalty,
    ) + response_format_field(",\"response_format\":", r.response_format) + opt_seed_field(
        ",\"seed\":",
        r.seed,
    ) + opt_stop_field(",\"stop\":", r.stop) + bool_field(",\"stream\":", r.stream) + number_field(
        ",\"temperature\":",
        r.temperature,
    ) + opt_tool_choice_field(",\"tool_choice\":", r.tool_choice) + opt_tools_field(
        ",\"tools\":",
        r.tools,
    ) + opt_nat_field(",\"top_logprobs\":", opt_u8_nat(r.top_logprobs)) + number_field(
        ",\"top_p\":",
        r.top_p,
    ) + opt_str_field(",\"user\":", r.user)
}

/// The wire bytes of a whole request: one JSON object holding exactly the
/// present fields, in wire order.
pub open spec fn spec_request(r: RequestModel) -> Seq<u8> {
    spec_group(123, spec_request_fields(r), 125)
}

/// Byte-identical payloads for identical content: the wire bytes are a
/// function of the request's abstract model alone, so two requests that
/// agree on their content — message history included — encode to the same
/// bytes. The credential never enters the payload; it travels in a
/// header outside this crate.
pub proof fn lemma_encoding_deterministic(q1: Request, q2: Request)
    requires
        q1@ == q2@,
    ensures
        spec_request(q1@) == spec_request(q2@),
{
}

/// The two stop shapes on the wire: a single token is a scalar string
/// literal and a token list is an array, so their first bytes already
/// tell them apart. A request holds at most one stop criterion, so the
/// two shapes are mutually exclusive on one request.
pub proof fn lemma_stop_shapes(t: Seq<char>, ts: Seq<Seq<char>>)
    ensures
        spec_stop(StopModel::Token(t)) == json_string(t),
        spec_stop(StopModel::Tokens(ts)) == spec_string_array(ts),
        spec_stop(StopModel::Token(t)).first() == 34,
        spec_stop(StopModel::Tokens(ts)).first() == 91,
{
    assert(json_string(t).first() == 34);
    assert(spec_string_array(ts).first() == 91);
}

/// Encodes a request for the wire, byte for byte as [`spec_request`]
/// states it.
pub fn encode_request(req: &Request) -> (out: Vec<u8>)
    requires
        req.wf(),
    ensures
        out@ == spec_request(req@),
{
    let mut fields: Vec<u8> = Vec::new();
    append_opt_raw_field(&mut fields, ",\"logit_bias\":", &req.logit_bias);
    append_bool_field(&mut fields, ",\"logprobs\":", req.logprobs);
    append_number_field(&mut fields, ",\"frequency_penalty\":", req.frequency_penalty);
    let max_tokens: Option<u64> = match &req.max_tokens {
        Some(v) => Some(*v as u64),
        None => None,
    };
    append_opt_nat_field(&mut fields, ",\"max_tokens\":", max_tokens);
    append_messages_field(&mut fields, ",\"messages\":", &req.messages);
    append_str_field(&mut fields, ",\"model\":", req.model.as_str());
    append_nat_field(&mut fields, ",\"n\":", req.n as u64);
    append_number_field(&mut fields, ",\"presence_penalty\":", req.presence_penalty);
    append_response_format_field(&mut fields, ",\"response_format\":", &req.response_format);
    append_opt_seed_field(&mut fields, ",\"seed\":", req.seed);
    append_opt_stop_field(&mut fields, ",\"stop\":", &req.stop);
    append_bool_field(&mut fields, ",\"stream\":", req.stream);
    append_number_field(&mut fields, ",\"temperature\":", req.temperature);
    append_opt_tool_choice_field(&mut fields, ",\"tool_choice\":", &req.tool_choice);
    append_opt_tools_field(&mut fields, ",\"tools\":", &req.tools);
    let top_logprobs: Option<u64> = match &req.top_logprobs {
        Some(v) => Some(*v as u64),
        None => None,
    };
    append_opt_nat_field(&mut fields, ",\"top_logprobs\":", top_logprobs);
    append_number_field(&mut fields, ",\"top_p\":", req.top_p);
    append_opt_str_field(&mut fields, ",\"user\":", &req.user);
    assert(fields@ == spec_request_fields(req@));
    let mut out: Vec<u8> = Vec::new();
    append_group(&mut out, 123, &fields, 125);
    out
}

} // verus!
