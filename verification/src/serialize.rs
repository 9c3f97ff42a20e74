//! Verified serialization of the outbound request to its JSON wire form.
//! The spec functions give the exact character sequence the serializer
//! produces: strings are escaped the way the wire format expects, the
//! sampling parameters held in hundredths are rendered as decimals, and the
//! reasoning-mode field is present among the serialized fields exactly when
//! thinking mode is on.
use vstd::prelude::*;

use crate::config::VisionConfig;
use crate::text::{push_char, spec_digit_char, spec_u64_digits, u64_to_string};
use crate::types::{
    ContentPart, ThinkingConfig, VisionChatRequest, VisionContent, VisionMessage,
};

verus! {

/// The hexadecimal digit character for `d` (0 through 15), lower case.
pub open spec fn spec_hex_char(d: nat) -> char {
    if d < 10 {
        spec_digit_char(d)
    } else {
        ((87 + d) as u8) as char
    }
}

fn hex_char(d: u8) -> (c: char)
    requires
        d < 16,
    ensures
        c == spec_hex_char(d as nat),
{
    if d < 10 {
        (48 + d) as char
    } else {
        (87 + d) as char
    }
}

/// How one character is written inside a JSON string: quote and backslash
/// get a backslash escape, the named control characters their short forms,
/// any other control character a `\u00XX` escape, and everything else
/// stands as itself.
pub open spec fn spec_escape_char(c: char) -> Seq<char> {
    if c == '"' {
        seq!['\\', '"']
    } else if c == '\\' {
        seq!['\\', '\\']
    } else if c == '\u{8}' {
        seq!['\\', 'b']
    } else if c == '\u{c}' {
        seq!['\\', 'f']
    } else if c == '\n' {
        seq!['\\', 'n']
    } else if c == '\r' {
        seq!['\\', 'r']
    } else if c == '\t' {
        seq!['\\', 't']
    } else if (c as u32) < 0x20 {
        seq!['\\', 'u', '0', '0', spec_hex_char((c as u32 / 16) as nat), spec_hex_char(
            (c as u32 % 16) as nat,
        )]
    } else {
        seq![c]
    }
}

/// The escaped form of a whole character sequence.
pub open spec fn spec_escape(s: Seq<char>) -> Seq<char>
    decreases s.len(),
{
    if s.len() == 0 {
        Seq::empty()
    } else {
        spec_escape(s.drop_last()) + spec_escape_char(s.last())
    }
}

/// A JSON string: the escaped characters between double quotes.
pub open spec fn spec_json_string(s: Seq<char>) -> Seq<char> {
    seq!['"'] + spec_escape(s) + seq!['"']
}

fn append_escaped(out: &mut String, s: &str)
    ensures
        final(out)@ == old(out)@ + spec_escape(s@),
{
    let n = s.unicode_len();
    let mut i: usize = 0;
    while i < n
        invariant
            i <= n,
            n == s@.len(),
            out@ == old(out)@ + spec_escape(s@.subrange(0, i as int)),
        decreases n - i,
    {
        let c = s.get_char(i);
        if c == '"' {
            out.append("\\\"");
            proof {
                reveal_strlit("\\\"");
                assert("\\\""@ =~= spec_escape_char(c));
            }
        } else if c == '\\' {
            out.append("\\\\");
            proof {
                reveal_strlit("\\\\");
                assert("\\\\"@ =~= spec_escape_char(c));
            }
        } else if c == '\u{8}' {
            out.append("\\b");
            proof {
                reveal_strlit("\\b");
                assert("\\b"@ =~= spec_escape_char(c));
            }
        } else if c == '\u{c}' {
            out.append("\\f");
            proof {
                reveal_strlit("\\f");
                assert("\\f"@ =~= spec_escape_char(c));
            }
        } else if c == '\n' {
            out.append("\\n");
            proof {
                reveal_strlit("\\n");
                assert("\\n"@ =~= spec_escape_char(c));
            }
        } else if c == '\r' {
            out.append("\\r");
            proof {
                reveal_strlit("\\r");
                assert("\\r"@ =~= spec_escape_char(c));
            }
        } else if c == '\t' {
            out.append("\\t");
            proof {
                reveal_strlit("\\t");
                assert("\\t"@ =~= spec_escape_char(c));
            }
        } else if (c as u32) < 0x20 {
            let v = c as u32;
            out.append("\\u00");
            push_char(out, hex_char((v / 16) as u8));
            push_char(out, hex_char((v % 16) as u8));
            proof {
                reveal_strlit("\\u00");
                assert("\\u00"@.push(spec_hex_char((c as u32 / 16) as nat)).push(
                    spec_hex_char((c as u32 % 16) as nat),
                ) =~= spec_escape_char(c));
            }
        } else {
            push_char(out, c);
            proof {
                assert(Seq::<char>::empty().push(c) =~= spec_escape_char(c));
            }
        }
        proof {
            let cur = s@.subrange(0, i + 1);
            assert(cur.drop_last() =~= s@.subrange(0, i as int));
            assert(cur.last() == s@[i as int]);
            assert(spec_escape(cur) == spec_escape(s@.subrange(0, i as int)) + spec_escape_char(
                s@[i as int],
            ));
            assert(out@ =~= old(out)@ + spec_escape(cur));
        }
        i += 1;
    }
    proof {
        assert(s@.subrange(0, n as int) =~= s@);
    }
}

fn append_json_string(out: &mut String, s: &str)
    ensures
        final(out)@ == old(out)@ + spec_json_string(s@),
{
    push_char(out, '"');
    append_escaped(out, s);
    push_char(out, '"');
    proof {
        assert(out@ =~= old(out)@ + spec_json_string(s@));
    }
}

/// Serializes one string to its JSON form.
pub fn json_string_of(s: &str) -> (r: String)
    ensures
        r@ == spec_json_string(s@),
{
    let mut out = String::new();
    append_json_string(&mut out, s);
    proof {
        assert(Seq::<char>::empty() + spec_json_string(s@) =~= spec_json_string(s@));
    }
    out
}

/// A JSON boolean.
pub open spec fn spec_bool_json(b: bool) -> Seq<char> {
    if b {
        "true"@
    } else {
        "false"@
    }
}

/// The decimal rendering of a value held in hundredths of a unit: the whole
/// part, a dot, then the fraction with a trailing zero digit dropped (80 is
/// "0.8", 123 is "1.23", 100 is "1.0", 5 is "0.05").
pub open spec fn spec_decimal_hundredths(h: nat) -> Seq<char> {
    let whole = spec_u64_digits(h / 100);
    let frac = h % 100;
    if frac == 0 {
        whole + seq!['.', '0']
    } else if frac % 10 == 0 {
        whole + seq!['.', spec_digit_char(frac / 10)]
    } else {
        whole + seq!['.', spec_digit_char(frac / 10), spec_digit_char(frac % 10)]
    }
}

fn append_decimal_hundredths(out: &mut String, h: u32)
    ensures
        final(out)@ == old(out)@ + spec_decimal_hundredths(h as nat),
{
    let whole = u64_to_string((h / 100) as u64);
    out.append(whole.as_str());
    push_char(out, '.');
    let frac = (h % 100) as u8;
    if frac == 0 {
        push_char(out, '0');
    } else if frac % 10 == 0 {
        push_char(out, (48 + frac / 10) as char);
    } else {
        push_char(out, (48 + frac / 10) as char);
        push_char(out, (48 + frac % 10) as char);
    }
    proof {
        assert(out@ =~= old(out)@ + spec_decimal_hundredths(h as nat));
    }
}

/// The wire form of one content part, with its fixed discriminant string.
pub open spec fn spec_part_json(p: ContentPart) -> Seq<char> {
    match p {
        ContentPart::Text { text } => "{\"type\":\"text\",\"text\":"@ + spec_json_string(text@)
            + "}"@,
        ContentPart::ImageUrl { image_url } => "{\"type\":\"image_url\",\"image_url\":{\"url\":"@
            + spec_json_string(image_url.url@) + "}}"@,
        ContentPart::VideoUrl { video_url } => "{\"type\":\"video_url\",\"video_url\":{\"url\":"@
            + spec_json_string(video_url.url@) + "}}"@,
    }
}

fn append_part(out: &mut String, p: &ContentPart)
    ensures
        final(out)@ == old(out)@ + spec_part_json(*p),
{
    match p {
        ContentPart::Text { text } => {
            out.append("{\"type\":\"text\",\"text\":");
            append_json_string(out, text.as_str());
            out.append("}");
        },
        ContentPart::ImageUrl { image_url } => {
            out.append("{\"type\":\"image_url\",\"image_url\":{\"url\":");
            append_json_string(out, image_url.url.as_str());
            out.append("}}");
        },
        ContentPart::VideoUrl { video_url } => {
            out.append("{\"type\":\"video_url\",\"video_url\":{\"url\":");
            append_json_string(out, video_url.url.as_str());
            out.append("}}");
        },
    }
    proof {
        assert(out@ =~= old(out)@ + spec_part_json(*p));
    }
}

/// Serializes one content part.
pub fn content_part_json(p: &ContentPart) -> (r: String)
    ensures
        r@ == spec_part_json(*p),
{
    let mut out = String::new();
    append_part(&mut out, p);
    proof {
        assert(Seq::<char>::empty() + spec_part_json(*p) =~= spec_part_json(*p));
    }
    out
}

/// Items joined by commas.
pub open spec fn spec_join_comma(items: Seq<Seq<char>>) -> Seq<char>
    decreases items.len(),
{
    if items.len() == 0 {
        Seq::empty()
    } else if items.len() == 1 {
        items[0]
    } else {
        spec_join_comma(items.drop_last()) + seq![','] + items.last()
    }
}

/// The wire form of a part list: a JSON array.
pub open spec fn spec_parts_json(ps: Seq<ContentPart>) -> Seq<char> {
    seq!['['] + spec_join_comma(ps.map_values(|p: ContentPart| spec_part_json(p))) + seq![']']
}

fn append_parts(out: &mut String, parts: &Vec<ContentPart>)
    ensures
        final(out)@ == old(out)@ + spec_parts_json(parts@),
{
    push_char(out, '[');
    let n = parts.len();
    let mut i: usize = 0;
    while i < n
        invariant
            i <= n,
            n == parts@.len(),
            out@ == old(out)@ + seq!['['] + spec_join_comma(
                parts@.subrange(0, i as int).map_values(|p: ContentPart| spec_part_json(p)),
            ),
        decreases n - i,
    {
        if i > 0 {
            push_char(out, ',');
        }
        append_part(out, &parts[i]);
        proof {
            let f = |p: ContentPart| spec_part_json(p);
            let pre = parts@.subrange(0, i as int).map_values(f);
            let cur = parts@.subrange(0, i + 1).map_values(f);
            assert(parts@.subrange(0, i + 1) =~= parts@.subrange(0, i as int).push(
                parts@[i as int],
            ));
            assert(cur =~= pre.push(spec_part_json(parts@[i as int])));
            assert(cur.drop_last() =~= pre);
            if i == 0 {
                assert(spec_join_comma(cur) == cur[0]);
                assert(out@ =~= old(out)@ + seq!['['] + spec_join_comma(cur));
            } else {
                assert(spec_join_comma(cur) =~= spec_join_comma(pre) + seq![','] + cur.last());
                assert(out@ =~= old(out)@ + seq!['['] + spec_join_comma(cur));
            }
        }
        i += 1;
    }
    push_char(out, ']');
    proof {
        assert(parts@.subrange(0, n as int) =~= parts@);
        assert(out@ =~= old(out)@ + spec_parts_json(parts@));
    }
}

/// The wire form of a message's content: a JSON string for plain text, a
/// JSON array for a part list.
pub open spec fn spec_content_json(c: VisionContent) -> Seq<char> {
    match c {
        VisionContent::Text(s) => spec_json_string(s@),
        VisionContent::Parts(ps) => spec_parts_json(ps@),
    }
}

/// The wire form of one message.
pub open spec fn spec_message_json(m: VisionMessage) -> Seq<char> {
    "{\"role\":"@ + spec_json_string(m.role@) + ",\"content\":"@ + spec_content_json(m.content)
        + "}"@
}

fn append_message(out: &mut String, m: &VisionMessage)
    ensures
        final(out)@ == old(out)@ + spec_message_json(*m),
{
    out.append("{\"role\":");
    append_json_string(out, m.role.as_str());
    out.append(",\"content\":");
    match &m.content {
        VisionContent::Text(s) => append_json_string(out, s.as_str()),
        VisionContent::Parts(ps) => append_parts(out, ps),
    }
    out.append("}");
    proof {
        assert(out@ =~= old(out)@ + spec_message_json(*m));
    }
}

/// The wire form of the message list.
pub open spec fn spec_messages_json(ms: Seq<VisionMessage>) -> Seq<char> {
    seq!['['] + spec_join_comma(ms.map_values(|m: VisionMessage| spec_message_json(m)))
        + seq![']']
}

fn append_messages(out: &mut String, msgs: &Vec<VisionMessage>)
    ensures
        final(out)@ == old(out)@ + spec_messages_json(msgs@),
{
    push_char(out, '[');
    let n = msgs.len();
    let mut i: usize = 0;
    while i < n
        invariant
            i <= n,
            n == msgs@.len(),
            out@ == old(out)@ + seq!['['] + spec_join_comma(
                msgs@.subrange(0, i as int).map_values(|m: VisionMessage| spec_message_json(m)),
            ),
        decreases n - i,
    {
        if i > 0 {
            push_char(out, ',');
        }
        append_message(out, &msgs[i]);
        proof {
            let f = |m: VisionMessage| spec_message_json(m);
            let pre = msgs@.subrange(0, i as int).map_values(f);
            let cur = msgs@.subrange(0, i + 1).map_values(f);
            assert(msgs@.subrange(0, i + 1) =~= msgs@.subrange(0, i as int).push(
                msgs@[i as int],
            ));
            assert(cur =~= pre.push(spec_message_json(msgs@[i as int])));
            assert(cur.drop_last() =~= pre);
            if i == 0 {
                assert(spec_join_comma(cur) == cur[0]);
                assert(out@ =~= old(out)@ + seq!['['] + spec_join_comma(cur));
            } else {
                assert(spec_join_comma(cur) =~= spec_join_comma(pre) + seq![','] + cur.last());
                assert(out@ =~= old(out)@ + seq!['['] + spec_join_comma(cur));
            }
        }
        i += 1;
    }
    push_char(out, ']');
    proof {
        assert(msgs@.subrange(0, n as int) =~= msgs@);
        assert(out@ =~= old(out)@ + spec_messages_json(msgs@));
    }
}

/// The wire form of the reasoning-mode marker.
pub open spec fn spec_thinking_json(t: ThinkingConfig) -> Seq<char> {
    "{\"type\":"@ + spec_json_string(t.kind@) + "}"@
}

/// The serialized fields of the request, in wire order: each key with the
/// wire form of its value. The reasoning-mode field stands between the
/// messages and the stream flag exactly when the request carries the
/// marker; when it does not, no field of the serialized form is a
/// reasoning-mode field at all.
pub open spec fn spec_request_fields(req: VisionChatRequest) -> Seq<(Seq<char>, Seq<char>)> {
    let head = seq![
        ("model"@, spec_json_string(req.model@)),
        ("messages"@, spec_messages_json(req.messages@)),
    ];
    let tail = seq![
        ("stream"@, spec_bool_json(req.stream)),
        ("temperature"@, spec_decimal_hundredths(req.temperature as nat)),
        ("top_p"@, spec_decimal_hundredths(req.top_p as nat)),
        ("max_tokens"@, spec_u64_digits(req.max_tokens as nat)),
    ];
    match req.thinking {
        Some(t) => head + seq![("thinking"@, spec_thinking_json(t))] + tail,
        None => head + tail,
    }
}

/// One serialized field: the key as a JSON string, a colon, the value.
pub open spec fn spec_kv_json(kv: (Seq<char>, Seq<char>)) -> Seq<char> {
    spec_json_string(kv.0) + seq![':'] + kv.1
}

/// The whole serialized request: its fields joined inside one JSON object.
pub open spec fn spec_request_json(req: VisionChatRequest) -> Seq<char> {
    seq!['{'] + spec_join_comma(
        spec_request_fields(req).map_values(|kv: (Seq<char>, Seq<char>)| spec_kv_json(kv)),
    ) + seq!['}']
}

fn append_kv_joined(out: &mut String, fields: &Vec<(String, String)>)
    ensures
        final(out)@ == old(out)@ + spec_join_comma(
            fields@.map_values(|kv: (String, String)| spec_kv_json((kv.0@, kv.1@))),
        ),
{
    let n = fields.len();
    let mut i: usize = 0;
    while i < n
        invariant
            i <= n,
            n == fields@.len(),
            out@ == old(out)@ + spec_join_comma(
                fields@.subrange(0, i as int).map_values(
                    |kv: (String, String)| spec_kv_json((kv.0@, kv.1@)),
                ),
            ),
        decreases n - i,
    {
        if i > 0 {
            push_char(out, ',');
        }
        append_json_string(out, fields[i].0.as_str());
        push_char(out, ':');
        out.append(fields[i].1.as_str());
        proof {
            let f = |kv: (String, String)| spec_kv_json((kv.0@, kv.1@));
            let pre = fields@.subrange(0, i as int).map_values(f);
            let cur = fields@.subrange(0, i + 1).map_values(f);
            assert(fields@.subrange(0, i + 1) =~= fields@.subrange(0, i as int).push(
                fields@[i as int],
            ));
            assert(cur =~= pre.push(f(fields@[i as int])));
            assert(cur.drop_last() =~= pre);
            assert(f(fields@[i as int]) =~= spec_json_string(fields@[i as int].0@) + seq![':']
                + fields@[i as int].1@);
            if i == 0 {
                assert(spec_join_comma(cur) == cur[0]);
                assert(out@ =~= old(out)@ + spec_join_comma(cur));
            } else {
                assert(spec_join_comma(cur) =~= spec_join_comma(pre) + seq![','] + cur.last());
                assert(out@ =~= old(out)@ + spec_join_comma(cur));
            }
        }
        i += 1;
    }
    proof {
        assert(fields@.subrange(0, n as int) =~= fields@);
    }
}

/// Serializes a request to the JSON text that goes on the wire.
pub fn request_to_json(req: &VisionChatRequest) -> (r: String)
    ensures
        r@ == spec_request_json(*req),
{
    let mut fields: Vec<(String, String)> = Vec::new();
    fields.push(("model".to_owned(), json_string_of(req.model.as_str())));
    let mut msgs = String::new();
    append_messages(&mut msgs, &req.messages);
    fields.push(("messages".to_owned(), msgs));
    match &req.thinking {
        Some(t) => {
            let mut tv = "{\"type\":".to_owned();
            append_json_string(&mut tv, t.kind.as_str());
            tv.append("}");
            proof {
                assert(tv@ =~= spec_thinking_json(req.thinking->Some_0));
            }
            fields.push(("thinking".to_owned(), tv));
        },
        None => {},
    }
    let stream_text = if req.stream {
        "true".to_owned()
    } else {
        "false".to_owned()
    };
    fields.push(("stream".to_owned(), stream_text));
    let mut temp = String::new();
    append_decimal_hundredths(&mut temp, req.temperature);
    fields.push(("temperature".to_owned(), temp));
    let mut topp = String::new();
    append_decimal_hundredths(&mut topp, req.top_p);
    fields.push(("top_p".to_owned(), topp));
    fields.push(("max_tokens".to_owned(), u64_to_string(req.max_tokens as u64)));
    let mut out = String::new();
    push_char(&mut out, '{');
    append_kv_joined(&mut out, &fields);
    push_char(&mut out, '}');
    proof {
        let f = |kv: (String, String)| spec_kv_json((kv.0@, kv.1@));
        let g = |kv: (Seq<char>, Seq<char>)| spec_kv_json(kv);
        assert(fields@.map_values(f) =~= spec_request_fields(*req).map_values(g));
        assert(out@ =~= spec_request_json(*req));
    }
    out
}

/// When thinking mode is disabled, the serialized request contains no
/// reasoning-mode field: no key of any serialized field is "thinking".
pub proof fn lemma_thinking_omitted_when_disabled(req: VisionChatRequest)
    requires
        req.thinking is None,
    ensures
        forall|i: int|
            0 <= i < spec_request_fields(req).len() ==> #[trigger] spec_request_fields(req)[i].0
                != "thinking"@,
{
    reveal_strlit("model");
    reveal_strlit("messages");
    reveal_strlit("stream");
    reveal_strlit("temperature");
    reveal_strlit("top_p");
    reveal_strlit("max_tokens");
    reveal_strlit("thinking");
    let fs = spec_request_fields(req);
    assert(fs.len() == 6);
    assert("model"@.len() == 5 && "thinking"@.len() == 8);
    assert("messages"@[0] == 'm' && "thinking"@[0] == 't');
    assert("stream"@.len() == 6);
    assert("temperature"@.len() == 11);
    assert("top_p"@.len() == 5);
    assert("max_tokens"@.len() == 10);
    assert forall|i: int| 0 <= i < fs.len() implies #[trigger] fs[i].0 != "thinking"@ by {
        if fs[i].0 == "thinking"@ {
            assert(fs[i].0.len() == 8);
        }
    }
}

/// Builds the wire-format request: a system message followed by a user
/// message whose parts are the given content parts with the user's text
/// appended last, the configured model and sampling parameters copied
/// verbatim, streaming off, and the reasoning-mode marker present exactly
/// when the configuration enables thinking.
pub fn build_request(
    system_prompt: &str,
    content_parts: Vec<ContentPart>,
    user_prompt: &str,
    config: &VisionConfig,
) -> (r: VisionChatRequest)
    ensures
        r.model == config.model,
        r.messages@.len() == 2,
        r.messages@[0].role@ == "system"@,
        r.messages@[0].content matches VisionContent::Text(t) && t@ == system_prompt@,
        r.messages@[1].role@ == "user"@,
        r.messages@[1].content matches VisionContent::Parts(ps) && ps@.len() == content_parts@.len()
            + 1 && (forall|i: int| 0 <= i < content_parts@.len() ==> ps@[i] == content_parts@[i])
            && (ps@.last() matches ContentPart::Text { text } && text@ == user_prompt@),
        config.thinking_enabled ==> (r.thinking matches Some(t) && t.kind@ == "enabled"@),
        !config.thinking_enabled ==> r.thinking is None,
        r.stream == false,
        r.temperature == config.temperature,
        r.top_p == config.top_p,
        r.max_tokens == config.max_tokens,
{
    let mut user_content = content_parts;
    user_content.push(ContentPart::Text { text: user_prompt.to_owned() });
    let thinking = if config.thinking_enabled {
        Some(ThinkingConfig { kind: "enabled".to_owned() })
    } else {
        None
    };
    let mut messages: Vec<VisionMessage> = Vec::new();
    messages.push(
        VisionMessage {
            role: "system".to_owned(),
            content: VisionContent::Text(system_prompt.to_owned()),
        },
    );
    messages.push(VisionMessage { role: "user".to_owned(), content: VisionContent::Parts(user_content) });
    VisionChatRequest {
        model: config.model.clone(),
        messages,
        thinking,
        stream: false,
        temperature: config.temperature,
        top_p: config.top_p,
        max_tokens: config.max_tokens,
    }
}

} // verus!
