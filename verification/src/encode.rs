//! Request encoding: the JSON body of a chat-completion request, produced
//! character by character against an exact specification of the text,
//! including JSON string escaping.

use crate::messages::{msgs_view, Message, MsgModel};
use vstd::prelude::*;

verus! {

/// One chat-completion request; never mutated after encoding.
#[derive(Debug)]
pub struct CompletionRequest {
    pub model: String,
    pub messages: Vec<Message>,
    pub stream: bool,
}

pub struct ReqModel {
    pub model: Seq<char>,
    pub messages: Seq<MsgModel>,
    pub stream: bool,
}

impl View for CompletionRequest {
    type V = ReqModel;

    open spec fn view(&self) -> ReqModel {
        ReqModel { model: self.model@, messages: msgs_view(self.messages@), stream: self.stream }
    }
}

/// The hexadecimal digit for one value below sixteen.
pub open spec fn hex_digit(n: u32) -> char {
    if n == 0 {
        '0'
    } else if n == 1 {
        '1'
    } else if n == 2 {
        '2'
    } else if n == 3 {
        '3'
    } else if n == 4 {
        '4'
    } else if n == 5 {
        '5'
    } else if n == 6 {
        '6'
    } else if n == 7 {
        '7'
    } else if n == 8 {
        '8'
    } else if n == 9 {
        '9'
    } else if n == 10 {
        'a'
    } else if n == 11 {
        'b'
    } else if n == 12 {
        'c'
    } else if n == 13 {
        'd'
    } else if n == 14 {
        'e'
    } else {
        'f'
    }
}

/// JSON escaping of one character: quote and backslash are escaped, the named
/// control characters use their short escapes, any other control character its
/// four-digit escape, and everything else stands as itself.
pub open spec fn esc_char(c: char) -> Seq<char> {
    if c == '"' {
        seq!['\\', '"']
    } else if c == '\\' {
        seq!['\\', '\\']
    } else if c == '\n' {
        seq!['\\', 'n']
    } else if c == '\r' {
        seq!['\\', 'r']
    } else if c == '\t' {
        seq!['\\', 't']
    } else if (c as u32) < 0x20 {
        seq!['\\', 'u', '0', '0', hex_digit((c as u32) / 16), hex_digit((c as u32) % 16)]
    } else {
        seq![c]
    }
}

/// JSON escaping of a whole text.
pub open spec fn json_escaped(s: Seq<char>) -> Seq<char>
    decreases s.len(),
{
    if s.len() == 0 {
        Seq::<char>::empty()
    } else {
        json_escaped(s.drop_last()) + esc_char(s.last())
    }
}

/// The exact body text of one message object.
pub open spec fn message_json_text(m: MsgModel) -> Seq<char> {
    "{\"role\":\""@ + json_escaped(m.role) + "\",\"content\":\""@ + json_escaped(m.content)
        + "\"}"@
}

/// The message objects joined with commas, in order.
pub open spec fn messages_json_text(ms: Seq<MsgModel>) -> Seq<char>
    decreases ms.len(),
{
    if ms.len() == 0 {
        Seq::<char>::empty()
    } else if ms.len() == 1 {
        message_json_text(ms[0])
    } else {
        messages_json_text(ms.drop_last()) + ","@ + message_json_text(ms.last())
    }
}

pub open spec fn bool_json_text(b: bool) -> Seq<char> {
    if b {
        "true"@
    } else {
        "false"@
    }
}

/// The exact body text of one chat-completion request.
pub open spec fn request_json_text(r: ReqModel) -> Seq<char> {
    "{\"model\":\""@ + json_escaped(r.model) + "\",\"messages\":["@ + messages_json_text(
        r.messages,
    ) + "],\"stream\":"@ + bool_json_text(r.stream) + "}"@
}

fn append_hex_digit(out: &mut String, n: u32)
    requires
        n < 16,
    ensures
        final(out)@ == old(out)@ + seq![hex_digit(n)],
{
    proof {
        reveal_strlit("0");
        reveal_strlit("1");
        reveal_strlit("2");
        reveal_strlit("3");
        reveal_strlit("4");
        reveal_strlit("5");
        reveal_strlit("6");
        reveal_strlit("7");
        reveal_strlit("8");
        reveal_strlit("9");
        reveal_strlit("a");
        reveal_strlit("b");
        reveal_strlit("c");
        reveal_strlit("d");
        reveal_strlit("e");
        reveal_strlit("f");
    }
    if n == 0 {
        out.append("0");
    } else if n == 1 {
        out.append("1");
    } else if n == 2 {
        out.append("2");
    } else if n == 3 {
        out.append("3");
    } else if n == 4 {
        out.append("4");
    } else if n == 5 {
        out.append("5");
    } else if n == 6 {
        out.append("6");
    } else if n == 7 {
        out.append("7");
    } else if n == 8 {
        out.append("8");
    } else if n == 9 {
        out.append("9");
    } else if n == 10 {
        out.append("a");
    } else if n == 11 {
        out.append("b");
    } else if n == 12 {
        out.append("c");
    } else if n == 13 {
        out.append("d");
    } else if n == 14 {
        out.append("e");
    } else {
        out.append("f");
    }
    proof {
        assert(final(out)@ =~= old(out)@ + seq![hex_digit(n)]);
    }
}

fn append_escaped(out: &mut String, s: &str)
    ensures
        final(out)@ == old(out)@ + json_escaped(s@),
{
    let ghost base = out@;
    let n = s.unicode_len();
    let mut i: usize = 0;
    while i < n
        invariant
            i <= n,
            n == s@.len(),
            out@ == base + json_escaped(s@.take(i as int)),
        decreases n - i,
    {
        let ghost before = out@;
        let c = s.get_char(i);
        if c == '"' {
            out.append("\\\"");
            proof {
                reveal_strlit("\\\"");
                assert(out@ =~= before + esc_char(c));
            }
        } else if c == '\\' {
            out.append("\\\\");
            proof {
                reveal_strlit("\\\\");
                assert(out@ =~= before + esc_char(c));
            }
        } else if c == '\n' {
            out.append("\\n");
            proof {
                reveal_strlit("\\n");
                assert(out@ =~= before + esc_char(c));
            }
        } else if c == '\r' {
            out.append("\\r");
            proof {
                reveal_strlit("\\r");
                assert(out@ =~= before + esc_char(c));
            }
        } else if c == '\t' {
            out.append("\\t");
            proof {
                reveal_strlit("\\t");
                assert(out@ =~= before + esc_char(c));
            }
        } else if (c as u32) < 0x20 {
            let code = c as u32;
            out.append("\\u00");
            append_hex_digit(out, code / 16);
            append_hex_digit(out, code % 16);
            proof {
                reveal_strlit("\\u00");
                assert(out@ =~= before + esc_char(c));
            }
        } else {
            let piece = s.substring_char(i, i + 1);
            out.append(piece);
            proof {
                assert(piece@ =~= seq![s@[i as int]]);
                assert(out@ =~= before + esc_char(c));
            }
        }
        i += 1;
        proof {
            assert(s@.take(i as int).drop_last() =~= s@.take(i - 1));
            assert(s@.take(i as int).last() == s@[i - 1]);
        }
    }
    proof {
        assert(s@.take(n as int) =~= s@);
    }
}

fn append_message(out: &mut String, m: &Message)
    ensures
        final(out)@ == old(out)@ + message_json_text(m@),
{
    out.append("{\"role\":\"");
    append_escaped(out, m.role.as_str());
    out.append("\",\"content\":\"");
    append_escaped(out, m.content.as_str());
    out.append("\"}");
}

/// Encodes one request into the exact JSON body text sent over the wire.
pub fn encode_request(req: &CompletionRequest) -> (r: String)
    ensures
        r@ == request_json_text(req@),
{
    let mut out = String::new();
    out.append("{\"model\":\"");
    append_escaped(&mut out, req.model.as_str());
    out.append("\",\"messages\":[");
    let ghost mid = out@;
    let mut i: usize = 0;
    while i < req.messages.len()
        invariant
            i <= req.messages.len(),
            mid == "{\"model\":\""@ + json_escaped(req.model@) + "\",\"messages\":["@,
            out@ == mid + messages_json_text(msgs_view(req.messages@).take(i as int)),
        decreases req.messages.len() - i,
    {
        let ghost before = out@;
        if i > 0 {
            out.append(",");
        }
        append_message(&mut out, &req.messages[i]);
        i += 1;
        proof {
            let ms = msgs_view(req.messages@);
            assert(ms.take(i as int).drop_last() =~= ms.take(i - 1));
            assert(ms.take(i as int).last() == ms[i - 1]);
            assert(ms[i - 1] == req.messages@[i - 1]@);
        }
    }
    proof {
        assert(msgs_view(req.messages@).take(req.messages@.len() as int) =~= msgs_view(
            req.messages@,
        ));
    }
    out.append("],\"stream\":");
    if req.stream {
        out.append("true");
    } else {
        out.append("false");
    }
    out.append("}");
    out
}

} // verus!
