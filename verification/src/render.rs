//! Serializing a [`Response`] to its wire text.
//!
//! The wire format is a JSON object with its keys in alphabetical
//! order (`err`, `messages`, `status`, `token`, `type`) and no spaces,
//! and with strings escaped the usual JSON way: quote, backslash and
//! the control characters, the latter as `\b`, `\f`, `\n`, `\r`, `\t`
//! or `\u00` followed by two lowercase hex digits.  The spec functions
//! below state the exact text; the executable renderer is proved to
//! produce it.

use vstd::prelude::*;

use crate::protocol::{err_word, kind_word, ErrCode, ReqKind, Response, RespView};

verus! {

/// Relies on `String::push`: appends the given character to the end of
/// the string.
pub assume_specification[ String::push ](s: &mut String, c: char)
    ensures
        final(s)@ == old(s)@.push(c),
;

/// The lowercase hex digit of a value below sixteen.
pub open spec fn hex_digit(n: int) -> char {
    if n == 0 { '0' } else if n == 1 { '1' } else if n == 2 { '2' } else if n == 3 { '3' }
    else if n == 4 { '4' } else if n == 5 { '5' } else if n == 6 { '6' } else if n == 7 { '7' }
    else if n == 8 { '8' } else if n == 9 { '9' } else if n == 10 { 'a' } else if n == 11 { 'b' }
    else if n == 12 { 'c' } else if n == 13 { 'd' } else if n == 14 { 'e' } else { 'f' }
}

/// How one character is written inside a JSON string literal.
pub open spec fn escape_char(c: char) -> Seq<char> {
    if c == '"' { seq!['\\', '"'] }
    else if c == '\\' { seq!['\\', '\\'] }
    else if c == '\u{8}' { seq!['\\', 'b'] }
    else if c == '\u{c}' { seq!['\\', 'f'] }
    else if c == '\n' { seq!['\\', 'n'] }
    else if c == '\r' { seq!['\\', 'r'] }
    else if c == '\t' { seq!['\\', 't'] }
    else if (c as u32) < 0x20 {
        seq!['\\', 'u', '0', '0', hex_digit((c as u32 / 16) as int), hex_digit((c as u32 % 16) as int)]
    } else {
        seq![c]
    }
}

/// How a whole string is written inside a JSON string literal.
pub open spec fn escape_str(s: Seq<char>) -> Seq<char>
    decreases s.len(),
{
    if s.len() == 0 {
        Seq::empty()
    } else {
        escape_str(s.drop_last()) + escape_char(s.last())
    }
}

/// A JSON string literal: the escaped text between double quotes.
pub open spec fn quoted(s: Seq<char>) -> Seq<char> {
    seq!['"'] + escape_str(s) + seq!['"']
}

/// One message of the log on the wire: its keys in alphabetical order.
pub open spec fn message_json(p: (Seq<char>, Seq<char>)) -> Seq<char> {
    "{\"message\":"@ + quoted(p.1) + ",\"uname\":"@ + quoted(p.0) + "}"@
}

/// The log's messages, comma-separated, oldest first.
pub open spec fn messages_items_json(ms: Seq<(Seq<char>, Seq<char>)>) -> Seq<char>
    decreases ms.len(),
{
    if ms.len() == 0 {
        Seq::empty()
    } else if ms.len() == 1 {
        message_json(ms[0])
    } else {
        messages_items_json(ms.drop_last()) + ","@ + message_json(ms.last())
    }
}

/// The log snapshot on the wire: a JSON array.
pub open spec fn messages_json(ms: Seq<(Seq<char>, Seq<char>)>) -> Seq<char> {
    "["@ + messages_items_json(ms) + "]"@
}

/// The `status` field.
pub open spec fn status_json(ok: bool) -> Seq<char> {
    if ok {
        "\"status\":\"success\""@
    } else {
        "\"status\":\"failure\""@
    }
}

/// The whole response on the wire.
pub open spec fn response_json(r: RespView) -> Seq<char> {
    "{"@ + (match r.err {
        Some(e) => "\"err\":\""@ + err_word(e) + "\","@,
        None => Seq::empty(),
    }) + (match r.messages {
        Some(ms) => "\"messages\":"@ + messages_json(ms) + ","@,
        None => Seq::empty(),
    }) + status_json(r.ok) + (match r.token {
        Some(t) => ",\"token\":"@ + quoted(t),
        None => Seq::empty(),
    }) + (match r.rtype {
        Some(k) => ",\"type\":\""@ + kind_word(k) + "\""@,
        None => Seq::empty(),
    }) + "}"@
}

/// The lowercase hex digit of a value below sixteen.
fn hex_digit_exec(n: u32) -> (c: char)
    requires
        n < 16,
    ensures
        c == hex_digit(n as int),
{
    if n == 0 { '0' } else if n == 1 { '1' } else if n == 2 { '2' } else if n == 3 { '3' }
    else if n == 4 { '4' } else if n == 5 { '5' } else if n == 6 { '6' } else if n == 7 { '7' }
    else if n == 8 { '8' } else if n == 9 { '9' } else if n == 10 { 'a' } else if n == 11 { 'b' }
    else if n == 12 { 'c' } else if n == 13 { 'd' } else if n == 14 { 'e' } else { 'f' }
}

/// Appends one character, escaped as JSON asks.
fn push_escaped_char(out: &mut String, c: char)
    ensures
        final(out)@ == old(out)@ + escape_char(c),
{
    if c == '"' {
        out.push('\\');
        out.push('"');
    } else if c == '\\' {
        out.push('\\');
        out.push('\\');
    } else if c == '\u{8}' {
        out.push('\\');
        out.push('b');
    } else if c == '\u{c}' {
        out.push('\\');
        out.push('f');
    } else if c == '\n' {
        out.push('\\');
        out.push('n');
    } else if c == '\r' {
        out.push('\\');
        out.push('r');
    } else if c == '\t' {
        out.push('\\');
        out.push('t');
    } else if (c as u32) < 0x20 {
        out.push('\\');
        out.push('u');
        out.push('0');
        out.push('0');
        out.push(hex_digit_exec(c as u32 / 16));
        out.push(hex_digit_exec(c as u32 % 16));
    } else {
        out.push(c);
    }
    proof {
        assert(out@ =~= old(out)@ + escape_char(c));
    }
}

/// Appends the escaped text of `s`.
fn escape_into(out: &mut String, s: &str)
    ensures
        final(out)@ == old(out)@ + escape_str(s@),
{
    let n = s.unicode_len();
    let mut i: usize = 0;
    while i < n
        invariant
            n == s@.len(),
            i <= n,
            out@ == old(out)@ + escape_str(s@.take(i as int)),
        decreases n - i,
    {
        let c = s.get_char(i);
        push_escaped_char(out, c);
        proof {
            assert(s@.take(i as int + 1).drop_last() =~= s@.take(i as int));
            assert(s@.take(i as int + 1).last() == c);
        }
        i += 1;
    }
    proof {
        assert(s@.take(n as int) =~= s@);
    }
}

/// Appends `s` as a JSON string literal.
fn quote_into(out: &mut String, s: &str)
    ensures
        final(out)@ == old(out)@ + quoted(s@),
{
    out.push('"');
    escape_into(out, s);
    out.push('"');
    proof {
        assert(out@ =~= old(out)@ + quoted(s@));
    }
}

/// Appends one message of the log.
fn render_message_into(out: &mut String, p: &(String, String))
    ensures
        final(out)@ == old(out)@ + message_json(p.deep_view()),
{
    out.append("{\"message\":");
    quote_into(out, p.1.as_str());
    out.append(",\"uname\":");
    quote_into(out, p.0.as_str());
    out.append("}");
    proof {
        assert(out@ =~= old(out)@ + message_json(p.deep_view()));
    }
}

/// Appends the log snapshot as a JSON array.
fn render_messages_into(out: &mut String, ms: &Vec<(String, String)>)
    ensures
        final(out)@ == old(out)@ + messages_json(ms.deep_view()),
{
    out.append("[");
    let mut i: usize = 0;
    while i < ms.len()
        invariant
            i <= ms.len(),
            out@ == old(out)@ + "["@ + messages_items_json(ms.deep_view().take(i as int)),
        decreases ms.len() - i,
    {
        if i > 0 {
            out.append(",");
        }
        render_message_into(out, &ms[i]);
        proof {
            let dv = ms.deep_view();
            assert(dv.take(i as int + 1).drop_last() =~= dv.take(i as int));
            assert(dv.take(i as int + 1).last() == dv[i as int]);
            assert(out@ =~= old(out)@ + "["@ + messages_items_json(dv.take(i as int + 1)));
        }
        i += 1;
    }
    out.append("]");
    proof {
        assert(ms.deep_view().take(ms.len() as int) =~= ms.deep_view());
        assert(out@ =~= old(out)@ + messages_json(ms.deep_view()));
    }
}

/// The wire word of an error code.
fn err_word_exec(e: ErrCode) -> (r: &'static str)
    ensures
        r@ == err_word(e),
{
    match e {
        ErrCode::Format => "format",
        ErrCode::AlreadyExists => "already_exists",
        ErrCode::AuthenticationFailed => "authentication_failed",
        ErrCode::Unsupported => "unsupported",
        ErrCode::System => "system",
    }
}

/// The wire word of a request kind.
fn kind_word_exec(k: ReqKind) -> (r: &'static str)
    ensures
        r@ == kind_word(k),
{
    match k {
        ReqKind::Login => "login",
        ReqKind::Ping => "ping",
        ReqKind::Message => "message",
    }
}

/// Serializes a response to exactly the text that [`response_json`]
/// states.
pub fn render_response(resp: &Response) -> (out: String)
    ensures
        out@ == response_json(resp@),
{
    let ghost g_err: Seq<char> = match resp@.err {
        Some(e) => "\"err\":\""@ + err_word(e) + "\","@,
        None => Seq::empty(),
    };
    let ghost g_msgs: Seq<char> = match resp@.messages {
        Some(ms) => "\"messages\":"@ + messages_json(ms) + ","@,
        None => Seq::empty(),
    };
    let ghost g_token: Seq<char> = match resp@.token {
        Some(t) => ",\"token\":"@ + quoted(t),
        None => Seq::empty(),
    };
    let ghost g_type: Seq<char> = match resp@.rtype {
        Some(k) => ",\"type\":\""@ + kind_word(k) + "\""@,
        None => Seq::empty(),
    };
    let mut out = String::new();
    out.append("{");
    match &resp.err {
        Some(e) => {
            out.append("\"err\":\"");
            out.append(err_word_exec(*e));
            out.append("\",");
        },
        None => {},
    }
    proof {
        assert(out@ =~= "{"@ + g_err);
    }
    match &resp.messages {
        Some(ms) => {
            out.append("\"messages\":");
            render_messages_into(&mut out, ms);
            out.append(",");
        },
        None => {},
    }
    proof {
        assert(out@ =~= "{"@ + g_err + g_msgs);
    }
    if resp.ok {
        out.append("\"status\":\"success\"");
    } else {
        out.append("\"status\":\"failure\"");
    }
    proof {
        assert(out@ =~= "{"@ + g_err + g_msgs + status_json(resp@.ok));
    }
    match &resp.token {
        Some(t) => {
            out.append(",\"token\":");
            quote_into(&mut out, t.as_str());
        },
        None => {},
    }
    proof {
        assert(out@ =~= "{"@ + g_err + g_msgs + status_json(resp@.ok) + g_token);
    }
    match &resp.rtype {
        Some(k) => {
            out.append(",\"type\":\"");
            out.append(kind_word_exec(*k));
            out.append("\"");
        },
        None => {},
    }
    proof {
        assert(out@ =~= "{"@ + g_err + g_msgs + status_json(resp@.ok) + g_token + g_type);
    }
    out.append("}");
    proof {
        assert(out@ =~= response_json(resp@));
    }
    out
}

} // verus!
