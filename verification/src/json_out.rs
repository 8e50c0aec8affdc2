//! Verified emission of JSON-RPC reply frames: string escaping, decimal
//! rendering, and the fixed frame shape `{"jsonrpc":"2.0","id":...}` with
//! an optional error member.

use vstd::prelude::*;
use crate::rpc::{JsonRpcError, JsonRpcMessage};

verus! {

/// The character for one decimal digit.
pub open spec fn dec_digit(d: nat) -> char {
    ((48 + d) as u8) as char
}

/// The decimal rendering of a number, most significant digit first.
pub open spec fn dec_u64(n: nat) -> Seq<char>
    decreases n,
{
    if n < 10 {
        seq![dec_digit(n)]
    } else {
        dec_u64(n / 10).push(dec_digit(n % 10))
    }
}

/// The decimal rendering of a signed number.
pub open spec fn dec_i32(v: int) -> Seq<char> {
    if v < 0 {
        seq!['-'] + dec_u64((-v) as nat)
    } else {
        dec_u64(v as nat)
    }
}

/// One hexadecimal digit, lowercase.
pub open spec fn hex_digit(d: nat) -> char {
    if d < 10 {
        ((48 + d) as u8) as char
    } else {
        ((87 + d) as u8) as char
    }
}

/// How one character appears inside a JSON string literal: quotes and
/// backslashes are escaped, control characters take the two-character or
/// `\u00XX` escapes, everything else stands for itself.
pub open spec fn esc_char(c: char) -> Seq<char> {
    if c == '"' {
        seq!['\\', '"']
    } else if c == '\\' {
        seq!['\\', '\\']
    } else if c == '\n' {
        seq!['\\', 'n']
    } else if c == '\r' {
        seq!['\\', 'r']
    } else if c == '\t' {
        seq!['\\', 't']
    } else if (c as u32) < 32 {
        seq!['\\', 'u', '0', '0', hex_digit((c as u32 / 16) as nat), hex_digit(
            (c as u32 % 16) as nat,
        )]
    } else {
        seq![c]
    }
}

/// A whole string escaped for a JSON literal.
pub open spec fn json_escaped(s: Seq<char>) -> Seq<char>
    decreases s.len(),
{
    if s.len() == 0 {
        Seq::<char>::empty()
    } else {
        json_escaped(s.drop_last()) + esc_char(s.last())
    }
}

/// The serialized error member: code, escaped message, and the raw `data`
/// JSON only when present.
pub open spec fn json_of_error(e: JsonRpcError) -> Seq<char> {
    "{\"code\":"@ + dec_i32(e.code as int) + ",\"message\":\""@ + json_escaped(e.message@) + "\""@
        + (match e.data {
        Some(d) => ",\"data\":"@ + d@,
        None => Seq::<char>::empty(),
    }) + "}"@
}

/// The serialized reply frame: protocol tag, echoed id, and the error
/// member only when present.
pub open spec fn json_of_message(m: JsonRpcMessage) -> Seq<char> {
    "{\"jsonrpc\":\"2.0\",\"id\":"@ + dec_u64(m.id as nat) + (match m.error {
        Some(e) => ",\"error\":"@ + json_of_error(e),
        None => Seq::<char>::empty(),
    }) + "}"@
}

/// An error reply frame over its parts: the echoed id, the code, the
/// escaped message, and the raw `data` JSON only when present.
pub open spec fn json_of_error_frame(
    id: int,
    code: int,
    message: Seq<char>,
    data: Option<Seq<char>>,
) -> Seq<char> {
    "{\"jsonrpc\":\"2.0\",\"id\":"@ + dec_u64(id as nat) + ",\"error\":"@ + "{\"code\":"@ + dec_i32(
        code,
    ) + ",\"message\":\""@ + json_escaped(message) + "\""@ + (match data {
        Some(d) => ",\"data\":"@ + d,
        None => Seq::<char>::empty(),
    }) + "}"@ + "}"@
}

/// A frame whose error member is present reads as `json_of_error_frame`
/// over the error's parts.
pub proof fn lemma_error_frame(m: JsonRpcMessage)
    requires
        m.error is Some,
    ensures
        json_of_message(m) == json_of_error_frame(
            m.id as int,
            m.error->0.code as int,
            m.error->0.message@,
            match m.error->0.data {
                Some(d) => Some(d@),
                None => None,
            },
        ),
{
    assert(json_of_message(m) =~= json_of_error_frame(
        m.id as int,
        m.error->0.code as int,
        m.error->0.message@,
        match m.error->0.data {
            Some(d) => Some(d@),
            None => None,
        },
    ));
}

/// Appends the decimal rendering of `n`.
pub fn push_dec_u64(n: u64, out: &mut String)
    ensures
        final(out)@ == old(out)@ + dec_u64(n as nat),
    decreases n,
{
    if n >= 10 {
        push_dec_u64(n / 10, out);
    }
    let d = (n % 10) as u8;
    out.push((48 + d) as char);
}

/// Appends the decimal rendering of `v`, with its sign.
pub fn push_dec_i32(v: i32, out: &mut String)
    ensures
        final(out)@ == old(out)@ + dec_i32(v as int),
{
    if v < 0 {
        out.push('-');
        let wide: i64 = v as i64;
        let m: u64 = (-wide) as u64;
        push_dec_u64(m, out);
    } else {
        push_dec_u64(v as u64, out);
    }
}

/// Appends `s`, escaped for a JSON string literal.
pub fn push_escaped(s: &str, out: &mut String)
    ensures
        final(out)@ == old(out)@ + json_escaped(s@),
{
    let n = s.unicode_len();
    let mut i: usize = 0;
    while i < n
        invariant
            n == s@.len(),
            i <= n,
            out@ == old(out)@ + json_escaped(s@.take(i as int)),
        decreases n - i,
    {
        let c = s.get_char(i);
        if c == '"' {
            out.push('\\');
            out.push('"');
        } else if c == '\\' {
            out.push('\\');
            out.push('\\');
        } else if c == '\n' {
            out.push('\\');
            out.push('n');
        } else if c == '\r' {
            out.push('\\');
            out.push('r');
        } else if c == '\t' {
            out.push('\\');
            out.push('t');
        } else {
            let u = c as u32;
            if u < 32 {
                out.push('\\');
                out.push('u');
                out.push('0');
                out.push('0');
                let hi = (u / 16) as u8;
                let lo = (u % 16) as u8;
                out.push((48 + hi) as char);
                if lo < 10 {
                    out.push((48 + lo) as char);
                } else {
                    out.push((87 + lo) as char);
                }
            } else {
                out.push(c);
            }
        }
        proof {
            assert(s@.take(i + 1 as int).drop_last() =~= s@.take(i as int));
            assert(s@.take(i + 1 as int).last() == s@[i as int]);
            assert(out@ =~= old(out)@ + json_escaped(s@.take(i + 1 as int)));
        }
        i = i + 1;
    }
    proof {
        assert(s@.take(n as int) =~= s@);
    }
}

/// Serializes a reply frame as `json_of_message` states.
pub fn serialize_json_rpc_message(m: &JsonRpcMessage) -> (r: String)
    ensures
        r@ == json_of_message(*m),
{
    let mut out = String::new();
    out.append("{\"jsonrpc\":\"2.0\",\"id\":");
    push_dec_u64(m.id, &mut out);
    match &m.error {
        Some(e) => {
            out.append(",\"error\":");
            out.append("{\"code\":");
            push_dec_i32(e.code, &mut out);
            out.append(",\"message\":\"");
            push_escaped(e.message.as_str(), &mut out);
            out.append("\"");
            match &e.data {
                Some(d) => {
                    out.append(",\"data\":");
                    out.append(d.as_str());
                },
                None => {},
            }
            out.append("}");
        },
        None => {},
    }
    out.append("}");
    proof {
        assert(out@ =~= json_of_message(*m));
    }
    out
}

} // verus!
