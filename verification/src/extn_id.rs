//! Typed extension identifiers: `ripple:<type>:<class>:<service>`, parsed
//! from the symbol names an extension manifest declares.

use vstd::prelude::*;
use crate::device::RippleError;
use crate::text::str_eq;

verus! {

/// What kind of unit an extension id names.
#[derive(Debug, Clone, Copy, PartialEq, Eq, Structural)]
pub enum ExtnType {
    Main,
    Channel,
    Extn,
}

/// A parsed extension id. The class of a channel id names the capability
/// family it controls; `device` marks the privileged device channel.
#[derive(Debug, PartialEq)]
pub struct ExtnId {
    pub extn_type: ExtnType,
    pub class: String,
    pub service: String,
}

/// The segments of `s` between its `:` separators; a text without `:` is
/// one segment, and the empty text is one empty segment.
pub open spec fn split_colon(s: Seq<char>) -> Seq<Seq<char>>
    decreases s.len(),
{
    if s.len() == 0 {
        seq![Seq::<char>::empty()]
    } else if s[0] == ':' {
        seq![Seq::<char>::empty()] + split_colon(s.skip(1))
    } else {
        let rest = split_colon(s.skip(1));
        seq![seq![s[0]] + rest[0]] + rest.skip(1)
    }
}

/// The split of a non-empty text has at least one segment.
pub proof fn lemma_split_colon_len(s: Seq<char>)
    ensures
        split_colon(s).len() >= 1,
    decreases s.len(),
{
    if s.len() > 0 {
        lemma_split_colon_len(s.skip(1));
    }
}

/// Splits the text at every `:`.
pub fn split_colon_exec(s: &str) -> (r: Vec<String>)
    ensures
        r@.len() == split_colon(s@).len(),
        forall|i: int| 0 <= i < r@.len() ==> (#[trigger] r@[i])@ == split_colon(s@)[i],
    decreases s@.len(),
{
    let n = s.unicode_len();
    if n == 0 {
        let mut r: Vec<String> = Vec::new();
        r.push(String::new());
        return r;
    }
    let c = s.get_char(0);
    let tail = s.substring_char(1, n);
    proof {
        assert(tail@ =~= s@.skip(1));
    }
    let rest = split_colon_exec(tail);
    proof {
        lemma_split_colon_len(tail@);
    }
    let mut r: Vec<String> = Vec::new();
    if c == ':' {
        r.push(String::new());
        append_all(&mut r, &rest, 0);
        proof {
            assert forall|i: int| 0 <= i < r@.len() implies (#[trigger] r@[i])@ == split_colon(
                s@,
            )[i] by {
                if i > 0 {
                    assert(r@[i]@ == rest@[i - 1]@);
                    assert(split_colon(s@)[i] == split_colon(s@.skip(1))[i - 1]);
                }
            }
        }
    } else {
        let mut first = String::new();
        first.push(c);
        first.append(rest[0].as_str());
        proof {
            assert(first@ =~= seq![s@[0]] + split_colon(s@.skip(1))[0]);
        }
        r.push(first);
        append_all(&mut r, &rest, 1);
        proof {
            assert forall|i: int| 0 <= i < r@.len() implies (#[trigger] r@[i])@ == split_colon(
                s@,
            )[i] by {
                if i > 0 {
                    assert(r@[i]@ == rest@[i]@);
                    assert(split_colon(s@)[i] == split_colon(s@.skip(1)).skip(1)[i - 1]);
                }
            }
        }
    }
    r
}

/// Appends copies of `src[from..]` to `dst`.
fn append_all(dst: &mut Vec<String>, src: &Vec<String>, from: usize)
    requires
        from <= src@.len(),
    ensures
        final(dst)@.len() == old(dst)@.len() + src@.len() - from,
        forall|i: int| 0 <= i < old(dst)@.len() ==> (#[trigger] final(dst)@[i]) == old(dst)@[i],
        forall|i: int|
            old(dst)@.len() <= i < final(dst)@.len() ==> (#[trigger] final(dst)@[i])@ == src@[i - old(
                dst,
            )@.len() + from]@,
{
    let n = src.len();
    let mut j: usize = from;
    while j < n
        invariant
            from <= j <= n,
            n == src@.len(),
            dst@.len() == old(dst)@.len() + j - from,
            forall|i: int| 0 <= i < old(dst)@.len() ==> (#[trigger] dst@[i]) == old(dst)@[i],
            forall|i: int|
                old(dst)@.len() <= i < dst@.len() ==> (#[trigger] dst@[i])@ == src@[i - old(
                    dst,
                )@.len() + from]@,
        decreases n - j,
    {
        dst.push(src[j].clone());
        j = j + 1;
    }
}

/// Whether the text is a well-formed extension id: four `:`-separated
/// segments, the first `ripple`, the second a known type, the last two
/// non-empty.
pub open spec fn spec_extn_id_ok(s: Seq<char>) -> bool {
    let parts = split_colon(s);
    parts.len() == 4 && parts[0] == "ripple"@ && (parts[1] == "main"@ || parts[1] == "channel"@
        || parts[1] == "extn"@) && parts[2].len() > 0 && parts[3].len() > 0
}

/// The type named by the second segment.
pub open spec fn spec_extn_type_of(s: Seq<char>) -> ExtnType {
    if split_colon(s)[1] == "main"@ {
        ExtnType::Main
    } else if split_colon(s)[1] == "channel"@ {
        ExtnType::Channel
    } else {
        ExtnType::Extn
    }
}

impl ExtnId {
    /// Parses an extension id, as `spec_extn_id_ok` states.
    pub fn try_from(id: &str) -> (r: Result<ExtnId, RippleError>)
        ensures
            r is Ok <==> spec_extn_id_ok(id@),
            r matches Ok(e) ==> e.extn_type == spec_extn_type_of(id@) && e.class@ == split_colon(
                id@,
            )[2] && e.service@ == split_colon(id@)[3],
            r matches Err(err) ==> err == RippleError::ParseError,
    {
        let mut parts = split_colon_exec(id);
        if parts.len() != 4 {
            return Err(RippleError::ParseError);
        }
        if !str_eq(parts[0].as_str(), "ripple") {
            return Err(RippleError::ParseError);
        }
        let extn_type = if str_eq(parts[1].as_str(), "main") {
            ExtnType::Main
        } else if str_eq(parts[1].as_str(), "channel") {
            ExtnType::Channel
        } else if str_eq(parts[1].as_str(), "extn") {
            ExtnType::Extn
        } else {
            return Err(RippleError::ParseError);
        };
        if parts[2].as_str().is_empty() || parts[3].as_str().is_empty() {
            return Err(RippleError::ParseError);
        }
        let service = match parts.pop() {
            Some(s) => s,
            None => String::new(),
        };
        let class = match parts.pop() {
            Some(s) => s,
            None => String::new(),
        };
        Ok(ExtnId { extn_type, class, service })
    }

    /// Renders the id back to its `ripple:<type>:<class>:<service>` text.
    pub fn to_string(&self) -> (r: String)
        ensures
            r@ == "ripple:"@ + (match self.extn_type {
                ExtnType::Main => "main"@,
                ExtnType::Channel => "channel"@,
                ExtnType::Extn => "extn"@,
            }) + ":"@ + self.class@ + ":"@ + self.service@,
    {
        let mut m = String::new();
        m.append("ripple:");
        match self.extn_type {
            ExtnType::Main => m.append("main"),
            ExtnType::Channel => m.append("channel"),
            ExtnType::Extn => m.append("extn"),
        }
        m.append(":");
        m.append(self.class.as_str());
        m.append(":");
        m.append(self.service.as_str());
        m
    }

    /// Whether the id names the privileged device channel.
    pub fn is_device_channel(&self) -> (r: bool)
        ensures
            r == (self.extn_type == ExtnType::Channel && self.class@ == "device"@),
    {
        self.extn_type == ExtnType::Channel && str_eq(self.class.as_str(), "device")
    }
}

impl Clone for ExtnId {
    fn clone(&self) -> (res: Self)
        ensures
            res == *self,
    {
        ExtnId {
            extn_type: self.extn_type,
            class: self.class.clone(),
            service: self.service.clone(),
        }
    }
}

} // verus!
